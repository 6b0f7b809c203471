//! Read-side entry points: player behaviour queries, aggregation over
//! hourly buckets, platform reports and privacy noise.
use vstd::prelude::*;
use crate::analytics::contract::AnalyticsContract;
use crate::analytics::model::{
    aggregate_game_stats_spec,
    aggregate_platform_stats_spec,
    div_toward_zero,
    player_behaviour_spec,
    player_hash,
    privacy_epsilon_of,
    privacy_noise,
    scan_hours,
    zero_totals,
    Totals,
};
use crate::analytics::types::{
    AggregatedGameStats,
    AnalyticsError,
    BucketKey,
    GameMetrics,
    PlatformAggregation,
    PlayerBehaviourSnapshot,
    PrivateMetric,
    BASIS_POINTS,
    DEFAULT_WIN_RATE,
    SECONDS_PER_HOUR,
};
use crate::ids::Address;

verus! {

/// A remainder of division toward zero is smaller than the divisor.
pub proof fn lemma_rem_toward_zero_bound(a: int, b: int)
    requires
        b > 0,
    ensures
        -b < crate::analytics::model::rem_toward_zero(a, b) < b,
{
    if a >= 0 {
        vstd::arithmetic::div_mod::lemma_fundamental_div_mod(a, b);
        vstd::arithmetic::div_mod::lemma_mod_bound(a, b);
    } else {
        let q = (-a) / b;
        vstd::arithmetic::div_mod::lemma_fundamental_div_mod(-a, b);
        vstd::arithmetic::div_mod::lemma_mod_bound(-a, b);
        assert(b * (-q) == -(b * q)) by (nonlinear_arith);
    }
}

impl AnalyticsContract {
    /// The snapshot stored under a hashed player identifier, if any.
    pub fn get_behaviour_by_hash(&self, player_hash: &Vec<u8>) -> (r: Option<PlayerBehaviourSnapshot>)
        ensures
            r is Some == self@.behaviours.dom().contains(player_hash@),
            r matches Some(s) ==> s@ == self@.behaviours[player_hash@],
    {
        match self.behaviours.get(player_hash) {
            Some(s) => Some(s.duplicate()),
            None => None,
        }
    }

    /// A player's behaviour snapshot; only the admin or the player may ask.
    pub fn get_player_behaviour(&self, env: &soroban_sdk::Env, caller: &Address, player: &Address) -> (r:
        Result<Option<PlayerBehaviourSnapshot>, AnalyticsError>)
        ensures
            match r {
                Ok(Some(s)) => player_behaviour_spec(self@, caller@, player@) == Ok::<
                    Option<crate::analytics::types::PlayerBehaviourView>,
                    AnalyticsError,
                >(Some(s@)),
                Ok(None) => player_behaviour_spec(self@, caller@, player@) == Ok::<
                    Option<crate::analytics::types::PlayerBehaviourView>,
                    AnalyticsError,
                >(None),
                Err(e) => player_behaviour_spec(self@, caller@, player@) == Err::<
                    Option<crate::analytics::types::PlayerBehaviourView>,
                    AnalyticsError,
                >(e),
            },
    {
        match &self.admin {
            None => return Err(AnalyticsError::NotInitialized),
            Some(admin) => {
                if !caller.same(admin) && !caller.same(player) {
                    return Err(AnalyticsError::NotAuthorised);
                }
            },
        }
        match self.hash_player(env, player) {
            Err(e) => Err(e),
            Ok(h) => Ok(self.get_behaviour_by_hash(&h)),
        }
    }

    /// Sums the hourly buckets (type 0) of a game that start at
    /// `period_start`, `period_start + 3600`, ... before `period_end`, and
    /// reports the game's win rate from its rewards and wagers.
    pub fn aggregate_game_stats(&self, game_id: u32, period_start: u64, period_end: u64) -> (r: Result<
        AggregatedGameStats,
        AnalyticsError,
    >)
        ensures
            r == aggregate_game_stats_spec(self@, game_id, period_start, period_end),
    {
        let mut acc = Totals { matches: 0, players: 0, wagered: 0, rewards: 0 };
        let mut t = period_start;
        while t < period_end
            invariant
                scan_hours(self@, game_id, zero_totals(), period_start, period_end) == scan_hours(
                    self@,
                    game_id,
                    acc,
                    t,
                    period_end,
                ),
            decreases (if t < period_end {
                period_end - t
            } else {
                0
            }),
        {
            let key = BucketKey { game_id, bucket_type: 0, bucket_start: t };
            match self.buckets.get(&key) {
                Some(b) => {
                    let m = match acc.matches.checked_add(b.match_count) {
                        Some(v) => v,
                        None => return Err(AnalyticsError::ArithmeticOverflow),
                    };
                    let p = match acc.players.checked_add(b.player_count) {
                        Some(v) => v,
                        None => return Err(AnalyticsError::ArithmeticOverflow),
                    };
                    let w = match acc.wagered.checked_add(b.volume) {
                        Some(v) => v,
                        None => return Err(AnalyticsError::ArithmeticOverflow),
                    };
                    let rw = match acc.rewards.checked_add(b.rewards) {
                        Some(v) => v,
                        None => return Err(AnalyticsError::ArithmeticOverflow),
                    };
                    acc = Totals { matches: m, players: p, wagered: w, rewards: rw };
                },
                None => {},
            }
            t = match t.checked_add(SECONDS_PER_HOUR) {
                Some(n) => n,
                None => return Err(AnalyticsError::ArithmeticOverflow),
            };
        }
        let gm = match self.games.get(&game_id) {
            Some(g) => *g,
            None => GameMetrics {
                game_id,
                total_matches: 0,
                total_players: 0,
                total_wagered: 0,
                total_rewards_paid: 0,
                avg_match_duration_secs: 0,
                last_updated: 0,
            },
        };
        let win_rate: u64 = if gm.total_matches > 0 && gm.total_wagered > 0 {
            match gm.total_rewards_paid.checked_mul(BASIS_POINTS) {
                Some(scaled) => (scaled / gm.total_wagered) as u64,
                None => return Err(AnalyticsError::ArithmeticOverflow),
            }
        } else {
            DEFAULT_WIN_RATE
        };
        Ok(
            AggregatedGameStats {
                game_id,
                period_start,
                period_end,
                total_matches: acc.matches,
                total_players: acc.players,
                total_wagered: acc.wagered,
                total_rewards: acc.rewards,
                avg_match_duration: 0,
                win_rate,
                retention_rate: 0,
            },
        )
    }

    /// Aggregates several games over the same period, in order; refused as
    /// the first refused game is.
    pub fn batch_aggregate_games(&self, game_ids: &Vec<u32>, period_start: u64, period_end: u64) -> (r:
        Result<Vec<AggregatedGameStats>, AnalyticsError>)
        ensures
            r matches Ok(v) ==> v@.len() == game_ids@.len() && forall|i: int|
                0 <= i < game_ids@.len() ==> aggregate_game_stats_spec(
                    self@,
                    #[trigger] game_ids@[i],
                    period_start,
                    period_end,
                ) == Ok::<AggregatedGameStats, AnalyticsError>(v@[i]),
            r matches Err(e) ==> exists|i: int|
                0 <= i < game_ids@.len() && aggregate_game_stats_spec(
                    self@,
                    #[trigger] game_ids@[i],
                    period_start,
                    period_end,
                ) == Err::<AggregatedGameStats, AnalyticsError>(e) && forall|j: int|
                    0 <= j < i ==> aggregate_game_stats_spec(
                        self@,
                        #[trigger] game_ids@[j],
                        period_start,
                        period_end,
                    ) is Ok,
    {
        let mut results: Vec<AggregatedGameStats> = Vec::new();
        let mut i: usize = 0;
        while i < game_ids.len()
            invariant
                i <= game_ids@.len(),
                results@.len() == i,
                forall|j: int|
                    0 <= j < i ==> aggregate_game_stats_spec(
                        self@,
                        #[trigger] game_ids@[j],
                        period_start,
                        period_end,
                    ) == Ok::<AggregatedGameStats, AnalyticsError>(results@[j]),
            decreases game_ids@.len() - i,
        {
            match self.aggregate_game_stats(game_ids[i], period_start, period_end) {
                Ok(stats) => results.push(stats),
                Err(e) => return Err(e),
            }
            i = i + 1;
        }
        Ok(results)
    }

    /// Platform totals for a period; figures the contract does not keep
    /// (rewards, session length, daily actives) are zero.
    pub fn aggregate_platform_stats(&self, period_start: u64, period_end: u64) -> (r: Result<
        PlatformAggregation,
        AnalyticsError,
    >)
        ensures
            r == aggregate_platform_stats_spec(self@, period_start, period_end),
    {
        let p = match self.platform {
            Some(p) => p,
            None => return Err(AnalyticsError::NotInitialized),
        };
        let revenue_per_user: i128 = if p.active_players_30d > 0 {
            p.total_volume / (p.active_players_30d as i128)
        } else {
            0
        };
        Ok(
            PlatformAggregation {
                period_start,
                period_end,
                total_matches: p.total_matches_all_time,
                unique_players: p.active_players_30d,
                total_volume: p.total_volume,
                total_rewards: 0,
                avg_session_secs: 0,
                dau: 0,
                mau: p.active_players_30d,
                revenue_per_user,
            },
        )
    }

    /// `value` with deterministic differential-privacy noise scaled by the
    /// privacy epsilon; refused (division by zero) when epsilon is 0.
    pub fn add_privacy_noise(&self, value: i128) -> (r: Result<PrivateMetric, AnalyticsError>)
        ensures
            r is Err == (privacy_epsilon_of(self@) == 0),
            r matches Err(e) ==> e == AnalyticsError::DivisionByZero,
            r matches Ok(pm) ==> pm.name@ == "metric"@ && pm.value == value && pm.epsilon
                == privacy_epsilon_of(self@) && pm.noise == privacy_noise(value, pm.epsilon),
    {
        let epsilon = self.get_privacy_epsilon();
        if epsilon == 0 {
            return Err(AnalyticsError::DivisionByZero);
        }
        let sensitivity: i128 = 1;
        let scale = sensitivity * BASIS_POINTS / (epsilon as i128);
        let rem = value % 7;
        proof {
            lemma_rem_toward_zero_bound(value as int, 7);
            assert(0 <= scale <= 10000) by (nonlinear_arith)
                requires
                    scale == div_toward_zero(10000, epsilon as int),
                    epsilon >= 1,
            ;
            assert(-60000 <= (rem + 3) * scale <= 90000) by (nonlinear_arith)
                requires
                    -6 <= rem <= 6,
                    0 <= scale <= 10000,
            ;
        }
        let noise = (rem + 3) * scale / BASIS_POINTS;
        Ok(PrivateMetric { name: "metric".to_owned(), value, noise, epsilon })
    }
}

} // verus!
