//! Reporting entry points: matches, player behaviour, staking, pushed
//! events, aggregation buckets and cohorts.
use vstd::prelude::*;
use crate::analytics::contract::AnalyticsContract;
use crate::analytics::model::{
    applied,
    behaviour_after_session,
    behaviour_or_fresh,
    current_bucket,
    game_after_match,
    game_or_fresh,
    player_hash,
    record_aggregation_bucket_spec,
    record_cohort_spec,
    record_event_spec,
    record_match_spec,
    record_player_behaviour_spec,
    session_spec,
    update_staked_spec,
    AnalyticsModel,
};
use crate::analytics::types::{
    AggregationBucket,
    AnalyticsError,
    BucketKey,
    CohortAnalysis,
    GameMetrics,
    HourlySnapshot,
    MatchEvent,
    PlatformMetrics,
    PlatformSnapshot,
    PlayerBehaviourSnapshot,
    SECONDS_PER_DAY,
    SECONDS_PER_HOUR,
    SNAPSHOT_WINDOW_HOURS,
};
use crate::digest::sha256;
use crate::ids::{
    concat_bytes,
    copy_bytes,
    Address,
};

verus! {

impl AnalyticsContract {
    /// Records a completed match: updates the game's totals and rolling
    /// average duration and the platform totals. Returns the event to
    /// publish, which names no player.
    pub fn record_match(
        &mut self,
        reporter: &Address,
        game_id: u32,
        match_id: Vec<u8>,
        duration_secs: u64,
        wager_amount: i128,
        reward_amount: i128,
        player_count: u32,
        now: u64,
    ) -> (r: Result<MatchEvent, AnalyticsError>)
        ensures
            applied(
                record_match_spec(
                    old(self)@,
                    reporter@,
                    game_id,
                    duration_secs,
                    wager_amount,
                    reward_amount,
                    player_count,
                    now,
                ),
                r,
                old(self)@,
                final(self)@,
            ),
            r matches Ok(ev) ==> ev.game_id == game_id && ev.match_id@ == match_id@
                && ev.duration_secs == duration_secs && ev.wager_amount == wager_amount
                && ev.reward_amount == reward_amount && ev.player_count == player_count
                && ev.recorded_at == now,
    {
        match self.require_report(reporter) {
            Err(e) => return Err(e),
            Ok(_) => {},
        }
        let gm = match self.games.get(&game_id) {
            Some(g) => *g,
            None => GameMetrics {
                game_id,
                total_matches: 0,
                total_players: 0,
                total_wagered: 0,
                total_rewards_paid: 0,
                avg_match_duration_secs: 0,
                last_updated: now,
            },
        };
        assert(gm == game_or_fresh(old(self)@, game_id, now));
        let next = match self.next_game_metrics(gm, duration_secs, wager_amount, reward_amount, player_count, now) {
            Some(n) => n,
            None => return Err(AnalyticsError::ArithmeticOverflow),
        };
        let pm = match self.platform {
            Some(p) => p,
            None => return Err(AnalyticsError::NotInitialized),
        };
        let matches = match pm.total_matches_all_time.checked_add(1) {
            Some(v) => v,
            None => return Err(AnalyticsError::ArithmeticOverflow),
        };
        let volume = match pm.total_volume.checked_add(wager_amount) {
            Some(v) => v,
            None => return Err(AnalyticsError::ArithmeticOverflow),
        };
        self.games.insert(game_id, next);
        self.platform = Some(
            PlatformMetrics {
                total_matches_all_time: matches,
                total_volume: volume,
                last_updated: now,
                ..pm
            },
        );
        Ok(
            MatchEvent {
                game_id,
                match_id,
                duration_secs,
                wager_amount,
                reward_amount,
                player_count,
                recorded_at: now,
            },
        )
    }

    fn next_game_metrics(
        &self,
        gm: GameMetrics,
        duration_secs: u64,
        wager_amount: i128,
        reward_amount: i128,
        player_count: u32,
        now: u64,
    ) -> (r: Option<GameMetrics>)
        ensures
            r == game_after_match(gm, duration_secs, wager_amount, reward_amount, player_count, now),
    {
        let (count, avg) = match crate::analytics::contract::rolled_average_step(
            gm.avg_match_duration_secs,
            gm.total_matches,
            duration_secs,
        ) {
            Some(p) => p,
            None => return None,
        };
        let players = match gm.total_players.checked_add(player_count as u64) {
            Some(v) => v,
            None => return None,
        };
        let wagered = match gm.total_wagered.checked_add(wager_amount) {
            Some(v) => v,
            None => return None,
        };
        let rewards = match gm.total_rewards_paid.checked_add(reward_amount) {
            Some(v) => v,
            None => return None,
        };
        Some(
            GameMetrics {
                game_id: gm.game_id,
                total_matches: count,
                total_players: players,
                total_wagered: wagered,
                total_rewards_paid: rewards,
                avg_match_duration_secs: avg,
                last_updated: now,
            },
        )
    }

    /// The stored identifier of `player`: SHA-256 of the salt followed by the
    /// player's address. Refused before initialisation (no salt).
    pub fn hash_player(&self, env: &soroban_sdk::Env, player: &Address) -> (r: Result<Vec<u8>, AnalyticsError>)
        ensures
            r is Ok == self@.salt is Some,
            r matches Ok(h) ==> h@ == player_hash(self@.salt->0, player@),
            r matches Err(e) ==> e == AnalyticsError::NotInitialized,
    {
        match &self.salt {
            None => Err(AnalyticsError::NotInitialized),
            Some(salt) => {
                let preimage = concat_bytes(salt, &player.xdr);
                Ok(sha256(env, &preimage))
            },
        }
    }

    /// Stores one more session of the player whose identifier is
    /// `player_hash`: the rolling average session length, the win or loss,
    /// the day bucket, and one more active player on the platform.
    pub fn record_session(
        &mut self,
        player_hash: Vec<u8>,
        game_id: u32,
        won: bool,
        session_secs: u64,
        now: u64,
    ) -> (r: Result<(), AnalyticsError>)
        ensures
            applied(
                session_spec(old(self)@, player_hash@, game_id, won, session_secs, now),
                r,
                old(self)@,
                final(self)@,
            ),
    {
        let day = now / SECONDS_PER_DAY * SECONDS_PER_DAY;
        let snap = match self.behaviours.get(&player_hash) {
            Some(s) => s.duplicate(),
            None => PlayerBehaviourSnapshot {
                player_hash: copy_bytes(&player_hash),
                game_id,
                matches_played: 0,
                wins: 0,
                losses: 0,
                avg_session_secs: 0,
                last_seen_bucket: day,
            },
        };
        assert(snap@ == behaviour_or_fresh(old(self)@, player_hash@, game_id, now));
        let (count, avg) = match crate::analytics::contract::rolled_average_step(
            snap.avg_session_secs,
            snap.matches_played,
            session_secs,
        ) {
            Some(p) => p,
            None => return Err(AnalyticsError::ArithmeticOverflow),
        };
        let mut wins = snap.wins;
        let mut losses = snap.losses;
        if won {
            wins = match snap.wins.checked_add(1) {
                Some(w) => w,
                None => return Err(AnalyticsError::ArithmeticOverflow),
            };
        } else {
            losses = match snap.losses.checked_add(1) {
                Some(l) => l,
                None => return Err(AnalyticsError::ArithmeticOverflow),
            };
        }
        let next = PlayerBehaviourSnapshot {
            player_hash: snap.player_hash,
            game_id: snap.game_id,
            matches_played: count,
            wins,
            losses,
            avg_session_secs: avg,
            last_seen_bucket: day,
        };
        assert(Some(next@) == behaviour_after_session(snap@, won, session_secs, now));
        let pm = match self.platform {
            Some(p) => p,
            None => return Err(AnalyticsError::NotInitialized),
        };
        let active = match pm.active_players_30d.checked_add(1) {
            Some(a) => a,
            None => return Err(AnalyticsError::ArithmeticOverflow),
        };
        self.behaviours.insert(player_hash, next);
        self.platform = Some(PlatformMetrics { active_players_30d: active, last_updated: now, ..pm });
        Ok(())
    }

    /// Records a player's session under the salted hash of the player's
    /// address (never the address itself). Returns that hash, which is all
    /// the published event names of the player.
    pub fn record_player_behaviour(
        &mut self,
        env: &soroban_sdk::Env,
        reporter: &Address,
        player: &Address,
        game_id: u32,
        won: bool,
        session_secs: u64,
        now: u64,
    ) -> (r: Result<Vec<u8>, AnalyticsError>)
        ensures
            match r {
                Ok(h) => record_player_behaviour_spec(
                    old(self)@,
                    reporter@,
                    player@,
                    game_id,
                    won,
                    session_secs,
                    now,
                ) == Ok::<(AnalyticsModel, Seq<u8>), AnalyticsError>((final(self)@, h@)),
                Err(e) => record_player_behaviour_spec(
                    old(self)@,
                    reporter@,
                    player@,
                    game_id,
                    won,
                    session_secs,
                    now,
                ) == Err::<(AnalyticsModel, Seq<u8>), AnalyticsError>(e) && final(self)@ == old(self)@,
            },
    {
        match self.require_report(reporter) {
            Err(e) => return Err(e),
            Ok(_) => {},
        }
        let hash = match self.hash_player(env, player) {
            Ok(h) => h,
            Err(e) => return Err(e),
        };
        let out = copy_bytes(&hash);
        match self.record_session(hash, game_id, won, session_secs, now) {
            Ok(_) => Ok(out),
            Err(e) => Err(e),
        }
    }

    /// Sets the total staked amount (called by the staking contract).
    pub fn update_staked(&mut self, reporter: &Address, total_staked: i128, now: u64) -> (r: Result<
        (),
        AnalyticsError,
    >)
        ensures
            applied(update_staked_spec(old(self)@, reporter@, total_staked, now), r, old(self)@, final(self)@),
    {
        match self.require_report(reporter) {
            Err(e) => return Err(e),
            Ok(_) => {},
        }
        match self.platform {
            None => Err(AnalyticsError::NotInitialized),
            Some(pm) => {
                self.platform = Some(PlatformMetrics { total_staked, last_updated: now, ..pm });
                Ok(())
            },
        }
    }

    /// Push-style metric ingestion from a registered contract: adds the
    /// event's deltas to the platform snapshot and to the current hour's slot
    /// of the circular buffer, starting that slot afresh on a new hour.
    pub fn record_event(&mut self, contract_id: &String, event_type: &String, value: i128, now: u64) -> (r:
        Result<(), AnalyticsError>)
        ensures
            applied(
                record_event_spec(old(self)@, contract_id@, event_type@, value, now),
                r,
                old(self)@,
                final(self)@,
            ),
    {
        if self.paused {
            return Err(AnalyticsError::ContractPaused);
        }
        if !self.registered.contains_key(contract_id) {
            return Err(AnalyticsError::ContractNotRegistered);
        }
        let kind = match crate::analytics::contract::classify_event(event_type) {
            Some(k) => k,
            None => return Err(AnalyticsError::UnknownEventType),
        };
        let d = crate::analytics::contract::deltas_of(kind, value);
        let snap = match self.snapshot {
            Some(s) => s,
            None => PlatformSnapshot {
                total_transactions: 0,
                total_volume: 0,
                total_users: 0,
                total_fees_collected: 0,
                last_updated: now,
            },
        };
        let hour = now / SECONDS_PER_HOUR;
        let slot = (hour % SNAPSHOT_WINDOW_HOURS) as u32;
        let fresh = HourlySnapshot {
            hour,
            total_transactions: 0,
            total_volume: 0,
            total_users: 0,
            total_fees_collected: 0,
        };
        let bucket = match self.hourly.get(&slot) {
            Some(b) => if b.hour == hour {
                *b
            } else {
                fresh
            },
            None => fresh,
        };
        assert(bucket == current_bucket(old(self)@, now));
        let s = match crate::analytics::contract::add_deltas(
            snap.total_transactions,
            snap.total_volume,
            snap.total_users,
            snap.total_fees_collected,
            d,
        ) {
            Some(t) => t,
            None => return Err(AnalyticsError::ArithmeticOverflow),
        };
        let b = match crate::analytics::contract::add_deltas(
            bucket.total_transactions,
            bucket.total_volume,
            bucket.total_users,
            bucket.total_fees_collected,
            d,
        ) {
            Some(t) => t,
            None => return Err(AnalyticsError::ArithmeticOverflow),
        };
        self.snapshot = Some(
            PlatformSnapshot {
                total_transactions: s.0,
                total_volume: s.1,
                total_users: s.2,
                total_fees_collected: s.3,
                last_updated: now,
            },
        );
        self.hourly.insert(
            slot,
            HourlySnapshot {
                hour: bucket.hour,
                total_transactions: b.0,
                total_volume: b.1,
                total_users: b.2,
                total_fees_collected: b.3,
            },
        );
        Ok(())
    }

    /// Stores an aggregation bucket under its game, type and start.
    pub fn record_aggregation_bucket(
        &mut self,
        reporter: &Address,
        game_id: u32,
        bucket_type: u32,
        bucket_start: u64,
        match_count: u64,
        player_count: u64,
        volume: i128,
        rewards: i128,
    ) -> (r: Result<(), AnalyticsError>)
        ensures
            applied(
                record_aggregation_bucket_spec(
                    old(self)@,
                    reporter@,
                    AggregationBucket {
                        game_id,
                        bucket_type,
                        bucket_start,
                        match_count,
                        player_count,
                        volume,
                        rewards,
                    },
                ),
                r,
                old(self)@,
                final(self)@,
            ),
    {
        match self.require_report(reporter) {
            Err(e) => return Err(e),
            Ok(_) => {},
        }
        let key = BucketKey { game_id, bucket_type, bucket_start };
        self.buckets.insert(
            key,
            AggregationBucket {
                game_id,
                bucket_type,
                bucket_start,
                match_count,
                player_count,
                volume,
                rewards,
            },
        );
        Ok(())
    }

    /// Stores a cohort analysis (retention figures start at zero).
    pub fn record_cohort(
        &mut self,
        reporter: &Address,
        cohort_id: Vec<u8>,
        size: u64,
        avg_matches: u64,
        avg_session_secs: u64,
        avg_wager: i128,
    ) -> (r: Result<(), AnalyticsError>)
        ensures
            applied(
                record_cohort_spec(
                    old(self)@,
                    reporter@,
                    cohort_id@,
                    size,
                    avg_matches,
                    avg_session_secs,
                    avg_wager,
                ),
                r,
                old(self)@,
                final(self)@,
            ),
    {
        match self.require_report(reporter) {
            Err(e) => return Err(e),
            Ok(_) => {},
        }
        let cohort = CohortAnalysis {
            cohort_id: copy_bytes(&cohort_id),
            size,
            avg_matches,
            avg_session_secs,
            avg_wager,
            retention_d1: 0,
            retention_d7: 0,
            retention_d30: 0,
        };
        self.cohorts.insert(cohort_id, cohort);
        Ok(())
    }
}

} // verus!
