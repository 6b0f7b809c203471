//! What the analytics contract's storage means, and what each call does to
//! it, stated over maps and plain values.
use vstd::prelude::*;
use crate::analytics::types::{
    AggregatedGameStats, AggregationBucket, AnalyticsError, BucketKey, CohortView, GameMetrics,
    HourlySnapshot, PlatformAggregation, PlatformMetrics, PlatformSnapshot, PlayerBehaviourView,
    BASIS_POINTS, DEFAULT_PRIVACY_EPSILON, DEFAULT_WIN_RATE, SECONDS_PER_DAY, SECONDS_PER_HOUR,
    SNAPSHOT_WINDOW_HOURS,
};
use crate::digest::sha256_digest;

verus! {

/// The contents of the analytics contract's storage.
pub struct AnalyticsModel {
    pub admin: Option<Seq<u8>>,
    pub salt: Option<Seq<u8>>,
    pub paused: bool,
    pub platform: Option<PlatformMetrics>,
    pub snapshot: Option<PlatformSnapshot>,
    /// Authorised reporters (the keys of the map).
    pub reporters: Map<Seq<u8>, ()>,
    /// Registered push contracts: id to address.
    pub registered: Map<Seq<char>, Seq<u8>>,
    pub games: Map<u32, GameMetrics>,
    /// Player behaviour by hashed player identifier.
    pub behaviours: Map<Seq<u8>, PlayerBehaviourView>,
    /// Hourly circular buffer by slot.
    pub hourly: Map<u32, HourlySnapshot>,
    pub privacy_epsilon: Option<u32>,
    pub buckets: Map<BucketKey, AggregationBucket>,
    pub cohorts: Map<Seq<u8>, CohortView>,
}

pub open spec fn fits_u64(x: int) -> bool {
    0 <= x <= u64::MAX
}

pub open spec fn fits_i128(x: int) -> bool {
    i128::MIN <= x <= i128::MAX
}

/// Division of integers rounding toward zero, as Rust's `/` does.
pub open spec fn div_toward_zero(a: int, b: int) -> int {
    if a >= 0 {
        a / b
    } else {
        -((-a) / b)
    }
}

/// Remainder of division rounding toward zero, as Rust's `%` does.
pub open spec fn rem_toward_zero(a: int, b: int) -> int {
    a - b * div_toward_zero(a, b)
}

/// The new average after adding `sample` to `count` samples averaging `avg`
/// (rounded down).
pub open spec fn rolled_average(avg: u64, count: u64, sample: u64) -> int {
    (avg * count + sample) / (count + 1)
}

/// Whether computing that average overflows `u64`.
pub open spec fn rolling_overflows(avg: u64, count: u64, sample: u64) -> bool {
    !fits_u64(avg * count) || !fits_u64(count + 1) || !fits_u64(avg * count + sample)
}

// ─── Authorisation and pause ─────────────────────────────────────────────

pub open spec fn admin_check(m: AnalyticsModel) -> Result<(), AnalyticsError> {
    if m.admin is Some {
        Ok(())
    } else {
        Err(AnalyticsError::NotInitialized)
    }
}

pub open spec fn pause_check(m: AnalyticsModel) -> Result<(), AnalyticsError> {
    if m.paused {
        Err(AnalyticsError::ContractPaused)
    } else {
        Ok(())
    }
}

/// The admin and the registered reporters may report.
pub open spec fn reporter_check(m: AnalyticsModel, reporter: Seq<u8>) -> Result<(), AnalyticsError> {
    match m.admin {
        None => Err(AnalyticsError::NotInitialized),
        Some(admin) => if admin == reporter || m.reporters.dom().contains(reporter) {
            Ok(())
        } else {
            Err(AnalyticsError::NotAuthorisedReporter)
        },
    }
}

/// Reporting calls are refused while paused, then unless the reporter may report.
pub open spec fn report_check(m: AnalyticsModel, reporter: Seq<u8>) -> Result<(), AnalyticsError> {
    if m.paused {
        Err(AnalyticsError::ContractPaused)
    } else {
        reporter_check(m, reporter)
    }
}

// ─── Initialisation and registry ─────────────────────────────────────────

pub open spec fn empty_model() -> AnalyticsModel {
    AnalyticsModel {
        admin: None,
        salt: None,
        paused: false,
        platform: None,
        snapshot: None,
        reporters: Map::empty(),
        registered: Map::empty(),
        games: Map::empty(),
        behaviours: Map::empty(),
        hourly: Map::empty(),
        privacy_epsilon: None,
        buckets: Map::empty(),
        cohorts: Map::empty(),
    }
}

pub open spec fn fresh_platform(now: u64) -> PlatformMetrics {
    PlatformMetrics {
        total_matches_all_time: 0,
        active_players_30d: 0,
        total_staked: 0,
        total_volume: 0,
        last_updated: now,
    }
}

pub open spec fn fresh_snapshot(now: u64) -> PlatformSnapshot {
    PlatformSnapshot {
        total_transactions: 0,
        total_volume: 0,
        total_users: 0,
        total_fees_collected: 0,
        last_updated: now,
    }
}

pub open spec fn initialize_spec(m: AnalyticsModel, admin: Seq<u8>, salt: Seq<u8>, now: u64) -> Result<
    AnalyticsModel,
    AnalyticsError,
> {
    if m.admin is Some {
        Err(AnalyticsError::AlreadyInitialized)
    } else {
        Ok(
            AnalyticsModel {
                admin: Some(admin),
                salt: Some(salt),
                paused: false,
                platform: Some(fresh_platform(now)),
                snapshot: Some(fresh_snapshot(now)),
                ..m
            },
        )
    }
}

/// Whether a call ended as `spec` says: its state is the one `spec` gives
/// when it succeeds, and on refusal it reports the same error and leaves the
/// state as it was.
pub open spec fn applied<T>(
    spec: Result<AnalyticsModel, AnalyticsError>,
    r: Result<T, AnalyticsError>,
    pre: AnalyticsModel,
    post: AnalyticsModel,
) -> bool {
    match r {
        Ok(_) => spec == Ok::<AnalyticsModel, AnalyticsError>(post),
        Err(e) => spec == Err::<AnalyticsModel, AnalyticsError>(e) && post == pre,
    }
}

pub open spec fn add_reporter_spec(m: AnalyticsModel, reporter: Seq<u8>) -> Result<AnalyticsModel, AnalyticsError> {
    match admin_check(m) {
        Err(e) => Err(e),
        Ok(_) => Ok(AnalyticsModel { reporters: m.reporters.insert(reporter, ()), ..m }),
    }
}

pub open spec fn remove_reporter_spec(m: AnalyticsModel, reporter: Seq<u8>) -> Result<AnalyticsModel, AnalyticsError> {
    match admin_check(m) {
        Err(e) => Err(e),
        Ok(_) => Ok(AnalyticsModel { reporters: m.reporters.remove(reporter), ..m }),
    }
}

pub open spec fn register_contract_spec(m: AnalyticsModel, id: Seq<char>, addr: Seq<u8>) -> Result<
    AnalyticsModel,
    AnalyticsError,
> {
    match admin_check(m) {
        Err(e) => Err(e),
        Ok(_) => Ok(AnalyticsModel { registered: m.registered.insert(id, addr), ..m }),
    }
}

pub open spec fn unregister_contract_spec(m: AnalyticsModel, id: Seq<char>) -> Result<AnalyticsModel, AnalyticsError> {
    match admin_check(m) {
        Err(e) => Err(e),
        Ok(_) => Ok(AnalyticsModel { registered: m.registered.remove(id), ..m }),
    }
}

pub open spec fn set_paused_spec(m: AnalyticsModel, paused: bool) -> Result<AnalyticsModel, AnalyticsError> {
    match admin_check(m) {
        Err(e) => Err(e),
        Ok(_) => Ok(AnalyticsModel { paused, ..m }),
    }
}

pub open spec fn set_privacy_epsilon_spec(m: AnalyticsModel, epsilon: u32) -> Result<AnalyticsModel, AnalyticsError> {
    match admin_check(m) {
        Err(e) => Err(e),
        Ok(_) => Ok(AnalyticsModel { privacy_epsilon: Some(epsilon), ..m }),
    }
}

pub open spec fn record_aggregation_bucket_spec(m: AnalyticsModel, reporter: Seq<u8>, bucket: AggregationBucket) -> Result<
    AnalyticsModel,
    AnalyticsError,
> {
    match report_check(m, reporter) {
        Err(e) => Err(e),
        Ok(_) => Ok(
            AnalyticsModel {
                buckets: m.buckets.insert(
                    BucketKey {
                        game_id: bucket.game_id,
                        bucket_type: bucket.bucket_type,
                        bucket_start: bucket.bucket_start,
                    },
                    bucket,
                ),
                ..m
            },
        ),
    }
}

pub open spec fn record_cohort_spec(
    m: AnalyticsModel,
    reporter: Seq<u8>,
    cohort_id: Seq<u8>,
    size: u64,
    avg_matches: u64,
    avg_session_secs: u64,
    avg_wager: i128,
) -> Result<AnalyticsModel, AnalyticsError> {
    match report_check(m, reporter) {
        Err(e) => Err(e),
        Ok(_) => Ok(
            AnalyticsModel {
                cohorts: m.cohorts.insert(
                    cohort_id,
                    CohortView {
                        cohort_id,
                        size,
                        avg_matches,
                        avg_session_secs,
                        avg_wager,
                        retention_d1: 0,
                        retention_d7: 0,
                        retention_d30: 0,
                    },
                ),
                ..m
            },
        ),
    }
}

// ─── Match recording ─────────────────────────────────────────────────────

pub open spec fn game_or_fresh(m: AnalyticsModel, game_id: u32, now: u64) -> GameMetrics {
    if m.games.dom().contains(game_id) {
        m.games[game_id]
    } else {
        GameMetrics {
            game_id,
            total_matches: 0,
            total_players: 0,
            total_wagered: 0,
            total_rewards_paid: 0,
            avg_match_duration_secs: 0,
            last_updated: now,
        }
    }
}

/// The game metrics after one more match, or `None` where a total overflows.
pub open spec fn game_after_match(
    gm: GameMetrics,
    duration_secs: u64,
    wager_amount: i128,
    reward_amount: i128,
    player_count: u32,
    now: u64,
) -> Option<GameMetrics> {
    let players = gm.total_players + player_count;
    let wagered = gm.total_wagered + wager_amount;
    let rewards = gm.total_rewards_paid + reward_amount;
    if rolling_overflows(gm.avg_match_duration_secs, gm.total_matches, duration_secs)
        || !fits_u64(players) || !fits_i128(wagered) || !fits_i128(rewards) {
        None
    } else {
        Some(
            GameMetrics {
                game_id: gm.game_id,
                total_matches: (gm.total_matches + 1) as u64,
                total_players: players as u64,
                total_wagered: wagered as i128,
                total_rewards_paid: rewards as i128,
                avg_match_duration_secs: rolled_average(
                    gm.avg_match_duration_secs,
                    gm.total_matches,
                    duration_secs,
                ) as u64,
                last_updated: now,
            },
        )
    }
}

pub open spec fn record_match_spec(
    m: AnalyticsModel,
    reporter: Seq<u8>,
    game_id: u32,
    duration_secs: u64,
    wager_amount: i128,
    reward_amount: i128,
    player_count: u32,
    now: u64,
) -> Result<AnalyticsModel, AnalyticsError> {
    match report_check(m, reporter) {
        Err(e) => Err(e),
        Ok(_) => match game_after_match(
            game_or_fresh(m, game_id, now),
            duration_secs,
            wager_amount,
            reward_amount,
            player_count,
            now,
        ) {
            None => Err(AnalyticsError::ArithmeticOverflow),
            Some(gm) => match m.platform {
                None => Err(AnalyticsError::NotInitialized),
                Some(pm) => if !fits_u64(pm.total_matches_all_time + 1) || !fits_i128(
                    pm.total_volume + wager_amount,
                ) {
                    Err(AnalyticsError::ArithmeticOverflow)
                } else {
                    Ok(
                        AnalyticsModel {
                            games: m.games.insert(game_id, gm),
                            platform: Some(
                                PlatformMetrics {
                                    total_matches_all_time: (pm.total_matches_all_time + 1) as u64,
                                    total_volume: (pm.total_volume + wager_amount) as i128,
                                    last_updated: now,
                                    ..pm
                                },
                            ),
                            ..m
                        },
                    )
                },
            },
        },
    }
}

// ─── Player behaviour ────────────────────────────────────────────────────

/// The stored identifier of a player: the digest of the salt followed by
/// the player's address.
pub open spec fn player_hash(salt: Seq<u8>, player: Seq<u8>) -> Seq<u8> {
    sha256_digest(salt + player)
}

/// `now` rounded down to a whole day.
pub open spec fn day_bucket(now: u64) -> u64 {
    (now / SECONDS_PER_DAY * SECONDS_PER_DAY) as u64
}

pub open spec fn behaviour_or_fresh(m: AnalyticsModel, hash: Seq<u8>, game_id: u32, now: u64) -> PlayerBehaviourView {
    if m.behaviours.dom().contains(hash) {
        m.behaviours[hash]
    } else {
        PlayerBehaviourView {
            player_hash: hash,
            game_id,
            matches_played: 0,
            wins: 0,
            losses: 0,
            avg_session_secs: 0,
            last_seen_bucket: day_bucket(now),
        }
    }
}

/// The snapshot after one more session, or `None` where a count overflows.
pub open spec fn behaviour_after_session(s: PlayerBehaviourView, won: bool, session_secs: u64, now: u64) -> Option<
    PlayerBehaviourView,
> {
    if rolling_overflows(s.avg_session_secs, s.matches_played, session_secs) || (won && !fits_u64(
        s.wins + 1,
    )) || (!won && !fits_u64(s.losses + 1)) {
        None
    } else {
        Some(
            PlayerBehaviourView {
                matches_played: (s.matches_played + 1) as u64,
                wins: if won {
                    (s.wins + 1) as u64
                } else {
                    s.wins
                },
                losses: if won {
                    s.losses
                } else {
                    (s.losses + 1) as u64
                },
                avg_session_secs: rolled_average(s.avg_session_secs, s.matches_played, session_secs) as u64,
                last_seen_bucket: day_bucket(now),
                ..s
            },
        )
    }
}

/// What storing a session under `hash` does, once the reporter was accepted.
pub open spec fn session_spec(
    m: AnalyticsModel,
    hash: Seq<u8>,
    game_id: u32,
    won: bool,
    session_secs: u64,
    now: u64,
) -> Result<AnalyticsModel, AnalyticsError> {
    match behaviour_after_session(behaviour_or_fresh(m, hash, game_id, now), won, session_secs, now) {
        None => Err(AnalyticsError::ArithmeticOverflow),
        Some(s) => match m.platform {
            None => Err(AnalyticsError::NotInitialized),
            Some(pm) => if !fits_u64(pm.active_players_30d + 1) {
                Err(AnalyticsError::ArithmeticOverflow)
            } else {
                Ok(
                    AnalyticsModel {
                        behaviours: m.behaviours.insert(hash, s),
                        platform: Some(
                            PlatformMetrics {
                                active_players_30d: (pm.active_players_30d + 1) as u64,
                                last_updated: now,
                                ..pm
                            },
                        ),
                        ..m
                    },
                )
            },
        },
    }
}

pub open spec fn record_player_behaviour_spec(
    m: AnalyticsModel,
    reporter: Seq<u8>,
    player: Seq<u8>,
    game_id: u32,
    won: bool,
    session_secs: u64,
    now: u64,
) -> Result<(AnalyticsModel, Seq<u8>), AnalyticsError> {
    match report_check(m, reporter) {
        Err(e) => Err(e),
        Ok(_) => match m.salt {
            None => Err(AnalyticsError::NotInitialized),
            Some(salt) => {
                let hash = player_hash(salt, player);
                match session_spec(m, hash, game_id, won, session_secs, now) {
                    Err(e) => Err(e),
                    Ok(post) => Ok((post, hash)),
                }
            },
        },
    }
}

pub open spec fn update_staked_spec(m: AnalyticsModel, reporter: Seq<u8>, total_staked: i128, now: u64) -> Result<
    AnalyticsModel,
    AnalyticsError,
> {
    match report_check(m, reporter) {
        Err(e) => Err(e),
        Ok(_) => match m.platform {
            None => Err(AnalyticsError::NotInitialized),
            Some(pm) => Ok(
                AnalyticsModel {
                    platform: Some(PlatformMetrics { total_staked, last_updated: now, ..pm }),
                    ..m
                },
            ),
        },
    }
}

// ─── Cross-contract counters ─────────────────────────────────────────────

/// The four kinds of metric event a registered contract can push.
#[derive(Clone, Copy, Debug, PartialEq, Eq, Structural)]
pub enum EventKind {
    Transaction,
    Volume,
    User,
    Fee,
}

/// Which kind an event type names, if any.
pub open spec fn event_kind(event_type: Seq<char>) -> Option<EventKind> {
    if event_type == "transaction"@ || event_type == "tx"@ {
        Some(EventKind::Transaction)
    } else if event_type == "volume"@ {
        Some(EventKind::Volume)
    } else if event_type == "user"@ || event_type == "users"@ {
        Some(EventKind::User)
    } else if event_type == "fee"@ || event_type == "fees"@ {
        Some(EventKind::Fee)
    } else {
        None
    }
}

/// How much one event adds to each counter; every event counts as at least
/// one transaction.
#[derive(Clone, Copy, Debug, PartialEq, Eq, Structural)]
pub struct EventDeltas {
    pub transactions: u64,
    pub volume: i128,
    pub users: u64,
    pub fees: i128,
}

pub open spec fn event_deltas(kind: EventKind, value: i128) -> EventDeltas {
    match kind {
        EventKind::Transaction => EventDeltas {
            transactions: if value > 1 {
                value as u64
            } else {
                1
            },
            volume: 0,
            users: 0,
            fees: 0,
        },
        EventKind::Volume => EventDeltas { transactions: 1, volume: value, users: 0, fees: 0 },
        EventKind::User => EventDeltas {
            transactions: 1,
            volume: 0,
            users: if value > 0 {
                value as u64
            } else {
                1
            },
            fees: 0,
        },
        EventKind::Fee => EventDeltas { transactions: 1, volume: 0, users: 0, fees: value },
    }
}

pub open spec fn deltas_fit(
    transactions: u64,
    volume: i128,
    users: u64,
    fees: i128,
    d: EventDeltas,
) -> bool {
    &&& fits_u64(transactions + d.transactions)
    &&& fits_i128(volume + d.volume)
    &&& fits_u64(users + d.users)
    &&& fits_i128(fees + d.fees)
}

/// The hour that a timestamp falls in.
pub open spec fn hour_of(now: u64) -> u64 {
    (now / SECONDS_PER_HOUR) as u64
}

/// The circular-buffer slot of an hour.
pub open spec fn slot_of(hour: u64) -> u32 {
    (hour % SNAPSHOT_WINDOW_HOURS) as u32
}

pub open spec fn zero_hour(hour: u64) -> HourlySnapshot {
    HourlySnapshot { hour, total_transactions: 0, total_volume: 0, total_users: 0, total_fees_collected: 0 }
}

/// The bucket that an event at `now` adds to: the slot's bucket if it holds
/// the same hour, else an empty one for that hour.
pub open spec fn current_bucket(m: AnalyticsModel, now: u64) -> HourlySnapshot {
    let hour = hour_of(now);
    let slot = slot_of(hour);
    if m.hourly.dom().contains(slot) && m.hourly[slot].hour == hour {
        m.hourly[slot]
    } else {
        zero_hour(hour)
    }
}

pub open spec fn record_event_spec(
    m: AnalyticsModel,
    contract_id: Seq<char>,
    event_type: Seq<char>,
    value: i128,
    now: u64,
) -> Result<AnalyticsModel, AnalyticsError> {
    if m.paused {
        Err(AnalyticsError::ContractPaused)
    } else if !m.registered.dom().contains(contract_id) {
        Err(AnalyticsError::ContractNotRegistered)
    } else {
        match event_kind(event_type) {
            None => Err(AnalyticsError::UnknownEventType),
            Some(kind) => {
                let d = event_deltas(kind, value);
                let snap = match m.snapshot {
                    Some(s) => s,
                    None => fresh_snapshot(now),
                };
                let b = current_bucket(m, now);
                if !deltas_fit(
                    snap.total_transactions,
                    snap.total_volume,
                    snap.total_users,
                    snap.total_fees_collected,
                    d,
                ) || !deltas_fit(
                    b.total_transactions,
                    b.total_volume,
                    b.total_users,
                    b.total_fees_collected,
                    d,
                ) {
                    Err(AnalyticsError::ArithmeticOverflow)
                } else {
                    Ok(
                        AnalyticsModel {
                            snapshot: Some(
                                PlatformSnapshot {
                                    total_transactions: (snap.total_transactions
                                        + d.transactions) as u64,
                                    total_volume: (snap.total_volume + d.volume) as i128,
                                    total_users: (snap.total_users + d.users) as u64,
                                    total_fees_collected: (snap.total_fees_collected
                                        + d.fees) as i128,
                                    last_updated: now,
                                },
                            ),
                            hourly: m.hourly.insert(
                                slot_of(hour_of(now)),
                                HourlySnapshot {
                                    hour: b.hour,
                                    total_transactions: (b.total_transactions
                                        + d.transactions) as u64,
                                    total_volume: (b.total_volume + d.volume) as i128,
                                    total_users: (b.total_users + d.users) as u64,
                                    total_fees_collected: (b.total_fees_collected
                                        + d.fees) as i128,
                                },
                            ),
                            ..m
                        },
                    )
                }
            },
        }
    }
}

/// The platform snapshot as read: zero counters where none was stored.
pub open spec fn platform_snapshot_of(m: AnalyticsModel) -> PlatformSnapshot {
    match m.snapshot {
        Some(s) => s,
        None => fresh_snapshot(0),
    }
}

// ─── Aggregation ─────────────────────────────────────────────────────────

/// Running totals of a scan over hourly buckets.
#[derive(Clone, Copy, Debug, PartialEq, Eq, Structural)]
pub struct Totals {
    pub matches: u64,
    pub players: u64,
    pub wagered: i128,
    pub rewards: i128,
}

pub open spec fn zero_totals() -> Totals {
    Totals { matches: 0, players: 0, wagered: 0, rewards: 0 }
}

/// The hourly bucket of a game that starts at `t`, if recorded.
pub open spec fn hourly_bucket(m: AnalyticsModel, game_id: u32, t: u64) -> Option<AggregationBucket> {
    let key = BucketKey { game_id, bucket_type: 0, bucket_start: t };
    if m.buckets.dom().contains(key) {
        Some(m.buckets[key])
    } else {
        None
    }
}

/// `acc` plus the counts of `b`, or `None` where a total overflows.
pub open spec fn add_bucket(acc: Totals, b: Option<AggregationBucket>) -> Option<Totals> {
    match b {
        None => Some(acc),
        Some(b) => if fits_u64(acc.matches + b.match_count) && fits_u64(acc.players + b.player_count)
            && fits_i128(acc.wagered + b.volume) && fits_i128(acc.rewards + b.rewards) {
            Some(
                Totals {
                    matches: (acc.matches + b.match_count) as u64,
                    players: (acc.players + b.player_count) as u64,
                    wagered: (acc.wagered + b.volume) as i128,
                    rewards: (acc.rewards + b.rewards) as i128,
                },
            )
        } else {
            None
        },
    }
}

/// Adds to `acc`, in order, the hourly buckets starting at `t`, `t + 3600`,
/// ... before `end`; `None` where a running total or the hour counter
/// overflows.
pub open spec fn scan_hours(m: AnalyticsModel, game_id: u32, acc: Totals, t: u64, end: u64) -> Option<Totals>
    decreases (if t < end {
        end - t
    } else {
        0
    }),
{
    if t >= end {
        Some(acc)
    } else {
        match add_bucket(acc, hourly_bucket(m, game_id, t)) {
            None => None,
            Some(next) => if t + SECONDS_PER_HOUR > u64::MAX {
                None
            } else {
                scan_hours(m, game_id, next, (t + SECONDS_PER_HOUR) as u64, end)
            },
        }
    }
}

pub open spec fn game_or_blank(m: AnalyticsModel, game_id: u32) -> GameMetrics {
    if m.games.dom().contains(game_id) {
        m.games[game_id]
    } else {
        GameMetrics {
            game_id,
            total_matches: 0,
            total_players: 0,
            total_wagered: 0,
            total_rewards_paid: 0,
            avg_match_duration_secs: 0,
            last_updated: 0,
        }
    }
}

/// Rewards paid per unit wagered, in basis points (cast to `u64` as the
/// contract casts it); 50% where no match was played or nothing wagered.
/// `None` where the product overflows.
pub open spec fn win_rate_of(gm: GameMetrics) -> Option<u64> {
    if gm.total_matches > 0 && gm.total_wagered > 0 {
        let scaled = gm.total_rewards_paid * BASIS_POINTS;
        if fits_i128(scaled) {
            Some(div_toward_zero(scaled, gm.total_wagered as int) as u64)
        } else {
            None
        }
    } else {
        Some(DEFAULT_WIN_RATE)
    }
}

pub open spec fn aggregate_game_stats_spec(m: AnalyticsModel, game_id: u32, period_start: u64, period_end: u64) -> Result<
    AggregatedGameStats,
    AnalyticsError,
> {
    match scan_hours(m, game_id, zero_totals(), period_start, period_end) {
        None => Err(AnalyticsError::ArithmeticOverflow),
        Some(t) => match win_rate_of(game_or_blank(m, game_id)) {
            None => Err(AnalyticsError::ArithmeticOverflow),
            Some(win_rate) => Ok(
                AggregatedGameStats {
                    game_id,
                    period_start,
                    period_end,
                    total_matches: t.matches,
                    total_players: t.players,
                    total_wagered: t.wagered,
                    total_rewards: t.rewards,
                    avg_match_duration: 0,
                    win_rate,
                    retention_rate: 0,
                },
            ),
        },
    }
}

pub open spec fn aggregate_platform_stats_spec(m: AnalyticsModel, period_start: u64, period_end: u64) -> Result<
    PlatformAggregation,
    AnalyticsError,
> {
    match m.platform {
        None => Err(AnalyticsError::NotInitialized),
        Some(p) => Ok(
            PlatformAggregation {
                period_start,
                period_end,
                total_matches: p.total_matches_all_time,
                unique_players: p.active_players_30d,
                total_volume: p.total_volume,
                total_rewards: 0,
                avg_session_secs: 0,
                dau: 0,
                mau: p.active_players_30d,
                revenue_per_user: if p.active_players_30d > 0 {
                    div_toward_zero(p.total_volume as int, p.active_players_30d as int) as i128
                } else {
                    0
                },
            },
        ),
    }
}

pub open spec fn privacy_epsilon_of(m: AnalyticsModel) -> u32 {
    match m.privacy_epsilon {
        Some(e) => e,
        None => DEFAULT_PRIVACY_EPSILON,
    }
}

/// The deterministic noise added to `value` under privacy budget `epsilon`.
pub open spec fn privacy_noise(value: i128, epsilon: u32) -> int {
    let scale = div_toward_zero(BASIS_POINTS as int, epsilon as int);
    div_toward_zero((rem_toward_zero(value as int, 7) + 3) * scale, BASIS_POINTS as int)
}

/// What a player-behaviour query returns: only the admin and the player may
/// ask, and the snapshot is looked up under the player's salted hash.
pub open spec fn player_behaviour_spec(m: AnalyticsModel, caller: Seq<u8>, player: Seq<u8>) -> Result<
    Option<PlayerBehaviourView>,
    AnalyticsError,
> {
    match m.admin {
        None => Err(AnalyticsError::NotInitialized),
        Some(admin) => if caller != admin && caller != player {
            Err(AnalyticsError::NotAuthorised)
        } else {
            match m.salt {
                None => Err(AnalyticsError::NotInitialized),
                Some(salt) => {
                    let hash = player_hash(salt, player);
                    Ok(
                        if m.behaviours.dom().contains(hash) {
                            Some(m.behaviours[hash])
                        } else {
                            None
                        },
                    )
                },
            }
        },
    }
}

} // verus!
