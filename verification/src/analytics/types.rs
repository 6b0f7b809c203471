//! The records that the analytics contract stores and returns.
use vstd::prelude::*;
use crate::table::KeyEq;

verus! {

/// Number of hourly slots retained (7 days).
pub const SNAPSHOT_WINDOW_HOURS: u64 = 168;

/// Seconds in an hour.
pub const SECONDS_PER_HOUR: u64 = 3600;

/// Seconds in a day.
pub const SECONDS_PER_DAY: u64 = 86400;

/// Basis points in one whole.
pub const BASIS_POINTS: i128 = 10000;

/// Win rate reported when nothing was wagered (50%).
pub const DEFAULT_WIN_RATE: u64 = 5000;

/// Privacy epsilon when none was set (1.0, in basis points).
pub const DEFAULT_PRIVACY_EPSILON: u32 = 100;

/// Per-game aggregate metrics.
#[derive(Clone, Copy, Debug, PartialEq, Eq, Structural)]
pub struct GameMetrics {
    pub game_id: u32,
    pub total_matches: u64,
    pub total_players: u64,
    pub total_wagered: i128,
    pub total_rewards_paid: i128,
    pub avg_match_duration_secs: u64,
    pub last_updated: u64,
}

/// Platform-wide aggregate metrics.
#[derive(Clone, Copy, Debug, PartialEq, Eq, Structural)]
pub struct PlatformMetrics {
    pub total_matches_all_time: u64,
    pub active_players_30d: u64,
    pub total_staked: i128,
    pub total_volume: i128,
    pub last_updated: u64,
}

/// Privacy-preserving player behaviour snapshot, stored under a salted hash
/// of the player's address, never the address itself.
#[derive(Debug)]
pub struct PlayerBehaviourSnapshot {
    /// Hashed player identifier.
    pub player_hash: Vec<u8>,
    pub game_id: u32,
    pub matches_played: u64,
    pub wins: u64,
    pub losses: u64,
    pub avg_session_secs: u64,
    /// Unix timestamp rounded down to the day.
    pub last_seen_bucket: u64,
}

/// What a player behaviour snapshot holds.
pub struct PlayerBehaviourView {
    pub player_hash: Seq<u8>,
    pub game_id: u32,
    pub matches_played: u64,
    pub wins: u64,
    pub losses: u64,
    pub avg_session_secs: u64,
    pub last_seen_bucket: u64,
}

impl View for PlayerBehaviourSnapshot {
    type V = PlayerBehaviourView;

    open spec fn view(&self) -> PlayerBehaviourView {
        PlayerBehaviourView {
            player_hash: self.player_hash@,
            game_id: self.game_id,
            matches_played: self.matches_played,
            wins: self.wins,
            losses: self.losses,
            avg_session_secs: self.avg_session_secs,
            last_seen_bucket: self.last_seen_bucket,
        }
    }
}

impl PlayerBehaviourSnapshot {
    /// A copy of this snapshot.
    pub fn duplicate(&self) -> (s: Self)
        ensures
            s@ == self@,
    {
        PlayerBehaviourSnapshot {
            player_hash: crate::ids::copy_bytes(&self.player_hash),
            game_id: self.game_id,
            matches_played: self.matches_played,
            wins: self.wins,
            losses: self.losses,
            avg_session_secs: self.avg_session_secs,
            last_seen_bucket: self.last_seen_bucket,
        }
    }
}

/// A completed match as reported by a game contract.
#[derive(Debug)]
pub struct MatchEvent {
    pub game_id: u32,
    pub match_id: Vec<u8>,
    pub duration_secs: u64,
    pub wager_amount: i128,
    pub reward_amount: i128,
    pub player_count: u32,
    pub recorded_at: u64,
}

/// Aggregated game statistics over a time window.
#[derive(Clone, Copy, Debug, PartialEq, Eq, Structural)]
pub struct AggregatedGameStats {
    pub game_id: u32,
    pub period_start: u64,
    pub period_end: u64,
    pub total_matches: u64,
    pub total_players: u64,
    pub total_wagered: i128,
    pub total_rewards: i128,
    pub avg_match_duration: u64,
    /// Basis points (1/100 of 1%).
    pub win_rate: u64,
    /// Basis points.
    pub retention_rate: u64,
}

/// Privacy-preserving cohort analysis.
#[derive(Debug)]
pub struct CohortAnalysis {
    pub cohort_id: Vec<u8>,
    pub size: u64,
    pub avg_matches: u64,
    pub avg_session_secs: u64,
    pub avg_wager: i128,
    /// 1-day retention (basis points).
    pub retention_d1: u64,
    /// 7-day retention (basis points).
    pub retention_d7: u64,
    /// 30-day retention (basis points).
    pub retention_d30: u64,
}

/// What a cohort analysis holds.
pub struct CohortView {
    pub cohort_id: Seq<u8>,
    pub size: u64,
    pub avg_matches: u64,
    pub avg_session_secs: u64,
    pub avg_wager: i128,
    pub retention_d1: u64,
    pub retention_d7: u64,
    pub retention_d30: u64,
}

impl View for CohortAnalysis {
    type V = CohortView;

    open spec fn view(&self) -> CohortView {
        CohortView {
            cohort_id: self.cohort_id@,
            size: self.size,
            avg_matches: self.avg_matches,
            avg_session_secs: self.avg_session_secs,
            avg_wager: self.avg_wager,
            retention_d1: self.retention_d1,
            retention_d7: self.retention_d7,
            retention_d30: self.retention_d30,
        }
    }
}

impl CohortAnalysis {
    /// A copy of this cohort analysis.
    pub fn duplicate(&self) -> (c: Self)
        ensures
            c@ == self@,
    {
        CohortAnalysis {
            cohort_id: crate::ids::copy_bytes(&self.cohort_id),
            size: self.size,
            avg_matches: self.avg_matches,
            avg_session_secs: self.avg_session_secs,
            avg_wager: self.avg_wager,
            retention_d1: self.retention_d1,
            retention_d7: self.retention_d7,
            retention_d30: self.retention_d30,
        }
    }
}

/// Aggregated platform report.
#[derive(Clone, Copy, Debug, PartialEq, Eq, Structural)]
pub struct PlatformAggregation {
    pub period_start: u64,
    pub period_end: u64,
    pub total_matches: u64,
    pub unique_players: u64,
    pub total_volume: i128,
    pub total_rewards: i128,
    pub avg_session_secs: u64,
    /// Daily active users.
    pub dau: u64,
    /// Monthly active users.
    pub mau: u64,
    pub revenue_per_user: i128,
}

/// Data aggregation bucket (0 = hourly, 1 = daily, 2 = weekly).
#[derive(Clone, Copy, Debug, PartialEq, Eq, Structural)]
pub struct AggregationBucket {
    pub game_id: u32,
    pub bucket_type: u32,
    pub bucket_start: u64,
    pub match_count: u64,
    pub player_count: u64,
    pub volume: i128,
    pub rewards: i128,
}

/// Where an aggregation bucket is stored: game, bucket type and start.
#[derive(Clone, Copy, Debug, PartialEq, Eq, Structural)]
pub struct BucketKey {
    pub game_id: u32,
    pub bucket_type: u32,
    pub bucket_start: u64,
}

/// Privacy-preserving metric with noise.
#[derive(Debug)]
pub struct PrivateMetric {
    pub name: String,
    pub value: i128,
    /// Differential privacy noise added.
    pub noise: i128,
    /// Privacy budget (basis points).
    pub epsilon: u32,
}

/// What a private metric holds.
pub struct PrivateMetricView {
    pub name: Seq<char>,
    pub value: i128,
    pub noise: i128,
    pub epsilon: u32,
}

impl View for PrivateMetric {
    type V = PrivateMetricView;

    open spec fn view(&self) -> PrivateMetricView {
        PrivateMetricView { name: self.name@, value: self.value, noise: self.noise, epsilon: self.epsilon }
    }
}

/// Cross-contract aggregated platform snapshot (single-read dashboard view).
#[derive(Clone, Copy, Debug, PartialEq, Eq, Structural)]
pub struct PlatformSnapshot {
    pub total_transactions: u64,
    pub total_volume: i128,
    pub total_users: u64,
    pub total_fees_collected: i128,
    pub last_updated: u64,
}

/// Hourly snapshot slot of the 168-hour (7-day) circular buffer.
#[derive(Clone, Copy, Debug, PartialEq, Eq, Structural)]
pub struct HourlySnapshot {
    pub hour: u64,
    pub total_transactions: u64,
    pub total_volume: i128,
    pub total_users: u64,
    pub total_fees_collected: i128,
}

impl View for GameMetrics {
    type V = GameMetrics;

    open spec fn view(&self) -> GameMetrics {
        *self
    }
}

impl View for PlatformMetrics {
    type V = PlatformMetrics;

    open spec fn view(&self) -> PlatformMetrics {
        *self
    }
}

impl View for AggregatedGameStats {
    type V = AggregatedGameStats;

    open spec fn view(&self) -> AggregatedGameStats {
        *self
    }
}

impl View for AggregationBucket {
    type V = AggregationBucket;

    open spec fn view(&self) -> AggregationBucket {
        *self
    }
}

impl View for BucketKey {
    type V = BucketKey;

    open spec fn view(&self) -> BucketKey {
        *self
    }
}

impl View for PlatformSnapshot {
    type V = PlatformSnapshot;

    open spec fn view(&self) -> PlatformSnapshot {
        *self
    }
}

impl View for HourlySnapshot {
    type V = HourlySnapshot;

    open spec fn view(&self) -> HourlySnapshot {
        *self
    }
}

impl KeyEq for BucketKey {
    fn key_eq(&self, other: &Self) -> (same: bool) {
        *self == *other
    }
}

/// Why an analytics call is refused.
#[derive(Clone, Copy, Debug, PartialEq, Eq, Structural)]
pub enum AnalyticsError {
    AlreadyInitialized,
    NotInitialized,
    ContractPaused,
    NotAuthorisedReporter,
    NotAuthorised,
    ContractNotRegistered,
    UnknownEventType,
    InvalidSlot,
    ArithmeticOverflow,
    DivisionByZero,
}

/// The message the contract fails with for each refusal.
pub open spec fn analytics_error_message(e: AnalyticsError) -> Seq<char> {
    match e {
        AnalyticsError::AlreadyInitialized => "already initialized"@,
        AnalyticsError::NotInitialized => "not initialized"@,
        AnalyticsError::ContractPaused => "contract is paused"@,
        AnalyticsError::NotAuthorisedReporter => "not an authorised reporter"@,
        AnalyticsError::NotAuthorised => "not authorised"@,
        AnalyticsError::ContractNotRegistered => "contract not registered"@,
        AnalyticsError::UnknownEventType => "unknown event type"@,
        AnalyticsError::InvalidSlot => "invalid slot"@,
        AnalyticsError::ArithmeticOverflow => "arithmetic overflow"@,
        AnalyticsError::DivisionByZero => "division by zero"@,
    }
}

impl AnalyticsError {
    /// The message the contract fails with.
    pub fn message(&self) -> (m: &'static str)
        ensures
            m@ == analytics_error_message(*self),
    {
        match self {
            AnalyticsError::AlreadyInitialized => "already initialized",
            AnalyticsError::NotInitialized => "not initialized",
            AnalyticsError::ContractPaused => "contract is paused",
            AnalyticsError::NotAuthorisedReporter => "not an authorised reporter",
            AnalyticsError::NotAuthorised => "not authorised",
            AnalyticsError::ContractNotRegistered => "contract not registered",
            AnalyticsError::UnknownEventType => "unknown event type",
            AnalyticsError::InvalidSlot => "invalid slot",
            AnalyticsError::ArithmeticOverflow => "arithmetic overflow",
            AnalyticsError::DivisionByZero => "division by zero",
        }
    }
}

} // verus!
