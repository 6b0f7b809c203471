//! The analytics contract's entry points over its storage.
//!
//! Signatures (`require_auth`) are checked by the host that runs these calls,
//! not here; the timestamp `now` is the ledger's.
use vstd::prelude::*;
use crate::analytics::model::{
    add_reporter_spec,
    admin_check,
    applied,
    empty_model,
    event_deltas,
    event_kind,
    initialize_spec,
    pause_check,
    platform_snapshot_of,
    privacy_epsilon_of,
    register_contract_spec,
    remove_reporter_spec,
    report_check,
    reporter_check,
    rolled_average,
    rolling_overflows,
    set_paused_spec,
    set_privacy_epsilon_spec,
    unregister_contract_spec,
    AnalyticsModel,
    EventDeltas,
    EventKind,
};
use crate::analytics::types::{
    AggregationBucket,
    AnalyticsError,
    BucketKey,
    CohortAnalysis,
    GameMetrics,
    HourlySnapshot,
    PlatformMetrics,
    PlatformSnapshot,
    PlayerBehaviourSnapshot,
    DEFAULT_PRIVACY_EPSILON,
    SNAPSHOT_WINDOW_HOURS,
};

use crate::ids::{Address};
use crate::table::Table;

verus! {

/// The analytics contract's storage.
pub struct AnalyticsContract {
    pub admin: Option<Address>,
    pub salt: Option<Vec<u8>>,
    pub paused: bool,
    pub platform: Option<PlatformMetrics>,
    pub snapshot: Option<PlatformSnapshot>,
    pub reporters: Table<Address, ()>,
    pub registered: Table<String, Address>,
    pub games: Table<u32, GameMetrics>,
    pub behaviours: Table<Vec<u8>, PlayerBehaviourSnapshot>,
    pub hourly: Table<u32, HourlySnapshot>,
    pub privacy_epsilon: Option<u32>,
    pub buckets: Table<BucketKey, AggregationBucket>,
    pub cohorts: Table<Vec<u8>, CohortAnalysis>,
}

pub open spec fn opt_address(a: Option<Address>) -> Option<Seq<u8>> {
    match a {
        Some(a) => Some(a@),
        None => None,
    }
}

pub open spec fn opt_bytes(b: Option<Vec<u8>>) -> Option<Seq<u8>> {
    match b {
        Some(b) => Some(b@),
        None => None,
    }
}

impl View for AnalyticsContract {
    type V = AnalyticsModel;

    open spec fn view(&self) -> AnalyticsModel {
        AnalyticsModel {
            admin: opt_address(self.admin),
            salt: opt_bytes(self.salt),
            paused: self.paused,
            platform: self.platform,
            snapshot: self.snapshot,
            reporters: self.reporters@,
            registered: self.registered@,
            games: self.games@,
            behaviours: self.behaviours@,
            hourly: self.hourly@,
            privacy_epsilon: self.privacy_epsilon,
            buckets: self.buckets@,
            cohorts: self.cohorts@,
        }
    }
}

/// The new count and average after adding `sample` to `count` samples
/// averaging `avg`, or `None` where it overflows.
pub(crate) fn rolled_average_step(avg: u64, count: u64, sample: u64) -> (r: Option<(u64, u64)>)
    ensures
        r is None == rolling_overflows(avg, count, sample),
        r matches Some(p) ==> p.0 == count + 1 && p.1 == rolled_average(avg, count, sample),
{
    let total = match avg.checked_mul(count) {
        Some(t) => t,
        None => return None,
    };
    let n = match count.checked_add(1) {
        Some(n) => n,
        None => return None,
    };
    let with_sample = match total.checked_add(sample) {
        Some(w) => w,
        None => return None,
    };
    Some((n, with_sample / n))
}

/// Which kind of metric event a type names.
pub(crate) fn classify_event(event_type: &String) -> (k: Option<EventKind>)
    ensures
        k == event_kind(event_type@),
{
    if *event_type == "transaction".to_owned() || *event_type == "tx".to_owned() {
        Some(EventKind::Transaction)
    } else if *event_type == "volume".to_owned() {
        Some(EventKind::Volume)
    } else if *event_type == "user".to_owned() || *event_type == "users".to_owned() {
        Some(EventKind::User)
    } else if *event_type == "fee".to_owned() || *event_type == "fees".to_owned() {
        Some(EventKind::Fee)
    } else {
        None
    }
}

/// How much an event of `kind` with `value` adds to each counter.
pub(crate) fn deltas_of(kind: EventKind, value: i128) -> (d: EventDeltas)
    ensures
        d == event_deltas(kind, value),
{
    match kind {
        EventKind::Transaction => EventDeltas {
            transactions: if value > 1 {
                value as u64
            } else {
                1
            },
            volume: 0,
            users: 0,
            fees: 0,
        },
        EventKind::Volume => EventDeltas { transactions: 1, volume: value, users: 0, fees: 0 },
        EventKind::User => EventDeltas {
            transactions: 1,
            volume: 0,
            users: if value > 0 {
                value as u64
            } else {
                1
            },
            fees: 0,
        },
        EventKind::Fee => EventDeltas { transactions: 1, volume: 0, users: 0, fees: value },
    }
}

/// The four counters plus an event's deltas, or `None` where one overflows.
pub(crate) fn add_deltas(transactions: u64, volume: i128, users: u64, fees: i128, d: EventDeltas) -> (r: Option<
    (u64, i128, u64, i128),
>)
    ensures
        r is Some == crate::analytics::model::deltas_fit(transactions, volume, users, fees, d),
        r matches Some(t) ==> t.0 == transactions + d.transactions && t.1 == volume + d.volume
            && t.2 == users + d.users && t.3 == fees + d.fees,
{
    let t = match transactions.checked_add(d.transactions) {
        Some(t) => t,
        None => return None,
    };
    let v = match volume.checked_add(d.volume) {
        Some(v) => v,
        None => return None,
    };
    let u = match users.checked_add(d.users) {
        Some(u) => u,
        None => return None,
    };
    let f = match fees.checked_add(d.fees) {
        Some(f) => f,
        None => return None,
    };
    Some((t, v, u, f))
}

impl AnalyticsContract {
    /// Storage before `initialize`: empty.
    pub fn new() -> (c: Self)
        ensures
            c@ == empty_model(),
    {
        AnalyticsContract {
            admin: None,
            salt: None,
            paused: false,
            platform: None,
            snapshot: None,
            reporters: Table::new(),
            registered: Table::new(),
            games: Table::new(),
            behaviours: Table::new(),
            hourly: Table::new(),
            privacy_epsilon: None,
            buckets: Table::new(),
            cohorts: Table::new(),
        }
    }

    /// Sets the admin and the hashing salt, unpauses, and zeroes the
    /// platform metrics and snapshot. Refused once initialised.
    pub fn initialize(&mut self, admin: Address, salt: Vec<u8>, now: u64) -> (r: Result<(), AnalyticsError>)
        ensures
            applied(initialize_spec(old(self)@, admin@, salt@, now), r, old(self)@, final(self)@),
    {
        if self.admin.is_some() {
            return Err(AnalyticsError::AlreadyInitialized);
        }
        self.admin = Some(admin);
        self.salt = Some(salt);
        self.paused = false;
        self.platform = Some(
            PlatformMetrics {
                total_matches_all_time: 0,
                active_players_30d: 0,
                total_staked: 0,
                total_volume: 0,
                last_updated: now,
            },
        );
        self.snapshot = Some(
            PlatformSnapshot {
                total_transactions: 0,
                total_volume: 0,
                total_users: 0,
                total_fees_collected: 0,
                last_updated: now,
            },
        );
        Ok(())
    }

    /// Refuses calls before initialisation.
    pub fn require_admin(&self) -> (r: Result<(), AnalyticsError>)
        ensures
            r == admin_check(self@),
    {
        if self.admin.is_some() {
            Ok(())
        } else {
            Err(AnalyticsError::NotInitialized)
        }
    }

    /// Refuses calls while paused.
    pub fn require_not_paused(&self) -> (r: Result<(), AnalyticsError>)
        ensures
            r == pause_check(self@),
    {
        if self.paused {
            Err(AnalyticsError::ContractPaused)
        } else {
            Ok(())
        }
    }

    /// Accepts the admin and the registered reporters.
    pub fn require_reporter(&self, reporter: &Address) -> (r: Result<(), AnalyticsError>)
        ensures
            r == reporter_check(self@, reporter@),
    {
        match &self.admin {
            None => Err(AnalyticsError::NotInitialized),
            Some(admin) => {
                if admin.same(reporter) || self.reporters.contains_key(reporter) {
                    Ok(())
                } else {
                    Err(AnalyticsError::NotAuthorisedReporter)
                }
            },
        }
    }

    pub(crate) fn require_report(&self, reporter: &Address) -> (r: Result<(), AnalyticsError>)
        ensures
            r == report_check(self@, reporter@),
    {
        match self.require_not_paused() {
            Err(e) => Err(e),
            Ok(_) => self.require_reporter(reporter),
        }
    }

    /// Authorises a reporter contract (admin only).
    pub fn add_reporter(&mut self, reporter: Address) -> (r: Result<(), AnalyticsError>)
        ensures
            applied(add_reporter_spec(old(self)@, reporter@), r, old(self)@, final(self)@),
    {
        match self.require_admin() {
            Err(e) => Err(e),
            Ok(_) => {
                self.reporters.insert(reporter, ());
                Ok(())
            },
        }
    }

    /// Withdraws a reporter's authorisation (admin only).
    pub fn remove_reporter(&mut self, reporter: &Address) -> (r: Result<(), AnalyticsError>)
        ensures
            applied(remove_reporter_spec(old(self)@, reporter@), r, old(self)@, final(self)@),
    {
        match self.require_admin() {
            Err(e) => Err(e),
            Ok(_) => {
                self.reporters.remove(reporter);
                Ok(())
            },
        }
    }

    /// Registers a push contract id with its address (admin only).
    pub fn register_contract(&mut self, id: String, addr: Address) -> (r: Result<(), AnalyticsError>)
        ensures
            applied(register_contract_spec(old(self)@, id@, addr@), r, old(self)@, final(self)@),
    {
        match self.require_admin() {
            Err(e) => Err(e),
            Ok(_) => {
                self.registered.insert(id, addr);
                Ok(())
            },
        }
    }

    /// Removes a registered push contract (admin only).
    pub fn unregister_contract(&mut self, id: &String) -> (r: Result<(), AnalyticsError>)
        ensures
            applied(unregister_contract_spec(old(self)@, id@), r, old(self)@, final(self)@),
    {
        match self.require_admin() {
            Err(e) => Err(e),
            Ok(_) => {
                self.registered.remove(id);
                Ok(())
            },
        }
    }

    /// Whether a contract id is registered.
    pub fn is_registered_contract(&self, id: &String) -> (b: bool)
        ensures
            b == self@.registered.dom().contains(id@),
    {
        self.registered.contains_key(id)
    }

    /// The address registered under `id`, whose signature a pushed event needs.
    pub fn registered_address(&self, id: &String) -> (a: Option<Address>)
        ensures
            a is Some == self@.registered.dom().contains(id@),
            a matches Some(a) ==> a@ == self@.registered[id@],
    {
        match self.registered.get(id) {
            Some(a) => Some(a.duplicate()),
            None => None,
        }
    }

    /// The admin address; refused before initialisation.
    pub fn get_admin(&self) -> (r: Result<Address, AnalyticsError>)
        ensures
            r is Ok == self@.admin is Some,
            r matches Ok(a) ==> Some(a@) == self@.admin,
            r matches Err(e) ==> e == AnalyticsError::NotInitialized,
    {
        match &self.admin {
            Some(a) => Ok(a.duplicate()),
            None => Err(AnalyticsError::NotInitialized),
        }
    }

    /// Pauses or resumes reporting (admin only).
    pub fn set_paused(&mut self, paused: bool) -> (r: Result<(), AnalyticsError>)
        ensures
            applied(set_paused_spec(old(self)@, paused), r, old(self)@, final(self)@),
    {
        match self.require_admin() {
            Err(e) => Err(e),
            Ok(_) => {
                self.paused = paused;
                Ok(())
            },
        }
    }

    /// Whether reporting is paused.
    pub fn is_paused(&self) -> (b: bool)
        ensures
            b == self@.paused,
    {
        self.paused
    }

    /// Sets the privacy epsilon (basis points; admin only).
    pub fn set_privacy_epsilon(&mut self, epsilon: u32) -> (r: Result<(), AnalyticsError>)
        ensures
            applied(set_privacy_epsilon_spec(old(self)@, epsilon), r, old(self)@, final(self)@),
    {
        match self.require_admin() {
            Err(e) => Err(e),
            Ok(_) => {
                self.privacy_epsilon = Some(epsilon);
                Ok(())
            },
        }
    }

    /// The privacy epsilon, 100 (1.0) where none was set.
    pub fn get_privacy_epsilon(&self) -> (e: u32)
        ensures
            e == privacy_epsilon_of(self@),
    {
        match self.privacy_epsilon {
            Some(e) => e,
            None => DEFAULT_PRIVACY_EPSILON,
        }
    }

    /// The metrics of a game, if any match was recorded for it.
    pub fn get_game_metrics(&self, game_id: u32) -> (r: Option<GameMetrics>)
        ensures
            r is Some == self@.games.dom().contains(game_id),
            r matches Some(g) ==> g == self@.games[game_id],
    {
        match self.games.get(&game_id) {
            Some(g) => Some(*g),
            None => None,
        }
    }

    /// The platform metrics; refused before initialisation.
    pub fn get_platform_metrics(&self) -> (r: Result<PlatformMetrics, AnalyticsError>)
        ensures
            r is Ok == self@.platform is Some,
            r matches Ok(p) ==> Some(p) == self@.platform,
            r matches Err(e) ==> e == AnalyticsError::NotInitialized,
    {
        match self.platform {
            Some(p) => Ok(p),
            None => Err(AnalyticsError::NotInitialized),
        }
    }

    /// The single-read platform snapshot; zero counters where none was stored.
    pub fn get_platform_snapshot(&self) -> (s: PlatformSnapshot)
        ensures
            s == platform_snapshot_of(self@),
    {
        match self.snapshot {
            Some(s) => s,
            None => PlatformSnapshot {
                total_transactions: 0,
                total_volume: 0,
                total_users: 0,
                total_fees_collected: 0,
                last_updated: 0,
            },
        }
    }

    /// One slot of the hourly circular buffer; refused for slots past 167.
    pub fn get_hourly_snapshot(&self, slot: u32) -> (r: Result<Option<HourlySnapshot>, AnalyticsError>)
        ensures
            r is Err == (slot >= SNAPSHOT_WINDOW_HOURS),
            r matches Err(e) ==> e == AnalyticsError::InvalidSlot,
            r matches Ok(o) ==> (o is Some == self@.hourly.dom().contains(slot)),
            r matches Ok(Some(h)) ==> h == self@.hourly[slot],
    {
        if slot as u64 >= SNAPSHOT_WINDOW_HOURS {
            return Err(AnalyticsError::InvalidSlot);
        }
        match self.hourly.get(&slot) {
            Some(h) => Ok(Some(*h)),
            None => Ok(None),
        }
    }

    /// The aggregation bucket of a game, type and start, if recorded.
    pub fn get_aggregation_bucket(&self, game_id: u32, bucket_type: u32, bucket_start: u64) -> (r: Option<
        AggregationBucket,
    >)
        ensures
            ({
                let key = BucketKey { game_id, bucket_type, bucket_start };
                &&& r is Some == self@.buckets.dom().contains(key)
                &&& r matches Some(b) ==> b == self@.buckets[key]
            }),
    {
        let key = BucketKey { game_id, bucket_type, bucket_start };
        match self.buckets.get(&key) {
            Some(b) => Some(*b),
            None => None,
        }
    }

    /// The cohort analysis stored under `cohort_id`, if any.
    pub fn get_cohort_analysis(&self, cohort_id: &Vec<u8>) -> (r: Option<CohortAnalysis>)
        ensures
            r is Some == self@.cohorts.dom().contains(cohort_id@),
            r matches Some(c) ==> c@ == self@.cohorts[cohort_id@],
    {
        match self.cohorts.get(cohort_id) {
            Some(c) => Some(c.duplicate()),
            None => None,
        }
    }
}

} // verus!
