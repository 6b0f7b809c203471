//! What holds of the analytics contract across calls: the emergency stop,
//! the registry and reporter round trips, the hourly circular buffer, the
//! counters, rolling averages and privacy noise.
use vstd::prelude::*;
use crate::analytics::model::{
    add_reporter_spec,
    aggregate_game_stats_spec,
    current_bucket,
    div_toward_zero,
    empty_model,
    event_deltas,
    hour_of,
    initialize_spec,
    player_hash,
    privacy_epsilon_of,
    privacy_noise,
    record_aggregation_bucket_spec,
    record_cohort_spec,
    record_event_spec,
    record_match_spec,
    record_player_behaviour_spec,
    register_contract_spec,
    rem_toward_zero,
    remove_reporter_spec,
    reporter_check,
    rolled_average,
    set_paused_spec,
    set_privacy_epsilon_spec,
    slot_of,
    unregister_contract_spec,
    update_staked_spec,
    zero_hour,
    AnalyticsModel,
    EventKind,
};
use crate::analytics::types::{AggregationBucket, AnalyticsError, SNAPSHOT_WINDOW_HOURS};

verus! {

/// The reporting calls, with their arguments.
pub enum ReportOp {
    RecordMatch {
        reporter: Seq<u8>,
        game_id: u32,
        duration_secs: u64,
        wager_amount: i128,
        reward_amount: i128,
        player_count: u32,
        now: u64,
    },
    RecordPlayerBehaviour {
        reporter: Seq<u8>,
        player: Seq<u8>,
        game_id: u32,
        won: bool,
        session_secs: u64,
        now: u64,
    },
    UpdateStaked { reporter: Seq<u8>, total_staked: i128, now: u64 },
    RecordEvent { contract_id: Seq<char>, event_type: Seq<char>, value: i128, now: u64 },
    RecordAggregationBucket { reporter: Seq<u8>, bucket: AggregationBucket },
    RecordCohort {
        reporter: Seq<u8>,
        cohort_id: Seq<u8>,
        size: u64,
        avg_matches: u64,
        avg_session_secs: u64,
        avg_wager: i128,
    },
}

/// The storage after a reporting call, or why it is refused.
pub open spec fn report_step(m: AnalyticsModel, op: ReportOp) -> Result<AnalyticsModel, AnalyticsError> {
    match op {
        ReportOp::RecordMatch {
            reporter,
            game_id,
            duration_secs,
            wager_amount,
            reward_amount,
            player_count,
            now,
        } => record_match_spec(
            m,
            reporter,
            game_id,
            duration_secs,
            wager_amount,
            reward_amount,
            player_count,
            now,
        ),
        ReportOp::RecordPlayerBehaviour { reporter, player, game_id, won, session_secs, now } =>
            match record_player_behaviour_spec(m, reporter, player, game_id, won, session_secs, now) {
            Ok(r) => Ok(r.0),
            Err(e) => Err(e),
        },
        ReportOp::UpdateStaked { reporter, total_staked, now } => update_staked_spec(
            m,
            reporter,
            total_staked,
            now,
        ),
        ReportOp::RecordEvent { contract_id, event_type, value, now } => record_event_spec(
            m,
            contract_id,
            event_type,
            value,
            now,
        ),
        ReportOp::RecordAggregationBucket { reporter, bucket } => record_aggregation_bucket_spec(
            m,
            reporter,
            bucket,
        ),
        ReportOp::RecordCohort {
            reporter,
            cohort_id,
            size,
            avg_matches,
            avg_session_secs,
            avg_wager,
        } => record_cohort_spec(m, reporter, cohort_id, size, avg_matches, avg_session_secs, avg_wager),
    }
}

/// While paused every reporting call is refused as paused and changes
/// nothing; the admin's switch still works, so reporting can resume.
pub proof fn lemma_paused_refuses_reports(m: AnalyticsModel, op: ReportOp)
    requires
        m.paused,
    ensures
        report_step(m, op) == Err::<AnalyticsModel, AnalyticsError>(AnalyticsError::ContractPaused),
        m.admin is Some ==> set_paused_spec(m, false) == Ok::<AnalyticsModel, AnalyticsError>(
            AnalyticsModel { paused: false, ..m },
        ),
{
}

/// Only the admin and registered reporters may report: anyone else is
/// refused, and the storage is left as it was.
pub proof fn lemma_unregistered_reporter_refused(m: AnalyticsModel, op: ReportOp)
    requires
        !m.paused,
        m.admin is Some,
        !(op is RecordEvent),
        ({
            let r = match op {
                ReportOp::RecordMatch { reporter, .. } => reporter,
                ReportOp::RecordPlayerBehaviour { reporter, .. } => reporter,
                ReportOp::UpdateStaked { reporter, .. } => reporter,
                ReportOp::RecordAggregationBucket { reporter, .. } => reporter,
                ReportOp::RecordCohort { reporter, .. } => reporter,
                ReportOp::RecordEvent { .. } => Seq::empty(),
            };
            r != m.admin->0 && !m.reporters.dom().contains(r)
        }),
    ensures
        report_step(m, op) == Err::<AnalyticsModel, AnalyticsError>(AnalyticsError::NotAuthorisedReporter),
{
}

/// Initialisation happens once: a second call is refused.
pub proof fn lemma_initialize_once(m: AnalyticsModel, admin: Seq<u8>, salt: Seq<u8>, now: u64, admin2: Seq<u8>, salt2: Seq<u8>, now2: u64)
    requires
        initialize_spec(m, admin, salt, now) is Ok,
    ensures
        initialize_spec(initialize_spec(m, admin, salt, now)->Ok_0, admin2, salt2, now2) == Err::<
            AnalyticsModel,
            AnalyticsError,
        >(AnalyticsError::AlreadyInitialized),
{
}

/// Registering a push contract makes it registered; unregistering it makes
/// it unregistered again.
pub proof fn lemma_register_round_trip(m: AnalyticsModel, id: Seq<char>, addr: Seq<u8>)
    requires
        m.admin is Some,
    ensures
        register_contract_spec(m, id, addr) is Ok,
        register_contract_spec(m, id, addr)->Ok_0.registered.dom().contains(id),
        register_contract_spec(m, id, addr)->Ok_0.registered[id] == addr,
        unregister_contract_spec(register_contract_spec(m, id, addr)->Ok_0, id) is Ok,
        !unregister_contract_spec(register_contract_spec(m, id, addr)->Ok_0, id)->Ok_0.registered.dom().contains(
            id,
        ),
{
}

/// An added reporter may report; once removed, only the admin still may.
pub proof fn lemma_reporter_round_trip(m: AnalyticsModel, reporter: Seq<u8>)
    requires
        m.admin is Some,
    ensures
        reporter_check(add_reporter_spec(m, reporter)->Ok_0, reporter) is Ok,
        reporter != m.admin->0 ==> reporter_check(
            remove_reporter_spec(add_reporter_spec(m, reporter)->Ok_0, reporter)->Ok_0,
            reporter,
        ) == Err::<(), AnalyticsError>(AnalyticsError::NotAuthorisedReporter),
{
}

/// Every pushed event counts as at least one transaction (but for a
/// transaction count above 1 whose low 64 bits are all zero, which the
/// contract's cast to `u64` turns into 0).
pub proof fn lemma_event_counts_a_transaction(kind: EventKind, value: i128)
    requires
        !(kind == EventKind::Transaction && value > 1 && value as u64 == 0),
    ensures
        event_deltas(kind, value).transactions >= 1,
{
}

/// The hourly circular buffer: an event at `now` lands in slot
/// `(now / 3600) % 168`, which then holds that hour; the slot's counters
/// restart when it held an older hour and accumulate within the same hour;
/// every other slot is untouched, and the platform snapshot grows by the
/// same amounts.
pub proof fn lemma_event_lands_in_current_hour(
    m: AnalyticsModel,
    contract_id: Seq<char>,
    event_type: Seq<char>,
    value: i128,
    now: u64,
    other: u32,
)
    requires
        record_event_spec(m, contract_id, event_type, value, now) is Ok,
        other != slot_of(hour_of(now)),
    ensures
        ({
            let post = record_event_spec(m, contract_id, event_type, value, now)->Ok_0;
            let slot = slot_of(hour_of(now));
            let d = event_deltas(crate::analytics::model::event_kind(event_type)->0, value);
            let b = current_bucket(m, now);
            &&& slot < SNAPSHOT_WINDOW_HOURS
            &&& post.hourly.dom().contains(slot)
            &&& post.hourly[slot].hour == hour_of(now)
            &&& post.hourly[slot].total_transactions == b.total_transactions + d.transactions
            &&& post.hourly[slot].total_volume == b.total_volume + d.volume
            &&& post.hourly[slot].total_users == b.total_users + d.users
            &&& post.hourly[slot].total_fees_collected == b.total_fees_collected + d.fees
            &&& (m.hourly.dom().contains(slot) && m.hourly[slot].hour == hour_of(now)) ==> b
                == m.hourly[slot]
            &&& !(m.hourly.dom().contains(slot) && m.hourly[slot].hour == hour_of(now)) ==> b
                == zero_hour(hour_of(now))
            &&& post.hourly.dom().contains(other) == m.hourly.dom().contains(other)
            &&& m.hourly.dom().contains(other) ==> post.hourly[other] == m.hourly[other]
            &&& post.snapshot is Some
            &&& m.snapshot is Some ==> post.snapshot->0.total_transactions
                == m.snapshot->0.total_transactions + d.transactions
        }),
{
}

/// Player data is stored under the salted hash of the player's address:
/// a recorded session adds exactly that key and returns it as the event's
/// identifier.
pub proof fn lemma_behaviour_keyed_by_hash(
    m: AnalyticsModel,
    reporter: Seq<u8>,
    player: Seq<u8>,
    game_id: u32,
    won: bool,
    session_secs: u64,
    now: u64,
)
    requires
        record_player_behaviour_spec(m, reporter, player, game_id, won, session_secs, now) is Ok,
    ensures
        ({
            let r = record_player_behaviour_spec(m, reporter, player, game_id, won, session_secs, now)->Ok_0;
            let h = player_hash(m.salt->0, player);
            &&& r.1 == h
            &&& r.0.behaviours.dom() =~= m.behaviours.dom().insert(h)
            &&& r.0.behaviours[h].matches_played == (if m.behaviours.dom().contains(h) {
                m.behaviours[h].matches_played + 1
            } else {
                1
            })
        }),
{
}

/// A rolling average lies between the previous average and the new sample.
pub proof fn lemma_rolled_average_between(avg: u64, count: u64, sample: u64)
    ensures
        avg <= sample ==> avg <= rolled_average(avg, count, sample) <= sample,
        sample <= avg ==> sample <= rolled_average(avg, count, sample) <= avg,
{
    let n = count + 1;
    let t = avg * count + sample;
    assert(n > 0);
    vstd::arithmetic::div_mod::lemma_div_by_multiple(avg as int, n);
    vstd::arithmetic::div_mod::lemma_div_by_multiple(sample as int, n);
    if avg <= sample {
        assert(avg * n <= t <= sample * n) by (nonlinear_arith)
            requires
                avg <= sample,
                n == count + 1,
                t == avg * count + sample,
                count >= 0,
        ;
        vstd::arithmetic::div_mod::lemma_div_is_ordered(avg * n, t, n);
        vstd::arithmetic::div_mod::lemma_div_is_ordered(t, sample * n, n);
    }
    if sample <= avg {
        assert(sample * n <= t <= avg * n) by (nonlinear_arith)
            requires
                sample <= avg,
                n == count + 1,
                t == avg * count + sample,
                count >= 0,
        ;
        vstd::arithmetic::div_mod::lemma_div_is_ordered(sample * n, t, n);
        vstd::arithmetic::div_mod::lemma_div_is_ordered(t, avg * n, n);
    }
}

/// The privacy noise stays within -6 and 9 for every value and every
/// positive epsilon.
pub proof fn lemma_privacy_noise_bounded(value: i128, epsilon: u32)
    requires
        epsilon >= 1,
    ensures
        -6 <= privacy_noise(value, epsilon) <= 9,
{
    let scale = div_toward_zero(10000, epsilon as int);
    let r = rem_toward_zero(value as int, 7);
    crate::analytics::aggregate::lemma_rem_toward_zero_bound(value as int, 7);
    assert(0 <= scale <= 10000) by (nonlinear_arith)
        requires
            scale == div_toward_zero(10000, epsilon as int),
            epsilon >= 1,
    ;
    let x = (r + 3) * scale;
    assert(-60000 <= x <= 90000) by (nonlinear_arith)
        requires
            -6 <= r <= 6,
            0 <= scale <= 10000,
            x == (r + 3) * scale,
    ;
}

/// The admin's privacy epsilon reads back as set.
pub proof fn lemma_privacy_epsilon_round_trip(m: AnalyticsModel, epsilon: u32)
    requires
        m.admin is Some,
    ensures
        set_privacy_epsilon_spec(m, epsilon) is Ok,
        privacy_epsilon_of(set_privacy_epsilon_spec(m, epsilon)->Ok_0) == epsilon,
{
}

/// The admin's calls, with their arguments.
pub enum AdminOp {
    Initialize { admin: Seq<u8>, salt: Seq<u8>, now: u64 },
    AddReporter { reporter: Seq<u8> },
    RemoveReporter { reporter: Seq<u8> },
    RegisterContract { id: Seq<char>, addr: Seq<u8> },
    UnregisterContract { id: Seq<char> },
    SetPaused { paused: bool },
    SetPrivacyEpsilon { epsilon: u32 },
}

/// The storage after an admin call, or why it is refused.
pub open spec fn admin_step(m: AnalyticsModel, op: AdminOp) -> Result<AnalyticsModel, AnalyticsError> {
    match op {
        AdminOp::Initialize { admin, salt, now } => initialize_spec(m, admin, salt, now),
        AdminOp::AddReporter { reporter } => add_reporter_spec(m, reporter),
        AdminOp::RemoveReporter { reporter } => remove_reporter_spec(m, reporter),
        AdminOp::RegisterContract { id, addr } => register_contract_spec(m, id, addr),
        AdminOp::UnregisterContract { id } => unregister_contract_spec(m, id),
        AdminOp::SetPaused { paused } => set_paused_spec(m, paused),
        AdminOp::SetPrivacyEpsilon { epsilon } => set_privacy_epsilon_spec(m, epsilon),
    }
}

/// Set-up is all or nothing: the admin, the salt, the platform metrics and
/// the snapshot are present together; before set-up nobody is registered
/// or authorised.
pub open spec fn setup_ok(m: AnalyticsModel) -> bool {
    &&& m.admin is Some <==> m.salt is Some
    &&& m.admin is Some <==> m.platform is Some
    &&& m.admin is Some ==> m.snapshot is Some
    &&& m.admin is None ==> m.registered.dom() =~= Set::<Seq<char>>::empty() && m.reporters.dom()
        =~= Set::<Seq<u8>>::empty()
}

/// The empty storage is consistently not set up.
pub proof fn lemma_initial_setup_ok()
    ensures
        setup_ok(empty_model()),
{
}

/// Every admin call keeps set-up all or nothing.
pub proof fn lemma_admin_step_keeps_setup(m: AnalyticsModel, op: AdminOp)
    requires
        setup_ok(m),
        admin_step(m, op) is Ok,
    ensures
        setup_ok(admin_step(m, op)->Ok_0),
{
}

/// Every reporting call keeps set-up all or nothing: once the reporter is
/// accepted the contract is set up, so the platform metrics a report
/// updates are always there.
pub proof fn lemma_report_step_keeps_setup(m: AnalyticsModel, op: ReportOp)
    requires
        setup_ok(m),
        report_step(m, op) is Ok,
    ensures
        setup_ok(report_step(m, op)->Ok_0),
{
    match op {
        ReportOp::RecordEvent { contract_id, .. } => {
            assert(m.registered.dom().contains(contract_id));
        },
        _ => {},
    }
}

// ─── Hourly circular buffer and win rates ───────────────────────────────

/// An event at `now` lands in slot `(now / 3600) % 168`: the buffer holds
/// one slot per hour of a week.
pub proof fn lemma_slot_is_hour_of_week(now: u64)
    ensures
        slot_of(hour_of(now)) as int == (now as int / 3600) % 168,
        hour_of(now) as int == now as int / 3600,
{
}

/// Two hours less than a week apart never share a slot.
pub proof fn lemma_week_apart_hours_distinct_slots(now1: u64, now2: u64)
    requires
        now1 as int / 3600 < now2 as int / 3600 < now1 as int / 3600 + 168,
    ensures
        slot_of(hour_of(now1)) != slot_of(hour_of(now2)),
{
    let h1 = now1 as int / 3600;
    let h2 = now2 as int / 3600;
    assert(h1 % 168 != h2 % 168) by (nonlinear_arith)
        requires
            0 <= h1 < h2 < h1 + 168,
    {
        assert(h1 == 168 * (h1 / 168) + h1 % 168);
        assert(h2 == 168 * (h2 / 168) + h2 % 168);
    }
}

/// A later event within the week leaves an earlier hour's bucket as it
/// was: the slot of the first event's hour still holds that hour with what
/// the first event left there.
pub proof fn lemma_later_event_keeps_earlier_hour(
    m: AnalyticsModel,
    c1: Seq<char>,
    e1: Seq<char>,
    v1: i128,
    now1: u64,
    c2: Seq<char>,
    e2: Seq<char>,
    v2: i128,
    now2: u64,
)
    requires
        record_event_spec(m, c1, e1, v1, now1) is Ok,
        record_event_spec(record_event_spec(m, c1, e1, v1, now1)->Ok_0, c2, e2, v2, now2) is Ok,
        now1 as int / 3600 < now2 as int / 3600 < now1 as int / 3600 + 168,
    ensures
        ({
            let m1 = record_event_spec(m, c1, e1, v1, now1)->Ok_0;
            let m2 = record_event_spec(m1, c2, e2, v2, now2)->Ok_0;
            let slot = slot_of(hour_of(now1));
            &&& m1.hourly.dom().contains(slot)
            &&& m1.hourly[slot].hour == now1 / 3600
            &&& m2.hourly.dom().contains(slot)
            &&& m2.hourly[slot] == m1.hourly[slot]
        }),
{
    lemma_week_apart_hours_distinct_slots(now1, now2);
    lemma_event_lands_in_current_hour(m, c1, e1, v1, now1, slot_of(hour_of(now2)));
    let m1 = record_event_spec(m, c1, e1, v1, now1)->Ok_0;
    lemma_event_lands_in_current_hour(m1, c2, e2, v2, now2, slot_of(hour_of(now1)));
}

/// A game's win rate is its rewards over its wagers in basis points,
/// rounded toward zero, whenever it has played a match and wagered
/// something (no rewards giving zero); otherwise it is the default 50%.
pub proof fn lemma_win_rate_is_reward_ratio(m: AnalyticsModel, game_id: u32, period_start: u64, period_end: u64)
    requires
        aggregate_game_stats_spec(m, game_id, period_start, period_end) is Ok,
    ensures
        ({
            let r = aggregate_game_stats_spec(m, game_id, period_start, period_end)->Ok_0;
            let g = m.games[game_id];
            if m.games.dom().contains(game_id) && g.total_matches > 0 && g.total_wagered > 0 {
                &&& g.total_rewards_paid >= 0 && g.total_rewards_paid * 10000 / (g.total_wagered as int)
                    <= u64::MAX ==> r.win_rate as int == g.total_rewards_paid * 10000
                    / (g.total_wagered as int)
                &&& g.total_rewards_paid == 0 ==> r.win_rate == 0
            } else {
                r.win_rate == 5000
            }
        }),
{
    let g = m.games[game_id];
    if m.games.dom().contains(game_id) && g.total_matches > 0 && g.total_wagered > 0
        && g.total_rewards_paid == 0 {
        assert(g.total_rewards_paid * 10000 == 0);
        assert(0int / (g.total_wagered as int) == 0);
    }
}

} // verus!
