use arenax_contracts::analytics::contract::AnalyticsContract;
use arenax_contracts::analytics::types::{AnalyticsError, SNAPSHOT_WINDOW_HOURS};
use arenax_contracts::ids::Address;

fn addr(n: u8) -> Address {
    let mut xdr = vec![0u8, 0, 0, 18, 0, 0, 0, 0, 0, 0, 0, 0];
    xdr.extend(std::iter::repeat(n).take(32));
    Address::from_xdr(xdr)
}

fn s(text: &str) -> String {
    text.to_string()
}

fn setup() -> (AnalyticsContract, Address) {
    let mut c = AnalyticsContract::new();
    let admin = addr(1);
    c.initialize(admin.duplicate(), vec![7u8; 32], 0).unwrap();
    (c, admin)
}

fn fail_with_message<T>(r: Result<T, AnalyticsError>) {
    if let Err(e) = r {
        panic!("{}", e.message());
    }
}

#[test]
fn test_register_and_unregister_contract() {
    let (mut client, _admin) = setup();
    let reporter = addr(2);
    let id = s("match");

    assert!(!client.is_registered_contract(&id));
    client.register_contract(id.clone(), reporter).unwrap();
    assert!(client.is_registered_contract(&id));
    client.unregister_contract(&id).unwrap();
    assert!(!client.is_registered_contract(&id));
}

#[test]
#[should_panic(expected = "contract not registered")]
fn test_record_event_rejects_unregistered() {
    let (mut client, _admin) = setup();
    fail_with_message(client.record_event(&s("unknown"), &s("volume"), 100, 0));
}

#[test]
fn test_record_event_aggregates_counters() {
    let (mut client, _admin) = setup();
    let reporter = addr(2);
    let id = s("match");
    client.register_contract(id.clone(), reporter).unwrap();

    client.record_event(&id, &s("tx"), 1, 0).unwrap();
    client.record_event(&id, &s("volume"), 500, 0).unwrap();
    client.record_event(&id, &s("users"), 3, 0).unwrap();
    client.record_event(&id, &s("fees"), 50, 0).unwrap();
    client.record_event(&id, &s("transaction"), 1, 0).unwrap();
    client.record_event(&id, &s("user"), 0, 0).unwrap();

    let snap = client.get_platform_snapshot();
    assert_eq!(snap.total_transactions, 6);
    assert_eq!(snap.total_volume, 500);
    assert_eq!(snap.total_users, 4);
    assert_eq!(snap.total_fees_collected, 50);
}

#[test]
fn test_get_platform_snapshot_single_call() {
    let (mut client, _admin) = setup();
    let reporter = addr(2);
    let id = s("stake");
    client.register_contract(id.clone(), reporter).unwrap();

    client.record_event(&id, &s("volume"), 1000, 0).unwrap();
    client.record_event(&id, &s("fee"), 25, 0).unwrap();

    let snap = client.get_platform_snapshot();
    assert_eq!(snap.total_transactions, 2);
    assert_eq!(snap.total_volume, 1000);
    assert_eq!(snap.total_users, 0);
    assert_eq!(snap.total_fees_collected, 25);
}

#[test]
fn test_hourly_circular_overwrite_168_slots() {
    let (mut client, _admin) = setup();
    let reporter = addr(2);
    let id = s("match");
    client.register_contract(id.clone(), reporter).unwrap();

    client.record_event(&id, &s("volume"), 100, 0).unwrap();
    client.record_event(&id, &s("volume"), 50, 0).unwrap();
    let slot0 = client.get_hourly_snapshot(0).unwrap().unwrap();
    assert_eq!(slot0.hour, 0);
    assert_eq!(slot0.total_volume, 150);
    assert_eq!(slot0.total_transactions, 2);

    client.record_event(&id, &s("volume"), 10, 3600).unwrap();
    let slot1 = client.get_hourly_snapshot(1).unwrap().unwrap();
    assert_eq!(slot1.hour, 1);
    assert_eq!(slot1.total_volume, 10);

    client.record_event(&id, &s("volume"), 5, 168 * 3600).unwrap();
    let wrapped = client.get_hourly_snapshot(0).unwrap().unwrap();
    assert_eq!(wrapped.hour, 168);
    assert_eq!(wrapped.total_volume, 5);
    assert_eq!(wrapped.total_transactions, 1);
}

#[test]
fn hourly_slot_past_window_is_refused() {
    let (client, _admin) = setup();
    assert_eq!(client.get_hourly_snapshot(168), Err(AnalyticsError::InvalidSlot));
    assert_eq!(client.get_hourly_snapshot(167), Ok(None));
    assert_eq!(SNAPSHOT_WINDOW_HOURS, 168);
}

#[test]
fn unknown_event_type_is_refused_and_changes_nothing() {
    let (mut client, _admin) = setup();
    let id = s("match");
    client.register_contract(id.clone(), addr(2)).unwrap();
    assert_eq!(client.record_event(&id, &s("swap"), 5, 0), Err(AnalyticsError::UnknownEventType));
    assert_eq!(client.get_platform_snapshot().total_transactions, 0);
}

#[test]
fn transaction_event_counts_its_value_and_user_event_its_users() {
    let (mut client, _admin) = setup();
    let id = s("match");
    client.register_contract(id.clone(), addr(2)).unwrap();
    client.record_event(&id, &s("tx"), 7, 0).unwrap();
    client.record_event(&id, &s("tx"), -3, 0).unwrap();
    client.record_event(&id, &s("users"), 5, 0).unwrap();
    let snap = client.get_platform_snapshot();
    assert_eq!(snap.total_transactions, 9);
    assert_eq!(snap.total_users, 5);
}

#[test]
fn reporting_is_refused_while_paused_and_resumes() {
    let (mut client, admin) = setup();
    let id = s("match");
    client.register_contract(id.clone(), addr(2)).unwrap();
    client.set_paused(true).unwrap();
    assert!(client.is_paused());
    assert_eq!(client.record_event(&id, &s("tx"), 1, 0), Err(AnalyticsError::ContractPaused));
    assert_eq!(
        client.record_match(&admin, 1, vec![0u8; 32], 60, 10, 5, 2, 0).map(|_| ()),
        Err(AnalyticsError::ContractPaused)
    );
    client.set_paused(false).unwrap();
    assert!(client.record_event(&id, &s("tx"), 1, 0).is_ok());
}

#[test]
fn only_reporters_may_record_matches() {
    let (mut client, _admin) = setup();
    let stranger = addr(5);
    assert_eq!(
        client.record_match(&stranger, 1, vec![0u8; 32], 60, 10, 5, 2, 0).map(|_| ()),
        Err(AnalyticsError::NotAuthorisedReporter)
    );
    client.add_reporter(stranger.duplicate()).unwrap();
    assert!(client.record_match(&stranger, 1, vec![0u8; 32], 60, 10, 5, 2, 0).is_ok());
    client.remove_reporter(&stranger).unwrap();
    assert_eq!(client.require_reporter(&stranger), Err(AnalyticsError::NotAuthorisedReporter));
}

#[test]
fn calls_before_initialisation_are_refused() {
    let mut client = AnalyticsContract::new();
    assert_eq!(client.get_admin().map(|_| ()), Err(AnalyticsError::NotInitialized));
    assert_eq!(client.add_reporter(addr(2)), Err(AnalyticsError::NotInitialized));
    assert_eq!(client.get_platform_metrics(), Err(AnalyticsError::NotInitialized));
    let snap = client.get_platform_snapshot();
    assert_eq!(snap.total_transactions, 0);
    assert_eq!(snap.last_updated, 0);
}

#[test]
fn initialise_twice_is_refused() {
    let (mut client, _admin) = setup();
    assert_eq!(client.initialize(addr(3), vec![1u8; 32], 5), Err(AnalyticsError::AlreadyInitialized));
    assert!(client.get_admin().unwrap().same(&addr(1)));
}

#[test]
fn record_match_keeps_rolling_average_and_totals() {
    let (mut client, admin) = setup();
    let ev = client.record_match(&admin, 4, vec![9u8; 32], 100, 1000, 250, 2, 50).unwrap();
    assert_eq!(ev.game_id, 4);
    assert_eq!(ev.recorded_at, 50);
    assert_eq!(ev.match_id, vec![9u8; 32]);
    client.record_match(&admin, 4, vec![8u8; 32], 200, 10, 0, 3, 60).unwrap();
    client.record_match(&admin, 4, vec![7u8; 32], 400, 0, 0, 1, 70).unwrap();
    let gm = client.get_game_metrics(4).unwrap();
    assert_eq!(gm.total_matches, 3);
    assert_eq!(gm.total_players, 6);
    assert_eq!(gm.total_wagered, 1010);
    assert_eq!(gm.total_rewards_paid, 250);
    assert_eq!(gm.avg_match_duration_secs, 233);
    assert_eq!(gm.last_updated, 70);
    let pm = client.get_platform_metrics().unwrap();
    assert_eq!(pm.total_matches_all_time, 3);
    assert_eq!(pm.total_volume, 1010);
    assert!(client.get_game_metrics(5).is_none());
}

#[test]
fn record_match_overflow_is_refused_and_changes_nothing() {
    let (mut client, admin) = setup();
    client.record_match(&admin, 1, vec![0u8; 32], 1, i128::MAX, 0, 1, 0).unwrap();
    assert_eq!(
        client.record_match(&admin, 1, vec![0u8; 32], 1, 1, 0, 1, 0).map(|_| ()),
        Err(AnalyticsError::ArithmeticOverflow)
    );
    assert_eq!(client.get_game_metrics(1).unwrap().total_matches, 1);
}

#[test]
fn player_behaviour_is_stored_under_salted_hash() {
    let env = soroban_sdk::Env::default();
    let mut client = AnalyticsContract::new();
    let admin = addr(1);
    client.initialize(admin.duplicate(), b"a".to_vec(), 0).unwrap();
    let player = Address::from_xdr(b"bc".to_vec());
    let hash = client.record_player_behaviour(&env, &admin, &player, 3, true, 30, 90_000).unwrap();
    let expected: Vec<u8> = vec![
        186, 120, 22, 191, 143, 1, 207, 234, 65, 65, 64, 222, 93, 174, 34, 35, 176, 3, 97, 163, 150, 23,
        122, 156, 180, 16, 255, 97, 242, 0, 21, 173,
    ];
    assert_eq!(hash, expected);
    client.record_player_behaviour(&env, &admin, &player, 3, false, 60, 90_500).unwrap();
    let snap = client.get_behaviour_by_hash(&expected).unwrap();
    assert_eq!(snap.player_hash, expected);
    assert_eq!(snap.matches_played, 2);
    assert_eq!(snap.wins, 1);
    assert_eq!(snap.losses, 1);
    assert_eq!(snap.avg_session_secs, 45);
    assert_eq!(snap.last_seen_bucket, 86_400);
    assert_eq!(client.get_platform_metrics().unwrap().active_players_30d, 2);
    assert!(client.get_behaviour_by_hash(&player.xdr).is_none());
}

#[test]
fn player_behaviour_query_is_for_admin_or_player_only() {
    let env = soroban_sdk::Env::default();
    let (mut client, admin) = setup();
    let player = addr(4);
    client.record_player_behaviour(&env, &admin, &player, 1, true, 10, 0).unwrap();
    assert!(client.get_player_behaviour(&env, &player, &player).unwrap().is_some());
    assert!(client.get_player_behaviour(&env, &admin, &player).unwrap().is_some());
    assert_eq!(
        client.get_player_behaviour(&env, &addr(6), &player).map(|_| ()),
        Err(AnalyticsError::NotAuthorised)
    );
    assert!(client.get_player_behaviour(&env, &admin, &addr(7)).unwrap().is_none());
}

#[test]
fn aggregate_game_stats_sums_hourly_buckets_in_period() {
    let (mut client, admin) = setup();
    client.record_aggregation_bucket(&admin, 1, 0, 0, 2, 4, 100, 10).unwrap();
    client.record_aggregation_bucket(&admin, 1, 0, 3600, 3, 5, 200, 20).unwrap();
    client.record_aggregation_bucket(&admin, 1, 0, 7200, 4, 6, 300, 30).unwrap();
    client.record_aggregation_bucket(&admin, 1, 1, 0, 100, 100, 100, 100).unwrap();
    client.record_aggregation_bucket(&admin, 2, 0, 0, 100, 100, 100, 100).unwrap();
    let two = client.aggregate_game_stats(1, 0, 7200).unwrap();
    assert_eq!(two.total_matches, 5);
    assert_eq!(two.total_players, 9);
    assert_eq!(two.total_wagered, 300);
    assert_eq!(two.total_rewards, 30);
    assert_eq!(two.win_rate, 5000);
    assert_eq!(two.avg_match_duration, 0);
    assert_eq!(two.retention_rate, 0);
    let three = client.aggregate_game_stats(1, 0, 7201).unwrap();
    assert_eq!(three.total_matches, 9);
    let none = client.aggregate_game_stats(1, 10, 5);
    assert_eq!(none.unwrap().total_matches, 0);
    assert_eq!(client.get_aggregation_bucket(1, 1, 0).unwrap().match_count, 100);
    assert!(client.get_aggregation_bucket(3, 0, 0).is_none());
}

#[test]
fn aggregate_game_stats_win_rate_from_rewards_over_wagers() {
    let (mut client, admin) = setup();
    client.record_match(&admin, 9, vec![0u8; 32], 10, 1000, 250, 2, 0).unwrap();
    assert_eq!(client.aggregate_game_stats(9, 0, 0).unwrap().win_rate, 2500);
    client.record_match(&admin, 8, vec![0u8; 32], 10, 0, 250, 2, 0).unwrap();
    assert_eq!(client.aggregate_game_stats(8, 0, 0).unwrap().win_rate, 5000);
}

#[test]
fn aggregate_game_stats_hour_counter_overflow_is_refused() {
    let (client, _admin) = setup();
    assert_eq!(
        client.aggregate_game_stats(1, u64::MAX - 10, u64::MAX),
        Err(AnalyticsError::ArithmeticOverflow)
    );
}

#[test]
fn batch_aggregate_keeps_order() {
    let (mut client, admin) = setup();
    client.record_aggregation_bucket(&admin, 1, 0, 0, 2, 0, 0, 0).unwrap();
    client.record_aggregation_bucket(&admin, 2, 0, 0, 5, 0, 0, 0).unwrap();
    let v = client.batch_aggregate_games(&vec![2, 1, 3], 0, 3600).unwrap();
    assert_eq!(v.len(), 3);
    assert_eq!(v[0].total_matches, 5);
    assert_eq!(v[1].total_matches, 2);
    assert_eq!(v[2].total_matches, 0);
    assert_eq!(v[2].game_id, 3);
}

#[test]
fn platform_aggregation_revenue_per_user_rounds_toward_zero() {
    let env = soroban_sdk::Env::default();
    let (mut client, admin) = setup();
    client.record_match(&admin, 1, vec![0u8; 32], 10, -7, 0, 1, 0).unwrap();
    client.record_player_behaviour(&env, &admin, &addr(3), 1, true, 1, 0).unwrap();
    client.record_player_behaviour(&env, &admin, &addr(4), 1, true, 1, 0).unwrap();
    let agg = client.aggregate_platform_stats(5, 9).unwrap();
    assert_eq!(agg.period_start, 5);
    assert_eq!(agg.total_matches, 1);
    assert_eq!(agg.unique_players, 2);
    assert_eq!(agg.mau, 2);
    assert_eq!(agg.total_volume, -7);
    assert_eq!(agg.revenue_per_user, -3);
    assert_eq!(agg.dau, 0);
}

#[test]
fn privacy_noise_follows_epsilon() {
    let (mut client, _admin) = setup();
    assert_eq!(client.get_privacy_epsilon(), 100);
    let m = client.add_privacy_noise(10).unwrap();
    assert_eq!(m.name, "metric");
    assert_eq!(m.noise, 0);
    assert_eq!(m.epsilon, 100);
    client.set_privacy_epsilon(1).unwrap();
    assert_eq!(client.add_privacy_noise(10).unwrap().noise, 6);
    assert_eq!(client.add_privacy_noise(-1).unwrap().noise, 2);
    assert_eq!(client.add_privacy_noise(-6).unwrap().noise, -3);
    client.set_privacy_epsilon(3).unwrap();
    assert_eq!(client.add_privacy_noise(4).unwrap().noise, 2);
    assert_eq!(client.add_privacy_noise(-5).unwrap().noise, 0);
    client.set_privacy_epsilon(0).unwrap();
    assert_eq!(client.add_privacy_noise(4).map(|_| ()), Err(AnalyticsError::DivisionByZero));
}

#[test]
fn cohorts_and_staking_are_recorded() {
    let (mut client, admin) = setup();
    client.record_cohort(&admin, vec![3u8; 32], 10, 4, 300, 55).unwrap();
    let c = client.get_cohort_analysis(&vec![3u8; 32]).unwrap();
    assert_eq!(c.size, 10);
    assert_eq!(c.avg_wager, 55);
    assert_eq!(c.retention_d30, 0);
    assert!(client.get_cohort_analysis(&vec![4u8; 32]).is_none());
    client.update_staked(&admin, 777, 12).unwrap();
    let pm = client.get_platform_metrics().unwrap();
    assert_eq!(pm.total_staked, 777);
    assert_eq!(pm.last_updated, 12);
}

#[test]
fn analytics_error_messages_match_the_contract() {
    assert_eq!(AnalyticsError::ContractPaused.message(), "contract is paused");
    assert_eq!(AnalyticsError::NotAuthorisedReporter.message(), "not an authorised reporter");
    assert_eq!(AnalyticsError::InvalidSlot.message(), "invalid slot");
}
