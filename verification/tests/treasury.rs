use arenax_contracts::ids::Address;
use arenax_contracts::treasury::contract::Treasury;
use arenax_contracts::treasury::proposals::u64_be_bytes;
use arenax_contracts::treasury::types::TreasuryError;

fn addr(n: u8) -> Address {
    let mut xdr = vec![0u8, 0, 0, 18, 0, 0, 0, 1];
    xdr.extend(std::iter::repeat(n).take(32));
    Address::from_xdr(xdr)
}

fn s(text: &str) -> String {
    text.to_string()
}

fn setup() -> (Treasury, Address, Vec<Address>) {
    let mut client = Treasury::new();
    let admin = addr(1);
    let signers = vec![admin.duplicate(), addr(2)];
    client
        .initialize(admin.duplicate(), vec![admin.duplicate(), addr(2)], 2, 3600, addr(9))
        .unwrap();
    (client, admin, signers)
}

fn fail_with_message<T>(r: Result<T, TreasuryError>) {
    if let Err(e) = r {
        panic!("{}", e.message());
    }
}

#[test]
fn pause_round_trip() {
    let (mut client, _admin, _signers) = setup();

    assert!(!client.is_paused());
    client.set_paused(&_admin, true).unwrap();
    assert!(client.is_paused());
    client.set_paused(&_admin, false).unwrap();
    assert!(!client.is_paused());
}

#[test]
#[should_panic(expected = "caller is not admin")]
fn pause_by_non_admin_fails() {
    let (mut client, _admin, _signers) = setup();

    let intruder = addr(7);
    fail_with_message(client.set_paused(&intruder, true));
}

#[test]
#[should_panic(expected = "contract is paused")]
fn deposit_blocked_while_paused() {
    let (mut client, _admin, _signers) = setup();

    client.set_paused(&_admin, true).unwrap();
    fail_with_message(client.deposit(100));
}

#[test]
#[should_panic(expected = "contract is paused")]
fn spending_proposal_blocked_while_paused() {
    let env = soroban_sdk::Env::default();
    let (mut client, admin, signers) = setup();

    client.set_paused(&admin, true).unwrap();
    let recipient = addr(5);
    fail_with_message(client.create_spending_proposal(
        &env,
        &addr(8),
        &signers[1],
        recipient,
        100,
        s("ops"),
        s("paused treasury"),
        0,
    ));
}

#[test]
fn reads_work_while_paused() {
    let (mut client, admin, signers) = setup();

    client.deposit(500).unwrap();

    client.set_paused(&admin, true).unwrap();

    // Read entry points must stay available during an emergency stop.
    assert!(client.is_paused());
    assert_eq!(client.get_balance(), 500);
    assert_eq!(client.get_signers().len(), signers.len());
    assert_eq!(client.get_threshold(), 2);
    assert!(client.get_admin().unwrap().same(&admin));
    assert_eq!(client.get_dashboard().unwrap().balance, 500);
}

#[test]
fn unpause_restores_mutations() {
    let (mut client, admin, _signers) = setup();

    client.set_paused(&admin, true).unwrap();

    // Unpause restores normal operation.
    client.set_paused(&admin, false).unwrap();
    client.deposit(250).unwrap();
    assert_eq!(client.get_balance(), 250);
}

#[test]
fn timelock_integration_duration_change_preserves_execute_after() {
    let env = soroban_sdk::Env::default();
    let treasury_address = addr(8);
    let mut client = Treasury::new();
    let admin = addr(1);
    let signer2 = addr(2);
    client
        .initialize(admin.duplicate(), vec![admin.duplicate(), signer2.duplicate()], 2, 3600, addr(9))
        .unwrap();

    client.deposit(10000).unwrap();

    let category = s("ops");
    let alloc_id = client.propose_budget_allocation(&admin, category.clone(), 10000, 0).unwrap();
    client.vote_budget_allocation(&signer2, alloc_id, true).unwrap();
    client.finalize_budget_allocation(&admin, alloc_id).unwrap();

    let recipient = addr(5);
    let (proposal_id, _call, _delay) = client
        .create_spending_proposal(
            &env,
            &treasury_address,
            &admin,
            recipient,
            1000,
            category.clone(),
            s("high-value spend"),
            0,
        )
        .unwrap();
    let at_creation = client.get_spending_proposal(proposal_id).unwrap();
    assert_eq!(at_creation.execute_after, 3600);
    client.approve_proposal(&signer2, proposal_id).unwrap();

    let duration_id = client.propose_time_lock_update(&admin, 0, 0).unwrap();
    client.vote_time_lock_update(&signer2, duration_id, true).unwrap();
    client.finalize_time_lock_update(&admin, duration_id).unwrap();
    assert_eq!(client.get_dashboard().unwrap().time_lock_duration, 0);

    let preserved = client.get_spending_proposal(proposal_id).unwrap();
    assert_eq!(preserved.execute_after, 3600);

    assert!(client.execute_proposal(&env, &treasury_address, &admin, proposal_id, 100).is_err());

    client.execute_proposal(&env, &treasury_address, &admin, proposal_id, 3600).unwrap();
    let executed = client.get_spending_proposal(proposal_id).unwrap();
    assert!(executed.executed);
    assert_eq!(client.get_balance(), 9000);
}

#[test]
fn initialise_checks_signers_and_threshold() {
    let mut client = Treasury::new();
    assert_eq!(client.initialize(addr(1), vec![], 1, 0, addr(9)), Err(TreasuryError::NoSigners));
    assert_eq!(client.initialize(addr(1), vec![addr(1)], 0, 0, addr(9)), Err(TreasuryError::InvalidThreshold));
    assert_eq!(client.initialize(addr(1), vec![addr(1)], 2, 0, addr(9)), Err(TreasuryError::InvalidThreshold));
    assert!(client.get_admin().is_err());
    client.initialize(addr(1), vec![addr(1)], 1, 0, addr(9)).unwrap();
    assert_eq!(
        client.initialize(addr(1), vec![addr(1)], 1, 0, addr(9)),
        Err(TreasuryError::AlreadyInitialized)
    );
}

#[test]
fn deposit_must_be_positive() {
    let (mut client, _admin, _signers) = setup();
    assert_eq!(client.deposit(0), Err(TreasuryError::NonPositiveAmount));
    assert_eq!(client.deposit(-5), Err(TreasuryError::NonPositiveAmount));
    client.deposit(i128::MAX).unwrap();
    assert_eq!(client.deposit(1), Err(TreasuryError::ArithmeticOverflow));
    assert_eq!(client.get_balance(), i128::MAX);
}

#[test]
fn signer_management_keeps_threshold_reachable() {
    let (mut client, admin, _signers) = setup();
    assert_eq!(client.add_signer(&admin, addr(2)), Err(TreasuryError::AlreadySigner));
    assert_eq!(client.add_signer(&addr(2), addr(3)), Err(TreasuryError::CallerNotAdmin));
    assert_eq!(client.remove_signer(&admin, &addr(2)), Err(TreasuryError::BelowThreshold));
    assert_eq!(client.remove_signer(&admin, &addr(4)), Err(TreasuryError::NotASigner));
    client.add_signer(&admin, addr(3)).unwrap();
    assert!(client.is_signer(&addr(3)));
    client.remove_signer(&admin, &addr(2)).unwrap();
    assert!(!client.is_signer(&addr(2)));
    let remaining = client.get_signers();
    assert_eq!(remaining.len(), 2);
    assert!(remaining[0].same(&admin));
    assert!(remaining[1].same(&addr(3)));
    assert_eq!(client.update_threshold(&admin, 3), Err(TreasuryError::InvalidThreshold));
    assert_eq!(client.update_threshold(&admin, 0), Err(TreasuryError::InvalidThreshold));
    client.update_threshold(&admin, 1).unwrap();
    assert_eq!(client.get_threshold(), 1);
}

#[test]
fn approvals_are_counted_once_and_can_be_revoked() {
    let env = soroban_sdk::Env::default();
    let (mut client, admin, _signers) = setup();
    let (id, _call, _delay) = client
        .create_spending_proposal(&env, &addr(8), &admin, addr(5), 10, s("ops"), s("x"), 0)
        .unwrap();
    assert_eq!(client.approve_proposal(&admin, id), Err(TreasuryError::AlreadyApproved));
    assert_eq!(client.approve_proposal(&addr(6), id), Err(TreasuryError::CallerNotSigner));
    assert_eq!(client.approve_proposal(&admin, 99), Err(TreasuryError::ProposalNotFound));
    client.approve_proposal(&addr(2), id).unwrap();
    assert_eq!(client.get_spending_proposal(id).unwrap().approvals.len(), 2);
    client.revoke_approval(&admin, id).unwrap();
    let p = client.get_spending_proposal(id).unwrap();
    assert_eq!(p.approvals.len(), 1);
    assert!(p.approvals[0].same(&addr(2)));
    assert_eq!(client.revoke_approval(&admin, id), Err(TreasuryError::NoApprovalToRevoke));
}

#[test]
fn execution_needs_approvals_balance_and_budget() {
    let env = soroban_sdk::Env::default();
    let (mut client, admin, _signers) = setup();
    let (id, _call, _delay) = client
        .create_spending_proposal(&env, &addr(8), &admin, addr(5), 100, s("ops"), s("x"), 0)
        .unwrap();
    assert_eq!(
        client.execute_proposal(&env, &addr(8), &admin, id, 5000).map(|_| ()),
        Err(TreasuryError::InsufficientApprovals)
    );
    client.approve_proposal(&addr(2), id).unwrap();
    assert_eq!(
        client.execute_proposal(&env, &addr(8), &admin, id, 10).map(|_| ()),
        Err(TreasuryError::TimeLockNotElapsed)
    );
    assert_eq!(
        client.execute_proposal(&env, &addr(8), &admin, id, 5000).map(|_| ()),
        Err(TreasuryError::InsufficientBalance)
    );
    client.deposit(1000).unwrap();
    assert_eq!(
        client.execute_proposal(&env, &addr(8), &admin, id, 5000).map(|_| ()),
        Err(TreasuryError::ExceedsBudget)
    );
    let alloc = client.propose_budget_allocation(&admin, s("ops"), 150, 0).unwrap();
    assert_eq!(client.finalize_budget_allocation(&admin, alloc).map(|_| ()), Err(TreasuryError::InsufficientVotes));
    client.vote_budget_allocation(&addr(2), alloc, true).unwrap();
    assert_eq!(client.vote_budget_allocation(&addr(2), alloc, false), Err(TreasuryError::AlreadyVoted));
    let credit = client.finalize_budget_allocation(&admin, alloc).unwrap();
    assert_eq!(credit.amount, 150);
    assert_eq!(credit.category, "ops");
    let out = client.execute_proposal(&env, &addr(8), &admin, id, 5000).unwrap();
    assert_eq!(out.amount, 100);
    assert!(out.recipient.same(&addr(5)));
    assert!(out.time_lock_call.time_lock.same(&addr(9)));
    assert_eq!(client.get_balance(), 900);
    let budget = client.get_budget_allocation(&s("ops"));
    assert_eq!(budget.allocated, 150);
    assert_eq!(budget.spent, 100);
    assert_eq!(
        client.execute_proposal(&env, &addr(8), &admin, id, 5000).map(|_| ()),
        Err(TreasuryError::AlreadyExecuted)
    );
    let dash = client.get_dashboard().unwrap();
    assert_eq!(dash.total_spent, 100);
    assert_eq!(dash.total_allocated, 150);
    assert_eq!(dash.active_spending_proposals, 0);
    assert_eq!(dash.spending_proposal_count, 1);
    assert_eq!(dash.allocation_proposal_count, 1);
    assert_eq!(dash.signer_count, 2);
}

#[test]
fn cancellation_by_proposer_or_admin_only() {
    let env = soroban_sdk::Env::default();
    let (mut client, admin, _signers) = setup();
    let (id, _call, _delay) = client
        .create_spending_proposal(&env, &addr(8), &addr(2), addr(5), 100, s("ops"), s("x"), 0)
        .unwrap();
    let (id2, _call2, _delay2) = client
        .create_spending_proposal(&env, &addr(8), &addr(2), addr(5), 100, s("ops"), s("y"), 0)
        .unwrap();
    assert_eq!(client.get_dashboard().unwrap().active_spending_proposals, 2);
    assert_eq!(client.cancel_proposal(&addr(6), id), Err(TreasuryError::CallerNotAdmin));
    client.cancel_proposal(&addr(2), id).unwrap();
    client.cancel_proposal(&admin, id2).unwrap();
    assert!(client.get_spending_proposal(id).unwrap().cancelled);
    assert_eq!(client.approve_proposal(&admin, id), Err(TreasuryError::ProposalNotActive));
    assert_eq!(
        client.execute_proposal(&env, &addr(8), &admin, id, 9999).map(|_| ()),
        Err(TreasuryError::ProposalCancelled)
    );
    assert_eq!(client.get_dashboard().unwrap().active_spending_proposals, 0);
}

#[test]
fn operation_id_hashes_treasury_address_and_proposal_id() {
    let env = soroban_sdk::Env::default();
    assert_eq!(u64_be_bytes(42), vec![0, 0, 0, 0, 0, 0, 0, 42]);
    assert_eq!(u64_be_bytes(0x0102030405060708), vec![1, 2, 3, 4, 5, 6, 7, 8]);
    let id = Treasury::proposal_operation_id(&env, &Address::from_xdr(vec![1, 2, 3]), 42);
    let expected: Vec<u8> = vec![
        163, 239, 187, 239, 62, 124, 52, 115, 163, 207, 49, 31, 75, 232, 168, 130, 118, 109, 208, 87, 216,
        241, 159, 91, 218, 236, 236, 225, 168, 241, 45, 39,
    ];
    assert_eq!(id, expected);
}

#[test]
fn duration_governance_affects_future_proposals_only() {
    let env = soroban_sdk::Env::default();
    let (mut client, admin, _signers) = setup();
    let (old_id, _c, delay) = client
        .create_spending_proposal(&env, &addr(8), &admin, addr(5), 1, s("ops"), s("x"), 100)
        .unwrap();
    assert_eq!(delay, 3600);
    let d = client.propose_time_lock_update(&admin, 60, 0).unwrap();
    assert_eq!(client.finalize_time_lock_update(&admin, d), Err(TreasuryError::InsufficientVotes));
    client.vote_time_lock_update(&addr(2), d, false).unwrap();
    assert_eq!(client.vote_time_lock_update(&addr(2), d, true), Err(TreasuryError::AlreadyVoted));
    assert_eq!(client.finalize_time_lock_update(&admin, d), Err(TreasuryError::InsufficientVotes));
    let d2 = client.propose_time_lock_update(&admin, 60, 0).unwrap();
    client.vote_time_lock_update(&addr(2), d2, true).unwrap();
    client.finalize_time_lock_update(&admin, d2).unwrap();
    assert_eq!(client.finalize_time_lock_update(&admin, d2), Err(TreasuryError::AlreadyFinalized));
    assert_eq!(client.get_duration_proposal_count(), 2);
    assert!(client.get_duration_proposal(d2).unwrap().approved);
    let (new_id, _c2, delay2) = client
        .create_spending_proposal(&env, &addr(8), &admin, addr(5), 1, s("ops"), s("y"), 100)
        .unwrap();
    assert_eq!(delay2, 60);
    assert_eq!(client.get_spending_proposal(new_id).unwrap().execute_after, 160);
    assert_eq!(client.get_spending_proposal(old_id).unwrap().execute_after, 3700);
    assert_eq!(client.get_spending_proposal_count(), 2);
}

#[test]
fn treasury_error_messages_match_the_contract() {
    assert_eq!(TreasuryError::CallerNotSigner.message(), "caller is not a signer");
    assert_eq!(TreasuryError::ExceedsBudget.message(), "exceeds budget allocation for category");
    assert_eq!(TreasuryError::TimeLockNotElapsed.message(), "time-lock not yet elapsed");
}

#[test]
fn operation_ids_differ_between_treasuries_and_proposals() {
    let env = soroban_sdk::Env::default();
    let a = Treasury::proposal_operation_id(&env, &addr(7), 1);
    let b = Treasury::proposal_operation_id(&env, &addr(8), 1);
    let c = Treasury::proposal_operation_id(&env, &addr(7), 2);
    assert_eq!(a.len(), 32);
    assert_ne!(a, b);
    assert_ne!(a, c);
    assert_ne!(b, c);
    assert_eq!(a, Treasury::proposal_operation_id(&env, &addr(7), 1));
}

#[test]
fn ballots_hold_each_voter_once_on_one_side() {
    let mut client = Treasury::new();
    let admin = addr(1);
    client
        .initialize(admin.duplicate(), vec![admin.duplicate(), addr(2), addr(3)], 2, 3600, addr(9))
        .unwrap();
    let alloc = client.propose_budget_allocation(&admin, s("ops"), 10, 0).unwrap();
    assert_eq!(client.vote_budget_allocation(&admin, alloc, false), Err(TreasuryError::AlreadyVoted));
    client.vote_budget_allocation(&addr(2), alloc, false).unwrap();
    assert_eq!(client.vote_budget_allocation(&addr(2), alloc, true), Err(TreasuryError::AlreadyVoted));
    client.vote_budget_allocation(&addr(3), alloc, true).unwrap();
    let p = client.get_allocation_proposal(alloc).unwrap();
    assert_eq!(p.votes_for.len(), 2);
    assert!(p.votes_for[0].same(&admin) && p.votes_for[1].same(&addr(3)));
    assert_eq!(p.votes_against.len(), 1);
    assert!(p.votes_against[0].same(&addr(2)));

    let d = client.propose_time_lock_update(&addr(3), 60, 0).unwrap();
    assert_eq!(client.vote_time_lock_update(&addr(3), d, true), Err(TreasuryError::AlreadyVoted));
    client.vote_time_lock_update(&admin, d, false).unwrap();
    let q = client.get_duration_proposal(d).unwrap();
    assert_eq!(q.votes_for.len(), 1);
    assert!(q.votes_for[0].same(&addr(3)));
    assert_eq!(q.votes_against.len(), 1);
    assert!(q.votes_against[0].same(&admin));
}

#[test]
fn execution_is_prepared_before_the_time_lock_runs() {
    let env = soroban_sdk::Env::default();
    let (mut client, admin, _signers) = setup();
    let me = addr(8);
    assert_eq!(
        client.prepare_execution(&env, &me, &admin, 1).map(|_| ()),
        Err(TreasuryError::ProposalNotFound)
    );
    let (id, _call, _delay) = client
        .create_spending_proposal(&env, &me, &admin, addr(5), 10, s("ops"), s("x"), 100)
        .unwrap();
    assert_eq!(
        client.prepare_execution(&env, &me, &addr(6), id).map(|_| ()),
        Err(TreasuryError::CallerNotSigner)
    );
    assert_eq!(
        client.prepare_execution(&env, &me, &admin, id).map(|_| ()),
        Err(TreasuryError::InsufficientApprovals)
    );
    client.approve_proposal(&addr(2), id).unwrap();
    let call = client.prepare_execution(&env, &me, &admin, id).unwrap();
    assert!(call.time_lock.same(&addr(9)));
    assert_eq!(call.operation_id, Treasury::proposal_operation_id(&env, &me, id));
    assert_eq!(
        client.execute_proposal(&env, &me, &admin, id, 100).map(|_| ()),
        Err(TreasuryError::TimeLockNotElapsed)
    );
    client.cancel_proposal(&admin, id).unwrap();
    assert_eq!(
        client.prepare_execution(&env, &me, &admin, id).map(|_| ()),
        Err(TreasuryError::ProposalCancelled)
    );
}
