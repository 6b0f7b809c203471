//! What holds of the treasury across calls: the invariants every call
//! keeps, the conservation of funds, the emergency stop, frozen time locks
//! and single execution.
use vstd::prelude::*;
use crate::ids::{other_than, without_address};
use crate::treasury::model::{
    active_count,
    is_active,
    fits_i128,
    dashboard_spec,
    add_signer_spec, approve_proposal_spec, be_bytes, budget_of, cancel_proposal_spec,
    create_spending_proposal_spec, deposit_spec, empty_model, execute_proposal_spec,
    finalize_budget_allocation_spec, finalize_time_lock_update_spec, initialize_spec,
    operation_preimage,
    propose_budget_allocation_spec, propose_time_lock_update_spec, remove_signer_spec,
    revoke_approval_spec, set_paused_spec, update_threshold_spec, valid_threshold,
    vote_budget_allocation_spec, vote_time_lock_update_spec, TreasuryModel,
};
use crate::treasury::types::TreasuryError;

verus! {

/// Every call that changes the treasury's storage, with its arguments.
pub enum TreasuryOp {
    Initialize {
        admin: Seq<u8>,
        signers: Seq<Seq<u8>>,
        threshold: u32,
        time_lock_duration: u64,
        time_lock: Seq<u8>,
    },
    Deposit { amount: i128 },
    AddSigner { caller: Seq<u8>, signer: Seq<u8> },
    RemoveSigner { caller: Seq<u8>, signer: Seq<u8> },
    UpdateThreshold { caller: Seq<u8>, threshold: u32 },
    SetPaused { caller: Seq<u8>, paused: bool },
    CreateSpendingProposal {
        proposer: Seq<u8>,
        recipient: Seq<u8>,
        amount: i128,
        category: Seq<char>,
        description: Seq<char>,
        now: u64,
    },
    ApproveProposal { signer: Seq<u8>, id: u64 },
    RevokeApproval { signer: Seq<u8>, id: u64 },
    ExecuteProposal { caller: Seq<u8>, id: u64, now: u64 },
    CancelProposal { caller: Seq<u8>, id: u64 },
    ProposeBudgetAllocation { proposer: Seq<u8>, category: Seq<char>, amount: i128, now: u64 },
    VoteBudgetAllocation { signer: Seq<u8>, id: u64, support: bool },
    FinalizeBudgetAllocation { caller: Seq<u8>, id: u64 },
    ProposeTimeLockUpdate { proposer: Seq<u8>, new_duration: u64, now: u64 },
    VoteTimeLockUpdate { signer: Seq<u8>, id: u64, support: bool },
    FinalizeTimeLockUpdate { caller: Seq<u8>, id: u64 },
}

/// The storage after `op`, or why `op` is refused.
pub open spec fn step(m: TreasuryModel, op: TreasuryOp) -> Result<TreasuryModel, TreasuryError> {
    match op {
        TreasuryOp::Initialize { admin, signers, threshold, time_lock_duration, time_lock } =>
            initialize_spec(m, admin, signers, threshold, time_lock_duration, time_lock),
        TreasuryOp::Deposit { amount } => deposit_spec(m, amount),
        TreasuryOp::AddSigner { caller, signer } => add_signer_spec(m, caller, signer),
        TreasuryOp::RemoveSigner { caller, signer } => remove_signer_spec(m, caller, signer),
        TreasuryOp::UpdateThreshold { caller, threshold } => update_threshold_spec(m, caller, threshold),
        TreasuryOp::SetPaused { caller, paused } => set_paused_spec(m, caller, paused),
        TreasuryOp::CreateSpendingProposal { proposer, recipient, amount, category, description, now } =>
            match create_spending_proposal_spec(m, proposer, recipient, amount, category, description, now) {
            Ok(r) => Ok(r.0),
            Err(e) => Err(e),
        },
        TreasuryOp::ApproveProposal { signer, id } => approve_proposal_spec(m, signer, id),
        TreasuryOp::RevokeApproval { signer, id } => revoke_approval_spec(m, signer, id),
        TreasuryOp::ExecuteProposal { caller, id, now } => match execute_proposal_spec(m, caller, id, now) {
            Ok(r) => Ok(r.0),
            Err(e) => Err(e),
        },
        TreasuryOp::CancelProposal { caller, id } => cancel_proposal_spec(m, caller, id),
        TreasuryOp::ProposeBudgetAllocation { proposer, category, amount, now } =>
            match propose_budget_allocation_spec(m, proposer, category, amount, now) {
            Ok(r) => Ok(r.0),
            Err(e) => Err(e),
        },
        TreasuryOp::VoteBudgetAllocation { signer, id, support } => vote_budget_allocation_spec(
            m,
            signer,
            id,
            support,
        ),
        TreasuryOp::FinalizeBudgetAllocation { caller, id } => match finalize_budget_allocation_spec(
            m,
            caller,
            id,
        ) {
            Ok(r) => Ok(r.0),
            Err(e) => Err(e),
        },
        TreasuryOp::ProposeTimeLockUpdate { proposer, new_duration, now } =>
            match propose_time_lock_update_spec(m, proposer, new_duration, now) {
            Ok(r) => Ok(r.0),
            Err(e) => Err(e),
        },
        TreasuryOp::VoteTimeLockUpdate { signer, id, support } => vote_time_lock_update_spec(
            m,
            signer,
            id,
            support,
        ),
        TreasuryOp::FinalizeTimeLockUpdate { caller, id } => finalize_time_lock_update_spec(m, caller, id),
    }
}

// ─── Invariants ──────────────────────────────────────────────────────────

/// Once initialised, the threshold is at least one and at most the number
/// of signers.
pub open spec fn config_ok(m: TreasuryModel) -> bool {
    m.admin is Some ==> valid_threshold(m.threshold, m.signers.len())
}

/// The balance is never negative, no category has spent more than it was
/// allocated or less than nothing, and every proposal asks a positive amount.
pub open spec fn ledger_ok(m: TreasuryModel) -> bool {
    &&& m.balance >= 0
    &&& forall|c: Seq<char>|
        #![trigger m.budgets[c]]
        m.budgets.dom().contains(c) ==> 0 <= m.budgets[c].spent <= m.budgets[c].allocated
    &&& forall|id: u64| #[trigger] m.spending.dom().contains(id) ==> m.spending[id].amount > 0
    &&& forall|id: u64| #[trigger] m.allocations.dom().contains(id) ==> m.allocations[id].amount > 0
}

/// No proposal is both executed and cancelled, and no signer approves a
/// proposal twice.
pub open spec fn proposals_ok(m: TreasuryModel) -> bool {
    forall|id: u64|
        #[trigger] m.spending.dom().contains(id) ==> !(m.spending[id].executed
            && m.spending[id].cancelled) && m.spending[id].approvals.no_duplicates()
}

/// One proposal's ballot: no address votes twice on a side, nor on both.
pub open spec fn ballot_ok(votes_for: Seq<Seq<u8>>, votes_against: Seq<Seq<u8>>) -> bool {
    &&& votes_for.no_duplicates()
    &&& votes_against.no_duplicates()
    &&& forall|v: Seq<u8>| #[trigger] votes_for.contains(v) ==> !votes_against.contains(v)
}

/// Every allocation and duration proposal's ballot is free of duplicates,
/// and the vote records name exactly the addresses on its ballot.
pub open spec fn ballots_ok(m: TreasuryModel) -> bool {
    &&& forall|id: u64|
        #[trigger] m.allocations.dom().contains(id) ==> ballot_ok(
            m.allocations[id].votes_for,
            m.allocations[id].votes_against,
        )
    &&& forall|id: u64, v: Seq<u8>|
        #![trigger m.allocation_votes.dom().contains((id, v))]
        #![trigger m.allocations[id].votes_for.contains(v)]
        #![trigger m.allocations[id].votes_against.contains(v)]
        m.allocation_votes.dom().contains((id, v)) <==> m.allocations.dom().contains(id) && (
        m.allocations[id].votes_for.contains(v) || m.allocations[id].votes_against.contains(v))
    &&& forall|id: u64|
        #[trigger] m.durations.dom().contains(id) ==> ballot_ok(
            m.durations[id].votes_for,
            m.durations[id].votes_against,
        )
    &&& forall|id: u64, v: Seq<u8>|
        #![trigger m.duration_votes.dom().contains((id, v))]
        #![trigger m.durations[id].votes_for.contains(v)]
        #![trigger m.durations[id].votes_against.contains(v)]
        m.duration_votes.dom().contains((id, v)) <==> m.durations.dom().contains(id) && (
        m.durations[id].votes_for.contains(v) || m.durations[id].votes_against.contains(v))
}

/// Proposal ids run from 1 to their counter; before initialisation there
/// are no signers and no proposals.
pub open spec fn ids_ok(m: TreasuryModel) -> bool {
    &&& forall|id: u64| #[trigger] m.spending.dom().contains(id) ==> 1 <= id <= m.spending_count
    &&& forall|id: u64|
        #[trigger] m.allocations.dom().contains(id) ==> 1 <= id <= m.allocation_count
    &&& forall|id: u64| #[trigger] m.durations.dom().contains(id) ==> 1 <= id <= m.duration_count
    &&& m.admin is None ==> m.signers.len() == 0 && m.spending.dom() =~= Set::<u64>::empty()
        && m.allocations.dom() =~= Set::<u64>::empty() && m.durations.dom() =~= Set::<u64>::empty()
}

/// Removing an address from a list without duplicates leaves none.
pub proof fn lemma_without_address_no_duplicates(s: Seq<Seq<u8>>, a: Seq<u8>)
    requires
        s.no_duplicates(),
    ensures
        without_address(s, a).no_duplicates(),
    decreases s.len(),
{
    if s.len() > 0 {
        let dl = s.drop_last();
        let last = s.last();
        let pred = other_than(a);
        assert(s =~= dl.push(last));
        dl.lemma_filter_push(last, pred);
        assert(dl.no_duplicates());
        lemma_without_address_no_duplicates(dl, a);
        let f = dl.filter(pred);
        if pred(last) {
            if f.contains(last) {
                dl.lemma_filter_contains_rev(pred, last);
                let k = choose|k: int| 0 <= k < dl.len() && dl[k] == last;
                assert(s[k] == s[s.len() - 1]);
            }
            let g = f.push(last);
            assert forall|i: int, j: int| 0 <= i < g.len() && 0 <= j < g.len() && i != j implies g[i]
                != g[j] by {
                if i < f.len() && j < f.len() {
                    assert(g[i] == f[i] && g[j] == f[j]);
                } else if i < f.len() {
                    assert(g[i] == f[i] && g[j] == last);
                    assert(f.contains(f[i]));
                } else {
                    assert(g[j] == f[j] && g[i] == last);
                    assert(f.contains(f[j]));
                }
            }
            assert(without_address(s, a) == g);
        } else {
            assert(without_address(s, a) == f);
        }
    }
}

/// The empty storage meets every invariant.
pub proof fn lemma_initial_state_ok()
    ensures
        config_ok(empty_model()),
        ledger_ok(empty_model()),
        proposals_ok(empty_model()),
        ids_ok(empty_model()),
        ballots_ok(empty_model()),
{
}

/// Every call keeps the threshold between one and the number of signers.
pub proof fn lemma_step_keeps_config(m: TreasuryModel, op: TreasuryOp)
    requires
        config_ok(m),
        step(m, op) is Ok,
    ensures
        config_ok(step(m, op)->Ok_0),
{
    match op {
        TreasuryOp::RemoveSigner { caller, signer } => {
            let post = step(m, op)->Ok_0;
            assert(post.signers.len() >= m.threshold);
        },
        _ => {},
    }
}

/// Every call keeps the balance non-negative, each category within its
/// allocation, and every proposal's amount positive.
pub proof fn lemma_step_keeps_ledger(m: TreasuryModel, op: TreasuryOp)
    requires
        ledger_ok(m),
        step(m, op) is Ok,
    ensures
        ledger_ok(step(m, op)->Ok_0),
{
    let post = step(m, op)->Ok_0;
    match op {
        TreasuryOp::ExecuteProposal { caller, id, now } => {
            let p = m.spending[id];
            let b = budget_of(m, p.category);
            assert(0 <= b.spent <= b.allocated);
            assert forall|c: Seq<char>| #[trigger] post.budgets.dom().contains(c) implies 0
                <= post.budgets[c].spent <= post.budgets[c].allocated by {
                if c != p.category {
                    assert(post.budgets[c] == m.budgets[c]);
                }
            }
            assert forall|i: u64| #[trigger] post.spending.dom().contains(i) implies post.spending[i].amount
                > 0 by {
                if i != id {
                    assert(post.spending[i] == m.spending[i]);
                }
            }
        },
        TreasuryOp::FinalizeBudgetAllocation { caller, id } => {
            let p = m.allocations[id];
            let b = budget_of(m, p.category);
            assert(0 <= b.spent <= b.allocated);
            assert forall|c: Seq<char>| #[trigger] post.budgets.dom().contains(c) implies 0
                <= post.budgets[c].spent <= post.budgets[c].allocated by {
                if c != p.category {
                    assert(post.budgets[c] == m.budgets[c]);
                }
            }
            assert forall|i: u64| #[trigger] post.allocations.dom().contains(i)
                implies post.allocations[i].amount > 0 by {
                if i != id {
                    assert(post.allocations[i] == m.allocations[i]);
                }
            }
        },
        TreasuryOp::ApproveProposal { signer, id } => {
            assert forall|i: u64| #[trigger] post.spending.dom().contains(i) implies post.spending[i].amount
                > 0 by {
                if i != id {
                    assert(post.spending[i] == m.spending[i]);
                }
            }
        },
        TreasuryOp::RevokeApproval { signer, id } => {
            assert forall|i: u64| #[trigger] post.spending.dom().contains(i) implies post.spending[i].amount
                > 0 by {
                if i != id {
                    assert(post.spending[i] == m.spending[i]);
                }
            }
        },
        TreasuryOp::CancelProposal { caller, id } => {
            assert forall|i: u64| #[trigger] post.spending.dom().contains(i) implies post.spending[i].amount
                > 0 by {
                if i != id {
                    assert(post.spending[i] == m.spending[i]);
                }
            }
        },
        TreasuryOp::CreateSpendingProposal { proposer, recipient, amount, category, description, now } => {
            let id = (m.spending_count + 1) as u64;
            assert forall|i: u64| #[trigger] post.spending.dom().contains(i) implies post.spending[i].amount
                > 0 by {
                if i != id {
                    assert(post.spending[i] == m.spending[i]);
                }
            }
        },
        TreasuryOp::ProposeBudgetAllocation { proposer, category, amount, now } => {
            let id = (m.allocation_count + 1) as u64;
            assert forall|i: u64| #[trigger] post.allocations.dom().contains(i)
                implies post.allocations[i].amount > 0 by {
                if i != id {
                    assert(post.allocations[i] == m.allocations[i]);
                }
            }
        },
        TreasuryOp::VoteBudgetAllocation { signer, id, support } => {
            assert forall|i: u64| #[trigger] post.allocations.dom().contains(i)
                implies post.allocations[i].amount > 0 by {
                if i != id {
                    assert(post.allocations[i] == m.allocations[i]);
                }
            }
        },
        _ => {},
    }
}

/// Every call keeps executed proposals uncancelled (and the reverse) and
/// each proposal's approvals free of duplicates.
pub proof fn lemma_step_keeps_proposals(m: TreasuryModel, op: TreasuryOp)
    requires
        proposals_ok(m),
        step(m, op) is Ok,
    ensures
        proposals_ok(step(m, op)->Ok_0),
{
    let post = step(m, op)->Ok_0;
    match op {
        TreasuryOp::ApproveProposal { signer, id } => {
            let p = m.spending[id];
            assert(m.spending.dom().contains(id));
            assert forall|i: u64| #[trigger] post.spending.dom().contains(i) implies !(
            post.spending[i].executed && post.spending[i].cancelled)
                && post.spending[i].approvals.no_duplicates() by {
                if i != id {
                    assert(post.spending[i] == m.spending[i]);
                } else {
                    let g = p.approvals.push(signer);
                    assert forall|x: int, y: int|
                        0 <= x < g.len() && 0 <= y < g.len() && x != y implies g[x] != g[y] by {
                        if x < p.approvals.len() && y < p.approvals.len() {
                            assert(g[x] == p.approvals[x] && g[y] == p.approvals[y]);
                        } else if x < p.approvals.len() {
                            assert(g[x] == p.approvals[x]);
                            assert(p.approvals.contains(p.approvals[x]));
                        } else {
                            assert(g[y] == p.approvals[y]);
                            assert(p.approvals.contains(p.approvals[y]));
                        }
                    }
                }
            }
        },
        TreasuryOp::RevokeApproval { signer, id } => {
            let p = m.spending[id];
            assert(m.spending.dom().contains(id));
            lemma_without_address_no_duplicates(p.approvals, signer);
            assert forall|i: u64| #[trigger] post.spending.dom().contains(i) implies !(
            post.spending[i].executed && post.spending[i].cancelled)
                && post.spending[i].approvals.no_duplicates() by {
                if i != id {
                    assert(post.spending[i] == m.spending[i]);
                }
            }
        },
        TreasuryOp::ExecuteProposal { caller, id, now } => {
            assert(m.spending.dom().contains(id));
            assert forall|i: u64| #[trigger] post.spending.dom().contains(i) implies !(
            post.spending[i].executed && post.spending[i].cancelled)
                && post.spending[i].approvals.no_duplicates() by {
                if i != id {
                    assert(post.spending[i] == m.spending[i]);
                }
            }
        },
        TreasuryOp::CancelProposal { caller, id } => {
            assert(m.spending.dom().contains(id));
            assert forall|i: u64| #[trigger] post.spending.dom().contains(i) implies !(
            post.spending[i].executed && post.spending[i].cancelled)
                && post.spending[i].approvals.no_duplicates() by {
                if i != id {
                    assert(post.spending[i] == m.spending[i]);
                }
            }
        },
        TreasuryOp::CreateSpendingProposal { proposer, recipient, amount, category, description, now } => {
            let id = (m.spending_count + 1) as u64;
            assert forall|i: u64| #[trigger] post.spending.dom().contains(i) implies !(
            post.spending[i].executed && post.spending[i].cancelled)
                && post.spending[i].approvals.no_duplicates() by {
                if i != id {
                    assert(post.spending[i] == m.spending[i]);
                }
            }
        },
        _ => {},
    }
}

/// Every call keeps proposal ids between 1 and their counters, and none
/// exists before initialisation.
pub proof fn lemma_step_keeps_ids(m: TreasuryModel, op: TreasuryOp)
    requires
        ids_ok(m),
        step(m, op) is Ok,
    ensures
        ids_ok(step(m, op)->Ok_0),
{
    let post = step(m, op)->Ok_0;
    match op {
        TreasuryOp::Initialize { admin, signers, threshold, time_lock_duration, time_lock } => {
            assert(m.admin is None);
            assert(m.spending.dom() =~= Set::<u64>::empty());
            assert forall|id: u64| #[trigger] post.spending.dom().contains(id) implies 1 <= id
                <= post.spending_count by {
                assert(!m.spending.dom().contains(id));
            }
            assert forall|id: u64| #[trigger] post.allocations.dom().contains(id) implies 1 <= id
                <= post.allocation_count by {
                assert(!m.allocations.dom().contains(id));
            }
            assert forall|id: u64| #[trigger] post.durations.dom().contains(id) implies 1 <= id
                <= post.duration_count by {
                assert(!m.durations.dom().contains(id));
            }
        },
        TreasuryOp::CreateSpendingProposal { proposer, recipient, amount, category, description, now } => {
            assert(m.signers.contains(proposer));
        },
        TreasuryOp::ProposeBudgetAllocation { proposer, category, amount, now } => {
            assert(m.signers.contains(proposer));
        },
        TreasuryOp::ProposeTimeLockUpdate { proposer, new_duration, now } => {
            assert(m.signers.contains(proposer));
        },
        TreasuryOp::ApproveProposal { signer, id } => {
            assert(m.spending.dom().contains(id));
            assert(post.spending.dom() =~= m.spending.dom());
        },
        TreasuryOp::RevokeApproval { signer, id } => {
            assert(m.spending.dom().contains(id));
            assert(post.spending.dom() =~= m.spending.dom());
        },
        TreasuryOp::ExecuteProposal { caller, id, now } => {
            assert(m.spending.dom().contains(id));
            assert(post.spending.dom() =~= m.spending.dom());
        },
        TreasuryOp::CancelProposal { caller, id } => {
            assert(m.spending.dom().contains(id));
            assert(post.spending.dom() =~= m.spending.dom());
        },
        TreasuryOp::VoteBudgetAllocation { signer, id, support } => {
            assert(m.allocations.dom().contains(id));
            assert(post.allocations.dom() =~= m.allocations.dom());
        },
        TreasuryOp::FinalizeBudgetAllocation { caller, id } => {
            assert(m.allocations.dom().contains(id));
            assert(post.allocations.dom() =~= m.allocations.dom());
        },
        TreasuryOp::VoteTimeLockUpdate { signer, id, support } => {
            assert(m.durations.dom().contains(id));
            assert(post.durations.dom() =~= m.durations.dom());
        },
        TreasuryOp::FinalizeTimeLockUpdate { caller, id } => {
            assert(m.durations.dom().contains(id));
            assert(post.durations.dom() =~= m.durations.dom());
        },
        _ => {},
    }
}

/// The terms a spending proposal was created with, its time lock included.
pub open spec fn same_terms(p: crate::treasury::types::SpendingProposalView, q: crate::treasury::types::SpendingProposalView) -> bool {
    &&& p.id == q.id
    &&& p.proposer == q.proposer
    &&& p.recipient == q.recipient
    &&& p.amount == q.amount
    &&& p.category == q.category
    &&& p.description == q.description
    &&& p.created_at == q.created_at
    &&& p.execute_after == q.execute_after
}

/// Once created, a spending proposal stays, and no call changes its terms
/// or its `execute_after`: changing the time-lock duration affects only
/// proposals created afterwards.
pub proof fn lemma_step_freezes_proposal_terms(m: TreasuryModel, op: TreasuryOp, id: u64)
    requires
        ids_ok(m),
        m.spending.dom().contains(id),
        step(m, op) is Ok,
    ensures
        step(m, op)->Ok_0.spending.dom().contains(id),
        same_terms(step(m, op)->Ok_0.spending[id], m.spending[id]),
{
    match op {
        TreasuryOp::CreateSpendingProposal { .. } => {
            assert(id != m.spending_count + 1);
        },
        TreasuryOp::ApproveProposal { id: j, .. } => {
            assert(m.spending.dom().contains(j));
        },
        TreasuryOp::RevokeApproval { id: j, .. } => {
            assert(m.spending.dom().contains(j));
        },
        TreasuryOp::ExecuteProposal { id: j, .. } => {
            assert(m.spending.dom().contains(j));
        },
        TreasuryOp::CancelProposal { id: j, .. } => {
            assert(m.spending.dom().contains(j));
        },
        TreasuryOp::Initialize { .. } => {},
        TreasuryOp::Deposit { .. } => {},
        TreasuryOp::AddSigner { .. } => {},
        TreasuryOp::RemoveSigner { .. } => {},
        TreasuryOp::UpdateThreshold { .. } => {},
        TreasuryOp::SetPaused { .. } => {},
        TreasuryOp::ProposeBudgetAllocation { .. } => {},
        TreasuryOp::VoteBudgetAllocation { .. } => {},
        TreasuryOp::FinalizeBudgetAllocation { .. } => {},
        TreasuryOp::ProposeTimeLockUpdate { .. } => {},
        TreasuryOp::VoteTimeLockUpdate { .. } => {},
        TreasuryOp::FinalizeTimeLockUpdate { .. } => {},
    }
}

/// Funds are conserved: no call but a deposit or the initial set-up changes
/// the balance plus what was spent; a deposit adds its amount.
pub proof fn lemma_step_conserves_funds(m: TreasuryModel, op: TreasuryOp)
    requires
        step(m, op) is Ok,
    ensures
        ({
            let post = step(m, op)->Ok_0;
            match op {
                TreasuryOp::Deposit { amount } => post.balance + post.total_spent == m.balance
                    + m.total_spent + amount,
                TreasuryOp::Initialize { .. } => post.balance == 0 && post.total_spent == 0,
                _ => post.balance + post.total_spent == m.balance + m.total_spent,
            }
        }),
{
    match op {
        TreasuryOp::Initialize { .. } => {},
        TreasuryOp::Deposit { .. } => {},
        TreasuryOp::AddSigner { .. } => {},
        TreasuryOp::RemoveSigner { .. } => {},
        TreasuryOp::UpdateThreshold { .. } => {},
        TreasuryOp::SetPaused { .. } => {},
        TreasuryOp::ProposeBudgetAllocation { .. } => {},
        TreasuryOp::VoteBudgetAllocation { .. } => {},
        TreasuryOp::FinalizeBudgetAllocation { .. } => {},
        TreasuryOp::ProposeTimeLockUpdate { .. } => {},
        TreasuryOp::VoteTimeLockUpdate { .. } => {},
        TreasuryOp::FinalizeTimeLockUpdate { .. } => {},
        TreasuryOp::CreateSpendingProposal { .. } => {},
        TreasuryOp::ApproveProposal { .. } => {},
        TreasuryOp::RevokeApproval { .. } => {},
        TreasuryOp::ExecuteProposal { .. } => {},
        TreasuryOp::CancelProposal { .. } => {},
    }
}

/// While paused, every call that changes storage is refused as paused, but
/// for the set-up (which only the first call can make) and the admin's
/// pause switch itself.
pub proof fn lemma_paused_refuses(m: TreasuryModel, op: TreasuryOp)
    requires
        m.paused,
        !(op is SetPaused),
        !(op is Initialize),
    ensures
        step(m, op) == Err::<TreasuryModel, TreasuryError>(TreasuryError::ContractPaused),
{
}

/// The admin can always pause or resume, and the switch reads back as set;
/// anyone else is refused.
pub proof fn lemma_pause_round_trip(m: TreasuryModel, caller: Seq<u8>, paused: bool)
    requires
        m.admin is Some,
    ensures
        caller == m.admin->0 ==> set_paused_spec(m, caller, paused) is Ok && set_paused_spec(
            m,
            caller,
            paused,
        )->Ok_0.paused == paused,
        caller != m.admin->0 ==> set_paused_spec(m, caller, paused) == Err::<
            TreasuryModel,
            TreasuryError,
        >(TreasuryError::CallerNotAdmin),
{
}

/// A proposal executes at most once: after it executed, executing it again
/// is refused.
pub proof fn lemma_execute_once(m: TreasuryModel, caller: Seq<u8>, id: u64, now: u64, caller2: Seq<u8>, now2: u64)
    requires
        execute_proposal_spec(m, caller, id, now) is Ok,
    ensures
        execute_proposal_spec(execute_proposal_spec(m, caller, id, now)->Ok_0.0, caller2, id, now2) is Err,
        execute_proposal_spec(m, caller, id, now)->Ok_0.0.spending[id].executed,
{
}

/// A signer approves a proposal at most once.
pub proof fn lemma_approve_once(m: TreasuryModel, signer: Seq<u8>, id: u64)
    requires
        approve_proposal_spec(m, signer, id) is Ok,
    ensures
        approve_proposal_spec(approve_proposal_spec(m, signer, id)->Ok_0, signer, id) == Err::<
            TreasuryModel,
            TreasuryError,
        >(TreasuryError::AlreadyApproved),
{
    let p = m.spending[id];
    let post = approve_proposal_spec(m, signer, id)->Ok_0;
    assert(post.spending[id].approvals == p.approvals.push(signer));
    assert(post.spending[id].approvals[p.approvals.len() as int] == signer);
}

/// A signer votes on an allocation proposal at most once.
pub proof fn lemma_vote_allocation_once(m: TreasuryModel, signer: Seq<u8>, id: u64, support: bool, again: bool)
    requires
        vote_budget_allocation_spec(m, signer, id, support) is Ok,
    ensures
        vote_budget_allocation_spec(
            vote_budget_allocation_spec(m, signer, id, support)->Ok_0,
            signer,
            id,
            again,
        ) == Err::<TreasuryModel, TreasuryError>(TreasuryError::AlreadyVoted),
{
}

/// A signer votes on a duration proposal at most once.
pub proof fn lemma_vote_duration_once(m: TreasuryModel, signer: Seq<u8>, id: u64, support: bool, again: bool)
    requires
        vote_time_lock_update_spec(m, signer, id, support) is Ok,
    ensures
        vote_time_lock_update_spec(
            vote_time_lock_update_spec(m, signer, id, support)->Ok_0,
            signer,
            id,
            again,
        ) == Err::<TreasuryModel, TreasuryError>(TreasuryError::AlreadyVoted),
{
}

/// Reads do not depend on the emergency stop: the dashboard reads the same
/// paused or not.
pub proof fn lemma_reads_ignore_pause(m: TreasuryModel, paused: bool)
    ensures
        dashboard_spec(TreasuryModel { paused, ..m }) == dashboard_spec(m),
{
    lemma_active_count_ignores_pause(m, paused, m.spending_count as nat);
}

proof fn lemma_active_count_ignores_pause(m: TreasuryModel, paused: bool, n: nat)
    ensures
        active_count(TreasuryModel { paused, ..m }, n) == active_count(m, n),
    decreases n,
{
    if n > 0 {
        lemma_active_count_ignores_pause(m, paused, (n - 1) as nat);
    }
}

/// An executed spend had the quorum of approvals, its time lock had
/// elapsed, and the balance and the category's unspent allocation covered
/// it; the balance drops by the amount and the category's and the total's
/// spending grow by it.
pub proof fn lemma_execute_needs_quorum_and_time(m: TreasuryModel, caller: Seq<u8>, id: u64, now: u64)
    requires
        execute_proposal_spec(m, caller, id, now) is Ok,
    ensures
        ({
            let post = execute_proposal_spec(m, caller, id, now)->Ok_0.0;
            let p = m.spending[id];
            &&& m.signers.contains(caller)
            &&& p.approvals.len() >= m.threshold
            &&& now >= p.execute_after
            &&& !p.executed && !p.cancelled
            &&& m.balance >= p.amount
            &&& budget_of(m, p.category).allocated - budget_of(m, p.category).spent >= p.amount
            &&& post.balance == m.balance - p.amount
            &&& post.total_spent == m.total_spent + p.amount
            &&& post.budgets[p.category].spent == budget_of(m, p.category).spent + p.amount
            &&& post.budgets[p.category].allocated == budget_of(m, p.category).allocated
        }),
{
}

/// Keeping the addresses other than `a` of a list that holds no `a` keeps
/// the whole list.
proof fn lemma_without_absent_address(s: Seq<Seq<u8>>, a: Seq<u8>)
    requires
        !s.contains(a),
    ensures
        without_address(s, a) == s,
    decreases s.len(),
{
    if s.len() > 0 {
        let dl = s.drop_last();
        assert(s =~= dl.push(s.last()));
        dl.lemma_filter_push(s.last(), other_than(a));
        assert(!dl.contains(a)) by {
            if dl.contains(a) {
                let k = choose|k: int| 0 <= k < dl.len() && dl[k] == a;
                assert(s[k] == a);
            }
        }
        assert(s.last() != a) by {
            assert(s[s.len() - 1] == s.last());
        }
        lemma_without_absent_address(dl, a);
    } else {
        assert(without_address(s, a) =~= s);
    }
}

/// Revoking an approval undoes giving it: the proposal is as it was.
pub proof fn lemma_revoke_undoes_approve(m: TreasuryModel, signer: Seq<u8>, id: u64)
    requires
        approve_proposal_spec(m, signer, id) is Ok,
    ensures
        revoke_approval_spec(approve_proposal_spec(m, signer, id)->Ok_0, signer, id) is Ok,
        revoke_approval_spec(approve_proposal_spec(m, signer, id)->Ok_0, signer, id)->Ok_0.spending[id]
            == m.spending[id],
{
    let p = m.spending[id];
    let post = approve_proposal_spec(m, signer, id)->Ok_0;
    let pushed = p.approvals.push(signer);
    assert(post.spending[id].approvals == pushed);
    assert(pushed[p.approvals.len() as int] == signer);
    p.approvals.lemma_filter_push(signer, other_than(signer));
    lemma_without_absent_address(p.approvals, signer);
    assert(without_address(pushed, signer) == p.approvals);
}

/// Big-endian encoding loses nothing: equal bytes come from equal ids.
proof fn lemma_be_bytes_injective(x: u64, y: u64)
    requires
        be_bytes(x) == be_bytes(y),
    ensures
        x == y,
{
    let bx = be_bytes(x);
    let by = be_bytes(y);
    assert(bx[0] == by[0] && bx[1] == by[1] && bx[2] == by[2] && bx[3] == by[3]);
    assert(bx[4] == by[4] && bx[5] == by[5] && bx[6] == by[6] && bx[7] == by[7]);
    assert(x == y) by (bit_vector)
        requires
            (x >> 56u64) as u8 == (y >> 56u64) as u8,
            (x >> 48u64) as u8 == (y >> 48u64) as u8,
            (x >> 40u64) as u8 == (y >> 40u64) as u8,
            (x >> 32u64) as u8 == (y >> 32u64) as u8,
            (x >> 24u64) as u8 == (y >> 24u64) as u8,
            (x >> 16u64) as u8 == (y >> 16u64) as u8,
            (x >> 8u64) as u8 == (y >> 8u64) as u8,
            x as u8 == y as u8,
    ;
}

/// Time-lock operation ids hash distinct bytes for distinct proposals:
/// two treasuries sharing one time lock, or two proposals of one treasury,
/// never hash the same preimage.
pub proof fn lemma_operation_preimages_distinct(t1: Seq<u8>, id1: u64, t2: Seq<u8>, id2: u64)
    requires
        t1 != t2 || id1 != id2,
    ensures
        operation_preimage(t1, id1) != operation_preimage(t2, id2),
{
    let p1 = operation_preimage(t1, id1);
    let p2 = operation_preimage(t2, id2);
    if p1 == p2 {
        assert(be_bytes(id1).len() == 8 && be_bytes(id2).len() == 8);
        assert(p1.len() == p2.len());
        assert(t1.len() == t2.len());
        assert(t1 =~= p1.subrange(0, t1.len() as int));
        assert(t2 =~= p2.subrange(0, t2.len() as int));
        assert(be_bytes(id1) =~= p1.subrange(t1.len() as int, p1.len() as int));
        assert(be_bytes(id2) =~= p2.subrange(t2.len() as int, p2.len() as int));
        lemma_be_bytes_injective(id1, id2);
    }
}

/// Adding a vote from an address not yet on a list keeps it free of
/// duplicates, and the list then holds exactly what it held and the voter.
proof fn lemma_push_new_voter(s: Seq<Seq<u8>>, v: Seq<u8>)
    requires
        s.no_duplicates(),
        !s.contains(v),
    ensures
        s.push(v).no_duplicates(),
        forall|x: Seq<u8>| #[trigger] s.push(v).contains(x) <==> s.contains(x) || x == v,
{
    let g = s.push(v);
    assert forall|i: int, j: int| 0 <= i < g.len() && 0 <= j < g.len() && i != j implies g[i]
        != g[j] by {
        if i < s.len() && j < s.len() {
            assert(g[i] == s[i] && g[j] == s[j]);
        } else if i < s.len() {
            assert(g[i] == s[i]);
            assert(s.contains(s[i]));
        } else {
            assert(g[j] == s[j]);
            assert(s.contains(s[j]));
        }
    }
    assert forall|x: Seq<u8>| #[trigger] g.contains(x) <==> s.contains(x) || x == v by {
        if g.contains(x) {
            let k = choose|k: int| 0 <= k < g.len() && g[k] == x;
            if k < s.len() {
                assert(s[k] == x);
            }
        }
        if s.contains(x) {
            let k = choose|k: int| 0 <= k < s.len() && s[k] == x;
            assert(g[k] == x);
        }
        if x == v {
            assert(g[s.len() as int] == v);
        }
    }
}

/// A ballot opened by its proposer alone is in order.
proof fn lemma_fresh_ballot(v: Seq<u8>)
    ensures
        ballot_ok(seq![v], Seq::<Seq<u8>>::empty()),
        forall|x: Seq<u8>| #[trigger] seq![v].contains(x) <==> x == v,
{
    let s: Seq<Seq<u8>> = seq![v];
    assert forall|x: Seq<u8>| #[trigger] s.contains(x) <==> x == v by {
        if x == v {
            assert(s[0] == v);
        }
    }
}

/// Every call keeps each allocation and duration ballot free of duplicates
/// and its vote records in step with it.
pub proof fn lemma_step_keeps_ballots(m: TreasuryModel, op: TreasuryOp)
    requires
        ids_ok(m),
        ballots_ok(m),
        step(m, op) is Ok,
    ensures
        ballots_ok(step(m, op)->Ok_0),
{
    let post = step(m, op)->Ok_0;
    match op {
        TreasuryOp::ProposeBudgetAllocation { proposer, category, amount, now } => {
            let id = (m.allocation_count + 1) as u64;
            assert(!m.allocations.dom().contains(id));
            lemma_fresh_ballot(proposer);
            assert(post.allocations[id].votes_for == seq![proposer]);
            assert forall|i: u64, x: Seq<u8>|
                post.allocation_votes.dom().contains((i, x)) <==> post.allocations.dom().contains(i)
                    && (post.allocations[i].votes_for.contains(x)
                    || post.allocations[i].votes_against.contains(x)) by {
                if i != id {
                    assert((i, x) != (id, proposer));
                    assert(m.allocation_votes.dom().contains((i, x)) <==> m.allocations.dom().contains(i)
                        && (m.allocations[i].votes_for.contains(x)
                        || m.allocations[i].votes_against.contains(x)));
                } else {
                    assert(!m.allocation_votes.dom().contains((i, x)));
                    assert(!Seq::<Seq<u8>>::empty().contains(x));
                }
            }
            assert forall|i: u64| #[trigger] post.allocations.dom().contains(i) implies ballot_ok(
                post.allocations[i].votes_for,
                post.allocations[i].votes_against,
            ) by {
                if i != id {
                    assert(post.allocations[i] == m.allocations[i]);
                }
            }
        },
        TreasuryOp::VoteBudgetAllocation { signer, id, support } => {
            let p = m.allocations[id];
            assert(m.allocations.dom().contains(id));
            assert(!m.allocation_votes.dom().contains((id, signer)));
            assert(!p.votes_for.contains(signer) && !p.votes_against.contains(signer));
            assert(ballot_ok(p.votes_for, p.votes_against));
            lemma_push_new_voter(p.votes_for, signer);
            lemma_push_new_voter(p.votes_against, signer);
            let q = post.allocations[id];
            assert(ballot_ok(q.votes_for, q.votes_against)) by {
                if support {
                    assert(q.votes_for == p.votes_for.push(signer) && q.votes_against == p.votes_against);
                } else {
                    assert(q.votes_against == p.votes_against.push(signer) && q.votes_for == p.votes_for);
                }
            }
            assert forall|i: u64, x: Seq<u8>|
                post.allocation_votes.dom().contains((i, x)) <==> post.allocations.dom().contains(i)
                    && (post.allocations[i].votes_for.contains(x)
                    || post.allocations[i].votes_against.contains(x)) by {
                if i != id {
                    assert(m.allocation_votes.dom().contains((i, x)) <==> m.allocations.dom().contains(i)
                        && (m.allocations[i].votes_for.contains(x)
                        || m.allocations[i].votes_against.contains(x)));
                } else {
                    assert(m.allocation_votes.dom().contains((i, x)) <==> (p.votes_for.contains(x)
                        || p.votes_against.contains(x)));
                }
            }
            assert forall|i: u64| #[trigger] post.allocations.dom().contains(i) implies ballot_ok(
                post.allocations[i].votes_for,
                post.allocations[i].votes_against,
            ) by {
                if i != id {
                    assert(post.allocations[i] == m.allocations[i]);
                }
            }
        },
        TreasuryOp::FinalizeBudgetAllocation { caller, id } => {
            assert(m.allocations.dom().contains(id));
            assert(post.allocations.dom() =~= m.allocations.dom());
            assert forall|i: u64, x: Seq<u8>|
                post.allocation_votes.dom().contains((i, x)) <==> post.allocations.dom().contains(i)
                    && (post.allocations[i].votes_for.contains(x)
                    || post.allocations[i].votes_against.contains(x)) by {
                assert(m.allocation_votes.dom().contains((i, x)) <==> m.allocations.dom().contains(i)
                    && (m.allocations[i].votes_for.contains(x)
                    || m.allocations[i].votes_against.contains(x)));
            }
            assert forall|i: u64| #[trigger] post.allocations.dom().contains(i) implies ballot_ok(
                post.allocations[i].votes_for,
                post.allocations[i].votes_against,
            ) by {
                assert(m.allocations.dom().contains(i));
            }
        },
        TreasuryOp::ProposeTimeLockUpdate { proposer, new_duration, now } => {
            let id = (m.duration_count + 1) as u64;
            assert(!m.durations.dom().contains(id));
            lemma_fresh_ballot(proposer);
            assert(post.durations[id].votes_for == seq![proposer]);
            assert forall|i: u64, x: Seq<u8>|
                post.duration_votes.dom().contains((i, x)) <==> post.durations.dom().contains(i)
                    && (post.durations[i].votes_for.contains(x)
                    || post.durations[i].votes_against.contains(x)) by {
                if i != id {
                    assert((i, x) != (id, proposer));
                    assert(m.duration_votes.dom().contains((i, x)) <==> m.durations.dom().contains(i)
                        && (m.durations[i].votes_for.contains(x)
                        || m.durations[i].votes_against.contains(x)));
                } else {
                    assert(!m.duration_votes.dom().contains((i, x)));
                    assert(!Seq::<Seq<u8>>::empty().contains(x));
                }
            }
            assert forall|i: u64| #[trigger] post.durations.dom().contains(i) implies ballot_ok(
                post.durations[i].votes_for,
                post.durations[i].votes_against,
            ) by {
                if i != id {
                    assert(post.durations[i] == m.durations[i]);
                }
            }
        },
        TreasuryOp::VoteTimeLockUpdate { signer, id, support } => {
            let p = m.durations[id];
            assert(m.durations.dom().contains(id));
            assert(!m.duration_votes.dom().contains((id, signer)));
            assert(!p.votes_for.contains(signer) && !p.votes_against.contains(signer));
            assert(ballot_ok(p.votes_for, p.votes_against));
            lemma_push_new_voter(p.votes_for, signer);
            lemma_push_new_voter(p.votes_against, signer);
            let q = post.durations[id];
            assert(ballot_ok(q.votes_for, q.votes_against)) by {
                if support {
                    assert(q.votes_for == p.votes_for.push(signer) && q.votes_against == p.votes_against);
                } else {
                    assert(q.votes_against == p.votes_against.push(signer) && q.votes_for == p.votes_for);
                }
            }
            assert forall|i: u64, x: Seq<u8>|
                post.duration_votes.dom().contains((i, x)) <==> post.durations.dom().contains(i)
                    && (post.durations[i].votes_for.contains(x)
                    || post.durations[i].votes_against.contains(x)) by {
                if i != id {
                    assert(m.duration_votes.dom().contains((i, x)) <==> m.durations.dom().contains(i)
                        && (m.durations[i].votes_for.contains(x)
                        || m.durations[i].votes_against.contains(x)));
                } else {
                    assert(m.duration_votes.dom().contains((i, x)) <==> (p.votes_for.contains(x)
                        || p.votes_against.contains(x)));
                }
            }
            assert forall|i: u64| #[trigger] post.durations.dom().contains(i) implies ballot_ok(
                post.durations[i].votes_for,
                post.durations[i].votes_against,
            ) by {
                if i != id {
                    assert(post.durations[i] == m.durations[i]);
                }
            }
        },
        TreasuryOp::FinalizeTimeLockUpdate { caller, id } => {
            assert(m.durations.dom().contains(id));
            assert(post.durations.dom() =~= m.durations.dom());
            assert forall|i: u64, x: Seq<u8>|
                post.duration_votes.dom().contains((i, x)) <==> post.durations.dom().contains(i)
                    && (post.durations[i].votes_for.contains(x)
                    || post.durations[i].votes_against.contains(x)) by {
                assert(m.duration_votes.dom().contains((i, x)) <==> m.durations.dom().contains(i)
                    && (m.durations[i].votes_for.contains(x)
                    || m.durations[i].votes_against.contains(x)));
            }
            assert forall|i: u64| #[trigger] post.durations.dom().contains(i) implies ballot_ok(
                post.durations[i].votes_for,
                post.durations[i].votes_against,
            ) by {
                assert(m.durations.dom().contains(i));
            }
        },
        _ => {},
    }
}

// ─── What the operations answer ─────────────────────────────────────────

/// Execution waits only for the proposal's own frozen `execute_after`:
/// once the caller is an unpaused signer, the proposal is live with its
/// quorum, a time lock is set, `now` has reached `execute_after`, and the
/// balance and the category's unspent allocation cover the amount without
/// overflow, the spend goes through, whatever the current time-lock
/// duration. It pays the amount out of the balance and marks the proposal
/// executed. (Every reachable storage meets `ledger_ok`.)
pub proof fn lemma_execute_succeeds_after_execute_after(m: TreasuryModel, caller: Seq<u8>, id: u64, now: u64)
    requires
        ledger_ok(m),
        !m.paused,
        m.signers.contains(caller),
        m.spending.dom().contains(id),
        !m.spending[id].executed,
        !m.spending[id].cancelled,
        m.spending[id].approvals.len() >= m.threshold,
        m.time_lock is Some,
        now >= m.spending[id].execute_after,
        m.balance >= m.spending[id].amount,
        fits_i128(budget_of(m, m.spending[id].category).allocated - budget_of(m, m.spending[id].category).spent),
        budget_of(m, m.spending[id].category).allocated - budget_of(m, m.spending[id].category).spent
            >= m.spending[id].amount,
        fits_i128(budget_of(m, m.spending[id].category).spent + m.spending[id].amount),
        fits_i128(m.total_spent + m.spending[id].amount),
    ensures
        execute_proposal_spec(m, caller, id, now) is Ok,
        execute_proposal_spec(m, caller, id, now)->Ok_0.0.balance == m.balance - m.spending[id].amount,
        execute_proposal_spec(m, caller, id, now)->Ok_0.0.spending[id].executed,
        execute_proposal_spec(m, caller, id, now)->Ok_0.1.amount == m.spending[id].amount,
        execute_proposal_spec(m, caller, id, now)->Ok_0.1.recipient == m.spending[id].recipient,
{
    assert(m.spending[id].amount > 0);
}

/// The current time-lock duration plays no part in executing a proposal:
/// two storages that differ only in it give the same answer, and the same
/// storage after it (but for that duration).
pub proof fn lemma_execute_ignores_current_duration(
    m: TreasuryModel,
    caller: Seq<u8>,
    id: u64,
    now: u64,
    duration: u64,
)
    ensures
        execute_proposal_spec(TreasuryModel { time_lock_duration: duration, ..m }, caller, id, now)
            == match execute_proposal_spec(m, caller, id, now) {
            Ok(r) => Ok((TreasuryModel { time_lock_duration: duration, ..r.0 }, r.1)),
            Err(e) => Err(e),
        },
{
}

/// A budget allocation is finalised at most once: finalising marks it
/// finalised, credits the category and the total with its amount exactly
/// once, and finalising it again is refused as already finalised.
pub proof fn lemma_finalize_allocation_once(m: TreasuryModel, caller: Seq<u8>, id: u64)
    requires
        finalize_budget_allocation_spec(m, caller, id) is Ok,
    ensures
        ({
            let post = finalize_budget_allocation_spec(m, caller, id)->Ok_0.0;
            let p = m.allocations[id];
            &&& m.allocations.dom().contains(id)
            &&& !p.finalized
            &&& post.allocations[id].finalized
            &&& post.budgets[p.category].allocated == budget_of(m, p.category).allocated + p.amount
            &&& post.budgets[p.category].spent == budget_of(m, p.category).spent
            &&& post.total_allocated == m.total_allocated + p.amount
            &&& finalize_budget_allocation_spec(post, caller, id) == Err::<
                (TreasuryModel, crate::treasury::model::CreditView),
                TreasuryError,
            >(TreasuryError::AlreadyFinalized)
        }),
{
}

/// A time-lock duration proposal is finalised at most once: finalising
/// marks it finalised and sets the duration it proposed, and finalising it
/// again is refused as already finalised.
pub proof fn lemma_finalize_duration_once(m: TreasuryModel, caller: Seq<u8>, id: u64)
    requires
        finalize_time_lock_update_spec(m, caller, id) is Ok,
    ensures
        ({
            let post = finalize_time_lock_update_spec(m, caller, id)->Ok_0;
            &&& m.durations.dom().contains(id)
            &&& !m.durations[id].finalized
            &&& post.durations[id].finalized
            &&& post.time_lock_duration == m.durations[id].new_duration
            &&& finalize_time_lock_update_spec(post, caller, id) == Err::<TreasuryModel, TreasuryError>(
                TreasuryError::AlreadyFinalized,
            )
        }),
{
}

/// Counts agree over ids 1 to `n` where activity agrees.
proof fn lemma_active_count_agree(m1: TreasuryModel, m2: TreasuryModel, n: nat)
    requires
        n <= u64::MAX,
        forall|i: u64| 1 <= i <= n ==> #[trigger] is_active(m1, i) == is_active(m2, i),
    ensures
        active_count(m1, n) == active_count(m2, n),
    decreases n,
{
    if n > 0 {
        lemma_active_count_agree(m1, m2, (n - 1) as nat);
        assert(is_active(m1, n as u64) == is_active(m2, n as u64));
    }
}

/// One proposal going from active to inactive lowers the count by one.
proof fn lemma_active_count_drop(m1: TreasuryModel, m2: TreasuryModel, n: nat, id: u64)
    requires
        n <= u64::MAX,
        1 <= id <= n,
        is_active(m1, id),
        !is_active(m2, id),
        forall|i: u64| 1 <= i <= n && i != id ==> #[trigger] is_active(m1, i) == is_active(m2, i),
    ensures
        active_count(m2, n) + 1 == active_count(m1, n),
    decreases n,
{
    if n == id as nat {
        lemma_active_count_agree(m1, m2, (n - 1) as nat);
    } else {
        lemma_active_count_drop(m1, m2, (n - 1) as nat, id);
        assert(is_active(m1, n as u64) == is_active(m2, n as u64));
    }
}

/// Approving a spending proposal changes nothing the dashboard reports:
/// in particular a proposal stays active, quorum or not, until it is
/// executed or cancelled.
pub proof fn lemma_approval_keeps_dashboard(m: TreasuryModel, signer: Seq<u8>, id: u64)
    requires
        approve_proposal_spec(m, signer, id) is Ok,
    ensures
        dashboard_spec(approve_proposal_spec(m, signer, id)->Ok_0) == dashboard_spec(m),
{
    let post = approve_proposal_spec(m, signer, id)->Ok_0;
    assert(m.spending.dom().contains(id));
    assert forall|i: u64| 1 <= i <= m.spending_count implies #[trigger] is_active(m, i) == is_active(
        post,
        i,
    ) by {
        if i != id {
            assert(post.spending[i] == m.spending[i]);
        }
    }
    lemma_active_count_agree(m, post, m.spending_count as nat);
}

/// Revoking an approval changes nothing the dashboard reports.
pub proof fn lemma_revocation_keeps_dashboard(m: TreasuryModel, signer: Seq<u8>, id: u64)
    requires
        revoke_approval_spec(m, signer, id) is Ok,
    ensures
        dashboard_spec(revoke_approval_spec(m, signer, id)->Ok_0) == dashboard_spec(m),
{
    let post = revoke_approval_spec(m, signer, id)->Ok_0;
    assert(m.spending.dom().contains(id));
    assert forall|i: u64| 1 <= i <= m.spending_count implies #[trigger] is_active(m, i) == is_active(
        post,
        i,
    ) by {
        if i != id {
            assert(post.spending[i] == m.spending[i]);
        }
    }
    lemma_active_count_agree(m, post, m.spending_count as nat);
}

/// A new spending proposal is active: the dashboard's proposal count and
/// active count both grow by one.
pub proof fn lemma_creation_adds_an_active_proposal(
    m: TreasuryModel,
    proposer: Seq<u8>,
    recipient: Seq<u8>,
    amount: i128,
    category: Seq<char>,
    description: Seq<char>,
    now: u64,
)
    requires
        ids_ok(m),
        create_spending_proposal_spec(m, proposer, recipient, amount, category, description, now) is Ok,
        dashboard_spec(m) is Ok,
        dashboard_spec(
            create_spending_proposal_spec(m, proposer, recipient, amount, category, description, now)->Ok_0.0,
        ) is Ok,
    ensures
        ({
            let before = dashboard_spec(m)->Ok_0;
            let after = dashboard_spec(
                create_spending_proposal_spec(m, proposer, recipient, amount, category, description, now)->Ok_0.0,
            )->Ok_0;
            &&& after.spending_proposal_count == before.spending_proposal_count + 1
            &&& after.active_spending_proposals == before.active_spending_proposals + 1
        }),
{
    let post = create_spending_proposal_spec(m, proposer, recipient, amount, category, description, now)->Ok_0.0;
    let id = (m.spending_count + 1) as u64;
    assert(m.signers.contains(proposer));
    assert forall|i: u64| 1 <= i <= m.spending_count implies #[trigger] is_active(m, i) == is_active(
        post,
        i,
    ) by {
        assert(i != id);
    }
    lemma_active_count_agree(m, post, m.spending_count as nat);
    assert(is_active(post, id));
    assert(active_count(post, id as nat) == active_count(post, m.spending_count as nat) + 1);
}

/// Cancelling a proposal that was still active lowers the dashboard's
/// active count by one; cancelling one already cancelled leaves it.
pub proof fn lemma_cancellation_retires_a_proposal(m: TreasuryModel, caller: Seq<u8>, id: u64)
    requires
        ids_ok(m),
        cancel_proposal_spec(m, caller, id) is Ok,
        dashboard_spec(m) is Ok,
    ensures
        dashboard_spec(cancel_proposal_spec(m, caller, id)->Ok_0) is Ok,
        !m.spending[id].cancelled ==> dashboard_spec(cancel_proposal_spec(m, caller, id)->Ok_0)->Ok_0.active_spending_proposals
            + 1 == dashboard_spec(m)->Ok_0.active_spending_proposals,
        m.spending[id].cancelled ==> dashboard_spec(cancel_proposal_spec(m, caller, id)->Ok_0)
            == dashboard_spec(m),
{
    let post = cancel_proposal_spec(m, caller, id)->Ok_0;
    assert(m.spending.dom().contains(id));
    if m.spending[id].cancelled {
        assert forall|i: u64| 1 <= i <= m.spending_count implies #[trigger] is_active(m, i)
            == is_active(post, i) by {
            if i != id {
                assert(post.spending[i] == m.spending[i]);
            }
        }
        lemma_active_count_agree(m, post, m.spending_count as nat);
    } else {
        assert forall|i: u64| 1 <= i <= m.spending_count && i != id implies #[trigger] is_active(m, i)
            == is_active(post, i) by {
            assert(post.spending[i] == m.spending[i]);
        }
        lemma_active_count_drop(m, post, m.spending_count as nat, id);
    }
}

/// Executing a proposal retires it: the dashboard's active count drops by
/// one.
pub proof fn lemma_execution_retires_a_proposal(m: TreasuryModel, caller: Seq<u8>, id: u64, now: u64)
    requires
        ids_ok(m),
        execute_proposal_spec(m, caller, id, now) is Ok,
        dashboard_spec(m) is Ok,
    ensures
        dashboard_spec(execute_proposal_spec(m, caller, id, now)->Ok_0.0) is Ok,
        dashboard_spec(execute_proposal_spec(m, caller, id, now)->Ok_0.0)->Ok_0.active_spending_proposals
            + 1 == dashboard_spec(m)->Ok_0.active_spending_proposals,
{
    let post = execute_proposal_spec(m, caller, id, now)->Ok_0.0;
    assert(m.spending.dom().contains(id));
    assert forall|i: u64| 1 <= i <= m.spending_count && i != id implies #[trigger] is_active(m, i)
        == is_active(post, i) by {
        assert(post.spending[i] == m.spending[i]);
    }
    lemma_active_count_drop(m, post, m.spending_count as nat, id);
}

} // verus!
