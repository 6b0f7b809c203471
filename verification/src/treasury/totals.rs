//! The treasury's running totals agree with its budgets: the total
//! allocated is the sum of what every category was allocated, and the total
//! spent the sum of what every category spent.
use vstd::prelude::*;
use vstd::set::fold::{is_fun_commutative, lemma_fold_empty, lemma_fold_insert};
use crate::treasury::laws::{step, TreasuryOp};
use crate::treasury::model::{empty_model, TreasuryModel};
use crate::treasury::types::BudgetView;

verus! {

/// The sum of `val` over the finite set `s`.
pub open spec fn sum_over(s: Set<Seq<char>>, val: spec_fn(Seq<char>) -> int) -> int {
    s.fold(0int, |acc: int, k: Seq<char>| acc + val(k))
}

/// What each category was allocated.
pub open spec fn allocated_of(b: Map<Seq<char>, BudgetView>) -> spec_fn(Seq<char>) -> int {
    |c: Seq<char>| b[c].allocated as int
}

/// What each category spent.
pub open spec fn spent_of(b: Map<Seq<char>, BudgetView>) -> spec_fn(Seq<char>) -> int {
    |c: Seq<char>| b[c].spent as int
}

/// The totals agree with the budgets; before initialisation there are no
/// signers and no budgets.
pub open spec fn totals_ok(m: TreasuryModel) -> bool {
    &&& m.budgets.dom().finite()
    &&& m.total_allocated == sum_over(m.budgets.dom(), allocated_of(m.budgets))
    &&& m.total_spent == sum_over(m.budgets.dom(), spent_of(m.budgets))
    &&& m.admin is None ==> m.signers.len() == 0 && m.budgets.dom() =~= Set::<Seq<char>>::empty()
}

proof fn lemma_adder_commutative(val: spec_fn(Seq<char>) -> int)
    ensures
        is_fun_commutative(|acc: int, k: Seq<char>| acc + val(k)),
{
}

proof fn lemma_sum_empty(val: spec_fn(Seq<char>) -> int)
    ensures
        sum_over(Set::empty(), val) == 0,
{
    lemma_fold_empty(0int, |acc: int, k: Seq<char>| acc + val(k));
}

proof fn lemma_sum_insert(s: Set<Seq<char>>, val: spec_fn(Seq<char>) -> int, a: Seq<char>)
    requires
        s.finite(),
        !s.contains(a),
    ensures
        sum_over(s.insert(a), val) == sum_over(s, val) + val(a),
{
    lemma_adder_commutative(val);
    lemma_fold_insert(s, 0int, |acc: int, k: Seq<char>| acc + val(k), a);
}

/// Sums of two functions that agree on the set are equal.
proof fn lemma_sum_agree(s: Set<Seq<char>>, v1: spec_fn(Seq<char>) -> int, v2: spec_fn(Seq<char>) -> int)
    requires
        s.finite(),
        forall|k: Seq<char>| s.contains(k) ==> v1(k) == v2(k),
    ensures
        sum_over(s, v1) == sum_over(s, v2),
    decreases s.len(),
{
    if s.len() == 0 {
        assert(s =~= Set::empty());
        lemma_sum_empty(v1);
        lemma_sum_empty(v2);
    } else {
        let a = s.choose();
        let r = s.remove(a);
        assert(r.insert(a) =~= s);
        lemma_sum_agree(r, v1, v2);
        lemma_sum_insert(r, v1, a);
        lemma_sum_insert(r, v2, a);
    }
}

/// Changing one key's value changes the sum by the difference.
proof fn lemma_sum_update(s: Set<Seq<char>>, v1: spec_fn(Seq<char>) -> int, v2: spec_fn(Seq<char>) -> int, c: Seq<char>)
    requires
        s.finite(),
        forall|k: Seq<char>| s.contains(k) && k != c ==> v1(k) == v2(k),
    ensures
        s.contains(c) ==> sum_over(s, v2) == sum_over(s, v1) - v1(c) + v2(c),
        !s.contains(c) ==> sum_over(s.insert(c), v2) == sum_over(s, v1) + v2(c),
{
    if s.contains(c) {
        let r = s.remove(c);
        assert(r.insert(c) =~= s);
        lemma_sum_agree(r, v1, v2);
        lemma_sum_insert(r, v1, c);
        lemma_sum_insert(r, v2, c);
    } else {
        lemma_sum_agree(s, v1, v2);
        lemma_sum_insert(s, v2, c);
    }
}

/// Replacing a category's budget changes each total by the difference.
proof fn lemma_budget_insert(b: Map<Seq<char>, BudgetView>, c: Seq<char>, v: BudgetView)
    requires
        b.dom().finite(),
    ensures
        b.insert(c, v).dom().finite(),
        sum_over(b.insert(c, v).dom(), allocated_of(b.insert(c, v))) == sum_over(b.dom(), allocated_of(b))
            - (if b.dom().contains(c) {
            b[c].allocated as int
        } else {
            0
        }) + v.allocated,
        sum_over(b.insert(c, v).dom(), spent_of(b.insert(c, v))) == sum_over(b.dom(), spent_of(b)) - (
        if b.dom().contains(c) {
            b[c].spent as int
        } else {
            0
        }) + v.spent,
{
    let b2 = b.insert(c, v);
    lemma_sum_update(b.dom(), allocated_of(b), allocated_of(b2), c);
    lemma_sum_update(b.dom(), spent_of(b), spent_of(b2), c);
    if b.dom().contains(c) {
        assert(b2.dom() =~= b.dom());
    }
}

/// The empty storage's totals agree with its (absent) budgets.
pub proof fn lemma_initial_totals_ok()
    ensures
        totals_ok(empty_model()),
{
    lemma_sum_empty(allocated_of(empty_model().budgets));
    lemma_sum_empty(spent_of(empty_model().budgets));
    assert(empty_model().budgets.dom() =~= Set::<Seq<char>>::empty());
}

/// Every call keeps the total allocated equal to the sum of the categories'
/// allocations, and the total spent equal to the sum of their spending.
pub proof fn lemma_step_keeps_totals(m: TreasuryModel, op: TreasuryOp)
    requires
        totals_ok(m),
        step(m, op) is Ok,
    ensures
        totals_ok(step(m, op)->Ok_0),
{
    let post = step(m, op)->Ok_0;
    match op {
        TreasuryOp::Initialize { .. } => {
            assert(m.budgets.dom() =~= Set::<Seq<char>>::empty());
            assert(post.budgets == m.budgets);
            lemma_sum_empty(allocated_of(m.budgets));
            lemma_sum_empty(spent_of(m.budgets));
            assert(sum_over(post.budgets.dom(), allocated_of(post.budgets)) == 0);
            assert(sum_over(post.budgets.dom(), spent_of(post.budgets)) == 0);
        },
        TreasuryOp::ExecuteProposal { caller, id, now } => {
            let p = m.spending[id];
            lemma_budget_insert(m.budgets, p.category, post.budgets[p.category]);
            assert(post.budgets == m.budgets.insert(p.category, post.budgets[p.category]));
        },
        TreasuryOp::FinalizeBudgetAllocation { caller, id } => {
            let p = m.allocations[id];
            lemma_budget_insert(m.budgets, p.category, post.budgets[p.category]);
            assert(post.budgets == m.budgets.insert(p.category, post.budgets[p.category]));
        },
        TreasuryOp::Deposit { .. } => {},
        TreasuryOp::AddSigner { .. } => {},
        TreasuryOp::RemoveSigner { .. } => {},
        TreasuryOp::UpdateThreshold { .. } => {},
        TreasuryOp::SetPaused { .. } => {},
        TreasuryOp::CreateSpendingProposal { .. } => {},
        TreasuryOp::ApproveProposal { .. } => {},
        TreasuryOp::RevokeApproval { .. } => {},
        TreasuryOp::CancelProposal { .. } => {},
        TreasuryOp::ProposeBudgetAllocation { .. } => {},
        TreasuryOp::VoteBudgetAllocation { .. } => {},
        TreasuryOp::ProposeTimeLockUpdate { .. } => {},
        TreasuryOp::VoteTimeLockUpdate { .. } => {},
        TreasuryOp::FinalizeTimeLockUpdate { .. } => {},
    }
}

} // verus!
