//! Budget allocation voting, time-lock duration governance and the
//! dashboard.
use vstd::prelude::*;
use crate::ids::{
    addresses_view,
    Address,
};
use crate::treasury::contract::Treasury;
use crate::treasury::model::{
    active_count,
    applied,
    applied_with,
    dashboard_spec,
    finalize_budget_allocation_spec,
    finalize_time_lock_update_spec,
    is_active,
    propose_budget_allocation_spec,
    propose_time_lock_update_spec,
    vote_budget_allocation_spec,
    vote_time_lock_update_spec,
    CreditView,
    TreasuryModel,
};
use crate::treasury::types::{
    AllocationProposal,
    BudgetAllocation,
    DurationProposal,
    TreasuryDashboard,
    TreasuryError,
    VoteKey,
};

verus! {

/// What a finalised allocation credited.
pub struct Credit {
    pub category: String,
    pub amount: i128,
}

impl Treasury {
    /// Proposes adding `amount` to a category's envelope (signers only;
    /// positive amount); the proposer votes for it. Returns its id.
    pub fn propose_budget_allocation(&mut self, proposer: &Address, category: String, amount: i128, now: u64) -> (r:
        Result<u64, TreasuryError>)
        ensures
            applied_with(
                propose_budget_allocation_spec(old(self)@, proposer@, category@, amount, now),
                r,
                old(self)@,
                final(self)@,
            ),
    {
        match self.require_signer_op(proposer) {
            Err(e) => return Err(e),
            Ok(_) => {},
        }
        if amount <= 0 {
            return Err(TreasuryError::NonPositiveAmount);
        }
        let id = match self.allocation_count.checked_add(1) {
            Some(c) => c,
            None => return Err(TreasuryError::ArithmeticOverflow),
        };
        let mut votes_for: Vec<Address> = Vec::new();
        votes_for.push(proposer.duplicate());
        let votes_against: Vec<Address> = Vec::new();
        let proposal = AllocationProposal {
            id,
            proposer: proposer.duplicate(),
            category,
            amount,
            votes_for,
            votes_against,
            created_at: now,
            finalized: false,
            approved: false,
        };
        proof {
            assert(addresses_view(proposal.votes_for@) =~= seq![proposer@]);
            assert(addresses_view(proposal.votes_against@) =~= Seq::<Seq<u8>>::empty());
        }
        self.allocations.insert(id, proposal);
        self.allocation_count = id;
        self.allocation_votes.insert(VoteKey { proposal_id: id, voter: proposer.duplicate() }, ());
        Ok(id)
    }

    /// Casts a signer's single vote on an allocation that is not finalised.
    pub fn vote_budget_allocation(&mut self, signer: &Address, allocation_id: u64, support: bool) -> (r: Result<
        (),
        TreasuryError,
    >)
        ensures
            applied(
                vote_budget_allocation_spec(old(self)@, signer@, allocation_id, support),
                r,
                old(self)@,
                final(self)@,
            ),
    {
        match self.require_signer_op(signer) {
            Err(e) => return Err(e),
            Ok(_) => {},
        }
        let key = VoteKey { proposal_id: allocation_id, voter: signer.duplicate() };
        if self.allocation_votes.contains_key(&key) {
            return Err(TreasuryError::AlreadyVoted);
        }
        let mut proposal = match self.allocations.get(&allocation_id) {
            Some(p) => p.duplicate(),
            None => return Err(TreasuryError::AllocationNotFound),
        };
        if proposal.finalized {
            return Err(TreasuryError::AllocationAlreadyFinalized);
        }
        if support {
            if proposal.votes_for.len() >= u32::MAX as usize {
                return Err(TreasuryError::ArithmeticOverflow);
            }
            let ghost pre = proposal.votes_for@;
            proposal.votes_for.push(signer.duplicate());
            proof {
                assert(addresses_view(proposal.votes_for@) =~= addresses_view(pre).push(signer@));
            }
        } else {
            if proposal.votes_against.len() >= u32::MAX as usize {
                return Err(TreasuryError::ArithmeticOverflow);
            }
            let ghost pre = proposal.votes_against@;
            proposal.votes_against.push(signer.duplicate());
            proof {
                assert(addresses_view(proposal.votes_against@) =~= addresses_view(pre).push(signer@));
            }
        }
        self.allocation_votes.insert(key, ());
        self.allocations.insert(allocation_id, proposal);
        Ok(())
    }

    /// Finalises an allocation once the threshold of votes for it is
    /// reached, crediting its amount to the category's envelope and to the
    /// total allocated. Returns the category and amount credited.
    pub fn finalize_budget_allocation(&mut self, caller: &Address, allocation_id: u64) -> (r: Result<
        Credit,
        TreasuryError,
    >)
        ensures
            applied_with(
                finalize_budget_allocation_spec(old(self)@, caller@, allocation_id),
                match r {
                    Ok(c) => Ok::<CreditView, TreasuryError>(
                        CreditView { category: c.category@, amount: c.amount },
                    ),
                    Err(e) => Err::<CreditView, TreasuryError>(e),
                },
                old(self)@,
                final(self)@,
            ),
    {
        match self.require_signer_op(caller) {
            Err(e) => return Err(e),
            Ok(_) => {},
        }
        let mut proposal = match self.allocations.get(&allocation_id) {
            Some(p) => p.duplicate(),
            None => return Err(TreasuryError::AllocationNotFound),
        };
        if proposal.finalized {
            return Err(TreasuryError::AlreadyFinalized);
        }
        if proposal.votes_for.len() < self.threshold as usize {
            return Err(TreasuryError::InsufficientVotes);
        }
        let budget = self.get_budget_allocation(&proposal.category);
        let allocated = match budget.allocated.checked_add(proposal.amount) {
            Some(a) => a,
            None => return Err(TreasuryError::ArithmeticOverflow),
        };
        let total_allocated = match self.total_allocated.checked_add(proposal.amount) {
            Some(t) => t,
            None => return Err(TreasuryError::ArithmeticOverflow),
        };
        let credit = Credit { category: proposal.category.clone(), amount: proposal.amount };
        self.budgets.insert(
            proposal.category.clone(),
            BudgetAllocation { category: proposal.category.clone(), allocated, spent: budget.spent },
        );
        self.total_allocated = total_allocated;
        proposal.finalized = true;
        proposal.approved = true;
        self.allocations.insert(allocation_id, proposal);
        Ok(credit)
    }

    /// Proposes a new time-lock duration for future spending proposals
    /// (signers only); the proposer votes for it. Returns its id.
    pub fn propose_time_lock_update(&mut self, proposer: &Address, new_duration: u64, now: u64) -> (r: Result<
        u64,
        TreasuryError,
    >)
        ensures
            applied_with(
                propose_time_lock_update_spec(old(self)@, proposer@, new_duration, now),
                r,
                old(self)@,
                final(self)@,
            ),
    {
        match self.require_signer_op(proposer) {
            Err(e) => return Err(e),
            Ok(_) => {},
        }
        let id = match self.duration_count.checked_add(1) {
            Some(c) => c,
            None => return Err(TreasuryError::ArithmeticOverflow),
        };
        let mut votes_for: Vec<Address> = Vec::new();
        votes_for.push(proposer.duplicate());
        let votes_against: Vec<Address> = Vec::new();
        let proposal = DurationProposal {
            id,
            proposer: proposer.duplicate(),
            new_duration,
            votes_for,
            votes_against,
            created_at: now,
            finalized: false,
            approved: false,
        };
        proof {
            assert(addresses_view(proposal.votes_for@) =~= seq![proposer@]);
            assert(addresses_view(proposal.votes_against@) =~= Seq::<Seq<u8>>::empty());
        }
        self.durations.insert(id, proposal);
        self.duration_count = id;
        self.duration_votes.insert(VoteKey { proposal_id: id, voter: proposer.duplicate() }, ());
        Ok(id)
    }

    /// Casts a signer's single vote on a duration proposal that is not
    /// finalised.
    pub fn vote_time_lock_update(&mut self, signer: &Address, proposal_id: u64, support: bool) -> (r: Result<
        (),
        TreasuryError,
    >)
        ensures
            applied(
                vote_time_lock_update_spec(old(self)@, signer@, proposal_id, support),
                r,
                old(self)@,
                final(self)@,
            ),
    {
        match self.require_signer_op(signer) {
            Err(e) => return Err(e),
            Ok(_) => {},
        }
        let key = VoteKey { proposal_id, voter: signer.duplicate() };
        if self.duration_votes.contains_key(&key) {
            return Err(TreasuryError::AlreadyVoted);
        }
        let mut proposal = match self.durations.get(&proposal_id) {
            Some(p) => p.duplicate(),
            None => return Err(TreasuryError::DurationNotFound),
        };
        if proposal.finalized {
            return Err(TreasuryError::DurationAlreadyFinalized);
        }
        if support {
            if proposal.votes_for.len() >= u32::MAX as usize {
                return Err(TreasuryError::ArithmeticOverflow);
            }
            let ghost pre = proposal.votes_for@;
            proposal.votes_for.push(signer.duplicate());
            proof {
                assert(addresses_view(proposal.votes_for@) =~= addresses_view(pre).push(signer@));
            }
        } else {
            if proposal.votes_against.len() >= u32::MAX as usize {
                return Err(TreasuryError::ArithmeticOverflow);
            }
            let ghost pre = proposal.votes_against@;
            proposal.votes_against.push(signer.duplicate());
            proof {
                assert(addresses_view(proposal.votes_against@) =~= addresses_view(pre).push(signer@));
            }
        }
        self.duration_votes.insert(key, ());
        self.durations.insert(proposal_id, proposal);
        Ok(())
    }

    /// Finalises a duration change once the threshold of votes for it is
    /// reached. Only the duration of future proposals changes.
    pub fn finalize_time_lock_update(&mut self, caller: &Address, proposal_id: u64) -> (r: Result<
        (),
        TreasuryError,
    >)
        ensures
            applied(
                finalize_time_lock_update_spec(old(self)@, caller@, proposal_id),
                r,
                old(self)@,
                final(self)@,
            ),
    {
        match self.require_signer_op(caller) {
            Err(e) => return Err(e),
            Ok(_) => {},
        }
        let mut proposal = match self.durations.get(&proposal_id) {
            Some(p) => p.duplicate(),
            None => return Err(TreasuryError::DurationNotFound),
        };
        if proposal.finalized {
            return Err(TreasuryError::AlreadyFinalized);
        }
        if proposal.votes_for.len() < self.threshold as usize {
            return Err(TreasuryError::InsufficientVotes);
        }
        let new_duration = proposal.new_duration;
        proposal.finalized = true;
        proposal.approved = true;
        self.durations.insert(proposal_id, proposal);
        self.time_lock_duration = new_duration;
        Ok(())
    }

    /// Single-call snapshot of treasury health: balance, budget totals,
    /// signer and threshold configuration, and proposal activity counts.
    pub fn get_dashboard(&self) -> (r: Result<TreasuryDashboard, TreasuryError>)
        ensures
            r == dashboard_spec(self@),
    {
        let spending_count = self.spending_count;
        let mut active: u32 = 0;
        let mut i: u64 = 1;
        while i <= spending_count
            invariant
                1 <= i,
                i <= spending_count + 1,
                spending_count == self@.spending_count,
                active == active_count(self@, (i - 1) as nat),
                active_count(self@, (i - 1) as nat) <= u32::MAX,
            decreases spending_count + 1 - i,
        {
            let counts = match self.spending.get(&i) {
                Some(p) => !p.executed && !p.cancelled,
                None => false,
            };
            assert(counts == is_active(self@, i));
            if counts {
                if active == u32::MAX {
                    proof {
                        lemma_active_count_monotone(self@, i as nat, spending_count as nat);
                    }
                    return Err(TreasuryError::ArithmeticOverflow);
                }
                active = active + 1;
            }
            if i == u64::MAX {
                return Err(TreasuryError::ArithmeticOverflow);
            }
            i = i + 1;
        }
        if self.signers.len() > u32::MAX as usize {
            return Err(TreasuryError::ArithmeticOverflow);
        }
        Ok(
            TreasuryDashboard {
                balance: self.balance,
                total_allocated: self.total_allocated,
                total_spent: self.total_spent,
                signer_count: self.signers.len() as u32,
                threshold: self.threshold,
                time_lock_duration: self.time_lock_duration,
                spending_proposal_count: spending_count,
                active_spending_proposals: active,
                allocation_proposal_count: self.allocation_count,
            },
        )
    }
}

/// Counting active proposals over a longer prefix of ids counts no fewer.
pub proof fn lemma_active_count_monotone(m: TreasuryModel, a: nat, b: nat)
    requires
        a <= b,
    ensures
        active_count(m, a) <= active_count(m, b),
    decreases b - a,
{
    if a < b {
        lemma_active_count_monotone(m, a, (b - 1) as nat);
    }
}

} // verus!
