//! Spending proposals: multi-signature approval and time-locked execution
//! within the budget of their category.
use vstd::prelude::*;
use crate::digest::sha256;
use crate::ids::{
    addresses_view,
    concat_bytes,
    contains_address,
    remove_address,
    Address,
};
use crate::treasury::contract::Treasury;
use crate::treasury::model::{
    applied,
    applied_with,
    approve_proposal_spec,
    be_bytes,
    cancel_proposal_spec,
    create_spending_proposal_spec,
    execute_precheck_spec,
    execute_proposal_spec,
    operation_id,
    revoke_approval_spec,
    SpendView,
};
use crate::treasury::types::{
    BudgetAllocation,
    SpendingProposal,
    TimeLockCall,
    TreasuryError,
};

verus! {

/// The eight big-endian bytes of `x`.
pub fn u64_be_bytes(x: u64) -> (b: Vec<u8>)
    ensures
        b@ == be_bytes(x),
{
    let mut b: Vec<u8> = Vec::new();
    b.push((x >> 56u64) as u8);
    b.push((x >> 48u64) as u8);
    b.push((x >> 40u64) as u8);
    b.push((x >> 32u64) as u8);
    b.push((x >> 24u64) as u8);
    b.push((x >> 16u64) as u8);
    b.push((x >> 8u64) as u8);
    b.push(x as u8);
    proof {
        assert(b@ =~= be_bytes(x));
    }
    b
}

/// A scheduled or released spend, with the time-lock call that goes with it.
pub struct SpendOutcome {
    pub proposal_id: u64,
    pub recipient: Address,
    pub amount: i128,
    pub category: String,
    pub time_lock_call: TimeLockCall,
}

impl Treasury {
    /// The id under which the time-lock contract knows a proposal of the
    /// treasury at `treasury`: SHA-256 of the treasury's address followed by the
    /// proposal id in big-endian bytes, so the hashed bytes differ between
    /// treasuries that share one time lock (`lemma_operation_preimages_distinct`).
    pub fn proposal_operation_id(env: &soroban_sdk::Env, treasury: &Address, proposal_id: u64) -> (id: Vec<u8>)
        ensures
            id@ == operation_id(treasury@, proposal_id),
    {
        let preimage = concat_bytes(&treasury.xdr, &u64_be_bytes(proposal_id));
        sha256(env, &preimage)
    }

    /// Creates a spending proposal (signers only; positive amount) approved
    /// by its proposer, executable once the current time-lock duration has
    /// passed. Returns its id, the operation to schedule in the time-lock
    /// contract and the delay to schedule it with.
    pub fn create_spending_proposal(
        &mut self,
        env: &soroban_sdk::Env,
        treasury: &Address,
        proposer: &Address,
        recipient: Address,
        amount: i128,
        category: String,
        description: String,
        now: u64,
    ) -> (r: Result<(u64, TimeLockCall, u64), TreasuryError>)
        ensures
            applied_with(
                create_spending_proposal_spec(
                    old(self)@,
                    proposer@,
                    recipient@,
                    amount,
                    category@,
                    description@,
                    now,
                ),
                match r {
                    Ok(v) => Ok::<u64, TreasuryError>(v.0),
                    Err(e) => Err::<u64, TreasuryError>(e),
                },
                old(self)@,
                final(self)@,
            ),
            r matches Ok(v) ==> Some(v.1.time_lock@) == old(self)@.time_lock && v.1.operation_id@
                == operation_id(treasury@, v.0) && v.2 == old(self)@.time_lock_duration,
    {
        match self.require_signer_op(proposer) {
            Err(e) => return Err(e),
            Ok(_) => {},
        }
        if amount <= 0 {
            return Err(TreasuryError::NonPositiveAmount);
        }
        let id = match self.spending_count.checked_add(1) {
            Some(c) => c,
            None => return Err(TreasuryError::ArithmeticOverflow),
        };
        let execute_after = match now.checked_add(self.time_lock_duration) {
            Some(t) => t,
            None => return Err(TreasuryError::ArithmeticOverflow),
        };
        let time_lock = match &self.time_lock {
            Some(t) => t.duplicate(),
            None => return Err(TreasuryError::TimeLockNotSet),
        };
        let mut approvals: Vec<Address> = Vec::new();
        approvals.push(proposer.duplicate());
        let proposal = SpendingProposal {
            id,
            proposer: proposer.duplicate(),
            recipient,
            amount,
            category,
            description,
            approvals,
            created_at: now,
            execute_after,
            executed: false,
            cancelled: false,
        };
        proof {
            assert(addresses_view(proposal.approvals@) =~= seq![proposer@]);
        }
        self.spending.insert(id, proposal);
        self.spending_count = id;
        let operation_id = Self::proposal_operation_id(env, treasury, id);
        Ok((id, TimeLockCall { time_lock, operation_id }, self.time_lock_duration))
    }

    /// Adds a signer's approval to an active proposal (once per signer).
    pub fn approve_proposal(&mut self, signer: &Address, proposal_id: u64) -> (r: Result<(), TreasuryError>)
        ensures
            applied(approve_proposal_spec(old(self)@, signer@, proposal_id), r, old(self)@, final(self)@),
    {
        match self.require_signer_op(signer) {
            Err(e) => return Err(e),
            Ok(_) => {},
        }
        let mut proposal = match self.spending.get(&proposal_id) {
            Some(p) => p.duplicate(),
            None => return Err(TreasuryError::ProposalNotFound),
        };
        if proposal.executed || proposal.cancelled {
            return Err(TreasuryError::ProposalNotActive);
        }
        if contains_address(&proposal.approvals, signer) {
            return Err(TreasuryError::AlreadyApproved);
        }
        if proposal.approvals.len() >= u32::MAX as usize {
            return Err(TreasuryError::ArithmeticOverflow);
        }
        let ghost pre = proposal.approvals@;
        proposal.approvals.push(signer.duplicate());
        proof {
            assert(addresses_view(proposal.approvals@) =~= addresses_view(pre).push(signer@));
        }
        self.spending.insert(proposal_id, proposal);
        Ok(())
    }

    /// Withdraws the caller's approval from an active proposal.
    pub fn revoke_approval(&mut self, signer: &Address, proposal_id: u64) -> (r: Result<(), TreasuryError>)
        ensures
            applied(revoke_approval_spec(old(self)@, signer@, proposal_id), r, old(self)@, final(self)@),
    {
        match self.require_not_paused() {
            Err(e) => return Err(e),
            Ok(_) => {},
        }
        let mut proposal = match self.spending.get(&proposal_id) {
            Some(p) => p.duplicate(),
            None => return Err(TreasuryError::ProposalNotFound),
        };
        if proposal.executed || proposal.cancelled {
            return Err(TreasuryError::ProposalNotActive);
        }
        let remaining = remove_address(&proposal.approvals, signer);
        if !contains_address(&proposal.approvals, signer) {
            return Err(TreasuryError::NoApprovalToRevoke);
        }
        proposal.approvals = remaining;
        self.spending.insert(proposal_id, proposal);
        Ok(())
    }

    /// Checks that a spending proposal may go to the time-lock contract for
    /// execution (signer, not paused, exists, neither executed nor
    /// cancelled, quorum of approvals, time lock configured) and names the
    /// time-lock operation to execute.
    pub fn prepare_execution(
        &self,
        env: &soroban_sdk::Env,
        treasury: &Address,
        caller: &Address,
        proposal_id: u64,
    ) -> (r: Result<TimeLockCall, TreasuryError>)
        ensures
            match r {
                Ok(_) => Ok::<(), TreasuryError>(()),
                Err(e) => Err::<(), TreasuryError>(e),
            } == execute_precheck_spec(self@, caller@, proposal_id),
            r matches Ok(c) ==> Some(c.time_lock@) == self@.time_lock && c.operation_id@ == operation_id(
                treasury@,
                proposal_id,
            ),
    {
        match self.require_signer_op(caller) {
            Err(e) => return Err(e),
            Ok(_) => {},
        }
        let proposal = match self.spending.get(&proposal_id) {
            Some(p) => p,
            None => return Err(TreasuryError::ProposalNotFound),
        };
        if proposal.executed {
            return Err(TreasuryError::AlreadyExecuted);
        }
        if proposal.cancelled {
            return Err(TreasuryError::ProposalCancelled);
        }
        if proposal.approvals.len() < self.threshold as usize {
            return Err(TreasuryError::InsufficientApprovals);
        }
        let time_lock = match &self.time_lock {
            Some(t) => t.duplicate(),
            None => return Err(TreasuryError::TimeLockNotSet),
        };
        let operation_id = Self::proposal_operation_id(env, treasury, proposal_id);
        Ok(TimeLockCall { time_lock, operation_id })
    }

    /// Executes a spending proposal once the threshold of approvals is met,
    /// the time lock has elapsed, the balance covers it and the category's
    /// unspent allocation covers it: pays it out of the balance and charges
    /// it to the category. Returns what was paid, to whom, and the time-lock
    /// operation to execute alongside.
    pub fn execute_proposal(
        &mut self,
        env: &soroban_sdk::Env,
        treasury: &Address,
        caller: &Address,
        proposal_id: u64,
        now: u64,
    ) -> (r: Result<SpendOutcome, TreasuryError>)
        ensures
            applied_with(
                execute_proposal_spec(old(self)@, caller@, proposal_id, now),
                match r {
                    Ok(o) => Ok::<SpendView, TreasuryError>(
                        SpendView { recipient: o.recipient@, amount: o.amount, category: o.category@ },
                    ),
                    Err(e) => Err::<SpendView, TreasuryError>(e),
                },
                old(self)@,
                final(self)@,
            ),
            r matches Ok(o) ==> o.proposal_id == proposal_id && Some(o.time_lock_call.time_lock@)
                == old(self)@.time_lock && o.time_lock_call.operation_id@ == operation_id(
                treasury@,
                proposal_id,
            ),
    {
        let time_lock_call = match self.prepare_execution(env, treasury, caller, proposal_id) {
            Err(e) => return Err(e),
            Ok(c) => c,
        };
        let mut proposal = match self.spending.get(&proposal_id) {
            Some(p) => p.duplicate(),
            None => return Err(TreasuryError::ProposalNotFound),
        };
        if now < proposal.execute_after {
            return Err(TreasuryError::TimeLockNotElapsed);
        }
        if self.balance < proposal.amount {
            return Err(TreasuryError::InsufficientBalance);
        }
        let budget = self.get_budget_allocation(&proposal.category);
        let available = match budget.allocated.checked_sub(budget.spent) {
            Some(a) => a,
            None => return Err(TreasuryError::ArithmeticOverflow),
        };
        if available < proposal.amount {
            return Err(TreasuryError::ExceedsBudget);
        }
        let balance = match self.balance.checked_sub(proposal.amount) {
            Some(b) => b,
            None => return Err(TreasuryError::ArithmeticOverflow),
        };
        let spent = match budget.spent.checked_add(proposal.amount) {
            Some(s) => s,
            None => return Err(TreasuryError::ArithmeticOverflow),
        };
        let total_spent = match self.total_spent.checked_add(proposal.amount) {
            Some(t) => t,
            None => return Err(TreasuryError::ArithmeticOverflow),
        };
        let amount = proposal.amount;
        let recipient = proposal.recipient.duplicate();
        let category = proposal.category.clone();
        self.balance = balance;
        self.budgets.insert(
            proposal.category.clone(),
            BudgetAllocation { category: proposal.category.clone(), allocated: budget.allocated, spent },
        );
        self.total_spent = total_spent;
        proposal.executed = true;
        self.spending.insert(proposal_id, proposal);
        Ok(SpendOutcome { proposal_id, recipient, amount, category, time_lock_call })
    }

    /// Cancels a proposal that was not executed; its proposer or the admin
    /// may cancel.
    pub fn cancel_proposal(&mut self, caller: &Address, proposal_id: u64) -> (r: Result<(), TreasuryError>)
        ensures
            applied(cancel_proposal_spec(old(self)@, caller@, proposal_id), r, old(self)@, final(self)@),
    {
        match self.require_not_paused() {
            Err(e) => return Err(e),
            Ok(_) => {},
        }
        let mut proposal = match self.spending.get(&proposal_id) {
            Some(p) => p.duplicate(),
            None => return Err(TreasuryError::ProposalNotFound),
        };
        if proposal.executed {
            return Err(TreasuryError::AlreadyExecuted);
        }
        if !caller.same(&proposal.proposer) {
            match self.require_admin(caller) {
                Err(e) => return Err(e),
                Ok(_) => {},
            }
        }
        proposal.cancelled = true;
        self.spending.insert(proposal_id, proposal);
        Ok(())
    }
}

} // verus!
