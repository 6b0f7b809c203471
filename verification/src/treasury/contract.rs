//! The treasury contract's storage, set-up, funding, signer management,
//! emergency stop and reads.
//!
//! Signatures (`require_auth`) are checked by the host that runs these calls,
//! not here; the timestamp `now` is the ledger's.
use vstd::prelude::*;
use crate::ids::{
    addresses_view, contains_address, copy_addresses, remove_address, Address,
};
use crate::table::Table;
use crate::treasury::model::{
    add_signer_spec, admin_check, admin_op_check, applied, deposit_spec, empty_model,
    initialize_spec, pause_check, remove_signer_spec, set_paused_spec, signer_check,
    signer_op_check, update_threshold_spec, TreasuryModel, budget_of,
};
use crate::treasury::types::{
    AllocationProposal, BudgetAllocation, DurationProposal, SpendingProposal, TreasuryError,
    VoteKey,
};

verus! {

/// The treasury contract's storage.
pub struct Treasury {
    pub admin: Option<Address>,
    pub signers: Vec<Address>,
    pub threshold: u32,
    pub time_lock_duration: u64,
    pub time_lock: Option<Address>,
    pub balance: i128,
    pub spending_count: u64,
    pub spending: Table<u64, SpendingProposal>,
    pub allocation_count: u64,
    pub allocations: Table<u64, AllocationProposal>,
    pub allocation_votes: Table<VoteKey, ()>,
    pub duration_count: u64,
    pub durations: Table<u64, DurationProposal>,
    pub duration_votes: Table<VoteKey, ()>,
    pub budgets: Table<String, BudgetAllocation>,
    pub total_allocated: i128,
    pub total_spent: i128,
    pub paused: bool,
}

pub open spec fn opt_address(a: Option<Address>) -> Option<Seq<u8>> {
    match a {
        Some(a) => Some(a@),
        None => None,
    }
}

impl View for Treasury {
    type V = TreasuryModel;

    open spec fn view(&self) -> TreasuryModel {
        TreasuryModel {
            admin: opt_address(self.admin),
            signers: addresses_view(self.signers@),
            threshold: self.threshold,
            time_lock_duration: self.time_lock_duration,
            time_lock: opt_address(self.time_lock),
            balance: self.balance,
            spending_count: self.spending_count,
            spending: self.spending@,
            allocation_count: self.allocation_count,
            allocations: self.allocations@,
            allocation_votes: self.allocation_votes@,
            duration_count: self.duration_count,
            durations: self.durations@,
            duration_votes: self.duration_votes@,
            budgets: self.budgets@,
            total_allocated: self.total_allocated,
            total_spent: self.total_spent,
            paused: self.paused,
        }
    }
}

impl Treasury {
    /// Storage before `initialize`: empty.
    pub fn new() -> (t: Self)
        ensures
            t@ == empty_model(),
    {
        let t = Treasury {
            admin: None,
            signers: Vec::new(),
            threshold: 0,
            time_lock_duration: 0,
            time_lock: None,
            balance: 0,
            spending_count: 0,
            spending: Table::new(),
            allocation_count: 0,
            allocations: Table::new(),
            allocation_votes: Table::new(),
            duration_count: 0,
            durations: Table::new(),
            duration_votes: Table::new(),
            budgets: Table::new(),
            total_allocated: 0,
            total_spent: 0,
            paused: false,
        };
        assert(addresses_view(t.signers@) =~= Seq::<Seq<u8>>::empty());
        t
    }

    /// Sets the admin, the signers and their threshold, the time-lock
    /// duration and contract; zeroes balance, counters and totals; unpauses.
    /// Refused once initialised, without signers, or with a threshold that
    /// is zero or above the number of signers.
    pub fn initialize(
        &mut self,
        admin: Address,
        signers: Vec<Address>,
        threshold: u32,
        time_lock_duration: u64,
        time_lock: Address,
    ) -> (r: Result<(), TreasuryError>)
        ensures
            applied(
                initialize_spec(
                    old(self)@,
                    admin@,
                    addresses_view(signers@),
                    threshold,
                    time_lock_duration,
                    time_lock@,
                ),
                r,
                old(self)@,
                final(self)@,
            ),
    {
        if self.admin.is_some() {
            return Err(TreasuryError::AlreadyInitialized);
        }
        if signers.len() == 0 {
            return Err(TreasuryError::NoSigners);
        }
        if threshold == 0 || threshold as usize > signers.len() {
            return Err(TreasuryError::InvalidThreshold);
        }
        self.admin = Some(admin);
        self.signers = signers;
        self.threshold = threshold;
        self.time_lock_duration = time_lock_duration;
        self.time_lock = Some(time_lock);
        self.balance = 0;
        self.spending_count = 0;
        self.allocation_count = 0;
        self.duration_count = 0;
        self.total_allocated = 0;
        self.total_spent = 0;
        self.paused = false;
        Ok(())
    }

    /// Refuses calls while paused.
    pub fn require_not_paused(&self) -> (r: Result<(), TreasuryError>)
        ensures
            r == pause_check(self@),
    {
        if self.paused {
            Err(TreasuryError::ContractPaused)
        } else {
            Ok(())
        }
    }

    /// Accepts only the admin.
    pub fn require_admin(&self, caller: &Address) -> (r: Result<(), TreasuryError>)
        ensures
            r == admin_check(self@, caller@),
    {
        match &self.admin {
            None => Err(TreasuryError::NotInitialized),
            Some(admin) => if caller.same(admin) {
                Ok(())
            } else {
                Err(TreasuryError::CallerNotAdmin)
            },
        }
    }

    /// Accepts only the signers.
    pub fn require_signer(&self, caller: &Address) -> (r: Result<(), TreasuryError>)
        ensures
            r == signer_check(self@, caller@),
    {
        if contains_address(&self.signers, caller) {
            Ok(())
        } else {
            Err(TreasuryError::CallerNotSigner)
        }
    }

    pub(crate) fn require_admin_op(&self, caller: &Address) -> (r: Result<(), TreasuryError>)
        ensures
            r == admin_op_check(self@, caller@),
    {
        match self.require_not_paused() {
            Err(e) => Err(e),
            Ok(_) => self.require_admin(caller),
        }
    }

    pub(crate) fn require_signer_op(&self, caller: &Address) -> (r: Result<(), TreasuryError>)
        ensures
            r == signer_op_check(self@, caller@),
    {
        match self.require_not_paused() {
            Err(e) => Err(e),
            Ok(_) => self.require_signer(caller),
        }
    }

    /// Records a deposit into the treasury's ledger balance; the amount must
    /// be positive.
    pub fn deposit(&mut self, amount: i128) -> (r: Result<(), TreasuryError>)
        ensures
            applied(deposit_spec(old(self)@, amount), r, old(self)@, final(self)@),
    {
        match self.require_not_paused() {
            Err(e) => return Err(e),
            Ok(_) => {},
        }
        if amount <= 0 {
            return Err(TreasuryError::NonPositiveAmount);
        }
        match self.balance.checked_add(amount) {
            Some(b) => {
                self.balance = b;
                Ok(())
            },
            None => Err(TreasuryError::ArithmeticOverflow),
        }
    }

    /// The ledger balance.
    pub fn get_balance(&self) -> (b: i128)
        ensures
            b == self@.balance,
    {
        self.balance
    }

    /// Adds a signer (admin only); refused for an existing signer.
    pub fn add_signer(&mut self, caller: &Address, new_signer: Address) -> (r: Result<(), TreasuryError>)
        ensures
            applied(add_signer_spec(old(self)@, caller@, new_signer@), r, old(self)@, final(self)@),
    {
        match self.require_admin_op(caller) {
            Err(e) => return Err(e),
            Ok(_) => {},
        }
        if contains_address(&self.signers, &new_signer) {
            return Err(TreasuryError::AlreadySigner);
        }
        if self.signers.len() >= u32::MAX as usize {
            return Err(TreasuryError::ArithmeticOverflow);
        }
        let ghost pre = self.signers@;
        self.signers.push(new_signer);
        proof {
            assert(addresses_view(self.signers@) =~= addresses_view(pre).push(new_signer@));
        }
        Ok(())
    }

    /// Removes a signer (admin only); refused for a non-signer, or where
    /// fewer signers than the threshold would remain.
    pub fn remove_signer(&mut self, caller: &Address, signer: &Address) -> (r: Result<(), TreasuryError>)
        ensures
            applied(remove_signer_spec(old(self)@, caller@, signer@), r, old(self)@, final(self)@),
    {
        match self.require_admin_op(caller) {
            Err(e) => return Err(e),
            Ok(_) => {},
        }
        let remaining = remove_address(&self.signers, signer);
        if !contains_address(&self.signers, signer) {
            return Err(TreasuryError::NotASigner);
        }
        if remaining.len() < self.threshold as usize {
            return Err(TreasuryError::BelowThreshold);
        }
        proof {
            assert(addresses_view(remaining@).len() == remaining@.len());
        }
        self.signers = remaining;
        Ok(())
    }

    /// Changes the threshold (admin only); it must stay between one and the
    /// number of signers.
    pub fn update_threshold(&mut self, caller: &Address, new_threshold: u32) -> (r: Result<(), TreasuryError>)
        ensures
            applied(update_threshold_spec(old(self)@, caller@, new_threshold), r, old(self)@, final(self)@),
    {
        match self.require_admin_op(caller) {
            Err(e) => return Err(e),
            Ok(_) => {},
        }
        if new_threshold == 0 || new_threshold as usize > self.signers.len() {
            return Err(TreasuryError::InvalidThreshold);
        }
        self.threshold = new_threshold;
        Ok(())
    }

    /// The signers, in order.
    pub fn get_signers(&self) -> (v: Vec<Address>)
        ensures
            addresses_view(v@) == self@.signers,
    {
        copy_addresses(&self.signers)
    }

    /// The approval threshold (0 before initialisation).
    pub fn get_threshold(&self) -> (t: u32)
        ensures
            t == self@.threshold,
    {
        self.threshold
    }

    /// Whether `address` is a signer.
    pub fn is_signer(&self, address: &Address) -> (b: bool)
        ensures
            b == self@.signers.contains(address@),
    {
        contains_address(&self.signers, address)
    }

    /// The time-lock contract; refused where none was set.
    pub fn get_time_lock(&self) -> (r: Result<Address, TreasuryError>)
        ensures
            r is Ok == self@.time_lock is Some,
            r matches Ok(a) ==> Some(a@) == self@.time_lock,
            r matches Err(e) ==> e == TreasuryError::TimeLockNotSet,
    {
        match &self.time_lock {
            Some(a) => Ok(a.duplicate()),
            None => Err(TreasuryError::TimeLockNotSet),
        }
    }

    /// The admin; refused before initialisation.
    pub fn get_admin(&self) -> (r: Result<Address, TreasuryError>)
        ensures
            r is Ok == self@.admin is Some,
            r matches Ok(a) ==> Some(a@) == self@.admin,
            r matches Err(e) ==> e == TreasuryError::NotInitialized,
    {
        match &self.admin {
            Some(a) => Ok(a.duplicate()),
            None => Err(TreasuryError::NotInitialized),
        }
    }

    /// Pauses or resumes the treasury (admin only). Works while paused, so
    /// that resuming stays possible.
    pub fn set_paused(&mut self, caller: &Address, paused: bool) -> (r: Result<(), TreasuryError>)
        ensures
            applied(set_paused_spec(old(self)@, caller@, paused), r, old(self)@, final(self)@),
    {
        match self.require_admin(caller) {
            Err(e) => return Err(e),
            Ok(_) => {},
        }
        self.paused = paused;
        Ok(())
    }

    /// Whether the treasury is paused (readable while paused).
    pub fn is_paused(&self) -> (b: bool)
        ensures
            b == self@.paused,
    {
        self.paused
    }

    /// The spending proposal with this id, if any.
    pub fn get_spending_proposal(&self, proposal_id: u64) -> (r: Option<SpendingProposal>)
        ensures
            r is Some == self@.spending.dom().contains(proposal_id),
            r matches Some(p) ==> p@ == self@.spending[proposal_id],
    {
        match self.spending.get(&proposal_id) {
            Some(p) => Some(p.duplicate()),
            None => None,
        }
    }

    /// How many spending proposals were created.
    pub fn get_spending_proposal_count(&self) -> (n: u64)
        ensures
            n == self@.spending_count,
    {
        self.spending_count
    }

    /// The allocation proposal with this id, if any.
    pub fn get_allocation_proposal(&self, allocation_id: u64) -> (r: Option<AllocationProposal>)
        ensures
            r is Some == self@.allocations.dom().contains(allocation_id),
            r matches Some(p) ==> p@ == self@.allocations[allocation_id],
    {
        match self.allocations.get(&allocation_id) {
            Some(p) => Some(p.duplicate()),
            None => None,
        }
    }

    /// A category's envelope; zero allocated and spent where none was stored.
    pub fn get_budget_allocation(&self, category: &String) -> (b: BudgetAllocation)
        ensures
            b@ == budget_of(self@, category@),
    {
        match self.budgets.get(category) {
            Some(b) => b.duplicate(),
            None => BudgetAllocation { category: category.clone(), allocated: 0, spent: 0 },
        }
    }

    /// The duration proposal with this id, if any.
    pub fn get_duration_proposal(&self, proposal_id: u64) -> (r: Option<DurationProposal>)
        ensures
            r is Some == self@.durations.dom().contains(proposal_id),
            r matches Some(p) ==> p@ == self@.durations[proposal_id],
    {
        match self.durations.get(&proposal_id) {
            Some(p) => Some(p.duplicate()),
            None => None,
        }
    }

    /// How many duration proposals were created.
    pub fn get_duration_proposal_count(&self) -> (n: u64)
        ensures
            n == self@.duration_count,
    {
        self.duration_count
    }
}

} // verus!
