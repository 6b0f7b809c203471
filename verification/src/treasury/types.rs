//! The records that the treasury contract stores and returns.
use vstd::prelude::*;
use crate::ids::{
    addresses_view,
    copy_addresses,
    Address,
};
use crate::table::KeyEq;

verus! {

/// A spend out of the treasury, approved by signers and released after a
/// time lock.
#[derive(Debug)]
pub struct SpendingProposal {
    pub id: u64,
    pub proposer: Address,
    pub recipient: Address,
    pub amount: i128,
    pub category: String,
    pub description: String,
    pub approvals: Vec<Address>,
    pub created_at: u64,
    pub execute_after: u64,
    pub executed: bool,
    pub cancelled: bool,
}

/// What a spending proposal holds.
pub struct SpendingProposalView {
    pub id: u64,
    pub proposer: Seq<u8>,
    pub recipient: Seq<u8>,
    pub amount: i128,
    pub category: Seq<char>,
    pub description: Seq<char>,
    pub approvals: Seq<Seq<u8>>,
    pub created_at: u64,
    pub execute_after: u64,
    pub executed: bool,
    pub cancelled: bool,
}

impl View for SpendingProposal {
    type V = SpendingProposalView;

    open spec fn view(&self) -> SpendingProposalView {
        SpendingProposalView {
            id: self.id,
            proposer: self.proposer@,
            recipient: self.recipient@,
            amount: self.amount,
            category: self.category@,
            description: self.description@,
            approvals: addresses_view(self.approvals@),
            created_at: self.created_at,
            execute_after: self.execute_after,
            executed: self.executed,
            cancelled: self.cancelled,
        }
    }
}

impl SpendingProposal {
    /// A copy of this proposal.
    pub fn duplicate(&self) -> (p: Self)
        ensures
            p@ == self@,
    {
        SpendingProposal {
            id: self.id,
            proposer: self.proposer.duplicate(),
            recipient: self.recipient.duplicate(),
            amount: self.amount,
            category: self.category.clone(),
            description: self.description.clone(),
            approvals: copy_addresses(&self.approvals),
            created_at: self.created_at,
            execute_after: self.execute_after,
            executed: self.executed,
            cancelled: self.cancelled,
        }
    }
}

/// The envelope of a budget category: how much was allocated and spent.
#[derive(Debug)]
pub struct BudgetAllocation {
    pub category: String,
    pub allocated: i128,
    pub spent: i128,
}

/// What a budget allocation holds.
pub struct BudgetView {
    pub category: Seq<char>,
    pub allocated: i128,
    pub spent: i128,
}

impl View for BudgetAllocation {
    type V = BudgetView;

    open spec fn view(&self) -> BudgetView {
        BudgetView { category: self.category@, allocated: self.allocated, spent: self.spent }
    }
}

impl BudgetAllocation {
    /// A copy of this allocation.
    pub fn duplicate(&self) -> (b: Self)
        ensures
            b@ == self@,
    {
        BudgetAllocation { category: self.category.clone(), allocated: self.allocated, spent: self.spent }
    }
}

/// A vote to add an amount to a budget category.
#[derive(Debug)]
pub struct AllocationProposal {
    pub id: u64,
    pub proposer: Address,
    pub category: String,
    pub amount: i128,
    pub votes_for: Vec<Address>,
    pub votes_against: Vec<Address>,
    pub created_at: u64,
    pub finalized: bool,
    pub approved: bool,
}

/// What an allocation proposal holds.
pub struct AllocationProposalView {
    pub id: u64,
    pub proposer: Seq<u8>,
    pub category: Seq<char>,
    pub amount: i128,
    pub votes_for: Seq<Seq<u8>>,
    pub votes_against: Seq<Seq<u8>>,
    pub created_at: u64,
    pub finalized: bool,
    pub approved: bool,
}

impl View for AllocationProposal {
    type V = AllocationProposalView;

    open spec fn view(&self) -> AllocationProposalView {
        AllocationProposalView {
            id: self.id,
            proposer: self.proposer@,
            category: self.category@,
            amount: self.amount,
            votes_for: addresses_view(self.votes_for@),
            votes_against: addresses_view(self.votes_against@),
            created_at: self.created_at,
            finalized: self.finalized,
            approved: self.approved,
        }
    }
}

impl AllocationProposal {
    /// A copy of this proposal.
    pub fn duplicate(&self) -> (p: Self)
        ensures
            p@ == self@,
    {
        AllocationProposal {
            id: self.id,
            proposer: self.proposer.duplicate(),
            category: self.category.clone(),
            amount: self.amount,
            votes_for: copy_addresses(&self.votes_for),
            votes_against: copy_addresses(&self.votes_against),
            created_at: self.created_at,
            finalized: self.finalized,
            approved: self.approved,
        }
    }
}

/// A vote to change the time-lock duration of future spending proposals.
#[derive(Debug)]
pub struct DurationProposal {
    pub id: u64,
    pub proposer: Address,
    pub new_duration: u64,
    pub votes_for: Vec<Address>,
    pub votes_against: Vec<Address>,
    pub created_at: u64,
    pub finalized: bool,
    pub approved: bool,
}

/// What a duration proposal holds.
pub struct DurationProposalView {
    pub id: u64,
    pub proposer: Seq<u8>,
    pub new_duration: u64,
    pub votes_for: Seq<Seq<u8>>,
    pub votes_against: Seq<Seq<u8>>,
    pub created_at: u64,
    pub finalized: bool,
    pub approved: bool,
}

impl View for DurationProposal {
    type V = DurationProposalView;

    open spec fn view(&self) -> DurationProposalView {
        DurationProposalView {
            id: self.id,
            proposer: self.proposer@,
            new_duration: self.new_duration,
            votes_for: addresses_view(self.votes_for@),
            votes_against: addresses_view(self.votes_against@),
            created_at: self.created_at,
            finalized: self.finalized,
            approved: self.approved,
        }
    }
}

impl DurationProposal {
    /// A copy of this proposal.
    pub fn duplicate(&self) -> (p: Self)
        ensures
            p@ == self@,
    {
        DurationProposal {
            id: self.id,
            proposer: self.proposer.duplicate(),
            new_duration: self.new_duration,
            votes_for: copy_addresses(&self.votes_for),
            votes_against: copy_addresses(&self.votes_against),
            created_at: self.created_at,
            finalized: self.finalized,
            approved: self.approved,
        }
    }
}

/// Single-call snapshot of treasury health for dashboards.
#[derive(Clone, Copy, Debug, PartialEq, Eq, Structural)]
pub struct TreasuryDashboard {
    pub balance: i128,
    pub total_allocated: i128,
    pub total_spent: i128,
    pub signer_count: u32,
    pub threshold: u32,
    pub time_lock_duration: u64,
    pub spending_proposal_count: u64,
    pub active_spending_proposals: u32,
    pub allocation_proposal_count: u64,
}

impl View for TreasuryDashboard {
    type V = TreasuryDashboard;

    open spec fn view(&self) -> TreasuryDashboard {
        *self
    }
}

/// A signer's vote on one proposal.
#[derive(Debug)]
pub struct VoteKey {
    pub proposal_id: u64,
    pub voter: Address,
}

impl View for VoteKey {
    type V = (u64, Seq<u8>);

    open spec fn view(&self) -> (u64, Seq<u8>) {
        (self.proposal_id, self.voter@)
    }
}

impl KeyEq for VoteKey {
    fn key_eq(&self, other: &Self) -> (same: bool) {
        self.proposal_id == other.proposal_id && self.voter.same(&other.voter)
    }
}

/// The time-lock contract and the id of a spending proposal's operation
/// there, for scheduling it at creation and executing it at execution.
#[derive(Debug)]
pub struct TimeLockCall {
    pub time_lock: Address,
    pub operation_id: Vec<u8>,
}

/// Why a treasury call is refused.
#[derive(Clone, Copy, Debug, PartialEq, Eq, Structural)]
pub enum TreasuryError {
    AlreadyInitialized,
    NoSigners,
    InvalidThreshold,
    NotInitialized,
    CallerNotAdmin,
    ContractPaused,
    NonPositiveAmount,
    AlreadySigner,
    NotASigner,
    BelowThreshold,
    CallerNotSigner,
    TimeLockNotSet,
    ProposalNotFound,
    ProposalNotActive,
    AlreadyApproved,
    NoApprovalToRevoke,
    AlreadyExecuted,
    ProposalCancelled,
    InsufficientApprovals,
    TimeLockNotElapsed,
    InsufficientBalance,
    ExceedsBudget,
    AlreadyVoted,
    AllocationNotFound,
    AllocationAlreadyFinalized,
    AlreadyFinalized,
    InsufficientVotes,
    DurationNotFound,
    DurationAlreadyFinalized,
    ArithmeticOverflow,
}

/// The message the contract fails with for each refusal.
pub open spec fn treasury_error_message(e: TreasuryError) -> Seq<char> {
    match e {
        TreasuryError::AlreadyInitialized => "already initialized"@,
        TreasuryError::NoSigners => "at least one signer required"@,
        TreasuryError::InvalidThreshold => "invalid threshold"@,
        TreasuryError::NotInitialized => "not initialized"@,
        TreasuryError::CallerNotAdmin => "caller is not admin"@,
        TreasuryError::ContractPaused => "contract is paused"@,
        TreasuryError::NonPositiveAmount => "amount must be positive"@,
        TreasuryError::AlreadySigner => "already a signer"@,
        TreasuryError::NotASigner => "not a signer"@,
        TreasuryError::BelowThreshold => "cannot drop signer count below threshold"@,
        TreasuryError::CallerNotSigner => "caller is not a signer"@,
        TreasuryError::TimeLockNotSet => "time-lock not set"@,
        TreasuryError::ProposalNotFound => "proposal not found"@,
        TreasuryError::ProposalNotActive => "proposal not active"@,
        TreasuryError::AlreadyApproved => "already approved"@,
        TreasuryError::NoApprovalToRevoke => "no approval to revoke"@,
        TreasuryError::AlreadyExecuted => "already executed"@,
        TreasuryError::ProposalCancelled => "proposal cancelled"@,
        TreasuryError::InsufficientApprovals => "insufficient approvals"@,
        TreasuryError::TimeLockNotElapsed => "time-lock not yet elapsed"@,
        TreasuryError::InsufficientBalance => "insufficient treasury balance"@,
        TreasuryError::ExceedsBudget => "exceeds budget allocation for category"@,
        TreasuryError::AlreadyVoted => "already voted"@,
        TreasuryError::AllocationNotFound => "allocation proposal not found"@,
        TreasuryError::AllocationAlreadyFinalized => "allocation already finalized"@,
        TreasuryError::AlreadyFinalized => "already finalized"@,
        TreasuryError::InsufficientVotes => "insufficient votes for quorum"@,
        TreasuryError::DurationNotFound => "duration proposal not found"@,
        TreasuryError::DurationAlreadyFinalized => "duration proposal already finalized"@,
        TreasuryError::ArithmeticOverflow => "arithmetic overflow"@,
    }
}

impl TreasuryError {
    /// The message the contract fails with.
    pub fn message(&self) -> (m: &'static str)
        ensures
            m@ == treasury_error_message(*self),
    {
        match self {
            TreasuryError::AlreadyInitialized => "already initialized",
            TreasuryError::NoSigners => "at least one signer required",
            TreasuryError::InvalidThreshold => "invalid threshold",
            TreasuryError::NotInitialized => "not initialized",
            TreasuryError::CallerNotAdmin => "caller is not admin",
            TreasuryError::ContractPaused => "contract is paused",
            TreasuryError::NonPositiveAmount => "amount must be positive",
            TreasuryError::AlreadySigner => "already a signer",
            TreasuryError::NotASigner => "not a signer",
            TreasuryError::BelowThreshold => "cannot drop signer count below threshold",
            TreasuryError::CallerNotSigner => "caller is not a signer",
            TreasuryError::TimeLockNotSet => "time-lock not set",
            TreasuryError::ProposalNotFound => "proposal not found",
            TreasuryError::ProposalNotActive => "proposal not active",
            TreasuryError::AlreadyApproved => "already approved",
            TreasuryError::NoApprovalToRevoke => "no approval to revoke",
            TreasuryError::AlreadyExecuted => "already executed",
            TreasuryError::ProposalCancelled => "proposal cancelled",
            TreasuryError::InsufficientApprovals => "insufficient approvals",
            TreasuryError::TimeLockNotElapsed => "time-lock not yet elapsed",
            TreasuryError::InsufficientBalance => "insufficient treasury balance",
            TreasuryError::ExceedsBudget => "exceeds budget allocation for category",
            TreasuryError::AlreadyVoted => "already voted",
            TreasuryError::AllocationNotFound => "allocation proposal not found",
            TreasuryError::AllocationAlreadyFinalized => "allocation already finalized",
            TreasuryError::AlreadyFinalized => "already finalized",
            TreasuryError::InsufficientVotes => "insufficient votes for quorum",
            TreasuryError::DurationNotFound => "duration proposal not found",
            TreasuryError::DurationAlreadyFinalized => "duration proposal already finalized",
            TreasuryError::ArithmeticOverflow => "arithmetic overflow",
        }
    }
}

} // verus!
