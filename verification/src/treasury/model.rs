//! What the treasury contract's storage means, and what each call does to
//! it, stated over maps, sequences and plain values.
use vstd::prelude::*;
use crate::digest::sha256_digest;
use crate::ids::without_address;
use crate::treasury::types::{
    AllocationProposalView, BudgetView, DurationProposalView, SpendingProposalView,
    TreasuryDashboard, TreasuryError,
};

verus! {

/// The contents of the treasury contract's storage.
pub struct TreasuryModel {
    pub admin: Option<Seq<u8>>,
    pub signers: Seq<Seq<u8>>,
    pub threshold: u32,
    pub time_lock_duration: u64,
    pub time_lock: Option<Seq<u8>>,
    pub balance: i128,
    pub spending_count: u64,
    pub spending: Map<u64, SpendingProposalView>,
    pub allocation_count: u64,
    pub allocations: Map<u64, AllocationProposalView>,
    /// Who voted on which allocation proposal (the keys of the map).
    pub allocation_votes: Map<(u64, Seq<u8>), ()>,
    pub duration_count: u64,
    pub durations: Map<u64, DurationProposalView>,
    /// Who voted on which duration proposal (the keys of the map).
    pub duration_votes: Map<(u64, Seq<u8>), ()>,
    pub budgets: Map<Seq<char>, BudgetView>,
    pub total_allocated: i128,
    pub total_spent: i128,
    pub paused: bool,
}

pub open spec fn fits_u64(x: int) -> bool {
    0 <= x <= u64::MAX
}

pub open spec fn fits_i128(x: int) -> bool {
    i128::MIN <= x <= i128::MAX
}

/// Whether a call ended as `spec` says: its state is the one `spec` gives
/// when it succeeds, and on refusal it reports the same error and leaves the
/// state as it was.
pub open spec fn applied<T>(
    spec: Result<TreasuryModel, TreasuryError>,
    r: Result<T, TreasuryError>,
    pre: TreasuryModel,
    post: TreasuryModel,
) -> bool {
    match r {
        Ok(_) => spec == Ok::<TreasuryModel, TreasuryError>(post),
        Err(e) => spec == Err::<TreasuryModel, TreasuryError>(e) && post == pre,
    }
}

/// Like `applied`, for calls whose success also yields a value.
pub open spec fn applied_with<T>(
    spec: Result<(TreasuryModel, T), TreasuryError>,
    r: Result<T, TreasuryError>,
    pre: TreasuryModel,
    post: TreasuryModel,
) -> bool {
    match r {
        Ok(v) => spec == Ok::<(TreasuryModel, T), TreasuryError>((post, v)),
        Err(e) => spec == Err::<(TreasuryModel, T), TreasuryError>(e) && post == pre,
    }
}

// ─── Checks ──────────────────────────────────────────────────────────────

pub open spec fn pause_check(m: TreasuryModel) -> Result<(), TreasuryError> {
    if m.paused {
        Err(TreasuryError::ContractPaused)
    } else {
        Ok(())
    }
}

/// Only the admin passes; before initialisation nobody does.
pub open spec fn admin_check(m: TreasuryModel, caller: Seq<u8>) -> Result<(), TreasuryError> {
    match m.admin {
        None => Err(TreasuryError::NotInitialized),
        Some(admin) => if caller == admin {
            Ok(())
        } else {
            Err(TreasuryError::CallerNotAdmin)
        },
    }
}

/// Only the signers pass.
pub open spec fn signer_check(m: TreasuryModel, caller: Seq<u8>) -> Result<(), TreasuryError> {
    if m.signers.contains(caller) {
        Ok(())
    } else {
        Err(TreasuryError::CallerNotSigner)
    }
}

/// Refused while paused, else as `admin_check`.
pub open spec fn admin_op_check(m: TreasuryModel, caller: Seq<u8>) -> Result<(), TreasuryError> {
    if m.paused {
        Err(TreasuryError::ContractPaused)
    } else {
        admin_check(m, caller)
    }
}

/// Refused while paused, else as `signer_check`.
pub open spec fn signer_op_check(m: TreasuryModel, caller: Seq<u8>) -> Result<(), TreasuryError> {
    if m.paused {
        Err(TreasuryError::ContractPaused)
    } else {
        signer_check(m, caller)
    }
}

/// A threshold that at least one and at most all signers can meet.
pub open spec fn valid_threshold(threshold: u32, signer_count: nat) -> bool {
    threshold != 0 && threshold <= signer_count
}

// ─── Set-up, funding and signers ─────────────────────────────────────────

pub open spec fn empty_model() -> TreasuryModel {
    TreasuryModel {
        admin: None,
        signers: Seq::empty(),
        threshold: 0,
        time_lock_duration: 0,
        time_lock: None,
        balance: 0,
        spending_count: 0,
        spending: Map::empty(),
        allocation_count: 0,
        allocations: Map::empty(),
        allocation_votes: Map::empty(),
        duration_count: 0,
        durations: Map::empty(),
        duration_votes: Map::empty(),
        budgets: Map::empty(),
        total_allocated: 0,
        total_spent: 0,
        paused: false,
    }
}

pub open spec fn initialize_spec(
    m: TreasuryModel,
    admin: Seq<u8>,
    signers: Seq<Seq<u8>>,
    threshold: u32,
    time_lock_duration: u64,
    time_lock: Seq<u8>,
) -> Result<TreasuryModel, TreasuryError> {
    if m.admin is Some {
        Err(TreasuryError::AlreadyInitialized)
    } else if signers.len() == 0 {
        Err(TreasuryError::NoSigners)
    } else if !valid_threshold(threshold, signers.len()) {
        Err(TreasuryError::InvalidThreshold)
    } else {
        Ok(
            TreasuryModel {
                admin: Some(admin),
                signers,
                threshold,
                time_lock_duration,
                time_lock: Some(time_lock),
                balance: 0,
                spending_count: 0,
                allocation_count: 0,
                duration_count: 0,
                total_allocated: 0,
                total_spent: 0,
                paused: false,
                ..m
            },
        )
    }
}

pub open spec fn deposit_spec(m: TreasuryModel, amount: i128) -> Result<TreasuryModel, TreasuryError> {
    if m.paused {
        Err(TreasuryError::ContractPaused)
    } else if amount <= 0 {
        Err(TreasuryError::NonPositiveAmount)
    } else if !fits_i128(m.balance + amount) {
        Err(TreasuryError::ArithmeticOverflow)
    } else {
        Ok(TreasuryModel { balance: (m.balance + amount) as i128, ..m })
    }
}

pub open spec fn add_signer_spec(m: TreasuryModel, caller: Seq<u8>, new_signer: Seq<u8>) -> Result<
    TreasuryModel,
    TreasuryError,
> {
    match admin_op_check(m, caller) {
        Err(e) => Err(e),
        Ok(_) => if m.signers.contains(new_signer) {
            Err(TreasuryError::AlreadySigner)
        } else if m.signers.len() >= u32::MAX {
            Err(TreasuryError::ArithmeticOverflow)
        } else {
            Ok(TreasuryModel { signers: m.signers.push(new_signer), ..m })
        },
    }
}

pub open spec fn remove_signer_spec(m: TreasuryModel, caller: Seq<u8>, signer: Seq<u8>) -> Result<
    TreasuryModel,
    TreasuryError,
> {
    match admin_op_check(m, caller) {
        Err(e) => Err(e),
        Ok(_) => {
            let remaining = without_address(m.signers, signer);
            if !m.signers.contains(signer) {
                Err(TreasuryError::NotASigner)
            } else if remaining.len() < m.threshold {
                Err(TreasuryError::BelowThreshold)
            } else {
                Ok(TreasuryModel { signers: remaining, ..m })
            }
        },
    }
}

pub open spec fn update_threshold_spec(m: TreasuryModel, caller: Seq<u8>, new_threshold: u32) -> Result<
    TreasuryModel,
    TreasuryError,
> {
    match admin_op_check(m, caller) {
        Err(e) => Err(e),
        Ok(_) => if !valid_threshold(new_threshold, m.signers.len()) {
            Err(TreasuryError::InvalidThreshold)
        } else {
            Ok(TreasuryModel { threshold: new_threshold, ..m })
        },
    }
}

pub open spec fn set_paused_spec(m: TreasuryModel, caller: Seq<u8>, paused: bool) -> Result<
    TreasuryModel,
    TreasuryError,
> {
    match admin_check(m, caller) {
        Err(e) => Err(e),
        Ok(_) => Ok(TreasuryModel { paused, ..m }),
    }
}

// ─── Spending proposals ──────────────────────────────────────────────────

/// The eight big-endian bytes of `x`.
pub open spec fn be_bytes(x: u64) -> Seq<u8> {
    seq![
        (x >> 56u64) as u8,
        (x >> 48u64) as u8,
        (x >> 40u64) as u8,
        (x >> 32u64) as u8,
        (x >> 24u64) as u8,
        (x >> 16u64) as u8,
        (x >> 8u64) as u8,
        x as u8,
    ]
}

/// The bytes hashed into a proposal's time-lock operation id: the
/// treasury's address followed by the proposal id in big-endian bytes.
pub open spec fn operation_preimage(treasury: Seq<u8>, proposal_id: u64) -> Seq<u8> {
    treasury + be_bytes(proposal_id)
}

/// The time-lock operation id of a proposal: SHA-256 of its preimage.
pub open spec fn operation_id(treasury: Seq<u8>, proposal_id: u64) -> Seq<u8> {
    sha256_digest(operation_preimage(treasury, proposal_id))
}

pub open spec fn create_spending_proposal_spec(
    m: TreasuryModel,
    proposer: Seq<u8>,
    recipient: Seq<u8>,
    amount: i128,
    category: Seq<char>,
    description: Seq<char>,
    now: u64,
) -> Result<(TreasuryModel, u64), TreasuryError> {
    match signer_op_check(m, proposer) {
        Err(e) => Err(e),
        Ok(_) => if amount <= 0 {
            Err(TreasuryError::NonPositiveAmount)
        } else if !fits_u64(m.spending_count + 1) || !fits_u64(now + m.time_lock_duration) {
            Err(TreasuryError::ArithmeticOverflow)
        } else if m.time_lock is None {
            Err(TreasuryError::TimeLockNotSet)
        } else {
            let id = (m.spending_count + 1) as u64;
            let p = SpendingProposalView {
                id,
                proposer,
                recipient,
                amount,
                category,
                description,
                approvals: seq![proposer],
                created_at: now,
                execute_after: (now + m.time_lock_duration) as u64,
                executed: false,
                cancelled: false,
            };
            Ok((TreasuryModel { spending_count: id, spending: m.spending.insert(id, p), ..m }, id))
        },
    }
}

pub open spec fn approve_proposal_spec(m: TreasuryModel, signer: Seq<u8>, id: u64) -> Result<
    TreasuryModel,
    TreasuryError,
> {
    match signer_op_check(m, signer) {
        Err(e) => Err(e),
        Ok(_) => if !m.spending.dom().contains(id) {
            Err(TreasuryError::ProposalNotFound)
        } else {
            let p = m.spending[id];
            if p.executed || p.cancelled {
                Err(TreasuryError::ProposalNotActive)
            } else if p.approvals.contains(signer) {
                Err(TreasuryError::AlreadyApproved)
            } else if p.approvals.len() >= u32::MAX {
                Err(TreasuryError::ArithmeticOverflow)
            } else {
                Ok(
                    TreasuryModel {
                        spending: m.spending.insert(
                            id,
                            SpendingProposalView { approvals: p.approvals.push(signer), ..p },
                        ),
                        ..m
                    },
                )
            }
        },
    }
}

pub open spec fn revoke_approval_spec(m: TreasuryModel, signer: Seq<u8>, id: u64) -> Result<
    TreasuryModel,
    TreasuryError,
> {
    if m.paused {
        Err(TreasuryError::ContractPaused)
    } else if !m.spending.dom().contains(id) {
        Err(TreasuryError::ProposalNotFound)
    } else {
        let p = m.spending[id];
        if p.executed || p.cancelled {
            Err(TreasuryError::ProposalNotActive)
        } else if !p.approvals.contains(signer) {
            Err(TreasuryError::NoApprovalToRevoke)
        } else {
            Ok(
                TreasuryModel {
                    spending: m.spending.insert(
                        id,
                        SpendingProposalView { approvals: without_address(p.approvals, signer), ..p },
                    ),
                    ..m
                },
            )
        }
    }
}

/// A category's envelope as read: zero where none was stored.
pub open spec fn budget_of(m: TreasuryModel, category: Seq<char>) -> BudgetView {
    if m.budgets.dom().contains(category) {
        m.budgets[category]
    } else {
        BudgetView { category, allocated: 0, spent: 0 }
    }
}

/// What a successful execution pays out: to whom, how much, out of which
/// category.
pub struct SpendView {
    pub recipient: Seq<u8>,
    pub amount: i128,
    pub category: Seq<char>,
}

/// The checks made before the time-lock contract is asked to run a
/// proposal's operation: the caller may act, the proposal exists, is
/// neither executed nor cancelled, has its quorum of approvals, and a time
/// lock is configured.
pub open spec fn execute_precheck_spec(m: TreasuryModel, caller: Seq<u8>, id: u64) -> Result<(), TreasuryError> {
    match signer_op_check(m, caller) {
        Err(e) => Err(e),
        Ok(_) => if !m.spending.dom().contains(id) {
            Err(TreasuryError::ProposalNotFound)
        } else {
            let p = m.spending[id];
            if p.executed {
                Err(TreasuryError::AlreadyExecuted)
            } else if p.cancelled {
                Err(TreasuryError::ProposalCancelled)
            } else if p.approvals.len() < m.threshold {
                Err(TreasuryError::InsufficientApprovals)
            } else if m.time_lock is None {
                Err(TreasuryError::TimeLockNotSet)
            } else {
                Ok(())
            }
        },
    }
}

pub open spec fn execute_proposal_spec(m: TreasuryModel, caller: Seq<u8>, id: u64, now: u64) -> Result<
    (TreasuryModel, SpendView),
    TreasuryError,
> {
    match execute_precheck_spec(m, caller, id) {
        Err(e) => Err(e),
        Ok(_) => {
            let p = m.spending[id];
            let b = budget_of(m, p.category);
            if now < p.execute_after {
                Err(TreasuryError::TimeLockNotElapsed)
            } else if m.balance < p.amount {
                Err(TreasuryError::InsufficientBalance)
            } else if !fits_i128(b.allocated - b.spent) {
                Err(TreasuryError::ArithmeticOverflow)
            } else if b.allocated - b.spent < p.amount {
                Err(TreasuryError::ExceedsBudget)
            } else if !fits_i128(m.balance - p.amount) || !fits_i128(b.spent + p.amount) || !fits_i128(
                m.total_spent + p.amount,
            ) {
                Err(TreasuryError::ArithmeticOverflow)
            } else {
                Ok(
                    (
                        TreasuryModel {
                            balance: (m.balance - p.amount) as i128,
                            budgets: m.budgets.insert(
                                p.category,
                                BudgetView {
                                    category: p.category,
                                    allocated: b.allocated,
                                    spent: (b.spent + p.amount) as i128,
                                },
                            ),
                            total_spent: (m.total_spent + p.amount) as i128,
                            spending: m.spending.insert(id, SpendingProposalView { executed: true, ..p }),
                            ..m
                        },
                        SpendView { recipient: p.recipient, amount: p.amount, category: p.category },
                    ),
                )
            }
        },
    }
}

pub open spec fn cancel_proposal_spec(m: TreasuryModel, caller: Seq<u8>, id: u64) -> Result<
    TreasuryModel,
    TreasuryError,
> {
    if m.paused {
        Err(TreasuryError::ContractPaused)
    } else if !m.spending.dom().contains(id) {
        Err(TreasuryError::ProposalNotFound)
    } else {
        let p = m.spending[id];
        if p.executed {
            Err(TreasuryError::AlreadyExecuted)
        } else if caller != p.proposer && admin_check(m, caller) is Err {
            Err(admin_check(m, caller)->Err_0)
        } else {
            Ok(
                TreasuryModel {
                    spending: m.spending.insert(id, SpendingProposalView { cancelled: true, ..p }),
                    ..m
                },
            )
        }
    }
}

// ─── Budget allocation voting ────────────────────────────────────────────

pub open spec fn propose_budget_allocation_spec(
    m: TreasuryModel,
    proposer: Seq<u8>,
    category: Seq<char>,
    amount: i128,
    now: u64,
) -> Result<(TreasuryModel, u64), TreasuryError> {
    match signer_op_check(m, proposer) {
        Err(e) => Err(e),
        Ok(_) => if amount <= 0 {
            Err(TreasuryError::NonPositiveAmount)
        } else if !fits_u64(m.allocation_count + 1) {
            Err(TreasuryError::ArithmeticOverflow)
        } else {
            let id = (m.allocation_count + 1) as u64;
            let p = AllocationProposalView {
                id,
                proposer,
                category,
                amount,
                votes_for: seq![proposer],
                votes_against: Seq::empty(),
                created_at: now,
                finalized: false,
                approved: false,
            };
            Ok(
                (
                    TreasuryModel {
                        allocation_count: id,
                        allocations: m.allocations.insert(id, p),
                        allocation_votes: m.allocation_votes.insert((id, proposer), ()),
                        ..m
                    },
                    id,
                ),
            )
        },
    }
}

pub open spec fn vote_budget_allocation_spec(m: TreasuryModel, signer: Seq<u8>, id: u64, support: bool) -> Result<
    TreasuryModel,
    TreasuryError,
> {
    match signer_op_check(m, signer) {
        Err(e) => Err(e),
        Ok(_) => if m.allocation_votes.dom().contains((id, signer)) {
            Err(TreasuryError::AlreadyVoted)
        } else if !m.allocations.dom().contains(id) {
            Err(TreasuryError::AllocationNotFound)
        } else {
            let p = m.allocations[id];
            if p.finalized {
                Err(TreasuryError::AllocationAlreadyFinalized)
            } else if (support && p.votes_for.len() >= u32::MAX) || (!support && p.votes_against.len()
                >= u32::MAX) {
                Err(TreasuryError::ArithmeticOverflow)
            } else {
                let q = if support {
                    AllocationProposalView { votes_for: p.votes_for.push(signer), ..p }
                } else {
                    AllocationProposalView { votes_against: p.votes_against.push(signer), ..p }
                };
                Ok(
                    TreasuryModel {
                        allocations: m.allocations.insert(id, q),
                        allocation_votes: m.allocation_votes.insert((id, signer), ()),
                        ..m
                    },
                )
            }
        },
    }
}

/// What a finalised allocation credits: which category, how much.
pub struct CreditView {
    pub category: Seq<char>,
    pub amount: i128,
}

pub open spec fn finalize_budget_allocation_spec(m: TreasuryModel, caller: Seq<u8>, id: u64) -> Result<
    (TreasuryModel, CreditView),
    TreasuryError,
> {
    match signer_op_check(m, caller) {
        Err(e) => Err(e),
        Ok(_) => if !m.allocations.dom().contains(id) {
            Err(TreasuryError::AllocationNotFound)
        } else {
            let p = m.allocations[id];
            let b = budget_of(m, p.category);
            if p.finalized {
                Err(TreasuryError::AlreadyFinalized)
            } else if p.votes_for.len() < m.threshold {
                Err(TreasuryError::InsufficientVotes)
            } else if !fits_i128(b.allocated + p.amount) || !fits_i128(m.total_allocated + p.amount) {
                Err(TreasuryError::ArithmeticOverflow)
            } else {
                Ok(
                    (
                        TreasuryModel {
                            allocations: m.allocations.insert(
                                id,
                                AllocationProposalView { finalized: true, approved: true, ..p },
                            ),
                            budgets: m.budgets.insert(
                                p.category,
                                BudgetView {
                                    category: p.category,
                                    allocated: (b.allocated + p.amount) as i128,
                                    spent: b.spent,
                                },
                            ),
                            total_allocated: (m.total_allocated + p.amount) as i128,
                            ..m
                        },
                        CreditView { category: p.category, amount: p.amount },
                    ),
                )
            }
        },
    }
}

// ─── Time-lock duration governance ───────────────────────────────────────

pub open spec fn propose_time_lock_update_spec(m: TreasuryModel, proposer: Seq<u8>, new_duration: u64, now: u64) -> Result<
    (TreasuryModel, u64),
    TreasuryError,
> {
    match signer_op_check(m, proposer) {
        Err(e) => Err(e),
        Ok(_) => if !fits_u64(m.duration_count + 1) {
            Err(TreasuryError::ArithmeticOverflow)
        } else {
            let id = (m.duration_count + 1) as u64;
            let p = DurationProposalView {
                id,
                proposer,
                new_duration,
                votes_for: seq![proposer],
                votes_against: Seq::empty(),
                created_at: now,
                finalized: false,
                approved: false,
            };
            Ok(
                (
                    TreasuryModel {
                        duration_count: id,
                        durations: m.durations.insert(id, p),
                        duration_votes: m.duration_votes.insert((id, proposer), ()),
                        ..m
                    },
                    id,
                ),
            )
        },
    }
}

pub open spec fn vote_time_lock_update_spec(m: TreasuryModel, signer: Seq<u8>, id: u64, support: bool) -> Result<
    TreasuryModel,
    TreasuryError,
> {
    match signer_op_check(m, signer) {
        Err(e) => Err(e),
        Ok(_) => if m.duration_votes.dom().contains((id, signer)) {
            Err(TreasuryError::AlreadyVoted)
        } else if !m.durations.dom().contains(id) {
            Err(TreasuryError::DurationNotFound)
        } else {
            let p = m.durations[id];
            if p.finalized {
                Err(TreasuryError::DurationAlreadyFinalized)
            } else if (support && p.votes_for.len() >= u32::MAX) || (!support && p.votes_against.len()
                >= u32::MAX) {
                Err(TreasuryError::ArithmeticOverflow)
            } else {
                let q = if support {
                    DurationProposalView { votes_for: p.votes_for.push(signer), ..p }
                } else {
                    DurationProposalView { votes_against: p.votes_against.push(signer), ..p }
                };
                Ok(
                    TreasuryModel {
                        durations: m.durations.insert(id, q),
                        duration_votes: m.duration_votes.insert((id, signer), ()),
                        ..m
                    },
                )
            }
        },
    }
}

pub open spec fn finalize_time_lock_update_spec(m: TreasuryModel, caller: Seq<u8>, id: u64) -> Result<
    TreasuryModel,
    TreasuryError,
> {
    match signer_op_check(m, caller) {
        Err(e) => Err(e),
        Ok(_) => if !m.durations.dom().contains(id) {
            Err(TreasuryError::DurationNotFound)
        } else {
            let p = m.durations[id];
            if p.finalized {
                Err(TreasuryError::AlreadyFinalized)
            } else if p.votes_for.len() < m.threshold {
                Err(TreasuryError::InsufficientVotes)
            } else {
                Ok(
                    TreasuryModel {
                        durations: m.durations.insert(
                            id,
                            DurationProposalView { finalized: true, approved: true, ..p },
                        ),
                        time_lock_duration: p.new_duration,
                        ..m
                    },
                )
            }
        },
    }
}

// ─── Dashboard ───────────────────────────────────────────────────────────

/// Whether spending proposal `id` exists and is neither executed nor cancelled.
pub open spec fn is_active(m: TreasuryModel, id: u64) -> bool {
    m.spending.dom().contains(id) && !m.spending[id].executed && !m.spending[id].cancelled
}

/// How many of the spending proposals with ids 1 to `n` are active.
pub open spec fn active_count(m: TreasuryModel, n: nat) -> nat
    decreases n,
{
    if n == 0 {
        0
    } else {
        active_count(m, (n - 1) as nat) + if is_active(m, n as u64) {
            1nat
        } else {
            0nat
        }
    }
}

pub open spec fn dashboard_spec(m: TreasuryModel) -> Result<TreasuryDashboard, TreasuryError> {
    if m.spending_count == u64::MAX || active_count(m, m.spending_count as nat) > u32::MAX
        || m.signers.len() > u32::MAX {
        Err(TreasuryError::ArithmeticOverflow)
    } else {
        Ok(
            TreasuryDashboard {
                balance: m.balance,
                total_allocated: m.total_allocated,
                total_spent: m.total_spent,
                signer_count: m.signers.len() as u32,
                threshold: m.threshold,
                time_lock_duration: m.time_lock_duration,
                spending_proposal_count: m.spending_count,
                active_spending_proposals: active_count(m, m.spending_count as nat) as u32,
                allocation_proposal_count: m.allocation_count,
            },
        )
    }
}

} // verus!
