use vstd::prelude::*;

verus! {

/// An account on the ledger: a depositor, a contributor, the admin, a fee recipient or the
/// custody account of the escrow itself.
#[derive(Clone, Copy, Debug, PartialEq, Eq, Structural, Hash)]
pub struct Address(pub u64);

/// Every way an escrow operation can fail.
#[derive(Clone, Copy, Debug, PartialEq, Eq, Structural)]
pub enum Error {
    AlreadyInitialized,
    NotInitialized,
    BountyExists,
    BountyNotFound,
    FundsNotLocked,
    DeadlineNotPassed,
    Unauthorized,
    InvalidFeeRate,
    FeeRecipientNotSet,
    InvalidBatchSize,
    ContractPaused,
    DuplicateBountyId,
    InvalidAmount,
    InvalidDeadline,
    InsufficientFunds,
    RefundNotApproved,
    BatchSizeMismatch,
    /// The rate limiter turned the caller away (cooldown or window exhausted).
    RateLimited,
}

/// The stable numeric code of each error, as exposed to ledger clients.
pub open spec fn error_code(e: Error) -> u32 {
    match e {
        Error::AlreadyInitialized => 1,
        Error::NotInitialized => 2,
        Error::BountyExists => 3,
        Error::BountyNotFound => 4,
        Error::FundsNotLocked => 5,
        Error::DeadlineNotPassed => 6,
        Error::Unauthorized => 7,
        Error::InvalidFeeRate => 8,
        Error::FeeRecipientNotSet => 9,
        Error::InvalidBatchSize => 10,
        Error::ContractPaused => 11,
        Error::DuplicateBountyId => 12,
        Error::InvalidAmount => 13,
        Error::InvalidDeadline => 14,
        Error::InsufficientFunds => 16,
        Error::RefundNotApproved => 17,
        Error::BatchSizeMismatch => 18,
        Error::RateLimited => 19,
    }
}

impl Error {
    /// The stable numeric code of the error.
    pub fn code(&self) -> (r: u32)
        ensures
            r == error_code(*self),
    {
        match self {
            Error::AlreadyInitialized => 1,
            Error::NotInitialized => 2,
            Error::BountyExists => 3,
            Error::BountyNotFound => 4,
            Error::FundsNotLocked => 5,
            Error::DeadlineNotPassed => 6,
            Error::Unauthorized => 7,
            Error::InvalidFeeRate => 8,
            Error::FeeRecipientNotSet => 9,
            Error::InvalidBatchSize => 10,
            Error::ContractPaused => 11,
            Error::DuplicateBountyId => 12,
            Error::InvalidAmount => 13,
            Error::InvalidDeadline => 14,
            Error::InsufficientFunds => 16,
            Error::RefundNotApproved => 17,
            Error::BatchSizeMismatch => 18,
            Error::RateLimited => 19,
        }
    }
}

/// Lifecycle of one escrow. `Released` and `Refunded` are terminal.
#[derive(Clone, Copy, Debug, PartialEq, Eq, Structural)]
pub enum EscrowStatus {
    Locked,
    Released,
    Refunded,
    PartiallyRefunded,
}

/// How a refund picks its amount and recipient.
#[derive(Clone, Copy, Debug, PartialEq, Eq, Structural)]
pub enum RefundMode {
    /// All of the remaining amount, to the depositor, after the deadline.
    Full,
    /// A chosen amount (default: all that remains), to the depositor, after the deadline.
    Partial,
    /// A chosen amount to a chosen recipient; before the deadline only under an approval.
    Custom,
}

/// One executed refund; appended to the escrow's history and never changed.
#[derive(Clone, Copy, Debug, PartialEq, Eq, Structural)]
pub struct RefundRecord {
    pub amount: i128,
    pub recipient: Address,
    pub mode: RefundMode,
    pub timestamp: u64,
}

/// An admin's single-use permission for a custom refund before the deadline.
#[derive(Clone, Copy, Debug, PartialEq, Eq, Structural)]
pub struct RefundApproval {
    pub bounty_id: u64,
    pub amount: i128,
    pub recipient: Address,
    pub mode: RefundMode,
    pub approved_by: Address,
    pub approved_at: u64,
}

/// The record of one bounty's escrow.
///
/// `amount` is what custody received (after the lock fee); `remaining_amount` starts at the
/// gross locked amount and decreases only through refunds.
#[derive(Clone, Debug)]
pub struct Escrow {
    pub depositor: Address,
    pub amount: i128,
    pub status: EscrowStatus,
    pub deadline: u64,
    pub refund_history: Vec<RefundRecord>,
    pub remaining_amount: i128,
}

/// The mathematical value of an [`Escrow`]: its history as a sequence.
pub struct EscrowModel {
    pub depositor: Address,
    pub amount: i128,
    pub status: EscrowStatus,
    pub deadline: u64,
    pub refund_history: Seq<RefundRecord>,
    pub remaining_amount: i128,
}

impl View for Escrow {
    type V = EscrowModel;

    open spec fn view(&self) -> EscrowModel {
        EscrowModel {
            depositor: self.depositor,
            amount: self.amount,
            status: self.status,
            deadline: self.deadline,
            refund_history: self.refund_history@,
            remaining_amount: self.remaining_amount,
        }
    }
}

impl Escrow {
    /// A copy of this record.
    pub fn duplicate(&self) -> (r: Escrow)
        ensures
            r@ == self@,
    {
        let mut history: Vec<RefundRecord> = Vec::new();
        let mut i: usize = 0;
        while i < self.refund_history.len()
            invariant
                i <= self.refund_history@.len(),
                history@ == self.refund_history@.subrange(0, i as int),
            decreases self.refund_history@.len() - i,
        {
            history.push(self.refund_history[i]);
            i += 1;
            assert(history@ =~= self.refund_history@.subrange(0, i as int));
        }
        assert(history@ =~= self.refund_history@);
        Escrow {
            depositor: self.depositor,
            amount: self.amount,
            status: self.status,
            deadline: self.deadline,
            refund_history: history,
            remaining_amount: self.remaining_amount,
        }
    }
}

/// One bounty of a batch lock.
#[derive(Clone, Copy, Debug, PartialEq, Eq, Structural)]
pub struct LockFundsItem {
    pub bounty_id: u64,
    pub depositor: Address,
    pub amount: i128,
    pub deadline: u64,
}

/// One bounty of a batch release.
#[derive(Clone, Copy, Debug, PartialEq, Eq, Structural)]
pub struct ReleaseFundsItem {
    pub bounty_id: u64,
    pub contributor: Address,
}

/// A movement of tokens that an operation decided on; the ledger carries it out.
#[derive(Clone, Copy, Debug, PartialEq, Eq, Structural)]
pub struct Transfer {
    pub from: Address,
    pub to: Address,
    pub amount: i128,
}

/// The keys of the persisted state: one escrow and at most one approval per bounty id,
/// and the singletons.
#[derive(Clone, Copy, Debug, PartialEq, Eq, Structural)]
pub enum DataKey {
    Admin,
    Token,
    Escrow(u64),
    FeeConfig,
    RefundApproval(u64),
    ReentrancyGuard,
    IsPaused,
}

} // verus!
