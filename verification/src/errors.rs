//! The vault's typed error codes.
use vstd::prelude::*;

verus! {

/// Why a call is refused. A refused call changes nothing.
#[derive(Clone, Copy, Debug, PartialEq, Eq, Structural)]
pub enum VaultError {
    /// `init` has already run.
    AlreadyInitialized,
    /// `init` has not run yet.
    NotInitialized,
    /// The minimum deposit handed to `init` is zero or negative.
    MinDepositNotPositive,
    /// The deduction limit is zero or negative.
    MaxDeductNotPositive,
    /// The minimum deposit handed to `init` is above the deduction limit.
    MinDepositExceedsMaxDeduct,
    /// Deposits and deductions are stopped.
    Paused,
    /// The caller is neither the owner nor an allowed depositor.
    NotAuthorizedDepositor,
    /// The caller is not the authorized caller of deductions.
    NotAuthorizedCaller,
    /// The caller is not the owner.
    NotOwner,
    /// The caller does not hold the role that the call asks for.
    Unauthorized,
    /// An amount is zero or negative.
    AmountNotPositive,
    /// A deposit is below the minimum.
    DepositBelowMinimum,
    /// A deduction is below the minimum.
    DeductBelowMinimum,
    /// A deduction is above the limit per call.
    ExceedsMaxDeduct,
    /// The deposit would push the balance above the reserve cap of the token.
    ExceedsReserveCap,
    /// The vault holds less than is asked for.
    InsufficientBalance,
    /// A request with this marker has been processed before.
    DuplicateRequestId,
    /// A list holds a value of another type than its items have.
    MalformedItem,
    /// The result does not fit its integer type.
    Overflow,
    /// No admin transfer is pending.
    NoAdminTransferPending,
    /// The timelock window is shorter than an hour or longer than thirty days.
    InvalidTimelockWindow,
    /// The deadline of the proposal does not fit the ledger clock.
    TimelockOverflow,
    /// No such proposal is pending.
    ProposalNotFound,
    /// The deadline of the proposal has not been reached.
    TimelockNotExpired,
    /// The hot share is zero or above the whole.
    InvalidHotBps,
    /// The drift tolerance is zero or above the whole.
    InvalidRebalanceThreshold,
    /// No cold signer is configured.
    ColdSignersEmpty,
    /// The approval threshold is zero or above the number of signers.
    InvalidColdThreshold,
    /// A cold signer is listed twice.
    DuplicateColdSigner,
}

impl VaultError {
    /// The text with which a call is aborted that has no error code to return.
    pub open spec fn abort_text(self) -> Option<Seq<char>> {
        match self {
            VaultError::AlreadyInitialized => Some("Already initialized"@),
            VaultError::MinDepositNotPositive => Some("min_deposit must be positive"@),
            VaultError::MaxDeductNotPositive => Some("max_deduct must be positive"@),
            VaultError::MinDepositExceedsMaxDeduct => Some("min_deposit cannot exceed max_deduct"@),
            VaultError::Paused => Some("Contract paused"@),
            VaultError::NotAuthorizedDepositor => Some("Not authorized depositor"@),
            VaultError::NotAuthorizedCaller => Some("Not authorized caller"@),
            VaultError::NotOwner => Some("Not owner"@),
            VaultError::AmountNotPositive => Some("amount must be positive"@),
            VaultError::DepositBelowMinimum => Some("deposit below minimum"@),
            VaultError::DeductBelowMinimum => Some("deduct below minimum"@),
            VaultError::ExceedsMaxDeduct => Some("deduct amount exceeds max_deduct"@),
            VaultError::InsufficientBalance => Some("insufficient balance"@),
            VaultError::Overflow => Some("overflow"@),
            _ => None,
        }
    }

    /// Returns the text with which a call is aborted that has no error code to
    /// return, or `None` where the error is only ever reported as a code.
    pub fn abort_message(&self) -> (message: Option<&'static str>)
        ensures
            message is Some <==> self.abort_text() is Some,
            message matches Some(text) ==> Some(text@) == self.abort_text(),
    {
        match self {
            VaultError::AlreadyInitialized => Some("Already initialized"),
            VaultError::MinDepositNotPositive => Some("min_deposit must be positive"),
            VaultError::MaxDeductNotPositive => Some("max_deduct must be positive"),
            VaultError::MinDepositExceedsMaxDeduct => Some("min_deposit cannot exceed max_deduct"),
            VaultError::Paused => Some("Contract paused"),
            VaultError::NotAuthorizedDepositor => Some("Not authorized depositor"),
            VaultError::NotAuthorizedCaller => Some("Not authorized caller"),
            VaultError::NotOwner => Some("Not owner"),
            VaultError::AmountNotPositive => Some("amount must be positive"),
            VaultError::DepositBelowMinimum => Some("deposit below minimum"),
            VaultError::DeductBelowMinimum => Some("deduct below minimum"),
            VaultError::ExceedsMaxDeduct => Some("deduct amount exceeds max_deduct"),
            VaultError::InsufficientBalance => Some("insufficient balance"),
            VaultError::Overflow => Some("overflow"),
            _ => None,
        }
    }
}

} // verus!
