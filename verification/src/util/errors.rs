use vstd::prelude::*;

verus! {

/// Why an operation on the vault was refused.
#[derive(Clone, Copy, PartialEq, Eq, Structural, Debug)]
pub enum Errors {
    /// A deposit of zero was asked for.
    ZeroDeposit,
    /// The account to be debited holds less than the amount.
    InsufficientBaseAssetBalance,
    /// A checked computation left the range of its type.
    MathOverflow,
    /// A mint has more decimals than the vault admits.
    MaxDecimalsExceeded,
    /// Shares are outstanding against zero recorded assets.
    DivideByZero,
    /// A relocation of zero was asked for.
    InvalidAmount,
    /// Deposits are paused.
    DepositPaused,
    /// Relocations are paused.
    AllocatePaused,
    /// The ticker is not a well-formed identifier.
    InvalidTicker,
    /// The caller is not the administrator of the vault.
    Unauthorized,
    /// An account handed in is not the one the vault record, or the
    /// derivation from it, names.
    AccountMismatch,
}

} // verus!
