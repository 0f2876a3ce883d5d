use vstd::prelude::*;

verus! {

/// The program's own refusals, each named after what was wrong.
#[derive(Clone, Copy, Debug, PartialEq, Eq, Structural)]
pub enum ErrorCode {
    /// The approval account is not owned by the network authority.
    InvalidAuthOwner,
    /// The group does not match.
    InvalidGroup,
    /// The mint does not match, or the signer is not its manager.
    InvalidMint,
    /// The two accounts name different network authorities.
    InvalidNetAuth,
    /// The network authority's approval is not active.
    InactiveApproval,
    /// The sending account holds fewer tokens than the amount.
    InsufficientTokens,
    /// A frozen account cannot send or receive tokens.
    AccountFrozen,
    /// The signer may not perform this action.
    AccessDenied,
    /// An amount would leave the range of a `u64`.
    Overflow,
}

/// Why an instruction was refused.
#[derive(Clone, Copy, Debug, PartialEq, Eq, Structural)]
pub enum TokenError {
    /// One of the program's own refusals.
    Program(ErrorCode),
    /// Two keys that must be equal differ (a check that names no code of its own).
    RequireKeysEqViolated,
    /// The approval account's data could not be read as a group approval;
    /// the loader's program error code is carried along.
    ApprovalUnreadable(u64),
    /// The new account's data does not fit in the space reserved for it.
    AccountDidNotSerialize,
    /// The token account to be created exists already.
    AccountAlreadyInitialized,
    /// The token account to be closed still holds tokens.
    AccountNotEmpty,
}

} // verus!
