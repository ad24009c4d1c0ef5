use vstd::prelude::*;

verus! {

/// Every way an operation of the ledger can fail.  Each failure aborts the
/// whole operation with no state change.
#[derive(Clone, Copy, Debug, PartialEq, Eq, Structural)]
pub enum ErrorCode {
    /// The signer is neither the user nor the configured admin.
    UnauthorizedLogger,
    /// A trade amount of zero was supplied.
    InvalidAmount,
    /// A token identifier is absent from the whitelist.
    InvalidToken,
    /// The target (config, user ledger, or record address) already exists.
    AlreadyExists,
    /// The whitelist handed to configuration is larger than the bound.
    CapacityExceeded,
    /// The user's trade counter is at its maximum representable value.
    Overflow,
}

} // verus!
