use vstd::prelude::*;

verus! {

/// Every failure the vault can report. Each fallible step returns the first
/// error it meets; nothing is logged and retried internally.
#[derive(Clone, Copy, Debug, PartialEq, Eq, Structural)]
pub enum ChamberError {
    /// An external call could not be constructed: the operation identifier
    /// did not resolve to a callable target.
    CpiInstructionFormationFailed,
    /// A deposit-protocol stage was requested from the wrong user-record state.
    InvalidUserAccountStatus,
    /// A zero-value deposit or withdrawal was requested.
    InsufficientFunds,
    /// A checked arithmetic step exceeded the representable range.
    MathOverflow,
}

} // verus!
