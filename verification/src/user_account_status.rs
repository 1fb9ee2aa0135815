use vstd::prelude::*;

verus! {

/// Stage of a user's in-flight deposit. The only legal cycle is
/// `Ready -> BeginDeposit -> ProcessDeposit -> Ready`.
#[derive(Clone, Copy, Debug, PartialEq, Eq, Structural)]
pub enum UserAccountStatus {
    Ready,
    BeginDeposit,
    ProcessDeposit,
}

} // verus!
