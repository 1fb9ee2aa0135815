//! Per-user durable record of share ownership and in-flight deposit state.

use crate::address::Address;
use crate::error::ChamberError;
use crate::user_account_status::UserAccountStatus;
use vstd::prelude::*;

verus! {

/// One user's position in one chamber. The locked amounts are funds already
/// committed but not yet finalized during a multi-stage deposit; they are
/// zero whenever the record is `Ready`.
#[derive(Clone, Copy, Debug)]
pub struct UserAccount {
    /// The chamber this record belongs to.
    pub chamber: Address,
    /// The owning user.
    pub user: Address,
    /// The user's share-holding account.
    pub shares: Address,
    pub status: UserAccountStatus,
    pub locked_base_amount: u64,
    pub locked_quote_amount: u64,
    pub locked_shares_amount: u64,
}

impl UserAccount {
    /// A record at rest holds nothing in flight.
    pub open spec fn wf(self) -> bool {
        self.status is Ready ==> self.locked_base_amount == 0 && self.locked_quote_amount == 0
            && self.locked_shares_amount == 0
    }

    /// Fresh record: `Ready`, with nothing locked.
    pub fn init(&mut self, chamber: &Address, user: &Address, shares: &Address)
        ensures
            *final(self) == (UserAccount {
                chamber: *chamber,
                user: *user,
                shares: *shares,
                status: UserAccountStatus::Ready,
                locked_base_amount: 0u64,
                locked_quote_amount: 0u64,
                locked_shares_amount: 0u64,
            }),
            final(self).wf(),
    {
        self.chamber = *chamber;
        self.user = *user;
        self.shares = *shares;
        self.status = UserAccountStatus::Ready;
        self.locked_base_amount = 0;
        self.locked_quote_amount = 0;
        self.locked_shares_amount = 0;
    }

    /// The record after the first deposit stage parks its amounts.
    pub open spec fn spec_begin_deposit(self, b: u64, q: u64, s: u64) -> UserAccount {
        UserAccount {
            status: UserAccountStatus::BeginDeposit,
            locked_base_amount: b,
            locked_quote_amount: q,
            locked_shares_amount: s,
            ..self
        }
    }

    /// The record after the middle deposit stage advances it.
    pub open spec fn spec_process_deposit(self) -> UserAccount {
        UserAccount { status: UserAccountStatus::ProcessDeposit, ..self }
    }

    /// The record after the final deposit stage clears it.
    pub open spec fn spec_end_deposit(self) -> UserAccount {
        UserAccount {
            status: UserAccountStatus::Ready,
            locked_base_amount: 0u64,
            locked_quote_amount: 0u64,
            locked_shares_amount: 0u64,
            ..self
        }
    }

    /// Gate of every protocol stage: the record must stand in exactly the
    /// expected state, else `InvalidUserAccountStatus`.
    pub fn assert_status(&self, status: UserAccountStatus) -> (r: Result<(), ChamberError>)
        ensures
            self.status == status ==> r == Ok::<(), ChamberError>(()),
            self.status != status ==> r == Err::<(), ChamberError>(
                ChamberError::InvalidUserAccountStatus,
            ),
    {
        if self.status != status {
            Err(ChamberError::InvalidUserAccountStatus)
        } else {
            Ok(())
        }
    }

    /// Park the amounts committed by the first deposit stage and advance to
    /// `BeginDeposit`.
    pub fn begin_deposit(
        &mut self,
        locked_base_amount: u64,
        locked_quote_amount: u64,
        locked_shares_amount: u64,
    )
        ensures
            *final(self) == old(self).spec_begin_deposit(
                locked_base_amount,
                locked_quote_amount,
                locked_shares_amount,
            ),
    {
        self.status = UserAccountStatus::BeginDeposit;
        self.locked_base_amount = locked_base_amount;
        self.locked_quote_amount = locked_quote_amount;
        self.locked_shares_amount = locked_shares_amount;
    }

    /// Advance to `ProcessDeposit`; moves no locked amounts.
    pub fn process_deposit(&mut self)
        ensures
            *final(self) == old(self).spec_process_deposit(),
    {
        self.status = UserAccountStatus::ProcessDeposit;
    }

    /// Finish the deposit: clear everything in flight and return to `Ready`.
    pub fn end_deposit(&mut self)
        ensures
            *final(self) == old(self).spec_end_deposit(),
            final(self).wf(),
    {
        self.status = UserAccountStatus::Ready;
        self.locked_base_amount = 0;
        self.locked_quote_amount = 0;
        self.locked_shares_amount = 0;
    }
}

} // verus!
