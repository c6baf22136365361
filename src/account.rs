//! The per-user claim record and the rules a claim request must meet against it.
use vstd::prelude::*;

use crate::error::ClaimError;
use crate::key::Pubkey;

verus! {

/// One user's claim record: what was paid out so far, the ceiling the owner
/// has granted, and the number of claims committed.
#[derive(Clone, Copy, Debug)]
pub struct UserAccount {
    pub user_token_account: Pubkey,
    pub claimed_amount: u64,
    pub max_claimable_amount: u64,
    pub nonce: u64,
}

/// What a successful claim reports: the record's counters after the commit.
#[derive(Clone, Copy, Debug, PartialEq, Eq, Structural)]
pub struct ClaimReceipt {
    pub claimed_amount: u64,
    pub max_claimable_amount: u64,
    pub nonce: u64,
}

impl UserAccount {
    /// The record never lets the total paid out pass the ceiling.
    pub open spec fn wf(self) -> bool {
        self.claimed_amount <= self.max_claimable_amount
    }

    /// The record with `amount` more paid out, the ceiling set to
    /// `max_claimable_amount`, and one more claim counted.
    pub open spec fn committed(self, amount: u64, max_claimable_amount: u64) -> UserAccount {
        UserAccount {
            claimed_amount: (self.claimed_amount + amount) as u64,
            max_claimable_amount,
            nonce: (self.nonce + 1) as u64,
            ..self
        }
    }

    /// The receipt that reports this record's counters.
    pub open spec fn receipt_spec(self) -> ClaimReceipt {
        ClaimReceipt {
            claimed_amount: self.claimed_amount,
            max_claimable_amount: self.max_claimable_amount,
            nonce: self.nonce,
        }
    }

    /// The first rule that a request of `amount` under the ceiling
    /// `max_claimable_amount`, numbered `nonce`, breaks against this record.
    pub open spec fn request_check(self, amount: u64, max_claimable_amount: u64, nonce: u64) -> Result<(), ClaimError> {
        if amount == 0 {
            Err(ClaimError::InvalidAmount)
        } else if max_claimable_amount == 0 {
            Err(ClaimError::InvalidCeiling)
        } else if nonce != self.nonce + 1 {
            Err(ClaimError::StaleOrFutureNonce)
        } else if max_claimable_amount < self.max_claimable_amount {
            Err(ClaimError::CeilingDecreaseRejected)
        } else if self.claimed_amount + amount > max_claimable_amount {
            Err(ClaimError::ExceedsCeiling)
        } else {
            Ok(())
        }
    }

    /// A record with nothing claimed, no ceiling and no claim counted yet.
    pub fn new(user_token_account: Pubkey) -> (r: UserAccount)
        ensures
            r.user_token_account == user_token_account,
            r.claimed_amount == 0,
            r.max_claimable_amount == 0,
            r.nonce == 0,
            r.wf(),
    {
        UserAccount { user_token_account, claimed_amount: 0, max_claimable_amount: 0, nonce: 0 }
    }

    /// Checks a request against this record, reporting the first rule broken.
    pub fn validate(&self, amount: u64, max_claimable_amount: u64, nonce: u64) -> (r: Result<(), ClaimError>)
        ensures
            r == self.request_check(amount, max_claimable_amount, nonce),
    {
        if amount == 0 {
            Err(ClaimError::InvalidAmount)
        } else if max_claimable_amount == 0 {
            Err(ClaimError::InvalidCeiling)
        } else if self.nonce == u64::MAX || nonce != self.nonce + 1 {
            Err(ClaimError::StaleOrFutureNonce)
        } else if max_claimable_amount < self.max_claimable_amount {
            Err(ClaimError::CeilingDecreaseRejected)
        } else if amount > max_claimable_amount || self.claimed_amount > max_claimable_amount - amount {
            Err(ClaimError::ExceedsCeiling)
        } else {
            Ok(())
        }
    }

    /// Records a claim that passed `validate` and whose transfer went through.
    pub fn commit(&mut self, amount: u64, max_claimable_amount: u64)
        requires
            old(self).claimed_amount + amount <= max_claimable_amount,
            old(self).nonce < u64::MAX,
        ensures
            *final(self) == old(self).committed(amount, max_claimable_amount),
    {
        self.claimed_amount = self.claimed_amount + amount;
        self.max_claimable_amount = max_claimable_amount;
        self.nonce = self.nonce + 1;
    }

    /// The record's counters as a receipt.
    pub fn receipt(&self) -> (r: ClaimReceipt)
        ensures
            r == self.receipt_spec(),
    {
        ClaimReceipt {
            claimed_amount: self.claimed_amount,
            max_claimable_amount: self.max_claimable_amount,
            nonce: self.nonce,
        }
    }
}

} // verus!
