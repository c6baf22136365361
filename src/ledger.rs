//! The store of claim records, one per user, created on a user's first claim.
use vstd::map::*;
use vstd::prelude::*;

use crate::account::{ClaimReceipt, UserAccount};
use crate::claim::{claim_check, claim_reward_with_permission};
use crate::error::{ClaimError, ClaimFailure};
use crate::guard::Config;
use crate::key::Pubkey;

verus! {

/// Claim records keyed by the user's identity.
pub struct Ledger {
    entries: Vec<(Pubkey, UserAccount)>,
}

impl Ledger {
    /// Each user's record, keyed by the user's identity bytes.
    pub closed spec fn view(&self) -> Map<Seq<u8>, UserAccount> {
        Map::new(
            |k: Seq<u8>| exists|i: int| 0 <= i < self.entries@.len() && self.entries@[i].0.bytes@ == k,
            |k: Seq<u8>|
                self.entries@[choose|i: int| 0 <= i < self.entries@.len() && self.entries@[i].0.bytes@ == k].1,
        )
    }

    /// No user has two records, and every record is within its ceiling.
    pub closed spec fn wf(&self) -> bool {
        &&& forall|i: int, j: int|
            0 <= i < j < self.entries@.len() ==> #[trigger] self.entries@[i].0.bytes@
                != #[trigger] self.entries@[j].0.bytes@
        &&& forall|i: int| 0 <= i < self.entries@.len() ==> (#[trigger] self.entries@[i]).1.wf()
    }

    /// The record that a claim by `user` starts from: the stored one, or a
    /// fresh one for `user_token_account` where the user has none yet.
    pub open spec fn record_or_fresh(&self, user: Pubkey, user_token_account: Pubkey) -> UserAccount {
        if self@.contains_key(user.bytes@) {
            self@[user.bytes@]
        } else {
            UserAccount { user_token_account, claimed_amount: 0, max_claimable_amount: 0, nonce: 0 }
        }
    }

    proof fn lemma_entry(&self, i: int)
        requires
            self.wf(),
            0 <= i < self.entries@.len(),
        ensures
            self@.contains_key(self.entries@[i].0.bytes@),
            self@[self.entries@[i].0.bytes@] == self.entries@[i].1,
    {
        let k = self.entries@[i].0.bytes@;
        assert(self@.dom().contains(k));
        let j = choose|j: int| 0 <= j < self.entries@.len() && self.entries@[j].0.bytes@ == k;
        if j < i {
            assert(self.entries@[j].0.bytes@ != self.entries@[i].0.bytes@);
        } else if i < j {
            assert(self.entries@[i].0.bytes@ != self.entries@[j].0.bytes@);
        }
    }

    /// Storing `rec` under `user` at position `i`, over the user's own entry
    /// or at the end where the user has none, inserts it into the view.
    proof fn lemma_put(before: Ledger, after: Ledger, i: int, user: Pubkey, rec: UserAccount)
        requires
            before.wf(),
            rec.wf(),
            0 <= i <= before.entries@.len(),
            i < before.entries@.len() ==> before.entries@[i].0.bytes@ == user.bytes@,
            i == before.entries@.len() ==> !before@.contains_key(user.bytes@),
            after.entries@ == (if i < before.entries@.len() {
                before.entries@.update(i, (user, rec))
            } else {
                before.entries@.push((user, rec))
            }),
        ensures
            after.wf(),
            after@ == before@.insert(user.bytes@, rec),
    {
        let n = before.entries@.len() as int;
        assert forall|a: int, b: int|
            0 <= a < b < after.entries@.len() implies #[trigger] after.entries@[a].0.bytes@
                != #[trigger] after.entries@[b].0.bytes@ by {
            if b < n {
                assert(before.entries@[a].0.bytes@ != before.entries@[b].0.bytes@);
                if a == i {
                    assert(before.entries@[i].0.bytes@ != before.entries@[b].0.bytes@);
                } else if b == i {
                    assert(before.entries@[a].0.bytes@ != before.entries@[i].0.bytes@);
                }
            } else {
                before.lemma_entry(a);
            }
        }
        assert(after.wf());
        assert_maps_equal!(after@, before@.insert(user.bytes@, rec), k => {
            if k == user.bytes@ {
                after.lemma_entry(i);
            } else if before@.contains_key(k) {
                let j = choose|j: int| 0 <= j < before.entries@.len() && before.entries@[j].0.bytes@ == k;
                before.lemma_entry(j);
                after.lemma_entry(j);
            } else if after@.contains_key(k) {
                let j = choose|j: int| 0 <= j < after.entries@.len() && after.entries@[j].0.bytes@ == k;
                assert(before.entries@[j].0.bytes@ == k);
            }
        });
    }

    /// An empty store.
    pub fn new() -> (r: Ledger)
        ensures
            r.wf(),
            r@ == Map::<Seq<u8>, UserAccount>::empty(),
    {
        let r = Ledger { entries: Vec::new() };
        assert(r@ =~= Map::<Seq<u8>, UserAccount>::empty());
        r
    }

    /// Where `user`'s record stands, if the user has one.
    fn find(&self, user: &Pubkey) -> (r: Option<usize>)
        requires
            self.wf(),
        ensures
            match r {
                Some(i) => i < self.entries@.len() && self.entries@[i as int].0.bytes@ == user.bytes@,
                None => !self@.contains_key(user.bytes@),
            },
    {
        let mut i: usize = 0;
        while i < self.entries.len()
            invariant
                0 <= i <= self.entries@.len(),
                forall|j: int| 0 <= j < i ==> self.entries@[j].0.bytes@ != user.bytes@,
            decreases self.entries@.len() - i,
        {
            if self.entries[i].0.eq(user) {
                return Some(i);
            }
            i = i + 1;
        }
        None
    }

    /// `user`'s record, if the user has one.
    pub fn get(&self, user: &Pubkey) -> (r: Option<UserAccount>)
        requires
            self.wf(),
        ensures
            r == (if self@.contains_key(user.bytes@) {
                Some(self@[user.bytes@])
            } else {
                None
            }),
    {
        match self.find(user) {
            Some(i) => {
                proof {
                    self.lemma_entry(i as int);
                }
                Some(self.entries[i].1)
            },
            None => None,
        }
    }

    /// `user`'s record, created first with nothing claimed and no ceiling,
    /// for `user_token_account`, where the user has none yet.
    pub fn get_or_create(&mut self, user: &Pubkey, user_token_account: &Pubkey) -> (r: UserAccount)
        requires
            old(self).wf(),
        ensures
            final(self).wf(),
            r == old(self).record_or_fresh(*user, *user_token_account),
            final(self)@ == old(self)@.insert(user.bytes@, r),
    {
        match self.find(user) {
            Some(i) => {
                proof {
                    self.lemma_entry(i as int);
                    assert(self@.insert(user.bytes@, self.entries@[i as int].1) =~= self@);
                }
                self.entries[i].1
            },
            None => {
                let rec = UserAccount::new(*user_token_account);
                let ghost before = *self;
                self.entries.push((*user, rec));
                proof {
                    Ledger::lemma_put(before, *self, before.entries@.len() as int, *user, rec);
                }
                rec
            },
        }
    }

    /// Processes one claim by `user` as `claim_reward_with_permission` does,
    /// starting from the user's record, or from a fresh one for
    /// `user_token_account` on the user's first claim. The store changes
    /// only when the claim goes through; the record is then stored under
    /// `user`. As there, `transfer` need only be callable, and is only
    /// called, on a request that passes every check.
    pub fn claim<E, F: FnOnce(u64) -> Result<(), E>>(
        &mut self,
        config: &Config,
        owner: &Pubkey,
        user: &Pubkey,
        user_token_account: &Pubkey,
        vault_mint: &Pubkey,
        mint: &Pubkey,
        amount: u64,
        max_claimable_amount: u64,
        nonce: u64,
        transfer: F,
    ) -> (r: Result<ClaimReceipt, ClaimFailure<E>>)
        requires
            old(self).wf(),
            claim_check(*config, *owner, *vault_mint, *mint,
                old(self).record_or_fresh(*user, *user_token_account), amount, max_claimable_amount, nonce) is Ok
                ==> transfer.requires((amount,)),
        ensures
            final(self).wf(),
            match claim_check(*config, *owner, *vault_mint, *mint,
                old(self).record_or_fresh(*user, *user_token_account), amount, max_claimable_amount, nonce) {
                Err(e) => r == Err::<ClaimReceipt, ClaimFailure<E>>(ClaimFailure::Rejected(e))
                    && final(self)@ == old(self)@,
                Ok(()) => match r {
                    Ok(receipt) => transfer.ensures((amount,), Ok::<(), E>(()))
                        && final(self)@ == old(self)@.insert(user.bytes@,
                            old(self).record_or_fresh(*user, *user_token_account).committed(amount, max_claimable_amount))
                        && receipt == final(self)@[user.bytes@].receipt_spec(),
                    Err(ClaimFailure::TransferFailure(te)) => transfer.ensures((amount,), Err(te))
                        && final(self)@ == old(self)@,
                    Err(ClaimFailure::Rejected(_)) => false,
                },
            },
    {
        let found = self.find(user);
        let mut rec = match found {
            Some(i) => self.entries[i].1,
            None => UserAccount::new(*user_token_account),
        };
        proof {
            if let Some(i) = found {
                self.lemma_entry(i as int);
            }
        }
        let r = claim_reward_with_permission(config, owner, vault_mint, mint, &mut rec, amount,
            max_claimable_amount, nonce, transfer);
        if r.is_ok() {
            let ghost before = *self;
            match found {
                Some(i) => {
                    self.entries[i] = (*user, rec);
                },
                None => {
                    self.entries.push((*user, rec));
                },
            }
            proof {
                let i = match found {
                    Some(i) => i as int,
                    None => before.entries@.len() as int,
                };
                Ledger::lemma_put(before, *self, i, *user, rec);
            }
        }
        r
    }
}

} // verus!
