//! What holds of every claim and of every run of claims against one record.
use vstd::prelude::*;

use crate::account::UserAccount;
use crate::claim::claim_check;
use crate::error::ClaimError;
use crate::guard::Config;
use crate::key::Pubkey;

verus! {

/// A claim request as it reaches a record: the acting authority, the vault's
/// mint, the mint account, the amount, the new ceiling and the number.
pub type Request = (Pubkey, Pubkey, Pubkey, u64, u64, u64);

/// Whether `q` passes every check against `rec`.
pub open spec fn accepted(config: Config, rec: UserAccount, q: Request) -> bool {
    claim_check(config, q.0, q.1, q.2, rec, q.3, q.4, q.5) is Ok
}

/// The record after the requests `reqs` were processed in order, each one
/// that passes its checks being committed and every other one left out.
pub open spec fn after_claims(config: Config, rec: UserAccount, reqs: Seq<Request>) -> UserAccount
    decreases reqs.len(),
{
    if reqs.len() == 0 {
        rec
    } else {
        let prev = after_claims(config, rec, reqs.drop_last());
        let q = reqs.last();
        if accepted(config, prev, q) {
            prev.committed(q.3, q.4)
        } else {
            prev
        }
    }
}

/// How many of the requests `reqs`, processed in order, were committed.
pub open spec fn accepted_count(config: Config, rec: UserAccount, reqs: Seq<Request>) -> nat
    decreases reqs.len(),
{
    if reqs.len() == 0 {
        0
    } else {
        let prev = after_claims(config, rec, reqs.drop_last());
        accepted_count(config, rec, reqs.drop_last()) + if accepted(config, prev, reqs.last()) {
            1nat
        } else {
            0nat
        }
    }
}

/// Each committed claim raises the nonce by exactly one, never lowers the
/// ceiling and never lowers the total paid out.
pub proof fn lemma_claim_advances(config: Config, rec: UserAccount, q: Request)
    requires
        accepted(config, rec, q),
    ensures
        rec.committed(q.3, q.4).nonce == rec.nonce + 1,
        rec.committed(q.3, q.4).max_claimable_amount >= rec.max_claimable_amount,
        rec.committed(q.3, q.4).claimed_amount == rec.claimed_amount + q.3,
        rec.committed(q.3, q.4).user_token_account == rec.user_token_account,
{
}

/// Over any run of requests, the nonce ends up raised by the number of
/// committed claims, the ceiling and the total paid out never go down, and a
/// record whose total paid out is within its ceiling stays so.
pub proof fn lemma_run_of_claims(config: Config, rec: UserAccount, reqs: Seq<Request>)
    ensures
        after_claims(config, rec, reqs).nonce == rec.nonce + accepted_count(config, rec, reqs),
        after_claims(config, rec, reqs).max_claimable_amount >= rec.max_claimable_amount,
        after_claims(config, rec, reqs).claimed_amount >= rec.claimed_amount,
        rec.wf() ==> after_claims(config, rec, reqs).wf(),
    decreases reqs.len(),
{
    if reqs.len() > 0 {
        lemma_run_of_claims(config, rec, reqs.drop_last());
    }
}

/// A committed claim leaves the record within its ceiling.
pub proof fn lemma_ceiling_safety(config: Config, rec: UserAccount, q: Request)
    requires
        accepted(config, rec, q),
    ensures
        rec.committed(q.3, q.4).wf(),
{
}

/// Once a claim numbered `q.5` was committed, any request that carries the
/// same number again, from the owner, for the configured fund type, with a
/// non-zero amount and ceiling, is refused as stale.
pub proof fn lemma_replay_rejected(config: Config, rec: UserAccount, q: Request, again: Request)
    requires
        accepted(config, rec, q),
        config.authority_check(again.0, again.1, again.2) is Ok,
        again.3 > 0,
        again.4 > 0,
        again.5 == q.5,
    ensures
        claim_check(config, again.0, again.1, again.2, rec.committed(q.3, q.4), again.3, again.4, again.5)
            == Err::<(), ClaimError>(ClaimError::StaleOrFutureNonce),
{
}

/// A request from the owner, for the configured fund type, with a non-zero
/// amount and ceiling, that carries a number the record has already used
/// (any number up to its count of committed claims) is refused as stale.
pub proof fn lemma_used_nonce_rejected(config: Config, rec: UserAccount, q: Request)
    requires
        config.authority_check(q.0, q.1, q.2) is Ok,
        q.3 > 0,
        q.4 > 0,
        q.5 <= rec.nonce,
    ensures
        claim_check(config, q.0, q.1, q.2, rec, q.3, q.4, q.5) == Err::<(), ClaimError>(ClaimError::StaleOrFutureNonce),
{
}

/// A request whose acting authority is not the configured owner is refused
/// as unauthorised, whatever else it carries.
pub proof fn lemma_foreign_signer_rejected(config: Config, rec: UserAccount, q: Request)
    requires
        q.0.bytes@ != config.owner.bytes@,
    ensures
        claim_check(config, q.0, q.1, q.2, rec, q.3, q.4, q.5) == Err::<(), ClaimError>(ClaimError::Unauthorized),
{
}

} // verus!
