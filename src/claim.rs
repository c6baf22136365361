//! Setting up the vault and processing a claim as one all-or-nothing step.
use vstd::prelude::*;

use crate::account::{ClaimReceipt, UserAccount};
use crate::error::{ClaimError, ClaimFailure};
use crate::guard::Config;
use crate::key::Pubkey;

verus! {

/// The outcome of the checks a claim goes through, in order: the authority
/// and fund type first, then the request against the record.
pub open spec fn claim_check(
    config: Config,
    owner: Pubkey,
    vault_mint: Pubkey,
    mint: Pubkey,
    user_account: UserAccount,
    amount: u64,
    max_claimable_amount: u64,
    nonce: u64,
) -> Result<(), ClaimError> {
    match config.authority_check(owner, vault_mint, mint) {
        Err(e) => Err(e),
        Ok(()) => user_account.request_check(amount, max_claimable_amount, nonce),
    }
}

/// The outcome of setting up the vault for `mint` on behalf of `owner`.
pub open spec fn initialize_check(config: Config, mint: Pubkey, owner: Pubkey) -> Result<(), ClaimError> {
    if mint.bytes@ != config.token_mint.bytes@ {
        Err(ClaimError::FundTypeMismatch)
    } else if owner.bytes@ != config.owner.bytes@ {
        Err(ClaimError::Unauthorized)
    } else {
        Ok(())
    }
}

/// Checks that the vault is being set up for the configured mint by the
/// configured owner.
pub fn initialize(config: &Config, mint: &Pubkey, owner: &Pubkey) -> (r: Result<(), ClaimError>)
    ensures
        r == initialize_check(*config, *mint, *owner),
{
    if !mint.eq(&config.token_mint) {
        Err(ClaimError::FundTypeMismatch)
    } else if !owner.eq(&config.owner) {
        Err(ClaimError::Unauthorized)
    } else {
        Ok(())
    }
}

/// Processes one claim of `amount` against `user_account`, approved by
/// `owner`, raising the user's ceiling to `max_claimable_amount` and
/// numbered `nonce`.
///
/// `transfer` moves `amount` from the vault to the user and is called only
/// once every check has passed: it need not be callable at all on a request
/// that is refused, so a refused claim moves no funds. The record changes only when the transfer
/// succeeds; on any failure it is left exactly as it was.
pub fn claim_reward_with_permission<E, F: FnOnce(u64) -> Result<(), E>>(
    config: &Config,
    owner: &Pubkey,
    vault_mint: &Pubkey,
    mint: &Pubkey,
    user_account: &mut UserAccount,
    amount: u64,
    max_claimable_amount: u64,
    nonce: u64,
    transfer: F,
) -> (r: Result<ClaimReceipt, ClaimFailure<E>>)
    requires
        claim_check(*config, *owner, *vault_mint, *mint, *old(user_account), amount, max_claimable_amount, nonce) is Ok
            ==> transfer.requires((amount,)),
    ensures
        match claim_check(*config, *owner, *vault_mint, *mint, *old(user_account), amount, max_claimable_amount, nonce) {
            Err(e) => r == Err::<ClaimReceipt, ClaimFailure<E>>(ClaimFailure::Rejected(e))
                && *final(user_account) == *old(user_account),
            Ok(()) => match r {
                Ok(receipt) => transfer.ensures((amount,), Ok::<(), E>(()))
                    && *final(user_account) == old(user_account).committed(amount, max_claimable_amount)
                    && receipt == final(user_account).receipt_spec(),
                Err(ClaimFailure::TransferFailure(te)) => transfer.ensures((amount,), Err(te))
                    && *final(user_account) == *old(user_account),
                Err(ClaimFailure::Rejected(_)) => false,
            },
        },
        old(user_account).wf() ==> final(user_account).wf(),
{
    match config.check(owner, vault_mint, mint) {
        Err(e) => return Err(ClaimFailure::Rejected(e)),
        Ok(()) => {},
    }
    match user_account.validate(amount, max_claimable_amount, nonce) {
        Err(e) => return Err(ClaimFailure::Rejected(e)),
        Ok(()) => {},
    }
    let outcome = transfer(amount);
    match outcome {
        Err(te) => Err(ClaimFailure::TransferFailure(te)),
        Ok(u) => {
            assert(u == ());
            user_account.commit(amount, max_claimable_amount);
            Ok(user_account.receipt())
        },
    }
}

} // verus!
