//! The deployment's fixed configuration and the checks made against it.
use vstd::prelude::*;

use crate::error::ClaimError;
use crate::key::Pubkey;

verus! {

/// The one owner that approves claims and the one mint the vault holds.
/// Both are fixed for a deployment.
#[derive(Clone, Copy, Debug)]
pub struct Config {
    pub owner: Pubkey,
    pub token_mint: Pubkey,
}

impl Config {
    /// The configuration of a deployment owned by `owner` and holding `token_mint`.
    pub fn new(owner: Pubkey, token_mint: Pubkey) -> (r: Config)
        ensures
            r.owner == owner,
            r.token_mint == token_mint,
    {
        Config { owner, token_mint }
    }

    /// The outcome of checking an acting authority, the vault's mint and the
    /// mint account handed in against this configuration.
    pub open spec fn authority_check(self, acting: Pubkey, vault_mint: Pubkey, mint: Pubkey) -> Result<(), ClaimError> {
        if acting.bytes@ != self.owner.bytes@ {
            Err(ClaimError::Unauthorized)
        } else if vault_mint.bytes@ != self.token_mint.bytes@ || mint.bytes@ != self.token_mint.bytes@ {
            Err(ClaimError::FundTypeMismatch)
        } else {
            Ok(())
        }
    }

    /// Checks that `acting` is the owner and that both the vault's mint and
    /// the mint account are the configured fund type.
    pub fn check(&self, acting: &Pubkey, vault_mint: &Pubkey, mint: &Pubkey) -> (r: Result<(), ClaimError>)
        ensures
            r == self.authority_check(*acting, *vault_mint, *mint),
    {
        if !acting.eq(&self.owner) {
            Err(ClaimError::Unauthorized)
        } else if !vault_mint.eq(&self.token_mint) || !mint.eq(&self.token_mint) {
            Err(ClaimError::FundTypeMismatch)
        } else {
            Ok(())
        }
    }
}

} // verus!
