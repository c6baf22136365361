//! Owner-authorised, replay-protected reward claims from a shared vault.
//!
//! One owner approves every claim. Each user has a record of what was paid
//! out, the ceiling granted so far and the number of claims committed; a
//! claim must carry the record's next number, stay within a ceiling that
//! never goes down, and is committed only once the transfer of the funds
//! has gone through.

pub mod account;
pub mod claim;
pub mod error;
pub mod guard;
pub mod key;
pub mod laws;
pub mod ledger;
