use vstd::prelude::*;

verus! {

/// Seconds a stake stays locked: ten years of 365 days.
pub const LOCK_DURATION: i64 = 10 * 365 * 24 * 60 * 60;

/// Seed naming the shared reward vault: the bytes of `"vault"`.
pub const VAULT_SEED: [u8; 5] = [118, 97, 117, 108, 116];

/// Seed naming a participant's ledger entry: the bytes of `"stake_info"`.
pub const STAKE_INFO_SEED: [u8; 10] = [115, 116, 97, 107, 101, 95, 105, 110, 102, 111];

/// Seed naming a participant's escrow account: the bytes of `"token"`.
pub const TOKEN_SEED: [u8; 5] = [116, 111, 107, 101, 110];

} // verus!
