use vstd::prelude::*;

verus! {

/// One participant's stake ledger entry.
#[derive(Clone, Copy, Debug, PartialEq, Eq, Structural)]
pub struct StakeInfo {
    /// Slot at which the current stake began (or at which the last one ended).
    pub stake_at_slot: u64,
    /// Whether an active stake exists.
    pub is_staked: bool,
    /// Unix time from which withdrawal is allowed; zero while unstaked.
    pub lock_end_time: i64,
}

impl StakeInfo {
    /// The entry of a participant who has never staked: all fields zero.
    pub fn new() -> (r: StakeInfo)
        ensures
            r == (StakeInfo { stake_at_slot: 0, is_staked: false, lock_end_time: 0 }),
    {
        StakeInfo { stake_at_slot: 0, is_staked: false, lock_end_time: 0 }
    }
}

/// The host's clock as read at the start of an operation.
#[derive(Clone, Copy, Debug, PartialEq, Eq, Structural)]
pub struct ClockReading {
    /// Logical slot counter.
    pub slot: u64,
    /// Wall-clock time in seconds since the Unix epoch.
    pub unix_timestamp: i64,
}

/// Token balances, in base units, of the three accounts an operation touches.
#[derive(Clone, Copy, Debug, PartialEq, Eq, Structural)]
pub struct Holdings {
    /// The participant's own token account.
    pub wallet: u64,
    /// The participant's escrow account holding the locked principal.
    pub escrow: u64,
    /// The shared reward vault.
    pub vault: u64,
}

/// Amounts paid out to the participant's wallet by a withdrawal.
#[derive(Clone, Copy, Debug, PartialEq, Eq, Structural)]
pub struct Payout {
    /// Paid from the vault.
    pub reward: u64,
    /// Returned from escrow.
    pub principal: u64,
}

/// Why an operation was refused. A refused operation changes nothing.
#[derive(Clone, Copy, Debug, PartialEq, Eq, Structural)]
pub enum ErrorCode {
    /// A stake is already active.
    IsStaked,
    /// There is no active stake to withdraw.
    NotStaked,
    /// The amount to stake is zero.
    NoTokens,
    /// The lock period has not ended yet.
    LockPeriodNotEnded,
    /// A computation exceeded the range of its integer type.
    ArithmeticOverflow,
    /// The account to debit holds less than the transfer.
    InsufficientFunds,
}

impl ErrorCode {
    /// The message shown to a user for this error.
    pub fn message(&self) -> (r: &'static str)
        ensures
            *self == ErrorCode::IsStaked ==> r@ == "Token are already staked"@,
            *self == ErrorCode::NotStaked ==> r@ == "Token not staked"@,
            *self == ErrorCode::NoTokens ==> r@ == "No Token to stake"@,
            *self == ErrorCode::LockPeriodNotEnded ==> r@ == "Lock period has not ended yet"@,
            *self == ErrorCode::ArithmeticOverflow ==> r@ == "Arithmetic overflow"@,
            *self == ErrorCode::InsufficientFunds ==> r@ == "Insufficient funds"@,
    {
        match self {
            ErrorCode::IsStaked => "Token are already staked",
            ErrorCode::NotStaked => "Token not staked",
            ErrorCode::NoTokens => "No Token to stake",
            ErrorCode::LockPeriodNotEnded => "Lock period has not ended yet",
            ErrorCode::ArithmeticOverflow => "Arithmetic overflow",
            ErrorCode::InsufficientFunds => "Insufficient funds",
        }
    }
}

/// The ledger's invariant over one participant's entry and balances: an
/// active stake has a positive expiry and a positive escrow balance; an
/// inactive one has expiry zero.
pub open spec fn ledger_wf(info: StakeInfo, h: Holdings) -> bool {
    &&& info.is_staked ==> info.lock_end_time > 0 && h.escrow > 0
    &&& !info.is_staked ==> info.lock_end_time == 0
}

} // verus!
