use vstd::prelude::*;

use crate::constants::LOCK_DURATION;
use crate::engine::{destake_outcome, stake_outcome};
use crate::state::{ledger_wf, ClockReading, ErrorCode, Holdings, Payout, StakeInfo};
use crate::units::scaled;

verus! {

/// Once a stake has been made, a second stake before any withdrawal is
/// refused as already staked, whatever its amount, precision or time; a
/// refused operation changes no balance.
pub proof fn lemma_second_stake_refused(
    info: StakeInfo,
    h: Holdings,
    amount: u64,
    decimals: u8,
    clock: ClockReading,
    amount2: u64,
    decimals2: u8,
    clock2: ClockReading,
)
    requires
        stake_outcome(info, h, amount, decimals, clock) is Ok,
    ensures
        ({
            let (i1, h1, q) = stake_outcome(info, h, amount, decimals, clock)->Ok_0;
            stake_outcome(i1, h1, amount2, decimals2, clock2) == Err::<
                (StakeInfo, Holdings, u64),
                ErrorCode,
            >(ErrorCode::IsStaked)
        }),
{
}

/// A participant without an active stake who stakes nothing is refused with
/// `NoTokens`.
pub proof fn lemma_zero_stake_refused(info: StakeInfo, h: Holdings, decimals: u8, clock: ClockReading)
    requires
        !info.is_staked,
    ensures
        stake_outcome(info, h, 0, decimals, clock) == Err::<(StakeInfo, Holdings, u64), ErrorCode>(
            ErrorCode::NoTokens,
        ),
{
}

/// A participant who has never staked cannot withdraw: `NotStaked`.
pub proof fn lemma_destake_before_any_stake(h: Holdings, decimals: u8, clock: ClockReading)
    ensures
        destake_outcome(
            (StakeInfo { stake_at_slot: 0, is_staked: false, lock_end_time: 0 }),
            h,
            decimals,
            clock,
        ) == Err::<(StakeInfo, Holdings, Payout), ErrorCode>(ErrorCode::NotStaked),
{
}

/// A withdrawal before the lock expires is refused with
/// `LockPeriodNotEnded`.
pub proof fn lemma_destake_while_locked(info: StakeInfo, h: Holdings, decimals: u8, clock: ClockReading)
    requires
        info.is_staked,
        clock.unix_timestamp < info.lock_end_time,
    ensures
        destake_outcome(info, h, decimals, clock) == Err::<(StakeInfo, Holdings, Payout), ErrorCode>(
            ErrorCode::LockPeriodNotEnded,
        ),
{
}

/// Staking and then, once the lock has expired, withdrawing pays the whole
/// principal back and adds the reward: the wallet ends with its first balance
/// plus whatever escrow held before plus the reward, escrow ends empty, and
/// the vault pays the reward. The reward is one whole token per slot elapsed
/// between the two calls. The withdrawal succeeds exactly when that reward is
/// representable, the vault covers it and the wallet's new balance fits;
/// otherwise it fails with `InsufficientFunds` or `ArithmeticOverflow`.
pub proof fn lemma_round_trip(
    info: StakeInfo,
    h: Holdings,
    amount: u64,
    decimals: u8,
    clock: ClockReading,
    later: ClockReading,
)
    requires
        stake_outcome(info, h, amount, decimals, clock) is Ok,
        later.unix_timestamp >= clock.unix_timestamp + LOCK_DURATION,
        later.slot >= clock.slot,
    ensures
        ({
            let (i1, h1, q) = stake_outcome(info, h, amount, decimals, clock)->Ok_0;
            let reward = scaled((later.slot - clock.slot) as u64, decimals);
            let ok = reward is Some && h.vault >= reward->Some_0 && h.wallet + h.escrow
                + reward->Some_0 <= u64::MAX;
            match destake_outcome(i1, h1, decimals, later) {
                Ok((i2, h2, p)) => {
                    &&& ok
                    &&& p.reward == reward->Some_0
                    &&& p.principal == h.escrow + q
                    &&& h2.wallet == h.wallet + h.escrow + p.reward
                    &&& h2.escrow == 0
                    &&& h2.vault == h.vault - p.reward
                    &&& !i2.is_staked
                },
                Err(e) => !ok && (e == ErrorCode::InsufficientFunds || e
                    == ErrorCode::ArithmeticOverflow),
            }
        }),
{
}

/// After a successful withdrawal the participant may stake again: the
/// stake is not refused as already staked, and it succeeds exactly when the
/// amount is positive, the new expiry and the scaled amount are representable
/// and the wallet covers it, recording the new slot and the new expiry.
pub proof fn lemma_restake_after_destake(
    info: StakeInfo,
    h: Holdings,
    decimals: u8,
    clock: ClockReading,
    amount: u64,
    decimals2: u8,
    clock2: ClockReading,
)
    requires
        destake_outcome(info, h, decimals, clock) is Ok,
    ensures
        ({
            let (i1, h1, p) = destake_outcome(info, h, decimals, clock)->Ok_0;
            let q = scaled(amount, decimals2);
            let ok = amount > 0 && clock2.unix_timestamp + LOCK_DURATION <= i64::MAX && q is Some
                && h1.wallet >= q->Some_0;
            match stake_outcome(i1, h1, amount, decimals2, clock2) {
                Ok((i2, h2, moved)) => {
                    &&& ok
                    &&& i2.is_staked
                    &&& i2.stake_at_slot == clock2.slot
                    &&& i2.lock_end_time == clock2.unix_timestamp + LOCK_DURATION
                    &&& moved == q->Some_0
                    &&& h2.escrow == moved
                },
                Err(e) => !ok && e != ErrorCode::IsStaked,
            }
        }),
{
}

/// Staking keeps the ledger's invariant, given a clock at or after the epoch.
pub proof fn lemma_stake_keeps_wf(
    info: StakeInfo,
    h: Holdings,
    amount: u64,
    decimals: u8,
    clock: ClockReading,
)
    requires
        ledger_wf(info, h),
        clock.unix_timestamp >= 0,
    ensures
        match stake_outcome(info, h, amount, decimals, clock) {
            Ok((i, h2, _)) => ledger_wf(i, h2),
            Err(_) => true,
        },
{
    crate::units::lemma_pow10_positive(decimals as nat);
    assert(amount > 0 ==> amount * crate::units::pow10(decimals as nat) >= 1) by (nonlinear_arith)
        requires
            crate::units::pow10(decimals as nat) >= 1,
    ;
}

/// Withdrawing keeps the ledger's invariant.
pub proof fn lemma_destake_keeps_wf(info: StakeInfo, h: Holdings, decimals: u8, clock: ClockReading)
    requires
        ledger_wf(info, h),
    ensures
        match destake_outcome(info, h, decimals, clock) {
            Ok((i, h2, _)) => ledger_wf(i, h2),
            Err(_) => true,
        },
{
}

} // verus!
