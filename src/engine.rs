use vstd::prelude::*;

use crate::constants::LOCK_DURATION;
use crate::state::{ClockReading, ErrorCode, Holdings, Payout, StakeInfo};
use crate::units::{scale_to_base_units, scaled};

verus! {

/// The effect of `stake`: the new entry, the new balances and the quantity
/// moved from wallet to escrow, or the reason for refusal.
pub open spec fn stake_outcome(
    info: StakeInfo,
    h: Holdings,
    amount: u64,
    decimals: u8,
    clock: ClockReading,
) -> Result<(StakeInfo, Holdings, u64), ErrorCode> {
    if info.is_staked {
        Err(ErrorCode::IsStaked)
    } else if amount == 0 {
        Err(ErrorCode::NoTokens)
    } else if clock.unix_timestamp + LOCK_DURATION > i64::MAX {
        Err(ErrorCode::ArithmeticOverflow)
    } else {
        match scaled(amount, decimals) {
            None => Err(ErrorCode::ArithmeticOverflow),
            Some(q) => if h.wallet < q {
                Err(ErrorCode::InsufficientFunds)
            } else if h.escrow + q > u64::MAX {
                Err(ErrorCode::ArithmeticOverflow)
            } else {
                Ok(
                    (
                        StakeInfo {
                            stake_at_slot: clock.slot,
                            is_staked: true,
                            lock_end_time: (clock.unix_timestamp + LOCK_DURATION) as i64,
                        },
                        Holdings {
                            wallet: (h.wallet - q) as u64,
                            escrow: (h.escrow + q) as u64,
                            vault: h.vault,
                        },
                        q,
                    ),
                )
            },
        }
    }
}

/// The effect of `destake`: the new entry, the new balances and what was
/// paid out, or the reason for refusal.
pub open spec fn destake_outcome(
    info: StakeInfo,
    h: Holdings,
    decimals: u8,
    clock: ClockReading,
) -> Result<(StakeInfo, Holdings, Payout), ErrorCode> {
    if !info.is_staked {
        Err(ErrorCode::NotStaked)
    } else if clock.unix_timestamp < info.lock_end_time {
        Err(ErrorCode::LockPeriodNotEnded)
    } else if clock.slot < info.stake_at_slot {
        Err(ErrorCode::ArithmeticOverflow)
    } else {
        match scaled((clock.slot - info.stake_at_slot) as u64, decimals) {
            None => Err(ErrorCode::ArithmeticOverflow),
            Some(reward) => if h.vault < reward {
                Err(ErrorCode::InsufficientFunds)
            } else if h.wallet + reward + h.escrow > u64::MAX {
                Err(ErrorCode::ArithmeticOverflow)
            } else {
                Ok(
                    (
                        StakeInfo { stake_at_slot: clock.slot, is_staked: false, lock_end_time: 0 },
                        Holdings {
                            wallet: (h.wallet + reward + h.escrow) as u64,
                            escrow: 0,
                            vault: (h.vault - reward) as u64,
                        },
                        Payout { reward, principal: h.escrow },
                    ),
                )
            },
        }
    }
}

/// Locks `amount` whole tokens of a mint with `decimals` digits of precision:
/// records the stake and moves the amount in base units from the wallet to
/// escrow. Returns the quantity moved. On refusal nothing changes.
pub fn stake(
    info: &mut StakeInfo,
    holdings: &mut Holdings,
    amount: u64,
    decimals: u8,
    clock: ClockReading,
) -> (r: Result<u64, ErrorCode>)
    ensures
        old(info).is_staked ==> r == Err::<u64, ErrorCode>(ErrorCode::IsStaked),
        !old(info).is_staked && amount == 0 ==> r == Err::<u64, ErrorCode>(ErrorCode::NoTokens),
        r is Err ==> *final(info) == *old(info) && *final(holdings) == *old(holdings),
        match stake_outcome(*old(info), *old(holdings), amount, decimals, clock) {
            Ok((i, h, q)) => r == Ok::<u64, ErrorCode>(q) && *final(info) == i && *final(holdings) == h,
            Err(e) => r == Err::<u64, ErrorCode>(e),
        },
{
    if info.is_staked {
        return Err(ErrorCode::IsStaked);
    }
    if amount == 0 {
        return Err(ErrorCode::NoTokens);
    }
    let lock_end_time = match clock.unix_timestamp.checked_add(LOCK_DURATION) {
        Some(t) => t,
        None => return Err(ErrorCode::ArithmeticOverflow),
    };
    let quantity = match scale_to_base_units(amount, decimals) {
        Some(q) => q,
        None => return Err(ErrorCode::ArithmeticOverflow),
    };
    if holdings.wallet < quantity {
        return Err(ErrorCode::InsufficientFunds);
    }
    let escrow = match holdings.escrow.checked_add(quantity) {
        Some(e) => e,
        None => return Err(ErrorCode::ArithmeticOverflow),
    };
    holdings.wallet = holdings.wallet - quantity;
    holdings.escrow = escrow;
    info.stake_at_slot = clock.slot;
    info.is_staked = true;
    info.lock_end_time = lock_end_time;
    Ok(quantity)
}

/// Ends an expired stake: pays the reward for the elapsed slots from the
/// vault, returns the whole escrow balance, and clears the entry. The reward
/// is one whole token per elapsed slot, whatever the principal. On refusal
/// nothing changes.
pub fn destake(
    info: &mut StakeInfo,
    holdings: &mut Holdings,
    decimals: u8,
    clock: ClockReading,
) -> (r: Result<Payout, ErrorCode>)
    ensures
        !old(info).is_staked ==> r == Err::<Payout, ErrorCode>(ErrorCode::NotStaked),
        old(info).is_staked && clock.unix_timestamp < old(info).lock_end_time ==> r == Err::<
            Payout,
            ErrorCode,
        >(ErrorCode::LockPeriodNotEnded),
        r is Err ==> *final(info) == *old(info) && *final(holdings) == *old(holdings),
        match destake_outcome(*old(info), *old(holdings), decimals, clock) {
            Ok((i, h, p)) => r == Ok::<Payout, ErrorCode>(p) && *final(info) == i && *final(holdings) == h,
            Err(e) => r == Err::<Payout, ErrorCode>(e),
        },
{
    if !info.is_staked {
        return Err(ErrorCode::NotStaked);
    }
    if clock.unix_timestamp < info.lock_end_time {
        return Err(ErrorCode::LockPeriodNotEnded);
    }
    let slots_passed = match clock.slot.checked_sub(info.stake_at_slot) {
        Some(s) => s,
        None => return Err(ErrorCode::ArithmeticOverflow),
    };
    let reward = match scale_to_base_units(slots_passed, decimals) {
        Some(q) => q,
        None => return Err(ErrorCode::ArithmeticOverflow),
    };
    if holdings.vault < reward {
        return Err(ErrorCode::InsufficientFunds);
    }
    let with_reward = match holdings.wallet.checked_add(reward) {
        Some(w) => w,
        None => return Err(ErrorCode::ArithmeticOverflow),
    };
    let principal = holdings.escrow;
    let wallet = match with_reward.checked_add(principal) {
        Some(w) => w,
        None => return Err(ErrorCode::ArithmeticOverflow),
    };
    holdings.vault = holdings.vault - reward;
    holdings.wallet = wallet;
    holdings.escrow = 0;
    info.is_staked = false;
    info.stake_at_slot = clock.slot;
    info.lock_end_time = 0;
    Ok(Payout { reward, principal })
}

} // verus!
