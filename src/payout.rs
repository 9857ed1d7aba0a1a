use vstd::prelude::*;
use vstd::set_lib::{lemma_int_range, set_int_range};

use crate::error::SlotError;

verus! {

/// One stake unit: the smallest unit of value times 10^24.
pub const ONE_NEAR: u128 = 1_000_000_000_000_000_000_000_000;

/// What a winning play credits, in stake units.
pub const PAYOUT_MULTIPLIER: u128 = 10;

/// A play wins when its random byte is below this value, so one byte in two wins.
pub const WIN_THRESHOLD: u8 = 128;

/// Whether the random byte `r` makes a play a win.
pub open spec fn wins(r: u8) -> bool {
    r < WIN_THRESHOLD
}

/// The balance that one play leaves, from the balance before it and its random
/// byte: one stake unit is taken, and a win adds the payout. A balance below
/// one stake unit cannot play.
pub open spec fn resolve(prior: u128, r: u8) -> Result<u128, SlotError> {
    if prior < ONE_NEAR {
        Err(SlotError::InsufficientCredits)
    } else if !wins(r) {
        Ok((prior - ONE_NEAR) as u128)
    } else if prior - ONE_NEAR + PAYOUT_MULTIPLIER * ONE_NEAR > u128::MAX {
        Err(SlotError::Overflow)
    } else {
        Ok((prior - ONE_NEAR + PAYOUT_MULTIPLIER * ONE_NEAR) as u128)
    }
}

/// Decides one play: the balance after staking one unit of `prior` on the
/// random byte `r`.
pub fn resolve_play(prior: u128, r: u8) -> (res: Result<u128, SlotError>)
    ensures
        res == resolve(prior, r),
{
    if prior < ONE_NEAR {
        return Err(SlotError::InsufficientCredits);
    }
    let staked: u128 = prior - ONE_NEAR;
    if r >= WIN_THRESHOLD {
        return Ok(staked);
    }
    match staked.checked_add(PAYOUT_MULTIPLIER * ONE_NEAR) {
        Some(won) => Ok(won),
        None => Err(SlotError::Overflow),
    }
}

/// The transition is a function of the prior balance and the byte alone: two
/// plays from the same balance with the same byte end alike.
pub proof fn resolve_is_deterministic(prior: u128, r: u8, first: Result<u128, SlotError>, second: Result<u128, SlotError>)
    requires
        first == resolve(prior, r),
        second == resolve(prior, r),
    ensures
        first == second,
{
}

/// Of the 256 values that the random byte can take, exactly `WIN_THRESHOLD`
/// win, so a uniformly drawn byte wins with probability `WIN_THRESHOLD / 256`.
pub proof fn winning_bytes_count()
    ensures
        Set::new(|b: int| 0 <= b < 256).len() == 256,
        Set::new(|b: int| 0 <= b < 256 && wins(b as u8)).len() == WIN_THRESHOLD,
{
    lemma_int_range(0, 256);
    lemma_int_range(0, WIN_THRESHOLD as int);
    assert(Set::new(|b: int| 0 <= b < 256) == set_int_range(0, 256));
    assert(Set::new(|b: int| 0 <= b < 256 && wins(b as u8)) =~= set_int_range(0, WIN_THRESHOLD as int));
}

} // verus!
