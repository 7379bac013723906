//! How an endorsement moves a reputation.
//!
//! A reputation is a score from 0 to 100. A profile starts at 50; each
//! endorsement received adds 2 and each endorsement withdrawn takes 2 away,
//! and the score stops at either end of the scale.

use vstd::prelude::*;

verus! {

/// The reputation of a new profile.
pub const BASE_REPUTATION: u8 = 50;

/// The highest reputation.
pub const MAX_REPUTATION: u8 = 100;

/// By how much one endorsement moves a reputation.
pub const ENDORSEMENT_WEIGHT: u8 = 2;

/// The reputation after an endorsement was received at `reputation`.
pub open spec fn raised(reputation: u8) -> u8 {
    if reputation + ENDORSEMENT_WEIGHT >= MAX_REPUTATION {
        MAX_REPUTATION
    } else {
        (reputation + ENDORSEMENT_WEIGHT) as u8
    }
}

/// The reputation after an endorsement was withdrawn at `reputation`.
pub open spec fn lowered(reputation: u8) -> u8 {
    if reputation >= ENDORSEMENT_WEIGHT {
        (reputation - ENDORSEMENT_WEIGHT) as u8
    } else {
        0
    }
}

/// A count after one more was received; the count stops at the top of `u32`.
pub open spec fn one_more(count: u32) -> u32 {
    if count < u32::MAX {
        (count + 1) as u32
    } else {
        count
    }
}

/// A count after one was withdrawn; the count stops at 0.
pub open spec fn one_less(count: u32) -> u32 {
    if count > 0 {
        (count - 1) as u32
    } else {
        0
    }
}

/// The reputation after an endorsement: 2 more, and 100 at most.
pub fn after_endorsement(reputation: u8) -> (next: u8)
    ensures
        next == raised(reputation),
        next <= MAX_REPUTATION,
{
    let sum: u8 = reputation.saturating_add(ENDORSEMENT_WEIGHT);
    if sum >= MAX_REPUTATION {
        MAX_REPUTATION
    } else {
        sum
    }
}

/// The reputation after a revocation: 2 less, and 0 at least.
pub fn after_revocation(reputation: u8) -> (next: u8)
    ensures
        next == lowered(reputation),
        next <= reputation,
{
    reputation.saturating_sub(ENDORSEMENT_WEIGHT)
}

/// Endorsing and revoking keep a reputation on the scale from 0 to 100:
/// at 100 an endorsement leaves it at 100, and at 0 or 1 a revocation leaves
/// it at 0.
pub proof fn lemma_reputation_stays_on_scale(reputation: u8)
    requires
        reputation <= MAX_REPUTATION,
    ensures
        0 <= raised(reputation) <= MAX_REPUTATION,
        0 <= lowered(reputation) <= MAX_REPUTATION,
        raised(MAX_REPUTATION) == MAX_REPUTATION,
        reputation <= 1 ==> lowered(reputation) == 0,
        reputation < MAX_REPUTATION - ENDORSEMENT_WEIGHT ==> lowered(raised(reputation))
            == reputation,
{
}

/// A count of endorsements never goes below 0: withdrawing one at 0 leaves
/// it at 0, and anywhere else takes exactly one away.
pub proof fn lemma_count_never_underflows(count: u32)
    ensures
        one_less(0) == 0,
        count > 0 ==> one_less(count) == count - 1,
        count < u32::MAX ==> one_less(one_more(count)) == count,
{
}

} // verus!
