//! Sharing money out over holdings without visiting the holders.
//!
//! An accumulator carries everything ever paid in per unit held, scaled by
//! [`SCALE`]. A holder's position records what the accumulator was worth
//! against their holding when it was last settled; what they have earned since
//! is the growth. What a payment leaves over when it is divided is carried, in
//! scaled units, into the next.
//!
//! A position is recorded in whole units. When a holding changes, the fraction of
//! a unit that its new record leaves uncounted is taken out of the carry, and the
//! fraction that its old record left uncounted is put back. So the carry may fall
//! below nothing, and then the payments that follow make it good before they are
//! shared out. Nobody is ever owed what was not paid in.

use crate::arith::{fits, quotient, remainder};
use vstd::arithmetic::div_mod::lemma_fundamental_div_mod;
use vstd::prelude::*;

verus! {

/// Fixed-point scale of the accumulator.
pub const SCALE: i128 = 1_000_000_000_000;

/// What the accumulator `acc` is worth against `holding`.
pub open spec fn entitled(holding: int, acc: int) -> int {
    quotient(holding * acc, SCALE as int)
}

/// What a position has earned and not been paid.
pub open spec fn owed(holding: int, debt: int, credited: int, acc: int) -> int {
    credited + (entitled(holding, acc) - debt)
}

/// A position's worth in scaled units: what it has earned and not been paid, and
/// the fraction of a unit it has earned besides.
pub open spec fn worth(holding: int, debt: int, credited: int, acc: int) -> int {
    holding * acc + SCALE * (credited - debt)
}

/// The fraction of a unit, in scaled units, that `holding` has earned.
pub open spec fn fraction(holding: int, acc: int) -> int {
    remainder(holding * acc, SCALE as int)
}

/// Whether settling stays within an `i128` at every step.
pub open spec fn settle_fits(holding: int, debt: int, credited: int, acc: int) -> bool {
    &&& fits(holding * acc)
    &&& fits(entitled(holding, acc) - debt)
    &&& fits(owed(holding, debt, credited, acc))
}

/// A payment and the carry, in scaled units.
pub open spec fn scaled(amount: int, carry: int) -> int {
    amount * SCALE + carry
}

/// The accumulator once `amount` is shared out over `holdings`. A payment that does
/// not make the carry good reaches nobody yet.
pub open spec fn grown(amount: int, carry: int, acc: int, holdings: int) -> int {
    if scaled(amount, carry) < 0 {
        acc
    } else {
        acc + scaled(amount, carry) / holdings
    }
}

/// The carry once `amount` is shared out over `holdings`.
pub open spec fn left_over(amount: int, carry: int, holdings: int) -> int {
    if scaled(amount, carry) < 0 {
        scaled(amount, carry)
    } else {
        scaled(amount, carry) % holdings
    }
}

/// Whether sharing `amount` out over `holdings` stays within an `i128` at every
/// step.
pub open spec fn spread_fits(amount: int, carry: int, acc: int, holdings: int) -> bool {
    &&& fits(amount * SCALE)
    &&& fits(scaled(amount, carry))
    &&& fits(grown(amount, carry, acc, holdings))
}

/// The carry once a holding changes from `before` to `after`: the fraction of a unit
/// that is left uncounted comes out of it.
pub open spec fn carried(carry: int, before: int, after: int, acc: int) -> int {
    carry - (fraction(after, acc) - fraction(before, acc))
}

/// A position is worth what it is owed plus a fraction of a unit.
pub proof fn lemma_worth(holding: int, debt: int, credited: int, acc: int)
    requires
        holding >= 0,
        acc >= 0,
    ensures
        worth(holding, debt, credited, acc) == SCALE * owed(holding, debt, credited, acc)
            + fraction(holding, acc),
        0 <= fraction(holding, acc) < SCALE,
        entitled(holding, acc) >= 0,
{
    assert(holding * acc >= 0) by (nonlinear_arith)
        requires
            holding >= 0,
            acc >= 0,
    ;
}

/// An entitlement never falls as the accumulator grows.
pub proof fn lemma_entitled_grows(holding: int, acc: int, later: int)
    requires
        holding >= 0,
        0 <= acc <= later,
    ensures
        entitled(holding, acc) <= entitled(holding, later),
{
    assert(0 <= holding * acc <= holding * later) by (nonlinear_arith)
        requires
            holding >= 0,
            0 <= acc <= later,
    ;
}

/// Sharing a payment out loses nothing and adds nothing: what does not reach the
/// accumulator is carried.
pub proof fn law_nothing_is_lost(amount: int, carry: int, acc: int, holdings: int)
    requires
        holdings > 0,
    ensures
        grown(amount, carry, acc, holdings) >= acc,
        left_over(amount, carry, holdings) < holdings,
        left_over(amount, carry, holdings) < 0 ==> grown(amount, carry, acc, holdings) == acc,
        (grown(amount, carry, acc, holdings) - acc) * holdings + left_over(amount, carry, holdings)
            == amount * SCALE + carry,
{
    let pot = scaled(amount, carry);
    if pot >= 0 {
        lemma_fundamental_div_mod(pot, holdings);
        assert(pot / holdings >= 0 && 0 <= pot % holdings < holdings) by (nonlinear_arith)
            requires
                pot >= 0,
                holdings > 0,
        ;
        assert(holdings * (pot / holdings) == (pot / holdings) * holdings) by (nonlinear_arith);
    } else {
        assert(0 * holdings == 0);
    }
}

/// A holding earns the accumulator's growth since it was last settled times its size,
/// to within a unit either way. Where it then stood at a whole number of units it
/// earns exactly that, rounded down.
pub proof fn law_growth_is_earned(holding: int, debt: int, credited: int, acc: int, later: int)
    requires
        holding >= 0,
        0 <= acc <= later,
    ensures
        ({
            let earned = owed(holding, debt, credited, later) - owed(holding, debt, credited, acc);
            let growth = holding * (later - acc);
            &&& growth - SCALE < SCALE * earned < growth + SCALE
            &&& fraction(holding, acc) == 0 ==> earned == growth / SCALE as int
        }),
{
    lemma_worth(holding, debt, credited, acc);
    lemma_worth(holding, debt, credited, later);
    assert(holding * (later - acc) == holding * later - holding * acc) by (nonlinear_arith);
}

/// Settling twice against the same accumulator credits nothing the second time.
pub proof fn law_settling_twice_credits_once(holding: int, debt: int, credited: int, acc: int)
    ensures
        ({
            let banked = owed(holding, debt, credited, acc);
            owed(holding, entitled(holding, acc), banked, acc) == banked
        }),
{
}

/// What `acc` is worth against `holding`.
pub fn entitlement(holding: i128, acc: i128) -> (r: i128)
    requires
        fits(holding * acc),
    ensures
        r == entitled(holding as int, acc as int),
{
    holding * acc / SCALE
}

/// Share `amount` out over `holdings`: the new accumulator and carry.
pub fn spread(amount: i128, carry: i128, acc: i128, holdings: i128) -> (r: (i128, i128))
    requires
        holdings > 0,
        spread_fits(amount as int, carry as int, acc as int, holdings as int),
    ensures
        r.0 == grown(amount as int, carry as int, acc as int, holdings as int),
        r.1 == left_over(amount as int, carry as int, holdings as int),
{
    let scaled_amount: i128 = amount * SCALE + carry;
    if scaled_amount < 0 {
        return (acc, scaled_amount);
    }
    (acc + scaled_amount / holdings, scaled_amount % holdings)
}

/// The fraction of a unit, in scaled units, that `holding` has earned.
fn uncounted(holding: i128, acc: i128) -> (r: i128)
    requires
        fits(holding * acc),
    ensures
        r == fraction(holding as int, acc as int),
        -SCALE < r < SCALE,
{
    holding * acc % SCALE
}

/// The carry once a holding changes from `before` to `after`.
pub fn recarry(carry: i128, before: i128, after: i128, acc: i128) -> (r: i128)
    requires
        fits(before * acc),
        fits(after * acc),
        fits(carried(carry as int, before as int, after as int, acc as int)),
    ensures
        r == carried(carry as int, before as int, after as int, acc as int),
{
    carry - (uncounted(after, acc) - uncounted(before, acc))
}

/// Whether [`recarry`] can be computed.
pub fn recarry_in_range(carry: i128, before: i128, after: i128, acc: i128) -> (r: bool)
    requires
        fits(before * acc),
        fits(after * acc),
    ensures
        r == fits(carried(carry as int, before as int, after as int, acc as int)),
{
    carry.checked_sub(uncounted(after, acc) - uncounted(before, acc)).is_some()
}

/// Whether [`entitlement`] can be computed.
pub fn entitlement_in_range(holding: i128, acc: i128) -> (r: bool)
    ensures
        r == fits(holding * acc),
{
    holding.checked_mul(acc).is_some()
}

/// Whether a position can be settled.
pub fn settle_in_range(holding: i128, debt: i128, credited: i128, acc: i128) -> (r: bool)
    ensures
        r == settle_fits(holding as int, debt as int, credited as int, acc as int),
{
    if !entitlement_in_range(holding, acc) {
        return false;
    }
    match entitlement(holding, acc).checked_sub(debt) {
        None => false,
        Some(earned) => credited.checked_add(earned).is_some(),
    }
}

/// Whether [`spread`] can be computed.
pub fn spread_in_range(amount: i128, carry: i128, acc: i128, holdings: i128) -> (r: bool)
    requires
        holdings > 0,
    ensures
        r == spread_fits(amount as int, carry as int, acc as int, holdings as int),
{
    match amount.checked_mul(SCALE) {
        None => false,
        Some(product) => match product.checked_add(carry) {
            None => false,
            Some(sum) => sum < 0 || acc.checked_add(sum / holdings).is_some(),
        },
    }
}

} // verus!
