//! What holds of the lending pool whatever is done to it.

use crate::accrual::{
    entitled, fraction, law_nothing_is_lost, lemma_entitled_grows, lemma_worth, worth, SCALE,
};
use crate::arith::{
    lemma_total_bounds, lemma_total_empty, lemma_total_insert, lemma_total_linear,
    lemma_total_nothing, total,
};
use crate::governance::Governance;
use crate::host::{Address, Digest, Env};
use crate::lending_pool::{Action, Effect, Error, LendingPoolModel, PoolState, Position};
use vstd::prelude::*;

verus! {

/// Something done to the pool.
pub ghost enum Step {
    Administer,
    Deposit { investor: Address, amount: i128 },
    Withdraw { investor: Address, amount: i128 },
    Claim { investor: Address, paid: i128 },
    Reserve { caller: Address, amount: i128 },
    Unreserve { caller: Address, amount: i128 },
    Disburse { caller: Address, to: Address, amount: i128 },
    Repay { caller: Address, from: Address, principal: i128, interest: i128 },
    WriteOff { caller: Address, principal: i128 },
}

impl Position {
    /// A stake as the pool keeps it.
    pub open spec fn sound(self, acc: i128) -> bool {
        &&& self.shares >= 0
        &&& self.credited >= 0
        &&& 0 <= self.reward_debt <= entitled(self.shares as int, acc as int)
    }

    /// The stake's worth in scaled units.
    pub open spec fn worth(self, acc: i128) -> int {
        worth(self.shares as int, self.reward_debt as int, self.credited as int, acc as int)
    }

    /// The fraction of a unit the stake has earned beyond what it can claim.
    pub open spec fn fraction(self, acc: i128) -> int {
        fraction(self.shares as int, acc as int)
    }
}

/// The shares of a stake.
pub open spec fn shares() -> spec_fn(Address, Position) -> int {
    |investor: Address, position: Position| position.shares as int
}

/// What a stake can claim at `acc`.
pub open spec fn claim(acc: i128) -> spec_fn(Address, Position) -> int {
    |investor: Address, position: Position| position.claimable(acc)
}

/// What a stake is worth at `acc`, in scaled units.
pub open spec fn value(acc: i128) -> spec_fn(Address, Position) -> int {
    |investor: Address, position: Position| position.worth(acc)
}

/// The fraction of a unit a stake has earned at `acc` beyond what it can claim.
pub open spec fn uncounted(acc: i128) -> spec_fn(Address, Position) -> int {
    |investor: Address, position: Position| position.fraction(acc)
}

/// One for each stake.
pub open spec fn stakes() -> spec_fn(Address, Position) -> int {
    |investor: Address, position: Position| 1int
}

/// Money that `effects` bring in for `contract`, less what they pay out.
pub open spec fn net_flow(effects: Seq<Effect>, contract: Address) -> int
    decreases effects.len(),
{
    if effects.len() == 0 {
        0
    } else {
        net_flow(effects.drop_last(), contract) + flow(effects.last(), contract)
    }
}

/// Money that one effect brings in for `contract`, less what it pays out.
pub open spec fn flow(effect: Effect, contract: Address) -> int {
    match effect {
        Effect::Transfer(t) => (if t.to == contract {
            t.amount as int
        } else {
            0
        }) - (if t.from == contract {
            t.amount as int
        } else {
            0
        }),
        _ => 0,
    }
}

impl LendingPoolModel {
    /// `post` differs from this pool by administration alone.
    pub open spec fn administered(self, post: Self) -> bool {
        &&& post == (LendingPoolModel {
            governance: post.governance,
            mortgage_pool: post.mortgage_pool,
            outbox: post.outbox,
            ..self
        })
        &&& self.mortgage_pool is Some ==> post.mortgage_pool == self.mortgage_pool
        &&& post.outbox == self.outbox || exists|wasm_hash: Digest|
            post.outbox == self.outbox.push(Effect::Upgrade(wasm_hash))
    }

    /// `post` is this pool after `step`, which was not refused.
    pub open spec fn takes(self, post: Self, env: Env, step: Step) -> bool {
        match step {
            Step::Administer => self.administered(post),
            Step::Deposit { investor, amount } => self.deposit_refusal(amount) is None
                && self.deposited(post, env, investor, amount),
            Step::Withdraw { investor, amount } => self.withdraw_refusal(investor, amount) is None
                && self.withdrawn(post, env, investor, amount),
            Step::Claim { investor, paid } => self.claim_refusal(investor) is None && self.claimed(
                post,
                env,
                investor,
                paid,
            ),
            Step::Reserve { caller, amount } => self.reserve_refusal(caller, amount) is None
                && self.reserved(post, amount),
            Step::Unreserve { caller, amount } => self.unreserve_refusal(caller, amount) is None
                && self.unreserved(post, amount),
            Step::Disburse { caller, to, amount } => self.disburse_refusal(caller, amount) is None
                && self.disbursed(post, env, to, amount),
            Step::Repay { caller, from, principal, interest } => {
                &&& self.repay_refusal(caller, principal, interest) is None
                &&& self.repay_fits(caller, principal, interest)
                &&& self.repaid(post, env, from, principal, interest)
            },
            Step::WriteOff { caller, principal } => self.write_off_refusal(caller, principal) is None
                && self.written_off(post, principal),
        }
    }

    /// The pool as its operations keep it: what is committed is never more than the
    /// capital there is, the shares outstanding are the shares held, and what the
    /// carry lacks is held in fractions of a unit that nobody can claim.
    pub open spec fn sound(self) -> bool {
        &&& self.positions.dom().finite()
        &&& 0 <= self.totals.total_reserved <= self.totals.total_capital
        &&& self.acc >= 0
        &&& self.carry + total(self.positions, uncounted(self.acc)) >= 0
        &&& self.totals.total_shares == total(self.positions, shares())
        &&& forall|investor: Address| #[trigger]
            self.positions.contains_key(investor) ==> self.positions[investor].sound(self.acc)
    }

    /// Interest that `step` adds to what is held for investors, or takes from it.
    pub open spec fn pot_change(self, step: Step) -> int {
        match step {
            Step::Repay { interest, .. } => if self.totals.total_shares > 0 {
                interest as int
            } else {
                0
            },
            Step::Claim { paid, .. } => -paid,
            _ => 0,
        }
    }

    /// Whether every scaled unit of `pot`, the interest held for investors, is in some
    /// investor's stake or in the carry.
    pub open spec fn accounts_for(self, pot: int) -> bool {
        total(self.positions, value(self.acc)) + self.carry == SCALE * pot
    }
}

/// The pool is sound as it is deployed, and owes nobody anything.
pub proof fn law_deployed_sound(admin: Address, settlement_token: Address, timelock_secs: u64)
    ensures
        ({
            let pool = LendingPoolModel {
                governance: Governance {
                    admin: Some(admin),
                    pending_admin: None,
                    timelock_secs: Some(timelock_secs),
                    scheduled: None,
                },
                settlement_token: Some(settlement_token),
                mortgage_pool: None,
                totals: PoolState {
                    total_capital: 0,
                    total_reserved: 0,
                    total_lent: 0,
                    total_interest: 0,
                    total_written_off: 0,
                    total_shares: 0,
                },
                acc: 0,
                carry: 0,
                positions: Map::empty(),
                outbox: Seq::empty(),
            };
            pool.sound() && pool.accounts_for(0)
        }),
{
    lemma_total_empty(shares());
    lemma_total_empty(value(0));
    lemma_total_empty(uncounted(0));
}

/// Every operation leaves the pool sound. In particular capital that is committed
/// to a mortgage cannot be withdrawn, and the shares outstanding stay the sum of
/// the shares held.
pub proof fn law_sound_kept(pre: LendingPoolModel, post: LendingPoolModel, env: Env, step: Step)
    requires
        pre.sound(),
        pre.takes(post, env, step),
    ensures
        post.sound(),
        post.acc >= pre.acc,
{
    match step {
        Step::Deposit { investor, .. } => {
            lemma_stake_written(pre, post, investor);
        },
        Step::Withdraw { investor, .. } => {
            lemma_stake_written(pre, post, investor);
        },
        Step::Claim { investor, .. } => {
            lemma_stake_written(pre, post, investor);
        },
        Step::Repay { interest, .. } => {
            if interest > 0 && pre.totals.total_shares > 0 {
                law_nothing_is_lost(
                    interest as int,
                    pre.carry as int,
                    pre.acc as int,
                    pre.totals.total_shares as int,
                );
            }
            assert forall|k: Address| #[trigger] post.positions.contains_key(k) implies
                post.positions[k].sound(post.acc) by {
                assert(pre.positions.contains_key(k));
                lemma_entitled_grows(
                    post.positions[k].shares as int,
                    pre.acc as int,
                    post.acc as int,
                );
            }
            lemma_uncounted(post.positions, post.acc);
        },
        _ => {},
    }
}

/// Fractions of a unit are never below nothing and always below a unit, and a stake is
/// worth what it can claim and its fraction.
proof fn lemma_uncounted(positions: Map<Address, Position>, acc: i128)
    requires
        positions.dom().finite(),
        acc >= 0,
        forall|k: Address| #[trigger] positions.contains_key(k) ==> positions[k].shares >= 0,
    ensures
        0 <= total(positions, uncounted(acc)) <= (SCALE - 1) * total(positions, stakes()),
        total(positions, value(acc)) == total(positions, uncounted(acc)) + SCALE * total(
            positions,
            claim(acc),
        ),
{
    let nothing = |k: Address, p: Position| 0int;
    let most = |k: Address, p: Position| (SCALE - 1) * stakes()(k, p);
    assert forall|k: Address| #[trigger] positions.contains_key(k) implies nothing(k, positions[k])
        <= uncounted(acc)(k, positions[k]) <= most(k, positions[k]) && value(acc)(k, positions[k]) == uncounted(acc)(
        k,
        positions[k],
    ) + SCALE * claim(acc)(k, positions[k]) by {
        let p = positions[k];
        lemma_worth(p.shares as int, p.reward_debt as int, p.credited as int, acc as int);
    }
    lemma_total_bounds(positions, nothing, uncounted(acc));
    lemma_total_nothing(positions, nothing);
    lemma_total_bounds(positions, uncounted(acc), most);
    lemma_total_linear(positions, nothing, stakes(), SCALE - 1, most);
    lemma_total_linear(positions, uncounted(acc), claim(acc), SCALE as int, value(acc));
}

/// A stake that was rewritten at the same accumulator, and is sound, leaves the
/// stakes sound and moves their sum by its own change.
proof fn lemma_stake_written(pre: LendingPoolModel, post: LendingPoolModel, investor: Address)
    requires
        pre.sound(),
        post.positions == pre.positions.insert(investor, post.positions[investor]),
        post.acc == pre.acc,
        post.positions[investor].shares >= 0,
        post.positions[investor].reward_debt == entitled(
            post.positions[investor].shares as int,
            post.acc as int,
        ),
        post.positions[investor].credited == 0 || post.positions[investor].credited
            == pre.position(investor).claimable(pre.acc),
    ensures
        post.positions.dom().finite(),
        total(post.positions, shares()) == total(pre.positions, shares()) - pre.position(
            investor,
        ).shares + post.positions[investor].shares,
        total(post.positions, uncounted(post.acc)) == total(pre.positions, uncounted(pre.acc))
            - pre.position(investor).fraction(pre.acc) + post.positions[investor].fraction(
            post.acc,
        ),
        forall|k: Address| #[trigger]
            post.positions.contains_key(k) ==> post.positions[k].sound(post.acc),
{
    let stake = post.positions[investor];
    lemma_total_insert(pre.positions, shares(), investor, stake);
    lemma_total_insert(pre.positions, uncounted(pre.acc), investor, stake);
    assert(0 * pre.acc == 0);
    lemma_worth(stake.shares as int, 0, 0, post.acc as int);
    assert(pre.position(investor).sound(pre.acc)) by {
        if pre.positions.contains_key(investor) {
        }
    }
    assert forall|k: Address| #[trigger] post.positions.contains_key(k) implies
        post.positions[k].sound(post.acc) by {
        if k != investor {
            assert(pre.positions.contains_key(k));
        }
    }
}

/// Committed capital cannot be withdrawn: a withdrawal that goes through leaves at
/// least what is reserved.
pub proof fn law_committed_capital_stays(
    pre: LendingPoolModel,
    post: LendingPoolModel,
    env: Env,
    investor: Address,
    amount: i128,
)
    requires
        pre.takes(post, env, Step::Withdraw { investor, amount }),
    ensures
        amount <= pre.available(),
        post.totals.total_capital >= post.totals.total_reserved,
        post.totals.total_reserved == pre.totals.total_reserved,
{
}

/// Money set aside for an approved mortgage can be paid out: a tranche no larger
/// than what is reserved is never refused the mortgage pool.
pub proof fn law_reserved_can_be_paid(pool: LendingPoolModel, caller: Address, amount: i128)
    requires
        pool.mortgage_pool == Some(caller),
        pool.settlement_token is Some,
        0 < amount <= pool.totals.total_reserved,
    ensures
        pool.disburse_refusal(caller, amount) is None,
{
}

/// A change of shares neither gains interest nor forfeits any: what could be
/// claimed before can be claimed after, and no more. Somebody new has earned
/// nothing.
pub proof fn law_moving_shares_earns_nothing(
    before: Position,
    after: Position,
    acc: i128,
    delta: int,
)
    requires
        before.moved(after, acc, delta),
    ensures
        after.claimable(acc) == before.claimable(acc),
        before == Position::none() ==> after.claimable(acc) == 0,
{
    assert(0 * acc == 0);
}

/// Putting capital in and taking it out again leaves an investor, and the carry, where
/// they were.
pub proof fn law_deposit_and_withdraw_restore(
    pre: LendingPoolModel,
    mid: LendingPoolModel,
    post: LendingPoolModel,
    env: Env,
    investor: Address,
    amount: i128,
)
    requires
        pre.takes(mid, env, Step::Deposit { investor, amount }),
        mid.takes(post, env, Step::Withdraw { investor, amount }),
    ensures
        post.totals == pre.totals,
        post.carry == pre.carry,
        post.position(investor).shares == pre.position(investor).shares,
        post.position(investor).claimable(post.acc) == pre.position(investor).claimable(pre.acc),
{
}

/// A claim pays everything that could be claimed, and leaves nothing for a second
/// one.
pub proof fn law_claim_takes_everything(
    pre: LendingPoolModel,
    post: LendingPoolModel,
    env: Env,
    investor: Address,
    paid: i128,
)
    requires
        pre.takes(post, env, Step::Claim { investor, paid }),
    ensures
        paid == pre.position(investor).claimable(pre.acc),
        post.position(investor).claimable(post.acc) == 0,
        post.claim_refusal(investor) == Some(Error::NothingToClaim),
{
}

/// What an investor could claim is touched only by their own operations and by
/// interest arriving, which never lowers it.
pub proof fn law_others_leave_claims_alone(
    pre: LendingPoolModel,
    post: LendingPoolModel,
    env: Env,
    step: Step,
    investor: Address,
)
    requires
        pre.sound(),
        pre.takes(post, env, step),
        !(step matches Step::Claim { investor: who, .. } && who == investor),
    ensures
        post.position(investor).claimable(post.acc) >= pre.position(investor).claimable(pre.acc),
        !(step is Repay) ==> post.position(investor).claimable(post.acc) == pre.position(
            investor,
        ).claimable(pre.acc),
{
    law_sound_kept(pre, post, env, step);
    let stake = pre.position(investor);
    if step is Repay {
        assert(stake.shares >= 0) by {
            if pre.positions.contains_key(investor) {
                assert(stake.sound(pre.acc));
            }
        }
        lemma_entitled_grows(stake.shares as int, pre.acc as int, post.acc as int);
    }
}

/// Every unit of capital is accounted for: what the pool has, has lent and has lost
/// is what investors hold shares for, but for interest that arrived with nobody to
/// share it out to.
pub proof fn law_capital_is_conserved(
    pre: LendingPoolModel,
    post: LendingPoolModel,
    env: Env,
    step: Step,
)
    requires
        pre.takes(post, env, step),
    ensures
        ({
            let kept = match step {
                Step::Repay { interest, .. } => if pre.totals.total_shares <= 0 {
                    interest as int
                } else {
                    0
                },
                _ => 0,
            };
            post.totals.total_capital + post.totals.total_lent + post.totals.total_written_off
                - post.totals.total_shares == pre.totals.total_capital + pre.totals.total_lent
                + pre.totals.total_written_off - pre.totals.total_shares + kept
        }),
{
}

/// The money an operation moves is exactly what it changes in the capital and in
/// the interest held for investors, where the party on the other side is not the
/// pool itself.
pub proof fn law_money_matches_the_books(
    pre: LendingPoolModel,
    post: LendingPoolModel,
    env: Env,
    step: Step,
)
    requires
        pre.takes(post, env, step),
        match step {
            Step::Deposit { investor, .. } => investor != env.contract,
            Step::Withdraw { investor, .. } => investor != env.contract,
            Step::Claim { investor, .. } => investor != env.contract,
            Step::Disburse { to, .. } => to != env.contract,
            Step::Repay { from, .. } => from != env.contract,
            _ => true,
        },
    ensures
        net_flow(post.outbox, env.contract) - net_flow(pre.outbox, env.contract)
            == post.totals.total_capital - pre.totals.total_capital + pre.pot_change(step),
{
    reveal_with_fuel(net_flow, 3);
    match step {
        Step::Administer => {
            if post.outbox != pre.outbox {
                let wasm_hash = choose|wasm_hash: Digest|
                    post.outbox == pre.outbox.push(Effect::Upgrade(wasm_hash));
                assert(post.outbox.drop_last() =~= pre.outbox);
            }
        },
        Step::Reserve { .. } => {
            assert(post.outbox.drop_last() =~= pre.outbox);
        },
        Step::Unreserve { .. } => {
            assert(post.outbox.drop_last() =~= pre.outbox);
        },
        Step::WriteOff { .. } => {
            assert(post.outbox.drop_last() =~= pre.outbox);
        },
        _ => {
            assert(post.outbox.drop_last().drop_last() =~= pre.outbox);
        },
    }
}

/// Every operation keeps the interest held for investors accounted for to the last
/// scaled unit, and so keeps it enough for every claim.
pub proof fn law_claims_stay_covered(
    pre: LendingPoolModel,
    post: LendingPoolModel,
    env: Env,
    step: Step,
    pot: int,
)
    requires
        pre.sound(),
        pre.takes(post, env, step),
        pre.accounts_for(pot),
    ensures
        post.accounts_for(pot + pre.pot_change(step)),
        total(post.positions, claim(post.acc)) <= pot + pre.pot_change(step),
{
    law_sound_kept(pre, post, env, step);
    match step {
        Step::Deposit { investor, .. } => {
            lemma_stake_worth(pre, post, investor);
        },
        Step::Withdraw { investor, .. } => {
            lemma_stake_worth(pre, post, investor);
        },
        Step::Claim { investor, .. } => {
            lemma_stake_worth(pre, post, investor);
        },
        Step::Repay { interest, .. } => {
            if interest > 0 && pre.totals.total_shares > 0 {
                let per_share = post.acc - pre.acc;
                law_nothing_is_lost(
                    interest as int,
                    pre.carry as int,
                    pre.acc as int,
                    pre.totals.total_shares as int,
                );
                assert forall|k: Address| #[trigger] pre.positions.contains_key(k) implies value(
                    post.acc,
                )(k, pre.positions[k]) == value(pre.acc)(k, pre.positions[k]) + per_share
                    * shares()(k, pre.positions[k]) by {
                    let held = pre.positions[k].shares as int;
                    assert(held * post.acc == held * pre.acc + per_share * held)
                        by (nonlinear_arith)
                        requires
                            per_share == post.acc - pre.acc,
                    ;
                }
                lemma_total_linear(
                    pre.positions,
                    value(pre.acc),
                    shares(),
                    per_share,
                    value(post.acc),
                );
            }
        },
        _ => {},
    }
    law_covered_claims_can_be_paid(post, pot + pre.pot_change(step));
}

/// Rewriting a stake moves the sum of their worth by its own change.
proof fn lemma_stake_worth(pre: LendingPoolModel, post: LendingPoolModel, investor: Address)
    requires
        pre.sound(),
        post.positions == pre.positions.insert(investor, post.positions[investor]),
        post.acc == pre.acc,
        post.positions[investor].shares >= 0,
        post.positions[investor].reward_debt == entitled(
            post.positions[investor].shares as int,
            post.acc as int,
        ),
    ensures
        total(post.positions, value(post.acc)) == total(pre.positions, value(pre.acc)) - SCALE
            * pre.position(investor).claimable(pre.acc) - pre.position(investor).fraction(pre.acc)
            + SCALE * post.positions[investor].credited + post.positions[investor].fraction(
            post.acc,
        ),
{
    let stake = post.positions[investor];
    let before = pre.position(investor);
    lemma_total_insert(pre.positions, value(pre.acc), investor, stake);
    assert(before.shares >= 0) by {
        if pre.positions.contains_key(investor) {
            assert(before.sound(pre.acc));
        }
    }
    lemma_worth(
        before.shares as int,
        before.reward_debt as int,
        before.credited as int,
        pre.acc as int,
    );
    lemma_worth(
        stake.shares as int,
        stake.reward_debt as int,
        stake.credited as int,
        post.acc as int,
    );
    assert(0 * pre.acc == 0);
}

/// Where the interest held is accounted for, it is enough to pay every claim there is
/// at once. What it exceeds them by is the carry and the fractions of a unit that
/// nobody can claim.
pub proof fn law_covered_claims_can_be_paid(pool: LendingPoolModel, pot: int)
    requires
        pool.sound(),
        pool.accounts_for(pot),
    ensures
        total(pool.positions, claim(pool.acc)) <= pot,
        SCALE * (pot - total(pool.positions, claim(pool.acc))) == pool.carry + total(
            pool.positions,
            uncounted(pool.acc),
        ),
        forall|investor: Address| #[trigger] pool.position(investor).claimable(pool.acc) <= pot,
{
    let nothing = |k: Address, p: Position| 0int;
    assert forall|k: Address| #[trigger] pool.positions.contains_key(k) implies
        pool.positions[k].shares >= 0 && nothing(k, pool.positions[k]) <= claim(pool.acc)(
        k,
        pool.positions[k],
    ) by {
        assert(pool.positions[k].sound(pool.acc));
    }
    lemma_uncounted(pool.positions, pool.acc);
    lemma_total_bounds(pool.positions, nothing, claim(pool.acc));
    lemma_total_nothing(pool.positions, nothing);
    assert forall|investor: Address| #[trigger]
        pool.position(investor).claimable(pool.acc) <= pot by {
        if pool.positions.contains_key(investor) {
        } else {
            assert(0 * pool.acc == 0);
        }
    }
}

/// Little interest is ever stranded, however often it arrives: as interest is shared
/// out, what is held beyond what investors can claim becomes less than a unit for each
/// stake and a scaled unit for each share. No other operation changes it.
pub proof fn law_stranded_interest_is_bounded(
    pre: LendingPoolModel,
    post: LendingPoolModel,
    env: Env,
    step: Step,
    pot: int,
)
    requires
        pre.sound(),
        pre.takes(post, env, step),
        pre.accounts_for(pot),
    ensures
        ({
            let was = pot - total(pre.positions, claim(pre.acc));
            let stranded = pot + pre.pot_change(step) - total(post.positions, claim(post.acc));
            let shared = step matches Step::Repay { interest, .. } && interest > 0
                && pre.totals.total_shares > 0;
            &&& stranded >= 0
            &&& !shared ==> stranded == was
            &&& shared ==> SCALE * stranded < post.totals.total_shares + (SCALE - 1) * total(
                post.positions,
                stakes(),
            )
        }),
{
    law_sound_kept(pre, post, env, step);
    law_claims_stay_covered(pre, post, env, step, pot);
    law_covered_claims_can_be_paid(pre, pot);
    law_covered_claims_can_be_paid(post, pot + pre.pot_change(step));
    match step {
        Step::Deposit { investor, .. } => {
            lemma_stake_written(pre, post, investor);
        },
        Step::Withdraw { investor, .. } => {
            lemma_stake_written(pre, post, investor);
        },
        Step::Claim { investor, .. } => {
            lemma_stake_written(pre, post, investor);
        },
        Step::Repay { interest, .. } => {
            if interest > 0 && pre.totals.total_shares > 0 {
                law_nothing_is_lost(
                    interest as int,
                    pre.carry as int,
                    pre.acc as int,
                    pre.totals.total_shares as int,
                );
                assert forall|k: Address| #[trigger]
                    post.positions.contains_key(k) implies post.positions[k].shares >= 0 by {
                    assert(post.positions[k].sound(post.acc));
                }
                lemma_uncounted(post.positions, post.acc);
            }
        },
        _ => {},
    }
}

/// A pool's history: each state follows from the one before by a step.
pub open spec fn is_history(
    states: Seq<LendingPoolModel>,
    envs: Seq<Env>,
    steps: Seq<Step>,
) -> bool {
    &&& states.len() == steps.len() + 1
    &&& envs.len() == steps.len()
    &&& forall|i: int|
        0 <= i < steps.len() ==> #[trigger] states[i].takes(states[i as int + 1], envs[i], steps[i])
}

/// The interest held for investors after the first `n` steps of a history.
pub open spec fn pot_after(states: Seq<LendingPoolModel>, steps: Seq<Step>, n: nat) -> int
    decreases n,
{
    if n == 0 {
        0
    } else {
        pot_after(states, steps, (n - 1) as nat) + states[n - 1].pot_change(steps[n - 1])
    }
}

/// Through any history of a pool that starts sound and owing nothing, it stays sound,
/// and what its investors can claim is never more than the interest received for them
/// and not yet paid out.
pub proof fn law_history_stays_covered(
    states: Seq<LendingPoolModel>,
    envs: Seq<Env>,
    steps: Seq<Step>,
    n: nat,
)
    requires
        is_history(states, envs, steps),
        states[0].sound(),
        states[0].accounts_for(0),
        n <= steps.len(),
    ensures
        states[n as int].sound(),
        states[n as int].accounts_for(pot_after(states, steps, n)),
        total(states[n as int].positions, claim(states[n as int].acc)) <= pot_after(
            states,
            steps,
            n,
        ),
    decreases n,
{
    if n > 0 {
        let i = (n - 1) as nat;
        law_history_stays_covered(states, envs, steps, i);
        assert(states[i as int].takes(states[i as int + 1], envs[i as int], steps[i as int]));
        law_sound_kept(states[i as int], states[n as int], envs[i as int], steps[i as int]);
        law_claims_stay_covered(
            states[i as int],
            states[n as int],
            envs[i as int],
            steps[i as int],
            pot_after(states, steps, i),
        );
    } else {
        law_covered_claims_can_be_paid(states[0], 0);
    }
}

/// Administration moves no money, no share and no claim: every administrative
/// operation leaves the capital and the stakes as they were, and asks for nothing
/// but an upgrade.
pub proof fn law_admin_moves_nothing(
    pool: LendingPoolModel,
    admin: Address,
    wired: Address,
    governance: Governance<Action>,
    wasm_hash: Digest,
)
    ensures
        pool.set_mortgage_pool_refusal(admin) is None ==> pool.administered(
            LendingPoolModel { mortgage_pool: Some(wired), ..pool },
        ),
        pool.administered(LendingPoolModel { governance, ..pool }),
        pool.administered(
            LendingPoolModel {
                governance,
                outbox: pool.outbox.push(Effect::Upgrade(wasm_hash)),
                ..pool
            },
        ),
{
}

/// Once the mortgage pool is wired it stays wired, and wiring it again is refused.
pub proof fn law_wired_once(
    pre: LendingPoolModel,
    post: LendingPoolModel,
    env: Env,
    step: Step,
    admin: Address,
)
    requires
        pre.mortgage_pool is Some,
        pre.takes(post, env, step),
    ensures
        post.mortgage_pool == pre.mortgage_pool,
        post.set_mortgage_pool_refusal(admin) is Some,
{
}

} // verus!
