//! What each call on the lending pool does, in its own figures.

use crate::accrual::{law_nothing_is_lost, lemma_worth};
use crate::governance::GovernanceError;
use crate::host::{Address, Env, Transfer};
use crate::lending_laws::Step;
use crate::lending_pool::{
    admin_outcome, Action, Effect, Error, Event, LendingPoolModel, PoolState, Position,
};
use vstd::prelude::*;

verus! {

/// An investor's stake is what is on record for them, and nothing where nothing is.
/// What is free to leave the pool is the capital that is not committed.
pub proof fn law_figures_are_read_off_the_books(pool: LendingPoolModel, investor: Address)
    ensures
        pool.positions.contains_key(investor) ==> pool.position(investor)
            == pool.positions[investor],
        !pool.positions.contains_key(investor) ==> pool.position(investor) == (Position {
            shares: 0,
            reward_debt: 0,
            credited: 0,
        }),
        pool.available() == pool.totals.total_capital - pool.totals.total_reserved,
{
}

/// What a stake can claim is what it was credited with and what its shares have earned
/// since, in whole units rounded down: a share earns the millionth of a millionth part
/// of the accumulator.
pub proof fn law_a_stake_earns_by_its_shares(position: Position, acc: i128)
    requires
        position.shares >= 0,
        acc >= 0,
    ensures
        ({
            let earned = position.claimable(acc) - position.credited + position.reward_debt;
            &&& earned >= 0
            &&& 1_000_000_000_000 * earned <= position.shares * acc
            &&& position.shares * acc < 1_000_000_000_000 * (earned + 1)
        }),
{
    lemma_worth(
        position.shares as int,
        position.reward_debt as int,
        position.credited as int,
        acc as int,
    );
}

/// Settling a stake turns what it has earned into credit: its shares stay, it is owed
/// what it was owed, and from then on it counts what it earns afresh.
pub proof fn law_settling_turns_earnings_into_credit(
    before: Position,
    after: Position,
    acc: i128,
)
    requires
        before.shares >= 0,
        acc >= 0,
        before.settled(after, acc),
    ensures
        ({
            let scale = 1_000_000_000_000int;
            &&& after.shares == before.shares
            &&& after.credited == before.claimable(acc)
            &&& after.claimable(acc) == before.claimable(acc)
            &&& scale * after.reward_debt <= before.shares * acc < scale * (after.reward_debt + 1)
        }),
{
    lemma_worth(
        before.shares as int,
        before.reward_debt as int,
        before.credited as int,
        acc as int,
    );
}

// --- deposits and withdrawals ---

/// Any positive sum can be deposited, by anybody, at any time.
pub proof fn law_a_deposit_is_always_taken(pool: LendingPoolModel, amount: i128)
    ensures
        match pool.deposit_refusal(amount) {
            None => amount > 0 && pool.settlement_token is Some,
            Some(Error::InvalidAmount) => amount <= 0,
            Some(Error::NotInitialized) => amount > 0 && pool.settlement_token is None,
            Some(_) => false,
        },
{
}

/// Capital that is not committed can be taken out: an investor who holds the shares is
/// paid any positive sum up to the capital less what is reserved, however much is lent
/// out besides, and no more than that.
pub proof fn law_free_capital_can_be_withdrawn(
    pool: LendingPoolModel,
    investor: Address,
    amount: i128,
)
    ensures
        ({
            let held = if pool.positions.contains_key(investor) {
                pool.positions[investor].shares as int
            } else {
                0
            };
            let free = pool.totals.total_capital - pool.totals.total_reserved;
            match pool.withdraw_refusal(investor, amount) {
                None => 0 < amount <= held && amount <= free && pool.settlement_token is Some,
                Some(Error::InvalidAmount) => amount <= 0,
                Some(Error::InsufficientShares) => amount > 0 && amount > held,
                Some(Error::InsufficientAvailable) => 0 < amount <= held && amount > free,
                Some(Error::NotInitialized) => 0 < amount <= held && amount <= free
                    && pool.settlement_token is None,
                Some(_) => false,
            }
        }),
{
}

/// A share costs one unit going in and is worth one coming out: a deposit or a
/// withdrawal moves the capital, the shares outstanding and the investor's own shares
/// by the sum that changes hands, and nothing of anybody else's. What the investor
/// could claim before, they can claim after, and the new shares have earned nothing
/// yet. The fractions of a unit that the change leaves uncounted come out of the carry.
pub proof fn law_shares_change_hands_at_one(
    pre: LendingPoolModel,
    post: LendingPoolModel,
    env: Env,
    investor: Address,
    amount: i128,
    change: int,
)
    requires
        pre.sound(),
        (change == amount && pre.takes(post, env, Step::Deposit { investor, amount })) || (change
            == -amount && pre.takes(post, env, Step::Withdraw { investor, amount })),
    ensures
        ({
            let held = if pre.positions.contains_key(investor) {
                pre.positions[investor]
            } else {
                Position { shares: 0, reward_debt: 0, credited: 0 }
            };
            let now = post.positions[investor];
            let acc = pre.acc;
            let scale = 1_000_000_000_000int;
            let capital = post.totals.total_capital;
            let (from, to) = if change > 0 {
                (investor, env.contract)
            } else {
                (env.contract, investor)
            };
            &&& post.positions == pre.positions.insert(investor, now)
            &&& now.shares == held.shares + change >= 0
            &&& capital == pre.totals.total_capital + change
            &&& post.totals.total_shares == pre.totals.total_shares + change
            &&& post.totals == (PoolState {
                total_capital: capital,
                total_shares: post.totals.total_shares,
                ..pre.totals
            })
            &&& now.credited == held.claimable(acc)
            &&& now.claimable(acc) == held.claimable(acc)
            &&& scale * now.reward_debt <= now.shares * acc < scale * (now.reward_debt + 1)
            &&& post.carry + (now.shares * acc) % scale == pre.carry + (held.shares * acc) % scale
            &&& post.acc == pre.acc
            &&& post.outbox =~= pre.outbox + seq![
                Effect::Transfer(Transfer { token: pre.settlement_token->0, from, to, amount }),
                Effect::Publish(
                    if change > 0 {
                        Event::Deposit { investor, amount, total_capital: capital }
                    } else {
                        Event::Withdraw { investor, amount, total_capital: capital }
                    },
                ),
            ]
        }),
{
    let held = pre.position(investor);
    let now = post.positions[investor];
    lemma_worth(
        held.shares as int,
        held.reward_debt as int,
        held.credited as int,
        pre.acc as int,
    );
    lemma_worth(now.shares as int, now.reward_debt as int, now.credited as int, pre.acc as int);
    assert(held.shares * pre.acc >= 0) by (nonlinear_arith)
        requires
            held.shares >= 0,
            pre.acc >= 0,
    ;
    assert(now.shares * pre.acc >= 0) by (nonlinear_arith)
        requires
            now.shares >= 0,
            pre.acc >= 0,
    ;
}

// --- interest ---

/// Interest is paid to whoever has earned a whole unit of it, whenever they ask: all
/// that they can claim, to them, and nothing else changes. Their shares stay theirs
/// and their right to what those earn next is untouched.
pub proof fn law_earned_interest_is_paid_out(
    pre: LendingPoolModel,
    post: LendingPoolModel,
    env: Env,
    investor: Address,
    paid: i128,
)
    requires
        pre.sound(),
    ensures
        ({
            let held = if pre.positions.contains_key(investor) {
                pre.positions[investor]
            } else {
                Position { shares: 0, reward_debt: 0, credited: 0 }
            };
            &&& match pre.claim_refusal(investor) {
                None => held.claimable(pre.acc) >= 1 && pre.settlement_token is Some,
                Some(Error::NothingToClaim) => held.claimable(pre.acc) <= 0,
                Some(Error::NotInitialized) => held.claimable(pre.acc) >= 1
                    && pre.settlement_token is None,
                Some(_) => false,
            }
            &&& pre.takes(post, env, Step::Claim { investor, paid }) ==> {
                let now = post.positions[investor];
                let scale = 1_000_000_000_000int;
                &&& paid == held.claimable(pre.acc)
                &&& paid > 0
                &&& now.shares == held.shares
                &&& now.credited == 0
                &&& scale * now.reward_debt <= held.shares * pre.acc < scale * (now.reward_debt
                    + 1)
                &&& post == (LendingPoolModel {
                    positions: pre.positions.insert(investor, now),
                    outbox: post.outbox,
                    ..pre
                })
                &&& post.outbox =~= pre.outbox + seq![
                    Effect::Transfer(
                        Transfer {
                            token: pre.settlement_token->0,
                            from: env.contract,
                            to: investor,
                            amount: paid,
                        },
                    ),
                    Effect::Publish(Event::Interest { investor, amount: paid }),
                ]
            }
        }),
{
    let held = pre.position(investor);
    lemma_worth(
        held.shares as int,
        held.reward_debt as int,
        held.credited as int,
        pre.acc as int,
    );
}

// --- the mortgage pool ---

/// Only the mortgage pool that was wired commits, frees, lends, banks or writes off
/// anything, and it can always do so within the figures: commit what is free, free or
/// lend what is committed, bank any payment that is not nothing, write off any
/// positive sum.
pub proof fn law_the_mortgage_pool_is_served(
    pool: LendingPoolModel,
    caller: Address,
    amount: i128,
    interest: i128,
)
    ensures
        ({
            let wired = pool.mortgage_pool is Some;
            let trusted = pool.mortgage_pool == Some(caller);
            let free = pool.totals.total_capital - pool.totals.total_reserved;
            let funded = pool.settlement_token is Some;
            &&& match pool.reserve_refusal(caller, amount) {
                None => trusted && 0 < amount <= free,
                Some(Error::MortgagePoolNotSet) => !wired,
                Some(Error::NotAuthorized) => wired && !trusted,
                Some(Error::InvalidAmount) => trusted && amount <= 0,
                Some(Error::InsufficientAvailable) => trusted && amount > 0 && amount > free,
                Some(_) => false,
            }
            &&& match pool.unreserve_refusal(caller, amount) {
                None => trusted && 0 < amount <= pool.totals.total_reserved,
                Some(Error::MortgagePoolNotSet) => !wired,
                Some(Error::NotAuthorized) => wired && !trusted,
                Some(Error::InvalidAmount) => trusted && amount <= 0,
                Some(Error::InsufficientReserved) => trusted && amount > 0 && amount
                    > pool.totals.total_reserved,
                Some(_) => false,
            }
            &&& match pool.disburse_refusal(caller, amount) {
                None => trusted && 0 < amount <= pool.totals.total_reserved && funded,
                Some(Error::MortgagePoolNotSet) => !wired,
                Some(Error::NotAuthorized) => wired && !trusted,
                Some(Error::InvalidAmount) => trusted && amount <= 0,
                Some(Error::InsufficientReserved) => trusted && amount > 0 && amount
                    > pool.totals.total_reserved,
                Some(Error::NotInitialized) => trusted && 0 < amount
                    <= pool.totals.total_reserved && !funded,
                Some(_) => false,
            }
            &&& match pool.repay_refusal(caller, amount, interest) {
                None => trusted && amount >= 0 && interest >= 0 && amount + interest > 0 && funded,
                Some(Error::MortgagePoolNotSet) => !wired,
                Some(Error::NotAuthorized) => wired && !trusted,
                Some(Error::InvalidAmount) => trusted && (amount < 0 || interest < 0 || (amount
                    == 0 && interest == 0)),
                Some(Error::NotInitialized) => trusted && amount >= 0 && interest >= 0 && amount
                    + interest > 0 && !funded,
                Some(_) => false,
            }
            &&& match pool.write_off_refusal(caller, amount) {
                None => trusted && amount > 0,
                Some(Error::MortgagePoolNotSet) => !wired,
                Some(Error::NotAuthorized) => wired && !trusted,
                Some(Error::InvalidAmount) => trusted && amount <= 0,
                Some(_) => false,
            }
        }),
{
}

/// Committing capital, freeing it and writing a loan off move figures on the books and
/// no money: what is committed goes up or down by the sum, and a loss moves the sum
/// from what is lent to what is lost.
pub proof fn law_commitments_move_no_money(
    pre: LendingPoolModel,
    post: LendingPoolModel,
    env: Env,
    caller: Address,
    amount: i128,
)
    ensures
        pre.takes(post, env, Step::Reserve { caller, amount }) ==> {
            let total_reserved = post.totals.total_reserved;
            &&& total_reserved == pre.totals.total_reserved + amount
            &&& post == (LendingPoolModel {
                totals: PoolState { total_reserved, ..pre.totals },
                outbox: post.outbox,
                ..pre
            })
            &&& post.outbox =~= pre.outbox + seq![
                Effect::Publish(Event::Reserve { amount, total_reserved }),
            ]
        },
        pre.takes(post, env, Step::Unreserve { caller, amount }) ==> {
            let total_reserved = post.totals.total_reserved;
            &&& total_reserved == pre.totals.total_reserved - amount
            &&& post == (LendingPoolModel {
                totals: PoolState { total_reserved, ..pre.totals },
                outbox: post.outbox,
                ..pre
            })
            &&& post.outbox =~= pre.outbox + seq![
                Effect::Publish(Event::Unreserve { amount, total_reserved }),
            ]
        },
        pre.takes(post, env, Step::WriteOff { caller, principal: amount }) ==> {
            let total_lent = post.totals.total_lent;
            let total_written_off = post.totals.total_written_off;
            &&& total_lent == pre.totals.total_lent - amount
            &&& total_written_off == pre.totals.total_written_off + amount
            &&& post == (LendingPoolModel {
                totals: PoolState { total_lent, total_written_off, ..pre.totals },
                outbox: post.outbox,
                ..pre
            })
            &&& post.outbox =~= pre.outbox + seq![
                Effect::Publish(Event::WriteOff { principal: amount, total_written_off }),
            ]
        },
{
}

/// Lending pays the whole sum to the party named, out of committed capital: the
/// capital and the commitment both fall by it and what is lent rises by it.
pub proof fn law_lending_spends_the_commitment(
    pre: LendingPoolModel,
    post: LendingPoolModel,
    env: Env,
    caller: Address,
    to: Address,
    amount: i128,
)
    requires
        pre.takes(post, env, Step::Disburse { caller, to, amount }),
    ensures
        ({
            let total_capital = post.totals.total_capital;
            let total_reserved = post.totals.total_reserved;
            let total_lent = post.totals.total_lent;
            &&& total_capital == pre.totals.total_capital - amount
            &&& total_reserved == pre.totals.total_reserved - amount
            &&& total_lent == pre.totals.total_lent + amount
            &&& post == (LendingPoolModel {
                totals: PoolState { total_capital, total_reserved, total_lent, ..pre.totals },
                outbox: post.outbox,
                ..pre
            })
            &&& post.outbox =~= pre.outbox + seq![
                Effect::Transfer(
                    Transfer { token: pre.settlement_token->0, from: env.contract, to, amount },
                ),
                Effect::Publish(Event::Disburse { to, amount, total_lent }),
            ]
        }),
{
}

/// A repayment is collected whole from the borrower. Its principal becomes capital
/// again; its interest is spread evenly over every share there is, to the last scaled
/// unit but for what does not divide, which is carried. Where there are no shares the
/// interest becomes capital too. A payment too small to make good what the carry lacks
/// reaches no share yet.
pub proof fn law_a_repayment_is_spread(
    pre: LendingPoolModel,
    post: LendingPoolModel,
    env: Env,
    caller: Address,
    from: Address,
    principal: i128,
    interest: i128,
)
    requires
        pre.takes(post, env, Step::Repay { caller, from, principal, interest }),
    ensures
        ({
            let shares = pre.totals.total_shares as int;
            let total_capital = post.totals.total_capital;
            let total_lent = post.totals.total_lent;
            let total_interest = post.totals.total_interest;
            let pot = 1_000_000_000_000 * interest + pre.carry;
            &&& total_capital == pre.totals.total_capital + principal + (if shares > 0 {
                0
            } else {
                interest as int
            })
            &&& total_lent == pre.totals.total_lent - principal
            &&& total_interest == pre.totals.total_interest + interest
            &&& interest > 0 && shares > 0 && pot >= 0 ==> {
                &&& (post.acc - pre.acc) * shares + post.carry == pot
                &&& 0 <= post.carry < shares
            }
            &&& interest > 0 && shares > 0 && pot < 0 ==> post.acc == pre.acc && post.carry == pot
            &&& interest == 0 || shares <= 0 ==> post.acc == pre.acc && post.carry == pre.carry
            &&& post == (LendingPoolModel {
                totals: PoolState { total_capital, total_lent, total_interest, ..pre.totals },
                acc: post.acc,
                carry: post.carry,
                outbox: post.outbox,
                ..pre
            })
            &&& post.outbox.len() == pre.outbox.len() + 2
            &&& post.outbox.subrange(0, pre.outbox.len() as int) =~= pre.outbox
            &&& post.outbox[pre.outbox.len() as int] matches Effect::Transfer(paid)
            &&& paid.token == pre.settlement_token->0 && paid.from == from && paid.to
                == env.contract && paid.amount == principal + interest
            &&& post.outbox.last() == Effect::Publish(Event::Repay { from, principal, interest })
        }),
{
    if interest > 0 && pre.totals.total_shares > 0 {
        law_nothing_is_lost(
            interest as int,
            pre.carry as int,
            pre.acc as int,
            pre.totals.total_shares as int,
        );
    }
}

// --- administration ---

/// The mortgage pool is wired by the admin, once, and from then on it is the one that
/// is served.
pub proof fn law_wiring_decides_who_is_served(
    pool: LendingPoolModel,
    admin: Address,
    party: Address,
)
    ensures
        ({
            let g = pool.governance;
            match pool.set_mortgage_pool_refusal(admin) {
                None => g.admin == Some(admin) && pool.mortgage_pool is None,
                Some(Error::NotInitialized) => g.admin is None,
                Some(Error::NotAuthorized) => g.admin is Some && g.admin != Some(admin),
                Some(Error::AlreadySet) => g.admin == Some(admin) && pool.mortgage_pool is Some,
                Some(_) => false,
            }
        }),
        ({
            let post = pool.wired_to(party);
            &&& post.mortgage_pool == Some(party)
            &&& post.caller_refusal(party) is None
            &&& post == (LendingPoolModel { mortgage_pool: post.mortgage_pool, ..pool })
        }),
{
}

/// The admin may schedule an upgrade while none waits. Carrying it out asks for that
/// very code, once, and changes nothing else.
pub proof fn law_a_scheduled_upgrade_is_asked_for(pool: LendingPoolModel, admin: Address)
    ensures
        forall|now: u64|
            pool.governance.eta_fits(now) ==> #[trigger] pool.schedule_fits(admin, now),
        ({
            let g = pool.governance;
            let idle = g.admin == Some(admin) && g.scheduled is None;
            match pool.schedule_refusal(admin) {
                None => idle && g.timelock_secs is Some,
                Some(Error::NotAuthorized) => g.admin is Some && g.admin != Some(admin),
                Some(Error::ActionPending) => g.admin == Some(admin) && g.scheduled is Some,
                Some(Error::NotInitialized) => g.admin is None || (idle && g.timelock_secs is None),
                Some(_) => false,
            }
        }),
        ({
            let post = pool.executed();
            &&& post.governance.scheduled is None
            &&& post.governance.admin == pool.governance.admin
            &&& post.governance.pending_admin == pool.governance.pending_admin
            &&& post.governance.timelock_secs == pool.governance.timelock_secs
            &&& pool.governance.scheduled->0.action matches Action::Upgrade(wasm_hash)
                ==> post.outbox =~= pool.outbox + seq![Effect::Upgrade(wasm_hash)]
            &&& post == (LendingPoolModel {
                governance: post.governance,
                outbox: post.outbox,
                ..pool
            })
        }),
{
}

// --- ranges ---

/// Figures of up to a million million million, with an accumulator of up to as much,
/// are never out of range.
pub proof fn law_ordinary_sums_are_in_range(
    pool: LendingPoolModel,
    caller: Address,
    investor: Address,
    amount: i128,
    interest: i128,
)
    requires
        pool.sound(),
        ({
            let most = 1_000_000_000_000_000_000int;
            let held = pool.position(investor);
            &&& 0 <= amount <= most && 0 <= interest <= most
            &&& held.shares <= most && pool.acc <= most
            &&& held.reward_debt <= most * most && held.credited <= most * most
            &&& -most * most <= pool.carry <= most * most
            &&& pool.totals.total_capital <= most
            &&& 0 <= pool.totals.total_lent <= most
            &&& 0 <= pool.totals.total_interest <= most
            &&& 0 <= pool.totals.total_written_off <= most
            &&& 0 <= pool.totals.total_shares <= most
        }),
    ensures
        pool.deposit_fits(investor, amount),
        pool.withdraw_fits(investor, amount),
        pool.position(investor).settle_fits(pool.acc),
        pool.reserve_fits(caller, amount),
        pool.disburse_fits(caller, amount),
        pool.repay_fits(caller, amount, interest),
        pool.write_off_fits(caller, amount),
{
    let most = 1_000_000_000_000_000_000int;
    let held = pool.position(investor);
    let acc = pool.acc as int;
    let shares = held.shares as int;
    assert(most * most == 1_000_000_000_000_000_000_000_000_000_000_000_000int)
        by (nonlinear_arith)
        requires
            most == 1_000_000_000_000_000_000int,
    ;
    lemma_worth(shares, held.reward_debt as int, held.credited as int, acc);
    assert(0 <= shares * acc <= most * most) by (nonlinear_arith)
        requires
            0 <= shares <= most,
            0 <= acc <= most,
    ;
    lemma_worth(shares + amount, held.reward_debt as int, held.credited as int, acc);
    assert(0 <= (shares + amount) * acc <= 2 * (most * most)) by (nonlinear_arith)
        requires
            0 <= shares <= most,
            0 <= amount <= most,
            0 <= acc <= most,
    ;
    if amount <= shares {
        lemma_worth(shares - amount, held.reward_debt as int, held.credited as int, acc);
        assert(0 <= (shares - amount) * acc <= most * most) by (nonlinear_arith)
            requires
                0 <= shares - amount <= most,
                0 <= acc <= most,
        ;
    }
    if interest > 0 && pool.totals.total_shares > 0 {
        let pot = 1_000_000_000_000 * interest + pool.carry;
        let out = pool.totals.total_shares as int;
        if pot >= 0 {
            assert(0 <= pot / out <= pot) by (nonlinear_arith)
                requires
                    pot >= 0,
                    out >= 1,
            ;
        }
    }
}

// --- deployment ---

/// The lending pool starts out with what it was configured with and nothing else:
/// nothing on record, nothing scheduled and nothing asked of anybody.
pub proof fn law_deployed_as_configured(
    admin: Address,
    settlement_token: Address,
    timelock_secs: u64,
)
    ensures
        ({
            let pool = LendingPoolModel::deployed(admin, settlement_token, timelock_secs);
            &&& pool.governance.admin == Some(admin)
            &&& pool.governance.pending_admin is None
            &&& pool.governance.timelock_secs == Some(timelock_secs)
            &&& pool.governance.scheduled is None
            &&& pool.settlement_token == Some(settlement_token)
            &&& pool.mortgage_pool is None
            &&& pool.totals.total_capital == 0
            &&& pool.totals.total_reserved == 0
            &&& pool.totals.total_lent == 0
            &&& pool.totals.total_interest == 0
            &&& pool.totals.total_written_off == 0
            &&& pool.totals.total_shares == 0
            &&& pool.acc == 0
            &&& pool.carry == 0
            &&& pool.positions.dom() =~= Set::empty()
            &&& pool.outbox.len() == 0
        }),
{
}

// --- refusals ---

/// Each number stands for one refusal, and every refusal has one.
pub proof fn law_a_number_tells_the_refusal(refusal: Error)
    ensures
        match refusal.number() {
            2 => refusal == Error::NotInitialized,
            3 => refusal == Error::NotAuthorized,
            4 => refusal == Error::AlreadySet,
            5 => refusal == Error::NoPendingAction,
            6 => refusal == Error::ActionPending,
            7 => refusal == Error::TimelockNotExpired,
            8 => refusal == Error::InvalidAmount,
            9 => refusal == Error::InsufficientShares,
            10 => refusal == Error::InsufficientAvailable,
            11 => refusal == Error::InsufficientReserved,
            12 => refusal == Error::MortgagePoolNotSet,
            13 => refusal == Error::NothingDeposited,
            14 => refusal == Error::NothingToClaim,
            _ => false,
        },
{
}

/// What the governing rules refuse is refused under the same name, and what they grant
/// is granted.
pub proof fn law_governance_speaks_through(refusal: Option<GovernanceError>)
    ensures
        match admin_outcome(refusal) {
            Ok(_) => refusal is None,
            Err(Error::NotInitialized) => refusal == Some(GovernanceError::NotInitialized),
            Err(Error::NotAuthorized) => refusal == Some(GovernanceError::NotAuthorized),
            Err(Error::NoPendingAction) => refusal == Some(GovernanceError::NoPendingAction),
            Err(Error::ActionPending) => refusal == Some(GovernanceError::ActionPending),
            Err(Error::TimelockNotExpired) => refusal == Some(GovernanceError::TimelockNotExpired),
            Err(_) => false,
        },
        refusal is Some ==> admin_outcome(refusal) == Err::<(), Error>(Error::of(refusal->0)),
{
}

} // verus!
