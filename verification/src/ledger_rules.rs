//! What each call on the share ledger does, in its own figures.

use crate::accrual::{law_nothing_is_lost, lemma_worth};
use crate::governance::GovernanceError;
use crate::host::Address;
use crate::ledger_laws::Step;
use crate::share_ledger::{
    admin_outcome, Action, Effect, Error, Event, Position, ShareLedgerModel,
};
use crate::table::StakeOf;
use vstd::prelude::*;

verus! {

/// A holder's stake in a property, the shares issued of it, its accumulator and its
/// carry are what is on record for that property, and nothing where nothing is.
pub proof fn law_figures_are_read_off_the_ledger(
    ledger: ShareLedgerModel,
    property: u64,
    holder: Address,
)
    ensures
        ({
            let key = StakeOf { property, party: holder };
            &&& ledger.position(property, holder) == if ledger.positions.contains_key(key) {
                ledger.positions[key]
            } else {
                Position { balance: 0, reward_debt: 0, credited: 0 }
            }
            &&& ledger.issued_of(property) == if ledger.issued.contains_key(property) {
                ledger.issued[property]
            } else {
                0
            }
            &&& ledger.acc_of(property) == if ledger.acc.contains_key(property) {
                ledger.acc[property]
            } else {
                0
            }
            &&& ledger.carry_of(property) == if ledger.carry.contains_key(property) {
                ledger.carry[property]
            } else {
                0
            }
            &&& ledger.accrued(property, holder) == ledger.position(property, holder).accrued(
                ledger.acc_of(property),
            )
        }),
{
}

/// What a stake is owed is what it was credited with and what its shares have earned
/// since, in whole units rounded down: a share earns the millionth of a millionth part
/// of the accumulator.
pub proof fn law_a_stake_earns_by_its_shares(position: Position, acc: i128)
    requires
        position.balance >= 0,
        acc >= 0,
    ensures
        ({
            let earned = position.accrued(acc) - position.credited + position.reward_debt;
            &&& earned >= 0
            &&& 1_000_000_000_000 * earned <= position.balance * acc
            &&& position.balance * acc < 1_000_000_000_000 * (earned + 1)
        }),
{
    lemma_worth(
        position.balance as int,
        position.reward_debt as int,
        position.credited as int,
        acc as int,
    );
}

/// Settling a stake turns what it has earned into credit: its shares stay, it is owed
/// what it was owed, and from then on it counts what it earns afresh.
pub proof fn law_settling_turns_earnings_into_credit(
    before: Position,
    after: Position,
    acc: i128,
)
    requires
        before.balance >= 0,
        acc >= 0,
        before.settled(after, acc),
    ensures
        ({
            let scale = 1_000_000_000_000int;
            &&& after.balance == before.balance
            &&& after.credited == before.accrued(acc)
            &&& after.accrued(acc) == before.accrued(acc)
            &&& scale * after.reward_debt <= before.balance * acc < scale * (after.reward_debt + 1)
        }),
{
    lemma_worth(
        before.balance as int,
        before.reward_debt as int,
        before.credited as int,
        acc as int,
    );
}

/// `now` is the stake `held` with its shares changed by `change`: it keeps what it was
/// owed and its new shares have earned nothing yet.
pub open spec fn is_rebooked(held: Position, now: Position, acc: i128, change: int) -> bool {
    let scale = 1_000_000_000_000int;
    &&& now.balance == held.balance + change >= 0
    &&& now.credited == held.accrued(acc)
    &&& now.accrued(acc) == held.accrued(acc)
    &&& scale * now.reward_debt <= now.balance * acc < scale * (now.reward_debt + 1)
}

proof fn lemma_rebooked(held: Position, now: Position, acc: i128, change: int)
    requires
        held.sound(acc),
        acc >= 0,
        held.balance + change >= 0,
        held.moved(now, acc, change),
    ensures
        is_rebooked(held, now, acc, change),
        held.balance * acc >= 0,
        now.balance * acc >= 0,
{
    lemma_worth(
        held.balance as int,
        held.reward_debt as int,
        held.credited as int,
        acc as int,
    );
    lemma_worth(now.balance as int, now.reward_debt as int, now.credited as int, acc as int);
    assert(held.balance * acc >= 0) by (nonlinear_arith)
        requires
            held.balance >= 0,
            acc >= 0,
    ;
    assert(now.balance * acc >= 0) by (nonlinear_arith)
        requires
            now.balance >= 0,
            acc >= 0,
    ;
}

// --- issue and transfer ---

/// The offering that was wired can issue any positive number of shares, of any
/// property and to anybody, and nobody else can. A holder can pass on any part of
/// what they hold to anybody but themselves.
pub proof fn law_shares_are_issued_and_passed_on(
    ledger: ShareLedgerModel,
    caller: Address,
    property: u64,
    from: Address,
    to: Address,
    shares: i128,
)
    ensures
        ({
            let key = StakeOf { property, party: from };
            let held = if ledger.positions.contains_key(key) {
                ledger.positions[key].balance as int
            } else {
                0
            };
            let trusted = ledger.offering == Some(caller);
            &&& match ledger.issue_refusal(caller, shares) {
                None => trusted && shares > 0,
                Some(Error::OfferingNotSet) => ledger.offering is None,
                Some(Error::NotAuthorized) => ledger.offering is Some && !trusted,
                Some(Error::InvalidAmount) => trusted && shares <= 0,
                Some(_) => false,
            }
            &&& match ledger.transfer_refusal(property, from, to, shares) {
                None => 0 < shares <= held && from != to,
                Some(Error::InvalidAmount) => shares <= 0,
                Some(Error::SelfTransfer) => shares > 0 && from == to,
                Some(Error::InsufficientShares) => shares > 0 && from != to && shares > held,
                Some(_) => false,
            }
        }),
{
}

/// Issuing adds the shares to what the party holds and to what is out of the property,
/// and nothing else. The fraction of a unit that this leaves uncounted comes out of the
/// carry.
pub proof fn law_an_issue_adds_shares(
    pre: ShareLedgerModel,
    post: ShareLedgerModel,
    caller: Address,
    property: u64,
    to: Address,
    shares: i128,
)
    requires
        pre.sound(),
        pre.takes(post, Step::Issue { caller, property, to, shares }),
    ensures
        ({
            let key = StakeOf { property, party: to };
            let held = pre.position(property, to);
            let now = post.positions[key];
            let acc = pre.acc_of(property);
            let scale = 1_000_000_000_000int;
            &&& is_rebooked(held, now, acc, shares as int)
            &&& post.positions == pre.positions.insert(key, now)
            &&& post.issued_of(property) == pre.issued_of(property) + shares
            &&& post.issued == pre.issued.insert(property, post.issued_of(property))
            &&& post.carry == pre.carry.insert(property, post.carry_of(property))
            &&& post.carry_of(property) + (now.balance * acc) % scale == pre.carry_of(property) + (
            held.balance * acc) % scale
            &&& post.acc == pre.acc
            &&& post.outbox =~= pre.outbox + seq![
                Effect::Publish(
                    Event::Issue { property, to, shares, issued: post.issued_of(property) },
                ),
            ]
            &&& post.governance == pre.governance && post.offering == pre.offering
                && post.distributor == pre.distributor
        }),
{
    let key = StakeOf { property, party: to };
    assert(pre.balanced(property));
    lemma_rebooked(
        pre.position(property, to),
        post.positions[key],
        pre.acc_of(property),
        shares as int,
    );
}

/// A transfer takes the shares from one stake and adds them to another of the same
/// property, and nothing else. Both parties keep what they were owed. The fractions of
/// a unit that this leaves uncounted come out of the carry.
pub proof fn law_a_transfer_moves_shares(
    pre: ShareLedgerModel,
    post: ShareLedgerModel,
    property: u64,
    from: Address,
    to: Address,
    shares: i128,
)
    requires
        pre.sound(),
        pre.takes(post, Step::Transfer { property, from, to, shares }),
    ensures
        ({
            let seller = StakeOf { property, party: from };
            let buyer = StakeOf { property, party: to };
            let acc = pre.acc_of(property);
            let scale = 1_000_000_000_000int;
            &&& is_rebooked(pre.position(property, from), post.positions[seller], acc, -shares)
            &&& is_rebooked(
                pre.position(property, to),
                post.positions[buyer],
                acc,
                shares as int,
            )
            &&& post.positions =~= pre.positions.insert(seller, post.positions[seller]).insert(
                buyer,
                post.positions[buyer],
            )
            &&& post.issued == pre.issued
            &&& post.acc == pre.acc
            &&& post.carry == pre.carry.insert(property, post.carry_of(property))
            &&& post.carry_of(property) + (post.positions[seller].balance * acc) % scale + (
            post.positions[buyer].balance * acc) % scale == pre.carry_of(property) + (pre.position(
                property,
                from,
            ).balance * acc) % scale + (pre.position(property, to).balance * acc) % scale
            &&& post.outbox =~= pre.outbox + seq![
                Effect::Publish(Event::Transfer { property, from, to, shares }),
            ]
            &&& post.governance == pre.governance && post.offering == pre.offering
                && post.distributor == pre.distributor
        }),
{
    let seller = StakeOf { property, party: from };
    let buyer = StakeOf { property, party: to };
    assert(pre.balanced(property));
    lemma_rebooked(
        pre.position(property, from),
        post.positions[seller],
        pre.acc_of(property),
        -shares,
    );
    lemma_rebooked(
        pre.position(property, to),
        post.positions[buyer],
        pre.acc_of(property),
        shares as int,
    );
}

// --- income ---

/// The distributor that was wired can pay in any positive sum on a property that has
/// shares out, and can have any holder settled at any time. Nobody else can do either.
pub proof fn law_the_distributor_is_served(
    ledger: ShareLedgerModel,
    caller: Address,
    property: u64,
    amount: i128,
)
    ensures
        ({
            let trusted = ledger.distributor == Some(caller);
            let out = if ledger.issued.contains_key(property) {
                ledger.issued[property] as int
            } else {
                0
            };
            &&& match ledger.accrue_refusal(caller, property, amount) {
                None => trusted && amount > 0 && out > 0,
                Some(Error::DistributorNotSet) => ledger.distributor is None,
                Some(Error::NotAuthorized) => ledger.distributor is Some && !trusted,
                Some(Error::InvalidAmount) => trusted && amount <= 0,
                Some(Error::NothingIssued) => trusted && amount > 0 && out <= 0,
                Some(_) => false,
            }
            &&& match ledger.payer_refusal(caller) {
                None => trusted,
                Some(Error::DistributorNotSet) => ledger.distributor is None,
                Some(Error::NotAuthorized) => ledger.distributor is Some && !trusted,
                Some(_) => false,
            }
        }),
{
}

/// Income is spread evenly over every share out of the property, to the last scaled
/// unit but for what does not divide, which is carried. A sum too small to make good
/// what the carry lacks reaches no share yet. No stake is visited and no other property
/// is touched.
pub proof fn law_income_is_spread(
    pre: ShareLedgerModel,
    post: ShareLedgerModel,
    caller: Address,
    property: u64,
    amount: i128,
)
    requires
        pre.takes(post, Step::Accrue { caller, property, amount }),
    ensures
        ({
            let shares = pre.issued_of(property);
            let pot = 1_000_000_000_000 * amount + pre.carry_of(property);
            let growth = post.acc_of(property) - pre.acc_of(property);
            &&& shares > 0
            &&& pot >= 0 ==> growth * shares + post.carry_of(property) == pot && 0
                <= post.carry_of(property) < shares
            &&& pot < 0 ==> growth == 0 && post.carry_of(property) == pot
            &&& post == (ShareLedgerModel {
                acc: pre.acc.insert(property, post.acc_of(property)),
                carry: pre.carry.insert(property, post.carry_of(property)),
                outbox: post.outbox,
                ..pre
            })
            &&& post.outbox =~= pre.outbox + seq![
                Effect::Publish(Event::Accrue { property, amount, issued: shares }),
            ]
        }),
{
    law_nothing_is_lost(
        amount as int,
        pre.carry_of(property) as int,
        pre.acc_of(property) as int,
        pre.issued_of(property) as int,
    );
}

/// Settling a holder hands out all that they are owed and leaves their shares, and
/// their right to what those earn next, as they were. It is announced where it was
/// anything.
pub proof fn law_settling_hands_out_what_is_owed(
    pre: ShareLedgerModel,
    post: ShareLedgerModel,
    caller: Address,
    property: u64,
    holder: Address,
    taken: i128,
)
    requires
        pre.sound(),
        pre.takes(post, Step::Take { caller, property, holder, taken }),
    ensures
        ({
            let key = StakeOf { property, party: holder };
            let held = pre.position(property, holder);
            let now = post.positions[key];
            let acc = pre.acc_of(property);
            let scale = 1_000_000_000_000int;
            &&& taken == held.accrued(acc)
            &&& taken >= 0
            &&& now.balance == held.balance
            &&& now.credited == 0
            &&& now.accrued(acc) == 0
            &&& scale * now.reward_debt <= held.balance * acc < scale * (now.reward_debt + 1)
            &&& post == (ShareLedgerModel {
                positions: pre.positions.insert(key, now),
                outbox: post.outbox,
                ..pre
            })
            &&& taken > 0 ==> post.outbox =~= pre.outbox + seq![
                Effect::Publish(Event::Settled { property, holder, owed: taken }),
            ]
            &&& taken == 0 ==> post.outbox == pre.outbox
        }),
{
    let held = pre.position(property, holder);
    assert(pre.balanced(property));
    lemma_worth(
        held.balance as int,
        held.reward_debt as int,
        held.credited as int,
        pre.acc_of(property) as int,
    );
}

// --- administration ---

/// The offering and the distributor are wired by the admin, each once and on its own,
/// and from then on are the ones that are served.
pub proof fn law_wiring_decides_who_is_served(
    ledger: ShareLedgerModel,
    admin: Address,
    party: Address,
)
    ensures
        ({
            let g = ledger.governance;
            match ledger.set_offering_refusal(admin) {
                None => g.admin == Some(admin) && ledger.offering is None,
                Some(Error::NotInitialized) => g.admin is None,
                Some(Error::NotAuthorized) => g.admin is Some && g.admin != Some(admin),
                Some(Error::AlreadySet) => g.admin == Some(admin) && ledger.offering is Some,
                Some(_) => false,
            }
        }),
        ({
            let g = ledger.governance;
            match ledger.set_distributor_refusal(admin) {
                None => g.admin == Some(admin) && ledger.distributor is None,
                Some(Error::NotInitialized) => g.admin is None,
                Some(Error::NotAuthorized) => g.admin is Some && g.admin != Some(admin),
                Some(Error::AlreadySet) => g.admin == Some(admin) && ledger.distributor is Some,
                Some(_) => false,
            }
        }),
        ({
            let post = ledger.with_offering(party);
            &&& post.offering == Some(party)
            &&& post.issuer_refusal(party) is None
            &&& post == (ShareLedgerModel { offering: post.offering, ..ledger })
        }),
        ({
            let post = ledger.with_distributor(party);
            &&& post.distributor == Some(party)
            &&& post.payer_refusal(party) is None
            &&& post == (ShareLedgerModel { distributor: post.distributor, ..ledger })
        }),
{
}

/// The admin may schedule an upgrade while none waits. Carrying it out asks for that
/// very code, once, and changes nothing else.
pub proof fn law_a_scheduled_upgrade_is_asked_for(ledger: ShareLedgerModel, admin: Address)
    ensures
        forall|now: u64|
            ledger.governance.eta_fits(now) ==> #[trigger] ledger.schedule_fits(admin, now),
        ({
            let g = ledger.governance;
            let idle = g.admin == Some(admin) && g.scheduled is None;
            match ledger.schedule_refusal(admin) {
                None => idle && g.timelock_secs is Some,
                Some(Error::NotAuthorized) => g.admin is Some && g.admin != Some(admin),
                Some(Error::ActionPending) => g.admin == Some(admin) && g.scheduled is Some,
                Some(Error::NotInitialized) => g.admin is None || (idle && g.timelock_secs is None),
                Some(_) => false,
            }
        }),
        ({
            let post = ledger.executed();
            &&& post.governance.scheduled is None
            &&& post.governance.admin == ledger.governance.admin
            &&& post.governance.pending_admin == ledger.governance.pending_admin
            &&& post.governance.timelock_secs == ledger.governance.timelock_secs
            &&& ledger.governance.scheduled->0.action matches Action::Upgrade(wasm_hash)
                ==> post.outbox =~= ledger.outbox + seq![Effect::Upgrade(wasm_hash)]
            &&& post == (ShareLedgerModel {
                governance: post.governance,
                outbox: post.outbox,
                ..ledger
            })
        }),
{
}

// --- ranges ---

/// Holdings and payments of up to a million million million, with an accumulator of up
/// to as much, are never out of range.
pub proof fn law_ordinary_holdings_are_in_range(
    ledger: ShareLedgerModel,
    caller: Address,
    property: u64,
    from: Address,
    to: Address,
    shares: i128,
)
    requires
        ledger.sound(),
        ({
            let most = 1_000_000_000_000_000_000int;
            let seller = ledger.position(property, from);
            let buyer = ledger.position(property, to);
            &&& 0 <= shares <= most && ledger.acc_of(property) <= most
            &&& seller.balance <= most && buyer.balance <= most
            &&& seller.reward_debt <= most * most && seller.credited <= most * most
            &&& buyer.reward_debt <= most * most && buyer.credited <= most * most
            &&& -most * most <= ledger.carry_of(property) <= most * most
            &&& ledger.issued_of(property) <= most
        }),
    ensures
        ledger.issue_fits(caller, property, to, shares),
        ledger.transfer_fits(property, from, to, shares),
        ledger.accrue_fits(caller, property, shares),
        ledger.take_fits(caller, property, to),
{
    let most = 1_000_000_000_000_000_000int;
    let acc = ledger.acc_of(property) as int;
    let seller = ledger.position(property, from);
    let buyer = ledger.position(property, to);
    assert(ledger.balanced(property));
    assert(most * most == 1_000_000_000_000_000_000_000_000_000_000_000_000int)
        by (nonlinear_arith)
        requires
            most == 1_000_000_000_000_000_000int,
    ;
    let bought = buyer.balance as int;
    let sold = seller.balance as int;
    lemma_worth(bought, buyer.reward_debt as int, buyer.credited as int, acc);
    lemma_worth(sold, seller.reward_debt as int, seller.credited as int, acc);
    lemma_worth(bought + shares, buyer.reward_debt as int, buyer.credited as int, acc);
    assert(0 <= bought * acc <= most * most) by (nonlinear_arith)
        requires
            0 <= bought <= most,
            0 <= acc <= most,
    ;
    assert(0 <= sold * acc <= most * most) by (nonlinear_arith)
        requires
            0 <= sold <= most,
            0 <= acc <= most,
    ;
    assert(0 <= (bought + shares) * acc <= 2 * (most * most)) by (nonlinear_arith)
        requires
            0 <= bought <= most,
            0 <= shares <= most,
            0 <= acc <= most,
    ;
    if shares <= sold {
        lemma_worth(sold - shares, seller.reward_debt as int, seller.credited as int, acc);
        assert(0 <= (sold - shares) * acc <= most * most) by (nonlinear_arith)
            requires
                0 <= sold - shares <= most,
                0 <= acc <= most,
        ;
    }
    if shares > 0 && ledger.issued_of(property) > 0 {
        let pot = 1_000_000_000_000 * shares + ledger.carry_of(property);
        let out = ledger.issued_of(property) as int;
        if pot >= 0 {
            assert(0 <= pot / out <= pot) by (nonlinear_arith)
                requires
                    pot >= 0,
                    out >= 1,
            ;
        }
    }
}

// --- deployment ---

/// The share ledger starts out with what it was configured with and nothing else:
/// nothing on record, nothing scheduled and nothing asked of anybody.
pub proof fn law_deployed_as_configured(
    admin: Address,
    timelock_secs: u64,
)
    ensures
        ({
            let ledger = ShareLedgerModel::deployed(admin, timelock_secs);
            &&& ledger.governance.admin == Some(admin)
            &&& ledger.governance.pending_admin is None
            &&& ledger.governance.timelock_secs == Some(timelock_secs)
            &&& ledger.governance.scheduled is None
            &&& ledger.offering is None
            &&& ledger.distributor is None
            &&& ledger.positions.dom() =~= Set::empty()
            &&& ledger.issued.dom() =~= Set::empty()
            &&& ledger.acc.dom() =~= Set::empty()
            &&& ledger.carry.dom() =~= Set::empty()
            &&& ledger.outbox.len() == 0
        }),
{
}

// --- refusals ---

/// Each number stands for one refusal, and every refusal has one.
pub proof fn law_a_number_tells_the_refusal(refusal: Error)
    ensures
        match refusal.number() {
            2 => refusal == Error::NotInitialized,
            3 => refusal == Error::NotAuthorized,
            4 => refusal == Error::AlreadySet,
            5 => refusal == Error::NoPendingAction,
            6 => refusal == Error::ActionPending,
            7 => refusal == Error::TimelockNotExpired,
            8 => refusal == Error::InvalidAmount,
            9 => refusal == Error::InsufficientShares,
            10 => refusal == Error::OfferingNotSet,
            11 => refusal == Error::DistributorNotSet,
            12 => refusal == Error::NothingIssued,
            13 => refusal == Error::SelfTransfer,
            _ => false,
        },
{
}

/// What the governing rules refuse is refused under the same name, and what they grant
/// is granted.
pub proof fn law_governance_speaks_through(refusal: Option<GovernanceError>)
    ensures
        match admin_outcome(refusal) {
            Ok(_) => refusal is None,
            Err(Error::NotInitialized) => refusal == Some(GovernanceError::NotInitialized),
            Err(Error::NotAuthorized) => refusal == Some(GovernanceError::NotAuthorized),
            Err(Error::NoPendingAction) => refusal == Some(GovernanceError::NoPendingAction),
            Err(Error::ActionPending) => refusal == Some(GovernanceError::ActionPending),
            Err(Error::TimelockNotExpired) => refusal == Some(GovernanceError::TimelockNotExpired),
            Err(_) => false,
        },
        refusal is Some ==> admin_outcome(refusal) == Err::<(), Error>(Error::of(refusal->0)),
{
}

} // verus!
