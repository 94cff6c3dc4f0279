//! What each call on the offering does, in the sale's own figures.

use crate::governance::GovernanceError;
use crate::host::{Address, Env, Transfer};
use crate::offering::{
    admin_outcome, Action, Effect, Error, Event, LedgerCall, OfferingModel, OfferingTerms,
    RegistryCall, Sale, SaleStatus,
};
use crate::offering_laws::Step;
use crate::table::StakeOf;
use vstd::prelude::*;

verus! {

/// What an investor has subscribed for is what is on record under their name for that
/// property, and nothing where nothing is.
pub proof fn law_subscriptions_are_read_off_the_book(
    offering: OfferingModel,
    property: u64,
    investor: Address,
)
    ensures
        ({
            let key = StakeOf { property, party: investor };
            offering.subscription(property, investor) == if offering.subscriptions.contains_key(
                key,
            ) {
                offering.subscriptions[key]
            } else {
                0
            }
        }),
{
}

// --- opening ---

/// A sponsor can put a property on sale, once, where the registry offers it in their
/// name, for any time and with any soft cap from one share to all of them. Nothing
/// else stands in the way, and without any of these it is refused for that reason.
pub proof fn law_an_offered_property_goes_on_sale(
    offering: OfferingModel,
    sponsor: Address,
    property: u64,
    min_shares: i128,
    duration_secs: u64,
    terms: OfferingTerms,
)
    ensures
        ({
            let fresh = duration_secs > 0 && !offering.sales.contains_key(property);
            let known = offering.registry is Some;
            let mine = terms.sponsor == sponsor;
            let reachable = 0 < min_shares <= terms.total_shares;
            match offering.open_refusal(sponsor, property, min_shares, duration_secs, terms) {
                None => fresh && known && terms.offered && mine && reachable,
                Some(Error::InvalidDuration) => duration_secs == 0,
                Some(Error::SaleExists) => duration_secs > 0 && offering.sales.contains_key(
                    property,
                ),
                Some(Error::NotInitialized) => fresh && !known,
                Some(Error::PropertyNotOffered) => fresh && known && !terms.offered,
                Some(Error::NotSponsor) => fresh && known && terms.offered && !mine,
                Some(Error::InvalidSoftCap) => fresh && known && terms.offered && mine
                    && !reachable,
                Some(_) => false,
            }
        }),
        match offering.before_open_refusal(property, duration_secs) {
            None => duration_secs > 0 && !offering.sales.contains_key(property)
                && offering.registry is Some,
            Some(refusal) => offering.open_refusal(
                sponsor,
                property,
                min_shares,
                duration_secs,
                terms,
            ) == Some(refusal),
        },
{
}

/// A sale opens on the registry's terms, with nothing subscribed, and runs for the time
/// asked for from that moment. No money moves and no other sale is touched.
pub proof fn law_a_sale_opens_on_the_registry_terms(
    pre: OfferingModel,
    post: OfferingModel,
    env: Env,
    sponsor: Address,
    property: u64,
    min_shares: i128,
    duration_secs: u64,
    terms: OfferingTerms,
)
    requires
        pre.takes(
            post,
            env,
            Step::Open { sponsor, property, min_shares, duration_secs, terms },
        ),
    ensures
        ({
            let sale = post.sales[property];
            &&& post.sales == pre.sales.insert(property, sale)
            &&& sale.property == property && sale.sponsor == sponsor
            &&& sale.total_shares == terms.total_shares
            &&& sale.price_per_share == terms.price_per_share
            &&& sale.min_shares == min_shares && sale.subscribed == 0
            &&& sale.deadline == env.timestamp + duration_secs
            &&& sale.status == SaleStatus::Open
            &&& post.outbox =~= pre.outbox + seq![
                Effect::Publish(
                    Event::Open { property, sponsor, min_shares, deadline: sale.deadline },
                ),
            ]
            &&& post == (OfferingModel { sales: post.sales, outbox: post.outbox, ..pre })
            &&& sale == OfferingModel::new_sale(
                env,
                sponsor,
                property,
                min_shares,
                duration_secs,
                terms,
            )
        }),
{
}

// --- the book ---

/// While a sale is open and its deadline has not come, anybody can subscribe for any
/// part of what is left of it, and take back any part of what they subscribed for. At
/// the deadline both stop.
pub proof fn law_an_open_book_takes_and_gives_back(
    offering: OfferingModel,
    property: u64,
    investor: Address,
    shares: i128,
    now: u64,
)
    ensures
        ({
            let sale = offering.sales[property];
            let known = offering.sales.contains_key(property);
            let open = sale.status == SaleStatus::Open;
            let key = StakeOf { property, party: investor };
            let held = if offering.subscriptions.contains_key(key) {
                offering.subscriptions[key] as int
            } else {
                0
            };
            let running = shares > 0 && known && open && now < sale.deadline;
            let left = sale.total_shares - sale.subscribed;
            let funded = offering.settlement_token is Some;
            &&& match offering.subscribe_refusal(property, shares, now) {
                None => running && shares <= left && funded,
                Some(Error::InvalidAmount) => shares <= 0,
                Some(Error::UnknownSale) => shares > 0 && !known,
                Some(Error::SaleNotOpen) => shares > 0 && known && !open,
                Some(Error::Deadline) => shares > 0 && known && open && now >= sale.deadline,
                Some(Error::Oversubscribed) => running && shares > left,
                Some(Error::NotInitialized) => running && shares <= left && !funded,
                Some(_) => false,
            }
            &&& match offering.withdraw_refusal(property, investor, shares, now) {
                None => running && shares <= held && funded,
                Some(Error::InvalidAmount) => shares <= 0 || (running && shares > held),
                Some(Error::UnknownSale) => shares > 0 && !known,
                Some(Error::SaleNotOpen) => shares > 0 && known && !open,
                Some(Error::Deadline) => shares > 0 && known && open && now >= sale.deadline,
                Some(Error::NotInitialized) => running && shares <= held && !funded,
                Some(_) => false,
            }
        }),
{
}

/// Shares are booked at the sale's price, into the sale's escrow and out of it: the
/// investor pays, or is paid, exactly the price of every share that changes, and the
/// sale's count and their own subscription move by those shares. A subscription taken
/// back whole leaves no record. Nobody else's changes.
pub proof fn law_shares_are_booked_at_the_price(
    pre: OfferingModel,
    post: OfferingModel,
    env: Env,
    property: u64,
    investor: Address,
    shares: i128,
    change: int,
)
    requires
        pre.sound(),
        (change == shares && pre.takes(post, env, Step::Subscribe { property, investor, shares }))
            || (change == -shares && pre.takes(
            post,
            env,
            Step::Withdraw { property, investor, shares },
        )),
    ensures
        ({
            let sale = pre.sales[property];
            let now = post.sales[property];
            let key = StakeOf { property, party: investor };
            let held = if pre.subscriptions.contains_key(key) {
                pre.subscriptions[key] as int
            } else {
                0
            };
            let (from, to) = if change > 0 {
                (investor, env.contract)
            } else {
                (env.contract, investor)
            };
            let n = pre.outbox.len() as int;
            &&& post.sales == pre.sales.insert(property, now)
            &&& now.subscribed == sale.subscribed + change
            &&& now == (Sale { subscribed: now.subscribed, ..sale })
            &&& held + change >= 0
            &&& held + change == 0 ==> post.subscriptions == pre.subscriptions.remove(key)
            &&& held + change > 0 ==> post.subscriptions == pre.subscriptions.insert(
                key,
                (held + change) as i128,
            )
            &&& post == (OfferingModel {
                sales: post.sales,
                subscriptions: post.subscriptions,
                outbox: post.outbox,
                ..pre
            })
            &&& post.outbox.len() == n + 2
            &&& post.outbox.subrange(0, n) =~= pre.outbox
            &&& post.outbox[n] matches Effect::Transfer(paid)
            &&& paid.token == pre.settlement_token->0 && paid.from == from && paid.to == to
                && paid.amount == shares * sale.price_per_share
            &&& post.outbox[n + 1] == Effect::Publish(
                if change > 0 {
                    Event::Subscribe { property, investor, shares, cost: paid.amount }
                } else {
                    Event::Unsubscribe { property, investor, shares, refund: paid.amount }
                },
            )
        }),
{
    assert(pre.is_listed(property));
    let key = StakeOf { property, party: investor };
    if pre.subscriptions.contains_key(key) {
        assert(pre.subscriptions[key] > 0);
    }
}

// --- closing ---

/// Anybody can close a sale as soon as it is sold out, or from its deadline on, and
/// nobody can before, or twice. It needs the registry, for a settlement the settlement
/// asset, and the treasury only where there is a fee to send there.
pub proof fn law_a_finished_sale_can_be_closed(offering: OfferingModel, property: u64, now: u64)
    ensures
        ({
            let sale = offering.sales[property];
            let known = offering.sales.contains_key(property);
            let open = sale.status == SaleStatus::Open;
            let finished = sale.subscribed == sale.total_shares || now >= sale.deadline;
            let reached = sale.subscribed >= sale.min_shares;
            let charged = sale.subscribed * sale.price_per_share * offering.fee_bps >= 10_000;
            let equipped = offering.registry is Some && (reached ==> offering.settlement_token
                is Some && (charged ==> offering.treasury is Some));
            &&& match offering.close_refusal(property, now) {
                None => known && open && finished && equipped,
                Some(Error::UnknownSale) => !known,
                Some(Error::SaleNotOpen) => known && !open,
                Some(Error::StillOpen) => known && open && !finished,
                Some(Error::NotInitialized) => known && open && finished && !equipped,
                Some(_) => false,
            }
            &&& known ==> (sale.closable(now) <==> open && finished)
            &&& offering.verdict(property) == if reached {
                SaleStatus::Settled
            } else {
                SaleStatus::Failed
            }
        }),
{
}

/// The fee is the agreed part of the proceeds, in hundredths of a percent and rounded
/// towards nothing to a whole unit: ten thousand fees are no more than the proceeds
/// times the rate, and one unit more would be. So whatever the rate, the protocol takes
/// neither more nor less than it.
pub proof fn law_the_fee_is_the_agreed_part(sale: Sale, fee_bps: u32)
    ensures
        ({
            let proceeds = sale.subscribed * sale.price_per_share;
            let fee = sale.fee(fee_bps);
            &&& sale.proceeds() == proceeds
            &&& proceeds >= 0 ==> fee >= 0 && 10_000 * fee <= proceeds * fee_bps < 10_000 * (fee
                + 1)
            &&& proceeds <= 0 ==> fee <= 0 && 10_000 * (fee - 1) < proceeds * fee_bps <= 10_000
                * fee
            &&& sale.subscribed >= 0 && sale.price_per_share >= 0 ==> proceeds >= 0
        }),
{
    let proceeds = sale.subscribed * sale.price_per_share;
    assert(proceeds >= 0 ==> proceeds * fee_bps >= 0) by (nonlinear_arith)
        requires
            fee_bps >= 0,
    ;
    assert(proceeds <= 0 ==> proceeds * fee_bps <= 0) by (nonlinear_arith)
        requires
            fee_bps >= 0,
    ;
    assert(sale.subscribed >= 0 && sale.price_per_share >= 0 ==> proceeds >= 0)
        by (nonlinear_arith)
        requires
            proceeds == sale.subscribed * sale.price_per_share,
    ;
}

/// A settlement pays out the whole of the proceeds: the treasury is sent the agreed
/// part, rounded down, where that is anything, the sponsor everything else, and the
/// registry is told that the property is owned. The sale is settled and no
/// subscription changes.
pub proof fn law_a_settlement_pays_treasury_and_sponsor(
    pre: OfferingModel,
    post: OfferingModel,
    env: Env,
    property: u64,
    fee: i128,
    rest: i128,
)
    requires
        pre.sound(),
        pre.takes(post, env, Step::Close { property }),
        pre.sales[property].price_per_share >= 0,
        pre.sales[property].subscribed >= pre.sales[property].min_shares,
        ({
            let proceeds = pre.sales[property].subscribed * pre.sales[property].price_per_share;
            &&& 10_000 * fee <= proceeds * pre.fee_bps < 10_000 * (fee + 1)
            &&& rest == proceeds - fee
        }),
    ensures
        ({
            let sale = pre.sales[property];
            let token = pre.settlement_token->0;
            let from = env.contract;
            let charged = Effect::Transfer(
                Transfer { token, from, to: pre.treasury->0, amount: fee },
            );
            let paid = Effect::Transfer(Transfer { token, from, to: sale.sponsor, amount: rest });
            let owned = Effect::CallRegistry {
                registry: pre.registry->0,
                notice: RegistryCall::MarkOwned { property },
            };
            let told = Effect::Publish(
                Event::Close {
                    property,
                    status: SaleStatus::Settled,
                    subscribed: sale.subscribed,
                },
            );
            &&& fee >= 0
            &&& post.sales == pre.sales.insert(
                property,
                Sale { status: SaleStatus::Settled, ..sale },
            )
            &&& post == (OfferingModel { sales: post.sales, outbox: post.outbox, ..pre })
            &&& fee > 0 ==> post.outbox =~= pre.outbox + seq![charged, paid, owned, told]
            &&& fee == 0 ==> post.outbox =~= pre.outbox + seq![paid, owned, told]
        }),
{
    let sale = pre.sales[property];
    assert(pre.is_listed(property));
    law_the_fee_is_the_agreed_part(sale, pre.fee_bps);
    assert(fee == sale.fee(pre.fee_bps));
}

/// A raise that did not reach its soft cap fails without moving any money: the registry
/// is told so, and every subscription stands, to be refunded.
pub proof fn law_a_failed_raise_moves_no_money(
    pre: OfferingModel,
    post: OfferingModel,
    env: Env,
    property: u64,
)
    requires
        pre.sound(),
        pre.takes(post, env, Step::Close { property }),
        pre.sales[property].subscribed < pre.sales[property].min_shares,
    ensures
        ({
            let sale = pre.sales[property];
            &&& post.sales == pre.sales.insert(
                property,
                Sale { status: SaleStatus::Failed, ..sale },
            )
            &&& post == (OfferingModel { sales: post.sales, outbox: post.outbox, ..pre })
            &&& post.outbox =~= pre.outbox + seq![
                Effect::CallRegistry {
                    registry: pre.registry->0,
                    notice: RegistryCall::MarkFailed { property },
                },
                Effect::Publish(
                    Event::Close {
                        property,
                        status: SaleStatus::Failed,
                        subscribed: sale.subscribed,
                    },
                ),
            ]
        }),
{
    assert(pre.is_listed(property));
}

// --- delivery and refunds ---

/// Whoever subscribed to a sale that settled can have their shares, and whoever
/// subscribed to one that failed can have their money, whenever anybody asks for them.
/// Nobody else can have either.
pub proof fn law_subscribers_get_shares_or_money(
    offering: OfferingModel,
    property: u64,
    investor: Address,
)
    ensures
        ({
            let sale = offering.sales[property];
            let known = offering.sales.contains_key(property);
            let key = StakeOf { property, party: investor };
            let subscribed = offering.subscriptions.contains_key(key)
                && offering.subscriptions[key] > 0;
            let settled = sale.status == SaleStatus::Settled;
            let failed = sale.status == SaleStatus::Failed;
            &&& match offering.claim_refusal(property, investor) {
                None => known && settled && subscribed && offering.share_ledger is Some,
                Some(Error::UnknownSale) => !known,
                Some(Error::SaleNotSettled) => known && !settled,
                Some(Error::NothingSubscribed) => known && settled && !subscribed,
                Some(Error::NotInitialized) => known && settled && subscribed
                    && offering.share_ledger is None,
                Some(_) => false,
            }
            &&& match offering.refund_refusal(property, investor) {
                None => known && failed && subscribed && offering.settlement_token is Some,
                Some(Error::UnknownSale) => !known,
                Some(Error::SaleNotFailed) => known && !failed,
                Some(Error::NothingSubscribed) => known && failed && !subscribed,
                Some(Error::NotInitialized) => known && failed && subscribed
                    && offering.settlement_token is None,
                Some(_) => false,
            }
        }),
{
}

/// Delivery issues on the share ledger, to the investor, as many shares of the property
/// as they subscribed for, and strikes the subscription out.
pub proof fn law_delivery_issues_what_was_subscribed(
    pre: OfferingModel,
    post: OfferingModel,
    env: Env,
    property: u64,
    investor: Address,
)
    requires
        pre.takes(post, env, Step::Claim { property, investor }),
    ensures
        ({
            let key = StakeOf { property, party: investor };
            let shares = pre.subscriptions[key];
            &&& pre.subscriptions.contains_key(key) && shares > 0
            &&& shares == pre.subscription(property, investor)
            &&& post.subscriptions == pre.subscriptions.remove(key)
            &&& post == (OfferingModel {
                subscriptions: post.subscriptions,
                outbox: post.outbox,
                ..pre
            })
            &&& post.outbox =~= pre.outbox + seq![
                Effect::CallLedger {
                    ledger: pre.share_ledger->0,
                    call: LedgerCall::Issue { property, to: investor, shares },
                },
                Effect::Publish(Event::Claimed { property, investor, shares }),
            ]
        }),
{
}

/// A refund pays the investor the price of every share they subscribed for and strikes
/// the subscription out.
pub proof fn law_a_refund_returns_the_price(
    pre: OfferingModel,
    post: OfferingModel,
    env: Env,
    property: u64,
    investor: Address,
    amount: i128,
)
    requires
        pre.takes(post, env, Step::Refund { property, investor }),
        amount == pre.subscriptions[StakeOf { property, party: investor }]
            * pre.sales[property].price_per_share,
    ensures
        ({
            let key = StakeOf { property, party: investor };
            &&& pre.subscriptions.contains_key(key) && pre.subscriptions[key] > 0
            &&& amount == pre.paid(property, investor)
            &&& post.subscriptions == pre.subscriptions.remove(key)
            &&& post == (OfferingModel {
                subscriptions: post.subscriptions,
                outbox: post.outbox,
                ..pre
            })
            &&& post.outbox =~= pre.outbox + seq![
                Effect::Transfer(
                    Transfer {
                        token: pre.settlement_token->0,
                        from: env.contract,
                        to: investor,
                        amount,
                    },
                ),
                Effect::Publish(Event::Refund { property, investor, amount }),
            ]
        }),
{
}

// --- administration ---

/// The admin may schedule an upgrade, any treasury, and any fee up to a tenth, while
/// nothing else is scheduled, and carry it out from its time on. Carrying it out does
/// what was scheduled, once, and nothing else.
pub proof fn law_a_scheduled_change_is_carried_out(
    offering: OfferingModel,
    admin: Address,
    action: Action,
    now: u64,
)
    ensures
        offering.governance.eta_fits(now) ==> offering.schedule_fits(admin, action, now),
        ({
            let steep = action matches Action::SetFeeBps(bps) && bps > 1_000;
            let g = offering.governance;
            let idle = g.admin == Some(admin) && g.scheduled is None;
            match offering.schedule_refusal(admin, action) {
                None => idle && g.timelock_secs is Some && !steep,
                Some(Error::NotAuthorized) => g.admin is Some && g.admin != Some(admin),
                Some(Error::ActionPending) => g.admin == Some(admin) && g.scheduled is Some,
                Some(Error::InvalidFee) => idle && steep,
                Some(Error::NotInitialized) => g.admin is None || (idle && g.timelock_secs is None
                    && !steep),
                Some(_) => false,
            }
        }),
        ({
            let g = offering.governance;
            let steep = g.scheduled->0.action matches Action::SetFeeBps(bps) && bps > 1_000;
            let waiting = g.admin == Some(admin) && g.scheduled is Some;
            match offering.execute_refusal(admin, now) {
                None => waiting && g.scheduled->0.eta <= now && !steep,
                Some(Error::NotInitialized) => g.admin is None,
                Some(Error::NotAuthorized) => g.admin is Some && g.admin != Some(admin),
                Some(Error::NoPendingAction) => g.admin == Some(admin) && g.scheduled is None,
                Some(Error::TimelockNotExpired) => waiting && g.scheduled->0.eta > now,
                Some(Error::InvalidFee) => waiting && g.scheduled->0.eta <= now && steep,
                Some(_) => false,
            }
        }),
        ({
            let post = offering.executed();
            let g = offering.governance;
            &&& post.governance.scheduled is None
            &&& post.governance.admin == g.admin
            &&& post.governance.pending_admin == g.pending_admin
            &&& post.governance.timelock_secs == g.timelock_secs
            &&& match g.scheduled->0.action {
                Action::Upgrade(wasm_hash) => post.treasury == offering.treasury && post.fee_bps
                    == offering.fee_bps && post.outbox =~= offering.outbox + seq![
                    Effect::Upgrade(wasm_hash),
                ],
                Action::SetTreasury(treasury) => post.treasury == Some(treasury) && post.fee_bps
                    == offering.fee_bps && post.outbox == offering.outbox,
                Action::SetFeeBps(bps) => post.treasury == offering.treasury && post.fee_bps == bps
                    && post.outbox == offering.outbox,
            }
            &&& post == (OfferingModel {
                governance: post.governance,
                treasury: post.treasury,
                fee_bps: post.fee_bps,
                outbox: post.outbox,
                ..offering
            })
        }),
{
}

// --- ranges ---

/// Sales of up to ten thousand million million shares, at up to as much a share, are
/// never out of range, as long as the deadline is a time.
pub proof fn law_ordinary_sales_are_in_range(
    offering: OfferingModel,
    sponsor: Address,
    property: u64,
    investor: Address,
    shares: i128,
    min_shares: i128,
    duration_secs: u64,
    terms: OfferingTerms,
    now: u64,
)
    requires
        offering.sound(),
        ({
            let most = 10_000_000_000_000_000i128;
            let sale = offering.sales[property];
            &&& 0 <= shares <= most
            &&& 0 <= sale.price_per_share <= most
            &&& 0 <= sale.total_shares <= most
        }),
    ensures
        now + duration_secs <= u64::MAX ==> offering.open_fits(
            sponsor,
            property,
            min_shares,
            duration_secs,
            terms,
            now,
        ),
        offering.subscribe_fits(property, investor, shares, now),
        offering.withdraw_fits(property, investor, shares, now),
        offering.refund_fits(property, investor),
        offering.close_fits(property, now),
{
    let most = 10_000_000_000_000_000int;
    let sale = offering.sales[property];
    assert(offering.is_listed(property));
    if offering.sales.contains_key(property) {
        crate::offering_laws::lemma_part_of_waiting(offering, property, investor);
        let held = offering.subscription(property, investor) as int;
        let price = sale.price_per_share as int;
        let sold = sale.subscribed as int;
        assert(0 <= held * price <= most * most) by (nonlinear_arith)
            requires
                0 <= held <= most,
                0 <= price <= most,
        ;
        assert(0 <= shares * price <= most * most) by (nonlinear_arith)
            requires
                0 <= shares <= most,
                0 <= price <= most,
        ;
        assert(0 <= sold * price <= most * most) by (nonlinear_arith)
            requires
                0 <= sold <= most,
                0 <= price <= most,
        ;
        let proceeds = sold * price;
        let rate = offering.fee_bps as int;
        assert(0 <= proceeds * rate <= most * most * 1_000) by (nonlinear_arith)
            requires
                0 <= proceeds <= most * most,
                0 <= rate <= 1_000,
        ;
        assert(most * most == 100_000_000_000_000_000_000_000_000_000_000int)
            by (nonlinear_arith)
            requires
                most == 10_000_000_000_000_000int,
        ;
        law_the_fee_is_the_agreed_part(sale, offering.fee_bps);
    }
}

// --- deployment ---

/// The offering starts out with what it was configured with and nothing else:
/// nothing on record, nothing scheduled and nothing asked of anybody.
pub proof fn law_deployed_as_configured(
    admin: Address,
    registry: Address,
    share_ledger: Address,
    settlement_token: Address,
    treasury: Address,
    fee_bps: u32,
    timelock_secs: u64,
)
    ensures
        ({
            let offering = OfferingModel::deployed(
                admin,
                registry,
                share_ledger,
                settlement_token,
                treasury,
                fee_bps,
                timelock_secs,
            );
            &&& offering.governance.admin == Some(admin)
            &&& offering.governance.pending_admin is None
            &&& offering.governance.timelock_secs == Some(timelock_secs)
            &&& offering.governance.scheduled is None
            &&& offering.registry == Some(registry)
            &&& offering.share_ledger == Some(share_ledger)
            &&& offering.settlement_token == Some(settlement_token)
            &&& offering.treasury == Some(treasury)
            &&& offering.fee_bps == fee_bps
            &&& offering.sales.dom() =~= Set::empty()
            &&& offering.subscriptions.dom() =~= Set::empty()
            &&& offering.outbox.len() == 0
        }),
{
}

// --- refusals ---

/// Each number stands for one refusal, and every refusal has one.
pub proof fn law_a_number_tells_the_refusal(refusal: Error)
    ensures
        match refusal.number() {
            2 => refusal == Error::NotInitialized,
            3 => refusal == Error::NotAuthorized,
            5 => refusal == Error::NoPendingAction,
            6 => refusal == Error::ActionPending,
            7 => refusal == Error::TimelockNotExpired,
            8 => refusal == Error::UnknownSale,
            9 => refusal == Error::SaleExists,
            10 => refusal == Error::SaleNotOpen,
            11 => refusal == Error::SaleNotSettled,
            12 => refusal == Error::SaleNotFailed,
            13 => refusal == Error::Deadline,
            14 => refusal == Error::StillOpen,
            15 => refusal == Error::InvalidAmount,
            16 => refusal == Error::InvalidSoftCap,
            17 => refusal == Error::InvalidDuration,
            18 => refusal == Error::InvalidFee,
            19 => refusal == Error::Oversubscribed,
            20 => refusal == Error::NotSponsor,
            21 => refusal == Error::PropertyNotOffered,
            22 => refusal == Error::NothingSubscribed,
            _ => false,
        },
{
}

/// What the governing rules refuse is refused under the same name, and what they grant
/// is granted.
pub proof fn law_governance_speaks_through(refusal: Option<GovernanceError>)
    ensures
        match admin_outcome(refusal) {
            Ok(_) => refusal is None,
            Err(Error::NotInitialized) => refusal == Some(GovernanceError::NotInitialized),
            Err(Error::NotAuthorized) => refusal == Some(GovernanceError::NotAuthorized),
            Err(Error::NoPendingAction) => refusal == Some(GovernanceError::NoPendingAction),
            Err(Error::ActionPending) => refusal == Some(GovernanceError::ActionPending),
            Err(Error::TimelockNotExpired) => refusal == Some(GovernanceError::TimelockNotExpired),
            Err(_) => false,
        },
        refusal is Some ==> admin_outcome(refusal) == Err::<(), Error>(Error::of(refusal->0)),
{
}

} // verus!
