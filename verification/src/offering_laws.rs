//! What holds of the offering whatever is done to it.

use crate::arith::{lemma_total_empty, lemma_total_insert, lemma_total_remove, total};
use crate::governance::Governance;
use crate::host::{Address, Digest, Env};
use crate::offering::{
    with_subscription, Action, Effect, Error, OfferingModel, OfferingTerms, Sale, SaleStatus,
    MAX_FEE_BPS,
};
use crate::table::{amount_of, StakeOf};
use vstd::prelude::*;

verus! {

/// Something done to the offering.
pub ghost enum Step {
    Administer,
    Open {
        sponsor: Address,
        property: u64,
        min_shares: i128,
        duration_secs: u64,
        terms: OfferingTerms,
    },
    Subscribe { property: u64, investor: Address, shares: i128 },
    Withdraw { property: u64, investor: Address, shares: i128 },
    Claim { property: u64, investor: Address },
    Refund { property: u64, investor: Address },
    Close { property: u64 },
}

/// Shares of `property` in a subscription.
pub open spec fn booked(property: u64) -> spec_fn(StakeOf, i128) -> int {
    |key: StakeOf, shares: i128|
        if key.property == property {
            shares as int
        } else {
            0
        }
}

/// Money that `effects` bring in for `contract`, less what they pay out.
pub open spec fn net_flow(effects: Seq<Effect>, contract: Address) -> int
    decreases effects.len(),
{
    if effects.len() == 0 {
        0
    } else {
        net_flow(effects.drop_last(), contract) + flow(effects.last(), contract)
    }
}

/// Money that one effect brings in for `contract`, less what it pays out.
pub open spec fn flow(effect: Effect, contract: Address) -> int {
    match effect {
        Effect::Transfer(t) => (if t.to == contract {
            t.amount as int
        } else {
            0
        }) - (if t.from == contract {
            t.amount as int
        } else {
            0
        }),
        _ => 0,
    }
}

impl OfferingModel {
    /// `post` differs from this offering by administration alone.
    pub open spec fn administered(self, post: Self) -> bool {
        &&& post == (OfferingModel {
            governance: post.governance,
            treasury: post.treasury,
            fee_bps: post.fee_bps,
            outbox: post.outbox,
            ..self
        })
        &&& post.fee_bps == self.fee_bps || post.fee_bps <= MAX_FEE_BPS
        &&& post.outbox == self.outbox || exists|wasm_hash: Digest|
            post.outbox == self.outbox.push(Effect::Upgrade(wasm_hash))
    }

    /// `post` is this offering after `step`, which was not refused.
    pub open spec fn takes(self, post: Self, env: Env, step: Step) -> bool {
        match step {
            Step::Administer => self.administered(post),
            Step::Open { sponsor, property, min_shares, duration_secs, terms } => {
                &&& terms.property == property
                &&& self.open_refusal(sponsor, property, min_shares, duration_secs, terms) is None
                &&& self.open_fits(
                    sponsor,
                    property,
                    min_shares,
                    duration_secs,
                    terms,
                    env.timestamp,
                )
                &&& post == self.opened(
                    Self::new_sale(env, sponsor, property, min_shares, duration_secs, terms),
                )
            },
            Step::Subscribe { property, investor, shares } => {
                &&& self.subscribe_refusal(property, shares, env.timestamp) is None
                &&& self.subscribe_fits(property, investor, shares, env.timestamp)
                &&& self.subscribed(post, env, property, investor, shares)
            },
            Step::Withdraw { property, investor, shares } => {
                &&& self.withdraw_refusal(property, investor, shares, env.timestamp) is None
                &&& self.withdraw_fits(property, investor, shares, env.timestamp)
                &&& self.withdrawn(post, env, property, investor, shares)
            },
            Step::Claim { property, investor } => {
                &&& self.claim_refusal(property, investor) is None
                &&& post == self.claimed(property, investor)
            },
            Step::Refund { property, investor } => {
                &&& self.refund_refusal(property, investor) is None
                &&& self.refund_fits(property, investor)
                &&& post == self.refunded(env, property, investor)
            },
            Step::Close { property } => {
                &&& self.close_refusal(property, env.timestamp) is None
                &&& self.close_fits(property, env.timestamp)
                &&& post == self.closed(env, property)
            },
        }
    }

    /// Shares subscribed for and not yet claimed or refunded.
    pub open spec fn waiting(self, property: u64) -> int {
        total(self.subscriptions, booked(property))
    }

    /// A sale is filed under its property and sells no more than there is. While it
    /// is open its count is the sum of its subscriptions; afterwards those are
    /// claimed or refunded one by one.
    pub open spec fn is_listed(self, property: u64) -> bool {
        &&& self.sales.contains_key(property) ==> {
            let sale = self.sales[property];
            &&& sale.property == property
            &&& 0 < sale.min_shares <= sale.total_shares
            &&& 0 <= sale.subscribed <= sale.total_shares
            &&& 0 <= self.waiting(property) <= sale.subscribed
            &&& sale.status == SaleStatus::Open ==> self.waiting(property) == sale.subscribed
        }
        &&& !self.sales.contains_key(property) ==> self.waiting(property) == 0
    }

    /// The offering as its operations keep it.
    pub open spec fn sound(self) -> bool {
        &&& self.fee_bps <= MAX_FEE_BPS
        &&& self.subscriptions.dom().finite()
        &&& forall|property: u64| #[trigger] self.is_listed(property)
        &&& forall|key: StakeOf| #[trigger]
            self.subscriptions.contains_key(key) ==> self.subscriptions[key] > 0
                && self.sales.contains_key(key.property)
    }

    /// Money held for the subscribers of a sale.
    pub open spec fn escrow(self, property: u64) -> int {
        if self.sales.contains_key(property) && self.sales[property].status
            != SaleStatus::Settled {
            self.waiting(property) * self.sales[property].price_per_share
        } else {
            0
        }
    }
}

/// The offering is sound as it is deployed.
pub proof fn law_deployed_sound(
    admin: Address,
    registry: Address,
    share_ledger: Address,
    settlement_token: Address,
    treasury: Address,
    fee_bps: u32,
    timelock_secs: u64,
)
    requires
        fee_bps <= MAX_FEE_BPS,
    ensures
        (OfferingModel {
            governance: Governance {
                admin: Some(admin),
                pending_admin: None,
                timelock_secs: Some(timelock_secs),
                scheduled: None,
            },
            registry: Some(registry),
            share_ledger: Some(share_ledger),
            settlement_token: Some(settlement_token),
            treasury: Some(treasury),
            fee_bps,
            sales: Map::empty(),
            subscriptions: Map::empty(),
            outbox: Seq::empty(),
        }).sound(),
{
    lemma_total_empty(booked(0));
    assert forall|property: u64| #[trigger]
        total(Map::<StakeOf, i128>::empty(), booked(property)) == 0 by {
        lemma_total_empty(booked(property));
    }
    let offering = OfferingModel {
        governance: Governance {
            admin: Some(admin),
            pending_admin: None,
            timelock_secs: Some(timelock_secs),
            scheduled: None,
        },
        registry: Some(registry),
        share_ledger: Some(share_ledger),
        settlement_token: Some(settlement_token),
        treasury: Some(treasury),
        fee_bps,
        sales: Map::empty(),
        subscriptions: Map::empty(),
        outbox: Seq::empty(),
    };
    assert forall|property: u64| #[trigger] offering.is_listed(property) by {
        lemma_total_empty(booked(property));
    }
}

/// Rewriting a subscription moves the sum for its property by its own change, and no
/// other.
proof fn lemma_rebooked(subscriptions: Map<StakeOf, i128>, key: StakeOf, shares: i128)
    requires
        subscriptions.dom().finite(),
    ensures
        with_subscription(subscriptions, key, shares).dom().finite(),
        forall|property: u64|
            total(
                with_subscription(subscriptions, key, shares),
                #[trigger] booked(property),
            ) == total(subscriptions, booked(property)) + (if property == key.property {
                shares - amount_of(subscriptions, key)
            } else {
                0
            }),
{
    lemma_total_remove(subscriptions, booked(0), key);
    lemma_total_insert(subscriptions, booked(0), key, shares);
    assert forall|property: u64|
        total(with_subscription(subscriptions, key, shares), #[trigger] booked(property))
            == total(subscriptions, booked(property)) + (if property == key.property {
            shares - amount_of(subscriptions, key)
        } else {
            0
        }) by {
        lemma_total_remove(subscriptions, booked(property), key);
        lemma_total_insert(subscriptions, booked(property), key, shares);
    }
}

/// A subscription is part of what is waiting.
pub(crate) proof fn lemma_part_of_waiting(offering: OfferingModel, property: u64, investor: Address)
    requires
        offering.sound(),
    ensures
        0 <= offering.subscription(property, investor) <= offering.waiting(property),
{
    let key = StakeOf { property, party: investor };
    lemma_total_remove(offering.subscriptions, booked(property), key);
    lemma_waiting_nonnegative(offering.subscriptions.remove(key), property);
    lemma_waiting_nonnegative(offering.subscriptions, property);
}

proof fn lemma_waiting_nonnegative(subscriptions: Map<StakeOf, i128>, property: u64)
    requires
        subscriptions.dom().finite(),
        forall|key: StakeOf| #[trigger]
            subscriptions.contains_key(key) ==> subscriptions[key] > 0,
    ensures
        total(subscriptions, booked(property)) >= 0,
    decreases subscriptions.dom().len(),
{
    if subscriptions.dom().len() > 0 {
        let c = subscriptions.dom().choose();
        assert(subscriptions.contains_key(c));
        assert forall|key: StakeOf| #[trigger]
            subscriptions.remove(c).contains_key(key) implies subscriptions.remove(c)[key] > 0 by {
            assert(subscriptions.contains_key(key));
        }
        lemma_waiting_nonnegative(subscriptions.remove(c), property);
    }
}

/// Every operation leaves the offering sound: no sale is oversubscribed, the shares
/// counted are the shares booked, and the fee stays under its ceiling.
pub proof fn law_sound_kept(pre: OfferingModel, post: OfferingModel, env: Env, step: Step)
    requires
        pre.sound(),
        pre.takes(post, env, step),
    ensures
        post.sound(),
{
    match step {
        Step::Subscribe { property, investor, shares } => {
            assert(pre.is_listed(property));
            lemma_rebooked(
                pre.subscriptions,
                StakeOf { property, party: investor },
                (pre.subscription(property, investor) + shares) as i128,
            );
            lemma_part_of_waiting(pre, property, investor);
        },
        Step::Withdraw { property, investor, shares } => {
            assert(pre.is_listed(property));
            lemma_rebooked(
                pre.subscriptions,
                StakeOf { property, party: investor },
                (pre.subscription(property, investor) - shares) as i128,
            );
            lemma_part_of_waiting(pre, property, investor);
        },
        Step::Claim { property, investor } => {
            assert(pre.is_listed(property));
            lemma_rebooked(pre.subscriptions, StakeOf { property, party: investor }, 0);
            lemma_part_of_waiting(pre, property, investor);
        },
        Step::Refund { property, investor } => {
            assert(pre.is_listed(property));
            lemma_rebooked(pre.subscriptions, StakeOf { property, party: investor }, 0);
            lemma_part_of_waiting(pre, property, investor);
        },
        Step::Close { property } => {
            assert(pre.is_listed(property));
        },
        _ => {},
    }
    assert forall|property: u64| #[trigger] post.is_listed(property) by {
        assert(pre.is_listed(property));
    }
    assert forall|key: StakeOf| #[trigger] post.subscriptions.contains_key(key) implies
        post.subscriptions[key] > 0 && post.sales.contains_key(key.property) by {
        if pre.subscriptions.contains_key(key) {
        }
    }
}

/// The protocol never takes more than a tenth of a raise, and what it does not take
/// the sponsor is paid.
pub proof fn law_fee_is_capped(sale: Sale, fee_bps: u32)
    requires
        fee_bps <= MAX_FEE_BPS,
        sale.subscribed >= 0,
        sale.price_per_share >= 0,
    ensures
        0 <= sale.fee(fee_bps) <= sale.proceeds(),
        10 * sale.fee(fee_bps) <= sale.proceeds(),
{
    let p = sale.proceeds();
    assert(p >= 0) by (nonlinear_arith)
        requires
            p == sale.subscribed * sale.price_per_share,
            sale.subscribed >= 0,
            sale.price_per_share >= 0,
    ;
    assert(0 <= p * fee_bps <= p * 1000) by (nonlinear_arith)
        requires
            p >= 0,
            0 <= fee_bps <= 1000,
    ;
}

/// Money is held for the subscribers, to the unit, until the sale is decided: each
/// operation moves exactly what it changes in the escrow of its sale. A settlement
/// pays the whole of it out and a refund returns it, where the parties on the other
/// side are not the offering itself.
pub proof fn law_escrow_is_exact(
    pre: OfferingModel,
    post: OfferingModel,
    env: Env,
    step: Step,
    property: u64,
)
    requires
        pre.sound(),
        pre.takes(post, env, step),
        match step {
            Step::Administer => true,
            Step::Open { property: p, .. } => p == property,
            Step::Subscribe { property: p, investor, .. } => p == property && investor
                != env.contract,
            Step::Withdraw { property: p, investor, .. } => p == property && investor
                != env.contract,
            Step::Claim { property: p, .. } => p == property,
            Step::Refund { property: p, investor } => p == property && investor != env.contract,
            Step::Close { property: p } => p == property && pre.sales[property].price_per_share
                >= 0 && pre.sales[property].sponsor != env.contract && pre.treasury != Some(
                env.contract,
            ),
        },
    ensures
        net_flow(post.outbox, env.contract) - net_flow(pre.outbox, env.contract) == post.escrow(
            property,
        ) - pre.escrow(property),
{
    reveal_with_fuel(net_flow, 5);
    assert(pre.is_listed(property));
    let sale = pre.sales[property];
    let price = sale.price_per_share as int;
    let waiting = pre.waiting(property);
    match step {
        Step::Administer => {
            if post.outbox != pre.outbox {
                let wasm_hash = choose|wasm_hash: Digest|
                    post.outbox == pre.outbox.push(Effect::Upgrade(wasm_hash));
                assert(post.outbox.drop_last() =~= pre.outbox);
            }
        },
        Step::Open { terms, .. } => {
            assert(post.outbox.drop_last() =~= pre.outbox);
            assert(0 * terms.price_per_share == 0);
        },
        Step::Subscribe { investor, shares, .. } => {
            assert(post.outbox.drop_last().drop_last() =~= pre.outbox);
            lemma_rebooked(
                pre.subscriptions,
                StakeOf { property, party: investor },
                (pre.subscription(property, investor) + shares) as i128,
            );
            assert((waiting + shares) * price == waiting * price + shares * price)
                by (nonlinear_arith);
        },
        Step::Withdraw { investor, shares, .. } => {
            assert(post.outbox.drop_last().drop_last() =~= pre.outbox);
            lemma_part_of_waiting(pre, property, investor);
            lemma_rebooked(
                pre.subscriptions,
                StakeOf { property, party: investor },
                (pre.subscription(property, investor) - shares) as i128,
            );
            assert((waiting - shares) * price == waiting * price - shares * price)
                by (nonlinear_arith);
        },
        Step::Claim { .. } => {
            assert(post.outbox.drop_last().drop_last() =~= pre.outbox);
        },
        Step::Refund { investor, .. } => {
            assert(post.outbox.drop_last().drop_last() =~= pre.outbox);
            let shares = pre.subscription(property, investor) as int;
            lemma_rebooked(pre.subscriptions, StakeOf { property, party: investor }, 0);
            assert((waiting - shares) * price == waiting * price - shares * price)
                by (nonlinear_arith);
        },
        Step::Close { .. } => {
            let fee = sale.fee(pre.fee_bps);
            if sale.succeeds() {
                law_fee_is_capped(sale, pre.fee_bps);
                if fee > 0 {
                    assert(post.outbox.drop_last().drop_last().drop_last().drop_last()
                        =~= pre.outbox);
                } else {
                    assert(post.outbox.drop_last().drop_last().drop_last() =~= pre.outbox);
                }
            } else {
                assert(post.outbox.drop_last().drop_last() =~= pre.outbox);
            }
        },
    }
}

/// One sale's money is never another's: an operation on one sale leaves the escrow
/// and the subscriptions of every other as they were.
pub proof fn law_sales_are_isolated(
    pre: OfferingModel,
    post: OfferingModel,
    env: Env,
    step: Step,
    property: u64,
    investor: Address,
)
    requires
        pre.sound(),
        pre.takes(post, env, step),
        match step {
            Step::Administer => true,
            Step::Open { property: p, .. } => p != property,
            Step::Subscribe { property: p, .. } => p != property,
            Step::Withdraw { property: p, .. } => p != property,
            Step::Claim { property: p, .. } => p != property,
            Step::Refund { property: p, .. } => p != property,
            Step::Close { property: p } => p != property,
        },
    ensures
        post.sales.contains_key(property) == pre.sales.contains_key(property),
        post.sales[property] == pre.sales[property],
        post.subscription(property, investor) == pre.subscription(property, investor),
        post.escrow(property) == pre.escrow(property),
{
    match step {
        Step::Subscribe { property: p, investor: who, shares } => {
            assert(pre.is_listed(p));
            lemma_rebooked(
                pre.subscriptions,
                StakeOf { property: p, party: who },
                (pre.subscription(p, who) + shares) as i128,
            );
        },
        Step::Withdraw { property: p, investor: who, shares } => {
            assert(pre.is_listed(p));
            lemma_rebooked(
                pre.subscriptions,
                StakeOf { property: p, party: who },
                (pre.subscription(p, who) - shares) as i128,
            );
        },
        Step::Claim { property: p, investor: who } => {
            lemma_rebooked(pre.subscriptions, StakeOf { property: p, party: who }, 0);
        },
        Step::Refund { property: p, investor: who } => {
            lemma_rebooked(pre.subscriptions, StakeOf { property: p, party: who }, 0);
        },
        Step::Close { property: p } => {
            assert(pre.is_listed(p));
        },
        _ => {},
    }
}

/// A refund returns exactly what the investor paid in and has not taken back: what is
/// due to them rises by the price of every share subscribed, falls by what is
/// withdrawn, and nothing else but taking it changes it.
pub proof fn law_refunds_return_what_was_paid(
    pre: OfferingModel,
    post: OfferingModel,
    env: Env,
    step: Step,
    property: u64,
    investor: Address,
)
    requires
        pre.sound(),
        pre.takes(post, env, step),
        pre.sales.contains_key(property),
    ensures
        post.paid(property, investor) == match step {
            Step::Subscribe { property: p, investor: who, shares } => if p == property && who
                == investor {
                pre.paid(property, investor) + shares * pre.sales[property].price_per_share
            } else {
                pre.paid(property, investor)
            },
            Step::Withdraw { property: p, investor: who, shares } => if p == property && who
                == investor {
                pre.paid(property, investor) - shares * pre.sales[property].price_per_share
            } else {
                pre.paid(property, investor)
            },
            Step::Claim { property: p, investor: who } => if p == property && who == investor {
                0
            } else {
                pre.paid(property, investor)
            },
            Step::Refund { property: p, investor: who } => if p == property && who == investor {
                0
            } else {
                pre.paid(property, investor)
            },
            _ => pre.paid(property, investor),
        },
{
    assert(pre.is_listed(property));
    let held = pre.subscription(property, investor) as int;
    let price = pre.sales[property].price_per_share as int;
    assert(0 * price == 0);
    match step {
        Step::Subscribe { property: p, shares, .. } => {
            assert(pre.is_listed(p));
            assert((held + shares) * price == held * price + shares * price) by (nonlinear_arith);
        },
        Step::Withdraw { property: p, investor: who, shares } => {
            assert(pre.is_listed(p));
            lemma_part_of_waiting(pre, property, investor);
            assert((held - shares) * price == held * price - shares * price) by (nonlinear_arith);
        },
        Step::Close { property: p } => {
            assert(pre.is_listed(p));
        },
        _ => {},
    }
}

/// Subscribing and taking the subscription back leaves the investor and the sale
/// where they were.
pub proof fn law_subscribe_and_withdraw_restore(
    pre: OfferingModel,
    mid: OfferingModel,
    post: OfferingModel,
    env: Env,
    property: u64,
    investor: Address,
    shares: i128,
)
    requires
        pre.sound(),
        pre.takes(mid, env, Step::Subscribe { property, investor, shares }),
        mid.takes(post, env, Step::Withdraw { property, investor, shares }),
    ensures
        post.sales[property] == pre.sales[property],
        post.subscription(property, investor) == pre.subscription(property, investor),
{
    assert(pre.is_listed(property));
    lemma_part_of_waiting(pre, property, investor);
}

/// The terms an investor subscribes on never move, and a sale only goes from open to
/// settled or failed, for good.
pub proof fn law_terms_never_move(
    pre: OfferingModel,
    post: OfferingModel,
    env: Env,
    step: Step,
    property: u64,
)
    requires
        pre.sound(),
        pre.takes(post, env, step),
        pre.sales.contains_key(property),
    ensures
        post.sales.contains_key(property),
        ({
            let was = pre.sales[property];
            let now = post.sales[property];
            &&& now == (Sale { subscribed: now.subscribed, status: now.status, ..was })
            &&& was.status != SaleStatus::Open ==> now == was
            &&& now.status != was.status ==> step == Step::Close { property } && now.subscribed
                == was.subscribed
        }),
{
    assert(pre.is_listed(property));
    match step {
        Step::Subscribe { property: p, .. } => {
            assert(pre.is_listed(p));
        },
        Step::Withdraw { property: p, .. } => {
            assert(pre.is_listed(p));
        },
        Step::Close { property: p } => {
            assert(pre.is_listed(p));
        },
        _ => {},
    }
}

/// A property is sold once: after a sale was opened another is refused, however the
/// first one ended.
pub proof fn law_one_sale_per_property(
    offering: OfferingModel,
    property: u64,
    duration_secs: u64,
)
    requires
        offering.sales.contains_key(property),
        duration_secs > 0,
    ensures
        offering.before_open_refusal(property, duration_secs) == Some(Error::SaleExists),
{
}

/// A sale is decided by its own state: once it has sold out or its deadline has
/// passed it can be closed, and it settles exactly when it reached its soft cap.
/// After the deadline nobody can tip it either way.
pub proof fn law_a_sale_decides_itself(
    offering: OfferingModel,
    env: Env,
    property: u64,
    investor: Address,
    shares: i128,
)
    requires
        offering.sales.contains_key(property),
    ensures
        ({
            let sale = offering.sales[property];
            &&& offering.close_refusal(property, env.timestamp) is None ==> {
                &&& sale.subscribed == sale.total_shares || env.timestamp >= sale.deadline
                &&& offering.verdict(property) == SaleStatus::Settled <==> sale.subscribed
                    >= sale.min_shares
            }
            &&& env.timestamp >= sale.deadline ==> {
                &&& offering.subscribe_refusal(property, shares, env.timestamp) is Some
                &&& offering.withdraw_refusal(property, investor, shares, env.timestamp) is Some
            }
        }),
{
}

/// Shares and refunds are handed out once: having taken them, an investor is refused
/// a second time.
pub proof fn law_claimed_once(
    pre: OfferingModel,
    post: OfferingModel,
    env: Env,
    property: u64,
    investor: Address,
)
    requires
        pre.takes(post, env, Step::Claim { property, investor }) || pre.takes(
            post,
            env,
            Step::Refund { property, investor },
        ),
    ensures
        post.subscription(property, investor) == 0,
        post.claim_refusal(property, investor) is Some,
        post.refund_refusal(property, investor) is Some,
{
}

/// Taking delivery takes exactly the claimed shares off what is waiting.
pub proof fn law_claims_leave_the_queue(
    pre: OfferingModel,
    post: OfferingModel,
    env: Env,
    property: u64,
    investor: Address,
    other: u64,
)
    requires
        pre.sound(),
        pre.takes(post, env, Step::Claim { property, investor }),
    ensures
        post.sales == pre.sales,
        post.waiting(property) == pre.waiting(property) - pre.subscription(property, investor),
        other != property ==> post.waiting(other) == pre.waiting(other),
{
    lemma_rebooked(pre.subscriptions, StakeOf { property, party: investor }, 0);
}

/// What is waiting in a settled sale changes only as shares are claimed, and a sale
/// that settles has all its shares waiting.
pub proof fn law_queue_of_a_closed_sale(
    pre: OfferingModel,
    post: OfferingModel,
    env: Env,
    step: Step,
    property: u64,
)
    requires
        pre.sound(),
        pre.takes(post, env, step),
        !(step is Claim),
        post.sales.contains_key(property),
        post.sales[property].status == SaleStatus::Settled,
    ensures
        pre.sales.contains_key(property),
        post.waiting(property) == pre.waiting(property),
        pre.sales[property].status == SaleStatus::Settled || post.waiting(property)
            == post.sales[property].subscribed,
{
    assert(pre.is_listed(property));
    match step {
        Step::Subscribe { property: p, investor, shares } => {
            assert(pre.is_listed(p));
            lemma_rebooked(
                pre.subscriptions,
                StakeOf { property: p, party: investor },
                (pre.subscription(p, investor) + shares) as i128,
            );
        },
        Step::Withdraw { property: p, investor, shares } => {
            assert(pre.is_listed(p));
            lemma_rebooked(
                pre.subscriptions,
                StakeOf { property: p, party: investor },
                (pre.subscription(p, investor) - shares) as i128,
            );
        },
        Step::Refund { property: p, investor } => {
            lemma_rebooked(pre.subscriptions, StakeOf { property: p, party: investor }, 0);
        },
        Step::Close { property: p } => {
            assert(pre.is_listed(p));
        },
        _ => {},
    }
}

/// Administration touches no sale and no subscription and asks for nothing but an
/// upgrade, and it never sets a fee above the ceiling.
pub proof fn law_admin_moves_nothing(
    offering: OfferingModel,
    governance: Governance<Action>,
    admin: Address,
    now: u64,
)
    ensures
        offering.administered(OfferingModel { governance, ..offering }),
        offering.execute_refusal(admin, now) is None ==> offering.administered(
            offering.executed(),
        ),
{
}

} // verus!
