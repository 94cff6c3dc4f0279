//! The offering, the share ledger and the income distributor working together.
//!
//! The offering tells the ledger whom to issue shares to. The distributor tells it
//! what rent arrived, and pays out what it hands back.

use crate::accrual::SCALE;
use crate::arith::total;
use crate::governance::Governance;
use crate::host::{Address, Digest, Env};
use crate::income_distributor::{Action, Effect, IncomeDistributorModel};
use crate::ledger_laws;
use crate::ledger_laws::{claims, stakes};
use crate::offering::{OfferingModel, SaleStatus};
use crate::offering_laws;
use crate::share_ledger::ShareLedgerModel;
use vstd::prelude::*;

verus! {

// --- the primary market ---

/// The offering and the share ledger, and the address that the offering goes by.
pub ghost struct PrimaryMarket {
    pub offering: OfferingModel,
    pub ledger: ShareLedgerModel,
    pub this: Address,
}

/// Something done to the primary market.
pub ghost enum SaleStep {
    /// An operation on the offering other than taking delivery of shares.
    Offering { sale: offering_laws::Step },
    /// An operation on the ledger other than issuing shares.
    Ledger { step: ledger_laws::Step },
    /// An investor takes delivery, and the ledger issues.
    Claim { property: u64, investor: Address },
}

impl PrimaryMarket {
    /// Shares exist only of a property whose sale has settled: what was issued and
    /// what is still to be claimed are together what was sold.
    pub open spec fn is_delivered(self, property: u64) -> bool {
        self.ledger.issued_of(property) == if self.offering.sales.contains_key(property)
            && self.offering.sales[property].status == SaleStatus::Settled {
            self.offering.sales[property].subscribed - self.offering.waiting(property)
        } else {
            0
        }
    }

    /// The two contracts agree.
    pub open spec fn sound(self) -> bool {
        &&& self.ledger.offering == Some(self.this)
        &&& self.offering.share_ledger is Some
        &&& self.offering.sound()
        &&& self.ledger.sound()
        &&& forall|property: u64| #[trigger] self.is_delivered(property)
    }

    /// `post` is the market after `step`, with every instruction carried out.
    pub open spec fn takes(self, post: Self, env: Env, step: SaleStep) -> bool {
        &&& post.this == self.this
        &&& match step {
            SaleStep::Offering { sale: step } => {
                &&& !(step is Claim)
                &&& self.offering.takes(post.offering, env, step)
                &&& post.ledger == self.ledger
            },
            SaleStep::Ledger { step } => {
                &&& !(step is Issue)
                &&& self.ledger.takes(post.ledger, step)
                &&& post.offering == self.offering
            },
            SaleStep::Claim { property, investor } => {
                &&& self.offering.takes(
                    post.offering,
                    env,
                    offering_laws::Step::Claim { property, investor },
                )
                &&& self.ledger.takes(
                    post.ledger,
                    ledger_laws::Step::Issue {
                        caller: self.this,
                        property,
                        to: investor,
                        shares: self.offering.subscription(property, investor),
                    },
                )
            },
        }
    }
}

/// No more shares are ever issued than were sold, and no more are sold than there
/// are. Before a sale settles none exist.
pub proof fn law_never_more_issued_than_sold(market: PrimaryMarket, property: u64)
    requires
        market.sound(),
    ensures
        market.ledger.issued_of(property) >= 0,
        market.ledger.issued_of(property) > 0 ==> {
            let sale = market.offering.sales[property];
            &&& market.offering.sales.contains_key(property)
            &&& sale.status == SaleStatus::Settled
            &&& market.ledger.issued_of(property) <= sale.subscribed <= sale.total_shares
        },
{
    assert(market.is_delivered(property));
    assert(market.offering.is_listed(property));
}

/// Shares that were paid for are delivered: the ledger never refuses to issue what a
/// settled sale's subscriber claims.
pub proof fn law_paid_shares_are_delivered(market: PrimaryMarket, property: u64, investor: Address)
    requires
        market.sound(),
        market.offering.claim_refusal(property, investor) is None,
    ensures
        market.ledger.issue_refusal(
            market.this,
            market.offering.subscription(property, investor),
        ) is None,
{
}

/// Every operation, with the instructions it gives carried out, leaves the offering
/// and the ledger in agreement.
pub proof fn law_market_stays_sound(
    market: PrimaryMarket,
    post: PrimaryMarket,
    env: Env,
    step: SaleStep,
)
    requires
        market.sound(),
        market.takes(post, env, step),
    ensures
        post.sound(),
{
    match step {
        SaleStep::Offering { sale: step } => {
            offering_laws::law_sound_kept(market.offering, post.offering, env, step);
            assert forall|property: u64| #[trigger] post.is_delivered(property) by {
                assert(market.is_delivered(property));
                assert(market.offering.is_listed(property));
                assert(post.offering.is_listed(property));
                lemma_delivery_kept(market.offering, post.offering, env, step, property);
            }
        },
        SaleStep::Ledger { step } => {
            ledger_laws::law_sound_kept(market.ledger, post.ledger, step);
            ledger_laws::law_wired_once(market.ledger, post.ledger, step, market.this);
            assert forall|property: u64| #[trigger] post.is_delivered(property) by {
                assert(market.is_delivered(property));
            }
        },
        SaleStep::Claim { property, investor } => {
            let claim = offering_laws::Step::Claim { property, investor };
            offering_laws::law_sound_kept(market.offering, post.offering, env, claim);
            ledger_laws::law_sound_kept(
                market.ledger,
                post.ledger,
                ledger_laws::Step::Issue {
                    caller: market.this,
                    property,
                    to: investor,
                    shares: market.offering.subscription(property, investor),
                },
            );
            assert forall|p: u64| #[trigger] post.is_delivered(p) by {
                assert(market.is_delivered(p));
                offering_laws::law_claims_leave_the_queue(
                    market.offering,
                    post.offering,
                    env,
                    property,
                    investor,
                    p,
                );
            }
        },
    }
}

/// An operation other than a claim leaves what a settled sale has delivered as it
/// was, and settling delivers nothing yet.
proof fn lemma_delivery_kept(
    pre: OfferingModel,
    post: OfferingModel,
    env: Env,
    step: offering_laws::Step,
    property: u64,
)
    requires
        pre.sound(),
        post.sound(),
        pre.takes(post, env, step),
        !(step is Claim),
    ensures
        post.sales.contains_key(property) && post.sales[property].status == SaleStatus::Settled
            ==> {
            &&& pre.sales.contains_key(property)
            &&& post.sales[property].subscribed == pre.sales[property].subscribed
            &&& pre.sales[property].status == SaleStatus::Settled ==> post.waiting(property)
                == pre.waiting(property)
            &&& pre.sales[property].status != SaleStatus::Settled ==> post.waiting(property)
                == post.sales[property].subscribed
        },
        pre.sales.contains_key(property) && pre.sales[property].status == SaleStatus::Settled
            ==> post.sales.contains_key(property) && post.sales[property].status
            == SaleStatus::Settled,
{
    assert(pre.is_listed(property));
    assert(post.is_listed(property));
    if pre.sales.contains_key(property) {
        offering_laws::law_terms_never_move(pre, post, env, step, property);
    }
    if post.sales.contains_key(property) && post.sales[property].status == SaleStatus::Settled {
        offering_laws::law_queue_of_a_closed_sale(pre, post, env, step, property);
    }
}

// --- rent ---

/// The share ledger and the income distributor, and the address that the distributor
/// goes by.
pub ghost struct RentRoll {
    pub ledger: ShareLedgerModel,
    pub distributor: IncomeDistributorModel,
    pub this: Address,
}

/// Something done to the rent roll.
pub ghost enum RentStep {
    /// Shares are issued or change hands, or the ledger is administered.
    Ledger { step: ledger_laws::Step },
    /// Administration of the distributor.
    Administer,
    /// Rent is paid in, and the ledger shares it out.
    Deposit { property: u64, from: Address, amount: i128 },
    /// The ledger hands back what a holder is owed, and the holder is paid it.
    Claim { property: u64, holder: Address, owed: i128 },
}

/// Money that `effects` bring in for `contract`, less what they pay out.
pub open spec fn net_flow(effects: Seq<Effect>, contract: Address) -> int
    decreases effects.len(),
{
    if effects.len() == 0 {
        0
    } else {
        net_flow(effects.drop_last(), contract) + flow(effects.last(), contract)
    }
}

/// Money that one effect brings in for `contract`, less what it pays out.
pub open spec fn flow(effect: Effect, contract: Address) -> int {
    match effect {
        Effect::Transfer(t) => (if t.to == contract {
            t.amount as int
        } else {
            0
        }) - (if t.from == contract {
            t.amount as int
        } else {
            0
        }),
        _ => 0,
    }
}

impl IncomeDistributorModel {
    /// `post` is this distributor after something its admin did.
    pub open spec fn administered(self, post: Self) -> bool {
        &&& post == (IncomeDistributorModel {
            governance: post.governance,
            outbox: post.outbox,
            ..self
        })
        &&& post.outbox == self.outbox || exists|wasm_hash: Digest|
            post.outbox == self.outbox.push(Effect::Upgrade(wasm_hash))
    }
}

impl RentRoll {
    /// Rent received for a property and not yet collected.
    pub open spec fn unclaimed(self, property: u64) -> int {
        self.distributor.deposited_of(property) - self.distributor.claimed_of(property)
    }

    /// Whether every scaled unit of the rent held for a property is in some holder's
    /// stake or in the carry.
    pub open spec fn accounted(self, property: u64) -> bool {
        self.ledger.accounts_for(property, self.unclaimed(property))
    }

    /// `post` is the rent roll after `step`, with every instruction carried out.
    pub open spec fn takes(self, post: Self, env: Env, step: RentStep) -> bool {
        &&& post.this == self.this
        &&& match step {
            RentStep::Ledger { step } => {
                &&& !(step is Accrue) && !(step is Take)
                &&& self.ledger.takes(post.ledger, step)
                &&& post.distributor == self.distributor
            },
            RentStep::Administer => {
                &&& self.distributor.administered(post.distributor)
                &&& post.ledger == self.ledger
            },
            RentStep::Deposit { property, from, amount } => {
                &&& self.distributor.deposit_refusal(amount) is None
                &&& self.distributor.received(post.distributor, env, property, from, amount)
                &&& self.ledger.takes(
                    post.ledger,
                    ledger_laws::Step::Accrue { caller: self.this, property, amount },
                )
            },
            RentStep::Claim { property, holder, owed } => {
                &&& self.ledger.takes(
                    post.ledger,
                    ledger_laws::Step::Take { caller: self.this, property, holder, taken: owed },
                )
                &&& self.distributor.claim_refusal(owed) is None
                &&& self.distributor.paid_out(post.distributor, env, property, holder, owed)
            },
        }
    }
}

/// The rent held for a property stays accounted for, and enough for everything its
/// holders could claim, through every deposit, claim, issue and trade.
pub proof fn law_rent_stays_covered(
    roll: RentRoll,
    post: RentRoll,
    env: Env,
    step: RentStep,
    property: u64,
)
    requires
        roll.ledger.sound(),
        roll.takes(post, env, step),
        roll.accounted(property),
    ensures
        post.ledger.sound(),
        post.accounted(property),
        total(post.ledger.positions, claims(property, post.ledger.acc_of(property)))
            <= post.unclaimed(property),
{
    let taken = match step {
        RentStep::Ledger { step } => step,
        RentStep::Administer => ledger_laws::Step::Administer,
        RentStep::Deposit { property, amount, .. } => ledger_laws::Step::Accrue {
            caller: roll.this,
            property,
            amount,
        },
        RentStep::Claim { property, holder, owed } => ledger_laws::Step::Take {
            caller: roll.this,
            property,
            holder,
            taken: owed,
        },
    };
    ledger_laws::law_sound_kept(roll.ledger, post.ledger, taken);
    ledger_laws::law_claims_stay_covered(
        roll.ledger,
        post.ledger,
        taken,
        property,
        roll.unclaimed(property),
    );
}

/// Where the rent held for a property is accounted for, it is enough to pay every claim
/// on it at once.
pub proof fn law_covered_rent_can_be_paid(roll: RentRoll, property: u64)
    requires
        roll.ledger.sound(),
        roll.accounted(property),
    ensures
        total(roll.ledger.positions, claims(property, roll.ledger.acc_of(property)))
            <= roll.unclaimed(property),
        forall|holder: Address| #[trigger]
            roll.ledger.accrued(property, holder) <= roll.unclaimed(property),
{
    ledger_laws::law_covered_claims_can_be_paid(roll.ledger, property, roll.unclaimed(property));
}

/// Little rent is ever stranded: what is held for a property beyond what its holders can
/// claim is nothing, or less than a unit for each of its stakes and a scaled unit for
/// each of its shares.
pub proof fn law_stranded_rent_is_bounded(roll: RentRoll, property: u64)
    requires
        roll.ledger.sound(),
        roll.accounted(property),
    ensures
        ({
            let stranded = roll.unclaimed(property) - total(
                roll.ledger.positions,
                claims(property, roll.ledger.acc_of(property)),
            );
            let held = total(roll.ledger.positions, stakes(property));
            &&& stranded >= 0
            &&& stranded == 0 || SCALE * stranded < roll.ledger.issued_of(property) + (SCALE - 1)
                * held
            &&& roll.ledger.issued_of(property) <= SCALE ==> stranded <= held
        }),
{
    ledger_laws::law_stranded_income_is_bounded(roll.ledger, property, roll.unclaimed(property));
}

/// The money the distributor moves is exactly what it changes in the rent it holds,
/// where the party on the other side is not the distributor itself; a claim pays the
/// holder exactly what the ledger says they are owed.
pub proof fn law_rent_matches_the_books(
    roll: RentRoll,
    post: RentRoll,
    env: Env,
    step: RentStep,
    property: u64,
)
    requires
        roll.takes(post, env, step),
        match step {
            RentStep::Ledger { .. } | RentStep::Administer => true,
            RentStep::Deposit { property: p, from, .. } => p == property && from != env.contract,
            RentStep::Claim { property: p, holder, .. } => p == property && holder
                != env.contract,
        },
    ensures
        net_flow(post.distributor.outbox, env.contract) - net_flow(
            roll.distributor.outbox,
            env.contract,
        ) == post.unclaimed(property) - roll.unclaimed(property),
        step matches RentStep::Claim { holder, owed, .. } ==> owed == roll.ledger.accrued(
            property,
            holder,
        ),
{
    reveal_with_fuel(net_flow, 4);
    match step {
        RentStep::Administer => {
            if post.distributor.outbox != roll.distributor.outbox {
                assert(post.distributor.outbox.drop_last() =~= roll.distributor.outbox);
            }
        },
        RentStep::Deposit { .. } => {
            assert(post.distributor.outbox.drop_last().drop_last().drop_last()
                =~= roll.distributor.outbox);
        },
        RentStep::Claim { .. } => {
            assert(post.distributor.outbox.drop_last().drop_last() =~= roll.distributor.outbox);
        },
        _ => {},
    }
}

/// One property's rent is never another's: a deposit or claim for one leaves what is
/// held for every other as it was.
pub proof fn law_rents_are_isolated(
    roll: RentRoll,
    post: RentRoll,
    env: Env,
    step: RentStep,
    property: u64,
)
    requires
        roll.takes(post, env, step),
        match step {
            RentStep::Ledger { .. } | RentStep::Administer => true,
            RentStep::Deposit { property: p, .. } => p != property,
            RentStep::Claim { property: p, .. } => p != property,
        },
    ensures
        post.unclaimed(property) == roll.unclaimed(property),
{
}

/// A rent roll's history: each state follows from the one before by a step.
pub open spec fn is_history(rolls: Seq<RentRoll>, envs: Seq<Env>, steps: Seq<RentStep>) -> bool {
    &&& rolls.len() == steps.len() + 1
    &&& envs.len() == steps.len()
    &&& forall|i: int|
        0 <= i < steps.len() ==> #[trigger] rolls[i].takes(rolls[i as int + 1], envs[i], steps[i])
}

/// Through any history of a rent roll that starts sound and owing nothing, what the
/// holders of a property can claim is never more than the rent held for it.
pub proof fn law_rent_history_stays_covered(
    rolls: Seq<RentRoll>,
    envs: Seq<Env>,
    steps: Seq<RentStep>,
    property: u64,
    n: nat,
)
    requires
        is_history(rolls, envs, steps),
        rolls[0].ledger.sound(),
        rolls[0].accounted(property),
        n <= steps.len(),
    ensures
        rolls[n as int].ledger.sound(),
        rolls[n as int].accounted(property),
        total(
            rolls[n as int].ledger.positions,
            claims(property, rolls[n as int].ledger.acc_of(property)),
        ) <= rolls[n as int].unclaimed(property),
    decreases n,
{
    if n > 0 {
        let i = (n - 1) as nat;
        law_rent_history_stays_covered(rolls, envs, steps, property, i);
        assert(rolls[i as int].takes(rolls[i as int + 1], envs[i as int], steps[i as int]));
        law_rent_stays_covered(
            rolls[i as int],
            rolls[n as int],
            envs[i as int],
            steps[i as int],
            property,
        );
    } else {
        law_covered_rent_can_be_paid(rolls[0], property);
    }
}

/// Administration of the distributor moves no rent: every administrative operation
/// leaves the totals and the wiring as they were, and asks for nothing but an upgrade.
pub proof fn law_admin_moves_no_rent(
    distributor: IncomeDistributorModel,
    governance: Governance<Action>,
    wasm_hash: Digest,
)
    ensures
        distributor.administered(IncomeDistributorModel { governance, ..distributor }),
        distributor.administered(
            IncomeDistributorModel {
                governance,
                outbox: distributor.outbox.push(Effect::Upgrade(wasm_hash)),
                ..distributor
            },
        ),
{
}

} // verus!
