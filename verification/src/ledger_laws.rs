//! What holds of the share ledger whatever is done to it.

use crate::accrual::{
    entitled, fraction, law_nothing_is_lost, lemma_entitled_grows, lemma_worth, worth, SCALE,
};
use crate::arith::{
    lemma_total_bounds, lemma_total_empty, lemma_total_insert, lemma_total_linear,
    lemma_total_nothing, total,
};
use crate::governance::Governance;
use crate::host::{Address, Digest};
use crate::share_ledger::{Action, Effect, Position, ShareLedgerModel};
use crate::table::StakeOf;
use vstd::prelude::*;

verus! {

/// Something done to the ledger.
pub ghost enum Step {
    Administer,
    Issue { caller: Address, property: u64, to: Address, shares: i128 },
    Transfer { property: u64, from: Address, to: Address, shares: i128 },
    Accrue { caller: Address, property: u64, amount: i128 },
    Take { caller: Address, property: u64, holder: Address, taken: i128 },
}

impl Step {
    /// Whether the step is about `property`.
    pub open spec fn concerns(self, property: u64) -> bool {
        match self {
            Step::Administer => false,
            Step::Issue { property: p, .. } => p == property,
            Step::Transfer { property: p, .. } => p == property,
            Step::Accrue { property: p, .. } => p == property,
            Step::Take { property: p, .. } => p == property,
        }
    }
}

impl Position {
    /// A stake as the ledger keeps it.
    pub open spec fn sound(self, acc: i128) -> bool {
        &&& self.balance >= 0
        &&& self.credited >= 0
        &&& 0 <= self.reward_debt <= entitled(self.balance as int, acc as int)
    }

    /// The stake's worth in scaled units.
    pub open spec fn worth(self, acc: i128) -> int {
        worth(self.balance as int, self.reward_debt as int, self.credited as int, acc as int)
    }

    /// The fraction of a unit the stake has earned beyond what it can claim.
    pub open spec fn fraction(self, acc: i128) -> int {
        fraction(self.balance as int, acc as int)
    }
}

/// Shares of `property` in a stake.
pub open spec fn balances(property: u64) -> spec_fn(StakeOf, Position) -> int {
    |key: StakeOf, position: Position|
        if key.property == property {
            position.balance as int
        } else {
            0
        }
}

/// What a stake can claim of the income of `property` at `acc`.
pub open spec fn claims(property: u64, acc: i128) -> spec_fn(StakeOf, Position) -> int {
    |key: StakeOf, position: Position|
        if key.property == property {
            position.accrued(acc)
        } else {
            0
        }
}

/// What a stake in `property` is worth at `acc`, in scaled units.
pub open spec fn values(property: u64, acc: i128) -> spec_fn(StakeOf, Position) -> int {
    |key: StakeOf, position: Position|
        if key.property == property {
            position.worth(acc)
        } else {
            0
        }
}

/// The fraction of a unit a stake in `property` has earned at `acc` beyond what it can
/// claim.
pub open spec fn uncounted(property: u64, acc: i128) -> spec_fn(StakeOf, Position) -> int {
    |key: StakeOf, position: Position|
        if key.property == property {
            position.fraction(acc)
        } else {
            0
        }
}

/// One for each stake in `property`.
pub open spec fn stakes(property: u64) -> spec_fn(StakeOf, Position) -> int {
    |key: StakeOf, position: Position|
        if key.property == property {
            1
        } else {
            0
        }
}

impl ShareLedgerModel {
    /// `post` differs from this ledger by administration alone.
    pub open spec fn administered(self, post: Self) -> bool {
        &&& post == (ShareLedgerModel {
            governance: post.governance,
            offering: post.offering,
            distributor: post.distributor,
            outbox: post.outbox,
            ..self
        })
        &&& self.offering is Some ==> post.offering == self.offering
        &&& self.distributor is Some ==> post.distributor == self.distributor
        &&& post.outbox == self.outbox || exists|wasm_hash: Digest|
            post.outbox == self.outbox.push(Effect::Upgrade(wasm_hash))
    }

    /// `post` is this ledger after `step`, which was not refused.
    pub open spec fn takes(self, post: Self, step: Step) -> bool {
        match step {
            Step::Administer => self.administered(post),
            Step::Issue { caller, property, to, shares } => self.issue_refusal(
                caller,
                shares,
            ) is None && self.issued_to(post, property, to, shares),
            Step::Transfer { property, from, to, shares } => self.transfer_refusal(
                property,
                from,
                to,
                shares,
            ) is None && self.transferred(post, property, from, to, shares),
            Step::Accrue { caller, property, amount } => self.accrue_refusal(
                caller,
                property,
                amount,
            ) is None && self.accrued_to(post, property, amount),
            Step::Take { caller, property, holder, taken } => self.payer_refusal(caller) is None
                && self.taken(post, property, holder, taken),
        }
    }

    /// Income of `property` that nobody can claim yet, in scaled units: the carry and
    /// the fractions of a unit in the stakes.
    pub open spec fn unclaimable(self, property: u64) -> int {
        self.carry_of(property) + total(
            self.positions,
            uncounted(property, self.acc_of(property)),
        )
    }

    /// What was issued of `property` is what is held of it. What its carry lacks is held
    /// in fractions of a unit that nobody can claim, and carry and fractions together
    /// are less than a unit for each stake and a scaled unit for each share.
    pub open spec fn balanced(self, property: u64) -> bool {
        &&& self.acc_of(property) >= 0
        &&& self.unclaimable(property) >= 0
        &&& self.unclaimable(property) == 0 || self.unclaimable(property) < self.issued_of(
            property,
        ) + (SCALE - 1) * total(self.positions, stakes(property))
        &&& self.issued_of(property) == total(self.positions, balances(property))
    }

    /// The ledger as its operations keep it.
    pub open spec fn sound(self) -> bool {
        &&& self.positions.dom().finite()
        &&& forall|property: u64| #[trigger] self.balanced(property)
        &&& forall|key: StakeOf| #[trigger]
            self.positions.contains_key(key) ==> self.positions[key].sound(
                self.acc_of(key.property),
            )
    }

    /// Income that `step` adds to what is held for a property, or takes from it.
    pub open spec fn pot_change(self, property: u64, step: Step) -> int {
        match step {
            Step::Accrue { property: p, amount, .. } => if p == property {
                amount as int
            } else {
                0
            },
            Step::Take { property: p, taken, .. } => if p == property {
                -taken
            } else {
                0
            },
            _ => 0,
        }
    }

    /// Whether every scaled unit of `pot`, the income held for a property, is in some
    /// holder's stake or in the carry.
    pub open spec fn accounts_for(self, property: u64, pot: int) -> bool {
        total(self.positions, values(property, self.acc_of(property))) + self.carry_of(property)
            == SCALE * pot
    }
}

/// The ledger is sound as it is deployed, and owes nobody anything.
pub proof fn law_deployed_sound(admin: Address, timelock_secs: u64)
    ensures
        ({
            let ledger = ShareLedgerModel {
                governance: Governance {
                    admin: Some(admin),
                    pending_admin: None,
                    timelock_secs: Some(timelock_secs),
                    scheduled: None,
                },
                offering: None,
                distributor: None,
                positions: Map::empty(),
                issued: Map::empty(),
                acc: Map::empty(),
                carry: Map::empty(),
                outbox: Seq::empty(),
            };
            ledger.sound() && forall|property: u64| #[trigger] ledger.accounts_for(property, 0)
        }),
{
    let ledger = ShareLedgerModel {
        governance: Governance {
            admin: Some(admin),
            pending_admin: None,
            timelock_secs: Some(timelock_secs),
            scheduled: None,
        },
        offering: None,
        distributor: None,
        positions: Map::empty(),
        issued: Map::empty(),
        acc: Map::empty(),
        carry: Map::empty(),
        outbox: Seq::empty(),
    };
    assert forall|property: u64| #[trigger] ledger.balanced(property) by {
        lemma_total_empty(balances(property));
        lemma_total_empty(uncounted(property, 0));
        lemma_total_empty(stakes(property));
    }
    assert forall|property: u64| #[trigger] ledger.accounts_for(property, 0) by {
        lemma_total_empty(values(property, 0));
    }
    lemma_total_empty(balances(0));
}

/// A stake rewritten at the same accumulator moves each sum by its own change.
proof fn lemma_stake_written(
    positions: Map<StakeOf, Position>,
    key: StakeOf,
    stake: Position,
    acc: i128,
)
    requires
        positions.dom().finite(),
        acc >= 0,
        stake.balance >= 0,
        stake.reward_debt == entitled(stake.balance as int, acc as int),
        positions.contains_key(key) ==> positions[key].sound(acc),
    ensures
        positions.insert(key, stake).dom().finite(),
        ({
            let before = if positions.contains_key(key) {
                positions[key]
            } else {
                Position::none()
            };
            &&& before.sound(acc)
            &&& forall|property: u64|
                total(positions.insert(key, stake), #[trigger] balances(property)) == total(
                    positions,
                    balances(property),
                ) + (if property == key.property {
                    stake.balance - before.balance
                } else {
                    0
                })
            &&& forall|property: u64, a: i128|
                property != key.property ==> total(
                    positions.insert(key, stake),
                    #[trigger] values(property, a),
                ) == total(positions, values(property, a))
            &&& total(positions.insert(key, stake), values(key.property, acc)) == total(
                positions,
                values(key.property, acc),
            ) - SCALE * before.accrued(acc) - before.fraction(acc) + SCALE * stake.credited
                + stake.fraction(acc)
            &&& forall|property: u64, a: i128|
                property != key.property ==> total(
                    positions.insert(key, stake),
                    #[trigger] uncounted(property, a),
                ) == total(positions, uncounted(property, a))
            &&& total(positions.insert(key, stake), uncounted(key.property, acc)) == total(
                positions,
                uncounted(key.property, acc),
            ) - before.fraction(acc) + stake.fraction(acc)
            &&& forall|property: u64|
                total(positions.insert(key, stake), #[trigger] stakes(property)) == total(
                    positions,
                    stakes(property),
                ) + (if property == key.property && !positions.contains_key(key) {
                    1int
                } else {
                    0
                })
            &&& stake.reward_debt >= 0
        }),
{
    let before = if positions.contains_key(key) {
        positions[key]
    } else {
        Position::none()
    };
    assert(0 * acc == 0);
    lemma_worth(
        before.balance as int,
        before.reward_debt as int,
        before.credited as int,
        acc as int,
    );
    lemma_worth(
        stake.balance as int,
        stake.reward_debt as int,
        stake.credited as int,
        acc as int,
    );
    lemma_total_insert(positions, values(key.property, acc), key, stake);
    lemma_total_insert(positions, uncounted(key.property, acc), key, stake);
    assert forall|property: u64|
        total(positions.insert(key, stake), #[trigger] balances(property)) == total(
            positions,
            balances(property),
        ) + (if property == key.property {
            stake.balance - before.balance
        } else {
            0
        }) by {
        lemma_total_insert(positions, balances(property), key, stake);
    }
    assert forall|property: u64, a: i128| property != key.property implies total(
        positions.insert(key, stake),
        #[trigger] values(property, a),
    ) == total(positions, values(property, a)) by {
        lemma_total_insert(positions, values(property, a), key, stake);
    }
    assert forall|property: u64, a: i128| property != key.property implies total(
        positions.insert(key, stake),
        #[trigger] uncounted(property, a),
    ) == total(positions, uncounted(property, a)) by {
        lemma_total_insert(positions, uncounted(property, a), key, stake);
    }
    assert forall|property: u64|
        total(positions.insert(key, stake), #[trigger] stakes(property)) == total(
            positions,
            stakes(property),
        ) + (if property == key.property && !positions.contains_key(key) {
            1int
        } else {
            0
        }) by {
        lemma_total_insert(positions, stakes(property), key, stake);
    }
}

/// Fractions of a unit are never below nothing and always below a unit, and a stake is
/// worth what it can claim and its fraction.
proof fn lemma_uncounted(positions: Map<StakeOf, Position>, property: u64, acc: i128)
    requires
        positions.dom().finite(),
        acc >= 0,
        forall|k: StakeOf| #[trigger]
            positions.contains_key(k) && k.property == property ==> positions[k].balance >= 0,
    ensures
        0 <= total(positions, uncounted(property, acc)) <= (SCALE - 1) * total(
            positions,
            stakes(property),
        ),
        total(positions, values(property, acc)) == total(positions, uncounted(property, acc))
            + SCALE * total(positions, claims(property, acc)),
{
    let nothing = |k: StakeOf, p: Position| 0int;
    let most = |k: StakeOf, p: Position| (SCALE - 1) * stakes(property)(k, p);
    assert forall|k: StakeOf| #[trigger] positions.contains_key(k) implies nothing(k, positions[k])
        <= uncounted(property, acc)(k, positions[k]) <= most(k, positions[k]) && values(
        property,
        acc,
    )(k, positions[k])
        == uncounted(property, acc)(k, positions[k]) + SCALE * claims(property, acc)(
        k,
        positions[k],
    ) by {
        let p = positions[k];
        if k.property == property {
            lemma_worth(p.balance as int, p.reward_debt as int, p.credited as int, acc as int);
        }
    }
    lemma_total_bounds(positions, nothing, uncounted(property, acc));
    lemma_total_nothing(positions, nothing);
    lemma_total_bounds(positions, uncounted(property, acc), most);
    lemma_total_linear(positions, nothing, stakes(property), SCALE - 1, most);
    lemma_total_linear(
        positions,
        uncounted(property, acc),
        claims(property, acc),
        SCALE as int,
        values(property, acc),
    );
}

/// Every operation leaves the ledger sound. In particular the shares issued of a
/// property stay the sum of the shares held of it.
pub proof fn law_sound_kept(pre: ShareLedgerModel, post: ShareLedgerModel, step: Step)
    requires
        pre.sound(),
        pre.takes(post, step),
    ensures
        post.sound(),
        forall|property: u64| #[trigger] post.acc_of(property) >= pre.acc_of(property),
{
    match step {
        Step::Administer => {
            assert forall|property: u64| #[trigger] post.balanced(property) by {
                assert(pre.balanced(property));
            }
        },
        Step::Issue { property, to, .. } => {
            let key = StakeOf { property, party: to };
            assert(pre.balanced(property));
            lemma_stake_written(
                pre.positions,
                key,
                post.positions[key],
                pre.acc_of(property),
            );
            assert forall|p: u64| #[trigger] post.balanced(p) by {
                assert(pre.balanced(p));
            }
        },
        Step::Transfer { property, from, to, .. } => {
            let seller = StakeOf { property, party: from };
            let buyer = StakeOf { property, party: to };
            assert(pre.balanced(property));
            let mid = pre.positions.insert(seller, post.positions[seller]);
            lemma_stake_written(
                pre.positions,
                seller,
                post.positions[seller],
                pre.acc_of(property),
            );
            assert(pre.position(property, to).sound(pre.acc_of(property))) by {
                assert(0 * pre.acc_of(property) == 0);
            }
            lemma_stake_written(mid, buyer, post.positions[buyer], pre.acc_of(property));
            assert forall|p: u64| #[trigger] post.balanced(p) by {
                assert(pre.balanced(p));
            }
        },
        Step::Accrue { property, amount, .. } => {
            assert(pre.balanced(property));
            law_nothing_is_lost(
                amount as int,
                pre.carry_of(property) as int,
                pre.acc_of(property) as int,
                pre.issued_of(property) as int,
            );
            assert forall|k: StakeOf| #[trigger]
                post.positions.contains_key(k) implies post.positions[k].balance >= 0 by {
                assert(pre.positions[k].sound(pre.acc_of(k.property)));
            }
            lemma_uncounted(post.positions, property, post.acc_of(property));
            assert forall|p: u64| #[trigger] post.balanced(p) by {
                assert(pre.balanced(p));
            }
            assert forall|key: StakeOf| #[trigger] post.positions.contains_key(key) implies
                post.positions[key].sound(post.acc_of(key.property)) by {
                assert(pre.positions.contains_key(key));
                if key.property == property {
                    lemma_entitled_grows(
                        post.positions[key].balance as int,
                        pre.acc_of(property) as int,
                        post.acc_of(property) as int,
                    );
                }
            }
        },
        Step::Take { property, holder, .. } => {
            let key = StakeOf { property, party: holder };
            assert(pre.balanced(property));
            assert(pre.position(property, holder).sound(pre.acc_of(property))) by {
                assert(0 * pre.acc_of(property) == 0);
            }
            lemma_stake_written(
                pre.positions,
                key,
                post.positions[key],
                pre.acc_of(property),
            );
            assert forall|p: u64| #[trigger] post.balanced(p) by {
                assert(pre.balanced(p));
            }
        },
    }
}

/// Nothing that happens to one property reaches another: its issue, its income and
/// every stake in it stay as they were.
pub proof fn law_properties_are_isolated(
    pre: ShareLedgerModel,
    post: ShareLedgerModel,
    step: Step,
    property: u64,
    holder: Address,
)
    requires
        pre.takes(post, step),
        !step.concerns(property),
    ensures
        post.issued_of(property) == pre.issued_of(property),
        post.acc_of(property) == pre.acc_of(property),
        post.carry_of(property) == pre.carry_of(property),
        post.position(property, holder) == pre.position(property, holder),
        post.accrued(property, holder) == pre.accrued(property, holder),
{
}

/// A transfer creates and destroys nothing: what the seller gives the buyer gets,
/// nobody else's stake changes and the issue stays as it was.
pub proof fn law_transfers_conserve_shares(
    pre: ShareLedgerModel,
    post: ShareLedgerModel,
    property: u64,
    from: Address,
    to: Address,
    shares: i128,
    other: Address,
)
    requires
        pre.takes(post, Step::Transfer { property, from, to, shares }),
        other != from,
        other != to,
    ensures
        post.position(property, from).balance == pre.position(property, from).balance - shares,
        post.position(property, to).balance == pre.position(property, to).balance + shares,
        post.position(property, other) == pre.position(property, other),
        post.issued_of(property) == pre.issued_of(property),
{
}

/// Selling forfeits no income already earned, and buying lays no claim to income
/// earned before: issuing and transferring leave what everybody could claim as it
/// was.
pub proof fn law_moving_shares_earns_nothing(
    pre: ShareLedgerModel,
    post: ShareLedgerModel,
    step: Step,
    property: u64,
    holder: Address,
)
    requires
        pre.takes(post, step),
        step is Issue || step is Transfer,
    ensures
        post.accrued(property, holder) == pre.accrued(property, holder),
{
    assert(0 * pre.acc_of(property) == 0);
}

/// Passing shares there and back credits nothing: both sides, and the carry, end where
/// they began.
pub proof fn law_churning_earns_nothing(
    pre: ShareLedgerModel,
    mid: ShareLedgerModel,
    post: ShareLedgerModel,
    property: u64,
    from: Address,
    to: Address,
    shares: i128,
    holder: Address,
)
    requires
        pre.takes(mid, Step::Transfer { property, from, to, shares }),
        mid.takes(post, Step::Transfer { property, from: to, to: from, shares }),
    ensures
        post.position(property, holder).balance == pre.position(property, holder).balance,
        post.accrued(property, holder) == pre.accrued(property, holder),
        post.carry_of(property) == pre.carry_of(property),
{
    law_moving_shares_earns_nothing(
        pre,
        mid,
        Step::Transfer { property, from, to, shares },
        property,
        holder,
    );
    law_moving_shares_earns_nothing(
        mid,
        post,
        Step::Transfer { property, from: to, to: from, shares },
        property,
        holder,
    );
}

/// What is handed to the distributor is everything the holder could claim, and
/// leaves nothing for a second time.
pub proof fn law_take_empties_the_credit(
    pre: ShareLedgerModel,
    post: ShareLedgerModel,
    caller: Address,
    property: u64,
    holder: Address,
    taken: i128,
)
    requires
        pre.takes(post, Step::Take { caller, property, holder, taken }),
    ensures
        taken == pre.accrued(property, holder),
        post.accrued(property, holder) == 0,
        post.position(property, holder).balance == pre.position(property, holder).balance,
{
}

/// Income is never taken from anybody but by their own claim: what a holder could
/// claim never falls otherwise.
pub proof fn law_others_leave_claims_alone(
    pre: ShareLedgerModel,
    post: ShareLedgerModel,
    step: Step,
    property: u64,
    holder: Address,
)
    requires
        pre.sound(),
        pre.takes(post, step),
        !(step matches Step::Take { property: p, holder: h, .. } && p == property && h == holder),
    ensures
        post.accrued(property, holder) >= pre.accrued(property, holder),
        !(step is Accrue) ==> post.accrued(property, holder) == pre.accrued(property, holder),
{
    law_sound_kept(pre, post, step);
    assert(pre.balanced(property));
    let stake = pre.position(property, holder);
    assert(0 * pre.acc_of(property) == 0);
    assert(stake.balance >= 0) by {
        let key = StakeOf { property, party: holder };
        if pre.positions.contains_key(key) {
            assert(stake.sound(pre.acc_of(property)));
        }
    }
    if step is Accrue {
        assert(post.acc_of(property) >= pre.acc_of(property));
        lemma_entitled_grows(
            stake.balance as int,
            pre.acc_of(property) as int,
            post.acc_of(property) as int,
        );
    } else if step is Issue || step is Transfer {
        law_moving_shares_earns_nothing(pre, post, step, property, holder);
    }
}

/// Every operation keeps the income held for a property accounted for to the last
/// scaled unit, and so keeps it enough for every claim, however the shares are traded.
pub proof fn law_claims_stay_covered(
    pre: ShareLedgerModel,
    post: ShareLedgerModel,
    step: Step,
    property: u64,
    pot: int,
)
    requires
        pre.sound(),
        pre.takes(post, step),
        pre.accounts_for(property, pot),
    ensures
        post.accounts_for(property, pot + pre.pot_change(property, step)),
        total(post.positions, claims(property, post.acc_of(property))) <= pot + pre.pot_change(
            property,
            step,
        ),
{
    law_sound_kept(pre, post, step);
    assert(pre.balanced(property));
    let acc = pre.acc_of(property);
    match step {
        Step::Administer => {},
        Step::Issue { property: p, to, .. } => {
            let key = StakeOf { property: p, party: to };
            assert(pre.balanced(p));
            assert(0 * pre.acc_of(p) == 0);
            lemma_stake_written(pre.positions, key, post.positions[key], pre.acc_of(p));
            if p != property {
                assert(total(post.positions, values(property, acc)) == total(
                    pre.positions,
                    values(property, acc),
                ));
            }
        },
        Step::Transfer { property: p, from, to, .. } => {
            let seller = StakeOf { property: p, party: from };
            let buyer = StakeOf { property: p, party: to };
            let at = pre.acc_of(p);
            assert(pre.balanced(p));
            assert(0 * at == 0);
            let mid = pre.positions.insert(seller, post.positions[seller]);
            lemma_stake_written(pre.positions, seller, post.positions[seller], at);
            lemma_stake_written(mid, buyer, post.positions[buyer], at);
            if p != property {
                assert(total(mid, values(property, acc)) == total(
                    pre.positions,
                    values(property, acc),
                ));
                assert(total(post.positions, values(property, acc)) == total(
                    mid,
                    values(property, acc),
                ));
            }
        },
        Step::Accrue { property: p, amount, .. } => {
            if p == property {
                let per_share = post.acc_of(p) - acc;
                law_nothing_is_lost(
                    amount as int,
                    pre.carry_of(p) as int,
                    acc as int,
                    pre.issued_of(p) as int,
                );
                assert forall|key: StakeOf| #[trigger] pre.positions.contains_key(key) implies
                    values(p, post.acc_of(p))(key, pre.positions[key]) == values(p, acc)(
                    key,
                    pre.positions[key],
                ) + per_share * balances(p)(key, pre.positions[key]) by {
                    let held = pre.positions[key].balance as int;
                    let later = post.acc_of(p) as int;
                    assert(held * later == held * acc + per_share * held) by (nonlinear_arith)
                        requires
                            per_share == later - acc,
                    ;
                    assert(per_share * 0 == 0);
                }
                lemma_total_linear(
                    pre.positions,
                    values(p, acc),
                    balances(p),
                    per_share,
                    values(p, post.acc_of(p)),
                );
            }
        },
        Step::Take { property: p, holder, .. } => {
            let key = StakeOf { property: p, party: holder };
            assert(pre.balanced(p));
            assert(0 * pre.acc_of(p) == 0);
            assert(pre.position(p, holder).sound(pre.acc_of(p)));
            lemma_stake_written(pre.positions, key, post.positions[key], pre.acc_of(p));
            if p != property {
                assert(total(post.positions, values(property, acc)) == total(
                    pre.positions,
                    values(property, acc),
                ));
            }
        },
    }
    law_covered_claims_can_be_paid(post, property, pot + pre.pot_change(property, step));
}

/// Where the income held for a property is accounted for, it is enough to pay every
/// claim on it at once. What it exceeds them by is the carry and the fractions of a
/// unit that nobody can claim.
pub proof fn law_covered_claims_can_be_paid(ledger: ShareLedgerModel, property: u64, pot: int)
    requires
        ledger.sound(),
        ledger.accounts_for(property, pot),
    ensures
        total(ledger.positions, claims(property, ledger.acc_of(property))) <= pot,
        SCALE * (pot - total(ledger.positions, claims(property, ledger.acc_of(property))))
            == ledger.unclaimable(property),
        forall|holder: Address| #[trigger] ledger.accrued(property, holder) <= pot,
{
    let acc = ledger.acc_of(property);
    assert(ledger.balanced(property));
    let nothing = |k: StakeOf, p: Position| 0int;
    assert forall|k: StakeOf| #[trigger] ledger.positions.contains_key(k) implies
        ledger.positions[k].balance >= 0 && nothing(k, ledger.positions[k]) <= claims(
        property,
        acc,
    )(k, ledger.positions[k]) by {
        assert(ledger.positions[k].sound(ledger.acc_of(k.property)));
    }
    lemma_uncounted(ledger.positions, property, acc);
    lemma_total_nothing(ledger.positions, nothing);
    lemma_total_bounds(ledger.positions, nothing, claims(property, acc));
    assert forall|holder: Address| #[trigger] ledger.accrued(property, holder) <= pot by {
        let key = StakeOf { property, party: holder };
        if ledger.positions.contains_key(key) {
        } else {
            assert(0 * acc == 0);
        }
    }
}

/// Little income is ever stranded, however often it arrives and however the shares are
/// traded: what is held for a property beyond what its holders can claim is nothing, or
/// less than a unit for each of its stakes and a scaled unit for each of its shares.
/// Where there are no more shares than stakes it is less than a unit for each stake,
/// and where there are no more than [`SCALE`] it is no more than that.
pub proof fn law_stranded_income_is_bounded(ledger: ShareLedgerModel, property: u64, pot: int)
    requires
        ledger.sound(),
        ledger.accounts_for(property, pot),
    ensures
        ({
            let stranded = pot - total(
                ledger.positions,
                claims(property, ledger.acc_of(property)),
            );
            let held = total(ledger.positions, stakes(property));
            let issued = ledger.issued_of(property);
            &&& stranded >= 0
            &&& stranded == 0 || SCALE * stranded < issued + (SCALE - 1) * held
            &&& issued <= held ==> stranded == 0 || stranded < held
            &&& issued <= SCALE ==> stranded <= held
        }),
{
    law_covered_claims_can_be_paid(ledger, property, pot);
    assert(ledger.balanced(property));
    assert forall|k: StakeOf| #[trigger]
        ledger.positions.contains_key(k) implies ledger.positions[k].balance >= 0 by {
        assert(ledger.positions[k].sound(ledger.acc_of(k.property)));
    }
    lemma_uncounted(ledger.positions, property, ledger.acc_of(property));
}

/// A ledger's history: each state follows from the one before by a step.
pub open spec fn is_history(states: Seq<ShareLedgerModel>, steps: Seq<Step>) -> bool {
    &&& states.len() == steps.len() + 1
    &&& forall|i: int|
        0 <= i < steps.len() ==> #[trigger] states[i].takes(states[i as int + 1], steps[i])
}

/// The income accrued for a property in the first `n` steps of a history, less what was
/// taken of it.
pub open spec fn pot_after(
    states: Seq<ShareLedgerModel>,
    steps: Seq<Step>,
    property: u64,
    n: nat,
) -> int
    decreases n,
{
    if n == 0 {
        0
    } else {
        pot_after(states, steps, property, (n - 1) as nat) + states[n - 1].pot_change(
            property,
            steps[n - 1],
        )
    }
}

/// Through any history of a ledger that starts sound and owing nothing, it stays sound,
/// and what the holders of a property have taken and can claim is together never more
/// than the income accrued for it.
pub proof fn law_history_stays_covered(
    states: Seq<ShareLedgerModel>,
    steps: Seq<Step>,
    property: u64,
    n: nat,
)
    requires
        is_history(states, steps),
        states[0].sound(),
        states[0].accounts_for(property, 0),
        n <= steps.len(),
    ensures
        states[n as int].sound(),
        states[n as int].accounts_for(property, pot_after(states, steps, property, n)),
        total(
            states[n as int].positions,
            claims(property, states[n as int].acc_of(property)),
        ) <= pot_after(states, steps, property, n),
    decreases n,
{
    if n > 0 {
        let i = (n - 1) as nat;
        law_history_stays_covered(states, steps, property, i);
        assert(states[i as int].takes(states[i as int + 1], steps[i as int]));
        law_sound_kept(states[i as int], states[n as int], steps[i as int]);
        law_claims_stay_covered(
            states[i as int],
            states[n as int],
            steps[i as int],
            property,
            pot_after(states, steps, property, i),
        );
    } else {
        law_covered_claims_can_be_paid(states[0], property, 0);
    }
}

/// Administration issues nothing, moves nothing and pays nothing: every
/// administrative operation leaves the stakes and the income as they were, and asks
/// for nothing but an upgrade.
pub proof fn law_admin_moves_nothing(
    ledger: ShareLedgerModel,
    admin: Address,
    wired: Address,
    governance: Governance<Action>,
    wasm_hash: Digest,
)
    ensures
        ledger.set_offering_refusal(admin) is None ==> ledger.administered(
            ShareLedgerModel { offering: Some(wired), ..ledger },
        ),
        ledger.set_distributor_refusal(admin) is None ==> ledger.administered(
            ShareLedgerModel { distributor: Some(wired), ..ledger },
        ),
        ledger.administered(ShareLedgerModel { governance, ..ledger }),
        ledger.administered(
            ShareLedgerModel {
                governance,
                outbox: ledger.outbox.push(Effect::Upgrade(wasm_hash)),
                ..ledger
            },
        ),
{
}

/// Once wired, the offering and the distributor stay wired, and wiring them again is
/// refused.
pub proof fn law_wired_once(
    pre: ShareLedgerModel,
    post: ShareLedgerModel,
    step: Step,
    admin: Address,
)
    requires
        pre.takes(post, step),
    ensures
        pre.offering is Some ==> post.offering == pre.offering && post.set_offering_refusal(
            admin,
        ) is Some,
        pre.distributor is Some ==> post.distributor == pre.distributor
            && post.set_distributor_refusal(admin) is Some,
{
}

} // verus!
