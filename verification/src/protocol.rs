//! The registry, the lending pool and the mortgage pool working together.
//!
//! The mortgage pool asks the registry and instructs both others. Here those
//! answers and instructions are followed from one contract to the next.

use crate::arith::{
    lemma_total_bounds, lemma_total_insert, lemma_total_nothing, lemma_total_remove, total,
};
use crate::host::{Address, Env};
use crate::lending_laws;
use crate::lending_pool::LendingPoolModel;
use crate::mortgage_laws;
use crate::mortgage_laws::{law_interest_is_cleared_first, law_interest_is_exact};
use crate::mortgage_pool::{LendingTerms, Mortgage, MortgagePoolModel, StageReport};
use crate::property_registry::{PropertyRegistryModel, PropertyStatus, MILESTONE_COUNT};
use crate::registry_laws;
use crate::table::StageOf;
use vstd::prelude::*;

verus! {

/// The three contracts, and the address that the mortgage pool goes by.
pub ghost struct Protocol {
    pub registry: PropertyRegistryModel,
    pub lending: LendingPoolModel,
    pub book: MortgagePoolModel,
    pub this: Address,
}

/// Something done to the protocol. `mid` is the lending pool between two
/// instructions.
pub ghost enum Step {
    /// An operation on the registry that the mortgage pool has no part in.
    Registry { step: registry_laws::Step },
    /// An operation on the lending pool that the mortgage pool has no part in.
    Lending { pool: lending_laws::Step },
    /// Administration of the mortgage pool.
    Administer,
    Apply {
        borrower: Address,
        property_id: u64,
        principal: i128,
        term_months: u32,
        rate_bps: u32,
    },
    Approve { underwriter: Address, mortgage_id: u64 },
    Decline { underwriter: Address, mortgage_id: u64 },
    Disburse { mortgage_id: u64, stage: u32, tranche: i128 },
    Repay { mortgage_id: u64, amount: i128, mid: LendingPoolModel },
    Default { mortgage_id: u64, mid: LendingPoolModel },
}

/// Principal that is committed to a loan and not yet drawn.
pub open spec fn committed() -> spec_fn(u64, Mortgage) -> int {
    |id: u64, loan: Mortgage|
        if loan.is_drawable() {
            loan.undrawn()
        } else {
            0
        }
}

/// Principal that is out with a borrower.
pub open spec fn out() -> spec_fn(u64, Mortgage) -> int {
    |id: u64, loan: Mortgage|
        if loan.is_running() {
            loan.outstanding as int
        } else {
            0
        }
}

/// What a stage has released of a loan.
pub open spec fn released_part(registry: PropertyRegistryModel, loan: Mortgage, stage: u32) -> int {
    if registry.milestone(loan.property_id, stage).released {
        loan.tranche(stage)
    } else {
        0
    }
}

/// What all stages have released of a loan.
pub open spec fn released_total(registry: PropertyRegistryModel, loan: Mortgage) -> int {
    released_part(registry, loan, 0) + released_part(registry, loan, 1) + released_part(
        registry,
        loan,
        2,
    ) + released_part(registry, loan, 3) + released_part(registry, loan, 4)
}

impl Protocol {
    /// What the registry says of a property.
    pub open spec fn terms(self, property_id: u64) -> LendingTerms {
        let property = self.registry.properties[property_id];
        LendingTerms {
            property_id,
            trustee: property.trustee,
            usdc_value: property.usdc_value,
            verified: property.status == PropertyStatus::Verified,
        }
    }

    /// What the registry says of a stage.
    pub open spec fn report(self, property_id: u64, stage: u32) -> StageReport {
        let milestone = self.registry.milestone(property_id, stage);
        StageReport {
            property_id,
            stage,
            releasable: milestone.verified && !milestone.released,
            trustee: self.registry.properties[property_id].trustee,
        }
    }

    /// The lending pool and the registry take instructions from the mortgage pool,
    /// which knows both.
    pub open spec fn is_wired(self) -> bool {
        &&& self.registry.mortgage_pool == Some(self.this)
        &&& self.lending.mortgage_pool == Some(self.this)
        &&& self.lending.settlement_token is Some
        &&& self.book.registry is Some
        &&& self.book.lending_pool is Some
    }

    /// A live loan's property is where the loan says, and what was disbursed is what
    /// the stages paid out come to.
    pub open spec fn is_tied(self, id: u64) -> bool {
        self.book.mortgages.contains_key(id) && self.book.mortgages[id].is_live() ==> {
            let loan = self.book.mortgages[id];
            &&& self.registry.properties.contains_key(loan.property_id)
            &&& loan.disbursed == released_total(self.registry, loan)
            &&& self.registry.properties[loan.property_id].status == if loan.is_running() {
                PropertyStatus::Mortgaged
            } else {
                PropertyStatus::Verified
            }
        }
    }

    /// Nothing was paid out for a property that no loan was funded against.
    pub open spec fn is_unbuilt(self, property_id: u64) -> bool {
        self.registry.properties.contains_key(property_id) && (
        self.registry.properties[property_id].status == PropertyStatus::Pending
            || self.registry.properties[property_id].status == PropertyStatus::Verified)
            ==> forall|stage: u32|
            stage < MILESTONE_COUNT ==> !(#[trigger] self.registry.milestone(
                property_id,
                stage,
            )).released
    }

    /// The three contracts agree: the capital the lending pool has reserved is what
    /// the loans have not drawn, and what it has lent is what the loans owe.
    pub open spec fn sound(self) -> bool {
        &&& self.is_wired()
        &&& self.registry.sound()
        &&& self.lending.sound()
        &&& self.book.sound()
        &&& self.book.mortgages.dom().finite()
        &&& self.lending.totals.total_reserved == total(self.book.mortgages, committed())
        &&& self.lending.totals.total_lent == total(self.book.mortgages, out())
        &&& forall|id: u64| #[trigger] self.is_tied(id)
        &&& forall|property_id: u64| #[trigger] self.is_unbuilt(property_id)
    }

    /// `post` is the protocol after `step`: the operation was not refused, the
    /// registry answered truthfully, and every instruction was carried out in order.
    pub open spec fn takes(self, post: Self, env: Env, pool_env: Env, step: Step) -> bool {
        let m = self.book.mortgages;
        &&& post.this == self.this
        &&& match step {
            Step::Registry { step } => {
                &&& !(step is Release) && !(step is Move)
                &&& self.registry.takes(post.registry, step)
                &&& post.lending == self.lending
                &&& post.book == self.book
            },
            Step::Lending { pool: step } => {
                &&& step is Administer || step is Deposit || step is Withdraw || step is Claim
                &&& self.lending.takes(post.lending, pool_env, step)
                &&& post.registry == self.registry
                &&& post.book == self.book
            },
            Step::Administer => {
                &&& self.book.administered(post.book)
                &&& post.registry == self.registry
                &&& post.lending == self.lending
            },
            Step::Apply { borrower, property_id, principal, term_months, rate_bps } => {
                &&& self.registry.properties.contains_key(property_id)
                &&& self.book.takes(
                    post.book,
                    env,
                    mortgage_laws::Step::Apply {
                        borrower,
                        property_id,
                        principal,
                        term_months,
                        rate_bps,
                        terms: self.terms(property_id),
                    },
                )
                &&& post.registry == self.registry
                &&& post.lending == self.lending
            },
            Step::Approve { underwriter, mortgage_id } => {
                &&& self.book.takes(
                    post.book,
                    env,
                    mortgage_laws::Step::Approve {
                        underwriter,
                        mortgage_id,
                        terms: self.terms(m[mortgage_id].property_id),
                    },
                )
                &&& self.lending.takes(
                    post.lending,
                    pool_env,
                    lending_laws::Step::Reserve {
                        caller: self.this,
                        amount: m[mortgage_id].principal,
                    },
                )
                &&& post.registry == self.registry
            },
            Step::Decline { underwriter, mortgage_id } => {
                &&& self.book.takes(
                    post.book,
                    env,
                    mortgage_laws::Step::Decline { underwriter, mortgage_id },
                )
                &&& post.registry == self.registry
                &&& post.lending == self.lending
            },
            Step::Disburse { mortgage_id, stage, tranche } => {
                let property_id = m[mortgage_id].property_id;
                let report = self.report(property_id, stage);
                let marked = self.registry.released(property_id, stage);
                &&& self.registry.milestone_refusal(property_id, stage) is None
                &&& self.book.takes(
                    post.book,
                    env,
                    mortgage_laws::Step::Disburse { mortgage_id, stage, report, tranche },
                )
                &&& self.registry.release_refusal(self.this, property_id, stage) is None
                &&& self.lending.takes(
                    post.lending,
                    pool_env,
                    lending_laws::Step::Disburse {
                        caller: self.this,
                        to: report.trustee,
                        amount: tranche,
                    },
                )
                &&& if m[mortgage_id].disbursed == 0 {
                    &&& marked.transition_refusal(
                        self.this,
                        property_id,
                        PropertyStatus::Mortgaged,
                    ) is None
                    &&& post.registry == marked.transitioned(
                        property_id,
                        PropertyStatus::Mortgaged,
                    )
                } else {
                    post.registry == marked
                }
            },
            Step::Repay { mortgage_id, amount, mid } => {
                let loan = m[mortgage_id];
                let payment = loan.balance_at(env.timestamp).pay(amount as int);
                &&& self.book.takes(
                    post.book,
                    env,
                    mortgage_laws::Step::Repay { mortgage_id, amount },
                )
                &&& self.lending.takes(
                    mid,
                    pool_env,
                    lending_laws::Step::Repay {
                        caller: self.this,
                        from: loan.borrower,
                        principal: payment.principal as i128,
                        interest: payment.interest as i128,
                    },
                )
                &&& if self.book.clears(mortgage_id, amount, env.timestamp) {
                    &&& if loan.undrawn() > 0 {
                        mid.takes(
                            post.lending,
                            pool_env,
                            lending_laws::Step::Unreserve {
                                caller: self.this,
                                amount: loan.undrawn() as i128,
                            },
                        )
                    } else {
                        post.lending == mid
                    }
                    &&& self.registry.takes(
                        post.registry,
                        registry_laws::Step::Move {
                            caller: self.this,
                            property_id: loan.property_id,
                            status: PropertyStatus::Repaid,
                        },
                    )
                } else {
                    post.lending == mid && post.registry == self.registry
                }
            },
            Step::Default { mortgage_id, mid } => {
                let loan = m[mortgage_id];
                &&& self.book.takes(
                    post.book,
                    env,
                    mortgage_laws::Step::Default { mortgage_id },
                )
                &&& if loan.undrawn() > 0 {
                    self.lending.takes(
                        mid,
                        pool_env,
                        lending_laws::Step::Unreserve {
                            caller: self.this,
                            amount: loan.undrawn() as i128,
                        },
                    )
                } else {
                    mid == self.lending
                }
                &&& if loan.outstanding > 0 {
                    mid.takes(
                        post.lending,
                        pool_env,
                        lending_laws::Step::WriteOff {
                            caller: self.this,
                            principal: loan.outstanding,
                        },
                    )
                } else {
                    post.lending == mid
                }
                &&& self.registry.takes(
                    post.registry,
                    registry_laws::Step::Move {
                        caller: self.this,
                        property_id: loan.property_id,
                        status: PropertyStatus::Defaulted,
                    },
                )
            },
        }
    }
}

/// A live loan has never drawn more than its facility, and what it has not drawn is
/// reserved in the lending pool. A stage not yet paid out can be paid from it.
pub proof fn law_facilities_are_reserved(p: Protocol, id: u64)
    requires
        p.sound(),
        p.book.mortgages.contains_key(id),
        p.book.mortgages[id].is_drawable(),
    ensures
        ({
            let loan = p.book.mortgages[id];
            &&& 0 <= loan.disbursed <= loan.principal
            &&& loan.undrawn() <= p.lending.totals.total_reserved <= p.lending.totals.total_capital
            &&& forall|stage: u32|
                stage < MILESTONE_COUNT && !(#[trigger] p.registry.milestone(
                    loan.property_id,
                    stage,
                )).released ==> loan.tranche(stage) <= loan.undrawn()
        }),
{
    let loan = p.book.mortgages[id];
    let nothing = |k: u64, m: Mortgage| 0int;
    assert(p.is_tied(id));
    assert(p.book.is_recorded(id));
    assert forall|k: u64| #[trigger] p.book.mortgages.contains_key(k) implies nothing(
        k,
        p.book.mortgages[k],
    ) <= committed()(k, p.book.mortgages[k]) by {
        assert(p.is_tied(k));
        assert(p.book.is_recorded(k));
    }
    lemma_total_nothing(p.book.mortgages, nothing);
    lemma_total_bounds(p.book.mortgages, nothing, committed());
}

/// Money promised to a build is there: when a stage of a live loan is signed off and
/// not yet paid out, neither the registry nor the lending pool refuses to pay it.
pub proof fn law_promised_money_is_there(p: Protocol, mortgage_id: u64, stage: u32)
    requires
        p.sound(),
        p.registry.milestone_refusal(p.book.mortgages[mortgage_id].property_id, stage) is None,
        p.book.disburse_refusal(
            mortgage_id,
            stage,
            p.report(p.book.mortgages[mortgage_id].property_id, stage),
        ) is None,
    ensures
        ({
            let loan = p.book.mortgages[mortgage_id];
            let marked = p.registry.released(loan.property_id, stage);
            &&& p.registry.release_refusal(p.this, loan.property_id, stage) is None
            &&& p.lending.disburse_refusal(p.this, loan.tranche(stage) as i128) is None
            &&& loan.disbursed == 0 ==> marked.transition_refusal(
                p.this,
                loan.property_id,
                PropertyStatus::Mortgaged,
            ) is None
        }),
{
    assert(p.is_tied(mortgage_id));
    assert(p.book.is_recorded(mortgage_id));
    law_facilities_are_reserved(p, mortgage_id);
}

/// A payment that is accepted is banked: neither the lending pool nor the registry
/// refuses anything it is told.
pub proof fn law_payments_are_banked(
    p: Protocol,
    mid: LendingPoolModel,
    env: Env,
    pool_env: Env,
    mortgage_id: u64,
    amount: i128,
)
    requires
        p.sound(),
        p.book.repay_refusal(mortgage_id, amount, env.timestamp) is None,
        p.book.repay_fits(mortgage_id, amount, env.timestamp),
        ({
            let loan = p.book.mortgages[mortgage_id];
            let payment = loan.balance_at(env.timestamp).pay(amount as int);
            p.lending.takes(
                mid,
                pool_env,
                lending_laws::Step::Repay {
                    caller: p.this,
                    from: loan.borrower,
                    principal: payment.principal as i128,
                    interest: payment.interest as i128,
                },
            )
        }),
    ensures
        ({
            let loan = p.book.mortgages[mortgage_id];
            p.book.clears(mortgage_id, amount, env.timestamp) ==> {
                &&& loan.undrawn() > 0 ==> mid.unreserve_refusal(
                    p.this,
                    loan.undrawn() as i128,
                ) is None
                &&& p.registry.transition_refusal(
                    p.this,
                    loan.property_id,
                    PropertyStatus::Repaid,
                ) is None
            }
        }),
{
    assert(p.is_tied(mortgage_id));
    assert(p.book.is_recorded(mortgage_id));
    law_facilities_are_reserved(p, mortgage_id);
}

/// The lending pool never refuses to take in an accepted payment.
pub proof fn law_payments_are_taken_in(p: Protocol, env: Env, mortgage_id: u64, amount: i128)
    requires
        p.sound(),
        p.book.repay_refusal(mortgage_id, amount, env.timestamp) is None,
        p.book.repay_fits(mortgage_id, amount, env.timestamp),
    ensures
        ({
            let payment = p.book.mortgages[mortgage_id].balance_at(env.timestamp).pay(
                amount as int,
            );
            p.lending.repay_refusal(
                p.this,
                payment.principal as i128,
                payment.interest as i128,
            ) is None
        }),
{
    let loan = p.book.mortgages[mortgage_id];
    assert(p.book.is_recorded(mortgage_id));
    law_interest_is_exact(loan.balance(), loan.rate_bps as int, env.timestamp as int);
    law_interest_is_cleared_first(loan.balance_at(env.timestamp), amount as int);
}

/// A default that is due goes through: neither the lending pool nor the registry
/// refuses anything it is told.
pub proof fn law_defaults_go_through(p: Protocol, mid: LendingPoolModel, mortgage_id: u64, now: u64)
    requires
        p.sound(),
        p.book.default_refusal(mortgage_id, now) is None,
        p.book.mortgages[mortgage_id].undrawn() > 0 ==> p.lending.unreserved(
            mid,
            p.book.mortgages[mortgage_id].undrawn() as i128,
        ),
        p.book.mortgages[mortgage_id].undrawn() <= 0 ==> mid == p.lending,
    ensures
        ({
            let loan = p.book.mortgages[mortgage_id];
            &&& loan.undrawn() > 0 ==> p.lending.unreserve_refusal(
                p.this,
                loan.undrawn() as i128,
            ) is None
            &&& mid.write_off_refusal(p.this, loan.outstanding) is None
            &&& p.registry.transition_refusal(
                p.this,
                loan.property_id,
                PropertyStatus::Defaulted,
            ) is None
        }),
{
    assert(p.is_tied(mortgage_id));
    assert(p.book.is_recorded(mortgage_id));
    law_facilities_are_reserved(p, mortgage_id);
}

/// The protocol is sound when the three contracts have been deployed and wired and
/// nothing has been lent.
pub proof fn law_wired_protocol_is_sound(p: Protocol)
    requires
        p.is_wired(),
        p.registry.sound(),
        p.lending.sound(),
        p.book.sound(),
        p.book.mortgages == Map::<u64, Mortgage>::empty(),
        p.lending.totals.total_reserved == 0,
        p.lending.totals.total_lent == 0,
        forall|key: StageOf| #[trigger]
            p.registry.milestones.contains_key(key) ==> !p.registry.milestones[key].released,
    ensures
        p.sound(),
{
    assert(p.book.mortgages.dom() =~= Set::empty());
    assert forall|property_id: u64| #[trigger] p.is_unbuilt(property_id) by {
        assert(p.registry.is_filed(property_id));
        if p.registry.properties.contains_key(property_id) {
            assert forall|stage: u32| stage < MILESTONE_COUNT implies !(
            #[trigger] p.registry.milestone(property_id, stage)).released by {
                assert(p.registry.milestones.contains_key(
                    StageOf { property: property_id, stage },
                ));
            }
        }
    }
}

/// Every operation, with the instructions it gives carried out, leaves the three
/// contracts in agreement.
pub proof fn law_sound_kept(p: Protocol, post: Protocol, env: Env, pool_env: Env, step: Step)
    requires
        p.sound(),
        p.takes(post, env, pool_env, step),
    ensures
        post.sound(),
{
    match step {
        Step::Registry { step } => {
            lemma_registry_step(p, post, step);
        },
        Step::Lending { pool: step } => {
            lending_laws::law_sound_kept(p.lending, post.lending, pool_env, step);
            lemma_same_loans(p, post);
        },
        Step::Administer => {
            mortgage_laws::law_sound_kept(
                p.book,
                post.book,
                env,
                mortgage_laws::Step::Administer,
            );
            lemma_same_loans(p, post);
        },
        Step::Apply { borrower, property_id, principal, term_months, rate_bps } => {
            lemma_applied(
                p,
                post,
                env,
                borrower,
                property_id,
                principal,
                term_months,
                rate_bps,
            );
        },
        Step::Approve { underwriter, mortgage_id } => {
            lemma_approved(p, post, env, pool_env, underwriter, mortgage_id);
        },
        Step::Decline { underwriter, mortgage_id } => {
            lemma_declined(p, post, env, underwriter, mortgage_id);
        },
        Step::Disburse { mortgage_id, stage, tranche } => {
            lemma_disbursed(p, post, env, pool_env, mortgage_id, stage, tranche);
        },
        Step::Repay { mortgage_id, amount, mid } => {
            lemma_repaid(p, post, env, pool_env, mortgage_id, amount, mid);
        },
        Step::Default { mortgage_id, mid } => {
            lemma_defaulted(p, post, env, pool_env, mortgage_id, mid);
        },
    }
}

proof fn lemma_same_loans(p: Protocol, post: Protocol)
    requires
        p.sound(),
        post.this == p.this,
        post.registry == p.registry,
        post.book.mortgages == p.book.mortgages,
    ensures
        forall|id: u64| #[trigger] post.is_tied(id),
        forall|property_id: u64| #[trigger] post.is_unbuilt(property_id),
{
    assert forall|id: u64| #[trigger] post.is_tied(id) by {
        assert(p.is_tied(id));
    }
    assert forall|property_id: u64| #[trigger] post.is_unbuilt(property_id) by {
        assert(p.is_unbuilt(property_id));
    }
}

proof fn lemma_registry_step(p: Protocol, post: Protocol, step: registry_laws::Step)
    requires
        p.sound(),
        post.this == p.this,
        !(step is Release),
        !(step is Move),
        p.registry.takes(post.registry, step),
        post.lending == p.lending,
        post.book == p.book,
    ensures
        post.sound(),
{
    registry_laws::law_sound_kept(p.registry, post.registry, step);
    registry_laws::law_wired_once(p.registry, post.registry, step, p.this);
    assert forall|id: u64| #[trigger] post.is_tied(id) by {
        assert(p.is_tied(id));
        if p.book.mortgages.contains_key(id) && p.book.mortgages[id].is_live() {
            let loan = p.book.mortgages[id];
            registry_laws::law_properties_keep_to_their_path(
                p.registry,
                post.registry,
                step,
                loan.property_id,
            );
            lemma_released_kept(p.registry, post.registry, step, loan.property_id, 0);
            lemma_released_kept(p.registry, post.registry, step, loan.property_id, 1);
            lemma_released_kept(p.registry, post.registry, step, loan.property_id, 2);
            lemma_released_kept(p.registry, post.registry, step, loan.property_id, 3);
            lemma_released_kept(p.registry, post.registry, step, loan.property_id, 4);
            if let registry_laws::Step::Title { property_id, .. } = step {
                assert(p.registry.is_filed(property_id));
            }
        }
    }
    assert forall|property_id: u64| #[trigger] post.is_unbuilt(property_id) by {
        assert(p.is_unbuilt(property_id));
        if p.registry.properties.contains_key(property_id) {
            registry_laws::law_properties_keep_to_their_path(
                p.registry,
                post.registry,
                step,
                property_id,
            );
            assert forall|stage: u32|
                stage < MILESTONE_COUNT implies #[trigger] post.registry.milestone(
                property_id,
                stage,
            ).released == p.registry.milestone(property_id, stage).released by {
                lemma_released_kept(p.registry, post.registry, step, property_id, stage);
            }
        } else if post.registry.properties.contains_key(property_id) {
            lemma_new_property(p.registry, post.registry, step, property_id);
        }
    }
}

/// Only paying a stage out marks it released.
proof fn lemma_released_kept(
    pre: PropertyRegistryModel,
    post: PropertyRegistryModel,
    step: registry_laws::Step,
    property_id: u64,
    stage: u32,
)
    requires
        pre.sound(),
        pre.takes(post, step),
        !(step is Release),
        pre.properties.contains_key(property_id),
        stage < MILESTONE_COUNT,
    ensures
        post.milestone(property_id, stage).released == pre.milestone(property_id, stage).released,
{
    registry_laws::law_a_stage_is_released_once(
        pre,
        post,
        step,
        property_id,
        stage,
        pre.mortgage_pool->0,
    );
}

/// A property that was not there before was just submitted, with nothing released.
proof fn lemma_new_property(
    pre: PropertyRegistryModel,
    post: PropertyRegistryModel,
    step: registry_laws::Step,
    property_id: u64,
)
    requires
        pre.sound(),
        pre.takes(post, step),
        !pre.properties.contains_key(property_id),
        post.properties.contains_key(property_id),
    ensures
        forall|stage: u32|
            stage < MILESTONE_COUNT ==> !(#[trigger] post.milestone(property_id, stage)).released,
{
    reveal_with_fuel(crate::property_registry::with_fresh_stages, 6);
    match step {
        registry_laws::Step::Title { property_id: id, .. } => {
            assert(pre.is_filed(id));
        },
        registry_laws::Step::Value { property_id: id, .. } => {
            assert(pre.is_filed(id));
        },
        registry_laws::Step::Move { property_id: id, .. } => {
            assert(pre.is_filed(id));
        },
        _ => {},
    }
}

proof fn lemma_applied(
    p: Protocol,
    post: Protocol,
    env: Env,
    borrower: Address,
    property_id: u64,
    principal: i128,
    term_months: u32,
    rate_bps: u32,
)
    requires
        p.sound(),
        p.takes(
            post,
            env,
            env,
            Step::Apply { borrower, property_id, principal, term_months, rate_bps },
        ),
    ensures
        post.sound(),
{
    let id = p.book.next_id;
    let loan = post.book.mortgages[id];
    mortgage_laws::law_sound_kept(
        p.book,
        post.book,
        env,
        mortgage_laws::Step::Apply {
            borrower,
            property_id,
            principal,
            term_months,
            rate_bps,
            terms: p.terms(property_id),
        },
    );
    assert(p.book.is_recorded(id));
    lemma_total_insert(p.book.mortgages, committed(), id, loan);
    lemma_total_insert(p.book.mortgages, out(), id, loan);
    assert(p.is_unbuilt(property_id));
    assert(!p.registry.milestone(property_id, 0).released);
    assert(!p.registry.milestone(property_id, 1).released);
    assert(!p.registry.milestone(property_id, 2).released);
    assert(!p.registry.milestone(property_id, 3).released);
    assert(!p.registry.milestone(property_id, 4).released);
    assert forall|k: u64| #[trigger] post.is_tied(k) by {
        assert(p.is_tied(k));
    }
    assert forall|k: u64| #[trigger] post.is_unbuilt(k) by {
        assert(p.is_unbuilt(k));
    }
}

proof fn lemma_approved(
    p: Protocol,
    post: Protocol,
    env: Env,
    pool_env: Env,
    underwriter: Address,
    mortgage_id: u64,
)
    requires
        p.sound(),
        p.takes(post, env, pool_env, Step::Approve { underwriter, mortgage_id }),
    ensures
        post.sound(),
{
    let loan = post.book.mortgages[mortgage_id];
    assert(p.book.is_recorded(mortgage_id));
    mortgage_laws::law_sound_kept(
        p.book,
        post.book,
        env,
        mortgage_laws::Step::Approve {
            underwriter,
            mortgage_id,
            terms: p.terms(p.book.mortgages[mortgage_id].property_id),
        },
    );
    lending_laws::law_sound_kept(
        p.lending,
        post.lending,
        pool_env,
        lending_laws::Step::Reserve {
            caller: p.this,
            amount: p.book.mortgages[mortgage_id].principal,
        },
    );
    lemma_total_insert(p.book.mortgages, committed(), mortgage_id, loan);
    lemma_total_insert(p.book.mortgages, out(), mortgage_id, loan);
    assert forall|k: u64| #[trigger] post.is_tied(k) by {
        assert(p.is_tied(k));
    }
    assert forall|k: u64| #[trigger] post.is_unbuilt(k) by {
        assert(p.is_unbuilt(k));
    }
}

proof fn lemma_declined(
    p: Protocol,
    post: Protocol,
    env: Env,
    underwriter: Address,
    mortgage_id: u64,
)
    requires
        p.sound(),
        p.takes(post, env, env, Step::Decline { underwriter, mortgage_id }),
    ensures
        post.sound(),
{
    assert(p.book.is_recorded(mortgage_id));
    mortgage_laws::law_sound_kept(
        p.book,
        post.book,
        env,
        mortgage_laws::Step::Decline { underwriter, mortgage_id },
    );
    lemma_total_remove(p.book.mortgages, committed(), mortgage_id);
    lemma_total_remove(p.book.mortgages, out(), mortgage_id);
    assert forall|k: u64| #[trigger] post.is_tied(k) by {
        assert(p.is_tied(k));
    }
    assert forall|k: u64| #[trigger] post.is_unbuilt(k) by {
        assert(p.is_unbuilt(k));
    }
}

/// No two live loans are tied to one property.
proof fn lemma_other_property(p: Protocol, one: u64, other: u64)
    requires
        p.sound(),
        one != other,
        p.book.mortgages.contains_key(one),
        p.book.mortgages.contains_key(other),
        p.book.mortgages[one].is_live(),
        p.book.mortgages[other].is_live(),
    ensures
        p.book.mortgages[one].property_id != p.book.mortgages[other].property_id,
{
    if p.book.mortgages[one].property_id == p.book.mortgages[other].property_id {
        mortgage_laws::law_one_live_loan_per_property(p.book, one, other);
    }
}

proof fn lemma_disbursed(
    p: Protocol,
    post: Protocol,
    env: Env,
    pool_env: Env,
    mortgage_id: u64,
    stage: u32,
    tranche: i128,
)
    requires
        p.sound(),
        p.takes(post, env, pool_env, Step::Disburse { mortgage_id, stage, tranche }),
    ensures
        post.sound(),
{
    let loan = p.book.mortgages[mortgage_id];
    let drawn = post.book.mortgages[mortgage_id];
    let property_id = loan.property_id;
    let report = p.report(property_id, stage);
    let marked = p.registry.released(property_id, stage);
    assert(p.book.is_recorded(mortgage_id));
    assert(p.is_tied(mortgage_id));
    mortgage_laws::law_sound_kept(
        p.book,
        post.book,
        env,
        mortgage_laws::Step::Disburse { mortgage_id, stage, report, tranche },
    );
    lending_laws::law_sound_kept(
        p.lending,
        post.lending,
        pool_env,
        lending_laws::Step::Disburse { caller: p.this, to: report.trustee, amount: tranche },
    );
    let release = registry_laws::Step::Release { caller: p.this, property_id, stage };
    registry_laws::law_sound_kept(p.registry, marked, release);
    if loan.disbursed == 0 {
        registry_laws::law_sound_kept(
            marked,
            post.registry,
            registry_laws::Step::Move {
                caller: p.this,
                property_id,
                status: PropertyStatus::Mortgaged,
            },
        );
    }
    law_interest_is_exact(loan.balance(), loan.rate_bps as int, env.timestamp as int);
    lemma_total_insert(p.book.mortgages, committed(), mortgage_id, drawn);
    lemma_total_insert(p.book.mortgages, out(), mortgage_id, drawn);
    let key = StageOf { property: property_id, stage };
    assert(p.registry.is_staged(key));
    assert(p.registry.is_filed(property_id));
    assert forall|s: u32| #[trigger] drawn.tranche(s) == loan.tranche(s) by {}
    assert forall|q: u64, s: u32|
        !(q == property_id && s == stage) implies #[trigger] post.registry.milestone(q, s)
        == p.registry.milestone(q, s) by {}
    assert(post.registry.milestone(property_id, stage).released);
    assert(!p.registry.milestone(property_id, stage).released);
    assert(released_total(post.registry, drawn) == released_total(p.registry, loan)
        + loan.tranche(stage));
    assert forall|k: u64| #[trigger] post.is_tied(k) by {
        assert(p.is_tied(k));
        if k != mortgage_id && p.book.mortgages.contains_key(k)
            && p.book.mortgages[k].is_live() {
            lemma_other_property(p, mortgage_id, k);
            let other = p.book.mortgages[k];
            assert(post.registry.milestone(other.property_id, 0) == p.registry.milestone(
                other.property_id,
                0,
            ));
            assert(released_total(post.registry, other) == released_total(p.registry, other));
        }
    }
    assert forall|k: u64| #[trigger] post.is_unbuilt(k) by {
        assert(p.is_unbuilt(k));
        if k != property_id {
            assert forall|s: u32| #[trigger] post.registry.milestone(k, s)
                == p.registry.milestone(k, s) by {}
        }
    }
}

/// Closing a loan moves its property on and touches no other.
proof fn lemma_closed(
    p: Protocol,
    post: Protocol,
    mortgage_id: u64,
    status: PropertyStatus,
)
    requires
        p.sound(),
        p.book.mortgages.contains_key(mortgage_id),
        p.book.mortgages[mortgage_id].is_running(),
        post.this == p.this,
        p.registry.takes(
            post.registry,
            registry_laws::Step::Move {
                caller: p.this,
                property_id: p.book.mortgages[mortgage_id].property_id,
                status,
            },
        ),
        status == PropertyStatus::Repaid || status == PropertyStatus::Defaulted,
        post.book.mortgages == p.book.mortgages.insert(
            mortgage_id,
            post.book.mortgages[mortgage_id],
        ),
        !post.book.mortgages[mortgage_id].is_live(),
    ensures
        post.registry.sound(),
        post.registry.mortgage_pool == p.registry.mortgage_pool,
        forall|id: u64| #[trigger] post.is_tied(id),
        forall|property_id: u64| #[trigger] post.is_unbuilt(property_id),
{
    let property_id = p.book.mortgages[mortgage_id].property_id;
    let step = registry_laws::Step::Move { caller: p.this, property_id, status };
    registry_laws::law_sound_kept(p.registry, post.registry, step);
    assert(p.registry.is_filed(property_id));
    assert forall|k: u64| #[trigger] post.is_tied(k) by {
        assert(p.is_tied(k));
        if k != mortgage_id && p.book.mortgages.contains_key(k)
            && p.book.mortgages[k].is_live() {
            lemma_other_property(p, mortgage_id, k);
        }
    }
    assert forall|k: u64| #[trigger] post.is_unbuilt(k) by {
        assert(p.is_unbuilt(k));
        assert forall|s: u32| #[trigger] post.registry.milestone(k, s) == p.registry.milestone(
            k,
            s,
        ) by {}
    }
}

proof fn lemma_repaid(
    p: Protocol,
    post: Protocol,
    env: Env,
    pool_env: Env,
    mortgage_id: u64,
    amount: i128,
    mid: LendingPoolModel,
)
    requires
        p.sound(),
        p.takes(post, env, pool_env, Step::Repay { mortgage_id, amount, mid }),
    ensures
        post.sound(),
{
    let loan = p.book.mortgages[mortgage_id];
    let paid = post.book.mortgages[mortgage_id];
    let owed = loan.balance_at(env.timestamp);
    let payment = owed.pay(amount as int);
    assert(p.book.is_recorded(mortgage_id));
    assert(p.is_tied(mortgage_id));
    law_facilities_are_reserved(p, mortgage_id);
    law_interest_is_exact(loan.balance(), loan.rate_bps as int, env.timestamp as int);
    law_interest_is_cleared_first(owed, amount as int);
    mortgage_laws::law_sound_kept(
        p.book,
        post.book,
        env,
        mortgage_laws::Step::Repay { mortgage_id, amount },
    );
    lending_laws::law_sound_kept(
        p.lending,
        mid,
        pool_env,
        lending_laws::Step::Repay {
            caller: p.this,
            from: loan.borrower,
            principal: payment.principal as i128,
            interest: payment.interest as i128,
        },
    );
    lemma_total_insert(p.book.mortgages, committed(), mortgage_id, paid);
    lemma_total_insert(p.book.mortgages, out(), mortgage_id, paid);
    if p.book.clears(mortgage_id, amount, env.timestamp) {
        if loan.undrawn() > 0 {
            lending_laws::law_sound_kept(
                mid,
                post.lending,
                pool_env,
                lending_laws::Step::Unreserve {
                    caller: p.this,
                    amount: loan.undrawn() as i128,
                },
            );
        }
        lemma_closed(p, post, mortgage_id, PropertyStatus::Repaid);
    } else {
        assert forall|k: u64| #[trigger] post.is_tied(k) by {
            assert(p.is_tied(k));
            assert forall|s: u32| #[trigger] paid.tranche(s) == loan.tranche(s) by {}
        }
        assert forall|k: u64| #[trigger] post.is_unbuilt(k) by {
            assert(p.is_unbuilt(k));
        }
    }
}

proof fn lemma_defaulted(
    p: Protocol,
    post: Protocol,
    env: Env,
    pool_env: Env,
    mortgage_id: u64,
    mid: LendingPoolModel,
)
    requires
        p.sound(),
        p.takes(post, env, pool_env, Step::Default { mortgage_id, mid }),
    ensures
        post.sound(),
{
    let loan = p.book.mortgages[mortgage_id];
    let lost = post.book.mortgages[mortgage_id];
    assert(p.book.is_recorded(mortgage_id));
    assert(p.is_tied(mortgage_id));
    law_facilities_are_reserved(p, mortgage_id);
    mortgage_laws::law_sound_kept(
        p.book,
        post.book,
        env,
        mortgage_laws::Step::Default { mortgage_id },
    );
    if loan.undrawn() > 0 {
        lending_laws::law_sound_kept(
            p.lending,
            mid,
            pool_env,
            lending_laws::Step::Unreserve { caller: p.this, amount: loan.undrawn() as i128 },
        );
    }
    lending_laws::law_sound_kept(
        mid,
        post.lending,
        pool_env,
        lending_laws::Step::WriteOff { caller: p.this, principal: loan.outstanding },
    );
    lemma_total_insert(p.book.mortgages, committed(), mortgage_id, lost);
    lemma_total_insert(p.book.mortgages, out(), mortgage_id, lost);
    lemma_closed(p, post, mortgage_id, PropertyStatus::Defaulted);
}

} // verus!
