//! What holds of the property registry whatever is done to it.

use crate::governance::Governance;
use crate::host::{Address, Digest};
use crate::property_registry::{
    verified_stages, with_fresh_stages, with_role, Action, Effect, Error, Event, Milestone,
    Property, PropertyRegistryModel, PropertyStatus, MILESTONE_COUNT,
};
use crate::table::StageOf;
use vstd::prelude::*;

verus! {

/// Something done to the register.
pub ghost enum Step {
    Administer,
    Submit { trustee: Address, title_hash: Digest, survey_doc_hash: Digest },
    Evidence { trustee: Address, property_id: u64, stage: u32, evidence_hash: Digest },
    Title { oracle: Address, property_id: u64 },
    Value { oracle: Address, property_id: u64, usdc_value: i128 },
    SignOff { oracle: Address, property_id: u64, stage: u32 },
    Release { caller: Address, property_id: u64, stage: u32 },
    Move { caller: Address, property_id: u64, status: PropertyStatus },
}

/// Whether somebody other than `trustee` is named.
pub open spec fn attested(by: Option<Address>, trustee: Address) -> bool {
    by is Some && by != Some(trustee)
}

impl PropertyRegistryModel {
    /// `post` differs from this register by administration alone.
    pub open spec fn administered(self, post: Self) -> bool {
        &&& post == (PropertyRegistryModel {
            governance: post.governance,
            mortgage_pool: post.mortgage_pool,
            trustees: post.trustees,
            oracles: post.oracles,
            outbox: post.outbox,
            ..self
        })
        &&& self.mortgage_pool is Some ==> post.mortgage_pool == self.mortgage_pool
    }

    /// `post` is this register after `step`, which was not refused.
    pub open spec fn takes(self, post: Self, step: Step) -> bool {
        match step {
            Step::Administer => self.administered(post),
            Step::Submit { trustee, title_hash, survey_doc_hash } => {
                &&& self.submit_refusal(trustee) is None
                &&& self.submit_fits(trustee)
                &&& post == self.submitted(trustee, title_hash, survey_doc_hash)
            },
            Step::Evidence { trustee, property_id, stage, evidence_hash } => {
                &&& self.evidence_refusal(trustee, property_id, stage) is None
                &&& post == self.evidenced(property_id, stage, evidence_hash)
            },
            Step::Title { oracle, property_id } => {
                &&& self.title_refusal(oracle, property_id) is None
                &&& post == self.titled(oracle, property_id)
            },
            Step::Value { oracle, property_id, usdc_value } => {
                &&& self.valuation_refusal(oracle, property_id, usdc_value) is None
                &&& post == self.valued(oracle, property_id, usdc_value)
            },
            Step::SignOff { oracle, property_id, stage } => {
                &&& self.verify_refusal(oracle, property_id, stage) is None
                &&& post == self.signed_off(oracle, property_id, stage)
            },
            Step::Release { caller, property_id, stage } => {
                &&& self.release_refusal(caller, property_id, stage) is None
                &&& post == self.released(property_id, stage)
            },
            Step::Move { caller, property_id, status } => {
                &&& self.transition_refusal(caller, property_id, status) is None
                &&& post == self.transitioned(property_id, status)
            },
        }
    }

    /// A property is filed under its own id, with all its stages, and its title and
    /// valuation were attested by somebody other than its trustee.
    pub open spec fn is_filed(self, id: u64) -> bool {
        self.properties.contains_key(id) ==> {
            let property = self.properties[id];
            &&& property.id == id
            &&& id < self.next_id
            &&& property.usdc_value >= 0
            &&& property.status != PropertyStatus::Pending ==> attested(
                property.verified_by,
                property.trustee,
            )
            &&& property.usdc_value > 0 ==> attested(property.valued_by, property.trustee)
            &&& forall|stage: u32|
                stage < MILESTONE_COUNT ==> #[trigger] self.milestones.contains_key(
                    StageOf { property: id, stage },
                )
        }
    }

    /// A stage belongs to a property, is paid out only once signed off, and is
    /// signed off only on evidence, by somebody other than the trustee, after the
    /// stage before it.
    pub open spec fn is_staged(self, key: StageOf) -> bool {
        self.milestones.contains_key(key) ==> {
            let milestone = self.milestones[key];
            &&& key.stage < MILESTONE_COUNT
            &&& milestone.stage == key.stage
            &&& self.properties.contains_key(key.property)
            &&& milestone.released ==> milestone.verified
            &&& milestone.verified ==> {
                &&& !milestone.evidence_hash.is_zero()
                &&& attested(milestone.verified_by, self.properties[key.property].trustee)
                &&& key.stage > 0 ==> self.milestone(
                    key.property,
                    (key.stage - 1) as u32,
                ).verified
            }
        }
    }

    /// The register as its operations keep it.
    pub open spec fn sound(self) -> bool {
        &&& forall|id: u64| #[trigger] self.is_filed(id)
        &&& forall|key: StageOf| #[trigger] self.is_staged(key)
    }
}

/// The register is sound as it is deployed.
pub proof fn law_deployed_sound(admin: Address, timelock_secs: u64)
    ensures
        (PropertyRegistryModel {
            governance: Governance {
                admin: Some(admin),
                pending_admin: None,
                timelock_secs: Some(timelock_secs),
                scheduled: None,
            },
            mortgage_pool: None,
            next_id: 1,
            trustees: Map::empty(),
            oracles: Map::empty(),
            properties: Map::empty(),
            milestones: Map::empty(),
            outbox: Seq::empty(),
        }).sound(),
{
}

/// Writing a property's stages afresh writes exactly those.
pub(crate) proof fn lemma_fresh_stages(
    milestones: Map<StageOf, Milestone>,
    property: u64,
    count: nat,
    key: StageOf,
)
    requires
        count <= MILESTONE_COUNT,
    ensures
        with_fresh_stages(milestones, property, count).contains_key(key) == (
        milestones.contains_key(key) || (key.property == property && key.stage < count)),
        key.property == property && key.stage < count ==> with_fresh_stages(
            milestones,
            property,
            count,
        )[key] == Milestone::fresh(key.stage),
        !(key.property == property && key.stage < count) ==> with_fresh_stages(
            milestones,
            property,
            count,
        )[key] == milestones[key],
    decreases count,
{
    if count > 0 {
        lemma_fresh_stages(milestones, property, (count - 1) as nat, key);
    }
}

/// Every operation leaves the register sound: titles, valuations and stages are
/// attested by somebody other than the trustee, stages are signed off in order and
/// on evidence, and nothing is paid out that was not signed off.
pub proof fn law_sound_kept(
    pre: PropertyRegistryModel,
    post: PropertyRegistryModel,
    step: Step,
)
    requires
        pre.sound(),
        pre.takes(post, step),
    ensures
        post.sound(),
{
    match step {
        Step::Submit { .. } => {
            assert forall|id: u64| #[trigger] post.is_filed(id) by {
                assert(pre.is_filed(id));
                assert forall|stage: u32|
                    stage < MILESTONE_COUNT && post.properties.contains_key(
                        id,
                    ) implies #[trigger] post.milestones.contains_key(
                    StageOf { property: id, stage },
                ) by {
                    lemma_fresh_stages(
                        pre.milestones,
                        pre.next_id,
                        MILESTONE_COUNT as nat,
                        StageOf { property: id, stage },
                    );
                }
            }
            assert forall|key: StageOf| #[trigger] post.is_staged(key) by {
                assert(pre.is_staged(key));
                lemma_fresh_stages(pre.milestones, pre.next_id, MILESTONE_COUNT as nat, key);
                if key.stage > 0 {
                    let before = StageOf {
                        property: key.property,
                        stage: (key.stage - 1) as u32,
                    };
                    lemma_fresh_stages(
                        pre.milestones,
                        pre.next_id,
                        MILESTONE_COUNT as nat,
                        before,
                    );
                }
                assert(pre.is_filed(pre.next_id));
                assert(pre.is_filed(key.property));
            }
        },
        Step::Evidence { property_id, stage, .. } => {
            assert(pre.is_staged(StageOf { property: property_id, stage }));
            lemma_stage_rewritten(pre, post, property_id, stage);
        },
        Step::SignOff { property_id, stage, .. } => {
            assert(pre.is_staged(StageOf { property: property_id, stage }));
            lemma_stage_rewritten(pre, post, property_id, stage);
        },
        Step::Release { property_id, stage, .. } => {
            assert(pre.is_staged(StageOf { property: property_id, stage }));
            lemma_stage_rewritten(pre, post, property_id, stage);
        },
        Step::Title { property_id, .. } => {
            assert(pre.is_filed(property_id));
            lemma_property_rewritten(pre, post, property_id);
        },
        Step::Value { property_id, .. } => {
            assert(pre.is_filed(property_id));
            lemma_property_rewritten(pre, post, property_id);
        },
        Step::Move { property_id, .. } => {
            assert(pre.is_filed(property_id));
            lemma_property_rewritten(pre, post, property_id);
        },
        Step::Administer => {
            assert forall|id: u64| #[trigger] post.is_filed(id) by {
                assert(pre.is_filed(id));
            }
            assert forall|key: StageOf| #[trigger] post.is_staged(key) by {
                assert(pre.is_staged(key));
            }
        },
    }
}

/// Rewriting one stage in a way that loses nothing leaves the register sound.
proof fn lemma_stage_rewritten(
    pre: PropertyRegistryModel,
    post: PropertyRegistryModel,
    property_id: u64,
    stage: u32,
)
    requires
        pre.sound(),
        pre.milestones.contains_key(StageOf { property: property_id, stage }),
        post == (PropertyRegistryModel {
            milestones: pre.milestones.insert(
                StageOf { property: property_id, stage },
                post.milestone(property_id, stage),
            ),
            outbox: post.outbox,
            ..pre
        }),
        ({
            let was = pre.milestone(property_id, stage);
            let now = post.milestone(property_id, stage);
            &&& now.stage == was.stage
            &&& was.verified ==> now.verified
            &&& now.released ==> now.verified
            &&& now.verified ==> {
                &&& !now.evidence_hash.is_zero()
                &&& attested(now.verified_by, pre.properties[property_id].trustee)
                &&& stage > 0 ==> pre.milestone(property_id, (stage - 1) as u32).verified
            }
        }),
    ensures
        post.sound(),
{
    let rewritten = StageOf { property: property_id, stage };
    assert(pre.is_staged(rewritten));
    assert forall|id: u64| #[trigger] post.is_filed(id) by {
        assert(pre.is_filed(id));
        assert forall|s: u32|
            s < MILESTONE_COUNT && post.properties.contains_key(
                id,
            ) implies #[trigger] post.milestones.contains_key(StageOf { property: id, stage: s }) by {
            assert(pre.milestones.contains_key(StageOf { property: id, stage: s }));
        }
    }
    assert forall|key: StageOf| #[trigger] post.is_staged(key) by {
        assert(pre.is_staged(key));
    }
}

/// Rewriting one property, keeping its trustee, leaves the register sound where what
/// is new in it is attested.
proof fn lemma_property_rewritten(
    pre: PropertyRegistryModel,
    post: PropertyRegistryModel,
    property_id: u64,
)
    requires
        pre.sound(),
        pre.properties.contains_key(property_id),
        post == (PropertyRegistryModel {
            properties: pre.properties.insert(
                pre.properties[property_id].id,
                post.properties[pre.properties[property_id].id],
            ),
            outbox: post.outbox,
            ..pre
        }),
        ({
            let was = pre.properties[property_id];
            let now = post.properties[was.id];
            &&& now.id == was.id
            &&& now.trustee == was.trustee
            &&& now.usdc_value >= 0
            &&& now.status != PropertyStatus::Pending ==> attested(now.verified_by, now.trustee)
            &&& now.usdc_value > 0 ==> attested(now.valued_by, now.trustee)
        }),
    ensures
        post.sound(),
{
    assert(pre.is_filed(property_id));
    assert forall|id: u64| #[trigger] post.is_filed(id) by {
        assert(pre.is_filed(id));
    }
    assert forall|key: StageOf| #[trigger] post.is_staged(key) by {
        assert(pre.is_staged(key));
    }
}

/// Stages are signed off in order: one that is signed off has every earlier one
/// signed off too.
pub proof fn law_stages_are_signed_off_in_order(
    register: PropertyRegistryModel,
    property_id: u64,
    stage: u32,
    earlier: u32,
)
    requires
        register.sound(),
        register.properties.contains_key(property_id),
        earlier <= stage < MILESTONE_COUNT,
        register.milestone(property_id, stage).verified,
    ensures
        register.milestone(property_id, earlier).verified,
    decreases stage,
{
    if earlier < stage {
        assert(register.is_filed(property_id));
        assert(register.is_staged(StageOf { property: property_id, stage }));
        assert(register.milestones.contains_key(StageOf { property: property_id, stage }));
        law_stages_are_signed_off_in_order(
            register,
            property_id,
            (stage - 1) as u32,
            earlier,
        );
    }
}

/// The number of stages signed off says which: exactly the first so many.
pub proof fn law_progress_counts_the_first_stages(
    register: PropertyRegistryModel,
    property_id: u64,
    count: nat,
    stage: u32,
)
    requires
        register.sound(),
        register.properties.contains_key(property_id),
        count <= MILESTONE_COUNT,
        stage < count,
    ensures
        register.milestone(property_id, stage).verified <==> stage < verified_stages(
            register.milestones,
            property_id,
            count,
        ),
        verified_stages(register.milestones, property_id, count) <= count,
    decreases count,
{
    let last = (count - 1) as u32;
    if stage < last {
        law_progress_counts_the_first_stages(
            register,
            property_id,
            (count - 1) as nat,
            stage,
        );
        if register.milestone(property_id, last).verified {
            law_stages_are_signed_off_in_order(register, property_id, last, stage);
        }
    } else {
        lemma_all_or_fewer(register, property_id, (count - 1) as nat);
        if register.milestone(property_id, last).verified && last > 0 {
            assert forall|s: u32| s < last implies #[trigger] register.milestone(
                property_id,
                s,
            ).verified by {
                law_stages_are_signed_off_in_order(register, property_id, last, s);
            }
        }
    }
}

/// The first `count` stages number `count` where all of them are signed off.
proof fn lemma_all_or_fewer(register: PropertyRegistryModel, property_id: u64, count: nat)
    requires
        count <= MILESTONE_COUNT,
    ensures
        verified_stages(register.milestones, property_id, count) <= count,
        (forall|s: u32| s < count ==> #[trigger] register.milestone(property_id, s).verified)
            ==> verified_stages(register.milestones, property_id, count) == count,
    decreases count,
{
    if count > 0 {
        lemma_all_or_fewer(register, property_id, (count - 1) as nat);
        if forall|s: u32| s < count ==> #[trigger] register.milestone(property_id, s).verified {
            assert(register.milestone(property_id, (count - 1) as u32).verified);
        }
    }
}

/// What a stage has reached it keeps: once signed off it stays signed off, on the
/// same evidence and by the same inspector, and once paid out it stays paid out. So a
/// stage is paid out at most once.
pub proof fn law_a_stage_is_released_once(
    pre: PropertyRegistryModel,
    post: PropertyRegistryModel,
    step: Step,
    property_id: u64,
    stage: u32,
    caller: Address,
)
    requires
        pre.sound(),
        pre.takes(post, step),
        pre.properties.contains_key(property_id),
        stage < MILESTONE_COUNT,
    ensures
        ({
            let was = pre.milestone(property_id, stage);
            let now = post.milestone(property_id, stage);
            &&& was.verified ==> now.verified && now.evidence_hash == was.evidence_hash
                && now.verified_by == was.verified_by
            &&& was.released ==> now.released
            &&& was.released ==> pre.release_refusal(caller, property_id, stage) is Some
            &&& now.released && !was.released ==> step is Release && was.verified
        }),
{
    let key = StageOf { property: property_id, stage };
    assert(pre.is_filed(property_id));
    assert(pre.milestones.contains_key(key));
    assert(pre.is_staged(key));
    match step {
        Step::Submit { .. } => {
            assert(pre.is_filed(pre.next_id));
            lemma_fresh_stages(pre.milestones, pre.next_id, MILESTONE_COUNT as nat, key);
        },
        Step::Evidence { property_id: p, stage: s, .. } => {
            assert(pre.is_staged(StageOf { property: p, stage: s }));
        },
        Step::SignOff { property_id: p, stage: s, .. } => {
            assert(pre.is_staged(StageOf { property: p, stage: s }));
        },
        Step::Release { property_id: p, stage: s, .. } => {
            assert(pre.is_staged(StageOf { property: p, stage: s }));
        },
        _ => {},
    }
}

/// A trustee can never confirm, value or sign off their own property, whatever roles
/// they hold.
pub proof fn law_trustees_never_judge_their_own(
    register: PropertyRegistryModel,
    property_id: u64,
    usdc_value: i128,
    stage: u32,
)
    requires
        register.properties.contains_key(property_id),
    ensures
        ({
            let trustee = register.properties[property_id].trustee;
            &&& register.title_refusal(trustee, property_id) is Some
            &&& register.valuation_refusal(trustee, property_id, usdc_value) is Some
            &&& register.verify_refusal(trustee, property_id, stage) is Some
        }),
{
}

/// A party whose role was revoked is refused everything that needs it, from the next
/// call on.
pub proof fn law_revocation_takes_effect(
    register: PropertyRegistryModel,
    party: Address,
    property_id: u64,
    usdc_value: i128,
    stage: u32,
)
    ensures
        ({
            let r = PropertyRegistryModel {
                trustees: with_role(register.trustees, party, false),
                ..register
            };
            &&& r.submit_refusal(party) is Some
            &&& r.evidence_refusal(party, property_id, stage) is Some
        }),
        ({
            let r = PropertyRegistryModel {
                oracles: with_role(register.oracles, party, false),
                ..register
            };
            &&& r.title_refusal(party, property_id) is Some
            &&& r.valuation_refusal(party, property_id, usdc_value) is Some
            &&& r.verify_refusal(party, property_id, stage) is Some
        }),
{
}

/// A property keeps its id, its trustee and its papers, and only moves along its
/// path: pending, verified, mortgaged, and then repaid or defaulted for good. Only
/// the mortgage pool moves it beyond verified.
pub proof fn law_properties_keep_to_their_path(
    pre: PropertyRegistryModel,
    post: PropertyRegistryModel,
    step: Step,
    property_id: u64,
)
    requires
        pre.sound(),
        pre.takes(post, step),
        pre.properties.contains_key(property_id),
    ensures
        post.properties.contains_key(property_id),
        ({
            let was = pre.properties[property_id];
            let now = post.properties[property_id];
            &&& now.id == was.id
            &&& now.trustee == was.trustee
            &&& now.title_hash == was.title_hash
            &&& now.survey_doc_hash == was.survey_doc_hash
            &&& now.status == was.status || (was.status == PropertyStatus::Pending && now.status
                == PropertyStatus::Verified && step is Title) || (
            PropertyRegistryModel::may_move(was.status, now.status) && (
            step matches Step::Move { caller, .. } && pre.mortgage_pool == Some(caller)))
        }),
{
    assert(pre.is_filed(property_id));
    match step {
        Step::Submit { .. } => {
            assert(pre.is_filed(pre.next_id));
        },
        Step::Title { property_id: p, .. } => {
            assert(pre.is_filed(p));
        },
        Step::Value { property_id: p, .. } => {
            assert(pre.is_filed(p));
        },
        Step::Move { property_id: p, .. } => {
            assert(pre.is_filed(p));
        },
        _ => {},
    }
}

/// A financed property's status moves only as the mortgage pool asks and only along the
/// allowed path: anybody else is refused, and so is every other move. A move that is
/// allowed changes that one property's status and nothing else of the register, and a
/// property once mortgaged is not mortgaged again.
pub proof fn law_financed_status_moves_along_its_path(
    register: PropertyRegistryModel,
    caller: Address,
    property_id: u64,
    status: PropertyStatus,
)
    requires
        register.sound(),
        register.mortgage_pool is Some,
        register.properties.contains_key(property_id),
    ensures
        ({
            let was = register.properties[property_id];
            let allowed = (status == PropertyStatus::Mortgaged && was.status
                == PropertyStatus::Verified) || ((status == PropertyStatus::Repaid || status
                == PropertyStatus::Defaulted) && was.status == PropertyStatus::Mortgaged);
            let refusal = register.transition_refusal(caller, property_id, status);
            let post = register.transitioned(property_id, status);
            &&& refusal == (if register.mortgage_pool != Some(caller) {
                Some(Error::NotAuthorized)
            } else if allowed {
                None
            } else {
                Some(Error::WrongStatus)
            })
            &&& post.properties == register.properties.insert(
                property_id,
                Property { status, ..was },
            )
            &&& post == (PropertyRegistryModel {
                properties: post.properties,
                outbox: register.outbox.push(
                    Effect::Publish(Event::Status { property_id, status }),
                ),
                ..register
            })
            &&& refusal is None ==> post.transition_refusal(
                caller,
                property_id,
                PropertyStatus::Mortgaged,
            ) == Some(Error::WrongStatus)
        }),
{
    assert(register.is_filed(property_id));
}

/// A register's history: each state follows from the one before by a step.
pub open spec fn is_history(states: Seq<PropertyRegistryModel>, steps: Seq<Step>) -> bool {
    &&& states.len() == steps.len() + 1
    &&& forall|i: int|
        0 <= i < steps.len() ==> #[trigger] states[i].takes(states[i as int + 1], steps[i])
}

/// Whether a mortgage against a property in this status has been funded.
pub open spec fn is_financed(status: PropertyStatus) -> bool {
    status == PropertyStatus::Mortgaged || is_closed(status)
}

/// Whether the mortgage against a property in this status has ended.
pub open spec fn is_closed(status: PropertyStatus) -> bool {
    status == PropertyStatus::Repaid || status == PropertyStatus::Defaulted
}

/// Through any history a property that is repaid or defaulted stays so, and one that
/// was ever mortgaged is never mortgaged again: everybody who asks is refused.
pub proof fn law_closed_properties_stay_closed(
    states: Seq<PropertyRegistryModel>,
    steps: Seq<Step>,
    property_id: u64,
    n: nat,
)
    requires
        is_history(states, steps),
        states[0].sound(),
        states[0].properties.contains_key(property_id),
        n <= steps.len(),
    ensures
        states[n as int].sound(),
        states[n as int].properties.contains_key(property_id),
        ({
            let first = states[0].properties[property_id].status;
            let last = states[n as int].properties[property_id].status;
            &&& is_closed(first) ==> last == first && forall|caller: Address, to: PropertyStatus|
                (#[trigger] states[n as int].transition_refusal(caller, property_id, to)) is Some
            &&& is_financed(first) ==> is_financed(last) && forall|caller: Address|
                (#[trigger] states[n as int].transition_refusal(
                    caller,
                    property_id,
                    PropertyStatus::Mortgaged,
                )) is Some
        }),
    decreases n,
{
    if n > 0 {
        let i = (n - 1) as nat;
        law_closed_properties_stay_closed(states, steps, property_id, i);
        assert(states[i as int].takes(states[i as int + 1], steps[i as int]));
        law_sound_kept(states[i as int], states[n as int], steps[i as int]);
        law_properties_keep_to_their_path(
            states[i as int],
            states[n as int],
            steps[i as int],
            property_id,
        );
    }
}

/// Ids are never reused: a property that is submitted gets an id that none has.
pub proof fn law_ids_are_fresh(register: PropertyRegistryModel)
    requires
        register.sound(),
    ensures
        !register.properties.contains_key(register.next_id),
        forall|stage: u32|
            !(#[trigger] register.milestones.contains_key(
                StageOf { property: register.next_id, stage },
            )),
{
    assert(register.is_filed(register.next_id));
    assert forall|stage: u32|
        !(#[trigger] register.milestones.contains_key(
            StageOf { property: register.next_id, stage },
        )) by {
        assert(register.is_staged(StageOf { property: register.next_id, stage }));
    }
}

/// Administration alters no property and no stage: every administrative operation
/// leaves them as they were.
pub proof fn law_admin_alters_no_property(
    register: PropertyRegistryModel,
    admin: Address,
    party: Address,
    authorized: bool,
    governance: Governance<Action>,
    wasm_hash: Digest,
)
    ensures
        register.set_mortgage_pool_refusal(admin) is None ==> register.administered(
            PropertyRegistryModel { mortgage_pool: Some(party), ..register },
        ),
        register.administered(
            PropertyRegistryModel {
                trustees: with_role(register.trustees, party, authorized),
                outbox: register.outbox.push(
                    Effect::Publish(Event::Trustee { trustee: party, authorized }),
                ),
                ..register
            },
        ),
        register.administered(
            PropertyRegistryModel {
                oracles: with_role(register.oracles, party, authorized),
                outbox: register.outbox.push(
                    Effect::Publish(Event::Oracle { oracle: party, authorized }),
                ),
                ..register
            },
        ),
        register.administered(PropertyRegistryModel { governance, ..register }),
        register.administered(
            PropertyRegistryModel {
                governance,
                outbox: register.outbox.push(Effect::Upgrade(wasm_hash)),
                ..register
            },
        ),
{
}

/// Once the mortgage pool is wired it stays wired, and wiring it again is refused.
pub proof fn law_wired_once(
    pre: PropertyRegistryModel,
    post: PropertyRegistryModel,
    step: Step,
    admin: Address,
)
    requires
        pre.mortgage_pool is Some,
        pre.takes(post, step),
    ensures
        post.mortgage_pool == pre.mortgage_pool,
        post.set_mortgage_pool_refusal(admin) is Some,
{
}

} // verus!
