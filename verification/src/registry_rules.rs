//! What each call on the property registry does, in its own records.

use crate::governance::GovernanceError;
use crate::host::{Address, Digest};
use crate::property_registry::{
    admin_outcome, has_role, verified_stages, Action, Effect, Error, Event, Milestone, Property,
    PropertyRegistryModel, PropertyStatus,
};
use crate::registry_laws::{lemma_fresh_stages, Step};
use crate::table::StageOf;
use vstd::prelude::*;

verus! {

// --- roles ---

/// Granting a role gives it and revoking it takes it, whatever the party had before,
/// and nobody else's roles change. A party with no record has no role.
pub proof fn law_a_grant_decides_who_has_a_role(
    register: PropertyRegistryModel,
    party: Address,
    authorized: bool,
    other: Address,
)
    ensures
        ({
            let post = register.with_trustee(party, authorized);
            &&& has_role(post.trustees, party) == authorized
            &&& other != party ==> has_role(post.trustees, other) == has_role(
                register.trustees,
                other,
            )
            &&& post.outbox =~= register.outbox + seq![
                Effect::Publish(Event::Trustee { trustee: party, authorized }),
            ]
            &&& post == (PropertyRegistryModel {
                trustees: post.trustees,
                outbox: post.outbox,
                ..register
            })
        }),
        ({
            let post = register.with_oracle(party, authorized);
            &&& has_role(post.oracles, party) == authorized
            &&& other != party ==> has_role(post.oracles, other) == has_role(
                register.oracles,
                other,
            )
            &&& post.outbox =~= register.outbox + seq![
                Effect::Publish(Event::Oracle { oracle: party, authorized }),
            ]
            &&& post == (PropertyRegistryModel {
                oracles: post.oracles,
                outbox: post.outbox,
                ..register
            })
        }),
        has_role(register.trustees, other) <==> register.trustees.contains_key(other)
            && register.trustees[other],
        has_role(register.oracles, other) <==> register.oracles.contains_key(other)
            && register.oracles[other],
{
}

// --- trustees ---

/// Any trustee can submit a property, and nobody else can. It is filed under the next
/// id, which no property has, as the trustee's own, with its papers, without a value
/// and with its title still to be confirmed, and with five stages for which nothing was
/// submitted. No other record changes.
pub proof fn law_a_trustee_submits_a_property(
    pre: PropertyRegistryModel,
    post: PropertyRegistryModel,
    trustee: Address,
    title_hash: Digest,
    survey_doc_hash: Digest,
    key: StageOf,
)
    requires
        pre.sound(),
    ensures
        match pre.submit_refusal(trustee) {
            None => pre.trustees.contains_key(trustee) && pre.trustees[trustee],
            Some(Error::NotTrustee) => !(pre.trustees.contains_key(trustee)
                && pre.trustees[trustee]),
            Some(_) => false,
        },
        pre.next_id < u64::MAX ==> pre.submit_fits(trustee),
        pre.takes(post, Step::Submit { trustee, title_hash, survey_doc_hash }) ==> {
            let id = pre.next_id;
            let property = post.properties[id];
            &&& !pre.properties.contains_key(id)
            &&& post.next_id == id + 1
            &&& post.properties == pre.properties.insert(id, property)
            &&& property.id == id && property.trustee == trustee
            &&& property.title_hash == title_hash && property.survey_doc_hash == survey_doc_hash
            &&& property.usdc_value == 0 && property.status == PropertyStatus::Pending
            &&& property.verified_by is None && property.valued_by is None
            &&& key.property == id && key.stage < 5 ==> {
                let stage = post.milestones[key];
                &&& post.milestones.contains_key(key)
                &&& stage.stage == key.stage
                &&& stage.evidence_hash.high == 0 && stage.evidence_hash.low == 0
                &&& !stage.verified && !stage.released && stage.verified_by is None
            }
            &&& !(key.property == id && key.stage < 5) ==> {
                &&& post.milestones.contains_key(key) == pre.milestones.contains_key(key)
                &&& post.milestones[key] == pre.milestones[key]
            }
            &&& post.outbox =~= pre.outbox + seq![
                Effect::Publish(Event::Submitted { id, trustee }),
            ]
            &&& post == (PropertyRegistryModel {
                next_id: post.next_id,
                properties: post.properties,
                milestones: post.milestones,
                outbox: post.outbox,
                ..pre
            })
        },
{
    assert(pre.is_filed(pre.next_id));
    lemma_fresh_stages(pre.milestones, pre.next_id, 5, key);
}

/// A property's own trustee can submit and replace the evidence for any of its five
/// stages until that stage is signed off. Only the evidence changes.
pub proof fn law_evidence_stands_until_signed_off(
    pre: PropertyRegistryModel,
    trustee: Address,
    property_id: u64,
    stage: u32,
    evidence_hash: Digest,
)
    requires
        pre.sound(),
    ensures
        ({
            let key = StageOf { property: property_id, stage };
            let trusted = pre.trustees.contains_key(trustee) && pre.trustees[trustee];
            let known = pre.properties.contains_key(property_id);
            let own = pre.properties[property_id].trustee == trustee;
            &&& match pre.evidence_refusal(trustee, property_id, stage) {
                None => trusted && known && own && stage < 5 && !pre.milestones[key].verified,
                Some(Error::NotTrustee) => !trusted || (known && !own),
                Some(Error::UnknownProperty) => trusted && !known,
                Some(Error::InvalidStage) => trusted && known && own && stage >= 5,
                Some(Error::AlreadyVerified) => trusted && known && own && stage < 5
                    && pre.milestones[key].verified,
                Some(_) => false,
            }
            &&& known && stage < 5 ==> {
                let post = pre.evidenced(property_id, stage, evidence_hash);
                &&& post.milestones == pre.milestones.insert(
                    key,
                    Milestone { evidence_hash, ..pre.milestones[key] },
                )
                &&& post.outbox =~= pre.outbox + seq![
                    Effect::Publish(Event::Evidence { property_id, stage, evidence_hash }),
                ]
                &&& post == (PropertyRegistryModel {
                    milestones: post.milestones,
                    outbox: post.outbox,
                    ..pre
                })
            }
        }),
{
    let key = StageOf { property: property_id, stage };
    assert(pre.is_filed(property_id));
    assert(pre.is_staged(key));
    if pre.properties.contains_key(property_id) && stage < 5 {
        assert(pre.milestones.contains_key(key));
    }
}

// --- oracles ---

/// Any oracle but the property's own trustee can confirm a title that waits to be
/// confirmed, and can value a property whose title was, at any positive sum and as
/// often as it likes.
pub proof fn law_an_oracle_confirms_and_values(
    register: PropertyRegistryModel,
    oracle: Address,
    property_id: u64,
    usdc_value: i128,
)
    ensures
        ({
            let trusted = register.oracles.contains_key(oracle) && register.oracles[oracle];
            let known = register.properties.contains_key(property_id);
            let own = register.properties[property_id].trustee == oracle;
            let pending = register.properties[property_id].status == PropertyStatus::Pending;
            &&& match register.title_refusal(oracle, property_id) {
                None => trusted && known && pending && !own,
                Some(Error::NotOracle) => !trusted,
                Some(Error::UnknownProperty) => trusted && !known,
                Some(Error::WrongStatus) => trusted && known && !pending,
                Some(Error::NotAuthorized) => trusted && known && pending && own,
                Some(_) => false,
            }
            &&& match register.valuation_refusal(oracle, property_id, usdc_value) {
                None => trusted && usdc_value > 0 && known && !own && !pending,
                Some(Error::NotOracle) => !trusted,
                Some(Error::InvalidValuation) => trusted && usdc_value <= 0,
                Some(Error::UnknownProperty) => trusted && usdc_value > 0 && !known,
                Some(Error::NotAuthorized) => trusted && usdc_value > 0 && known && own,
                Some(Error::WrongStatus) => trusted && usdc_value > 0 && known && !own && pending,
                Some(_) => false,
            }
        }),
{
}

/// Confirming a title records that, and by whom; valuing records the sum, and by whom.
/// Nothing else of the property changes, and nothing of any other.
pub proof fn law_an_attestation_is_recorded(
    pre: PropertyRegistryModel,
    oracle: Address,
    property_id: u64,
    usdc_value: i128,
)
    requires
        pre.sound(),
        pre.properties.contains_key(property_id),
    ensures
        ({
            let was = pre.properties[property_id];
            let post = pre.titled(oracle, property_id);
            &&& post.properties == pre.properties.insert(
                property_id,
                Property {
                    status: PropertyStatus::Verified,
                    verified_by: Some(oracle),
                    ..was
                },
            )
            &&& post.outbox =~= pre.outbox + seq![
                Effect::Publish(Event::Title { property_id, oracle }),
                Effect::Publish(
                    Event::Status { property_id, status: PropertyStatus::Verified },
                ),
            ]
            &&& post == (PropertyRegistryModel {
                properties: post.properties,
                outbox: post.outbox,
                ..pre
            })
        }),
        ({
            let was = pre.properties[property_id];
            let post = pre.valued(oracle, property_id, usdc_value);
            &&& post.properties == pre.properties.insert(
                property_id,
                Property { usdc_value, valued_by: Some(oracle), ..was },
            )
            &&& post.outbox =~= pre.outbox + seq![
                Effect::Publish(Event::Valuation { property_id, oracle, usdc_value }),
            ]
            &&& post == (PropertyRegistryModel {
                properties: post.properties,
                outbox: post.outbox,
                ..pre
            })
        }),
{
    assert(pre.is_filed(property_id));
}

/// Any oracle but the property's own trustee can sign a stage off, once, when there is
/// evidence for it and the stage before it, if there is one, is signed off. Signing off
/// records that, and by whom, and nothing else.
pub proof fn law_a_stage_is_signed_off_in_turn(
    pre: PropertyRegistryModel,
    oracle: Address,
    property_id: u64,
    stage: u32,
)
    requires
        pre.sound(),
    ensures
        ({
            let key = StageOf { property: property_id, stage };
            let before = StageOf { property: property_id, stage: (stage - 1) as u32 };
            let trusted = pre.oracles.contains_key(oracle) && pre.oracles[oracle];
            let known = pre.properties.contains_key(property_id);
            let own = pre.properties[property_id].trustee == oracle;
            let may = trusted && known && !own && stage < 5;
            let milestone = pre.milestones[key];
            let blank = milestone.evidence_hash.high == 0 && milestone.evidence_hash.low == 0;
            let next = stage == 0 || pre.milestones[before].verified;
            &&& match pre.verify_refusal(oracle, property_id, stage) {
                None => may && !milestone.verified && !blank && next,
                Some(Error::NotOracle) => !trusted,
                Some(Error::UnknownProperty) => trusted && !known,
                Some(Error::NotAuthorized) => trusted && known && own,
                Some(Error::InvalidStage) => trusted && known && !own && stage >= 5,
                Some(Error::AlreadyVerified) => may && milestone.verified,
                Some(Error::NoEvidence) => may && !milestone.verified && blank,
                Some(Error::OutOfOrder) => may && !milestone.verified && !blank && !next,
                Some(_) => false,
            }
            &&& known && stage < 5 ==> {
                let post = pre.signed_off(oracle, property_id, stage);
                &&& post.milestones == pre.milestones.insert(
                    key,
                    Milestone { verified: true, verified_by: Some(oracle), ..milestone },
                )
                &&& post.outbox =~= pre.outbox + seq![
                    Effect::Publish(Event::Verified { property_id, stage, oracle }),
                ]
                &&& post == (PropertyRegistryModel {
                    milestones: post.milestones,
                    outbox: post.outbox,
                    ..pre
                })
            }
        }),
{
    let key = StageOf { property: property_id, stage };
    assert(pre.is_filed(property_id));
    assert(pre.is_staged(key));
    if pre.properties.contains_key(property_id) && stage < 5 {
        assert(pre.milestones.contains_key(key));
        if stage > 0 {
            assert(pre.milestones.contains_key(
                StageOf { property: property_id, stage: (stage - 1) as u32 },
            ));
        }
    }
}

// --- the mortgage pool ---

/// The mortgage pool that was wired, and nobody else, can have a stage that is signed
/// off marked as paid out, once. That is exactly when the stage is reported ready.
pub proof fn law_a_ready_stage_is_released(
    pre: PropertyRegistryModel,
    caller: Address,
    property_id: u64,
    stage: u32,
)
    requires
        pre.sound(),
    ensures
        ({
            let key = StageOf { property: property_id, stage };
            let wired = pre.mortgage_pool is Some;
            let trusted = pre.mortgage_pool == Some(caller);
            let known = pre.properties.contains_key(property_id);
            let milestone = pre.milestones[key];
            &&& match pre.release_refusal(caller, property_id, stage) {
                None => trusted && stage < 5 && known && milestone.verified && !milestone.released,
                Some(Error::MortgagePoolNotSet) => !wired,
                Some(Error::NotAuthorized) => wired && !trusted,
                Some(Error::InvalidStage) => trusted && stage >= 5,
                Some(Error::UnknownProperty) => trusted && stage < 5 && !known,
                Some(Error::WrongStatus) => trusted && stage < 5 && known && !milestone.verified,
                Some(Error::AlreadyVerified) => trusted && stage < 5 && known
                    && milestone.released,
                Some(_) => false,
            }
            &&& match pre.releasable(property_id, stage) {
                Ok(ready) => stage < 5 && known && (ready <==> milestone.verified
                    && !milestone.released),
                Err(Error::InvalidStage) => stage >= 5,
                Err(Error::UnknownProperty) => stage < 5 && !known,
                Err(_) => false,
            }
            &&& match pre.milestone_refusal(property_id, stage) {
                None => stage < 5 && known && pre.milestone(property_id, stage) == milestone,
                Some(Error::InvalidStage) => stage >= 5,
                Some(Error::UnknownProperty) => stage < 5 && !known,
                Some(_) => false,
            }
            &&& known && stage < 5 ==> {
                let post = pre.released(property_id, stage);
                &&& post.milestones == pre.milestones.insert(
                    key,
                    Milestone { released: true, ..milestone },
                )
                &&& post.outbox =~= pre.outbox + seq![
                    Effect::Publish(Event::Released { property_id, stage }),
                ]
                &&& post == (PropertyRegistryModel {
                    milestones: post.milestones,
                    outbox: post.outbox,
                    ..pre
                })
            }
        }),
{
    let key = StageOf { property: property_id, stage };
    assert(pre.is_filed(property_id));
    assert(pre.is_staged(key));
    if pre.properties.contains_key(property_id) && stage < 5 {
        assert(pre.milestones.contains_key(key));
    }
}

/// The mortgage pool that was wired, and nobody else, can move a verified property to
/// mortgaged, and a mortgaged one to repaid or defaulted, and make no other move. Only
/// the status changes.
pub proof fn law_the_pool_moves_a_property_along(
    pre: PropertyRegistryModel,
    caller: Address,
    property_id: u64,
    status: PropertyStatus,
)
    requires
        pre.sound(),
    ensures
        ({
            let wired = pre.mortgage_pool is Some;
            let trusted = pre.mortgage_pool == Some(caller);
            let known = pre.properties.contains_key(property_id);
            let was = pre.properties[property_id];
            let onward = (was.status == PropertyStatus::Verified && status
                == PropertyStatus::Mortgaged) || (was.status == PropertyStatus::Mortgaged && (
            status == PropertyStatus::Repaid || status == PropertyStatus::Defaulted));
            &&& match pre.transition_refusal(caller, property_id, status) {
                None => trusted && known && onward,
                Some(Error::MortgagePoolNotSet) => !wired,
                Some(Error::NotAuthorized) => wired && !trusted,
                Some(Error::UnknownProperty) => trusted && !known,
                Some(Error::WrongStatus) => trusted && known && !onward,
                Some(_) => false,
            }
            &&& known ==> {
                let post = pre.transitioned(property_id, status);
                &&& post.properties == pre.properties.insert(
                    property_id,
                    Property { status, ..was },
                )
                &&& post.outbox =~= pre.outbox + seq![
                    Effect::Publish(Event::Status { property_id, status }),
                ]
                &&& post == (PropertyRegistryModel {
                    properties: post.properties,
                    outbox: post.outbox,
                    ..pre
                })
            }
        }),
{
    assert(pre.is_filed(property_id));
}

/// What the mortgage pool reads of a property is its trustee, its last valuation, and
/// whether its title is confirmed and it is neither mortgaged nor past that.
pub proof fn law_terms_are_read_off_the_register(
    register: PropertyRegistryModel,
    property_id: u64,
)
    ensures
        match register.terms_of(property_id) {
            Ok(terms) => {
                let property = register.properties[property_id];
                &&& register.properties.contains_key(property_id)
                &&& terms.0 == property.trustee
                &&& terms.1 == property.usdc_value
                &&& terms.2 <==> property.status == PropertyStatus::Verified
            },
            Err(Error::UnknownProperty) => !register.properties.contains_key(property_id),
            Err(_) => false,
        },
{
}

/// Progress counts the stages that are signed off: none while none is, and one more
/// when one of them is signed off.
pub proof fn law_signing_off_is_progress(
    pre: PropertyRegistryModel,
    oracle: Address,
    property_id: u64,
    stage: u32,
    count: nat,
)
    requires
        count <= 5,
        !pre.milestones[StageOf { property: property_id, stage }].verified,
        pre.milestones[StageOf { property: property_id, stage }].stage == stage,
    ensures
        verified_stages(
            pre.signed_off(oracle, property_id, stage).milestones,
            property_id,
            count,
        ) == verified_stages(pre.milestones, property_id, count) + (if stage < count {
            1int
        } else {
            0
        }),
        (forall|s: u32|
            s < count ==> !(#[trigger] pre.milestones[StageOf {
                property: property_id,
                stage: s,
            }]).verified) ==> verified_stages(pre.milestones, property_id, count) == 0,
    decreases count,
{
    if count > 0 {
        law_signing_off_is_progress(pre, oracle, property_id, stage, (count - 1) as nat);
        if forall|s: u32|
            s < count ==> !(#[trigger] pre.milestones[StageOf {
                property: property_id,
                stage: s,
            }]).verified {
            assert(!pre.milestones[StageOf {
                property: property_id,
                stage: (count - 1) as u32,
            }].verified);
        }
    }
}

// --- administration ---

/// The mortgage pool is wired by the admin, once, and from then on it is the one that
/// is served.
pub proof fn law_wiring_decides_who_is_served(
    register: PropertyRegistryModel,
    admin: Address,
    party: Address,
)
    ensures
        ({
            let g = register.governance;
            match register.set_mortgage_pool_refusal(admin) {
                None => g.admin == Some(admin) && register.mortgage_pool is None,
                Some(Error::NotInitialized) => g.admin is None,
                Some(Error::NotAuthorized) => g.admin is Some && g.admin != Some(admin),
                Some(Error::AlreadySet) => g.admin == Some(admin) && register.mortgage_pool is Some,
                Some(_) => false,
            }
        }),
        ({
            let post = register.wired_to(party);
            &&& post.mortgage_pool == Some(party)
            &&& post.caller_refusal(party) is None
            &&& post == (PropertyRegistryModel { mortgage_pool: post.mortgage_pool, ..register })
        }),
{
}

/// The admin may schedule an upgrade while none waits. Carrying it out asks for that
/// very code, once, and changes nothing else.
pub proof fn law_a_scheduled_upgrade_is_asked_for(
    register: PropertyRegistryModel,
    admin: Address,
)
    ensures
        forall|now: u64|
            register.governance.eta_fits(now) ==> #[trigger] register.schedule_fits(admin, now),
        ({
            let g = register.governance;
            let idle = g.admin == Some(admin) && g.scheduled is None;
            match register.schedule_refusal(admin) {
                None => idle && g.timelock_secs is Some,
                Some(Error::NotAuthorized) => g.admin is Some && g.admin != Some(admin),
                Some(Error::ActionPending) => g.admin == Some(admin) && g.scheduled is Some,
                Some(Error::NotInitialized) => g.admin is None || (idle && g.timelock_secs is None),
                Some(_) => false,
            }
        }),
        ({
            let post = register.executed();
            let was = register.governance;
            &&& post.governance.scheduled is None
            &&& post.governance.admin == was.admin
            &&& post.governance.pending_admin == was.pending_admin
            &&& post.governance.timelock_secs == was.timelock_secs
            &&& was.scheduled->0.action matches Action::Upgrade(wasm_hash) ==> post.outbox
                =~= register.outbox + seq![Effect::Upgrade(wasm_hash)]
            &&& post == (PropertyRegistryModel {
                governance: post.governance,
                outbox: post.outbox,
                ..register
            })
        }),
{
}

// --- deployment ---

/// The register starts out with what it was configured with and nothing else:
/// nothing on record, nothing scheduled and nothing asked of anybody.
pub proof fn law_deployed_as_configured(
    admin: Address,
    timelock_secs: u64,
)
    ensures
        ({
            let register = PropertyRegistryModel::deployed(admin, timelock_secs);
            &&& register.governance.admin == Some(admin)
            &&& register.governance.pending_admin is None
            &&& register.governance.timelock_secs == Some(timelock_secs)
            &&& register.governance.scheduled is None
            &&& register.mortgage_pool is None
            &&& register.next_id == 1
            &&& register.trustees.dom() =~= Set::empty()
            &&& register.oracles.dom() =~= Set::empty()
            &&& register.properties.dom() =~= Set::empty()
            &&& register.milestones.dom() =~= Set::empty()
            &&& register.outbox.len() == 0
        }),
{
}

// --- refusals ---

/// Each number stands for one refusal, and every refusal has one.
pub proof fn law_a_number_tells_the_refusal(refusal: Error)
    ensures
        match refusal.number() {
            2 => refusal == Error::NotInitialized,
            3 => refusal == Error::NotAuthorized,
            4 => refusal == Error::AlreadySet,
            5 => refusal == Error::NoPendingAction,
            6 => refusal == Error::ActionPending,
            7 => refusal == Error::TimelockNotExpired,
            8 => refusal == Error::UnknownProperty,
            9 => refusal == Error::NotTrustee,
            10 => refusal == Error::NotOracle,
            11 => refusal == Error::WrongStatus,
            12 => refusal == Error::InvalidValuation,
            13 => refusal == Error::InvalidStage,
            14 => refusal == Error::NoEvidence,
            15 => refusal == Error::AlreadyVerified,
            16 => refusal == Error::OutOfOrder,
            17 => refusal == Error::MortgagePoolNotSet,
            _ => false,
        },
{
}

/// What the governing rules refuse is refused under the same name, and what they grant
/// is granted.
pub proof fn law_governance_speaks_through(refusal: Option<GovernanceError>)
    ensures
        match admin_outcome(refusal) {
            Ok(_) => refusal is None,
            Err(Error::NotInitialized) => refusal == Some(GovernanceError::NotInitialized),
            Err(Error::NotAuthorized) => refusal == Some(GovernanceError::NotAuthorized),
            Err(Error::NoPendingAction) => refusal == Some(GovernanceError::NoPendingAction),
            Err(Error::ActionPending) => refusal == Some(GovernanceError::ActionPending),
            Err(Error::TimelockNotExpired) => refusal == Some(GovernanceError::TimelockNotExpired),
            Err(_) => false,
        },
        refusal is Some ==> admin_outcome(refusal) == Err::<(), Error>(Error::of(refusal->0)),
{
}

} // verus!
