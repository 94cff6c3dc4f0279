//! PropertyRegistry: what a property is, who holds it in trust, and how far the
//! build has got.
//!
//! The registry holds no money and lends nothing. It is the notary: it records
//! the hash of a title deed and survey, whether a land-registry oracle has checked
//! that title, what a surveyor valued the property at, and which construction
//! milestones an inspector has signed off. Those signatures are what the mortgage
//! pool reads before it releases a tranche.
//!
//! Only digests of the paperwork are kept, so the documents can be held off the
//! ledger and still be proved unaltered.

use crate::governance::{outcome, Governance, GovernanceError};
use crate::host::{Address, Digest, Env};
use crate::table::{StageOf, Table};
use vstd::prelude::*;

verus! {

/// Construction stages: foundation, walls, roofing, finishing, handover.
///
/// Fixed rather than configurable because a tranche is released per stage.
pub const MILESTONE_COUNT: u32 = 5;

/// Why the registry refuses a call.
#[derive(Copy, Clone, Debug, PartialEq, Eq, PartialOrd, Ord, Structural)]
pub enum Error {
    NotInitialized,
    NotAuthorized,
    AlreadySet,
    NoPendingAction,
    ActionPending,
    TimelockNotExpired,
    UnknownProperty,
    NotTrustee,
    NotOracle,
    WrongStatus,
    InvalidValuation,
    InvalidStage,
    NoEvidence,
    AlreadyVerified,
    OutOfOrder,
    MortgagePoolNotSet,
}

impl Error {
    /// The number the error is reported under.
    pub open spec fn number(self) -> u32 {
        match self {
            Error::NotInitialized => 2,
            Error::NotAuthorized => 3,
            Error::AlreadySet => 4,
            Error::NoPendingAction => 5,
            Error::ActionPending => 6,
            Error::TimelockNotExpired => 7,
            Error::UnknownProperty => 8,
            Error::NotTrustee => 9,
            Error::NotOracle => 10,
            Error::WrongStatus => 11,
            Error::InvalidValuation => 12,
            Error::InvalidStage => 13,
            Error::NoEvidence => 14,
            Error::AlreadyVerified => 15,
            Error::OutOfOrder => 16,
            Error::MortgagePoolNotSet => 17,
        }
    }

    /// The contract's name for an administrative refusal.
    pub open spec fn of(refusal: GovernanceError) -> Error {
        match refusal {
            GovernanceError::NotInitialized => Error::NotInitialized,
            GovernanceError::NotAuthorized => Error::NotAuthorized,
            GovernanceError::NoPendingAction => Error::NoPendingAction,
            GovernanceError::ActionPending => Error::ActionPending,
            GovernanceError::TimelockNotExpired => Error::TimelockNotExpired,
        }
    }

    /// The number the error is reported under.
    pub fn code(&self) -> (r: u32)
        ensures
            r == self.number(),
    {
        match *self {
            Error::NotInitialized => 2,
            Error::NotAuthorized => 3,
            Error::AlreadySet => 4,
            Error::NoPendingAction => 5,
            Error::ActionPending => 6,
            Error::TimelockNotExpired => 7,
            Error::UnknownProperty => 8,
            Error::NotTrustee => 9,
            Error::NotOracle => 10,
            Error::WrongStatus => 11,
            Error::InvalidValuation => 12,
            Error::InvalidStage => 13,
            Error::NoEvidence => 14,
            Error::AlreadyVerified => 15,
            Error::OutOfOrder => 16,
            Error::MortgagePoolNotSet => 17,
        }
    }

    fn from_governance(refusal: GovernanceError) -> (r: Error)
        ensures
            r == Error::of(refusal),
    {
        match refusal {
            GovernanceError::NotInitialized => Error::NotInitialized,
            GovernanceError::NotAuthorized => Error::NotAuthorized,
            GovernanceError::NoPendingAction => Error::NoPendingAction,
            GovernanceError::ActionPending => Error::ActionPending,
            GovernanceError::TimelockNotExpired => Error::TimelockNotExpired,
        }
    }
}

/// An administrative call's outcome, in the contract's own errors.
pub open spec fn admin_outcome(refusal: Option<GovernanceError>) -> Result<(), Error> {
    match refusal {
        Some(e) => Err(Error::of(e)),
        None => Ok(()),
    }
}

/// Where a property sits in its life.
#[derive(Copy, Clone, Debug, PartialEq, Eq, Structural)]
pub enum PropertyStatus {
    /// Submitted by a trustee, title not yet checked.
    Pending,
    /// The land registry oracle has confirmed the title.
    Verified,
    /// A mortgage against this property has been funded.
    Mortgaged,
    /// The mortgage was paid off.
    Repaid,
    /// The mortgage defaulted.
    Defaulted,
}

/// A property as the protocol knows it.
#[derive(Copy, Clone, Debug, PartialEq, Eq, Structural)]
pub struct Property {
    pub id: u64,
    /// The party holding the property in trust for the borrower.
    pub trustee: Address,
    pub title_hash: Digest,
    pub survey_doc_hash: Digest,
    /// Surveyor's valuation in the settlement asset. Zero until valued.
    pub usdc_value: i128,
    pub status: PropertyStatus,
    /// The oracle that verified the title, for traceability.
    pub verified_by: Option<Address>,
    /// The oracle that published the valuation.
    pub valued_by: Option<Address>,
}

/// One construction stage.
#[derive(Copy, Clone, Debug, PartialEq, Eq, Structural)]
pub struct Milestone {
    pub stage: u32,
    pub evidence_hash: Digest,
    pub verified: bool,
    /// Whether the stage's tranche has been paid out.
    pub released: bool,
    /// The inspector who signed this stage off.
    pub verified_by: Option<Address>,
}

impl Milestone {
    /// A stage for which nothing has been submitted.
    pub open spec fn fresh(stage: u32) -> Milestone {
        Milestone {
            stage,
            evidence_hash: Digest { high: 0, low: 0 },
            verified: false,
            released: false,
            verified_by: None,
        }
    }
}

/// A sensitive admin change that must wait out the timelock before it runs.
#[derive(Copy, Clone, Debug, PartialEq, Eq, Structural)]
pub enum Action {
    /// Replace the contract's code, keeping its address and storage.
    Upgrade(Digest),
}

pub type ScheduledAction = crate::governance::ScheduledAction<Action>;

/// What the registry tells the world.
#[derive(Copy, Clone, Debug, PartialEq, Eq, Structural)]
pub enum Event {
    Trustee { trustee: Address, authorized: bool },
    Oracle { oracle: Address, authorized: bool },
    Submitted { id: u64, trustee: Address },
    Evidence { property_id: u64, stage: u32, evidence_hash: Digest },
    Title { property_id: u64, oracle: Address },
    Valuation { property_id: u64, oracle: Address, usdc_value: i128 },
    Verified { property_id: u64, stage: u32, oracle: Address },
    Released { property_id: u64, stage: u32 },
    Status { property_id: u64, status: PropertyStatus },
}

/// What the registry asks of its host.
#[derive(Copy, Clone, Debug, PartialEq, Eq, Structural)]
pub enum Effect {
    Publish(Event),
    Upgrade(Digest),
}

/// The register of properties.
#[derive(Debug)]
pub struct PropertyRegistryContract {
    pub governance: Governance<Action>,
    /// The mortgage pool, the only caller allowed to mark a stage released or move
    /// a property into or out of `Mortgaged`.
    pub mortgage_pool: Option<Address>,
    pub next_id: u64,
    pub trustees: Table<Address, bool>,
    pub oracles: Table<Address, bool>,
    pub properties: Table<u64, Property>,
    pub milestones: Table<StageOf, Milestone>,
    pub outbox: Vec<Effect>,
}

/// The register as its contracts speak of it.
#[verifier::ext_equal]
pub struct PropertyRegistryModel {
    pub governance: Governance<Action>,
    pub mortgage_pool: Option<Address>,
    pub next_id: u64,
    pub trustees: Map<Address, bool>,
    pub oracles: Map<Address, bool>,
    pub properties: Map<u64, Property>,
    pub milestones: Map<StageOf, Milestone>,
    pub outbox: Seq<Effect>,
}

impl View for PropertyRegistryContract {
    type V = PropertyRegistryModel;

    open spec fn view(&self) -> PropertyRegistryModel {
        PropertyRegistryModel {
            governance: self.governance,
            mortgage_pool: self.mortgage_pool,
            next_id: self.next_id,
            trustees: self.trustees@,
            oracles: self.oracles@,
            properties: self.properties@,
            milestones: self.milestones@,
            outbox: self.outbox@,
        }
    }
}

/// Whether `party` has a role.
pub open spec fn has_role(roles: Map<Address, bool>, party: Address) -> bool {
    roles.contains_key(party) && roles[party]
}

/// The roles after `party` was granted one or lost it.
pub open spec fn with_role(roles: Map<Address, bool>, party: Address, authorized: bool) -> Map<
    Address,
    bool,
> {
    if authorized {
        roles.insert(party, true)
    } else {
        roles.remove(party)
    }
}

/// Stages with the first `count` of a property's written afresh.
pub open spec fn with_fresh_stages(
    milestones: Map<StageOf, Milestone>,
    property: u64,
    count: nat,
) -> Map<StageOf, Milestone>
    decreases count,
{
    if count == 0 {
        milestones
    } else {
        let stage = (count - 1) as u32;
        with_fresh_stages(milestones, property, (count - 1) as nat).insert(
            StageOf { property, stage },
            Milestone::fresh(stage),
        )
    }
}

/// How many of the first `count` stages of a property are signed off.
pub open spec fn verified_stages(
    milestones: Map<StageOf, Milestone>,
    property: u64,
    count: nat,
) -> nat
    decreases count,
{
    if count == 0 {
        0
    } else {
        verified_stages(milestones, property, (count - 1) as nat) + (if milestones[StageOf {
            property,
            stage: (count - 1) as u32,
        }].verified {
            1nat
        } else {
            0nat
        })
    }
}

impl PropertyRegistryModel {
    /// The register as it is deployed.
    pub open spec fn deployed(admin: Address, timelock_secs: u64) -> Self {
        PropertyRegistryModel {
            governance: Governance {
                admin: Some(admin),
                pending_admin: None,
                timelock_secs: Some(timelock_secs),
                scheduled: None,
            },
            mortgage_pool: None,
            next_id: 1,
            trustees: Map::empty(),
            oracles: Map::empty(),
            properties: Map::empty(),
            milestones: Map::empty(),
            outbox: Seq::empty(),
        }
    }

    /// The stage of a property.
    pub open spec fn milestone(self, property: u64, stage: u32) -> Milestone {
        self.milestones[StageOf { property, stage }]
    }

    /// Why a stage cannot be read.
    pub open spec fn milestone_refusal(self, property: u64, stage: u32) -> Option<Error> {
        if stage >= MILESTONE_COUNT {
            Some(Error::InvalidStage)
        } else if !self.milestones.contains_key(StageOf { property, stage }) {
            Some(Error::UnknownProperty)
        } else {
            None
        }
    }

    /// What the mortgage pool reads of a property before it lends: who holds it in
    /// trust, its value, and whether its title stands confirmed.
    pub open spec fn terms_of(self, property_id: u64) -> Result<(Address, i128, bool), Error> {
        if self.properties.contains_key(property_id) {
            let property = self.properties[property_id];
            Ok(
                (
                    property.trustee,
                    property.usdc_value,
                    property.status == PropertyStatus::Verified,
                ),
            )
        } else {
            Err(Error::UnknownProperty)
        }
    }

    /// Whether a stage's tranche may be paid out.
    pub open spec fn releasable(self, property_id: u64, stage: u32) -> Result<bool, Error> {
        match self.milestone_refusal(property_id, stage) {
            Some(refusal) => Err(refusal),
            None => Ok(
                self.milestone(property_id, stage).verified && !self.milestone(
                    property_id,
                    stage,
                ).released,
            ),
        }
    }

    /// Why a call that only the mortgage pool may make is refused `caller`.
    pub open spec fn caller_refusal(self, caller: Address) -> Option<Error> {
        if self.mortgage_pool is None {
            Some(Error::MortgagePoolNotSet)
        } else if self.mortgage_pool != Some(caller) {
            Some(Error::NotAuthorized)
        } else {
            None
        }
    }

    /// The register with one stage rewritten.
    pub open spec fn with_milestone(self, property: u64, milestone: Milestone, event: Event) -> Self {
        PropertyRegistryModel {
            milestones: self.milestones.insert(
                StageOf { property, stage: milestone.stage },
                milestone,
            ),
            outbox: self.outbox.push(Effect::Publish(event)),
            ..self
        }
    }

    /// The register with one property rewritten.
    pub open spec fn with_property(self, property: Property, event: Event) -> Self {
        PropertyRegistryModel {
            properties: self.properties.insert(property.id, property),
            outbox: self.outbox.push(Effect::Publish(event)),
            ..self
        }
    }
    /// The register with the mortgage pool it answers to.
    pub open spec fn wired_to(self, mortgage_pool: Address) -> Self {
        PropertyRegistryModel { mortgage_pool: Some(mortgage_pool), ..self }
    }


    pub open spec fn set_mortgage_pool_refusal(self, admin: Address) -> Option<Error> {
        match self.governance.admin_refusal(admin) {
            Some(e) => Some(Error::of(e)),
            None => if self.mortgage_pool is Some {
                Some(Error::AlreadySet)
            } else {
                None
            },
        }
    }
    /// The register with the scheduled upgrade asked for.
    pub open spec fn executed(self) -> Self {
        PropertyRegistryModel {
            governance: self.governance.with_nothing_scheduled(),
            outbox: self.outbox.push(
                match self.governance.scheduled->0.action {
                    Action::Upgrade(wasm_hash) => Effect::Upgrade(wasm_hash),
                },
            ),
            ..self
        }
    }


    pub open spec fn schedule_refusal(self, admin: Address) -> Option<Error> {
        match self.governance.schedule_refusal(admin) {
            Some(e) => Some(Error::of(e)),
            None => if self.governance.timelock_secs is None {
                Some(Error::NotInitialized)
            } else {
                None
            },
        }
    }

    pub open spec fn schedule_fits(self, admin: Address, now: u64) -> bool {
        self.schedule_refusal(admin) is None ==> self.governance.eta_fits(now)
    }

    // --- roles ---

    /// The register with a party made a trustee, or no longer one.
    pub open spec fn with_trustee(self, trustee: Address, authorized: bool) -> Self {
        PropertyRegistryModel {
            trustees: with_role(self.trustees, trustee, authorized),
            outbox: self.outbox.push(Effect::Publish(Event::Trustee { trustee, authorized })),
            ..self
        }
    }

    /// The register with a party made an oracle, or no longer one.
    pub open spec fn with_oracle(self, oracle: Address, authorized: bool) -> Self {
        PropertyRegistryModel {
            oracles: with_role(self.oracles, oracle, authorized),
            outbox: self.outbox.push(Effect::Publish(Event::Oracle { oracle, authorized })),
            ..self
        }
    }

    // --- trustees ---

    pub open spec fn submit_refusal(self, trustee: Address) -> Option<Error> {
        if !has_role(self.trustees, trustee) {
            Some(Error::NotTrustee)
        } else {
            None
        }
    }

    pub open spec fn submit_fits(self, trustee: Address) -> bool {
        self.submit_refusal(trustee) is None ==> self.next_id < u64::MAX
    }

    /// The register with a new property in it, and its stages.
    pub open spec fn submitted(
        self,
        trustee: Address,
        title_hash: Digest,
        survey_doc_hash: Digest,
    ) -> Self {
        PropertyRegistryModel {
            next_id: (self.next_id + 1) as u64,
            properties: self.properties.insert(
                self.next_id,
                Property {
                    id: self.next_id,
                    trustee,
                    title_hash,
                    survey_doc_hash,
                    usdc_value: 0,
                    status: PropertyStatus::Pending,
                    verified_by: None,
                    valued_by: None,
                },
            ),
            milestones: with_fresh_stages(
                self.milestones,
                self.next_id,
                MILESTONE_COUNT as nat,
            ),
            outbox: self.outbox.push(
                Effect::Publish(Event::Submitted { id: self.next_id, trustee }),
            ),
            ..self
        }
    }

    pub open spec fn evidence_refusal(self, trustee: Address, property_id: u64, stage: u32) -> Option<
        Error,
    > {
        if !has_role(self.trustees, trustee) {
            Some(Error::NotTrustee)
        } else if !self.properties.contains_key(property_id) {
            Some(Error::UnknownProperty)
        } else if self.properties[property_id].trustee != trustee {
            Some(Error::NotTrustee)
        } else if self.milestone_refusal(property_id, stage) is Some {
            self.milestone_refusal(property_id, stage)
        } else if self.milestone(property_id, stage).verified {
            Some(Error::AlreadyVerified)
        } else {
            None
        }
    }

    /// The register with a stage's evidence replaced.
    pub open spec fn evidenced(self, property_id: u64, stage: u32, evidence_hash: Digest) -> Self {
        self.with_milestone(
            property_id,
            Milestone { evidence_hash, ..self.milestone(property_id, stage) },
            Event::Evidence { property_id, stage, evidence_hash },
        )
    }

    // --- oracles ---

    pub open spec fn title_refusal(self, oracle: Address, property_id: u64) -> Option<Error> {
        if !has_role(self.oracles, oracle) {
            Some(Error::NotOracle)
        } else if !self.properties.contains_key(property_id) {
            Some(Error::UnknownProperty)
        } else if self.properties[property_id].status != PropertyStatus::Pending {
            Some(Error::WrongStatus)
        } else if self.properties[property_id].trustee == oracle {
            Some(Error::NotAuthorized)
        } else {
            None
        }
    }

    /// The register with a title confirmed.
    pub open spec fn titled(self, oracle: Address, property_id: u64) -> Self {
        let confirmed = self.with_property(
            Property {
                status: PropertyStatus::Verified,
                verified_by: Some(oracle),
                ..self.properties[property_id]
            },
            Event::Title { property_id, oracle },
        );
        PropertyRegistryModel {
            outbox: confirmed.outbox.push(
                Effect::Publish(
                    Event::Status { property_id, status: PropertyStatus::Verified },
                ),
            ),
            ..confirmed
        }
    }

    pub open spec fn valuation_refusal(self, oracle: Address, property_id: u64, usdc_value: i128) -> Option<
        Error,
    > {
        if !has_role(self.oracles, oracle) {
            Some(Error::NotOracle)
        } else if usdc_value <= 0 {
            Some(Error::InvalidValuation)
        } else if !self.properties.contains_key(property_id) {
            Some(Error::UnknownProperty)
        } else if self.properties[property_id].trustee == oracle {
            Some(Error::NotAuthorized)
        } else if self.properties[property_id].status == PropertyStatus::Pending {
            Some(Error::WrongStatus)
        } else {
            None
        }
    }

    /// The register with a valuation recorded.
    pub open spec fn valued(self, oracle: Address, property_id: u64, usdc_value: i128) -> Self {
        self.with_property(
            Property { usdc_value, valued_by: Some(oracle), ..self.properties[property_id] },
            Event::Valuation { property_id, oracle, usdc_value },
        )
    }

    pub open spec fn verify_refusal(self, oracle: Address, property_id: u64, stage: u32) -> Option<
        Error,
    > {
        if !has_role(self.oracles, oracle) {
            Some(Error::NotOracle)
        } else if !self.properties.contains_key(property_id) {
            Some(Error::UnknownProperty)
        } else if self.properties[property_id].trustee == oracle {
            Some(Error::NotAuthorized)
        } else if self.milestone_refusal(property_id, stage) is Some {
            self.milestone_refusal(property_id, stage)
        } else if self.milestone(property_id, stage).verified {
            Some(Error::AlreadyVerified)
        } else if self.milestone(property_id, stage).evidence_hash.is_zero() {
            Some(Error::NoEvidence)
        } else if stage > 0 && self.milestone_refusal(property_id, (stage - 1) as u32) is Some {
            self.milestone_refusal(property_id, (stage - 1) as u32)
        } else if stage > 0 && !self.milestone(property_id, (stage - 1) as u32).verified {
            Some(Error::OutOfOrder)
        } else {
            None
        }
    }

    /// The register with a stage signed off.
    pub open spec fn signed_off(self, oracle: Address, property_id: u64, stage: u32) -> Self {
        self.with_milestone(
            property_id,
            Milestone {
                verified: true,
                verified_by: Some(oracle),
                ..self.milestone(property_id, stage)
            },
            Event::Verified { property_id, stage, oracle },
        )
    }

    // --- the mortgage pool ---

    pub open spec fn release_refusal(self, caller: Address, property_id: u64, stage: u32) -> Option<
        Error,
    > {
        if self.caller_refusal(caller) is Some {
            self.caller_refusal(caller)
        } else if self.milestone_refusal(property_id, stage) is Some {
            self.milestone_refusal(property_id, stage)
        } else if !self.milestone(property_id, stage).verified {
            Some(Error::WrongStatus)
        } else if self.milestone(property_id, stage).released {
            Some(Error::AlreadyVerified)
        } else {
            None
        }
    }

    /// The register with a stage paid out.
    pub open spec fn released(self, property_id: u64, stage: u32) -> Self {
        self.with_milestone(
            property_id,
            Milestone { released: true, ..self.milestone(property_id, stage) },
            Event::Released { property_id, stage },
        )
    }

    /// Whether the mortgage pool may move a property from one status to another.
    pub open spec fn may_move(from: PropertyStatus, to: PropertyStatus) -> bool {
        match to {
            PropertyStatus::Mortgaged => from == PropertyStatus::Verified,
            PropertyStatus::Repaid => from == PropertyStatus::Mortgaged,
            PropertyStatus::Defaulted => from == PropertyStatus::Mortgaged,
            PropertyStatus::Pending => false,
            PropertyStatus::Verified => false,
        }
    }

    pub open spec fn transition_refusal(
        self,
        caller: Address,
        property_id: u64,
        status: PropertyStatus,
    ) -> Option<Error> {
        if self.caller_refusal(caller) is Some {
            self.caller_refusal(caller)
        } else if !self.properties.contains_key(property_id) {
            Some(Error::UnknownProperty)
        } else if !Self::may_move(self.properties[property_id].status, status) {
            Some(Error::WrongStatus)
        } else {
            None
        }
    }

    /// The register with a property moved to `status`.
    pub open spec fn transitioned(self, property_id: u64, status: PropertyStatus) -> Self {
        self.with_property(
            Property { status, ..self.properties[property_id] },
            Event::Status { property_id, status },
        )
    }
}

impl PropertyRegistryContract {
    /// The registry as it is deployed: empty and not yet wired.
    pub fn new(admin: Address, timelock_secs: u64) -> (registry: Self)
        ensures
            registry@ == PropertyRegistryModel::deployed(admin, timelock_secs),
    {
        PropertyRegistryContract {
            governance: Governance::new(admin, timelock_secs),
            mortgage_pool: None,
            next_id: 1,
            trustees: Table::new(),
            oracles: Table::new(),
            properties: Table::new(),
            milestones: Table::new(),
            outbox: Vec::new(),
        }
    }

    // --- Administration ---
    /// Register the mortgage pool. Can be set only once: rewiring it later would
    /// let the admin point the registry at a contract that marks any stage funded.
    pub fn set_mortgage_pool(&mut self, env: &Env, admin: &Address, mortgage_pool: &Address) -> (r: Result<
        (),
        Error,
    >)
        requires
            env.authorizes(*admin),
        ensures
            r == outcome(old(self)@.set_mortgage_pool_refusal(*admin)),
            r is Err ==> final(self)@ == old(self)@,
            r is Ok ==> final(self)@ == old(self)@.wired_to(*mortgage_pool),
    {
        match self.governance.require_admin(admin) {
            Err(e) => return Err(Error::from_governance(e)),
            Ok(()) => {},
        }
        if self.mortgage_pool.is_some() {
            return Err(Error::AlreadySet);
        }
        self.mortgage_pool = Some(*mortgage_pool);
        Ok(())
    }

    /// Authorize or revoke a trustee, the party that submits a property and holds
    /// it in trust.
    pub fn set_trustee(&mut self, env: &Env, admin: &Address, trustee: &Address, authorized: bool)
        -> (r: Result<(), Error>)
        requires
            env.authorizes(*admin),
        ensures
            r == admin_outcome(old(self)@.governance.admin_refusal(*admin)),
            r is Err ==> final(self)@ == old(self)@,
            r is Ok ==> final(self)@ == old(self)@.with_trustee(*trustee, authorized),
    {
        match self.governance.require_admin(admin) {
            Err(e) => return Err(Error::from_governance(e)),
            Ok(()) => {},
        }
        Self::set_role(&mut self.trustees, trustee, authorized);
        self.outbox.push(Effect::Publish(Event::Trustee { trustee: *trustee, authorized }));
        Ok(())
    }

    /// Authorize or revoke an oracle: the land registry check, the surveyor's
    /// valuation and the milestone inspection all run through this role.
    pub fn set_oracle(&mut self, env: &Env, admin: &Address, oracle: &Address, authorized: bool)
        -> (r: Result<(), Error>)
        requires
            env.authorizes(*admin),
        ensures
            r == admin_outcome(old(self)@.governance.admin_refusal(*admin)),
            r is Err ==> final(self)@ == old(self)@,
            r is Ok ==> final(self)@ == old(self)@.with_oracle(*oracle, authorized),
    {
        match self.governance.require_admin(admin) {
            Err(e) => return Err(Error::from_governance(e)),
            Ok(()) => {},
        }
        Self::set_role(&mut self.oracles, oracle, authorized);
        self.outbox.push(Effect::Publish(Event::Oracle { oracle: *oracle, authorized }));
        Ok(())
    }

    /// Put an upgrade in the queue, to execute once the timelock has elapsed.
    pub fn schedule_action(&mut self, env: &Env, admin: &Address, action: Action) -> (r: Result<
        (),
        Error,
    >)
        requires
            env.authorizes(*admin),
            old(self)@.schedule_fits(*admin, env.timestamp),
        ensures
            r == outcome(old(self)@.schedule_refusal(*admin)),
            r is Err ==> final(self)@ == old(self)@,
            r is Ok ==> final(self)@ == (PropertyRegistryModel {
                governance: old(self)@.governance.with_queued(action, env.timestamp),
                ..old(self)@
            }),
    {
        match self.governance.require_idle(admin) {
            Err(e) => return Err(Error::from_governance(e)),
            Ok(()) => {},
        }
        match self.governance.schedule(action, env.timestamp) {
            Err(e) => Err(Error::from_governance(e)),
            Ok(()) => Ok(()),
        }
    }

    /// Carry out the scheduled action once its timelock has elapsed.
    pub fn execute_action(&mut self, env: &Env, admin: &Address) -> (r: Result<(), Error>)
        requires
            env.authorizes(*admin),
        ensures
            r == admin_outcome(old(self)@.governance.execute_refusal(*admin, env.timestamp)),
            r is Err ==> final(self)@ == old(self)@,
            r is Ok ==> final(self)@ == old(self)@.executed(),
    {
        match self.governance.due(admin, env.timestamp) {
            Err(e) => Err(Error::from_governance(e)),
            Ok(Action::Upgrade(wasm_hash)) => {
                self.governance.scheduled = None;
                self.outbox.push(Effect::Upgrade(wasm_hash));
                Ok(())
            },
        }
    }

    /// Withdraw the scheduled action before it executes.
    pub fn cancel_action(&mut self, env: &Env, admin: &Address) -> (r: Result<(), Error>)
        requires
            env.authorizes(*admin),
        ensures
            r == admin_outcome(old(self)@.governance.cancel_refusal(*admin)),
            r is Err ==> final(self)@ == old(self)@,
            r is Ok ==> final(self)@ == (PropertyRegistryModel {
                governance: old(self)@.governance.with_nothing_scheduled(),
                ..old(self)@
            }),
    {
        match self.governance.cancel(admin) {
            Err(e) => Err(Error::from_governance(e)),
            Ok(()) => Ok(()),
        }
    }

    /// Begin handing the admin role to `new_admin`. Nothing changes until the
    /// new admin accepts.
    pub fn propose_admin(&mut self, env: &Env, admin: &Address, new_admin: &Address) -> (r: Result<
        (),
        Error,
    >)
        requires
            env.authorizes(*admin),
        ensures
            r == admin_outcome(old(self)@.governance.admin_refusal(*admin)),
            r is Err ==> final(self)@ == old(self)@,
            r is Ok ==> final(self)@ == (PropertyRegistryModel {
                governance: old(self)@.governance.with_proposed(*new_admin),
                ..old(self)@
            }),
    {
        match self.governance.propose(admin, new_admin) {
            Err(e) => Err(Error::from_governance(e)),
            Ok(()) => Ok(()),
        }
    }

    /// Complete a handover proposed by the current admin.
    pub fn accept_admin(&mut self, env: &Env, new_admin: &Address) -> (r: Result<(), Error>)
        requires
            env.authorizes(*new_admin),
        ensures
            r == admin_outcome(old(self)@.governance.accept_refusal(*new_admin)),
            r is Err ==> final(self)@ == old(self)@,
            r is Ok ==> final(self)@ == (PropertyRegistryModel {
                governance: old(self)@.governance.with_admin(*new_admin),
                ..old(self)@
            }),
    {
        match self.governance.accept(new_admin) {
            Err(e) => Err(Error::from_governance(e)),
            Ok(()) => Ok(()),
        }
    }

    // --- Trustee operations ---
    /// Submit a property for title verification. Returns its id.
    ///
    /// The construction stages are created here, empty, so the schedule a mortgage
    /// is underwritten against exists before anyone lends against it.
    pub fn submit_property(
        &mut self,
        env: &Env,
        trustee: &Address,
        title_hash: Digest,
        survey_doc_hash: Digest,
    ) -> (r: Result<u64, Error>)
        requires
            env.authorizes(*trustee),
            old(self)@.submit_fits(*trustee),
        ensures
            match old(self)@.submit_refusal(*trustee) {
                Some(refusal) => r == Err::<u64, _>(refusal) && final(self)@ == old(self)@,
                None => {
                    &&& r == Ok::<_, Error>(old(self)@.next_id)
                    &&& final(self)@ == old(self)@.submitted(*trustee, title_hash, survey_doc_hash)
                },
            },
    {
        self.require_trustee(trustee)?;
        let id: u64 = self.next_id;
        self.next_id = id + 1;
        self.properties.insert(
            id,
            Property {
                id,
                trustee: *trustee,
                title_hash,
                survey_doc_hash,
                usdc_value: 0,
                status: PropertyStatus::Pending,
                verified_by: None,
                valued_by: None,
            },
        );
        let mut stage: u32 = 0;
        while stage < MILESTONE_COUNT
            invariant
                stage <= MILESTONE_COUNT,
                self@ == (PropertyRegistryModel {
                    next_id: (old(self)@.next_id + 1) as u64,
                    properties: self@.properties,
                    milestones: with_fresh_stages(old(self)@.milestones, id, stage as nat),
                    ..old(self)@
                }),
                self@.properties == old(self)@.submitted(
                    *trustee,
                    title_hash,
                    survey_doc_hash,
                ).properties,
            decreases MILESTONE_COUNT - stage,
        {
            self.milestones.insert(
                StageOf { property: id, stage },
                Milestone {
                    stage,
                    evidence_hash: Digest::zero(),
                    verified: false,
                    released: false,
                    verified_by: None,
                },
            );
            stage = stage + 1;
        }
        self.outbox.push(Effect::Publish(Event::Submitted { id, trustee: *trustee }));
        Ok(id)
    }

    /// Submit evidence that a construction stage is complete, as the digest of the
    /// evidence bundle. Evidence may be replaced until it is verified, so a
    /// rejected submission can be corrected.
    pub fn submit_milestone_evidence(
        &mut self,
        env: &Env,
        trustee: &Address,
        property_id: u64,
        stage: u32,
        evidence_hash: Digest,
    ) -> (r: Result<(), Error>)
        requires
            env.authorizes(*trustee),
        ensures
            r == outcome(old(self)@.evidence_refusal(*trustee, property_id, stage)),
            r is Err ==> final(self)@ == old(self)@,
            r is Ok ==> final(self)@ == old(self)@.evidenced(property_id, stage, evidence_hash),
    {
        self.require_trustee(trustee)?;
        let property = self.property_of(property_id)?;
        if property.trustee != *trustee {
            return Err(Error::NotTrustee);
        }
        let mut milestone = self.milestone_of(property_id, stage)?;
        if milestone.verified {
            return Err(Error::AlreadyVerified);
        }
        milestone.evidence_hash = evidence_hash;
        self.save_milestone(property_id, milestone);
        self.outbox.push(Effect::Publish(Event::Evidence { property_id, stage, evidence_hash }));
        Ok(())
    }

    // --- Oracle operations ---
    /// Confirm the title against the land registry. A trustee cannot wave their
    /// own title through, even if the admin has granted them both roles.
    pub fn verify_title(&mut self, env: &Env, oracle: &Address, property_id: u64) -> (r: Result<
        (),
        Error,
    >)
        requires
            env.authorizes(*oracle),
        ensures
            r == outcome(old(self)@.title_refusal(*oracle, property_id)),
            r is Err ==> final(self)@ == old(self)@,
            r is Ok ==> final(self)@ == old(self)@.titled(*oracle, property_id),
    {
        self.require_oracle(oracle)?;
        let mut property = self.property_of(property_id)?;
        if property.status != PropertyStatus::Pending {
            return Err(Error::WrongStatus);
        }
        if property.trustee == *oracle {
            return Err(Error::NotAuthorized);
        }
        property.status = PropertyStatus::Verified;
        property.verified_by = Some(*oracle);
        self.properties.insert(property.id, property);
        self.outbox.push(Effect::Publish(Event::Title { property_id, oracle: *oracle }));
        self.outbox.push(
            Effect::Publish(Event::Status { property_id, status: PropertyStatus::Verified }),
        );
        Ok(())
    }

    /// Record the surveyor's valuation. It may be refreshed during the build, but
    /// never recorded before the title is confirmed.
    pub fn set_valuation(&mut self, env: &Env, oracle: &Address, property_id: u64, usdc_value: i128)
        -> (r: Result<(), Error>)
        requires
            env.authorizes(*oracle),
        ensures
            r == outcome(old(self)@.valuation_refusal(*oracle, property_id, usdc_value)),
            r is Err ==> final(self)@ == old(self)@,
            r is Ok ==> final(self)@ == old(self)@.valued(*oracle, property_id, usdc_value),
    {
        self.require_oracle(oracle)?;
        if usdc_value <= 0 {
            return Err(Error::InvalidValuation);
        }
        let mut property = self.property_of(property_id)?;
        if property.trustee == *oracle {
            return Err(Error::NotAuthorized);
        }
        if property.status == PropertyStatus::Pending {
            return Err(Error::WrongStatus);
        }
        property.usdc_value = usdc_value;
        property.valued_by = Some(*oracle);
        self.properties.insert(property.id, property);
        self.outbox.push(
            Effect::Publish(Event::Valuation { property_id, oracle: *oracle, usdc_value }),
        );
        Ok(())
    }

    /// Sign off a construction stage, which is what lets the mortgage pool release
    /// that stage's tranche. Stages are signed off in order.
    pub fn verify_milestone(&mut self, env: &Env, oracle: &Address, property_id: u64, stage: u32)
        -> (r: Result<(), Error>)
        requires
            env.authorizes(*oracle),
        ensures
            r == outcome(old(self)@.verify_refusal(*oracle, property_id, stage)),
            r is Err ==> final(self)@ == old(self)@,
            r is Ok ==> final(self)@ == old(self)@.signed_off(*oracle, property_id, stage),
    {
        self.require_oracle(oracle)?;
        let property = self.property_of(property_id)?;
        if property.trustee == *oracle {
            return Err(Error::NotAuthorized);
        }
        let mut milestone = self.milestone_of(property_id, stage)?;
        if milestone.verified {
            return Err(Error::AlreadyVerified);
        }
        if milestone.evidence_hash == Digest::zero() {
            return Err(Error::NoEvidence);
        }
        if stage > 0 {
            let before = self.milestone_of(property_id, stage - 1)?;
            if !before.verified {
                return Err(Error::OutOfOrder);
            }
        }
        milestone.verified = true;
        milestone.verified_by = Some(*oracle);
        self.save_milestone(property_id, milestone);
        self.outbox.push(
            Effect::Publish(Event::Verified { property_id, stage, oracle: *oracle }),
        );
        Ok(())
    }

    // --- Mortgage pool callbacks ---
    /// Record that a stage's tranche has been paid out. This is what stops the same
    /// stage funding twice.
    pub fn mark_released(&mut self, env: &Env, caller: &Address, property_id: u64, stage: u32)
        -> (r: Result<(), Error>)
        requires
            env.authorizes(*caller),
        ensures
            r == outcome(old(self)@.release_refusal(*caller, property_id, stage)),
            r is Err ==> final(self)@ == old(self)@,
            r is Ok ==> final(self)@ == old(self)@.released(property_id, stage),
    {
        self.require_pool(caller)?;
        let mut milestone = self.milestone_of(property_id, stage)?;
        if !milestone.verified {
            return Err(Error::WrongStatus);
        }
        if milestone.released {
            return Err(Error::AlreadyVerified);
        }
        milestone.released = true;
        self.save_milestone(property_id, milestone);
        self.outbox.push(Effect::Publish(Event::Released { property_id, stage }));
        Ok(())
    }

    /// Record that a mortgage against this property has been funded. Only the mortgage pool may say so.
    pub fn mark_mortgaged(&mut self, env: &Env, caller: &Address, property_id: u64) -> (r: Result<
        (),
        Error,
    >)
        requires
            env.authorizes(*caller),
        ensures
            r == outcome(
                old(self)@.transition_refusal(*caller, property_id, PropertyStatus::Mortgaged),
            ),
            r is Err ==> final(self)@ == old(self)@,
            r is Ok ==> final(self)@ == old(self)@.transitioned(
                property_id,
                PropertyStatus::Mortgaged,
            ),
    {
        self.transition(env, caller, property_id, PropertyStatus::Mortgaged)
    }

    /// Record that the mortgage was paid off. Only the mortgage pool may say so.
    pub fn mark_repaid(&mut self, env: &Env, caller: &Address, property_id: u64) -> (r: Result<
        (),
        Error,
    >)
        requires
            env.authorizes(*caller),
        ensures
            r == outcome(
                old(self)@.transition_refusal(*caller, property_id, PropertyStatus::Repaid),
            ),
            r is Err ==> final(self)@ == old(self)@,
            r is Ok ==> final(self)@ == old(self)@.transitioned(
                property_id,
                PropertyStatus::Repaid,
            ),
    {
        self.transition(env, caller, property_id, PropertyStatus::Repaid)
    }

    /// Record that the mortgage defaulted. Only the mortgage pool may say so.
    pub fn mark_defaulted(&mut self, env: &Env, caller: &Address, property_id: u64) -> (r: Result<
        (),
        Error,
    >)
        requires
            env.authorizes(*caller),
        ensures
            r == outcome(
                old(self)@.transition_refusal(*caller, property_id, PropertyStatus::Defaulted),
            ),
            r is Err ==> final(self)@ == old(self)@,
            r is Ok ==> final(self)@ == old(self)@.transitioned(
                property_id,
                PropertyStatus::Defaulted,
            ),
    {
        self.transition(env, caller, property_id, PropertyStatus::Defaulted)
    }

    // --- Ranges ---
    /// Whether [`Self::schedule_action`] stays within range.
    pub fn schedule_in_range(&self, env: &Env, admin: &Address) -> (r: bool)
        ensures
            r == self@.schedule_fits(*admin, env.timestamp),
    {
        self.governance.require_idle(admin).is_err() || self.governance.eta_in_range(env.timestamp)
    }

    /// Whether [`Self::submit_property`] stays within range.
    pub fn submit_in_range(&self, trustee: &Address) -> (r: bool)
        ensures
            r == self@.submit_fits(*trustee),
    {
        self.require_trustee(trustee).is_err() || self.next_id < u64::MAX
    }

    // --- Getters ---
    pub fn get_property(&self, property_id: u64) -> (r: Result<Property, Error>)
        ensures
            r == (if self@.properties.contains_key(property_id) {
                Ok(self@.properties[property_id])
            } else {
                Err(Error::UnknownProperty)
            }),
    {
        self.property_of(property_id)
    }

    pub fn get_status_of(&self, property_id: u64) -> (r: Result<PropertyStatus, Error>)
        ensures
            r == (if self@.properties.contains_key(property_id) {
                Ok(self@.properties[property_id].status)
            } else {
                Err(Error::UnknownProperty)
            }),
    {
        let property = self.property_of(property_id)?;
        Ok(property.status)
    }

    pub fn get_milestone(&self, property_id: u64, stage: u32) -> (r: Result<Milestone, Error>)
        ensures
            r == (match self@.milestone_refusal(property_id, stage) {
                Some(refusal) => Err(refusal),
                None => Ok(self@.milestone(property_id, stage)),
            }),
    {
        self.milestone_of(property_id, stage)
    }

    /// What the mortgage pool needs to decide whether it may lend against a
    /// property: the trustee, the valuation, and whether the title is verified and
    /// the property not yet financed.
    pub fn lending_terms(&self, property_id: u64) -> (r: Result<(Address, i128, bool), Error>)
        ensures
            r == self@.terms_of(property_id),
    {
        let property = self.property_of(property_id)?;
        Ok(
            (
                property.trustee,
                property.usdc_value,
                property.status == PropertyStatus::Verified,
            ),
        )
    }

    /// Whether a stage is signed off and not yet paid out.
    pub fn is_releasable(&self, property_id: u64, stage: u32) -> (r: Result<bool, Error>)
        ensures
            r == self@.releasable(property_id, stage),
    {
        let milestone = self.milestone_of(property_id, stage)?;
        Ok(milestone.verified && !milestone.released)
    }

    /// How many stages have been signed off, for progress display.
    pub fn verified_stage_count(&self, property_id: u64) -> (r: Result<u32, Error>)
        ensures
            if forall|stage: u32|
                stage < MILESTONE_COUNT ==> #[trigger] self@.milestones.contains_key(
                    StageOf { property: property_id, stage },
                ) {
                r is Ok && r->Ok_0 == verified_stages(
                    self@.milestones,
                    property_id,
                    MILESTONE_COUNT as nat,
                )
            } else {
                r == Err::<u32, _>(Error::UnknownProperty)
            },
    {
        let mut count: u32 = 0;
        let mut stage: u32 = 0;
        while stage < MILESTONE_COUNT
            invariant
                count <= stage <= MILESTONE_COUNT,
                count == verified_stages(self@.milestones, property_id, stage as nat),
                forall|s: u32|
                    s < stage ==> #[trigger] self@.milestones.contains_key(
                        StageOf { property: property_id, stage: s },
                    ),
            decreases MILESTONE_COUNT - stage,
        {
            let milestone = self.milestone_of(property_id, stage)?;
            if milestone.verified {
                count = count + 1;
            }
            stage = stage + 1;
        }
        Ok(count)
    }

    pub fn is_trustee(&self, trustee: &Address) -> (r: bool)
        ensures
            r == has_role(self@.trustees, *trustee),
    {
        match self.trustees.get(*trustee) {
            Some(authorized) => authorized,
            None => false,
        }
    }

    pub fn is_oracle(&self, oracle: &Address) -> (r: bool)
        ensures
            r == has_role(self@.oracles, *oracle),
    {
        match self.oracles.get(*oracle) {
            Some(authorized) => authorized,
            None => false,
        }
    }

    pub fn get_admin(&self) -> (r: Address)
        requires
            self@.governance.admin is Some,
        ensures
            r == self@.governance.admin->0,
    {
        self.governance.admin.unwrap()
    }

    pub fn get_mortgage_pool(&self) -> (r: Option<Address>)
        ensures
            r == self@.mortgage_pool,
    {
        self.mortgage_pool
    }

    pub fn get_scheduled_action(&self) -> (r: Option<ScheduledAction>)
        ensures
            r == self@.governance.scheduled,
    {
        self.governance.scheduled
    }

    pub fn get_timelock_secs(&self) -> (r: u64)
        ensures
            r == (match self@.governance.timelock_secs {
                Some(secs) => secs,
                None => 0,
            }),
    {
        match self.governance.timelock_secs {
            Some(secs) => secs,
            None => 0,
        }
    }

    pub fn get_next_id(&self) -> (r: u64)
        ensures
            r == self@.next_id,
    {
        self.next_id
    }

    pub fn get_milestone_count() -> (r: u32)
        ensures
            r == 5,
    {
        MILESTONE_COUNT
    }

    // --- Internals ---
    fn set_role(roles: &mut Table<Address, bool>, party: &Address, authorized: bool)
        ensures
            final(roles)@ == with_role(old(roles)@, *party, authorized),
    {
        if authorized {
            roles.insert(*party, true);
        } else {
            roles.remove(*party);
        }
    }

    fn property_of(&self, property_id: u64) -> (r: Result<Property, Error>)
        ensures
            r == (if self@.properties.contains_key(property_id) {
                Ok(self@.properties[property_id])
            } else {
                Err(Error::UnknownProperty)
            }),
    {
        match self.properties.get(property_id) {
            Some(property) => Ok(property),
            None => Err(Error::UnknownProperty),
        }
    }

    fn milestone_of(&self, property_id: u64, stage: u32) -> (r: Result<Milestone, Error>)
        ensures
            r == (match self@.milestone_refusal(property_id, stage) {
                Some(refusal) => Err(refusal),
                None => Ok(self@.milestone(property_id, stage)),
            }),
    {
        if stage >= MILESTONE_COUNT {
            return Err(Error::InvalidStage);
        }
        match self.milestones.get(StageOf { property: property_id, stage }) {
            Some(milestone) => Ok(milestone),
            None => Err(Error::UnknownProperty),
        }
    }

    fn save_milestone(&mut self, property_id: u64, milestone: Milestone)
        ensures
            final(self)@ == (PropertyRegistryModel {
                milestones: old(self)@.milestones.insert(
                    StageOf { property: property_id, stage: milestone.stage },
                    milestone,
                ),
                ..old(self)@
            }),
    {
        self.milestones.insert(
            StageOf { property: property_id, stage: milestone.stage },
            milestone,
        );
    }

    /// The one path that moves a financed property's status, so the legal
    /// transitions are stated in a single place.
    pub fn transition(
        &mut self,
        env: &Env,
        caller: &Address,
        property_id: u64,
        status: PropertyStatus,
    ) -> (r: Result<(), Error>)
        requires
            env.authorizes(*caller),
        ensures
            r == outcome(old(self)@.transition_refusal(*caller, property_id, status)),
            r is Err ==> final(self)@ == old(self)@,
            r is Ok ==> final(self)@ == old(self)@.transitioned(property_id, status),
    {
        self.require_pool(caller)?;
        let mut property = self.property_of(property_id)?;
        let allowed = match status {
            PropertyStatus::Mortgaged => property.status == PropertyStatus::Verified,
            PropertyStatus::Repaid => property.status == PropertyStatus::Mortgaged,
            PropertyStatus::Defaulted => property.status == PropertyStatus::Mortgaged,
            // Pending and Verified are the registry's own to set.
            PropertyStatus::Pending => false,
            PropertyStatus::Verified => false,
        };
        if !allowed {
            return Err(Error::WrongStatus);
        }
        property.status = status;
        self.properties.insert(property.id, property);
        self.outbox.push(Effect::Publish(Event::Status { property_id, status }));
        Ok(())
    }

    fn require_trustee(&self, trustee: &Address) -> (r: Result<(), Error>)
        ensures
            r == outcome(self@.submit_refusal(*trustee)),
    {
        if !self.is_trustee(trustee) {
            return Err(Error::NotTrustee);
        }
        Ok(())
    }

    fn require_oracle(&self, oracle: &Address) -> (r: Result<(), Error>)
        ensures
            r == (if has_role(self@.oracles, *oracle) {
                Ok(())
            } else {
                Err(Error::NotOracle)
            }),
    {
        if !self.is_oracle(oracle) {
            return Err(Error::NotOracle);
        }
        Ok(())
    }

    fn require_pool(&self, caller: &Address) -> (r: Result<(), Error>)
        ensures
            r == outcome(self@.caller_refusal(*caller)),
    {
        match self.mortgage_pool {
            None => Err(Error::MortgagePoolNotSet),
            Some(pool) => if *caller != pool {
                Err(Error::NotAuthorized)
            } else {
                Ok(())
            },
        }
    }
}

} // verus!
