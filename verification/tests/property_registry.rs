use stellar_homes::host::{Address, AddressKind, Digest, Env};
use stellar_homes::property_registry::{
    Action, Effect, Error, Event, PropertyRegistryContract, PropertyStatus, MILESTONE_COUNT,
};

const TIMELOCK: u64 = 172_800;

fn account(n: u128) -> Address {
    Address { kind: AddressKind::Account, id: Digest { high: 0, low: n } }
}

fn contract(n: u128) -> Address {
    Address { kind: AddressKind::Contract, id: Digest { high: 0, low: n } }
}

fn hash(byte: u8) -> Digest {
    let half = u128::from_be_bytes([byte; 16]);
    Digest { high: half, low: half }
}

struct Setup {
    now: u64,
    registry: PropertyRegistryContract,
    admin: Address,
    pool: Address,
    trustee: Address,
    oracle: Address,
}

impl Setup {
    fn env(&self, who: &Address) -> Env {
        Env { timestamp: self.now, contract: contract(9), authorizations: vec![*who] }
    }

    fn set_trustee(&mut self, admin: Address, who: Address, yes: bool) -> Result<(), Error> {
        let env = self.env(&admin);
        self.registry.set_trustee(&env, &admin, &who, yes)
    }

    fn set_oracle(&mut self, admin: Address, who: Address, yes: bool) -> Result<(), Error> {
        let env = self.env(&admin);
        self.registry.set_oracle(&env, &admin, &who, yes)
    }

    fn submit(&mut self, who: Address) -> Result<u64, Error> {
        let env = self.env(&who);
        assert!(self.registry.submit_in_range(&who));
        self.registry.submit_property(&env, &who, hash(1), hash(2))
    }

    fn evidence(&mut self, who: Address, id: u64, stage: u32, h: Digest) -> Result<(), Error> {
        let env = self.env(&who);
        self.registry.submit_milestone_evidence(&env, &who, id, stage, h)
    }

    fn title(&mut self, who: Address, id: u64) -> Result<(), Error> {
        let env = self.env(&who);
        self.registry.verify_title(&env, &who, id)
    }

    fn value(&mut self, who: Address, id: u64, value: i128) -> Result<(), Error> {
        let env = self.env(&who);
        self.registry.set_valuation(&env, &who, id, value)
    }

    fn verify(&mut self, who: Address, id: u64, stage: u32) -> Result<(), Error> {
        let env = self.env(&who);
        self.registry.verify_milestone(&env, &who, id, stage)
    }

    fn release(&mut self, who: Address, id: u64, stage: u32) -> Result<(), Error> {
        let env = self.env(&who);
        self.registry.mark_released(&env, &who, id, stage)
    }

    fn mortgaged(&mut self, who: Address, id: u64) -> Result<(), Error> {
        let env = self.env(&who);
        self.registry.mark_mortgaged(&env, &who, id)
    }

    fn repaid(&mut self, who: Address, id: u64) -> Result<(), Error> {
        let env = self.env(&who);
        self.registry.mark_repaid(&env, &who, id)
    }

    fn defaulted(&mut self, who: Address, id: u64) -> Result<(), Error> {
        let env = self.env(&who);
        self.registry.mark_defaulted(&env, &who, id)
    }
}

fn setup() -> Setup {
    let admin = account(1);
    let pool = contract(2);
    let trustee = account(3);
    let oracle = account(4);
    let registry = PropertyRegistryContract::new(admin, TIMELOCK);
    let mut s = Setup { now: 0, registry, admin, pool, trustee, oracle };
    let env = s.env(&admin);
    s.registry.set_mortgage_pool(&env, &admin, &pool).unwrap();
    s.set_trustee(admin, trustee, true).unwrap();
    s.set_oracle(admin, oracle, true).unwrap();
    s
}

/// Submit a property and clear its title, the usual starting point.
fn verified_property(s: &mut Setup) -> u64 {
    let id = s.submit(s.trustee).unwrap();
    s.title(s.oracle, id).unwrap();
    s.value(s.oracle, id, 100_000).unwrap();
    id
}

/// Sign off every stage up to and including `through`.
fn verify_through(s: &mut Setup, property: u64, through: u32) {
    for stage in 0..=through {
        s.evidence(s.trustee, property, stage, hash(10 + stage as u8)).unwrap();
        s.verify(s.oracle, property, stage).unwrap();
    }
}

#[test]
fn test_constructor_sets_configuration_at_deploy() {
    let s = setup();
    assert_eq!(s.registry.get_admin(), s.admin);
    assert_eq!(s.registry.get_timelock_secs(), TIMELOCK);
    assert_eq!(s.registry.get_next_id(), 1);
    assert_eq!(s.registry.get_mortgage_pool(), Some(s.pool));
    assert_eq!(PropertyRegistryContract::get_milestone_count(), MILESTONE_COUNT);
}

#[test]
fn test_submitting_a_property_creates_its_build_schedule() {
    let mut s = setup();
    let id = s.submit(s.trustee).unwrap();

    let property = s.registry.get_property(id).unwrap();
    assert_eq!(property.id, 1);
    assert_eq!(property.trustee, s.trustee);
    assert_eq!(property.title_hash, hash(1));
    assert_eq!(property.survey_doc_hash, hash(2));
    assert_eq!(property.status, PropertyStatus::Pending);
    assert_eq!(property.usdc_value, 0);

    // All five stages exist before anyone lends against the build.
    for stage in 0..MILESTONE_COUNT {
        let milestone = s.registry.get_milestone(id, stage).unwrap();
        assert_eq!(milestone.stage, stage);
        assert!(!milestone.verified);
        assert!(!milestone.released);
    }
    // And no sixth.
    assert_eq!(s.registry.get_milestone(id, MILESTONE_COUNT), Err(Error::InvalidStage));
}

#[test]
fn test_only_registered_trustees_can_submit() {
    let mut s = setup();
    let stranger = account(99);
    assert_eq!(s.submit(stranger), Err(Error::NotTrustee));

    // Revocation takes effect on the next invocation.
    s.set_trustee(s.admin, s.trustee, false).unwrap();
    assert!(!s.registry.is_trustee(&s.trustee));
    assert_eq!(s.submit(s.trustee), Err(Error::NotTrustee));
}

#[test]
fn test_a_valuation_needs_a_verified_title_first() {
    let mut s = setup();
    let id = s.submit(s.trustee).unwrap();

    // A valuation on an unchecked title is worth nothing.
    assert_eq!(s.value(s.oracle, id, 100_000), Err(Error::WrongStatus));

    s.title(s.oracle, id).unwrap();
    assert_eq!(s.registry.get_status_of(id), Ok(PropertyStatus::Verified));

    s.value(s.oracle, id, 100_000).unwrap();
    let property = s.registry.get_property(id).unwrap();
    assert_eq!(property.usdc_value, 100_000);
    assert_eq!(property.valued_by, Some(s.oracle));
    assert_eq!(property.verified_by, Some(s.oracle));

    // A title is checked once.
    assert_eq!(s.title(s.oracle, id), Err(Error::WrongStatus));
    // Nonsense valuations are refused.
    assert_eq!(s.value(s.oracle, id, 0), Err(Error::InvalidValuation));
    assert_eq!(s.value(s.oracle, id, -1), Err(Error::InvalidValuation));
}

#[test]
fn test_a_trustee_cannot_verify_their_own_property() {
    let mut s = setup();
    // Even holding both roles.
    s.set_oracle(s.admin, s.trustee, true).unwrap();
    let id = s.submit(s.trustee).unwrap();

    assert_eq!(s.title(s.trustee, id), Err(Error::NotAuthorized));
    s.title(s.oracle, id).unwrap();
    assert_eq!(s.value(s.trustee, id, 100_000), Err(Error::NotAuthorized));

    s.evidence(s.trustee, id, 0, hash(9)).unwrap();
    assert_eq!(s.verify(s.trustee, id, 0), Err(Error::NotAuthorized));
}

#[test]
fn test_a_milestone_needs_evidence_before_it_is_signed_off() {
    let mut s = setup();
    let id = verified_property(&mut s);

    assert_eq!(s.verify(s.oracle, id, 0), Err(Error::NoEvidence));

    s.evidence(s.trustee, id, 0, hash(7)).unwrap();
    s.verify(s.oracle, id, 0).unwrap();

    let milestone = s.registry.get_milestone(id, 0).unwrap();
    assert!(milestone.verified);
    assert_eq!(milestone.evidence_hash, hash(7));
    assert_eq!(milestone.verified_by, Some(s.oracle));

    // Signed off once, and the evidence is then frozen.
    assert_eq!(s.verify(s.oracle, id, 0), Err(Error::AlreadyVerified));
    assert_eq!(s.evidence(s.trustee, id, 0, hash(8)), Err(Error::AlreadyVerified));
}

#[test]
fn test_evidence_can_be_corrected_until_it_is_verified() {
    let mut s = setup();
    let id = verified_property(&mut s);

    s.evidence(s.trustee, id, 0, hash(7)).unwrap();
    // A rejected submission can be replaced.
    s.evidence(s.trustee, id, 0, hash(8)).unwrap();
    assert_eq!(s.registry.get_milestone(id, 0).unwrap().evidence_hash, hash(8));
}

#[test]
fn test_stages_are_signed_off_in_order() {
    let mut s = setup();
    let id = verified_property(&mut s);

    // Evidence for the roof exists, but the foundation has not passed.
    s.evidence(s.trustee, id, 2, hash(12)).unwrap();
    assert_eq!(s.verify(s.oracle, id, 2), Err(Error::OutOfOrder));

    verify_through(&mut s, id, 1);
    // Now the roof can be inspected.
    s.verify(s.oracle, id, 2).unwrap();
    assert_eq!(s.registry.verified_stage_count(id), Ok(3));
}

#[test]
fn test_only_the_properties_own_trustee_submits_its_evidence() {
    let mut s = setup();
    let other = account(50);
    s.set_trustee(s.admin, other, true).unwrap();
    let id = verified_property(&mut s);

    assert_eq!(s.evidence(other, id, 0, hash(7)), Err(Error::NotTrustee));
}

#[test]
fn test_release_is_recorded_once_and_only_by_the_pool() {
    let mut s = setup();
    let id = verified_property(&mut s);
    verify_through(&mut s, id, 0);

    assert_eq!(s.registry.is_releasable(id, 0), Ok(true));
    // Not signed off yet.
    assert_eq!(s.registry.is_releasable(id, 1), Ok(false));

    let stranger = account(99);
    assert_eq!(s.release(stranger, id, 0), Err(Error::NotAuthorized));
    assert_eq!(s.release(s.admin, id, 0), Err(Error::NotAuthorized));
    // An unverified stage cannot be released.
    assert_eq!(s.release(s.pool, id, 1), Err(Error::WrongStatus));

    s.release(s.pool, id, 0).unwrap();
    assert!(s.registry.get_milestone(id, 0).unwrap().released);
    // A stage funds once.
    assert_eq!(s.registry.is_releasable(id, 0), Ok(false));
    assert_eq!(s.release(s.pool, id, 0), Err(Error::AlreadyVerified));
}

#[test]
fn test_financed_status_only_moves_along_the_allowed_path() {
    let mut s = setup();
    let id = verified_property(&mut s);
    let stranger = account(99);

    // Only the wired pool may move a financed property.
    assert_eq!(s.mortgaged(stranger, id), Err(Error::NotAuthorized));
    assert_eq!(s.mortgaged(s.admin, id), Err(Error::NotAuthorized));
    // Cannot skip straight to repaid.
    assert_eq!(s.repaid(s.pool, id), Err(Error::WrongStatus));

    s.mortgaged(s.pool, id).unwrap();
    assert_eq!(s.registry.get_status_of(id), Ok(PropertyStatus::Mortgaged));
    // Not twice.
    assert_eq!(s.mortgaged(s.pool, id), Err(Error::WrongStatus));

    s.repaid(s.pool, id).unwrap();
    assert_eq!(s.registry.get_status_of(id), Ok(PropertyStatus::Repaid));
    // Terminal.
    assert_eq!(s.defaulted(s.pool, id), Err(Error::WrongStatus));
}

#[test]
fn test_lending_terms_report_what_the_pool_needs() {
    let mut s = setup();
    let id = s.submit(s.trustee).unwrap();

    let (trustee, valuation, verified) = s.registry.lending_terms(id).unwrap();
    assert_eq!(trustee, s.trustee);
    assert_eq!(valuation, 0);
    assert!(!verified);

    s.title(s.oracle, id).unwrap();
    s.value(s.oracle, id, 250_000).unwrap();
    let (_, valuation, verified) = s.registry.lending_terms(id).unwrap();
    assert_eq!(valuation, 250_000);
    assert!(verified);

    // Once financed, the property is no longer available to lend against.
    s.mortgaged(s.pool, id).unwrap();
    let (_, _, verified) = s.registry.lending_terms(id).unwrap();
    assert!(!verified);
}

#[test]
fn test_unknown_properties_and_stages_are_rejected() {
    let mut s = setup();
    assert_eq!(s.registry.get_property(99), Err(Error::UnknownProperty));
    assert_eq!(s.title(s.oracle, 99), Err(Error::UnknownProperty));
    assert_eq!(s.registry.get_milestone(99, 0), Err(Error::UnknownProperty));

    let id = verified_property(&mut s);
    assert_eq!(s.registry.get_milestone(id, MILESTONE_COUNT), Err(Error::InvalidStage));
    assert_eq!(
        s.evidence(s.trustee, id, MILESTONE_COUNT, hash(1)),
        Err(Error::InvalidStage)
    );
}

#[test]
fn test_wiring_is_set_once() {
    let mut s = setup();
    let other = contract(98);
    let env = s.env(&s.admin);
    assert_eq!(s.registry.set_mortgage_pool(&env, &s.admin, &other), Err(Error::AlreadySet));
    assert_eq!(s.registry.get_mortgage_pool(), Some(s.pool));
}

#[test]
fn test_role_changes_are_admin_only() {
    let mut s = setup();
    let stranger = account(99);
    assert_eq!(s.set_trustee(stranger, stranger, true), Err(Error::NotAuthorized));
    assert_eq!(s.set_oracle(stranger, stranger, true), Err(Error::NotAuthorized));
    assert!(!s.registry.is_trustee(&stranger));
    assert!(!s.registry.is_oracle(&stranger));
}

#[test]
fn test_upgrades_wait_out_the_timelock() {
    let mut s = setup();
    let action = Action::Upgrade(hash(3));

    s.now = 1_000;
    let env = s.env(&s.admin);
    assert!(s.registry.schedule_in_range(&env, &s.admin));
    s.registry.schedule_action(&env, &s.admin, action).unwrap();
    assert_eq!(s.registry.get_scheduled_action().unwrap().eta, 1_000 + TIMELOCK);
    // One at a time, so a queued upgrade stays visible.
    assert_eq!(s.registry.schedule_action(&env, &s.admin, action), Err(Error::ActionPending));

    s.now = 1_000 + TIMELOCK - 1;
    let env = s.env(&s.admin);
    assert_eq!(s.registry.execute_action(&env, &s.admin), Err(Error::TimelockNotExpired));

    s.registry.cancel_action(&env, &s.admin).unwrap();
    assert_eq!(s.registry.get_scheduled_action(), None);
    assert_eq!(s.registry.cancel_action(&env, &s.admin), Err(Error::NoPendingAction));
}

#[test]
fn test_admin_handover_is_two_step() {
    let mut s = setup();
    let new_admin = account(60);
    let stranger = account(61);

    let env = s.env(&s.admin);
    s.registry.propose_admin(&env, &s.admin, &new_admin).unwrap();
    assert_eq!(s.registry.get_admin(), s.admin);
    let env = s.env(&stranger);
    assert_eq!(s.registry.accept_admin(&env, &stranger), Err(Error::NotAuthorized));

    let env = s.env(&new_admin);
    s.registry.accept_admin(&env, &new_admin).unwrap();
    assert_eq!(s.registry.get_admin(), new_admin);

    let someone = account(62);
    assert_eq!(s.set_trustee(s.admin, someone, true), Err(Error::NotAuthorized));
    s.set_trustee(new_admin, someone, true).unwrap();
    assert!(s.registry.is_trustee(&someone));
}

// --- further cases ---

#[test]
fn oracles_that_were_revoked_are_refused() {
    let mut s = setup();
    let id = s.submit(s.trustee).unwrap();
    s.set_oracle(s.admin, s.oracle, false).unwrap();
    assert!(!s.registry.is_oracle(&s.oracle));
    assert_eq!(s.title(s.oracle, id), Err(Error::NotOracle));
    assert_eq!(s.value(s.oracle, id, 1), Err(Error::NotOracle));
    assert_eq!(s.verify(s.oracle, id, 0), Err(Error::NotOracle));
}

#[test]
fn a_defaulted_property_stays_defaulted() {
    let mut s = setup();
    let id = verified_property(&mut s);
    s.mortgaged(s.pool, id).unwrap();
    // A valuation may be refreshed during the build.
    s.value(s.oracle, id, 120_000).unwrap();
    s.defaulted(s.pool, id).unwrap();
    assert_eq!(s.registry.get_status_of(id), Ok(PropertyStatus::Defaulted));
    assert_eq!(s.mortgaged(s.pool, id), Err(Error::WrongStatus));
    assert_eq!(s.repaid(s.pool, id), Err(Error::WrongStatus));
    assert_eq!(s.mortgaged(s.pool, 7), Err(Error::UnknownProperty));
}

#[test]
fn ids_count_up_and_schedules_are_kept_apart() {
    let mut s = setup();
    let one = verified_property(&mut s);
    let two = verified_property(&mut s);
    assert_eq!((one, two), (1, 2));
    assert_eq!(s.registry.get_next_id(), 3);
    verify_through(&mut s, one, 4);
    assert_eq!(s.registry.verified_stage_count(one), Ok(5));
    assert_eq!(s.registry.verified_stage_count(two), Ok(0));
    assert_eq!(s.registry.verified_stage_count(3), Err(Error::UnknownProperty));
    assert_eq!(s.registry.get_status_of(3), Err(Error::UnknownProperty));
    assert_eq!(s.registry.lending_terms(3), Err(Error::UnknownProperty));
    assert_eq!(s.registry.is_releasable(3, 0), Err(Error::UnknownProperty));
}

#[test]
fn a_registry_that_is_not_wired_takes_no_instructions() {
    let mut s = setup();
    let id = verified_property(&mut s);
    s.registry.mortgage_pool = None;
    assert_eq!(s.release(s.pool, id, 0), Err(Error::MortgagePoolNotSet));
    assert_eq!(s.mortgaged(s.pool, id), Err(Error::MortgagePoolNotSet));
    s.registry.governance.admin = None;
    assert_eq!(s.set_trustee(s.admin, s.trustee, true), Err(Error::NotInitialized));
}

#[test]
fn what_happens_is_published_in_order() {
    let mut s = setup();
    s.registry.outbox.clear();
    let id = s.submit(s.trustee).unwrap();
    s.title(s.oracle, id).unwrap();
    s.value(s.oracle, id, 5).unwrap();
    s.evidence(s.trustee, id, 0, hash(7)).unwrap();
    s.verify(s.oracle, id, 0).unwrap();
    s.release(s.pool, id, 0).unwrap();
    s.mortgaged(s.pool, id).unwrap();
    let events: Vec<Effect> = vec![
        Effect::Publish(Event::Submitted { id, trustee: s.trustee }),
        Effect::Publish(Event::Title { property_id: id, oracle: s.oracle }),
        Effect::Publish(Event::Status { property_id: id, status: PropertyStatus::Verified }),
        Effect::Publish(Event::Valuation { property_id: id, oracle: s.oracle, usdc_value: 5 }),
        Effect::Publish(Event::Evidence { property_id: id, stage: 0, evidence_hash: hash(7) }),
        Effect::Publish(Event::Verified { property_id: id, stage: 0, oracle: s.oracle }),
        Effect::Publish(Event::Released { property_id: id, stage: 0 }),
        Effect::Publish(Event::Status { property_id: id, status: PropertyStatus::Mortgaged }),
    ];
    assert_eq!(s.registry.outbox, events);
}

#[test]
fn a_refused_call_publishes_nothing() {
    let mut s = setup();
    let id = verified_property(&mut s);
    s.registry.outbox.clear();
    assert!(s.verify(s.oracle, id, 0).is_err());
    assert!(s.release(s.pool, id, 0).is_err());
    assert!(s.value(s.oracle, id, 0).is_err());
    assert!(s.registry.outbox.is_empty());
}

#[test]
fn registry_errors_keep_their_numbers() {
    assert_eq!(Error::UnknownProperty.code(), 8);
    assert_eq!(Error::NotTrustee.code(), 9);
    assert_eq!(Error::NotOracle.code(), 10);
    assert_eq!(Error::MortgagePoolNotSet.code(), 17);
}

#[test]
fn no_move_is_allowed_but_along_the_path() {
    let all = [
        PropertyStatus::Pending,
        PropertyStatus::Verified,
        PropertyStatus::Mortgaged,
        PropertyStatus::Repaid,
        PropertyStatus::Defaulted,
    ];
    for from in all {
        for to in all {
            let mut s = setup();
            let id = s.submit(s.trustee).unwrap();
            let mut property = s.registry.get_property(id).unwrap();
            property.status = from;
            s.registry.properties.insert(id, property);
            let stranger = account(99);
            let env = s.env(&stranger);
            assert_eq!(
                s.registry.transition(&env, &stranger, id, to),
                Err(Error::NotAuthorized)
            );
            let env = s.env(&s.pool);
            let allowed = matches!(
                (from, to),
                (PropertyStatus::Verified, PropertyStatus::Mortgaged)
                    | (PropertyStatus::Mortgaged, PropertyStatus::Repaid)
                    | (PropertyStatus::Mortgaged, PropertyStatus::Defaulted)
            );
            if allowed {
                s.registry.transition(&env, &s.pool, id, to).unwrap();
                property.status = to;
            } else {
                assert_eq!(
                    s.registry.transition(&env, &s.pool, id, to),
                    Err(Error::WrongStatus)
                );
            }
            assert_eq!(s.registry.get_property(id), Ok(property));
        }
    }
}
