use stellar_homes::host::{Address, AddressKind, Digest, Env, Transfer};
use stellar_homes::lending_pool;
use stellar_homes::lending_pool::LendingPoolContract;
use stellar_homes::mortgage_pool::{
    Action, Effect, Error, Event, LendingTerms, Mortgage, MortgagePoolContract, MortgageStatus,
    PoolCall, RegistryCall, RegistryQuery, StageReport, MILESTONE_COUNT,
};
use stellar_homes::property_registry::{PropertyRegistryContract, PropertyStatus};

const TIMELOCK: u64 = 172_800;
const GRACE: u64 = 1_209_600; // 14 days
const MONTH: u64 = 30 * 24 * 60 * 60;
const VALUATION: i128 = 100_000;
const PRINCIPAL: i128 = 50_000;
const TERM: u32 = 120;
const RATE_BPS: u32 = 850; // 8.5%

fn account(n: u128) -> Address {
    Address { kind: AddressKind::Account, id: Digest { high: 0, low: n } }
}

fn contract(n: u128) -> Address {
    Address { kind: AddressKind::Contract, id: Digest { high: 0, low: n } }
}

fn hash(byte: u8) -> Digest {
    let half = u128::from_be_bytes([byte; 16]);
    Digest { high: half, low: half }
}

/// Balances in the settlement asset.
struct Bank {
    balances: Vec<(Address, i128)>,
}

impl Bank {
    fn balance(&self, who: &Address) -> i128 {
        self.balances.iter().find(|(a, _)| a == who).map_or(0, |(_, b)| *b)
    }

    fn add(&mut self, who: &Address, amount: i128) {
        match self.balances.iter_mut().find(|(a, _)| a == who) {
            Some((_, b)) => *b += amount,
            None => self.balances.push((*who, amount)),
        }
    }

    fn carry_out(&mut self, t: &Transfer) {
        assert!(self.balance(&t.from) >= t.amount);
        self.add(&t.from, -t.amount);
        self.add(&t.to, t.amount);
    }
}

struct Setup {
    now: u64,
    pool_address: Address,
    registry_address: Address,
    lending_address: Address,
    pool: MortgagePoolContract,
    registry: PropertyRegistryContract,
    lending: LendingPoolContract,
    usdc: Bank,
    admin: Address,
    underwriter: Address,
    trustee: Address,
    oracle: Address,
    borrower: Address,
    investor: Address,
    property: u64,
}

impl Setup {
    fn env(&self, who: &Address) -> Env {
        Env { timestamp: self.now, contract: self.pool_address, authorizations: vec![*who] }
    }

    fn registry_env(&self, who: &Address) -> Env {
        Env { timestamp: self.now, contract: self.registry_address, authorizations: vec![*who] }
    }

    fn lending_env(&self, who: &Address) -> Env {
        Env { timestamp: self.now, contract: self.lending_address, authorizations: vec![*who] }
    }

    /// Carry out what the mortgage pool has asked for, in order.
    fn carry_out(&mut self) {
        let this = self.pool_address;
        for effect in std::mem::take(&mut self.pool.outbox) {
            match effect {
                Effect::CallRegistry { registry, notice } => {
                    assert_eq!(registry, self.registry_address);
                    let env = self.registry_env(&this);
                    match notice {
                        RegistryCall::MarkReleased { property_id, stage } => {
                            self.registry.mark_released(&env, &this, property_id, stage)
                        }
                        RegistryCall::MarkMortgaged { property_id } => {
                            self.registry.mark_mortgaged(&env, &this, property_id)
                        }
                        RegistryCall::MarkRepaid { property_id } => {
                            self.registry.mark_repaid(&env, &this, property_id)
                        }
                        RegistryCall::MarkDefaulted { property_id } => {
                            self.registry.mark_defaulted(&env, &this, property_id)
                        }
                    }
                    .unwrap();
                }
                Effect::CallPool { pool, call } => {
                    assert_eq!(pool, self.lending_address);
                    let env = self.lending_env(&this);
                    match call {
                        PoolCall::Reserve { amount } => self.lending.reserve(&env, &this, amount),
                        PoolCall::Unreserve { amount } => {
                            self.lending.unreserve(&env, &this, amount)
                        }
                        PoolCall::Disburse { to, amount } => {
                            self.lending.disburse(&env, &this, &to, amount)
                        }
                        PoolCall::Repay { from, principal, interest } => {
                            self.lending.repay(&env, &this, &from, principal, interest)
                        }
                        PoolCall::WriteOff { principal } => {
                            self.lending.write_off(&env, &this, principal)
                        }
                    }
                    .unwrap();
                }
                Effect::Publish(_) => {}
                Effect::Upgrade(_) => {}
            }
        }
        self.pay();
    }

    /// Make the payments the lending pool has asked for.
    fn pay(&mut self) {
        for effect in std::mem::take(&mut self.lending.outbox) {
            if let lending_pool::Effect::Transfer(t) = effect {
                self.usdc.carry_out(&t);
            }
        }
    }

    fn terms(&self, query: &RegistryQuery) -> LendingTerms {
        assert_eq!(query.registry, self.registry_address);
        let (trustee, usdc_value, verified) =
            self.registry.lending_terms(query.property_id).unwrap();
        LendingTerms { property_id: query.property_id, trustee, usdc_value, verified }
    }

    fn apply(
        &mut self,
        borrower: Address,
        property: u64,
        principal: i128,
        term: u32,
        rate: u32,
    ) -> Result<u64, Error> {
        let query = self.pool.before_apply(property, principal, term, rate)?;
        let terms = self.terms(&query);
        let env = self.env(&borrower);
        assert!(self.pool.apply_in_range(property, principal, term, rate, &terms));
        self.pool.apply(&env, &borrower, property, principal, term, rate, &terms)
    }

    fn approve(&mut self, who: Address, id: u64) -> Result<(), Error> {
        let query = self.pool.before_approve(&who, id)?;
        let terms = self.terms(&query);
        let env = self.env(&who);
        assert!(self.pool.approve_in_range(&who, id, &terms));
        let r = self.pool.approve(&env, &who, id, &terms);
        self.carry_out();
        r
    }

    fn decline(&mut self, who: Address, id: u64) -> Result<(), Error> {
        let env = self.env(&who);
        self.pool.decline(&env, &who, id)
    }

    fn disburse(&mut self, id: u64, stage: u32) -> Result<i128, Error> {
        let query = self.pool.before_disburse(id)?;
        let releasable = self.registry.is_releasable(query.property_id, stage).unwrap();
        let trustee = self.terms(&query).trustee;
        let report = StageReport { property_id: query.property_id, stage, releasable, trustee };
        let env = self.env(&account(77));
        assert!(self.pool.disburse_in_range(&env, id, stage, &report));
        let r = self.pool.disburse(&env, id, stage, &report);
        self.carry_out();
        r
    }

    fn repay(&mut self, id: u64, amount: i128) -> Result<(), Error> {
        let payer = self.pool.before_repay(id, amount)?;
        let env = self.env(&payer);
        assert!(self.pool.repay_in_range(&env, id, amount));
        let r = self.pool.repay(&env, id, amount);
        self.carry_out();
        r
    }

    fn mark_default(&mut self, id: u64) -> Result<(), Error> {
        let env = self.env(&account(78));
        assert!(self.pool.default_in_range(&env, id));
        let r = self.pool.mark_default(&env, id);
        self.carry_out();
        r
    }

    fn current_balance(&self, id: u64) -> (i128, i128) {
        self.pool.current_balance(&self.env(&self.borrower), id).unwrap()
    }

    fn amount_due(&self, id: u64) -> i128 {
        self.pool.amount_due(&self.env(&self.borrower), id).unwrap()
    }

    fn payoff_amount(&self, id: u64) -> i128 {
        self.pool.payoff_amount(&self.env(&self.borrower), id).unwrap()
    }

    fn is_defaultable(&self, id: u64) -> bool {
        self.pool.is_defaultable(&self.env(&self.borrower), id).unwrap()
    }

    fn mortgage(&self, id: u64) -> Mortgage {
        self.pool.get_mortgage(id).unwrap()
    }

    fn withdraw(&mut self, amount: i128) -> Result<(), lending_pool::Error> {
        let env = self.lending_env(&self.investor);
        let r = self.lending.withdraw(&env, &self.investor, amount);
        self.pay();
        r
    }
}

fn setup() -> Setup {
    let admin = account(1);
    let underwriter = account(2);
    let trustee = account(3);
    let oracle = account(4);
    let borrower = account(5);
    let investor = account(6);
    let token = contract(10);
    let registry_address = contract(11);
    let lending_address = contract(12);
    let pool_address = contract(13);

    let mut usdc = Bank { balances: Vec::new() };
    usdc.add(&investor, 1_000_000);
    usdc.add(&borrower, 1_000_000);

    let registry = PropertyRegistryContract::new(admin, TIMELOCK);
    let lending = LendingPoolContract::new(admin, token, TIMELOCK);
    let pool =
        MortgagePoolContract::new(admin, registry_address, lending_address, GRACE, TIMELOCK);
    let mut s = Setup {
        now: 1_000_000,
        pool_address,
        registry_address,
        lending_address,
        pool,
        registry,
        lending,
        usdc,
        admin,
        underwriter,
        trustee,
        oracle,
        borrower,
        investor,
        property: 0,
    };

    let env = s.registry_env(&admin);
    s.registry.set_mortgage_pool(&env, &admin, &pool_address).unwrap();
    s.registry.set_trustee(&env, &admin, &trustee, true).unwrap();
    s.registry.set_oracle(&env, &admin, &oracle, true).unwrap();
    let env = s.lending_env(&admin);
    s.lending.set_mortgage_pool(&env, &admin, &pool_address).unwrap();
    let env = s.env(&admin);
    s.pool.set_underwriter(&env, &admin, &underwriter, true).unwrap();
    s.pool.outbox.clear();

    // Capital to lend, and a verified, valued property to lend against.
    let env = s.lending_env(&investor);
    s.lending.deposit(&env, &investor, 500_000).unwrap();
    s.pay();
    let env = s.registry_env(&trustee);
    s.property = s.registry.submit_property(&env, &trustee, hash(1), hash(2)).unwrap();
    let env = s.registry_env(&oracle);
    s.registry.verify_title(&env, &oracle, s.property).unwrap();
    s.registry.set_valuation(&env, &oracle, s.property, VALUATION).unwrap();
    s
}

/// Sign off stage `stage`, ready for its tranche to be drawn.
fn sign_off(s: &mut Setup, stage: u32) {
    let env = s.registry_env(&s.trustee);
    s.registry
        .submit_milestone_evidence(&env, &s.trustee, s.property, stage, hash(10 + stage as u8))
        .unwrap();
    let env = s.registry_env(&s.oracle);
    s.registry.verify_milestone(&env, &s.oracle, s.property, stage).unwrap();
}

/// An application on the usual terms.
fn applied(s: &mut Setup) -> u64 {
    s.apply(s.borrower, s.property, PRINCIPAL, TERM, RATE_BPS).unwrap()
}

/// An approved mortgage, nothing drawn yet.
fn approved(s: &mut Setup) -> u64 {
    let id = applied(s);
    s.approve(s.underwriter, id).unwrap();
    id
}

/// An approved mortgage with the first tranche drawn.
fn funded(s: &mut Setup) -> u64 {
    let id = approved(s);
    sign_off(s, 0);
    s.disburse(id, 0).unwrap();
    id
}

#[test]
fn test_mortgage_constructor_sets_configuration_at_deploy() {
    let s = setup();
    assert_eq!(s.pool.get_admin(), s.admin);
    assert_eq!(s.pool.get_grace_secs(), GRACE);
    assert_eq!(s.pool.get_timelock_secs(), TIMELOCK);
    assert_eq!(MortgagePoolContract::get_seconds_per_month(), MONTH);
}

#[test]
fn test_an_application_records_the_terms_without_committing_anything() {
    let mut s = setup();
    let id = applied(&mut s);

    let m = s.mortgage(id);
    assert_eq!(m.borrower, s.borrower);
    assert_eq!(m.principal, PRINCIPAL);
    assert_eq!(m.term_months, TERM);
    assert_eq!(m.rate_bps, RATE_BPS);
    assert_eq!(m.status, MortgageStatus::Applied);
    assert_eq!(m.outstanding, 0);
    assert_eq!(m.disbursed, 0);

    // Nothing is committed until an underwriter approves.
    assert_eq!(s.lending.available(), 500_000);
    assert_eq!(s.pool.mortgage_for_property(s.property), Some(id));
}

#[test]
fn test_lending_is_capped_at_the_valuation() {
    let mut s = setup();
    let ceiling = VALUATION * MortgagePoolContract::get_max_ltv_bps() / 10_000;

    assert_eq!(
        s.apply(s.borrower, s.property, ceiling + 1, TERM, RATE_BPS),
        Err(Error::ExceedsLtv)
    );
    // Exactly at the ceiling is fine.
    let id = s.apply(s.borrower, s.property, ceiling, TERM, RATE_BPS).unwrap();
    assert_eq!(s.mortgage(id).principal, ceiling);
}

#[test]
fn test_applications_are_refused_on_unverified_property_and_bad_terms() {
    let mut s = setup();

    // A property whose title has not been checked.
    let env = s.registry_env(&s.trustee);
    let draft = s.registry.submit_property(&env, &s.trustee, hash(3), hash(4)).unwrap();
    assert_eq!(
        s.apply(s.borrower, draft, 1_000, TERM, RATE_BPS),
        Err(Error::PropertyNotVerified)
    );

    assert_eq!(s.apply(s.borrower, s.property, 0, TERM, RATE_BPS), Err(Error::InvalidAmount));
    assert_eq!(
        s.apply(s.borrower, s.property, PRINCIPAL, 0, RATE_BPS),
        Err(Error::InvalidTerm)
    );
    // Above the rate ceiling.
    let max = MortgagePoolContract::get_max_rate_bps();
    assert_eq!(
        s.apply(s.borrower, s.property, PRINCIPAL, TERM, max + 1),
        Err(Error::InvalidRate)
    );
}

#[test]
fn test_one_property_backs_one_mortgage() {
    let mut s = setup();
    let id = approved(&mut s);

    let other = account(50);
    assert_eq!(
        s.apply(other, s.property, 1_000, TERM, RATE_BPS),
        Err(Error::PropertyHasMortgage)
    );

    // A declined application frees the property again.
    let _ = id;
    let mut fresh = setup();
    let declined = applied(&mut fresh);
    fresh.decline(fresh.underwriter, declined).unwrap();
    assert_eq!(fresh.pool.mortgage_for_property(fresh.property), None);
    applied(&mut fresh);
}

#[test]
fn test_approval_commits_the_whole_facility_before_anything_is_built() {
    let mut s = setup();
    let id = approved(&mut s);

    assert_eq!(s.mortgage(id).status, MortgageStatus::Approved);
    // The investor's capital is spoken for, so a borrower whose foundation
    // passes cannot find the money withdrawn.
    assert_eq!(s.lending.available(), 500_000 - PRINCIPAL);
    assert!(s.withdraw(500_000).is_err());
    s.withdraw(450_000).unwrap();

    // Nothing has reached anyone yet.
    assert_eq!(s.usdc.balance(&s.trustee), 0);
    assert_eq!(s.mortgage(id).outstanding, 0);
}

#[test]
fn test_approval_is_underwriter_only_and_happens_once() {
    let mut s = setup();
    let id = applied(&mut s);
    let stranger = account(99);

    assert_eq!(s.approve(stranger, id), Err(Error::NotAuthorized));
    assert_eq!(s.approve(s.admin, id), Err(Error::NotAuthorized));
    assert_eq!(s.approve(s.borrower, id), Err(Error::NotAuthorized));

    s.approve(s.underwriter, id).unwrap();
    assert_eq!(s.approve(s.underwriter, id), Err(Error::WrongStatus));
    assert_eq!(s.decline(s.underwriter, id), Err(Error::WrongStatus));
}

#[test]
fn test_money_follows_the_building() {
    let mut s = setup();
    let id = approved(&mut s);
    let tranche = PRINCIPAL / MILESTONE_COUNT as i128;

    // Nothing is releasable until an inspector signs the stage off.
    assert_eq!(s.disburse(id, 0), Err(Error::StageNotReleasable));

    sign_off(&mut s, 0);
    assert_eq!(s.disburse(id, 0), Ok(tranche));

    // The money goes to the trustee running the build, never the borrower.
    assert_eq!(s.usdc.balance(&s.trustee), tranche);
    assert_eq!(s.usdc.balance(&s.borrower), 1_000_000);

    let m = s.mortgage(id);
    assert_eq!(m.status, MortgageStatus::Funded);
    assert_eq!(m.disbursed, tranche);
    assert_eq!(m.outstanding, tranche);
    assert_eq!(s.registry.get_status_of(s.property), Ok(PropertyStatus::Mortgaged));

    // A stage draws once, and the next one is still locked.
    assert_eq!(s.disburse(id, 0), Err(Error::StageNotReleasable));
    assert_eq!(s.disburse(id, 1), Err(Error::StageNotReleasable));
}

#[test]
fn test_the_whole_facility_is_drawable_across_the_stages() {
    let mut s = setup();
    let id = approved(&mut s);

    let mut drawn = 0;
    for stage in 0..MILESTONE_COUNT {
        sign_off(&mut s, stage);
        drawn += s.disburse(id, stage).unwrap();
    }

    // Rounding does not strand any of the facility.
    assert_eq!(drawn, PRINCIPAL);
    assert_eq!(s.usdc.balance(&s.trustee), PRINCIPAL);
    assert_eq!(s.mortgage(id).disbursed, PRINCIPAL);
    assert_eq!(s.lending.pool_state().total_lent, PRINCIPAL);
    assert_eq!(s.lending.pool_state().total_reserved, 0);
}

#[test]
fn test_disbursement_is_permissionless_but_state_driven() {
    let mut s = setup();
    let id = approved(&mut s);
    sign_off(&mut s, 0);

    // A stranger draws it; the tranche still goes to the trustee.
    s.disburse(id, 0).unwrap();
    assert_eq!(s.usdc.balance(&s.trustee), PRINCIPAL / 5);
}

#[test]
fn test_interest_is_charged_only_on_what_has_been_drawn() {
    let mut s = setup();
    let id = funded(&mut s);
    let tranche = PRINCIPAL / 5;

    // One month on the first tranche only.
    s.now = 1_000_000 + MONTH;
    let (outstanding, interest) = s.current_balance(id);
    assert_eq!(outstanding, tranche);
    // 10,000 * 8.5% / 12 = 70 (truncated).
    assert_eq!(interest, tranche * RATE_BPS as i128 / (10_000 * 12));

    // The undrawn four fifths cost nothing.
    assert!(interest < PRINCIPAL * RATE_BPS as i128 / (10_000 * 12));
}

#[test]
fn test_interest_accrues_in_whole_months_and_never_twice() {
    let mut s = setup();
    let id = funded(&mut s);
    let monthly = (PRINCIPAL / 5) * RATE_BPS as i128 / (10_000 * 12);

    // Part of a month costs nothing yet.
    s.now = 1_000_000 + MONTH - 1;
    assert_eq!(s.current_balance(id).1, 0);

    s.now = 1_000_000 + MONTH;
    assert_eq!(s.current_balance(id).1, monthly);

    // Reading it repeatedly does not charge it repeatedly.
    assert_eq!(s.current_balance(id).1, monthly);

    s.now = 1_000_000 + 3 * MONTH;
    // Three months costs slightly more than three truncated single months,
    // because the carry gives back what each division rounded away.
    assert!(s.current_balance(id).1 >= monthly * 3);
}

#[test]
fn test_interest_does_not_depend_on_how_often_it_is_charged() {
    // A borrower who pokes the contract every month must not end up owing less
    // than one who leaves it alone, so accrual has to be path-independent.
    let mut stepped = setup();
    let a = funded(&mut stepped);
    for month in 1..=6u64 {
        stepped.now = 1_000_000 + month * MONTH;
        // Reading the balance settles the accrual for that month.
        stepped.current_balance(a);
    }
    let charged_monthly = stepped.current_balance(a).1;

    let mut untouched = setup();
    let b = funded(&mut untouched);
    untouched.now = 1_000_000 + 6 * MONTH;
    let charged_at_once = untouched.current_balance(b).1;

    assert_eq!(charged_monthly, charged_at_once);
}

#[test]
fn test_a_payment_clears_interest_before_it_touches_principal() {
    let mut s = setup();
    let id = funded(&mut s);
    let tranche = PRINCIPAL / 5;
    s.now = 1_000_000 + MONTH;

    let interest = s.current_balance(id).1;
    let due = s.amount_due(id);
    // The instalment is the month's interest plus a slice of principal.
    assert_eq!(due, interest + PRINCIPAL / TERM as i128);

    s.repay(id, due).unwrap();

    let m = s.mortgage(id);
    assert_eq!(m.interest_accrued, 0);
    assert_eq!(m.interest_paid, interest);
    assert_eq!(m.outstanding, tranche - PRINCIPAL / TERM as i128);
    assert_eq!(m.payments_made, 1);
    assert_eq!(m.status, MortgageStatus::Repaying);

    // The investor earns the interest.
    assert_eq!(s.lending.claimable_interest(&s.investor), interest);
}

#[test]
fn test_a_payment_short_of_the_instalment_is_refused() {
    let mut s = setup();
    let id = funded(&mut s);
    s.now = 1_000_000 + MONTH;

    let due = s.amount_due(id);
    assert_eq!(s.repay(id, due - 1), Err(Error::Underpaid));
    assert_eq!(s.repay(id, 0), Err(Error::InvalidAmount));
    s.repay(id, due).unwrap();
}

#[test]
fn test_paying_more_than_due_shortens_the_loan() {
    let mut s = setup();
    let id = funded(&mut s);
    s.now = 1_000_000 + MONTH;

    let before = s.mortgage(id).outstanding;
    let due = s.amount_due(id);
    s.repay(id, due + 5_000).unwrap();

    let m = s.mortgage(id);
    // Everything above the instalment went to principal.
    assert_eq!(m.outstanding, before - (due - m.interest_paid) - 5_000);
}

#[test]
fn test_a_loan_can_be_paid_off_outright_at_any_time() {
    let mut s = setup();
    let id = funded(&mut s);
    s.now = 1_000_000 + MONTH;

    let payoff = s.payoff_amount(id);
    s.repay(id, payoff).unwrap();

    let m = s.mortgage(id);
    assert_eq!(m.status, MortgageStatus::PaidOff);
    assert_eq!(m.outstanding, 0);
    assert_eq!(m.interest_accrued, 0);

    // The property is released and the undrawn facility returned to the pool.
    assert_eq!(s.registry.get_status_of(s.property), Ok(PropertyStatus::Repaid));
    assert_eq!(s.pool.mortgage_for_property(s.property), None);
    assert_eq!(s.lending.pool_state().total_reserved, 0);
    assert_eq!(s.lending.pool_state().total_lent, 0);

    // A closed loan takes no more money.
    assert_eq!(s.repay(id, 100), Err(Error::WrongStatus));
}

#[test]
fn test_overpaying_a_payoff_takes_only_what_is_owed() {
    let mut s = setup();
    let id = funded(&mut s);
    s.now = 1_000_000 + MONTH;

    let payoff = s.payoff_amount(id);
    let before = s.usdc.balance(&s.borrower);
    s.repay(id, payoff * 2).unwrap();

    // Only the payoff was taken.
    assert_eq!(s.usdc.balance(&s.borrower), before - payoff);
    assert_eq!(s.mortgage(id).status, MortgageStatus::PaidOff);
}

#[test]
fn test_only_the_borrower_repays() {
    let mut s = setup();
    let id = funded(&mut s);
    s.now = 1_000_000 + MONTH;

    // The authorization that is asked for is the borrower's, and the money comes
    // from the borrower's account and nobody else's.
    let due = s.amount_due(id);
    let stranger = account(99);
    let before = s.usdc.balance(&s.borrower);
    assert_eq!(s.pool.before_repay(id, due), Ok(s.borrower));
    s.repay(id, due).unwrap();
    assert_eq!(s.usdc.balance(&s.borrower), before - due);
    assert_eq!(s.usdc.balance(&stranger), 0);
}

#[test]
fn test_a_loan_defaults_only_after_grace_has_run_out() {
    let mut s = setup();
    let id = funded(&mut s);

    // Current.
    assert!(!s.is_defaultable(id));
    assert_eq!(s.mark_default(id), Err(Error::NotInArrears));

    // Late, but inside grace.
    s.now = 1_000_000 + MONTH + GRACE;
    assert!(!s.is_defaultable(id));
    assert_eq!(s.mark_default(id), Err(Error::NotInArrears));

    // Past grace: anyone may write it off.
    s.now = 1_000_000 + MONTH + GRACE + 1;
    assert!(s.is_defaultable(id));
    s.mark_default(id).unwrap();

    let m = s.mortgage(id);
    assert_eq!(m.status, MortgageStatus::Defaulted);
    assert_eq!(s.registry.get_status_of(s.property), Ok(PropertyStatus::Defaulted));

    // The drawn balance is written off; the undrawn facility goes back.
    let state = s.lending.pool_state();
    assert_eq!(state.total_written_off, PRINCIPAL / 5);
    assert_eq!(state.total_reserved, 0);
    assert_eq!(state.total_lent, 0);

    // And it cannot be defaulted or repaid twice.
    assert_eq!(s.mark_default(id), Err(Error::WrongStatus));
    assert_eq!(s.repay(id, 1_000), Err(Error::WrongStatus));
}

#[test]
fn test_paying_on_time_keeps_a_loan_out_of_default() {
    let mut s = setup();
    let id = funded(&mut s);

    for month in 1..4u64 {
        s.now = 1_000_000 + month * MONTH;
        let due = s.amount_due(id);
        s.repay(id, due).unwrap();
        assert!(!s.is_defaultable(id));
    }
    assert_eq!(s.mortgage(id).payments_made, 3);
}

#[test]
fn test_an_undrawn_loan_cannot_default() {
    let mut s = setup();
    let id = approved(&mut s);

    // Nothing has been released, so no instalment has fallen due.
    s.now = 1_000_000 + 12 * MONTH;
    assert!(!s.is_defaultable(id));
    assert_eq!(s.mark_default(id), Err(Error::WrongStatus));
}

#[test]
fn test_the_pool_is_repaid_what_the_borrower_pays() {
    let mut s = setup();
    let id = funded(&mut s);
    let tranche = PRINCIPAL / 5;

    s.now = 1_000_000 + MONTH;
    let payoff = s.payoff_amount(id);
    let interest = s.current_balance(id).1;
    s.repay(id, payoff).unwrap();

    let state = s.lending.pool_state();
    // Principal came back to capital; interest is the investors' yield.
    assert_eq!(state.total_lent, 0);
    assert_eq!(state.total_capital, 500_000 - tranche + tranche);
    assert_eq!(state.total_interest, interest);
    let env = s.lending_env(&s.investor);
    assert_eq!(s.lending.claim_interest(&env, &s.investor), Ok(interest));
}

#[test]
fn test_grace_changes_wait_out_the_timelock() {
    let mut s = setup();
    let action = Action::SetGraceSecs(GRACE * 2);

    let env = s.env(&s.admin);
    assert!(s.pool.schedule_in_range(&env, &s.admin, action));
    s.pool.schedule_action(&env, &s.admin, action).unwrap();
    assert_eq!(s.pool.get_grace_secs(), GRACE);
    assert_eq!(s.pool.execute_action(&env, &s.admin), Err(Error::TimelockNotExpired));

    s.now = 1_000_000 + TIMELOCK;
    let env = s.env(&s.admin);
    s.pool.execute_action(&env, &s.admin).unwrap();
    assert_eq!(s.pool.get_grace_secs(), GRACE * 2);

    // A zero grace period is refused on the way in, not left to fail later.
    assert_eq!(
        s.pool.schedule_action(&env, &s.admin, Action::SetGraceSecs(0)),
        Err(Error::InvalidGrace)
    );
}

#[test]
fn test_test_upgrade_and_admin_handover_are_admin_only() {
    let mut s = setup();
    let stranger = account(99);
    let action = Action::Upgrade(hash(7));

    let env = s.env(&stranger);
    assert_eq!(s.pool.schedule_action(&env, &stranger, action), Err(Error::NotAuthorized));
    assert_eq!(s.pool.execute_action(&env, &stranger), Err(Error::NotAuthorized));
    assert_eq!(s.pool.cancel_action(&env, &stranger), Err(Error::NotAuthorized));
    assert_eq!(s.pool.propose_admin(&env, &stranger, &stranger), Err(Error::NotAuthorized));
    assert_eq!(
        s.pool.set_underwriter(&env, &stranger, &stranger, true),
        Err(Error::NotAuthorized)
    );
}

#[test]
fn test_mortgage_admin_handover_is_two_step() {
    let mut s = setup();
    let new_admin = account(60);
    let stranger = account(61);

    let env = s.env(&s.admin);
    s.pool.propose_admin(&env, &s.admin, &new_admin).unwrap();
    assert_eq!(s.pool.get_admin(), s.admin);
    let env = s.env(&stranger);
    assert_eq!(s.pool.accept_admin(&env, &stranger), Err(Error::NotAuthorized));

    let env = s.env(&new_admin);
    s.pool.accept_admin(&env, &new_admin).unwrap();
    assert_eq!(s.pool.get_admin(), new_admin);
    let env = s.env(&s.admin);
    assert_eq!(s.pool.propose_admin(&env, &s.admin, &s.admin), Err(Error::NotAuthorized));
}

#[test]
fn test_unknown_mortgages_are_rejected() {
    let mut s = setup();
    assert_eq!(s.pool.get_mortgage(99), Err(Error::UnknownMortgage));
    assert_eq!(s.repay(99, 100), Err(Error::UnknownMortgage));
    assert_eq!(s.disburse(99, 0), Err(Error::UnknownMortgage));
    assert_eq!(s.mark_default(99), Err(Error::UnknownMortgage));
}

// --- further cases ---

#[test]
fn a_build_draws_on_after_repayment_has_begun() {
    let mut s = setup();
    let id = funded(&mut s);

    // Month one: 70 of interest, with the rest of the division carried, and a
    // slice of 416.
    s.now = 1_000_000 + MONTH;
    assert_eq!(s.current_balance(id), (10_000, 70));
    assert_eq!(s.amount_due(id), 486);
    s.repay(id, 486).unwrap();
    let m = s.mortgage(id);
    assert_eq!(m.outstanding, 9_584);
    assert_eq!(m.interest_accrued, 0);
    assert_eq!(m.interest_carry, 100_000);

    // The walls tranche is drawn.
    sign_off(&mut s, 1);
    assert_eq!(s.disburse(id, 1), Ok(10_000));
    let m = s.mortgage(id);
    assert_eq!(m.outstanding, 19_584);
    assert_eq!(m.status, MortgageStatus::Repaying);
    assert_eq!(s.registry.get_status_of(s.property), Ok(PropertyStatus::Mortgaged));

    // Month two: interest on the larger balance, with the carry.
    s.now = 1_000_000 + 2 * MONTH;
    let interest = (19_584 * 850 + 100_000) / 120_000;
    assert_eq!(s.current_balance(id), (19_584, interest));
    assert_eq!(s.amount_due(id), interest + 416);
    assert!(s.amount_due(id) > 486);
}

#[test]
fn a_fully_drawn_loan_clears_on_schedule() {
    let mut s = setup();
    let id = approved(&mut s);
    for stage in 0..MILESTONE_COUNT {
        sign_off(&mut s, stage);
        s.disburse(id, stage).unwrap();
    }
    for month in 1..=TERM as u64 {
        s.now = 1_000_000 + month * MONTH;
        s.repay(id, s.amount_due(id)).unwrap();
        assert_eq!(s.mortgage(id).outstanding, PRINCIPAL - 416 * month as i128);
    }
    // What the division by the term left over is the final instalment.
    assert_eq!(s.mortgage(id).outstanding, 80);
    s.now += MONTH;
    s.repay(id, s.amount_due(id)).unwrap();
    assert_eq!(s.mortgage(id).status, MortgageStatus::PaidOff);
    assert_eq!(s.mortgage(id).payments_made, TERM + 1);
}

#[test]
fn a_loan_the_term_divides_clears_with_its_last_instalment() {
    let mut s = setup();
    let id = s.apply(s.borrower, s.property, 48_000, TERM, RATE_BPS).unwrap();
    s.approve(s.underwriter, id).unwrap();
    for stage in 0..MILESTONE_COUNT {
        sign_off(&mut s, stage);
        s.disburse(id, stage).unwrap();
    }
    for month in 1..=TERM as u64 {
        assert_eq!(s.mortgage(id).status == MortgageStatus::PaidOff, false);
        s.now = 1_000_000 + month * MONTH;
        s.repay(id, s.amount_due(id)).unwrap();
    }
    assert_eq!(s.mortgage(id).status, MortgageStatus::PaidOff);
}

#[test]
fn three_months_cost_the_same_however_they_are_charged() {
    let mut at_once = Mortgage {
        id: 1,
        property_id: 1,
        borrower: account(1),
        principal: 50_000,
        term_months: 120,
        rate_bps: 850,
        status: MortgageStatus::Funded,
        disbursed: 10_000,
        outstanding: 10_000,
        interest_accrued: 0,
        interest_carry: 0,
        total_repaid: 0,
        interest_paid: 0,
        payments_made: 0,
        last_accrued_at: 5,
        next_payment_due: 5 + MONTH,
        created_at: 1,
    };
    let mut stepped = at_once;
    MortgagePoolContract::accrue(&mut at_once, 5 + 3 * MONTH);
    assert_eq!(at_once.interest_accrued, 212);
    for t in [5 + MONTH - 1, 5 + MONTH, 5 + MONTH + 17, 5 + 2 * MONTH, 5 + 3 * MONTH] {
        MortgagePoolContract::accrue(&mut stepped, t);
        let once = stepped;
        MortgagePoolContract::accrue(&mut stepped, t);
        assert_eq!(stepped, once);
    }
    assert_eq!(stepped, at_once);
}

#[test]
fn awkward_facilities_are_drawable_to_the_last_unit() {
    let mut s = setup();
    let id = s.apply(s.borrower, s.property, 50_003, TERM, RATE_BPS).unwrap();
    assert_eq!(s.pool.tranche_amount(id, 0), Ok(10_000));
    assert_eq!(s.pool.tranche_amount(id, 3), Ok(10_000));
    assert_eq!(s.pool.tranche_amount(id, 4), Ok(10_003));
    assert_eq!(s.pool.tranche_amount(9, 0), Err(Error::UnknownMortgage));
    s.approve(s.underwriter, id).unwrap();
    let mut drawn = 0;
    for stage in 0..MILESTONE_COUNT {
        sign_off(&mut s, stage);
        drawn += s.disburse(id, stage).unwrap();
    }
    assert_eq!(drawn, 50_003);
    assert_eq!(s.lending.pool_state().total_reserved, 0);
}

#[test]
fn a_facility_too_small_for_a_tranche_draws_nothing() {
    let mut s = setup();
    let id = s.apply(s.borrower, s.property, 3, TERM, RATE_BPS).unwrap();
    s.approve(s.underwriter, id).unwrap();
    sign_off(&mut s, 0);
    assert_eq!(s.disburse(id, 0), Err(Error::NothingToDisburse));
}

#[test]
fn the_books_of_both_pools_agree() {
    let mut s = setup();
    let id = funded(&mut s);
    sign_off(&mut s, 1);
    s.disburse(id, 1).unwrap();
    s.now += MONTH;
    s.repay(id, s.amount_due(id)).unwrap();
    let m = s.mortgage(id);
    let state = s.lending.pool_state();
    assert_eq!(state.total_reserved, m.principal - m.disbursed);
    assert_eq!(state.total_lent, m.outstanding);
    assert_eq!(m.outstanding, m.disbursed - (m.total_repaid - m.interest_paid));
}

#[test]
fn a_revised_valuation_counts_at_approval() {
    let mut s = setup();
    let id = applied(&mut s);
    let env = s.registry_env(&s.oracle);
    s.registry.set_valuation(&env, &s.oracle, s.property, 60_000).unwrap();
    assert_eq!(s.approve(s.underwriter, id), Err(Error::ExceedsLtv));
    s.registry.set_valuation(&env, &s.oracle, s.property, 62_500).unwrap();
    s.approve(s.underwriter, id).unwrap();
}

#[test]
fn a_closed_property_cannot_be_financed_again() {
    let mut s = setup();
    let id = funded(&mut s);
    s.repay(id, s.payoff_amount(id)).unwrap();
    assert_eq!(
        s.apply(s.borrower, s.property, 1_000, TERM, RATE_BPS),
        Err(Error::PropertyNotVerified)
    );
}

#[test]
fn instructions_are_given_in_order() {
    let mut s = setup();
    let id = approved(&mut s);
    sign_off(&mut s, 0);
    let query = s.pool.before_disburse(id).unwrap();
    assert_eq!(
        query,
        RegistryQuery { registry: s.registry_address, property_id: s.property }
    );
    let report = StageReport {
        property_id: s.property,
        stage: 0,
        releasable: true,
        trustee: s.trustee,
    };
    let env = s.env(&s.trustee);
    s.pool.disburse(&env, id, 0, &report).unwrap();
    let (registry, pool) = (s.registry_address, s.lending_address);
    assert_eq!(
        s.pool.outbox,
        vec![
            Effect::CallRegistry {
                registry,
                notice: RegistryCall::MarkReleased { property_id: s.property, stage: 0 }
            },
            Effect::CallPool {
                pool,
                call: PoolCall::Disburse { to: s.trustee, amount: 10_000 }
            },
            Effect::CallRegistry {
                registry,
                notice: RegistryCall::MarkMortgaged { property_id: s.property }
            },
            Effect::Publish(Event::Disbursed {
                id,
                stage: 0,
                tranche: 10_000,
                trustee: s.trustee
            }),
        ]
    );
    s.carry_out();
    s.now += MONTH;
    let env = s.env(&s.borrower);
    s.pool.repay(&env, id, 20_000).unwrap();
    assert_eq!(
        s.pool.outbox,
        vec![
            Effect::CallPool {
                pool,
                call: PoolCall::Repay { from: s.borrower, principal: 10_000, interest: 70 }
            },
            Effect::CallPool { pool, call: PoolCall::Unreserve { amount: 40_000 } },
            Effect::CallRegistry {
                registry,
                notice: RegistryCall::MarkRepaid { property_id: s.property }
            },
            Effect::Publish(Event::Repaid {
                id,
                amount: 10_070,
                principal: 10_000,
                interest: 70
            }),
        ]
    );
}

#[test]
fn a_mortgage_pool_that_is_not_configured_says_so() {
    let mut s = setup();
    let id = funded(&mut s);
    s.pool.lending_pool = None;
    s.now += MONTH;
    assert_eq!(s.repay(id, 486), Err(Error::NotInitialized));
    s.now += GRACE + 1;
    assert_eq!(s.mark_default(id), Err(Error::NotInitialized));
    s.pool.lending_pool = Some(s.lending_address);
    s.pool.registry = None;
    // Only clearing the loan needs the registry.
    assert_eq!(s.repay(id, 20_000), Err(Error::NotInitialized));
    s.repay(id, 486).unwrap();
    assert_eq!(s.disburse(id, 1), Err(Error::NotInitialized));
    assert_eq!(s.pool.before_apply(7, 1, 1, 1), Err(Error::NotInitialized));
}

#[test]
fn underwriters_that_were_revoked_are_refused() {
    let mut s = setup();
    let id = applied(&mut s);
    let env = s.env(&s.admin);
    s.pool.set_underwriter(&env, &s.admin, &s.underwriter, false).unwrap();
    assert!(!s.pool.is_underwriter(&s.underwriter));
    assert_eq!(s.approve(s.underwriter, id), Err(Error::NotAuthorized));
    assert_eq!(s.decline(s.underwriter, id), Err(Error::NotAuthorized));
    assert_eq!(s.pool.get_registry(), s.registry_address);
    assert_eq!(s.pool.get_lending_pool(), s.lending_address);
}

#[test]
fn mortgage_amounts_out_of_range_are_noticed() {
    let mut s = setup();
    let id = funded(&mut s);
    let terms = LendingTerms {
        property_id: 9,
        trustee: s.trustee,
        usdc_value: i128::MAX,
        verified: true,
    };
    assert!(!s.pool.apply_in_range(9, 1, 1, 1, &terms));
    assert!(s.pool.apply_in_range(9, 0, 1, 1, &terms));
    let mut m = s.mortgage(id);
    m.interest_accrued = i128::MAX;
    s.pool.mortgages.insert(id, m);
    s.now += MONTH;
    let env = s.env(&s.borrower);
    assert!(!m.accrue_in_range(s.now));
    assert!(!m.payoff_in_range(s.now));
    assert!(!m.owed_in_range(s.now));
    assert!(!s.pool.repay_in_range(&env, id, 1));
    assert!(s.pool.repay_in_range(&env, id, 0));
    m.next_payment_due = u64::MAX;
    s.pool.mortgages.insert(id, m);
    assert!(!m.default_in_range(1));
    assert!(!s.pool.default_in_range(&env, id));
    s.now = u64::MAX;
    let env = s.env(&s.admin);
    assert!(!s.pool.schedule_in_range(&env, &s.admin, Action::Upgrade(hash(1))));
    assert!(s.pool.schedule_in_range(&env, &s.admin, Action::SetGraceSecs(0)));
}

#[test]
fn mortgage_errors_keep_their_numbers() {
    assert_eq!(Error::NoPendingAction.code(), 5);
    assert_eq!(Error::UnknownMortgage.code(), 8);
    assert_eq!(Error::NotBorrower.code(), 15);
    assert_eq!(Error::InvalidGrace.code(), 21);
}
