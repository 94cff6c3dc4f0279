//! MortgagePool: the loan itself. What was borrowed, what has been released
//! against the build, and what is still owed.
//!
//! A borrower applies against a property a trustee has registered and an oracle
//! has valued. Once underwriting approves the application, the principal is
//! committed against the lending pool's capital, but none of it reaches anyone
//! yet. It is released one construction stage at a time, and only for a stage an
//! inspector has signed off in the registry.
//!
//! This contract holds no funds. It decides what is owed and instructs the
//! lending pool to move money. What it needs to know of the registry is asked
//! for by a `before_` operation and handed to the operation proper.
//!
//! ## How interest is charged
//!
//! Interest accrues monthly on the principal actually outstanding, at the annual
//! rate fixed when the loan was applied for. Principal amortises in equal monthly
//! slices over the term. Only whole months are charged, and what the division
//! leaves over is carried, so any sequence of accruals over the same period comes
//! to exactly the same figure.

use crate::arith::{fits, quotient, remainder};
use crate::governance::{outcome, Governance, GovernanceError};
use crate::host::{Address, Digest, Env};
use crate::table::Table;
use vstd::prelude::*;

verus! {

/// Basis points in one whole.
pub const BPS_DENOMINATOR: i128 = 10_000;

/// Basis points in one whole, times the months of a year: what an annual rate in
/// basis points is divided by to give a month's charge.
pub const INTEREST_DIVISOR: i128 = 120_000;

/// A billing month, fixed at 30 days, in seconds.
pub const SECONDS_PER_MONTH: u64 = 2_592_000;

/// Construction stages. Must match the registry's: the principal is divided into
/// this many tranches.
pub const MILESTONE_COUNT: u32 = 5;

/// The most that may be lent against a property's valuation, in basis points.
pub const MAX_LTV_BPS: i128 = 8_000;

/// The highest annual rate the pool will write, in basis points.
pub const MAX_RATE_BPS: u32 = 3_000;

/// Why the mortgage pool refuses a call.
#[derive(Copy, Clone, Debug, PartialEq, Eq, PartialOrd, Ord, Structural)]
pub enum Error {
    NotInitialized,
    NotAuthorized,
    NoPendingAction,
    ActionPending,
    TimelockNotExpired,
    UnknownMortgage,
    WrongStatus,
    InvalidAmount,
    InvalidTerm,
    InvalidRate,
    PropertyNotVerified,
    ExceedsLtv,
    NotBorrower,
    StageNotReleasable,
    NothingToDisburse,
    Underpaid,
    NotInArrears,
    PropertyHasMortgage,
    InvalidGrace,
}

impl Error {
    /// The number the error is reported under.
    pub open spec fn number(self) -> u32 {
        match self {
            Error::NotInitialized => 2,
            Error::NotAuthorized => 3,
            Error::NoPendingAction => 5,
            Error::ActionPending => 6,
            Error::TimelockNotExpired => 7,
            Error::UnknownMortgage => 8,
            Error::WrongStatus => 9,
            Error::InvalidAmount => 10,
            Error::InvalidTerm => 11,
            Error::InvalidRate => 12,
            Error::PropertyNotVerified => 13,
            Error::ExceedsLtv => 14,
            Error::NotBorrower => 15,
            Error::StageNotReleasable => 16,
            Error::NothingToDisburse => 17,
            Error::Underpaid => 18,
            Error::NotInArrears => 19,
            Error::PropertyHasMortgage => 20,
            Error::InvalidGrace => 21,
        }
    }

    /// The contract's name for an administrative refusal.
    pub open spec fn of(refusal: GovernanceError) -> Error {
        match refusal {
            GovernanceError::NotInitialized => Error::NotInitialized,
            GovernanceError::NotAuthorized => Error::NotAuthorized,
            GovernanceError::NoPendingAction => Error::NoPendingAction,
            GovernanceError::ActionPending => Error::ActionPending,
            GovernanceError::TimelockNotExpired => Error::TimelockNotExpired,
        }
    }

    /// The number the error is reported under.
    pub fn code(&self) -> (r: u32)
        ensures
            r == self.number(),
    {
        match *self {
            Error::NotInitialized => 2,
            Error::NotAuthorized => 3,
            Error::NoPendingAction => 5,
            Error::ActionPending => 6,
            Error::TimelockNotExpired => 7,
            Error::UnknownMortgage => 8,
            Error::WrongStatus => 9,
            Error::InvalidAmount => 10,
            Error::InvalidTerm => 11,
            Error::InvalidRate => 12,
            Error::PropertyNotVerified => 13,
            Error::ExceedsLtv => 14,
            Error::NotBorrower => 15,
            Error::StageNotReleasable => 16,
            Error::NothingToDisburse => 17,
            Error::Underpaid => 18,
            Error::NotInArrears => 19,
            Error::PropertyHasMortgage => 20,
            Error::InvalidGrace => 21,
        }
    }

    fn from_governance(refusal: GovernanceError) -> (r: Error)
        ensures
            r == Error::of(refusal),
    {
        match refusal {
            GovernanceError::NotInitialized => Error::NotInitialized,
            GovernanceError::NotAuthorized => Error::NotAuthorized,
            GovernanceError::NoPendingAction => Error::NoPendingAction,
            GovernanceError::ActionPending => Error::ActionPending,
            GovernanceError::TimelockNotExpired => Error::TimelockNotExpired,
        }
    }
}

/// An administrative call's outcome, in the contract's own errors.
pub open spec fn admin_outcome(refusal: Option<GovernanceError>) -> Result<(), Error> {
    match refusal {
        Some(e) => Err(Error::of(e)),
        None => Ok(()),
    }
}

/// Where a loan stands.
#[derive(Copy, Clone, Debug, PartialEq, Eq, Structural)]
pub enum MortgageStatus {
    /// Submitted by the borrower, not yet underwritten.
    Applied,
    /// Approved; principal committed against the pool, nothing released.
    Approved,
    /// At least one tranche has been released.
    Funded,
    /// Repayment has begun.
    Repaying,
    /// Cleared in full.
    PaidOff,
    /// Written off after arrears ran past the grace period.
    Defaulted,
}

/// One mortgage.
///
/// `outstanding` is principal actually disbursed and not yet repaid, which is
/// what interest is charged on. `principal` is the whole facility, most of which
/// may still be undrawn.
#[derive(Copy, Clone, Debug, PartialEq, Eq, Structural)]
pub struct Mortgage {
    pub id: u64,
    pub property_id: u64,
    pub borrower: Address,
    /// The full approved facility.
    pub principal: i128,
    pub term_months: u32,
    /// Annual interest rate in basis points.
    pub rate_bps: u32,
    pub status: MortgageStatus,
    /// Released to the build so far.
    pub disbursed: i128,
    /// Disbursed principal not yet repaid; interest is charged on this.
    pub outstanding: i128,
    /// Interest charged and not yet paid.
    pub interest_accrued: i128,
    /// What the last accrual's division left over.
    pub interest_carry: i128,
    pub total_repaid: i128,
    pub interest_paid: i128,
    pub payments_made: u32,
    /// When interest was last brought up to date.
    pub last_accrued_at: u64,
    /// When the next instalment falls due. Zero until the first disbursement.
    pub next_payment_due: u64,
    pub created_at: u64,
}

/// What a loan owes, and up to when it has been charged.
pub ghost struct Balance {
    pub outstanding: int,
    pub interest: int,
    pub carry: int,
    pub accrued_at: int,
}

/// How a payment is applied.
pub ghost struct Payment {
    pub taken: int,
    pub principal: int,
    pub interest: int,
}

impl Balance {
    /// Whole months that have passed by `now` and have not been charged.
    pub open spec fn months(self, now: int) -> int {
        if self.accrued_at == 0 || self.outstanding <= 0 || now <= self.accrued_at {
            0
        } else {
            (now - self.accrued_at) / SECONDS_PER_MONTH as int
        }
    }

    /// The charge for `months` whole months at `rate_bps`, before it is divided.
    pub open spec fn charge(self, rate_bps: int, months: int) -> int {
        self.outstanding * rate_bps * months + self.carry
    }

    /// The balance with every whole month up to `now` charged.
    pub open spec fn at(self, rate_bps: int, now: int) -> Balance {
        let months = self.months(now);
        if months == 0 {
            self
        } else {
            Balance {
                outstanding: self.outstanding,
                interest: self.interest + quotient(
                    self.charge(rate_bps, months),
                    INTEREST_DIVISOR as int,
                ),
                carry: remainder(self.charge(rate_bps, months), INTEREST_DIVISOR as int),
                accrued_at: self.accrued_at + months * SECONDS_PER_MONTH,
            }
        }
    }

    /// Whether [`Balance::at`] can be computed.
    pub open spec fn at_fits(self, rate_bps: int, now: int) -> bool {
        let months = self.months(now);
        months != 0 ==> {
            &&& fits(self.outstanding * rate_bps)
            &&& fits(self.outstanding * rate_bps * months)
            &&& fits(self.charge(rate_bps, months))
            &&& fits(self.at(rate_bps, now).interest)
        }
    }

    /// What it costs to clear the loan.
    pub open spec fn payoff(self) -> int {
        self.outstanding + self.interest
    }

    /// The instalment: interest owed plus one slice of principal, or what is left
    /// of it.
    pub open spec fn due(self, slice: int) -> int {
        self.interest + (if slice > self.outstanding {
            self.outstanding
        } else {
            slice
        })
    }

    /// How an `amount` that is handed over is applied: no more than the payoff is
    /// taken, and interest is cleared first.
    pub open spec fn pay(self, amount: int) -> Payment {
        let taken = if amount > self.payoff() {
            self.payoff()
        } else {
            amount
        };
        let interest = if taken >= self.interest {
            self.interest
        } else {
            taken
        };
        Payment { taken, principal: taken - interest, interest }
    }
}

impl Mortgage {
    /// What the loan owes as last written.
    pub open spec fn balance(self) -> Balance {
        Balance {
            outstanding: self.outstanding as int,
            interest: self.interest_accrued as int,
            carry: self.interest_carry as int,
            accrued_at: self.last_accrued_at as int,
        }
    }

    /// What the loan owes with interest brought up to `now`.
    pub open spec fn balance_at(self, now: u64) -> Balance {
        self.balance().at(self.rate_bps as int, now as int)
    }

    pub open spec fn accrue_fits(self, now: u64) -> bool {
        self.balance().at_fits(self.rate_bps as int, now as int)
    }

    /// A month's slice of principal.
    pub open spec fn slice(self) -> int {
        quotient(self.principal as int, self.term_months as int)
    }

    /// What must be paid at `now` to keep the loan current.
    pub open spec fn due_at(self, now: u64) -> int {
        self.balance_at(now).due(self.slice())
    }

    /// What is asked for at `now`: the instalment, and never more than the payoff.
    pub open spec fn demand_at(self, now: u64) -> int {
        let payoff = self.balance_at(now).payoff();
        if self.due_at(now) > payoff {
            payoff
        } else {
            self.due_at(now)
        }
    }

    /// Whether what is owed at `now` can be computed.
    pub open spec fn owed_fits(self, now: u64) -> bool {
        &&& self.accrue_fits(now)
        &&& fits(self.balance_at(now).payoff())
        &&& fits(self.due_at(now))
    }

    /// Principal released at a construction stage: an equal share, with the last
    /// stage taking the rounding remainder.
    pub open spec fn tranche(self, stage: u32) -> int {
        let each = quotient(self.principal as int, MILESTONE_COUNT as int);
        if stage == MILESTONE_COUNT - 1 {
            self.principal - each * (MILESTONE_COUNT - 1)
        } else {
            each
        }
    }

    /// Facility that was never drawn.
    pub open spec fn undrawn(self) -> int {
        self.principal - self.disbursed
    }

    /// Whether the loan has been drawn on and not closed.
    pub open spec fn is_running(self) -> bool {
        self.status == MortgageStatus::Funded || self.status == MortgageStatus::Repaying
    }

    /// Whether a tranche may be drawn.
    pub open spec fn is_drawable(self) -> bool {
        self.status == MortgageStatus::Approved || self.is_running()
    }

    /// Whether an instalment has been due, unpaid, for longer than `grace`.
    pub open spec fn in_default(self, now: u64, grace: u64) -> bool {
        self.next_payment_due != 0 && now > self.next_payment_due + grace
    }

    /// Whether [`Mortgage::in_default`] can be computed.
    pub open spec fn default_fits(self, grace: u64) -> bool {
        self.next_payment_due != 0 ==> self.next_payment_due + grace <= u64::MAX
    }

    /// Whole months that have passed by `now` and have not been charged.
    pub fn uncharged_months(&self, now: u64) -> (r: u64)
        ensures
            r == self.balance().months(now as int),
    {
        if self.last_accrued_at == 0 || self.outstanding <= 0 || now <= self.last_accrued_at {
            return 0;
        }
        (now - self.last_accrued_at) / SECONDS_PER_MONTH
    }

    /// Whether interest can be brought up to `now`.
    pub fn accrue_in_range(&self, now: u64) -> (r: bool)
        ensures
            r == self.accrue_fits(now),
    {
        let months: u64 = self.uncharged_months(now);
        if months == 0 {
            return true;
        }
        let yearly: i128 = match self.outstanding.checked_mul(self.rate_bps as i128) {
            None => return false,
            Some(yearly) => yearly,
        };
        let charge: i128 = match yearly.checked_mul(months as i128) {
            None => return false,
            Some(charge) => charge,
        };
        match charge.checked_add(self.interest_carry) {
            None => false,
            Some(numerator) => self.interest_accrued.checked_add(
                numerator / INTEREST_DIVISOR,
            ).is_some(),
        }
    }

    /// Whether what it costs to clear the loan at `now` can be computed.
    pub fn payoff_in_range(&self, now: u64) -> (r: bool)
        ensures
            r == (self.accrue_fits(now) && fits(self.balance_at(now).payoff())),
    {
        if !self.accrue_in_range(now) {
            return false;
        }
        let mut accrued = *self;
        MortgagePoolContract::accrue(&mut accrued, now);
        accrued.outstanding.checked_add(accrued.interest_accrued).is_some()
    }

    /// Whether what is owed at `now` can be computed.
    pub fn owed_in_range(&self, now: u64) -> (r: bool)
        ensures
            r == (self.term_months != 0 && self.owed_fits(now)),
    {
        if self.term_months == 0 || !self.payoff_in_range(now) {
            return false;
        }
        let mut accrued = *self;
        MortgagePoolContract::accrue(&mut accrued, now);
        let slice: i128 = self.principal / self.term_months as i128;
        let principal_part: i128 = if slice > accrued.outstanding {
            accrued.outstanding
        } else {
            slice
        };
        accrued.interest_accrued.checked_add(principal_part).is_some()
    }

    /// Whether [`MortgagePoolContract::is_defaultable`] can be computed.
    pub fn default_in_range(&self, grace: u64) -> (r: bool)
        ensures
            r == self.default_fits(grace),
    {
        self.next_payment_due == 0 || self.next_payment_due <= u64::MAX - grace
    }
}

/// What the registry says of a property a loan is secured against.
#[derive(Copy, Clone, Debug, PartialEq, Eq, Structural)]
pub struct LendingTerms {
    pub property_id: u64,
    pub trustee: Address,
    pub usdc_value: i128,
    pub verified: bool,
}

/// What the registry says of a construction stage.
#[derive(Copy, Clone, Debug, PartialEq, Eq, Structural)]
pub struct StageReport {
    pub property_id: u64,
    pub stage: u32,
    /// Whether the stage is signed off and not yet paid out.
    pub releasable: bool,
    pub trustee: Address,
}

/// Where to ask, and about which property.
#[derive(Copy, Clone, Debug, PartialEq, Eq, Structural)]
pub struct RegistryQuery {
    pub registry: Address,
    pub property_id: u64,
}

/// A sensitive admin change that must wait out the timelock before it runs.
#[derive(Copy, Clone, Debug, PartialEq, Eq, Structural)]
pub enum Action {
    /// Replace the contract's code, keeping its address and storage.
    Upgrade(Digest),
    /// Change how long arrears are tolerated before default.
    SetGraceSecs(u64),
}

pub type ScheduledAction = crate::governance::ScheduledAction<Action>;

/// What the mortgage pool tells the world.
#[derive(Copy, Clone, Debug, PartialEq, Eq, Structural)]
pub enum Event {
    Underwriter { underwriter: Address, authorized: bool },
    Applied { id: u64, property_id: u64, borrower: Address, principal: i128 },
    Approved { id: u64, underwriter: Address, principal: i128 },
    Declined { id: u64, underwriter: Address },
    Disbursed { id: u64, stage: u32, tranche: i128, trustee: Address },
    Repaid { id: u64, amount: i128, principal: i128, interest: i128 },
    Default { id: u64, outstanding: i128, undrawn: i128 },
}

/// A call on the registry, made in the mortgage pool's own name.
#[derive(Copy, Clone, Debug, PartialEq, Eq, Structural)]
pub enum RegistryCall {
    MarkReleased { property_id: u64, stage: u32 },
    MarkMortgaged { property_id: u64 },
    MarkRepaid { property_id: u64 },
    MarkDefaulted { property_id: u64 },
}

/// A call on the lending pool, made in the mortgage pool's own name.
#[derive(Copy, Clone, Debug, PartialEq, Eq, Structural)]
pub enum PoolCall {
    Reserve { amount: i128 },
    Unreserve { amount: i128 },
    Disburse { to: Address, amount: i128 },
    Repay { from: Address, principal: i128, interest: i128 },
    WriteOff { principal: i128 },
}

/// What the mortgage pool asks of its host.
#[derive(Copy, Clone, Debug, PartialEq, Eq, Structural)]
pub enum Effect {
    CallRegistry { registry: Address, notice: RegistryCall },
    CallPool { pool: Address, call: PoolCall },
    Publish(Event),
    Upgrade(Digest),
}

/// The book of loans.
#[derive(Debug)]
pub struct MortgagePoolContract {
    pub governance: Governance<Action>,
    pub registry: Option<Address>,
    pub lending_pool: Option<Address>,
    /// How long after a missed instalment before anyone may default the loan.
    pub grace_secs: u64,
    pub next_id: u64,
    pub underwriters: Table<Address, bool>,
    pub mortgages: Table<u64, Mortgage>,
    /// The live mortgage against each property, so one cannot be financed twice.
    pub property_mortgages: Table<u64, u64>,
    pub outbox: Vec<Effect>,
}

/// The book of loans as its contracts speak of it.
#[verifier::ext_equal]
pub struct MortgagePoolModel {
    pub governance: Governance<Action>,
    pub registry: Option<Address>,
    pub lending_pool: Option<Address>,
    pub grace_secs: u64,
    pub next_id: u64,
    pub underwriters: Map<Address, bool>,
    pub mortgages: Map<u64, Mortgage>,
    pub property_mortgages: Map<u64, u64>,
    pub outbox: Seq<Effect>,
}

impl View for MortgagePoolContract {
    type V = MortgagePoolModel;

    open spec fn view(&self) -> MortgagePoolModel {
        MortgagePoolModel {
            governance: self.governance,
            registry: self.registry,
            lending_pool: self.lending_pool,
            grace_secs: self.grace_secs,
            next_id: self.next_id,
            underwriters: self.underwriters@,
            mortgages: self.mortgages@,
            property_mortgages: self.property_mortgages@,
            outbox: self.outbox@,
        }
    }
}

/// Whether `principal` is more than may be lent against `usdc_value`.
pub open spec fn exceeds_ltv(principal: int, usdc_value: int) -> bool {
    principal * BPS_DENOMINATOR > usdc_value * MAX_LTV_BPS
}

/// Whether [`exceeds_ltv`] can be computed.
pub open spec fn ltv_fits(principal: int, usdc_value: int) -> bool {
    fits(principal * BPS_DENOMINATOR) && fits(usdc_value * MAX_LTV_BPS)
}

impl MortgagePoolModel {
    /// The mortgage pool as it is deployed.
    pub open spec fn deployed(
        admin: Address,
        registry: Address,
        lending_pool: Address,
        grace_secs: u64,
        timelock_secs: u64,
    ) -> Self {
        MortgagePoolModel {
            governance: Governance {
                admin: Some(admin),
                pending_admin: None,
                timelock_secs: Some(timelock_secs),
                scheduled: None,
            },
            registry: Some(registry),
            lending_pool: Some(lending_pool),
            grace_secs,
            next_id: 1,
            underwriters: Map::empty(),
            mortgages: Map::empty(),
            property_mortgages: Map::empty(),
            outbox: Seq::empty(),
        }
    }

    pub open spec fn underwrites(self, party: Address) -> bool {
        self.underwriters.contains_key(party) && self.underwriters[party]
    }

    /// Where `property_id` is to be asked about.
    pub open spec fn query(self, property_id: u64) -> RegistryQuery {
        RegistryQuery { registry: self.registry->0, property_id }
    }

    pub open spec fn call_pool(self, call: PoolCall) -> Effect {
        Effect::CallPool { pool: self.lending_pool->0, call }
    }

    pub open spec fn call_registry(self, notice: RegistryCall) -> Effect {
        Effect::CallRegistry { registry: self.registry->0, notice }
    }

    // --- administration ---

    /// The book with a party made an underwriter, or no longer one.
    pub open spec fn appointed(self, underwriter: Address, authorized: bool) -> Self {
        MortgagePoolModel {
            underwriters: if authorized {
                self.underwriters.insert(underwriter, true)
            } else {
                self.underwriters.remove(underwriter)
            },
            outbox: self.outbox.push(
                Effect::Publish(Event::Underwriter { underwriter, authorized }),
            ),
            ..self
        }
    }

    pub open spec fn schedule_refusal(self, admin: Address, action: Action) -> Option<Error> {
        match self.governance.schedule_refusal(admin) {
            Some(e) => Some(Error::of(e)),
            None => if action == Action::SetGraceSecs(0) {
                Some(Error::InvalidGrace)
            } else if self.governance.timelock_secs is None {
                Some(Error::NotInitialized)
            } else {
                None
            },
        }
    }

    pub open spec fn schedule_fits(self, admin: Address, action: Action, now: u64) -> bool {
        self.schedule_refusal(admin, action) is None ==> self.governance.eta_fits(now)
    }

    pub open spec fn execute_refusal(self, admin: Address, now: u64) -> Option<Error> {
        match self.governance.execute_refusal(admin, now) {
            Some(e) => Some(Error::of(e)),
            None => if self.governance.scheduled->0.action == Action::SetGraceSecs(0) {
                Some(Error::InvalidGrace)
            } else {
                None
            },
        }
    }

    /// The mortgage pool with the scheduled action carried out.
    pub open spec fn executed(self) -> Self {
        let governance = self.governance.with_nothing_scheduled();
        match self.governance.scheduled->0.action {
            Action::Upgrade(wasm_hash) => MortgagePoolModel {
                governance,
                outbox: self.outbox.push(Effect::Upgrade(wasm_hash)),
                ..self
            },
            Action::SetGraceSecs(secs) => MortgagePoolModel {
                governance,
                grace_secs: secs,
                ..self
            },
        }
    }

    // --- apply ---

    /// Why an application is refused before the registry is asked.
    pub open spec fn screen_refusal(
        self,
        property_id: u64,
        principal: i128,
        term_months: u32,
        rate_bps: u32,
    ) -> Option<Error> {
        if principal <= 0 {
            Some(Error::InvalidAmount)
        } else if term_months == 0 {
            Some(Error::InvalidTerm)
        } else if rate_bps > MAX_RATE_BPS {
            Some(Error::InvalidRate)
        } else if self.property_mortgages.contains_key(property_id) {
            Some(Error::PropertyHasMortgage)
        } else if self.registry is None {
            Some(Error::NotInitialized)
        } else {
            None
        }
    }

    pub open spec fn apply_refusal(
        self,
        property_id: u64,
        principal: i128,
        term_months: u32,
        rate_bps: u32,
        terms: LendingTerms,
    ) -> Option<Error> {
        let screened = self.screen_refusal(property_id, principal, term_months, rate_bps);
        if screened is Some {
            screened
        } else if !terms.verified {
            Some(Error::PropertyNotVerified)
        } else if exceeds_ltv(principal as int, terms.usdc_value as int) {
            Some(Error::ExceedsLtv)
        } else {
            None
        }
    }

    pub open spec fn apply_fits(
        self,
        property_id: u64,
        principal: i128,
        term_months: u32,
        rate_bps: u32,
        terms: LendingTerms,
    ) -> bool {
        &&& self.screen_refusal(property_id, principal, term_months, rate_bps) is None
            && terms.verified ==> ltv_fits(principal as int, terms.usdc_value as int)
        &&& self.apply_refusal(property_id, principal, term_months, rate_bps, terms) is None
            ==> self.next_id < u64::MAX
    }

    /// `post` is the book with a new application in it.
    pub open spec fn applied(
        self,
        post: Self,
        env: Env,
        borrower: Address,
        property_id: u64,
        principal: i128,
        term_months: u32,
        rate_bps: u32,
    ) -> bool {
        post == (MortgagePoolModel {
            next_id: (self.next_id + 1) as u64,
            mortgages: self.mortgages.insert(
                self.next_id,
                Mortgage {
                    id: self.next_id,
                    property_id,
                    borrower,
                    principal,
                    term_months,
                    rate_bps,
                    status: MortgageStatus::Applied,
                    disbursed: 0,
                    outstanding: 0,
                    interest_accrued: 0,
                    interest_carry: 0,
                    total_repaid: 0,
                    interest_paid: 0,
                    payments_made: 0,
                    last_accrued_at: 0,
                    next_payment_due: 0,
                    created_at: env.timestamp,
                },
            ),
            property_mortgages: self.property_mortgages.insert(property_id, self.next_id),
            outbox: self.outbox.push(
                Effect::Publish(
                    Event::Applied { id: self.next_id, property_id, borrower, principal },
                ),
            ),
            ..self
        })
    }

    // --- repay ---

    /// Why a payment is refused before its payer is known.
    pub open spec fn payer_refusal(self, mortgage_id: u64, amount: i128) -> Option<Error> {
        if amount <= 0 {
            Some(Error::InvalidAmount)
        } else if !self.mortgages.contains_key(mortgage_id) {
            Some(Error::UnknownMortgage)
        } else {
            None
        }
    }

    /// Who has to authorize a payment, or why it is refused before that is known.
    pub open spec fn payer(self, mortgage_id: u64, amount: i128) -> Result<Address, Error> {
        match self.payer_refusal(mortgage_id, amount) {
            Some(refusal) => Err(refusal),
            None => Ok(self.mortgages[mortgage_id].borrower),
        }
    }

    /// Whether a payment clears the loan.
    pub open spec fn clears(self, mortgage_id: u64, amount: i128, now: u64) -> bool {
        let owed = self.mortgages[mortgage_id].balance_at(now);
        let payment = owed.pay(amount as int);
        owed.outstanding == payment.principal && owed.interest == payment.interest
    }

    pub open spec fn repay_refusal(self, mortgage_id: u64, amount: i128, now: u64) -> Option<
        Error,
    > {
        let m = self.mortgages[mortgage_id];
        if self.payer_refusal(mortgage_id, amount) is Some {
            self.payer_refusal(mortgage_id, amount)
        } else if !m.is_running() {
            Some(Error::WrongStatus)
        } else if amount < m.due_at(now) && amount < m.balance_at(now).payoff() {
            Some(Error::Underpaid)
        } else if self.lending_pool is None {
            Some(Error::NotInitialized)
        } else if self.clears(mortgage_id, amount, now) && self.registry is None {
            Some(Error::NotInitialized)
        } else {
            None
        }
    }

    pub open spec fn repay_fits(self, mortgage_id: u64, amount: i128, now: u64) -> bool {
        let m = self.mortgages[mortgage_id];
        self.payer_refusal(mortgage_id, amount) is None && m.is_running() ==> {
            let owed = m.balance_at(now);
            let payment = owed.pay(amount as int);
            &&& m.term_months != 0
            &&& m.owed_fits(now)
            &&& amount >= m.due_at(now) || amount >= owed.payoff() ==> {
                &&& fits(payment.principal)
                &&& fits(owed.interest - payment.interest)
                &&& fits(owed.outstanding - payment.principal)
                &&& fits(m.total_repaid + payment.taken)
                &&& fits(m.interest_paid + payment.interest)
                &&& m.payments_made < u32::MAX
                &&& m.next_payment_due + SECONDS_PER_MONTH <= u64::MAX
                &&& self.clears(mortgage_id, amount, now) ==> fits(m.undrawn())
            }
        }
    }

    /// `post` is the book after an `amount` was paid on a loan.
    pub open spec fn repaid(self, post: Self, env: Env, mortgage_id: u64, amount: i128) -> bool {
        let m = self.mortgages[mortgage_id];
        let owed = m.balance_at(env.timestamp);
        let payment = owed.pay(amount as int);
        let clears = self.clears(mortgage_id, amount, env.timestamp);
        let n = post.mortgages[m.id];
        let banked = self.outbox.push(
            self.call_pool(
                PoolCall::Repay {
                    from: m.borrower,
                    principal: payment.principal as i128,
                    interest: payment.interest as i128,
                },
            ),
        );
        let freed = if m.undrawn() > 0 {
            banked.push(self.call_pool(PoolCall::Unreserve { amount: m.undrawn() as i128 }))
        } else {
            banked
        };
        let settled = if clears {
            freed.push(
                self.call_registry(RegistryCall::MarkRepaid { property_id: m.property_id }),
            )
        } else {
            banked
        };
        &&& n.outstanding == owed.outstanding - payment.principal
        &&& n.interest_accrued == owed.interest - payment.interest
        &&& n.interest_carry == owed.carry
        &&& n.last_accrued_at == owed.accrued_at
        &&& n.total_repaid == m.total_repaid + payment.taken
        &&& n.interest_paid == m.interest_paid + payment.interest
        &&& n == (Mortgage {
            outstanding: n.outstanding,
            interest_accrued: n.interest_accrued,
            interest_carry: n.interest_carry,
            last_accrued_at: n.last_accrued_at,
            total_repaid: n.total_repaid,
            interest_paid: n.interest_paid,
            payments_made: (m.payments_made + 1) as u32,
            next_payment_due: (m.next_payment_due + SECONDS_PER_MONTH) as u64,
            status: if clears {
                MortgageStatus::PaidOff
            } else {
                MortgageStatus::Repaying
            },
            ..m
        })
        &&& post == (MortgagePoolModel {
            mortgages: self.mortgages.insert(m.id, n),
            property_mortgages: if clears {
                self.property_mortgages.remove(m.property_id)
            } else {
                self.property_mortgages
            },
            outbox: settled.push(
                Effect::Publish(
                    Event::Repaid {
                        id: mortgage_id,
                        amount: payment.taken as i128,
                        principal: payment.principal as i128,
                        interest: payment.interest as i128,
                    },
                ),
            ),
            ..self
        })
    }

    // --- approve and decline ---

    /// Why an underwriter may not decide on a loan.
    pub open spec fn decide_refusal(self, underwriter: Address, mortgage_id: u64) -> Option<
        Error,
    > {
        if !self.underwrites(underwriter) {
            Some(Error::NotAuthorized)
        } else if !self.mortgages.contains_key(mortgage_id) {
            Some(Error::UnknownMortgage)
        } else if self.mortgages[mortgage_id].status != MortgageStatus::Applied {
            Some(Error::WrongStatus)
        } else {
            None
        }
    }

    /// Why an approval is refused before the registry is asked.
    pub open spec fn before_approve_refusal(self, underwriter: Address, mortgage_id: u64) -> Option<
        Error,
    > {
        if self.decide_refusal(underwriter, mortgage_id) is Some {
            self.decide_refusal(underwriter, mortgage_id)
        } else if self.registry is None {
            Some(Error::NotInitialized)
        } else {
            None
        }
    }

    pub open spec fn approve_refusal(
        self,
        underwriter: Address,
        mortgage_id: u64,
        terms: LendingTerms,
    ) -> Option<Error> {
        if self.before_approve_refusal(underwriter, mortgage_id) is Some {
            self.before_approve_refusal(underwriter, mortgage_id)
        } else if !terms.verified {
            Some(Error::PropertyNotVerified)
        } else if exceeds_ltv(
            self.mortgages[mortgage_id].principal as int,
            terms.usdc_value as int,
        ) {
            Some(Error::ExceedsLtv)
        } else if self.lending_pool is None {
            Some(Error::NotInitialized)
        } else {
            None
        }
    }

    pub open spec fn approve_fits(
        self,
        underwriter: Address,
        mortgage_id: u64,
        terms: LendingTerms,
    ) -> bool {
        self.before_approve_refusal(underwriter, mortgage_id) is None && terms.verified
            ==> ltv_fits(
            self.mortgages[mortgage_id].principal as int,
            terms.usdc_value as int,
        )
    }

    /// The book with a loan approved, and the lending pool told to commit its
    /// principal.
    pub open spec fn approved(self, underwriter: Address, mortgage_id: u64) -> Self {
        let m = self.mortgages[mortgage_id];
        MortgagePoolModel {
            mortgages: self.mortgages.insert(
                m.id,
                Mortgage { status: MortgageStatus::Approved, ..m },
            ),
            outbox: self.outbox.push(
                self.call_pool(PoolCall::Reserve { amount: m.principal }),
            ).push(
                Effect::Publish(
                    Event::Approved { id: mortgage_id, underwriter, principal: m.principal },
                ),
            ),
            ..self
        }
    }

    /// The book with an application struck out.
    pub open spec fn declined(self, underwriter: Address, mortgage_id: u64) -> Self {
        MortgagePoolModel {
            mortgages: self.mortgages.remove(mortgage_id),
            property_mortgages: self.property_mortgages.remove(
                self.mortgages[mortgage_id].property_id,
            ),
            outbox: self.outbox.push(
                Effect::Publish(Event::Declined { id: mortgage_id, underwriter }),
            ),
            ..self
        }
    }

    // --- disburse ---

    /// Why a draw is refused before the registry is asked.
    pub open spec fn before_disburse_refusal(self, mortgage_id: u64) -> Option<Error> {
        if !self.mortgages.contains_key(mortgage_id) {
            Some(Error::UnknownMortgage)
        } else if !self.mortgages[mortgage_id].is_drawable() {
            Some(Error::WrongStatus)
        } else if self.registry is None {
            Some(Error::NotInitialized)
        } else {
            None
        }
    }

    pub open spec fn disburse_refusal(
        self,
        mortgage_id: u64,
        stage: u32,
        report: StageReport,
    ) -> Option<Error> {
        if self.before_disburse_refusal(mortgage_id) is Some {
            self.before_disburse_refusal(mortgage_id)
        } else if !report.releasable {
            Some(Error::StageNotReleasable)
        } else if self.mortgages[mortgage_id].tranche(stage) <= 0 {
            Some(Error::NothingToDisburse)
        } else if self.lending_pool is None {
            Some(Error::NotInitialized)
        } else {
            None
        }
    }

    pub open spec fn disburse_fits(
        self,
        mortgage_id: u64,
        stage: u32,
        report: StageReport,
        now: u64,
    ) -> bool {
        let m = self.mortgages[mortgage_id];
        self.disburse_refusal(mortgage_id, stage, report) is None ==> {
            &&& m.accrue_fits(now)
            &&& fits(m.disbursed + m.tranche(stage))
            &&& fits(m.outstanding + m.tranche(stage))
            &&& m.disbursed == 0 ==> now + SECONDS_PER_MONTH <= u64::MAX
        }
    }

    /// `post` is the book after a stage's `tranche` was drawn.
    pub open spec fn disbursed(
        self,
        post: Self,
        env: Env,
        mortgage_id: u64,
        stage: u32,
        report: StageReport,
        tranche: i128,
    ) -> bool {
        let m = self.mortgages[mortgage_id];
        let owed = m.balance_at(env.timestamp);
        let first_draw = m.disbursed == 0;
        let n = post.mortgages[m.id];
        let drawn = self.outbox.push(
            self.call_registry(
                RegistryCall::MarkReleased { property_id: m.property_id, stage },
            ),
        ).push(self.call_pool(PoolCall::Disburse { to: report.trustee, amount: tranche }));
        let marked = if first_draw {
            drawn.push(
                self.call_registry(RegistryCall::MarkMortgaged { property_id: m.property_id }),
            )
        } else {
            drawn
        };
        &&& tranche == m.tranche(stage)
        &&& n.disbursed == m.disbursed + tranche
        &&& n.outstanding == owed.outstanding + tranche
        &&& n.interest_accrued == owed.interest
        &&& n.interest_carry == owed.carry
        &&& n.last_accrued_at == if first_draw {
            env.timestamp as int
        } else {
            owed.accrued_at
        }
        &&& n == (Mortgage {
            disbursed: n.disbursed,
            outstanding: n.outstanding,
            interest_accrued: n.interest_accrued,
            interest_carry: n.interest_carry,
            last_accrued_at: n.last_accrued_at,
            next_payment_due: if first_draw {
                (env.timestamp + SECONDS_PER_MONTH) as u64
            } else {
                m.next_payment_due
            },
            status: if first_draw {
                MortgageStatus::Funded
            } else {
                m.status
            },
            ..m
        })
        &&& post == (MortgagePoolModel {
            mortgages: self.mortgages.insert(m.id, n),
            outbox: marked.push(
                Effect::Publish(
                    Event::Disbursed { id: mortgage_id, stage, tranche, trustee: report.trustee },
                ),
            ),
            ..self
        })
    }

    // --- default ---

    /// Whether a loan may be written off at `now`.
    pub open spec fn defaultable(self, mortgage_id: u64, now: u64) -> bool {
        let m = self.mortgages[mortgage_id];
        m.is_running() && m.in_default(now, self.grace_secs)
    }

    pub open spec fn default_refusal(self, mortgage_id: u64, now: u64) -> Option<Error> {
        if !self.mortgages.contains_key(mortgage_id) {
            Some(Error::UnknownMortgage)
        } else if !self.mortgages[mortgage_id].is_running() {
            Some(Error::WrongStatus)
        } else if !self.mortgages[mortgage_id].in_default(now, self.grace_secs) {
            Some(Error::NotInArrears)
        } else if self.lending_pool is None || self.registry is None {
            Some(Error::NotInitialized)
        } else {
            None
        }
    }

    pub open spec fn default_fits(self, mortgage_id: u64, now: u64) -> bool {
        let m = self.mortgages[mortgage_id];
        self.mortgages.contains_key(mortgage_id) && m.is_running() ==> {
            &&& m.default_fits(self.grace_secs)
            &&& self.default_refusal(mortgage_id, now) is None ==> m.accrue_fits(now) && fits(
                m.undrawn(),
            )
        }
    }

    /// `post` is the book with a loan written off.
    pub open spec fn defaulted(self, post: Self, env: Env, mortgage_id: u64) -> bool {
        let m = self.mortgages[mortgage_id];
        let owed = m.balance_at(env.timestamp);
        let n = post.mortgages[m.id];
        let freed = if m.undrawn() > 0 {
            self.outbox.push(
                self.call_pool(PoolCall::Unreserve { amount: m.undrawn() as i128 }),
            )
        } else {
            self.outbox
        };
        let written = if m.outstanding > 0 {
            freed.push(self.call_pool(PoolCall::WriteOff { principal: m.outstanding }))
        } else {
            freed
        };
        &&& n.interest_accrued == owed.interest
        &&& n.interest_carry == owed.carry
        &&& n.last_accrued_at == owed.accrued_at
        &&& n == (Mortgage {
            interest_accrued: n.interest_accrued,
            interest_carry: n.interest_carry,
            last_accrued_at: n.last_accrued_at,
            status: MortgageStatus::Defaulted,
            ..m
        })
        &&& post == (MortgagePoolModel {
            mortgages: self.mortgages.insert(m.id, n),
            property_mortgages: self.property_mortgages.remove(m.property_id),
            outbox: written.push(
                self.call_registry(RegistryCall::MarkDefaulted { property_id: m.property_id }),
            ).push(
                Effect::Publish(
                    Event::Default {
                        id: mortgage_id,
                        outstanding: m.outstanding,
                        undrawn: m.undrawn() as i128,
                    },
                ),
            ),
            ..self
        })
    }
}

/// An equal share of `principal`, and what is left for the last stage, are within
/// range.
proof fn lemma_tranche_fits(principal: int)
    requires
        fits(principal),
    ensures
        ({
            let each = quotient(principal, 5);
            fits(each) && fits(each * 4) && fits(principal - each * 4)
        }),
{
}

impl MortgagePoolContract {
    /// The mortgage pool as it is deployed: configured, with no loans.
    pub fn new(
        admin: Address,
        registry: Address,
        lending_pool: Address,
        grace_secs: u64,
        timelock_secs: u64,
    ) -> (pool: Self)
        ensures
            pool@ == MortgagePoolModel::deployed(
                admin,
                registry,
                lending_pool,
                grace_secs,
                timelock_secs,
            ),
    {
        MortgagePoolContract {
            governance: Governance::new(admin, timelock_secs),
            registry: Some(registry),
            lending_pool: Some(lending_pool),
            grace_secs,
            next_id: 1,
            underwriters: Table::new(),
            mortgages: Table::new(),
            property_mortgages: Table::new(),
            outbox: Vec::new(),
        }
    }

    // --- Administration ---
    /// Authorize or revoke an underwriter, the party that approves or declines
    /// applications.
    pub fn set_underwriter(
        &mut self,
        env: &Env,
        admin: &Address,
        underwriter: &Address,
        authorized: bool,
    ) -> (r: Result<(), Error>)
        requires
            env.authorizes(*admin),
        ensures
            r == admin_outcome(old(self)@.governance.admin_refusal(*admin)),
            r is Err ==> final(self)@ == old(self)@,
            r is Ok ==> final(self)@ == old(self)@.appointed(*underwriter, authorized),
    {
        match self.governance.require_admin(admin) {
            Err(e) => return Err(Error::from_governance(e)),
            Ok(()) => {},
        }
        if authorized {
            self.underwriters.insert(*underwriter, true);
        } else {
            self.underwriters.remove(*underwriter);
        }
        self.outbox.push(
            Effect::Publish(Event::Underwriter { underwriter: *underwriter, authorized }),
        );
        Ok(())
    }

    /// Put an upgrade or a change to the grace period in the queue, to execute
    /// once the timelock has elapsed. A zero grace period would let a loan default
    /// the instant an instalment is late, so it is refused on the way into the
    /// queue as well as on the way out.
    pub fn schedule_action(&mut self, env: &Env, admin: &Address, action: Action) -> (r: Result<
        (),
        Error,
    >)
        requires
            env.authorizes(*admin),
            old(self)@.schedule_fits(*admin, action, env.timestamp),
        ensures
            r == outcome(old(self)@.schedule_refusal(*admin, action)),
            r is Err ==> final(self)@ == old(self)@,
            r is Ok ==> final(self)@ == (MortgagePoolModel {
                governance: old(self)@.governance.with_queued(action, env.timestamp),
                ..old(self)@
            }),
    {
        match self.governance.require_idle(admin) {
            Err(e) => return Err(Error::from_governance(e)),
            Ok(()) => {},
        }
        if let Action::SetGraceSecs(secs) = action {
            if secs == 0 {
                return Err(Error::InvalidGrace);
            }
        }
        match self.governance.schedule(action, env.timestamp) {
            Err(e) => Err(Error::from_governance(e)),
            Ok(()) => Ok(()),
        }
    }

    /// Carry out the scheduled action once its timelock has elapsed.
    pub fn execute_action(&mut self, env: &Env, admin: &Address) -> (r: Result<(), Error>)
        requires
            env.authorizes(*admin),
        ensures
            r == outcome(old(self)@.execute_refusal(*admin, env.timestamp)),
            r is Err ==> final(self)@ == old(self)@,
            r is Ok ==> final(self)@ == old(self)@.executed(),
    {
        match self.governance.due(admin, env.timestamp) {
            Err(e) => Err(Error::from_governance(e)),
            Ok(Action::Upgrade(wasm_hash)) => {
                self.governance.scheduled = None;
                self.outbox.push(Effect::Upgrade(wasm_hash));
                Ok(())
            },
            Ok(Action::SetGraceSecs(secs)) => {
                if secs == 0 {
                    return Err(Error::InvalidGrace);
                }
                self.governance.scheduled = None;
                self.grace_secs = secs;
                Ok(())
            },
        }
    }

    /// Withdraw the scheduled action before it executes.
    pub fn cancel_action(&mut self, env: &Env, admin: &Address) -> (r: Result<(), Error>)
        requires
            env.authorizes(*admin),
        ensures
            r == admin_outcome(old(self)@.governance.cancel_refusal(*admin)),
            r is Err ==> final(self)@ == old(self)@,
            r is Ok ==> final(self)@ == (MortgagePoolModel {
                governance: old(self)@.governance.with_nothing_scheduled(),
                ..old(self)@
            }),
    {
        match self.governance.cancel(admin) {
            Err(e) => Err(Error::from_governance(e)),
            Ok(()) => Ok(()),
        }
    }

    /// Begin handing the admin role to `new_admin`. Nothing changes until the
    /// new admin accepts.
    pub fn propose_admin(&mut self, env: &Env, admin: &Address, new_admin: &Address) -> (r: Result<
        (),
        Error,
    >)
        requires
            env.authorizes(*admin),
        ensures
            r == admin_outcome(old(self)@.governance.admin_refusal(*admin)),
            r is Err ==> final(self)@ == old(self)@,
            r is Ok ==> final(self)@ == (MortgagePoolModel {
                governance: old(self)@.governance.with_proposed(*new_admin),
                ..old(self)@
            }),
    {
        match self.governance.propose(admin, new_admin) {
            Err(e) => Err(Error::from_governance(e)),
            Ok(()) => Ok(()),
        }
    }

    /// Complete a handover proposed by the current admin.
    pub fn accept_admin(&mut self, env: &Env, new_admin: &Address) -> (r: Result<(), Error>)
        requires
            env.authorizes(*new_admin),
        ensures
            r == admin_outcome(old(self)@.governance.accept_refusal(*new_admin)),
            r is Err ==> final(self)@ == old(self)@,
            r is Ok ==> final(self)@ == (MortgagePoolModel {
                governance: old(self)@.governance.with_admin(*new_admin),
                ..old(self)@
            }),
    {
        match self.governance.accept(new_admin) {
            Err(e) => Err(Error::from_governance(e)),
            Ok(()) => Ok(()),
        }
    }

    // --- Borrower operations ---
    /// What to ask the registry before [`Self::apply`], or why the application is
    /// refused without asking.
    pub fn before_apply(&self, property_id: u64, principal: i128, term_months: u32, rate_bps: u32)
        -> (r: Result<RegistryQuery, Error>)
        ensures
            r == (match self@.screen_refusal(property_id, principal, term_months, rate_bps) {
                Some(refusal) => Err(refusal),
                None => Ok(self@.query(property_id)),
            }),
    {
        if principal <= 0 {
            return Err(Error::InvalidAmount);
        }
        if term_months == 0 {
            return Err(Error::InvalidTerm);
        }
        if rate_bps > MAX_RATE_BPS {
            return Err(Error::InvalidRate);
        }
        // A second facility against the same collateral would let the same house
        // back two loans.
        if self.property_mortgages.contains_key(property_id) {
            return Err(Error::PropertyHasMortgage);
        }
        let registry = self.require_registry()?;
        Ok(RegistryQuery { registry, property_id })
    }

    /// Apply for a mortgage against a verified property, of which the registry has
    /// said `terms`. Returns the mortgage's id. Nothing is committed here.
    pub fn apply(
        &mut self,
        env: &Env,
        borrower: &Address,
        property_id: u64,
        principal: i128,
        term_months: u32,
        rate_bps: u32,
        terms: &LendingTerms,
    ) -> (r: Result<u64, Error>)
        requires
            env.authorizes(*borrower),
            terms.property_id == property_id,
            old(self)@.apply_fits(property_id, principal, term_months, rate_bps, *terms),
        ensures
            match old(self)@.apply_refusal(property_id, principal, term_months, rate_bps, *terms) {
                Some(refusal) => r == Err::<u64, _>(refusal) && final(self)@ == old(self)@,
                None => {
                    &&& r == Ok::<_, Error>(old(self)@.next_id)
                    &&& old(self)@.applied(
                        final(self)@,
                        *env,
                        *borrower,
                        property_id,
                        principal,
                        term_months,
                        rate_bps,
                    )
                },
            },
    {
        self.before_apply(property_id, principal, term_months, rate_bps)?;
        Self::require_lendable(principal, terms)?;

        let id: u64 = self.next_id;
        self.next_id = id + 1;
        self.mortgages.insert(
            id,
            Mortgage {
                id,
                property_id,
                borrower: *borrower,
                principal,
                term_months,
                rate_bps,
                status: MortgageStatus::Applied,
                disbursed: 0,
                outstanding: 0,
                interest_accrued: 0,
                interest_carry: 0,
                total_repaid: 0,
                interest_paid: 0,
                payments_made: 0,
                last_accrued_at: 0,
                next_payment_due: 0,
                created_at: env.timestamp,
            },
        );
        self.property_mortgages.insert(property_id, id);
        self.outbox.push(
            Effect::Publish(Event::Applied { id, property_id, borrower: *borrower, principal }),
        );
        Ok(id)
    }

    /// Whose authorization [`Self::repay`] needs, or why the payment is refused
    /// whoever gives it.
    pub fn before_repay(&self, mortgage_id: u64, amount: i128) -> (r: Result<Address, Error>)
        ensures
            r == self@.payer(mortgage_id, amount),
    {
        if amount <= 0 {
            return Err(Error::InvalidAmount);
        }
        let mortgage = self.mortgage_of(mortgage_id)?;
        Ok(mortgage.borrower)
    }

    /// Pay an instalment.
    ///
    /// Interest is brought up to date first, then the payment clears accrued
    /// interest before it touches principal. The payment must cover the
    /// instalment currently due or clear the loan outright; anything in between is
    /// refused, so a part payment cannot quietly stall the schedule.
    pub fn repay(&mut self, env: &Env, mortgage_id: u64, amount: i128) -> (r: Result<(), Error>)
        requires
            old(self)@.payer_refusal(mortgage_id, amount) is None ==> env.authorizes(
                old(self)@.mortgages[mortgage_id].borrower,
            ),
            old(self)@.repay_fits(mortgage_id, amount, env.timestamp),
        ensures
            r == outcome(old(self)@.repay_refusal(mortgage_id, amount, env.timestamp)),
            r is Err ==> final(self)@ == old(self)@,
            r is Ok ==> old(self)@.repaid(final(self)@, *env, mortgage_id, amount),
    {
        if amount <= 0 {
            return Err(Error::InvalidAmount);
        }
        let mut mortgage = self.mortgage_of(mortgage_id)?;
        if mortgage.status != MortgageStatus::Funded && mortgage.status
            != MortgageStatus::Repaying {
            return Err(Error::WrongStatus);
        }
        Self::accrue(&mut mortgage, env.timestamp);

        let payoff: i128 = mortgage.outstanding + mortgage.interest_accrued;
        let due: i128 = Self::instalment_due(&mortgage);
        if amount < due && amount < payoff {
            return Err(Error::Underpaid);
        }
        let taken: i128 = if amount > payoff {
            payoff
        } else {
            amount
        };
        let interest_part: i128 = if taken >= mortgage.interest_accrued {
            mortgage.interest_accrued
        } else {
            taken
        };
        let principal_part: i128 = taken - interest_part;

        mortgage.interest_accrued = mortgage.interest_accrued - interest_part;
        mortgage.outstanding = mortgage.outstanding - principal_part;
        mortgage.total_repaid = mortgage.total_repaid + taken;
        mortgage.interest_paid = mortgage.interest_paid + interest_part;
        mortgage.payments_made = mortgage.payments_made + 1;
        mortgage.next_payment_due = mortgage.next_payment_due + SECONDS_PER_MONTH;
        mortgage.status = MortgageStatus::Repaying;

        let pool = self.require_lending_pool()?;
        let cleared = mortgage.outstanding == 0 && mortgage.interest_accrued == 0;
        if cleared && self.registry.is_none() {
            return Err(Error::NotInitialized);
        }
        self.outbox.push(
            Effect::CallPool {
                pool,
                call: PoolCall::Repay {
                    from: mortgage.borrower,
                    principal: principal_part,
                    interest: interest_part,
                },
            },
        );
        // Any facility never drawn is released back to the pool, so it can fund
        // somebody else's build.
        if cleared {
            let undrawn: i128 = mortgage.principal - mortgage.disbursed;
            if undrawn > 0 {
                self.outbox.push(
                    Effect::CallPool { pool, call: PoolCall::Unreserve { amount: undrawn } },
                );
            }
            mortgage.status = MortgageStatus::PaidOff;
            self.property_mortgages.remove(mortgage.property_id);
            let registry = self.require_registry()?;
            self.outbox.push(
                Effect::CallRegistry {
                    registry,
                    notice: RegistryCall::MarkRepaid { property_id: mortgage.property_id },
                },
            );
        }
        self.mortgages.insert(mortgage.id, mortgage);
        self.outbox.push(
            Effect::Publish(
                Event::Repaid {
                    id: mortgage_id,
                    amount: taken,
                    principal: principal_part,
                    interest: interest_part,
                },
            ),
        );
        Ok(())
    }

    // --- Underwriter operations ---
    /// What to ask the registry before [`Self::approve`], or why the approval is
    /// refused without asking.
    pub fn before_approve(&self, underwriter: &Address, mortgage_id: u64) -> (r: Result<
        RegistryQuery,
        Error,
    >)
        ensures
            r == (match self@.before_approve_refusal(*underwriter, mortgage_id) {
                Some(refusal) => Err(refusal),
                None => Ok(self@.query(self@.mortgages[mortgage_id].property_id)),
            }),
    {
        let mortgage = self.require_undecided(underwriter, mortgage_id)?;
        let registry = self.require_registry()?;
        Ok(RegistryQuery { registry, property_id: mortgage.property_id })
    }

    /// Approve an application and commit its principal against the pool. The
    /// registry is asked again: a valuation can be revised between applying and
    /// underwriting, and the commitment is made against today's number.
    pub fn approve(
        &mut self,
        env: &Env,
        underwriter: &Address,
        mortgage_id: u64,
        terms: &LendingTerms,
    ) -> (r: Result<(), Error>)
        requires
            env.authorizes(*underwriter),
            old(self)@.before_approve_refusal(*underwriter, mortgage_id) is None
                ==> terms.property_id == old(self)@.mortgages[mortgage_id].property_id,
            old(self)@.approve_fits(*underwriter, mortgage_id, *terms),
        ensures
            r == outcome(old(self)@.approve_refusal(*underwriter, mortgage_id, *terms)),
            r is Err ==> final(self)@ == old(self)@,
            r is Ok ==> final(self)@ == old(self)@.approved(*underwriter, mortgage_id),
    {
        let mut mortgage = self.require_undecided(underwriter, mortgage_id)?;
        self.require_registry()?;
        Self::require_lendable(mortgage.principal, terms)?;
        let pool = self.require_lending_pool()?;
        self.outbox.push(
            Effect::CallPool { pool, call: PoolCall::Reserve { amount: mortgage.principal } },
        );
        mortgage.status = MortgageStatus::Approved;
        self.mortgages.insert(mortgage.id, mortgage);
        self.outbox.push(
            Effect::Publish(
                Event::Approved {
                    id: mortgage_id,
                    underwriter: *underwriter,
                    principal: mortgage.principal,
                },
            ),
        );
        Ok(())
    }

    /// Decline an application before it is approved, freeing the property for
    /// another attempt. Nothing was reserved, so there is nothing to give back.
    pub fn decline(&mut self, env: &Env, underwriter: &Address, mortgage_id: u64) -> (r: Result<
        (),
        Error,
    >)
        requires
            env.authorizes(*underwriter),
        ensures
            r == outcome(old(self)@.decide_refusal(*underwriter, mortgage_id)),
            r is Err ==> final(self)@ == old(self)@,
            r is Ok ==> final(self)@ == old(self)@.declined(*underwriter, mortgage_id),
    {
        let mortgage = self.require_undecided(underwriter, mortgage_id)?;
        self.property_mortgages.remove(mortgage.property_id);
        self.mortgages.remove(mortgage_id);
        self.outbox.push(
            Effect::Publish(Event::Declined { id: mortgage_id, underwriter: *underwriter }),
        );
        Ok(())
    }

    // --- Milestone-gated disbursement ---
    /// What to ask the registry before [`Self::disburse`], or why the draw is
    /// refused without asking.
    pub fn before_disburse(&self, mortgage_id: u64) -> (r: Result<RegistryQuery, Error>)
        ensures
            r == (match self@.before_disburse_refusal(mortgage_id) {
                Some(refusal) => Err(refusal),
                None => Ok(self@.query(self@.mortgages[mortgage_id].property_id)),
            }),
    {
        let mortgage = self.mortgage_of(mortgage_id)?;
        if mortgage.status != MortgageStatus::Approved && mortgage.status
            != MortgageStatus::Funded && mortgage.status != MortgageStatus::Repaying {
            return Err(Error::WrongStatus);
        }
        let registry = self.require_registry()?;
        Ok(RegistryQuery { registry, property_id: mortgage.property_id })
    }

    /// Release the tranche for a construction stage, of which the registry has
    /// said `report`. Anyone may ask: the registry decides whether the stage is
    /// signed off and unpaid, and the tranche is fixed by the loan.
    ///
    /// The money goes to the property's trustee, never to the borrower. The stage
    /// is marked released before the money moves.
    pub fn disburse(&mut self, env: &Env, mortgage_id: u64, stage: u32, report: &StageReport) -> (r:
        Result<i128, Error>)
        requires
            old(self)@.before_disburse_refusal(mortgage_id) is None ==> report.property_id == old(
                self,
            )@.mortgages[mortgage_id].property_id && report.stage == stage,
            old(self)@.disburse_fits(mortgage_id, stage, *report, env.timestamp),
        ensures
            match old(self)@.disburse_refusal(mortgage_id, stage, *report) {
                Some(refusal) => r == Err::<i128, _>(refusal) && final(self)@ == old(self)@,
                None => r is Ok && old(self)@.disbursed(
                    final(self)@,
                    *env,
                    mortgage_id,
                    stage,
                    *report,
                    r->Ok_0,
                ),
            },
    {
        let query = self.before_disburse(mortgage_id)?;
        if !report.releasable {
            return Err(Error::StageNotReleasable);
        }
        let mut mortgage = self.mortgage_of(mortgage_id)?;
        let tranche: i128 = Self::tranche_for(&mortgage, stage);
        if tranche <= 0 {
            return Err(Error::NothingToDisburse);
        }
        let pool = self.require_lending_pool()?;

        // Interest is brought up to date before the balance grows.
        Self::accrue(&mut mortgage, env.timestamp);

        self.outbox.push(
            Effect::CallRegistry {
                registry: query.registry,
                notice: RegistryCall::MarkReleased { property_id: mortgage.property_id, stage },
            },
        );
        self.outbox.push(
            Effect::CallPool {
                pool,
                call: PoolCall::Disburse { to: report.trustee, amount: tranche },
            },
        );
        let first_draw = mortgage.disbursed == 0;
        mortgage.disbursed = mortgage.disbursed + tranche;
        mortgage.outstanding = mortgage.outstanding + tranche;

        if first_draw {
            mortgage.status = MortgageStatus::Funded;
            mortgage.last_accrued_at = env.timestamp;
            mortgage.next_payment_due = env.timestamp + SECONDS_PER_MONTH;
            self.outbox.push(
                Effect::CallRegistry {
                    registry: query.registry,
                    notice: RegistryCall::MarkMortgaged { property_id: mortgage.property_id },
                },
            );
        }
        self.mortgages.insert(mortgage.id, mortgage);
        self.outbox.push(
            Effect::Publish(
                Event::Disbursed { id: mortgage_id, stage, tranche, trustee: report.trustee },
            ),
        );
        Ok(tranche)
    }

    // --- Default ---
    /// Write off a loan whose arrears have run past the grace period. Anyone may
    /// ask. The undrawn facility goes back to the pool; the disbursed balance is
    /// written off.
    pub fn mark_default(&mut self, env: &Env, mortgage_id: u64) -> (r: Result<(), Error>)
        requires
            old(self)@.default_fits(mortgage_id, env.timestamp),
        ensures
            r == outcome(old(self)@.default_refusal(mortgage_id, env.timestamp)),
            r is Err ==> final(self)@ == old(self)@,
            r is Ok ==> old(self)@.defaulted(final(self)@, *env, mortgage_id),
    {
        let mut mortgage = self.mortgage_of(mortgage_id)?;
        if mortgage.status != MortgageStatus::Funded && mortgage.status
            != MortgageStatus::Repaying {
            return Err(Error::WrongStatus);
        }
        if !self.is_in_default(&mortgage, env.timestamp) {
            return Err(Error::NotInArrears);
        }
        let pool = self.require_lending_pool()?;
        let registry = self.require_registry()?;
        Self::accrue(&mut mortgage, env.timestamp);

        let undrawn: i128 = mortgage.principal - mortgage.disbursed;
        if undrawn > 0 {
            self.outbox.push(
                Effect::CallPool { pool, call: PoolCall::Unreserve { amount: undrawn } },
            );
        }
        if mortgage.outstanding > 0 {
            self.outbox.push(
                Effect::CallPool {
                    pool,
                    call: PoolCall::WriteOff { principal: mortgage.outstanding },
                },
            );
        }
        mortgage.status = MortgageStatus::Defaulted;
        self.property_mortgages.remove(mortgage.property_id);
        self.outbox.push(
            Effect::CallRegistry {
                registry,
                notice: RegistryCall::MarkDefaulted { property_id: mortgage.property_id },
            },
        );
        self.mortgages.insert(mortgage.id, mortgage);
        self.outbox.push(
            Effect::Publish(
                Event::Default { id: mortgage_id, outstanding: mortgage.outstanding, undrawn },
            ),
        );
        Ok(())
    }

    // --- Ranges ---
    /// Whether [`Self::schedule_action`] stays within range.
    pub fn schedule_in_range(&self, env: &Env, admin: &Address, action: Action) -> (r: bool)
        ensures
            r == self@.schedule_fits(*admin, action, env.timestamp),
    {
        if let Action::SetGraceSecs(secs) = action {
            if secs == 0 {
                return true;
            }
        }
        self.governance.require_idle(admin).is_err() || self.governance.eta_in_range(env.timestamp)
    }

    /// Whether [`Self::apply`] stays within range.
    pub fn apply_in_range(
        &self,
        property_id: u64,
        principal: i128,
        term_months: u32,
        rate_bps: u32,
        terms: &LendingTerms,
    ) -> (r: bool)
        ensures
            r == self@.apply_fits(property_id, principal, term_months, rate_bps, *terms),
    {
        if self.before_apply(property_id, principal, term_months, rate_bps).is_err()
            || !terms.verified {
            return true;
        }
        if !Self::ltv_in_range(principal, terms.usdc_value) {
            return false;
        }
        Self::require_lendable(principal, terms).is_err() || self.next_id < u64::MAX
    }

    /// Whether [`Self::approve`] stays within range.
    pub fn approve_in_range(
        &self,
        underwriter: &Address,
        mortgage_id: u64,
        terms: &LendingTerms,
    ) -> (r: bool)
        ensures
            r == self@.approve_fits(*underwriter, mortgage_id, *terms),
    {
        if self.registry.is_none() || !terms.verified {
            return true;
        }
        match self.require_undecided(underwriter, mortgage_id) {
            Err(_) => true,
            Ok(mortgage) => Self::ltv_in_range(mortgage.principal, terms.usdc_value),
        }
    }

    /// Whether [`Self::repay`] stays within range.
    pub fn repay_in_range(&self, env: &Env, mortgage_id: u64, amount: i128) -> (r: bool)
        ensures
            r == self@.repay_fits(mortgage_id, amount, env.timestamp),
    {
        if amount <= 0 {
            return true;
        }
        let mut mortgage = match self.mortgages.get(mortgage_id) {
            None => return true,
            Some(mortgage) => mortgage,
        };
        if mortgage.status != MortgageStatus::Funded && mortgage.status
            != MortgageStatus::Repaying {
            return true;
        }
        if !mortgage.owed_in_range(env.timestamp) {
            return false;
        }
        Self::accrue(&mut mortgage, env.timestamp);
        let payoff: i128 = mortgage.outstanding + mortgage.interest_accrued;
        if amount < Self::instalment_due(&mortgage) && amount < payoff {
            return true;
        }
        let taken: i128 = if amount > payoff {
            payoff
        } else {
            amount
        };
        let interest: i128 = if taken >= mortgage.interest_accrued {
            mortgage.interest_accrued
        } else {
            taken
        };
        let principal: i128 = match taken.checked_sub(interest) {
            None => return false,
            Some(principal) => principal,
        };
        let cleared = principal == mortgage.outstanding && interest == mortgage.interest_accrued;
        mortgage.interest_accrued.checked_sub(interest).is_some()
            && mortgage.outstanding.checked_sub(principal).is_some()
            && mortgage.total_repaid.checked_add(taken).is_some()
            && mortgage.interest_paid.checked_add(interest).is_some() && mortgage.payments_made
            < u32::MAX && mortgage.next_payment_due <= u64::MAX - SECONDS_PER_MONTH && (!cleared
            || mortgage.principal.checked_sub(mortgage.disbursed).is_some())
    }

    /// Whether [`Self::disburse`] stays within range.
    pub fn disburse_in_range(
        &self,
        env: &Env,
        mortgage_id: u64,
        stage: u32,
        report: &StageReport,
    ) -> (r: bool)
        ensures
            r == self@.disburse_fits(mortgage_id, stage, *report, env.timestamp),
    {
        if self.before_disburse(mortgage_id).is_err() || !report.releasable
            || self.lending_pool.is_none() {
            return true;
        }
        match self.mortgages.get(mortgage_id) {
            None => true,
            Some(mortgage) => {
                let tranche: i128 = Self::tranche_for(&mortgage, stage);
                tranche <= 0 || (mortgage.accrue_in_range(env.timestamp)
                    && mortgage.disbursed.checked_add(tranche).is_some()
                    && mortgage.outstanding.checked_add(tranche).is_some() && (mortgage.disbursed
                    != 0 || env.timestamp <= u64::MAX - SECONDS_PER_MONTH))
            },
        }
    }

    /// Whether [`Self::mark_default`] stays within range.
    pub fn default_in_range(&self, env: &Env, mortgage_id: u64) -> (r: bool)
        ensures
            r == self@.default_fits(mortgage_id, env.timestamp),
    {
        match self.mortgages.get(mortgage_id) {
            None => true,
            Some(mortgage) => {
                if mortgage.status != MortgageStatus::Funded && mortgage.status
                    != MortgageStatus::Repaying {
                    return true;
                }
                if !mortgage.default_in_range(self.grace_secs) {
                    return false;
                }
                if !self.is_in_default(&mortgage, env.timestamp) || self.lending_pool.is_none()
                    || self.registry.is_none() {
                    return true;
                }
                mortgage.accrue_in_range(env.timestamp) && mortgage.principal.checked_sub(
                    mortgage.disbursed,
                ).is_some()
            },
        }
    }

    fn ltv_in_range(principal: i128, usdc_value: i128) -> (r: bool)
        ensures
            r == ltv_fits(principal as int, usdc_value as int),
    {
        principal.checked_mul(BPS_DENOMINATOR).is_some() && usdc_value.checked_mul(
            MAX_LTV_BPS,
        ).is_some()
    }

    // --- Getters ---
    pub fn get_mortgage(&self, mortgage_id: u64) -> (r: Result<Mortgage, Error>)
        ensures
            r == (if self@.mortgages.contains_key(mortgage_id) {
                Ok(self@.mortgages[mortgage_id])
            } else {
                Err(Error::UnknownMortgage)
            }),
    {
        self.mortgage_of(mortgage_id)
    }

    /// The principal and interest owed right now.
    pub fn current_balance(&self, env: &Env, mortgage_id: u64) -> (r: Result<(i128, i128), Error>)
        requires
            self@.mortgages.contains_key(mortgage_id)
                ==> self@.mortgages[mortgage_id].accrue_fits(env.timestamp),
        ensures
            if self@.mortgages.contains_key(mortgage_id) {
                let owed = self@.mortgages[mortgage_id].balance_at(env.timestamp);
                r is Ok && r->Ok_0.0 == owed.outstanding && r->Ok_0.1 == owed.interest
            } else {
                r == Err::<(i128, i128), _>(Error::UnknownMortgage)
            },
    {
        let mut mortgage = self.mortgage_of(mortgage_id)?;
        Self::accrue(&mut mortgage, env.timestamp);
        Ok((mortgage.outstanding, mortgage.interest_accrued))
    }

    /// What must be paid to keep the loan current: interest owed plus this
    /// period's slice of principal, and never more than the payoff.
    pub fn amount_due(&self, env: &Env, mortgage_id: u64) -> (r: Result<i128, Error>)
        requires
            self@.mortgages.contains_key(mortgage_id) ==> {
                &&& self@.mortgages[mortgage_id].term_months != 0
                &&& self@.mortgages[mortgage_id].owed_fits(env.timestamp)
            },
        ensures
            if self@.mortgages.contains_key(mortgage_id) {
                r is Ok && r->Ok_0 == self@.mortgages[mortgage_id].demand_at(env.timestamp)
            } else {
                r == Err::<i128, _>(Error::UnknownMortgage)
            },
    {
        let mut mortgage = self.mortgage_of(mortgage_id)?;
        Self::accrue(&mut mortgage, env.timestamp);
        let due: i128 = Self::instalment_due(&mortgage);
        let payoff: i128 = mortgage.outstanding + mortgage.interest_accrued;
        if due > payoff {
            Ok(payoff)
        } else {
            Ok(due)
        }
    }

    /// What it would cost to clear the loan outright today.
    pub fn payoff_amount(&self, env: &Env, mortgage_id: u64) -> (r: Result<i128, Error>)
        requires
            self@.mortgages.contains_key(mortgage_id) ==> {
                &&& self@.mortgages[mortgage_id].accrue_fits(env.timestamp)
                &&& fits(self@.mortgages[mortgage_id].balance_at(env.timestamp).payoff())
            },
        ensures
            if self@.mortgages.contains_key(mortgage_id) {
                r is Ok && r->Ok_0 == self@.mortgages[mortgage_id].balance_at(
                    env.timestamp,
                ).payoff()
            } else {
                r == Err::<i128, _>(Error::UnknownMortgage)
            },
    {
        let mut mortgage = self.mortgage_of(mortgage_id)?;
        Self::accrue(&mut mortgage, env.timestamp);
        Ok(mortgage.outstanding + mortgage.interest_accrued)
    }

    /// The tranche a given construction stage releases.
    pub fn tranche_amount(&self, mortgage_id: u64, stage: u32) -> (r: Result<i128, Error>)
        ensures
            if self@.mortgages.contains_key(mortgage_id) {
                r is Ok && r->Ok_0 == self@.mortgages[mortgage_id].tranche(stage)
            } else {
                r == Err::<i128, _>(Error::UnknownMortgage)
            },
    {
        let mortgage = self.mortgage_of(mortgage_id)?;
        Ok(Self::tranche_for(&mortgage, stage))
    }

    /// Whether the loan is open to [`Self::mark_default`] right now.
    pub fn is_defaultable(&self, env: &Env, mortgage_id: u64) -> (r: Result<bool, Error>)
        requires
            self@.mortgages.contains_key(mortgage_id) && self@.mortgages[mortgage_id].is_running()
                ==> self@.mortgages[mortgage_id].default_fits(self@.grace_secs),
        ensures
            r == (if self@.mortgages.contains_key(mortgage_id) {
                Ok(self@.defaultable(mortgage_id, env.timestamp))
            } else {
                Err(Error::UnknownMortgage)
            }),
    {
        let mortgage = self.mortgage_of(mortgage_id)?;
        Ok(
            (mortgage.status == MortgageStatus::Funded || mortgage.status
                == MortgageStatus::Repaying) && self.is_in_default(&mortgage, env.timestamp),
        )
    }

    pub fn mortgage_for_property(&self, property_id: u64) -> (r: Option<u64>)
        ensures
            r == (if self@.property_mortgages.contains_key(property_id) {
                Some(self@.property_mortgages[property_id])
            } else {
                None
            }),
    {
        self.property_mortgages.get(property_id)
    }

    pub fn is_underwriter(&self, underwriter: &Address) -> (r: bool)
        ensures
            r == self@.underwrites(*underwriter),
    {
        match self.underwriters.get(*underwriter) {
            Some(authorized) => authorized,
            None => false,
        }
    }

    pub fn get_admin(&self) -> (r: Address)
        requires
            self@.governance.admin is Some,
        ensures
            r == self@.governance.admin->0,
    {
        self.governance.admin.unwrap()
    }

    pub fn get_registry(&self) -> (r: Address)
        requires
            self@.registry is Some,
        ensures
            r == self@.registry->0,
    {
        self.registry.unwrap()
    }

    pub fn get_lending_pool(&self) -> (r: Address)
        requires
            self@.lending_pool is Some,
        ensures
            r == self@.lending_pool->0,
    {
        self.lending_pool.unwrap()
    }

    pub fn get_grace_secs(&self) -> (r: u64)
        ensures
            r == self@.grace_secs,
    {
        self.grace_secs
    }

    pub fn get_scheduled_action(&self) -> (r: Option<ScheduledAction>)
        ensures
            r == self@.governance.scheduled,
    {
        self.governance.scheduled
    }

    pub fn get_timelock_secs(&self) -> (r: u64)
        ensures
            r == (match self@.governance.timelock_secs {
                Some(secs) => secs,
                None => 0,
            }),
    {
        match self.governance.timelock_secs {
            Some(secs) => secs,
            None => 0,
        }
    }

    pub fn get_max_ltv_bps() -> (r: i128)
        ensures
            r == 8_000,
    {
        MAX_LTV_BPS
    }

    pub fn get_max_rate_bps() -> (r: u32)
        ensures
            r == 3_000,
    {
        MAX_RATE_BPS
    }

    pub fn get_seconds_per_month() -> (r: u64)
        ensures
            r == 30 * 24 * 60 * 60,
    {
        SECONDS_PER_MONTH
    }

    // --- Internals ---
    /// Charge interest for every whole month that has passed since the last
    /// accrual, on the balance outstanding.
    ///
    /// `last_accrued_at` advances by exactly the months charged, never to `now`,
    /// so no part-month is ever lost or double-charged however often this is
    /// called.
    pub fn accrue(mortgage: &mut Mortgage, now: u64)
        requires
            old(mortgage).accrue_fits(now),
        ensures
            final(mortgage).balance() == old(mortgage).balance_at(now),
            *final(mortgage) == (Mortgage {
                interest_accrued: final(mortgage).interest_accrued,
                interest_carry: final(mortgage).interest_carry,
                last_accrued_at: final(mortgage).last_accrued_at,
                ..*old(mortgage)
            }),
    {
        let months: u64 = mortgage.uncharged_months(now);
        if months == 0 {
            return ;
        }
        let numerator: i128 = mortgage.outstanding * mortgage.rate_bps as i128 * months as i128
            + mortgage.interest_carry;
        mortgage.interest_accrued = mortgage.interest_accrued + numerator / INTEREST_DIVISOR;
        mortgage.interest_carry = numerator % INTEREST_DIVISOR;
        mortgage.last_accrued_at = mortgage.last_accrued_at + months * SECONDS_PER_MONTH;
    }

    /// This period's instalment: interest owed plus a fixed slice of principal.
    ///
    /// The slice is the whole facility divided by the term, so the loan clears on
    /// schedule even though the balance is drawn down in stages. The final
    /// instalment is whatever is left.
    pub fn instalment_due(mortgage: &Mortgage) -> (r: i128)
        requires
            mortgage.term_months != 0,
            fits(mortgage.balance().due(mortgage.slice())),
        ensures
            r == mortgage.balance().due(mortgage.slice()),
    {
        let slice: i128 = mortgage.principal / mortgage.term_months as i128;
        let principal_part: i128 = if slice > mortgage.outstanding {
            mortgage.outstanding
        } else {
            slice
        };
        mortgage.interest_accrued + principal_part
    }

    /// The principal released at a construction stage.
    pub fn tranche_for(mortgage: &Mortgage, stage: u32) -> (r: i128)
        ensures
            r == mortgage.tranche(stage),
    {
        proof {
            lemma_tranche_fits(mortgage.principal as int);
        }
        let each: i128 = mortgage.principal / MILESTONE_COUNT as i128;
        if stage == MILESTONE_COUNT - 1 {
            mortgage.principal - each * (MILESTONE_COUNT as i128 - 1)
        } else {
            each
        }
    }

    /// A loan is in default once an instalment has been due, unpaid, for longer
    /// than the grace period.
    fn is_in_default(&self, mortgage: &Mortgage, now: u64) -> (r: bool)
        requires
            mortgage.default_fits(self@.grace_secs),
        ensures
            r == mortgage.in_default(now, self@.grace_secs),
    {
        if mortgage.next_payment_due == 0 {
            return false;
        }
        now > mortgage.next_payment_due + self.grace_secs
    }

    fn mortgage_of(&self, mortgage_id: u64) -> (r: Result<Mortgage, Error>)
        ensures
            r == (if self@.mortgages.contains_key(mortgage_id) {
                Ok(self@.mortgages[mortgage_id])
            } else {
                Err(Error::UnknownMortgage)
            }),
    {
        match self.mortgages.get(mortgage_id) {
            Some(mortgage) => Ok(mortgage),
            None => Err(Error::UnknownMortgage),
        }
    }

    /// Whether `principal` may be lent on `terms`.
    fn require_lendable(principal: i128, terms: &LendingTerms) -> (r: Result<(), Error>)
        requires
            terms.verified ==> ltv_fits(principal as int, terms.usdc_value as int),
        ensures
            r == (if !terms.verified {
                Err(Error::PropertyNotVerified)
            } else if exceeds_ltv(principal as int, terms.usdc_value as int) {
                Err(Error::ExceedsLtv)
            } else {
                Ok(())
            }),
    {
        if !terms.verified {
            return Err(Error::PropertyNotVerified);
        }
        if principal * BPS_DENOMINATOR > terms.usdc_value * MAX_LTV_BPS {
            return Err(Error::ExceedsLtv);
        }
        Ok(())
    }

    /// The application that `underwriter` may decide on.
    fn require_undecided(&self, underwriter: &Address, mortgage_id: u64) -> (r: Result<
        Mortgage,
        Error,
    >)
        ensures
            r == (match self@.decide_refusal(*underwriter, mortgage_id) {
                Some(refusal) => Err(refusal),
                None => Ok(self@.mortgages[mortgage_id]),
            }),
    {
        if !self.is_underwriter(underwriter) {
            return Err(Error::NotAuthorized);
        }
        let mortgage = self.mortgage_of(mortgage_id)?;
        if mortgage.status != MortgageStatus::Applied {
            return Err(Error::WrongStatus);
        }
        Ok(mortgage)
    }

    fn require_registry(&self) -> (r: Result<Address, Error>)
        ensures
            r == (match self@.registry {
                Some(registry) => Ok(registry),
                None => Err(Error::NotInitialized),
            }),
    {
        match self.registry {
            Some(registry) => Ok(registry),
            None => Err(Error::NotInitialized),
        }
    }

    fn require_lending_pool(&self) -> (r: Result<Address, Error>)
        ensures
            r == (match self@.lending_pool {
                Some(pool) => Ok(pool),
                None => Err(Error::NotInitialized),
            }),
    {
        match self.lending_pool {
            Some(pool) => Ok(pool),
            None => Err(Error::NotInitialized),
        }
    }
}

} // verus!
