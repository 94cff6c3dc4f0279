//! ShareLedger: the cap table, and the rental income each share has earned.
//!
//! One property's shares are tracked entirely separately from another's. A
//! holder's position is keyed by property and holder, so nothing that happens to
//! one building can reach the shareholders of another.
//!
//! The ledger also owns the income accounting, because the cap table is the only
//! thing that knows who held what and when. It holds no money: the income
//! distributor custodies the settlement asset and tells the ledger how much
//! arrived; the ledger decides whose it is.
//!
//! Every balance change settles the position first, so it leaves what every holder
//! could claim as it was: selling shares never forfeits income already earned, and
//! buying them never lays claim to income earned before the purchase. The fraction
//! of a unit that anchoring rounds away is charged to the carry, so all claims on a
//! property together are never more than the income deposited for it and not yet
//! paid out.

use crate::accrual::{
    carried, entitled, entitlement, entitlement_in_range, grown, left_over, owed, recarry,
    recarry_in_range, settle_fits, settle_in_range, spread, spread_fits, spread_in_range,
};
use crate::arith::fits;
use crate::governance::{outcome, Governance, GovernanceError};
use crate::host::{Address, Digest, Env};
use crate::table::{amount_of, StakeOf, Table};
use vstd::prelude::*;

pub use crate::accrual::SCALE;

verus! {

/// Why the ledger refuses a call.
#[derive(Copy, Clone, Debug, PartialEq, Eq, PartialOrd, Ord, Structural)]
pub enum Error {
    NotInitialized,
    NotAuthorized,
    AlreadySet,
    NoPendingAction,
    ActionPending,
    TimelockNotExpired,
    InvalidAmount,
    InsufficientShares,
    OfferingNotSet,
    DistributorNotSet,
    NothingIssued,
    SelfTransfer,
}

impl Error {
    /// The number the error is reported under.
    pub open spec fn number(self) -> u32 {
        match self {
            Error::NotInitialized => 2,
            Error::NotAuthorized => 3,
            Error::AlreadySet => 4,
            Error::NoPendingAction => 5,
            Error::ActionPending => 6,
            Error::TimelockNotExpired => 7,
            Error::InvalidAmount => 8,
            Error::InsufficientShares => 9,
            Error::OfferingNotSet => 10,
            Error::DistributorNotSet => 11,
            Error::NothingIssued => 12,
            Error::SelfTransfer => 13,
        }
    }

    /// The contract's name for an administrative refusal.
    pub open spec fn of(refusal: GovernanceError) -> Error {
        match refusal {
            GovernanceError::NotInitialized => Error::NotInitialized,
            GovernanceError::NotAuthorized => Error::NotAuthorized,
            GovernanceError::NoPendingAction => Error::NoPendingAction,
            GovernanceError::ActionPending => Error::ActionPending,
            GovernanceError::TimelockNotExpired => Error::TimelockNotExpired,
        }
    }

    /// The number the error is reported under.
    pub fn code(&self) -> (r: u32)
        ensures
            r == self.number(),
    {
        match *self {
            Error::NotInitialized => 2,
            Error::NotAuthorized => 3,
            Error::AlreadySet => 4,
            Error::NoPendingAction => 5,
            Error::ActionPending => 6,
            Error::TimelockNotExpired => 7,
            Error::InvalidAmount => 8,
            Error::InsufficientShares => 9,
            Error::OfferingNotSet => 10,
            Error::DistributorNotSet => 11,
            Error::NothingIssued => 12,
            Error::SelfTransfer => 13,
        }
    }

    fn from_governance(refusal: GovernanceError) -> (r: Error)
        ensures
            r == Error::of(refusal),
    {
        match refusal {
            GovernanceError::NotInitialized => Error::NotInitialized,
            GovernanceError::NotAuthorized => Error::NotAuthorized,
            GovernanceError::NoPendingAction => Error::NoPendingAction,
            GovernanceError::ActionPending => Error::ActionPending,
            GovernanceError::TimelockNotExpired => Error::TimelockNotExpired,
        }
    }
}

/// An administrative call's outcome, in the contract's own errors.
pub open spec fn admin_outcome(refusal: Option<GovernanceError>) -> Result<(), Error> {
    match refusal {
        Some(e) => Err(Error::of(e)),
        None => Ok(()),
    }
}

/// One holder's stake in one property.
///
/// `reward_debt` is the value of the property's accumulator against this balance
/// at the last settlement. `credited` is income already earned and set aside,
/// waiting to be claimed.
#[derive(Copy, Clone, Debug, PartialEq, Eq, Structural)]
pub struct Position {
    pub balance: i128,
    pub reward_debt: i128,
    pub credited: i128,
}

impl Position {
    /// The stake of somebody who never held shares.
    pub open spec fn none() -> Position {
        Position { balance: 0, reward_debt: 0, credited: 0 }
    }

    /// Income earned and not yet taken, at accumulator `acc`.
    pub open spec fn accrued(self, acc: i128) -> int {
        owed(self.balance as int, self.reward_debt as int, self.credited as int, acc as int)
    }

    pub open spec fn settle_fits(self, acc: i128) -> bool {
        settle_fits(self.balance as int, self.reward_debt as int, self.credited as int, acc as int)
    }

    /// `post` is this position with everything earned so far banked.
    pub open spec fn settled(self, post: Position, acc: i128) -> bool {
        &&& post.balance == self.balance
        &&& post.reward_debt == entitled(self.balance as int, acc as int)
        &&& post.credited == self.accrued(acc)
    }

    /// `post` is this position settled, with `delta` more shares, and anchored
    /// against the new balance.
    pub open spec fn moved(self, post: Position, acc: i128, delta: int) -> bool {
        &&& post.balance == self.balance + delta
        &&& post.reward_debt == entitled(post.balance as int, acc as int)
        &&& post.credited == self.accrued(acc)
    }

    /// Whether [`Position::moved`] can be computed.
    pub open spec fn move_fits(self, acc: i128, delta: int) -> bool {
        &&& self.settle_fits(acc)
        &&& fits(self.balance + delta)
        &&& fits((self.balance + delta) * acc)
    }

    /// Whether the position can be settled.
    pub fn settle_in_range(&self, acc: i128) -> (r: bool)
        ensures
            r == self.settle_fits(acc),
    {
        settle_in_range(self.balance, self.reward_debt, self.credited, acc)
    }

    /// Whether the position can be settled and take `delta` more shares.
    pub fn move_in_range(&self, acc: i128, delta: i128) -> (r: bool)
        ensures
            r == self.move_fits(acc, delta as int),
    {
        match self.balance.checked_add(delta) {
            None => false,
            Some(balance) => self.settle_in_range(acc) && entitlement_in_range(balance, acc),
        }
    }
}

/// A sensitive admin change that must wait out the timelock before it runs.
#[derive(Copy, Clone, Debug, PartialEq, Eq, Structural)]
pub enum Action {
    /// Replace the contract's code, keeping its address and storage.
    Upgrade(Digest),
}

pub type ScheduledAction = crate::governance::ScheduledAction<Action>;

/// What the ledger tells the world.
#[derive(Copy, Clone, Debug, PartialEq, Eq, Structural)]
pub enum Event {
    Issue { property: u64, to: Address, shares: i128, issued: i128 },
    Transfer { property: u64, from: Address, to: Address, shares: i128 },
    Accrue { property: u64, amount: i128, issued: i128 },
    Settled { property: u64, holder: Address, owed: i128 },
}

/// What the ledger asks of its host.
#[derive(Copy, Clone, Debug, PartialEq, Eq, Structural)]
pub enum Effect {
    Publish(Event),
    Upgrade(Digest),
}

/// The cap table.
#[derive(Debug)]
pub struct ShareLedgerContract {
    pub governance: Governance<Action>,
    /// The offering, the only caller allowed to issue shares.
    pub offering: Option<Address>,
    /// The income distributor, the only caller allowed to accrue and pay out.
    pub distributor: Option<Address>,
    pub positions: Table<StakeOf, Position>,
    /// Shares issued so far for each property.
    pub issued: Table<u64, i128>,
    /// Scaled income per share, over each property's life.
    pub acc: Table<u64, i128>,
    /// Income of each property that is in nobody's stake yet, in scaled units: what
    /// the last division left over, less what balance changes have rounded away
    /// since. Below nothing, it is made good by the income that arrives next.
    pub carry: Table<u64, i128>,
    pub outbox: Vec<Effect>,
}

/// The cap table as its contracts speak of it.
#[verifier::ext_equal]
pub struct ShareLedgerModel {
    pub governance: Governance<Action>,
    pub offering: Option<Address>,
    pub distributor: Option<Address>,
    pub positions: Map<StakeOf, Position>,
    pub issued: Map<u64, i128>,
    pub acc: Map<u64, i128>,
    pub carry: Map<u64, i128>,
    pub outbox: Seq<Effect>,
}

impl View for ShareLedgerContract {
    type V = ShareLedgerModel;

    open spec fn view(&self) -> ShareLedgerModel {
        ShareLedgerModel {
            governance: self.governance,
            offering: self.offering,
            distributor: self.distributor,
            positions: self.positions@,
            issued: self.issued@,
            acc: self.acc@,
            carry: self.carry@,
            outbox: self.outbox@,
        }
    }
}

impl ShareLedgerModel {
    /// The share ledger as it is deployed.
    pub open spec fn deployed(admin: Address, timelock_secs: u64) -> Self {
        ShareLedgerModel {
            governance: Governance {
                admin: Some(admin),
                pending_admin: None,
                timelock_secs: Some(timelock_secs),
                scheduled: None,
            },
            offering: None,
            distributor: None,
            positions: Map::empty(),
            issued: Map::empty(),
            acc: Map::empty(),
            carry: Map::empty(),
            outbox: Seq::empty(),
        }
    }

    /// What `holder` holds of `property`.
    pub open spec fn position(self, property: u64, holder: Address) -> Position {
        let key = StakeOf { property, party: holder };
        if self.positions.contains_key(key) {
            self.positions[key]
        } else {
            Position::none()
        }
    }

    /// Shares issued for `property`.
    pub open spec fn issued_of(self, property: u64) -> i128 {
        amount_of(self.issued, property)
    }

    /// The accumulator of `property`.
    pub open spec fn acc_of(self, property: u64) -> i128 {
        amount_of(self.acc, property)
    }

    /// The carry of `property`.
    pub open spec fn carry_of(self, property: u64) -> i128 {
        amount_of(self.carry, property)
    }

    /// The carry of `property` once a change of `holder`'s stake in it by `delta`
    /// shares is charged to `carry`.
    pub open spec fn recarried(self, carry: int, property: u64, holder: Address, delta: int) -> int {
        let balance = self.position(property, holder).balance as int;
        carried(carry, balance, balance + delta, self.acc_of(property) as int)
    }

    /// The carry of `property` after `shares` of it were issued to `to`.
    pub open spec fn carry_after_issue(self, property: u64, to: Address, shares: int) -> int {
        self.recarried(self.carry_of(property) as int, property, to, shares)
    }

    /// The carry of `property` after `from` has handed `shares` of it on.
    pub open spec fn carry_after_sale(self, property: u64, from: Address, shares: int) -> int {
        self.recarried(self.carry_of(property) as int, property, from, -shares)
    }

    /// The carry of `property` after `from` has handed `shares` of it to `to`.
    pub open spec fn carry_after_transfer(
        self,
        property: u64,
        from: Address,
        to: Address,
        shares: int,
    ) -> int {
        self.recarried(self.carry_after_sale(property, from, shares), property, to, shares)
    }

    /// What `holder` could claim of the income of `property`.
    pub open spec fn accrued(self, property: u64, holder: Address) -> int {
        self.position(property, holder).accrued(self.acc_of(property))
    }

    /// Why a call that only the offering may make is refused `caller`.
    pub open spec fn issuer_refusal(self, caller: Address) -> Option<Error> {
        if self.offering is None {
            Some(Error::OfferingNotSet)
        } else if self.offering != Some(caller) {
            Some(Error::NotAuthorized)
        } else {
            None
        }
    }

    /// Why a call that only the income distributor may make is refused `caller`.
    pub open spec fn payer_refusal(self, caller: Address) -> Option<Error> {
        if self.distributor is None {
            Some(Error::DistributorNotSet)
        } else if self.distributor != Some(caller) {
            Some(Error::NotAuthorized)
        } else {
            None
        }
    }
    /// The ledger with the offering that issues shares.
    pub open spec fn with_offering(self, offering: Address) -> Self {
        ShareLedgerModel { offering: Some(offering), ..self }
    }


    pub open spec fn set_offering_refusal(self, admin: Address) -> Option<Error> {
        match self.governance.admin_refusal(admin) {
            Some(e) => Some(Error::of(e)),
            None => if self.offering is Some {
                Some(Error::AlreadySet)
            } else {
                None
            },
        }
    }
    /// The ledger with the distributor that pays income in.
    pub open spec fn with_distributor(self, distributor: Address) -> Self {
        ShareLedgerModel { distributor: Some(distributor), ..self }
    }


    pub open spec fn set_distributor_refusal(self, admin: Address) -> Option<Error> {
        match self.governance.admin_refusal(admin) {
            Some(e) => Some(Error::of(e)),
            None => if self.distributor is Some {
                Some(Error::AlreadySet)
            } else {
                None
            },
        }
    }
    /// The ledger with the scheduled upgrade asked for.
    pub open spec fn executed(self) -> Self {
        ShareLedgerModel {
            governance: self.governance.with_nothing_scheduled(),
            outbox: self.outbox.push(
                match self.governance.scheduled->0.action {
                    Action::Upgrade(wasm_hash) => Effect::Upgrade(wasm_hash),
                },
            ),
            ..self
        }
    }


    pub open spec fn schedule_refusal(self, admin: Address) -> Option<Error> {
        match self.governance.schedule_refusal(admin) {
            Some(e) => Some(Error::of(e)),
            None => if self.governance.timelock_secs is None {
                Some(Error::NotInitialized)
            } else {
                None
            },
        }
    }

    pub open spec fn schedule_fits(self, admin: Address, now: u64) -> bool {
        self.schedule_refusal(admin) is None ==> self.governance.eta_fits(now)
    }

    // --- issue ---

    pub open spec fn issue_refusal(self, caller: Address, shares: i128) -> Option<Error> {
        if self.issuer_refusal(caller) is Some {
            self.issuer_refusal(caller)
        } else if shares <= 0 {
            Some(Error::InvalidAmount)
        } else {
            None
        }
    }

    pub open spec fn issue_fits(
        self,
        caller: Address,
        property: u64,
        to: Address,
        shares: i128,
    ) -> bool {
        self.issue_refusal(caller, shares) is None ==> {
            &&& self.position(property, to).move_fits(self.acc_of(property), shares as int)
            &&& fits(self.carry_after_issue(property, to, shares as int))
            &&& fits(self.issued_of(property) + shares)
        }
    }

    /// `post` is the ledger after `shares` of `property` were credited to `to`.
    pub open spec fn issued_to(self, post: Self, property: u64, to: Address, shares: i128) -> bool {
        let key = StakeOf { property, party: to };
        &&& self.position(property, to).moved(
            post.positions[key],
            self.acc_of(property),
            shares as int,
        )
        &&& post.issued[property] == self.issued_of(property) + shares
        &&& post.carry[property] == self.carry_after_issue(property, to, shares as int)
        &&& post == (ShareLedgerModel {
            positions: self.positions.insert(key, post.positions[key]),
            issued: self.issued.insert(property, post.issued[property]),
            carry: self.carry.insert(property, post.carry[property]),
            outbox: self.outbox.push(
                Effect::Publish(
                    Event::Issue { property, to, shares, issued: post.issued[property] },
                ),
            ),
            ..self
        })
    }

    // --- transfer ---

    pub open spec fn transfer_refusal(
        self,
        property: u64,
        from: Address,
        to: Address,
        shares: i128,
    ) -> Option<Error> {
        if shares <= 0 {
            Some(Error::InvalidAmount)
        } else if from == to {
            Some(Error::SelfTransfer)
        } else if self.position(property, from).balance < shares {
            Some(Error::InsufficientShares)
        } else {
            None
        }
    }

    pub open spec fn transfer_fits(
        self,
        property: u64,
        from: Address,
        to: Address,
        shares: i128,
    ) -> bool {
        self.transfer_refusal(property, from, to, shares) is None ==> {
            &&& self.position(property, from).move_fits(self.acc_of(property), -shares)
            &&& self.position(property, to).move_fits(self.acc_of(property), shares as int)
            &&& fits(self.carry_after_sale(property, from, shares as int))
            &&& fits(self.carry_after_transfer(property, from, to, shares as int))
        }
    }

    /// `post` is the ledger after `from` has handed `shares` of `property` to `to`.
    pub open spec fn transferred(
        self,
        post: Self,
        property: u64,
        from: Address,
        to: Address,
        shares: i128,
    ) -> bool {
        let seller = StakeOf { property, party: from };
        let buyer = StakeOf { property, party: to };
        &&& self.position(property, from).moved(
            post.positions[seller],
            self.acc_of(property),
            -shares,
        )
        &&& self.position(property, to).moved(
            post.positions[buyer],
            self.acc_of(property),
            shares as int,
        )
        &&& post.carry[property] == self.carry_after_transfer(property, from, to, shares as int)
        &&& post == (ShareLedgerModel {
            positions: self.positions.insert(seller, post.positions[seller]).insert(
                buyer,
                post.positions[buyer],
            ),
            carry: self.carry.insert(property, post.carry[property]),
            outbox: self.outbox.push(
                Effect::Publish(Event::Transfer { property, from, to, shares }),
            ),
            ..self
        })
    }

    // --- accrue ---

    pub open spec fn accrue_refusal(self, caller: Address, property: u64, amount: i128) -> Option<
        Error,
    > {
        if self.payer_refusal(caller) is Some {
            self.payer_refusal(caller)
        } else if amount <= 0 {
            Some(Error::InvalidAmount)
        } else if self.issued_of(property) <= 0 {
            Some(Error::NothingIssued)
        } else {
            None
        }
    }

    pub open spec fn accrue_fits(self, caller: Address, property: u64, amount: i128) -> bool {
        self.accrue_refusal(caller, property, amount) is None ==> spread_fits(
            amount as int,
            self.carry_of(property) as int,
            self.acc_of(property) as int,
            self.issued_of(property) as int,
        )
    }

    /// `post` is the ledger after `amount` was spread over the shares of `property`.
    pub open spec fn accrued_to(self, post: Self, property: u64, amount: i128) -> bool {
        let carry = self.carry_of(property) as int;
        let shares = self.issued_of(property);
        &&& post.acc[property] == grown(
            amount as int,
            carry,
            self.acc_of(property) as int,
            shares as int,
        )
        &&& post.carry[property] == left_over(amount as int, carry, shares as int)
        &&& post == (ShareLedgerModel {
            acc: self.acc.insert(property, post.acc[property]),
            carry: self.carry.insert(property, post.carry[property]),
            outbox: self.outbox.push(
                Effect::Publish(Event::Accrue { property, amount, issued: shares }),
            ),
            ..self
        })
    }

    // --- take_accrued ---

    pub open spec fn take_fits(self, caller: Address, property: u64, holder: Address) -> bool {
        self.payer_refusal(caller) is None ==> self.position(property, holder).settle_fits(
            self.acc_of(property),
        )
    }

    /// `post` is the ledger after `holder` was handed `taken`, everything owed.
    pub open spec fn taken(self, post: Self, property: u64, holder: Address, taken: i128) -> bool {
        let key = StakeOf { property, party: holder };
        let before = self.position(property, holder);
        &&& taken == before.accrued(self.acc_of(property))
        &&& post.positions[key].balance == before.balance
        &&& post.positions[key].reward_debt == entitled(
            before.balance as int,
            self.acc_of(property) as int,
        )
        &&& post.positions[key].credited == 0
        &&& post == (ShareLedgerModel {
            positions: self.positions.insert(key, post.positions[key]),
            outbox: if taken > 0 {
                self.outbox.push(Effect::Publish(Event::Settled { property, holder, owed: taken }))
            } else {
                self.outbox
            },
            ..self
        })
    }
}

impl ShareLedgerContract {
    /// The ledger as it is deployed: nothing issued and not yet wired.
    pub fn new(admin: Address, timelock_secs: u64) -> (ledger: Self)
        ensures
            ledger@ == ShareLedgerModel::deployed(admin, timelock_secs),
    {
        ShareLedgerContract {
            governance: Governance::new(admin, timelock_secs),
            offering: None,
            distributor: None,
            positions: Table::new(),
            issued: Table::new(),
            acc: Table::new(),
            carry: Table::new(),
            outbox: Vec::new(),
        }
    }

    // --- Administration ---

    /// Register the offering, the only caller allowed to issue shares. Can be set
    /// only once: rewiring it later would let the admin point the ledger at a
    /// contract that mints itself a majority of any property.
    pub fn set_offering(&mut self, env: &Env, admin: &Address, offering: &Address) -> (r: Result<
        (),
        Error,
    >)
        requires
            env.authorizes(*admin),
        ensures
            r == outcome(old(self)@.set_offering_refusal(*admin)),
            r is Err ==> final(self)@ == old(self)@,
            r is Ok ==> final(self)@ == old(self)@.with_offering(*offering),
    {
        match self.governance.require_admin(admin) {
            Err(e) => return Err(Error::from_governance(e)),
            Ok(()) => {},
        }
        if self.offering.is_some() {
            return Err(Error::AlreadySet);
        }
        self.offering = Some(*offering);
        Ok(())
    }

    /// Register the income distributor, the only caller allowed to record arriving
    /// income and to draw a holder's accrued balance down. Can be set only once,
    /// for the same reason.
    pub fn set_distributor(&mut self, env: &Env, admin: &Address, distributor: &Address) -> (r: Result<
        (),
        Error,
    >)
        requires
            env.authorizes(*admin),
        ensures
            r == outcome(old(self)@.set_distributor_refusal(*admin)),
            r is Err ==> final(self)@ == old(self)@,
            r is Ok ==> final(self)@ == old(self)@.with_distributor(*distributor),
    {
        match self.governance.require_admin(admin) {
            Err(e) => return Err(Error::from_governance(e)),
            Ok(()) => {},
        }
        if self.distributor.is_some() {
            return Err(Error::AlreadySet);
        }
        self.distributor = Some(*distributor);
        Ok(())
    }

    /// Put an upgrade in the queue, to execute once the timelock has elapsed.
    pub fn schedule_action(&mut self, env: &Env, admin: &Address, action: Action) -> (r: Result<
        (),
        Error,
    >)
        requires
            env.authorizes(*admin),
            old(self)@.schedule_fits(*admin, env.timestamp),
        ensures
            r == outcome(old(self)@.schedule_refusal(*admin)),
            r is Err ==> final(self)@ == old(self)@,
            r is Ok ==> final(self)@ == (ShareLedgerModel {
                governance: old(self)@.governance.with_queued(action, env.timestamp),
                ..old(self)@
            }),
    {
        match self.governance.require_idle(admin) {
            Err(e) => return Err(Error::from_governance(e)),
            Ok(()) => {},
        }
        match self.governance.schedule(action, env.timestamp) {
            Err(e) => Err(Error::from_governance(e)),
            Ok(()) => Ok(()),
        }
    }

    /// Carry out the scheduled action once its timelock has elapsed.
    pub fn execute_action(&mut self, env: &Env, admin: &Address) -> (r: Result<(), Error>)
        requires
            env.authorizes(*admin),
        ensures
            r == admin_outcome(old(self)@.governance.execute_refusal(*admin, env.timestamp)),
            r is Err ==> final(self)@ == old(self)@,
            r is Ok ==> final(self)@ == old(self)@.executed(),
    {
        match self.governance.due(admin, env.timestamp) {
            Err(e) => Err(Error::from_governance(e)),
            Ok(Action::Upgrade(wasm_hash)) => {
                self.governance.scheduled = None;
                self.outbox.push(Effect::Upgrade(wasm_hash));
                Ok(())
            },
        }
    }

    /// Withdraw the scheduled action before it executes.
    pub fn cancel_action(&mut self, env: &Env, admin: &Address) -> (r: Result<(), Error>)
        requires
            env.authorizes(*admin),
        ensures
            r == admin_outcome(old(self)@.governance.cancel_refusal(*admin)),
            r is Err ==> final(self)@ == old(self)@,
            r is Ok ==> final(self)@ == (ShareLedgerModel {
                governance: old(self)@.governance.with_nothing_scheduled(),
                ..old(self)@
            }),
    {
        match self.governance.cancel(admin) {
            Err(e) => Err(Error::from_governance(e)),
            Ok(()) => Ok(()),
        }
    }

    /// Begin handing the admin role to `new_admin`. Nothing changes until the
    /// new admin accepts.
    pub fn propose_admin(&mut self, env: &Env, admin: &Address, new_admin: &Address) -> (r: Result<
        (),
        Error,
    >)
        requires
            env.authorizes(*admin),
        ensures
            r == admin_outcome(old(self)@.governance.admin_refusal(*admin)),
            r is Err ==> final(self)@ == old(self)@,
            r is Ok ==> final(self)@ == (ShareLedgerModel {
                governance: old(self)@.governance.with_proposed(*new_admin),
                ..old(self)@
            }),
    {
        match self.governance.propose(admin, new_admin) {
            Err(e) => Err(Error::from_governance(e)),
            Ok(()) => Ok(()),
        }
    }

    /// Complete a handover proposed by the current admin.
    pub fn accept_admin(&mut self, env: &Env, new_admin: &Address) -> (r: Result<(), Error>)
        requires
            env.authorizes(*new_admin),
        ensures
            r == admin_outcome(old(self)@.governance.accept_refusal(*new_admin)),
            r is Err ==> final(self)@ == old(self)@,
            r is Ok ==> final(self)@ == (ShareLedgerModel {
                governance: old(self)@.governance.with_admin(*new_admin),
                ..old(self)@
            }),
    {
        match self.governance.accept(new_admin) {
            Err(e) => Err(Error::from_governance(e)),
            Ok(()) => Ok(()),
        }
    }

    // --- Primary issuance ---

    /// Credit shares to an investor as a settled offering is claimed.
    pub fn issue(&mut self, env: &Env, caller: &Address, property: u64, to: &Address, shares: i128)
        -> (r: Result<(), Error>)
        requires
            env.authorizes(*caller),
            old(self)@.issue_fits(*caller, property, *to, shares),
        ensures
            r == outcome(old(self)@.issue_refusal(*caller, shares)),
            r is Err ==> final(self)@ == old(self)@,
            r is Ok ==> old(self)@.issued_to(final(self)@, property, *to, shares),
    {
        self.require_offering(caller)?;
        if shares <= 0 {
            return Err(Error::InvalidAmount);
        }
        let acc: i128 = self.acc.amount(property);
        let mut position = self.position_of(property, to);
        Self::settle(&mut position, acc);
        let before: i128 = position.balance;
        position.balance = before + shares;
        Self::reset_debt(&mut position, acc);
        let carry: i128 = recarry(self.carry.amount(property), before, position.balance, acc);
        self.carry.insert(property, carry);
        self.positions.insert(StakeOf { property, party: *to }, position);

        let issued: i128 = self.issued.amount(property) + shares;
        self.issued.insert(property, issued);

        self.outbox.push(Effect::Publish(Event::Issue { property, to: *to, shares, issued }));
        Ok(())
    }

    // --- Secondary market ---

    /// Move shares between holders. Both sides' income is settled first, so the
    /// seller keeps everything earned up to this moment and the buyer earns only
    /// from here on.
    pub fn transfer(
        &mut self,
        env: &Env,
        property: u64,
        from: &Address,
        to: &Address,
        shares: i128,
    ) -> (r: Result<(), Error>)
        requires
            env.authorizes(*from),
            old(self)@.transfer_fits(property, *from, *to, shares),
        ensures
            r == outcome(old(self)@.transfer_refusal(property, *from, *to, shares)),
            r is Err ==> final(self)@ == old(self)@,
            r is Ok ==> old(self)@.transferred(final(self)@, property, *from, *to, shares),
    {
        if shares <= 0 {
            return Err(Error::InvalidAmount);
        }
        // A transfer to oneself would settle the same position twice.
        if *from == *to {
            return Err(Error::SelfTransfer);
        }
        let acc: i128 = self.acc.amount(property);

        let mut seller = self.position_of(property, from);
        if seller.balance < shares {
            return Err(Error::InsufficientShares);
        }
        Self::settle(&mut seller, acc);
        let held: i128 = seller.balance;
        seller.balance = held - shares;
        Self::reset_debt(&mut seller, acc);
        let sold: i128 = recarry(self.carry.amount(property), held, seller.balance, acc);
        self.positions.insert(StakeOf { property, party: *from }, seller);

        let mut buyer = self.position_of(property, to);
        Self::settle(&mut buyer, acc);
        let before: i128 = buyer.balance;
        buyer.balance = before + shares;
        Self::reset_debt(&mut buyer, acc);
        let carry: i128 = recarry(sold, before, buyer.balance, acc);
        self.carry.insert(property, carry);
        self.positions.insert(StakeOf { property, party: *to }, buyer);

        self.outbox.push(
            Effect::Publish(Event::Transfer { property, from: *from, to: *to, shares }),
        );
        Ok(())
    }

    // --- Income accounting ---

    /// Record income that arrived for a property, spreading it over every share
    /// issued at this moment, once it has made the carry good. Income arriving before anything is issued would have
    /// nobody to belong to, so it is refused outright.
    pub fn accrue(&mut self, env: &Env, caller: &Address, property: u64, amount: i128) -> (r:
        Result<(), Error>)
        requires
            env.authorizes(*caller),
            old(self)@.accrue_fits(*caller, property, amount),
        ensures
            r == outcome(old(self)@.accrue_refusal(*caller, property, amount)),
            r is Err ==> final(self)@ == old(self)@,
            r is Ok ==> old(self)@.accrued_to(final(self)@, property, amount),
    {
        self.require_distributor(caller)?;
        if amount <= 0 {
            return Err(Error::InvalidAmount);
        }
        let issued: i128 = self.issued.amount(property);
        if issued <= 0 {
            return Err(Error::NothingIssued);
        }
        let (acc, carry) = spread(
            amount,
            self.carry.amount(property),
            self.acc.amount(property),
            issued,
        );
        self.acc.insert(property, acc);
        self.carry.insert(property, carry);

        self.outbox.push(Effect::Publish(Event::Accrue { property, amount, issued }));
        Ok(())
    }

    /// Settle a holder's position and hand back everything owed, zeroing their
    /// credit.
    pub fn take_accrued(&mut self, env: &Env, caller: &Address, property: u64, holder: &Address)
        -> (r: Result<i128, Error>)
        requires
            env.authorizes(*caller),
            old(self)@.take_fits(*caller, property, *holder),
        ensures
            match old(self)@.payer_refusal(*caller) {
                Some(refusal) => r == Err::<i128, _>(refusal) && final(self)@ == old(self)@,
                None => r is Ok && old(self)@.taken(final(self)@, property, *holder, r->Ok_0),
            },
    {
        self.require_distributor(caller)?;
        let acc: i128 = self.acc.amount(property);
        let mut position = self.position_of(property, holder);
        Self::settle(&mut position, acc);
        let taken: i128 = position.credited;
        position.credited = 0;
        self.positions.insert(StakeOf { property, party: *holder }, position);

        if taken > 0 {
            self.outbox.push(
                Effect::Publish(Event::Settled { property, holder: *holder, owed: taken }),
            );
        }
        Ok(taken)
    }

    // --- Ranges ---
    /// Whether [`Self::schedule_action`] stays within range.
    pub fn schedule_in_range(&self, env: &Env, admin: &Address) -> (r: bool)
        ensures
            r == self@.schedule_fits(*admin, env.timestamp),
    {
        self.governance.require_idle(admin).is_err() || self.governance.eta_in_range(env.timestamp)
    }

    /// Whether [`Self::issue`] stays within range.
    pub fn issue_in_range(&self, caller: &Address, property: u64, to: &Address, shares: i128) -> (r:
        bool)
        ensures
            r == self@.issue_fits(*caller, property, *to, shares),
    {
        if self.require_offering(caller).is_err() || shares <= 0 {
            return true;
        }
        let acc: i128 = self.acc.amount(property);
        let position = self.position_of(property, to);
        position.move_in_range(acc, shares) && recarry_in_range(
            self.carry.amount(property),
            position.balance,
            position.balance + shares,
            acc,
        ) && self.issued.amount(property).checked_add(shares).is_some()
    }

    /// Whether [`Self::transfer`] stays within range.
    pub fn transfer_in_range(&self, property: u64, from: &Address, to: &Address, shares: i128)
        -> (r: bool)
        ensures
            r == self@.transfer_fits(property, *from, *to, shares),
    {
        let seller = self.position_of(property, from);
        if shares <= 0 || *from == *to || seller.balance < shares {
            return true;
        }
        let acc: i128 = self.acc.amount(property);
        let buyer = self.position_of(property, to);
        let carry: i128 = self.carry.amount(property);
        if !seller.move_in_range(acc, -shares) || !buyer.move_in_range(acc, shares)
            || !recarry_in_range(carry, seller.balance, seller.balance - shares, acc) {
            return false;
        }
        let sold: i128 = recarry(carry, seller.balance, seller.balance - shares, acc);
        recarry_in_range(sold, buyer.balance, buyer.balance + shares, acc)
    }

    /// Whether [`Self::accrue`] stays within range.
    pub fn accrue_in_range(&self, caller: &Address, property: u64, amount: i128) -> (r: bool)
        ensures
            r == self@.accrue_fits(*caller, property, amount),
    {
        let issued: i128 = self.issued.amount(property);
        if self.require_distributor(caller).is_err() || amount <= 0 || issued <= 0 {
            return true;
        }
        spread_in_range(
            amount,
            self.carry.amount(property),
            self.acc.amount(property),
            issued,
        )
    }

    /// Whether [`Self::take_accrued`] stays within range.
    pub fn take_in_range(&self, caller: &Address, property: u64, holder: &Address) -> (r: bool)
        ensures
            r == self@.take_fits(*caller, property, *holder),
    {
        self.require_distributor(caller).is_err() || self.accrued_in_range(property, holder)
    }

    /// Whether [`Self::accrued_of`] stays within range.
    pub fn accrued_in_range(&self, property: u64, holder: &Address) -> (r: bool)
        ensures
            r == self@.position(property, *holder).settle_fits(self@.acc_of(property)),
    {
        self.position_of(property, holder).settle_in_range(self.acc.amount(property))
    }

    // --- Getters ---
    pub fn balance_of(&self, property: u64, holder: &Address) -> (r: i128)
        ensures
            r == self@.position(property, *holder).balance,
    {
        self.position_of(property, holder).balance
    }

    pub fn position_of_holder(&self, property: u64, holder: &Address) -> (r: Position)
        ensures
            r == self@.position(property, *holder),
    {
        self.position_of(property, holder)
    }

    /// What `holder` could claim right now, without changing anything.
    pub fn accrued_of(&self, property: u64, holder: &Address) -> (r: i128)
        requires
            self@.position(property, *holder).settle_fits(self@.acc_of(property)),
        ensures
            r == self@.accrued(property, *holder),
    {
        let mut position = self.position_of(property, holder);
        Self::settle(&mut position, self.acc.amount(property));
        position.credited
    }

    pub fn total_issued(&self, property: u64) -> (r: i128)
        ensures
            r == self@.issued_of(property),
    {
        self.issued.amount(property)
    }

    pub fn acc_per_share(&self, property: u64) -> (r: i128)
        ensures
            r == self@.acc_of(property),
    {
        self.acc.amount(property)
    }

    /// Income that is in nobody's stake yet, in the accumulator's scaled units,
    /// waiting to be folded into the next deposit. Below nothing, the next deposit
    /// makes it good first.
    pub fn carry_of_property(&self, property: u64) -> (r: i128)
        ensures
            r == self@.carry_of(property),
    {
        self.carry.amount(property)
    }

    pub fn get_admin(&self) -> (r: Address)
        requires
            self@.governance.admin is Some,
        ensures
            r == self@.governance.admin->0,
    {
        self.governance.admin.unwrap()
    }

    pub fn get_offering(&self) -> (r: Option<Address>)
        ensures
            r == self@.offering,
    {
        self.offering
    }

    pub fn get_distributor(&self) -> (r: Option<Address>)
        ensures
            r == self@.distributor,
    {
        self.distributor
    }

    pub fn get_scheduled_action(&self) -> (r: Option<ScheduledAction>)
        ensures
            r == self@.governance.scheduled,
    {
        self.governance.scheduled
    }

    pub fn get_timelock_secs(&self) -> (r: u64)
        ensures
            r == (match self@.governance.timelock_secs {
                Some(secs) => secs,
                None => 0,
            }),
    {
        match self.governance.timelock_secs {
            Some(secs) => secs,
            None => 0,
        }
    }

    // --- Internals ---
    /// Bank what the current balance has earned since the last settlement. Must
    /// run before any balance change, and is idempotent once
    /// [`Self::reset_debt`] has followed it.
    pub fn settle(position: &mut Position, acc: i128)
        requires
            old(position).settle_fits(acc),
        ensures
            old(position).settled(*final(position), acc),
    {
        let entitled_now: i128 = entitlement(position.balance, acc);
        position.credited = position.credited + (entitled_now - position.reward_debt);
        position.reward_debt = entitled_now;
    }

    /// Re-anchor the position against a changed balance, so a change of balance is
    /// not itself paid for. The anchor is in whole units; the caller charges the
    /// fraction of a unit it leaves out to the carry.
    pub fn reset_debt(position: &mut Position, acc: i128)
        requires
            fits(old(position).balance * acc),
        ensures
            final(position).reward_debt == entitled(old(position).balance as int, acc as int),
            *final(position) == (Position {
                reward_debt: final(position).reward_debt,
                ..*old(position)
            }),
    {
        position.reward_debt = entitlement(position.balance, acc);
    }

    fn position_of(&self, property: u64, holder: &Address) -> (r: Position)
        ensures
            r == self@.position(property, *holder),
    {
        match self.positions.get(StakeOf { property, party: *holder }) {
            Some(position) => position,
            None => Position { balance: 0, reward_debt: 0, credited: 0 },
        }
    }

    fn require_offering(&self, caller: &Address) -> (r: Result<(), Error>)
        ensures
            r == outcome(self@.issuer_refusal(*caller)),
    {
        match self.offering {
            None => Err(Error::OfferingNotSet),
            Some(wired) => if *caller != wired {
                Err(Error::NotAuthorized)
            } else {
                Ok(())
            },
        }
    }

    fn require_distributor(&self, caller: &Address) -> (r: Result<(), Error>)
        ensures
            r == outcome(self@.payer_refusal(*caller)),
    {
        match self.distributor {
            None => Err(Error::DistributorNotSet),
            Some(wired) => if *caller != wired {
                Err(Error::NotAuthorized)
            } else {
                Ok(())
            },
        }
    }
}

} // verus!
