//! IncomeDistributor: custody of rental income, and the window shareholders
//! collect it through.
//!
//! Rent arrives off the ledger and is deposited here in the settlement asset. This
//! contract holds it and nothing else: who is owed what belongs to the share
//! ledger, which is the only thing that knows who held which shares when. The
//! contract holding the money cannot decide whose it is, and the contract deciding
//! whose it is cannot move it.
//!
//! Holders are never paid automatically. Each one claims their own, whenever they
//! like.

use crate::arith::fits;
use crate::governance::{outcome, Governance, GovernanceError};
use crate::host::{Address, Digest, Env, Transfer};
use crate::table::{amount_of, Table};
use vstd::prelude::*;

verus! {

/// Why the income distributor refuses a call.
#[derive(Copy, Clone, Debug, PartialEq, Eq, PartialOrd, Ord, Structural)]
pub enum Error {
    NotInitialized,
    NotAuthorized,
    NoPendingAction,
    ActionPending,
    TimelockNotExpired,
    InvalidAmount,
    NothingToClaim,
}

impl Error {
    /// The number the error is reported under.
    pub open spec fn number(self) -> u32 {
        match self {
            Error::NotInitialized => 2,
            Error::NotAuthorized => 3,
            Error::NoPendingAction => 5,
            Error::ActionPending => 6,
            Error::TimelockNotExpired => 7,
            Error::InvalidAmount => 8,
            Error::NothingToClaim => 9,
        }
    }

    /// The contract's name for an administrative refusal.
    pub open spec fn of(refusal: GovernanceError) -> Error {
        match refusal {
            GovernanceError::NotInitialized => Error::NotInitialized,
            GovernanceError::NotAuthorized => Error::NotAuthorized,
            GovernanceError::NoPendingAction => Error::NoPendingAction,
            GovernanceError::ActionPending => Error::ActionPending,
            GovernanceError::TimelockNotExpired => Error::TimelockNotExpired,
        }
    }

    /// The number the error is reported under.
    pub fn code(&self) -> (r: u32)
        ensures
            r == self.number(),
    {
        match *self {
            Error::NotInitialized => 2,
            Error::NotAuthorized => 3,
            Error::NoPendingAction => 5,
            Error::ActionPending => 6,
            Error::TimelockNotExpired => 7,
            Error::InvalidAmount => 8,
            Error::NothingToClaim => 9,
        }
    }

    fn from_governance(refusal: GovernanceError) -> (r: Error)
        ensures
            r == Error::of(refusal),
    {
        match refusal {
            GovernanceError::NotInitialized => Error::NotInitialized,
            GovernanceError::NotAuthorized => Error::NotAuthorized,
            GovernanceError::NoPendingAction => Error::NoPendingAction,
            GovernanceError::ActionPending => Error::ActionPending,
            GovernanceError::TimelockNotExpired => Error::TimelockNotExpired,
        }
    }
}

/// An administrative call's outcome, in the contract's own errors.
pub open spec fn admin_outcome(refusal: Option<GovernanceError>) -> Result<(), Error> {
    match refusal {
        Some(e) => Err(Error::of(e)),
        None => Ok(()),
    }
}

/// A sensitive admin change that must wait out the timelock before it runs.
#[derive(Copy, Clone, Debug, PartialEq, Eq, Structural)]
pub enum Action {
    /// Replace the contract's code, keeping its address and storage.
    Upgrade(Digest),
}

pub type ScheduledAction = crate::governance::ScheduledAction<Action>;

/// What the income distributor tells the world.
#[derive(Copy, Clone, Debug, PartialEq, Eq, Structural)]
pub enum Event {
    Deposit { property: u64, from: Address, amount: i128, total: i128 },
    Claim { property: u64, holder: Address, owed: i128 },
}

/// Which share ledger to ask, and about whose income from which property.
#[derive(Copy, Clone, Debug, PartialEq, Eq, Structural)]
pub struct LedgerQuery {
    pub ledger: Address,
    pub property: u64,
    pub holder: Address,
}

/// A call on the share ledger, made in the income distributor's own name.
#[derive(Copy, Clone, Debug, PartialEq, Eq, Structural)]
pub enum LedgerCall {
    Accrue { property: u64, amount: i128 },
}

/// What the income distributor asks of its host.
#[derive(Copy, Clone, Debug, PartialEq, Eq, Structural)]
pub enum Effect {
    CallLedger { ledger: Address, call: LedgerCall },
    Transfer(Transfer),
    Publish(Event),
    Upgrade(Digest),
}

/// The custodian of rental income.
#[derive(Debug)]
pub struct IncomeDistributorContract {
    pub governance: Governance<Action>,
    pub share_ledger: Option<Address>,
    pub settlement_token: Option<Address>,
    /// Running total ever deposited for each property.
    pub deposited: Table<u64, i128>,
    /// Running total ever paid out for each property.
    pub claimed: Table<u64, i128>,
    pub outbox: Vec<Effect>,
}

/// The custodian as its contracts speak of it.
#[verifier::ext_equal]
pub struct IncomeDistributorModel {
    pub governance: Governance<Action>,
    pub share_ledger: Option<Address>,
    pub settlement_token: Option<Address>,
    pub deposited: Map<u64, i128>,
    pub claimed: Map<u64, i128>,
    pub outbox: Seq<Effect>,
}

impl View for IncomeDistributorContract {
    type V = IncomeDistributorModel;

    open spec fn view(&self) -> IncomeDistributorModel {
        IncomeDistributorModel {
            governance: self.governance,
            share_ledger: self.share_ledger,
            settlement_token: self.settlement_token,
            deposited: self.deposited@,
            claimed: self.claimed@,
            outbox: self.outbox@,
        }
    }
}

impl IncomeDistributorModel {
    /// The distributor as it is deployed.
    pub open spec fn deployed(
        admin: Address,
        share_ledger: Address,
        settlement_token: Address,
        timelock_secs: u64,
    ) -> Self {
        IncomeDistributorModel {
            governance: Governance {
                admin: Some(admin),
                pending_admin: None,
                timelock_secs: Some(timelock_secs),
                scheduled: None,
            },
            share_ledger: Some(share_ledger),
            settlement_token: Some(settlement_token),
            deposited: Map::empty(),
            claimed: Map::empty(),
            outbox: Seq::empty(),
        }
    }

    /// Ever deposited for `property`.
    pub open spec fn deposited_of(self, property: u64) -> i128 {
        amount_of(self.deposited, property)
    }

    /// Ever paid out for `property`.
    pub open spec fn claimed_of(self, property: u64) -> i128 {
        amount_of(self.claimed, property)
    }

    /// Income received for a property and not yet collected.
    pub open spec fn unclaimed_of(self, property: u64) -> int {
        self.deposited_of(property) - self.claimed_of(property)
    }
    /// The distributor with the scheduled upgrade asked for.
    pub open spec fn executed(self) -> Self {
        IncomeDistributorModel {
            governance: self.governance.with_nothing_scheduled(),
            outbox: self.outbox.push(
                match self.governance.scheduled->0.action {
                    Action::Upgrade(wasm_hash) => Effect::Upgrade(wasm_hash),
                },
            ),
            ..self
        }
    }


    pub open spec fn schedule_refusal(self, admin: Address) -> Option<Error> {
        match self.governance.schedule_refusal(admin) {
            Some(e) => Some(Error::of(e)),
            None => if self.governance.timelock_secs is None {
                Some(Error::NotInitialized)
            } else {
                None
            },
        }
    }

    pub open spec fn schedule_fits(self, admin: Address, now: u64) -> bool {
        self.schedule_refusal(admin) is None ==> self.governance.eta_fits(now)
    }

    // --- deposit_income ---

    pub open spec fn deposit_refusal(self, amount: i128) -> Option<Error> {
        if amount <= 0 {
            Some(Error::InvalidAmount)
        } else if self.share_ledger is None || self.settlement_token is None {
            Some(Error::NotInitialized)
        } else {
            None
        }
    }

    pub open spec fn deposit_fits(self, property: u64, amount: i128) -> bool {
        self.deposit_refusal(amount) is None ==> fits(self.deposited_of(property) + amount)
    }

    /// `post` is the custodian after `from` paid rent in. The share ledger is told
    /// before the money moves, so a property that cannot take it rejects it first.
    pub open spec fn received(
        self,
        post: Self,
        env: Env,
        property: u64,
        from: Address,
        amount: i128,
    ) -> bool {
        &&& post.deposited[property] == self.deposited_of(property) + amount
        &&& post == (IncomeDistributorModel {
            deposited: self.deposited.insert(property, post.deposited[property]),
            outbox: self.outbox.push(
                Effect::CallLedger {
                    ledger: self.share_ledger->0,
                    call: LedgerCall::Accrue { property, amount },
                },
            ).push(
                Effect::Transfer(
                    Transfer {
                        token: self.settlement_token->0,
                        from,
                        to: env.contract,
                        amount,
                    },
                ),
            ).push(
                Effect::Publish(
                    Event::Deposit { property, from, amount, total: post.deposited[property] },
                ),
            ),
            ..self
        })
    }

    // --- claim ---

    /// Where to ask what `holder` is owed.
    pub open spec fn query(self, property: u64, holder: Address) -> Result<LedgerQuery, Error> {
        match self.share_ledger {
            Some(ledger) => Ok(LedgerQuery { ledger, property, holder }),
            None => Err(Error::NotInitialized),
        }
    }

    pub open spec fn claim_refusal(self, owed: i128) -> Option<Error> {
        if self.share_ledger is None {
            Some(Error::NotInitialized)
        } else if owed <= 0 {
            Some(Error::NothingToClaim)
        } else if self.settlement_token is None {
            Some(Error::NotInitialized)
        } else {
            None
        }
    }

    pub open spec fn claim_fits(self, property: u64, owed: i128) -> bool {
        self.claim_refusal(owed) is None ==> fits(self.claimed_of(property) + owed)
    }

    /// `post` is the custodian after `holder` was paid what the ledger handed back.
    pub open spec fn paid_out(
        self,
        post: Self,
        env: Env,
        property: u64,
        holder: Address,
        owed: i128,
    ) -> bool {
        &&& post.claimed[property] == self.claimed_of(property) + owed
        &&& post == (IncomeDistributorModel {
            claimed: self.claimed.insert(property, post.claimed[property]),
            outbox: self.outbox.push(
                Effect::Transfer(
                    Transfer {
                        token: self.settlement_token->0,
                        from: env.contract,
                        to: holder,
                        amount: owed,
                    },
                ),
            ).push(Effect::Publish(Event::Claim { property, holder, owed })),
            ..self
        })
    }
}

impl IncomeDistributorContract {
    /// The income distributor as it is deployed: configured, holding nothing.
    pub fn new(
        admin: Address,
        share_ledger: Address,
        settlement_token: Address,
        timelock_secs: u64,
    ) -> (distributor: Self)
        ensures
            distributor@ == IncomeDistributorModel::deployed(
                admin,
                share_ledger,
                settlement_token,
                timelock_secs,
            ),
    {
        IncomeDistributorContract {
            governance: Governance::new(admin, timelock_secs),
            share_ledger: Some(share_ledger),
            settlement_token: Some(settlement_token),
            deposited: Table::new(),
            claimed: Table::new(),
            outbox: Vec::new(),
        }
    }

    // --- Income ---
    /// Pay rent in for a property, to be shared out across its shares. Open to
    /// anyone: a deposit only ever gives money away to the people who already hold
    /// the shares. Whether it can be shared out at all is the ledger's call.
    pub fn deposit_income(&mut self, env: &Env, property: u64, from: &Address, amount: i128) -> (r:
        Result<(), Error>)
        requires
            env.authorizes(*from),
            old(self)@.deposit_fits(property, amount),
        ensures
            r == outcome(old(self)@.deposit_refusal(amount)),
            r is Err ==> final(self)@ == old(self)@,
            r is Ok ==> old(self)@.received(final(self)@, *env, property, *from, amount),
    {
        if amount <= 0 {
            return Err(Error::InvalidAmount);
        }
        let ledger = self.require_ledger()?;
        let token = self.require_token()?;
        let total: i128 = self.deposited.amount(property) + amount;
        self.outbox.push(
            Effect::CallLedger { ledger, call: LedgerCall::Accrue { property, amount } },
        );
        self.outbox.push(
            Effect::Transfer(Transfer { token, from: *from, to: env.contract, amount }),
        );
        self.deposited.insert(property, total);
        self.outbox.push(Effect::Publish(Event::Deposit { property, from: *from, amount, total }));
        Ok(())
    }

    /// Which ledger is to settle `holder` and hand back what they are owed, before
    /// [`Self::claim`].
    pub fn before_claim(&self, property: u64, holder: &Address) -> (r: Result<LedgerQuery, Error>)
        ensures
            r == self@.query(property, *holder),
    {
        let ledger = self.require_ledger()?;
        Ok(LedgerQuery { ledger, property, holder: *holder })
    }

    /// Collect everything a holder has earned on a property and not yet taken:
    /// `owed`, which the ledger has handed back.
    pub fn claim(&mut self, env: &Env, property: u64, holder: &Address, owed: i128) -> (r: Result<
        i128,
        Error,
    >)
        requires
            env.authorizes(*holder),
            old(self)@.claim_fits(property, owed),
        ensures
            match old(self)@.claim_refusal(owed) {
                Some(refusal) => r == Err::<i128, _>(refusal) && final(self)@ == old(self)@,
                None => {
                    &&& r == Ok::<_, Error>(owed)
                    &&& old(self)@.paid_out(final(self)@, *env, property, *holder, owed)
                },
            },
    {
        self.require_ledger()?;
        if owed <= 0 {
            return Err(Error::NothingToClaim);
        }
        let token = self.require_token()?;
        let total: i128 = self.claimed.amount(property) + owed;
        self.outbox.push(
            Effect::Transfer(Transfer { token, from: env.contract, to: *holder, amount: owed }),
        );
        self.claimed.insert(property, total);
        self.outbox.push(Effect::Publish(Event::Claim { property, holder: *holder, owed }));
        Ok(owed)
    }

    // --- Administration ---
    /// Put an upgrade in the queue, to execute once the timelock has elapsed.
    pub fn schedule_action(&mut self, env: &Env, admin: &Address, action: Action) -> (r: Result<
        (),
        Error,
    >)
        requires
            env.authorizes(*admin),
            old(self)@.schedule_fits(*admin, env.timestamp),
        ensures
            r == outcome(old(self)@.schedule_refusal(*admin)),
            r is Err ==> final(self)@ == old(self)@,
            r is Ok ==> final(self)@ == (IncomeDistributorModel {
                governance: old(self)@.governance.with_queued(action, env.timestamp),
                ..old(self)@
            }),
    {
        match self.governance.require_idle(admin) {
            Err(e) => return Err(Error::from_governance(e)),
            Ok(()) => {},
        }
        match self.governance.schedule(action, env.timestamp) {
            Err(e) => Err(Error::from_governance(e)),
            Ok(()) => Ok(()),
        }
    }

    /// Carry out the scheduled action once its timelock has elapsed.
    pub fn execute_action(&mut self, env: &Env, admin: &Address) -> (r: Result<(), Error>)
        requires
            env.authorizes(*admin),
        ensures
            r == admin_outcome(old(self)@.governance.execute_refusal(*admin, env.timestamp)),
            r is Err ==> final(self)@ == old(self)@,
            r is Ok ==> final(self)@ == old(self)@.executed(),
    {
        match self.governance.due(admin, env.timestamp) {
            Err(e) => Err(Error::from_governance(e)),
            Ok(Action::Upgrade(wasm_hash)) => {
                self.governance.scheduled = None;
                self.outbox.push(Effect::Upgrade(wasm_hash));
                Ok(())
            },
        }
    }

    /// Withdraw the scheduled action before it executes.
    pub fn cancel_action(&mut self, env: &Env, admin: &Address) -> (r: Result<(), Error>)
        requires
            env.authorizes(*admin),
        ensures
            r == admin_outcome(old(self)@.governance.cancel_refusal(*admin)),
            r is Err ==> final(self)@ == old(self)@,
            r is Ok ==> final(self)@ == (IncomeDistributorModel {
                governance: old(self)@.governance.with_nothing_scheduled(),
                ..old(self)@
            }),
    {
        match self.governance.cancel(admin) {
            Err(e) => Err(Error::from_governance(e)),
            Ok(()) => Ok(()),
        }
    }

    /// Begin handing the admin role to `new_admin`. Nothing changes until the
    /// new admin accepts.
    pub fn propose_admin(&mut self, env: &Env, admin: &Address, new_admin: &Address) -> (r: Result<
        (),
        Error,
    >)
        requires
            env.authorizes(*admin),
        ensures
            r == admin_outcome(old(self)@.governance.admin_refusal(*admin)),
            r is Err ==> final(self)@ == old(self)@,
            r is Ok ==> final(self)@ == (IncomeDistributorModel {
                governance: old(self)@.governance.with_proposed(*new_admin),
                ..old(self)@
            }),
    {
        match self.governance.propose(admin, new_admin) {
            Err(e) => Err(Error::from_governance(e)),
            Ok(()) => Ok(()),
        }
    }

    /// Complete a handover proposed by the current admin.
    pub fn accept_admin(&mut self, env: &Env, new_admin: &Address) -> (r: Result<(), Error>)
        requires
            env.authorizes(*new_admin),
        ensures
            r == admin_outcome(old(self)@.governance.accept_refusal(*new_admin)),
            r is Err ==> final(self)@ == old(self)@,
            r is Ok ==> final(self)@ == (IncomeDistributorModel {
                governance: old(self)@.governance.with_admin(*new_admin),
                ..old(self)@
            }),
    {
        match self.governance.accept(new_admin) {
            Err(e) => Err(Error::from_governance(e)),
            Ok(()) => Ok(()),
        }
    }

    // --- Ranges ---
    /// Whether [`Self::schedule_action`] stays within range.
    pub fn schedule_in_range(&self, env: &Env, admin: &Address) -> (r: bool)
        ensures
            r == self@.schedule_fits(*admin, env.timestamp),
    {
        self.governance.require_idle(admin).is_err() || self.governance.eta_in_range(env.timestamp)
    }

    /// Whether [`Self::deposit_income`] stays within range.
    pub fn deposit_in_range(&self, property: u64, amount: i128) -> (r: bool)
        ensures
            r == self@.deposit_fits(property, amount),
    {
        amount <= 0 || self.share_ledger.is_none() || self.settlement_token.is_none()
            || self.deposited.amount(property).checked_add(amount).is_some()
    }

    /// Whether [`Self::claim`] stays within range.
    pub fn claim_in_range(&self, property: u64, owed: i128) -> (r: bool)
        ensures
            r == self@.claim_fits(property, owed),
    {
        owed <= 0 || self.share_ledger.is_none() || self.settlement_token.is_none()
            || self.claimed.amount(property).checked_add(owed).is_some()
    }

    /// Whether [`Self::unclaimed`] stays within range.
    pub fn unclaimed_in_range(&self, property: u64) -> (r: bool)
        ensures
            r == fits(self@.unclaimed_of(property)),
    {
        self.deposited.amount(property).checked_sub(self.claimed.amount(property)).is_some()
    }

    // --- Getters ---
    /// Which ledger to ask what `holder` could claim right now.
    pub fn claimable(&self, property: u64, holder: &Address) -> (r: Result<LedgerQuery, Error>)
        ensures
            r == self@.query(property, *holder),
    {
        let ledger = self.require_ledger()?;
        Ok(LedgerQuery { ledger, property, holder: *holder })
    }

    pub fn total_deposited(&self, property: u64) -> (r: i128)
        ensures
            r == self@.deposited_of(property),
    {
        self.deposited.amount(property)
    }

    pub fn total_claimed(&self, property: u64) -> (r: i128)
        ensures
            r == self@.claimed_of(property),
    {
        self.claimed.amount(property)
    }

    /// Income received for a property and not yet collected by its holders.
    pub fn unclaimed(&self, property: u64) -> (r: i128)
        requires
            fits(self@.unclaimed_of(property)),
        ensures
            r == self@.unclaimed_of(property),
    {
        self.deposited.amount(property) - self.claimed.amount(property)
    }

    pub fn get_admin(&self) -> (r: Address)
        requires
            self@.governance.admin is Some,
        ensures
            r == self@.governance.admin->0,
    {
        self.governance.admin.unwrap()
    }

    pub fn get_share_ledger(&self) -> (r: Address)
        requires
            self@.share_ledger is Some,
        ensures
            r == self@.share_ledger->0,
    {
        self.share_ledger.unwrap()
    }

    pub fn get_settlement_token(&self) -> (r: Address)
        requires
            self@.settlement_token is Some,
        ensures
            r == self@.settlement_token->0,
    {
        self.settlement_token.unwrap()
    }

    pub fn get_scheduled_action(&self) -> (r: Option<ScheduledAction>)
        ensures
            r == self@.governance.scheduled,
    {
        self.governance.scheduled
    }

    pub fn get_timelock_secs(&self) -> (r: u64)
        ensures
            r == (match self@.governance.timelock_secs {
                Some(secs) => secs,
                None => 0,
            }),
    {
        match self.governance.timelock_secs {
            Some(secs) => secs,
            None => 0,
        }
    }

    // --- Internals ---
    fn require_ledger(&self) -> (r: Result<Address, Error>)
        ensures
            r == (match self@.share_ledger {
                Some(address) => Ok(address),
                None => Err(Error::NotInitialized),
            }),
    {
        match self.share_ledger {
            Some(address) => Ok(address),
            None => Err(Error::NotInitialized),
        }
    }

    fn require_token(&self) -> (r: Result<Address, Error>)
        ensures
            r == (match self@.settlement_token {
                Some(address) => Ok(address),
                None => Err(Error::NotInitialized),
            }),
    {
        match self.settlement_token {
            Some(address) => Ok(address),
            None => Err(Error::NotInitialized),
        }
    }
}

} // verus!
