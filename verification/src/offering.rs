//! Offering: the primary sale of a property's shares.
//!
//! Investors subscribe by paying the settlement asset into escrow. Nothing is
//! issued and nothing reaches the sponsor while the sale is open.
//!
//! A sale closes when it sells out, or when its deadline passes. If the shares
//! subscribed reach the soft cap the sponsor set, the raise settles: the sponsor
//! is paid, the protocol fee goes to the treasury, and the registry records the
//! property as owned by its shareholders. If not, the raise fails and every
//! subscriber can take their money back in full.
//!
//! Closing is open to anyone, and what it does is fixed entirely by the sale's own
//! state. Shares and refunds are pulled: each investor claims their own shares
//! after a settlement or their own refund after a failure.

use crate::arith::{fits, quotient};
use crate::governance::{outcome, Governance, GovernanceError};
use crate::host::{Address, Digest, Env, Transfer};
use crate::table::{amount_of, StakeOf, Table};
use vstd::prelude::*;

verus! {

/// Basis points in one whole.
pub const BPS_DENOMINATOR: i128 = 10_000;

/// The most the protocol may ever take from a raise, whatever the admin sets.
pub const MAX_FEE_BPS: u32 = 1_000;

/// Why the offering refuses a call.
#[derive(Copy, Clone, Debug, PartialEq, Eq, PartialOrd, Ord, Structural)]
pub enum Error {
    NotInitialized,
    NotAuthorized,
    NoPendingAction,
    ActionPending,
    TimelockNotExpired,
    UnknownSale,
    SaleExists,
    SaleNotOpen,
    SaleNotSettled,
    SaleNotFailed,
    Deadline,
    StillOpen,
    InvalidAmount,
    InvalidSoftCap,
    InvalidDuration,
    InvalidFee,
    Oversubscribed,
    NotSponsor,
    PropertyNotOffered,
    NothingSubscribed,
}

impl Error {
    /// The number the error is reported under.
    pub open spec fn number(self) -> u32 {
        match self {
            Error::NotInitialized => 2,
            Error::NotAuthorized => 3,
            Error::NoPendingAction => 5,
            Error::ActionPending => 6,
            Error::TimelockNotExpired => 7,
            Error::UnknownSale => 8,
            Error::SaleExists => 9,
            Error::SaleNotOpen => 10,
            Error::SaleNotSettled => 11,
            Error::SaleNotFailed => 12,
            Error::Deadline => 13,
            Error::StillOpen => 14,
            Error::InvalidAmount => 15,
            Error::InvalidSoftCap => 16,
            Error::InvalidDuration => 17,
            Error::InvalidFee => 18,
            Error::Oversubscribed => 19,
            Error::NotSponsor => 20,
            Error::PropertyNotOffered => 21,
            Error::NothingSubscribed => 22,
        }
    }

    /// The contract's name for an administrative refusal.
    pub open spec fn of(refusal: GovernanceError) -> Error {
        match refusal {
            GovernanceError::NotInitialized => Error::NotInitialized,
            GovernanceError::NotAuthorized => Error::NotAuthorized,
            GovernanceError::NoPendingAction => Error::NoPendingAction,
            GovernanceError::ActionPending => Error::ActionPending,
            GovernanceError::TimelockNotExpired => Error::TimelockNotExpired,
        }
    }

    /// The number the error is reported under.
    pub fn code(&self) -> (r: u32)
        ensures
            r == self.number(),
    {
        match *self {
            Error::NotInitialized => 2,
            Error::NotAuthorized => 3,
            Error::NoPendingAction => 5,
            Error::ActionPending => 6,
            Error::TimelockNotExpired => 7,
            Error::UnknownSale => 8,
            Error::SaleExists => 9,
            Error::SaleNotOpen => 10,
            Error::SaleNotSettled => 11,
            Error::SaleNotFailed => 12,
            Error::Deadline => 13,
            Error::StillOpen => 14,
            Error::InvalidAmount => 15,
            Error::InvalidSoftCap => 16,
            Error::InvalidDuration => 17,
            Error::InvalidFee => 18,
            Error::Oversubscribed => 19,
            Error::NotSponsor => 20,
            Error::PropertyNotOffered => 21,
            Error::NothingSubscribed => 22,
        }
    }

    fn from_governance(refusal: GovernanceError) -> (r: Error)
        ensures
            r == Error::of(refusal),
    {
        match refusal {
            GovernanceError::NotInitialized => Error::NotInitialized,
            GovernanceError::NotAuthorized => Error::NotAuthorized,
            GovernanceError::NoPendingAction => Error::NoPendingAction,
            GovernanceError::ActionPending => Error::ActionPending,
            GovernanceError::TimelockNotExpired => Error::TimelockNotExpired,
        }
    }
}

/// An administrative call's outcome, in the contract's own errors.
pub open spec fn admin_outcome(refusal: Option<GovernanceError>) -> Result<(), Error> {
    match refusal {
        Some(e) => Err(Error::of(e)),
        None => Ok(()),
    }
}

/// Where a sale stands. `Open` is the only state money can enter in; the other two
/// are terminal and decide which way it leaves.
#[derive(Copy, Clone, Debug, PartialEq, Eq, Structural)]
pub enum SaleStatus {
    Open,
    Settled,
    Failed,
}

/// One property's primary sale.
///
/// `total_shares` and `price_per_share` are copied from the registry when the sale
/// opens, so the terms an investor subscribes on cannot move under them afterwards.
#[derive(Copy, Clone, Debug, PartialEq, Eq, Structural)]
pub struct Sale {
    pub property: u64,
    pub sponsor: Address,
    pub total_shares: i128,
    pub price_per_share: i128,
    /// The soft cap: below this the raise is unwound and everyone is refunded.
    pub min_shares: i128,
    pub subscribed: i128,
    pub deadline: u64,
    pub status: SaleStatus,
}

impl Sale {
    /// Whether the sale may be closed at `now`.
    pub open spec fn closable(self, now: u64) -> bool {
        self.status == SaleStatus::Open && (self.subscribed == self.total_shares || now
            >= self.deadline)
    }

    /// Whether the raise has reached its soft cap.
    pub open spec fn succeeds(self) -> bool {
        self.subscribed >= self.min_shares
    }

    /// What was paid in for the shares subscribed.
    pub open spec fn proceeds(self) -> int {
        self.subscribed * self.price_per_share
    }

    /// The protocol's part of the proceeds.
    pub open spec fn fee(self, fee_bps: u32) -> int {
        quotient(self.proceeds() * fee_bps, BPS_DENOMINATOR as int)
    }
}

/// What the registry says of a property that may be sold.
#[derive(Copy, Clone, Debug, PartialEq, Eq, Structural)]
pub struct OfferingTerms {
    pub property: u64,
    pub sponsor: Address,
    pub total_shares: i128,
    pub price_per_share: i128,
    /// Whether the property is cleared to be sold.
    pub offered: bool,
}

/// Where to ask, and about which property.
#[derive(Copy, Clone, Debug, PartialEq, Eq, Structural)]
pub struct RegistryQuery {
    pub registry: Address,
    pub property: u64,
}

/// A sensitive admin change that must wait out the timelock before it runs.
#[derive(Copy, Clone, Debug, PartialEq, Eq, Structural)]
pub enum Action {
    /// Replace the contract's code, keeping its address and storage.
    Upgrade(Digest),
    /// Change where the protocol fee is sent.
    SetTreasury(Address),
    /// Change the protocol fee, in basis points of a settled raise.
    SetFeeBps(u32),
}

pub type ScheduledAction = crate::governance::ScheduledAction<Action>;

/// What the offering tells the world.
#[derive(Copy, Clone, Debug, PartialEq, Eq, Structural)]
pub enum Event {
    Open { property: u64, sponsor: Address, min_shares: i128, deadline: u64 },
    Subscribe { property: u64, investor: Address, shares: i128, cost: i128 },
    Unsubscribe { property: u64, investor: Address, shares: i128, refund: i128 },
    Claimed { property: u64, investor: Address, shares: i128 },
    Refund { property: u64, investor: Address, amount: i128 },
    Close { property: u64, status: SaleStatus, subscribed: i128 },
}

/// A call on the registry, made in the offering's own name.
#[derive(Copy, Clone, Debug, PartialEq, Eq, Structural)]
pub enum RegistryCall {
    MarkOwned { property: u64 },
    MarkFailed { property: u64 },
}

/// A call on the share ledger, made in the offering's own name.
#[derive(Copy, Clone, Debug, PartialEq, Eq, Structural)]
pub enum LedgerCall {
    Issue { property: u64, to: Address, shares: i128 },
}

/// What the offering asks of its host.
#[derive(Copy, Clone, Debug, PartialEq, Eq, Structural)]
pub enum Effect {
    Transfer(Transfer),
    CallRegistry { registry: Address, notice: RegistryCall },
    CallLedger { ledger: Address, call: LedgerCall },
    Publish(Event),
    Upgrade(Digest),
}

/// The primary market.
#[derive(Debug)]
pub struct OfferingContract {
    pub governance: Governance<Action>,
    pub registry: Option<Address>,
    pub share_ledger: Option<Address>,
    pub settlement_token: Option<Address>,
    pub treasury: Option<Address>,
    pub fee_bps: u32,
    pub sales: Table<u64, Sale>,
    pub subscriptions: Table<StakeOf, i128>,
    pub outbox: Vec<Effect>,
}

/// The primary market as its contracts speak of it.
#[verifier::ext_equal]
pub struct OfferingModel {
    pub governance: Governance<Action>,
    pub registry: Option<Address>,
    pub share_ledger: Option<Address>,
    pub settlement_token: Option<Address>,
    pub treasury: Option<Address>,
    pub fee_bps: u32,
    pub sales: Map<u64, Sale>,
    pub subscriptions: Map<StakeOf, i128>,
    pub outbox: Seq<Effect>,
}

impl View for OfferingContract {
    type V = OfferingModel;

    open spec fn view(&self) -> OfferingModel {
        OfferingModel {
            governance: self.governance,
            registry: self.registry,
            share_ledger: self.share_ledger,
            settlement_token: self.settlement_token,
            treasury: self.treasury,
            fee_bps: self.fee_bps,
            sales: self.sales@,
            subscriptions: self.subscriptions@,
            outbox: self.outbox@,
        }
    }
}

/// Subscriptions with one rewritten. A spent or emptied one is removed.
pub open spec fn with_subscription(
    subscriptions: Map<StakeOf, i128>,
    key: StakeOf,
    shares: i128,
) -> Map<StakeOf, i128> {
    if shares == 0 {
        subscriptions.remove(key)
    } else {
        subscriptions.insert(key, shares)
    }
}

impl OfferingModel {
    /// The offering as it is deployed.
    pub open spec fn deployed(
        admin: Address,
        registry: Address,
        share_ledger: Address,
        settlement_token: Address,
        treasury: Address,
        fee_bps: u32,
        timelock_secs: u64,
    ) -> Self {
        OfferingModel {
            governance: Governance {
                admin: Some(admin),
                pending_admin: None,
                timelock_secs: Some(timelock_secs),
                scheduled: None,
            },
            registry: Some(registry),
            share_ledger: Some(share_ledger),
            settlement_token: Some(settlement_token),
            treasury: Some(treasury),
            fee_bps,
            sales: Map::empty(),
            subscriptions: Map::empty(),
            outbox: Seq::empty(),
        }
    }

    /// Shares `investor` has subscribed for and not yet claimed.
    pub open spec fn subscription(self, property: u64, investor: Address) -> i128 {
        amount_of(self.subscriptions, StakeOf { property, party: investor })
    }

    /// A payment in the settlement asset.
    pub open spec fn payment(self, from: Address, to: Address, amount: int) -> Effect {
        Effect::Transfer(
            Transfer { token: self.settlement_token->0, from, to, amount: amount as i128 },
        )
    }

    pub open spec fn call_registry(self, notice: RegistryCall) -> Effect {
        Effect::CallRegistry { registry: self.registry->0, notice }
    }

    // --- administration ---

    pub open spec fn is_excessive(action: Action) -> bool {
        action matches Action::SetFeeBps(bps) && bps > MAX_FEE_BPS
    }

    pub open spec fn schedule_refusal(self, admin: Address, action: Action) -> Option<Error> {
        match self.governance.schedule_refusal(admin) {
            Some(e) => Some(Error::of(e)),
            None => if Self::is_excessive(action) {
                Some(Error::InvalidFee)
            } else if self.governance.timelock_secs is None {
                Some(Error::NotInitialized)
            } else {
                None
            },
        }
    }

    pub open spec fn schedule_fits(self, admin: Address, action: Action, now: u64) -> bool {
        self.schedule_refusal(admin, action) is None ==> self.governance.eta_fits(now)
    }

    pub open spec fn execute_refusal(self, admin: Address, now: u64) -> Option<Error> {
        match self.governance.execute_refusal(admin, now) {
            Some(e) => Some(Error::of(e)),
            None => if Self::is_excessive(self.governance.scheduled->0.action) {
                Some(Error::InvalidFee)
            } else {
                None
            },
        }
    }

    /// The offering with the scheduled action carried out.
    pub open spec fn executed(self) -> Self {
        let governance = self.governance.with_nothing_scheduled();
        match self.governance.scheduled->0.action {
            Action::Upgrade(wasm_hash) => OfferingModel {
                governance,
                outbox: self.outbox.push(Effect::Upgrade(wasm_hash)),
                ..self
            },
            Action::SetTreasury(treasury) => OfferingModel {
                governance,
                treasury: Some(treasury),
                ..self
            },
            Action::SetFeeBps(bps) => OfferingModel { governance, fee_bps: bps, ..self },
        }
    }

    // --- open ---

    /// Why a sale may not be opened, before the registry is asked.
    pub open spec fn before_open_refusal(self, property: u64, duration_secs: u64) -> Option<Error> {
        if duration_secs == 0 {
            Some(Error::InvalidDuration)
        } else if self.sales.contains_key(property) {
            Some(Error::SaleExists)
        } else if self.registry is None {
            Some(Error::NotInitialized)
        } else {
            None
        }
    }

    pub open spec fn open_refusal(
        self,
        sponsor: Address,
        property: u64,
        min_shares: i128,
        duration_secs: u64,
        terms: OfferingTerms,
    ) -> Option<Error> {
        if self.before_open_refusal(property, duration_secs) is Some {
            self.before_open_refusal(property, duration_secs)
        } else if !terms.offered {
            Some(Error::PropertyNotOffered)
        } else if terms.sponsor != sponsor {
            Some(Error::NotSponsor)
        } else if min_shares <= 0 || min_shares > terms.total_shares {
            Some(Error::InvalidSoftCap)
        } else {
            None
        }
    }

    pub open spec fn open_fits(
        self,
        sponsor: Address,
        property: u64,
        min_shares: i128,
        duration_secs: u64,
        terms: OfferingTerms,
        now: u64,
    ) -> bool {
        self.open_refusal(sponsor, property, min_shares, duration_secs, terms) is None ==> now
            + duration_secs <= u64::MAX
    }

    /// The sale that opening makes.
    pub open spec fn new_sale(
        env: Env,
        sponsor: Address,
        property: u64,
        min_shares: i128,
        duration_secs: u64,
        terms: OfferingTerms,
    ) -> Sale {
        Sale {
            property,
            sponsor,
            total_shares: terms.total_shares,
            price_per_share: terms.price_per_share,
            min_shares,
            subscribed: 0,
            deadline: (env.timestamp + duration_secs) as u64,
            status: SaleStatus::Open,
        }
    }

    /// The offering with a sale opened.
    pub open spec fn opened(self, sale: Sale) -> Self {
        OfferingModel {
            sales: self.sales.insert(sale.property, sale),
            outbox: self.outbox.push(
                Effect::Publish(
                    Event::Open {
                        property: sale.property,
                        sponsor: sale.sponsor,
                        min_shares: sale.min_shares,
                        deadline: sale.deadline,
                    },
                ),
            ),
            ..self
        }
    }

    // --- subscribe and withdraw ---

    /// Why subscriptions to a sale may not change at `now`.
    pub open spec fn book_refusal(self, property: u64, shares: i128, now: u64) -> Option<Error> {
        if shares <= 0 {
            Some(Error::InvalidAmount)
        } else if !self.sales.contains_key(property) {
            Some(Error::UnknownSale)
        } else if self.sales[property].status != SaleStatus::Open {
            Some(Error::SaleNotOpen)
        } else if now >= self.sales[property].deadline {
            Some(Error::Deadline)
        } else {
            None
        }
    }

    pub open spec fn subscribe_refusal(self, property: u64, shares: i128, now: u64) -> Option<
        Error,
    > {
        if self.book_refusal(property, shares, now) is Some {
            self.book_refusal(property, shares, now)
        } else if self.sales[property].subscribed + shares > self.sales[property].total_shares {
            Some(Error::Oversubscribed)
        } else if self.settlement_token is None {
            Some(Error::NotInitialized)
        } else {
            None
        }
    }

    pub open spec fn subscribe_fits(
        self,
        property: u64,
        investor: Address,
        shares: i128,
        now: u64,
    ) -> bool {
        self.book_refusal(property, shares, now) is None ==> {
            &&& fits(self.sales[property].subscribed + shares)
            &&& self.subscribe_refusal(property, shares, now) is None ==> {
                &&& fits(shares * self.sales[property].price_per_share)
                &&& fits(self.subscription(property, investor) + shares)
            }
        }
    }

    /// `post` is the offering after `investor` subscribed for `shares`.
    pub open spec fn subscribed(
        self,
        post: Self,
        env: Env,
        property: u64,
        investor: Address,
        shares: i128,
    ) -> bool {
        let sale = self.sales[property];
        let cost = shares * sale.price_per_share;
        post == (OfferingModel {
            sales: self.sales.insert(
                sale.property,
                Sale { subscribed: (sale.subscribed + shares) as i128, ..sale },
            ),
            subscriptions: with_subscription(
                self.subscriptions,
                StakeOf { property, party: investor },
                (self.subscription(property, investor) + shares) as i128,
            ),
            outbox: self.outbox.push(self.payment(investor, env.contract, cost)).push(
                Effect::Publish(
                    Event::Subscribe { property, investor, shares, cost: cost as i128 },
                ),
            ),
            ..self
        })
    }

    pub open spec fn withdraw_refusal(
        self,
        property: u64,
        investor: Address,
        shares: i128,
        now: u64,
    ) -> Option<Error> {
        if self.book_refusal(property, shares, now) is Some {
            self.book_refusal(property, shares, now)
        } else if shares > self.subscription(property, investor) {
            Some(Error::InvalidAmount)
        } else if self.settlement_token is None {
            Some(Error::NotInitialized)
        } else {
            None
        }
    }

    pub open spec fn withdraw_fits(
        self,
        property: u64,
        investor: Address,
        shares: i128,
        now: u64,
    ) -> bool {
        self.withdraw_refusal(property, investor, shares, now) is None ==> {
            &&& fits(self.sales[property].subscribed - shares)
            &&& fits(shares * self.sales[property].price_per_share)
        }
    }

    /// `post` is the offering after `investor` took `shares` of a subscription back.
    pub open spec fn withdrawn(
        self,
        post: Self,
        env: Env,
        property: u64,
        investor: Address,
        shares: i128,
    ) -> bool {
        let sale = self.sales[property];
        let refund = shares * sale.price_per_share;
        post == (OfferingModel {
            sales: self.sales.insert(
                sale.property,
                Sale { subscribed: (sale.subscribed - shares) as i128, ..sale },
            ),
            subscriptions: with_subscription(
                self.subscriptions,
                StakeOf { property, party: investor },
                (self.subscription(property, investor) - shares) as i128,
            ),
            outbox: self.outbox.push(self.payment(env.contract, investor, refund)).push(
                Effect::Publish(
                    Event::Unsubscribe { property, investor, shares, refund: refund as i128 },
                ),
            ),
            ..self
        })
    }

    // --- claim and refund ---

    pub open spec fn claim_refusal(self, property: u64, investor: Address) -> Option<Error> {
        if !self.sales.contains_key(property) {
            Some(Error::UnknownSale)
        } else if self.sales[property].status != SaleStatus::Settled {
            Some(Error::SaleNotSettled)
        } else if self.subscription(property, investor) <= 0 {
            Some(Error::NothingSubscribed)
        } else if self.share_ledger is None {
            Some(Error::NotInitialized)
        } else {
            None
        }
    }

    /// The offering after `investor` took delivery of everything subscribed for.
    pub open spec fn claimed(self, property: u64, investor: Address) -> Self {
        let shares = self.subscription(property, investor);
        OfferingModel {
            subscriptions: self.subscriptions.remove(StakeOf { property, party: investor }),
            outbox: self.outbox.push(
                Effect::CallLedger {
                    ledger: self.share_ledger->0,
                    call: LedgerCall::Issue { property, to: investor, shares },
                },
            ).push(Effect::Publish(Event::Claimed { property, investor, shares })),
            ..self
        }
    }

    pub open spec fn refund_refusal(self, property: u64, investor: Address) -> Option<Error> {
        if !self.sales.contains_key(property) {
            Some(Error::UnknownSale)
        } else if self.sales[property].status != SaleStatus::Failed {
            Some(Error::SaleNotFailed)
        } else if self.subscription(property, investor) <= 0 {
            Some(Error::NothingSubscribed)
        } else if self.settlement_token is None {
            Some(Error::NotInitialized)
        } else {
            None
        }
    }

    /// What `investor` paid for the shares subscribed.
    pub open spec fn paid(self, property: u64, investor: Address) -> int {
        self.subscription(property, investor) * self.sales[property].price_per_share
    }

    pub open spec fn refund_fits(self, property: u64, investor: Address) -> bool {
        self.refund_refusal(property, investor) is None ==> fits(self.paid(property, investor))
    }

    /// The offering after `investor` was paid back.
    pub open spec fn refunded(self, env: Env, property: u64, investor: Address) -> Self {
        let amount = self.paid(property, investor);
        OfferingModel {
            subscriptions: self.subscriptions.remove(StakeOf { property, party: investor }),
            outbox: self.outbox.push(self.payment(env.contract, investor, amount)).push(
                Effect::Publish(Event::Refund { property, investor, amount: amount as i128 }),
            ),
            ..self
        }
    }

    // --- close ---

    pub open spec fn close_refusal(self, property: u64, now: u64) -> Option<Error> {
        let sale = self.sales[property];
        if !self.sales.contains_key(property) {
            Some(Error::UnknownSale)
        } else if sale.status != SaleStatus::Open {
            Some(Error::SaleNotOpen)
        } else if !sale.closable(now) {
            Some(Error::StillOpen)
        } else if self.registry is None {
            Some(Error::NotInitialized)
        } else if sale.succeeds() && self.settlement_token is None {
            Some(Error::NotInitialized)
        } else if sale.succeeds() && sale.fee(self.fee_bps) > 0 && self.treasury is None {
            Some(Error::NotInitialized)
        } else {
            None
        }
    }

    pub open spec fn close_fits(self, property: u64, now: u64) -> bool {
        let sale = self.sales[property];
        self.sales.contains_key(property) && sale.closable(now) && self.registry is Some
            && self.settlement_token is Some && sale.succeeds() ==> {
            &&& fits(sale.proceeds())
            &&& fits(sale.proceeds() * self.fee_bps)
            &&& fits(sale.proceeds() - sale.fee(self.fee_bps))
        }
    }

    /// How a sale that is closed ends.
    pub open spec fn verdict(self, property: u64) -> SaleStatus {
        if self.sales[property].succeeds() {
            SaleStatus::Settled
        } else {
            SaleStatus::Failed
        }
    }

    /// The offering with a sale closed: settled and paid out, or failed.
    pub open spec fn closed(self, env: Env, property: u64) -> Self {
        let sale = self.sales[property];
        let status = self.verdict(property);
        let fee = sale.fee(self.fee_bps);
        let charged = if fee > 0 {
            self.outbox.push(self.payment(env.contract, self.treasury->0, fee))
        } else {
            self.outbox
        };
        let decided = if sale.succeeds() {
            charged.push(
                self.payment(env.contract, sale.sponsor, sale.proceeds() - fee),
            ).push(self.call_registry(RegistryCall::MarkOwned { property }))
        } else {
            self.outbox.push(self.call_registry(RegistryCall::MarkFailed { property }))
        };
        OfferingModel {
            sales: self.sales.insert(sale.property, Sale { status, ..sale }),
            outbox: decided.push(
                Effect::Publish(Event::Close { property, status, subscribed: sale.subscribed }),
            ),
            ..self
        }
    }
}

impl OfferingContract {
    /// The offering as it is deployed: configured, with nothing on sale.
    pub fn new(
        admin: Address,
        registry: Address,
        share_ledger: Address,
        settlement_token: Address,
        treasury: Address,
        fee_bps: u32,
        timelock_secs: u64,
    ) -> (r: Result<OfferingContract, Error>)
        ensures
            if fee_bps > MAX_FEE_BPS {
                r == Err::<OfferingContract, _>(Error::InvalidFee)
            } else {
                r is Ok && r->Ok_0@ == OfferingModel::deployed(
                    admin,
                    registry,
                    share_ledger,
                    settlement_token,
                    treasury,
                    fee_bps,
                    timelock_secs,
                )
            },
    {
        if fee_bps > MAX_FEE_BPS {
            return Err(Error::InvalidFee);
        }
        Ok(
            OfferingContract {
                governance: Governance::new(admin, timelock_secs),
                registry: Some(registry),
                share_ledger: Some(share_ledger),
                settlement_token: Some(settlement_token),
                treasury: Some(treasury),
                fee_bps,
                sales: Table::new(),
                subscriptions: Table::new(),
                outbox: Vec::new(),
            },
        )
    }

    // --- Administration ---
    /// Put an upgrade, a change of treasury or a change of fee in the queue, to
    /// execute once the timelock has elapsed. An impossible fee is refused on the
    /// way in as well as on the way out.
    pub fn schedule_action(&mut self, env: &Env, admin: &Address, action: Action) -> (r: Result<
        (),
        Error,
    >)
        requires
            env.authorizes(*admin),
            old(self)@.schedule_fits(*admin, action, env.timestamp),
        ensures
            r == outcome(old(self)@.schedule_refusal(*admin, action)),
            r is Err ==> final(self)@ == old(self)@,
            r is Ok ==> final(self)@ == (OfferingModel {
                governance: old(self)@.governance.with_queued(action, env.timestamp),
                ..old(self)@
            }),
    {
        match self.governance.require_idle(admin) {
            Err(e) => return Err(Error::from_governance(e)),
            Ok(()) => {},
        }
        if let Action::SetFeeBps(bps) = action {
            if bps > MAX_FEE_BPS {
                return Err(Error::InvalidFee);
            }
        }
        match self.governance.schedule(action, env.timestamp) {
            Err(e) => Err(Error::from_governance(e)),
            Ok(()) => Ok(()),
        }
    }

    /// Carry out the scheduled action once its timelock has elapsed.
    pub fn execute_action(&mut self, env: &Env, admin: &Address) -> (r: Result<(), Error>)
        requires
            env.authorizes(*admin),
        ensures
            r == outcome(old(self)@.execute_refusal(*admin, env.timestamp)),
            r is Err ==> final(self)@ == old(self)@,
            r is Ok ==> final(self)@ == old(self)@.executed(),
    {
        match self.governance.due(admin, env.timestamp) {
            Err(e) => Err(Error::from_governance(e)),
            Ok(Action::Upgrade(wasm_hash)) => {
                self.governance.scheduled = None;
                self.outbox.push(Effect::Upgrade(wasm_hash));
                Ok(())
            },
            Ok(Action::SetTreasury(treasury)) => {
                self.governance.scheduled = None;
                self.treasury = Some(treasury);
                Ok(())
            },
            Ok(Action::SetFeeBps(bps)) => {
                if bps > MAX_FEE_BPS {
                    return Err(Error::InvalidFee);
                }
                self.governance.scheduled = None;
                self.fee_bps = bps;
                Ok(())
            },
        }
    }

    /// Withdraw the scheduled action before it executes.
    pub fn cancel_action(&mut self, env: &Env, admin: &Address) -> (r: Result<(), Error>)
        requires
            env.authorizes(*admin),
        ensures
            r == admin_outcome(old(self)@.governance.cancel_refusal(*admin)),
            r is Err ==> final(self)@ == old(self)@,
            r is Ok ==> final(self)@ == (OfferingModel {
                governance: old(self)@.governance.with_nothing_scheduled(),
                ..old(self)@
            }),
    {
        match self.governance.cancel(admin) {
            Err(e) => Err(Error::from_governance(e)),
            Ok(()) => Ok(()),
        }
    }

    /// Begin handing the admin role to `new_admin`. Nothing changes until the
    /// new admin accepts.
    pub fn propose_admin(&mut self, env: &Env, admin: &Address, new_admin: &Address) -> (r: Result<
        (),
        Error,
    >)
        requires
            env.authorizes(*admin),
        ensures
            r == admin_outcome(old(self)@.governance.admin_refusal(*admin)),
            r is Err ==> final(self)@ == old(self)@,
            r is Ok ==> final(self)@ == (OfferingModel {
                governance: old(self)@.governance.with_proposed(*new_admin),
                ..old(self)@
            }),
    {
        match self.governance.propose(admin, new_admin) {
            Err(e) => Err(Error::from_governance(e)),
            Ok(()) => Ok(()),
        }
    }

    /// Complete a handover proposed by the current admin.
    pub fn accept_admin(&mut self, env: &Env, new_admin: &Address) -> (r: Result<(), Error>)
        requires
            env.authorizes(*new_admin),
        ensures
            r == admin_outcome(old(self)@.governance.accept_refusal(*new_admin)),
            r is Err ==> final(self)@ == old(self)@,
            r is Ok ==> final(self)@ == (OfferingModel {
                governance: old(self)@.governance.with_admin(*new_admin),
                ..old(self)@
            }),
    {
        match self.governance.accept(new_admin) {
            Err(e) => Err(Error::from_governance(e)),
            Ok(()) => Ok(()),
        }
    }

    // --- Sponsor operations ---
    /// What to ask the registry before [`Self::open`], or why the sale may not be
    /// opened whatever it says. There is one sale per property, ever.
    pub fn before_open(&self, property: u64, duration_secs: u64) -> (r: Result<RegistryQuery, Error>)
        ensures
            r == (match self@.before_open_refusal(property, duration_secs) {
                Some(refusal) => Err(refusal),
                None => Ok(RegistryQuery { registry: self@.registry->0, property }),
            }),
    {
        if duration_secs == 0 {
            return Err(Error::InvalidDuration);
        }
        if self.sales.contains_key(property) {
            return Err(Error::SaleExists);
        }
        let registry = self.require_registry()?;
        Ok(RegistryQuery { registry, property })
    }

    /// Start selling a property, of which the registry has said `terms`. They are
    /// copied here and never read again.
    pub fn open(
        &mut self,
        env: &Env,
        sponsor: &Address,
        property: u64,
        min_shares: i128,
        duration_secs: u64,
        terms: &OfferingTerms,
    ) -> (r: Result<Sale, Error>)
        requires
            env.authorizes(*sponsor),
            terms.property == property,
            old(self)@.open_fits(
                *sponsor,
                property,
                min_shares,
                duration_secs,
                *terms,
                env.timestamp,
            ),
        ensures
            match old(self)@.open_refusal(*sponsor, property, min_shares, duration_secs, *terms) {
                Some(refusal) => r == Err::<Sale, _>(refusal) && final(self)@ == old(self)@,
                None => {
                    &&& r == Ok::<_, Error>(
                        OfferingModel::new_sale(
                            *env,
                            *sponsor,
                            property,
                            min_shares,
                            duration_secs,
                            *terms,
                        ),
                    )
                    &&& final(self)@ == old(self)@.opened(r->Ok_0)
                },
            },
    {
        self.before_open(property, duration_secs)?;
        if !terms.offered {
            return Err(Error::PropertyNotOffered);
        }
        if terms.sponsor != *sponsor {
            return Err(Error::NotSponsor);
        }
        if min_shares <= 0 || min_shares > terms.total_shares {
            return Err(Error::InvalidSoftCap);
        }
        let sale = Sale {
            property,
            sponsor: *sponsor,
            total_shares: terms.total_shares,
            price_per_share: terms.price_per_share,
            min_shares,
            subscribed: 0,
            deadline: env.timestamp + duration_secs,
            status: SaleStatus::Open,
        };
        self.sales.insert(sale.property, sale);
        self.outbox.push(
            Effect::Publish(
                Event::Open { property, sponsor: *sponsor, min_shares, deadline: sale.deadline },
            ),
        );
        Ok(sale)
    }

    // --- Investor operations ---
    /// Subscribe for `shares`, paying their price into escrow.
    pub fn subscribe(&mut self, env: &Env, property: u64, investor: &Address, shares: i128) -> (r:
        Result<(), Error>)
        requires
            env.authorizes(*investor),
            old(self)@.subscribe_fits(property, *investor, shares, env.timestamp),
        ensures
            r == outcome(old(self)@.subscribe_refusal(property, shares, env.timestamp)),
            r is Err ==> final(self)@ == old(self)@,
            r is Ok ==> old(self)@.subscribed(final(self)@, *env, property, *investor, shares),
    {
        let mut sale = self.require_book(property, shares, env.timestamp)?;
        if sale.subscribed + shares > sale.total_shares {
            return Err(Error::Oversubscribed);
        }
        let token = self.require_token()?;
        let cost: i128 = shares * sale.price_per_share;
        let held: i128 = self.subscription_of(property, investor);

        self.outbox.push(
            Effect::Transfer(Transfer { token, from: *investor, to: env.contract, amount: cost }),
        );
        sale.subscribed = sale.subscribed + shares;
        self.sales.insert(sale.property, sale);
        self.set_subscription(property, investor, held + shares);
        self.outbox.push(
            Effect::Publish(Event::Subscribe { property, investor: *investor, shares, cost }),
        );
        Ok(())
    }

    /// Take back some or all of a subscription while the sale is still open. Once
    /// the deadline passes the sale is decided by its subscriptions.
    pub fn withdraw_subscription(
        &mut self,
        env: &Env,
        property: u64,
        investor: &Address,
        shares: i128,
    ) -> (r: Result<(), Error>)
        requires
            env.authorizes(*investor),
            old(self)@.withdraw_fits(property, *investor, shares, env.timestamp),
        ensures
            r == outcome(
                old(self)@.withdraw_refusal(property, *investor, shares, env.timestamp),
            ),
            r is Err ==> final(self)@ == old(self)@,
            r is Ok ==> old(self)@.withdrawn(final(self)@, *env, property, *investor, shares),
    {
        let mut sale = self.require_book(property, shares, env.timestamp)?;
        let held: i128 = self.subscription_of(property, investor);
        if shares > held {
            return Err(Error::InvalidAmount);
        }
        let token = self.require_token()?;
        sale.subscribed = sale.subscribed - shares;
        self.sales.insert(sale.property, sale);
        self.set_subscription(property, investor, held - shares);

        let refund: i128 = shares * sale.price_per_share;
        self.outbox.push(
            Effect::Transfer(
                Transfer { token, from: env.contract, to: *investor, amount: refund },
            ),
        );
        self.outbox.push(
            Effect::Publish(Event::Unsubscribe { property, investor: *investor, shares, refund }),
        );
        Ok(())
    }

    /// Take delivery of shares from a settled sale. The subscription is spent
    /// before the ledger is told to issue.
    pub fn claim_shares(&mut self, property: u64, investor: &Address) -> (r: Result<i128, Error>)
        ensures
            match old(self)@.claim_refusal(property, *investor) {
                Some(refusal) => r == Err::<i128, _>(refusal) && final(self)@ == old(self)@,
                None => {
                    &&& r == Ok::<_, Error>(old(self)@.subscription(property, *investor))
                    &&& final(self)@ == old(self)@.claimed(property, *investor)
                },
            },
    {
        let sale = self.sale_of(property)?;
        if sale.status != SaleStatus::Settled {
            return Err(Error::SaleNotSettled);
        }
        let shares: i128 = self.subscription_of(property, investor);
        if shares <= 0 {
            return Err(Error::NothingSubscribed);
        }
        let ledger = self.require_share_ledger()?;
        self.set_subscription(property, investor, 0);
        self.outbox.push(
            Effect::CallLedger {
                ledger,
                call: LedgerCall::Issue { property, to: *investor, shares },
            },
        );
        self.outbox.push(Effect::Publish(Event::Claimed { property, investor: *investor, shares }));
        Ok(shares)
    }

    /// Take back the full subscription from a failed sale.
    pub fn refund(&mut self, env: &Env, property: u64, investor: &Address) -> (r: Result<
        i128,
        Error,
    >)
        requires
            old(self)@.refund_fits(property, *investor),
        ensures
            match old(self)@.refund_refusal(property, *investor) {
                Some(refusal) => r == Err::<i128, _>(refusal) && final(self)@ == old(self)@,
                None => {
                    &&& r is Ok
                    &&& r->Ok_0 == old(self)@.paid(property, *investor)
                    &&& final(self)@ == old(self)@.refunded(*env, property, *investor)
                },
            },
    {
        let sale = self.sale_of(property)?;
        if sale.status != SaleStatus::Failed {
            return Err(Error::SaleNotFailed);
        }
        let shares: i128 = self.subscription_of(property, investor);
        if shares <= 0 {
            return Err(Error::NothingSubscribed);
        }
        let token = self.require_token()?;
        self.set_subscription(property, investor, 0);

        let amount: i128 = shares * sale.price_per_share;
        self.outbox.push(
            Effect::Transfer(Transfer { token, from: env.contract, to: *investor, amount }),
        );
        self.outbox.push(Effect::Publish(Event::Refund { property, investor: *investor, amount }));
        Ok(amount)
    }

    // --- Close ---
    /// Close a sale and settle or unwind it. Anyone may ask; the outcome is decided
    /// entirely by the sale's own state.
    ///
    /// A sale that has sold out closes at once. Otherwise it closes when its
    /// deadline has passed: at or above the soft cap it settles and the sponsor is
    /// paid for the shares actually sold; below it, the raise is unwound.
    pub fn close(&mut self, env: &Env, property: u64) -> (r: Result<SaleStatus, Error>)
        requires
            old(self)@.close_fits(property, env.timestamp),
        ensures
            match old(self)@.close_refusal(property, env.timestamp) {
                Some(refusal) => r == Err::<SaleStatus, _>(refusal) && final(self)@ == old(self)@,
                None => {
                    &&& r == Ok::<_, Error>(old(self)@.verdict(property))
                    &&& final(self)@ == old(self)@.closed(*env, property)
                },
            },
    {
        let mut sale = self.sale_of(property)?;
        if sale.status != SaleStatus::Open {
            return Err(Error::SaleNotOpen);
        }
        let sold_out = sale.subscribed == sale.total_shares;
        if !sold_out && env.timestamp < sale.deadline {
            return Err(Error::StillOpen);
        }
        let registry = self.require_registry()?;

        if sale.subscribed >= sale.min_shares {
            sale.status = SaleStatus::Settled;
            let token = self.require_token()?;
            // Only the shares actually sold are paid for and, later, issued.
            let proceeds: i128 = sale.subscribed * sale.price_per_share;
            let fee: i128 = proceeds * self.fee_bps as i128 / BPS_DENOMINATOR;
            if fee > 0 {
                let treasury = self.require_treasury()?;
                self.outbox.push(
                    Effect::Transfer(
                        Transfer { token, from: env.contract, to: treasury, amount: fee },
                    ),
                );
            }
            self.outbox.push(
                Effect::Transfer(
                    Transfer {
                        token,
                        from: env.contract,
                        to: sale.sponsor,
                        amount: proceeds - fee,
                    },
                ),
            );
            self.outbox.push(
                Effect::CallRegistry { registry, notice: RegistryCall::MarkOwned { property } },
            );
        } else {
            sale.status = SaleStatus::Failed;
            self.outbox.push(
                Effect::CallRegistry { registry, notice: RegistryCall::MarkFailed { property } },
            );
        }
        self.sales.insert(sale.property, sale);
        self.outbox.push(
            Effect::Publish(
                Event::Close { property, status: sale.status, subscribed: sale.subscribed },
            ),
        );
        Ok(sale.status)
    }

    // --- Ranges ---
    /// Whether [`Self::schedule_action`] stays within range.
    pub fn schedule_in_range(&self, env: &Env, admin: &Address, action: Action) -> (r: bool)
        ensures
            r == self@.schedule_fits(*admin, action, env.timestamp),
    {
        if let Action::SetFeeBps(bps) = action {
            if bps > MAX_FEE_BPS {
                return true;
            }
        }
        self.governance.require_idle(admin).is_err() || self.governance.eta_in_range(env.timestamp)
    }

    /// Whether [`Self::open`] stays within range.
    pub fn open_in_range(
        &self,
        env: &Env,
        sponsor: &Address,
        property: u64,
        min_shares: i128,
        duration_secs: u64,
        terms: &OfferingTerms,
    ) -> (r: bool)
        ensures
            r == self@.open_fits(
                *sponsor,
                property,
                min_shares,
                duration_secs,
                *terms,
                env.timestamp,
            ),
    {
        self.before_open(property, duration_secs).is_err() || !terms.offered || terms.sponsor
            != *sponsor || min_shares <= 0 || min_shares > terms.total_shares || env.timestamp
            <= u64::MAX - duration_secs
    }

    /// Whether [`Self::subscribe`] stays within range.
    pub fn subscribe_in_range(&self, env: &Env, property: u64, investor: &Address, shares: i128)
        -> (r: bool)
        ensures
            r == self@.subscribe_fits(property, *investor, shares, env.timestamp),
    {
        match self.require_book(property, shares, env.timestamp) {
            Err(_) => true,
            Ok(sale) => match sale.subscribed.checked_add(shares) {
                None => false,
                Some(subscribed) => subscribed > sale.total_shares
                    || self.settlement_token.is_none() || (shares.checked_mul(
                    sale.price_per_share,
                ).is_some() && self.subscription_of(property, investor).checked_add(
                    shares,
                ).is_some()),
            },
        }
    }

    /// Whether [`Self::withdraw_subscription`] stays within range.
    pub fn withdraw_in_range(&self, env: &Env, property: u64, investor: &Address, shares: i128)
        -> (r: bool)
        ensures
            r == self@.withdraw_fits(property, *investor, shares, env.timestamp),
    {
        match self.require_book(property, shares, env.timestamp) {
            Err(_) => true,
            Ok(sale) => shares > self.subscription_of(property, investor)
                || self.settlement_token.is_none() || (sale.subscribed.checked_sub(
                shares,
            ).is_some() && shares.checked_mul(sale.price_per_share).is_some()),
        }
    }

    /// Whether [`Self::refund`] stays within range.
    pub fn refund_in_range(&self, property: u64, investor: &Address) -> (r: bool)
        ensures
            r == self@.refund_fits(property, *investor),
    {
        match self.sales.get(property) {
            None => true,
            Some(sale) => {
                let shares: i128 = self.subscription_of(property, investor);
                sale.status != SaleStatus::Failed || shares <= 0 || self.settlement_token.is_none()
                    || shares.checked_mul(sale.price_per_share).is_some()
            },
        }
    }

    /// Whether [`Self::close`] stays within range.
    pub fn close_in_range(&self, env: &Env, property: u64) -> (r: bool)
        ensures
            r == self@.close_fits(property, env.timestamp),
    {
        let sale = match self.sales.get(property) {
            None => return true,
            Some(sale) => sale,
        };
        if !Self::closable(&sale, env.timestamp) || self.registry.is_none()
            || self.settlement_token.is_none() || sale.subscribed < sale.min_shares {
            return true;
        }
        match sale.subscribed.checked_mul(sale.price_per_share) {
            None => false,
            Some(proceeds) => match proceeds.checked_mul(self.fee_bps as i128) {
                None => false,
                Some(scaled) => proceeds.checked_sub(scaled / BPS_DENOMINATOR).is_some(),
            },
        }
    }

    // --- Getters ---
    pub fn get_sale(&self, property: u64) -> (r: Result<Sale, Error>)
        ensures
            r == (if self@.sales.contains_key(property) {
                Ok(self@.sales[property])
            } else {
                Err(Error::UnknownSale)
            }),
    {
        self.sale_of(property)
    }

    pub fn get_subscription(&self, property: u64, investor: &Address) -> (r: i128)
        ensures
            r == self@.subscription(property, *investor),
    {
        self.subscription_of(property, investor)
    }

    /// Whether the sale is open to [`Self::close`] right now.
    pub fn is_closable(&self, env: &Env, property: u64) -> (r: Result<bool, Error>)
        ensures
            r == (if self@.sales.contains_key(property) {
                Ok(self@.sales[property].closable(env.timestamp))
            } else {
                Err(Error::UnknownSale)
            }),
    {
        let sale = self.sale_of(property)?;
        Ok(Self::closable(&sale, env.timestamp))
    }

    pub fn get_admin(&self) -> (r: Address)
        requires
            self@.governance.admin is Some,
        ensures
            r == self@.governance.admin->0,
    {
        self.governance.admin.unwrap()
    }

    pub fn get_registry(&self) -> (r: Address)
        requires
            self@.registry is Some,
        ensures
            r == self@.registry->0,
    {
        self.registry.unwrap()
    }

    pub fn get_share_ledger(&self) -> (r: Address)
        requires
            self@.share_ledger is Some,
        ensures
            r == self@.share_ledger->0,
    {
        self.share_ledger.unwrap()
    }

    pub fn get_settlement_token(&self) -> (r: Address)
        requires
            self@.settlement_token is Some,
        ensures
            r == self@.settlement_token->0,
    {
        self.settlement_token.unwrap()
    }

    pub fn get_treasury(&self) -> (r: Address)
        requires
            self@.treasury is Some,
        ensures
            r == self@.treasury->0,
    {
        self.treasury.unwrap()
    }

    pub fn get_fee_bps(&self) -> (r: u32)
        ensures
            r == self@.fee_bps,
    {
        self.fee_bps
    }

    /// The ceiling on the protocol fee. Fixed in code, not configuration.
    pub fn get_max_fee_bps() -> (r: u32)
        ensures
            r == 1_000,
    {
        MAX_FEE_BPS
    }

    pub fn get_scheduled_action(&self) -> (r: Option<ScheduledAction>)
        ensures
            r == self@.governance.scheduled,
    {
        self.governance.scheduled
    }

    pub fn get_timelock_secs(&self) -> (r: u64)
        ensures
            r == (match self@.governance.timelock_secs {
                Some(secs) => secs,
                None => 0,
            }),
    {
        match self.governance.timelock_secs {
            Some(secs) => secs,
            None => 0,
        }
    }

    // --- Internals ---
    fn closable(sale: &Sale, now: u64) -> (r: bool)
        ensures
            r == sale.closable(now),
    {
        sale.status == SaleStatus::Open && (sale.subscribed == sale.total_shares || now
            >= sale.deadline)
    }

    fn sale_of(&self, property: u64) -> (r: Result<Sale, Error>)
        ensures
            r == (if self@.sales.contains_key(property) {
                Ok(self@.sales[property])
            } else {
                Err(Error::UnknownSale)
            }),
    {
        match self.sales.get(property) {
            Some(sale) => Ok(sale),
            None => Err(Error::UnknownSale),
        }
    }

    /// The sale whose subscriptions may change at `now`.
    fn require_book(&self, property: u64, shares: i128, now: u64) -> (r: Result<Sale, Error>)
        ensures
            r == (match self@.book_refusal(property, shares, now) {
                Some(refusal) => Err(refusal),
                None => Ok(self@.sales[property]),
            }),
    {
        if shares <= 0 {
            return Err(Error::InvalidAmount);
        }
        let sale = self.sale_of(property)?;
        if sale.status != SaleStatus::Open {
            return Err(Error::SaleNotOpen);
        }
        if now >= sale.deadline {
            return Err(Error::Deadline);
        }
        Ok(sale)
    }

    fn subscription_of(&self, property: u64, investor: &Address) -> (r: i128)
        ensures
            r == self@.subscription(property, *investor),
    {
        self.subscriptions.amount(StakeOf { property, party: *investor })
    }

    /// A spent or emptied subscription is removed rather than stored as zero.
    fn set_subscription(&mut self, property: u64, investor: &Address, shares: i128)
        ensures
            final(self)@ == (OfferingModel {
                subscriptions: with_subscription(
                    old(self)@.subscriptions,
                    StakeOf { property, party: *investor },
                    shares,
                ),
                ..old(self)@
            }),
    {
        let key = StakeOf { property, party: *investor };
        if shares == 0 {
            self.subscriptions.remove(key);
            return ;
        }
        self.subscriptions.insert(key, shares);
    }

    fn require_registry(&self) -> (r: Result<Address, Error>)
        ensures
            r == (match self@.registry {
                Some(address) => Ok(address),
                None => Err(Error::NotInitialized),
            }),
    {
        match self.registry {
            Some(address) => Ok(address),
            None => Err(Error::NotInitialized),
        }
    }

    fn require_share_ledger(&self) -> (r: Result<Address, Error>)
        ensures
            r == (match self@.share_ledger {
                Some(address) => Ok(address),
                None => Err(Error::NotInitialized),
            }),
    {
        match self.share_ledger {
            Some(address) => Ok(address),
            None => Err(Error::NotInitialized),
        }
    }

    fn require_token(&self) -> (r: Result<Address, Error>)
        ensures
            r == (match self@.settlement_token {
                Some(address) => Ok(address),
                None => Err(Error::NotInitialized),
            }),
    {
        match self.settlement_token {
            Some(address) => Ok(address),
            None => Err(Error::NotInitialized),
        }
    }

    fn require_treasury(&self) -> (r: Result<Address, Error>)
        ensures
            r == (match self@.treasury {
                Some(address) => Ok(address),
                None => Err(Error::NotInitialized),
            }),
    {
        match self.treasury {
            Some(address) => Ok(address),
            None => Err(Error::NotInitialized),
        }
    }
}

} // verus!
