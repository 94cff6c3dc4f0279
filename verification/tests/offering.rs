use stellar_homes::host::{Address, AddressKind, Digest, Env, Transfer};
use stellar_homes::offering::{
    Action, Effect, Error, Event, LedgerCall, OfferingContract, OfferingTerms, RegistryCall, Sale,
    SaleStatus,
};
use stellar_homes::share_ledger::ShareLedgerContract;

const TIMELOCK: u64 = 172_800;
const DURATION: u64 = 604_800;
const TOTAL_SHARES: i128 = 1_000;
const PRICE: i128 = 100;
const MIN_SHARES: i128 = 400;
const FEE_BPS: u32 = 250;

fn account(n: u128) -> Address {
    Address { kind: AddressKind::Account, id: Digest { high: 0, low: n } }
}

fn contract(n: u128) -> Address {
    Address { kind: AddressKind::Contract, id: Digest { high: 0, low: n } }
}

fn hash(byte: u8) -> Digest {
    let half = u128::from_be_bytes([byte; 16]);
    Digest { high: half, low: half }
}

/// Balances in the settlement asset.
struct Bank {
    balances: Vec<(Address, i128)>,
}

impl Bank {
    fn balance(&self, who: &Address) -> i128 {
        self.balances.iter().find(|(a, _)| a == who).map_or(0, |(_, b)| *b)
    }

    fn add(&mut self, who: &Address, amount: i128) {
        match self.balances.iter_mut().find(|(a, _)| a == who) {
            Some((_, b)) => *b += amount,
            None => self.balances.push((*who, amount)),
        }
    }

    fn carry_out(&mut self, t: &Transfer) {
        assert!(self.balance(&t.from) >= t.amount);
        self.add(&t.from, -t.amount);
        self.add(&t.to, t.amount);
    }
}

#[derive(Copy, Clone, Debug, PartialEq, Eq)]
enum Listing {
    Draft,
    Offering,
    Owned,
    Failed,
}

/// A register of properties for sale: the sponsor of each, and where it stands.
struct Registry {
    properties: Vec<(Address, Listing)>,
}

impl Registry {
    fn register(&mut self, sponsor: Address, listing: Listing) -> u64 {
        self.properties.push((sponsor, listing));
        self.properties.len() as u64
    }

    fn terms(&self, property: u64) -> OfferingTerms {
        let (sponsor, listing) = self.properties[property as usize - 1];
        OfferingTerms {
            property,
            sponsor,
            total_shares: TOTAL_SHARES,
            price_per_share: PRICE,
            offered: listing == Listing::Offering,
        }
    }

    fn mark(&mut self, property: u64, listing: Listing) {
        assert_eq!(self.properties[property as usize - 1].1, Listing::Offering);
        self.properties[property as usize - 1].1 = listing;
    }

    fn status(&self, property: u64) -> Listing {
        self.properties[property as usize - 1].1
    }
}

struct Setup {
    now: u64,
    address: Address,
    registry_address: Address,
    ledger_address: Address,
    offering: OfferingContract,
    registry: Registry,
    shares: ShareLedgerContract,
    usdc: Bank,
    token: Address,
    admin: Address,
    sponsor: Address,
    treasury: Address,
    alice: Address,
    bob: Address,
    property: u64,
}

impl Setup {
    fn env(&self, who: &Address) -> Env {
        Env { timestamp: self.now, contract: self.address, authorizations: vec![*who] }
    }

    /// Carry out what the offering has asked for, in order.
    fn carry_out(&mut self) {
        for effect in std::mem::take(&mut self.offering.outbox) {
            match effect {
                Effect::Transfer(t) => {
                    assert_eq!(t.token, self.token);
                    self.usdc.carry_out(&t);
                }
                Effect::CallRegistry { registry, notice } => {
                    assert_eq!(registry, self.registry_address);
                    match notice {
                        RegistryCall::MarkOwned { property } => {
                            self.registry.mark(property, Listing::Owned)
                        }
                        RegistryCall::MarkFailed { property } => {
                            self.registry.mark(property, Listing::Failed)
                        }
                    }
                }
                Effect::CallLedger {
                    ledger,
                    call: LedgerCall::Issue { property, to, shares },
                } => {
                    assert_eq!(ledger, self.ledger_address);
                    let env = Env {
                        timestamp: self.now,
                        contract: self.ledger_address,
                        authorizations: vec![self.address],
                    };
                    self.shares.issue(&env, &self.address, property, &to, shares).unwrap();
                }
                Effect::Publish(_) => {}
                Effect::Upgrade(_) => {}
            }
        }
    }

    fn open(
        &mut self,
        sponsor: Address,
        property: u64,
        min_shares: i128,
        duration: u64,
    ) -> Result<Sale, Error> {
        let query = self.offering.before_open(property, duration)?;
        assert_eq!(query.registry, self.registry_address);
        let terms = self.registry.terms(query.property);
        let env = self.env(&sponsor);
        assert!(self
            .offering
            .open_in_range(&env, &sponsor, property, min_shares, duration, &terms));
        self.offering.open(&env, &sponsor, property, min_shares, duration, &terms)
    }

    fn subscribe(&mut self, property: u64, who: Address, shares: i128) -> Result<(), Error> {
        let env = self.env(&who);
        assert!(self.offering.subscribe_in_range(&env, property, &who, shares));
        let r = self.offering.subscribe(&env, property, &who, shares);
        self.carry_out();
        r
    }

    fn unsubscribe(&mut self, property: u64, who: Address, shares: i128) -> Result<(), Error> {
        let env = self.env(&who);
        assert!(self.offering.withdraw_in_range(&env, property, &who, shares));
        let r = self.offering.withdraw_subscription(&env, property, &who, shares);
        self.carry_out();
        r
    }

    fn claim_shares(&mut self, property: u64, who: Address) -> Result<i128, Error> {
        let r = self.offering.claim_shares(property, &who);
        self.carry_out();
        r
    }

    fn refund(&mut self, property: u64, who: Address) -> Result<i128, Error> {
        let env = self.env(&account(70));
        assert!(self.offering.refund_in_range(property, &who));
        let r = self.offering.refund(&env, property, &who);
        self.carry_out();
        r
    }

    fn close(&mut self, property: u64) -> Result<SaleStatus, Error> {
        let env = self.env(&account(71));
        assert!(self.offering.close_in_range(&env, property));
        let r = self.offering.close(&env, property);
        self.carry_out();
        r
    }

    fn is_closable(&self, property: u64) -> bool {
        self.offering.is_closable(&self.env(&self.admin), property).unwrap()
    }

    fn held(&self) -> i128 {
        self.usdc.balance(&self.address)
    }
}

fn setup() -> Setup {
    let admin = account(1);
    let sponsor = account(2);
    let treasury = account(3);
    let alice = account(4);
    let bob = account(5);
    let token = contract(10);
    let registry_address = contract(11);
    let ledger_address = contract(12);
    let address = contract(13);

    let mut usdc = Bank { balances: Vec::new() };
    usdc.add(&alice, 1_000_000);
    usdc.add(&bob, 1_000_000);

    let offering = OfferingContract::new(
        admin,
        registry_address,
        ledger_address,
        token,
        treasury,
        FEE_BPS,
        TIMELOCK,
    )
    .unwrap();
    let mut shares = ShareLedgerContract::new(admin, TIMELOCK);
    let env = Env { timestamp: 0, contract: ledger_address, authorizations: vec![admin] };
    shares.set_offering(&env, &admin, &address).unwrap();

    // A property valued, cleared and ready to sell.
    let mut registry = Registry { properties: Vec::new() };
    let property = registry.register(sponsor, Listing::Offering);

    Setup {
        now: 0,
        address,
        registry_address,
        ledger_address,
        offering,
        registry,
        shares,
        usdc,
        token,
        admin,
        sponsor,
        treasury,
        alice,
        bob,
        property,
    }
}

/// Open the sale with the default terms.
fn open(s: &mut Setup) {
    s.open(s.sponsor, s.property, MIN_SHARES, DURATION).unwrap();
}

#[test]
fn test_offering_constructor_sets_configuration_at_deploy() {
    let s = setup();
    assert_eq!(s.offering.get_admin(), s.admin);
    assert_eq!(s.offering.get_fee_bps(), FEE_BPS);
    assert_eq!(s.offering.get_treasury(), s.treasury);
    assert_eq!(s.offering.get_timelock_secs(), TIMELOCK);
    assert!(s.offering.get_fee_bps() <= OfferingContract::get_max_fee_bps());
}

#[test]
fn test_open_copies_the_terms_the_registry_cleared() {
    let mut s = setup();
    s.now = 1_000;
    let sale = s.open(s.sponsor, s.property, MIN_SHARES, DURATION).unwrap();

    assert_eq!(sale.property, s.property);
    assert_eq!(sale.sponsor, s.sponsor);
    assert_eq!(sale.total_shares, TOTAL_SHARES);
    assert_eq!(sale.price_per_share, PRICE);
    assert_eq!(sale.min_shares, MIN_SHARES);
    assert_eq!(sale.subscribed, 0);
    assert_eq!(sale.deadline, 1_000 + DURATION);
    assert_eq!(sale.status, SaleStatus::Open);
}

#[test]
fn test_only_the_registered_sponsor_of_a_cleared_property_can_open() {
    let mut s = setup();
    let other = account(50);

    // Wrong sponsor.
    assert_eq!(s.open(other, s.property, MIN_SHARES, DURATION), Err(Error::NotSponsor));

    // A property the registry has not cleared for offering.
    let draft = s.registry.register(s.sponsor, Listing::Draft);
    assert_eq!(
        s.open(s.sponsor, draft, MIN_SHARES, DURATION),
        Err(Error::PropertyNotOffered)
    );

    // Nonsense terms.
    assert_eq!(s.open(s.sponsor, s.property, 0, DURATION), Err(Error::InvalidSoftCap));
    assert_eq!(
        s.open(s.sponsor, s.property, TOTAL_SHARES + 1, DURATION),
        Err(Error::InvalidSoftCap)
    );
    assert_eq!(s.open(s.sponsor, s.property, MIN_SHARES, 0), Err(Error::InvalidDuration));

    open(&mut s);
    // One sale per property, ever.
    assert_eq!(
        s.open(s.sponsor, s.property, MIN_SHARES, DURATION),
        Err(Error::SaleExists)
    );
}

#[test]
fn test_subscriptions_are_escrowed_not_forwarded() {
    let mut s = setup();
    open(&mut s);

    s.subscribe(s.property, s.alice, 300).unwrap();

    // The money is in the offering contract, not with the sponsor.
    assert_eq!(s.held(), 30_000);
    assert_eq!(s.usdc.balance(&s.alice), 970_000);
    assert_eq!(s.usdc.balance(&s.sponsor), 0);
    assert_eq!(s.offering.get_subscription(s.property, &s.alice), 300);
    assert_eq!(s.offering.get_sale(s.property).unwrap().subscribed, 300);

    // Nothing is issued while the sale is open.
    assert_eq!(s.shares.total_issued(s.property), 0);
}

#[test]
fn test_a_sale_cannot_be_oversubscribed() {
    let mut s = setup();
    open(&mut s);

    s.subscribe(s.property, s.alice, 600).unwrap();
    assert_eq!(
        s.subscribe(s.property, s.bob, TOTAL_SHARES - 600 + 1),
        Err(Error::Oversubscribed)
    );

    // Exactly the remainder is fine.
    s.subscribe(s.property, s.bob, 400).unwrap();
    assert_eq!(s.offering.get_sale(s.property).unwrap().subscribed, TOTAL_SHARES);

    assert_eq!(s.subscribe(s.property, s.alice, 1), Err(Error::Oversubscribed));
    assert_eq!(s.subscribe(s.property, s.alice, 0), Err(Error::InvalidAmount));
}

#[test]
fn test_an_investor_can_back_out_while_the_sale_is_open() {
    let mut s = setup();
    open(&mut s);

    s.subscribe(s.property, s.alice, 500).unwrap();
    s.unsubscribe(s.property, s.alice, 200).unwrap();

    assert_eq!(s.offering.get_subscription(s.property, &s.alice), 300);
    assert_eq!(s.offering.get_sale(s.property).unwrap().subscribed, 300);
    assert_eq!(s.usdc.balance(&s.alice), 970_000);
    assert_eq!(s.held(), 30_000);

    // Cannot take out more than was put in.
    assert_eq!(s.unsubscribe(s.property, s.alice, 301), Err(Error::InvalidAmount));

    // Once the deadline passes the sale is decided by its subscriptions.
    s.now = DURATION + 1;
    assert_eq!(s.unsubscribe(s.property, s.alice, 1), Err(Error::Deadline));
}

#[test]
fn test_a_sale_that_sells_out_closes_immediately() {
    let mut s = setup();
    open(&mut s);

    s.subscribe(s.property, s.alice, 600).unwrap();
    assert!(!s.is_closable(s.property));
    // Not sold out, deadline not reached.
    assert_eq!(s.close(s.property), Err(Error::StillOpen));

    s.subscribe(s.property, s.bob, 400).unwrap();
    assert!(s.is_closable(s.property));
    assert_eq!(s.close(s.property), Ok(SaleStatus::Settled));
}

#[test]
fn test_settlement_pays_the_sponsor_and_the_treasury() {
    let mut s = setup();
    open(&mut s);

    s.subscribe(s.property, s.alice, 600).unwrap();
    s.subscribe(s.property, s.bob, 400).unwrap();
    s.close(s.property).unwrap();

    // 1000 shares at 100 is 100_000; the 2.5% fee is 2_500.
    assert_eq!(s.usdc.balance(&s.treasury), 2_500);
    assert_eq!(s.usdc.balance(&s.sponsor), 97_500);
    assert_eq!(s.held(), 0);

    // And the registry now records the property as owned by its shareholders.
    assert_eq!(s.registry.status(s.property), Listing::Owned);
}

#[test]
fn test_a_partly_sold_raise_settles_at_what_it_sold() {
    let mut s = setup();
    open(&mut s);

    // Above the 400-share soft cap but short of the 1000 on offer.
    s.subscribe(s.property, s.alice, 500).unwrap();
    s.now = DURATION + 1;
    assert_eq!(s.close(s.property), Ok(SaleStatus::Settled));

    // The sponsor is paid for 500 shares only.
    let proceeds = 500 * PRICE;
    let fee = proceeds * FEE_BPS as i128 / 10_000;
    assert_eq!(s.usdc.balance(&s.treasury), fee);
    assert_eq!(s.usdc.balance(&s.sponsor), proceeds - fee);

    // And only those 500 shares ever exist, so income divides over them.
    s.claim_shares(s.property, s.alice).unwrap();
    assert_eq!(s.shares.total_issued(s.property), 500);
}

#[test]
fn test_shares_are_claimed_once_and_only_after_settlement() {
    let mut s = setup();
    open(&mut s);
    s.subscribe(s.property, s.alice, 600).unwrap();
    s.subscribe(s.property, s.bob, 400).unwrap();

    // Not while the sale is open.
    assert_eq!(s.claim_shares(s.property, s.alice), Err(Error::SaleNotSettled));

    s.close(s.property).unwrap();

    assert_eq!(s.claim_shares(s.property, s.alice), Ok(600));
    assert_eq!(s.shares.balance_of(s.property, &s.alice), 600);
    // The subscription is spent, so a second claim finds nothing.
    assert_eq!(s.claim_shares(s.property, s.alice), Err(Error::NothingSubscribed));
    assert_eq!(s.shares.balance_of(s.property, &s.alice), 600);

    assert_eq!(s.claim_shares(s.property, s.bob), Ok(400));
    assert_eq!(s.shares.total_issued(s.property), TOTAL_SHARES);

    // Somebody who never subscribed gets nothing.
    let stranger = account(99);
    assert_eq!(s.claim_shares(s.property, stranger), Err(Error::NothingSubscribed));
}

#[test]
fn test_a_raise_below_its_soft_cap_is_unwound_in_full() {
    let mut s = setup();
    open(&mut s);

    s.subscribe(s.property, s.alice, 200).unwrap();
    s.subscribe(s.property, s.bob, 100).unwrap();
    assert_eq!(s.held(), 30_000);

    s.now = DURATION + 1;
    assert_eq!(s.close(s.property), Ok(SaleStatus::Failed));
    assert_eq!(s.registry.status(s.property), Listing::Failed);

    // The sponsor is paid nothing and no shares exist.
    assert_eq!(s.usdc.balance(&s.sponsor), 0);
    assert_eq!(s.usdc.balance(&s.treasury), 0);
    assert_eq!(s.shares.total_issued(s.property), 0);
    assert_eq!(s.claim_shares(s.property, s.alice), Err(Error::SaleNotSettled));

    // Every subscriber is made whole, to the last unit.
    assert_eq!(s.refund(s.property, s.alice), Ok(20_000));
    assert_eq!(s.refund(s.property, s.bob), Ok(10_000));
    assert_eq!(s.usdc.balance(&s.alice), 1_000_000);
    assert_eq!(s.usdc.balance(&s.bob), 1_000_000);
    assert_eq!(s.held(), 0);

    // Refunds are taken once.
    assert_eq!(s.refund(s.property, s.alice), Err(Error::NothingSubscribed));
}

#[test]
fn test_a_raise_with_no_subscribers_still_closes() {
    let mut s = setup();
    open(&mut s);

    s.now = DURATION + 1;
    assert_eq!(s.close(s.property), Ok(SaleStatus::Failed));
    assert_eq!(s.held(), 0);
}

#[test]
fn test_closing_is_permissionless_but_decided_by_the_sales_own_state() {
    let mut s = setup();
    open(&mut s);
    s.subscribe(s.property, s.alice, 500).unwrap();

    // A stranger closes it, and the outcome is the one the state dictates.
    s.now = DURATION + 1;
    assert_eq!(s.close(s.property), Ok(SaleStatus::Settled));

    // A sale closes once.
    assert_eq!(s.close(s.property), Err(Error::SaleNotOpen));
    assert!(!s.is_closable(s.property));
}

#[test]
fn test_a_closed_sale_takes_no_more_money() {
    let mut s = setup();
    open(&mut s);
    s.subscribe(s.property, s.alice, 500).unwrap();
    s.now = DURATION + 1;
    s.close(s.property).unwrap();

    assert_eq!(s.subscribe(s.property, s.bob, 100), Err(Error::SaleNotOpen));
    assert_eq!(s.unsubscribe(s.property, s.alice, 100), Err(Error::SaleNotOpen));
    // Settled, not failed: there is nothing to refund.
    assert_eq!(s.refund(s.property, s.alice), Err(Error::SaleNotFailed));
}

#[test]
fn test_subscriptions_stop_at_the_deadline() {
    let mut s = setup();
    open(&mut s);

    s.now = DURATION;
    assert_eq!(s.subscribe(s.property, s.alice, 100), Err(Error::Deadline));
}

#[test]
fn test_unknown_sales_are_rejected() {
    let mut s = setup();
    assert_eq!(s.offering.get_sale(99), Err(Error::UnknownSale));
    assert_eq!(s.subscribe(99, s.alice, 1), Err(Error::UnknownSale));
    assert_eq!(s.close(99), Err(Error::UnknownSale));
}

#[test]
fn test_the_fee_is_capped_in_code_not_configuration() {
    let mut s = setup();
    let max = OfferingContract::get_max_fee_bps();

    // Rejected on the way into the queue, so an impossible fee never waits.
    let env = s.env(&s.admin);
    assert_eq!(
        s.offering.schedule_action(&env, &s.admin, Action::SetFeeBps(max + 1)),
        Err(Error::InvalidFee)
    );

    s.offering.schedule_action(&env, &s.admin, Action::SetFeeBps(max)).unwrap();
    s.now = TIMELOCK;
    let env = s.env(&s.admin);
    s.offering.execute_action(&env, &s.admin).unwrap();
    assert_eq!(s.offering.get_fee_bps(), max);
}

#[test]
fn test_fee_and_treasury_changes_wait_out_the_timelock() {
    let mut s = setup();
    let new_treasury = account(60);

    s.now = 1_000;
    let env = s.env(&s.admin);
    let action = Action::SetTreasury(new_treasury);
    assert!(s.offering.schedule_in_range(&env, &s.admin, action));
    s.offering.schedule_action(&env, &s.admin, action).unwrap();
    assert_eq!(s.offering.get_scheduled_action().unwrap().eta, 1_000 + TIMELOCK);
    // Nothing changes while it waits.
    assert_eq!(s.offering.get_treasury(), s.treasury);
    assert_eq!(s.offering.execute_action(&env, &s.admin), Err(Error::TimelockNotExpired));

    s.now = 1_000 + TIMELOCK;
    let env = s.env(&s.admin);
    s.offering.execute_action(&env, &s.admin).unwrap();
    assert_eq!(s.offering.get_treasury(), new_treasury);
    assert_eq!(s.offering.get_scheduled_action(), None);
}

#[test]
fn test_offering_upgrade_and_admin_handover_are_admin_only() {
    let mut s = setup();
    let stranger = account(99);
    let action = Action::Upgrade(hash(8));

    let env = s.env(&stranger);
    assert_eq!(s.offering.schedule_action(&env, &stranger, action), Err(Error::NotAuthorized));
    assert_eq!(s.offering.execute_action(&env, &stranger), Err(Error::NotAuthorized));
    assert_eq!(s.offering.cancel_action(&env, &stranger), Err(Error::NotAuthorized));
    assert_eq!(
        s.offering.propose_admin(&env, &stranger, &stranger),
        Err(Error::NotAuthorized)
    );
}

#[test]
fn test_offering_admin_handover_is_two_step() {
    let mut s = setup();
    let new_admin = account(60);
    let stranger = account(61);

    let env = s.env(&s.admin);
    s.offering.propose_admin(&env, &s.admin, &new_admin).unwrap();
    assert_eq!(s.offering.get_admin(), s.admin);
    let env = s.env(&stranger);
    assert_eq!(s.offering.accept_admin(&env, &stranger), Err(Error::NotAuthorized));

    let env = s.env(&new_admin);
    s.offering.accept_admin(&env, &new_admin).unwrap();
    assert_eq!(s.offering.get_admin(), new_admin);
    let env = s.env(&s.admin);
    assert_eq!(s.offering.propose_admin(&env, &s.admin, &s.admin), Err(Error::NotAuthorized));
}

// --- further cases ---

#[test]
fn an_offering_cannot_be_deployed_with_an_excessive_fee() {
    let (a, b) = (account(1), contract(2));
    assert!(OfferingContract::new(a, b, b, b, a, 1_000, TIMELOCK).is_ok());
    assert_eq!(
        OfferingContract::new(a, b, b, b, a, 1_001, TIMELOCK).err(),
        Some(Error::InvalidFee)
    );
}

#[test]
fn a_fee_that_rounds_to_nothing_is_not_paid() {
    let mut s = setup();
    s.offering.fee_bps = 0;
    open(&mut s);
    s.subscribe(s.property, s.alice, 1_000).unwrap();
    s.offering.treasury = None;
    s.close(s.property).unwrap();
    assert_eq!(s.usdc.balance(&s.sponsor), 100_000);
    assert_eq!(s.usdc.balance(&s.treasury), 0);
}

#[test]
fn withdrawing_a_whole_subscription_leaves_no_trace() {
    let mut s = setup();
    open(&mut s);
    s.subscribe(s.property, s.alice, 10).unwrap();
    s.subscribe(s.property, s.alice, 5).unwrap();
    assert_eq!(s.offering.get_subscription(s.property, &s.alice), 15);
    s.unsubscribe(s.property, s.alice, 15).unwrap();
    assert_eq!(s.offering.get_subscription(s.property, &s.alice), 0);
    assert_eq!(s.offering.get_sale(s.property).unwrap().subscribed, 0);
    assert_eq!(s.held(), 0);
    assert_eq!(s.usdc.balance(&s.alice), 1_000_000);
}

#[test]
fn a_settlement_is_announced_after_it_is_paid() {
    let mut s = setup();
    open(&mut s);
    s.subscribe(s.property, s.alice, 1_000).unwrap();
    let env = s.env(&s.bob);
    s.offering.close(&env, s.property).unwrap();
    let pay = |to: Address, amount: i128| {
        Effect::Transfer(Transfer { token: s.token, from: s.address, to, amount })
    };
    assert_eq!(
        s.offering.outbox,
        vec![
            pay(s.treasury, 2_500),
            pay(s.sponsor, 97_500),
            Effect::CallRegistry {
                registry: s.registry_address,
                notice: RegistryCall::MarkOwned { property: s.property }
            },
            Effect::Publish(Event::Close {
                property: s.property,
                status: SaleStatus::Settled,
                subscribed: 1_000
            }),
        ]
    );
}

#[test]
fn an_offering_that_is_not_configured_says_so() {
    let mut s = setup();
    open(&mut s);
    s.subscribe(s.property, s.alice, 1_000).unwrap();
    s.offering.treasury = None;
    assert_eq!(s.close(s.property), Err(Error::NotInitialized));
    s.offering.treasury = Some(s.treasury);
    s.offering.settlement_token = None;
    assert_eq!(s.close(s.property), Err(Error::NotInitialized));
    assert_eq!(s.unsubscribe(s.property, s.alice, 1), Err(Error::NotInitialized));
    s.offering.settlement_token = Some(s.token);
    s.offering.registry = None;
    assert_eq!(s.close(s.property), Err(Error::NotInitialized));
    assert_eq!(s.offering.before_open(9, 1), Err(Error::NotInitialized));
    s.offering.registry = Some(s.registry_address);
    s.close(s.property).unwrap();
    s.offering.share_ledger = None;
    assert_eq!(s.claim_shares(s.property, s.alice), Err(Error::NotInitialized));
}

#[test]
fn offering_amounts_out_of_range_are_noticed() {
    let mut s = setup();
    open(&mut s);
    let mut sale = s.offering.get_sale(s.property).unwrap();
    sale.price_per_share = i128::MAX;
    sale.total_shares = i128::MAX;
    s.offering.sales.insert(s.property, sale);
    let env = s.env(&s.alice);
    assert!(!s.offering.subscribe_in_range(&env, s.property, &s.alice, 2));
    assert!(s.offering.subscribe_in_range(&env, s.property, &s.alice, 1));
    sale.subscribed = i128::MAX;
    s.offering.sales.insert(s.property, sale);
    assert!(!s.offering.subscribe_in_range(&env, s.property, &s.alice, 1));
    assert!(!s.offering.close_in_range(&env, s.property));
    s.now = u64::MAX;
    let env = s.env(&s.sponsor);
    let draft = s.registry.register(s.sponsor, Listing::Offering);
    let terms = s.registry.terms(draft);
    assert!(!s.offering.open_in_range(&env, &s.sponsor, draft, MIN_SHARES, 1, &terms));
    assert!(s.offering.open_in_range(&env, &s.sponsor, draft, 0, 1, &terms));
    assert!(!s.offering.schedule_in_range(&env, &s.admin, Action::SetFeeBps(1)));
    assert!(s.offering.schedule_in_range(&env, &s.admin, Action::SetFeeBps(1_001)));
}

#[test]
fn offering_errors_keep_their_numbers() {
    assert_eq!(Error::UnknownSale.code(), 8);
    assert_eq!(Error::InvalidFee.code(), 18);
    assert_eq!(Error::NothingSubscribed.code(), 22);
}
