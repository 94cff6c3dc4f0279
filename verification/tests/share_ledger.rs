use stellar_homes::host::{Address, AddressKind, Digest, Env};
use stellar_homes::share_ledger::{
    Action, Effect, Error, Event, Position, ShareLedgerContract, SCALE,
};

const TIMELOCK: u64 = 172_800;
const PROPERTY: u64 = 1;
const OTHER_PROPERTY: u64 = 2;

fn account(n: u128) -> Address {
    Address { kind: AddressKind::Account, id: Digest { high: 0, low: n } }
}

fn contract(n: u128) -> Address {
    Address { kind: AddressKind::Contract, id: Digest { high: 0, low: n } }
}

fn hash(byte: u8) -> Digest {
    let half = u128::from_be_bytes([byte; 16]);
    Digest { high: half, low: half }
}

struct Setup {
    now: u64,
    ledger: ShareLedgerContract,
    admin: Address,
    offering: Address,
    distributor: Address,
    alice: Address,
    bob: Address,
}

impl Setup {
    fn env(&self, who: &Address) -> Env {
        Env { timestamp: self.now, contract: contract(9), authorizations: vec![*who] }
    }

    fn issue(&mut self, who: Address, property: u64, to: Address, n: i128) -> Result<(), Error> {
        let env = self.env(&who);
        assert!(self.ledger.issue_in_range(&who, property, &to, n));
        self.ledger.issue(&env, &who, property, &to, n)
    }

    fn transfer(&mut self, property: u64, from: Address, to: Address, n: i128) -> Result<(), Error> {
        let env = self.env(&from);
        assert!(self.ledger.transfer_in_range(property, &from, &to, n));
        self.ledger.transfer(&env, property, &from, &to, n)
    }

    fn accrue(&mut self, who: Address, property: u64, amount: i128) -> Result<(), Error> {
        let env = self.env(&who);
        assert!(self.ledger.accrue_in_range(&who, property, amount));
        self.ledger.accrue(&env, &who, property, amount)
    }

    fn take(&mut self, who: Address, property: u64, holder: Address) -> Result<i128, Error> {
        let env = self.env(&who);
        assert!(self.ledger.take_in_range(&who, property, &holder));
        self.ledger.take_accrued(&env, &who, property, &holder)
    }
}

fn setup() -> Setup {
    let admin = account(1);
    let offering = contract(2);
    let distributor = contract(3);
    let alice = account(4);
    let bob = account(5);
    let ledger = ShareLedgerContract::new(admin, TIMELOCK);
    let mut s = Setup { now: 0, ledger, admin, offering, distributor, alice, bob };
    let env = s.env(&admin);
    s.ledger.set_offering(&env, &admin, &offering).unwrap();
    s.ledger.set_distributor(&env, &admin, &distributor).unwrap();
    s
}

#[test]
fn test_ledger_constructor_sets_configuration_at_deploy() {
    let s = setup();
    assert_eq!(s.ledger.get_admin(), s.admin);
    assert_eq!(s.ledger.get_timelock_secs(), TIMELOCK);
    assert_eq!(s.ledger.get_offering(), Some(s.offering));
    assert_eq!(s.ledger.get_distributor(), Some(s.distributor));
    assert_eq!(s.ledger.total_issued(PROPERTY), 0);
}

#[test]
fn test_only_the_offering_can_issue_shares() {
    let mut s = setup();
    let stranger = account(99);

    assert_eq!(s.issue(stranger, PROPERTY, s.alice, 100), Err(Error::NotAuthorized));
    assert_eq!(s.issue(s.admin, PROPERTY, s.alice, 100), Err(Error::NotAuthorized));
    assert_eq!(s.issue(s.distributor, PROPERTY, s.alice, 100), Err(Error::NotAuthorized));

    s.issue(s.offering, PROPERTY, s.alice, 100).unwrap();
    assert_eq!(s.ledger.balance_of(PROPERTY, &s.alice), 100);
    assert_eq!(s.ledger.total_issued(PROPERTY), 100);

    // Zero and negative issuance is rejected.
    assert_eq!(s.issue(s.offering, PROPERTY, s.alice, 0), Err(Error::InvalidAmount));
    assert_eq!(s.issue(s.offering, PROPERTY, s.alice, -5), Err(Error::InvalidAmount));
}

#[test]
fn test_properties_are_isolated() {
    let mut s = setup();
    s.issue(s.offering, PROPERTY, s.alice, 100).unwrap();
    s.issue(s.offering, OTHER_PROPERTY, s.bob, 400).unwrap();

    assert_eq!(s.ledger.balance_of(PROPERTY, &s.bob), 0);
    assert_eq!(s.ledger.balance_of(OTHER_PROPERTY, &s.alice), 0);
    assert_eq!(s.ledger.total_issued(PROPERTY), 100);
    assert_eq!(s.ledger.total_issued(OTHER_PROPERTY), 400);

    // Income on one property never reaches the other's holders.
    s.accrue(s.distributor, PROPERTY, 1_000).unwrap();
    assert_eq!(s.ledger.accrued_of(PROPERTY, &s.alice), 1_000);
    assert_eq!(s.ledger.accrued_of(OTHER_PROPERTY, &s.bob), 0);
}

#[test]
fn test_transfer_moves_shares_and_needs_the_sellers_signature() {
    let mut s = setup();
    s.issue(s.offering, PROPERTY, s.alice, 1_000).unwrap();

    s.transfer(PROPERTY, s.alice, s.bob, 300).unwrap();
    assert_eq!(s.ledger.balance_of(PROPERTY, &s.alice), 700);
    assert_eq!(s.ledger.balance_of(PROPERTY, &s.bob), 300);
    // Transfers move shares between holders; they never create or destroy any.
    assert_eq!(s.ledger.total_issued(PROPERTY), 1_000);

    // Cannot send shares nobody holds.
    assert_eq!(s.transfer(PROPERTY, s.alice, s.bob, 701), Err(Error::InsufficientShares));
    assert_eq!(s.transfer(PROPERTY, s.alice, s.bob, 0), Err(Error::InvalidAmount));
    // A self-transfer would settle the same position twice.
    assert_eq!(s.transfer(PROPERTY, s.alice, s.alice, 1), Err(Error::SelfTransfer));
}

#[test]
fn test_income_is_split_in_proportion_to_holdings() {
    let mut s = setup();
    s.issue(s.offering, PROPERTY, s.alice, 750).unwrap();
    s.issue(s.offering, PROPERTY, s.bob, 250).unwrap();

    s.accrue(s.distributor, PROPERTY, 4_000).unwrap();

    assert_eq!(s.ledger.accrued_of(PROPERTY, &s.alice), 3_000);
    assert_eq!(s.ledger.accrued_of(PROPERTY, &s.bob), 1_000);

    // Claiming pays out once and leaves nothing behind.
    assert_eq!(s.take(s.distributor, PROPERTY, s.alice), Ok(3_000));
    assert_eq!(s.ledger.accrued_of(PROPERTY, &s.alice), 0);
    assert_eq!(s.take(s.distributor, PROPERTY, s.alice), Ok(0));

    // Bob's entitlement is untouched by Alice claiming hers.
    assert_eq!(s.ledger.accrued_of(PROPERTY, &s.bob), 1_000);
}

#[test]
fn test_shares_bought_after_a_deposit_earn_nothing_from_it() {
    let mut s = setup();
    s.issue(s.offering, PROPERTY, s.alice, 1_000).unwrap();
    s.accrue(s.distributor, PROPERTY, 5_000).unwrap();

    // Bob buys in after the rent landed.
    s.transfer(PROPERTY, s.alice, s.bob, 500).unwrap();

    // Alice keeps the whole of the first deposit; Bob gets none of it.
    assert_eq!(s.ledger.accrued_of(PROPERTY, &s.alice), 5_000);
    assert_eq!(s.ledger.accrued_of(PROPERTY, &s.bob), 0);

    // The next month's rent is split by the new cap table.
    s.accrue(s.distributor, PROPERTY, 5_000).unwrap();
    assert_eq!(s.ledger.accrued_of(PROPERTY, &s.alice), 7_500);
    assert_eq!(s.ledger.accrued_of(PROPERTY, &s.bob), 2_500);
}

#[test]
fn test_selling_shares_does_not_forfeit_income_already_earned() {
    let mut s = setup();
    s.issue(s.offering, PROPERTY, s.alice, 1_000).unwrap();
    s.accrue(s.distributor, PROPERTY, 3_000).unwrap();

    // Alice sells out entirely without claiming first.
    s.transfer(PROPERTY, s.alice, s.bob, 1_000).unwrap();
    assert_eq!(s.ledger.balance_of(PROPERTY, &s.alice), 0);
    assert_eq!(s.ledger.accrued_of(PROPERTY, &s.alice), 3_000);

    // Later rent belongs entirely to Bob, but Alice can still collect hers.
    s.accrue(s.distributor, PROPERTY, 1_000).unwrap();
    assert_eq!(s.ledger.accrued_of(PROPERTY, &s.bob), 1_000);
    assert_eq!(s.take(s.distributor, PROPERTY, s.alice), Ok(3_000));
}

#[test]
fn test_income_cannot_be_farmed_by_churning_shares() {
    let mut s = setup();
    s.issue(s.offering, PROPERTY, s.alice, 600).unwrap();
    s.issue(s.offering, PROPERTY, s.bob, 400).unwrap();
    s.accrue(s.distributor, PROPERTY, 10_000).unwrap();

    // Passing the same shares back and forth must not mint entitlement.
    for _ in 0..5 {
        s.transfer(PROPERTY, s.alice, s.bob, 600).unwrap();
        s.transfer(PROPERTY, s.bob, s.alice, 600).unwrap();
    }

    let alice = s.ledger.accrued_of(PROPERTY, &s.alice);
    let bob = s.ledger.accrued_of(PROPERTY, &s.bob);
    assert_eq!(alice, 6_000);
    assert_eq!(bob, 4_000);
    // Nothing was created: the two claims still sum to what was deposited.
    assert_eq!(alice + bob, 10_000);
}

#[test]
fn test_payouts_never_exceed_what_was_deposited() {
    let mut s = setup();
    // 3 holders and 7 units of rent: nothing divides evenly.
    s.issue(s.offering, PROPERTY, s.alice, 1).unwrap();
    s.issue(s.offering, PROPERTY, s.bob, 1).unwrap();
    let carol = account(50);
    s.issue(s.offering, PROPERTY, carol, 1).unwrap();

    let mut deposited = 0i128;
    for _ in 0..12 {
        s.accrue(s.distributor, PROPERTY, 7).unwrap();
        deposited += 7;
    }

    let paid = s.take(s.distributor, PROPERTY, s.alice).unwrap()
        + s.take(s.distributor, PROPERTY, s.bob).unwrap()
        + s.take(s.distributor, PROPERTY, carol).unwrap();

    // The contract may owe slightly less than it holds, never more: it can
    // only pay out money the distributor actually received.
    assert!(paid <= deposited, "paid {paid} exceeds deposited {deposited}");
    // The carry keeps truncation from compounding, so the shortfall stays
    // under one unit per holder rather than growing with each deposit.
    assert!(deposited - paid < 3, "stranded {} units", deposited - paid);
}

#[test]
fn test_the_carry_holds_indivisible_rent_until_it_can_be_paid() {
    let mut s = setup();
    s.issue(s.offering, PROPERTY, s.alice, 3).unwrap();

    // One unit across three shares does not divide; it is kept, not dropped.
    s.accrue(s.distributor, PROPERTY, 1).unwrap();
    assert!(s.ledger.carry_of_property(PROPERTY) > 0);

    // Enough deposits later, the carry has been absorbed and Alice, who holds
    // every share, is owed the entire amount deposited.
    for _ in 0..2 {
        s.accrue(s.distributor, PROPERTY, 1).unwrap();
    }
    assert_eq!(s.ledger.accrued_of(PROPERTY, &s.alice), 3);
    assert_eq!(s.ledger.carry_of_property(PROPERTY), 0);
}

#[test]
fn test_income_is_refused_before_any_shares_exist() {
    let mut s = setup();
    // Rent arriving before an offering settles has nobody to belong to.
    assert_eq!(s.accrue(s.distributor, PROPERTY, 1_000), Err(Error::NothingIssued));

    s.issue(s.offering, PROPERTY, s.alice, 10).unwrap();
    s.accrue(s.distributor, PROPERTY, 1_000).unwrap();
    assert_eq!(s.ledger.accrued_of(PROPERTY, &s.alice), 1_000);
}

#[test]
fn test_only_the_distributor_touches_income() {
    let mut s = setup();
    let stranger = account(99);
    s.issue(s.offering, PROPERTY, s.alice, 100).unwrap();

    assert_eq!(s.accrue(stranger, PROPERTY, 100), Err(Error::NotAuthorized));
    assert_eq!(s.accrue(s.admin, PROPERTY, 100), Err(Error::NotAuthorized));
    assert_eq!(s.accrue(s.offering, PROPERTY, 100), Err(Error::NotAuthorized));
    assert_eq!(s.accrue(s.distributor, PROPERTY, 0), Err(Error::InvalidAmount));

    assert_eq!(s.take(stranger, PROPERTY, s.alice), Err(Error::NotAuthorized));
    assert_eq!(s.take(s.alice, PROPERTY, s.alice), Err(Error::NotAuthorized));
}

#[test]
fn test_ledger_wiring_is_set_once() {
    let mut s = setup();
    let other = contract(98);
    let env = s.env(&s.admin);
    assert_eq!(s.ledger.set_offering(&env, &s.admin, &other), Err(Error::AlreadySet));
    assert_eq!(s.ledger.set_distributor(&env, &s.admin, &other), Err(Error::AlreadySet));
    assert_eq!(s.ledger.get_offering(), Some(s.offering));
    assert_eq!(s.ledger.get_distributor(), Some(s.distributor));
}

#[test]
fn test_positions_are_extended_by_use() {
    let mut s = setup();
    s.issue(s.offering, PROPERTY, s.alice, 100).unwrap();

    let position = s.ledger.position_of_holder(PROPERTY, &s.alice);
    assert_eq!(position.balance, 100);
    assert_eq!(position.credited, 0);
    assert_eq!(position.reward_debt, 0);

    s.accrue(s.distributor, PROPERTY, 500).unwrap();
    s.transfer(PROPERTY, s.alice, s.bob, 50).unwrap();

    let position = s.ledger.position_of_holder(PROPERTY, &s.alice);
    assert_eq!(position.balance, 50);
    assert_eq!(position.credited, 500);
    // Re-anchored against the smaller balance.
    assert_eq!(position.reward_debt, 50 * s.ledger.acc_per_share(PROPERTY) / SCALE);
}

#[test]
fn test_ledger_upgrades_wait_out_the_timelock() {
    let mut s = setup();
    let action = Action::Upgrade(hash(9));

    s.now = 2_000;
    let env = s.env(&s.admin);
    assert!(s.ledger.schedule_in_range(&env, &s.admin));
    s.ledger.schedule_action(&env, &s.admin, action).unwrap();
    assert_eq!(s.ledger.get_scheduled_action().unwrap().eta, 2_000 + TIMELOCK);

    assert_eq!(s.ledger.schedule_action(&env, &s.admin, action), Err(Error::ActionPending));
    s.now = 2_000 + TIMELOCK - 1;
    let env = s.env(&s.admin);
    assert_eq!(s.ledger.execute_action(&env, &s.admin), Err(Error::TimelockNotExpired));

    s.ledger.cancel_action(&env, &s.admin).unwrap();
    assert_eq!(s.ledger.get_scheduled_action(), None);
}

#[test]
fn test_upgrade_and_admin_handover_are_admin_only() {
    let mut s = setup();
    let stranger = account(99);
    let action = Action::Upgrade(hash(1));

    let env = s.env(&stranger);
    assert_eq!(s.ledger.schedule_action(&env, &stranger, action), Err(Error::NotAuthorized));
    assert_eq!(s.ledger.propose_admin(&env, &stranger, &stranger), Err(Error::NotAuthorized));
    assert_eq!(s.ledger.accept_admin(&env, &stranger), Err(Error::NotAuthorized));
}

#[test]
fn test_ledger_admin_handover_is_two_step() {
    let mut s = setup();
    let new_admin = account(60);
    let stranger = account(61);

    let env = s.env(&s.admin);
    s.ledger.propose_admin(&env, &s.admin, &new_admin).unwrap();
    assert_eq!(s.ledger.get_admin(), s.admin);
    let env = s.env(&stranger);
    assert_eq!(s.ledger.accept_admin(&env, &stranger), Err(Error::NotAuthorized));

    let env = s.env(&new_admin);
    s.ledger.accept_admin(&env, &new_admin).unwrap();
    assert_eq!(s.ledger.get_admin(), new_admin);
    let env = s.env(&s.admin);
    assert_eq!(s.ledger.propose_admin(&env, &s.admin, &s.admin), Err(Error::NotAuthorized));
}

// --- further cases ---

#[test]
fn a_sale_between_two_rents_is_shared_as_held() {
    let mut s = setup();
    s.issue(s.offering, PROPERTY, s.alice, 750).unwrap();
    s.issue(s.offering, PROPERTY, s.bob, 250).unwrap();
    s.accrue(s.distributor, PROPERTY, 4_000).unwrap();
    assert_eq!(s.ledger.acc_per_share(PROPERTY), 4 * SCALE);
    s.transfer(PROPERTY, s.alice, s.bob, 750).unwrap();
    assert_eq!(
        s.ledger.position_of_holder(PROPERTY, &s.alice),
        Position { balance: 0, reward_debt: 0, credited: 3_000 }
    );
    assert_eq!(
        s.ledger.position_of_holder(PROPERTY, &s.bob),
        Position { balance: 1_000, reward_debt: 4_000, credited: 1_000 }
    );
    s.accrue(s.distributor, PROPERTY, 4_000).unwrap();
    assert_eq!(s.ledger.acc_per_share(PROPERTY), 8 * SCALE);
    assert_eq!(s.ledger.accrued_of(PROPERTY, &s.alice), 3_000);
    assert_eq!(s.ledger.accrued_of(PROPERTY, &s.bob), 5_000);
}

#[test]
fn trading_between_two_rents_is_owed_no_more_than_was_deposited() {
    let mut s = setup();
    s.issue(s.offering, PROPERTY, s.alice, 2).unwrap();
    s.accrue(s.distributor, PROPERTY, 1).unwrap();
    s.transfer(PROPERTY, s.alice, s.bob, 1).unwrap();
    // Both stakes stand at half a unit that neither can claim.
    assert_eq!(s.ledger.carry_of_property(PROPERTY), -SCALE);
    assert_eq!(s.ledger.accrued_of(PROPERTY, &s.alice), 1);
    assert_eq!(s.ledger.accrued_of(PROPERTY, &s.bob), 0);
    s.accrue(s.distributor, PROPERTY, 1).unwrap();
    assert_eq!(s.ledger.carry_of_property(PROPERTY), 0);
    assert_eq!(s.ledger.accrued_of(PROPERTY, &s.alice), 1);
    assert_eq!(s.ledger.accrued_of(PROPERTY, &s.bob), 0);
    // Selling back returns the half units, and nothing is stranded.
    s.transfer(PROPERTY, s.bob, s.alice, 1).unwrap();
    assert_eq!(s.ledger.carry_of_property(PROPERTY), SCALE);
    s.accrue(s.distributor, PROPERTY, 1).unwrap();
    assert_eq!(s.ledger.accrued_of(PROPERTY, &s.alice), 3);
}

#[test]
fn issuing_between_two_rents_charges_the_carry() {
    let mut s = setup();
    s.issue(s.offering, PROPERTY, s.alice, 2).unwrap();
    s.accrue(s.distributor, PROPERTY, 1).unwrap();
    s.issue(s.offering, PROPERTY, s.bob, 3).unwrap();
    assert_eq!(
        s.ledger.position_of_holder(PROPERTY, &s.bob),
        Position { balance: 3, reward_debt: 1, credited: 0 }
    );
    assert_eq!(s.ledger.carry_of_property(PROPERTY), -SCALE / 2);
    s.accrue(s.distributor, PROPERTY, 3).unwrap();
    assert_eq!(s.ledger.acc_per_share(PROPERTY), SCALE);
    assert_eq!(s.ledger.accrued_of(PROPERTY, &s.alice), 2);
    assert_eq!(s.ledger.accrued_of(PROPERTY, &s.bob), 2);
}

#[test]
fn little_rent_is_stranded() {
    let mut s = setup();
    s.issue(s.offering, PROPERTY, s.alice, 3).unwrap();
    s.accrue(s.distributor, PROPERTY, 1).unwrap();
    // One stake of three shares: all of a unit waits, and no more than that.
    assert_eq!(s.ledger.accrued_of(PROPERTY, &s.alice), 0);
    s.issue(s.offering, PROPERTY, s.bob, 4).unwrap();
    let mut deposited = 1;
    for _ in 0..200 {
        s.accrue(s.distributor, PROPERTY, 5).unwrap();
        deposited += 5;
        let owed = s.ledger.accrued_of(PROPERTY, &s.alice)
            + s.ledger.accrued_of(PROPERTY, &s.bob);
        assert!(owed <= deposited && deposited - owed <= 2);
    }
}

#[test]
fn rent_covers_every_claim_through_any_trading() {
    let mut s = setup();
    let parties = [s.alice, s.bob, account(50)];
    s.issue(s.offering, PROPERTY, s.alice, 2).unwrap();
    let mut seed: u64 = 11;
    let mut deposited = 0;
    let mut paid = 0;
    for _ in 0..2_000 {
        seed = seed.wrapping_mul(6_364_136_223_846_793_005).wrapping_add(1_442_695_040_888_963_407);
        let who = parties[(seed >> 33) as usize % 3];
        let other = parties[((seed >> 33) as usize + 1) % 3];
        let amount = ((seed >> 40) % 3 + 1) as i128;
        match (seed >> 50) % 8 {
            0 => s.issue(s.offering, PROPERTY, who, amount).unwrap(),
            1 => paid += s.take(s.distributor, PROPERTY, who).unwrap(),
            2 | 3 => {
                s.accrue(s.distributor, PROPERTY, amount).unwrap();
                deposited += amount;
            }
            _ => {
                let held = s.ledger.balance_of(PROPERTY, &who);
                if held > 0 {
                    s.transfer(PROPERTY, who, other, amount.min(held)).unwrap();
                }
            }
        }
        let owed: i128 = parties.iter().map(|p| s.ledger.accrued_of(PROPERTY, p)).sum();
        assert!(paid + owed <= deposited);
    }
    assert!(paid > 0);
}

#[test]
fn settling_a_holder_twice_credits_once() {
    let mut position = Position { balance: 7, reward_debt: 2, credited: 1 };
    ShareLedgerContract::settle(&mut position, SCALE);
    assert_eq!(position, Position { balance: 7, reward_debt: 7, credited: 6 });
    ShareLedgerContract::settle(&mut position, SCALE);
    assert_eq!(position, Position { balance: 7, reward_debt: 7, credited: 6 });
    position.balance = 3;
    ShareLedgerContract::reset_debt(&mut position, SCALE / 2);
    assert_eq!(position, Position { balance: 3, reward_debt: 1, credited: 6 });
}

#[test]
fn a_ledger_that_is_not_wired_says_so() {
    let mut s = setup();
    s.ledger.offering = None;
    s.ledger.distributor = None;
    assert_eq!(s.issue(s.offering, PROPERTY, s.alice, 1), Err(Error::OfferingNotSet));
    assert_eq!(s.accrue(s.distributor, PROPERTY, 1), Err(Error::DistributorNotSet));
    assert_eq!(s.take(s.distributor, PROPERTY, s.alice), Err(Error::DistributorNotSet));
    s.ledger.governance.timelock_secs = None;
    let env = s.env(&s.admin);
    assert_eq!(
        s.ledger.schedule_action(&env, &s.admin, Action::Upgrade(hash(1))),
        Err(Error::NotInitialized)
    );
    assert_eq!(s.ledger.cancel_action(&env, &s.admin), Err(Error::NoPendingAction));
    assert_eq!(s.ledger.execute_action(&env, &s.admin), Err(Error::NoPendingAction));
}

#[test]
fn the_ledger_says_what_it_did() {
    let mut s = setup();
    s.issue(s.offering, PROPERTY, s.alice, 10).unwrap();
    s.accrue(s.distributor, PROPERTY, 20).unwrap();
    s.transfer(PROPERTY, s.alice, s.bob, 4).unwrap();
    s.take(s.distributor, PROPERTY, s.alice).unwrap();
    // Nothing was owed, so nothing is said.
    s.take(s.distributor, PROPERTY, s.bob).unwrap();
    assert_eq!(
        s.ledger.outbox,
        vec![
            Effect::Publish(Event::Issue {
                property: PROPERTY,
                to: s.alice,
                shares: 10,
                issued: 10
            }),
            Effect::Publish(Event::Accrue { property: PROPERTY, amount: 20, issued: 10 }),
            Effect::Publish(Event::Transfer {
                property: PROPERTY,
                from: s.alice,
                to: s.bob,
                shares: 4
            }),
            Effect::Publish(Event::Settled { property: PROPERTY, holder: s.alice, owed: 20 }),
        ]
    );
}

#[test]
fn ledger_amounts_out_of_range_are_noticed() {
    let mut s = setup();
    s.issue(s.offering, PROPERTY, s.alice, 10).unwrap();
    assert!(!s.ledger.issue_in_range(&s.offering, PROPERTY, &s.alice, i128::MAX));
    assert!(s.ledger.issue_in_range(&s.alice, PROPERTY, &s.alice, i128::MAX));
    assert!(!s.ledger.accrue_in_range(&s.distributor, PROPERTY, i128::MAX));
    s.ledger.acc.insert(PROPERTY, SCALE / 2);
    s.ledger.carry.insert(PROPERTY, i128::MIN);
    assert!(!s.ledger.issue_in_range(&s.offering, PROPERTY, &s.bob, 1));
    assert!(s.ledger.issue_in_range(&s.offering, PROPERTY, &s.bob, 2));
    assert!(!s.ledger.transfer_in_range(PROPERTY, &s.alice, &s.bob, 1));
    assert!(s.ledger.transfer_in_range(PROPERTY, &s.alice, &s.bob, 2));
    s.ledger.acc.insert(PROPERTY, i128::MAX);
    assert!(!s.ledger.accrued_in_range(PROPERTY, &s.alice));
    assert!(!s.ledger.take_in_range(&s.distributor, PROPERTY, &s.alice));
    assert!(!s.ledger.transfer_in_range(PROPERTY, &s.alice, &s.bob, 1));
    assert!(s.ledger.transfer_in_range(PROPERTY, &s.alice, &s.alice, 1));
}

#[test]
fn ledger_errors_keep_their_numbers() {
    assert_eq!(Error::OfferingNotSet.code(), 10);
    assert_eq!(Error::NothingIssued.code(), 12);
    assert_eq!(Error::SelfTransfer.code(), 13);
}
