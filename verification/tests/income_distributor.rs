use stellar_homes::host::{Address, AddressKind, Digest, Env, Transfer};
use stellar_homes::income_distributor::{
    Action, Effect, Error, IncomeDistributorContract, LedgerCall, LedgerQuery,
};
use stellar_homes::share_ledger::ShareLedgerContract;

const TIMELOCK: u64 = 172_800;
const PROPERTY: u64 = 1;

fn account(n: u128) -> Address {
    Address { kind: AddressKind::Account, id: Digest { high: 0, low: n } }
}

fn contract(n: u128) -> Address {
    Address { kind: AddressKind::Contract, id: Digest { high: 0, low: n } }
}

fn hash(byte: u8) -> Digest {
    let half = u128::from_be_bytes([byte; 16]);
    Digest { high: half, low: half }
}

/// Balances in the settlement asset.
struct Bank {
    balances: Vec<(Address, i128)>,
}

impl Bank {
    fn balance(&self, who: &Address) -> i128 {
        self.balances.iter().find(|(a, _)| a == who).map_or(0, |(_, b)| *b)
    }

    fn add(&mut self, who: &Address, amount: i128) {
        match self.balances.iter_mut().find(|(a, _)| a == who) {
            Some((_, b)) => *b += amount,
            None => self.balances.push((*who, amount)),
        }
    }

    fn carry_out(&mut self, t: &Transfer) {
        assert!(self.balance(&t.from) >= t.amount);
        self.add(&t.from, -t.amount);
        self.add(&t.to, t.amount);
    }
}

struct Setup {
    now: u64,
    address: Address,
    ledger_address: Address,
    income: IncomeDistributorContract,
    shares: ShareLedgerContract,
    usdc: Bank,
    token: Address,
    admin: Address,
    offering: Address,
    sponsor: Address,
    alice: Address,
    bob: Address,
}

impl Setup {
    fn env(&self, who: &Address) -> Env {
        Env { timestamp: self.now, contract: self.address, authorizations: vec![*who] }
    }

    fn ledger_env(&self, who: &Address) -> Env {
        Env { timestamp: self.now, contract: self.ledger_address, authorizations: vec![*who] }
    }

    /// Carry out what the distributor has asked for, or undo the deposit where the
    /// ledger refuses it.
    fn deposit_income(&mut self, property: u64, from: Address, amount: i128) -> Result<(), ()> {
        let env = self.env(&from);
        let before = self.income.total_deposited(property);
        assert!(self.income.deposit_in_range(property, amount));
        self.income.deposit_income(&env, property, &from, amount).map_err(|_| ())?;
        for effect in std::mem::take(&mut self.income.outbox) {
            match effect {
                Effect::CallLedger { ledger, call: LedgerCall::Accrue { property, amount } } => {
                    assert_eq!(ledger, self.ledger_address);
                    let env = self.ledger_env(&self.address);
                    if self.shares.accrue(&env, &self.address, property, amount).is_err() {
                        self.income.deposited.insert(property, before);
                        return Err(());
                    }
                }
                Effect::Transfer(t) => {
                    assert_eq!(t.token, self.token);
                    self.usdc.carry_out(&t);
                }
                _ => {}
            }
        }
        Ok(())
    }

    fn claim(&mut self, property: u64, holder: Address) -> Result<i128, Error> {
        let query = self.income.before_claim(property, &holder)?;
        assert_eq!(query.ledger, self.ledger_address);
        let env = self.ledger_env(&self.address);
        let owed = self
            .shares
            .take_accrued(&env, &self.address, query.property, &query.holder)
            .unwrap();
        let env = self.env(&holder);
        assert!(self.income.claim_in_range(property, owed));
        let paid = self.income.claim(&env, property, &holder, owed)?;
        for effect in std::mem::take(&mut self.income.outbox) {
            if let Effect::Transfer(t) = effect {
                self.usdc.carry_out(&t);
            }
        }
        Ok(paid)
    }

    fn claimable(&self, property: u64, holder: Address) -> i128 {
        let query = self.income.claimable(property, &holder).unwrap();
        assert_eq!(query.ledger, self.ledger_address);
        self.shares.accrued_of(query.property, &query.holder)
    }

    fn issue(&mut self, to: Address, shares: i128) {
        let env = self.ledger_env(&self.offering);
        self.shares.issue(&env, &self.offering, PROPERTY, &to, shares).unwrap();
    }

    fn held(&self) -> i128 {
        self.usdc.balance(&self.address)
    }
}

fn setup() -> Setup {
    let admin = account(1);
    let offering = contract(2);
    let sponsor = account(3);
    let alice = account(4);
    let bob = account(5);
    let token = contract(6);
    let ledger_address = contract(7);
    let address = contract(8);

    let mut usdc = Bank { balances: Vec::new() };
    usdc.add(&sponsor, 1_000_000);

    let shares = ShareLedgerContract::new(admin, TIMELOCK);
    let income = IncomeDistributorContract::new(admin, ledger_address, token, TIMELOCK);
    let mut s = Setup {
        now: 0,
        address,
        ledger_address,
        income,
        shares,
        usdc,
        token,
        admin,
        offering,
        sponsor,
        alice,
        bob,
    };
    let env = s.ledger_env(&admin);
    s.shares.set_offering(&env, &admin, &offering).unwrap();
    s.shares.set_distributor(&env, &admin, &address).unwrap();
    s
}

/// Put a cap table in place: Alice holds 3/4, Bob 1/4.
fn issued(s: &mut Setup) {
    s.issue(s.alice, 750);
    s.issue(s.bob, 250);
}

#[test]
fn test_income_constructor_sets_configuration_at_deploy() {
    let s = setup();
    assert_eq!(s.income.get_admin(), s.admin);
    assert_eq!(s.income.get_timelock_secs(), TIMELOCK);
    assert_eq!(s.income.get_settlement_token(), s.token);
    assert_eq!(s.income.total_deposited(PROPERTY), 0);
    assert_eq!(s.income.get_scheduled_action(), None);
}

#[test]
fn test_rent_is_escrowed_and_claimed_pro_rata() {
    let mut s = setup();
    issued(&mut s);

    s.deposit_income(PROPERTY, s.sponsor, 4_000).unwrap();

    // The money is held here until holders come for it.
    assert_eq!(s.held(), 4_000);
    assert_eq!(s.usdc.balance(&s.sponsor), 996_000);
    assert_eq!(s.income.total_deposited(PROPERTY), 4_000);
    assert_eq!(s.income.unclaimed(PROPERTY), 4_000);

    assert_eq!(s.claimable(PROPERTY, s.alice), 3_000);
    assert_eq!(s.claimable(PROPERTY, s.bob), 1_000);

    assert_eq!(s.claim(PROPERTY, s.alice), Ok(3_000));
    assert_eq!(s.usdc.balance(&s.alice), 3_000);
    assert_eq!(s.held(), 1_000);

    assert_eq!(s.claim(PROPERTY, s.bob), Ok(1_000));
    assert_eq!(s.usdc.balance(&s.bob), 1_000);

    // Everything deposited has now been collected.
    assert_eq!(s.held(), 0);
    assert_eq!(s.income.total_claimed(PROPERTY), 4_000);
    assert_eq!(s.income.unclaimed(PROPERTY), 0);
}

#[test]
fn test_income_cannot_be_claimed_twice() {
    let mut s = setup();
    issued(&mut s);
    s.deposit_income(PROPERTY, s.sponsor, 4_000).unwrap();

    s.claim(PROPERTY, s.alice).unwrap();
    // The ledger zeroed the position, so there is nothing left to take.
    assert_eq!(s.claim(PROPERTY, s.alice), Err(Error::NothingToClaim));
    assert_eq!(s.usdc.balance(&s.alice), 3_000);
}

#[test]
fn test_someone_who_holds_nothing_can_claim_nothing() {
    let mut s = setup();
    issued(&mut s);
    s.deposit_income(PROPERTY, s.sponsor, 4_000).unwrap();

    let stranger = account(99);
    assert_eq!(s.claimable(PROPERTY, stranger), 0);
    assert_eq!(s.claim(PROPERTY, stranger), Err(Error::NothingToClaim));
}

#[test]
fn test_deposits_pile_up_and_are_collected_in_one_go() {
    let mut s = setup();
    issued(&mut s);

    // Twelve months of rent, never collected.
    for _ in 0..12 {
        s.deposit_income(PROPERTY, s.sponsor, 1_000).unwrap();
    }
    assert_eq!(s.income.total_deposited(PROPERTY), 12_000);

    assert_eq!(s.claim(PROPERTY, s.alice), Ok(9_000));
    assert_eq!(s.claim(PROPERTY, s.bob), Ok(3_000));
    assert_eq!(s.held(), 0);
}

#[test]
fn test_a_deposit_with_nobody_to_pay_moves_no_money() {
    let mut s = setup();
    // No shares issued for this property yet.
    assert!(s.deposit_income(PROPERTY, s.sponsor, 1_000).is_err());

    // The sponsor's balance is untouched: the ledger refused before the
    // transfer, so the money never left.
    assert_eq!(s.usdc.balance(&s.sponsor), 1_000_000);
    assert_eq!(s.held(), 0);
    assert_eq!(s.income.total_deposited(PROPERTY), 0);
}

#[test]
fn test_deposits_are_open_to_anyone_but_must_be_positive() {
    let mut s = setup();
    issued(&mut s);

    // A managing agent, not the sponsor, pays the rent in.
    let agent = account(50);
    s.usdc.add(&agent, 5_000);
    s.deposit_income(PROPERTY, agent, 5_000).unwrap();
    assert_eq!(s.claimable(PROPERTY, s.alice), 3_750);

    assert!(s.deposit_income(PROPERTY, agent, 0).is_err());
    assert!(s.deposit_income(PROPERTY, agent, -1).is_err());
    let env = s.env(&agent);
    assert_eq!(
        s.income.deposit_income(&env, PROPERTY, &agent, 0),
        Err(Error::InvalidAmount)
    );
}

#[test]
fn test_income_follows_the_cap_table_through_a_sale() {
    let mut s = setup();
    issued(&mut s);

    s.deposit_income(PROPERTY, s.sponsor, 4_000).unwrap();
    // Alice sells her whole stake to Bob without claiming first.
    let env = s.ledger_env(&s.alice);
    s.shares.transfer(&env, PROPERTY, &s.alice, &s.bob, 750).unwrap();

    s.deposit_income(PROPERTY, s.sponsor, 4_000).unwrap();

    // Alice keeps her share of the first month only; Bob has all of the second
    // plus his quarter of the first.
    assert_eq!(s.claim(PROPERTY, s.alice), Ok(3_000));
    assert_eq!(s.claim(PROPERTY, s.bob), Ok(5_000));
    assert_eq!(s.held(), 0);
}

#[test]
fn test_the_contract_always_holds_enough_to_cover_what_it_owes() {
    let mut s = setup();
    // Three equal holders and rent that never divides by three.
    let carol = account(51);
    s.issue(s.alice, 1);
    s.issue(s.bob, 1);
    s.issue(carol, 1);

    for _ in 0..10 {
        s.deposit_income(PROPERTY, s.sponsor, 7).unwrap();
    }

    let held_before = s.held();
    assert_eq!(held_before, 70);

    let paid = s.claim(PROPERTY, s.alice).unwrap()
        + s.claim(PROPERTY, s.bob).unwrap()
        + s.claim(PROPERTY, carol).unwrap();

    // It can never pay out more than it holds; what it cannot divide stays put
    // for the next deposit rather than going missing.
    assert!(paid <= held_before);
    assert_eq!(s.held(), held_before - paid);
    assert_eq!(s.income.unclaimed(PROPERTY), held_before - paid);
}

#[test]
fn test_there_is_no_admin_route_to_the_money() {
    let mut s = setup();
    issued(&mut s);
    s.deposit_income(PROPERTY, s.sponsor, 4_000).unwrap();

    // The admin holds no shares, so even the admin claims nothing.
    assert_eq!(s.claimable(PROPERTY, s.admin), 0);
    assert_eq!(s.claim(PROPERTY, s.admin), Err(Error::NothingToClaim));
    assert_eq!(s.held(), 4_000);
}

#[test]
fn test_income_upgrades_wait_out_the_timelock() {
    let mut s = setup();
    let action = Action::Upgrade(hash(2));

    s.now = 500;
    let env = s.env(&s.admin);
    assert!(s.income.schedule_in_range(&env, &s.admin));
    s.income.schedule_action(&env, &s.admin, action).unwrap();
    assert_eq!(s.income.get_scheduled_action().unwrap().eta, 500 + TIMELOCK);

    assert_eq!(s.income.schedule_action(&env, &s.admin, action), Err(Error::ActionPending));
    s.now = 500 + TIMELOCK - 1;
    let env = s.env(&s.admin);
    assert_eq!(s.income.execute_action(&env, &s.admin), Err(Error::TimelockNotExpired));

    s.income.cancel_action(&env, &s.admin).unwrap();
    assert_eq!(s.income.get_scheduled_action(), None);
    assert_eq!(s.income.cancel_action(&env, &s.admin), Err(Error::NoPendingAction));
}

#[test]
fn test_income_upgrade_and_admin_handover_are_admin_only() {
    let mut s = setup();
    let stranger = account(99);
    let action = Action::Upgrade(hash(5));

    let env = s.env(&stranger);
    assert_eq!(s.income.schedule_action(&env, &stranger, action), Err(Error::NotAuthorized));
    assert_eq!(s.income.propose_admin(&env, &stranger, &stranger), Err(Error::NotAuthorized));
    assert_eq!(s.income.accept_admin(&env, &stranger), Err(Error::NotAuthorized));
}

#[test]
fn test_income_admin_handover_is_two_step() {
    let mut s = setup();
    let new_admin = account(60);
    let stranger = account(61);

    let env = s.env(&s.admin);
    s.income.propose_admin(&env, &s.admin, &new_admin).unwrap();
    assert_eq!(s.income.get_admin(), s.admin);
    let env = s.env(&stranger);
    assert_eq!(s.income.accept_admin(&env, &stranger), Err(Error::NotAuthorized));

    let env = s.env(&new_admin);
    s.income.accept_admin(&env, &new_admin).unwrap();
    assert_eq!(s.income.get_admin(), new_admin);
    let env = s.env(&s.admin);
    assert_eq!(s.income.propose_admin(&env, &s.admin, &s.admin), Err(Error::NotAuthorized));
}

// --- further cases ---

#[test]
fn a_trade_between_two_rents_leaves_every_claim_covered() {
    let mut s = setup();
    s.issue(s.alice, 2);
    s.deposit_income(PROPERTY, s.sponsor, 1).unwrap();
    let env = s.ledger_env(&s.alice);
    s.shares.transfer(&env, PROPERTY, &s.alice, &s.bob, 1).unwrap();
    s.deposit_income(PROPERTY, s.sponsor, 1).unwrap();
    assert_eq!(s.claimable(PROPERTY, s.alice), 1);
    assert_eq!(s.claimable(PROPERTY, s.bob), 0);
    assert_eq!(s.claim(PROPERTY, s.alice), Ok(1));
    assert_eq!(s.claim(PROPERTY, s.bob), Err(Error::NothingToClaim));
    assert_eq!(s.income.unclaimed(PROPERTY), 1);
    assert_eq!(s.held(), 1);
}

#[test]
fn the_ledger_is_told_before_the_money_moves() {
    let mut s = setup();
    let env = s.env(&s.sponsor);
    s.income.deposit_income(&env, PROPERTY, &s.sponsor, 9).unwrap();
    assert_eq!(s.income.outbox.len(), 3);
    assert_eq!(
        s.income.outbox[0],
        Effect::CallLedger {
            ledger: s.ledger_address,
            call: LedgerCall::Accrue { property: PROPERTY, amount: 9 }
        }
    );
    assert_eq!(
        s.income.outbox[1],
        Effect::Transfer(Transfer {
            token: s.token,
            from: s.sponsor,
            to: s.address,
            amount: 9
        })
    );
}

#[test]
fn a_distributor_that_is_not_configured_says_so() {
    let mut s = setup();
    s.income.settlement_token = None;
    let env = s.env(&s.alice);
    assert_eq!(
        s.income.deposit_income(&env, PROPERTY, &s.alice, 1),
        Err(Error::NotInitialized)
    );
    assert_eq!(s.income.claim(&env, PROPERTY, &s.alice, 1), Err(Error::NotInitialized));
    assert_eq!(s.income.claim(&env, PROPERTY, &s.alice, 0), Err(Error::NothingToClaim));
    assert_eq!(
        s.income.before_claim(PROPERTY, &s.alice),
        Ok(LedgerQuery { ledger: s.ledger_address, property: PROPERTY, holder: s.alice })
    );
    s.income.share_ledger = None;
    assert_eq!(s.income.before_claim(PROPERTY, &s.alice), Err(Error::NotInitialized));
    assert_eq!(s.income.claimable(PROPERTY, &s.alice), Err(Error::NotInitialized));
    assert_eq!(s.income.claim(&env, PROPERTY, &s.alice, 0), Err(Error::NotInitialized));
}

#[test]
fn income_errors_keep_their_numbers() {
    assert_eq!(Error::InvalidAmount.code(), 8);
    assert_eq!(Error::NothingToClaim.code(), 9);
}

#[test]
fn income_amounts_out_of_range_are_noticed() {
    let mut s = setup();
    s.income.deposited.insert(PROPERTY, i128::MAX);
    s.income.claimed.insert(PROPERTY, -1);
    assert!(!s.income.deposit_in_range(PROPERTY, 1));
    assert!(s.income.deposit_in_range(PROPERTY, 0));
    assert!(!s.income.unclaimed_in_range(PROPERTY));
    s.income.claimed.insert(PROPERTY, i128::MAX);
    assert!(!s.income.claim_in_range(PROPERTY, 1));
    assert!(s.income.claim_in_range(PROPERTY, 0));
    assert!(s.income.unclaimed_in_range(PROPERTY));
}
