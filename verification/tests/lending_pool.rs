use stellar_homes::host::{Address, AddressKind, Digest, Env, Transfer};
use stellar_homes::lending_pool::{
    Action, Effect, Error, Event, LendingPoolContract, PoolState, Position, SCALE,
};

const TIMELOCK: u64 = 172_800;

fn account(n: u128) -> Address {
    Address { kind: AddressKind::Account, id: Digest { high: 0, low: n } }
}

fn contract(n: u128) -> Address {
    Address { kind: AddressKind::Contract, id: Digest { high: 0, low: n } }
}

fn hash(byte: u8) -> Digest {
    let half = u128::from_be_bytes([byte; 16]);
    Digest { high: half, low: half }
}

/// Balances in the settlement asset.
struct Bank {
    balances: Vec<(Address, i128)>,
}

impl Bank {
    fn balance(&self, who: &Address) -> i128 {
        self.balances.iter().find(|(a, _)| a == who).map_or(0, |(_, b)| *b)
    }

    fn add(&mut self, who: &Address, amount: i128) {
        match self.balances.iter_mut().find(|(a, _)| a == who) {
            Some((_, b)) => *b += amount,
            None => self.balances.push((*who, amount)),
        }
    }

    fn carry_out(&mut self, t: &Transfer) {
        assert!(self.balance(&t.from) >= t.amount);
        self.add(&t.from, -t.amount);
        self.add(&t.to, t.amount);
    }
}

struct Setup {
    now: u64,
    address: Address,
    pool: LendingPoolContract,
    usdc: Bank,
    token: Address,
    admin: Address,
    mortgage_pool: Address,
    alice: Address,
    bob: Address,
    builder: Address,
}

impl Setup {
    fn env(&self, who: &Address) -> Env {
        Env { timestamp: self.now, contract: self.address, authorizations: vec![*who] }
    }

    /// Make the payments the pool has asked for.
    fn pay(&mut self) {
        for effect in std::mem::take(&mut self.pool.outbox) {
            if let Effect::Transfer(t) = effect {
                assert_eq!(t.token, self.token);
                self.usdc.carry_out(&t);
            }
        }
    }

    fn deposit(&mut self, who: Address, amount: i128) -> Result<(), Error> {
        let env = self.env(&who);
        assert!(self.pool.deposit_in_range(&who, amount));
        let r = self.pool.deposit(&env, &who, amount);
        self.pay();
        r
    }

    fn withdraw(&mut self, who: Address, amount: i128) -> Result<(), Error> {
        let env = self.env(&who);
        assert!(self.pool.withdraw_in_range(&who, amount));
        let r = self.pool.withdraw(&env, &who, amount);
        self.pay();
        r
    }

    fn claim_interest(&mut self, who: Address) -> Result<i128, Error> {
        let env = self.env(&who);
        assert!(self.pool.claim_in_range(&who));
        let r = self.pool.claim_interest(&env, &who);
        self.pay();
        r
    }

    fn reserve(&mut self, caller: Address, amount: i128) -> Result<(), Error> {
        let env = self.env(&caller);
        assert!(self.pool.reserve_in_range(&caller, amount));
        self.pool.reserve(&env, &caller, amount)
    }

    fn unreserve(&mut self, caller: Address, amount: i128) -> Result<(), Error> {
        let env = self.env(&caller);
        self.pool.unreserve(&env, &caller, amount)
    }

    fn disburse(&mut self, caller: Address, to: Address, amount: i128) -> Result<(), Error> {
        let env = self.env(&caller);
        assert!(self.pool.disburse_in_range(&caller, amount));
        let r = self.pool.disburse(&env, &caller, &to, amount);
        self.pay();
        r
    }

    fn repay(
        &mut self,
        caller: Address,
        from: Address,
        principal: i128,
        interest: i128,
    ) -> Result<(), Error> {
        let env = self.env(&caller);
        assert!(self.pool.repay_in_range(&caller, principal, interest));
        let r = self.pool.repay(&env, &caller, &from, principal, interest);
        self.pay();
        r
    }

    fn write_off(&mut self, caller: Address, principal: i128) -> Result<(), Error> {
        let env = self.env(&caller);
        assert!(self.pool.write_off_in_range(&caller, principal));
        self.pool.write_off(&env, &caller, principal)
    }

    fn held(&self) -> i128 {
        self.usdc.balance(&self.address)
    }
}

fn setup() -> Setup {
    let admin = account(1);
    let mortgage_pool = contract(2);
    let alice = account(3);
    let bob = account(4);
    let builder = account(5);
    let token = contract(6);
    let address = contract(7);

    let mut usdc = Bank { balances: Vec::new() };
    usdc.add(&alice, 1_000_000);
    usdc.add(&bob, 1_000_000);
    // The borrower needs funds to repay with.
    usdc.add(&mortgage_pool, 1_000_000);

    let pool = LendingPoolContract::new(admin, token, TIMELOCK);
    let mut s = Setup {
        now: 0,
        address,
        pool,
        usdc,
        token,
        admin,
        mortgage_pool,
        alice,
        bob,
        builder,
    };
    let env = s.env(&admin);
    s.pool.set_mortgage_pool(&env, &admin, &mortgage_pool).unwrap();
    s
}

#[test]
fn test_test_constructor_sets_configuration_at_deploy() {
    let s = setup();
    assert_eq!(s.pool.get_admin(), s.admin);
    assert_eq!(s.pool.get_timelock_secs(), TIMELOCK);
    assert_eq!(s.pool.get_settlement_token(), s.token);
    assert_eq!(s.pool.get_mortgage_pool(), Some(s.mortgage_pool));
    assert_eq!(s.pool.available(), 0);
}

#[test]
fn test_deposit_and_withdraw() {
    let mut s = setup();

    s.deposit(s.alice, 100_000).unwrap();
    assert_eq!(s.pool.shares_of(&s.alice), 100_000);
    assert_eq!(s.pool.available(), 100_000);
    assert_eq!(s.held(), 100_000);
    assert_eq!(s.usdc.balance(&s.alice), 900_000);

    s.withdraw(s.alice, 40_000).unwrap();
    assert_eq!(s.pool.shares_of(&s.alice), 60_000);
    assert_eq!(s.usdc.balance(&s.alice), 940_000);

    assert_eq!(s.withdraw(s.alice, 60_001), Err(Error::InsufficientShares));
    assert_eq!(s.deposit(s.alice, 0), Err(Error::InvalidAmount));
    assert_eq!(s.deposit(s.alice, -1), Err(Error::InvalidAmount));
}

#[test]
fn test_committed_capital_cannot_be_withdrawn() {
    let mut s = setup();
    s.deposit(s.alice, 100_000).unwrap();

    s.reserve(s.mortgage_pool, 80_000).unwrap();
    assert_eq!(s.pool.available(), 20_000);

    // Alice still holds all her shares, but the committed part is spoken for.
    assert_eq!(s.pool.shares_of(&s.alice), 100_000);
    assert_eq!(s.withdraw(s.alice, 20_001), Err(Error::InsufficientAvailable));
    s.withdraw(s.alice, 20_000).unwrap();

    // The pool still holds the committed money, ready for the next tranche.
    assert_eq!(s.held(), 80_000);
}

#[test]
fn test_a_pool_cannot_commit_what_it_does_not_have() {
    let mut s = setup();
    s.deposit(s.alice, 50_000).unwrap();

    assert_eq!(s.reserve(s.mortgage_pool, 50_001), Err(Error::InsufficientAvailable));
    s.reserve(s.mortgage_pool, 50_000).unwrap();
    assert_eq!(s.reserve(s.mortgage_pool, 1), Err(Error::InsufficientAvailable));

    // Releasing a commitment makes it available again.
    s.unreserve(s.mortgage_pool, 20_000).unwrap();
    assert_eq!(s.pool.available(), 20_000);
    assert_eq!(s.unreserve(s.mortgage_pool, 30_001), Err(Error::InsufficientReserved));
}

#[test]
fn test_tranches_are_paid_from_committed_capital_only() {
    let mut s = setup();
    s.deposit(s.alice, 100_000).unwrap();

    // Nothing committed yet.
    assert_eq!(
        s.disburse(s.mortgage_pool, s.builder, 10_000),
        Err(Error::InsufficientReserved)
    );

    s.reserve(s.mortgage_pool, 50_000).unwrap();
    s.disburse(s.mortgage_pool, s.builder, 20_000).unwrap();

    assert_eq!(s.usdc.balance(&s.builder), 20_000);
    let state = s.pool.pool_state();
    assert_eq!(state.total_capital, 80_000);
    assert_eq!(state.total_reserved, 30_000);
    assert_eq!(state.total_lent, 20_000);
    // Uncommitted capital is untouched by the draw.
    assert_eq!(s.pool.available(), 50_000);

    assert_eq!(
        s.disburse(s.mortgage_pool, s.builder, 30_001),
        Err(Error::InsufficientReserved)
    );
}

#[test]
fn test_only_the_mortgage_pool_moves_capital() {
    let mut s = setup();
    s.deposit(s.alice, 100_000).unwrap();
    let stranger = account(99);

    assert_eq!(s.reserve(stranger, 1_000), Err(Error::NotAuthorized));
    assert_eq!(s.reserve(s.admin, 1_000), Err(Error::NotAuthorized));
    assert_eq!(s.unreserve(stranger, 1_000), Err(Error::NotAuthorized));
    assert_eq!(s.disburse(stranger, stranger, 1_000), Err(Error::NotAuthorized));
    assert_eq!(s.write_off(stranger, 1_000), Err(Error::NotAuthorized));
    assert_eq!(s.repay(stranger, s.mortgage_pool, 100, 10), Err(Error::NotAuthorized));
}

#[test]
fn test_repayment_returns_principal_and_pays_interest_out() {
    let mut s = setup();
    s.deposit(s.alice, 75_000).unwrap();
    s.deposit(s.bob, 25_000).unwrap();

    s.reserve(s.mortgage_pool, 40_000).unwrap();
    s.disburse(s.mortgage_pool, s.builder, 40_000).unwrap();
    assert_eq!(s.pool.pool_state().total_lent, 40_000);

    // The borrower repays 10,000 of principal and 4,000 of interest.
    s.repay(s.mortgage_pool, s.mortgage_pool, 10_000, 4_000).unwrap();

    let state = s.pool.pool_state();
    assert_eq!(state.total_lent, 30_000);
    assert_eq!(state.total_capital, 70_000);
    assert_eq!(state.total_interest, 4_000);

    // Interest splits by shareholding, three quarters to one quarter.
    assert_eq!(s.pool.claimable_interest(&s.alice), 3_000);
    assert_eq!(s.pool.claimable_interest(&s.bob), 1_000);

    assert_eq!(s.claim_interest(s.alice), Ok(3_000));
    assert_eq!(s.usdc.balance(&s.alice), 925_000 + 3_000);
    // Claimed once.
    assert_eq!(s.pool.claimable_interest(&s.alice), 0);
    assert_eq!(s.claim_interest(s.alice), Err(Error::NothingToClaim));
}

#[test]
fn test_interest_earned_before_a_deposit_is_not_shared_with_it() {
    let mut s = setup();
    s.deposit(s.alice, 100_000).unwrap();
    s.reserve(s.mortgage_pool, 50_000).unwrap();
    s.disburse(s.mortgage_pool, s.builder, 50_000).unwrap();

    s.repay(s.mortgage_pool, s.mortgage_pool, 0, 1_000).unwrap();
    assert_eq!(s.pool.claimable_interest(&s.alice), 1_000);

    // Bob arrives after that interest was earned.
    s.deposit(s.bob, 100_000).unwrap();
    assert_eq!(s.pool.claimable_interest(&s.bob), 0);
    assert_eq!(s.pool.claimable_interest(&s.alice), 1_000);

    // The next payment splits evenly between them.
    s.repay(s.mortgage_pool, s.mortgage_pool, 0, 2_000).unwrap();
    assert_eq!(s.pool.claimable_interest(&s.alice), 2_000);
    assert_eq!(s.pool.claimable_interest(&s.bob), 1_000);
}

#[test]
fn test_withdrawing_does_not_forfeit_interest_already_earned() {
    let mut s = setup();
    s.deposit(s.alice, 100_000).unwrap();
    s.repay(s.mortgage_pool, s.mortgage_pool, 0, 5_000).unwrap();

    // Alice pulls all her capital out without claiming first.
    s.withdraw(s.alice, 100_000).unwrap();
    assert_eq!(s.pool.shares_of(&s.alice), 0);
    assert_eq!(s.pool.claimable_interest(&s.alice), 5_000);
    assert_eq!(s.claim_interest(s.alice), Ok(5_000));
}

#[test]
fn test_interest_cannot_be_farmed_by_churning_deposits() {
    let mut s = setup();
    s.deposit(s.alice, 60_000).unwrap();
    s.deposit(s.bob, 40_000).unwrap();
    s.repay(s.mortgage_pool, s.mortgage_pool, 0, 10_000).unwrap();

    // Moving the same capital in and out must not mint entitlement.
    for _ in 0..5 {
        s.withdraw(s.alice, 60_000).unwrap();
        s.deposit(s.alice, 60_000).unwrap();
    }

    let alice = s.pool.claimable_interest(&s.alice);
    let bob = s.pool.claimable_interest(&s.bob);
    assert_eq!(alice, 6_000);
    assert_eq!(bob, 4_000);
    assert_eq!(alice + bob, 10_000);
}

#[test]
fn test_the_pool_always_holds_enough_to_cover_what_it_owes() {
    let mut s = setup();
    // Three equal investors and interest that never divides by three.
    let carol = account(50);
    s.usdc.add(&carol, 1_000);
    s.deposit(s.alice, 1).unwrap();
    s.deposit(s.bob, 1).unwrap();
    s.deposit(carol, 1).unwrap();

    for _ in 0..10 {
        s.repay(s.mortgage_pool, s.mortgage_pool, 0, 7).unwrap();
    }
    let held = s.held();

    let paid = s.claim_interest(s.alice).unwrap()
        + s.claim_interest(s.bob).unwrap()
        + s.claim_interest(carol).unwrap();

    // It can never pay out more than it holds; what does not divide is carried
    // into the next payment rather than going missing.
    assert!(paid <= 70, "paid {paid} exceeds the 70 received");
    assert_eq!(s.held(), held - paid);
}

#[test]
fn test_a_default_falls_on_capital_not_on_interest_already_earned() {
    let mut s = setup();
    s.deposit(s.alice, 100_000).unwrap();
    s.reserve(s.mortgage_pool, 60_000).unwrap();
    s.disburse(s.mortgage_pool, s.builder, 30_000).unwrap();
    s.repay(s.mortgage_pool, s.mortgage_pool, 0, 2_000).unwrap();

    // The borrower walks away with 30,000 drawn; the undrawn half is released.
    s.unreserve(s.mortgage_pool, 30_000).unwrap();
    s.write_off(s.mortgage_pool, 30_000).unwrap();

    let state = s.pool.pool_state();
    assert_eq!(state.total_lent, 0);
    assert_eq!(state.total_written_off, 30_000);
    assert_eq!(state.total_reserved, 0);

    // Interest already earned is still Alice's.
    assert_eq!(s.pool.claimable_interest(&s.alice), 2_000);
    assert_eq!(s.claim_interest(s.alice), Ok(2_000));
}

#[test]
fn test_interest_with_no_investors_stays_in_the_pool() {
    let mut s = setup();
    // Nobody has deposited, so there is nobody to credit.
    s.repay(s.mortgage_pool, s.mortgage_pool, 0, 500).unwrap();
    assert_eq!(s.pool.pool_state().total_capital, 500);
    assert_eq!(s.held(), 500);
}

#[test]
fn test_repayments_must_carry_something() {
    let mut s = setup();
    assert_eq!(s.repay(s.mortgage_pool, s.mortgage_pool, 0, 0), Err(Error::InvalidAmount));
    assert_eq!(s.repay(s.mortgage_pool, s.mortgage_pool, -1, 5), Err(Error::InvalidAmount));
}

#[test]
fn test_test_wiring_is_set_once() {
    let mut s = setup();
    let other = contract(98);
    let env = s.env(&s.admin);
    assert_eq!(s.pool.set_mortgage_pool(&env, &s.admin, &other), Err(Error::AlreadySet));
    assert_eq!(s.pool.get_mortgage_pool(), Some(s.mortgage_pool));
}

#[test]
fn test_there_is_no_admin_route_to_the_capital() {
    let mut s = setup();
    s.deposit(s.alice, 100_000).unwrap();

    // The admin holds no shares, so there is nothing to claim or withdraw.
    assert_eq!(s.pool.shares_of(&s.admin), 0);
    assert_eq!(s.withdraw(s.admin, 1), Err(Error::InsufficientShares));
    assert_eq!(s.claim_interest(s.admin), Err(Error::NothingToClaim));
    assert_eq!(s.held(), 100_000);
}

#[test]
fn test_test_upgrades_wait_out_the_timelock() {
    let mut s = setup();
    let action = Action::Upgrade(hash(6));

    s.now = 900;
    let env = s.env(&s.admin);
    assert!(s.pool.schedule_in_range(&env, &s.admin));
    s.pool.schedule_action(&env, &s.admin, action).unwrap();
    assert_eq!(s.pool.get_scheduled_action().unwrap().eta, 900 + TIMELOCK);
    assert_eq!(s.pool.schedule_action(&env, &s.admin, action), Err(Error::ActionPending));

    s.now = 900 + TIMELOCK - 1;
    let env = s.env(&s.admin);
    assert_eq!(s.pool.execute_action(&env, &s.admin), Err(Error::TimelockNotExpired));

    s.pool.cancel_action(&env, &s.admin).unwrap();
    assert_eq!(s.pool.get_scheduled_action(), None);
}

#[test]
fn test_test_admin_handover_is_two_step() {
    let mut s = setup();
    let new_admin = account(60);
    let stranger = account(61);

    let env = s.env(&s.admin);
    s.pool.propose_admin(&env, &s.admin, &new_admin).unwrap();
    assert_eq!(s.pool.get_admin(), s.admin);
    let env = s.env(&stranger);
    assert_eq!(s.pool.accept_admin(&env, &stranger), Err(Error::NotAuthorized));

    let env = s.env(&new_admin);
    s.pool.accept_admin(&env, &new_admin).unwrap();
    assert_eq!(s.pool.get_admin(), new_admin);
    let env = s.env(&s.admin);
    assert_eq!(s.pool.propose_admin(&env, &s.admin, &s.admin), Err(Error::NotAuthorized));
}

// --- further cases ---

#[test]
fn an_upgrade_that_waited_is_asked_for_once() {
    let mut s = setup();
    let env = s.env(&s.admin);
    s.pool.outbox.clear();
    s.pool.schedule_action(&env, &s.admin, Action::Upgrade(hash(6))).unwrap();
    s.now = TIMELOCK;
    let env = s.env(&s.admin);
    s.pool.execute_action(&env, &s.admin).unwrap();
    assert_eq!(s.pool.outbox, vec![Effect::Upgrade(hash(6))]);
    assert_eq!(s.pool.execute_action(&env, &s.admin), Err(Error::NoPendingAction));
    assert_eq!(s.pool.cancel_action(&env, &s.admin), Err(Error::NoPendingAction));
}

#[test]
fn each_operation_says_what_it_did() {
    let mut s = setup();
    let env = s.env(&s.alice);
    s.pool.deposit(&env, &s.alice, 1_000).unwrap();
    assert_eq!(
        s.pool.outbox,
        vec![
            Effect::Transfer(Transfer {
                token: s.token,
                from: s.alice,
                to: s.address,
                amount: 1_000
            }),
            Effect::Publish(Event::Deposit {
                investor: s.alice,
                amount: 1_000,
                total_capital: 1_000
            }),
        ]
    );
    s.pool.outbox.clear();
    let env = s.env(&s.mortgage_pool);
    s.pool.reserve(&env, &s.mortgage_pool, 600).unwrap();
    s.pool.unreserve(&env, &s.mortgage_pool, 100).unwrap();
    s.pool.disburse(&env, &s.mortgage_pool, &s.builder, 200).unwrap();
    s.pool.write_off(&env, &s.mortgage_pool, 50).unwrap();
    assert_eq!(
        s.pool.outbox,
        vec![
            Effect::Publish(Event::Reserve { amount: 600, total_reserved: 600 }),
            Effect::Publish(Event::Unreserve { amount: 100, total_reserved: 500 }),
            Effect::Transfer(Transfer {
                token: s.token,
                from: s.address,
                to: s.builder,
                amount: 200
            }),
            Effect::Publish(Event::Disburse { to: s.builder, amount: 200, total_lent: 200 }),
            Effect::Publish(Event::WriteOff { principal: 50, total_written_off: 50 }),
        ]
    );
}

#[test]
fn a_pool_that_is_not_configured_says_so() {
    let mut s = setup();
    s.deposit(s.alice, 100).unwrap();
    s.repay(s.mortgage_pool, s.mortgage_pool, 0, 10).unwrap();
    s.reserve(s.mortgage_pool, 10).unwrap();
    s.pool.settlement_token = None;
    assert_eq!(s.deposit(s.alice, 1), Err(Error::NotInitialized));
    assert_eq!(s.withdraw(s.alice, 1), Err(Error::NotInitialized));
    assert_eq!(s.claim_interest(s.alice), Err(Error::NotInitialized));
    assert_eq!(s.disburse(s.mortgage_pool, s.builder, 1), Err(Error::NotInitialized));
    assert_eq!(s.repay(s.mortgage_pool, s.mortgage_pool, 1, 0), Err(Error::NotInitialized));

    s.pool.mortgage_pool = None;
    assert_eq!(s.reserve(s.mortgage_pool, 1), Err(Error::MortgagePoolNotSet));
    assert_eq!(s.write_off(s.mortgage_pool, 1), Err(Error::MortgagePoolNotSet));

    s.pool.governance.timelock_secs = None;
    let env = s.env(&s.admin);
    assert_eq!(
        s.pool.schedule_action(&env, &s.admin, Action::Upgrade(hash(1))),
        Err(Error::NotInitialized)
    );
    assert_eq!(s.pool.get_timelock_secs(), 0);
    s.pool.governance.admin = None;
    assert_eq!(s.pool.cancel_action(&env, &s.admin), Err(Error::NotInitialized));
}

#[test]
fn errors_keep_their_numbers() {
    assert_eq!(Error::NotInitialized.code(), 2);
    assert_eq!(Error::InvalidAmount.code(), 8);
    assert_eq!(Error::NothingDeposited.code(), 13);
    assert_eq!(Error::NothingToClaim.code(), 14);
    assert!(Error::NotInitialized < Error::NothingToClaim);
}

#[test]
fn what_does_not_divide_is_carried() {
    let mut s = setup();
    s.deposit(s.alice, 3).unwrap();
    s.repay(s.mortgage_pool, s.mortgage_pool, 0, 1).unwrap();
    assert_eq!(s.pool.acc, SCALE / 3);
    assert_eq!(s.pool.carry, 1);
    assert_eq!(s.pool.claimable_interest(&s.alice), 0);
    s.repay(s.mortgage_pool, s.mortgage_pool, 0, 2).unwrap();
    assert_eq!(s.pool.acc, SCALE);
    assert_eq!(s.pool.carry, 0);
    assert_eq!(s.pool.claimable_interest(&s.alice), 3);
}

#[test]
fn changing_hands_between_payments_is_owed_no_more_than_was_received() {
    let mut s = setup();
    s.deposit(s.alice, 2).unwrap();
    s.repay(s.mortgage_pool, s.mortgage_pool, 0, 1).unwrap();
    s.withdraw(s.alice, 1).unwrap();
    // Half a unit per share: a stake of one is anchored at nothing.
    assert_eq!(s.pool.carry, -SCALE / 2);
    s.deposit(s.bob, 1).unwrap();
    assert_eq!(s.pool.carry, -SCALE);
    assert_eq!(s.pool.claimable_interest(&s.alice), 1);
    assert_eq!(s.pool.claimable_interest(&s.bob), 0);
    s.repay(s.mortgage_pool, s.mortgage_pool, 0, 1).unwrap();
    assert_eq!(s.pool.carry, 0);
    assert_eq!(s.pool.claimable_interest(&s.alice), 1);
    assert_eq!(s.pool.claimable_interest(&s.bob), 0);
    s.repay(s.mortgage_pool, s.mortgage_pool, 0, 1).unwrap();
    assert_eq!(s.claim_interest(s.alice), Ok(2));
    assert_eq!(s.claim_interest(s.bob), Ok(1));
}

#[test]
fn interest_makes_the_carry_good_before_it_is_shared_out() {
    let mut s = setup();
    let carol = account(50);
    s.usdc.add(&carol, 10);
    let owed = |s: &Setup| {
        s.pool.claimable_interest(&s.alice)
            + s.pool.claimable_interest(&s.bob)
            + s.pool.claimable_interest(&carol)
    };
    for who in [s.alice, s.bob, carol] {
        s.deposit(who, 2).unwrap();
    }
    s.repay(s.mortgage_pool, s.mortgage_pool, 0, 3).unwrap();
    for who in [s.alice, s.bob, carol] {
        s.withdraw(who, 1).unwrap();
    }
    assert_eq!(s.pool.carry, -3 * SCALE / 2);
    assert_eq!(owed(&s), 3);

    s.repay(s.mortgage_pool, s.mortgage_pool, 0, 1).unwrap();
    assert_eq!(s.pool.acc, SCALE / 2);
    assert_eq!(s.pool.carry, -SCALE / 2);
    assert_eq!(owed(&s), 3);

    // Six have arrived in all, and all six can be claimed.
    s.repay(s.mortgage_pool, s.mortgage_pool, 0, 2).unwrap();
    assert_eq!(s.pool.acc, SCALE);
    assert_eq!(s.pool.carry, 0);
    assert_eq!(owed(&s), 6);
}

#[test]
fn little_interest_is_stranded() {
    let mut s = setup();
    s.deposit(s.alice, 3).unwrap();
    s.deposit(s.bob, 4).unwrap();
    let mut received = 0;
    for _ in 0..200 {
        s.repay(s.mortgage_pool, s.mortgage_pool, 0, 5).unwrap();
        received += 5;
        let owed = s.pool.claimable_interest(&s.alice) + s.pool.claimable_interest(&s.bob);
        assert!(owed <= received && received - owed <= 2);
    }
    // Taking capital out changes neither what is owed nor what waits.
    let before = s.pool.claimable_interest(&s.alice);
    s.withdraw(s.alice, 2).unwrap();
    assert_eq!(s.pool.claimable_interest(&s.alice), before);
}

#[test]
fn claims_are_covered_through_any_churning() {
    let mut s = setup();
    let carol = account(50);
    s.usdc.add(&carol, 1_000);
    let parties = [s.alice, s.bob, carol];
    let mut seed: u64 = 7;
    let mut received = 0;
    let mut paid = 0;
    for _ in 0..2_000 {
        seed = seed.wrapping_mul(6_364_136_223_846_793_005).wrapping_add(1_442_695_040_888_963_407);
        let who = parties[(seed >> 33) as usize % 3];
        let amount = ((seed >> 40) % 5 + 1) as i128;
        match (seed >> 50) % 4 {
            0 => s.deposit(who, amount).unwrap(),
            1 => {
                let held = s.pool.shares_of(&who);
                if held > 0 {
                    s.withdraw(who, amount.min(held)).unwrap();
                }
            }
            2 => {
                if s.pool.pool_state().total_shares > 0 {
                    s.repay(s.mortgage_pool, s.mortgage_pool, 0, amount).unwrap();
                    received += amount;
                }
            }
            _ => {
                if let Ok(taken) = s.claim_interest(who) {
                    paid += taken;
                }
            }
        }
        let owed: i128 = parties.iter().map(|p| s.pool.claimable_interest(p)).sum();
        assert!(paid + owed <= received);
    }
    assert!(paid > 0);
}

#[test]
fn settling_twice_credits_once() {
    let mut position = Position { shares: 10, reward_debt: 0, credited: 5 };
    LendingPoolContract::settle(&mut position, 3 * SCALE);
    assert_eq!(position, Position { shares: 10, reward_debt: 30, credited: 35 });
    LendingPoolContract::settle(&mut position, 3 * SCALE);
    assert_eq!(position, Position { shares: 10, reward_debt: 30, credited: 35 });
    position.shares = 4;
    LendingPoolContract::reset_debt(&mut position, 3 * SCALE);
    assert_eq!(position, Position { shares: 4, reward_debt: 12, credited: 35 });
    // Towards zero, below it as above.
    let mut short = Position { shares: -1, reward_debt: 0, credited: 0 };
    LendingPoolContract::settle(&mut short, SCALE + SCALE / 2);
    assert_eq!(short, Position { shares: -1, reward_debt: -1, credited: -1 });
}

#[test]
fn capital_is_conserved_through_a_loan() {
    let mut s = setup();
    let balance = |t: PoolState| {
        t.total_capital + t.total_lent + t.total_written_off - t.total_shares
    };
    s.deposit(s.alice, 1_000).unwrap();
    assert_eq!(balance(s.pool.pool_state()), 0);
    s.reserve(s.mortgage_pool, 700).unwrap();
    s.disburse(s.mortgage_pool, s.builder, 500).unwrap();
    assert_eq!(balance(s.pool.pool_state()), 0);
    s.repay(s.mortgage_pool, s.mortgage_pool, 100, 9).unwrap();
    s.write_off(s.mortgage_pool, 400).unwrap();
    assert_eq!(balance(s.pool.pool_state()), 0);
    assert_eq!(s.pool.position_of_investor(&s.alice).shares, 1_000);
}

#[test]
fn amounts_out_of_range_are_noticed_before_they_are_used() {
    let mut s = setup();
    s.deposit(s.alice, 10).unwrap();
    assert!(!s.pool.deposit_in_range(&s.alice, i128::MAX));
    assert!(s.pool.deposit_in_range(&s.alice, -1));
    assert!(!s.pool.repay_in_range(&s.mortgage_pool, i128::MAX, 1));
    assert!(!s.pool.repay_in_range(&s.mortgage_pool, 0, i128::MAX / SCALE + 1));
    assert!(s.pool.repay_in_range(&s.mortgage_pool, -1, i128::MIN));
    assert!(s.pool.write_off_in_range(&s.mortgage_pool, i128::MAX));
    s.pool.totals.total_written_off = 1;
    assert!(!s.pool.write_off_in_range(&s.mortgage_pool, i128::MAX));
    s.pool.acc = SCALE / 2;
    s.pool.carry = i128::MIN;
    assert!(!s.pool.deposit_in_range(&s.bob, 1));
    assert!(s.pool.deposit_in_range(&s.bob, 2));
    assert!(!s.pool.withdraw_in_range(&s.alice, 1));
    assert!(s.pool.withdraw_in_range(&s.alice, 2));
    s.pool.acc = i128::MAX;
    assert!(!s.pool.claim_in_range(&s.alice));
    assert!(!s.pool.withdraw_in_range(&s.alice, 1));
    s.pool.totals.total_capital = i128::MIN;
    s.pool.totals.total_reserved = 1;
    assert!(!s.pool.available_in_range());
    assert!(!s.pool.reserve_in_range(&s.mortgage_pool, 1));
    assert!(s.pool.disburse_in_range(&s.mortgage_pool, 2));
    assert!(!s.pool.disburse_in_range(&s.mortgage_pool, 1));
    s.now = u64::MAX;
    let env = s.env(&s.admin);
    assert!(!s.pool.schedule_in_range(&env, &s.admin));
    let env = s.env(&s.alice);
    assert!(s.pool.schedule_in_range(&env, &s.alice));
}
