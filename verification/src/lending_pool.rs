//! LendingPool: the investors' capital, and the yield the mortgages pay it.
//!
//! Investors deposit the settlement asset and receive a claim on the pool
//! proportional to what they put in. The mortgage pool commits that capital to
//! approved mortgages, has it paid out a tranche at a time, and pays interest
//! back as borrowers repay. This contract is the treasury. It does not know
//! what a mortgage is.
//!
//! Committed capital cannot be withdrawn: an approved mortgage reserves its
//! whole principal, though it is paid out over months of building.
//!
//! Every share change settles first and re-anchors after, so it leaves what every
//! investor could claim as it was: a deposit lays no claim to interest earned before
//! it, and a withdrawal forfeits none earned already. The fraction of a unit that
//! anchoring rounds away is charged to the carry, so all claims together are never
//! more than the interest received and not yet paid out.

use crate::accrual::{
    carried, entitled, entitlement, entitlement_in_range, grown, left_over, owed, recarry,
    recarry_in_range, settle_fits, settle_in_range, spread, spread_fits, spread_in_range,
};
use crate::arith::fits;
use crate::governance::{outcome, Governance, GovernanceError};
use crate::host::{Address, Digest, Env, Transfer};
use crate::table::Table;
use vstd::prelude::*;

pub use crate::accrual::SCALE;

verus! {

/// Why the pool refuses a call.
#[derive(Copy, Clone, Debug, PartialEq, Eq, PartialOrd, Ord, Structural)]
pub enum Error {
    NotInitialized,
    NotAuthorized,
    AlreadySet,
    NoPendingAction,
    ActionPending,
    TimelockNotExpired,
    InvalidAmount,
    InsufficientShares,
    InsufficientAvailable,
    InsufficientReserved,
    MortgagePoolNotSet,
    NothingDeposited,
    NothingToClaim,
}

impl Error {
    /// The number the error is reported under.
    pub open spec fn number(self) -> u32 {
        match self {
            Error::NotInitialized => 2,
            Error::NotAuthorized => 3,
            Error::AlreadySet => 4,
            Error::NoPendingAction => 5,
            Error::ActionPending => 6,
            Error::TimelockNotExpired => 7,
            Error::InvalidAmount => 8,
            Error::InsufficientShares => 9,
            Error::InsufficientAvailable => 10,
            Error::InsufficientReserved => 11,
            Error::MortgagePoolNotSet => 12,
            Error::NothingDeposited => 13,
            Error::NothingToClaim => 14,
        }
    }

    /// The pool's name for an administrative refusal.
    pub open spec fn of(refusal: GovernanceError) -> Error {
        match refusal {
            GovernanceError::NotInitialized => Error::NotInitialized,
            GovernanceError::NotAuthorized => Error::NotAuthorized,
            GovernanceError::NoPendingAction => Error::NoPendingAction,
            GovernanceError::ActionPending => Error::ActionPending,
            GovernanceError::TimelockNotExpired => Error::TimelockNotExpired,
        }
    }

    /// The number the error is reported under.
    pub fn code(&self) -> (r: u32)
        ensures
            r == self.number(),
    {
        match *self {
            Error::NotInitialized => 2,
            Error::NotAuthorized => 3,
            Error::AlreadySet => 4,
            Error::NoPendingAction => 5,
            Error::ActionPending => 6,
            Error::TimelockNotExpired => 7,
            Error::InvalidAmount => 8,
            Error::InsufficientShares => 9,
            Error::InsufficientAvailable => 10,
            Error::InsufficientReserved => 11,
            Error::MortgagePoolNotSet => 12,
            Error::NothingDeposited => 13,
            Error::NothingToClaim => 14,
        }
    }

    fn from_governance(refusal: GovernanceError) -> (r: Error)
        ensures
            r == Error::of(refusal),
    {
        match refusal {
            GovernanceError::NotInitialized => Error::NotInitialized,
            GovernanceError::NotAuthorized => Error::NotAuthorized,
            GovernanceError::NoPendingAction => Error::NoPendingAction,
            GovernanceError::ActionPending => Error::ActionPending,
            GovernanceError::TimelockNotExpired => Error::TimelockNotExpired,
        }
    }
}

/// An administrative call's outcome, in the pool's own errors.
pub open spec fn admin_outcome(refusal: Option<GovernanceError>) -> Result<(), Error> {
    match refusal {
        Some(e) => Err(Error::of(e)),
        None => Ok(()),
    }
}

/// One investor's stake in the pool.
///
/// `shares` is their claim on the capital. `reward_debt` is the accumulator's
/// value against these shares at the last settlement. `credited` is interest
/// already earned and set aside, waiting to be claimed.
#[derive(Copy, Clone, Debug, PartialEq, Eq, Structural)]
pub struct Position {
    pub shares: i128,
    pub reward_debt: i128,
    pub credited: i128,
}

impl Position {
    /// The stake of somebody the pool has never seen.
    pub open spec fn none() -> Position {
        Position { shares: 0, reward_debt: 0, credited: 0 }
    }

    /// Interest earned and not yet taken, at accumulator `acc`.
    pub open spec fn claimable(self, acc: i128) -> int {
        owed(self.shares as int, self.reward_debt as int, self.credited as int, acc as int)
    }

    pub open spec fn settle_fits(self, acc: i128) -> bool {
        settle_fits(self.shares as int, self.reward_debt as int, self.credited as int, acc as int)
    }

    /// `post` is this position with everything earned so far banked.
    pub open spec fn settled(self, post: Position, acc: i128) -> bool {
        &&& post.shares == self.shares
        &&& post.reward_debt == entitled(self.shares as int, acc as int)
        &&& post.credited == self.claimable(acc)
    }

    /// `post` is this position settled, with `delta` more shares, and anchored
    /// against the new share count.
    pub open spec fn moved(self, post: Position, acc: i128, delta: int) -> bool {
        &&& post.shares == self.shares + delta
        &&& post.reward_debt == entitled(post.shares as int, acc as int)
        &&& post.credited == self.claimable(acc)
    }

    /// Whether [`Position::moved`] can be computed.
    pub open spec fn move_fits(self, acc: i128, delta: int) -> bool {
        &&& self.settle_fits(acc)
        &&& fits(self.shares + delta)
        &&& fits((self.shares + delta) * acc)
    }

    /// Whether the position can be settled.
    pub fn settle_in_range(&self, acc: i128) -> (r: bool)
        ensures
            r == self.settle_fits(acc),
    {
        settle_in_range(self.shares, self.reward_debt, self.credited, acc)
    }

    /// Whether the position can be settled and take `delta` more shares.
    pub fn move_in_range(&self, acc: i128, delta: i128) -> (r: bool)
        ensures
            r == self.move_fits(acc, delta as int),
    {
        match self.shares.checked_add(delta) {
            None => false,
            Some(shares) => self.settle_in_range(acc) && entitlement_in_range(shares, acc),
        }
    }
}

/// The pool's capital at a glance.
#[derive(Copy, Clone, Debug, PartialEq, Eq, Structural)]
pub struct PoolState {
    /// Principal investors have put in and not withdrawn.
    pub total_capital: i128,
    /// Committed to approved mortgages and not yet disbursed.
    pub total_reserved: i128,
    /// Principal currently out with borrowers.
    pub total_lent: i128,
    /// Interest received over the pool's life.
    pub total_interest: i128,
    /// Principal written off by defaults.
    pub total_written_off: i128,
    pub total_shares: i128,
}

/// A sensitive admin change that must wait out the timelock before it runs.
#[derive(Copy, Clone, Debug, PartialEq, Eq, Structural)]
pub enum Action {
    /// Replace the contract's code, keeping its address and storage.
    Upgrade(Digest),
}

pub type ScheduledAction = crate::governance::ScheduledAction<Action>;

/// What the pool tells the world.
#[derive(Copy, Clone, Debug, PartialEq, Eq, Structural)]
pub enum Event {
    Deposit { investor: Address, amount: i128, total_capital: i128 },
    Withdraw { investor: Address, amount: i128, total_capital: i128 },
    Interest { investor: Address, amount: i128 },
    Reserve { amount: i128, total_reserved: i128 },
    Unreserve { amount: i128, total_reserved: i128 },
    Disburse { to: Address, amount: i128, total_lent: i128 },
    Repay { from: Address, principal: i128, interest: i128 },
    WriteOff { principal: i128, total_written_off: i128 },
}

/// What the pool asks of its host.
#[derive(Copy, Clone, Debug, PartialEq, Eq, Structural)]
pub enum Effect {
    Transfer(Transfer),
    Publish(Event),
    Upgrade(Digest),
}

/// The treasury.
#[derive(Debug)]
pub struct LendingPoolContract {
    pub governance: Governance<Action>,
    pub settlement_token: Option<Address>,
    /// The mortgage pool, the only caller allowed to reserve, lend or settle.
    pub mortgage_pool: Option<Address>,
    pub totals: PoolState,
    /// Scaled interest per share, over the pool's life.
    pub acc: i128,
    /// Interest that is in nobody's stake yet, in scaled units: what the last
    /// division left over, less what share changes have rounded away since. Below
    /// nothing, it is made good by the interest that arrives next.
    pub carry: i128,
    pub positions: Table<Address, Position>,
    pub outbox: Vec<Effect>,
}

/// The treasury as its contracts speak of it.
#[verifier::ext_equal]
pub struct LendingPoolModel {
    pub governance: Governance<Action>,
    pub settlement_token: Option<Address>,
    pub mortgage_pool: Option<Address>,
    pub totals: PoolState,
    pub acc: i128,
    pub carry: i128,
    pub positions: Map<Address, Position>,
    pub outbox: Seq<Effect>,
}

impl View for LendingPoolContract {
    type V = LendingPoolModel;

    open spec fn view(&self) -> LendingPoolModel {
        LendingPoolModel {
            governance: self.governance,
            settlement_token: self.settlement_token,
            mortgage_pool: self.mortgage_pool,
            totals: self.totals,
            acc: self.acc,
            carry: self.carry,
            positions: self.positions@,
            outbox: self.outbox@,
        }
    }
}

impl LendingPoolModel {
    /// The lending pool as it is deployed.
    pub open spec fn deployed(
        admin: Address,
        settlement_token: Address,
        timelock_secs: u64,
    ) -> Self {
        LendingPoolModel {
            governance: Governance {
                admin: Some(admin),
                pending_admin: None,
                timelock_secs: Some(timelock_secs),
                scheduled: None,
            },
            settlement_token: Some(settlement_token),
            mortgage_pool: None,
            totals: PoolState {
                total_capital: 0,
                total_reserved: 0,
                total_lent: 0,
                total_interest: 0,
                total_written_off: 0,
                total_shares: 0,
            },
            acc: 0,
            carry: 0,
            positions: Map::empty(),
            outbox: Seq::empty(),
        }
    }

    /// What `investor` holds.
    pub open spec fn position(self, investor: Address) -> Position {
        if self.positions.contains_key(investor) {
            self.positions[investor]
        } else {
            Position::none()
        }
    }

    /// Capital that is not committed to a mortgage.
    pub open spec fn available(self) -> int {
        self.totals.total_capital - self.totals.total_reserved
    }

    /// Why a call that only the mortgage pool may make is refused `caller`.
    pub open spec fn caller_refusal(self, caller: Address) -> Option<Error> {
        if self.mortgage_pool is None {
            Some(Error::MortgagePoolNotSet)
        } else if self.mortgage_pool != Some(caller) {
            Some(Error::NotAuthorized)
        } else {
            None
        }
    }
    /// The pool with the mortgage pool it answers to.
    pub open spec fn wired_to(self, mortgage_pool: Address) -> Self {
        LendingPoolModel { mortgage_pool: Some(mortgage_pool), ..self }
    }


    pub open spec fn set_mortgage_pool_refusal(self, admin: Address) -> Option<Error> {
        match self.governance.admin_refusal(admin) {
            Some(e) => Some(Error::of(e)),
            None => if self.mortgage_pool is Some {
                Some(Error::AlreadySet)
            } else {
                None
            },
        }
    }
    /// The pool with the scheduled upgrade asked for.
    pub open spec fn executed(self) -> Self {
        LendingPoolModel {
            governance: self.governance.with_nothing_scheduled(),
            outbox: self.outbox.push(
                match self.governance.scheduled->0.action {
                    Action::Upgrade(wasm_hash) => Effect::Upgrade(wasm_hash),
                },
            ),
            ..self
        }
    }


    pub open spec fn schedule_refusal(self, admin: Address) -> Option<Error> {
        match self.governance.schedule_refusal(admin) {
            Some(e) => Some(Error::of(e)),
            None => if self.governance.timelock_secs is None {
                Some(Error::NotInitialized)
            } else {
                None
            },
        }
    }

    pub open spec fn schedule_fits(self, admin: Address, now: u64) -> bool {
        self.schedule_refusal(admin) is None ==> self.governance.eta_fits(now)
    }

    /// The carry after a change of `investor`'s stake by `delta` shares.
    pub open spec fn carry_after(self, investor: Address, delta: int) -> int {
        let shares = self.position(investor).shares as int;
        carried(self.carry as int, shares, shares + delta, self.acc as int)
    }

    // --- deposit ---

    pub open spec fn deposit_refusal(self, amount: i128) -> Option<Error> {
        if amount <= 0 {
            Some(Error::InvalidAmount)
        } else if self.settlement_token is None {
            Some(Error::NotInitialized)
        } else {
            None
        }
    }

    pub open spec fn deposit_fits(self, investor: Address, amount: i128) -> bool {
        self.deposit_refusal(amount) is None ==> {
            &&& self.position(investor).move_fits(self.acc, amount as int)
            &&& fits(self.carry_after(investor, amount as int))
            &&& fits(self.totals.total_shares + amount)
            &&& fits(self.totals.total_capital + amount)
        }
    }

    /// `post` is the pool after `investor` has put `amount` in.
    pub open spec fn deposited(self, post: Self, env: Env, investor: Address, amount: i128) -> bool {
        &&& self.position(investor).moved(post.positions[investor], self.acc, amount as int)
        &&& post.carry == self.carry_after(investor, amount as int)
        &&& post.totals.total_shares == self.totals.total_shares + amount
        &&& post.totals.total_capital == self.totals.total_capital + amount
        &&& post == (LendingPoolModel {
            totals: PoolState {
                total_shares: post.totals.total_shares,
                total_capital: post.totals.total_capital,
                ..self.totals
            },
            carry: post.carry,
            positions: self.positions.insert(investor, post.positions[investor]),
            outbox: self.outbox.push(
                Effect::Transfer(
                    Transfer {
                        token: self.settlement_token->0,
                        from: investor,
                        to: env.contract,
                        amount,
                    },
                ),
            ).push(
                Effect::Publish(
                    Event::Deposit {
                        investor,
                        amount,
                        total_capital: post.totals.total_capital,
                    },
                ),
            ),
            ..self
        })
    }

    // --- withdraw ---

    pub open spec fn withdraw_refusal(self, investor: Address, amount: i128) -> Option<Error> {
        if amount <= 0 {
            Some(Error::InvalidAmount)
        } else if self.position(investor).shares < amount {
            Some(Error::InsufficientShares)
        } else if amount > self.available() {
            Some(Error::InsufficientAvailable)
        } else if self.settlement_token is None {
            Some(Error::NotInitialized)
        } else {
            None
        }
    }

    pub open spec fn withdraw_fits(self, investor: Address, amount: i128) -> bool {
        amount > 0 && self.position(investor).shares >= amount ==> {
            &&& fits(self.available())
            &&& amount <= self.available() ==> {
                &&& self.position(investor).move_fits(self.acc, -amount)
                &&& fits(self.carry_after(investor, -amount))
                &&& fits(self.totals.total_shares - amount)
                &&& fits(self.totals.total_capital - amount)
            }
        }
    }

    /// `post` is the pool after `investor` has taken `amount` out.
    pub open spec fn withdrawn(self, post: Self, env: Env, investor: Address, amount: i128) -> bool {
        &&& self.position(investor).moved(post.positions[investor], self.acc, -amount)
        &&& post.carry == self.carry_after(investor, -amount)
        &&& post.totals.total_shares == self.totals.total_shares - amount
        &&& post.totals.total_capital == self.totals.total_capital - amount
        &&& post == (LendingPoolModel {
            totals: PoolState {
                total_shares: post.totals.total_shares,
                total_capital: post.totals.total_capital,
                ..self.totals
            },
            carry: post.carry,
            positions: self.positions.insert(investor, post.positions[investor]),
            outbox: self.outbox.push(
                Effect::Transfer(
                    Transfer {
                        token: self.settlement_token->0,
                        from: env.contract,
                        to: investor,
                        amount,
                    },
                ),
            ).push(
                Effect::Publish(
                    Event::Withdraw {
                        investor,
                        amount,
                        total_capital: post.totals.total_capital,
                    },
                ),
            ),
            ..self
        })
    }

    // --- claim_interest ---

    pub open spec fn claim_refusal(self, investor: Address) -> Option<Error> {
        if self.position(investor).claimable(self.acc) <= 0 {
            Some(Error::NothingToClaim)
        } else if self.settlement_token is None {
            Some(Error::NotInitialized)
        } else {
            None
        }
    }

    /// `post` is the pool after `investor` has collected `paid`.
    pub open spec fn claimed(self, post: Self, env: Env, investor: Address, paid: i128) -> bool {
        &&& paid == self.position(investor).claimable(self.acc)
        &&& post.positions[investor].shares == self.position(investor).shares
        &&& post.positions[investor].reward_debt == entitled(
            self.position(investor).shares as int,
            self.acc as int,
        )
        &&& post.positions[investor].credited == 0
        &&& post == (LendingPoolModel {
            positions: self.positions.insert(investor, post.positions[investor]),
            outbox: self.outbox.push(
                Effect::Transfer(
                    Transfer {
                        token: self.settlement_token->0,
                        from: env.contract,
                        to: investor,
                        amount: paid,
                    },
                ),
            ).push(
                Effect::Publish(Event::Interest { investor, amount: paid }),
            ),
            ..self
        })
    }

    // --- reserve and unreserve ---

    pub open spec fn reserve_refusal(self, caller: Address, amount: i128) -> Option<Error> {
        if self.caller_refusal(caller) is Some {
            self.caller_refusal(caller)
        } else if amount <= 0 {
            Some(Error::InvalidAmount)
        } else if amount > self.available() {
            Some(Error::InsufficientAvailable)
        } else {
            None
        }
    }

    pub open spec fn reserve_fits(self, caller: Address, amount: i128) -> bool {
        self.caller_refusal(caller) is None && amount > 0 ==> {
            &&& fits(self.available())
            &&& amount <= self.available() ==> fits(self.totals.total_reserved + amount)
        }
    }

    /// `post` is the pool with `amount` more of its capital committed.
    pub open spec fn reserved(self, post: Self, amount: i128) -> bool {
        &&& post.totals.total_reserved == self.totals.total_reserved + amount
        &&& post == (LendingPoolModel {
            totals: PoolState { total_reserved: post.totals.total_reserved, ..self.totals },
            outbox: self.outbox.push(
                Effect::Publish(
                    Event::Reserve { amount, total_reserved: post.totals.total_reserved },
                ),
            ),
            ..self
        })
    }

    pub open spec fn unreserve_refusal(self, caller: Address, amount: i128) -> Option<Error> {
        if self.caller_refusal(caller) is Some {
            self.caller_refusal(caller)
        } else if amount <= 0 {
            Some(Error::InvalidAmount)
        } else if amount > self.totals.total_reserved {
            Some(Error::InsufficientReserved)
        } else {
            None
        }
    }

    /// `post` is the pool with `amount` less of its capital committed.
    pub open spec fn unreserved(self, post: Self, amount: i128) -> bool {
        &&& post.totals.total_reserved == self.totals.total_reserved - amount
        &&& post == (LendingPoolModel {
            totals: PoolState { total_reserved: post.totals.total_reserved, ..self.totals },
            outbox: self.outbox.push(
                Effect::Publish(
                    Event::Unreserve { amount, total_reserved: post.totals.total_reserved },
                ),
            ),
            ..self
        })
    }

    // --- disburse ---

    pub open spec fn disburse_refusal(self, caller: Address, amount: i128) -> Option<Error> {
        if self.unreserve_refusal(caller, amount) is Some {
            self.unreserve_refusal(caller, amount)
        } else if self.settlement_token is None {
            Some(Error::NotInitialized)
        } else {
            None
        }
    }

    pub open spec fn disburse_fits(self, caller: Address, amount: i128) -> bool {
        self.disburse_refusal(caller, amount) is None ==> {
            &&& fits(self.totals.total_capital - amount)
            &&& fits(self.totals.total_lent + amount)
        }
    }

    /// `post` is the pool with `amount` of committed capital paid to `to`.
    pub open spec fn disbursed(self, post: Self, env: Env, to: Address, amount: i128) -> bool {
        &&& post.totals.total_reserved == self.totals.total_reserved - amount
        &&& post.totals.total_capital == self.totals.total_capital - amount
        &&& post.totals.total_lent == self.totals.total_lent + amount
        &&& post == (LendingPoolModel {
            totals: PoolState {
                total_reserved: post.totals.total_reserved,
                total_capital: post.totals.total_capital,
                total_lent: post.totals.total_lent,
                ..self.totals
            },
            outbox: self.outbox.push(
                Effect::Transfer(
                    Transfer { token: self.settlement_token->0, from: env.contract, to, amount },
                ),
            ).push(
                Effect::Publish(
                    Event::Disburse { to, amount, total_lent: post.totals.total_lent },
                ),
            ),
            ..self
        })
    }

    // --- repay ---

    pub open spec fn repay_refusal(
        self,
        caller: Address,
        principal: i128,
        interest: i128,
    ) -> Option<Error> {
        if self.caller_refusal(caller) is Some {
            self.caller_refusal(caller)
        } else if principal < 0 || interest < 0 || principal + interest <= 0 {
            Some(Error::InvalidAmount)
        } else if self.settlement_token is None {
            Some(Error::NotInitialized)
        } else {
            None
        }
    }

    /// Capital after `principal` has come back, and `interest` with it where
    /// there is nobody to share the interest out to.
    pub open spec fn capital_after_repay(self, principal: int, interest: int) -> int {
        self.totals.total_capital + principal + (if self.totals.total_shares <= 0 {
            interest
        } else {
            0
        })
    }

    pub open spec fn repay_fits(self, caller: Address, principal: i128, interest: i128) -> bool {
        &&& self.caller_refusal(caller) is None && principal >= 0 && interest >= 0 ==> fits(
            principal + interest,
        )
        &&& self.repay_refusal(caller, principal, interest) is None ==> {
            &&& fits(self.totals.total_capital + principal)
            &&& fits(self.totals.total_lent - principal)
            &&& fits(self.capital_after_repay(principal as int, interest as int))
            &&& fits(self.totals.total_interest + interest)
            &&& interest > 0 && self.totals.total_shares > 0 ==> spread_fits(
                interest as int,
                self.carry as int,
                self.acc as int,
                self.totals.total_shares as int,
            )
        }
    }

    /// `post` is the pool with a repayment banked: `principal` back in its
    /// capital, `interest` spread over the shares outstanding.
    pub open spec fn repaid(
        self,
        post: Self,
        env: Env,
        from: Address,
        principal: i128,
        interest: i128,
    ) -> bool {
        &&& post.totals.total_capital == self.capital_after_repay(
            principal as int,
            interest as int,
        )
        &&& post.totals.total_lent == self.totals.total_lent - principal
        &&& post.totals.total_interest == self.totals.total_interest + interest
        &&& if interest > 0 && self.totals.total_shares > 0 {
            &&& post.acc == grown(
                interest as int,
                self.carry as int,
                self.acc as int,
                self.totals.total_shares as int,
            )
            &&& post.carry == left_over(
                interest as int,
                self.carry as int,
                self.totals.total_shares as int,
            )
        } else {
            post.acc == self.acc && post.carry == self.carry
        }
        &&& post == (LendingPoolModel {
            totals: PoolState {
                total_capital: post.totals.total_capital,
                total_lent: post.totals.total_lent,
                total_interest: post.totals.total_interest,
                ..self.totals
            },
            acc: post.acc,
            carry: post.carry,
            outbox: self.outbox.push(
                Effect::Transfer(
                    Transfer {
                        token: self.settlement_token->0,
                        from,
                        to: env.contract,
                        amount: (principal + interest) as i128,
                    },
                ),
            ).push(
                Effect::Publish(Event::Repay { from, principal, interest }),
            ),
            ..self
        })
    }

    // --- write_off ---

    pub open spec fn write_off_refusal(self, caller: Address, principal: i128) -> Option<Error> {
        if self.caller_refusal(caller) is Some {
            self.caller_refusal(caller)
        } else if principal <= 0 {
            Some(Error::InvalidAmount)
        } else {
            None
        }
    }

    pub open spec fn write_off_fits(self, caller: Address, principal: i128) -> bool {
        self.write_off_refusal(caller, principal) is None ==> {
            &&& fits(self.totals.total_lent - principal)
            &&& fits(self.totals.total_written_off + principal)
        }
    }

    /// `post` is the pool with `principal` given up for lost.
    pub open spec fn written_off(self, post: Self, principal: i128) -> bool {
        &&& post.totals.total_lent == self.totals.total_lent - principal
        &&& post.totals.total_written_off == self.totals.total_written_off + principal
        &&& post == (LendingPoolModel {
            totals: PoolState {
                total_lent: post.totals.total_lent,
                total_written_off: post.totals.total_written_off,
                ..self.totals
            },
            outbox: self.outbox.push(
                Effect::Publish(
                    Event::WriteOff {
                        principal,
                        total_written_off: post.totals.total_written_off,
                    },
                ),
            ),
            ..self
        })
    }
}

impl LendingPoolContract {
    /// The pool as it is deployed: configured, empty and not yet wired.
    pub fn new(admin: Address, settlement_token: Address, timelock_secs: u64) -> (pool: Self)
        ensures
            pool@ == LendingPoolModel::deployed(
                admin,
                settlement_token,
                timelock_secs,
            ),
    {
        LendingPoolContract {
            governance: Governance::new(admin, timelock_secs),
            settlement_token: Some(settlement_token),
            mortgage_pool: None,
            totals: PoolState {
                total_capital: 0,
                total_reserved: 0,
                total_lent: 0,
                total_interest: 0,
                total_written_off: 0,
                total_shares: 0,
            },
            acc: 0,
            carry: 0,
            positions: Table::new(),
            outbox: Vec::new(),
        }
    }

    // --- Administration ---

    /// Register the mortgage pool. Can be set only once: rewiring it later would
    /// let the admin point the treasury at a contract that pays itself.
    pub fn set_mortgage_pool(&mut self, env: &Env, admin: &Address, pool: &Address) -> (r: Result<
        (),
        Error,
    >)
        requires
            env.authorizes(*admin),
        ensures
            r == outcome(old(self)@.set_mortgage_pool_refusal(*admin)),
            r is Err ==> final(self)@ == old(self)@,
            r is Ok ==> final(self)@ == old(self)@.wired_to(*pool),
    {
        match self.governance.require_admin(admin) {
            Err(e) => return Err(Error::from_governance(e)),
            Ok(()) => {},
        }
        if self.mortgage_pool.is_some() {
            return Err(Error::AlreadySet);
        }
        self.mortgage_pool = Some(*pool);
        Ok(())
    }

    /// Put an upgrade in the queue, to execute once the timelock has elapsed.
    pub fn schedule_action(&mut self, env: &Env, admin: &Address, action: Action) -> (r: Result<
        (),
        Error,
    >)
        requires
            env.authorizes(*admin),
            old(self)@.schedule_fits(*admin, env.timestamp),
        ensures
            r == outcome(old(self)@.schedule_refusal(*admin)),
            r is Err ==> final(self)@ == old(self)@,
            r is Ok ==> final(self)@ == (LendingPoolModel {
                governance: old(self)@.governance.with_queued(action, env.timestamp),
                ..old(self)@
            }),
    {
        match self.governance.require_idle(admin) {
            Err(e) => return Err(Error::from_governance(e)),
            Ok(()) => {},
        }
        match self.governance.schedule(action, env.timestamp) {
            Err(e) => Err(Error::from_governance(e)),
            Ok(()) => Ok(()),
        }
    }

    /// Carry out the scheduled action once its timelock has elapsed.
    pub fn execute_action(&mut self, env: &Env, admin: &Address) -> (r: Result<(), Error>)
        requires
            env.authorizes(*admin),
        ensures
            r == admin_outcome(old(self)@.governance.execute_refusal(*admin, env.timestamp)),
            r is Err ==> final(self)@ == old(self)@,
            r is Ok ==> final(self)@ == old(self)@.executed(),
    {
        match self.governance.due(admin, env.timestamp) {
            Err(e) => Err(Error::from_governance(e)),
            Ok(Action::Upgrade(wasm_hash)) => {
                self.governance.scheduled = None;
                self.outbox.push(Effect::Upgrade(wasm_hash));
                Ok(())
            },
        }
    }

    /// Withdraw the scheduled action before it executes.
    pub fn cancel_action(&mut self, env: &Env, admin: &Address) -> (r: Result<(), Error>)
        requires
            env.authorizes(*admin),
        ensures
            r == admin_outcome(old(self)@.governance.cancel_refusal(*admin)),
            r is Err ==> final(self)@ == old(self)@,
            r is Ok ==> final(self)@ == (LendingPoolModel {
                governance: old(self)@.governance.with_nothing_scheduled(),
                ..old(self)@
            }),
    {
        match self.governance.cancel(admin) {
            Err(e) => Err(Error::from_governance(e)),
            Ok(()) => Ok(()),
        }
    }

    /// Begin handing the admin role to `new_admin`. Nothing changes until the
    /// new admin accepts.
    pub fn propose_admin(&mut self, env: &Env, admin: &Address, new_admin: &Address) -> (r: Result<
        (),
        Error,
    >)
        requires
            env.authorizes(*admin),
        ensures
            r == admin_outcome(old(self)@.governance.admin_refusal(*admin)),
            r is Err ==> final(self)@ == old(self)@,
            r is Ok ==> final(self)@ == (LendingPoolModel {
                governance: old(self)@.governance.with_proposed(*new_admin),
                ..old(self)@
            }),
    {
        match self.governance.propose(admin, new_admin) {
            Err(e) => Err(Error::from_governance(e)),
            Ok(()) => Ok(()),
        }
    }

    /// Complete a handover proposed by the current admin.
    pub fn accept_admin(&mut self, env: &Env, new_admin: &Address) -> (r: Result<(), Error>)
        requires
            env.authorizes(*new_admin),
        ensures
            r == admin_outcome(old(self)@.governance.accept_refusal(*new_admin)),
            r is Err ==> final(self)@ == old(self)@,
            r is Ok ==> final(self)@ == (LendingPoolModel {
                governance: old(self)@.governance.with_admin(*new_admin),
                ..old(self)@
            }),
    {
        match self.governance.accept(new_admin) {
            Err(e) => Err(Error::from_governance(e)),
            Ok(()) => Ok(()),
        }
    }

    // --- Investor operations ---

    /// Put capital into the pool. Shares are issued one for one.
    pub fn deposit(&mut self, env: &Env, investor: &Address, amount: i128) -> (r: Result<(), Error>)
        requires
            env.authorizes(*investor),
            old(self)@.deposit_fits(*investor, amount),
        ensures
            r == outcome(old(self)@.deposit_refusal(amount)),
            r is Err ==> final(self)@ == old(self)@,
            r is Ok ==> old(self)@.deposited(final(self)@, *env, *investor, amount),
    {
        if amount <= 0 {
            return Err(Error::InvalidAmount);
        }
        let token = self.token()?;
        let mut position = self.position_of(investor);
        Self::settle(&mut position, self.acc);
        let before: i128 = position.shares;
        position.shares = before + amount;
        Self::reset_debt(&mut position, self.acc);
        self.carry = recarry(self.carry, before, position.shares, self.acc);
        self.positions.insert(*investor, position);

        self.totals.total_shares = self.totals.total_shares + amount;
        self.totals.total_capital = self.totals.total_capital + amount;

        self.outbox.push(
            Effect::Transfer(Transfer { token, from: *investor, to: env.contract, amount }),
        );
        self.outbox.push(
            Effect::Publish(
                Event::Deposit {
                    investor: *investor,
                    amount,
                    total_capital: self.totals.total_capital,
                },
            ),
        );
        Ok(())
    }

    /// Take capital out. Only what is not committed to an approved mortgage can
    /// be withdrawn; interest is claimed separately.
    pub fn withdraw(&mut self, env: &Env, investor: &Address, amount: i128) -> (r: Result<
        (),
        Error,
    >)
        requires
            env.authorizes(*investor),
            old(self)@.withdraw_fits(*investor, amount),
        ensures
            r == outcome(old(self)@.withdraw_refusal(*investor, amount)),
            r is Err ==> final(self)@ == old(self)@,
            r is Ok ==> old(self)@.withdrawn(final(self)@, *env, *investor, amount),
    {
        if amount <= 0 {
            return Err(Error::InvalidAmount);
        }
        let mut position = self.position_of(investor);
        if position.shares < amount {
            return Err(Error::InsufficientShares);
        }
        if amount > self.available() {
            return Err(Error::InsufficientAvailable);
        }
        let token = self.token()?;
        Self::settle(&mut position, self.acc);
        let before: i128 = position.shares;
        position.shares = before - amount;
        Self::reset_debt(&mut position, self.acc);
        self.carry = recarry(self.carry, before, position.shares, self.acc);
        self.positions.insert(*investor, position);

        self.totals.total_shares = self.totals.total_shares - amount;
        self.totals.total_capital = self.totals.total_capital - amount;

        self.outbox.push(
            Effect::Transfer(Transfer { token, from: env.contract, to: *investor, amount }),
        );
        self.outbox.push(
            Effect::Publish(
                Event::Withdraw {
                    investor: *investor,
                    amount,
                    total_capital: self.totals.total_capital,
                },
            ),
        );
        Ok(())
    }

    /// Collect interest earned and not yet taken.
    pub fn claim_interest(&mut self, env: &Env, investor: &Address) -> (r: Result<i128, Error>)
        requires
            env.authorizes(*investor),
            old(self)@.position(*investor).settle_fits(old(self)@.acc),
        ensures
            r is Err <==> old(self)@.claim_refusal(*investor) is Some,
            r is Err ==> r == Err::<i128, _>(old(self)@.claim_refusal(*investor)->0),
            r is Err ==> final(self)@ == old(self)@,
            r is Ok ==> old(self)@.claimed(final(self)@, *env, *investor, r->Ok_0),
    {
        let mut position = self.position_of(investor);
        Self::settle(&mut position, self.acc);
        let paid: i128 = position.credited;
        if paid <= 0 {
            return Err(Error::NothingToClaim);
        }
        let token = self.token()?;
        position.credited = 0;
        self.positions.insert(*investor, position);

        self.outbox.push(
            Effect::Transfer(Transfer { token, from: env.contract, to: *investor, amount: paid }),
        );
        self.outbox.push(Effect::Publish(Event::Interest { investor: *investor, amount: paid }));
        Ok(paid)
    }

    // --- Mortgage pool operations ---

    /// Commit capital to an approved mortgage. It stops being withdrawable
    /// immediately, though it is paid out only as milestones are signed off.
    pub fn reserve(&mut self, env: &Env, caller: &Address, amount: i128) -> (r: Result<(), Error>)
        requires
            env.authorizes(*caller),
            old(self)@.reserve_fits(*caller, amount),
        ensures
            r == outcome(old(self)@.reserve_refusal(*caller, amount)),
            r is Err ==> final(self)@ == old(self)@,
            r is Ok ==> old(self)@.reserved(final(self)@, amount),
    {
        self.require_pool(caller)?;
        if amount <= 0 {
            return Err(Error::InvalidAmount);
        }
        if amount > self.available() {
            return Err(Error::InsufficientAvailable);
        }
        self.totals.total_reserved = self.totals.total_reserved + amount;
        self.outbox.push(
            Effect::Publish(
                Event::Reserve { amount, total_reserved: self.totals.total_reserved },
            ),
        );
        Ok(())
    }

    /// Release a commitment without paying it out: a mortgage that was cancelled,
    /// or the undrawn remainder of one that closed part-built.
    pub fn unreserve(&mut self, env: &Env, caller: &Address, amount: i128) -> (r: Result<(), Error>)
        requires
            env.authorizes(*caller),
        ensures
            r == outcome(old(self)@.unreserve_refusal(*caller, amount)),
            r is Err ==> final(self)@ == old(self)@,
            r is Ok ==> old(self)@.unreserved(final(self)@, amount),
    {
        self.require_pool(caller)?;
        if amount <= 0 {
            return Err(Error::InvalidAmount);
        }
        if amount > self.totals.total_reserved {
            return Err(Error::InsufficientReserved);
        }
        self.totals.total_reserved = self.totals.total_reserved - amount;
        self.outbox.push(
            Effect::Publish(
                Event::Unreserve { amount, total_reserved: self.totals.total_reserved },
            ),
        );
        Ok(())
    }

    /// Pay a tranche of committed capital to a recipient. The amount must
    /// already be reserved, so the pool never disburses money it has not set
    /// aside.
    pub fn disburse(&mut self, env: &Env, caller: &Address, to: &Address, amount: i128) -> (r:
        Result<(), Error>)
        requires
            env.authorizes(*caller),
            old(self)@.disburse_fits(*caller, amount),
        ensures
            r == outcome(old(self)@.disburse_refusal(*caller, amount)),
            r is Err ==> final(self)@ == old(self)@,
            r is Ok ==> old(self)@.disbursed(final(self)@, *env, *to, amount),
    {
        self.require_pool(caller)?;
        if amount <= 0 {
            return Err(Error::InvalidAmount);
        }
        if amount > self.totals.total_reserved {
            return Err(Error::InsufficientReserved);
        }
        let token = self.token()?;
        self.totals.total_reserved = self.totals.total_reserved - amount;
        self.totals.total_capital = self.totals.total_capital - amount;
        self.totals.total_lent = self.totals.total_lent + amount;

        self.outbox.push(Effect::Transfer(Transfer { token, from: env.contract, to: *to, amount }));
        self.outbox.push(
            Effect::Publish(
                Event::Disburse { to: *to, amount, total_lent: self.totals.total_lent },
            ),
        );
        Ok(())
    }

    /// Take a repayment in: `principal` returns to the pool's capital,
    /// `interest` is shared out across investors.
    pub fn repay(
        &mut self,
        env: &Env,
        caller: &Address,
        from: &Address,
        principal: i128,
        interest: i128,
    ) -> (r: Result<(), Error>)
        requires
            env.authorizes(*caller),
            old(self)@.repay_fits(*caller, principal, interest),
        ensures
            r == outcome(old(self)@.repay_refusal(*caller, principal, interest)),
            r is Err ==> final(self)@ == old(self)@,
            r is Ok ==> old(self)@.repaid(final(self)@, *env, *from, principal, interest),
    {
        self.require_pool(caller)?;
        if principal < 0 || interest < 0 || principal + interest <= 0 {
            return Err(Error::InvalidAmount);
        }
        let token = self.token()?;
        if principal > 0 {
            self.totals.total_capital = self.totals.total_capital + principal;
            self.totals.total_lent = self.totals.total_lent - principal;
        }
        if interest > 0 {
            self.accrue_interest(interest);
            self.totals.total_interest = self.totals.total_interest + interest;
        }
        self.outbox.push(
            Effect::Transfer(
                Transfer {
                    token,
                    from: *from,
                    to: env.contract,
                    amount: principal + interest,
                },
            ),
        );
        self.outbox.push(Effect::Publish(Event::Repay { from: *from, principal, interest }));
        Ok(())
    }

    /// Write off principal that will not come back. Interest already credited is
    /// untouched: it was earned.
    pub fn write_off(&mut self, env: &Env, caller: &Address, principal: i128) -> (r: Result<
        (),
        Error,
    >)
        requires
            env.authorizes(*caller),
            old(self)@.write_off_fits(*caller, principal),
        ensures
            r == outcome(old(self)@.write_off_refusal(*caller, principal)),
            r is Err ==> final(self)@ == old(self)@,
            r is Ok ==> old(self)@.written_off(final(self)@, principal),
    {
        self.require_pool(caller)?;
        if principal <= 0 {
            return Err(Error::InvalidAmount);
        }
        self.totals.total_lent = self.totals.total_lent - principal;
        self.totals.total_written_off = self.totals.total_written_off + principal;
        self.outbox.push(
            Effect::Publish(
                Event::WriteOff {
                    principal,
                    total_written_off: self.totals.total_written_off,
                },
            ),
        );
        Ok(())
    }

    // --- Ranges ---
    /// Whether [`Self::schedule_action`] stays within range.
    pub fn schedule_in_range(&self, env: &Env, admin: &Address) -> (r: bool)
        ensures
            r == self@.schedule_fits(*admin, env.timestamp),
    {
        self.governance.require_idle(admin).is_err() || self.governance.eta_in_range(env.timestamp)
    }

    /// Whether [`Self::deposit`] stays within range.
    pub fn deposit_in_range(&self, investor: &Address, amount: i128) -> (r: bool)
        ensures
            r == self@.deposit_fits(*investor, amount),
    {
        if amount <= 0 || self.settlement_token.is_none() {
            return true;
        }
        let position = self.position_of(investor);
        position.move_in_range(self.acc, amount) && recarry_in_range(
            self.carry,
            position.shares,
            position.shares + amount,
            self.acc,
        ) && self.totals.total_shares.checked_add(amount).is_some()
            && self.totals.total_capital.checked_add(amount).is_some()
    }

    /// Whether [`Self::withdraw`] stays within range.
    pub fn withdraw_in_range(&self, investor: &Address, amount: i128) -> (r: bool)
        ensures
            r == self@.withdraw_fits(*investor, amount),
    {
        let position = self.position_of(investor);
        if amount <= 0 || position.shares < amount {
            return true;
        }
        match self.totals.total_capital.checked_sub(self.totals.total_reserved) {
            None => false,
            Some(available) => amount > available || (position.move_in_range(self.acc, -amount)
                && recarry_in_range(
                self.carry,
                position.shares,
                position.shares - amount,
                self.acc,
            ) && self.totals.total_shares.checked_sub(amount).is_some()
                && self.totals.total_capital.checked_sub(amount).is_some()),
        }
    }

    /// Whether [`Self::claim_interest`] and [`Self::claimable_interest`] stay
    /// within range.
    pub fn claim_in_range(&self, investor: &Address) -> (r: bool)
        ensures
            r == self@.position(*investor).settle_fits(self@.acc),
    {
        self.position_of(investor).settle_in_range(self.acc)
    }

    /// Whether [`Self::available`] stays within range.
    pub fn available_in_range(&self) -> (r: bool)
        ensures
            r == fits(self@.available()),
    {
        self.totals.total_capital.checked_sub(self.totals.total_reserved).is_some()
    }

    /// Whether [`Self::reserve`] stays within range.
    pub fn reserve_in_range(&self, caller: &Address, amount: i128) -> (r: bool)
        ensures
            r == self@.reserve_fits(*caller, amount),
    {
        if self.require_pool(caller).is_err() || amount <= 0 {
            return true;
        }
        match self.totals.total_capital.checked_sub(self.totals.total_reserved) {
            None => false,
            Some(available) => amount > available || self.totals.total_reserved.checked_add(
                amount,
            ).is_some(),
        }
    }

    /// Whether [`Self::disburse`] stays within range.
    pub fn disburse_in_range(&self, caller: &Address, amount: i128) -> (r: bool)
        ensures
            r == self@.disburse_fits(*caller, amount),
    {
        if self.require_pool(caller).is_err() || amount <= 0 || amount > self.totals.total_reserved
            || self.settlement_token.is_none() {
            return true;
        }
        self.totals.total_capital.checked_sub(amount).is_some()
            && self.totals.total_lent.checked_add(amount).is_some()
    }

    /// Whether [`Self::repay`] stays within range.
    pub fn repay_in_range(&self, caller: &Address, principal: i128, interest: i128) -> (r: bool)
        ensures
            r == self@.repay_fits(*caller, principal, interest),
    {
        if self.require_pool(caller).is_err() || principal < 0 || interest < 0 {
            return true;
        }
        match principal.checked_add(interest) {
            None => return false,
            Some(sum) => if sum <= 0 || self.settlement_token.is_none() {
                return true;
            },
        }
        let capital = match self.totals.total_capital.checked_add(principal) {
            None => return false,
            Some(capital) => capital,
        };
        if self.totals.total_shares <= 0 && capital.checked_add(interest).is_none() {
            return false;
        }
        if interest > 0 && self.totals.total_shares > 0 && !spread_in_range(
            interest,
            self.carry,
            self.acc,
            self.totals.total_shares,
        ) {
            return false;
        }
        self.totals.total_lent.checked_sub(principal).is_some()
            && self.totals.total_interest.checked_add(interest).is_some()
    }

    /// Whether [`Self::write_off`] stays within range.
    pub fn write_off_in_range(&self, caller: &Address, principal: i128) -> (r: bool)
        ensures
            r == self@.write_off_fits(*caller, principal),
    {
        if self.require_pool(caller).is_err() || principal <= 0 {
            return true;
        }
        self.totals.total_lent.checked_sub(principal).is_some()
            && self.totals.total_written_off.checked_add(principal).is_some()
    }

    // --- Getters ---

    /// Capital that is neither committed to a mortgage nor already lent out.
    pub fn available(&self) -> (r: i128)
        requires
            fits(self@.available()),
        ensures
            r == self@.available(),
    {
        self.totals.total_capital - self.totals.total_reserved
    }

    pub fn shares_of(&self, investor: &Address) -> (r: i128)
        ensures
            r == self@.position(*investor).shares,
    {
        self.position_of(investor).shares
    }

    pub fn position_of_investor(&self, investor: &Address) -> (r: Position)
        ensures
            r == self@.position(*investor),
    {
        self.position_of(investor)
    }

    /// Interest `investor` could claim right now, without changing anything.
    pub fn claimable_interest(&self, investor: &Address) -> (r: i128)
        requires
            self@.position(*investor).settle_fits(self@.acc),
        ensures
            r == self@.position(*investor).claimable(self@.acc),
    {
        let mut position = self.position_of(investor);
        Self::settle(&mut position, self.acc);
        position.credited
    }

    pub fn pool_state(&self) -> (r: PoolState)
        ensures
            r == self@.totals,
    {
        self.totals
    }

    pub fn get_admin(&self) -> (r: Address)
        requires
            self@.governance.admin is Some,
        ensures
            r == self@.governance.admin->0,
    {
        self.governance.admin.unwrap()
    }

    pub fn get_mortgage_pool(&self) -> (r: Option<Address>)
        ensures
            r == self@.mortgage_pool,
    {
        self.mortgage_pool
    }

    pub fn get_settlement_token(&self) -> (r: Address)
        requires
            self@.settlement_token is Some,
        ensures
            r == self@.settlement_token->0,
    {
        self.settlement_token.unwrap()
    }

    pub fn get_scheduled_action(&self) -> (r: Option<ScheduledAction>)
        ensures
            r == self@.governance.scheduled,
    {
        self.governance.scheduled
    }

    pub fn get_timelock_secs(&self) -> (r: u64)
        ensures
            r == (match self@.governance.timelock_secs {
                Some(secs) => secs,
                None => 0,
            }),
    {
        match self.governance.timelock_secs {
            Some(secs) => secs,
            None => 0,
        }
    }

    // --- Internals ---

    /// Spread interest across the shares outstanding right now, once it has made the
    /// carry good. With no investors it stays in the pool's capital rather than being
    /// lost.
    fn accrue_interest(&mut self, amount: i128)
        requires
            amount > 0,
            old(self)@.totals.total_shares <= 0 ==> fits(old(self)@.totals.total_capital + amount),
            old(self)@.totals.total_shares > 0 ==> spread_fits(
                amount as int,
                old(self)@.carry as int,
                old(self)@.acc as int,
                old(self)@.totals.total_shares as int,
            ),
        ensures
            final(self)@.totals == (PoolState {
                total_capital: final(self)@.totals.total_capital,
                ..old(self)@.totals
            }),
            final(self)@.totals.total_capital == old(self)@.totals.total_capital + (if old(
                self,
            )@.totals.total_shares <= 0 {
                amount as int
            } else {
                0
            }),
            if old(self)@.totals.total_shares > 0 {
                &&& final(self)@.acc == grown(
                    amount as int,
                    old(self)@.carry as int,
                    old(self)@.acc as int,
                    old(self)@.totals.total_shares as int,
                )
                &&& final(self)@.carry == left_over(
                    amount as int,
                    old(self)@.carry as int,
                    old(self)@.totals.total_shares as int,
                )
            } else {
                final(self)@.acc == old(self)@.acc && final(self)@.carry == old(self)@.carry
            },
            final(self)@ == (LendingPoolModel {
                totals: final(self)@.totals,
                acc: final(self)@.acc,
                carry: final(self)@.carry,
                ..old(self)@
            }),
    {
        if self.totals.total_shares <= 0 {
            self.totals.total_capital = self.totals.total_capital + amount;
            return ;
        }
        let (acc, carry) = spread(amount, self.carry, self.acc, self.totals.total_shares);
        self.acc = acc;
        self.carry = carry;
    }

    /// Bank what the current shares have earned since the last settlement. Must
    /// run before any share change, paired with [`Self::reset_debt`].
    pub fn settle(position: &mut Position, acc: i128)
        requires
            old(position).settle_fits(acc),
        ensures
            old(position).settled(*final(position), acc),
    {
        let entitled_now: i128 = entitlement(position.shares, acc);
        position.credited = position.credited + (entitled_now - position.reward_debt);
        position.reward_debt = entitled_now;
    }

    /// Re-anchor against a changed share count, so a change of shares is not itself
    /// paid for. The anchor is in whole units; the caller charges the fraction of a
    /// unit it leaves out to the carry.
    pub fn reset_debt(position: &mut Position, acc: i128)
        requires
            fits(old(position).shares * acc),
        ensures
            final(position).reward_debt == entitled(old(position).shares as int, acc as int),
            *final(position) == (Position {
                reward_debt: final(position).reward_debt,
                ..*old(position)
            }),
    {
        position.reward_debt = entitlement(position.shares, acc);
    }

    fn position_of(&self, investor: &Address) -> (r: Position)
        ensures
            r == self@.position(*investor),
    {
        match self.positions.get(*investor) {
            Some(position) => position,
            None => Position { shares: 0, reward_debt: 0, credited: 0 },
        }
    }

    fn token(&self) -> (r: Result<Address, Error>)
        ensures
            r == (match self@.settlement_token {
                Some(token) => Ok(token),
                None => Err(Error::NotInitialized),
            }),
    {
        match self.settlement_token {
            Some(token) => Ok(token),
            None => Err(Error::NotInitialized),
        }
    }

    fn require_pool(&self, caller: &Address) -> (r: Result<(), Error>)
        ensures
            r == outcome(self@.caller_refusal(*caller)),
    {
        match self.mortgage_pool {
            None => Err(Error::MortgagePoolNotSet),
            Some(pool) => if *caller != pool {
                Err(Error::NotAuthorized)
            } else {
                Ok(())
            },
        }
    }
}

} // verus!
