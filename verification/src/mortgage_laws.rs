//! What holds of the loans whatever is done to them.

use crate::governance::Governance;
use crate::host::{Address, Digest, Env};
use crate::mortgage_pool::{
    Action, Balance, Effect, Event, LendingTerms, Mortgage, MortgagePoolModel, MortgageStatus,
    StageReport, INTEREST_DIVISOR, MAX_RATE_BPS, MILESTONE_COUNT, SECONDS_PER_MONTH,
};
use vstd::arithmetic::div_mod::lemma_fundamental_div_mod;
use vstd::prelude::*;

verus! {

// --- interest ---

impl Balance {
    /// A balance as accrual keeps it.
    pub open spec fn sound(self) -> bool {
        &&& self.outstanding >= 0
        &&& self.interest >= 0
        &&& 0 <= self.carry < INTEREST_DIVISOR
        &&& self.accrued_at >= 0
    }
}

/// Interest is exact: what was charged and what is carried are together the whole of
/// the principal times the rate times the months that passed.
pub proof fn law_interest_is_exact(owed: Balance, rate_bps: int, now: int)
    requires
        owed.sound(),
        rate_bps >= 0,
    ensures
        ({
            let later = owed.at(rate_bps, now);
            &&& later.sound()
            &&& later.outstanding == owed.outstanding
            &&& later.interest >= owed.interest
            &&& INTEREST_DIVISOR * (later.interest - owed.interest) + later.carry
                == owed.outstanding * rate_bps * owed.months(now) + owed.carry
            &&& owed.accrued_at <= later.accrued_at
            &&& later.accrued_at == owed.accrued_at + owed.months(now) * SECONDS_PER_MONTH
        }),
{
    let months = owed.months(now);
    let product = owed.outstanding * rate_bps * months;
    assert(months >= 0);
    assert(owed.outstanding * rate_bps >= 0) by (nonlinear_arith)
        requires
            owed.outstanding >= 0,
            rate_bps >= 0,
    ;
    let yearly = owed.outstanding * rate_bps;
    assert(yearly * months >= 0) by (nonlinear_arith)
        requires
            yearly >= 0,
            months >= 0,
    ;
    assert(yearly * 0 == 0);
}

/// What a loan owes does not depend on how often it was brought up to date: charging
/// up to one moment and then up to a later one comes to exactly what charging up to
/// the later one does. No part of a month is lost or charged twice.
pub proof fn law_accrual_is_path_independent(owed: Balance, rate_bps: int, first: int, then: int)
    requires
        owed.sound(),
        rate_bps >= 0,
        first <= then,
    ensures
        owed.at(rate_bps, first).at(rate_bps, then) == owed.at(rate_bps, then),
{
    let m1 = owed.months(first);
    let mid = owed.at(rate_bps, first);
    law_interest_is_exact(owed, rate_bps, first);
    law_interest_is_exact(mid, rate_bps, then);
    law_interest_is_exact(owed, rate_bps, then);
    if m1 != 0 {
        let m2 = mid.months(then);
        let yearly = owed.outstanding * rate_bps;
        assert(owed.months(then) == m1 + m2);
        assert(yearly * (m1 + m2) == yearly * m1 + yearly * m2) by (nonlinear_arith);
        assert(yearly * 0 == 0);
    }
}

/// Looking twice charges once: bringing a loan up to date a second time at the same
/// moment changes nothing.
pub proof fn law_accruing_twice_charges_once(loan: Mortgage, later: Mortgage, now: u64)
    requires
        loan.balance().sound(),
        later.balance() == loan.balance_at(now),
        later.rate_bps == loan.rate_bps,
    ensures
        later.balance_at(now) == later.balance(),
{
    law_accrual_is_path_independent(
        loan.balance(),
        loan.rate_bps as int,
        now as int,
        now as int,
    );
}

/// Money that has not been drawn is not charged for.
pub proof fn law_only_drawn_money_is_charged(owed: Balance, rate_bps: int, now: int)
    requires
        owed.outstanding == 0,
    ensures
        owed.at(rate_bps, now) == owed,
{
}

/// A first tranche is charged only for time since it was drawn, and so is any later
/// one drawn at the end of a whole month.
pub proof fn law_a_draw_is_not_backdated(
    pre: MortgagePoolModel,
    post: MortgagePoolModel,
    env: Env,
    mortgage_id: u64,
    stage: u32,
    report: StageReport,
    tranche: i128,
    now: u64,
)
    requires
        pre.sound(),
        pre.takes(post, env, Step::Disburse { mortgage_id, stage, report, tranche }),
        ({
            let m = pre.mortgages[mortgage_id];
            m.disbursed == 0 || m.balance_at(env.timestamp).accrued_at == env.timestamp
        }),
        env.timestamp > 0,
        now >= env.timestamp,
    ensures
        ({
            let m = pre.mortgages[mortgage_id];
            let n = post.mortgages[mortgage_id];
            let months = (now - env.timestamp) / SECONDS_PER_MONTH as int;
            let before = m.balance_at(env.timestamp);
            INTEREST_DIVISOR * (n.balance_at(now).interest - before.interest) + n.balance_at(
                now,
            ).carry == (m.outstanding + tranche) * m.rate_bps * months + before.carry
        }),
{
    let m = pre.mortgages[mortgage_id];
    let n = post.mortgages[mortgage_id];
    assert(pre.is_recorded(mortgage_id));
    law_interest_is_exact(m.balance(), m.rate_bps as int, env.timestamp as int);
    law_interest_is_exact(n.balance(), n.rate_bps as int, now as int);
}

// --- payments ---

/// A payment is split exactly, clears interest before it touches principal, and
/// lowers what is owed by exactly what was taken, which is never more than is owed.
pub proof fn law_interest_is_cleared_first(owed: Balance, amount: int)
    requires
        owed.outstanding >= 0,
        owed.interest >= 0,
        amount > 0,
    ensures
        ({
            let payment = owed.pay(amount);
            &&& payment.principal + payment.interest == payment.taken
            &&& 0 <= payment.interest <= owed.interest
            &&& 0 <= payment.principal <= owed.outstanding
            &&& payment.taken <= amount
            &&& payment.principal > 0 ==> payment.interest == owed.interest
            &&& payment.taken <= owed.payoff()
            &&& amount >= owed.payoff() ==> payment.principal == owed.outstanding
                && payment.interest == owed.interest
            &&& amount == owed.interest ==> payment.principal == 0
        }),
{
}

/// A payment that is accepted always clears the interest owed, and takes at least a
/// slice of principal or all that is left.
pub proof fn law_accepted_payments_amortise(owed: Balance, slice: int, amount: int)
    requires
        owed.outstanding >= 0,
        owed.interest >= 0,
        slice >= 0,
        amount > 0,
        amount >= owed.due(slice) || amount >= owed.payoff(),
    ensures
        owed.pay(amount).interest == owed.interest,
        owed.pay(amount).principal >= slice || owed.pay(amount).principal == owed.outstanding,
{
}

/// The tranches of the construction stages make up the whole facility.
pub proof fn law_tranches_make_up_the_facility(loan: Mortgage)
    requires
        loan.principal >= 0,
    ensures
        loan.tranche(0) + loan.tranche(1) + loan.tranche(2) + loan.tranche(3) + loan.tranche(4)
            == loan.principal,
        MILESTONE_COUNT == 5,
        forall|stage: u32| #[trigger] loan.tranche(stage) >= 0,
{
}

// --- the book ---

/// Something done to the book.
pub ghost enum Step {
    Administer,
    Apply {
        borrower: Address,
        property_id: u64,
        principal: i128,
        term_months: u32,
        rate_bps: u32,
        terms: LendingTerms,
    },
    Approve { underwriter: Address, mortgage_id: u64, terms: LendingTerms },
    Decline { underwriter: Address, mortgage_id: u64 },
    Disburse { mortgage_id: u64, stage: u32, report: StageReport, tranche: i128 },
    Repay { mortgage_id: u64, amount: i128 },
    Default { mortgage_id: u64 },
}

impl Mortgage {
    /// Whether the loan, or the application, is still open.
    pub open spec fn is_live(self) -> bool {
        self.status == MortgageStatus::Applied || self.is_drawable()
    }

    /// A loan as the book keeps it.
    pub open spec fn sound(self) -> bool {
        &&& self.principal > 0
        &&& self.term_months > 0
        &&& self.rate_bps <= MAX_RATE_BPS
        &&& self.balance().sound()
        &&& self.outstanding == self.disbursed - (self.total_repaid - self.interest_paid)
        &&& self.outstanding <= self.disbursed
        &&& match self.status {
            MortgageStatus::Applied | MortgageStatus::Approved => {
                &&& self.disbursed == 0
                &&& self.interest_accrued == 0
                &&& self.interest_carry == 0
                &&& self.last_accrued_at == 0
                &&& self.next_payment_due == 0
            },
            MortgageStatus::Funded | MortgageStatus::Repaying => {
                &&& self.outstanding > 0
                &&& self.next_payment_due > 0
            },
            MortgageStatus::PaidOff => {
                &&& self.disbursed > 0
                &&& self.outstanding == 0
                &&& self.interest_accrued == 0
            },
            MortgageStatus::Defaulted => self.disbursed > 0,
        }
    }

    /// Whether `later` is the same loan: nothing agreed has changed.
    pub open spec fn same_terms(self, later: Mortgage) -> bool {
        &&& later.id == self.id
        &&& later.property_id == self.property_id
        &&& later.borrower == self.borrower
        &&& later.principal == self.principal
        &&& later.term_months == self.term_months
        &&& later.rate_bps == self.rate_bps
        &&& later.created_at == self.created_at
    }
}

/// Whether a loan may go from one status to another.
pub open spec fn may_become(from: MortgageStatus, to: MortgageStatus) -> bool {
    match from {
        MortgageStatus::Applied => to == MortgageStatus::Approved,
        MortgageStatus::Approved => to == MortgageStatus::Funded,
        MortgageStatus::Funded => to == MortgageStatus::Funded || to == MortgageStatus::Repaying
            || to == MortgageStatus::PaidOff || to == MortgageStatus::Defaulted,
        MortgageStatus::Repaying => to == MortgageStatus::Repaying || to
            == MortgageStatus::PaidOff || to == MortgageStatus::Defaulted,
        MortgageStatus::PaidOff => false,
        MortgageStatus::Defaulted => false,
    }
}

impl MortgagePoolModel {
    /// `post` differs from this book by administration alone.
    pub open spec fn administered(self, post: Self) -> bool {
        &&& post == (MortgagePoolModel {
            governance: post.governance,
            grace_secs: post.grace_secs,
            underwriters: post.underwriters,
            outbox: post.outbox,
            ..self
        })
        &&& post.grace_secs == self.grace_secs || post.grace_secs > 0
        &&& post.outbox == self.outbox || (exists|wasm_hash: Digest|
            post.outbox == self.outbox.push(Effect::Upgrade(wasm_hash))) || (exists|
            underwriter: Address,
            authorized: bool,
        |
            post.outbox == self.outbox.push(
                Effect::Publish(Event::Underwriter { underwriter, authorized }),
            ))
    }

    /// `post` is this book after `step`, which was not refused.
    pub open spec fn takes(self, post: Self, env: Env, step: Step) -> bool {
        match step {
            Step::Administer => self.administered(post),
            Step::Apply { borrower, property_id, principal, term_months, rate_bps, terms } => {
                &&& terms.property_id == property_id
                &&& self.apply_refusal(property_id, principal, term_months, rate_bps, terms) is None
                &&& self.apply_fits(property_id, principal, term_months, rate_bps, terms)
                &&& self.applied(
                    post,
                    env,
                    borrower,
                    property_id,
                    principal,
                    term_months,
                    rate_bps,
                )
            },
            Step::Approve { underwriter, mortgage_id, terms } => {
                &&& self.approve_refusal(underwriter, mortgage_id, terms) is None
                &&& terms.property_id == self.mortgages[mortgage_id].property_id
                &&& post == self.approved(underwriter, mortgage_id)
            },
            Step::Decline { underwriter, mortgage_id } => {
                &&& self.decide_refusal(underwriter, mortgage_id) is None
                &&& post == self.declined(underwriter, mortgage_id)
            },
            Step::Disburse { mortgage_id, stage, report, tranche } => {
                &&& self.disburse_refusal(mortgage_id, stage, report) is None
                &&& self.disburse_fits(mortgage_id, stage, report, env.timestamp)
                &&& report.property_id == self.mortgages[mortgage_id].property_id
                &&& report.stage == stage
                &&& self.disbursed(post, env, mortgage_id, stage, report, tranche)
            },
            Step::Repay { mortgage_id, amount } => {
                &&& self.repay_refusal(mortgage_id, amount, env.timestamp) is None
                &&& self.repay_fits(mortgage_id, amount, env.timestamp)
                &&& self.repaid(post, env, mortgage_id, amount)
            },
            Step::Default { mortgage_id } => {
                &&& self.default_refusal(mortgage_id, env.timestamp) is None
                &&& self.default_fits(mortgage_id, env.timestamp)
                &&& self.defaulted(post, env, mortgage_id)
            },
        }
    }

    /// A loan is filed under its own id, is in order, and holds its property while
    /// it is live.
    pub open spec fn is_recorded(self, id: u64) -> bool {
        self.mortgages.contains_key(id) ==> {
            let m = self.mortgages[id];
            &&& m.id == id
            &&& id < self.next_id
            &&& m.sound()
            &&& m.is_live() ==> self.property_mortgages.contains_key(m.property_id)
                && self.property_mortgages[m.property_id] == id
        }
    }

    /// What holds a property is a live loan against it.
    pub open spec fn is_held(self, property_id: u64) -> bool {
        self.property_mortgages.contains_key(property_id) ==> {
            let id = self.property_mortgages[property_id];
            &&& self.mortgages.contains_key(id)
            &&& self.mortgages[id].is_live()
            &&& self.mortgages[id].property_id == property_id
        }
    }

    /// The book as its operations keep it.
    pub open spec fn sound(self) -> bool {
        &&& forall|id: u64| #[trigger] self.is_recorded(id)
        &&& forall|property_id: u64| #[trigger] self.is_held(property_id)
    }
}

/// The book is sound as it is deployed.
pub proof fn law_deployed_sound(
    admin: Address,
    registry: Address,
    lending_pool: Address,
    grace_secs: u64,
    timelock_secs: u64,
)
    ensures
        (MortgagePoolModel {
            governance: Governance {
                admin: Some(admin),
                pending_admin: None,
                timelock_secs: Some(timelock_secs),
                scheduled: None,
            },
            registry: Some(registry),
            lending_pool: Some(lending_pool),
            grace_secs,
            next_id: 1,
            underwriters: Map::empty(),
            mortgages: Map::empty(),
            property_mortgages: Map::empty(),
            outbox: Seq::empty(),
        }).sound(),
{
}

/// Every operation leaves the book sound: each loan's balance is what was disbursed
/// less the principal repaid, its rate and term are within bounds, its status fits
/// its figures, and it holds its property exactly while it is live.
pub proof fn law_sound_kept(pre: MortgagePoolModel, post: MortgagePoolModel, env: Env, step: Step)
    requires
        pre.sound(),
        pre.takes(post, env, step),
    ensures
        post.sound(),
        post.next_id >= pre.next_id,
{
    match step {
        Step::Repay { mortgage_id, amount } => {
            let m = pre.mortgages[mortgage_id];
            assert(pre.is_recorded(mortgage_id));
            lemma_repaid_sound(pre, post, env, mortgage_id, amount);
        },
        Step::Disburse { mortgage_id, stage, .. } => {
            let m = pre.mortgages[mortgage_id];
            assert(pre.is_recorded(mortgage_id));
            law_interest_is_exact(m.balance(), m.rate_bps as int, env.timestamp as int);
        },
        Step::Default { mortgage_id } => {
            let m = pre.mortgages[mortgage_id];
            assert(pre.is_recorded(mortgage_id));
            law_interest_is_exact(m.balance(), m.rate_bps as int, env.timestamp as int);
        },
        Step::Approve { mortgage_id, .. } => {
            assert(pre.is_recorded(mortgage_id));
        },
        Step::Decline { mortgage_id, .. } => {
            assert(pre.is_recorded(mortgage_id));
        },
        _ => {},
    }
    assert forall|id: u64| #[trigger] post.is_recorded(id) by {
        assert(pre.is_recorded(id));
        match step {
            Step::Apply { property_id, .. } => {
                assert(pre.is_held(property_id));
            },
            Step::Approve { mortgage_id, .. } => {
                assert(pre.is_recorded(mortgage_id));
            },
            Step::Decline { mortgage_id, .. } => {
                assert(pre.is_recorded(mortgage_id));
            },
            Step::Disburse { mortgage_id, .. } => {
                assert(pre.is_recorded(mortgage_id));
            },
            Step::Repay { mortgage_id, .. } => {
                assert(pre.is_recorded(mortgage_id));
            },
            Step::Default { mortgage_id } => {
                assert(pre.is_recorded(mortgage_id));
            },
            _ => {},
        }
    }
    assert forall|property_id: u64| #[trigger] post.is_held(property_id) by {
        assert(pre.is_held(property_id));
        match step {
            Step::Apply { .. } => {
                assert(pre.is_recorded(pre.next_id));
            },
            Step::Approve { mortgage_id, .. } => {
                assert(pre.is_recorded(mortgage_id));
            },
            Step::Decline { mortgage_id, .. } => {
                assert(pre.is_recorded(mortgage_id));
            },
            Step::Disburse { mortgage_id, .. } => {
                assert(pre.is_recorded(mortgage_id));
            },
            Step::Repay { mortgage_id, .. } => {
                assert(pre.is_recorded(mortgage_id));
            },
            Step::Default { mortgage_id } => {
                assert(pre.is_recorded(mortgage_id));
            },
            _ => {},
        }
    }
}

proof fn lemma_repaid_sound(
    pre: MortgagePoolModel,
    post: MortgagePoolModel,
    env: Env,
    mortgage_id: u64,
    amount: i128,
)
    requires
        pre.sound(),
        pre.takes(post, env, Step::Repay { mortgage_id, amount }),
    ensures
        post.mortgages[mortgage_id].sound(),
        pre.mortgages[mortgage_id].id == mortgage_id,
        pre.clears(mortgage_id, amount, env.timestamp) <==> post.mortgages[mortgage_id].status
            == MortgageStatus::PaidOff,
{
    let m = pre.mortgages[mortgage_id];
    assert(pre.is_recorded(mortgage_id));
    let owed = m.balance_at(env.timestamp);
    law_interest_is_exact(m.balance(), m.rate_bps as int, env.timestamp as int);
    lemma_slice_nonnegative(m);
    law_interest_is_cleared_first(owed, amount as int);
    law_accepted_payments_amortise(owed, m.slice(), amount as int);
}

proof fn lemma_slice_nonnegative(loan: Mortgage)
    requires
        loan.principal >= 0,
        loan.term_months > 0,
    ensures
        loan.slice() >= 0,
{
    let p = loan.principal as int;
    let t = loan.term_months as int;
    assert(p / t >= 0) by (nonlinear_arith)
        requires
            p >= 0,
            t > 0,
    ;
}

/// A property backs at most one live loan.
pub proof fn law_one_live_loan_per_property(book: MortgagePoolModel, one: u64, other: u64)
    requires
        book.sound(),
        book.mortgages.contains_key(one),
        book.mortgages.contains_key(other),
        book.mortgages[one].is_live(),
        book.mortgages[other].is_live(),
        book.mortgages[one].property_id == book.mortgages[other].property_id,
    ensures
        one == other,
{
    assert(book.is_recorded(one));
    assert(book.is_recorded(other));
}

/// A property held by a live loan cannot be applied for; one whose loan was
/// declined, paid off or written off can.
pub proof fn law_a_property_is_freed_when_its_loan_closes(
    pre: MortgagePoolModel,
    post: MortgagePoolModel,
    env: Env,
    step: Step,
    mortgage_id: u64,
)
    requires
        pre.sound(),
        pre.takes(post, env, step),
        pre.mortgages.contains_key(mortgage_id),
        pre.mortgages[mortgage_id].is_live(),
    ensures
        post.property_mortgages.contains_key(pre.mortgages[mortgage_id].property_id)
            == (post.mortgages.contains_key(mortgage_id) && post.mortgages[mortgage_id].is_live()),
{
    law_sound_kept(pre, post, env, step);
    assert(pre.is_recorded(mortgage_id));
    assert(post.is_recorded(mortgage_id));
    assert(post.is_held(pre.mortgages[mortgage_id].property_id));
    match step {
        Step::Approve { mortgage_id: id, .. } => {
            assert(pre.is_recorded(id));
        },
        Step::Decline { mortgage_id: id, .. } => {
            assert(pre.is_recorded(id));
        },
        Step::Disburse { mortgage_id: id, .. } => {
            assert(pre.is_recorded(id));
        },
        Step::Repay { mortgage_id: id, .. } => {
            assert(pre.is_recorded(id));
        },
        Step::Default { mortgage_id: id } => {
            assert(pre.is_recorded(id));
        },
        _ => {},
    }
}

/// Nothing agreed ever changes, and a loan only moves along its path: applied,
/// approved, funded, repaying, and then paid off or written off for good. Only an
/// application can be struck out.
pub proof fn law_loans_keep_to_their_path(
    pre: MortgagePoolModel,
    post: MortgagePoolModel,
    env: Env,
    step: Step,
    id: u64,
)
    requires
        pre.sound(),
        pre.takes(post, env, step),
        pre.mortgages.contains_key(id),
    ensures
        post.mortgages.contains_key(id) ==> {
            let m = pre.mortgages[id];
            let n = post.mortgages[id];
            n == m || m.same_terms(n) && may_become(m.status, n.status)
        },
        !post.mortgages.contains_key(id) ==> pre.mortgages[id].status == MortgageStatus::Applied,
{
    assert(pre.is_recorded(id));
    match step {
        Step::Approve { mortgage_id, .. } => {
            assert(pre.is_recorded(mortgage_id));
        },
        Step::Disburse { mortgage_id, .. } => {
            assert(pre.is_recorded(mortgage_id));
        },
        Step::Repay { mortgage_id, .. } => {
            assert(pre.is_recorded(mortgage_id));
        },
        Step::Default { mortgage_id } => {
            assert(pre.is_recorded(mortgage_id));
        },
        Step::Apply { .. } => {
            assert(pre.is_recorded(pre.next_id));
        },
        _ => {},
    }
}

/// No loan is written above the ceilings: never more than 80% of the valuation, when
/// it is applied for and again when it is approved, and never at more than 30% a
/// year.
pub proof fn law_ceilings_hold(
    pre: MortgagePoolModel,
    post: MortgagePoolModel,
    env: Env,
    step: Step,
)
    requires
        pre.sound(),
        pre.takes(post, env, step),
    ensures
        step matches Step::Apply { principal, rate_bps, term_months, terms, .. } ==> {
            &&& terms.verified
            &&& 100 * principal <= 80 * terms.usdc_value
            &&& 100 * rate_bps <= 30 * 10_000
            &&& term_months > 0
        },
        step matches Step::Approve { mortgage_id, terms, .. } ==> {
            &&& terms.verified
            &&& 100 * pre.mortgages[mortgage_id].principal <= 80 * terms.usdc_value
            &&& 100 * pre.mortgages[mortgage_id].rate_bps <= 30 * 10_000
        },
{
    if let Step::Approve { mortgage_id, .. } = step {
        assert(pre.is_recorded(mortgage_id));
    }
}

/// A loan is written off only when an instalment has been due for longer than the
/// grace period, and one with nothing drawn never is, however long it waits.
pub proof fn law_default_only_past_grace(book: MortgagePoolModel, mortgage_id: u64, now: u64)
    requires
        book.sound(),
        book.mortgages.contains_key(mortgage_id),
    ensures
        book.default_refusal(mortgage_id, now) is None ==> {
            let m = book.mortgages[mortgage_id];
            &&& m.disbursed > 0
            &&& now > m.next_payment_due + book.grace_secs
        },
        book.mortgages[mortgage_id].disbursed == 0 ==> book.default_refusal(
            mortgage_id,
            now,
        ) is Some,
{
    assert(book.is_recorded(mortgage_id));
}

/// A payment that is accepted puts the next instalment a month later, and lowers
/// what is owed by exactly what was taken.
pub proof fn law_a_payment_lowers_the_debt(
    pre: MortgagePoolModel,
    post: MortgagePoolModel,
    env: Env,
    mortgage_id: u64,
    amount: i128,
)
    requires
        pre.sound(),
        pre.takes(post, env, Step::Repay { mortgage_id, amount }),
    ensures
        ({
            let m = pre.mortgages[mortgage_id];
            let n = post.mortgages[mortgage_id];
            let taken = n.total_repaid - m.total_repaid;
            &&& 0 < taken <= amount
            &&& n.balance().payoff() == m.balance_at(env.timestamp).payoff() - taken
            &&& n.balance_at(env.timestamp) == n.balance()
            &&& n.interest_accrued == 0
            &&& n.next_payment_due == m.next_payment_due + SECONDS_PER_MONTH
            &&& amount >= m.balance_at(env.timestamp).payoff() ==> n.status
                == MortgageStatus::PaidOff
        }),
{
    let m = pre.mortgages[mortgage_id];
    let n = post.mortgages[mortgage_id];
    assert(pre.is_recorded(mortgage_id));
    let owed = m.balance_at(env.timestamp);
    law_interest_is_exact(m.balance(), m.rate_bps as int, env.timestamp as int);
    lemma_slice_nonnegative(m);
    law_interest_is_cleared_first(owed, amount as int);
    law_accepted_payments_amortise(owed, m.slice(), amount as int);
    law_accrual_is_path_independent(
        m.balance(),
        m.rate_bps as int,
        env.timestamp as int,
        env.timestamp as int,
    );
}

// --- the schedule ---

/// The book's history: each state follows from the one before by a step.
pub open spec fn is_history(
    states: Seq<MortgagePoolModel>,
    envs: Seq<Env>,
    steps: Seq<Step>,
) -> bool {
    &&& states.len() == steps.len() + 1
    &&& envs.len() == steps.len()
    &&& forall|i: int|
        0 <= i < steps.len() ==> #[trigger] states[i].takes(states[i as int + 1], envs[i], steps[i])
}

/// Whether `step` is an accepted payment on a loan.
pub open spec fn pays(step: Step, id: u64) -> bool {
    step matches Step::Repay { mortgage_id, .. } && mortgage_id == id
}

/// Whether `step` draws on a loan.
pub open spec fn draws(step: Step, id: u64) -> bool {
    step matches Step::Disburse { mortgage_id, .. } && mortgage_id == id
}

/// How many of the first `n` steps of a history are accepted payments on a loan.
pub open spec fn payments(steps: Seq<Step>, id: u64, n: nat) -> nat
    decreases n,
{
    if n == 0 {
        0
    } else {
        payments(steps, id, (n - 1) as nat) + (if pays(steps[n - 1], id) {
            1nat
        } else {
            0nat
        })
    }
}

/// One step leaves a running or closed loan with a slice less where it is a payment,
/// and otherwise, but for a draw, with the principal it had. A loan has none left
/// exactly when it is paid off.
proof fn lemma_schedule_step(
    pre: MortgagePoolModel,
    post: MortgagePoolModel,
    env: Env,
    step: Step,
    id: u64,
)
    requires
        pre.sound(),
        pre.takes(post, env, step),
        pre.mortgages.contains_key(id),
        pre.mortgages[id].status != MortgageStatus::Applied,
        pre.mortgages[id].status != MortgageStatus::Approved,
        pre.mortgages[id].outstanding == 0 <==> pre.mortgages[id].status
            == MortgageStatus::PaidOff,
        !draws(step, id),
    ensures
        post.sound(),
        post.mortgages.contains_key(id),
        ({
            let m = pre.mortgages[id];
            let n = post.mortgages[id];
            &&& n.principal == m.principal && n.term_months == m.term_months
            &&& n.status != MortgageStatus::Applied && n.status != MortgageStatus::Approved
            &&& n.outstanding == 0 <==> n.status == MortgageStatus::PaidOff
            &&& !pays(step, id) ==> n.outstanding == m.outstanding
            &&& pays(step, id) ==> n.outstanding == 0 || n.outstanding <= m.outstanding - m.slice()
        }),
{
    law_sound_kept(pre, post, env, step);
    law_loans_keep_to_their_path(pre, post, env, step, id);
    assert(pre.is_recorded(id));
    assert(post.is_recorded(id));
    match step {
        Step::Repay { mortgage_id, amount } => {
            assert(pre.is_recorded(mortgage_id));
            if mortgage_id == id {
                let m = pre.mortgages[id];
                let owed = m.balance_at(env.timestamp);
                law_interest_is_exact(m.balance(), m.rate_bps as int, env.timestamp as int);
                lemma_slice_nonnegative(m);
                law_accepted_payments_amortise(owed, m.slice(), amount as int);
            }
        },
        Step::Disburse { mortgage_id, .. } => {
            assert(pre.is_recorded(mortgage_id));
        },
        Step::Approve { mortgage_id, .. } => {
            assert(pre.is_recorded(mortgage_id));
        },
        Step::Default { mortgage_id } => {
            assert(pre.is_recorded(mortgage_id));
        },
        Step::Apply { .. } => {
            assert(pre.is_recorded(pre.next_id));
        },
        _ => {},
    }
}

/// A loan amortises on schedule: however its payments are timed, and whatever else
/// happens, while nothing more is drawn every accepted payment takes a slice off what
/// is left of the principal, until nothing is. The loan is paid off exactly then, and
/// so at the latest with as many payments as there are slices in what it started with.
pub proof fn law_payments_amortise_on_schedule(
    states: Seq<MortgagePoolModel>,
    envs: Seq<Env>,
    steps: Seq<Step>,
    id: u64,
    n: nat,
)
    requires
        is_history(states, envs, steps),
        states[0].sound(),
        states[0].mortgages.contains_key(id),
        states[0].mortgages[id].is_running(),
        n <= steps.len(),
        forall|i: int| 0 <= i < n ==> !draws(#[trigger] steps[i], id),
    ensures
        states[n as int].sound(),
        states[n as int].mortgages.contains_key(id),
        ({
            let first = states[0].mortgages[id];
            let loan = states[n as int].mortgages[id];
            let paid = payments(steps, id, n) * first.slice();
            &&& loan.principal == first.principal && loan.term_months == first.term_months
            &&& loan.outstanding <= if paid < first.outstanding {
                first.outstanding - paid
            } else {
                0
            }
            &&& loan.outstanding == 0 <==> loan.status == MortgageStatus::PaidOff
            &&& paid >= first.outstanding ==> loan.status == MortgageStatus::PaidOff
            &&& loan.status != MortgageStatus::Applied && loan.status != MortgageStatus::Approved
        }),
    decreases n,
{
    let first = states[0].mortgages[id];
    let slice = first.slice();
    assert(states[0].is_recorded(id));
    lemma_slice_nonnegative(first);
    if n > 0 {
        let i = (n - 1) as nat;
        law_payments_amortise_on_schedule(states, envs, steps, id, i);
        assert(states[i as int].takes(states[i as int + 1], envs[i as int], steps[i as int]));
        lemma_schedule_step(
            states[i as int],
            states[n as int],
            envs[i as int],
            steps[i as int],
            id,
        );
        assert(states[n as int].is_recorded(id));
        let before = payments(steps, id, i) as int;
        assert((before + 1) * slice == before * slice + slice) by (nonlinear_arith);
        assert(before * slice >= 0) by (nonlinear_arith)
            requires
                before >= 0,
                slice >= 0,
        ;
    } else {
        assert(0 * slice == 0);
    }
}

/// A loan clears on schedule: once it has taken as many payments as its term has
/// months, with nothing more drawn, less than one unit for each month is left of it.
/// Where the term divides the facility nothing is left, and otherwise one more payment
/// clears it where a slice is at least a unit for each month.
pub proof fn law_loans_clear_on_schedule(
    states: Seq<MortgagePoolModel>,
    envs: Seq<Env>,
    steps: Seq<Step>,
    id: u64,
    n: nat,
)
    requires
        is_history(states, envs, steps),
        states[0].sound(),
        states[0].mortgages.contains_key(id),
        states[0].mortgages[id].is_running(),
        states[0].mortgages[id].outstanding <= states[0].mortgages[id].principal,
        n <= steps.len(),
        forall|i: int| 0 <= i < n ==> !draws(#[trigger] steps[i], id),
        payments(steps, id, n) >= states[0].mortgages[id].term_months,
    ensures
        ({
            let first = states[0].mortgages[id];
            let loan = states[n as int].mortgages[id];
            &&& loan.outstanding < first.term_months
            &&& first.principal as int % first.term_months as int == 0 ==> loan.status
                == MortgageStatus::PaidOff
            &&& payments(steps, id, n) > first.term_months && first.slice() >= first.term_months
                ==> loan.status == MortgageStatus::PaidOff
        }),
{
    let first = states[0].mortgages[id];
    let slice = first.slice();
    let term = first.term_months as int;
    let made = payments(steps, id, n) as int;
    assert(states[0].is_recorded(id));
    lemma_slice_nonnegative(first);
    law_payments_amortise_on_schedule(states, envs, steps, id, n);
    lemma_fundamental_div_mod(first.principal as int, term);
    assert(0 <= first.principal as int % term < term) by (nonlinear_arith)
        requires
            term > 0,
    ;
    assert(made * slice >= term * slice) by (nonlinear_arith)
        requires
            made >= term,
            slice >= 0,
    ;
    if made > term {
        assert(made * slice >= term * slice + slice) by (nonlinear_arith)
            requires
                made >= term + 1,
                slice >= 0,
        ;
    }
}

/// Administration alters no loan and moves no money: every administrative operation
/// leaves the loans as they were and gives the other contracts no instruction. It
/// never sets the grace period to nothing.
pub proof fn law_admin_alters_no_loan(
    book: MortgagePoolModel,
    admin: Address,
    underwriter: Address,
    authorized: bool,
    governance: Governance<Action>,
    now: u64,
)
    ensures
        book.administered(MortgagePoolModel { governance, ..book }),
        book.administered(
            MortgagePoolModel {
                underwriters: if authorized {
                    book.underwriters.insert(underwriter, true)
                } else {
                    book.underwriters.remove(underwriter)
                },
                outbox: book.outbox.push(
                    Effect::Publish(Event::Underwriter { underwriter, authorized }),
                ),
                ..book
            },
        ),
        book.execute_refusal(admin, now) is None ==> book.administered(book.executed()),
{
}

} // verus!
