//! What each call on the loans does, in the loan's own figures: months of thirty
//! days, rates in hundredths of a percent a year, five construction stages.

use crate::governance::GovernanceError;
use crate::host::{Address, Env};
use crate::mortgage_laws::{law_interest_is_exact, Step};
use crate::mortgage_pool::{
    admin_outcome, Action, Effect, Error, Event, LendingTerms, Mortgage, MortgagePoolModel,
    MortgageStatus, PoolCall, RegistryCall, RegistryQuery, StageReport,
};
use vstd::arithmetic::div_mod::lemma_fundamental_div_mod;
use vstd::prelude::*;

verus! {

/// Whole months of thirty days from one moment to a later one.
pub open spec fn months_between(from: int, to: int) -> int {
    if to > from {
        (to - from) / 2_592_000
    } else {
        0
    }
}

// --- interest ---

/// Interest is charged on what is outstanding, for each whole month since it was last
/// charged and for no part of one, at a twelfth of the yearly rate: in units of a
/// hundred-and-twenty-thousandth, what is added to the interest and what is carried
/// make up the charge exactly. A loan that was never drawn is not charged.
pub proof fn law_interest_is_charged_by_the_month(loan: Mortgage, now: u64)
    requires
        loan.sound(),
    ensures
        ({
            let owed = loan.balance_at(now);
            let months = if loan.last_accrued_at > 0 && loan.outstanding > 0 {
                months_between(loan.last_accrued_at as int, now as int)
            } else {
                0
            };
            &&& owed.outstanding == loan.outstanding
            &&& owed.accrued_at == loan.last_accrued_at + 2_592_000 * months
            &&& 0 <= owed.carry < 120_000
            &&& owed.interest >= loan.interest_accrued
            &&& 120_000 * (owed.interest - loan.interest_accrued) + owed.carry == loan.outstanding
                * loan.rate_bps * months + loan.interest_carry
        }),
{
    law_interest_is_exact(loan.balance(), loan.rate_bps as int, now as int);
}

/// A month is charged once it has passed whole: a loan is always charged to within a
/// month of the moment and never beyond it, and until a month after a charge nothing
/// more is charged.
pub proof fn law_a_month_is_charged_when_it_has_passed(loan: Mortgage, now: u64)
    requires
        loan.sound(),
        loan.last_accrued_at > 0,
        loan.outstanding > 0,
        now >= loan.last_accrued_at,
    ensures
        loan.balance_at(now).accrued_at <= now < loan.balance_at(now).accrued_at + 2_592_000,
        now < loan.last_accrued_at + 2_592_000 ==> loan.balance_at(now) == loan.balance(),
{
    law_interest_is_charged_by_the_month(loan, now);
}

// --- draws ---

/// A draw leaves the clock running. The first one starts it: interest runs, and the
/// first instalment falls due, from that moment. A later one charges the months that
/// have passed on what was outstanding until then and moves the clock on by those
/// months and no more, so the part of a month already run still counts; when the next
/// instalment falls due does not change. Either way what is outstanding grows by the
/// tranche, and nothing that was agreed changes.
pub proof fn law_a_draw_keeps_the_clock(
    pre: MortgagePoolModel,
    post: MortgagePoolModel,
    env: Env,
    mortgage_id: u64,
    stage: u32,
    report: StageReport,
    tranche: i128,
)
    requires
        pre.sound(),
        pre.takes(post, env, Step::Disburse { mortgage_id, stage, report, tranche }),
    ensures
        ({
            let m = pre.mortgages[mortgage_id];
            let n = post.mortgages[mortgage_id];
            let months = if m.last_accrued_at > 0 {
                months_between(m.last_accrued_at as int, env.timestamp as int)
            } else {
                0
            };
            &&& post.mortgages == pre.mortgages.insert(mortgage_id, n)
            &&& post.property_mortgages == pre.property_mortgages
            &&& post.next_id == pre.next_id
            &&& tranche > 0
            &&& n.outstanding == m.outstanding + tranche
            &&& n.disbursed == m.disbursed + tranche
            &&& n == (Mortgage {
                outstanding: n.outstanding,
                disbursed: n.disbursed,
                interest_accrued: n.interest_accrued,
                interest_carry: n.interest_carry,
                last_accrued_at: n.last_accrued_at,
                next_payment_due: n.next_payment_due,
                status: n.status,
                ..m
            })
            &&& m.disbursed == 0 ==> {
                &&& m.status == MortgageStatus::Approved
                &&& n.status == MortgageStatus::Funded
                &&& n.last_accrued_at == env.timestamp
                &&& n.next_payment_due == env.timestamp + 2_592_000
                &&& n.interest_accrued == 0
                &&& n.interest_carry == 0
            }
            &&& m.disbursed > 0 ==> {
                &&& m.status == MortgageStatus::Funded || m.status == MortgageStatus::Repaying
                &&& n.status == m.status
                &&& n.last_accrued_at == m.last_accrued_at + 2_592_000 * months
                &&& n.next_payment_due == m.next_payment_due
                &&& 0 <= n.interest_carry < 120_000
                &&& 120_000 * (n.interest_accrued - m.interest_accrued) + n.interest_carry
                    == m.outstanding * m.rate_bps * months + m.interest_carry
            }
        }),
{
    assert(pre.is_recorded(mortgage_id));
    let m = pre.mortgages[mortgage_id];
    law_interest_is_charged_by_the_month(m, env.timestamp);
}

/// No interest is lost to a draw: at any later moment the loan has been charged what
/// it would have been without the draw, and besides that for the tranche alone, from
/// the last whole month before it was drawn.
pub proof fn law_a_draw_loses_no_interest(
    pre: MortgagePoolModel,
    post: MortgagePoolModel,
    env: Env,
    mortgage_id: u64,
    stage: u32,
    report: StageReport,
    tranche: i128,
    then: u64,
)
    requires
        pre.sound(),
        pre.takes(post, env, Step::Disburse { mortgage_id, stage, report, tranche }),
        pre.mortgages[mortgage_id].disbursed > 0,
        0 < pre.mortgages[mortgage_id].last_accrued_at <= env.timestamp <= then,
    ensures
        ({
            let m = pre.mortgages[mortgage_id];
            let n = post.mortgages[mortgage_id];
            let without = m.balance_at(then);
            let with = n.balance_at(then);
            &&& with.interest >= without.interest
            &&& (120_000 * with.interest + with.carry) - (120_000 * without.interest
                + without.carry) == tranche * m.rate_bps * months_between(
                n.last_accrued_at as int,
                then as int,
            )
            &&& n.last_accrued_at <= env.timestamp < n.last_accrued_at + 2_592_000
        }),
{
    let m = pre.mortgages[mortgage_id];
    let n = post.mortgages[mortgage_id];
    assert(pre.is_recorded(mortgage_id));
    law_a_draw_keeps_the_clock(pre, post, env, mortgage_id, stage, report, tranche);
    crate::mortgage_laws::law_sound_kept(
        pre,
        post,
        env,
        Step::Disburse { mortgage_id, stage, report, tranche },
    );
    assert(post.is_recorded(mortgage_id));
    law_interest_is_charged_by_the_month(m, then);
    law_interest_is_charged_by_the_month(n, then);
    let first = months_between(m.last_accrued_at as int, env.timestamp as int);
    let rest = months_between(n.last_accrued_at as int, then as int);
    assert(months_between(m.last_accrued_at as int, then as int) == first + rest);
    let rate = m.rate_bps as int;
    let o = m.outstanding as int;
    let t = tranche as int;
    assert((o + t) * rate * rest + o * rate * first == o * rate * (first + rest) + t * rate * rest)
        by (nonlinear_arith);
    assert(t * rate * rest >= 0) by (nonlinear_arith)
        requires
            t >= 0,
            rate >= 0,
            rest >= 0,
    ;
}

/// Each of the first four stages releases a fifth of the facility, rounded down, and
/// the fifth stage releases the rest.
pub proof fn law_a_stage_releases_a_fifth(loan: Mortgage, stage: u32)
    requires
        loan.principal >= 0,
    ensures
        stage != 4 ==> 5 * loan.tranche(stage) <= loan.principal < 5 * loan.tranche(stage) + 5,
        4 * loan.tranche(0) + loan.tranche(4) == loan.principal,
        0 <= loan.tranche(stage) <= loan.principal,
{
}

/// A tranche is paid on a loan that was approved and is not closed, for a stage that
/// the register reports ready, whoever asks, and never otherwise: only a facility too
/// small to be divided in five has nothing to pay before the last stage.
pub proof fn law_a_ready_stage_is_paid(
    book: MortgagePoolModel,
    mortgage_id: u64,
    stage: u32,
    report: StageReport,
)
    requires
        book.sound(),
    ensures
        ({
            let m = book.mortgages[mortgage_id];
            let known = book.mortgages.contains_key(mortgage_id);
            let open = m.status == MortgageStatus::Approved || m.status == MortgageStatus::Funded
                || m.status == MortgageStatus::Repaying;
            match book.disburse_refusal(mortgage_id, stage, report) {
                None => known && open && report.releasable && (stage == 4 || m.principal >= 5)
                    && book.registry is Some && book.lending_pool is Some,
                Some(Error::UnknownMortgage) => !known,
                Some(Error::WrongStatus) => known && !open,
                Some(Error::StageNotReleasable) => known && open && book.registry is Some
                    && !report.releasable,
                Some(Error::NothingToDisburse) => known && open && report.releasable && stage != 4
                    && m.principal < 5,
                Some(Error::NotInitialized) => known && open && (book.registry is None || (
                book.lending_pool is None && report.releasable)),
                Some(_) => false,
            }
        }),
        match book.before_disburse_refusal(mortgage_id) {
            None => book.mortgages.contains_key(mortgage_id) && book.registry is Some
                && book.disburse_refusal(mortgage_id, stage, report) != Some(Error::WrongStatus),
            Some(refusal) => book.disburse_refusal(mortgage_id, stage, report) == Some(refusal),
        },
        book.registry is Some && book.mortgages.contains_key(mortgage_id) ==> book.query(
            book.mortgages[mortgage_id].property_id,
        ) == (RegistryQuery {
            registry: book.registry->0,
            property_id: book.mortgages[mortgage_id].property_id,
        }),
{
    assert(book.is_recorded(mortgage_id));
    let m = book.mortgages[mortgage_id];
    if book.mortgages.contains_key(mortgage_id) {
        law_a_stage_releases_a_fifth(m, stage);
    }
}

/// A draw asks for exactly this, in this order: the register marks the stage released,
/// the lending pool pays the tranche to the trustee that the register named, and with
/// the first tranche the register marks the property mortgaged. A tranche is a fifth of
/// the facility, or at the last stage what four fifths leave.
pub proof fn law_a_draw_pays_the_trustee(
    pre: MortgagePoolModel,
    post: MortgagePoolModel,
    env: Env,
    mortgage_id: u64,
    stage: u32,
    report: StageReport,
    tranche: i128,
)
    requires
        pre.sound(),
        pre.takes(post, env, Step::Disburse { mortgage_id, stage, report, tranche }),
    ensures
        ({
            let m = pre.mortgages[mortgage_id];
            let registry = pre.registry->0;
            let pool = pre.lending_pool->0;
            let property_id = m.property_id;
            let released = Effect::CallRegistry {
                registry,
                notice: RegistryCall::MarkReleased { property_id, stage },
            };
            let paid = Effect::CallPool {
                pool,
                call: PoolCall::Disburse { to: report.trustee, amount: tranche },
            };
            let mortgaged = Effect::CallRegistry {
                registry,
                notice: RegistryCall::MarkMortgaged { property_id },
            };
            let told = Effect::Publish(
                Event::Disbursed { id: mortgage_id, stage, tranche, trustee: report.trustee },
            );
            &&& m.disbursed == 0 ==> post.outbox =~= pre.outbox + seq![
                released,
                paid,
                mortgaged,
                told,
            ]
            &&& m.disbursed > 0 ==> post.outbox =~= pre.outbox + seq![released, paid, told]
            &&& stage != 4 ==> 5 * tranche <= m.principal < 5 * tranche + 5
            &&& stage == 4 ==> {
                let share = (m.principal - tranche) / 4;
                4 * share == m.principal - tranche && 5 * share <= m.principal < 5 * share + 5
            }
        }),
{
    assert(pre.is_recorded(mortgage_id));
    let m = pre.mortgages[mortgage_id];
    law_a_stage_releases_a_fifth(m, stage);
    law_a_stage_releases_a_fifth(m, 0);
}

// --- instalments ---

/// The instalment is the interest owed and one month's part of the facility, rounded
/// down, or all that is outstanding where that is less: the term times the part is no
/// more than the facility, and one unit more a month would be. The payoff is
/// everything owed, and no instalment asks for more.
pub proof fn law_an_instalment_is_interest_and_a_part(loan: Mortgage, now: u64)
    requires
        loan.sound(),
    ensures
        ({
            let owed = loan.balance_at(now);
            let part = loan.due_at(now) - owed.interest;
            &&& owed.payoff() == owed.outstanding + owed.interest
            &&& 0 <= part <= owed.outstanding
            &&& loan.term_months * part <= loan.principal
            &&& part < owed.outstanding ==> loan.principal < loan.term_months * (part + 1)
            &&& loan.demand_at(now) == loan.due_at(now)
        }),
{
    law_interest_is_charged_by_the_month(loan, now);
    let p = loan.principal as int;
    let t = loan.term_months as int;
    lemma_fundamental_div_mod(p, t);
    let s = loan.slice();
    assert(s == p / t);
    assert(t * s <= p < t * (s + 1)) by (nonlinear_arith)
        requires
            p == t * s + p % t,
            0 <= p % t < t,
    ;
    assert(s >= 0) by (nonlinear_arith)
        requires
            p >= 0,
            t > 0,
            p < t * (s + 1),
    ;
    let part = loan.due_at(now) - loan.balance_at(now).interest;
    assert(t * part <= t * s) by (nonlinear_arith)
        requires
            t > 0,
            part <= s,
    ;
}

/// A payment is taken on a running loan where it is at least what is asked for, and
/// whatever it is where it clears the loan. What is asked for is the smallest payment
/// that is taken. Short of that the payment is refused as too small; no other reason
/// holds back a payment from a loan whose pool, and for a last payment whose register,
/// is known.
pub proof fn law_a_sufficient_payment_is_taken(
    book: MortgagePoolModel,
    mortgage_id: u64,
    amount: i128,
    now: u64,
)
    requires
        book.sound(),
    ensures
        ({
            let m = book.mortgages[mortgage_id];
            let owed = m.balance_at(now);
            let known = book.mortgages.contains_key(mortgage_id);
            let running = m.status == MortgageStatus::Funded || m.status
                == MortgageStatus::Repaying;
            let clearing = amount >= owed.outstanding + owed.interest;
            let enough = clearing || m.principal < m.term_months * (amount - owed.interest + 1);
            match book.repay_refusal(mortgage_id, amount, now) {
                None => amount > 0 && known && running && enough && amount >= owed.interest
                    && book.lending_pool is Some && (clearing ==> book.registry is Some),
                Some(Error::InvalidAmount) => amount <= 0,
                Some(Error::UnknownMortgage) => amount > 0 && !known,
                Some(Error::WrongStatus) => amount > 0 && known && !running,
                Some(Error::Underpaid) => amount > 0 && known && running && !enough,
                Some(Error::NotInitialized) => amount > 0 && known && running && enough && (
                book.lending_pool is None || (clearing && book.registry is None)),
                Some(_) => false,
            }
        }),
        match book.payer_refusal(mortgage_id, amount) {
            None => amount > 0 && book.mortgages.contains_key(mortgage_id),
            Some(refusal) => book.repay_refusal(mortgage_id, amount, now) == Some(refusal),
        },
        match book.payer(mortgage_id, amount) {
            Ok(payer) => amount > 0 && book.mortgages.contains_key(mortgage_id) && payer
                == book.mortgages[mortgage_id].borrower,
            Err(refusal) => book.payer_refusal(mortgage_id, amount) == Some(refusal),
        },
        ({
            let m = book.mortgages[mortgage_id];
            book.mortgages.contains_key(mortgage_id) && m.is_running() && amount > 0 ==> (amount
                < m.demand_at(now) <==> book.repay_refusal(mortgage_id, amount, now) == Some(
                Error::Underpaid,
            ))
        }),
{
    assert(book.is_recorded(mortgage_id));
    if book.mortgages.contains_key(mortgage_id) {
        let m = book.mortgages[mortgage_id];
        let owed = m.balance_at(now);
        law_interest_is_charged_by_the_month(m, now);
        law_an_instalment_is_interest_and_a_part(m, now);
        let t = m.term_months as int;
        let p = m.principal as int;
        let part = m.due_at(now) - owed.interest;
        let over = amount - owed.interest;
        if over >= part {
            assert(t * (part + 1) <= t * (over + 1)) by (nonlinear_arith)
                requires
                    t > 0,
                    over >= part,
            ;
        } else {
            assert(t * (over + 1) <= t * part) by (nonlinear_arith)
                requires
                    t > 0,
                    over + 1 <= part,
            ;
        }
    }
}

/// A payment clears all the interest owed and then pays principal, with nothing taken
/// beyond what is owed. It moves the due date on by a month and counts as one payment.
/// The loan is paid off exactly when everything owed was handed over, and its property
/// is then free; otherwise it goes on being repaid.
pub proof fn law_a_payment_is_applied(
    pre: MortgagePoolModel,
    post: MortgagePoolModel,
    env: Env,
    mortgage_id: u64,
    amount: i128,
)
    requires
        pre.sound(),
        pre.takes(post, env, Step::Repay { mortgage_id, amount }),
    ensures
        ({
            let m = pre.mortgages[mortgage_id];
            let n = post.mortgages[mortgage_id];
            let owed = m.balance_at(env.timestamp);
            let clearing = amount >= owed.outstanding + owed.interest;
            let taken = if clearing {
                owed.outstanding + owed.interest
            } else {
                amount as int
            };
            &&& post.mortgages == pre.mortgages.insert(mortgage_id, n)
            &&& n.outstanding == owed.outstanding + owed.interest - taken
            &&& n.interest_accrued == 0
            &&& n.interest_carry == owed.carry
            &&& n.last_accrued_at == owed.accrued_at
            &&& n.total_repaid == m.total_repaid + taken
            &&& n.interest_paid == m.interest_paid + owed.interest
            &&& n.payments_made == m.payments_made + 1
            &&& n.next_payment_due == m.next_payment_due + 2_592_000
            &&& n.status == if clearing {
                MortgageStatus::PaidOff
            } else {
                MortgageStatus::Repaying
            }
            &&& n == (Mortgage {
                outstanding: n.outstanding,
                interest_accrued: n.interest_accrued,
                interest_carry: n.interest_carry,
                last_accrued_at: n.last_accrued_at,
                total_repaid: n.total_repaid,
                interest_paid: n.interest_paid,
                payments_made: n.payments_made,
                next_payment_due: n.next_payment_due,
                status: n.status,
                ..m
            })
            &&& clearing ==> post.property_mortgages == pre.property_mortgages.remove(m.property_id)
            &&& !clearing ==> post.property_mortgages == pre.property_mortgages
            &&& post.next_id == pre.next_id
            &&& post.underwriters == pre.underwriters
            &&& post.grace_secs == pre.grace_secs
        }),
{
    assert(pre.is_recorded(mortgage_id));
    let m = pre.mortgages[mortgage_id];
    law_interest_is_charged_by_the_month(m, env.timestamp);
    law_a_sufficient_payment_is_taken(pre, mortgage_id, amount, env.timestamp);
}

/// A payment is banked as it was applied: the lending pool is told to take the
/// principal and the interest from the borrower. With the last one it is also told to
/// free the part of the facility that was never drawn, if there is one, and then the
/// register that the property is clear.
pub proof fn law_a_payment_is_banked(
    pre: MortgagePoolModel,
    post: MortgagePoolModel,
    env: Env,
    mortgage_id: u64,
    amount: i128,
    principal: i128,
    interest: i128,
    taken: i128,
    undrawn: i128,
)
    requires
        pre.sound(),
        pre.takes(post, env, Step::Repay { mortgage_id, amount }),
        ({
            let m = pre.mortgages[mortgage_id];
            let n = post.mortgages[mortgage_id];
            &&& principal == m.outstanding - n.outstanding
            &&& interest == n.interest_paid - m.interest_paid
            &&& taken == n.total_repaid - m.total_repaid
            &&& undrawn == m.principal - m.disbursed
        }),
    ensures
        principal + interest == taken,
        ({
            let m = pre.mortgages[mortgage_id];
            let n = post.mortgages[mortgage_id];
            let pool = pre.lending_pool->0;
            let banked = Effect::CallPool {
                pool,
                call: PoolCall::Repay { from: m.borrower, principal, interest },
            };
            let freed = Effect::CallPool { pool, call: PoolCall::Unreserve { amount: undrawn } };
            let cleared = Effect::CallRegistry {
                registry: pre.registry->0,
                notice: RegistryCall::MarkRepaid { property_id: m.property_id },
            };
            let told = Effect::Publish(
                Event::Repaid { id: mortgage_id, amount: taken, principal, interest },
            );
            &&& n.status == MortgageStatus::Repaying ==> post.outbox =~= pre.outbox + seq![
                banked,
                told,
            ]
            &&& n.status == MortgageStatus::PaidOff && undrawn <= 0 ==> post.outbox =~= pre.outbox
                + seq![banked, cleared, told]
            &&& n.status == MortgageStatus::PaidOff && undrawn > 0 ==> post.outbox =~= pre.outbox
                + seq![banked, freed, cleared, told]
        }),
{
    assert(pre.is_recorded(mortgage_id));
    let m = pre.mortgages[mortgage_id];
    law_interest_is_charged_by_the_month(m, env.timestamp);
    law_a_payment_is_applied(pre, post, env, mortgage_id, amount);
}

// --- arrears ---

/// Arrears can always be written off: a running loan whose instalment has been due for
/// longer than the grace period is written off whenever anybody asks, however much was
/// paid before, and a loan that is not so far behind never is.
pub proof fn law_arrears_can_be_written_off(
    book: MortgagePoolModel,
    mortgage_id: u64,
    now: u64,
)
    requires
        book.sound(),
    ensures
        ({
            let m = book.mortgages[mortgage_id];
            let known = book.mortgages.contains_key(mortgage_id);
            let running = m.status == MortgageStatus::Funded || m.status
                == MortgageStatus::Repaying;
            let late = now > m.next_payment_due + book.grace_secs;
            &&& match book.default_refusal(mortgage_id, now) {
                None => known && running && late && book.lending_pool is Some && book.registry
                    is Some,
                Some(Error::UnknownMortgage) => !known,
                Some(Error::WrongStatus) => known && !running,
                Some(Error::NotInArrears) => known && running && !late,
                Some(Error::NotInitialized) => known && running && late && (book.lending_pool
                    is None || book.registry is None),
                Some(_) => false,
            }
            &&& known ==> (book.defaultable(mortgage_id, now) <==> running && late)
        }),
{
    assert(book.is_recorded(mortgage_id));
}

/// A loan that is written off is charged up to that moment and closed with what it
/// owes left standing: the lending pool frees what was never drawn and writes off what
/// was drawn and not repaid, the register marks the property, and the property is no
/// longer held.
pub proof fn law_a_default_writes_off_what_is_outstanding(
    pre: MortgagePoolModel,
    post: MortgagePoolModel,
    env: Env,
    mortgage_id: u64,
    undrawn: i128,
)
    requires
        pre.sound(),
        pre.takes(post, env, Step::Default { mortgage_id }),
        undrawn == pre.mortgages[mortgage_id].principal - pre.mortgages[mortgage_id].disbursed,
    ensures
        ({
            let m = pre.mortgages[mortgage_id];
            let n = post.mortgages[mortgage_id];
            let owed = m.balance_at(env.timestamp);
            let pool = pre.lending_pool->0;
            let freed = Effect::CallPool { pool, call: PoolCall::Unreserve { amount: undrawn } };
            let lost = Effect::CallPool {
                pool,
                call: PoolCall::WriteOff { principal: m.outstanding },
            };
            let marked = Effect::CallRegistry {
                registry: pre.registry->0,
                notice: RegistryCall::MarkDefaulted { property_id: m.property_id },
            };
            let told = Effect::Publish(
                Event::Default { id: mortgage_id, outstanding: m.outstanding, undrawn },
            );
            &&& post.mortgages == pre.mortgages.insert(mortgage_id, n)
            &&& post.property_mortgages == pre.property_mortgages.remove(m.property_id)
            &&& post.next_id == pre.next_id
            &&& n.status == MortgageStatus::Defaulted
            &&& n.interest_accrued == owed.interest
            &&& n.interest_carry == owed.carry
            &&& n.last_accrued_at == owed.accrued_at
            &&& n == (Mortgage {
                status: n.status,
                interest_accrued: n.interest_accrued,
                interest_carry: n.interest_carry,
                last_accrued_at: n.last_accrued_at,
                ..m
            })
            &&& undrawn > 0 ==> post.outbox =~= pre.outbox + seq![freed, lost, marked, told]
            &&& undrawn <= 0 ==> post.outbox =~= pre.outbox + seq![lost, marked, told]
        }),
{
    assert(pre.is_recorded(mortgage_id));
}

// --- applications ---

/// An application is taken for a positive sum over at least one month at no more than
/// thirty percent a year, on a property that holds no live loan, that the register
/// reports verified, and whose valuation is at least five fourths of the sum, and on
/// those terms it is always taken, whoever applies.
pub proof fn law_a_covered_application_is_taken(
    book: MortgagePoolModel,
    property_id: u64,
    principal: i128,
    term_months: u32,
    rate_bps: u32,
    terms: LendingTerms,
)
    ensures
        ({
            let free = !book.property_mortgages.contains_key(property_id);
            let sane = principal > 0 && term_months > 0 && rate_bps <= 3_000;
            let covered = 5 * principal <= 4 * terms.usdc_value;
            match book.apply_refusal(property_id, principal, term_months, rate_bps, terms) {
                None => sane && free && terms.verified && covered && book.registry is Some,
                Some(Error::InvalidAmount) => principal <= 0,
                Some(Error::InvalidTerm) => principal > 0 && term_months == 0,
                Some(Error::InvalidRate) => principal > 0 && term_months > 0 && rate_bps > 3_000,
                Some(Error::PropertyHasMortgage) => sane && !free,
                Some(Error::NotInitialized) => sane && free && book.registry is None,
                Some(Error::PropertyNotVerified) => sane && free && book.registry is Some
                    && !terms.verified,
                Some(Error::ExceedsLtv) => sane && free && book.registry is Some && terms.verified
                    && !covered,
                Some(_) => false,
            }
        }),
        match book.screen_refusal(property_id, principal, term_months, rate_bps) {
            None => book.registry is Some && book.query(property_id) == (RegistryQuery {
                registry: book.registry->0,
                property_id,
            }) && match book.apply_refusal(property_id, principal, term_months, rate_bps, terms) {
                None => true,
                Some(refusal) => refusal == Error::PropertyNotVerified || refusal
                    == Error::ExceedsLtv,
            },
            Some(refusal) => book.apply_refusal(
                property_id,
                principal,
                term_months,
                rate_bps,
                terms,
            ) == Some(refusal),
        },
{
}

/// A new application is filed under the next id, which no loan has, with the terms
/// asked for and nothing drawn, owed or paid, and holds its property from then on.
/// Nobody is told to move any money.
pub proof fn law_an_application_is_filed(
    pre: MortgagePoolModel,
    post: MortgagePoolModel,
    env: Env,
    borrower: Address,
    property_id: u64,
    principal: i128,
    term_months: u32,
    rate_bps: u32,
    terms: LendingTerms,
)
    requires
        pre.sound(),
        pre.takes(
            post,
            env,
            Step::Apply { borrower, property_id, principal, term_months, rate_bps, terms },
        ),
    ensures
        ({
            let id = pre.next_id;
            let n = post.mortgages[id];
            &&& !pre.mortgages.contains_key(id)
            &&& post.next_id == id + 1
            &&& post.mortgages == pre.mortgages.insert(id, n)
            &&& post.property_mortgages == pre.property_mortgages.insert(property_id, id)
            &&& n.id == id && n.property_id == property_id && n.borrower == borrower
            &&& n.principal == principal && n.term_months == term_months && n.rate_bps == rate_bps
            &&& n.status == MortgageStatus::Applied
            &&& n.disbursed == 0 && n.outstanding == 0 && n.interest_accrued == 0
                && n.interest_carry == 0
            &&& n.total_repaid == 0 && n.interest_paid == 0 && n.payments_made == 0
            &&& n.last_accrued_at == 0 && n.next_payment_due == 0 && n.created_at == env.timestamp
            &&& post.outbox =~= pre.outbox + seq![
                Effect::Publish(Event::Applied { id, property_id, borrower, principal }),
            ]
            &&& post.underwriters == pre.underwriters && post.grace_secs == pre.grace_secs
        }),
{
    assert(pre.is_recorded(pre.next_id));
}

/// An underwriter decides on an application once. Approving it needs the property to
/// be verified still, and still worth five fourths of the sum; with that it is always
/// approved, and declining needs nothing of the property. Nobody else decides.
pub proof fn law_an_underwriter_decides(
    book: MortgagePoolModel,
    underwriter: Address,
    mortgage_id: u64,
    terms: LendingTerms,
)
    ensures
        ({
            let m = book.mortgages[mortgage_id];
            let known = book.mortgages.contains_key(mortgage_id);
            let trusted = book.underwriters.contains_key(underwriter)
                && book.underwriters[underwriter];
            let open = m.status == MortgageStatus::Applied;
            let covered = 5 * m.principal <= 4 * terms.usdc_value;
            &&& match book.decide_refusal(underwriter, mortgage_id) {
                None => trusted && known && open,
                Some(Error::NotAuthorized) => !trusted,
                Some(Error::UnknownMortgage) => trusted && !known,
                Some(Error::WrongStatus) => trusted && known && !open,
                Some(_) => false,
            }
            &&& match book.approve_refusal(underwriter, mortgage_id, terms) {
                None => trusted && known && open && terms.verified && covered && book.registry
                    is Some && book.lending_pool is Some,
                Some(Error::PropertyNotVerified) => trusted && known && open && book.registry
                    is Some && !terms.verified,
                Some(Error::ExceedsLtv) => trusted && known && open && book.registry is Some
                    && terms.verified && !covered,
                Some(Error::NotInitialized) => trusted && known && open && (book.registry is None
                    || (book.lending_pool is None && terms.verified && covered)),
                refusal => book.decide_refusal(underwriter, mortgage_id) == refusal,
            }
            &&& match book.before_approve_refusal(underwriter, mortgage_id) {
                None => trusted && known && open && book.registry is Some,
                Some(refusal) => book.approve_refusal(underwriter, mortgage_id, terms) == Some(
                    refusal,
                ),
            }
        }),
{
}

/// An approval commits exactly the facility in the lending pool and changes nothing of
/// the loan but its status. A refusal by the underwriter takes the application off the
/// book and frees its property.
pub proof fn law_a_decision_commits_or_frees(
    pre: MortgagePoolModel,
    underwriter: Address,
    mortgage_id: u64,
)
    requires
        pre.sound(),
        pre.mortgages.contains_key(mortgage_id),
    ensures
        ({
            let m = pre.mortgages[mortgage_id];
            let post = pre.approved(underwriter, mortgage_id);
            &&& post.mortgages == pre.mortgages.insert(
                mortgage_id,
                Mortgage { status: MortgageStatus::Approved, ..m },
            )
            &&& post.outbox =~= pre.outbox + seq![
                Effect::CallPool {
                    pool: pre.lending_pool->0,
                    call: PoolCall::Reserve { amount: m.principal },
                },
                Effect::Publish(
                    Event::Approved { id: mortgage_id, underwriter, principal: m.principal },
                ),
            ]
            &&& post == (MortgagePoolModel {
                mortgages: post.mortgages,
                outbox: post.outbox,
                ..pre
            })
        }),
        ({
            let post = pre.declined(underwriter, mortgage_id);
            &&& post.mortgages == pre.mortgages.remove(mortgage_id)
            &&& post.property_mortgages == pre.property_mortgages.remove(
                pre.mortgages[mortgage_id].property_id,
            )
            &&& post.outbox =~= pre.outbox + seq![
                Effect::Publish(Event::Declined { id: mortgage_id, underwriter }),
            ]
            &&& post == (MortgagePoolModel {
                mortgages: post.mortgages,
                property_mortgages: post.property_mortgages,
                outbox: post.outbox,
                ..pre
            })
        }),
{
    assert(pre.is_recorded(mortgage_id));
}

// --- administration ---

/// Appointing a party lets it decide, and dismissing it takes that back, whatever it
/// was before; nobody else is affected.
pub proof fn law_an_appointment_decides_who_underwrites(
    book: MortgagePoolModel,
    underwriter: Address,
    authorized: bool,
    other: Address,
)
    ensures
        book.appointed(underwriter, authorized).underwrites(underwriter) == authorized,
        other != underwriter ==> book.appointed(underwriter, authorized).underwrites(other)
            == book.underwrites(other),
        book.underwrites(other) <==> book.underwriters.contains_key(other)
            && book.underwriters[other],
        ({
            let post = book.appointed(underwriter, authorized);
            &&& post.outbox =~= book.outbox + seq![
                Effect::Publish(Event::Underwriter { underwriter, authorized }),
            ]
            &&& post == (MortgagePoolModel {
                underwriters: post.underwriters,
                outbox: post.outbox,
                ..book
            })
        }),
{
}

/// The admin may schedule any change but a grace period of nothing, while nothing else
/// is scheduled, and carry it out from its time on. Carrying it out does what was
/// scheduled, once, and nothing else. The grace period is in force at once.
pub proof fn law_a_scheduled_change_is_carried_out(
    book: MortgagePoolModel,
    admin: Address,
    action: Action,
    now: u64,
)
    ensures
        book.governance.eta_fits(now) ==> book.schedule_fits(admin, action, now),
        ({
            let g = book.governance;
            let idle = g.admin == Some(admin) && g.scheduled is None;
            let empty = action == Action::SetGraceSecs(0);
            match book.schedule_refusal(admin, action) {
                None => idle && g.timelock_secs is Some && !empty,
                Some(Error::NotAuthorized) => g.admin is Some && g.admin != Some(admin),
                Some(Error::ActionPending) => g.admin == Some(admin) && g.scheduled is Some,
                Some(Error::InvalidGrace) => idle && empty,
                Some(Error::NotInitialized) => g.admin is None || (idle && g.timelock_secs is None
                    && !empty),
                Some(_) => false,
            }
        }),
        ({
            let g = book.governance;
            let empty = g.scheduled->0.action == Action::SetGraceSecs(0);
            match book.execute_refusal(admin, now) {
                None => g.admin == Some(admin) && g.scheduled is Some && g.scheduled->0.eta <= now
                    && !empty,
                Some(Error::NotInitialized) => g.admin is None,
                Some(Error::NotAuthorized) => g.admin is Some && g.admin != Some(admin),
                Some(Error::NoPendingAction) => g.admin == Some(admin) && g.scheduled is None,
                Some(Error::TimelockNotExpired) => g.admin == Some(admin) && g.scheduled is Some
                    && g.scheduled->0.eta > now,
                Some(Error::InvalidGrace) => g.admin == Some(admin) && g.scheduled is Some
                    && g.scheduled->0.eta <= now && empty,
                Some(_) => false,
            }
        }),
        ({
            let post = book.executed();
            &&& post.governance.scheduled is None
            &&& post.governance.admin == book.governance.admin
            &&& post.governance.pending_admin == book.governance.pending_admin
            &&& post.governance.timelock_secs == book.governance.timelock_secs
            &&& match book.governance.scheduled->0.action {
                Action::Upgrade(wasm_hash) => post.grace_secs == book.grace_secs && post.outbox
                    =~= book.outbox + seq![Effect::Upgrade(wasm_hash)],
                Action::SetGraceSecs(secs) => post.grace_secs == secs && post.outbox
                    == book.outbox,
            }
            &&& post == (MortgagePoolModel {
                governance: post.governance,
                grace_secs: post.grace_secs,
                outbox: post.outbox,
                ..book
            })
        }),
{
}

// --- ranges ---

/// Loans of up to a million million million, on properties of up to as much, are never
/// out of range, as long as the dates they lead to are times.
pub proof fn law_ordinary_loans_are_in_range(
    book: MortgagePoolModel,
    underwriter: Address,
    mortgage_id: u64,
    amount: i128,
    stage: u32,
    report: StageReport,
    terms: LendingTerms,
    now: u64,
)
    requires
        book.sound(),
        ({
            let most = 1_000_000_000_000_000_000int;
            let m = book.mortgages[mortgage_id];
            &&& m.principal <= most && m.disbursed <= most
            &&& m.interest_accrued <= most
            &&& 0 <= m.total_repaid <= most && 0 <= m.interest_paid <= most
            &&& 0 <= terms.usdc_value <= most && amount <= most
            &&& m.payments_made < u32::MAX
            &&& now + 2_592_000 <= u64::MAX
            &&& m.next_payment_due + 2_592_000 <= u64::MAX
            &&& m.next_payment_due + book.grace_secs <= u64::MAX
            &&& book.next_id < u64::MAX
        }),
    ensures
        book.repay_fits(mortgage_id, amount, now),
        book.disburse_fits(mortgage_id, stage, report, now),
        book.default_fits(mortgage_id, now),
        book.approve_fits(underwriter, mortgage_id, terms),
        forall|property_id: u64, term_months: u32, rate_bps: u32| #[trigger]
            book.apply_fits(property_id, amount, term_months, rate_bps, terms),
{
    let most = 1_000_000_000_000_000_000int;
    let m = book.mortgages[mortgage_id];
    assert(book.is_recorded(mortgage_id));
    if book.mortgages.contains_key(mortgage_id) {
        law_interest_is_charged_by_the_month(m, now);
        law_an_instalment_is_interest_and_a_part(m, now);
        law_a_stage_releases_a_fifth(m, stage);
        let owed = m.balance_at(now);
        let months = m.balance().months(now as int);
        let rate = m.rate_bps as int;
        let out = m.outstanding as int;
        assert(0 <= months <= 8_000_000_000_000);
        assert(0 <= out * rate <= most * 3_000) by (nonlinear_arith)
            requires
                0 <= out <= most,
                0 <= rate <= 3_000,
        ;
        let yearly = out * rate;
        assert(0 <= yearly * months <= most * 3_000 * 8_000_000_000_000) by (nonlinear_arith)
            requires
                0 <= yearly <= most * 3_000,
                0 <= months <= 8_000_000_000_000,
        ;
        assert(yearly * 0 == 0);
    }
}

// --- deployment ---

/// The mortgage pool starts out with what it was configured with and nothing else:
/// nothing on record, nothing scheduled and nothing asked of anybody.
pub proof fn law_deployed_as_configured(
    admin: Address,
    registry: Address,
    lending_pool: Address,
    grace_secs: u64,
    timelock_secs: u64,
)
    ensures
        ({
            let book = MortgagePoolModel::deployed(
                admin,
                registry,
                lending_pool,
                grace_secs,
                timelock_secs,
            );
            &&& book.governance.admin == Some(admin)
            &&& book.governance.pending_admin is None
            &&& book.governance.timelock_secs == Some(timelock_secs)
            &&& book.governance.scheduled is None
            &&& book.registry == Some(registry)
            &&& book.lending_pool == Some(lending_pool)
            &&& book.grace_secs == grace_secs
            &&& book.next_id == 1
            &&& book.underwriters.dom() =~= Set::empty()
            &&& book.mortgages.dom() =~= Set::empty()
            &&& book.property_mortgages.dom() =~= Set::empty()
            &&& book.outbox.len() == 0
        }),
{
}

// --- refusals ---

/// Each number stands for one refusal, and every refusal has one.
pub proof fn law_a_number_tells_the_refusal(refusal: Error)
    ensures
        match refusal.number() {
            2 => refusal == Error::NotInitialized,
            3 => refusal == Error::NotAuthorized,
            5 => refusal == Error::NoPendingAction,
            6 => refusal == Error::ActionPending,
            7 => refusal == Error::TimelockNotExpired,
            8 => refusal == Error::UnknownMortgage,
            9 => refusal == Error::WrongStatus,
            10 => refusal == Error::InvalidAmount,
            11 => refusal == Error::InvalidTerm,
            12 => refusal == Error::InvalidRate,
            13 => refusal == Error::PropertyNotVerified,
            14 => refusal == Error::ExceedsLtv,
            15 => refusal == Error::NotBorrower,
            16 => refusal == Error::StageNotReleasable,
            17 => refusal == Error::NothingToDisburse,
            18 => refusal == Error::Underpaid,
            19 => refusal == Error::NotInArrears,
            20 => refusal == Error::PropertyHasMortgage,
            21 => refusal == Error::InvalidGrace,
            _ => false,
        },
{
}

/// What the governing rules refuse is refused under the same name, and what they grant
/// is granted.
pub proof fn law_governance_speaks_through(refusal: Option<GovernanceError>)
    ensures
        match admin_outcome(refusal) {
            Ok(_) => refusal is None,
            Err(Error::NotInitialized) => refusal == Some(GovernanceError::NotInitialized),
            Err(Error::NotAuthorized) => refusal == Some(GovernanceError::NotAuthorized),
            Err(Error::NoPendingAction) => refusal == Some(GovernanceError::NoPendingAction),
            Err(Error::ActionPending) => refusal == Some(GovernanceError::ActionPending),
            Err(Error::TimelockNotExpired) => refusal == Some(GovernanceError::TimelockNotExpired),
            Err(_) => false,
        },
        refusal is Some ==> admin_outcome(refusal) == Err::<(), Error>(Error::of(refusal->0)),
{
}

} // verus!
