//! What each call on the income distributor does, in its own figures.

use crate::governance::GovernanceError;
use crate::host::{Address, Env, Transfer};
use crate::income_distributor::{
    admin_outcome, Action, Effect, Error, Event, IncomeDistributorModel, LedgerCall, LedgerQuery,
};
use vstd::prelude::*;

verus! {

/// What came in on a property and what was collected are what is on record for it,
/// nothing where nothing is, and the rest is not yet collected.
pub proof fn law_figures_are_read_off_the_books(
    distributor: IncomeDistributorModel,
    property: u64,
)
    ensures
        distributor.deposited_of(property) == if distributor.deposited.contains_key(property) {
            distributor.deposited[property]
        } else {
            0
        },
        distributor.claimed_of(property) == if distributor.claimed.contains_key(property) {
            distributor.claimed[property]
        } else {
            0
        },
        distributor.unclaimed_of(property) + distributor.claimed_of(property)
            == distributor.deposited_of(property),
{
}

/// Anybody can pay in any positive sum, and whoever the share ledger says is owed a
/// positive sum is paid.
pub proof fn law_income_is_taken_in_and_paid_out(
    distributor: IncomeDistributorModel,
    property: u64,
    holder: Address,
    amount: i128,
)
    ensures
        ({
            let linked = distributor.share_ledger is Some;
            let funded = distributor.settlement_token is Some;
            &&& match distributor.deposit_refusal(amount) {
                None => amount > 0 && linked && funded,
                Some(Error::InvalidAmount) => amount <= 0,
                Some(Error::NotInitialized) => amount > 0 && !(linked && funded),
                Some(_) => false,
            }
            &&& match distributor.claim_refusal(amount) {
                None => amount > 0 && linked && funded,
                Some(Error::NothingToClaim) => linked && amount <= 0,
                Some(Error::NotInitialized) => !linked || (amount > 0 && !funded),
                Some(_) => false,
            }
            &&& distributor.query(property, holder) == if linked {
                Ok::<LedgerQuery, Error>(
                    LedgerQuery { ledger: distributor.share_ledger->0, property, holder },
                )
            } else {
                Err::<LedgerQuery, Error>(Error::NotInitialized)
            }
        }),
{
}

/// A deposit is shared out on the ledger and then collected whole from the party that
/// pays it, and what came in on that property rises by it.
pub proof fn law_a_deposit_is_shared_out(
    pre: IncomeDistributorModel,
    post: IncomeDistributorModel,
    env: Env,
    property: u64,
    from: Address,
    amount: i128,
)
    requires
        pre.deposit_refusal(amount) is None,
        pre.received(post, env, property, from, amount),
    ensures
        ({
            let total = post.deposited_of(property);
            &&& total == pre.deposited_of(property) + amount
            &&& post.unclaimed_of(property) == pre.unclaimed_of(property) + amount
            &&& post == (IncomeDistributorModel {
                deposited: pre.deposited.insert(property, total),
                outbox: post.outbox,
                ..pre
            })
            &&& post.outbox =~= pre.outbox + seq![
                Effect::CallLedger {
                    ledger: pre.share_ledger->0,
                    call: LedgerCall::Accrue { property, amount },
                },
                Effect::Transfer(
                    Transfer {
                        token: pre.settlement_token->0,
                        from,
                        to: env.contract,
                        amount,
                    },
                ),
                Effect::Publish(Event::Deposit { property, from, amount, total }),
            ]
        }),
{
}

/// A claim pays the holder exactly what the ledger said they were owed, and what was
/// collected on that property rises by it.
pub proof fn law_a_claim_pays_what_is_owed(
    pre: IncomeDistributorModel,
    post: IncomeDistributorModel,
    env: Env,
    property: u64,
    holder: Address,
    owed: i128,
)
    requires
        pre.claim_refusal(owed) is None,
        pre.paid_out(post, env, property, holder, owed),
    ensures
        ({
            let collected = post.claimed_of(property);
            &&& collected == pre.claimed_of(property) + owed
            &&& post.unclaimed_of(property) == pre.unclaimed_of(property) - owed
            &&& post == (IncomeDistributorModel {
                claimed: pre.claimed.insert(property, collected),
                outbox: post.outbox,
                ..pre
            })
            &&& post.outbox =~= pre.outbox + seq![
                Effect::Transfer(
                    Transfer {
                        token: pre.settlement_token->0,
                        from: env.contract,
                        to: holder,
                        amount: owed,
                    },
                ),
                Effect::Publish(Event::Claim { property, holder, owed }),
            ]
        }),
{
}

/// The admin may schedule an upgrade while none waits. Carrying it out asks for that
/// very code, once, and changes nothing else.
pub proof fn law_a_scheduled_upgrade_is_asked_for(
    distributor: IncomeDistributorModel,
    admin: Address,
)
    ensures
        forall|now: u64|
            distributor.governance.eta_fits(now) ==> #[trigger] distributor.schedule_fits(
                admin,
                now,
            ),
        ({
            let g = distributor.governance;
            let idle = g.admin == Some(admin) && g.scheduled is None;
            match distributor.schedule_refusal(admin) {
                None => idle && g.timelock_secs is Some,
                Some(Error::NotAuthorized) => g.admin is Some && g.admin != Some(admin),
                Some(Error::ActionPending) => g.admin == Some(admin) && g.scheduled is Some,
                Some(Error::NotInitialized) => g.admin is None || (idle && g.timelock_secs is None),
                Some(_) => false,
            }
        }),
        ({
            let post = distributor.executed();
            let was = distributor.governance;
            &&& post.governance.scheduled is None
            &&& post.governance.admin == was.admin
            &&& post.governance.pending_admin == was.pending_admin
            &&& post.governance.timelock_secs == was.timelock_secs
            &&& was.scheduled->0.action matches Action::Upgrade(wasm_hash) ==> post.outbox
                =~= distributor.outbox + seq![Effect::Upgrade(wasm_hash)]
            &&& post == (IncomeDistributorModel {
                governance: post.governance,
                outbox: post.outbox,
                ..distributor
            })
        }),
{
}

/// Totals and payments of up to a million million million million million are never out
/// of range.
pub proof fn law_ordinary_income_is_in_range(
    distributor: IncomeDistributorModel,
    property: u64,
    amount: i128,
)
    requires
        ({
            let most = 1_000_000_000_000_000_000_000_000_000_000i128;
            &&& amount <= most
            &&& 0 <= distributor.deposited_of(property) <= most
            &&& 0 <= distributor.claimed_of(property) <= most
        }),
    ensures
        distributor.deposit_fits(property, amount),
        distributor.claim_fits(property, amount),
{
}

// --- deployment ---

/// The distributor starts out with what it was configured with and nothing else:
/// nothing on record, nothing scheduled and nothing asked of anybody.
pub proof fn law_deployed_as_configured(
    admin: Address,
    share_ledger: Address,
    settlement_token: Address,
    timelock_secs: u64,
)
    ensures
        ({
            let distributor = IncomeDistributorModel::deployed(
                admin,
                share_ledger,
                settlement_token,
                timelock_secs,
            );
            &&& distributor.governance.admin == Some(admin)
            &&& distributor.governance.pending_admin is None
            &&& distributor.governance.timelock_secs == Some(timelock_secs)
            &&& distributor.governance.scheduled is None
            &&& distributor.share_ledger == Some(share_ledger)
            &&& distributor.settlement_token == Some(settlement_token)
            &&& distributor.deposited.dom() =~= Set::empty()
            &&& distributor.claimed.dom() =~= Set::empty()
            &&& distributor.outbox.len() == 0
        }),
{
}

// --- refusals ---

/// Each number stands for one refusal, and every refusal has one.
pub proof fn law_a_number_tells_the_refusal(refusal: Error)
    ensures
        match refusal.number() {
            2 => refusal == Error::NotInitialized,
            3 => refusal == Error::NotAuthorized,
            5 => refusal == Error::NoPendingAction,
            6 => refusal == Error::ActionPending,
            7 => refusal == Error::TimelockNotExpired,
            8 => refusal == Error::InvalidAmount,
            9 => refusal == Error::NothingToClaim,
            _ => false,
        },
{
}

/// What the governing rules refuse is refused under the same name, and what they grant
/// is granted.
pub proof fn law_governance_speaks_through(refusal: Option<GovernanceError>)
    ensures
        match admin_outcome(refusal) {
            Ok(_) => refusal is None,
            Err(Error::NotInitialized) => refusal == Some(GovernanceError::NotInitialized),
            Err(Error::NotAuthorized) => refusal == Some(GovernanceError::NotAuthorized),
            Err(Error::NoPendingAction) => refusal == Some(GovernanceError::NoPendingAction),
            Err(Error::ActionPending) => refusal == Some(GovernanceError::ActionPending),
            Err(Error::TimelockNotExpired) => refusal == Some(GovernanceError::TimelockNotExpired),
            Err(_) => false,
        },
        refusal is Some ==> admin_outcome(refusal) == Err::<(), Error>(Error::of(refusal->0)),
{
}

} // verus!
