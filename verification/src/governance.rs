//! Administration, the same in every contract: one admin, handed over in two
//! steps, and sensitive changes that wait out a timelock one at a time.

use crate::host::Address;
use vstd::prelude::*;

verus! {

/// Why an administrative call is refused.
#[derive(Copy, Clone, Debug, PartialEq, Eq, Structural)]
pub enum GovernanceError {
    NotInitialized,
    NotAuthorized,
    NoPendingAction,
    ActionPending,
    TimelockNotExpired,
}

/// A change that is waiting out the timelock.
#[derive(Copy, Clone, Debug, PartialEq, Eq)]
pub struct ScheduledAction<A> {
    pub action: A,
    /// Earliest ledger time at which the action may execute.
    pub eta: u64,
}

/// Who administers a contract, and what they have in the queue.
///
/// `admin` and `timelock_secs` are set when the contract is constructed.
#[derive(Copy, Clone, Debug, PartialEq, Eq)]
pub struct Governance<A> {
    pub admin: Option<Address>,
    pub pending_admin: Option<Address>,
    pub timelock_secs: Option<u64>,
    pub scheduled: Option<ScheduledAction<A>>,
}

impl<A> Governance<A> {
    /// Why a call in the admin's name by `admin` is refused.
    pub open spec fn admin_refusal(self, admin: Address) -> Option<GovernanceError> {
        if self.admin is None {
            Some(GovernanceError::NotInitialized)
        } else if self.admin != Some(admin) {
            Some(GovernanceError::NotAuthorized)
        } else {
            None
        }
    }

    /// Why `admin` may not put anything in the queue.
    pub open spec fn schedule_refusal(self, admin: Address) -> Option<GovernanceError> {
        if self.admin_refusal(admin) is Some {
            self.admin_refusal(admin)
        } else if self.scheduled is Some {
            Some(GovernanceError::ActionPending)
        } else {
            None
        }
    }

    /// Whether the time at which something put in the queue at `now` may execute
    /// is a time.
    pub open spec fn eta_fits(self, now: u64) -> bool {
        self.timelock_secs is Some ==> now + self.timelock_secs->0 <= u64::MAX
    }

    /// Why `admin` may not carry out what is in the queue at time `now`.
    pub open spec fn execute_refusal(self, admin: Address, now: u64) -> Option<GovernanceError> {
        if self.admin_refusal(admin) is Some {
            self.admin_refusal(admin)
        } else if self.scheduled is None {
            Some(GovernanceError::NoPendingAction)
        } else if now < self.scheduled->0.eta {
            Some(GovernanceError::TimelockNotExpired)
        } else {
            None
        }
    }

    /// Why `admin` may not empty the queue.
    pub open spec fn cancel_refusal(self, admin: Address) -> Option<GovernanceError> {
        if self.admin_refusal(admin) is Some {
            self.admin_refusal(admin)
        } else if self.scheduled is None {
            Some(GovernanceError::NoPendingAction)
        } else {
            None
        }
    }

    /// Why `new_admin` may not take the role over.
    pub open spec fn accept_refusal(self, new_admin: Address) -> Option<GovernanceError> {
        if self.pending_admin != Some(new_admin) {
            Some(GovernanceError::NotAuthorized)
        } else {
            None
        }
    }

    /// With `action` in the queue, to execute no sooner than `eta`.
    pub open spec fn with_scheduled(self, action: A, eta: int) -> Self {
        Governance {
            scheduled: Some(ScheduledAction { action, eta: eta as u64 }),
            ..self
        }
    }

    /// With `action` put in the queue at `now`, to wait out the timelock.
    pub open spec fn with_queued(self, action: A, now: u64) -> Self {
        self.with_scheduled(action, now + self.timelock_secs->0)
    }

    /// With the queue empty.
    pub open spec fn with_nothing_scheduled(self) -> Self {
        Governance { scheduled: None, ..self }
    }

    /// With `new_admin` invited to take the role over.
    pub open spec fn with_proposed(self, new_admin: Address) -> Self {
        Governance { pending_admin: Some(new_admin), ..self }
    }

    /// With the role handed to `new_admin`.
    pub open spec fn with_admin(self, new_admin: Address) -> Self {
        Governance { admin: Some(new_admin), pending_admin: None, ..self }
    }

    /// A contract just constructed.
    pub fn new(admin: Address, timelock_secs: u64) -> (governance: Self)
        ensures
            governance == (Governance::<A> {
                admin: Some(admin),
                pending_admin: None,
                timelock_secs: Some(timelock_secs),
                scheduled: None,
            }),
    {
        Governance {
            admin: Some(admin),
            pending_admin: None,
            timelock_secs: Some(timelock_secs),
            scheduled: None,
        }
    }

    /// Whether `admin` is the admin.
    pub fn require_admin(&self, admin: &Address) -> (r: Result<(), GovernanceError>)
        ensures
            r == outcome(self.admin_refusal(*admin)),
    {
        match self.admin {
            None => Err(GovernanceError::NotInitialized),
            Some(stored) => if *admin != stored {
                Err(GovernanceError::NotAuthorized)
            } else {
                Ok(())
            },
        }
    }

    /// Whether `admin` may put something in the queue.
    pub fn require_idle(&self, admin: &Address) -> (r: Result<(), GovernanceError>)
        ensures
            r == outcome(self.schedule_refusal(*admin)),
    {
        self.require_admin(admin)?;
        if self.scheduled.is_some() {
            return Err(GovernanceError::ActionPending);
        }
        Ok(())
    }

    /// Put `action` in the queue.
    pub fn schedule(&mut self, action: A, now: u64) -> (r: Result<(), GovernanceError>)
        requires
            old(self).eta_fits(now),
        ensures
            match old(self).timelock_secs {
                None => {
                    &&& r == Err::<(), _>(GovernanceError::NotInitialized)
                    &&& *final(self) == *old(self)
                },
                Some(delay) => {
                    &&& r is Ok
                    &&& *final(self) == old(self).with_queued(action, now)
                },
            },
    {
        match self.timelock_secs {
            None => Err(GovernanceError::NotInitialized),
            Some(delay) => {
                self.scheduled = Some(ScheduledAction { action, eta: now + delay });
                Ok(())
            },
        }
    }

    /// Whether [`Self::schedule`] stays within range.
    pub fn eta_in_range(&self, now: u64) -> (r: bool)
        ensures
            r == self.eta_fits(now),
    {
        match self.timelock_secs {
            None => true,
            Some(delay) => now <= u64::MAX - delay,
        }
    }

    /// Empty the queue.
    pub fn cancel(&mut self, admin: &Address) -> (r: Result<(), GovernanceError>)
        ensures
            r == outcome(old(self).cancel_refusal(*admin)),
            *final(self) == (if r is Ok {
                old(self).with_nothing_scheduled()
            } else {
                *old(self)
            }),
    {
        self.require_admin(admin)?;
        if self.scheduled.is_none() {
            return Err(GovernanceError::NoPendingAction);
        }
        self.scheduled = None;
        Ok(())
    }

    /// Invite `new_admin` to take the role over.
    pub fn propose(&mut self, admin: &Address, new_admin: &Address) -> (r: Result<
        (),
        GovernanceError,
    >)
        ensures
            r == outcome(old(self).admin_refusal(*admin)),
            *final(self) == (if r is Ok {
                old(self).with_proposed(*new_admin)
            } else {
                *old(self)
            }),
    {
        self.require_admin(admin)?;
        self.pending_admin = Some(*new_admin);
        Ok(())
    }

    /// Take the role over.
    pub fn accept(&mut self, new_admin: &Address) -> (r: Result<(), GovernanceError>)
        ensures
            r == outcome(old(self).accept_refusal(*new_admin)),
            *final(self) == (if r is Ok {
                old(self).with_admin(*new_admin)
            } else {
                *old(self)
            }),
    {
        match self.pending_admin {
            None => Err(GovernanceError::NotAuthorized),
            Some(pending) => {
                if *new_admin != pending {
                    return Err(GovernanceError::NotAuthorized);
                }
                self.admin = Some(*new_admin);
                self.pending_admin = None;
                Ok(())
            },
        }
    }
}

impl<A: Copy> Governance<A> {
    /// The action that `admin` may carry out at time `now`.
    pub fn due(&self, admin: &Address, now: u64) -> (r: Result<A, GovernanceError>)
        ensures
            r == (match self.execute_refusal(*admin, now) {
                Some(refusal) => Err(refusal),
                None => Ok(self.scheduled->0.action),
            }),
    {
        self.require_admin(admin)?;
        match self.scheduled {
            None => Err(GovernanceError::NoPendingAction),
            Some(scheduled) => if now < scheduled.eta {
                Err(GovernanceError::TimelockNotExpired)
            } else {
                Ok(scheduled.action)
            },
        }
    }
}

/// What a call that may be refused returns.
pub open spec fn outcome<E>(refusal: Option<E>) -> Result<(), E> {
    match refusal {
        Some(e) => Err(e),
        None => Ok(()),
    }
}

/// A handover takes two steps: proposing changes nothing of who the admin is, only
/// the party proposed can accept, and accepting makes them the admin and uses the
/// proposal up.
pub proof fn law_handover_takes_two_steps<A>(
    governance: Governance<A>,
    new_admin: Address,
    other: Address,
)
    requires
        other != new_admin,
    ensures
        ({
            let proposed = governance.with_proposed(new_admin);
            let accepted = proposed.with_admin(new_admin);
            &&& proposed.admin == governance.admin
            &&& proposed.accept_refusal(new_admin) is None
            &&& proposed.accept_refusal(other) is Some
            &&& accepted.admin == Some(new_admin)
            &&& accepted.admin_refusal(new_admin) is None
            &&& accepted.admin_refusal(other) is Some
            &&& accepted.accept_refusal(new_admin) is Some
            &&& accepted.accept_refusal(other) is Some
        }),
{
}

/// A scheduled action waits out the timelock: until the delay has passed since it
/// was scheduled nobody can carry it out, from then on the admin can, and nothing
/// else can be scheduled meanwhile.
pub proof fn law_actions_wait_out_the_timelock<A>(
    governance: Governance<A>,
    admin: Address,
    action: A,
    scheduled_at: u64,
    caller: Address,
    now: u64,
)
    requires
        governance.schedule_refusal(admin) is None,
        governance.timelock_secs is Some,
        governance.eta_fits(scheduled_at),
    ensures
        ({
            let delay = governance.timelock_secs->0;
            let waiting = governance.with_queued(action, scheduled_at);
            &&& now < scheduled_at + delay ==> waiting.execute_refusal(caller, now) is Some
            &&& now >= scheduled_at + delay ==> waiting.execute_refusal(admin, now) is None
            &&& waiting.scheduled->0.action == action
            &&& waiting.schedule_refusal(admin) == Some(GovernanceError::ActionPending)
        }),
{
}

/// A scheduled action can be withdrawn at any time before it is carried out, and
/// what was withdrawn or carried out cannot be carried out again.
pub proof fn law_cancelled_actions_never_run<A>(
    governance: Governance<A>,
    admin: Address,
    caller: Address,
    now: u64,
)
    requires
        governance.admin == Some(admin),
        governance.scheduled is Some,
    ensures
        governance.cancel_refusal(admin) is None,
        governance.with_nothing_scheduled().execute_refusal(caller, now) is Some,
        governance.with_nothing_scheduled().schedule_refusal(admin) is None,
{
}

/// Each administrative call is granted on its own condition and on nothing else, and
/// refused for the reason it misses. The admin is whoever holds the role: they may
/// queue something while nothing waits, carry it out from its time on, and withdraw
/// it whenever something waits. Whoever was invited may take the role over.
pub proof fn law_each_administrative_call_has_its_condition<A>(
    governance: Governance<A>,
    caller: Address,
    now: u64,
)
    ensures
        ({
            let held = governance.admin is Some;
            let admin = governance.admin == Some(caller);
            let waiting = governance.scheduled is Some;
            let ripe = governance.scheduled->0.eta <= now;
            &&& match governance.admin_refusal(caller) {
                None => admin,
                Some(GovernanceError::NotInitialized) => !held,
                Some(GovernanceError::NotAuthorized) => held && !admin,
                Some(_) => false,
            }
            &&& match governance.schedule_refusal(caller) {
                None => admin && !waiting,
                Some(GovernanceError::NotInitialized) => !held,
                Some(GovernanceError::NotAuthorized) => held && !admin,
                Some(GovernanceError::ActionPending) => admin && waiting,
                Some(_) => false,
            }
            &&& match governance.execute_refusal(caller, now) {
                None => admin && waiting && ripe,
                Some(GovernanceError::NotInitialized) => !held,
                Some(GovernanceError::NotAuthorized) => held && !admin,
                Some(GovernanceError::NoPendingAction) => admin && !waiting,
                Some(GovernanceError::TimelockNotExpired) => admin && waiting && !ripe,
                Some(_) => false,
            }
            &&& match governance.cancel_refusal(caller) {
                None => admin && waiting,
                Some(GovernanceError::NotInitialized) => !held,
                Some(GovernanceError::NotAuthorized) => held && !admin,
                Some(GovernanceError::NoPendingAction) => admin && !waiting,
                Some(_) => false,
            }
            &&& match governance.accept_refusal(caller) {
                None => governance.pending_admin == Some(caller),
                Some(GovernanceError::NotAuthorized) => governance.pending_admin != Some(caller),
                Some(_) => false,
            }
        }),
{
}

/// Queueing fixes what is to be done and the moment, one timelock after the call, and
/// moves nothing else; withdrawing or carrying out empties the queue alone; an
/// invitation names the next admin alone; and taking the role over uses it up, leaving
/// the delay and the queue as they were.
pub proof fn law_an_administrative_change_stays_in_its_place<A>(
    governance: Governance<A>,
    action: A,
    party: Address,
    now: u64,
)
    requires
        governance.timelock_secs is Some,
        governance.eta_fits(now),
    ensures
        ({
            let delay = governance.timelock_secs->0;
            let queued = governance.with_queued(action, now);
            let emptied = governance.with_nothing_scheduled();
            let invited = governance.with_proposed(party);
            let handed = governance.with_admin(party);
            &&& queued.scheduled is Some
            &&& queued.scheduled->0.action == action
            &&& queued.scheduled->0.eta == now + delay
            &&& queued == (Governance { scheduled: queued.scheduled, ..governance })
            &&& emptied.scheduled is None
            &&& emptied == (Governance { scheduled: emptied.scheduled, ..governance })
            &&& invited.pending_admin == Some(party)
            &&& invited == (Governance { pending_admin: invited.pending_admin, ..governance })
            &&& handed.admin == Some(party)
            &&& handed.pending_admin is None
            &&& handed.scheduled == governance.scheduled
            &&& handed.timelock_secs == governance.timelock_secs
        }),
        now + governance.timelock_secs->0 <= u64::MAX,
{
}

/// Whatever is put in the queue is in range as long as its moment is a time.
pub proof fn law_a_moment_in_time_is_in_range<A>(governance: Governance<A>, now: u64)
    ensures
        match governance.timelock_secs {
            Some(delay) => governance.eta_fits(now) <==> now + delay <= u64::MAX,
            None => governance.eta_fits(now),
        },
{
}

/// Nobody but the admin can schedule, carry out, withdraw or propose anything.
pub proof fn law_only_the_admin_administers<A>(
    governance: Governance<A>,
    caller: Address,
    now: u64,
)
    requires
        governance.admin != Some(caller),
    ensures
        governance.admin_refusal(caller) is Some,
        governance.schedule_refusal(caller) is Some,
        governance.execute_refusal(caller, now) is Some,
        governance.cancel_refusal(caller) is Some,
{
}

} // verus!
