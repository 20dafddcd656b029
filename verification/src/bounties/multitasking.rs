//! Bounties for several claimants: contests, slots of one task, different subtasks.
use vstd::prelude::*;
use crate::accounts::AccountId;
use super::types::{DateOrPeriod, StartConditions, ContestOrHackathonEnv, OneForAllEnv, SubtaskEnv, DifferentTasksEnv, Subtask};

verus! {

#[allow(inconsistent_fields)]
#[derive(Clone, Debug, PartialEq, Eq)]
pub enum Multitasking {
    ContestOrHackathon {
        allowed_create_claim_to: Option<DateOrPeriod>,
        successful_claims_for_result: Option<u16>,
        start_conditions: Option<StartConditions>,
        runtime_env: Option<ContestOrHackathonEnv>,
    },
    OneForAll {
        number_of_slots: u16,
        amount_per_slot: u128,
        min_slots_to_start: Option<u16>,
        runtime_env: Option<OneForAllEnv>,
    },
    DifferentTasks { subtasks: Vec<Subtask>, runtime_env: Option<DifferentTasksEnv> },
}

/// The runtime state of a contest.
pub open spec fn contest_env(m: Multitasking) -> ContestOrHackathonEnv {
    m->ContestOrHackathon_runtime_env->0
}

/// The runtime state of a bounty with slots.
pub open spec fn one_for_all_env(m: Multitasking) -> OneForAllEnv {
    m->OneForAll_runtime_env->0
}

/// The slots of a bounty with different subtasks.
pub open spec fn slots(m: Multitasking) -> Seq<Option<SubtaskEnv>> {
    m->DifferentTasks_runtime_env->0.participants@
}

impl Multitasking {
    /// The runtime state exists, and a bounty with subtasks has one slot per subtask.
    pub open spec fn wf(&self) -> bool {
        match self {
            Multitasking::ContestOrHackathon { runtime_env, .. } => runtime_env is Some,
            Multitasking::OneForAll { runtime_env, number_of_slots, .. } => {
                &&& runtime_env is Some
                &&& runtime_env->0.occupied_slots + runtime_env->0.paid_slots <= *number_of_slots
            },
            Multitasking::DifferentTasks { subtasks, runtime_env } => {
                &&& runtime_env is Some
                &&& runtime_env->0.participants@.len() == subtasks@.len()
            },
        }
    }

    pub open spec fn is_uninitialized(&self) -> bool {
        match self {
            Multitasking::ContestOrHackathon { runtime_env, .. } => runtime_env is None,
            Multitasking::OneForAll { runtime_env, .. } => runtime_env is None,
            Multitasking::DifferentTasks { runtime_env, .. } => runtime_env is None,
        }
    }

    pub open spec fn spec_initialized(&self, r: Multitasking) -> bool {
        match (self, r) {
            (
                Multitasking::ContestOrHackathon {
                    allowed_create_claim_to,
                    successful_claims_for_result,
                    start_conditions,
                    ..
                },
                Multitasking::ContestOrHackathon {
                    allowed_create_claim_to: a,
                    successful_claims_for_result: s,
                    start_conditions: c,
                    runtime_env: e,
                },
            ) => *allowed_create_claim_to == a && *successful_claims_for_result == s
                && *start_conditions == c && e == Some(
                ContestOrHackathonEnv {
                    started_at: None,
                    finished_at: None,
                    participants: 0,
                    competition_winner: None,
                },
            ),
            (
                Multitasking::OneForAll { number_of_slots, amount_per_slot, min_slots_to_start, .. },
                Multitasking::OneForAll {
                    number_of_slots: n,
                    amount_per_slot: a,
                    min_slots_to_start: m,
                    runtime_env: e,
                },
            ) => *number_of_slots == n && *amount_per_slot == a && *min_slots_to_start == m
                && e == Some(OneForAllEnv { occupied_slots: 0, paid_slots: 0 }),
            (
                Multitasking::DifferentTasks { subtasks, .. },
                Multitasking::DifferentTasks { subtasks: s, runtime_env: e },
            ) => {
                &&& s == *subtasks
                &&& e is Some
                &&& e->0.participants@.len() == subtasks@.len()
                &&& forall|i: int| 0 <= i < subtasks@.len() ==> (#[trigger] e->0.participants@[i]) is None
                &&& e->0.bounty_payout_proposal_id is None
            },
            _ => false,
        }
    }

    /// The same settings with a fresh runtime state.
    pub fn init(self) -> (r: Multitasking)
        requires
            self.is_uninitialized(),
        ensures
            self.spec_initialized(r),
            r.wf(),
    {
        match self {
            Multitasking::ContestOrHackathon {
                allowed_create_claim_to,
                successful_claims_for_result,
                start_conditions,
                ..
            } => Multitasking::ContestOrHackathon {
                allowed_create_claim_to,
                successful_claims_for_result,
                start_conditions,
                runtime_env: Some(ContestOrHackathonEnv::default()),
            },
            Multitasking::OneForAll { number_of_slots, amount_per_slot, min_slots_to_start, .. } =>
                Multitasking::OneForAll {
                number_of_slots,
                amount_per_slot,
                min_slots_to_start,
                runtime_env: Some(OneForAllEnv::default()),
            },
            Multitasking::DifferentTasks { subtasks, .. } => {
                let n = subtasks.len();
                Multitasking::DifferentTasks {
                    subtasks,
                    runtime_env: Some(DifferentTasksEnv::init(n)),
                }
            },
        }
    }

    pub open spec fn spec_is_competition_mode(&self) -> bool {
        *self is ContestOrHackathon
    }

    pub fn is_competition_mode(&self) -> (r: bool)
        ensures
            r == (*self is ContestOrHackathon),
    {
        match self {
            Multitasking::ContestOrHackathon { .. } => true,
            _ => false,
        }
    }

    pub fn is_one_for_all_mode(&self) -> (r: bool)
        ensures
            r == (*self is OneForAll),
    {
        match self {
            Multitasking::OneForAll { .. } => true,
            _ => false,
        }
    }

    pub fn is_different_tasks_mode(&self) -> (r: bool)
        ensures
            r == (*self is DifferentTasks),
    {
        match self {
            Multitasking::DifferentTasks { .. } => true,
            _ => false,
        }
    }

    pub open spec fn spec_has_competition_started(&self) -> bool {
        contest_env(*self).started_at is Some && contest_env(*self).finished_at is None
    }

    /// A contest has started and has not finished.
    pub fn has_competition_started(&self) -> (r: bool)
        requires
            *self is ContestOrHackathon,
            self.wf(),
        ensures
            r == self.spec_has_competition_started(),
    {
        match self {
            Multitasking::ContestOrHackathon { runtime_env: Some(env), .. } =>
                env.started_at.is_some() && env.finished_at.is_none(),
            _ => false,
        }
    }

    pub open spec fn spec_is_allowed_to_create_or_approve_claims(
        &self,
        slot: Option<usize>,
        now: u64,
    ) -> bool {
        match self {
            Multitasking::ContestOrHackathon { allowed_create_claim_to, .. } => {
                match allowed_create_claim_to {
                    None => true,
                    Some(DateOrPeriod::Date { date }) => *date > now,
                    Some(DateOrPeriod::Period { period }) => {
                        if self.spec_has_competition_started() {
                            *period > now - contest_env(*self).started_at->0
                        } else {
                            true
                        }
                    },
                }
            },
            Multitasking::OneForAll { number_of_slots, .. } =>
                one_for_all_env(*self).occupied_slots + one_for_all_env(*self).paid_slots
                    < *number_of_slots,
            Multitasking::DifferentTasks { .. } => slots(*self)[slot->0 as int] is None,
        }
    }

    /// Whether one more claim can be created or approved now (for a bounty with
    /// subtasks: on the given slot).
    pub fn is_allowed_to_create_or_approve_claims(&self, slot: Option<usize>, now: u64) -> (r:
        bool)
        requires
            self.wf(),
            *self is DifferentTasks ==> slot is Some && slot->0 < slots(*self).len(),
        ensures
            r == self.spec_is_allowed_to_create_or_approve_claims(slot, now),
    {
        match self {
            Multitasking::ContestOrHackathon { allowed_create_claim_to, runtime_env, .. } => {
                match allowed_create_claim_to {
                    None => true,
                    Some(DateOrPeriod::Date { date }) => *date > now,
                    Some(DateOrPeriod::Period { period }) => {
                        if self.has_competition_started() {
                            let started_at = match runtime_env {
                                Some(env) => match env.started_at {
                                    Some(s) => s,
                                    None => 0,
                                },
                                None => 0,
                            };
                            if now < started_at {
                                true
                            } else {
                                *period > now - started_at
                            }
                        } else {
                            true
                        }
                    },
                }
            },
            Multitasking::OneForAll { number_of_slots, runtime_env, .. } => {
                match runtime_env {
                    Some(env) => (env.occupied_slots as u32) + (env.paid_slots as u32)
                        < (*number_of_slots as u32),
                    None => false,
                }
            },
            Multitasking::DifferentTasks { runtime_env, .. } => {
                match runtime_env {
                    Some(env) => env.participants[slot.unwrap()].is_none(),
                    None => false,
                }
            },
        }
    }

    /// When the contest started and when it finished.
    pub fn get_competition_timestamps(&self) -> (r: (Option<u64>, Option<u64>))
        requires
            *self is ContestOrHackathon,
            self.wf(),
        ensures
            r == (contest_env(*self).started_at, contest_env(*self).finished_at),
    {
        match self {
            Multitasking::ContestOrHackathon { runtime_env: Some(env), .. } => (
                env.started_at,
                env.finished_at,
            ),
            _ => (None, None),
        }
    }

    /// The number of participants of the contest.
    pub fn get_participants(&self) -> (r: u32)
        requires
            *self is ContestOrHackathon,
            self.wf(),
        ensures
            r == contest_env(*self).participants,
    {
        match self {
            Multitasking::ContestOrHackathon { runtime_env: Some(env), .. } => env.participants,
            _ => 0,
        }
    }

    /// The winner of the contest, once decided.
    pub fn get_competition_winner(&self) -> (r: Option<AccountId>)
        requires
            *self is ContestOrHackathon,
            self.wf(),
        ensures
            r == contest_env(*self).competition_winner,
    {
        match self {
            Multitasking::ContestOrHackathon { runtime_env: Some(env), .. } => {
                match &env.competition_winner {
                    Some(w) => Some(w.clone()),
                    None => None,
                }
            },
            _ => None,
        }
    }

    /// Occupied and paid slots.
    pub fn get_one_for_all_env(&self) -> (r: (u16, u16))
        requires
            *self is OneForAll,
            self.wf(),
        ensures
            r == (one_for_all_env(*self).occupied_slots, one_for_all_env(*self).paid_slots),
    {
        match self {
            Multitasking::OneForAll { runtime_env: Some(env), .. } => (
                env.occupied_slots,
                env.paid_slots,
            ),
            _ => (0, 0),
        }
    }

    /// The runtime state of a bounty with subtasks.
    pub fn get_different_tasks_env(&self) -> (r: &DifferentTasksEnv)
        requires
            *self is DifferentTasks,
            self.wf(),
        ensures
            *r == self->DifferentTasks_runtime_env->0,
    {
        match self {
            Multitasking::DifferentTasks { runtime_env: Some(env), .. } => env,
            _ => {
                proof { assert(false); }
                unreached()
            },
        }
    }

    /// The state of one slot of a bounty with subtasks.
    pub fn get_slot_env(&self, slot: usize) -> (r: Option<SubtaskEnv>)
        requires
            *self is DifferentTasks,
            self.wf(),
            slot < slots(*self).len(),
        ensures
            r == slots(*self)[slot as int],
    {
        let env = self.get_different_tasks_env();
        match &env.participants[slot] {
            Some(s) => Some(
                SubtaskEnv {
                    participant: s.participant.clone(),
                    completed: s.completed,
                    confirmed: s.confirmed,
                },
            ),
            None => None,
        }
    }

    /// Every slot is taken.
    pub fn are_all_slots_taken(&self) -> (r: bool)
        requires
            *self is DifferentTasks,
            self.wf(),
        ensures
            r == (forall|i: int| 0 <= i < slots(*self).len() ==> (#[trigger] slots(*self)[i]) is Some),
    {
        let env = self.get_different_tasks_env();
        let mut i: usize = 0;
        while i < env.participants.len()
            invariant
                *env == self->DifferentTasks_runtime_env->0,
                i <= env.participants@.len(),
                forall|j: int| 0 <= j < i ==> (#[trigger] env.participants@[j]) is Some,
            decreases env.participants@.len() - i,
        {
            if env.participants[i].is_none() {
                return false;
            }
            i = i + 1;
        }
        true
    }

    /// No slot is taken.
    pub fn are_all_slots_available(&self) -> (r: bool)
        requires
            *self is DifferentTasks,
            self.wf(),
        ensures
            r == (forall|i: int| 0 <= i < slots(*self).len() ==> (#[trigger] slots(*self)[i]) is None),
    {
        let env = self.get_different_tasks_env();
        let mut i: usize = 0;
        while i < env.participants.len()
            invariant
                *env == self->DifferentTasks_runtime_env->0,
                i <= env.participants@.len(),
                forall|j: int| 0 <= j < i ==> (#[trigger] env.participants@[j]) is None,
            decreases env.participants@.len() - i,
        {
            if env.participants[i].is_some() {
                return false;
            }
            i = i + 1;
        }
        true
    }

    pub open spec fn spec_are_all_slots_complete(&self, except: Option<Seq<char>>) -> bool {
        forall|i: int|
            0 <= i < slots(*self).len() ==> {
                let s = #[trigger] slots(*self)[i];
                s is Some && (s->0.completed || (except is Some && s->0.participant@
                    == except->0))
            }
    }

    /// Every slot is taken and completed, except perhaps the one of `except`.
    pub fn are_all_slots_complete(&self, except: Option<&AccountId>) -> (r: bool)
        requires
            *self is DifferentTasks,
            self.wf(),
        ensures
            r == self.spec_are_all_slots_complete(
                match except {
                    Some(a) => Some(a@),
                    None => None,
                },
            ),
    {
        let env = self.get_different_tasks_env();
        let ghost ex = match except {
            Some(a) => Some(a@),
            None => None::<Seq<char>>,
        };
        let mut i: usize = 0;
        while i < env.participants.len()
            invariant
                *env == self->DifferentTasks_runtime_env->0,
                i <= env.participants@.len(),
                ex == match except {
                    Some(a) => Some(a@),
                    None => None::<Seq<char>>,
                },
                forall|j: int|
                    0 <= j < i ==> {
                        let s = #[trigger] env.participants@[j];
                        s is Some && (s->0.completed || (ex is Some && s->0.participant@
                            == ex->0))
                    },
            decreases env.participants@.len() - i,
        {
            match &env.participants[i] {
                None => {
                    return false;
                },
                Some(s) => {
                    let excepted = match except {
                        Some(a) => s.participant == *a,
                        None => false,
                    };
                    if !s.completed && !excepted {
                        return false;
                    }
                },
            }
            i = i + 1;
        }
        true
    }

    /// Every slot is taken and its payment confirmed.
    pub fn are_all_slots_confirmed(&self) -> (r: bool)
        requires
            *self is DifferentTasks,
            self.wf(),
        ensures
            r == (forall|i: int|
                0 <= i < slots(*self).len() ==> (#[trigger] slots(*self)[i]) is Some
                    && slots(*self)[i]->0.confirmed),
    {
        let env = self.get_different_tasks_env();
        let mut i: usize = 0;
        while i < env.participants.len()
            invariant
                *env == self->DifferentTasks_runtime_env->0,
                i <= env.participants@.len(),
                forall|j: int|
                    0 <= j < i ==> (#[trigger] env.participants@[j]) is Some
                        && env.participants@[j]->0.confirmed,
            decreases env.participants@.len() - i,
        {
            match &env.participants[i] {
                None => {
                    return false;
                },
                Some(s) => {
                    if !s.confirmed {
                        return false;
                    }
                },
            }
            i = i + 1;
        }
        true
    }

    /// Starts the contest at `started_at`, or, given none, finishes it at `now`.
    pub fn set_competition_timestamp(self, started_at: Option<u64>, now: u64) -> (r: Multitasking)
        requires
            self is ContestOrHackathon,
            self.wf(),
        ensures
            r.wf(),
            r is ContestOrHackathon,
            r->ContestOrHackathon_allowed_create_claim_to == self->ContestOrHackathon_allowed_create_claim_to,
            r->ContestOrHackathon_successful_claims_for_result == self->ContestOrHackathon_successful_claims_for_result,
            r->ContestOrHackathon_start_conditions == self->ContestOrHackathon_start_conditions,
            contest_env(r) == (ContestOrHackathonEnv {
                started_at: if started_at is Some { started_at } else { contest_env(self).started_at },
                finished_at: if started_at is None { Some(now) } else { None },
                ..contest_env(self)
            }),
    {
        match self {
            Multitasking::ContestOrHackathon {
                allowed_create_claim_to,
                successful_claims_for_result,
                start_conditions,
                runtime_env: Some(env),
            } => {
                let new_started = if started_at.is_some() { started_at } else { env.started_at };
                let new_finished = if started_at.is_none() { Some(now) } else { None };
                Multitasking::ContestOrHackathon {
                    allowed_create_claim_to,
                    successful_claims_for_result,
                    start_conditions,
                    runtime_env: Some(ContestOrHackathonEnv {
                        started_at: new_started,
                        finished_at: new_finished,
                        participants: env.participants,
                        competition_winner: env.competition_winner,
                    }),
                }
            },
            _ => {
                proof { assert(false); }
                unreached()
            },
        }
    }

    /// The contest with `participants` participants.
    pub fn set_competition_participants(self, participants: u32) -> (r: Multitasking)
        requires
            self is ContestOrHackathon,
            self.wf(),
        ensures
            r.wf(),
            r is ContestOrHackathon,
            r->ContestOrHackathon_allowed_create_claim_to == self->ContestOrHackathon_allowed_create_claim_to,
            r->ContestOrHackathon_successful_claims_for_result == self->ContestOrHackathon_successful_claims_for_result,
            r->ContestOrHackathon_start_conditions == self->ContestOrHackathon_start_conditions,
            contest_env(r) == (ContestOrHackathonEnv { participants, ..contest_env(self) }),
    {
        match self {
            Multitasking::ContestOrHackathon {
                allowed_create_claim_to,
                successful_claims_for_result,
                start_conditions,
                runtime_env: Some(env),
            } => Multitasking::ContestOrHackathon {
                allowed_create_claim_to,
                successful_claims_for_result,
                start_conditions,
                runtime_env: Some(ContestOrHackathonEnv {
                    started_at: env.started_at,
                    finished_at: env.finished_at,
                    participants,
                    competition_winner: env.competition_winner,
                }),
            },
            _ => {
                proof { assert(false); }
                unreached()
            },
        }
    }

    /// The contest with the given winner.
    pub fn set_competition_winner(self, competition_winner: Option<AccountId>) -> (r: Multitasking)
        requires
            self is ContestOrHackathon,
            self.wf(),
        ensures
            r.wf(),
            r is ContestOrHackathon,
            r->ContestOrHackathon_allowed_create_claim_to == self->ContestOrHackathon_allowed_create_claim_to,
            r->ContestOrHackathon_successful_claims_for_result == self->ContestOrHackathon_successful_claims_for_result,
            r->ContestOrHackathon_start_conditions == self->ContestOrHackathon_start_conditions,
            contest_env(r) == (ContestOrHackathonEnv { competition_winner, ..contest_env(self) }),
    {
        match self {
            Multitasking::ContestOrHackathon {
                allowed_create_claim_to,
                successful_claims_for_result,
                start_conditions,
                runtime_env: Some(env),
            } => Multitasking::ContestOrHackathon {
                allowed_create_claim_to,
                successful_claims_for_result,
                start_conditions,
                runtime_env: Some(ContestOrHackathonEnv {
                    started_at: env.started_at,
                    finished_at: env.finished_at,
                    participants: env.participants,
                    competition_winner,
                }),
            },
            _ => {
                proof { assert(false); }
                unreached()
            },
        }
    }

    /// The bounty with the given numbers of occupied and paid slots.
    pub fn set_one_for_all_env(self, occupied_slots: u16, paid_slots: u16) -> (r: Multitasking)
        requires
            self is OneForAll,
            occupied_slots + paid_slots <= self->OneForAll_number_of_slots,
        ensures
            r.wf(),
            r is OneForAll,
            r->OneForAll_number_of_slots == self->OneForAll_number_of_slots,
            r->OneForAll_amount_per_slot == self->OneForAll_amount_per_slot,
            r->OneForAll_min_slots_to_start == self->OneForAll_min_slots_to_start,
            one_for_all_env(r) == (OneForAllEnv { occupied_slots, paid_slots }),
    {
        match self {
            Multitasking::OneForAll { number_of_slots, amount_per_slot, min_slots_to_start, .. } =>
                Multitasking::OneForAll {
                number_of_slots,
                amount_per_slot,
                min_slots_to_start,
                runtime_env: Some(OneForAllEnv { occupied_slots, paid_slots }),
            },
            _ => {
                proof { assert(false); }
                unreached()
            },
        }
    }

    /// Puts `slot_env` into slot `slot`.
    pub fn set_slot_env(&mut self, slot: usize, slot_env: Option<SubtaskEnv>)
        requires
            *old(self) is DifferentTasks,
            old(self).wf(),
            slot < slots(*old(self)).len(),
        ensures
            final(self).wf(),
            *final(self) is DifferentTasks,
            final(self)->DifferentTasks_subtasks == old(self)->DifferentTasks_subtasks,
            slots(*final(self)) == slots(*old(self)).update(slot as int, slot_env),
            final(self)->DifferentTasks_runtime_env->0.bounty_payout_proposal_id
                == old(self)->DifferentTasks_runtime_env->0.bounty_payout_proposal_id,
    {
        match self {
            Multitasking::DifferentTasks { runtime_env: Some(env), .. } => {
                env.participants.set(slot, slot_env);
            },
            _ => {
                proof { assert(false); }
            },
        }
    }

    /// Records the payout proposal of a bounty with subtasks.
    pub fn set_bounty_payout_proposal_id(self, proposal_id: Option<u64>) -> (r: Multitasking)
        requires
            self is DifferentTasks,
            self.wf(),
        ensures
            r.wf(),
            r is DifferentTasks,
            r->DifferentTasks_subtasks == self->DifferentTasks_subtasks,
            slots(r) == slots(self),
            r->DifferentTasks_runtime_env->0.bounty_payout_proposal_id == proposal_id,
    {
        match self {
            Multitasking::DifferentTasks { subtasks, runtime_env: Some(env) } =>
                Multitasking::DifferentTasks {
                subtasks,
                runtime_env: Some(DifferentTasksEnv {
                    participants: env.participants,
                    bounty_payout_proposal_id: proposal_id,
                }),
            },
            _ => {
                proof { assert(false); }
                unreached()
            },
        }
    }
}

} // verus!
