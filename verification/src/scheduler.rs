//! The step scheduler: walks a resolved session issuing one dispatch per
//! step, chooses the job of each step per the selected strategy, and never
//! lets more than `shape.parallel` dispatches be in flight at once. The
//! dispatch itself is a capability of the caller: the scheduler hands out the
//! index of the job to launch and is told, one call per dispatch, whether the
//! launch succeeded.

use vstd::prelude::*;

use crate::details::Select;
use crate::job::Job;
use crate::session::Session;
use crate::session::job_values;
use crate::session::session_runnable;
use crate::session::value_bound;
use crate::values::is_picked;
use crate::values::lemma_prefix_sum_mono;
use crate::values::pick_index;
use crate::values::prefix_sum;
use crate::values::seq_sum;

verus! {

/// The phases of a run.
#[derive(Clone, Copy, Debug, PartialEq, Eq, Structural)]
pub enum SchedulerState {
    /// The run has not begun; nothing has been issued.
    Idle,
    /// Steps are being issued.
    Dispatching,
    /// No further step will be issued; dispatches still in flight are
    /// awaited.
    Draining,
    /// The run ended: every issued dispatch completed and no fatal failure
    /// occurred while steps were still owed.
    Done,
    /// The run ended after a fatal failure: in-flight dispatches were
    /// awaited, the remaining steps were never issued.
    Aborted,
}

/// The state of one run: the immutable session plan, the job values and
/// their total (kept alongside for selection arithmetic), the phase, the
/// step cursor, the in-flight count, and the failure record.
pub struct Scheduler {
    /// The resolved plan this run walks; immutable for the run's duration.
    pub session: Session,
    /// The jobs' values, in job order.
    pub values: Vec<u64>,
    /// The sum of all job values.
    pub total: u64,
    /// The phase of the run.
    pub state: SchedulerState,
    /// The step cursor: dispatches issued so far.
    pub issued: u64,
    /// Dispatches issued but not yet reported complete.
    pub in_flight: u64,
    /// Whether a fatal failure (under `Random` or `Linear`) has occurred.
    pub failed: bool,
    /// How many completed dispatches reported failure.
    pub failures: u64,
}

impl Scheduler {
    /// The run's total step count.
    pub open spec fn steps(self) -> u64 {
        self.session.details.shape.steps
    }

    /// The run's concurrency bound.
    pub open spec fn parallel(self) -> u64 {
        self.session.details.shape.parallel
    }

    /// The run's selection strategy.
    pub open spec fn select(self) -> Select {
        self.session.details.shape.select
    }

    /// Dispatches that have been issued and reported complete.
    pub open spec fn completed(self) -> int {
        self.issued - self.in_flight
    }

    /// Whether the strategy can select a job for the next step: under
    /// `Linear` the cursor must not have exhausted the summed allotments;
    /// under `Interleave` and `Random` some job must carry a positive value.
    pub open spec fn can_select(self) -> bool {
        match self.select() {
            Select::Linear => (self.issued as int) < seq_sum(self.values@),
            Select::Interleave => seq_sum(self.values@) > 0,
            Select::Random => seq_sum(self.values@) > 0,
        }
    }

    /// The position that the strategy puts to the prefix-bracketing pick for
    /// the next step: the cursor under `Linear`, the cursor modulo the
    /// chunk-cycle length under `Interleave`, the random draw modulo the
    /// total weight under `Random`.
    pub open spec fn strategy_position(self, draw: u64) -> int {
        match self.select() {
            Select::Linear => self.issued as int,
            Select::Interleave => if seq_sum(self.values@) > 0 {
                (self.issued as int) % seq_sum(self.values@)
            } else {
                0
            },
            Select::Random => if seq_sum(self.values@) > 0 {
                (draw as int) % seq_sum(self.values@)
            } else {
                0
            },
        }
    }

    /// Well-formedness, established by [`Scheduler::new`] and preserved by
    /// every operation. It carries the concurrency obligation — `in_flight`
    /// never exceeds `shape.parallel` — together with the cursor bounds and
    /// the meaning of each phase.
    pub open spec fn wf(self) -> bool {
        &&& session_runnable(self.session)
        &&& self.values@ == job_values(self.session.jobs@)
        &&& self.total as int == seq_sum(self.values@)
        &&& self.in_flight <= self.parallel()
        &&& self.in_flight <= self.issued
        &&& self.issued <= self.steps()
        &&& self.failures as int <= self.completed()
        &&& (self.state is Idle ==> self.issued == 0 && self.in_flight == 0 && !self.failed
            && self.failures == 0)
        &&& (self.state is Dispatching ==> !self.failed && self.issued < self.steps())
        &&& (self.state is Done ==> self.in_flight == 0 && !self.failed)
        &&& (self.state is Aborted ==> self.in_flight == 0 && self.failed)
        &&& (self.failed ==> self.select() is Random || self.select() is Linear)
    }

    /// A scheduler over a resolved session, idle, with nothing issued.
    #[verifier::loop_isolation(false)]
    pub fn new(session: Session) -> (s: Scheduler)
        requires
            session_runnable(session),
        ensures
            s.wf(),
            s.session == session,
            s.state == SchedulerState::Idle,
            s.issued == 0,
            s.in_flight == 0,
            s.failures == 0,
            !s.failed,
    {
        proof {
            assert(value_bound(session.details.shape) <= u64::MAX);
        }
        let mut values: Vec<u64> = Vec::new();
        let mut total: u64 = 0;
        let mut i: usize = 0;
        while i < session.jobs.len()
            invariant
                0 <= i <= session.jobs@.len(),
                values@ =~= job_values(session.jobs@).subrange(0, i as int),
                total == prefix_sum(job_values(session.jobs@), i as int),
            decreases session.jobs@.len() - i,
        {
            let v = session.jobs[i].value;
            proof {
                lemma_prefix_sum_mono(
                    job_values(session.jobs@),
                    i as int + 1,
                    job_values(session.jobs@).len() as int,
                );
            }
            total = total + v;
            values.push(v);
            proof {
                assert(values@ =~= job_values(session.jobs@).subrange(0, i as int + 1));
            }
            i = i + 1;
        }
        proof {
            assert(values@ =~= job_values(session.jobs@));
        }
        Scheduler {
            session,
            values,
            total,
            state: SchedulerState::Idle,
            issued: 0,
            in_flight: 0,
            failed: false,
            failures: 0,
        }
    }

    /// Begins the run: the one transition out of `Idle`.
    pub fn start(&mut self)
        requires
            old(self).wf(),
            old(self).state is Idle,
        ensures
            final(self).wf(),
            final(self).state == SchedulerState::Dispatching,
            final(self).session == old(self).session,
            final(self).values == old(self).values,
            final(self).total == old(self).total,
            final(self).issued == 0,
            final(self).in_flight == 0,
            !final(self).failed,
            final(self).failures == 0,
    {
        self.state = SchedulerState::Dispatching;
    }

    /// Moves a dispatching run that can issue nothing further — the strategy
    /// has no job left to select — towards its end: `Done` at once if nothing
    /// is in flight, else `Draining`.
    fn starve(&mut self)
        requires
            old(self).wf(),
            old(self).state is Dispatching,
        ensures
            final(self).wf(),
            final(self).session == old(self).session,
            final(self).values == old(self).values,
            final(self).total == old(self).total,
            final(self).issued == old(self).issued,
            final(self).in_flight == old(self).in_flight,
            final(self).failed == old(self).failed,
            final(self).failures == old(self).failures,
            final(self).state == (if old(self).in_flight == 0 {
                SchedulerState::Done
            } else {
                SchedulerState::Draining
            }),
    {
        if self.in_flight == 0 {
            self.state = SchedulerState::Done;
        } else {
            self.state = SchedulerState::Draining;
        }
    }

    /// Issues the next step, if the run is dispatching, the concurrency bound
    /// leaves room, and the strategy can select a job: the returned index is
    /// the job of the prefix-bracketing pick at the strategy's position —
    /// strict sequence under `Linear`, round-robin chunk order under
    /// `Interleave`, the weighted draw under `Random`. When the strategy has
    /// nothing left to select, the run moves towards its end instead.
    pub fn next_dispatch(&mut self, draw: u64) -> (r: Option<usize>)
        requires
            old(self).wf(),
        ensures
            final(self).wf(),
            final(self).session == old(self).session,
            final(self).values == old(self).values,
            final(self).total == old(self).total,
            final(self).failed == old(self).failed,
            final(self).failures == old(self).failures,
            final(self).in_flight <= final(self).parallel(),
            match r {
                Some(idx) => {
                    &&& old(self).state is Dispatching
                    &&& old(self).in_flight < old(self).parallel()
                    &&& old(self).can_select()
                    &&& is_picked(old(self).values@, old(self).strategy_position(draw), idx as int)
                    &&& final(self).issued == old(self).issued + 1
                    &&& final(self).in_flight == old(self).in_flight + 1
                    &&& final(self).state == (if old(self).issued + 1 == old(self).steps() {
                        SchedulerState::Draining
                    } else {
                        SchedulerState::Dispatching
                    })
                },
                None => {
                    &&& final(self).issued == old(self).issued
                    &&& final(self).in_flight == old(self).in_flight
                    &&& (old(self).state is Dispatching && old(self).in_flight < old(
                        self,
                    ).parallel() ==> !old(self).can_select() && final(self).state == (if old(
                        self,
                    ).in_flight == 0 {
                        SchedulerState::Done
                    } else {
                        SchedulerState::Draining
                    }))
                    &&& (!(old(self).state is Dispatching && old(self).in_flight < old(
                        self,
                    ).parallel()) ==> final(self).state == old(self).state)
                },
            },
    {
        if !(self.state == SchedulerState::Dispatching) {
            return None;
        }
        if self.in_flight >= self.session.details.shape.parallel {
            return None;
        }
        let idx: usize;
        match self.session.details.shape.select {
            Select::Linear => {
                if self.issued < self.total {
                    idx = pick_index(&self.values, self.issued);
                } else {
                    self.starve();
                    return None;
                }
            },
            Select::Interleave => {
                if self.total == 0 {
                    self.starve();
                    return None;
                }
                idx = pick_index(&self.values, self.issued % self.total);
            },
            Select::Random => {
                if self.total == 0 {
                    self.starve();
                    return None;
                }
                idx = pick_index(&self.values, draw % self.total);
            },
        }
        self.issued = self.issued + 1;
        self.in_flight = self.in_flight + 1;
        if self.issued == self.session.details.shape.steps {
            self.state = SchedulerState::Draining;
        }
        Some(idx)
    }

    /// Takes the report that one in-flight dispatch has completed. A failure
    /// is recorded; under `Random` and `Linear` a failure while steps were
    /// still owed is fatal: issuance stops and the run drains towards
    /// `Aborted`. Under `Interleave` the run continues regardless. Once the
    /// last in-flight dispatch of a draining run completes, the run ends:
    /// `Aborted` after a fatal failure, `Done` otherwise.
    pub fn on_completion(&mut self, ok: bool)
        requires
            old(self).wf(),
            old(self).in_flight > 0,
        ensures
            final(self).wf(),
            final(self).session == old(self).session,
            final(self).values == old(self).values,
            final(self).total == old(self).total,
            final(self).issued == old(self).issued,
            final(self).in_flight == old(self).in_flight - 1,
            final(self).failures as int == old(self).failures as int + (if ok {
                0int
            } else {
                1int
            }),
            ({
                let fatal = !ok && old(self).state is Dispatching && (old(self).select() is Random
                    || old(self).select() is Linear);
                let mid = if fatal {
                    SchedulerState::Draining
                } else {
                    old(self).state
                };
                &&& final(self).failed == (old(self).failed || fatal)
                &&& final(self).state == (if mid is Draining && old(self).in_flight == 1 {
                    if old(self).failed || fatal {
                        SchedulerState::Aborted
                    } else {
                        SchedulerState::Done
                    }
                } else {
                    mid
                })
            }),
    {
        self.in_flight = self.in_flight - 1;
        if !ok {
            self.failures = self.failures + 1;
            let fatal_strategy = match self.session.details.shape.select {
                Select::Random => true,
                Select::Linear => true,
                Select::Interleave => false,
            };
            if fatal_strategy && self.state == SchedulerState::Dispatching {
                self.failed = true;
                self.state = SchedulerState::Draining;
            }
        }
        if self.state == SchedulerState::Draining && self.in_flight == 0 {
            if self.failed {
                self.state = SchedulerState::Aborted;
            } else {
                self.state = SchedulerState::Done;
            }
        }
    }

    /// The job that a dispatch index returned by
    /// [`Scheduler::next_dispatch`] names.
    pub fn job(&self, idx: usize) -> (j: &Job)
        requires
            idx < self.session.jobs@.len(),
        ensures
            *j == self.session.jobs@[idx as int],
    {
        &self.session.jobs[idx]
    }
}

/// Law: at no reachable state of a run do more than `shape.parallel`
/// dispatches stand in flight, whatever the strategy.
pub proof fn lemma_concurrency_bounded(s: Scheduler)
    requires
        s.wf(),
    ensures
        s.in_flight <= s.session.details.shape.parallel,
{
}

} // verus!
