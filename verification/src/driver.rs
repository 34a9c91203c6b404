//! The order of the kernel invocations of one run.
//!
//! A run warms the kernel up, checks its output once, and then takes its
//! samples. Invoking the kernel and timing it is the caller's work; which
//! invocation comes next, and what becomes of its outcome, is decided here.
//! The caller asks for the next [`Action`], performs it, and reports the
//! outcome as an [`Event`].

use crate::binary64::Binary64;
use crate::common::Duration;
use crate::gate::verify;
use crate::gate::within_tolerance;
use vstd::prelude::*;

verus! {

/// How often the kernel is invoked.
#[derive(Clone, Copy, Debug, PartialEq, Eq, Structural)]
pub struct Plan {
    /// The number of invocations before the first sample.
    pub warm_up: usize,
    /// The number of samples.
    pub repeats: usize,
    /// Whether the output of the kernel goes unchecked.
    pub skip_verification: bool,
}

/// A plan that cannot be carried out.
#[derive(Clone, Copy, Debug, PartialEq, Eq, Structural)]
pub enum PlanError {
    /// The plan asks for no sample.
    NoRepeats,
}

/// What the caller does next.
#[derive(Clone, Copy, Debug, PartialEq, Eq, Structural)]
pub enum Action {
    /// Invoke the kernel and report that it ran. The elapsed time is not
    /// kept.
    WarmUp,
    /// Invoke the kernel, and report the norm of the difference between its
    /// output and the trusted one.
    Check,
    /// Invoke the kernel and report the elapsed time, which is kept.
    Measure,
    /// The samples are complete.
    Finish,
    /// The output of the kernel was rejected. No report is written.
    Abort,
}

/// What the caller reports.
#[derive(Clone, Copy, Debug, PartialEq, Eq, Structural)]
pub enum Event {
    /// The kernel ran for the given time.
    Ran(Duration),
    /// The kernel ran, and the difference between its output and the
    /// trusted one has the given norm.
    Checked(Binary64),
}

/// How far a run has come.
pub struct Progress {
    /// The number of invocations that warmed the kernel up.
    pub warmed: nat,
    /// Whether the output of the kernel was checked and accepted.
    pub accepted: bool,
    /// Whether the output of the kernel was checked and rejected.
    pub rejected: bool,
    /// The samples taken so far.
    pub samples: Seq<Duration>,
}

impl Plan {
    /// Whether a run that has come this far is one that the plan allows:
    /// nothing is done more often than planned, the output is not both
    /// accepted and rejected, and no sample is taken before the kernel is
    /// warm and its output is accepted, unless the check is skipped.
    pub open spec fn allows(self, progress: Progress) -> bool {
        &&& self.repeats > 0
        &&& progress.warmed <= self.warm_up
        &&& progress.samples.len() <= self.repeats
        &&& !(progress.accepted && progress.rejected)
        &&& (progress.accepted || progress.rejected) ==> progress.warmed == self.warm_up
            && !self.skip_verification
        &&& progress.samples.len() > 0 ==> progress.warmed == self.warm_up && !progress.rejected
            && (progress.accepted || self.skip_verification)
    }

    /// The run at its start.
    pub open spec fn start(self) -> Progress {
        Progress { warmed: 0, accepted: false, rejected: false, samples: Seq::empty() }
    }

    /// What the caller does next: the kernel is warmed up, then its output is
    /// checked once, then the samples are taken.
    pub open spec fn action(self, progress: Progress) -> Action {
        if progress.rejected {
            Action::Abort
        } else if progress.warmed < self.warm_up {
            Action::WarmUp
        } else if !self.skip_verification && !progress.accepted {
            Action::Check
        } else if progress.samples.len() < self.repeats {
            Action::Measure
        } else {
            Action::Finish
        }
    }

    /// The run after the caller reported an event. An event that does not
    /// answer the action that was due changes nothing.
    pub open spec fn after(self, progress: Progress, event: Event) -> Progress {
        match (self.action(progress), event) {
            (Action::WarmUp, Event::Ran(_)) => Progress {
                warmed: progress.warmed + 1,
                ..progress
            },
            (Action::Check, Event::Checked(norm)) => Progress {
                accepted: within_tolerance(norm),
                rejected: !within_tolerance(norm),
                ..progress
            },
            (Action::Measure, Event::Ran(elapsed)) => Progress {
                samples: progress.samples.push(elapsed),
                ..progress
            },
            _ => progress,
        }
    }

    /// The number of kernel invocations that are still due, while the output
    /// is not rejected.
    pub open spec fn remaining(self, progress: Progress) -> int {
        (self.warm_up - progress.warmed) + (if self.skip_verification || progress.accepted {
            0int
        } else {
            1int
        }) + (self.repeats - progress.samples.len())
    }
}

/// The state of one run.
pub struct Driver {
    plan: Plan,
    warmed: usize,
    accepted: bool,
    rejected: bool,
    records: Vec<Duration>,
}

impl Driver {
    #[verifier::type_invariant]
    spec fn consistent(self) -> bool {
        self.plan.allows(self.progress())
    }

    /// The plan of the run.
    pub closed spec fn plan(self) -> Plan {
        self.plan
    }

    /// How far the run has come.
    pub closed spec fn progress(self) -> Progress {
        Progress {
            warmed: self.warmed as nat,
            accepted: self.accepted,
            rejected: self.rejected,
            samples: self.records@,
        }
    }

    /// A run at its start, for a plan with at least one sample.
    pub fn new(plan: Plan) -> (driver: Result<Driver, PlanError>)
        ensures
            driver is Ok <==> plan.repeats > 0,
            driver is Err ==> driver == Err::<Driver, PlanError>(PlanError::NoRepeats),
            driver matches Ok(run) ==> run.plan() == plan && run.progress() == plan.start(),
    {
        if plan.repeats == 0 {
            Err(PlanError::NoRepeats)
        } else {
            Ok(Driver { plan, warmed: 0, accepted: false, rejected: false, records: Vec::new() })
        }
    }

    /// What the caller does next.
    pub fn next_action(&self) -> (action: Action)
        ensures
            action == self.plan().action(self.progress()),
    {
        if self.rejected {
            Action::Abort
        } else if self.warmed < self.plan.warm_up {
            Action::WarmUp
        } else if !self.plan.skip_verification && !self.accepted {
            Action::Check
        } else if self.records.len() < self.plan.repeats {
            Action::Measure
        } else {
            Action::Finish
        }
    }

    /// Takes in what the caller reports. Returns the run as it stands then,
    /// and what the caller does next.
    pub fn step(self, event: Event) -> (next: (Driver, Action))
        ensures
            next.0.plan() == self.plan(),
            next.0.progress() == self.plan().after(self.progress(), event),
            next.1 == self.plan().action(next.0.progress()),
    {
        proof {
            use_type_invariant(&self);
        }
        let due = self.next_action();
        let Driver { plan, warmed, accepted, rejected, records } = self;
        let run = match (due, event) {
            (Action::WarmUp, Event::Ran(_)) => Driver {
                plan,
                warmed: warmed + 1,
                accepted,
                rejected,
                records,
            },
            (Action::Check, Event::Checked(norm)) => {
                let passed = verify(norm).is_ok();
                Driver { plan, warmed, accepted: passed, rejected: !passed, records }
            },
            (Action::Measure, Event::Ran(elapsed)) => {
                let mut records = records;
                records.push(elapsed);
                Driver { plan, warmed, accepted, rejected, records }
            },
            _ => Driver { plan, warmed, accepted, rejected, records },
        };
        let action = run.next_action();
        (run, action)
    }

    /// The samples taken so far, in the order in which they were taken.
    pub fn records(&self) -> (records: &Vec<Duration>)
        ensures
            records@ == self.progress().samples,
    {
        &self.records
    }

    /// Whether the samples are complete.
    pub fn is_finished(&self) -> (answer: bool)
        ensures
            answer == (self.plan().action(self.progress()) == Action::Finish),
            answer ==> self.progress().samples.len() == self.plan().repeats && self.plan().repeats
                > 0,
    {
        proof {
            use_type_invariant(self);
        }
        matches!(self.next_action(), Action::Finish)
    }
}

/// Every run that the plan allows stays one after any event.
pub proof fn lemma_after_allowed(plan: Plan, progress: Progress, event: Event)
    requires
        plan.allows(progress),
    ensures
        plan.allows(plan.after(progress, event)),
{
}

/// Where the samples are complete there are as many as planned, and the
/// output of the kernel was accepted unless the check was skipped.
pub proof fn lemma_finish_is_complete(plan: Plan, progress: Progress)
    requires
        plan.allows(progress),
        plan.action(progress) == Action::Finish,
    ensures
        progress.samples.len() == plan.repeats,
        progress.warmed == plan.warm_up,
        progress.accepted || plan.skip_verification,
        !progress.rejected,
{
}

/// An event that answers the action that was due brings the run one
/// invocation closer to its end, or ends it with a rejection. So a run takes
/// `warm_up + repeats` invocations and one more for the check.
pub proof fn lemma_progress(plan: Plan, progress: Progress, event: Event)
    requires
        plan.allows(progress),
    ensures
        plan.remaining(progress) >= 0,
        plan.remaining(plan.start()) == plan.warm_up + plan.repeats + if plan.skip_verification {
            0int
        } else {
            1int
        },
        plan.action(progress) == Action::Finish ==> plan.remaining(progress) == 0,
        plan.after(progress, event) != progress ==> plan.after(progress, event).rejected
            || plan.remaining(plan.after(progress, event)) == plan.remaining(progress) - 1,
{
}

} // verus!
