//! Control-flow directives and the dispatch timeouts derived from them.
//!
//! Time points are nanoseconds since an epoch that the driving loop picks once;
//! durations are nanoseconds.
use vstd::prelude::*;

verus! {

/// What the application asks the loop to do after an event.
#[derive(Debug, Clone, Copy, PartialEq, Eq, Structural)]
pub enum ControlFlow {
    /// Dispatch without blocking.
    Poll,
    /// Block until some source is ready.
    Wait,
    /// Block until some source is ready or the deadline passes.
    WaitUntil(u64),
    /// Stop the loop and return the code.
    ExitWithCode(i32),
}

/// What the next dispatch call should do.
#[derive(Debug, Clone, Copy, PartialEq, Eq, Structural)]
pub enum DispatchPlan {
    /// Do not dispatch: the loop ends with this code.
    Exit(i32),
    /// Dispatch once, blocking for at most the duration (`None`: no limit).
    Block(Option<u64>),
}

/// Why a loop iteration started.
#[derive(Debug, Clone, Copy, PartialEq, Eq, Structural)]
#[allow(inconsistent_fields)]
pub enum StartCause {
    Init,
    Poll,
    WaitCancelled { start: u64, requested_resume: Option<u64> },
    ResumeTimeReached { start: u64, requested_resume: u64 },
}

/// The blocking duration that a directive asks for at time `now`.
pub open spec fn plan_of(cf: ControlFlow, now: u64) -> DispatchPlan {
    match cf {
        ControlFlow::Poll => DispatchPlan::Block(Some(0)),
        ControlFlow::Wait => DispatchPlan::Block(None),
        ControlFlow::WaitUntil(deadline) => DispatchPlan::Block(
            Some(if deadline > now { (deadline - now) as u64 } else { 0 }),
        ),
        ControlFlow::ExitWithCode(code) => DispatchPlan::Exit(code),
    }
}

impl ControlFlow {
    /// Decides how long the next dispatch may block: not at all for `Poll`,
    /// without limit for `Wait`, until the deadline (or not at all once it has
    /// passed) for `WaitUntil`; `ExitWithCode` skips the dispatch.
    pub fn plan_dispatch(self, now: u64) -> (r: DispatchPlan)
        ensures
            r == plan_of(self, now),
    {
        match self {
            ControlFlow::Poll => DispatchPlan::Block(Some(0)),
            ControlFlow::Wait => DispatchPlan::Block(None),
            ControlFlow::WaitUntil(deadline) => {
                if deadline > now {
                    DispatchPlan::Block(Some(deadline - now))
                } else {
                    DispatchPlan::Block(Some(0))
                }
            },
            ControlFlow::ExitWithCode(code) => DispatchPlan::Exit(code),
        }
    }
}

/// Why the iteration that follows a dispatch started: `start` is the time taken
/// before the dispatch, `now` the time after it.
pub open spec fn cause_of(cf: ControlFlow, start: u64, now: u64) -> StartCause {
    match cf {
        ControlFlow::Poll => StartCause::Poll,
        ControlFlow::Wait => StartCause::WaitCancelled { start: now, requested_resume: None },
        ControlFlow::WaitUntil(deadline) => if now < deadline {
            StartCause::WaitCancelled { start, requested_resume: Some(deadline) }
        } else {
            StartCause::ResumeTimeReached { start, requested_resume: deadline }
        },
        ControlFlow::ExitWithCode(_) => StartCause::Init,
    }
}

/// The directive in force after a callback that asked for `requested`: an exit
/// that was already requested sticks where the event is one that keeps it.
pub open spec fn control_flow_after(current: ControlFlow, keeps_exit: bool, requested: ControlFlow) -> ControlFlow {
    if keeps_exit && current is ExitWithCode {
        current
    } else {
        requested
    }
}

/// The exit code of a loop whose dispatch failed.
pub open spec fn exit_code_of(raw_os_error: Option<i32>) -> i32 {
    match raw_os_error {
        Some(code) => code,
        None => 1,
    }
}

impl ControlFlow {
    /// The start cause reported after a dispatch under this directive: `Poll`
    /// for `Poll`; for `Wait`, cancelled at the time after the dispatch; for
    /// `WaitUntil`, whether the deadline was reached by `now`.
    pub fn start_cause(self, start: u64, now: u64) -> (r: StartCause)
        requires
            !(self is ExitWithCode),
        ensures
            r == cause_of(self, start, now),
    {
        match self {
            ControlFlow::Poll => StartCause::Poll,
            ControlFlow::Wait => StartCause::WaitCancelled { start: now, requested_resume: None },
            ControlFlow::WaitUntil(deadline) => {
                if now < deadline {
                    StartCause::WaitCancelled { start, requested_resume: Some(deadline) }
                } else {
                    StartCause::ResumeTimeReached { start, requested_resume: deadline }
                }
            },
            ControlFlow::ExitWithCode(_) => StartCause::Init,
        }
    }

    /// The directive after a callback asked for `requested`.
    pub fn after_callback(self, keeps_exit: bool, requested: ControlFlow) -> (r: ControlFlow)
        ensures
            r == control_flow_after(self, keeps_exit, requested),
    {
        match self {
            ControlFlow::ExitWithCode(_) if keeps_exit => self,
            _ => requested,
        }
    }
}

/// The exit code for a failed dispatch: the system error's code, else 1.
pub fn exit_code_for_error(raw_os_error: Option<i32>) -> (r: i32)
    ensures
        r == exit_code_of(raw_os_error),
{
    match raw_os_error {
        Some(code) => code,
        None => 1,
    }
}

/// `Poll` never blocks; `Wait` blocks without limit; `WaitUntil(t)` blocks for
/// `max(0, t - now)` and afterwards reports the deadline reached exactly when
/// the time after the dispatch is at least `t`.
pub proof fn lemma_dispatch_timeouts(t: u64, start: u64, now: u64, after: u64)
    ensures
        plan_of(ControlFlow::Poll, now) == DispatchPlan::Block(Some(0)),
        plan_of(ControlFlow::Wait, now) == DispatchPlan::Block(None),
        plan_of(ControlFlow::WaitUntil(t), now) == DispatchPlan::Block(
            Some(if t >= now { (t - now) as u64 } else { 0 }),
        ),
        cause_of(ControlFlow::WaitUntil(t), start, after) is ResumeTimeReached <==> after >= t,
        cause_of(ControlFlow::WaitUntil(t), start, after) is WaitCancelled <==> after < t,
{
}

/// The blocking limit of a dispatch once a timer due at `due` must also wake
/// it: the sooner of the two, where the timer's limit is the time left until
/// it is due (none once it is due).
pub open spec fn bounded_timeout(limit: Option<u64>, due: Option<u64>, now: u64) -> Option<u64> {
    match due {
        None => limit,
        Some(d) => {
            let left: u64 = if d > now { (d - now) as u64 } else { 0 };
            match limit {
                Some(l) => Some(if l < left { l } else { left }),
                None => Some(left),
            }
        },
    }
}

/// Bounds a dispatch's blocking limit by a timer due at `due`.
pub fn bound_by_timer(limit: Option<u64>, due: Option<u64>, now: u64) -> (r: Option<u64>)
    ensures
        r == bounded_timeout(limit, due, now),
{
    match due {
        None => limit,
        Some(d) => {
            let left: u64 = if d > now {
                d - now
            } else {
                0
            };
            match limit {
                Some(l) => Some(if l < left {
                    l
                } else {
                    left
                }),
                None => Some(left),
            }
        },
    }
}

} // verus!
