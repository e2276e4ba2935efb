//! The lifecycle of the sampling task and its transition rules.

use vstd::prelude::*;

verus! {

/// Lifecycle of the sampling task as everyone who shares the state sees it.
#[derive(Clone, Copy, Debug, PartialEq, Eq, Structural)]
pub enum ThreadStatus {
    /// A sampling task is taking readings.
    Running,
    /// The last sampling task ended on a device or decode error.
    Failed,
    /// A stop was requested; the sampling task has not yet seen it.
    Stopping,
    /// No sampling task exists.
    Stopped,
}

/// What a sampling task does after it has reported one outcome.
#[derive(Clone, Copy, Debug, PartialEq, Eq, Structural)]
pub enum SamplerAction {
    /// Take the next reading.
    Continue,
    /// Leave the loop; the task is over.
    Terminate,
}

/// Who asks for a change of status.
#[derive(Clone, Copy, Debug, PartialEq, Eq, Structural)]
pub enum Actor {
    /// The sampling task, reporting on itself.
    Sampler,
    /// A control operation (start or stop).
    Control,
}

impl ThreadStatus {
    /// A sampling task is alive exactly while the status is `Running` or
    /// `Stopping`: the status is the only record of liveness.
    pub open spec fn is_active(self) -> bool {
        self is Running || self is Stopping
    }

    /// The status after a start request whose spawn attempt, if one was made,
    /// ended as `spawned` says. An active task makes the request a no-op.
    pub open spec fn after_start(self, spawned: bool) -> ThreadStatus {
        if self.is_active() {
            self
        } else if spawned {
            ThreadStatus::Running
        } else {
            ThreadStatus::Failed
        }
    }

    /// The status after a stop request. A running task is asked to stop; a
    /// failed session has no task left and is stopped at once.
    pub open spec fn after_stop(self) -> ThreadStatus {
        match self {
            ThreadStatus::Running => ThreadStatus::Stopping,
            ThreadStatus::Failed => ThreadStatus::Stopped,
            ThreadStatus::Stopping => ThreadStatus::Stopping,
            ThreadStatus::Stopped => ThreadStatus::Stopped,
        }
    }

    /// The status after the sampling task has stored a reading and looked for
    /// a stop request.
    pub open spec fn after_sample(self) -> ThreadStatus {
        match self {
            ThreadStatus::Stopping => ThreadStatus::Stopped,
            ThreadStatus::Running => ThreadStatus::Running,
            ThreadStatus::Failed => ThreadStatus::Failed,
            ThreadStatus::Stopped => ThreadStatus::Stopped,
        }
    }

    /// What the sampling task does after a successful sample taken in status
    /// `self`.
    pub open spec fn action_after_sample(self) -> SamplerAction {
        if self is Stopping {
            SamplerAction::Terminate
        } else {
            SamplerAction::Continue
        }
    }

    /// The status after the sampling task has hit a device or decode error.
    pub open spec fn after_fault(self) -> ThreadStatus {
        ThreadStatus::Failed
    }

    /// The changes of status that `actor` may make, identity excluded.
    pub open spec fn may_become(self, next: ThreadStatus, actor: Actor) -> bool {
        match actor {
            Actor::Sampler => {
                ||| self is Running && next is Failed
                ||| self is Stopping && next is Failed
                ||| self is Running && next is Stopped
                ||| self is Stopping && next is Stopped
            },
            Actor::Control => {
                ||| self is Running && next is Stopping
                ||| self is Failed && next is Stopping
                ||| self is Failed && next is Stopped
                ||| self is Stopped && next is Running
                ||| self is Failed && next is Running
                ||| self is Stopped && next is Failed
            },
        }
    }

    /// Whether a sampling task is alive.
    pub fn active(self) -> (r: bool)
        ensures
            r == self.is_active(),
    {
        match self {
            ThreadStatus::Running => true,
            ThreadStatus::Stopping => true,
            ThreadStatus::Failed => false,
            ThreadStatus::Stopped => false,
        }
    }

    /// Whether `actor` may change the status from `self` to `next`.
    pub fn allows(self, next: ThreadStatus, actor: Actor) -> (r: bool)
        ensures
            r == self.may_become(next, actor),
    {
        match actor {
            Actor::Sampler => match (self, next) {
                (ThreadStatus::Running, ThreadStatus::Failed) => true,
                (ThreadStatus::Stopping, ThreadStatus::Failed) => true,
                (ThreadStatus::Running, ThreadStatus::Stopped) => true,
                (ThreadStatus::Stopping, ThreadStatus::Stopped) => true,
                _ => false,
            },
            Actor::Control => match (self, next) {
                (ThreadStatus::Running, ThreadStatus::Stopping) => true,
                (ThreadStatus::Failed, ThreadStatus::Stopping) => true,
                (ThreadStatus::Failed, ThreadStatus::Stopped) => true,
                (ThreadStatus::Stopped, ThreadStatus::Running) => true,
                (ThreadStatus::Failed, ThreadStatus::Running) => true,
                (ThreadStatus::Stopped, ThreadStatus::Failed) => true,
                _ => false,
            },
        }
    }
}

} // verus!
