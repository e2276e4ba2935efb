//! Histories of the shared state: what holds of it after any sequence of
//! starts, stops and reports of the sampling task.
//!
//! Every operation on [`crate::reader::ReaderData`] is one happening; its
//! contract says that it changes the status and the reading as the functions
//! here say. The theorems speak of all sequences of happenings.

use crate::error::ControlError;
use crate::reader::start_reply;
use crate::status::{Actor, SamplerAction, ThreadStatus};
use vstd::prelude::*;

verus! {

/// One step of the system, as the shared state sees it.
pub enum Happening {
    /// A start request; where no task was alive, the spawn attempt ended as
    /// `spawned` says.
    Start { spawned: bool },
    /// A stop request.
    Stop,
    /// The sampling task took `reading` and reported it.
    Sample { reading: dsmr5::state::State },
    /// The sampling task hit a device or decode error and reported it.
    Fault,
}

impl Happening {
    /// Who makes the step.
    pub open spec fn actor(self) -> Actor {
        match self {
            Happening::Start { .. } => Actor::Control,
            Happening::Stop => Actor::Control,
            Happening::Sample { .. } => Actor::Sampler,
            Happening::Fault => Actor::Sampler,
        }
    }
}

/// The status after one happening.
pub open spec fn status_after(status: ThreadStatus, h: Happening) -> ThreadStatus {
    match h {
        Happening::Start { spawned } => status.after_start(spawned),
        Happening::Stop => status.after_stop(),
        Happening::Sample { .. } => status.after_sample(),
        Happening::Fault => status.after_fault(),
    }
}

/// The reading that is held after one happening.
pub open spec fn reading_after(reading: dsmr5::state::State, h: Happening) -> dsmr5::state::State {
    match h {
        Happening::Sample { reading: sampled } => sampled,
        _ => reading,
    }
}

/// The status after a sequence of happenings, the first of them first.
pub open spec fn status_after_all(status: ThreadStatus, hs: Seq<Happening>) -> ThreadStatus
    decreases hs.len(),
{
    if hs.len() == 0 {
        status
    } else {
        status_after(status_after_all(status, hs.drop_last()), hs.last())
    }
}

/// The reading that is held after a sequence of happenings.
pub open spec fn reading_after_all(reading: dsmr5::state::State, hs: Seq<Happening>) -> dsmr5::state::State
    decreases hs.len(),
{
    if hs.len() == 0 {
        reading
    } else {
        reading_after(reading_after_all(reading, hs.drop_last()), hs.last())
    }
}

/// A start that follows a start which was not answered with a spawn error,
/// with nothing in between, is refused because a task is running already.
pub proof fn lemma_second_start_is_refused(status: ThreadStatus, first: bool, second: bool)
    requires
        start_reply(status, first) != Err::<(), ControlError>(ControlError::SpawnError),
    ensures
        start_reply(status.after_start(first), second) == Err::<(), ControlError>(
            ControlError::AlreadyRunning,
        ),
        status.after_start(first).after_start(second) == status.after_start(first),
{
}

/// A start that succeeds leaves the status `Running`, whatever session came
/// before: a stopped system and a failed one start alike.
pub proof fn lemma_start_runs(status: ThreadStatus)
    requires
        !status.is_active(),
    ensures
        start_reply(status, true) is Ok,
        status.after_start(true) == ThreadStatus::Running,
{
}

/// While nothing happens but readings and further start requests, a running
/// system stays running, and the sampling task is told to go on each time.
pub proof fn lemma_running_until_fault_or_stop(hs: Seq<Happening>)
    requires
        forall|i: int| 0 <= i < hs.len() ==> hs[i] is Sample || hs[i] is Start,
    ensures
        status_after_all(ThreadStatus::Running, hs) == ThreadStatus::Running,
        ThreadStatus::Running.action_after_sample() == SamplerAction::Continue,
    decreases hs.len(),
{
    if hs.len() > 0 {
        lemma_running_until_fault_or_stop(hs.drop_last());
    }
}

/// What ends a running session: a fault makes it `Failed` at once; a stop
/// request makes it `Stopping`, and the next reading then makes it `Stopped`
/// and ends the task.
pub proof fn lemma_how_running_ends(reading: dsmr5::state::State)
    ensures
        status_after(ThreadStatus::Running, Happening::Fault) == ThreadStatus::Failed,
        status_after(ThreadStatus::Running, Happening::Stop) == ThreadStatus::Stopping,
        status_after(ThreadStatus::Stopping, Happening::Sample { reading }) == ThreadStatus::Stopped,
        ThreadStatus::Stopping.action_after_sample() == SamplerAction::Terminate,
{
}

/// No single happening takes a running system to `Stopped`: a system that was
/// asked to stop while running is seen `Stopping` first.
pub proof fn lemma_stopped_through_stopping(status: ThreadStatus, h: Happening)
    requires
        status_after(status, h) is Stopped,
        !(status is Stopped),
    ensures
        status is Stopping && h is Sample || status is Failed && h is Stop,
{
}

/// A stop request on a stopped system changes nothing, and a second stop
/// request after any first one changes nothing either.
pub proof fn lemma_stop_is_idempotent(status: ThreadStatus)
    ensures
        ThreadStatus::Stopped.after_stop() == ThreadStatus::Stopped,
        status.after_stop().after_stop() == status.after_stop(),
{
}

/// Every happening leaves the status as it is or changes it as the rules
/// allow its actor to, as long as only a task that is alive reports.
pub proof fn lemma_steps_follow_the_rules(status: ThreadStatus, h: Happening)
    requires
        h.actor() is Sampler ==> status.is_active(),
    ensures
        status_after(status, h) == status || status.may_become(status_after(status, h), h.actor()),
{
}

/// A reading that was stored is never replaced by an older one: whatever
/// happens after `reading` was stored, the reading held then is `reading`
/// itself or one that a later sample stored. So a task that the signal wakes
/// after a store, and that then takes a snapshot, sees that reading or a
/// later one.
pub proof fn lemma_snapshot_is_current_or_later(reading: dsmr5::state::State, later: Seq<Happening>)
    ensures
        reading_after_all(reading, later) == reading || exists|i: int|
            0 <= i < later.len() && #[trigger] later[i] == (Happening::Sample {
                reading: reading_after_all(reading, later),
            }),
    decreases later.len(),
{
    if later.len() > 0 {
        let before = later.drop_last();
        lemma_snapshot_is_current_or_later(reading, before);
        match later.last() {
            Happening::Sample { reading: sampled } => {
                assert(later[later.len() - 1] == Happening::Sample { reading: sampled });
            },
            _ => {
                let held = reading_after_all(reading, before);
                if held != reading {
                    let i = choose|i: int|
                        0 <= i < before.len() && #[trigger] before[i] == (Happening::Sample {
                            reading: held,
                        });
                    assert(later[i] == before[i]);
                }
            },
        }
    }
}

/// The number of sampling tasks that are alive after a happening, where
/// `live` were alive before it: a start that spawns adds one, and a task that
/// is told to terminate is gone.
pub open spec fn live_after(live: nat, status: ThreadStatus, h: Happening) -> nat {
    match h {
        Happening::Start { spawned } => if !status.is_active() && spawned {
            live + 1
        } else {
            live
        },
        Happening::Stop => live,
        Happening::Sample { .. } => if status.action_after_sample() == SamplerAction::Terminate {
            (live - 1) as nat
        } else {
            live
        },
        Happening::Fault => (live - 1) as nat,
    }
}

/// The number of sampling tasks that are alive after a sequence of
/// happenings, where none was alive and the status was `Stopped` before it.
pub open spec fn live_after_all(hs: Seq<Happening>) -> nat
    decreases hs.len(),
{
    if hs.len() == 0 {
        0
    } else {
        live_after(
            live_after_all(hs.drop_last()),
            status_after_all(ThreadStatus::Stopped, hs.drop_last()),
            hs.last(),
        )
    }
}

/// Whether every report in the history comes while a sampling task is
/// alive: only a task that exists can report.
pub open spec fn only_live_tasks_report(hs: Seq<Happening>) -> bool {
    forall|i: int|
        0 <= i < hs.len() && (hs[i] is Sample || hs[i] is Fault) ==> live_after_all(#[trigger] hs.take(i))
            > 0
}

/// At most one sampling task is alive at any time, and one is alive exactly
/// while the status is `Running` or `Stopping`.
pub proof fn lemma_one_sampler(hs: Seq<Happening>)
    requires
        only_live_tasks_report(hs),
    ensures
        live_after_all(hs) <= 1,
        live_after_all(hs) == 1 <==> status_after_all(ThreadStatus::Stopped, hs).is_active(),
    decreases hs.len(),
{
    if hs.len() > 0 {
        let before = hs.drop_last();
        assert forall|i: int|
            0 <= i < before.len() && (before[i] is Sample || before[i] is Fault) implies live_after_all(
            #[trigger] before.take(i),
        ) > 0 by {
            assert(before.take(i) =~= hs.take(i));
            assert(before[i] == hs[i]);
        }
        lemma_one_sampler(before);
        assert(hs.take(hs.len() - 1) =~= before);
    }
}

} // verus!
