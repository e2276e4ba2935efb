//! The shared state: the latest reading and the status of the sampling task,
//! with the steps that the sampling task and the control operations take on
//! it.

use crate::appdata::AppData;
use crate::error::{ControlError, SamplerFault};
use crate::status::{Actor, SamplerAction, ThreadStatus};
use vstd::prelude::*;

verus! {

/// `dsmr5::state::State`: a reading, stored and handed on without a look
/// inside.
#[verifier::external_type_specification]
#[verifier::external_body]
pub struct ExState(dsmr5::state::State);

/// `serde_json::Error`: why a reading could not be serialized.
#[verifier::external_type_specification]
#[verifier::external_body]
pub struct ExJsonError(serde_json::Error);

/// The JSON text, as bytes, that `serde_json::to_vec` gives for a reading;
/// `None` where it gives an error.
pub uninterp spec fn reading_json(state: dsmr5::state::State) -> Option<Seq<u8>>;

/// `dsmr5::state::State::default`: the reading that is held before any
/// sample was taken. Nothing is claimed of it.
#[verifier::external_body]
fn empty_reading() -> dsmr5::state::State {
    dsmr5::state::State::default()
}

/// `serde_json::to_vec` on a reading. The contract only gives its outcome the
/// name [`reading_json`]: the same reading always serializes to the same
/// bytes.
#[verifier::external_body]
fn to_json(state: &dsmr5::state::State) -> (r: Result<Vec<u8>, serde_json::Error>)
    ensures
        match r {
            Ok(bytes) => reading_json(*state) == Some(bytes@),
            Err(_) => reading_json(*state) is None,
        },
{
    serde_json::to_vec(state)
}

/// The single source of truth of the service: the latest reading that was
/// decoded, and the status of the sampling task.
pub struct ReaderData {
    dsmr_state: dsmr5::state::State,
    thread_status: ThreadStatus,
}

impl ReaderData {
    /// The latest reading.
    pub closed spec fn reading(self) -> dsmr5::state::State {
        self.dsmr_state
    }

    /// The status of the sampling task.
    pub closed spec fn status(self) -> ThreadStatus {
        self.thread_status
    }

    /// The state of a service that has not sampled yet: no sampling task, and
    /// the empty reading.
    pub fn new() -> (r: Self)
        ensures
            r.status() == ThreadStatus::Stopped,
    {
        ReaderData { dsmr_state: empty_reading(), thread_status: ThreadStatus::Stopped }
    }

    /// The latest reading; the empty one if none was sampled yet.
    pub fn snapshot_reading(&self) -> (r: &dsmr5::state::State)
        ensures
            *r == self.reading(),
    {
        &self.dsmr_state
    }

    /// The status of the sampling task.
    pub fn snapshot_status(&self) -> (r: ThreadStatus)
        ensures
            r == self.status(),
    {
        self.thread_status
    }

    /// Whether a sampling task is alive. A start is refused while this holds.
    pub fn is_sampler_active(&self) -> (r: bool)
        ensures
            r == self.status().is_active(),
    {
        self.thread_status.active()
    }

    /// Replaces the latest reading. Only the sampling task calls this.
    pub fn set_reading(&mut self, reading: dsmr5::state::State)
        ensures
            final(self).reading() == reading,
            final(self).status() == old(self).status(),
    {
        self.dsmr_state = reading;
    }

    /// Changes the status to `next` if `actor` may make that change, and says
    /// whether it did. A change that the rules do not allow is not made.
    pub fn set_status(&mut self, next: ThreadStatus, actor: Actor) -> (changed: bool)
        ensures
            changed == old(self).status().may_become(next, actor),
            final(self).status() == if changed {
                next
            } else {
                old(self).status()
            },
            final(self).reading() == old(self).reading(),
    {
        if self.thread_status.allows(next, actor) {
            self.thread_status = next;
            true
        } else {
            false
        }
    }

    /// The latest reading as JSON text.
    pub fn latest_reading(&self) -> (r: Result<Vec<u8>, ControlError>)
        ensures
            match reading_json(self.reading()) {
                Some(bytes) => r is Ok && r->Ok_0@ == bytes,
                None => r == Err::<Vec<u8>, ControlError>(ControlError::SerializationFailed),
            },
    {
        match to_json(&self.dsmr_state) {
            Ok(bytes) => Ok(bytes),
            Err(_) => Err(ControlError::SerializationFailed),
        }
    }

    /// One turn of the sampling task's loop, after it has tried to take a
    /// reading with the outcome `outcome`.
    ///
    /// A reading is stored and announced on the signal of `appdata`; only then
    /// is a pending stop request looked for, and honoured by ending the task.
    /// A fault ends the session at once, with the old reading kept.
    pub fn sampler_step(
        &mut self,
        outcome: Result<dsmr5::state::State, SamplerFault>,
        appdata: &AppData,
    ) -> (action: SamplerAction)
        ensures
            match outcome {
                Ok(reading) => {
                    &&& final(self).reading() == reading
                    &&& final(self).status() == old(self).status().after_sample()
                    &&& action == old(self).status().action_after_sample()
                },
                Err(_) => {
                    &&& final(self).reading() == old(self).reading()
                    &&& final(self).status() == old(self).status().after_fault()
                    &&& action == SamplerAction::Terminate
                },
            },
    {
        match outcome {
            Ok(reading) => {
                self.dsmr_state = reading;
                appdata.emit_event();
                match self.thread_status {
                    ThreadStatus::Stopping => {
                        self.thread_status = ThreadStatus::Stopped;
                        SamplerAction::Terminate
                    },
                    _ => SamplerAction::Continue,
                }
            },
            Err(_) => {
                self.thread_status = ThreadStatus::Failed;
                SamplerAction::Terminate
            },
        }
    }
}

impl Default for ReaderData {
    fn default() -> (r: Self)
        ensures
            r.status() == ThreadStatus::Stopped,
    {
        ReaderData::new()
    }
}

/// Spawns a sampling task through `spawn`, which says whether it could, and
/// records the outcome: `Running` where the task exists, `Failed` where it
/// does not. No task may be alive when this is called.
pub fn spawn_dsmr_thread<F: FnOnce() -> bool>(data: &mut ReaderData, spawn: F) -> (r: Result<
    (),
    ControlError,
>)
    requires
        !old(data).status().is_active(),
        call_requires(spawn, ()),
    ensures
        final(data).reading() == old(data).reading(),
        exists|spawned: bool|
            {
                &&& #[trigger] call_ensures(spawn, (), spawned)
                &&& final(data).status() == old(data).status().after_start(spawned)
                &&& r == spawn_result(spawned)
            },
{
    let spawned = spawn();
    if spawned {
        data.thread_status = ThreadStatus::Running;
        Ok(())
    } else {
        data.thread_status = ThreadStatus::Failed;
        Err(ControlError::SpawnError)
    }
}

/// What a start reports when no task was alive and the spawn attempt ended as
/// `spawned` says.
pub open spec fn spawn_result(spawned: bool) -> Result<(), ControlError> {
    if spawned {
        Ok(())
    } else {
        Err(ControlError::SpawnError)
    }
}

/// What a start request is answered when the status is `status` and the
/// spawn attempt, if one is made, ends as `spawned` says.
pub open spec fn start_reply(status: ThreadStatus, spawned: bool) -> Result<(), ControlError> {
    if status.is_active() {
        Err(ControlError::AlreadyRunning)
    } else {
        spawn_result(spawned)
    }
}

} // verus!
