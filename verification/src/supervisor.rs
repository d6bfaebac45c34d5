//! The supervisor's single slot for the worker process, and the decisions
//! made on spawn, on stop and on the worker's own events.
//!
//! The slot is generic in the handle type `H`: the supervisor never looks
//! inside a handle, it only keeps it, gives it up for termination, or drops
//! it. Callers that share a slot between threads keep it behind a lock and
//! run each of the functions below inside one critical section; each takes
//! the slot by `&mut`, so no second access can interleave.

use vstd::prelude::*;
use crate::text::{optional_number, optional_number_text};

verus! {

/// Why the worker is being stopped. The reason only labels log lines: the
/// stop itself is the same for all of them.
#[derive(Clone, Copy, Debug, PartialEq, Eq, Structural)]
pub enum ShutdownReason {
    RestartRequested,
    CloseRequested,
    ExitRequested,
    Exit,
}

impl ShutdownReason {
    /// The label written into log lines.
    pub open spec fn label_text(self) -> Seq<char> {
        match self {
            ShutdownReason::RestartRequested => "restart_app_command"@,
            ShutdownReason::CloseRequested => "close_requested"@,
            ShutdownReason::ExitRequested => "exit_requested"@,
            ShutdownReason::Exit => "exit"@,
        }
    }

    /// The label written into log lines.
    pub fn label(self) -> (s: &'static str)
        ensures
            s@ == self.label_text(),
    {
        match self {
            ShutdownReason::RestartRequested => "restart_app_command",
            ShutdownReason::CloseRequested => "close_requested",
            ShutdownReason::ExitRequested => "exit_requested",
            ShutdownReason::Exit => "exit",
        }
    }
}

/// Holds the handle of the one worker that may be alive.
pub struct SupervisorSlot<H> {
    worker: Option<H>,
}

/// What `stop_backend` asks of its caller.
pub enum StopOrder<H> {
    /// Request graceful termination of this worker.
    Terminate(H),
    /// No worker was present: nothing to terminate.
    AlreadyStopped,
}

/// How a stop ended.
pub enum StopOutcome {
    /// The worker accepted the termination request.
    Terminated,
    /// The termination request failed with this error.
    Failed(String),
    /// No worker was present.
    AlreadyStopped,
}

/// What the worker's event stream delivers.
pub enum WorkerEvent {
    /// One line of standard output.
    Stdout(String),
    /// One line of standard error.
    Stderr(String),
    /// The stream itself failed.
    Error(String),
    /// The worker exited.
    Terminated { code: Option<i32>, signal: Option<i32> },
    /// Anything else; ignored.
    Other,
}

/// The slot's content after a stop: always empty.
pub open spec fn after_stop<H>(worker: Option<H>) -> Option<H> {
    None
}

/// What a stop asks for, given the slot's content before it.
pub open spec fn stop_order<H>(worker: Option<H>) -> StopOrder<H> {
    match worker {
        Some(handle) => StopOrder::Terminate(handle),
        None => StopOrder::AlreadyStopped,
    }
}

/// The slot's content after a spawn attempt: a new handle replaces whatever
/// was there, a failed spawn changes nothing.
pub open spec fn after_spawn<H>(worker: Option<H>, spawned: Result<H, String>) -> Option<H> {
    match spawned {
        Ok(handle) => Some(handle),
        Err(_) => worker,
    }
}

/// The slot's content after a worker event: termination empties it.
pub open spec fn after_event<H>(worker: Option<H>, event: WorkerEvent) -> Option<H> {
    if event is Terminated {
        None
    } else {
        worker
    }
}

/// The log line for a spawn attempt.
pub open spec fn spawn_message_text<H>(spawned: Result<H, String>) -> Seq<char> {
    match spawned {
        Ok(_) => "Backend iniciado"@,
        Err(error) => "Falha ao iniciar backend: "@ + error@,
    }
}

/// The log line for a finished stop.
pub open spec fn stop_message_text(reason: ShutdownReason, outcome: StopOutcome) -> Seq<char> {
    match outcome {
        StopOutcome::Terminated => "backend finalizado ("@ + reason.label_text() + ")"@,
        StopOutcome::Failed(error) => "falha ao finalizar backend ("@ + reason.label_text() + "): "@
            + error@,
        StopOutcome::AlreadyStopped => "backend ja estava encerrado ("@ + reason.label_text() + ")"@,
    }
}

/// The log line for a worker event, if it has one.
pub open spec fn event_message_text(event: WorkerEvent) -> Option<Seq<char>> {
    match event {
        WorkerEvent::Stdout(line) => Some("backend stdout: "@ + line@),
        WorkerEvent::Stderr(line) => Some("backend stderr: "@ + line@),
        WorkerEvent::Error(error) => Some("backend error: "@ + error@),
        WorkerEvent::Terminated { code, signal } => Some(
            "backend terminated: code="@ + optional_number_text(code) + " signal="@
                + optional_number_text(signal),
        ),
        WorkerEvent::Other => None,
    }
}

impl<H> SupervisorSlot<H> {
    /// The handle held, if any.
    pub closed spec fn worker(&self) -> Option<H> {
        self.worker
    }

    /// The empty slot that the application starts with.
    pub fn new() -> (slot: SupervisorSlot<H>)
        ensures
            slot.worker() is None,
    {
        SupervisorSlot { worker: None }
    }

    /// Whether a worker is held.
    pub fn is_occupied(&self) -> (occupied: bool)
        ensures
            occupied == self.worker() is Some,
    {
        self.worker.is_some()
    }

    /// Puts a handle into the slot, replacing any handle that was there.
    pub fn store(&mut self, handle: H)
        ensures
            final(self).worker() == Some(handle),
    {
        self.worker = Some(handle);
    }

    /// Takes the handle out, leaving the slot empty.
    pub fn take(&mut self) -> (taken: Option<H>)
        ensures
            taken == old(self).worker(),
            final(self).worker() is None,
    {
        self.worker.take()
    }
}

/// Records the result of a spawn attempt and returns the line to log.
///
/// A new handle is stored in the slot in place of whatever was there; a
/// failure leaves the slot as it was. A failed spawn is not an error of the
/// supervisor: the caller logs the line and carries on.
pub fn record_spawn<H>(slot: &mut SupervisorSlot<H>, spawned: Result<H, String>) -> (message:
    String)
    ensures
        final(slot).worker() == after_spawn(old(slot).worker(), spawned),
        message@ == spawn_message_text(spawned),
{
    match spawned {
        Ok(handle) => {
            slot.store(handle);
            String::from_str("Backend iniciado")
        },
        Err(error) => {
            let mut message = String::from_str("Falha ao iniciar backend: ");
            message.append(error.as_str());
            message
        },
    }
}

/// Empties the slot and says what to do with what was in it.
///
/// When a worker was present the caller requests its graceful termination
/// and reports the result with [`stop_message`]; when none was, there is
/// nothing to terminate, which is not an error.
pub fn stop_backend<H>(slot: &mut SupervisorSlot<H>) -> (order: StopOrder<H>)
    ensures
        final(slot).worker() == after_stop(old(slot).worker()),
        order == stop_order(old(slot).worker()),
{
    match slot.take() {
        Some(handle) => StopOrder::Terminate(handle),
        None => StopOrder::AlreadyStopped,
    }
}

/// The line to log once a stop has ended.
pub fn stop_message(reason: ShutdownReason, outcome: &StopOutcome) -> (message: String)
    ensures
        message@ == stop_message_text(reason, *outcome),
{
    match outcome {
        StopOutcome::Terminated => {
            let mut message = String::from_str("backend finalizado (");
            message.append(reason.label());
            message.append(")");
            message
        },
        StopOutcome::Failed(error) => {
            let mut message = String::from_str("falha ao finalizar backend (");
            message.append(reason.label());
            message.append("): ");
            message.append(error.as_str());
            message
        },
        StopOutcome::AlreadyStopped => {
            let mut message = String::from_str("backend ja estava encerrado (");
            message.append(reason.label());
            message.append(")");
            message
        },
    }
}

/// Takes one event of the worker's stream: returns the line to log, if the
/// event has one, and empties the slot when the worker has terminated.
pub fn observe_worker_event<H>(slot: &mut SupervisorSlot<H>, event: &WorkerEvent) -> (message:
    Option<String>)
    ensures
        final(slot).worker() == after_event(old(slot).worker(), *event),
        match message {
            Some(line) => event_message_text(*event) == Some(line@),
            None => event_message_text(*event) is None,
        },
{
    match event {
        WorkerEvent::Stdout(line) => {
            let mut message = String::from_str("backend stdout: ");
            message.append(line.as_str());
            Some(message)
        },
        WorkerEvent::Stderr(line) => {
            let mut message = String::from_str("backend stderr: ");
            message.append(line.as_str());
            Some(message)
        },
        WorkerEvent::Error(error) => {
            let mut message = String::from_str("backend error: ");
            message.append(error.as_str());
            Some(message)
        },
        WorkerEvent::Terminated { code, signal } => {
            let _ = slot.take();
            let mut message = String::from_str("backend terminated: code=");
            let code_text = optional_number(*code);
            message.append(code_text.as_str());
            message.append(" signal=");
            let signal_text = optional_number(*signal);
            message.append(signal_text.as_str());
            Some(message)
        },
        WorkerEvent::Other => None,
    }
}

/// Stopping is idempotent: a second stop in a row finds the slot empty,
/// asks for nothing and leaves the slot as the first stop left it.
pub proof fn law_stop_is_idempotent<H>(worker: Option<H>)
    ensures
        after_stop(worker) is None,
        after_stop(after_stop(worker)) == after_stop(worker),
        stop_order(after_stop(worker)) is AlreadyStopped,
        worker is None ==> stop_order(worker) is AlreadyStopped && after_stop(worker) == worker,
{
}

/// A spawn followed by a stop leaves the slot empty, and the worker asked to
/// terminate is the one just spawned, whatever the slot held before.
pub proof fn law_spawn_then_stop<H>(worker: Option<H>, handle: H)
    ensures
        after_stop(after_spawn(worker, Ok(handle))) is None,
        stop_order(after_spawn(worker, Ok(handle))) == StopOrder::Terminate(handle),
{
}

/// A worker is present only between a successful spawn and the next stop or
/// termination event: a failed spawn never fills an empty slot, and after a
/// termination event a stop finds nothing to terminate.
pub proof fn law_slot_tracks_worker<H>(worker: Option<H>, error: String, event: WorkerEvent)
    ensures
        after_spawn(None::<H>, Err(error)) is None,
        event is Terminated ==> stop_order(after_event(worker, event)) is AlreadyStopped,
        !(event is Terminated) ==> after_event(worker, event) == worker,
{
}

} // verus!
