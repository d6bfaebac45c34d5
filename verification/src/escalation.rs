//! Shutdown escalation and restart coordination.
//!
//! Three pieces, each a decision procedure that performs nothing itself:
//!
//! * [`wait_backend_port_release`] decides, after each probe of the worker's
//!   port, whether the wait is over;
//! * [`force_kill_backend_processes`] lists the forced terminations to run
//!   where the platform can terminate processes by image name;
//! * [`restart_app`] sequences stop, port wait, forced termination and
//!   relaunch.

use vstd::prelude::*;
use crate::supervisor::ShutdownReason;
use crate::text::{
    decimal,
    decimal_text,
    optional_number,
    optional_number_text,
    or_dash,
    or_dash_text,
    trimmed,
    trimmed_text,
};

verus! {

/// The loopback port that the worker listens on.
pub const BACKEND_PORT: u16 = 8000;

/// Pause between two probes of the port.
pub const PORT_POLL_INTERVAL_MS: u64 = 120;

/// Time allowed to each wait for the port during a restart.
pub const PORT_WAIT_TIMEOUT_MS: u64 = 3000;

/// Pause after a forced termination, to let the system reclaim the port.
pub const KILL_SETTLE_MS: u64 = 300;

/// What follows one probe of the port.
#[derive(Clone, Copy, Debug, PartialEq, Eq, Structural)]
pub enum PortWaitDecision {
    /// The port could be bound: the wait ends with success.
    Free,
    /// The time is up and the port is still taken: the wait ends with failure.
    StillOccupied,
    /// Sleep for this many milliseconds, then read the clock and probe again.
    RetryAfter(u64),
}

/// The decision after a probe made `elapsed_ms` after the wait began.
pub open spec fn port_wait_decision(elapsed_ms: u64, timeout_ms: u64, port_free: bool)
    -> PortWaitDecision {
    if port_free {
        PortWaitDecision::Free
    } else if elapsed_ms < timeout_ms {
        PortWaitDecision::RetryAfter(PORT_POLL_INTERVAL_MS)
    } else {
        PortWaitDecision::StillOccupied
    }
}

/// Decides how a wait for the port goes on.
///
/// The caller reads its clock, then tries to bind the port, then calls this
/// with the time elapsed since the wait began and the result of the bind. A
/// free port ends the wait at once. A taken port is probed again after a
/// short pause as long as the clock reading was below the timeout; the probe
/// made at or after the timeout is the last one and its result stands.
pub fn wait_backend_port_release(elapsed_ms: u64, timeout_ms: u64, port_free: bool) -> (decision:
    PortWaitDecision)
    ensures
        decision == port_wait_decision(elapsed_ms, timeout_ms, port_free),
{
    if port_free {
        PortWaitDecision::Free
    } else if elapsed_ms < timeout_ms {
        PortWaitDecision::RetryAfter(PORT_POLL_INTERVAL_MS)
    } else {
        PortWaitDecision::StillOccupied
    }
}

/// A wait for the port succeeds the moment a probe finds the port free,
/// fails only on a probe made at or after the timeout, and never asks for
/// another probe once the timeout has passed.
pub proof fn law_port_wait(elapsed_ms: u64, timeout_ms: u64, port_free: bool)
    ensures
        port_free <==> port_wait_decision(elapsed_ms, timeout_ms, port_free) is Free,
        port_wait_decision(elapsed_ms, timeout_ms, port_free) is StillOccupied <==> !port_free
            && elapsed_ms >= timeout_ms,
        port_wait_decision(elapsed_ms, timeout_ms, port_free) is RetryAfter <==> !port_free
            && elapsed_ms < timeout_ms,
        elapsed_ms >= timeout_ms ==> !(port_wait_decision(elapsed_ms, timeout_ms, port_free)
            is RetryAfter),
{
}

/// Whether this platform can terminate processes by image name.
#[derive(Clone, Copy, Debug, PartialEq, Eq, Structural)]
pub enum KillCapability {
    /// `taskkill` is available.
    Taskkill,
    /// No such facility: forced termination is a no-op.
    Unavailable,
}

/// One forced termination: every process with this image name, with its children.
pub struct KillCommand {
    pub image: String,
}

/// How one forced termination went.
pub enum KillOutcome {
    /// The command ran and exited.
    Ran { code: Option<i32>, stdout: String, stderr: String },
    /// The command could not be run.
    Failed(String),
}

/// The image name of the worker as installed.
pub open spec fn plain_image_text() -> Seq<char> {
    "estoque_backend.exe"@
}

/// The image name of the worker as built for its target.
pub open spec fn qualified_image_text() -> Seq<char> {
    "estoque_backend-x86_64-pc-windows-msvc.exe"@
}

/// The arguments that terminate all processes of `image`, children included.
pub open spec fn kill_arguments_text(image: Seq<char>) -> Seq<Seq<char>> {
    seq!["/F"@, "/T"@, "/IM"@, image]
}

/// The log line for a finished forced termination.
pub open spec fn taskkill_report_text(image: Seq<char>, outcome: KillOutcome) -> Seq<char> {
    match outcome {
        KillOutcome::Ran { code, stdout, stderr } => "taskkill "@ + image + ": code="@
            + optional_number_text(code) + " stdout="@ + or_dash_text(trimmed_text(stdout@))
            + " stderr="@ + or_dash_text(trimmed_text(stderr@)),
        KillOutcome::Failed(error) => "taskkill "@ + image + " falhou: "@ + error@,
    }
}

/// The images to terminate, in order, under a given capability.
pub open spec fn kill_plan_text(capability: KillCapability) -> Seq<Seq<char>> {
    match capability {
        KillCapability::Taskkill => seq![plain_image_text(), qualified_image_text()],
        KillCapability::Unavailable => Seq::empty(),
    }
}

/// The image names of a list of commands.
pub open spec fn images_of(plan: Seq<KillCommand>) -> Seq<Seq<char>> {
    plan.map_values(|command: KillCommand| command.image@)
}

/// The texts of a list of strings.
pub open spec fn texts_of(items: Seq<String>) -> Seq<Seq<char>> {
    items.map_values(|item: String| item@)
}

impl KillCommand {
    /// The program to run.
    pub fn program(&self) -> (name: &'static str)
        ensures
            name@ == "taskkill"@,
    {
        "taskkill"
    }

    /// The arguments to run it with.
    pub fn arguments(&self) -> (args: Vec<String>)
        ensures
            texts_of(args@) == kill_arguments_text(self.image@),
    {
        let mut args: Vec<String> = Vec::new();
        args.push(String::from_str("/F"));
        args.push(String::from_str("/T"));
        args.push(String::from_str("/IM"));
        args.push(self.image.clone());
        assert(texts_of(args@) =~= kill_arguments_text(self.image@));
        args
    }
}

/// The forced termination of all processes with the given image name.
pub fn taskkill_image(image: &str) -> (command: KillCommand)
    ensures
        command.image@ == image@,
{
    KillCommand { image: String::from_str(image) }
}

/// The line to log once a forced termination has ended. Failures are only
/// logged: this is a last resort and best effort.
pub fn taskkill_report(image: &str, outcome: &KillOutcome) -> (message: String)
    ensures
        message@ == taskkill_report_text(image@, *outcome),
{
    let mut message = String::from_str("taskkill ");
    message.append(image);
    match outcome {
        KillOutcome::Ran { code, stdout, stderr } => {
            message.append(": code=");
            let code_text = optional_number(*code);
            message.append(code_text.as_str());
            message.append(" stdout=");
            let out_text = or_dash(trimmed(stdout.as_str()));
            message.append(out_text.as_str());
            message.append(" stderr=");
            let err_text = or_dash(trimmed(stderr.as_str()));
            message.append(err_text.as_str());
        },
        KillOutcome::Failed(error) => {
            message.append(" falhou: ");
            message.append(error.as_str());
        },
    }
    message
}

/// Lists the forced terminations of the worker's known images: both image
/// names where the platform can terminate by image name, nothing elsewhere.
pub fn force_kill_backend_processes(capability: KillCapability) -> (plan: Vec<KillCommand>)
    ensures
        images_of(plan@) == kill_plan_text(capability),
{
    let mut plan: Vec<KillCommand> = Vec::new();
    match capability {
        KillCapability::Taskkill => {
            plan.push(taskkill_image("estoque_backend.exe"));
            plan.push(taskkill_image("estoque_backend-x86_64-pc-windows-msvc.exe"));
        },
        KillCapability::Unavailable => {},
    }
    assert(images_of(plan@) =~= kill_plan_text(capability));
    plan
}

/// Where a restart stands.
#[derive(Clone, Copy, Debug, PartialEq, Eq, Structural)]
pub enum RestartPhase {
    /// No restart is under way.
    Idle,
    /// The worker is being stopped.
    Stopping,
    /// Waiting for the port after the stop.
    FirstWait,
    /// The worker's images are being terminated by force.
    Killing,
    /// Pausing after the forced termination.
    Settling,
    /// Waiting for the port before the relaunch.
    SecondWait,
    /// The application has been told to relaunch.
    Relaunching,
}

/// What the caller reports to the coordinator.
#[derive(Clone, Copy, Debug, PartialEq, Eq, Structural)]
pub enum RestartEvent {
    /// The restart command was invoked.
    Invoked,
    /// The stop has been carried out.
    Stopped,
    /// A wait for the port has ended, with the port free or not.
    PortWaitEnded { free: bool },
    /// The forced terminations have been run.
    KillAttempted,
    /// The pause is over.
    Settled,
}

/// What the coordinator asks of the caller.
#[derive(Clone, Copy, Debug, PartialEq, Eq, Structural)]
pub enum RestartAction {
    /// Stop the worker, giving this reason.
    Stop(ShutdownReason),
    /// Wait for the port to be released, for at most this long.
    WaitForPort { timeout_ms: u64 },
    /// Run the forced terminations.
    ForceKill,
    /// Sleep for this long.
    Sleep { ms: u64 },
    /// Relaunch the application.
    Relaunch,
    /// The event does not belong to the current phase: do nothing.
    Ignore,
}

/// A line for the log that goes with a step.
#[derive(Clone, Copy, Debug, PartialEq, Eq, Structural)]
pub enum RestartNote {
    /// The command was invoked.
    Invoked,
    /// The port was still taken after the stop.
    PortBusyAfterStop,
    /// The port was still taken before the relaunch; the relaunch goes ahead.
    PortBusyBeforeRestart,
}

/// One step of a restart: the phase entered, what to do, and what to log first.
#[derive(Clone, Copy, Debug, PartialEq, Eq, Structural)]
pub struct RestartStep {
    pub phase: RestartPhase,
    pub action: RestartAction,
    pub note: Option<RestartNote>,
}

/// Whether `event` is the one that `phase` is waiting for.
pub open spec fn restart_expects(phase: RestartPhase, event: RestartEvent) -> bool {
    match phase {
        RestartPhase::Idle => event is Invoked,
        RestartPhase::Stopping => event is Stopped,
        RestartPhase::FirstWait => event is PortWaitEnded,
        RestartPhase::Killing => event is KillAttempted,
        RestartPhase::Settling => event is Settled,
        RestartPhase::SecondWait => event is PortWaitEnded,
        RestartPhase::Relaunching => false,
    }
}

/// The step taken in `phase` on `event`.
pub open spec fn restart_step(phase: RestartPhase, event: RestartEvent) -> RestartStep {
    match (phase, event) {
        (RestartPhase::Idle, RestartEvent::Invoked) => RestartStep {
            phase: RestartPhase::Stopping,
            action: RestartAction::Stop(ShutdownReason::RestartRequested),
            note: Some(RestartNote::Invoked),
        },
        (RestartPhase::Stopping, RestartEvent::Stopped) => RestartStep {
            phase: RestartPhase::FirstWait,
            action: RestartAction::WaitForPort { timeout_ms: PORT_WAIT_TIMEOUT_MS },
            note: None,
        },
        (RestartPhase::FirstWait, RestartEvent::PortWaitEnded { free }) => if free {
            RestartStep {
                phase: RestartPhase::SecondWait,
                action: RestartAction::WaitForPort { timeout_ms: PORT_WAIT_TIMEOUT_MS },
                note: None,
            }
        } else {
            RestartStep {
                phase: RestartPhase::Killing,
                action: RestartAction::ForceKill,
                note: Some(RestartNote::PortBusyAfterStop),
            }
        },
        (RestartPhase::Killing, RestartEvent::KillAttempted) => RestartStep {
            phase: RestartPhase::Settling,
            action: RestartAction::Sleep { ms: KILL_SETTLE_MS },
            note: None,
        },
        (RestartPhase::Settling, RestartEvent::Settled) => RestartStep {
            phase: RestartPhase::SecondWait,
            action: RestartAction::WaitForPort { timeout_ms: PORT_WAIT_TIMEOUT_MS },
            note: None,
        },
        (RestartPhase::SecondWait, RestartEvent::PortWaitEnded { free }) => RestartStep {
            phase: RestartPhase::Relaunching,
            action: RestartAction::Relaunch,
            note: if free {
                None
            } else {
                Some(RestartNote::PortBusyBeforeRestart)
            },
        },
        _ => RestartStep { phase, action: RestartAction::Ignore, note: None },
    }
}

/// The event by which the caller reports that `action` has been carried out;
/// `port_free` is the result of a wait for the port.
pub open spec fn completion_of(action: RestartAction, port_free: bool) -> Option<RestartEvent> {
    match action {
        RestartAction::Stop(_) => Some(RestartEvent::Stopped),
        RestartAction::WaitForPort { .. } => Some(RestartEvent::PortWaitEnded { free: port_free }),
        RestartAction::ForceKill => Some(RestartEvent::KillAttempted),
        RestartAction::Sleep { .. } => Some(RestartEvent::Settled),
        RestartAction::Relaunch => None,
        RestartAction::Ignore => None,
    }
}

/// The longest that carrying out `action` may block.
pub open spec fn blocking_budget_ms(action: RestartAction) -> nat {
    match action {
        RestartAction::WaitForPort { timeout_ms } => timeout_ms as nat,
        RestartAction::Sleep { ms } => ms as nat,
        _ => 0,
    }
}

/// The number of steps that a restart in `phase` still has to take.
pub open spec fn steps_left(phase: RestartPhase) -> nat {
    match phase {
        RestartPhase::Idle => 6,
        RestartPhase::Stopping => 5,
        RestartPhase::FirstWait => 4,
        RestartPhase::Killing => 3,
        RestartPhase::Settling => 2,
        RestartPhase::SecondWait => 1,
        RestartPhase::Relaunching => 0,
    }
}

/// The longest that the waits and pauses still to be ordered from `phase` on may block.
pub open spec fn budget_left_ms(phase: RestartPhase) -> nat {
    match phase {
        RestartPhase::Idle => 6300,
        RestartPhase::Stopping => 6300,
        RestartPhase::FirstWait => 3300,
        RestartPhase::Killing => 3300,
        RestartPhase::Settling => 3000,
        RestartPhase::SecondWait => 0,
        RestartPhase::Relaunching => 0,
    }
}

impl RestartNote {
    /// The line to log.
    pub open spec fn text(self) -> Seq<char> {
        match self {
            RestartNote::Invoked => "restart_app command invoked"@,
            RestartNote::PortBusyAfterStop => "porta "@ + decimal_text(BACKEND_PORT as nat)
                + " ainda ocupada apos stop_backend"@,
            RestartNote::PortBusyBeforeRestart => "porta "@ + decimal_text(BACKEND_PORT as nat)
                + " ainda ocupada antes do restart; prosseguindo mesmo assim"@,
        }
    }

    /// The line to log.
    pub fn message(self) -> (line: String)
        ensures
            line@ == self.text(),
    {
        match self {
            RestartNote::Invoked => String::from_str("restart_app command invoked"),
            RestartNote::PortBusyAfterStop => {
                let mut line = String::from_str("porta ");
                let port = decimal(BACKEND_PORT as u64);
                line.append(port.as_str());
                line.append(" ainda ocupada apos stop_backend");
                line
            },
            RestartNote::PortBusyBeforeRestart => {
                let mut line = String::from_str("porta ");
                let port = decimal(BACKEND_PORT as u64);
                line.append(port.as_str());
                line.append(" ainda ocupada antes do restart; prosseguindo mesmo assim");
                line
            },
        }
    }
}

/// Takes the restart one step further.
///
/// The caller starts in `Idle` with `Invoked`, carries out each action it is
/// given, and reports its completion as the next event, until it is told to
/// relaunch. The worker is stopped first; the port is then given time to be
/// released; if it is not, the worker's images are terminated by force and
/// the system is given a moment; the port is then waited for once more (a
/// wait that ends at its first probe when the port is already free), and the
/// relaunch is ordered whether or not the port was released. An event that
/// the phase is not waiting for changes nothing.
pub fn restart_app(phase: RestartPhase, event: RestartEvent) -> (step: RestartStep)
    ensures
        step == restart_step(phase, event),
{
    match (phase, event) {
        (RestartPhase::Idle, RestartEvent::Invoked) => RestartStep {
            phase: RestartPhase::Stopping,
            action: RestartAction::Stop(ShutdownReason::RestartRequested),
            note: Some(RestartNote::Invoked),
        },
        (RestartPhase::Stopping, RestartEvent::Stopped) => RestartStep {
            phase: RestartPhase::FirstWait,
            action: RestartAction::WaitForPort { timeout_ms: PORT_WAIT_TIMEOUT_MS },
            note: None,
        },
        (RestartPhase::FirstWait, RestartEvent::PortWaitEnded { free }) => {
            if free {
                RestartStep {
                    phase: RestartPhase::SecondWait,
                    action: RestartAction::WaitForPort { timeout_ms: PORT_WAIT_TIMEOUT_MS },
                    note: None,
                }
            } else {
                RestartStep {
                    phase: RestartPhase::Killing,
                    action: RestartAction::ForceKill,
                    note: Some(RestartNote::PortBusyAfterStop),
                }
            }
        },
        (RestartPhase::Killing, RestartEvent::KillAttempted) => RestartStep {
            phase: RestartPhase::Settling,
            action: RestartAction::Sleep { ms: KILL_SETTLE_MS },
            note: None,
        },
        (RestartPhase::Settling, RestartEvent::Settled) => RestartStep {
            phase: RestartPhase::SecondWait,
            action: RestartAction::WaitForPort { timeout_ms: PORT_WAIT_TIMEOUT_MS },
            note: None,
        },
        (RestartPhase::SecondWait, RestartEvent::PortWaitEnded { free }) => RestartStep {
            phase: RestartPhase::Relaunching,
            action: RestartAction::Relaunch,
            note: if free {
                None
            } else {
                Some(RestartNote::PortBusyBeforeRestart)
            },
        },
        _ => RestartStep { phase, action: RestartAction::Ignore, note: None },
    }
}

/// Every restart makes progress and is bounded.
///
/// A step on the event that the phase is waiting for moves strictly closer
/// to the relaunch, asks for an action whose completion is the event that the
/// next phase waits for (or for the relaunch itself, which ends the
/// restart), and never blocks for longer than the time budget of the phase
/// allows: at most 6.3 seconds over a whole restart. A step on any other
/// event changes nothing.
pub proof fn law_restart_progress(phase: RestartPhase, event: RestartEvent, port_free: bool)
    ensures
        restart_expects(phase, event) ==> {
            let step = restart_step(phase, event);
            &&& steps_left(step.phase) < steps_left(phase)
            &&& blocking_budget_ms(step.action) + budget_left_ms(step.phase) <= budget_left_ms(
                phase,
            )
            &&& step.action is Relaunch <==> step.phase is Relaunching
            &&& !(step.action is Relaunch) ==> completion_of(step.action, port_free) is Some
                && restart_expects(step.phase, completion_of(step.action, port_free)->0)
        },
        !restart_expects(phase, event) ==> restart_step(phase, event) == (RestartStep {
            phase,
            action: RestartAction::Ignore,
            note: None,
        }),
        budget_left_ms(RestartPhase::Idle) == 2 * PORT_WAIT_TIMEOUT_MS + KILL_SETTLE_MS,
{
}

/// The actions of a restart from its invocation on, when each action is
/// reported as carried out and the waits for the port end as `waits` says,
/// one after the other (a wait beyond the end of `waits` counts as failed).
/// At most `limit` actions are listed.
pub open spec fn restart_run(
    phase: RestartPhase,
    event: RestartEvent,
    waits: Seq<bool>,
    limit: nat,
) -> Seq<RestartAction>
    decreases limit,
{
    if limit == 0 {
        Seq::empty()
    } else {
        let step = restart_step(phase, event);
        let port_free = waits.len() > 0 && waits[0];
        let rest = if step.action is WaitForPort && waits.len() > 0 {
            waits.drop_first()
        } else {
            waits
        };
        match completion_of(step.action, port_free) {
            Some(next) => seq![step.action] + restart_run(
                step.phase,
                next,
                rest,
                (limit - 1) as nat,
            ),
            None => seq![step.action],
        }
    }
}

/// A whole restart, whatever the waits for the port yield: the worker is
/// stopped and the port waited for; if that wait fails, and only then, the
/// worker's images are terminated by force and the system is given a moment;
/// the port is waited for once more and the application is relaunched. No
/// course of a restart orders more than six actions, and each ends with the
/// relaunch.
pub proof fn law_restart_runs_to_relaunch(first_wait: bool, second_wait: bool)
    ensures
        restart_run(
            RestartPhase::Idle,
            RestartEvent::Invoked,
            seq![first_wait, second_wait],
            6,
        ) == if first_wait {
            seq![
                RestartAction::Stop(ShutdownReason::RestartRequested),
                RestartAction::WaitForPort { timeout_ms: PORT_WAIT_TIMEOUT_MS },
                RestartAction::WaitForPort { timeout_ms: PORT_WAIT_TIMEOUT_MS },
                RestartAction::Relaunch,
            ]
        } else {
            seq![
                RestartAction::Stop(ShutdownReason::RestartRequested),
                RestartAction::WaitForPort { timeout_ms: PORT_WAIT_TIMEOUT_MS },
                RestartAction::ForceKill,
                RestartAction::Sleep { ms: KILL_SETTLE_MS },
                RestartAction::WaitForPort { timeout_ms: PORT_WAIT_TIMEOUT_MS },
                RestartAction::Relaunch,
            ]
        },
{
    reveal_with_fuel(restart_run, 7);
    let waits = seq![first_wait, second_wait];
    assert(waits.drop_first() =~= seq![second_wait]);
    assert(seq![second_wait][0] == second_wait);
    assert(seq![second_wait].drop_first() =~= Seq::<bool>::empty());
    let run = restart_run(RestartPhase::Idle, RestartEvent::Invoked, waits, 6);
    if first_wait {
        assert(run =~= seq![
            RestartAction::Stop(ShutdownReason::RestartRequested),
            RestartAction::WaitForPort { timeout_ms: PORT_WAIT_TIMEOUT_MS },
            RestartAction::WaitForPort { timeout_ms: PORT_WAIT_TIMEOUT_MS },
            RestartAction::Relaunch,
        ]);
    } else {
        assert(run =~= seq![
            RestartAction::Stop(ShutdownReason::RestartRequested),
            RestartAction::WaitForPort { timeout_ms: PORT_WAIT_TIMEOUT_MS },
            RestartAction::ForceKill,
            RestartAction::Sleep { ms: KILL_SETTLE_MS },
            RestartAction::WaitForPort { timeout_ms: PORT_WAIT_TIMEOUT_MS },
            RestartAction::Relaunch,
        ]);
    }
}

/// The escalation policy: forced termination is ordered exactly when the
/// first wait ends with the port still taken, and the relaunch is ordered
/// after the second wait whatever its result, with a warning exactly when
/// the port is still taken.
pub proof fn law_escalation_policy(free: bool)
    ensures
        restart_step(RestartPhase::FirstWait, RestartEvent::PortWaitEnded { free }).action
            is ForceKill <==> !free,
        restart_step(RestartPhase::SecondWait, RestartEvent::PortWaitEnded { free }).action
            is Relaunch,
        restart_step(RestartPhase::SecondWait, RestartEvent::PortWaitEnded { free }).note == Some(
            RestartNote::PortBusyBeforeRestart,
        ) <==> !free,
{
}

} // verus!
