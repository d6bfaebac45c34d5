//! The window gate and the application's lifecycle events.
//!
//! The window is hidden as soon as it exists and shown again when health
//! gating ends, whether the worker turned out healthy or the time ran out:
//! the user never sees a half-initialized window and is never left with a
//! hidden one.

use vstd::prelude::*;
use crate::health::STARTUP_HEALTH_TIMEOUT_MS;
use crate::supervisor::ShutdownReason;

verus! {

/// What the window system and the application runtime report.
#[derive(Clone, Copy, Debug, PartialEq, Eq, Structural)]
pub enum LifecycleEvent {
    /// The user or the system asked to close the window.
    WindowCloseRequested,
    /// The application was asked to exit.
    ExitRequested,
    /// The application is exiting.
    Exit,
    /// Any other event.
    Other,
}

/// The stop that a lifecycle event calls for, if any.
pub open spec fn shutdown_reason_of(event: LifecycleEvent) -> Option<ShutdownReason> {
    match event {
        LifecycleEvent::WindowCloseRequested => Some(ShutdownReason::CloseRequested),
        LifecycleEvent::ExitRequested => Some(ShutdownReason::ExitRequested),
        LifecycleEvent::Exit => Some(ShutdownReason::Exit),
        LifecycleEvent::Other => None,
    }
}

/// Says whether a lifecycle event calls for stopping the worker, and why.
/// Window close, exit request and exit each do; nothing else does.
pub fn shutdown_reason_for(event: LifecycleEvent) -> (reason: Option<ShutdownReason>)
    ensures
        reason == shutdown_reason_of(event),
{
    match event {
        LifecycleEvent::WindowCloseRequested => Some(ShutdownReason::CloseRequested),
        LifecycleEvent::ExitRequested => Some(ShutdownReason::ExitRequested),
        LifecycleEvent::Exit => Some(ShutdownReason::Exit),
        LifecycleEvent::Other => None,
    }
}

/// Where the startup sequence stands.
#[derive(Clone, Copy, Debug, PartialEq, Eq, Structural)]
pub enum StartupPhase {
    /// Setup has not begun.
    Initial,
    /// The known directories and the candidate executables are being logged.
    LoggingPaths,
    /// The main window is being looked up.
    LocatingWindow,
    /// The window is being hidden.
    Hiding,
    /// The worker is being spawned; the window is hidden.
    Spawning,
    /// Health gating is under way; the window is hidden.
    Gating,
    /// The window has been ordered to show.
    Shown,
    /// Setup ended without a window to manage.
    Abandoned,
}

/// What the caller reports as startup goes on.
#[derive(Clone, Copy, Debug, PartialEq, Eq, Structural)]
pub enum StartupEvent {
    /// Setup begins.
    SetupStarted,
    /// The startup paths have been logged.
    PathsLogged,
    /// The main window was looked up.
    WindowLookedUp { found: bool },
    /// The window was told to hide.
    HideAttempted { hidden: bool },
    /// The worker was spawned, or could not be.
    SpawnAttempted { spawned: bool },
    /// Health gating ended, healthy or timed out.
    GatingEnded { healthy: bool },
}

/// What the caller is asked to do.
#[derive(Clone, Copy, Debug, PartialEq, Eq, Structural)]
pub enum StartupAction {
    /// Log the known directories and the candidate executables.
    LogStartupPaths,
    /// Look up the main window.
    FindWindow,
    /// Hide the window.
    HideWindow,
    /// Spawn the worker and record the result in the supervisor's slot.
    SpawnWorker,
    /// Poll the health endpoint in the background, for at most this long.
    ProbeHealth { timeout_ms: u64 },
    /// Show the window.
    ShowWindow,
    /// Give up on setup: there is no window, or it cannot be hidden.
    Abandon,
    /// The event does not belong to the current phase: do nothing.
    Ignore,
}

/// A line for the log that goes with a step.
#[derive(Clone, Copy, Debug, PartialEq, Eq, Structural)]
pub enum StartupNote {
    /// Setup has begun.
    SetupStarted,
    /// There is no main window.
    WindowMissing,
    /// Health gating timed out; the window is shown all the same.
    HealthCheckFailed,
}

/// One step of the startup sequence.
#[derive(Clone, Copy, Debug, PartialEq, Eq, Structural)]
pub struct StartupStep {
    pub phase: StartupPhase,
    pub action: StartupAction,
    pub note: Option<StartupNote>,
}

/// Whether the window is hidden in `phase`.
pub open spec fn window_hidden(phase: StartupPhase) -> bool {
    phase is Spawning || phase is Gating
}

/// Whether `event` is the one that `phase` is waiting for.
pub open spec fn startup_expects(phase: StartupPhase, event: StartupEvent) -> bool {
    match phase {
        StartupPhase::Initial => event is SetupStarted,
        StartupPhase::LoggingPaths => event is PathsLogged,
        StartupPhase::LocatingWindow => event is WindowLookedUp,
        StartupPhase::Hiding => event is HideAttempted,
        StartupPhase::Spawning => event is SpawnAttempted,
        StartupPhase::Gating => event is GatingEnded,
        StartupPhase::Shown => false,
        StartupPhase::Abandoned => false,
    }
}

/// The step taken in `phase` on `event`.
pub open spec fn startup_step(phase: StartupPhase, event: StartupEvent) -> StartupStep {
    match (phase, event) {
        (StartupPhase::Initial, StartupEvent::SetupStarted) => StartupStep {
            phase: StartupPhase::LoggingPaths,
            action: StartupAction::LogStartupPaths,
            note: Some(StartupNote::SetupStarted),
        },
        (StartupPhase::LoggingPaths, StartupEvent::PathsLogged) => StartupStep {
            phase: StartupPhase::LocatingWindow,
            action: StartupAction::FindWindow,
            note: None,
        },
        (StartupPhase::LocatingWindow, StartupEvent::WindowLookedUp { found }) => if found {
            StartupStep {
                phase: StartupPhase::Hiding,
                action: StartupAction::HideWindow,
                note: None,
            }
        } else {
            StartupStep {
                phase: StartupPhase::Abandoned,
                action: StartupAction::Abandon,
                note: Some(StartupNote::WindowMissing),
            }
        },
        (StartupPhase::Hiding, StartupEvent::HideAttempted { hidden }) => if hidden {
            StartupStep {
                phase: StartupPhase::Spawning,
                action: StartupAction::SpawnWorker,
                note: None,
            }
        } else {
            StartupStep {
                phase: StartupPhase::Abandoned,
                action: StartupAction::Abandon,
                note: None,
            }
        },
        (StartupPhase::Spawning, StartupEvent::SpawnAttempted { spawned }) => StartupStep {
            phase: StartupPhase::Gating,
            action: StartupAction::ProbeHealth { timeout_ms: STARTUP_HEALTH_TIMEOUT_MS },
            note: None,
        },
        (StartupPhase::Gating, StartupEvent::GatingEnded { healthy }) => StartupStep {
            phase: StartupPhase::Shown,
            action: StartupAction::ShowWindow,
            note: if healthy {
                None
            } else {
                Some(StartupNote::HealthCheckFailed)
            },
        },
        _ => StartupStep { phase, action: StartupAction::Ignore, note: None },
    }
}

impl StartupNote {
    /// The line to log.
    pub open spec fn text(self) -> Seq<char> {
        match self {
            StartupNote::SetupStarted => "App setup iniciado"@,
            StartupNote::WindowMissing => "Janela principal nao encontrada (label 'main')."@,
            StartupNote::HealthCheckFailed =>
                "Backend healthcheck falhou. Mostrando UI mesmo assim."@,
        }
    }

    /// The line to log.
    pub fn message(self) -> (line: &'static str)
        ensures
            line@ == self.text(),
    {
        match self {
            StartupNote::SetupStarted => "App setup iniciado",
            StartupNote::WindowMissing => "Janela principal nao encontrada (label 'main').",
            StartupNote::HealthCheckFailed =>
                "Backend healthcheck falhou. Mostrando UI mesmo assim.",
        }
    }
}

/// Takes the startup sequence one step further.
///
/// The start of setup is logged first, then the startup paths. The window
/// is looked up and hidden before the worker is touched. The
/// worker is then spawned; whether or not that succeeded, health gating
/// starts; and when gating ends, healthy or not, the window is shown. Without
/// a window, or with one that cannot be hidden, setup is abandoned and no
/// worker is spawned. An event that the phase is not waiting for changes
/// nothing.
pub fn window_gate(phase: StartupPhase, event: StartupEvent) -> (step: StartupStep)
    ensures
        step == startup_step(phase, event),
{
    match (phase, event) {
        (StartupPhase::Initial, StartupEvent::SetupStarted) => StartupStep {
            phase: StartupPhase::LoggingPaths,
            action: StartupAction::LogStartupPaths,
            note: Some(StartupNote::SetupStarted),
        },
        (StartupPhase::LoggingPaths, StartupEvent::PathsLogged) => StartupStep {
            phase: StartupPhase::LocatingWindow,
            action: StartupAction::FindWindow,
            note: None,
        },
        (StartupPhase::LocatingWindow, StartupEvent::WindowLookedUp { found }) => {
            if found {
                StartupStep {
                    phase: StartupPhase::Hiding,
                    action: StartupAction::HideWindow,
                    note: None,
                }
            } else {
                StartupStep {
                    phase: StartupPhase::Abandoned,
                    action: StartupAction::Abandon,
                    note: Some(StartupNote::WindowMissing),
                }
            }
        },
        (StartupPhase::Hiding, StartupEvent::HideAttempted { hidden }) => {
            if hidden {
                StartupStep {
                    phase: StartupPhase::Spawning,
                    action: StartupAction::SpawnWorker,
                    note: None,
                }
            } else {
                StartupStep {
                    phase: StartupPhase::Abandoned,
                    action: StartupAction::Abandon,
                    note: None,
                }
            }
        },
        (StartupPhase::Spawning, StartupEvent::SpawnAttempted { spawned: _ }) => StartupStep {
            phase: StartupPhase::Gating,
            action: StartupAction::ProbeHealth { timeout_ms: STARTUP_HEALTH_TIMEOUT_MS },
            note: None,
        },
        (StartupPhase::Gating, StartupEvent::GatingEnded { healthy }) => StartupStep {
            phase: StartupPhase::Shown,
            action: StartupAction::ShowWindow,
            note: if healthy {
                None
            } else {
                Some(StartupNote::HealthCheckFailed)
            },
        },
        _ => StartupStep { phase, action: StartupAction::Ignore, note: None },
    }
}

/// A hidden window is always shown again. Once the window is hidden, a
/// failed spawn does not end the sequence, the end of health gating orders
/// the window to show whether the worker is healthy or not, and the window
/// stays hidden only while spawn or gating is still under way.
pub proof fn law_hidden_window_is_shown(spawned: bool, healthy: bool)
    ensures
        ({
            let after_spawn = startup_step(
                StartupPhase::Spawning,
                StartupEvent::SpawnAttempted { spawned },
            );
            let after_gating = startup_step(
                after_spawn.phase,
                StartupEvent::GatingEnded { healthy },
            );
            &&& after_spawn.action == (StartupAction::ProbeHealth {
                timeout_ms: STARTUP_HEALTH_TIMEOUT_MS,
            })
            &&& window_hidden(after_spawn.phase)
            &&& after_gating.action is ShowWindow
            &&& !window_hidden(after_gating.phase)
            &&& after_gating.note == Some(StartupNote::HealthCheckFailed) <==> !healthy
        }),
{
}

/// The worker is spawned only behind a hidden window: the spawn is ordered
/// by no step but the one that follows a successful hide.
pub proof fn law_spawn_follows_hide(phase: StartupPhase, event: StartupEvent)
    ensures
        startup_step(phase, event).action is SpawnWorker <==> phase is Hiding && event
            == (StartupEvent::HideAttempted { hidden: true }),
        startup_step(phase, event).action is ShowWindow <==> phase is Gating && event
            is GatingEnded,
        !startup_expects(phase, event) ==> startup_step(phase, event) == (StartupStep {
            phase,
            action: StartupAction::Ignore,
            note: None,
        }),
{
}

} // verus!
