use worker_supervisor::supervisor::ShutdownReason;
use worker_supervisor::window_gate::{
    shutdown_reason_for, window_gate, LifecycleEvent, StartupAction, StartupEvent, StartupNote,
    StartupPhase,
};

fn run_startup(found: bool, hidden: bool, spawned: bool, healthy: bool)
    -> (Vec<StartupAction>, Vec<StartupNote>, StartupPhase)
{
    let mut phase = StartupPhase::Initial;
    let mut event = StartupEvent::SetupStarted;
    let mut actions = Vec::new();
    let mut notes = Vec::new();
    loop {
        let step = window_gate(phase, event);
        phase = step.phase;
        actions.push(step.action);
        if let Some(note) = step.note {
            notes.push(note);
        }
        event = match step.action {
            StartupAction::LogStartupPaths => StartupEvent::PathsLogged,
            StartupAction::FindWindow => StartupEvent::WindowLookedUp { found },
            StartupAction::HideWindow => StartupEvent::HideAttempted { hidden },
            StartupAction::SpawnWorker => StartupEvent::SpawnAttempted { spawned },
            StartupAction::ProbeHealth { .. } => StartupEvent::GatingEnded { healthy },
            StartupAction::ShowWindow | StartupAction::Abandon => return (actions, notes, phase),
            StartupAction::Ignore => panic!("an expected event was ignored"),
        };
    }
}

#[test]
fn healthy_startup() {
    let (actions, notes, phase) = run_startup(true, true, true, true);
    assert_eq!(
        actions,
        vec![
            StartupAction::LogStartupPaths,
            StartupAction::FindWindow,
            StartupAction::HideWindow,
            StartupAction::SpawnWorker,
            StartupAction::ProbeHealth { timeout_ms: 20_000 },
            StartupAction::ShowWindow,
        ]
    );
    assert_eq!(notes, vec![StartupNote::SetupStarted]);
    assert_eq!(phase, StartupPhase::Shown);
}

#[test]
fn window_is_shown_after_a_health_timeout() {
    let (actions, notes, phase) = run_startup(true, true, true, false);
    assert_eq!(actions.last(), Some(&StartupAction::ShowWindow));
    assert_eq!(notes, vec![StartupNote::SetupStarted, StartupNote::HealthCheckFailed]);
    assert_eq!(phase, StartupPhase::Shown);
}

#[test]
fn window_is_shown_after_a_failed_spawn() {
    for healthy in [true, false] {
        let (actions, _, phase) = run_startup(true, true, false, healthy);
        assert_eq!(actions.len(), 6);
        assert_eq!(actions[4], StartupAction::ProbeHealth { timeout_ms: 20_000 });
        assert_eq!(actions[5], StartupAction::ShowWindow);
        assert_eq!(phase, StartupPhase::Shown);
    }
}

#[test]
fn no_worker_without_a_window() {
    let (actions, notes, phase) = run_startup(false, true, true, true);
    assert_eq!(
        actions,
        vec![StartupAction::LogStartupPaths, StartupAction::FindWindow, StartupAction::Abandon]
    );
    assert_eq!(notes, vec![StartupNote::SetupStarted, StartupNote::WindowMissing]);
    assert_eq!(phase, StartupPhase::Abandoned);
    let (actions, notes, phase) = run_startup(true, false, true, true);
    assert_eq!(
        actions,
        vec![
            StartupAction::LogStartupPaths,
            StartupAction::FindWindow,
            StartupAction::HideWindow,
            StartupAction::Abandon,
        ]
    );
    assert_eq!(notes, vec![StartupNote::SetupStarted]);
    assert_eq!(phase, StartupPhase::Abandoned);
}

#[test]
fn startup_ignores_events_out_of_turn() {
    let step = window_gate(StartupPhase::Shown, StartupEvent::GatingEnded { healthy: true });
    assert_eq!(step.action, StartupAction::Ignore);
    assert_eq!(step.phase, StartupPhase::Shown);
    let step = window_gate(StartupPhase::Initial, StartupEvent::SpawnAttempted { spawned: true });
    assert_eq!(step.action, StartupAction::Ignore);
    assert_eq!(step.phase, StartupPhase::Initial);
    assert_eq!(step.note, None);
    let step = window_gate(StartupPhase::Abandoned, StartupEvent::SetupStarted);
    assert_eq!(step.action, StartupAction::Ignore);
}

#[test]
fn startup_notes() {
    assert_eq!(StartupNote::SetupStarted.message(), "App setup iniciado");
    assert_eq!(StartupNote::WindowMissing.message(), "Janela principal nao encontrada (label 'main').");
    assert_eq!(
        StartupNote::HealthCheckFailed.message(),
        "Backend healthcheck falhou. Mostrando UI mesmo assim."
    );
}

#[test]
fn lifecycle_events_that_stop_the_worker() {
    assert_eq!(
        shutdown_reason_for(LifecycleEvent::WindowCloseRequested),
        Some(ShutdownReason::CloseRequested)
    );
    assert_eq!(
        shutdown_reason_for(LifecycleEvent::ExitRequested),
        Some(ShutdownReason::ExitRequested)
    );
    assert_eq!(shutdown_reason_for(LifecycleEvent::Exit), Some(ShutdownReason::Exit));
    assert_eq!(shutdown_reason_for(LifecycleEvent::Other), None);
}
