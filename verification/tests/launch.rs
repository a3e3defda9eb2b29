use tray_shell::launch::{
    launch, ClaimOutcome, HandoffStep, Invocation, Launch, LogLevel, StartupStep,
};
use tray_shell::procedure::{Procedure, Status};
use tray_shell::shell::{AppState, Event, Reaction};
use tray_shell::window::WindowOp;

/// Runs a procedure in which the steps listed in `failing` fail.
fn run<A: Copy + PartialEq + std::fmt::Debug>(
    mut procedure: Procedure<A>,
    failing: &[A],
) -> (Vec<A>, Result<(), (A, String)>) {
    let mut attempted = Vec::new();
    loop {
        if let Some(verdict) = procedure.outcome() {
            return (attempted, verdict.map_err(|failure| (failure.action, failure.reason)));
        }
        if let Status::Pending(step) = procedure.status() {
            attempted.push(step);
            if failing.contains(&step) {
                procedure.record(Err(format!("{:?} failed", step)));
            } else {
                procedure.record(Ok(()));
            }
        }
    }
}

fn invocation() -> Invocation {
    Invocation {
        args: vec!["shell".to_string(), "--minimized".to_string()],
        cwd: "/home/user".to_string(),
    }
}

fn primary(claim: ClaimOutcome, development: bool) -> Procedure<StartupStep> {
    match launch(claim, invocation(), development) {
        Launch::Primary(procedure) => procedure,
        Launch::Secondary(..) => panic!("expected the startup of the primary instance"),
    }
}

#[test]
fn release_startup_runs_in_strict_order() {
    let (attempted, result) = run(primary(ClaimOutcome::Acquired, false), &[]);
    assert_eq!(
        attempted,
        vec![
            StartupStep::InitState,
            StartupStep::ObtainWindow,
            StartupStep::WatchFocus,
            StartupStep::ShowWindow,
            StartupStep::InstallTray,
        ]
    );
    assert_eq!(result, Ok(()));
}

#[test]
fn development_startup_attaches_logging_at_info() {
    let (attempted, result) = run(primary(ClaimOutcome::Acquired, true), &[]);
    assert_eq!(
        attempted,
        vec![
            StartupStep::AttachLogging(LogLevel::Info),
            StartupStep::InitState,
            StartupStep::ObtainWindow,
            StartupStep::WatchFocus,
            StartupStep::ShowWindow,
            StartupStep::InstallTray,
        ]
    );
    assert_eq!(result, Ok(()));
}

#[test]
fn a_failure_to_attach_logging_is_passed_over() {
    let logging = StartupStep::AttachLogging(LogLevel::Info);
    let (attempted, result) = run(primary(ClaimOutcome::Acquired, true), &[logging]);
    assert_eq!(attempted.len(), 6);
    assert_eq!(attempted[0], logging);
    assert_eq!(attempted[5], StartupStep::InstallTray);
    assert_eq!(result, Ok(()));
}

#[test]
fn a_failure_to_show_the_window_is_fatal() {
    let (attempted, result) = run(primary(ClaimOutcome::Acquired, false), &[StartupStep::ShowWindow]);
    assert_eq!(
        attempted,
        vec![
            StartupStep::InitState,
            StartupStep::ObtainWindow,
            StartupStep::WatchFocus,
            StartupStep::ShowWindow,
        ]
    );
    assert_eq!(result, Err((StartupStep::ShowWindow, "ShowWindow failed".to_string())));
}

#[test]
fn a_failure_to_install_the_tray_is_fatal() {
    let (attempted, result) = run(primary(ClaimOutcome::Acquired, true), &[StartupStep::InstallTray]);
    assert_eq!(attempted.len(), 6);
    assert_eq!(result, Err((StartupStep::InstallTray, "InstallTray failed".to_string())));
}

#[test]
fn a_missing_window_is_fatal() {
    let (attempted, result) =
        run(primary(ClaimOutcome::Acquired, false), &[StartupStep::ObtainWindow]);
    assert_eq!(attempted, vec![StartupStep::InitState, StartupStep::ObtainWindow]);
    assert_eq!(result, Err((StartupStep::ObtainWindow, "ObtainWindow failed".to_string())));
}

#[test]
fn the_first_fatal_failure_wins() {
    let (attempted, result) = run(
        primary(ClaimOutcome::Acquired, true),
        &[StartupStep::AttachLogging(LogLevel::Info), StartupStep::WatchFocus, StartupStep::InstallTray],
    );
    assert_eq!(attempted.len(), 4);
    assert_eq!(result, Err((StartupStep::WatchFocus, "WatchFocus failed".to_string())));
}

#[test]
fn a_claim_that_cannot_be_made_aborts_startup() {
    for development in [false, true] {
        let procedure = primary(ClaimOutcome::Failed("bus unreachable".to_string()), development);
        match procedure.status() {
            Status::Failed(failure) => {
                assert_eq!(failure.action, StartupStep::ClaimInstance);
                assert_eq!(failure.reason, "bus unreachable");
            }
            other => panic!("expected a failure, got {:?}", other),
        }
        let (attempted, _) = run(procedure, &[]);
        assert_eq!(attempted, vec![], "nothing is attempted after the claim failed");
    }
}

#[test]
fn a_second_launch_hands_over_and_ends() {
    for development in [false, true] {
        match launch(ClaimOutcome::HeldByAnother, invocation(), development) {
            Launch::Secondary(forward, procedure) => {
                assert_eq!(forward.args, vec!["shell".to_string(), "--minimized".to_string()]);
                assert_eq!(forward.cwd, "/home/user");
                let (attempted, result) = run(procedure, &[]);
                assert_eq!(attempted, vec![HandoffStep::ForwardActivation, HandoffStep::Terminate]);
                assert_eq!(result, Ok(()));
            }
            Launch::Primary(_) => panic!("a second launch must not start up"),
        }
    }
}

#[test]
fn a_second_launch_ends_even_if_forwarding_fails() {
    match launch(ClaimOutcome::HeldByAnother, invocation(), false) {
        Launch::Secondary(_, procedure) => {
            let (attempted, result) = run(procedure, &[HandoffStep::ForwardActivation]);
            assert_eq!(attempted, vec![HandoffStep::ForwardActivation, HandoffStep::Terminate]);
            assert_eq!(result, Ok(()));
        }
        Launch::Primary(_) => panic!("a second launch must not start up"),
    }
}

#[test]
fn a_second_launch_brings_the_first_window_forward() {
    let mut first = AppState::new();
    let forwarded = match launch(ClaimOutcome::HeldByAnother, invocation(), false) {
        Launch::Secondary(forward, _) => forward,
        Launch::Primary(_) => panic!("a second launch must not start up"),
    };
    match first.handle(Event::Activation(&forwarded), true) {
        Reaction::Perform(procedure) => {
            let (attempted, result) = run(procedure, &[]);
            assert_eq!(attempted, vec![WindowOp::Show, WindowOp::Focus]);
            assert_eq!(result, Ok(()));
        }
        Reaction::Exit(_) => panic!("an activation does not exit"),
    }
}
