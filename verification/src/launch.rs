//! The launch of one process: the single-instance claim, the hand-over of a
//! second launch to the instance that holds the claim, and the startup of the
//! instance that holds it.

use vstd::prelude::*;
use crate::procedure::{
    halts_at, lemma_run_ends_at_first_fatal_failure, lemma_run_passes_without_fatal_failure,
    Procedure, Progress, Step,
};
use crate::shell::{reveal_window, EventView, ReactionView, Shell};
use crate::window::{lemma_reveal_is_idempotent, WindowState};

verus! {

/// Verbosity of the diagnostic logging sink.
#[derive(Clone, Copy, Debug, PartialEq, Eq, Structural)]
pub enum LogLevel {
    Off,
    Error,
    Warn,
    Info,
    Debug,
    Trace,
}

/// One step of the startup of the instance that holds the claim.
#[derive(Clone, Copy, Debug, PartialEq, Eq, Structural)]
pub enum StartupStep {
    /// Claim to be the single instance and listen for activation requests.
    ClaimInstance,
    /// Attach the diagnostic logging sink at this verbosity.
    AttachLogging(LogLevel),
    /// Create the shared state with its defaults.
    InitState,
    /// Obtain the main window, which is created hidden.
    ObtainWindow,
    /// Listen for the window's focus reports.
    WatchFocus,
    /// Make the window visible.
    ShowWindow,
    /// Build the tray icon with its menu and handlers.
    InstallTray,
}

/// One step of a launch that found the claim held by another instance.
#[derive(Clone, Copy, Debug, PartialEq, Eq, Structural)]
pub enum HandoffStep {
    /// Send this launch's arguments and working directory to the instance
    /// that holds the claim. No answer is awaited.
    ForwardActivation,
    /// End this process.
    Terminate,
}

/// What one launch was started with. A launch that finds the claim held hands
/// this to the instance that holds it.
#[derive(Debug)]
pub struct Invocation {
    /// The command-line arguments.
    pub args: Vec<String>,
    /// The working directory.
    pub cwd: String,
}

/// What the attempt to claim the system-wide single-instance marker found.
#[derive(Debug)]
pub enum ClaimOutcome {
    /// This process holds the claim now.
    Acquired,
    /// Another instance holds the claim.
    HeldByAnother,
    /// The claim could not be made: the marker could not be set up.
    Failed(String),
}

impl ClaimOutcome {
    /// The reason why the claim could not be made, if it could not.
    pub open spec fn failure(self) -> Option<Seq<char>> {
        match self {
            ClaimOutcome::Failed(reason) => Some(reason@),
            _ => None,
        }
    }
}

/// The startup sequence, in its strict order. Every step is fatal but the
/// attachment of the logging sink, which belongs to development builds only.
pub open spec fn startup_steps(development: bool) -> Seq<Step<StartupStep>> {
    if development {
        seq![
            Step::strict(StartupStep::ClaimInstance),
            Step::tolerant(StartupStep::AttachLogging(LogLevel::Info)),
            Step::strict(StartupStep::InitState),
            Step::strict(StartupStep::ObtainWindow),
            Step::strict(StartupStep::WatchFocus),
            Step::strict(StartupStep::ShowWindow),
            Step::strict(StartupStep::InstallTray),
        ]
    } else {
        seq![
            Step::strict(StartupStep::ClaimInstance),
            Step::strict(StartupStep::InitState),
            Step::strict(StartupStep::ObtainWindow),
            Step::strict(StartupStep::WatchFocus),
            Step::strict(StartupStep::ShowWindow),
            Step::strict(StartupStep::InstallTray),
        ]
    }
}

/// What a launch does when another instance holds the claim: it forwards the
/// activation, whether or not that succeeds, and ends. It creates no window.
pub open spec fn handoff_steps() -> Seq<Step<HandoffStep>> {
    seq![Step::tolerant(HandoffStep::ForwardActivation), Step::tolerant(HandoffStep::Terminate)]
}

/// The course of one launch.
#[derive(Debug)]
pub enum Launch {
    /// This process is the instance that holds the claim, or it tried to be:
    /// the startup sequence, with its first step already behind it.
    Primary(Procedure<StartupStep>),
    /// Another instance holds the claim: forward this invocation to it and
    /// end.
    Secondary(Invocation, Procedure<HandoffStep>),
}

/// The mathematical content of a [`Launch`].
pub enum LaunchView {
    Primary(Progress<StartupStep>),
    Secondary(Invocation, Progress<HandoffStep>),
}

impl View for Launch {
    type V = LaunchView;

    open spec fn view(&self) -> LaunchView {
        match *self {
            Launch::Primary(procedure) => LaunchView::Primary(procedure@),
            Launch::Secondary(forward, procedure) => LaunchView::Secondary(forward, procedure@),
        }
    }
}

/// The course of a launch that was started with `invocation` and whose claim
/// ended as `claim` tells.
pub open spec fn launched(
    claim: ClaimOutcome,
    invocation: Invocation,
    development: bool,
) -> LaunchView {
    if claim is HeldByAnother {
        LaunchView::Secondary(invocation, Progress::fresh(handoff_steps()))
    } else {
        LaunchView::Primary(Progress::fresh(startup_steps(development)).record(claim.failure()))
    }
}

/// Decides the course of this launch from how its claim ended.
///
/// The claim comes before everything else: the steps that touch the window
/// or the tray are handed out only here, after its outcome is known.
/// `invocation` is what this launch was started with: it is what a second
/// launch forwards, unchanged. `development` tells whether this is a
/// development build.
pub fn launch(claim: ClaimOutcome, invocation: Invocation, development: bool) -> (course: Launch)
    ensures
        course@ == launched(claim, invocation, development),
{
    match claim {
        ClaimOutcome::HeldByAnother => {
            let steps = vec![
                Step::tolerant(HandoffStep::ForwardActivation),
                Step::tolerant(HandoffStep::Terminate),
            ];
            assert(steps@ =~= handoff_steps());
            Launch::Secondary(invocation, Procedure::new(steps))
        },
        ClaimOutcome::Acquired => {
            let mut procedure = startup(development);
            procedure.record(Ok(()));
            Launch::Primary(procedure)
        },
        ClaimOutcome::Failed(reason) => {
            let mut procedure = startup(development);
            procedure.record(Err(reason));
            Launch::Primary(procedure)
        },
    }
}

/// The startup sequence, with nothing attempted yet.
fn startup(development: bool) -> (procedure: Procedure<StartupStep>)
    ensures
        procedure@ == Progress::fresh(startup_steps(development)),
{
    let mut steps: Vec<Step<StartupStep>> = Vec::new();
    steps.push(Step::strict(StartupStep::ClaimInstance));
    if development {
        steps.push(Step::tolerant(StartupStep::AttachLogging(LogLevel::Info)));
    }
    steps.push(Step::strict(StartupStep::InitState));
    steps.push(Step::strict(StartupStep::ObtainWindow));
    steps.push(Step::strict(StartupStep::WatchFocus));
    steps.push(Step::strict(StartupStep::ShowWindow));
    steps.push(Step::strict(StartupStep::InstallTray));
    assert(steps@ =~= startup_steps(development));
    Procedure::new(steps)
}

/// Startup is all or nothing. When every step gets its report, startup
/// succeeds exactly if no fatal step failed; otherwise it ends at the first
/// fatal step that failed, with that step and the reported reason, and no
/// later step is attempted. A failure to attach the logging sink ends nothing.
pub proof fn lemma_startup_ends_at_first_fatal_failure(
    development: bool,
    failures: Seq<Option<Seq<char>>>,
)
    requires
        failures.len() == startup_steps(development).len(),
    ensures
        Progress::fresh(startup_steps(development)).replay(failures).status() is Succeeded <==> (
        forall|i: int| !halts_at(startup_steps(development), failures, i)),
        forall|i: int|
            halts_at(startup_steps(development), failures, i) ==> Progress::fresh(
                startup_steps(development),
            ).replay(failures) == (Progress {
                steps: startup_steps(development),
                attempted: (i + 1) as nat,
                halted: failures[i],
            }),
        forall|i: int|
            halts_at(startup_steps(development), failures, i) ==> startup_steps(
                development,
            )[i].action !is AttachLogging,
{
    let steps = startup_steps(development);
    assert forall|i: int| halts_at(steps, failures, i) implies Progress::fresh(steps).replay(
        failures,
    ) == (Progress { steps, attempted: (i + 1) as nat, halted: failures[i] }) by {
        lemma_run_ends_at_first_fatal_failure(steps, failures, i);
    }
    if forall|i: int| !halts_at(steps, failures, i) {
        lemma_run_passes_without_fatal_failure(steps, failures);
    }
}

/// A second launch creates no window and brings the first one's forward.
///
/// The launch that finds the claim held forwards what it was started with and
/// ends: its course holds these two steps and no other. The instance that
/// holds the claim answers the activation by showing and focusing its window,
/// and when both operations succeed that window is visible and focused
/// whatever it was before.
pub proof fn lemma_second_launch_brings_first_forward(
    invocation: Invocation,
    development: bool,
    shell: Shell,
    window: WindowState,
    failures: Seq<Option<Seq<char>>>,
)
    requires
        !shell.exiting,
        failures.len() >= 2,
        failures[0] is None,
        failures[1] is None,
    ensures
        launched(ClaimOutcome::HeldByAnother, invocation, development) == LaunchView::Secondary(
            invocation,
            Progress::fresh(
                seq![
                    Step::tolerant(HandoffStep::ForwardActivation),
                    Step::tolerant(HandoffStep::Terminate),
                ],
            ),
        ),
        shell.step(EventView::Activation, true) == (shell, reveal_window(true)),
        reveal_window(true) matches ReactionView::Perform(progress) && window.after_run(
            progress,
            failures,
        ).visible && window.after_run(progress, failures).focused,
{
    let progress = reveal_window(true)->Perform_0;
    lemma_reveal_is_idempotent(window, progress, failures);
}

} // verus!
