//! The window facade: the operations the shell asks of its main window, the
//! notifications it sends to the content layer, and what each operation does
//! to the window when it succeeds.

use vstd::prelude::*;
use crate::procedure::{lemma_ended_stays, Progress, StatusView};

verus! {

/// Label under which the one application window is looked up.
pub const MAIN_WINDOW_LABEL: &'static str = "main";

/// A notification to the content layer. It carries no payload.
#[derive(Clone, Copy, Debug, PartialEq, Eq, Structural)]
pub enum Notification {
    /// The window gained input focus.
    AppFocus,
    /// The window lost input focus.
    AppBlur,
}

impl Notification {
    /// The event name under which the notification is emitted.
    pub open spec fn spec_name(self) -> Seq<char> {
        match self {
            Notification::AppFocus => "app-focus"@,
            Notification::AppBlur => "app-blur"@,
        }
    }

    /// The event name under which the notification is emitted.
    pub fn name(&self) -> (name: &'static str)
        ensures
            name@ == self.spec_name(),
    {
        match self {
            Notification::AppFocus => "app-focus",
            Notification::AppBlur => "app-blur",
        }
    }
}

/// One operation on the main window.
#[derive(Clone, Copy, Debug, PartialEq, Eq, Structural)]
pub enum WindowOp {
    /// Make the window visible.
    Show,
    /// Request input focus for the window.
    Focus,
    /// Set the window manager's always-on-top hint.
    SetAlwaysOnTop(bool),
    /// Notify the content layer.
    Emit(Notification),
}

/// What can be observed of the main window.
pub struct WindowState {
    pub visible: bool,
    pub focused: bool,
    pub always_on_top: bool,
}

impl WindowState {
    /// The window after `op` has succeeded. Showing a visible window and
    /// focusing a focused one change nothing; a notification never changes
    /// the window.
    pub open spec fn after(self, op: WindowOp) -> WindowState {
        match op {
            WindowOp::Show => WindowState { visible: true, ..self },
            WindowOp::Focus => WindowState { focused: true, ..self },
            WindowOp::SetAlwaysOnTop(on) => WindowState { always_on_top: on, ..self },
            WindowOp::Emit(_) => self,
        }
    }

    /// The window after one attempt of `op`: a failed operation leaves the
    /// window as it was.
    pub open spec fn after_attempt(self, op: WindowOp, failure: Option<Seq<char>>) -> WindowState {
        if failure is None {
            self.after(op)
        } else {
            self
        }
    }

    /// The window after the caller has taken `progress` through a run of
    /// attempts that ended as `failures` tells: each report belongs to the
    /// operation that was pending when it came.
    pub open spec fn after_run(
        self,
        progress: Progress<WindowOp>,
        failures: Seq<Option<Seq<char>>>,
    ) -> WindowState
        decreases failures.len(),
    {
        if failures.len() == 0 {
            self
        } else {
            let window = match progress.status() {
                StatusView::Pending(op) => self.after_attempt(op, failures[0]),
                _ => self,
            };
            window.after_run(progress.record(failures[0]), failures.skip(1))
        }
    }
}

/// A procedure that has ended asks nothing more of the window.
pub proof fn lemma_ended_leaves_window(
    window: WindowState,
    progress: Progress<WindowOp>,
    failures: Seq<Option<Seq<char>>>,
)
    requires
        !(progress.status() is Pending),
    ensures
        window.after_run(progress, failures) == window,
    decreases failures.len(),
{
    if failures.len() > 0 {
        lemma_ended_leaves_window(window, progress, failures.skip(1));
    }
}

/// Whether `progress` is a procedure of two steps of which none has been
/// attempted: show the window, then focus it.
pub open spec fn reveals(progress: Progress<WindowOp>) -> bool {
    &&& progress == Progress::fresh(progress.steps)
    &&& progress.steps.len() == 2
    &&& progress.steps[0].action == WindowOp::Show
    &&& progress.steps[1].action == WindowOp::Focus
}

/// Showing and focusing brings the window forward whatever state it was in:
/// when both operations succeed the window is visible and focused, its
/// always-on-top hint is untouched, and a second such run changes nothing.
pub proof fn lemma_reveal_is_idempotent(
    window: WindowState,
    progress: Progress<WindowOp>,
    failures: Seq<Option<Seq<char>>>,
)
    requires
        reveals(progress),
        failures.len() >= 2,
        failures[0] is None,
        failures[1] is None,
    ensures
        progress.replay(failures).status() is Succeeded,
        window.after_run(progress, failures) == (WindowState {
            visible: true,
            focused: true,
            always_on_top: window.always_on_top,
        }),
        window.after_run(progress, failures).after_run(progress, failures) == window.after_run(
            progress,
            failures,
        ),
{
    let second = progress.record(failures[0]);
    let done = second.record(failures[1]);
    let tail = failures.skip(1).skip(1);
    lemma_ended_stays(done, tail);
    assert(progress.replay(failures) == done) by {
        reveal_with_fuel(Progress::replay, 3);
    }
    assert forall|w: WindowState| #[trigger]
        w.after_run(progress, failures) == (WindowState {
            visible: true,
            focused: true,
            always_on_top: w.always_on_top,
        }) by {
        let shown = w.after(WindowOp::Show);
        let focused = shown.after(WindowOp::Focus);
        lemma_ended_leaves_window(focused, done, tail);
        assert(w.after_run(progress, failures) == focused) by {
            reveal_with_fuel(WindowState::after_run, 3);
        }
    }
}

} // verus!
