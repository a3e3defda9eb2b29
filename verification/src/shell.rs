//! The running shell: its state, the events that reach it, and what it does
//! about each of them.

use vstd::prelude::*;
use crate::flag::{after_toggles, lemma_toggles_count_by_parity, AlwaysOnTopFlag};
use crate::focus::{focus_before, notification_for, transitions, FocusTracker};
use crate::launch::Invocation;
use crate::menu::{lemma_ids_differ, MenuEntry};
use crate::procedure::{lemma_tolerant_run_succeeds, Procedure, Progress, Step};
use crate::tray::TrayIconEvent;
use crate::window::{Notification, WindowOp};

verus! {

/// Exit code of a process that ends because the user chose to quit.
pub const QUIT_EXIT_CODE: i32 = 0;

/// An event that the dispatch loop hands to the shell.
#[derive(Clone, Copy, Debug)]
pub enum Event<'a> {
    /// An entry of the tray menu was selected; the text is its identifier.
    MenuSelected(&'a str),
    /// The pointer did something on the tray glyph.
    TrayIcon(TrayIconEvent),
    /// The window reports that it has the focus, or that it has not.
    WindowFocused(bool),
    /// Another launch of the application asks this one to come forward, and
    /// forwards what it was started with.
    Activation(&'a Invocation),
}

/// The mathematical content of an [`Event`]. What a second launch forwards
/// has no part in it: no decision depends on it.
pub enum EventView {
    MenuSelected(Seq<char>),
    TrayIcon(TrayIconEvent),
    WindowFocused(bool),
    Activation,
}

impl<'a> View for Event<'a> {
    type V = EventView;

    open spec fn view(&self) -> EventView {
        match *self {
            Event::MenuSelected(id) => EventView::MenuSelected(id@),
            Event::TrayIcon(event) => EventView::TrayIcon(event),
            Event::WindowFocused(focused) => EventView::WindowFocused(focused),
            Event::Activation(_) => EventView::Activation,
        }
    }
}

/// What the shell asks of its caller in answer to an event.
#[derive(Debug)]
pub enum Reaction {
    /// Attempt these window operations. None of them is fatal: a failure is
    /// dropped and the next operation is still attempted.
    Perform(Procedure<WindowOp>),
    /// End the process at once with this exit code.
    Exit(i32),
}

/// The mathematical content of a [`Reaction`].
pub enum ReactionView {
    Perform(Progress<WindowOp>),
    Exit(int),
}

impl View for Reaction {
    type V = ReactionView;

    open spec fn view(&self) -> ReactionView {
        match *self {
            Reaction::Perform(procedure) => ReactionView::Perform(procedure@),
            Reaction::Exit(code) => ReactionView::Exit(code as int),
        }
    }
}

/// The reaction that asks for these operations, each on a best-effort basis.
pub open spec fn perform(steps: Seq<Step<WindowOp>>) -> ReactionView {
    ReactionView::Perform(Progress::fresh(steps))
}

/// The reaction that asks for nothing.
pub open spec fn nothing() -> ReactionView {
    perform(Seq::empty())
}

/// The reaction that brings the window forward: show it, then focus it. Where
/// the window cannot be located there is nothing to bring forward.
pub open spec fn reveal_window(window_located: bool) -> ReactionView {
    if window_located {
        perform(seq![Step::tolerant(WindowOp::Show), Step::tolerant(WindowOp::Focus)])
    } else {
        nothing()
    }
}

/// The reaction that asks the window to take the always-on-top hint `value`.
/// Where the window cannot be located there is no window to ask.
pub open spec fn follow_flag(value: bool, window_located: bool) -> ReactionView {
    if window_located {
        perform(seq![Step::tolerant(WindowOp::SetAlwaysOnTop(value))])
    } else {
        nothing()
    }
}

/// The mathematical content of an [`AppState`].
pub struct Shell {
    /// The always-on-top flag.
    pub always_on_top: bool,
    /// Whether the window had the focus at its last report.
    pub focused: bool,
    /// Whether the user has chosen to quit.
    pub exiting: bool,
}

impl Shell {
    /// The shell as it stands at every process start.
    pub open spec fn initial() -> Shell {
        Shell { always_on_top: true, focused: false, exiting: false }
    }

    /// The selection of the menu entry with identifier `id`. The flag is
    /// flipped first, whatever becomes of the window: it flips when the window
    /// cannot be located, and it stays flipped when the window refuses the
    /// hint.
    pub open spec fn select(self, id: Seq<char>, window_located: bool) -> (Shell, ReactionView) {
        match MenuEntry::with_id(id) {
            Some(MenuEntry::Show) => (self, reveal_window(window_located)),
            Some(MenuEntry::ToggleAlwaysOnTop) => (
                Shell { always_on_top: !self.always_on_top, ..self },
                follow_flag(!self.always_on_top, window_located),
            ),
            Some(MenuEntry::Quit) => (
                Shell { exiting: true, ..self },
                ReactionView::Exit(QUIT_EXIT_CODE as int),
            ),
            _ => (self, nothing()),
        }
    }

    /// A report of the window's focus.
    pub open spec fn refocus(self, focused: bool) -> (Shell, ReactionView) {
        (
            Shell { focused, ..self },
            match notification_for(self.focused, focused) {
                Some(notification) => perform(seq![Step::tolerant(WindowOp::Emit(notification))]),
                None => nothing(),
            },
        )
    }

    /// The shell after `event`, and its reaction to it. Once the user has
    /// chosen to quit, no event is dispatched any more.
    pub open spec fn step(self, event: EventView, window_located: bool) -> (Shell, ReactionView) {
        if self.exiting {
            (self, nothing())
        } else {
            match event {
                EventView::MenuSelected(id) => self.select(id, window_located),
                EventView::TrayIcon(pointer) => (
                    self,
                    if pointer.is_left_release() {
                        reveal_window(window_located)
                    } else {
                        nothing()
                    },
                ),
                EventView::WindowFocused(focused) => self.refocus(focused),
                EventView::Activation => (self, reveal_window(window_located)),
            }
        }
    }
}

/// One event together with what the caller found when it looked for the
/// main window.
pub struct Dispatch {
    pub event: EventView,
    pub window_located: bool,
}

impl Shell {
    /// The shell after a run of events, taken in order.
    pub open spec fn run(self, dispatches: Seq<Dispatch>) -> Shell
        decreases dispatches.len(),
    {
        if dispatches.len() == 0 {
            self
        } else {
            let last = dispatches.last();
            self.run(dispatches.drop_last()).step(last.event, last.window_located).0
        }
    }

    /// The reaction to event `i` of a run of events.
    pub open spec fn reaction_at(self, dispatches: Seq<Dispatch>, i: int) -> ReactionView {
        self.run(dispatches.take(i)).step(dispatches[i].event, dispatches[i].window_located).1
    }
}

/// The state of the running shell: the always-on-top flag, the focus last
/// reported, and whether the user has chosen to quit.
#[derive(Debug)]
pub struct AppState {
    always_on_top: AlwaysOnTopFlag,
    focus: FocusTracker,
    exiting: bool,
}

impl View for AppState {
    type V = Shell;

    closed spec fn view(&self) -> Shell {
        Shell { always_on_top: self.always_on_top@, focused: self.focus@, exiting: self.exiting }
    }
}

/// The reaction that asks for `op` alone.
fn attempt(op: WindowOp) -> (reaction: Reaction)
    ensures
        reaction@ == perform(seq![Step::tolerant(op)]),
{
    let steps = vec![Step::tolerant(op)];
    assert(steps@ =~= seq![Step::tolerant(op)]);
    Reaction::Perform(Procedure::new(steps))
}

/// The reaction that asks for nothing.
fn idle() -> (reaction: Reaction)
    ensures
        reaction@ == nothing(),
{
    Reaction::Perform(Procedure::new(Vec::new()))
}

/// The reaction that brings the window forward.
fn bring_forward(window_located: bool) -> (reaction: Reaction)
    ensures
        reaction@ == reveal_window(window_located),
{
    if window_located {
        let steps = vec![Step::tolerant(WindowOp::Show), Step::tolerant(WindowOp::Focus)];
        assert(steps@ =~= seq![Step::tolerant(WindowOp::Show), Step::tolerant(WindowOp::Focus)]);
        Reaction::Perform(Procedure::new(steps))
    } else {
        idle()
    }
}

impl AppState {
    /// The state at process start: always on top, no focus, not exiting.
    pub fn new() -> (state: AppState)
        ensures
            state@ == Shell::initial(),
    {
        AppState { always_on_top: AlwaysOnTopFlag::new(), focus: FocusTracker::new(), exiting: false }
    }

    /// The always-on-top flag as it stands.
    pub fn always_on_top(&self) -> (value: bool)
        ensures
            value == self@.always_on_top,
    {
        self.always_on_top.read()
    }

    /// Whether the window had the focus at its last report.
    pub fn is_focused(&self) -> (focused: bool)
        ensures
            focused == self@.focused,
    {
        self.focus.is_focused()
    }

    /// Whether the user has chosen to quit.
    pub fn is_exiting(&self) -> (exiting: bool)
        ensures
            exiting == self@.exiting,
    {
        self.exiting
    }

    /// Flips the always-on-top flag and returns the new value. Nothing else
    /// of the state changes.
    pub fn toggle(&mut self) -> (value: bool)
        ensures
            value == !old(self)@.always_on_top,
            final(self)@ == (Shell { always_on_top: value, ..old(self)@ }),
    {
        self.always_on_top.toggle()
    }

    /// Takes one event and returns what is to be done about it.
    ///
    /// `window_located` says whether the caller found the main window; the
    /// operations of the reaction are meant for that window. Without a
    /// window nothing is asked of it, but the state changes all the same:
    /// the flag is flipped and the choice to quit is taken.
    pub fn handle(&mut self, event: Event<'_>, window_located: bool) -> (reaction: Reaction)
        ensures
            (final(self)@, reaction@) == old(self)@.step(event@, window_located),
    {
        if self.exiting {
            return idle();
        }
        match event {
            Event::MenuSelected(id) => match MenuEntry::find(id) {
                Some(MenuEntry::Show) => bring_forward(window_located),
                Some(MenuEntry::ToggleAlwaysOnTop) => {
                    let value = self.always_on_top.toggle();
                    if window_located {
                        attempt(WindowOp::SetAlwaysOnTop(value))
                    } else {
                        idle()
                    }
                },
                Some(MenuEntry::Quit) => {
                    self.exiting = true;
                    Reaction::Exit(QUIT_EXIT_CODE)
                },
                _ => idle(),
            },
            Event::TrayIcon(pointer) => {
                if pointer.is_left_release() {
                    bring_forward(window_located)
                } else {
                    idle()
                }
            },
            Event::WindowFocused(focused) => match self.focus.observe(focused) {
                Some(notification) => attempt(WindowOp::Emit(notification)),
                None => idle(),
            },
            Event::Activation(_) => bring_forward(window_located),
        }
    }
}

/// No reaction can fail. Whatever the event, the shell asks for the exit or
/// for window operations of which none is fatal, so that whatever the window
/// answers, every operation asked for is attempted and the run succeeds.
pub proof fn lemma_reactions_are_best_effort(
    shell: Shell,
    event: EventView,
    window_located: bool,
    failures: Seq<Option<Seq<char>>>,
)
    ensures
        shell.step(event, window_located).1 matches ReactionView::Perform(progress) ==> {
            &&& progress == Progress::fresh(progress.steps)
            &&& forall|i: int| 0 <= i < progress.steps.len() ==> !(#[trigger] progress.steps[i]).fatal
            &&& failures.len() >= progress.steps.len() ==> progress.replay(
                failures,
            ).status() is Succeeded
        },
{
    if let ReactionView::Perform(progress) = shell.step(event, window_located).1 {
        if failures.len() >= progress.steps.len() {
            lemma_tolerant_run_succeeds(progress.steps, failures);
        }
    }
}

/// Selecting `quit` ends the process with exit code 0 and ends the dispatch:
/// whatever the window, the reaction is the exit, and no event that still
/// arrives afterwards changes the state or asks for anything.
pub proof fn lemma_quit_ends_dispatch(shell: Shell, window_located: bool, later: Seq<Dispatch>)
    requires
        !shell.exiting,
    ensures
        shell.step(EventView::MenuSelected("quit"@), window_located) == (
            Shell { exiting: true, ..shell },
            ReactionView::Exit(0),
        ),
        (Shell { exiting: true, ..shell }).run(later) == (Shell { exiting: true, ..shell }),
        forall|i: int|
            0 <= i < later.len() ==> #[trigger] (Shell { exiting: true, ..shell }).reaction_at(
                later,
                i,
            ) == nothing(),
{
    lemma_ids_differ();
    let quit = Shell { exiting: true, ..shell };
    lemma_exiting_is_final(quit, later);
    assert forall|i: int| 0 <= i < later.len() implies #[trigger] quit.reaction_at(later, i)
        == nothing() by {
        lemma_exiting_is_final(quit, later.take(i));
    }
}

/// Once the user has chosen to quit, no run of events changes the state.
pub proof fn lemma_exiting_is_final(shell: Shell, dispatches: Seq<Dispatch>)
    requires
        shell.exiting,
    ensures
        shell.run(dispatches) == shell,
    decreases dispatches.len(),
{
    if dispatches.len() > 0 {
        lemma_exiting_is_final(shell, dispatches.drop_last());
    }
}

/// Selecting `always_on_top` flips the flag, whether or not the window can be
/// located, and asks the window, where there is one, to follow: the hint
/// that is asked for is the new value of the flag. A second selection asks
/// for the old value again and leaves the shell as it was.
pub proof fn lemma_selecting_always_on_top_flips(shell: Shell, first: bool, second: bool)
    requires
        !shell.exiting,
    ensures
        shell.step(EventView::MenuSelected("always_on_top"@), first) == (
            Shell { always_on_top: !shell.always_on_top, ..shell },
            follow_flag(!shell.always_on_top, first),
        ),
        follow_flag(!shell.always_on_top, true) == perform(
            seq![Step::tolerant(WindowOp::SetAlwaysOnTop(!shell.always_on_top))],
        ),
        follow_flag(!shell.always_on_top, false) == nothing(),
        (Shell { always_on_top: !shell.always_on_top, ..shell }).step(
            EventView::MenuSelected("always_on_top"@),
            second,
        ) == (shell, follow_flag(shell.always_on_top, second)),
{
    lemma_ids_differ();
}

/// No selection of `always_on_top` is lost: after a run of them the flag
/// differs from what it was exactly when their number is odd, whether or not
/// the window could be located at each of them, and nothing else of the state
/// has changed.
pub proof fn lemma_selections_count_by_parity(shell: Shell, dispatches: Seq<Dispatch>)
    requires
        !shell.exiting,
        forall|i: int|
            0 <= i < dispatches.len() ==> (#[trigger] dispatches[i]).event
                == EventView::MenuSelected("always_on_top"@),
    ensures
        shell.run(dispatches) == (Shell {
            always_on_top: after_toggles(shell.always_on_top, dispatches.len()),
            ..shell
        }),
        shell.run(dispatches).always_on_top == (shell.always_on_top != (dispatches.len() % 2
            == 1)),
    decreases dispatches.len(),
{
    lemma_toggles_count_by_parity(shell.always_on_top, dispatches.len());
    if dispatches.len() > 0 {
        let earlier = dispatches.drop_last();
        lemma_selections_count_by_parity(shell, earlier);
        lemma_selecting_always_on_top_flips(
            shell.run(earlier),
            dispatches.last().window_located,
            true,
        );
    }
}

/// Whether `dispatches` is the run of focus reports `reports`.
pub open spec fn reports_focus(dispatches: Seq<Dispatch>, reports: Seq<bool>) -> bool {
    &&& dispatches.len() == reports.len()
    &&& forall|i: int|
        0 <= i < reports.len() ==> (#[trigger] dispatches[i]).event == EventView::WindowFocused(
            reports[i],
        )
}

/// A run of focus reports leaves the shell with the focus last reported and
/// changes nothing else.
pub proof fn lemma_focus_follows_reports(shell: Shell, dispatches: Seq<Dispatch>, reports: Seq<bool>)
    requires
        !shell.exiting,
        reports_focus(dispatches, reports),
    ensures
        shell.run(dispatches) == (Shell {
            focused: focus_before(shell.focused, reports, reports.len() as int),
            ..shell
        }),
    decreases dispatches.len(),
{
    if dispatches.len() > 0 {
        let earlier = dispatches.drop_last();
        let known = reports.drop_last();
        lemma_focus_follows_reports(shell, earlier, known);
    }
}

/// The shell notifies the content layer of each change of focus and of
/// nothing else: in a run of focus reports, the reaction to report `i` is one
/// notification when the report differs from the focus known before it
/// (`AppFocus` for a gain, `AppBlur` for a loss), and nothing when it repeats
/// that focus.
pub proof fn lemma_focus_change_notifies_once(
    shell: Shell,
    dispatches: Seq<Dispatch>,
    reports: Seq<bool>,
    i: int,
)
    requires
        !shell.exiting,
        reports_focus(dispatches, reports),
        0 <= i < reports.len(),
    ensures
        shell.reaction_at(dispatches, i) == match notification_for(
            focus_before(shell.focused, reports, i),
            reports[i],
        ) {
            Some(notification) => perform(seq![Step::tolerant(WindowOp::Emit(notification))]),
            None => nothing(),
        },
        transitions(shell.focused, reports).contains(i) <==> shell.reaction_at(dispatches, i)
            != nothing(),
{
    let earlier = dispatches.take(i);
    let known = reports.take(i);
    lemma_focus_follows_reports(shell, earlier, known);
    let emit_focus = seq![Step::tolerant(WindowOp::Emit(Notification::AppFocus))];
    let emit_blur = seq![Step::tolerant(WindowOp::Emit(Notification::AppBlur))];
    assert(emit_focus.len() == 1 && emit_blur.len() == 1);
}

} // verus!
