//! The two commands that the content layer may invoke. Unlike the reactions
//! to tray and window events they report failure: the first window operation
//! that fails ends the command, and its reason is the command's answer.

use vstd::prelude::*;
use crate::procedure::{
    halts_at, lemma_replay_keeps_steps, lemma_run_ends_at_first_fatal_failure, Failure, Procedure,
    Progress, Step,
};
use crate::shell::{AppState, Shell};
use crate::window::{lemma_reveal_is_idempotent, WindowOp, WindowState};

verus! {

/// The steps of the command that toggles always-on-top, once the flag has
/// taken `value`.
pub open spec fn toggle_steps(value: bool) -> Seq<Step<WindowOp>> {
    seq![Step::strict(WindowOp::SetAlwaysOnTop(value))]
}

/// The steps of the command that shows the window.
pub open spec fn show_steps() -> Seq<Step<WindowOp>> {
    seq![Step::strict(WindowOp::Show), Step::strict(WindowOp::Focus)]
}

/// Flips the always-on-top flag and asks for the window's hint to follow.
///
/// Returns the new value of the flag and the procedure to run. The flag is
/// flipped before the window is asked, and stays flipped if the window
/// refuses.
pub fn toggle_always_on_top(state: &mut AppState) -> (command: (bool, Procedure<WindowOp>))
    ensures
        command.0 == !old(state)@.always_on_top,
        final(state)@ == (Shell { always_on_top: command.0, ..old(state)@ }),
        command.1@ == Progress::fresh(toggle_steps(command.0)),
{
    let value = state.toggle();
    let steps = vec![Step::strict(WindowOp::SetAlwaysOnTop(value))];
    assert(steps@ =~= toggle_steps(value));
    (value, Procedure::new(steps))
}

/// The answer of [`toggle_always_on_top`], once its procedure has ended with
/// `verdict`: the new value of the flag, or the reason of the failure.
pub fn toggle_always_on_top_reply(value: bool, verdict: Result<(), Failure<WindowOp>>) -> (reply:
    Result<bool, String>)
    ensures
        verdict is Ok ==> reply == Ok::<bool, String>(value),
        verdict matches Err(failure) ==> reply == Err::<bool, String>(failure.reason),
{
    match verdict {
        Ok(_) => Ok(value),
        Err(failure) => Err(failure.reason),
    }
}

/// Asks for the window to be shown and then focused.
pub fn show_window() -> (procedure: Procedure<WindowOp>)
    ensures
        procedure@ == Progress::fresh(show_steps()),
{
    let steps = vec![Step::strict(WindowOp::Show), Step::strict(WindowOp::Focus)];
    assert(steps@ =~= show_steps());
    Procedure::new(steps)
}

/// The answer of [`show_window`], once its procedure has ended with
/// `verdict`: nothing, or the reason of the failure.
pub fn show_window_reply(verdict: Result<(), Failure<WindowOp>>) -> (reply: Result<(), String>)
    ensures
        verdict is Ok ==> reply is Ok,
        verdict matches Err(failure) ==> reply == Err::<(), String>(failure.reason),
{
    match verdict {
        Ok(_) => Ok(()),
        Err(failure) => Err(failure.reason),
    }
}

/// Whenever the command that shows the window succeeds, the window is visible
/// and focused, whatever it was before, and a second run changes nothing.
pub proof fn lemma_show_window_reveals(window: WindowState, failures: Seq<Option<Seq<char>>>)
    requires
        Progress::fresh(show_steps()).replay(failures).status() is Succeeded,
    ensures
        window.after_run(Progress::fresh(show_steps()), failures).visible,
        window.after_run(Progress::fresh(show_steps()), failures).focused,
        window.after_run(Progress::fresh(show_steps()), failures).after_run(
            Progress::fresh(show_steps()),
            failures,
        ) == window.after_run(Progress::fresh(show_steps()), failures),
{
    let steps = show_steps();
    let start = Progress::fresh(steps);
    lemma_replay_keeps_steps(start, failures);
    if failures[0] is Some {
        lemma_run_ends_at_first_fatal_failure(steps, failures, 0);
    } else if failures[1] is Some {
        lemma_run_ends_at_first_fatal_failure(steps, failures, 1);
    }
    lemma_reveal_is_idempotent(window, start, failures);
}

/// The command that toggles always-on-top never answers with a stale flag:
/// when the window accepts the hint, hint and flag agree; when it refuses,
/// the flag has flipped all the same and the hint is as it was.
pub proof fn lemma_toggle_hint_follows_flag(
    window: WindowState,
    value: bool,
    failures: Seq<Option<Seq<char>>>,
)
    requires
        failures.len() >= 1,
    ensures
        failures[0] is None ==> Progress::fresh(toggle_steps(value)).replay(
            failures,
        ).status() is Succeeded && window.after_run(
            Progress::fresh(toggle_steps(value)),
            failures,
        ).always_on_top == value,
        failures[0] is Some ==> Progress::fresh(toggle_steps(value)).replay(
            failures,
        ).status() is Failed && window.after_run(Progress::fresh(toggle_steps(value)), failures)
            == window,
{
    let start = Progress::fresh(toggle_steps(value));
    let done = start.record(failures[0]);
    let tail = failures.skip(1);
    crate::procedure::lemma_ended_stays(done, tail);
    let after = window.after_attempt(WindowOp::SetAlwaysOnTop(value), failures[0]);
    crate::window::lemma_ended_leaves_window(after, done, tail);
    assert(start.replay(failures) == done) by {
        reveal_with_fuel(Progress::replay, 2);
    }
    assert(window.after_run(start, failures) == after) by {
        reveal_with_fuel(WindowState::after_run, 2);
    }
}

} // verus!
