use tray_shell::command::{
    show_window, show_window_reply, toggle_always_on_top, toggle_always_on_top_reply,
};
use tray_shell::procedure::{Failure, Procedure, Status};
use tray_shell::shell::{AppState, Event};
use tray_shell::window::WindowOp;

/// A window that does what it is asked, until it is destroyed.
struct Window {
    visible: bool,
    focused: bool,
    always_on_top: bool,
    destroyed: bool,
    calls: Vec<WindowOp>,
}

impl Window {
    fn hidden() -> Window {
        Window { visible: false, focused: false, always_on_top: false, destroyed: false, calls: Vec::new() }
    }

    fn perform(&mut self, op: WindowOp) -> Result<(), String> {
        self.calls.push(op);
        if self.destroyed {
            return Err("window destroyed".to_string());
        }
        match op {
            WindowOp::Show => self.visible = true,
            WindowOp::Focus => self.focused = true,
            WindowOp::SetAlwaysOnTop(on) => self.always_on_top = on,
            WindowOp::Emit(_) => {}
        }
        Ok(())
    }
}

fn drive(window: &mut Window, mut procedure: Procedure<WindowOp>) -> Result<(), Failure<WindowOp>> {
    loop {
        if let Some(verdict) = procedure.outcome() {
            return verdict;
        }
        if let Status::Pending(op) = procedure.status() {
            let outcome = window.perform(op);
            procedure.record(outcome);
        }
    }
}

#[test]
fn show_window_shows_then_focuses() {
    let mut window = Window::hidden();
    let verdict = drive(&mut window, show_window());
    assert_eq!(show_window_reply(verdict), Ok(()));
    assert_eq!(window.calls, vec![WindowOp::Show, WindowOp::Focus]);
    assert!(window.visible);
    assert!(window.focused);
}

#[test]
fn show_window_is_idempotent() {
    for (visible, focused) in [(false, false), (true, false), (false, true), (true, true)] {
        let mut window = Window::hidden();
        window.visible = visible;
        window.focused = focused;
        window.always_on_top = true;
        assert_eq!(show_window_reply(drive(&mut window, show_window())), Ok(()));
        assert!(window.visible && window.focused);
        assert_eq!(show_window_reply(drive(&mut window, show_window())), Ok(()));
        assert!(window.visible && window.focused);
        assert!(window.always_on_top);
    }
}

#[test]
fn show_window_reports_the_first_failure_and_stops() {
    let mut window = Window::hidden();
    window.destroyed = true;
    let verdict = drive(&mut window, show_window());
    assert_eq!(show_window_reply(verdict), Err("window destroyed".to_string()));
    assert_eq!(window.calls, vec![WindowOp::Show], "focus is not attempted after show failed");
}

#[test]
fn show_window_reports_a_failure_to_focus() {
    let mut procedure = show_window();
    assert!(matches!(procedure.status(), Status::Pending(WindowOp::Show)));
    procedure.record(Ok(()));
    assert!(matches!(procedure.status(), Status::Pending(WindowOp::Focus)));
    procedure.record(Err("no focus".to_string()));
    match procedure.outcome() {
        Some(Err(failure)) => {
            assert_eq!(failure.action, WindowOp::Focus);
            assert_eq!(show_window_reply(Err(failure)), Err("no focus".to_string()));
        }
        other => panic!("expected a failure, got {:?}", other),
    }
}

#[test]
fn toggle_command_returns_the_new_value() {
    let mut state = AppState::new();
    let mut window = Window::hidden();
    window.always_on_top = true;

    let (value, procedure) = toggle_always_on_top(&mut state);
    assert_eq!(value, false);
    assert_eq!(state.always_on_top(), false);
    let verdict = drive(&mut window, procedure);
    assert_eq!(toggle_always_on_top_reply(value, verdict), Ok(false));
    assert_eq!(window.calls, vec![WindowOp::SetAlwaysOnTop(false)]);
    assert_eq!(window.always_on_top, false);

    let (value, procedure) = toggle_always_on_top(&mut state);
    assert_eq!(value, true);
    let verdict = drive(&mut window, procedure);
    assert_eq!(toggle_always_on_top_reply(value, verdict), Ok(true));
    assert_eq!(window.always_on_top, true);
    assert_eq!(state.always_on_top(), true);
}

#[test]
fn toggle_command_reports_failure_and_keeps_the_flag_flipped() {
    let mut state = AppState::new();
    let mut window = Window::hidden();
    window.always_on_top = true;
    window.destroyed = true;
    let (value, procedure) = toggle_always_on_top(&mut state);
    let verdict = drive(&mut window, procedure);
    assert_eq!(
        toggle_always_on_top_reply(value, verdict),
        Err("window destroyed".to_string())
    );
    assert_eq!(state.always_on_top(), false, "no rollback");
    assert_eq!(window.always_on_top, true, "flag and hint have diverged");
}

#[test]
fn toggle_command_leaves_the_rest_of_the_state() {
    let mut state = AppState::new();
    let _ = toggle_always_on_top(&mut state);
    assert!(!state.is_exiting());
    assert!(!state.is_focused());
}

#[test]
fn commands_and_menu_share_one_flag() {
    let mut state = AppState::new();
    let (value, _) = toggle_always_on_top(&mut state);
    assert_eq!(value, false);
    state.handle(Event::MenuSelected("always_on_top"), true);
    assert_eq!(state.always_on_top(), true);
    let (value, _) = toggle_always_on_top(&mut state);
    assert_eq!(value, false);
}
