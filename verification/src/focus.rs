//! Focus notifications: one for each change of the window's focus, none for
//! a report that repeats what was already known.

use vstd::prelude::*;
use crate::window::Notification;

verus! {

/// The notification owed when the focus was `was` and is now reported as
/// `now`: none unless the two differ.
pub open spec fn notification_for(was: bool, now: bool) -> Option<Notification> {
    if was == now {
        None
    } else if now {
        Some(Notification::AppFocus)
    } else {
        Some(Notification::AppBlur)
    }
}

/// The focus that was known before report `i` of `reports` came in.
pub open spec fn focus_before(start: bool, reports: Seq<bool>, i: int) -> bool {
    if i <= 0 {
        start
    } else {
        reports[i - 1]
    }
}

/// The positions in `reports` at which the focus changes.
pub open spec fn transitions(start: bool, reports: Seq<bool>) -> Set<int> {
    Set::new(|i: int| 0 <= i < reports.len() && reports[i] != focus_before(start, reports, i))
}

/// The notifications owed for a run of focus reports, in order: what
/// [`FocusTracker::observe`] returns for each report in turn, when the tracker
/// starts at `start`.
pub open spec fn notifications(start: bool, reports: Seq<bool>) -> Seq<Notification>
    decreases reports.len(),
{
    if reports.len() == 0 {
        Seq::empty()
    } else {
        let earlier = notifications(start, reports.drop_last());
        let was = focus_before(start, reports, reports.len() - 1);
        match notification_for(was, reports.last()) {
            Some(notification) => earlier.push(notification),
            None => earlier,
        }
    }
}

/// Remembers whether the window has the focus.
#[derive(Clone, Copy, Debug, PartialEq, Eq, Structural)]
pub struct FocusTracker {
    focused: bool,
}

impl View for FocusTracker {
    type V = bool;

    closed spec fn view(&self) -> bool {
        self.focused
    }
}

impl FocusTracker {
    /// The tracker of a window that has not been shown yet: it has no focus.
    pub fn new() -> (tracker: FocusTracker)
        ensures
            tracker@ == false,
    {
        FocusTracker { focused: false }
    }

    /// Whether the window had the focus at the last report.
    pub fn is_focused(&self) -> (focused: bool)
        ensures
            focused == self@,
    {
        self.focused
    }

    /// Takes a focus report and returns the notification owed for it.
    pub fn observe(&mut self, focused: bool) -> (notification: Option<Notification>)
        ensures
            final(self)@ == focused,
            notification == notification_for(old(self)@, focused),
    {
        let was = self.focused;
        self.focused = focused;
        if was == focused {
            None
        } else if focused {
            Some(Notification::AppFocus)
        } else {
            Some(Notification::AppBlur)
        }
    }
}

/// The notification that stands at position `k` of a run that started with
/// focus `start`: notifications alternate, and the first one tells the loss of
/// focus exactly when the window had it.
pub open spec fn alternating(start: bool, k: int) -> Notification {
    if start == (k % 2 == 0) {
        Notification::AppBlur
    } else {
        Notification::AppFocus
    }
}

/// One notification for each change of focus, and none besides: a run of focus
/// reports yields as many notifications as it holds transitions, however many
/// reports repeat the focus already known.
pub proof fn lemma_one_notification_per_transition(start: bool, reports: Seq<bool>)
    ensures
        transitions(start, reports).finite(),
        notifications(start, reports).len() == transitions(start, reports).len(),
    decreases reports.len(),
{
    if reports.len() == 0 {
        assert(transitions(start, reports) =~= Set::<int>::empty());
    } else {
        let earlier = reports.drop_last();
        let last = reports.len() - 1;
        lemma_one_notification_per_transition(start, earlier);
        let before = transitions(start, earlier);
        let all = transitions(start, reports);
        if reports[last] != focus_before(start, reports, last) {
            assert(all =~= before.insert(last));
        } else {
            assert(all =~= before);
        }
    }
}

/// Notifications alternate between loss and gain of focus, and the focus that
/// the tracker ends with is the one that the last notification told.
pub proof fn lemma_notifications_alternate(start: bool, reports: Seq<bool>)
    ensures
        focus_before(start, reports, reports.len() as int) == (start == (notifications(
            start,
            reports,
        ).len() % 2 == 0)),
        forall|k: int|
            0 <= k < notifications(start, reports).len() ==> #[trigger] notifications(
                start,
                reports,
            )[k] == alternating(start, k),
    decreases reports.len(),
{
    if reports.len() > 0 {
        lemma_notifications_alternate(start, reports.drop_last());
    }
}

} // verus!
