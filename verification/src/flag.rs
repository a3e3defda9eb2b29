//! The always-on-top flag: the one piece of state shared by the tray and the
//! commands of the content layer.

use vstd::prelude::*;

verus! {

/// The always-on-top preference. Every change goes through
/// [`AlwaysOnTopFlag::toggle`], which takes the flag by exclusive reference:
/// two toggles never overlap, whoever makes them, and each one sees the value
/// that the one before it left. A caller that shares the flag between threads
/// keeps it behind a lock, and the lock hands out that exclusive reference.
#[derive(Clone, Copy, Debug, PartialEq, Eq, Structural)]
pub struct AlwaysOnTopFlag {
    value: bool,
}

impl View for AlwaysOnTopFlag {
    type V = bool;

    closed spec fn view(&self) -> bool {
        self.value
    }
}

impl AlwaysOnTopFlag {
    /// The flag as it stands at every process start: on.
    pub fn new() -> (flag: AlwaysOnTopFlag)
        ensures
            flag@ == true,
    {
        AlwaysOnTopFlag { value: true }
    }

    /// The current value; the flag is left as it is.
    pub fn read(&self) -> (value: bool)
        ensures
            value == self@,
    {
        self.value
    }

    /// Flips the flag and returns the new value.
    pub fn toggle(&mut self) -> (value: bool)
        ensures
            final(self)@ == !old(self)@,
            value == final(self)@,
    {
        self.value = !self.value;
        self.value
    }
}

/// The value of a flag that started as `initial` after `n` toggles, one after
/// the other.
pub open spec fn after_toggles(initial: bool, n: nat) -> bool
    decreases n,
{
    if n == 0 {
        initial
    } else {
        !after_toggles(initial, (n - 1) as nat)
    }
}

/// No toggle is lost: after `n` toggles the flag differs from its initial
/// value exactly when `n` is odd.
pub proof fn lemma_toggles_count_by_parity(initial: bool, n: nat)
    ensures
        after_toggles(initial, n) == (initial != (n % 2 == 1)),
    decreases n,
{
    if n > 0 {
        lemma_toggles_count_by_parity(initial, (n - 1) as nat);
    }
}

} // verus!
