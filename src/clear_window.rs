//! The clear window: for a fixed time after a scoring command is selected,
//! the conveyor runs backwards to free anything that is stuck.
use crate::command::{opens_clear_window, Command};
use vstd::prelude::*;

verus! {

/// Default length of the clear window, in milliseconds.
pub const REVERSE_INTERVAL_MS: u64 = 250;

/// What `should_force_reverse` does to a window opened at `opened` (if
/// open): the opening time afterwards and the answer. A window opens the
/// first time a scoring command is seen, lasts `duration` ms from there, and
/// is closed by any other command.
pub open spec fn window_outcome(opened: Option<int>, now: int, command: Command, duration: int) -> (
    Option<int>,
    bool,
) {
    if !opens_clear_window(command) {
        (None, false)
    } else {
        match opened {
            None => (Some(now), true),
            Some(s) => (opened, now < s + duration),
        }
    }
}

/// The clear window's state: when the current scoring command was first
/// seen, if one is selected.
pub struct ClearWindow {
    duration: u64,
    opened: Option<u64>,
}

impl ClearWindow {
    /// When the window was opened, if it is.
    pub closed spec fn opened_at(&self) -> Option<int> {
        match self.opened {
            Some(s) => Some(s as int),
            None => None,
        }
    }

    /// How long the window lasts, in milliseconds.
    pub closed spec fn duration_ms(&self) -> int {
        self.duration as int
    }

    /// The time at which forced reversal ends, if the window is open.
    pub open spec fn deadline(&self) -> Option<int> {
        match self.opened_at() {
            Some(s) => Some(s + self.duration_ms()),
            None => None,
        }
    }

    /// A closed window that lasts `duration` ms once opened.
    pub fn new(duration: u64) -> (r: ClearWindow)
        ensures
            r.opened_at() is None,
            r.duration_ms() == duration,
    {
        ClearWindow { duration, opened: None }
    }

    /// When the window was opened, if it is.
    pub fn opened(&self) -> (r: Option<u64>)
        ensures
            self.opened_at() == (match r {
                Some(s) => Some(s as int),
                None => None::<int>,
            }),
    {
        self.opened
    }

    /// Whether the conveyor must run backwards in the cycle at `now` under
    /// `command`. Any command but a scoring one closes the window; the first
    /// cycle of a scoring command opens it; while it stays selected the
    /// answer is true until the window's length has passed, then false.
    pub fn should_force_reverse(&mut self, now: u64, command: Command) -> (r: bool)
        ensures
            final(self).duration_ms() == old(self).duration_ms(),
            (final(self).opened_at(), r) == window_outcome(
                old(self).opened_at(),
                now as int,
                command,
                old(self).duration_ms(),
            ),
    {
        if !command.scores_through_gate() {
            self.opened = None;
            return false;
        }
        match self.opened {
            None => {
                self.opened = Some(now);
                true
            },
            Some(s) => now < s || now - s < self.duration,
        }
    }
}

/// One pulse per entry into a scoring command: the window opened at `t`
/// answers true at every time in `[t, t + duration)` and false from
/// `t + duration` on while the command stays selected, without moving;
/// another command closes it, and the next scoring command at `t2` opens a
/// fresh window at `t2`.
pub proof fn lemma_single_pulse(
    t: int,
    now: int,
    t2: int,
    command: Command,
    other: Command,
    duration: int,
)
    requires
        opens_clear_window(command),
        !opens_clear_window(other),
    ensures
        window_outcome(None, t, command, duration) == (Some(t), true),
        t <= now < t + duration ==> window_outcome(Some(t), now, command, duration) == (
            Some(t),
            true,
        ),
        now >= t + duration ==> window_outcome(Some(t), now, command, duration) == (
            Some(t),
            false,
        ),
        window_outcome(Some(t), now, other, duration) == (None::<int>, false),
        window_outcome(None, t2, command, duration) == (Some(t2), true),
{
}

} // verus!
