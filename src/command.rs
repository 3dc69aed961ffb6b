//! The command that selects what the intake does.
use vstd::prelude::*;

verus! {

/// What the intake is asked to do. Written by the driver or an autonomous
/// routine and read once per control cycle; only the latest value counts.
#[derive(Clone, Copy, Debug, PartialEq, Eq, Structural)]
pub enum Command {
    Collect,
    ScoreLong,
    ScoreMiddle,
    ScoreLow,
    Stop,
}

/// Whether selecting `c` opens a clear window: the two commands that score
/// through the open gate at the far end.
pub open spec fn opens_clear_window(c: Command) -> bool {
    c is ScoreMiddle || c is ScoreLong
}

impl Command {
    /// Whether this command scores through the open gate at the far end
    /// (middle or long goal).
    pub fn scores_through_gate(&self) -> (r: bool)
        ensures
            r == opens_clear_window(*self),
    {
        match self {
            Command::ScoreMiddle | Command::ScoreLong => true,
            _ => false,
        }
    }
}

impl Default for Command {
    /// The intake starts stopped.
    fn default() -> (r: Command)
        ensures
            r == Command::Stop,
    {
        Command::Stop
    }
}

} // verus!
