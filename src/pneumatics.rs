//! Single-acting pneumatic pistons (the wing, the matchloader, the intake's
//! gate). A piston remembers the position it was last driven to, so driving
//! it to the same position again writes nothing to the solenoid.
use vstd::prelude::*;

verus! {

/// Driving a piston in position `extended` to position `target`: the
/// position afterwards, and whether the solenoid must be written.
pub open spec fn drive_outcome(extended: bool, target: bool) -> (bool, bool) {
    (target, extended != target)
}

/// The remembered position of one solenoid-driven piston.
#[derive(Clone, Copy, Debug, PartialEq, Eq, Structural)]
pub struct Piston {
    extended: bool,
}

impl Piston {
    pub closed spec fn extended_spec(&self) -> bool {
        self.extended
    }

    /// A retracted piston: a solenoid starts unpowered.
    pub fn new() -> (r: Piston)
        ensures
            !r.extended_spec(),
    {
        Piston { extended: false }
    }

    /// Whether the piston was last driven out.
    pub fn is_extended(&self) -> (r: bool)
        ensures
            r == self.extended_spec(),
    {
        self.extended
    }

    /// Drives the piston out (`true`) or in (`false`). Returns whether the
    /// solenoid must be written: only when the position changes.
    pub fn drive(&mut self, target: bool) -> (write: bool)
        ensures
            (final(self).extended_spec(), write) == drive_outcome(old(self).extended_spec(), target),
    {
        let write = self.extended != target;
        self.extended = target;
        write
    }
}

/// Driving a piston twice to the same position writes the solenoid at most
/// once: the second drive is never a write and changes nothing.
pub proof fn lemma_drive_idempotent(extended: bool, target: bool)
    ensures
        drive_outcome(drive_outcome(extended, target).0, target) == (target, false),
{
}

/// The wing piston.
pub struct Wing {
    piston: Piston,
}

impl Wing {
    pub closed spec fn extended_spec(&self) -> bool {
        self.piston.extended_spec()
    }

    /// A retracted wing.
    pub fn new() -> (r: Wing)
        ensures
            !r.extended_spec(),
    {
        Wing { piston: Piston::new() }
    }

    /// Extends the wing; returns whether the solenoid must be set high.
    pub fn extend(&mut self) -> (write: bool)
        ensures
            final(self).extended_spec(),
            write == !old(self).extended_spec(),
    {
        self.piston.drive(true)
    }

    /// Retracts the wing; returns whether the solenoid must be set low.
    pub fn retract(&mut self) -> (write: bool)
        ensures
            !final(self).extended_spec(),
            write == old(self).extended_spec(),
    {
        self.piston.drive(false)
    }

    /// Whether the wing is extended.
    pub fn is_extended(&self) -> (r: bool)
        ensures
            r == self.extended_spec(),
    {
        self.piston.is_extended()
    }
}

/// The matchloader piston.
pub struct Matchloader {
    piston: Piston,
}

impl Matchloader {
    pub closed spec fn extended_spec(&self) -> bool {
        self.piston.extended_spec()
    }

    /// A retracted matchloader.
    pub fn new() -> (r: Matchloader)
        ensures
            !r.extended_spec(),
    {
        Matchloader { piston: Piston::new() }
    }

    /// Extends the matchloader; returns whether the solenoid must be set
    /// high.
    pub fn extend(&mut self) -> (write: bool)
        ensures
            final(self).extended_spec(),
            write == !old(self).extended_spec(),
    {
        self.piston.drive(true)
    }

    /// Retracts the matchloader; returns whether the solenoid must be set
    /// low.
    pub fn retract(&mut self) -> (write: bool)
        ensures
            !final(self).extended_spec(),
            write == old(self).extended_spec(),
    {
        self.piston.drive(false)
    }

    /// Whether the matchloader is extended.
    pub fn is_extended(&self) -> (r: bool)
        ensures
            r == self.extended_spec(),
    {
        self.piston.is_extended()
    }
}

} // verus!
