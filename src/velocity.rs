use vstd::prelude::*;

verus! {

/// A body's linear velocity, in whole units per second.
#[derive(Clone, Copy, Debug, PartialEq, Eq, Structural)]
pub struct Velocity {
    pub x: i64,
    pub y: i64,
}

/// What the controller writes into a body's velocity during one tick.
/// An axis holding `None` is left as the physics engine carried it over.
#[derive(Clone, Copy, Debug, PartialEq, Eq, Structural)]
pub struct VelocityCommand {
    pub horizontal: Option<i64>,
    pub vertical: Option<i64>,
}

/// The value of one axis after a command for it has been applied.
pub open spec fn axis_after(command: Option<i64>, current: i64) -> i64 {
    match command {
        Some(v) => v,
        None => current,
    }
}

impl VelocityCommand {
    /// The velocity that results from writing this command over `v`.
    pub open spec fn applied(self, v: Velocity) -> Velocity {
        Velocity { x: axis_after(self.horizontal, v.x), y: axis_after(self.vertical, v.y) }
    }

    /// Writes the commanded axes over `v` and keeps the others.
    pub fn apply(&self, v: Velocity) -> (r: Velocity)
        ensures
            r == self.applied(v),
    {
        let x = match self.horizontal {
            Some(h) => h,
            None => v.x,
        };
        let y = match self.vertical {
            Some(u) => u,
            None => v.y,
        };
        Velocity { x, y }
    }
}

} // verus!
