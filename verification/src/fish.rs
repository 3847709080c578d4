use vstd::prelude::*;

verus! {

/// A cell position inside the tank, column `x`, row `y`.
#[derive(Clone, Copy, Debug, PartialEq, Eq)]
pub struct Point {
    pub x: usize,
    pub y: usize,
}

/// A fish's velocity: per-tick displacement, one small signed component per
/// axis, each of magnitude at most one.
#[derive(Clone, Copy, Debug, PartialEq, Eq)]
pub struct MovVec {
    pub x_speed: i8,
    pub y_speed: i8,
}

/// One fish of the fleet. `sprite` is the facing glyph derived from the sign
/// of the horizontal speed, `move_cnt` counts the ticks since the velocity
/// last changed, and `color` is the RGB triple fixed at spawn.
#[derive(Clone, Copy, Debug, PartialEq, Eq)]
pub struct Fish {
    pub sprite: char,
    pub position: Point,
    pub movement: MovVec,
    pub move_cnt: u16,
    pub color: (u8, u8, u8),
}

/// The smallest tank the simulation is defined on: the interior must hold at
/// least two columns and two rows, so that no cell sits on both opposite
/// boundaries at once.
pub open spec fn tank_ok(width: int, height: int) -> bool {
    4 <= width && 5 <= height
}

/// The tank interior: one column of border on each side, one border row on
/// top, and two reserved rows at the bottom.
pub open spec fn in_bounds(p: Point, width: int, height: int) -> bool {
    &&& 1 <= p.x <= width - 2
    &&& 1 <= p.y <= height - 3
}

/// Velocity components stay at magnitude at most one.
pub open spec fn speed_ok(m: MovVec) -> bool {
    &&& -1 <= m.x_speed <= 1
    &&& -1 <= m.y_speed <= 1
}

/// Well-formedness of a fish with respect to a tank: position inside the
/// interior, velocity bounded.
pub open spec fn fish_ok(f: Fish, width: int, height: int) -> bool {
    &&& in_bounds(f.position, width, height)
    &&& speed_ok(f.movement)
}

} // verus!
