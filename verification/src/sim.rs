use vstd::prelude::*;

use crate::fish::Fish;
use crate::fish::MovVec;
use crate::fish::Point;
use crate::fish::fish_ok;
use crate::fish::in_bounds;
use crate::fish::speed_ok;
use crate::fish::tank_ok;
use crate::rng::draw_roll;
use crate::rng::random_coord;

verus! {

/// How many fish the fleet holds.
pub const FISH_COUNT: usize = 100;

/// The speed-pick procedure on a roll modelling a uniform draw from `[0,1)`
/// as an integer in `[0,100)`: the lower third gives `-1`, the middle third
/// `0`, the rest `+1`.
pub open spec fn speed_pick(roll: u8) -> i8 {
    if roll < 33 {
        -1i8
    } else if roll < 66 {
        0i8
    } else {
        1i8
    }
}

/// Strictly inside the tank interior: not on any interior boundary cell.
/// Only here may a fish's velocity be re-randomized.
pub open spec fn strictly_inside(p: Point, width: int, height: int) -> bool {
    &&& 1 < p.x < width - 2
    &&& 1 < p.y < height - 3
}

/// One more tick without a velocity change, saturating at the counter's
/// maximum (the direction-change probability it drives has long saturated
/// there anyway).
pub open spec fn bump_stall(cnt: u16) -> u16 {
    if cnt < u16::MAX {
        (cnt + 1) as u16
    } else {
        cnt
    }
}

/// One tick of a single fish, as a function of its state and of the tick's
/// inputs: the slow-motion clock phase, whether the caller's uniform draw
/// fell below the direction-change probability, and the two speed-pick rolls.
///
/// The stages, in order: the stall counter grows; strictly inside the
/// interior a winning draw re-randomizes both velocity components and resets
/// the counter; a component pointing off the interior from a boundary cell is
/// reversed (and the counter reset); then the fish moves one cell per nonzero
/// horizontal component, faces the way it moves, and moves vertically only on
/// the clock phase zero and only while also moving horizontally.
pub open spec fn spec_tick(
    f: Fish,
    width: int,
    height: int,
    clock: u8,
    change: bool,
    x_roll: u8,
    y_roll: u8,
) -> Fish {
    let stalled = bump_stall(f.move_cnt);
    let redraw = change && strictly_inside(f.position, width, height);
    let picked = if redraw {
        MovVec { x_speed: speed_pick(x_roll), y_speed: speed_pick(y_roll) }
    } else {
        f.movement
    };
    let cnt_picked: u16 = if redraw {
        0
    } else {
        stalled
    };
    let x_rev = (f.position.x == 1 && picked.x_speed < 0) || (f.position.x == width - 2
        && picked.x_speed > 0);
    let y_rev = (f.position.y == 1 && picked.y_speed < 0) || (f.position.y == height - 3
        && picked.y_speed > 0);
    let vx: i8 = if x_rev {
        (-picked.x_speed) as i8
    } else {
        picked.x_speed
    };
    let vy: i8 = if y_rev {
        (-picked.y_speed) as i8
    } else {
        picked.y_speed
    };
    let cnt: u16 = if x_rev || y_rev {
        0
    } else {
        cnt_picked
    };
    let new_x: usize = if vx < 0 {
        (f.position.x - 1) as usize
    } else if vx > 0 {
        (f.position.x + 1) as usize
    } else {
        f.position.x
    };
    let sprite: char = if vx < 0 {
        '<'
    } else if vx > 0 {
        '>'
    } else {
        f.sprite
    };
    let y_moves = vy != 0 && clock == 0 && vx != 0;
    let new_y: usize = if !y_moves {
        f.position.y
    } else if vy < 0 {
        (f.position.y - 1) as usize
    } else {
        (f.position.y + 1) as usize
    };
    Fish {
        sprite,
        position: Point { x: new_x, y: new_y },
        movement: MovVec { x_speed: vx, y_speed: vy },
        move_cnt: cnt,
        color: f.color,
    }
}

/// The speed-pick procedure: `roll` models a uniform draw from `[0,1)` as an
/// integer in `[0,100)`. The result's magnitude is clamped to at least one
/// when nonzero; with velocity components bounded by one, that fixes it at
/// exactly one.
pub fn calculate_speed(initial_speed: i8, roll: u8) -> (r: i8)
    requires
        -1 <= initial_speed <= 1,
    ensures
        r == speed_pick(roll),
        -1 <= r <= 1,
{
    let magnitude: i8 = if initial_speed > 1 {
        initial_speed
    } else {
        1
    };
    if roll < 33 {
        -magnitude
    } else if roll < 66 {
        0
    } else {
        magnitude
    }
}

/// The stochastic part of a tick: strictly inside the interior, a winning
/// draw (`change_roll`) re-randomizes both velocity components through the
/// speed-pick and resets the stall counter; otherwise the velocity is handed
/// back unchanged. Only `move_cnt` of the fish may change here; the caller
/// commits the returned velocity.
pub fn calculate_movement(
    fish: &mut Fish,
    terminal_width: usize,
    terminal_height: usize,
    change_roll: bool,
    x_roll: u8,
    y_roll: u8,
) -> (m: MovVec)
    requires
        speed_ok(old(fish).movement),
        in_bounds(old(fish).position, terminal_width as int, terminal_height as int),
    ensures
        final(fish).position == old(fish).position,
        final(fish).movement == old(fish).movement,
        final(fish).sprite == old(fish).sprite,
        final(fish).color == old(fish).color,
        ({
            let redraw = change_roll && strictly_inside(
                old(fish).position,
                terminal_width as int,
                terminal_height as int,
            );
            if redraw {
                m == (MovVec { x_speed: speed_pick(x_roll), y_speed: speed_pick(y_roll) })
                    && final(fish).move_cnt == 0
            } else {
                m == old(fish).movement && final(fish).move_cnt == old(fish).move_cnt
            }
        }),
        speed_ok(m),
{
    let mut x_speed: i8 = fish.movement.x_speed;
    let mut y_speed: i8 = fish.movement.y_speed;

    if change_roll && fish.position.x > 1 && fish.position.x + 2 < terminal_width
        && fish.position.y > 1 && fish.position.y + 3 < terminal_height {
        x_speed = calculate_speed(x_speed, x_roll);
        y_speed = calculate_speed(y_speed, y_roll);
        fish.move_cnt = 0;
    }

    MovVec { x_speed, y_speed }
}

/// One simulation tick for one fish. The caller supplies the shared
/// slow-motion clock phase, whether its uniform draw fell below the
/// direction-change probability for the grown stall count, and the two
/// speed-pick rolls; the new state is exactly `spec_tick` of the old one and
/// of those inputs, so a fixed script of inputs fixes the whole run.
pub fn move_fish(
    fish: &mut Fish,
    terminal_width: usize,
    terminal_height: usize,
    clock_counter: &u8,
    change_roll: bool,
    x_roll: u8,
    y_roll: u8,
)
    requires
        tank_ok(terminal_width as int, terminal_height as int),
        fish_ok(*old(fish), terminal_width as int, terminal_height as int),
    ensures
        *final(fish) == spec_tick(
            *old(fish),
            terminal_width as int,
            terminal_height as int,
            *clock_counter,
            change_roll,
            x_roll,
            y_roll,
        ),
        fish_ok(*final(fish), terminal_width as int, terminal_height as int),
        final(fish).color == old(fish).color,
        // a fish on a boundary leaves it or stays, never crosses it
        old(fish).position.x == 1 ==> final(fish).movement.x_speed >= 0
            && final(fish).position.x >= old(fish).position.x,
        old(fish).position.x == terminal_width - 2 ==> final(fish).movement.x_speed <= 0
            && final(fish).position.x <= old(fish).position.x,
        old(fish).position.y == 1 ==> final(fish).movement.y_speed >= 0
            && final(fish).position.y >= old(fish).position.y,
        old(fish).position.y == terminal_height - 3 ==> final(fish).movement.y_speed <= 0
            && final(fish).position.y <= old(fish).position.y,
        // the glyph tracks the sign of the horizontal speed
        final(fish).movement.x_speed < 0 ==> final(fish).sprite == '<',
        final(fish).movement.x_speed > 0 ==> final(fish).sprite == '>',
        final(fish).movement.x_speed == 0 ==> final(fish).sprite == old(fish).sprite,
{
    fish.move_cnt = if fish.move_cnt < u16::MAX {
        fish.move_cnt + 1
    } else {
        fish.move_cnt
    };
    let m = calculate_movement(fish, terminal_width, terminal_height, change_roll, x_roll, y_roll);
    fish.movement = m;

    if (fish.position.x == 1 && fish.movement.x_speed < 0) || (fish.position.x == terminal_width
        - 2 && fish.movement.x_speed > 0) {
        fish.movement.x_speed = -fish.movement.x_speed;
        fish.move_cnt = 0;
    }
    if (fish.position.y == 1 && fish.movement.y_speed < 0) || (fish.position.y == terminal_height
        - 3 && fish.movement.y_speed > 0) {
        fish.movement.y_speed = -fish.movement.y_speed;
        fish.move_cnt = 0;
    }

    if fish.movement.x_speed < 0 {
        fish.sprite = '<';
        fish.position.x -= 1;
    } else if fish.movement.x_speed > 0 {
        fish.sprite = '>';
        fish.position.x += 1;
    }
    if fish.movement.y_speed != 0 && *clock_counter == 0 && fish.movement.x_speed != 0 {
        if fish.movement.y_speed < 0 {
            fish.position.y -= 1;
        } else {
            fish.position.y += 1;
        }
    }
}

/// The inputs of one tick, as the driver hands them to `move_fish`: the
/// slow-motion clock phase, the outcome of the direction-change draw, and the
/// two speed-pick rolls.
pub struct TickInput {
    pub clock: u8,
    pub change: bool,
    pub x_roll: u8,
    pub y_roll: u8,
}

/// The fish state after running a whole sequence of ticks, first input first.
pub open spec fn run_ticks(f: Fish, width: int, height: int, inputs: Seq<TickInput>) -> Fish
    decreases inputs.len(),
{
    if inputs.len() == 0 {
        f
    } else {
        run_ticks(
            spec_tick(
                f,
                width,
                height,
                inputs[0].clock,
                inputs[0].change,
                inputs[0].x_roll,
                inputs[0].y_roll,
            ),
            width,
            height,
            inputs.drop_first(),
        )
    }
}

/// One tick keeps a fish well formed: inside the tank interior, with bounded
/// velocity, whatever the tick's inputs.
pub proof fn lemma_tick_preserves_ok(
    f: Fish,
    width: int,
    height: int,
    clock: u8,
    change: bool,
    x_roll: u8,
    y_roll: u8,
)
    requires
        tank_ok(width, height),
        width <= usize::MAX,
        height <= usize::MAX,
        fish_ok(f, width, height),
    ensures
        fish_ok(spec_tick(f, width, height, clock, change, x_roll, y_roll), width, height),
{
    let redraw = change && strictly_inside(f.position, width, height);
    let picked = if redraw {
        MovVec { x_speed: speed_pick(x_roll), y_speed: speed_pick(y_roll) }
    } else {
        f.movement
    };
    let x_rev = (f.position.x == 1 && picked.x_speed < 0) || (f.position.x == width - 2
        && picked.x_speed > 0);
    let y_rev = (f.position.y == 1 && picked.y_speed < 0) || (f.position.y == height - 3
        && picked.y_speed > 0);
    let vx: i8 = if x_rev {
        (-picked.x_speed) as i8
    } else {
        picked.x_speed
    };
    let vy: i8 = if y_rev {
        (-picked.y_speed) as i8
    } else {
        picked.y_speed
    };
    assert(speed_ok(picked));
    assert(-1 <= vx <= 1 && -1 <= vy <= 1);
    assert(vx < 0 ==> f.position.x >= 2);
    assert(vx > 0 ==> f.position.x <= width - 3);
    assert(vy < 0 ==> f.position.y >= 2);
    assert(vy > 0 ==> f.position.y <= height - 4);
}

/// Boundary containment: after every tick of any tick sequence, of any
/// length, a well-formed fish is still inside the tank interior, with its
/// velocity still bounded.
pub proof fn lemma_containment(f: Fish, width: int, height: int, inputs: Seq<TickInput>)
    requires
        tank_ok(width, height),
        width <= usize::MAX,
        height <= usize::MAX,
        fish_ok(f, width, height),
    ensures
        fish_ok(run_ticks(f, width, height, inputs), width, height),
    decreases inputs.len(),
{
    if inputs.len() > 0 {
        let next = spec_tick(
            f,
            width,
            height,
            inputs[0].clock,
            inputs[0].change,
            inputs[0].x_roll,
            inputs[0].y_roll,
        );
        lemma_tick_preserves_ok(
            f,
            width,
            height,
            inputs[0].clock,
            inputs[0].change,
            inputs[0].x_roll,
            inputs[0].y_roll,
        );
        lemma_containment(next, width, height, inputs.drop_first());
    }
}

/// Running one more tick after a sequence is one `spec_tick` of the state the
/// sequence reaches.
pub proof fn lemma_run_ticks_snoc(f: Fish, width: int, height: int, s: Seq<TickInput>, e: TickInput)
    ensures
        run_ticks(f, width, height, s.push(e)) == spec_tick(
            run_ticks(f, width, height, s),
            width,
            height,
            e.clock,
            e.change,
            e.x_roll,
            e.y_roll,
        ),
    decreases s.len(),
{
    if s.len() == 0 {
        let inner = spec_tick(f, width, height, e.clock, e.change, e.x_roll, e.y_roll);
        assert(s.push(e)[0] == e);
        assert(s.push(e).drop_first() =~= Seq::<TickInput>::empty());
        assert(run_ticks(f, width, height, s.push(e)) == run_ticks(
            inner,
            width,
            height,
            Seq::<TickInput>::empty(),
        ));
        assert(run_ticks(inner, width, height, Seq::<TickInput>::empty()) == inner);
        assert(run_ticks(f, width, height, s) == f);
    } else {
        let inner = spec_tick(f, width, height, s[0].clock, s[0].change, s[0].x_roll, s[0].y_roll);
        assert(s.push(e)[0] == s[0]);
        assert(s.push(e).drop_first() =~= s.drop_first().push(e));
        assert(run_ticks(f, width, height, s.push(e)) == run_ticks(
            inner,
            width,
            height,
            s.drop_first().push(e),
        ));
        assert(run_ticks(f, width, height, s) == run_ticks(inner, width, height, s.drop_first()));
        lemma_run_ticks_snoc(inner, width, height, s.drop_first(), e);
    }
}

/// A tick that neither wins the direction-change draw nor meets a wall keeps
/// the velocity, moves the fish one cell horizontally, and moves it
/// vertically exactly on the clock phase zero, by the sign of its vertical
/// speed.
pub proof fn lemma_steady_step(g: Fish, width: int, height: int, t: TickInput)
    requires
        tank_ok(width, height),
        width <= usize::MAX,
        height <= usize::MAX,
        speed_ok(g.movement),
        g.movement.x_speed != 0,
        g.movement.y_speed != 0,
        !t.change,
        2 <= g.position.x <= width - 3,
        2 <= g.position.y <= height - 4,
    ensures
        ({
            let g2 = spec_tick(g, width, height, t.clock, t.change, t.x_roll, t.y_roll);
            &&& g2.movement == g.movement
            &&& g2.position.x == g.position.x + g.movement.x_speed
            &&& g2.position.y == if t.clock == 0 {
                g.position.y + g.movement.y_speed
            } else {
                g.position.y as int
            }
            &&& g2.color == g.color
        }),
{
}

/// Slow-motion gating: over five consecutive frames the clock phases run once
/// around their cycle, so a fish whose velocity neither gets re-randomized
/// nor reversed in that window (both components nonzero, no winning draw, no
/// wall within reach) moves one cell horizontally on every tick, and moves
/// vertically on exactly one of the five — the tick at phase zero — by the
/// sign of its vertical speed.
pub proof fn lemma_slow_motion_gating(
    f: Fish,
    width: int,
    height: int,
    c: u8,
    ins: Seq<TickInput>,
)
    requires
        tank_ok(width, height),
        width <= usize::MAX,
        height <= usize::MAX,
        fish_ok(f, width, height),
        f.movement.x_speed != 0,
        f.movement.y_speed != 0,
        c < 5,
        ins.len() == 5,
        forall|k: int| 0 <= k < 5 ==> !(#[trigger] ins[k]).change,
        forall|k: int| 0 <= k < 5 ==> (#[trigger] ins[k]).clock == (c + k) % 5,
        // no wall comes within reach during the window
        6 <= f.position.x,
        f.position.x + 7 <= width,
        3 <= f.position.y,
        f.position.y + 5 <= height,
    ensures
        forall|k: int|
            0 <= k < 5 ==> (#[trigger] run_ticks(f, width, height, ins.take(k + 1))).movement
                == f.movement,
        forall|k: int|
            0 <= k < 5 ==> (#[trigger] run_ticks(f, width, height, ins.take(k + 1))).position.y == (
            if ins[k].clock == 0 {
                run_ticks(f, width, height, ins.take(k)).position.y + f.movement.y_speed
            } else {
                run_ticks(f, width, height, ins.take(k)).position.y as int
            }),
        run_ticks(f, width, height, ins).position.y == f.position.y + f.movement.y_speed,
        run_ticks(f, width, height, ins).position.x == f.position.x + 5 * f.movement.x_speed,
{
    assert(ins.take(0) =~= Seq::<TickInput>::empty());
    assert(ins.take(1) =~= ins.take(0).push(ins[0]));
    assert(ins.take(2) =~= ins.take(1).push(ins[1]));
    assert(ins.take(3) =~= ins.take(2).push(ins[2]));
    assert(ins.take(4) =~= ins.take(3).push(ins[3]));
    assert(ins.take(5) =~= ins.take(4).push(ins[4]));
    assert(ins.take(5) =~= ins);
    lemma_run_ticks_snoc(f, width, height, ins.take(0), ins[0]);
    lemma_run_ticks_snoc(f, width, height, ins.take(1), ins[1]);
    lemma_run_ticks_snoc(f, width, height, ins.take(2), ins[2]);
    lemma_run_ticks_snoc(f, width, height, ins.take(3), ins[3]);
    lemma_run_ticks_snoc(f, width, height, ins.take(4), ins[4]);
    let s0 = run_ticks(f, width, height, ins.take(0));
    let s1 = run_ticks(f, width, height, ins.take(1));
    let s2 = run_ticks(f, width, height, ins.take(2));
    let s3 = run_ticks(f, width, height, ins.take(3));
    let s4 = run_ticks(f, width, height, ins.take(4));
    let s5 = run_ticks(f, width, height, ins.take(5));
    lemma_steady_step(s0, width, height, ins[0]);
    lemma_steady_step(s1, width, height, ins[1]);
    lemma_steady_step(s2, width, height, ins[2]);
    lemma_steady_step(s3, width, height, ins[3]);
    lemma_steady_step(s4, width, height, ins[4]);
    // exactly one of the five phases is zero
    assert(c == 0 || c == 1 || c == 2 || c == 3 || c == 4);
    assert(s5.position.y == f.position.y + f.movement.y_speed);
}

/// Determinism: the state a fish reaches is a function of its start state and
/// of the tick inputs alone, so a fixed script of random outcomes reproduces
/// the same run exactly.
pub proof fn lemma_run_deterministic(
    f: Fish,
    g: Fish,
    width: int,
    height: int,
    a: Seq<TickInput>,
    b: Seq<TickInput>,
)
    requires
        f == g,
        a == b,
    ensures
        run_ticks(f, width, height, a) == run_ticks(g, width, height, b),
{
}

/// The driver's slow-motion clock: it cycles through the phases 0 to 4, one
/// step per frame; fish move vertically only on phase 0.
pub fn advance_clock(clock_counter: u8) -> (r: u8)
    requires
        clock_counter < 5,
    ensures
        r == (clock_counter + 1) % 5,
        r < 5,
{
    (clock_counter + 1) % 5
}

/// What spawning guarantees of every fish of the fresh fleet: inside the
/// interior, bounded velocity, facing right, stall counter at zero.
pub open spec fn spawned_ok(f: Fish, width: int, height: int) -> bool {
    &&& fish_ok(f, width, height)
    &&& f.move_cnt == 0
    &&& f.sprite == '>'
}

/// Spawns the fleet: each fish at a random interior cell, with both velocity
/// components drawn through the speed-pick, a random color, facing right.
pub fn spawn_fish(terminal_width: usize, terminal_height: usize) -> (fishes: Vec<Fish>)
    requires
        tank_ok(terminal_width as int, terminal_height as int),
    ensures
        fishes@.len() == FISH_COUNT,
        forall|i: int|
            0 <= i < fishes@.len() ==> spawned_ok(
                #[trigger] fishes@[i],
                terminal_width as int,
                terminal_height as int,
            ),
{
    let mut fishes: Vec<Fish> = Vec::new();
    let mut i: usize = 0;
    while i < FISH_COUNT
        invariant
            tank_ok(terminal_width as int, terminal_height as int),
            i <= FISH_COUNT,
            fishes@.len() == i,
            forall|j: int|
                0 <= j < fishes@.len() ==> spawned_ok(
                    #[trigger] fishes@[j],
                    terminal_width as int,
                    terminal_height as int,
                ),
        decreases FISH_COUNT - i,
    {
        let x = random_coord(1, terminal_width - 2);
        let y = random_coord(1, terminal_height - 3);
        let x_speed = calculate_speed(0, draw_roll());
        let y_speed = calculate_speed(0, draw_roll());
        let color = (rand::random::<u8>(), rand::random::<u8>(), rand::random::<u8>());
        let fish = Fish {
            sprite: '>',
            position: Point { x, y },
            movement: MovVec { x_speed, y_speed },
            move_cnt: 0,
            color,
        };
        fishes.push(fish);
        i += 1;
    }
    fishes
}

} // verus!
