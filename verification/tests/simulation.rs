use aquarium::Fish;
use aquarium::MovVec;
use aquarium::Point;
use aquarium::advance_clock;
use aquarium::calculate_movement;
use aquarium::calculate_speed;
use aquarium::draw_roll;
use aquarium::move_fish;
use aquarium::spawn_fish;

fn fish_at(x: usize, y: usize, vx: i8, vy: i8) -> Fish {
    Fish {
        sprite: '>',
        position: Point { x, y },
        movement: MovVec { x_speed: vx, y_speed: vy },
        move_cnt: 0,
        color: (10, 20, 30),
    }
}

#[test]
fn speed_pick_exact_buckets() {
    assert_eq!(calculate_speed(0, 0), -1);
    assert_eq!(calculate_speed(0, 32), -1);
    assert_eq!(calculate_speed(0, 33), 0);
    assert_eq!(calculate_speed(0, 65), 0);
    assert_eq!(calculate_speed(0, 66), 1);
    assert_eq!(calculate_speed(0, 99), 1);
    assert_eq!(calculate_speed(-1, 0), -1);
    assert_eq!(calculate_speed(1, 40), 0);
}

#[test]
fn speed_pick_range_and_frequency() {
    let mut minus = 0;
    let mut zero = 0;
    let mut plus = 0;
    for roll in 0..100u8 {
        match calculate_speed(0, roll) {
            -1 => minus += 1,
            0 => zero += 1,
            1 => plus += 1,
            other => panic!("speed out of range: {}", other),
        }
    }
    // over the whole roll space each value comes up about a third of the time
    assert_eq!(minus, 33);
    assert_eq!(zero, 33);
    assert_eq!(plus, 34);
}

#[test]
fn scenario_single_fish_bounces_off_right_wall() {
    let mut fish = fish_at(5, 5, 1, 0);
    let mut clock: u8 = 0;
    let mut xs = Vec::new();
    for _ in 0..12 {
        clock = advance_clock(clock);
        move_fish(&mut fish, 10, 10, &clock, false, 0, 0);
        xs.push(fish.position.x);
        assert!(fish.position.x <= 8, "x must never reach 9");
        assert_eq!(fish.position.y, 5);
        if fish.movement.x_speed > 0 {
            assert_eq!(fish.sprite, '>');
        } else {
            assert_eq!(fish.sprite, '<');
        }
    }
    // x climbs to width - 2 = 8, the speed reverses there, then x falls
    assert_eq!(xs, vec![6, 7, 8, 7, 6, 5, 4, 3, 2, 1, 2, 3]);
}

#[test]
fn reversal_at_left_wall_points_inward() {
    let mut fish = fish_at(1, 5, -1, 0);
    let clock: u8 = 1;
    move_fish(&mut fish, 10, 10, &clock, false, 0, 0);
    assert_eq!(fish.movement.x_speed, 1);
    assert_eq!(fish.position.x, 2);
    assert_eq!(fish.sprite, '>');
    assert_eq!(fish.move_cnt, 0);
}

#[test]
fn reversal_at_bottom_wall_points_upward() {
    let mut fish = fish_at(5, 7, 1, 1);
    let clock: u8 = 0;
    move_fish(&mut fish, 10, 10, &clock, false, 0, 0);
    assert_eq!(fish.movement.y_speed, -1);
    assert_eq!(fish.position.y, 6);
    assert_eq!(fish.move_cnt, 0);
}

#[test]
fn glyph_retained_when_not_moving_horizontally() {
    let mut fish = fish_at(5, 5, 0, 1);
    fish.sprite = '<';
    let clock: u8 = 0;
    move_fish(&mut fish, 20, 20, &clock, false, 0, 0);
    // no horizontal speed: no movement at all (vertical motion is gated on
    // horizontal motion) and the old glyph is kept
    assert_eq!(fish.position.x, 5);
    assert_eq!(fish.position.y, 5);
    assert_eq!(fish.sprite, '<');
}

#[test]
fn slow_motion_moves_vertically_once_per_cycle() {
    let mut fish = fish_at(15, 15, 1, 1);
    let mut clock: u8 = 0;
    let mut y_steps = Vec::new();
    for _ in 0..5 {
        let before = fish.position.y;
        clock = advance_clock(clock);
        move_fish(&mut fish, 40, 40, &clock, false, 0, 0);
        y_steps.push(fish.position.y as i64 - before as i64);
        assert_eq!(fish.movement, MovVec { x_speed: 1, y_speed: 1 });
    }
    assert_eq!(y_steps.iter().filter(|&&d| d == 1).count(), 1);
    assert_eq!(y_steps.iter().filter(|&&d| d == 0).count(), 4);
    assert_eq!(fish.position.y, 16);
    assert_eq!(fish.position.x, 20);
}

#[test]
fn deterministic_given_a_fixed_roll_script() {
    let script: Vec<(bool, u8, u8)> = (0..50)
        .map(|i| (i % 3 == 0, (i * 37 % 100) as u8, (i * 53 % 100) as u8))
        .collect();
    let mut runs = Vec::new();
    for _ in 0..2 {
        let mut fish = fish_at(7, 6, 1, -1);
        let mut clock: u8 = 0;
        let mut states = Vec::new();
        for &(change, xr, yr) in &script {
            clock = advance_clock(clock);
            move_fish(&mut fish, 25, 18, &clock, change, xr, yr);
            states.push(fish);
        }
        runs.push(states);
    }
    assert_eq!(runs[0], runs[1]);
}

#[test]
fn containment_holds_over_a_long_run() {
    // smallest tank the simulation is defined on
    let (w, h) = (4usize, 5usize);
    let mut fish = fish_at(2, 2, 1, 1);
    let mut clock: u8 = 0;
    for i in 0..1000u64 {
        clock = advance_clock(clock);
        let change = i % 3 == 0;
        let xr = (i * 37 % 100) as u8;
        let yr = (i * 53 % 100) as u8;
        move_fish(&mut fish, w, h, &clock, change, xr, yr);
        assert!(1 <= fish.position.x && fish.position.x <= w - 2);
        assert!(1 <= fish.position.y && fish.position.y <= h - 3);
    }
}

#[test]
fn winning_draw_redraws_only_strictly_inside() {
    let mut fish = fish_at(5, 5, 1, 1);
    fish.move_cnt = 7;
    let m = calculate_movement(&mut fish, 10, 10, true, 10, 70);
    assert_eq!(m, MovVec { x_speed: -1, y_speed: 1 });
    assert_eq!(fish.move_cnt, 0);
    // the returned velocity is not yet committed to the fish
    assert_eq!(fish.movement, MovVec { x_speed: 1, y_speed: 1 });

    // on an interior boundary cell the same winning draw changes nothing
    let mut edge = fish_at(1, 5, 1, 1);
    edge.move_cnt = 7;
    let kept = calculate_movement(&mut edge, 10, 10, true, 0, 0);
    assert_eq!(kept, MovVec { x_speed: 1, y_speed: 1 });
    assert_eq!(edge.move_cnt, 7);
}

#[test]
fn boundary_reversal_beats_winning_draw() {
    // at the right wall a winning draw is ignored and the fish bounces
    let mut fish = fish_at(8, 5, 1, 0);
    let clock: u8 = 1;
    move_fish(&mut fish, 10, 10, &clock, true, 99, 99);
    assert_eq!(fish.movement.x_speed, -1);
    assert_eq!(fish.position.x, 7);
    assert_eq!(fish.sprite, '<');
}

#[test]
fn stall_counter_saturates() {
    let mut fish = fish_at(10, 10, 1, 0);
    fish.move_cnt = u16::MAX;
    let clock: u8 = 1;
    move_fish(&mut fish, 40, 40, &clock, false, 0, 0);
    assert_eq!(fish.move_cnt, u16::MAX);
}

#[test]
fn clock_cycles_through_five_phases() {
    assert_eq!(advance_clock(0), 1);
    assert_eq!(advance_clock(1), 2);
    assert_eq!(advance_clock(2), 3);
    assert_eq!(advance_clock(3), 4);
    assert_eq!(advance_clock(4), 0);
}

#[test]
fn rolls_stay_below_one_hundred() {
    for _ in 0..1000 {
        assert!(draw_roll() < 100);
    }
}

#[test]
fn spawned_fleet_is_well_formed() {
    let fishes = spawn_fish(80, 40);
    assert_eq!(fishes.len(), 100);
    for fish in &fishes {
        assert!(1 <= fish.position.x && fish.position.x <= 78);
        assert!(1 <= fish.position.y && fish.position.y <= 37);
        assert!(fish.movement.x_speed >= -1 && fish.movement.x_speed <= 1);
        assert!(fish.movement.y_speed >= -1 && fish.movement.y_speed <= 1);
        assert_eq!(fish.sprite, '>');
        assert_eq!(fish.move_cnt, 0);
    }
}
