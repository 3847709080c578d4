use aquarium::Fish;
use aquarium::MovVec;
use aquarium::Point;
use aquarium::calculate_aquarium;
use aquarium::render_frame;

fn rows_to_strings(rows: Vec<Vec<char>>) -> Vec<String> {
    rows.into_iter().map(|row| row.iter().collect()).collect()
}

fn fish_at(x: usize, y: usize, sprite: char, color: (u8, u8, u8)) -> Fish {
    Fish {
        sprite,
        position: Point { x, y },
        movement: MovVec { x_speed: 1, y_speed: 0 },
        move_cnt: 0,
        color,
    }
}

#[test]
fn empty_tank_rows() {
    let rows = rows_to_strings(calculate_aquarium(6, 5));
    assert_eq!(rows, vec!["======", "|    |", "|    |", "======"]);
}

#[test]
fn empty_frame_equals_empty_tank() {
    let rows = rows_to_strings(render_frame(&Vec::new(), 6, 5));
    assert_eq!(rows, vec!["======", "|    |", "|    |", "======"]);
}

#[test]
fn fish_glyph_is_wrapped_in_its_color_escapes() {
    let fishes = vec![fish_at(1, 1, '>', (1, 2, 3))];
    let rows = rows_to_strings(render_frame(&fishes, 6, 5));
    assert_eq!(rows[0], "======");
    assert_eq!(rows[1], "|\u{1b}[38;2;1;2;3m>\u{1b}[0m   |");
    assert_eq!(rows[2], "|    |");
    assert_eq!(rows[3], "======");
}

#[test]
fn color_components_print_all_digit_widths() {
    let fishes = vec![fish_at(2, 2, '<', (0, 45, 255))];
    let rows = rows_to_strings(render_frame(&fishes, 6, 5));
    assert_eq!(rows[2], "| \u{1b}[38;2;0;45;255m<\u{1b}[0m  |");
}

#[test]
fn overlapping_fish_last_in_fleet_order_wins() {
    let fishes = vec![fish_at(3, 1, '<', (9, 9, 9)), fish_at(3, 1, '>', (200, 100, 50))];
    let rows = rows_to_strings(render_frame(&fishes, 8, 6));
    assert_eq!(rows[1], "|  \u{1b}[38;2;200;100;50m>\u{1b}[0m   |");
}

#[test]
fn fish_on_distinct_cells_all_appear() {
    let fishes = vec![fish_at(1, 1, '>', (1, 1, 1)), fish_at(2, 1, '<', (2, 2, 2))];
    let rows = rows_to_strings(render_frame(&fishes, 6, 5));
    assert_eq!(rows[1], "|\u{1b}[38;2;1;1;1m>\u{1b}[0m\u{1b}[38;2;2;2;2m<\u{1b}[0m  |");
}
