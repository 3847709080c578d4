use vstd::prelude::*;

use crate::fish::Fish;
use crate::fish::in_bounds;

verus! {

/// The background of the tank: `=` along the top row and the bottom border
/// row, `|` in the first and last column of the rows between, spaces inside.
pub open spec fn base_cell(width: int, height: int, y: int, x: int) -> char {
    if y == 0 || y == height - 2 {
        '='
    } else if x == 0 || x == width - 1 {
        '|'
    } else {
        ' '
    }
}

/// Builds the empty tank: `height - 1` rows of `width` cells each, border
/// cells per `base_cell`, every interior cell a space.
pub fn calculate_aquarium(w: usize, h: usize) -> (grid: Vec<Vec<char>>)
    requires
        3 <= w,
        4 <= h,
    ensures
        grid@.len() == h - 1,
        forall|y: int| 0 <= y < h - 1 ==> (#[trigger] grid@[y])@.len() == w,
        forall|y: int, x: int|
            0 <= y < h - 1 && 0 <= x < w ==> #[trigger] grid@[y]@[x] == base_cell(
                w as int,
                h as int,
                y,
                x,
            ),
{
    let mut grid: Vec<Vec<char>> = Vec::new();
    let mut y: usize = 0;
    while y < h - 1
        invariant
            3 <= w,
            4 <= h,
            y <= h - 1,
            grid@.len() == y,
            forall|r: int| 0 <= r < y ==> (#[trigger] grid@[r])@.len() == w,
            forall|r: int, c: int|
                0 <= r < y && 0 <= c < w ==> #[trigger] grid@[r]@[c] == base_cell(
                    w as int,
                    h as int,
                    r,
                    c,
                ),
        decreases h - 1 - y,
    {
        let mut row: Vec<char> = Vec::new();
        let mut x: usize = 0;
        while x < w
            invariant
                3 <= w,
                4 <= h,
                y < h - 1,
                x <= w,
                row@.len() == x,
                forall|c: int|
                    0 <= c < x ==> #[trigger] row@[c] == base_cell(w as int, h as int, y as int, c),
            decreases w - x,
        {
            let cell: char = if y == 0 || y == h - 2 {
                '='
            } else if x == 0 || x == w - 1 {
                '|'
            } else {
                ' '
            };
            row.push(cell);
            x += 1;
        }
        grid.push(row);
        y += 1;
    }
    grid
}

/// The glyph of a decimal digit.
pub open spec fn digit_char(d: int) -> char {
    if d == 0 {
        '0'
    } else if d == 1 {
        '1'
    } else if d == 2 {
        '2'
    } else if d == 3 {
        '3'
    } else if d == 4 {
        '4'
    } else if d == 5 {
        '5'
    } else if d == 6 {
        '6'
    } else if d == 7 {
        '7'
    } else if d == 8 {
        '8'
    } else {
        '9'
    }
}

/// The decimal digits of a byte, most significant first, without leading
/// zeroes.
pub open spec fn decimal_seq(n: u8) -> Seq<char> {
    if n < 10 {
        seq![digit_char(n as int)]
    } else if n < 100 {
        seq![digit_char(n as int / 10), digit_char(n as int % 10)]
    } else {
        seq![digit_char(n as int / 100), digit_char((n as int / 10) % 10), digit_char(n as int % 10)]
    }
}

/// The ANSI truecolor escape that sets the foreground to an RGB triple:
/// `ESC [ 3 8 ; 2 ; r ; g ; b m`.
pub open spec fn color_prefix(color: (u8, u8, u8)) -> Seq<char> {
    seq!['\u{1b}', '[', '3', '8', ';', '2', ';'] + decimal_seq(color.0) + seq![';'] + decimal_seq(
        color.1,
    ) + seq![';'] + decimal_seq(color.2) + seq!['m']
}

/// The ANSI escape that resets all attributes: `ESC [ 0 m`.
pub open spec fn color_suffix() -> Seq<char> {
    seq!['\u{1b}', '[', '0', 'm']
}

/// The fish drawn at a cell: of the fish sitting there, the latest in fleet
/// order wins; `None` where the cell is free.
pub open spec fn top_fish_at(fishes: Seq<Fish>, x: int, y: int) -> Option<Fish>
    decreases fishes.len(),
{
    if fishes.len() == 0 {
        None
    } else if fishes.last().position.x == x && fishes.last().position.y == y {
        Some(fishes.last())
    } else {
        top_fish_at(fishes.drop_last(), x, y)
    }
}

/// One more fish overwrites a cell exactly when it sits there.
pub proof fn lemma_top_fish_push(fishes: Seq<Fish>, g: Fish, x: int, y: int)
    ensures
        top_fish_at(fishes.push(g), x, y) == (if g.position.x == x && g.position.y == y {
            Some(g)
        } else {
            top_fish_at(fishes, x, y)
        }),
{
    assert(fishes.push(g).last() == g);
    assert(fishes.push(g).drop_last() =~= fishes);
}

/// What a cell contributes to its output row: the topmost fish's glyph inside
/// its color escapes, or the bare background cell.
pub open spec fn cell_seq(fishes: Seq<Fish>, width: int, height: int, y: int, x: int) -> Seq<
    char,
> {
    match top_fish_at(fishes, x, y) {
        Some(f) => color_prefix(f.color) + seq![f.sprite] + color_suffix(),
        None => seq![base_cell(width, height, y, x)],
    }
}

/// The first `n` cells of a row, concatenated.
pub open spec fn line_prefix(fishes: Seq<Fish>, width: int, height: int, y: int, n: int) -> Seq<
    char,
>
    decreases n,
{
    if n <= 0 {
        Seq::empty()
    } else {
        line_prefix(fishes, width, height, y, n - 1) + cell_seq(fishes, width, height, y, n - 1)
    }
}

/// One whole output row of the frame.
pub open spec fn line_seq(fishes: Seq<Fish>, width: int, height: int, y: int) -> Seq<char> {
    line_prefix(fishes, width, height, y, width)
}

/// Appends one decimal digit.
fn push_digit(out: &mut Vec<char>, d: u8)
    requires
        d < 10,
    ensures
        final(out)@ == old(out)@.push(digit_char(d as int)),
{
    let c: char = if d == 0 {
        '0'
    } else if d == 1 {
        '1'
    } else if d == 2 {
        '2'
    } else if d == 3 {
        '3'
    } else if d == 4 {
        '4'
    } else if d == 5 {
        '5'
    } else if d == 6 {
        '6'
    } else if d == 7 {
        '7'
    } else if d == 8 {
        '8'
    } else {
        '9'
    };
    out.push(c);
}

/// Appends the decimal digits of a byte, most significant first, without
/// leading zeroes.
fn push_decimal(out: &mut Vec<char>, n: u8)
    ensures
        final(out)@ == old(out)@ + decimal_seq(n),
{
    if n >= 100 {
        push_digit(out, n / 100);
        push_digit(out, (n / 10) % 10);
        push_digit(out, n % 10);
    } else if n >= 10 {
        push_digit(out, n / 10);
        push_digit(out, n % 10);
    } else {
        push_digit(out, n);
    }
    assert(out@ =~= old(out)@ + decimal_seq(n));
}

/// Appends a fish cell: the glyph wrapped in its set-color and reset escapes.
fn push_cell_colored(line: &mut Vec<char>, color: (u8, u8, u8), sprite: char)
    ensures
        final(line)@ == old(line)@ + color_prefix(color) + seq![sprite] + color_suffix(),
{
    line.push('\u{1b}');
    line.push('[');
    line.push('3');
    line.push('8');
    line.push(';');
    line.push('2');
    line.push(';');
    push_decimal(line, color.0);
    line.push(';');
    push_decimal(line, color.1);
    line.push(';');
    push_decimal(line, color.2);
    line.push('m');
    line.push(sprite);
    line.push('\u{1b}');
    line.push('[');
    line.push('0');
    line.push('m');
    assert(line@ =~= old(line)@ + color_prefix(color) + seq![sprite] + color_suffix());
}

/// Whether a sprite/color cell pair shows exactly the fish that the overlay
/// of a fleet prefix puts there, or the untouched background.
pub open spec fn cell_overlay_ok(
    sprite: char,
    color: Option<(u8, u8, u8)>,
    fishes: Seq<Fish>,
    width: int,
    height: int,
    y: int,
    x: int,
) -> bool {
    match top_fish_at(fishes, x, y) {
        Some(f) => sprite == f.sprite && color == Some(f.color),
        None => sprite == base_cell(width, height, y, x) && color == None::<(u8, u8, u8)>,
    }
}

/// Rasterizes one frame: `height - 1` rows of the bordered tank with every
/// fish's glyph at its position, wrapped in its ANSI color escapes; where
/// fish overlap, the latest in fleet order wins.
pub fn render_frame(fishes: &Vec<Fish>, w: usize, h: usize) -> (lines: Vec<Vec<char>>)
    requires
        3 <= w,
        4 <= h,
        forall|i: int|
            0 <= i < fishes@.len() ==> in_bounds(
                (#[trigger] fishes@[i]).position,
                w as int,
                h as int,
            ),
    ensures
        lines@.len() == h - 1,
        forall|y: int|
            0 <= y < h - 1 ==> (#[trigger] lines@[y])@ == line_seq(fishes@, w as int, h as int, y),
{
    let mut sprites: Vec<Vec<char>> = calculate_aquarium(w, h);
    let mut colors: Vec<Vec<Option<(u8, u8, u8)>>> = Vec::new();
    let mut y: usize = 0;
    while y < h - 1
        invariant
            3 <= w,
            4 <= h,
            y <= h - 1,
            colors@.len() == y,
            forall|r: int| 0 <= r < y ==> (#[trigger] colors@[r])@.len() == w,
            forall|r: int, c: int|
                0 <= r < y && 0 <= c < w ==> #[trigger] colors@[r]@[c] == None::<(u8, u8, u8)>,
        decreases h - 1 - y,
    {
        let mut row: Vec<Option<(u8, u8, u8)>> = Vec::new();
        let mut x: usize = 0;
        while x < w
            invariant
                x <= w,
                row@.len() == x,
                forall|c: int| 0 <= c < x ==> #[trigger] row@[c] == None::<(u8, u8, u8)>,
            decreases w - x,
        {
            row.push(None);
            x += 1;
        }
        colors.push(row);
        y += 1;
    }

    let mut i: usize = 0;
    while i < fishes.len()
        invariant
            3 <= w,
            4 <= h,
            i <= fishes@.len(),
            forall|k: int|
                0 <= k < fishes@.len() ==> in_bounds(
                    (#[trigger] fishes@[k]).position,
                    w as int,
                    h as int,
                ),
            sprites@.len() == h - 1,
            forall|r: int| 0 <= r < h - 1 ==> (#[trigger] sprites@[r])@.len() == w,
            colors@.len() == h - 1,
            forall|r: int| 0 <= r < h - 1 ==> (#[trigger] colors@[r])@.len() == w,
            forall|r: int, c: int|
                0 <= r < h - 1 && 0 <= c < w ==> #[trigger] cell_overlay_ok(
                    sprites@[r]@[c],
                    colors@[r]@[c],
                    fishes@.take(i as int),
                    w as int,
                    h as int,
                    r,
                    c,
                ),
        decreases fishes@.len() - i,
    {
        let fsh = fishes[i];
        let ghost before_sprites = sprites@;
        let ghost before_colors = colors@;
        sprites[fsh.position.y][fsh.position.x] = fsh.sprite;
        colors[fsh.position.y][fsh.position.x] = Some(fsh.color);
        proof {
            assert(fishes@.take(i + 1) =~= fishes@.take(i as int).push(fishes@[i as int]));
            assert forall|r: int, c: int|
                0 <= r < h - 1 && 0 <= c < w implies #[trigger] cell_overlay_ok(
                sprites@[r]@[c],
                colors@[r]@[c],
                fishes@.take(i + 1),
                w as int,
                h as int,
                r,
                c,
            ) by {
                lemma_top_fish_push(fishes@.take(i as int), fishes@[i as int], c, r);
                assert(cell_overlay_ok(
                    before_sprites[r]@[c],
                    before_colors[r]@[c],
                    fishes@.take(i as int),
                    w as int,
                    h as int,
                    r,
                    c,
                ));
            }
        }
        i += 1;
    }
    proof {
        assert(fishes@.take(fishes@.len() as int) =~= fishes@);
    }

    let mut lines: Vec<Vec<char>> = Vec::new();
    let mut y: usize = 0;
    while y < h - 1
        invariant
            3 <= w,
            4 <= h,
            y <= h - 1,
            sprites@.len() == h - 1,
            forall|r: int| 0 <= r < h - 1 ==> (#[trigger] sprites@[r])@.len() == w,
            colors@.len() == h - 1,
            forall|r: int| 0 <= r < h - 1 ==> (#[trigger] colors@[r])@.len() == w,
            forall|r: int, c: int|
                0 <= r < h - 1 && 0 <= c < w ==> #[trigger] cell_overlay_ok(
                    sprites@[r]@[c],
                    colors@[r]@[c],
                    fishes@,
                    w as int,
                    h as int,
                    r,
                    c,
                ),
            lines@.len() == y,
            forall|r: int|
                0 <= r < y ==> (#[trigger] lines@[r])@ == line_seq(fishes@, w as int, h as int, r),
        decreases h - 1 - y,
    {
        let mut line: Vec<char> = Vec::new();
        let mut x: usize = 0;
        while x < w
            invariant
                3 <= w,
                4 <= h,
                y < h - 1,
                x <= w,
                sprites@.len() == h - 1,
                forall|r: int| 0 <= r < h - 1 ==> (#[trigger] sprites@[r])@.len() == w,
                colors@.len() == h - 1,
                forall|r: int| 0 <= r < h - 1 ==> (#[trigger] colors@[r])@.len() == w,
                forall|r: int, c: int|
                    0 <= r < h - 1 && 0 <= c < w ==> #[trigger] cell_overlay_ok(
                        sprites@[r]@[c],
                        colors@[r]@[c],
                        fishes@,
                        w as int,
                        h as int,
                        r,
                        c,
                    ),
                line@ == line_prefix(fishes@, w as int, h as int, y as int, x as int),
            decreases w - x,
        {
            proof {
                // bring the overlay fact for this cell into scope
                assert(cell_overlay_ok(
                    sprites@[y as int]@[x as int],
                    colors@[y as int]@[x as int],
                    fishes@,
                    w as int,
                    h as int,
                    y as int,
                    x as int,
                ));
            }
            match colors[y][x] {
                Some(c) => {
                    push_cell_colored(&mut line, c, sprites[y][x]);
                },
                None => {
                    line.push(sprites[y][x]);
                },
            }
            assert(line@ =~= line_prefix(fishes@, w as int, h as int, y as int, x + 1));
            x += 1;
        }
        lines.push(line);
        y += 1;
    }
    lines
}

} // verus!
