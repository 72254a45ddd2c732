//! The labelled SVG contact sheet of the sprite catalog, for comparing the
//! designs side by side: one framed cell per sprite, five cells per row, each sprite drawn
//! at 6x scale as one rectangle per horizontal run of equal colour.

use vstd::prelude::*;
use vstd::string::*;
use crate::sprites::{
    Sprite32, at, byte_concepts, is_byte_catalog, BODY, CORE, INK, SPRITE_HEIGHT, SPRITE_WIDTH, TRANSPARENT,
};

verus! {

pub const COLUMNS: usize = 5;

pub const PIXEL_SCALE: usize = 6;

pub const CELL_WIDTH: usize = 240;

pub const CELL_HEIGHT: usize = 250;

pub const HEADER_HEIGHT: usize = 54;

// ---------------------------------------------------------------------------
// Decimal numbers.
/// The text of one decimal digit.
pub open spec fn digit_text(d: int) -> Seq<char> {
    if d == 0 {
        "0"@
    } else if d == 1 {
        "1"@
    } else if d == 2 {
        "2"@
    } else if d == 3 {
        "3"@
    } else if d == 4 {
        "4"@
    } else if d == 5 {
        "5"@
    } else if d == 6 {
        "6"@
    } else if d == 7 {
        "7"@
    } else if d == 8 {
        "8"@
    } else {
        "9"@
    }
}

/// `n` written in decimal, without leading zeros.
pub open spec fn decimal(n: nat) -> Seq<char>
    decreases n,
{
    if n < 10 {
        digit_text(n as int)
    } else {
        decimal(n / 10) + digit_text((n % 10) as int)
    }
}

fn append_digit(svg: &mut String, d: usize)
    requires
        d < 10,
    ensures
        final(svg)@ == old(svg)@ + digit_text(d as int),
{
    match d {
        0 => svg.append("0"),
        1 => svg.append("1"),
        2 => svg.append("2"),
        3 => svg.append("3"),
        4 => svg.append("4"),
        5 => svg.append("5"),
        6 => svg.append("6"),
        7 => svg.append("7"),
        8 => svg.append("8"),
        _ => svg.append("9"),
    }
}

/// Appends `n` in decimal.
fn append_decimal(svg: &mut String, n: usize)
    ensures
        final(svg)@ == old(svg)@ + decimal(n as nat),
    decreases n,
{
    if n >= 10 {
        append_decimal(svg, n / 10);
    }
    let ghost mid = svg@;
    append_digit(svg, n % 10);
    proof {
        if n >= 10 {
            assert(svg@ =~= old(svg)@ + decimal(n as nat));
        }
    }
}

// ---------------------------------------------------------------------------
// The lines of the sheet, each ending in a newline. They are opaque so that
// proofs about whole cells do not unfold every line; `reveal` one to reason
// about its characters.
/// The opening `<svg>` element.
#[verifier::opaque]
pub open spec fn svg_open_line(width: usize, height: usize) -> Seq<char> {
    "<svg xmlns=\"http://www.w3.org/2000/svg\" width=\""@ + decimal(width as nat) + "\" height=\""@
        + decimal(height as nat) + "\" viewBox=\"0 0 "@ + decimal(width as nat) + " "@ + decimal(
        height as nat,
    ) + "\" shape-rendering=\"crispEdges\">\n"@
}

/// The opening `<g>` element of a sprite's cell.
#[verifier::opaque]
pub open spec fn group_open_line(id: Seq<char>) -> Seq<char> {
    "  <g id=\""@ + id + "\" class=\"byte-sprite\">\n"@
}

/// The framed background of a cell.
#[verifier::opaque]
pub open spec fn cell_frame_line(x: usize, y: usize, width: usize, height: usize) -> Seq<char> {
    "    <rect x=\""@ + decimal(x as nat) + "\" y=\""@ + decimal(y as nat) + "\" width=\""@
        + decimal(width as nat) + "\" height=\""@ + decimal(height as nat)
        + "\" rx=\"8\" fill=\"#d4deaa\" stroke=\"#94a66f\" stroke-width=\"2\"/>\n"@
}

/// One rectangle of a pixel run.
#[verifier::opaque]
pub open spec fn pixel_rect_line(
    x: usize,
    y: usize,
    width: usize,
    height: usize,
    fill: Seq<char>,
) -> Seq<char> {
    "    <rect x=\""@ + decimal(x as nat) + "\" y=\""@ + decimal(y as nat) + "\" width=\""@
        + decimal(width as nat) + "\" height=\""@ + decimal(height as nat) + "\" fill=\""@ + fill
        + "\"/>\n"@
}

/// The display-name label of a cell.
#[verifier::opaque]
pub open spec fn label_line(x: usize, y: usize, name: Seq<char>) -> Seq<char> {
    "    <text class=\"sprite-label\" x=\""@ + decimal(x as nat) + "\" y=\""@ + decimal(y as nat)
        + "\" text-anchor=\"middle\" fill=\"#19281e\" font-family=\"ui-monospace, monospace\" font-size=\"15\" font-weight=\"700\">"@
        + name + "</text>\n"@
}

/// The id caption of a cell.
#[verifier::opaque]
pub open spec fn caption_line(x: usize, y: usize, id: Seq<char>) -> Seq<char> {
    "    <text x=\""@ + decimal(x as nat) + "\" y=\""@ + decimal(y as nat)
        + "\" text-anchor=\"middle\" fill=\"#52634a\" font-family=\"ui-monospace, monospace\" font-size=\"11\">"@
        + id + "</text>\n"@
}

fn write_svg_open(svg: &mut String, width: usize, height: usize)
    ensures
        final(svg)@ == old(svg)@ + svg_open_line(width, height),
{
    reveal(svg_open_line);
    let ghost start = svg@;
    svg.append("<svg xmlns=\"http://www.w3.org/2000/svg\" width=\"");
    append_decimal(svg, width);
    svg.append("\" height=\"");
    append_decimal(svg, height);
    svg.append("\" viewBox=\"0 0 ");
    append_decimal(svg, width);
    svg.append(" ");
    append_decimal(svg, height);
    svg.append("\" shape-rendering=\"crispEdges\">\n");
    assert(svg@ =~= start + svg_open_line(width, height));
}

fn write_group_open(svg: &mut String, id: &str)
    ensures
        final(svg)@ == old(svg)@ + group_open_line(id@),
{
    reveal(group_open_line);
    let ghost start = svg@;
    svg.append("  <g id=\"");
    svg.append(id);
    svg.append("\" class=\"byte-sprite\">\n");
    assert(svg@ =~= start + group_open_line(id@));
}

fn write_cell_frame(svg: &mut String, x: usize, y: usize, width: usize, height: usize)
    ensures
        final(svg)@ == old(svg)@ + cell_frame_line(x, y, width, height),
{
    reveal(cell_frame_line);
    let ghost start = svg@;
    svg.append("    <rect x=\"");
    append_decimal(svg, x);
    svg.append("\" y=\"");
    append_decimal(svg, y);
    svg.append("\" width=\"");
    append_decimal(svg, width);
    svg.append("\" height=\"");
    append_decimal(svg, height);
    svg.append("\" rx=\"8\" fill=\"#d4deaa\" stroke=\"#94a66f\" stroke-width=\"2\"/>\n");
    assert(svg@ =~= start + cell_frame_line(x, y, width, height));
}

fn write_pixel_rect(svg: &mut String, x: usize, y: usize, width: usize, height: usize, fill: &str)
    ensures
        final(svg)@ == old(svg)@ + pixel_rect_line(x, y, width, height, fill@),
{
    reveal(pixel_rect_line);
    let ghost start = svg@;
    svg.append("    <rect x=\"");
    append_decimal(svg, x);
    svg.append("\" y=\"");
    append_decimal(svg, y);
    svg.append("\" width=\"");
    append_decimal(svg, width);
    svg.append("\" height=\"");
    append_decimal(svg, height);
    svg.append("\" fill=\"");
    svg.append(fill);
    svg.append("\"/>\n");
    assert(svg@ =~= start + pixel_rect_line(x, y, width, height, fill@));
}

fn write_label(svg: &mut String, x: usize, y: usize, name: &str)
    ensures
        final(svg)@ == old(svg)@ + label_line(x, y, name@),
{
    reveal(label_line);
    let ghost start = svg@;
    svg.append("    <text class=\"sprite-label\" x=\"");
    append_decimal(svg, x);
    svg.append("\" y=\"");
    append_decimal(svg, y);
    svg.append(
        "\" text-anchor=\"middle\" fill=\"#19281e\" font-family=\"ui-monospace, monospace\" font-size=\"15\" font-weight=\"700\">",
    );
    svg.append(name);
    svg.append("</text>\n");
    assert(svg@ =~= start + label_line(x, y, name@));
}

fn write_caption(svg: &mut String, x: usize, y: usize, id: &str)
    ensures
        final(svg)@ == old(svg)@ + caption_line(x, y, id@),
{
    reveal(caption_line);
    let ghost start = svg@;
    svg.append("    <text x=\"");
    append_decimal(svg, x);
    svg.append("\" y=\"");
    append_decimal(svg, y);
    svg.append(
        "\" text-anchor=\"middle\" fill=\"#52634a\" font-family=\"ui-monospace, monospace\" font-size=\"11\">",
    );
    svg.append(id);
    svg.append("</text>\n");
    assert(svg@ =~= start + caption_line(x, y, id@));
}

// ---------------------------------------------------------------------------
// Colours and runs.
/// The SVG fill for a palette index; transparent pixels are never drawn.
pub open spec fn spec_palette_color(index: u8) -> Seq<char> {
    if index == INK {
        "#19281e"@
    } else if index == BODY {
        "#96aa6b"@
    } else if index == CORE {
        "#527834"@
    } else {
        "none"@
    }
}

pub fn palette_color(index: u8) -> (r: &'static str)
    ensures
        r@ == spec_palette_color(index),
{
    if index == INK {
        "#19281e"
    } else if index == BODY {
        "#96aa6b"
    } else if index == CORE {
        "#527834"
    } else {
        "none"
    }
}

/// The first column at or after `x` in row `y` that does not hold `color`
/// (32 when the row ends first).
pub open spec fn run_end(p: Seq<u8>, y: int, x: int, color: u8) -> int
    decreases 32 - x,
{
    if 0 <= x < 32 && at(p, x, y) == color {
        run_end(p, y, x + 1, color)
    } else {
        x
    }
}

/// Basic facts about a run: it is non-empty, holds one colour and ends at a
/// different colour or the end of the row.
pub proof fn lemma_run_end(p: Seq<u8>, y: int, x: int, color: u8)
    requires
        0 <= x <= 32,
    ensures
        x <= run_end(p, y, x, color) <= 32,
        0 <= x < 32 && at(p, x, y) == color ==> x < run_end(p, y, x, color),
        forall|k: int| x <= k < run_end(p, y, x, color) ==> #[trigger] at(p, k, y) == color,
        run_end(p, y, x, color) < 32 ==> at(p, run_end(p, y, x, color), y) != color,
    decreases 32 - x,
{
    if 0 <= x < 32 && at(p, x, y) == color {
        lemma_run_end(p, y, x + 1, color);
    }
}

/// The rectangles for row `y` from column `x` on: one per maximal run of a
/// non-transparent colour, offset to `(ox, oy)` and scaled by `PIXEL_SCALE`.
pub open spec fn row_text(p: Seq<u8>, y: int, x: int, ox: int, oy: int) -> Seq<char>
    decreases 32 - x,
{
    if x < 0 || x >= 32 {
        Seq::empty()
    } else if at(p, x, y) == TRANSPARENT {
        row_text(p, y, x + 1, ox, oy)
    } else {
        let color = at(p, x, y);
        let end = run_end(p, y, x, color);
        proof {
            lemma_run_end(p, y, x, color);
        }
        pixel_rect_line(
            (ox + x * 6) as usize,
            (oy + y * 6) as usize,
            ((end - x) * 6) as usize,
            6,
            spec_palette_color(color),
        ) + row_text(p, y, end, ox, oy)
    }
}

/// The rectangles for rows `y..32` of a sprite drawn at `(ox, oy)`.
pub open spec fn sprite_text(p: Seq<u8>, y: int, ox: int, oy: int) -> Seq<char>
    decreases 32 - y,
{
    if y < 0 || y >= 32 {
        Seq::empty()
    } else {
        row_text(p, y, 0, ox, oy) + sprite_text(p, y + 1, ox, oy)
    }
}

/// Appends the run rectangles of `sprite` with its top-left corner at
/// `(origin_x, origin_y)`.
fn write_sprite(svg: &mut String, sprite: &Sprite32, origin_x: usize, origin_y: usize)
    requires
        origin_x + 192 <= usize::MAX,
        origin_y + 192 <= usize::MAX,
    ensures
        final(svg)@ == old(svg)@ + sprite_text(sprite.pixels@, 0, origin_x as int, origin_y as int),
{
    let ghost p = sprite.pixels@;
    let ghost ox = origin_x as int;
    let ghost oy = origin_y as int;
    let ghost start = svg@;
    let mut y: usize = 0;
    while y < SPRITE_HEIGHT
        invariant
            y <= SPRITE_HEIGHT,
            p == sprite.pixels@,
            ox == origin_x,
            oy == origin_y,
            origin_x + 192 <= usize::MAX,
            origin_y + 192 <= usize::MAX,
            start + sprite_text(p, 0, ox, oy) == svg@ + sprite_text(p, y as int, ox, oy),
        decreases SPRITE_HEIGHT - y,
    {
        let ghost row_start = svg@;
        let mut x: usize = 0;
        while x < SPRITE_WIDTH
            invariant
                x <= SPRITE_WIDTH,
                y < SPRITE_HEIGHT,
                p == sprite.pixels@,
                ox == origin_x,
                oy == origin_y,
                origin_x + 192 <= usize::MAX,
                origin_y + 192 <= usize::MAX,
                row_start + row_text(p, y as int, 0, ox, oy) == svg@ + row_text(
                    p,
                    y as int,
                    x as int,
                    ox,
                    oy,
                ),
            decreases SPRITE_WIDTH - x,
        {
            let color = sprite.pixel(x, y);
            if color == TRANSPARENT {
                x = x + 1;
                continue;
            }
            let start_x = x;
            proof {
                lemma_run_end(p, y as int, x as int, color);
            }
            while x < SPRITE_WIDTH && sprite.pixel(x, y) == color
                invariant
                    start_x <= x <= SPRITE_WIDTH,
                    y < SPRITE_HEIGHT,
                    p == sprite.pixels@,
                    at(p, start_x as int, y as int) == color,
                    run_end(p, y as int, start_x as int, color) == run_end(
                        p,
                        y as int,
                        x as int,
                        color,
                    ),
                decreases SPRITE_WIDTH - x,
            {
                x = x + 1;
            }
            let run_width = x - start_x;
            let ghost before = svg@;
            write_pixel_rect(
                svg,
                origin_x + start_x * PIXEL_SCALE,
                origin_y + y * PIXEL_SCALE,
                run_width * PIXEL_SCALE,
                PIXEL_SCALE,
                palette_color(color),
            );
            assert(svg@ + row_text(p, y as int, x as int, ox, oy) =~= before + row_text(
                p,
                y as int,
                start_x as int,
                ox,
                oy,
            ));
        }
        assert(row_text(p, y as int, 0, ox, oy) + sprite_text(p, (y + 1) as int, ox, oy)
            == sprite_text(p, y as int, ox, oy));
        assert(svg@ + sprite_text(p, (y + 1) as int, ox, oy) =~= row_start + sprite_text(
            p,
            y as int,
            ox,
            oy,
        ));
        y = y + 1;
    }
    assert(sprite_text(p, 32, ox, oy) =~= Seq::<char>::empty());
    assert(svg@ =~= start + sprite_text(p, 0, ox, oy));
}

// ---------------------------------------------------------------------------
// The sheet.
/// Rows of cells needed for `n` sprites.
pub open spec fn sheet_rows(n: int) -> int {
    (n + 4) / 5
}

/// Left edge of cell `i`.
pub open spec fn cell_x(i: int) -> int {
    (i % 5) * 240
}

/// Top edge of cell `i`.
pub open spec fn cell_y(i: int) -> int {
    54 + (i / 5) * 250
}

/// The page background line.
pub open spec fn background_line() -> Seq<char> {
    "  <rect width=\"100%\" height=\"100%\" fill=\"#f4f3e9\"/>\n"@
}

/// The page title line.
pub open spec fn title_line() -> Seq<char> {
    "  <text x=\"24\" y=\"34\" fill=\"#19281e\" font-family=\"ui-monospace, monospace\" font-size=\"22\" font-weight=\"700\">BYTE // 32 x 32 CONCEPT SPRITES</text>\n"@
}

/// The line closing a cell.
pub open spec fn group_close_line() -> Seq<char> {
    "  </g>\n"@
}

/// The line closing the page.
pub open spec fn svg_close_line() -> Seq<char> {
    "</svg>\n"@
}

/// The cell for sprite `s` at catalog position `i`: its group, frame, run
/// rectangles, display-name label and id caption.
pub open spec fn cell_text(s: Sprite32, i: int) -> Seq<char> {
    let cx = cell_x(i);
    let cy = cell_y(i);
    group_open_line(s.id@) + cell_frame_line((cx + 8) as usize, (cy + 4) as usize, 224, 238)
        + sprite_text(s.pixels@, 0, cx + 24, cy + 14) + label_line(
        (cx + 120) as usize,
        (cy + 229) as usize,
        s.name@,
    ) + caption_line((cx + 120) as usize, (cy + 247) as usize, s.id@) + group_close_line()
}

/// The cells for sprites `i..` of `c`.
pub open spec fn cells_text(c: Seq<Sprite32>, i: int) -> Seq<char>
    decreases c.len() - i,
{
    if i < 0 || i >= c.len() {
        Seq::empty()
    } else {
        cell_text(c[i], i) + cells_text(c, i + 1)
    }
}

/// The whole contact sheet for the sprites `c`.
pub open spec fn sheet_text(c: Seq<Sprite32>) -> Seq<char> {
    svg_open_line(1200, (54 + sheet_rows(c.len() as int) * 250) as usize) + background_line()
        + title_line() + cells_text(c, 0) + svg_close_line()
}

/// Appends the cell for `sprite` at catalog position `index`.
fn write_cell(svg: &mut String, sprite: &Sprite32, index: usize)
    requires
        54 + (index / 5) * 250 + 250 <= usize::MAX,
    ensures
        final(svg)@ == old(svg)@ + cell_text(*sprite, index as int),
{
    let ghost start = svg@;
    let sprite_size = SPRITE_WIDTH * PIXEL_SCALE;
    let column = index % COLUMNS;
    let row = index / COLUMNS;
    let cell_x = column * CELL_WIDTH;
    let cell_y = HEADER_HEIGHT + row * CELL_HEIGHT;
    let sprite_x = cell_x + (CELL_WIDTH - sprite_size) / 2;
    let sprite_y = cell_y + 14;
    write_group_open(svg, sprite.id);
    write_cell_frame(svg, cell_x + 8, cell_y + 4, CELL_WIDTH - 16, CELL_HEIGHT - 12);
    write_sprite(svg, sprite, sprite_x, sprite_y);
    write_label(svg, cell_x + CELL_WIDTH / 2, sprite_y + sprite_size + 23, sprite.name);
    write_caption(svg, cell_x + CELL_WIDTH / 2, sprite_y + sprite_size + 41, sprite.id);
    svg.append("  </g>\n");
    assert(svg@ =~= start + cell_text(*sprite, index as int));
}

/// The contact sheet for `sprites`, in order.
pub fn render_sheet_for(sprites: &Vec<Sprite32>) -> (svg: String)
    requires
        54 + sheet_rows(sprites@.len() as int) * 250 <= usize::MAX,
    ensures
        svg@ == sheet_text(sprites@),
{
    let n = sprites.len();
    let rows = n / COLUMNS + if n % COLUMNS != 0 {
        1
    } else {
        0
    };
    assert(rows == sheet_rows(n as int));
    let width = COLUMNS * CELL_WIDTH;
    let height = HEADER_HEIGHT + rows * CELL_HEIGHT;
    let sprite_size = SPRITE_WIDTH * PIXEL_SCALE;
    let mut svg = String::new();
    write_svg_open(&mut svg, width, height);
    svg.append("  <rect width=\"100%\" height=\"100%\" fill=\"#f4f3e9\"/>\n");
    svg.append(
        "  <text x=\"24\" y=\"34\" fill=\"#19281e\" font-family=\"ui-monospace, monospace\" font-size=\"22\" font-weight=\"700\">BYTE // 32 x 32 CONCEPT SPRITES</text>\n",
    );
    let ghost head = svg@;
    let mut index: usize = 0;
    while index < n
        invariant
            index <= n,
            n == sprites@.len(),
            sprite_size == 192,
            54 + sheet_rows(n as int) * 250 <= usize::MAX,
            head + cells_text(sprites@, 0) == svg@ + cells_text(sprites@, index as int),
        decreases n - index,
    {
        let ghost before = svg@;
        assert(index / 5 < sheet_rows(n as int));
        assert(54 + (index / 5) * 250 + 250 <= 54 + sheet_rows(n as int) * 250) by (nonlinear_arith)
            requires
                index / 5 < sheet_rows(n as int),
        ;
        write_cell(&mut svg, &sprites[index], index);
        assert(svg@ =~= before + cell_text(sprites@[index as int], index as int));
        assert(svg@ + cells_text(sprites@, index + 1) =~= before + cells_text(
            sprites@,
            index as int,
        ));
        index = index + 1;
    }
    svg.append("</svg>\n");
    assert(cells_text(sprites@, n as int) =~= Seq::<char>::empty());
    assert(svg@ =~= sheet_text(sprites@));
    svg
}

/// The contact sheet of the Byte catalog.
pub fn render_sheet() -> (svg: String)
    ensures
        exists|c: Seq<Sprite32>| is_byte_catalog(c) && svg@ == sheet_text(c),
{
    let catalog = byte_concepts();
    let svg = render_sheet_for(&catalog);
    assert(is_byte_catalog(catalog@) && svg@ == sheet_text(catalog@));
    svg
}

/// The runs of row `y` from column `x` on, left to right, as
/// `(first column, column after the last, colour)`.
pub open spec fn row_runs(p: Seq<u8>, y: int, x: int) -> Seq<(int, int, u8)>
    decreases 32 - x,
{
    if x < 0 || x >= 32 {
        Seq::empty()
    } else if at(p, x, y) == TRANSPARENT {
        row_runs(p, y, x + 1)
    } else {
        let color = at(p, x, y);
        let end = run_end(p, y, x, color);
        proof {
            lemma_run_end(p, y, x, color);
        }
        seq![(x, end, color)] + row_runs(p, y, end)
    }
}

/// One rectangle per run, in order: at 6x scale from `(ox, oy)`, filled with
/// the run's colour.
pub open spec fn run_rects(runs: Seq<(int, int, u8)>, y: int, ox: int, oy: int) -> Seq<char>
    decreases runs.len(),
{
    if runs.len() == 0 {
        Seq::empty()
    } else {
        let r = runs[0];
        pixel_rect_line(
            (ox + r.0 * 6) as usize,
            (oy + y * 6) as usize,
            ((r.1 - r.0) * 6) as usize,
            6,
            spec_palette_color(r.2),
        ) + run_rects(runs.drop_first(), y, ox, oy)
    }
}

proof fn lemma_row_text_is_runs(p: Seq<u8>, y: int, x: int, ox: int, oy: int)
    ensures
        row_text(p, y, x, ox, oy) == run_rects(row_runs(p, y, x), y, ox, oy),
    decreases 32 - x,
{
    if 0 <= x < 32 {
        if at(p, x, y) == TRANSPARENT {
            lemma_row_text_is_runs(p, y, x + 1, ox, oy);
        } else {
            let color = at(p, x, y);
            lemma_run_end(p, y, x, color);
            let end = run_end(p, y, x, color);
            lemma_row_text_is_runs(p, y, end, ox, oy);
            let r = row_runs(p, y, x);
            assert(r.drop_first() =~= row_runs(p, y, end));
        }
    }
}

proof fn lemma_row_runs(p: Seq<u8>, y: int, x: int)
    requires
        0 <= x <= 32,
    ensures
        forall|i: int|
            0 <= i < row_runs(p, y, x).len() ==> x <= (#[trigger] row_runs(p, y, x)[i]).0
                < row_runs(p, y, x)[i].1 <= 32 && row_runs(p, y, x)[i].2 != TRANSPARENT,
        forall|i: int, k: int|
            0 <= i < row_runs(p, y, x).len() && (#[trigger] row_runs(p, y, x)[i]).0 <= k
                < row_runs(p, y, x)[i].1 ==> #[trigger] at(p, k, y) == row_runs(p, y, x)[i].2,
        forall|i: int|
            0 <= i < row_runs(p, y, x).len() && (#[trigger] row_runs(p, y, x)[i]).1 < 32 ==> at(
                p,
                row_runs(p, y, x)[i].1,
                y,
            ) != row_runs(p, y, x)[i].2,
        forall|i: int|
            0 <= i < row_runs(p, y, x).len() && (#[trigger] row_runs(p, y, x)[i]).0 > x ==> at(
                p,
                row_runs(p, y, x)[i].0 - 1,
                y,
            ) != row_runs(p, y, x)[i].2,
        forall|i: int, j: int|
            0 <= i < j < row_runs(p, y, x).len() ==> (#[trigger] row_runs(p, y, x)[i]).1 <= (
            #[trigger] row_runs(p, y, x)[j]).0,
        forall|k: int|
            x <= k < 32 && #[trigger] at(p, k, y) != TRANSPARENT ==> exists|i: int|
                0 <= i < row_runs(p, y, x).len() && (#[trigger] row_runs(p, y, x)[i]).0 <= k
                    < row_runs(p, y, x)[i].1,
    decreases 32 - x,
{
    if x < 32 {
        if at(p, x, y) == TRANSPARENT {
            lemma_row_runs(p, y, x + 1);
            let r = row_runs(p, y, x);
            assert(r == row_runs(p, y, x + 1));
            assert forall|k: int| x <= k < 32 && #[trigger] at(p, k, y) != TRANSPARENT implies exists|
                i: int,
            | 0 <= i < r.len() && (#[trigger] r[i]).0 <= k < r[i].1 by {
                assert(k > x);
            }
            assert forall|i: int| 0 <= i < r.len() && (#[trigger] r[i]).0 > x implies at(
                p,
                r[i].0 - 1,
                y,
            ) != r[i].2 by {
                if r[i].0 == x + 1 {
                    assert(at(p, x, y) == TRANSPARENT);
                }
            }
        } else {
            let color = at(p, x, y);
            lemma_run_end(p, y, x, color);
            let end = run_end(p, y, x, color);
            lemma_row_runs(p, y, end);
            let rest = row_runs(p, y, end);
            let head: Seq<(int, int, u8)> = seq![(x, end, color)];
            let r = row_runs(p, y, x);
            assert(r == head + rest);
            assert(r[0] == (x, end, color));
            assert forall|i: int| 0 < i < r.len() implies #[trigger] r[i] == rest[i - 1] by {}
            assert forall|i: int, k: int|
                0 <= i < r.len() && (#[trigger] r[i]).0 <= k < r[i].1 implies #[trigger] at(p, k, y)
                == r[i].2 by {
                if i > 0 {
                    assert(r[i] == rest[i - 1]);
                }
            }
            assert forall|i: int| 0 <= i < r.len() && (#[trigger] r[i]).0 > x implies at(
                p,
                r[i].0 - 1,
                y,
            ) != r[i].2 by {
                assert(i > 0);
                assert(r[i] == rest[i - 1]);
                if r[i].0 == end {
                    assert(at(p, end - 1, y) == color);
                    assert(at(p, r[i].0, y) == r[i].2);
                }
            }
            assert forall|i: int, j: int| 0 <= i < j < r.len() implies (#[trigger] r[i]).1 <= (
            #[trigger] r[j]).0 by {
                assert(r[j] == rest[j - 1]);
                if i > 0 {
                    assert(r[i] == rest[i - 1]);
                }
            }
            assert forall|k: int| x <= k < 32 && #[trigger] at(p, k, y) != TRANSPARENT implies exists|
                i: int,
            | 0 <= i < r.len() && (#[trigger] r[i]).0 <= k < r[i].1 by {
                if k < end {
                    assert(r[0].0 <= k < r[0].1);
                } else {
                    let i0 = choose|i: int| 0 <= i < rest.len() && (#[trigger] rest[i]).0 <= k < rest[i].1;
                    assert(r[i0 + 1] == rest[i0]);
                }
            }
        }
    }
}

/// Each row of a sprite is drawn as its runs, one rectangle each, left to
/// right: a run is a stretch of one visible colour that cannot be extended
/// (the pixels just before and after it differ in colour), runs do not
/// overlap, and together they cover every visible pixel of the row and no
/// transparent one.
pub proof fn rows_are_drawn_as_runs(p: Seq<u8>, y: int, ox: int, oy: int)
    ensures
        row_text(p, y, 0, ox, oy) == run_rects(row_runs(p, y, 0), y, ox, oy),
        forall|i: int|
            0 <= i < row_runs(p, y, 0).len() ==> 0 <= (#[trigger] row_runs(p, y, 0)[i]).0
                < row_runs(p, y, 0)[i].1 <= 32 && row_runs(p, y, 0)[i].2 != TRANSPARENT,
        forall|i: int, k: int|
            0 <= i < row_runs(p, y, 0).len() && (#[trigger] row_runs(p, y, 0)[i]).0 <= k
                < row_runs(p, y, 0)[i].1 ==> #[trigger] at(p, k, y) == row_runs(p, y, 0)[i].2,
        forall|i: int|
            0 <= i < row_runs(p, y, 0).len() && (#[trigger] row_runs(p, y, 0)[i]).1 < 32 ==> at(
                p,
                row_runs(p, y, 0)[i].1,
                y,
            ) != row_runs(p, y, 0)[i].2,
        forall|i: int|
            0 <= i < row_runs(p, y, 0).len() && (#[trigger] row_runs(p, y, 0)[i]).0 > 0 ==> at(
                p,
                row_runs(p, y, 0)[i].0 - 1,
                y,
            ) != row_runs(p, y, 0)[i].2,
        forall|i: int, j: int|
            0 <= i < j < row_runs(p, y, 0).len() ==> (#[trigger] row_runs(p, y, 0)[i]).1 <= (
            #[trigger] row_runs(p, y, 0)[j]).0,
        forall|k: int|
            0 <= k < 32 && #[trigger] at(p, k, y) != TRANSPARENT ==> exists|i: int|
                0 <= i < row_runs(p, y, 0).len() && (#[trigger] row_runs(p, y, 0)[i]).0 <= k
                    < row_runs(p, y, 0)[i].1,
{
    lemma_row_text_is_runs(p, y, 0, ox, oy);
    lemma_row_runs(p, y, 0);
}

/// The cells tile the sheet in reading order: for `n` sprites the sheet has
/// just enough rows of five, every cell lies inside it below the header,
/// different positions get different cells, and the next position is the
/// cell to the right unless a new row starts. The 192-pixel sprite sits
/// centred in its 240-pixel-wide cell.
pub proof fn cells_tile_the_sheet(n: int, i: int, j: int)
    requires
        0 <= i < n,
        0 <= j < n,
    ensures
        5 * sheet_rows(n) >= n && 5 * (sheet_rows(n) - 1) < n,
        0 <= cell_x(i) && cell_x(i) + 240 <= 1200,
        54 <= cell_y(i) && cell_y(i) + 250 <= 54 + sheet_rows(n) * 250,
        i != j ==> cell_x(i) != cell_x(j) || cell_y(i) != cell_y(j),
        i == j + 1 && i % 5 != 0 ==> cell_y(i) == cell_y(j) && cell_x(i) == cell_x(j) + 240,
        i == j + 1 && i % 5 == 0 ==> cell_y(i) == cell_y(j) + 250 && cell_x(i) == 0,
        (240 - 32 * 6) / 2 == 24,
{
    assert(i == 5 * (i / 5) + i % 5);
    assert(j == 5 * (j / 5) + j % 5);
    assert(n + 4 == 5 * ((n + 4) / 5) + (n + 4) % 5);
}

} // verus!
