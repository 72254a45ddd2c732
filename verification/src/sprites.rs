//! The 32 x 32 Byte concept sprites.
//!
//! Sprites use a four-entry indexed palette so the same source data can be
//! drawn by the PC host, laid out on a contact sheet, or packed into a future
//! hardware sprite ROM.

use vstd::prelude::*;

verus! {

pub const SPRITE_WIDTH: usize = 32;

pub const SPRITE_HEIGHT: usize = 32;

pub const SPRITE_PIXELS: usize = SPRITE_WIDTH * SPRITE_HEIGHT;

pub const TRANSPARENT: u8 = 0;

pub const INK: u8 = 1;

pub const BODY: u8 = 2;

pub const CORE: u8 = 3;

pub const PALETTE_SIZE: u8 = 4;

/// `(x, y)` lies on the 32 x 32 canvas.
pub open spec fn in_canvas(x: int, y: int) -> bool {
    0 <= x < 32 && 0 <= y < 32
}

/// The palette index at `(x, y)` of a row-major 32 x 32 bitmap.
pub open spec fn at(pixels: Seq<u8>, x: int, y: int) -> u8 {
    pixels[y * 32 + x]
}

/// `(x, y)` holds a non-transparent pixel.
pub open spec fn visible(pixels: Seq<u8>, x: int, y: int) -> bool {
    in_canvas(x, y) && at(pixels, x, y) != TRANSPARENT
}

/// Every pixel is an index into the four-entry palette.
pub open spec fn uses_palette(pixels: Seq<u8>) -> bool {
    forall|x: int, y: int| in_canvas(x, y) ==> #[trigger] at(pixels, x, y) < PALETTE_SIZE
}

/// Every pixel on the outermost row and column is transparent.
pub open spec fn border_clear(pixels: Seq<u8>) -> bool {
    forall|x: int, y: int|
        in_canvas(x, y) && (x == 0 || y == 0 || x == 31 || y == 31) ==> #[trigger] at(pixels, x, y)
            == TRANSPARENT
}

/// At least one pixel is visible.
pub open spec fn has_art(pixels: Seq<u8>) -> bool {
    exists|x: int, y: int| #[trigger] visible(pixels, x, y)
}

/// The palette indices at three sample points; no two catalog concepts
/// agree on all three.
pub open spec fn signature(pixels: Seq<u8>) -> (u8, u8, u8) {
    (at(pixels, 25, 21), at(pixels, 7, 7), at(pixels, 7, 26))
}

#[derive(Debug)]
pub struct Sprite32 {
    pub id: &'static str,
    pub name: &'static str,
    pub description: &'static str,
    pub pixels: [u8; SPRITE_PIXELS],
}

impl Sprite32 {
    /// The palette index at column `x`, row `y` (read row-major, so a column
    /// past the edge reads on into the next row).
    pub fn pixel(&self, x: usize, y: usize) -> (r: u8)
        requires
            y * SPRITE_WIDTH + x < SPRITE_PIXELS,
        ensures
            r == self.pixels@[y * 32 + x],
            r == at(self.pixels@, x as int, y as int),
    {
        self.pixels[y * SPRITE_WIDTH + x]
    }
}

#[derive(Debug, Clone, Copy, PartialEq, Eq, Structural)]
pub struct SpriteBounds {
    pub min_x: usize,
    pub min_y: usize,
    pub max_x: usize,
    pub max_y: usize,
}

/// `b` is the smallest box holding every visible pixel: each edge is reached
/// by some visible pixel and no visible pixel lies outside it.
pub open spec fn is_bounding_box(pixels: Seq<u8>, b: SpriteBounds) -> bool {
    &&& exists|x: int, y: int| #[trigger] visible(pixels, x, y) && x == b.min_x
    &&& exists|x: int, y: int| #[trigger] visible(pixels, x, y) && y == b.min_y
    &&& exists|x: int, y: int| #[trigger] visible(pixels, x, y) && x == b.max_x
    &&& exists|x: int, y: int| #[trigger] visible(pixels, x, y) && y == b.max_y
    &&& forall|x: int, y: int|
        #[trigger] visible(pixels, x, y) ==> b.min_x <= x <= b.max_x && b.min_y <= y <= b.max_y
}

/// `(x, y)` comes before `(cx, cy)` in row-major order.
pub open spec fn scanned_before(x: int, y: int, cx: int, cy: int) -> bool {
    y < cy || (y == cy && x < cx)
}

/// The bounding box of the visible pixels, or `None` for an empty sprite.
pub fn occupied_bounds(sprite: &Sprite32) -> (r: Option<SpriteBounds>)
    ensures
        r is None <==> !has_art(sprite.pixels@),
        r matches Some(b) ==> is_bounding_box(sprite.pixels@, b),
{
    let ghost p = sprite.pixels@;
    let mut min_x: usize = SPRITE_WIDTH;
    let mut min_y: usize = SPRITE_HEIGHT;
    let mut max_x: usize = 0;
    let mut max_y: usize = 0;
    let mut found = false;
    // Visible pixels that reach each edge of the box found so far.
    let ghost mut left: (int, int) = (0, 0);
    let ghost mut top: (int, int) = (0, 0);
    let ghost mut right: (int, int) = (0, 0);
    let ghost mut bottom: (int, int) = (0, 0);
    let mut y: usize = 0;
    while y < SPRITE_HEIGHT
        invariant
            y <= SPRITE_HEIGHT,
            p == sprite.pixels@,
            found <==> exists|vx: int, vy: int| #[trigger]
                visible(p, vx, vy) && scanned_before(vx, vy, 0, y as int),
            found ==> {
                &&& visible(p, left.0, left.1) && left.0 == min_x
                &&& visible(p, top.0, top.1) && top.1 == min_y
                &&& visible(p, right.0, right.1) && right.0 == max_x
                &&& visible(p, bottom.0, bottom.1) && bottom.1 == max_y
            },
            forall|vx: int, vy: int|
                #[trigger] visible(p, vx, vy) && scanned_before(vx, vy, 0, y as int) ==> min_x
                    <= vx <= max_x && min_y <= vy <= max_y,
        decreases SPRITE_HEIGHT - y,
    {
        let mut x: usize = 0;
        while x < SPRITE_WIDTH
            invariant
                x <= SPRITE_WIDTH,
                y < SPRITE_HEIGHT,
                p == sprite.pixels@,
                found <==> exists|vx: int, vy: int| #[trigger]
                    visible(p, vx, vy) && scanned_before(vx, vy, x as int, y as int),
                found ==> {
                    &&& visible(p, left.0, left.1) && left.0 == min_x
                    &&& visible(p, top.0, top.1) && top.1 == min_y
                    &&& visible(p, right.0, right.1) && right.0 == max_x
                    &&& visible(p, bottom.0, bottom.1) && bottom.1 == max_y
                },
                forall|vx: int, vy: int|
                    #[trigger] visible(p, vx, vy) && scanned_before(vx, vy, x as int, y as int)
                        ==> min_x <= vx <= max_x && min_y <= vy <= max_y,
            decreases SPRITE_WIDTH - x,
        {
            if sprite.pixel(x, y) != TRANSPARENT {
                assert(visible(p, x as int, y as int));
                let first = !found;
                found = true;
                if first || x < min_x {
                    min_x = x;
                    proof {
                        left = (x as int, y as int);
                    }
                }
                if first || y < min_y {
                    min_y = y;
                    proof {
                        top = (x as int, y as int);
                    }
                }
                if first || x > max_x {
                    max_x = x;
                    proof {
                        right = (x as int, y as int);
                    }
                }
                if first || y > max_y {
                    max_y = y;
                    proof {
                        bottom = (x as int, y as int);
                    }
                }
            }
            x = x + 1;
        }
        y = y + 1;
    }
    if found {
        let b = SpriteBounds { min_x, min_y, max_x, max_y };
        assert(visible(p, left.0, left.1) && left.0 == b.min_x);
        assert(visible(p, top.0, top.1) && top.1 == b.min_y);
        assert(visible(p, right.0, right.1) && right.0 == b.max_x);
        assert(visible(p, bottom.0, bottom.1) && bottom.1 == b.max_y);
        Some(b)
    } else {
        None
    }
}

/// `(px, py)` lies in the `width` x `height` rectangle whose top-left corner is `(x, y)`.
pub open spec fn in_rect(x: int, y: int, width: int, height: int, px: int, py: int) -> bool {
    x <= px < x + width && y <= py < y + height
}

/// The rectangle stays off the outermost row and column of the canvas (an
/// empty rectangle always does).
pub open spec fn rect_inside_border(x: int, y: int, width: int, height: int) -> bool {
    width <= 0 || height <= 0 || (1 <= x && x + width <= 31 && 1 <= y && y + height <= 31)
}

/// `(px, py)` lies in the filled ellipse centred on `(cx, cy)` with radii `rx`, `ry`.
pub open spec fn in_ellipse(cx: int, cy: int, rx: int, ry: int, px: int, py: int) -> bool {
    &&& cx - rx <= px <= cx + rx
    &&& cy - ry <= py <= cy + ry
    &&& (px - cx) * (px - cx) * (ry * ry) + (py - cy) * (py - cy) * (rx * rx) <= (rx * rx) * (ry
        * ry)
}

/// The ellipse's box stays off the outermost row and column (an ellipse with
/// a negative radius draws nothing).
pub open spec fn ellipse_inside_border(cx: int, cy: int, rx: int, ry: int) -> bool {
    rx < 0 || ry < 0 || (1 <= cx - rx && cx + rx <= 30 && 1 <= cy - ry && cy + ry <= 30)
}

/// Absolute value.
pub open spec fn abs(v: int) -> int {
    if v < 0 {
        -v
    } else {
        v
    }
}

/// `(px, py)` lies in the filled diamond centred on `(cx, cy)` with the given radius.
pub open spec fn in_diamond(cx: int, cy: int, radius: int, px: int, py: int) -> bool {
    cy - radius <= py <= cy + radius && abs(px - cx) <= radius - abs(py - cy)
}

/// The diamond stays off the outermost row and column (a negative radius
/// draws nothing).
pub open spec fn diamond_inside_border(cx: int, cy: int, radius: int) -> bool {
    radius < 0 || (1 <= cx - radius && cx + radius <= 30 && 1 <= cy - radius && cy + radius <= 30)
}

proof fn lemma_square_bound(d: int, r: int, k: int)
    by (nonlinear_arith)
    requires
        -r <= d <= r,
        0 <= k,
    ensures
        0 <= d * d <= r * r,
        0 <= d * d * k <= r * r * k,
{
}

/// A 32 x 32 bitmap being drawn with indexed colours; drawing is clipped to
/// the canvas.
struct Canvas {
    pixels: [u8; SPRITE_PIXELS],
}

impl Canvas {
    fn new() -> (c: Canvas)
        ensures
            forall|x: int, y: int| in_canvas(x, y) ==> #[trigger] at(c.pixels@, x, y) == TRANSPARENT,
            uses_palette(c.pixels@),
            border_clear(c.pixels@),
    {
        Canvas { pixels: [TRANSPARENT; SPRITE_PIXELS] }
    }

    /// Sets one pixel; points off the canvas are ignored.
    fn put(&mut self, x: i32, y: i32, color: u8)
        ensures
            forall|px: int, py: int|
                in_canvas(px, py) ==> #[trigger] at(final(self).pixels@, px, py) == if px == x && py
                    == y {
                    color
                } else {
                    at(old(self).pixels@, px, py)
                },
    {
        if x >= 0 && x < SPRITE_WIDTH as i32 && y >= 0 && y < SPRITE_HEIGHT as i32 {
            let i: usize = y as usize * SPRITE_WIDTH + x as usize;
            self.pixels[i] = color;
            assert forall|px: int, py: int| in_canvas(px, py) implies #[trigger] at(
                self.pixels@,
                px,
                py,
            ) == if px == x && py == y {
                color
            } else {
                at(old(self).pixels@, px, py)
            } by {
                if px != x || py != y {
                    assert(py * 32 + px != y * 32 + x);
                }
            }
        }
    }

    /// Fills a rectangle, clipped to the canvas.
    fn rect(&mut self, x: i32, y: i32, width: i32, height: i32, color: u8)
        requires
            i32::MIN <= x + width <= i32::MAX,
            i32::MIN <= y + height <= i32::MAX,
        ensures
            forall|px: int, py: int|
                in_canvas(px, py) ==> #[trigger] at(final(self).pixels@, px, py) == if in_rect(
                    x as int,
                    y as int,
                    width as int,
                    height as int,
                    px,
                    py,
                ) {
                    color
                } else {
                    at(old(self).pixels@, px, py)
                },
            uses_palette(old(self).pixels@) && color < PALETTE_SIZE ==> uses_palette(
                final(self).pixels@,
            ),
            border_clear(old(self).pixels@) && (color == TRANSPARENT || rect_inside_border(
                x as int,
                y as int,
                width as int,
                height as int,
            )) ==> border_clear(final(self).pixels@),
    {
        let ghost start = self.pixels@;
        let mut py = y;
        while py < y + height
            invariant
                i32::MIN <= y + height <= i32::MAX,
                i32::MIN <= x + width <= i32::MAX,
                py >= y,
                py == y || py <= y + height,
                forall|qx: int, qy: int|
                    in_canvas(qx, qy) ==> #[trigger] at(self.pixels@, qx, qy) == if in_rect(
                        x as int,
                        y as int,
                        width as int,
                        (py - y) as int,
                        qx,
                        qy,
                    ) {
                        color
                    } else {
                        at(start, qx, qy)
                    },
            decreases y + height - py,
        {
            let mut px = x;
            while px < x + width
                invariant
                    i32::MIN <= y + height <= i32::MAX,
                    i32::MIN <= x + width <= i32::MAX,
                    y <= py < y + height,
                    px >= x,
                    px == x || px <= x + width,
                    forall|qx: int, qy: int|
                        in_canvas(qx, qy) ==> #[trigger] at(self.pixels@, qx, qy) == if in_rect(
                            x as int,
                            y as int,
                            width as int,
                            (py - y) as int,
                            qx,
                            qy,
                        ) || (qy == py && x <= qx < px) {
                            color
                        } else {
                            at(start, qx, qy)
                        },
                decreases x + width - px,
            {
                self.put(px, py, color);
                px = px + 1;
            }
            py = py + 1;
        }
        proof {
            let ghost end = self.pixels@;
            if uses_palette(start) && color < PALETTE_SIZE {
                assert forall|qx: int, qy: int| in_canvas(qx, qy) implies #[trigger] at(end, qx, qy)
                    < PALETTE_SIZE by {
                    assert(at(start, qx, qy) < PALETTE_SIZE);
                }
            }
            if border_clear(start) && (color == TRANSPARENT || rect_inside_border(
                x as int,
                y as int,
                width as int,
                height as int,
            )) {
                assert forall|qx: int, qy: int|
                    in_canvas(qx, qy) && (qx == 0 || qy == 0 || qx == 31 || qy == 31) implies #[trigger] at(
                    end,
                    qx,
                    qy,
                ) == TRANSPARENT by {
                    assert(at(start, qx, qy) == TRANSPARENT);
                }
            }
        }
    }

    fn hline(&mut self, x: i32, y: i32, width: i32, color: u8)
        requires
            i32::MIN <= x + width <= i32::MAX,
            y < i32::MAX,
        ensures
            forall|px: int, py: int|
                in_canvas(px, py) ==> #[trigger] at(final(self).pixels@, px, py) == if in_rect(
                    x as int,
                    y as int,
                    width as int,
                    1,
                    px,
                    py,
                ) {
                    color
                } else {
                    at(old(self).pixels@, px, py)
                },
            uses_palette(old(self).pixels@) && color < PALETTE_SIZE ==> uses_palette(
                final(self).pixels@,
            ),
            border_clear(old(self).pixels@) && (color == TRANSPARENT || rect_inside_border(
                x as int,
                y as int,
                width as int,
                1,
            )) ==> border_clear(final(self).pixels@),
    {
        self.rect(x, y, width, 1, color);
    }

    fn vline(&mut self, x: i32, y: i32, height: i32, color: u8)
        requires
            x < i32::MAX,
            i32::MIN <= y + height <= i32::MAX,
        ensures
            forall|px: int, py: int|
                in_canvas(px, py) ==> #[trigger] at(final(self).pixels@, px, py) == if in_rect(
                    x as int,
                    y as int,
                    1,
                    height as int,
                    px,
                    py,
                ) {
                    color
                } else {
                    at(old(self).pixels@, px, py)
                },
            uses_palette(old(self).pixels@) && color < PALETTE_SIZE ==> uses_palette(
                final(self).pixels@,
            ),
            border_clear(old(self).pixels@) && (color == TRANSPARENT || rect_inside_border(
                x as int,
                y as int,
                1,
                height as int,
            )) ==> border_clear(final(self).pixels@),
    {
        self.rect(x, y, 1, height, color);
    }

    /// Fills an axis-aligned ellipse, clipped to the canvas.
    fn ellipse(&mut self, cx: i32, cy: i32, rx: i32, ry: i32, color: u8)
        requires
            i32::MIN <= cx - rx <= i32::MAX,
            i32::MIN <= cx + rx < i32::MAX,
            i32::MIN <= cy - ry <= i32::MAX,
            i32::MIN <= cy + ry < i32::MAX,
            rx * rx <= i32::MAX,
            ry * ry <= i32::MAX,
            2 * ((rx * rx) * (ry * ry)) <= i32::MAX,
        ensures
            forall|px: int, py: int|
                in_canvas(px, py) ==> #[trigger] at(final(self).pixels@, px, py) == if in_ellipse(
                    cx as int,
                    cy as int,
                    rx as int,
                    ry as int,
                    px,
                    py,
                ) {
                    color
                } else {
                    at(old(self).pixels@, px, py)
                },
            uses_palette(old(self).pixels@) && color < PALETTE_SIZE ==> uses_palette(
                final(self).pixels@,
            ),
            border_clear(old(self).pixels@) && (color == TRANSPARENT || ellipse_inside_border(
                cx as int,
                cy as int,
                rx as int,
                ry as int,
            )) ==> border_clear(final(self).pixels@),
    {
        let ghost start = self.pixels@;
        assert(0 <= rx * rx * (ry * ry) <= i32::MAX && 0 <= rx * rx && 0 <= ry * ry)
            by (nonlinear_arith)
            requires
                2 * ((rx * rx) * (ry * ry)) <= i32::MAX,
        ;
        let rx_squared = rx * rx;
        let ry_squared = ry * ry;
        let threshold = rx_squared * ry_squared;
        let mut y = cy - ry;
        while y <= cy + ry
            invariant
                i32::MIN <= cx - rx <= i32::MAX,
                i32::MIN <= cx + rx < i32::MAX,
                i32::MIN <= cy - ry <= i32::MAX,
                i32::MIN <= cy + ry < i32::MAX,
                2 * ((rx * rx) * (ry * ry)) <= i32::MAX,
                rx_squared == rx * rx,
                ry_squared == ry * ry,
                threshold == rx_squared * ry_squared,
                cy - ry <= y,
                y == cy - ry || y <= cy + ry + 1,
                forall|qx: int, qy: int|
                    in_canvas(qx, qy) ==> #[trigger] at(self.pixels@, qx, qy) == if in_ellipse(
                        cx as int,
                        cy as int,
                        rx as int,
                        ry as int,
                        qx,
                        qy,
                    ) && qy < y {
                        color
                    } else {
                        at(start, qx, qy)
                    },
            decreases cy + ry + 1 - y,
        {
            let mut x = cx - rx;
            while x <= cx + rx
                invariant
                    i32::MIN <= cx - rx <= i32::MAX,
                    i32::MIN <= cx + rx < i32::MAX,
                    i32::MIN <= cy - ry <= i32::MAX,
                    i32::MIN <= cy + ry < i32::MAX,
                    2 * ((rx * rx) * (ry * ry)) <= i32::MAX,
                    rx_squared == rx * rx,
                    ry_squared == ry * ry,
                    threshold == rx_squared * ry_squared,
                    cy - ry <= y <= cy + ry,
                    cx - rx <= x,
                    x == cx - rx || x <= cx + rx + 1,
                    forall|qx: int, qy: int|
                        in_canvas(qx, qy) ==> #[trigger] at(self.pixels@, qx, qy) == if in_ellipse(
                            cx as int,
                            cy as int,
                            rx as int,
                            ry as int,
                            qx,
                            qy,
                        ) && (qy < y || (qy == y && qx < x)) {
                            color
                        } else {
                            at(start, qx, qy)
                        },
                decreases cx + rx + 1 - x,
            {
                let dx = x - cx;
                let dy = y - cy;
                proof {
                    lemma_square_bound(dx as int, rx as int, ry * ry);
                    lemma_square_bound(dy as int, ry as int, rx * rx);
                }
                if dx * dx * ry_squared + dy * dy * rx_squared <= threshold {
                    self.put(x, y, color);
                }
                x = x + 1;
            }
            y = y + 1;
        }
        proof {
            let ghost end = self.pixels@;
            if uses_palette(start) && color < PALETTE_SIZE {
                assert forall|qx: int, qy: int| in_canvas(qx, qy) implies #[trigger] at(end, qx, qy)
                    < PALETTE_SIZE by {
                    assert(at(start, qx, qy) < PALETTE_SIZE);
                }
            }
            if border_clear(start) && (color == TRANSPARENT || ellipse_inside_border(
                cx as int,
                cy as int,
                rx as int,
                ry as int,
            )) {
                assert forall|qx: int, qy: int|
                    in_canvas(qx, qy) && (qx == 0 || qy == 0 || qx == 31 || qy == 31) implies #[trigger] at(
                    end,
                    qx,
                    qy,
                ) == TRANSPARENT by {
                    assert(at(start, qx, qy) == TRANSPARENT);
                }
            }
        }
    }

    /// Fills a diamond (all points within `radius` in taxicab distance), clipped to the canvas.
    fn diamond(&mut self, cx: i32, cy: i32, radius: i32, color: u8)
        requires
            i32::MIN <= cx - radius <= i32::MAX,
            i32::MIN <= cx + radius < i32::MAX,
            i32::MIN <= cy - radius <= i32::MAX,
            i32::MIN <= cy + radius < i32::MAX,
            2 * radius + 1 <= i32::MAX,
        ensures
            forall|px: int, py: int|
                in_canvas(px, py) ==> #[trigger] at(final(self).pixels@, px, py) == if in_diamond(
                    cx as int,
                    cy as int,
                    radius as int,
                    px,
                    py,
                ) {
                    color
                } else {
                    at(old(self).pixels@, px, py)
                },
            uses_palette(old(self).pixels@) && color < PALETTE_SIZE ==> uses_palette(
                final(self).pixels@,
            ),
            border_clear(old(self).pixels@) && (color == TRANSPARENT || diamond_inside_border(
                cx as int,
                cy as int,
                radius as int,
            )) ==> border_clear(final(self).pixels@),
    {
        let ghost start = self.pixels@;
        let mut y = cy - radius;
        while y <= cy + radius
            invariant
                i32::MIN <= cx - radius <= i32::MAX,
                i32::MIN <= cx + radius < i32::MAX,
                i32::MIN <= cy - radius <= i32::MAX,
                i32::MIN <= cy + radius < i32::MAX,
                2 * radius + 1 <= i32::MAX,
                cy - radius <= y,
                y == cy - radius || y <= cy + radius + 1,
                uses_palette(start) && color < PALETTE_SIZE ==> uses_palette(self.pixels@),
                border_clear(start) && (color == TRANSPARENT || diamond_inside_border(
                    cx as int,
                    cy as int,
                    radius as int,
                )) ==> border_clear(self.pixels@),
                forall|qx: int, qy: int|
                    in_canvas(qx, qy) ==> #[trigger] at(self.pixels@, qx, qy) == if in_diamond(
                        cx as int,
                        cy as int,
                        radius as int,
                        qx,
                        qy,
                    ) && qy < y {
                        color
                    } else {
                        at(start, qx, qy)
                    },
            decreases cy + radius + 1 - y,
        {
            let dy = if y < cy {
                cy - y
            } else {
                y - cy
            };
            let half_width = radius - dy;
            self.hline(cx - half_width, y, half_width * 2 + 1, color);
            y = y + 1;
        }
    }
    /// The finished bitmap.
    fn finish(self) -> (pixels: [u8; SPRITE_PIXELS])
        ensures
            pixels == self.pixels,
    {
        self.pixels
    }
}

/// The orb concept's art: each pixel takes the colour of the last shape
/// drawn over it, transparent where no shape reaches.
pub open spec fn orb_art(x: int, y: int) -> u8 {
    if in_little_feet(25, x, y) {
        INK
    } else if in_diamond(16, 22, 2, x, y) {
        CORE
    } else if in_smiling_face(9, 15, x, y) {
        INK
    } else if in_ellipse(16, 14, 11, 10, x, y) {
        BODY
    } else if in_ellipse(16, 14, 13, 12, x, y) {
        INK
    } else {
        TRANSPARENT
    }
}

/// The pixel concept's art: each pixel takes the colour of the last shape
/// drawn over it, transparent where no shape reaches.
pub open spec fn pixel_art(x: int, y: int) -> u8 {
    if in_little_feet(26, x, y) {
        INK
    } else if in_rect(15, 21, 2, 2, x, y) {
        CORE
    } else if in_rect(12, 17, 8, 1, x, y) {
        INK
    } else if in_rect(19, 10, 4, 3, x, y) {
        INK
    } else if in_rect(9, 10, 4, 3, x, y) {
        INK
    } else if in_rect(25, 24, 2, 2, x, y) {
        TRANSPARENT
    } else if in_rect(5, 24, 2, 2, x, y) {
        TRANSPARENT
    } else if in_rect(25, 4, 2, 2, x, y) {
        TRANSPARENT
    } else if in_rect(5, 4, 2, 2, x, y) {
        TRANSPARENT
    } else if in_rect(7, 6, 18, 18, x, y) {
        BODY
    } else if in_rect(5, 4, 22, 22, x, y) {
        INK
    } else {
        TRANSPARENT
    }
}

/// The terminal concept's art: each pixel takes the colour of the last shape
/// drawn over it, transparent where no shape reaches.
pub open spec fn terminal_art(x: int, y: int) -> u8 {
    if in_little_feet(26, x, y) {
        INK
    } else if in_rect(22, 18, 2, 2, x, y) {
        CORE
    } else if in_rect(11, 19, 10, 1, x, y) {
        INK
    } else if in_rect(19, 14, 5, 1, x, y) {
        INK
    } else if (x == 9 && y == 14) {
        INK
    } else if (x == 10 && y == 13) {
        INK
    } else if (x == 11 && y == 12) {
        INK
    } else if (x == 10 && y == 11) {
        INK
    } else if (x == 9 && y == 10) {
        INK
    } else if (x == 27 && y == 25) {
        TRANSPARENT
    } else if (x == 4 && y == 25) {
        TRANSPARENT
    } else if (x == 27 && y == 5) {
        TRANSPARENT
    } else if (x == 4 && y == 5) {
        TRANSPARENT
    } else if in_rect(6, 7, 20, 17, x, y) {
        BODY
    } else if in_rect(4, 5, 24, 21, x, y) {
        INK
    } else {
        TRANSPARENT
    }
}

/// The bit concept's art: each pixel takes the colour of the last shape
/// drawn over it, transparent where no shape reaches.
pub open spec fn bit_art(x: int, y: int) -> u8 {
    if in_rect(18, 27, 4, 3, x, y) {
        INK
    } else if in_rect(10, 27, 4, 3, x, y) {
        INK
    } else if in_rect(15, 22, 2, 2, x, y) {
        CORE
    } else if in_rect(13, 21, 6, 5, x, y) {
        BODY
    } else if in_rect(11, 20, 10, 7, x, y) {
        INK
    } else if (x == 17 && y == 16) {
        INK
    } else if (x == 16 && y == 17) {
        INK
    } else if (x == 15 && y == 16) {
        INK
    } else if in_rect(20, 9, 3, 3, x, y) {
        INK
    } else if in_rect(10, 9, 3, 3, x, y) {
        INK
    } else if in_ellipse(16, 12, 9, 8, x, y) {
        BODY
    } else if in_ellipse(16, 12, 11, 10, x, y) {
        INK
    } else {
        TRANSPARENT
    }
}

/// The crt concept's art: each pixel takes the colour of the last shape
/// drawn over it, transparent where no shape reaches.
pub open spec fn crt_art(x: int, y: int) -> u8 {
    if in_rect(9, 28, 14, 3, x, y) {
        INK
    } else if in_rect(14, 25, 4, 3, x, y) {
        INK
    } else if in_rect(24, 21, 2, 2, x, y) {
        CORE
    } else if in_rect(13, 16, 6, 1, x, y) {
        INK
    } else if in_rect(19, 11, 3, 3, x, y) {
        INK
    } else if in_rect(10, 11, 3, 3, x, y) {
        INK
    } else if in_rect(8, 9, 16, 10, x, y) {
        BODY
    } else if in_rect(7, 8, 18, 12, x, y) {
        TRANSPARENT
    } else if in_rect(5, 6, 22, 17, x, y) {
        BODY
    } else if in_rect(3, 4, 26, 21, x, y) {
        INK
    } else {
        TRANSPARENT
    }
}

/// The bug concept's art: each pixel takes the colour of the last shape
/// drawn over it, transparent where no shape reaches.
pub open spec fn bug_art(x: int, y: int) -> u8 {
    if in_rect(26, 20, 5, 1, x, y) {
        INK
    } else if in_rect(1, 20, 5, 1, x, y) {
        INK
    } else if in_rect(27, 13, 4, 1, x, y) {
        INK
    } else if in_rect(1, 13, 4, 1, x, y) {
        INK
    } else if in_rect(21, 15, 5, 2, x, y) {
        CORE
    } else if in_rect(6, 15, 6, 2, x, y) {
        CORE
    } else if (x == 19 && y == 18) {
        INK
    } else if in_rect(14, 19, 5, 1, x, y) {
        INK
    } else if (x == 13 && y == 18) {
        INK
    } else if in_rect(20, 11, 3, 3, x, y) {
        INK
    } else if in_rect(10, 11, 3, 3, x, y) {
        INK
    } else if in_rect(16, 8, 1, 17, x, y) {
        INK
    } else if in_ellipse(16, 16, 11, 8, x, y) {
        BODY
    } else if in_ellipse(16, 16, 13, 10, x, y) {
        INK
    } else if in_rect(20, 4, 1, 4, x, y) {
        INK
    } else if in_rect(11, 4, 1, 4, x, y) {
        INK
    } else if (x == 20 && y == 4) {
        INK
    } else if (x == 21 && y == 3) {
        INK
    } else if (x == 22 && y == 2) {
        INK
    } else if (x == 11 && y == 4) {
        INK
    } else if (x == 10 && y == 3) {
        INK
    } else if (x == 9 && y == 2) {
        INK
    } else {
        TRANSPARENT
    }
}

/// The slime concept's art: each pixel takes the colour of the last shape
/// drawn over it, transparent where no shape reaches.
pub open spec fn slime_art(x: int, y: int) -> u8 {
    if in_rect(25, 28, 3, 1, x, y) {
        INK
    } else if in_rect(15, 30, 3, 1, x, y) {
        INK
    } else if in_rect(6, 27, 2, 1, x, y) {
        INK
    } else if in_rect(24, 23, 5, 5, x, y) {
        INK
    } else if in_rect(14, 23, 5, 7, x, y) {
        INK
    } else if in_rect(4, 23, 5, 4, x, y) {
        INK
    } else if in_diamond(16, 24, 2, x, y) {
        CORE
    } else if (x == 19 && y == 19) {
        INK
    } else if in_rect(14, 20, 5, 1, x, y) {
        INK
    } else if (x == 13 && y == 19) {
        INK
    } else if in_rect(20, 13, 3, 3, x, y) {
        INK
    } else if in_rect(10, 13, 3, 3, x, y) {
        INK
    } else if in_rect(5, 16, 23, 7, x, y) {
        BODY
    } else if in_rect(3, 16, 27, 9, x, y) {
        INK
    } else if in_ellipse(16, 16, 12, 9, x, y) {
        BODY
    } else if in_ellipse(16, 16, 14, 11, x, y) {
        INK
    } else {
        TRANSPARENT
    }
}

/// The bot concept's art: each pixel takes the colour of the last shape
/// drawn over it, transparent where no shape reaches.
pub open spec fn bot_art(x: int, y: int) -> u8 {
    if in_rect(19, 27, 7, 4, x, y) {
        INK
    } else if in_rect(7, 27, 7, 4, x, y) {
        INK
    } else if in_diamond(16, 24, 2, x, y) {
        CORE
    } else if in_rect(11, 22, 10, 5, x, y) {
        BODY
    } else if in_rect(9, 21, 14, 7, x, y) {
        INK
    } else if in_rect(17, 17, 3, 1, x, y) {
        INK
    } else if in_rect(12, 17, 3, 1, x, y) {
        INK
    } else if in_rect(19, 10, 4, 4, x, y) {
        INK
    } else if in_rect(9, 10, 4, 4, x, y) {
        INK
    } else if in_rect(27, 10, 3, 7, x, y) {
        INK
    } else if in_rect(2, 10, 3, 7, x, y) {
        INK
    } else if in_rect(7, 7, 18, 12, x, y) {
        BODY
    } else if in_rect(5, 5, 22, 16, x, y) {
        INK
    } else if in_rect(14, 1, 5, 3, x, y) {
        INK
    } else if in_rect(16, 1, 1, 4, x, y) {
        INK
    } else {
        TRANSPARENT
    }
}

/// The ghost concept's art: each pixel takes the colour of the last shape
/// drawn over it, transparent where no shape reaches.
pub open spec fn ghost_art(x: int, y: int) -> u8 {
    if in_ellipse(23, 28, 4, 4, x, y) {
        TRANSPARENT
    } else if in_ellipse(16, 28, 4, 4, x, y) {
        TRANSPARENT
    } else if in_ellipse(9, 28, 4, 4, x, y) {
        TRANSPARENT
    } else if in_diamond(16, 21, 2, x, y) {
        CORE
    } else if (x == 17 && y == 17) {
        INK
    } else if (x == 16 && y == 18) {
        INK
    } else if (x == 15 && y == 17) {
        INK
    } else if in_rect(20, 10, 3, 4, x, y) {
        INK
    } else if in_rect(10, 10, 3, 4, x, y) {
        INK
    } else if in_rect(6, 12, 21, 11, x, y) {
        BODY
    } else if in_rect(4, 12, 25, 16, x, y) {
        INK
    } else if in_ellipse(16, 12, 10, 8, x, y) {
        BODY
    } else if in_ellipse(16, 12, 12, 10, x, y) {
        INK
    } else {
        TRANSPARENT
    }
}

/// The core concept's art: each pixel takes the colour of the last shape
/// drawn over it, transparent where no shape reaches.
pub open spec fn core_art(x: int, y: int) -> u8 {
    if in_rect(19, 26, 7, 4, x, y) {
        INK
    } else if in_rect(7, 26, 7, 4, x, y) {
        INK
    } else if (x == 16 && y == 22) {
        INK
    } else if in_diamond(16, 22, 3, x, y) {
        CORE
    } else if in_diamond(16, 22, 5, x, y) {
        INK
    } else if in_rect(10, 20, 12, 6, x, y) {
        BODY
    } else if in_rect(8, 20, 16, 7, x, y) {
        INK
    } else if (x == 18 && y == 15) {
        INK
    } else if in_rect(15, 16, 3, 1, x, y) {
        INK
    } else if (x == 14 && y == 15) {
        INK
    } else if in_rect(20, 9, 3, 3, x, y) {
        INK
    } else if in_rect(10, 9, 3, 3, x, y) {
        INK
    } else if in_ellipse(16, 12, 9, 8, x, y) {
        BODY
    } else if in_ellipse(16, 12, 11, 10, x, y) {
        INK
    } else {
        TRANSPARENT
    }
}

/// `(px, py)` is inked by `smiling_face(canvas, eye_y, mouth_y)`.
pub open spec fn in_smiling_face(eye_y: int, mouth_y: int, px: int, py: int) -> bool {
    ||| in_rect(10, eye_y, 3, 3, px, py)
    ||| in_rect(20, eye_y, 3, 3, px, py)
    ||| (px == 13 && py == mouth_y)
    ||| (px == 14 && py == mouth_y + 1)
    ||| in_rect(15, mouth_y + 2, 4, 1, px, py)
    ||| (px == 19 && py == mouth_y + 1)
    ||| (px == 20 && py == mouth_y)
}

/// `(px, py)` is inked by `little_feet(canvas, y)`.
pub open spec fn in_little_feet(y: int, px: int, py: int) -> bool {
    ||| in_rect(8, y, 6, 3, px, py)
    ||| in_rect(19, y, 6, 3, px, py)
    ||| in_rect(9, y + 3, 4, 1, px, py)
    ||| in_rect(20, y + 3, 4, 1, px, py)
}

/// Two square eyes and a smiling mouth, in ink.
fn smiling_face(canvas: &mut Canvas, eye_y: i32, mouth_y: i32)
    requires
        1 <= eye_y <= 28,
        1 <= mouth_y <= 28,
    ensures
        forall|px: int, py: int|
            in_canvas(px, py) ==> #[trigger] at(final(canvas).pixels@, px, py) == if in_smiling_face(
                eye_y as int,
                mouth_y as int,
                px,
                py,
            ) {
                INK
            } else {
                at(old(canvas).pixels@, px, py)
            },
        uses_palette(old(canvas).pixels@) ==> uses_palette(final(canvas).pixels@),
        border_clear(old(canvas).pixels@) ==> border_clear(final(canvas).pixels@),
{
    canvas.rect(10, eye_y, 3, 3, INK);
    canvas.rect(20, eye_y, 3, 3, INK);
    canvas.put(13, mouth_y, INK);
    canvas.put(14, mouth_y + 1, INK);
    canvas.hline(15, mouth_y + 2, 4, INK);
    canvas.put(19, mouth_y + 1, INK);
    canvas.put(20, mouth_y, INK);
    proof {
        let p = canvas.pixels@;
        assert forall|qx: int, qy: int| in_canvas(qx, qy) implies #[trigger] at(p, qx, qy) == if in_smiling_face(
            eye_y as int,
            mouth_y as int,
            qx,
            qy,
        ) {
            INK
        } else {
            at(old(canvas).pixels@, qx, qy)
        } by {}
    }
}

/// Two ink feet whose top row is `y`.
fn little_feet(canvas: &mut Canvas, y: i32)
    requires
        1 <= y <= 27,
    ensures
        forall|px: int, py: int|
            in_canvas(px, py) ==> #[trigger] at(final(canvas).pixels@, px, py) == if in_little_feet(
                y as int,
                px,
                py,
            ) {
                INK
            } else {
                at(old(canvas).pixels@, px, py)
            },
        uses_palette(old(canvas).pixels@) ==> uses_palette(final(canvas).pixels@),
        border_clear(old(canvas).pixels@) ==> border_clear(final(canvas).pixels@),
{
    canvas.rect(8, y, 6, 3, INK);
    canvas.rect(19, y, 6, 3, INK);
    canvas.hline(9, y + 3, 4, INK);
    canvas.hline(20, y + 3, 4, INK);
}

/// Draws the Orb Byte bitmap.
#[verifier::nonlinear]
fn orb_byte_pixels() -> (pixels: [u8; SPRITE_PIXELS])
    ensures
        forall|x: int, y: int| in_canvas(x, y) ==> #[trigger] at(pixels@, x, y) == orb_art(x, y),
        uses_palette(pixels@),
        border_clear(pixels@),
        at(pixels@, 25, 21) == INK,
        at(pixels@, 7, 7) == INK,
        at(pixels@, 7, 26) == TRANSPARENT,
        at(pixels@, 16, 22) == CORE,
{
    let mut canvas = Canvas::new();
    canvas.ellipse(16, 14, 13, 12, INK);
    canvas.ellipse(16, 14, 11, 10, BODY);
    smiling_face(&mut canvas, 9, 15);
    canvas.diamond(16, 22, 2, CORE);
    little_feet(&mut canvas, 25);
    canvas.finish()
}

/// Draws the Pixel Byte bitmap.
#[verifier::nonlinear]
fn pixel_byte_pixels() -> (pixels: [u8; SPRITE_PIXELS])
    ensures
        forall|x: int, y: int| in_canvas(x, y) ==> #[trigger] at(pixels@, x, y) == pixel_art(x, y),
        uses_palette(pixels@),
        border_clear(pixels@),
        at(pixels@, 25, 21) == INK,
        at(pixels@, 7, 7) == BODY,
        at(pixels@, 7, 26) == TRANSPARENT,
{
    let mut canvas = Canvas::new();
    canvas.rect(5, 4, 22, 22, INK);
    canvas.rect(7, 6, 18, 18, BODY);
    canvas.rect(5, 4, 2, 2, TRANSPARENT);
    canvas.rect(25, 4, 2, 2, TRANSPARENT);
    canvas.rect(5, 24, 2, 2, TRANSPARENT);
    canvas.rect(25, 24, 2, 2, TRANSPARENT);
    canvas.rect(9, 10, 4, 3, INK);
    canvas.rect(19, 10, 4, 3, INK);
    canvas.hline(12, 17, 8, INK);
    canvas.rect(15, 21, 2, 2, CORE);
    little_feet(&mut canvas, 26);
    canvas.finish()
}

/// Draws the Terminal Byte bitmap.
#[verifier::nonlinear]
fn terminal_byte_pixels() -> (pixels: [u8; SPRITE_PIXELS])
    ensures
        forall|x: int, y: int| in_canvas(x, y) ==> #[trigger] at(pixels@, x, y) == terminal_art(x, y),
        uses_palette(pixels@),
        border_clear(pixels@),
        at(pixels@, 25, 21) == BODY,
        at(pixels@, 7, 7) == BODY,
        at(pixels@, 7, 26) == TRANSPARENT,
{
    let mut canvas = Canvas::new();
    canvas.rect(4, 5, 24, 21, INK);
    canvas.rect(6, 7, 20, 17, BODY);
    canvas.put(4, 5, TRANSPARENT);
    canvas.put(27, 5, TRANSPARENT);
    canvas.put(4, 25, TRANSPARENT);
    canvas.put(27, 25, TRANSPARENT);

    canvas.put(9, 10, INK);
    canvas.put(10, 11, INK);
    canvas.put(11, 12, INK);
    canvas.put(10, 13, INK);
    canvas.put(9, 14, INK);
    canvas.hline(19, 14, 5, INK);
    canvas.hline(11, 19, 10, INK);
    canvas.rect(22, 18, 2, 2, CORE);
    little_feet(&mut canvas, 26);
    canvas.finish()
}

/// Draws the Bit Byte bitmap.
#[verifier::nonlinear]
fn bit_byte_pixels() -> (pixels: [u8; SPRITE_PIXELS])
    ensures
        forall|x: int, y: int| in_canvas(x, y) ==> #[trigger] at(pixels@, x, y) == bit_art(x, y),
        uses_palette(pixels@),
        border_clear(pixels@),
        at(pixels@, 25, 21) == TRANSPARENT,
        at(pixels@, 7, 7) == INK,
        at(pixels@, 7, 26) == TRANSPARENT,
{
    let mut canvas = Canvas::new();
    canvas.ellipse(16, 12, 11, 10, INK);
    canvas.ellipse(16, 12, 9, 8, BODY);
    canvas.rect(10, 9, 3, 3, INK);
    canvas.rect(20, 9, 3, 3, INK);
    canvas.put(15, 16, INK);
    canvas.put(16, 17, INK);
    canvas.put(17, 16, INK);
    canvas.rect(11, 20, 10, 7, INK);
    canvas.rect(13, 21, 6, 5, BODY);
    canvas.rect(15, 22, 2, 2, CORE);
    canvas.rect(10, 27, 4, 3, INK);
    canvas.rect(18, 27, 4, 3, INK);
    canvas.finish()
}

/// Draws the CRT Byte bitmap.
#[verifier::nonlinear]
fn crt_byte_pixels() -> (pixels: [u8; SPRITE_PIXELS])
    ensures
        forall|x: int, y: int| in_canvas(x, y) ==> #[trigger] at(pixels@, x, y) == crt_art(x, y),
        uses_palette(pixels@),
        border_clear(pixels@),
        at(pixels@, 25, 21) == CORE,
        at(pixels@, 7, 7) == BODY,
        at(pixels@, 7, 26) == TRANSPARENT,
{
    let mut canvas = Canvas::new();
    canvas.rect(3, 4, 26, 21, INK);
    canvas.rect(5, 6, 22, 17, BODY);
    canvas.rect(7, 8, 18, 12, TRANSPARENT);
    canvas.rect(8, 9, 16, 10, BODY);
    canvas.rect(10, 11, 3, 3, INK);
    canvas.rect(19, 11, 3, 3, INK);
    canvas.hline(13, 16, 6, INK);
    canvas.rect(24, 21, 2, 2, CORE);
    canvas.rect(14, 25, 4, 3, INK);
    canvas.rect(9, 28, 14, 3, INK);
    canvas.finish()
}

/// Draws the Bug Byte bitmap.
#[verifier::nonlinear]
fn bug_byte_pixels() -> (pixels: [u8; SPRITE_PIXELS])
    ensures
        forall|x: int, y: int| in_canvas(x, y) ==> #[trigger] at(pixels@, x, y) == bug_art(x, y),
        uses_palette(pixels@),
        border_clear(pixels@),
        at(pixels@, 25, 21) == INK,
        at(pixels@, 7, 7) == TRANSPARENT,
        at(pixels@, 7, 26) == TRANSPARENT,
{
    let mut canvas = Canvas::new();
    canvas.put(9, 2, INK);
    canvas.put(10, 3, INK);
    canvas.put(11, 4, INK);
    canvas.put(22, 2, INK);
    canvas.put(21, 3, INK);
    canvas.put(20, 4, INK);
    canvas.vline(11, 4, 4, INK);
    canvas.vline(20, 4, 4, INK);
    canvas.ellipse(16, 16, 13, 10, INK);
    canvas.ellipse(16, 16, 11, 8, BODY);
    canvas.vline(16, 8, 17, INK);
    canvas.rect(10, 11, 3, 3, INK);
    canvas.rect(20, 11, 3, 3, INK);
    canvas.put(13, 18, INK);
    canvas.hline(14, 19, 5, INK);
    canvas.put(19, 18, INK);
    canvas.rect(6, 15, 6, 2, CORE);
    canvas.rect(21, 15, 5, 2, CORE);
    canvas.hline(1, 13, 4, INK);
    canvas.hline(27, 13, 4, INK);
    canvas.hline(1, 20, 5, INK);
    canvas.hline(26, 20, 5, INK);
    canvas.finish()
}

/// Draws the Slime Byte bitmap.
#[verifier::nonlinear]
fn slime_byte_pixels() -> (pixels: [u8; SPRITE_PIXELS])
    ensures
        forall|x: int, y: int| in_canvas(x, y) ==> #[trigger] at(pixels@, x, y) == slime_art(x, y),
        uses_palette(pixels@),
        border_clear(pixels@),
        at(pixels@, 25, 21) == BODY,
        at(pixels@, 7, 7) == TRANSPARENT,
        at(pixels@, 7, 26) == INK,
{
    let mut canvas = Canvas::new();
    canvas.ellipse(16, 16, 14, 11, INK);
    canvas.ellipse(16, 16, 12, 9, BODY);
    canvas.rect(3, 16, 27, 9, INK);
    canvas.rect(5, 16, 23, 7, BODY);
    canvas.rect(10, 13, 3, 3, INK);
    canvas.rect(20, 13, 3, 3, INK);
    canvas.put(13, 19, INK);
    canvas.hline(14, 20, 5, INK);
    canvas.put(19, 19, INK);
    canvas.diamond(16, 24, 2, CORE);
    canvas.rect(4, 23, 5, 4, INK);
    canvas.rect(14, 23, 5, 7, INK);
    canvas.rect(24, 23, 5, 5, INK);
    canvas.hline(6, 27, 2, INK);
    canvas.hline(15, 30, 3, INK);
    canvas.hline(25, 28, 3, INK);
    canvas.finish()
}

/// Draws the Bot Byte bitmap.
#[verifier::nonlinear]
fn bot_byte_pixels() -> (pixels: [u8; SPRITE_PIXELS])
    ensures
        forall|x: int, y: int| in_canvas(x, y) ==> #[trigger] at(pixels@, x, y) == bot_art(x, y),
        uses_palette(pixels@),
        border_clear(pixels@),
        at(pixels@, 25, 21) == TRANSPARENT,
        at(pixels@, 7, 7) == BODY,
        at(pixels@, 7, 26) == TRANSPARENT,
{
    let mut canvas = Canvas::new();
    canvas.vline(16, 1, 4, INK);
    // The antenna ball starts on the second row, keeping the top row clear.
    canvas.rect(14, 1, 5, 3, INK);
    canvas.rect(5, 5, 22, 16, INK);
    canvas.rect(7, 7, 18, 12, BODY);
    canvas.rect(2, 10, 3, 7, INK);
    canvas.rect(27, 10, 3, 7, INK);
    canvas.rect(9, 10, 4, 4, INK);
    canvas.rect(19, 10, 4, 4, INK);
    canvas.hline(12, 17, 3, INK);
    canvas.hline(17, 17, 3, INK);
    canvas.rect(9, 21, 14, 7, INK);
    canvas.rect(11, 22, 10, 5, BODY);
    canvas.diamond(16, 24, 2, CORE);
    canvas.rect(7, 27, 7, 4, INK);
    canvas.rect(19, 27, 7, 4, INK);
    canvas.finish()
}

/// Draws the Ghost Byte bitmap.
#[verifier::nonlinear]
fn ghost_byte_pixels() -> (pixels: [u8; SPRITE_PIXELS])
    ensures
        forall|x: int, y: int| in_canvas(x, y) ==> #[trigger] at(pixels@, x, y) == ghost_art(x, y),
        uses_palette(pixels@),
        border_clear(pixels@),
        at(pixels@, 25, 21) == BODY,
        at(pixels@, 7, 7) == INK,
        at(pixels@, 7, 26) == TRANSPARENT,
{
    let mut canvas = Canvas::new();
    canvas.ellipse(16, 12, 12, 10, INK);
    canvas.ellipse(16, 12, 10, 8, BODY);
    canvas.rect(4, 12, 25, 16, INK);
    canvas.rect(6, 12, 21, 11, BODY);
    canvas.rect(10, 10, 3, 4, INK);
    canvas.rect(20, 10, 3, 4, INK);
    canvas.put(15, 17, INK);
    canvas.put(16, 18, INK);
    canvas.put(17, 17, INK);
    canvas.diamond(16, 21, 2, CORE);
    canvas.ellipse(9, 28, 4, 4, TRANSPARENT);
    canvas.ellipse(16, 28, 4, 4, TRANSPARENT);
    canvas.ellipse(23, 28, 4, 4, TRANSPARENT);
    canvas.finish()
}

/// Draws the Core Byte bitmap.
#[verifier::nonlinear]
fn core_byte_pixels() -> (pixels: [u8; SPRITE_PIXELS])
    ensures
        forall|x: int, y: int| in_canvas(x, y) ==> #[trigger] at(pixels@, x, y) == core_art(x, y),
        uses_palette(pixels@),
        border_clear(pixels@),
        at(pixels@, 25, 21) == TRANSPARENT,
        at(pixels@, 7, 7) == INK,
        at(pixels@, 7, 26) == INK,
{
    let mut canvas = Canvas::new();
    canvas.ellipse(16, 12, 11, 10, INK);
    canvas.ellipse(16, 12, 9, 8, BODY);
    canvas.rect(10, 9, 3, 3, INK);
    canvas.rect(20, 9, 3, 3, INK);
    canvas.put(14, 15, INK);
    canvas.hline(15, 16, 3, INK);
    canvas.put(18, 15, INK);
    canvas.rect(8, 20, 16, 7, INK);
    canvas.rect(10, 20, 12, 6, BODY);
    canvas.diamond(16, 22, 5, INK);
    canvas.diamond(16, 22, 3, CORE);
    canvas.put(16, 22, INK);
    canvas.rect(7, 26, 7, 4, INK);
    canvas.rect(19, 26, 7, 4, INK);
    canvas.finish()
}


/// A bitmap with a non-transparent sample point has art.
proof fn lemma_probe_visible(p: Seq<u8>)
    ensures
        at(p, 25, 21) != TRANSPARENT ==> has_art(p),
        at(p, 7, 7) != TRANSPARENT ==> has_art(p),
        at(p, 7, 26) != TRANSPARENT ==> has_art(p),
{
    if at(p, 25, 21) != TRANSPARENT {
        assert(visible(p, 25, 21));
    }
    if at(p, 7, 7) != TRANSPARENT {
        assert(visible(p, 7, 7));
    }
    if at(p, 7, 26) != TRANSPARENT {
        assert(visible(p, 7, 26));
    }
}

/// The "01 ORB BYTE" concept.
pub fn orb_byte() -> (s: Sprite32)
    ensures
        forall|x: int, y: int| in_canvas(x, y) ==> #[trigger] at(s.pixels@, x, y) == orb_art(x, y),
        s.id@ == "orb-byte"@,
        s.name@ == "01 ORB BYTE"@,
        s.description@ == "Round mascot silhouette with expressive eyes and a state Core."@,
        uses_palette(s.pixels@),
        border_clear(s.pixels@),
        has_art(s.pixels@),
        signature(s.pixels@) == (INK, INK, TRANSPARENT),
        at(s.pixels@, 16, 22) == CORE,
{
    let pixels = orb_byte_pixels();
    proof {
        lemma_probe_visible(pixels@);
    }
    Sprite32 {
        id: "orb-byte",
        name: "01 ORB BYTE",
        description: "Round mascot silhouette with expressive eyes and a state Core.",
        pixels,
    }
}

/// The "02 PIXEL BYTE" concept.
pub fn pixel_byte() -> (s: Sprite32)
    ensures
        forall|x: int, y: int| in_canvas(x, y) ==> #[trigger] at(s.pixels@, x, y) == pixel_art(x, y),
        s.id@ == "pixel-byte"@,
        s.name@ == "02 PIXEL BYTE"@,
        s.description@ == "A living square pixel with crisp digital corners."@,
        uses_palette(s.pixels@),
        border_clear(s.pixels@),
        has_art(s.pixels@),
        signature(s.pixels@) == (INK, BODY, TRANSPARENT),
{
    let pixels = pixel_byte_pixels();
    proof {
        lemma_probe_visible(pixels@);
    }
    Sprite32 {
        id: "pixel-byte",
        name: "02 PIXEL BYTE",
        description: "A living square pixel with crisp digital corners.",
        pixels,
    }
}

/// The "03 TERMINAL BYTE" concept.
pub fn terminal_byte() -> (s: Sprite32)
    ensures
        forall|x: int, y: int| in_canvas(x, y) ==> #[trigger] at(s.pixels@, x, y) == terminal_art(x, y),
        s.id@ == "terminal-byte"@,
        s.name@ == "03 TERMINAL BYTE"@,
        s.description@ == "A prompt-eyed Byte whose face reads like a terminal."@,
        uses_palette(s.pixels@),
        border_clear(s.pixels@),
        has_art(s.pixels@),
        signature(s.pixels@) == (BODY, BODY, TRANSPARENT),
{
    let pixels = terminal_byte_pixels();
    proof {
        lemma_probe_visible(pixels@);
    }
    Sprite32 {
        id: "terminal-byte",
        name: "03 TERMINAL BYTE",
        description: "A prompt-eyed Byte whose face reads like a terminal.",
        pixels,
    }
}

/// The "04 BIT BYTE" concept.
pub fn bit_byte() -> (s: Sprite32)
    ensures
        forall|x: int, y: int| in_canvas(x, y) ==> #[trigger] at(s.pixels@, x, y) == bit_art(x, y),
        s.id@ == "bit-byte"@,
        s.name@ == "04 BIT BYTE"@,
        s.description@ == "A tiny Tamagotchi-like body with an oversized head."@,
        uses_palette(s.pixels@),
        border_clear(s.pixels@),
        has_art(s.pixels@),
        signature(s.pixels@) == (TRANSPARENT, INK, TRANSPARENT),
{
    let pixels = bit_byte_pixels();
    proof {
        lemma_probe_visible(pixels@);
    }
    Sprite32 {
        id: "bit-byte",
        name: "04 BIT BYTE",
        description: "A tiny Tamagotchi-like body with an oversized head.",
        pixels,
    }
}

/// The "05 CRT BYTE" concept.
pub fn crt_byte() -> (s: Sprite32)
    ensures
        forall|x: int, y: int| in_canvas(x, y) ==> #[trigger] at(s.pixels@, x, y) == crt_art(x, y),
        s.id@ == "crt-byte"@,
        s.name@ == "05 CRT BYTE"@,
        s.description@ == "An old monitor brought to life as a compact creature."@,
        uses_palette(s.pixels@),
        border_clear(s.pixels@),
        has_art(s.pixels@),
        signature(s.pixels@) == (CORE, BODY, TRANSPARENT),
{
    let pixels = crt_byte_pixels();
    proof {
        lemma_probe_visible(pixels@);
    }
    Sprite32 {
        id: "crt-byte",
        name: "05 CRT BYTE",
        description: "An old monitor brought to life as a compact creature.",
        pixels,
    }
}

/// The "06 BUG BYTE" concept.
pub fn bug_byte() -> (s: Sprite32)
    ensures
        forall|x: int, y: int| in_canvas(x, y) ==> #[trigger] at(s.pixels@, x, y) == bug_art(x, y),
        s.id@ == "bug-byte"@,
        s.name@ == "06 BUG BYTE"@,
        s.description@ == "A friendly software bug with antennae and split wings."@,
        uses_palette(s.pixels@),
        border_clear(s.pixels@),
        has_art(s.pixels@),
        signature(s.pixels@) == (INK, TRANSPARENT, TRANSPARENT),
{
    let pixels = bug_byte_pixels();
    proof {
        lemma_probe_visible(pixels@);
    }
    Sprite32 {
        id: "bug-byte",
        name: "06 BUG BYTE",
        description: "A friendly software bug with antennae and split wings.",
        pixels,
    }
}

/// The "07 SLIME BYTE" concept.
pub fn slime_byte() -> (s: Sprite32)
    ensures
        forall|x: int, y: int| in_canvas(x, y) ==> #[trigger] at(s.pixels@, x, y) == slime_art(x, y),
        s.id@ == "slime-byte"@,
        s.name@ == "07 SLIME BYTE"@,
        s.description@ == "A deformable digital blob built for expressive animation."@,
        uses_palette(s.pixels@),
        border_clear(s.pixels@),
        has_art(s.pixels@),
        signature(s.pixels@) == (BODY, TRANSPARENT, INK),
{
    let pixels = slime_byte_pixels();
    proof {
        lemma_probe_visible(pixels@);
    }
    Sprite32 {
        id: "slime-byte",
        name: "07 SLIME BYTE",
        description: "A deformable digital blob built for expressive animation.",
        pixels,
    }
}

/// The "08 BOT BYTE" concept.
pub fn bot_byte() -> (s: Sprite32)
    ensures
        forall|x: int, y: int| in_canvas(x, y) ==> #[trigger] at(s.pixels@, x, y) == bot_art(x, y),
        s.id@ == "bot-byte"@,
        s.name@ == "08 BOT BYTE"@,
        s.description@ == "An antenna-topped AI robot with a chest Core."@,
        uses_palette(s.pixels@),
        border_clear(s.pixels@),
        has_art(s.pixels@),
        signature(s.pixels@) == (TRANSPARENT, BODY, TRANSPARENT),
{
    let pixels = bot_byte_pixels();
    proof {
        lemma_probe_visible(pixels@);
    }
    Sprite32 {
        id: "bot-byte",
        name: "08 BOT BYTE",
        description: "An antenna-topped AI robot with a chest Core.",
        pixels,
    }
}

/// The "09 GHOST BYTE" concept.
pub fn ghost_byte() -> (s: Sprite32)
    ensures
        forall|x: int, y: int| in_canvas(x, y) ==> #[trigger] at(s.pixels@, x, y) == ghost_art(x, y),
        s.id@ == "ghost-byte"@,
        s.name@ == "09 GHOST BYTE"@,
        s.description@ == "A floating digital entity with a shifting pixel fringe."@,
        uses_palette(s.pixels@),
        border_clear(s.pixels@),
        has_art(s.pixels@),
        signature(s.pixels@) == (BODY, INK, TRANSPARENT),
{
    let pixels = ghost_byte_pixels();
    proof {
        lemma_probe_visible(pixels@);
    }
    Sprite32 {
        id: "ghost-byte",
        name: "09 GHOST BYTE",
        description: "A floating digital entity with a shifting pixel fringe.",
        pixels,
    }
}

/// The "10 CORE BYTE" concept.
pub fn core_byte() -> (s: Sprite32)
    ensures
        forall|x: int, y: int| in_canvas(x, y) ==> #[trigger] at(s.pixels@, x, y) == core_art(x, y),
        s.id@ == "core-byte"@,
        s.name@ == "10 CORE BYTE"@,
        s.description@ == "A compact guardian organized around a large luminous Core."@,
        uses_palette(s.pixels@),
        border_clear(s.pixels@),
        has_art(s.pixels@),
        signature(s.pixels@) == (TRANSPARENT, INK, INK),
{
    let pixels = core_byte_pixels();
    proof {
        lemma_probe_visible(pixels@);
    }
    Sprite32 {
        id: "core-byte",
        name: "10 CORE BYTE",
        description: "A compact guardian organized around a large luminous Core.",
        pixels,
    }
}

/// The facts the catalog promises: ten concepts with these ids, names,
/// descriptions and art in this order; every concept uses only the indexed palette and has visible
/// art with a transparent border; no two share an id, a display name or a
/// bitmap; and the canonical Orb Byte shows its Core.
pub open spec fn is_byte_catalog(c: Seq<Sprite32>) -> bool {
    &&& c.len() == 10
    &&& c[0].id@ == "orb-byte"@
    &&& c[1].id@ == "pixel-byte"@
    &&& c[2].id@ == "terminal-byte"@
    &&& c[3].id@ == "bit-byte"@
    &&& c[4].id@ == "crt-byte"@
    &&& c[5].id@ == "bug-byte"@
    &&& c[6].id@ == "slime-byte"@
    &&& c[7].id@ == "bot-byte"@
    &&& c[8].id@ == "ghost-byte"@
    &&& c[9].id@ == "core-byte"@
    &&& c[0].name@ == "01 ORB BYTE"@
    &&& c[1].name@ == "02 PIXEL BYTE"@
    &&& c[2].name@ == "03 TERMINAL BYTE"@
    &&& c[3].name@ == "04 BIT BYTE"@
    &&& c[4].name@ == "05 CRT BYTE"@
    &&& c[5].name@ == "06 BUG BYTE"@
    &&& c[6].name@ == "07 SLIME BYTE"@
    &&& c[7].name@ == "08 BOT BYTE"@
    &&& c[8].name@ == "09 GHOST BYTE"@
    &&& c[9].name@ == "10 CORE BYTE"@
    &&& c[0].description@ == "Round mascot silhouette with expressive eyes and a state Core."@
    &&& c[1].description@ == "A living square pixel with crisp digital corners."@
    &&& c[2].description@ == "A prompt-eyed Byte whose face reads like a terminal."@
    &&& c[3].description@ == "A tiny Tamagotchi-like body with an oversized head."@
    &&& c[4].description@ == "An old monitor brought to life as a compact creature."@
    &&& c[5].description@ == "A friendly software bug with antennae and split wings."@
    &&& c[6].description@ == "A deformable digital blob built for expressive animation."@
    &&& c[7].description@ == "An antenna-topped AI robot with a chest Core."@
    &&& c[8].description@ == "A floating digital entity with a shifting pixel fringe."@
    &&& c[9].description@ == "A compact guardian organized around a large luminous Core."@
    &&& forall|x: int, y: int| in_canvas(x, y) ==> #[trigger] at(c[0].pixels@, x, y) == orb_art(x, y)
    &&& forall|x: int, y: int| in_canvas(x, y) ==> #[trigger] at(c[1].pixels@, x, y) == pixel_art(x, y)
    &&& forall|x: int, y: int| in_canvas(x, y) ==> #[trigger] at(c[2].pixels@, x, y) == terminal_art(x, y)
    &&& forall|x: int, y: int| in_canvas(x, y) ==> #[trigger] at(c[3].pixels@, x, y) == bit_art(x, y)
    &&& forall|x: int, y: int| in_canvas(x, y) ==> #[trigger] at(c[4].pixels@, x, y) == crt_art(x, y)
    &&& forall|x: int, y: int| in_canvas(x, y) ==> #[trigger] at(c[5].pixels@, x, y) == bug_art(x, y)
    &&& forall|x: int, y: int| in_canvas(x, y) ==> #[trigger] at(c[6].pixels@, x, y) == slime_art(x, y)
    &&& forall|x: int, y: int| in_canvas(x, y) ==> #[trigger] at(c[7].pixels@, x, y) == bot_art(x, y)
    &&& forall|x: int, y: int| in_canvas(x, y) ==> #[trigger] at(c[8].pixels@, x, y) == ghost_art(x, y)
    &&& forall|x: int, y: int| in_canvas(x, y) ==> #[trigger] at(c[9].pixels@, x, y) == core_art(x, y)
    &&& forall|i: int| 0 <= i < 10 ==> uses_palette(#[trigger] c[i].pixels@)
    &&& forall|i: int| 0 <= i < 10 ==> border_clear(#[trigger] c[i].pixels@)
    &&& forall|i: int| 0 <= i < 10 ==> has_art(#[trigger] c[i].pixels@)
    &&& forall|i: int, j: int| 0 <= i < j < 10 ==> #[trigger] c[i].id@ != #[trigger] c[j].id@
    &&& forall|i: int, j: int| 0 <= i < j < 10 ==> #[trigger] c[i].name@ != #[trigger] c[j].name@
    &&& forall|i: int, j: int| 0 <= i < j < 10 ==> #[trigger] c[i].pixels@ != #[trigger] c[j].pixels@
    &&& at(c[0].pixels@, 16, 22) == CORE
}

/// The ten Byte concepts, in catalog order (see `is_byte_catalog`).
pub fn byte_concepts() -> (r: Vec<Sprite32>)
    ensures
        is_byte_catalog(r@),
{
    let mut v: Vec<Sprite32> = Vec::new();
    v.push(orb_byte());
    v.push(pixel_byte());
    v.push(terminal_byte());
    v.push(bit_byte());
    v.push(crt_byte());
    v.push(bug_byte());
    v.push(slime_byte());
    v.push(bot_byte());
    v.push(ghost_byte());
    v.push(core_byte());
    proof {
        reveal_strlit("orb-byte");
        reveal_strlit("pixel-byte");
        reveal_strlit("terminal-byte");
        reveal_strlit("bit-byte");
        reveal_strlit("crt-byte");
        reveal_strlit("bug-byte");
        reveal_strlit("slime-byte");
        reveal_strlit("bot-byte");
        reveal_strlit("ghost-byte");
        reveal_strlit("core-byte");
        reveal_strlit("01 ORB BYTE");
        reveal_strlit("02 PIXEL BYTE");
        reveal_strlit("03 TERMINAL BYTE");
        reveal_strlit("04 BIT BYTE");
        reveal_strlit("05 CRT BYTE");
        reveal_strlit("06 BUG BYTE");
        reveal_strlit("07 SLIME BYTE");
        reveal_strlit("08 BOT BYTE");
        reveal_strlit("09 GHOST BYTE");
        reveal_strlit("10 CORE BYTE");
        assert forall|i: int, j: int| 0 <= i < j < 10 implies #[trigger] v@[i].id@
            != #[trigger] v@[j].id@ by {
            if v@[i].id@ == v@[j].id@ {
                assert(v@[i].id@[0] == v@[j].id@[0]);
                assert(v@[i].id@[1] == v@[j].id@[1]);
            }
        }
        assert forall|i: int, j: int| 0 <= i < j < 10 implies #[trigger] v@[i].name@
            != #[trigger] v@[j].name@ by {
            if v@[i].name@ == v@[j].name@ {
                assert(v@[i].name@[0] == v@[j].name@[0]);
                assert(v@[i].name@[1] == v@[j].name@[1]);
            }
        }
        assert forall|i: int, j: int| 0 <= i < j < 10 implies #[trigger] v@[i].pixels@
            != #[trigger] v@[j].pixels@ by {
            if v@[i].pixels@ == v@[j].pixels@ {
                assert(signature(v@[i].pixels@) == signature(v@[j].pixels@));
            }
        }
    }
    v
}

/// Art whose border is transparent has its bounding box strictly inside the
/// canvas: at least one transparent pixel of padding on every edge.
pub proof fn clear_border_means_padding(pixels: Seq<u8>, b: SpriteBounds)
    requires
        border_clear(pixels),
        is_bounding_box(pixels, b),
    ensures
        0 < b.min_x,
        0 < b.min_y,
        b.max_x < SPRITE_WIDTH - 1,
        b.max_y < SPRITE_HEIGHT - 1,
{
    let (x0, y0) = choose|x: int, y: int| #[trigger] visible(pixels, x, y) && x == b.min_x;
    let (x1, y1) = choose|x: int, y: int| #[trigger] visible(pixels, x, y) && y == b.min_y;
    let (x2, y2) = choose|x: int, y: int| #[trigger] visible(pixels, x, y) && x == b.max_x;
    let (x3, y3) = choose|x: int, y: int| #[trigger] visible(pixels, x, y) && y == b.max_y;
    assert(at(pixels, x0, y0) != TRANSPARENT);
    assert(at(pixels, x1, y1) != TRANSPARENT);
    assert(at(pixels, x2, y2) != TRANSPARENT);
    assert(at(pixels, x3, y3) != TRANSPARENT);
}

/// A 32 x 32 bitmap that uses the palette at every point holds only palette
/// indices, read as a flat array.
pub proof fn palette_covers_every_pixel(pixels: Seq<u8>)
    requires
        pixels.len() == SPRITE_PIXELS,
        uses_palette(pixels),
    ensures
        forall|i: int| 0 <= i < SPRITE_PIXELS ==> #[trigger] pixels[i] < PALETTE_SIZE,
{
    assert forall|i: int| 0 <= i < SPRITE_PIXELS implies #[trigger] pixels[i] < PALETTE_SIZE by {
        let x = i % 32;
        let y = i / 32;
        assert(at(pixels, x, y) < PALETTE_SIZE);
    }
}

/// The art of the concept at catalog position `i` (0 to 9).
pub open spec fn concept_art(i: int, x: int, y: int) -> u8 {
    if i == 0 {
        orb_art(x, y)
    } else if i == 1 {
        pixel_art(x, y)
    } else if i == 2 {
        terminal_art(x, y)
    } else if i == 3 {
        bit_art(x, y)
    } else if i == 4 {
        crt_art(x, y)
    } else if i == 5 {
        bug_art(x, y)
    } else if i == 6 {
        slime_art(x, y)
    } else if i == 7 {
        bot_art(x, y)
    } else if i == 8 {
        ghost_art(x, y)
    } else {
        core_art(x, y)
    }
}

/// The ten concepts' art is pairwise different: for any two there is a pixel
/// where they disagree, so no drawing function duplicates another's bitmap.
#[verifier::nonlinear]
pub proof fn concept_arts_differ(i: int, j: int)
    requires
        0 <= i < j < 10,
    ensures
        exists|x: int, y: int|
            in_canvas(x, y) && #[trigger] concept_art(i, x, y) != concept_art(j, x, y),
{
    assert(orb_art(25, 21) == 1 && orb_art(7, 7) == 1 && orb_art(7, 26) == 0);
    assert(pixel_art(25, 21) == 1 && pixel_art(7, 7) == 2 && pixel_art(7, 26) == 0);
    assert(terminal_art(25, 21) == 2 && terminal_art(7, 7) == 2 && terminal_art(7, 26) == 0);
    assert(bit_art(25, 21) == 0 && bit_art(7, 7) == 1 && bit_art(7, 26) == 0);
    assert(crt_art(25, 21) == 3 && crt_art(7, 7) == 2 && crt_art(7, 26) == 0);
    assert(bug_art(25, 21) == 1 && bug_art(7, 7) == 0 && bug_art(7, 26) == 0);
    assert(slime_art(25, 21) == 2 && slime_art(7, 7) == 0 && slime_art(7, 26) == 1);
    assert(bot_art(25, 21) == 0 && bot_art(7, 7) == 2 && bot_art(7, 26) == 0);
    assert(ghost_art(25, 21) == 2 && ghost_art(7, 7) == 1 && ghost_art(7, 26) == 0);
    assert(core_art(25, 21) == 0 && core_art(7, 7) == 1 && core_art(7, 26) == 1);
    if concept_art(i, 25, 21) != concept_art(j, 25, 21) {
        assert(in_canvas(25, 21) && concept_art(i, 25, 21) != concept_art(j, 25, 21));
    } else if concept_art(i, 7, 7) != concept_art(j, 7, 7) {
        assert(in_canvas(7, 7) && concept_art(i, 7, 7) != concept_art(j, 7, 7));
    } else {
        assert(in_canvas(7, 26) && concept_art(i, 7, 26) != concept_art(j, 7, 26));
    }
}

} // verus!
