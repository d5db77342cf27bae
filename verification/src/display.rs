//! The 64x32 monochrome framebuffer and the sprite drawing rule.
//!
//! A screen is modelled as a sequence of 32 rows of 64 booleans, origin at the
//! top left. Drawing XORs a sprite into it; coordinates wrap at both edges.

use vstd::prelude::*;

verus! {

/// Number of pixel columns.
pub const SCREEN_WIDTH: usize = 64;

/// Number of pixel rows.
pub const SCREEN_HEIGHT: usize = 32;

/// Largest number of rows a sprite may have without overlapping itself.
pub const MAX_SPRITE_ROWS: usize = 32;

/// A screen has 32 rows of 64 pixels.
pub open spec fn screen_wf(screen: Seq<Seq<bool>>) -> bool {
    &&& screen.len() == 32
    &&& forall|r: int| 0 <= r < 32 ==> (#[trigger] screen[r]).len() == 64
}

/// The screen with every pixel off.
pub open spec fn blank_screen() -> Seq<Seq<bool>> {
    Seq::new(32, |r: int| Seq::new(64, |c: int| false))
}

/// Whether bit `col` of a sprite row is set, column 0 being the leftmost
/// (most significant) bit.
pub open spec fn sprite_bit(byte: u8, col: int) -> bool {
    (byte & (0x80u8 >> (col as u8))) != 0
}

/// Whether the sprite, placed with its top-left corner at column `x0` and row
/// `y0`, has a set bit on the pixel in row `r`, column `c`. The sprite wraps
/// around both edges of the screen.
pub open spec fn sprite_covers(sprite: Seq<u8>, x0: int, y0: int, r: int, c: int) -> bool {
    let dy = (r - y0) % 32;
    let dx = (c - x0) % 64;
    dy < sprite.len() && dx < 8 && sprite_bit(sprite[dy], dx)
}

/// The screen after XOR-ing the sprite into it.
pub open spec fn draw_pixels(screen: Seq<Seq<bool>>, sprite: Seq<u8>, x0: int, y0: int) -> Seq<
    Seq<bool>,
> {
    Seq::new(
        32,
        |r: int| Seq::new(64, |c: int| screen[r][c] != sprite_covers(sprite, x0, y0, r, c)),
    )
}

/// Whether drawing the sprite turns off at least one pixel that was lit.
pub open spec fn draw_erases(screen: Seq<Seq<bool>>, sprite: Seq<u8>, x0: int, y0: int) -> bool {
    exists|r: int, c: int|
        0 <= r < 32 && 0 <= c < 64 && screen[r][c] && #[trigger] sprite_covers(
            sprite,
            x0,
            y0,
            r,
            c,
        )
}

/// Whether drawing the sprite turns on at least one pixel that was dark.
pub open spec fn draw_lights(screen: Seq<Seq<bool>>, sprite: Seq<u8>, x0: int, y0: int) -> bool {
    exists|r: int, c: int|
        0 <= r < 32 && 0 <= c < 64 && !screen[r][c] && #[trigger] sprite_covers(
            sprite,
            x0,
            y0,
            r,
            c,
        )
}

/// Position of a pixel in row-major order.
pub open spec fn pixel_rank(p: (usize, usize)) -> int {
    p.1 * 64 + p.0
}

/// The pixel grid.
pub struct Framebuffer {
    pixels: [[bool; 64]; 32],
}

impl View for Framebuffer {
    type V = Seq<Seq<bool>>;

    closed spec fn view(&self) -> Seq<Seq<bool>> {
        Seq::new(32, |r: int| self.pixels[r]@)
    }
}

/// The part of the sprite that the drawing loop has already applied when it
/// stands at bit `col` of sprite row `row`.
spec fn drawn_so_far(
    sprite: Seq<u8>,
    x0: int,
    y0: int,
    row: int,
    col: int,
    r: int,
    c: int,
) -> bool {
    let dy = (r - y0) % 32;
    let dx = (c - x0) % 64;
    sprite_covers(sprite, x0, y0, r, c) && (dy < row || (dy == row && dx < col))
}

/// Whether the part of the sprite applied so far has hit a lit pixel.
spec fn erased_so_far(
    screen: Seq<Seq<bool>>,
    sprite: Seq<u8>,
    x0: int,
    y0: int,
    row: int,
    col: int,
) -> bool {
    exists|r: int, c: int|
        0 <= r < 32 && 0 <= c < 64 && screen[r][c] && #[trigger] drawn_so_far(
            sprite,
            x0,
            y0,
            row,
            col,
            r,
            c,
        )
}

/// Applying one more bit of the sprite touches exactly one pixel.
proof fn lemma_draw_bit(
    screen: Seq<Seq<bool>>,
    sprite: Seq<u8>,
    x0: int,
    y0: int,
    row: int,
    col: int,
    next: int,
)
    requires
        0 <= row < sprite.len() <= 32,
        0 <= col < 8,
        next == col + 1,
        0 <= x0,
        0 <= y0,
    ensures
        forall|r: int, c: int|
            0 <= r < 32 && 0 <= c < 64 ==> (#[trigger] drawn_so_far(sprite, x0, y0, row, next, r, c)
                <==> drawn_so_far(sprite, x0, y0, row, col, r, c) || (r == (y0 + row) % 32 && c == (
            x0 + col) % 64 && sprite_bit(sprite[row], col))),
        erased_so_far(screen, sprite, x0, y0, row, next) <==> erased_so_far(
            screen,
            sprite,
            x0,
            y0,
            row,
            col,
        ) || (screen[(y0 + row) % 32][(x0 + col) % 64] && sprite_bit(sprite[row], col)),
{
    let wy = (y0 + row) % 32;
    let wx = (x0 + col) % 64;
    assert((wy - y0) % 32 == row && (wx - x0) % 64 == col);
    assert forall|r: int, c: int| 0 <= r < 32 && 0 <= c < 64 implies (#[trigger] drawn_so_far(
        sprite,
        x0,
        y0,
        row,
        next,
        r,
        c,
    ) <==> drawn_so_far(sprite, x0, y0, row, col, r, c) || (r == wy && c == wx && sprite_bit(
        sprite[row],
        col,
    ))) by {
        if (r - y0) % 32 == row && (c - x0) % 64 == col {
            assert(r == wy && c == wx);
        }
    }
    if erased_so_far(screen, sprite, x0, y0, row, col) {
        let (r, c) = choose|r: int, c: int|
            0 <= r < 32 && 0 <= c < 64 && screen[r][c] && #[trigger] drawn_so_far(
                sprite,
                x0,
                y0,
                row,
                col,
                r,
                c,
            );
        assert(drawn_so_far(sprite, x0, y0, row, next, r, c));
    }
    if screen[wy][wx] && sprite_bit(sprite[row], col) {
        assert(drawn_so_far(sprite, x0, y0, row, next, wy, wx));
    }
}

/// Finishing a sprite row is the same as standing at the start of the next.
proof fn lemma_draw_row(
    screen: Seq<Seq<bool>>,
    sprite: Seq<u8>,
    x0: int,
    y0: int,
    row: int,
    next: int,
)
    requires
        0 <= row,
        next == row + 1,
    ensures
        forall|r: int, c: int|
            0 <= r < 32 && 0 <= c < 64 ==> (#[trigger] drawn_so_far(sprite, x0, y0, next, 0, r, c)
                <==> drawn_so_far(sprite, x0, y0, row, 8, r, c)),
        erased_so_far(screen, sprite, x0, y0, next, 0) <==> erased_so_far(
            screen,
            sprite,
            x0,
            y0,
            row,
            8,
        ),
{
    assert forall|r: int, c: int| 0 <= r < 32 && 0 <= c < 64 implies (#[trigger] drawn_so_far(
        sprite,
        x0,
        y0,
        next,
        0,
        r,
        c,
    ) <==> drawn_so_far(sprite, x0, y0, row, 8, r, c)) by {}
    if erased_so_far(screen, sprite, x0, y0, row, 8) {
        let (r, c) = choose|r: int, c: int|
            0 <= r < 32 && 0 <= c < 64 && screen[r][c] && #[trigger] drawn_so_far(
                sprite,
                x0,
                y0,
                row,
                8,
                r,
                c,
            );
        assert(drawn_so_far(sprite, x0, y0, next, 0, r, c));
    }
    if erased_so_far(screen, sprite, x0, y0, next, 0) {
        let (r, c) = choose|r: int, c: int|
            0 <= r < 32 && 0 <= c < 64 && screen[r][c] && #[trigger] drawn_so_far(
                sprite,
                x0,
                y0,
                next,
                0,
                r,
                c,
            );
        assert(drawn_so_far(sprite, x0, y0, row, 8, r, c));
    }
}

/// Once every row has been applied, the whole sprite has.
proof fn lemma_draw_done(screen: Seq<Seq<bool>>, sprite: Seq<u8>, x0: int, y0: int)
    ensures
        forall|r: int, c: int|
            0 <= r < 32 && 0 <= c < 64 ==> (#[trigger] drawn_so_far(
                sprite,
                x0,
                y0,
                sprite.len() as int,
                0,
                r,
                c,
            ) <==> sprite_covers(sprite, x0, y0, r, c)),
        erased_so_far(screen, sprite, x0, y0, sprite.len() as int, 0) <==> draw_erases(
            screen,
            sprite,
            x0,
            y0,
        ),
{
    let n = sprite.len() as int;
    if erased_so_far(screen, sprite, x0, y0, n, 0) {
        let (r, c) = choose|r: int, c: int|
            0 <= r < 32 && 0 <= c < 64 && screen[r][c] && #[trigger] drawn_so_far(
                sprite,
                x0,
                y0,
                n,
                0,
                r,
                c,
            );
        assert(sprite_covers(sprite, x0, y0, r, c));
    }
    if draw_erases(screen, sprite, x0, y0) {
        let (r, c) = choose|r: int, c: int|
            0 <= r < 32 && 0 <= c < 64 && screen[r][c] && #[trigger] sprite_covers(
                sprite,
                x0,
                y0,
                r,
                c,
            );
        assert(drawn_so_far(sprite, x0, y0, n, 0, r, c));
    }
}

impl Framebuffer {
    /// A screen with every pixel off.
    pub fn new() -> (fb: Framebuffer)
        ensures
            fb@ == blank_screen(),
    {
        let fb = Framebuffer { pixels: [[false; 64]; 32] };
        assert(fb@ =~~= blank_screen());
        fb
    }

    /// Every framebuffer has the shape of a screen.
    pub proof fn lemma_shape(&self)
        ensures
            screen_wf(self@),
    {
    }

    /// Turns every pixel off.
    pub fn clear(&mut self)
        ensures
            final(self)@ == blank_screen(),
    {
        self.pixels = [[false; 64]; 32];
        assert(self@ =~~= blank_screen());
    }

    /// Reads the pixel in column `x`, row `y`; coordinates beyond the screen
    /// wrap around.
    pub fn pixel(&self, x: usize, y: usize) -> (lit: bool)
        ensures
            lit == self@[(y % 32) as int][(x % 64) as int],
    {
        self.pixels[y % SCREEN_HEIGHT][x % SCREEN_WIDTH]
    }

    /// The lit pixels as `(column, row)` pairs, row by row from the top and
    /// from left to right within a row.
    pub fn lit_pixels(&self) -> (lit: Vec<(usize, usize)>)
        ensures
            forall|k: int|
                0 <= k < lit@.len() ==> (#[trigger] lit@[k]).0 < 64 && lit@[k].1 < 32
                    && self@[lit@[k].1 as int][lit@[k].0 as int],
            forall|j: int, k: int|
                0 <= j < k < lit@.len() ==> pixel_rank(#[trigger] lit@[j]) < pixel_rank(
                    #[trigger] lit@[k],
                ),
            forall|r: int, c: int|
                0 <= r < 32 && 0 <= c < 64 && #[trigger] self@[r][c] ==> lit@.contains(
                    (c as usize, r as usize),
                ),
    {
        let mut lit: Vec<(usize, usize)> = Vec::new();
        let mut y: usize = 0;
        while y < SCREEN_HEIGHT
            invariant
                y <= 32,
                forall|k: int|
                    0 <= k < lit@.len() ==> (#[trigger] lit@[k]).0 < 64 && lit@[k].1 < y
                        && self@[lit@[k].1 as int][lit@[k].0 as int],
                forall|j: int, k: int|
                    0 <= j < k < lit@.len() ==> pixel_rank(#[trigger] lit@[j]) < pixel_rank(
                        #[trigger] lit@[k],
                    ),
                forall|r: int, c: int|
                    0 <= r < y && 0 <= c < 64 && #[trigger] self@[r][c] ==> lit@.contains(
                        (c as usize, r as usize),
                    ),
            decreases 32 - y,
        {
            let mut x: usize = 0;
            while x < SCREEN_WIDTH
                invariant
                    y < 32,
                    x <= 64,
                    forall|k: int|
                        0 <= k < lit@.len() ==> (#[trigger] lit@[k]).0 < 64 && pixel_rank(lit@[k])
                            < y * 64 + x && self@[lit@[k].1 as int][lit@[k].0 as int],
                    forall|j: int, k: int|
                        0 <= j < k < lit@.len() ==> pixel_rank(#[trigger] lit@[j]) < pixel_rank(
                            #[trigger] lit@[k],
                        ),
                    forall|r: int, c: int|
                        0 <= r < 32 && 0 <= c < 64 && r * 64 + c < y * 64 + x
                            && #[trigger] self@[r][c] ==> lit@.contains((c as usize, r as usize)),
                decreases 64 - x,
            {
                if self.pixels[y][x] {
                    let ghost prev = lit@;
                    lit.push((x, y));
                    proof {
                        assert(lit@[prev.len() as int] == (x, y));
                        assert forall|r: int, c: int|
                            0 <= r < 32 && 0 <= c < 64 && r * 64 + c < y * 64 + x + 1
                                && #[trigger] self@[r][c] implies lit@.contains(
                            (c as usize, r as usize),
                        ) by {
                            if r == y && c == x {
                                assert(lit@[prev.len() as int] == (c as usize, r as usize));
                            } else {
                                assert(prev.contains((c as usize, r as usize)));
                                let k = choose|k: int|
                                    0 <= k < prev.len() && prev[k] == (c as usize, r as usize);
                                assert(lit@[k] == prev[k]);
                            }
                        }
                    }
                }
                x += 1;
            }
            y += 1;
        }
        lit
    }

    /// XORs `sprite` into the screen with its top-left corner at column
    /// `x mod 64`, row `y mod 32`, each touched coordinate wrapping on its own.
    /// Returns whether a lit pixel was turned off.
    pub fn draw(&mut self, sprite: &[u8], x: u8, y: u8) -> (collision: bool)
        requires
            sprite@.len() <= MAX_SPRITE_ROWS,
        ensures
            final(self)@ == draw_pixels(old(self)@, sprite@, x as int, y as int),
            collision == draw_erases(old(self)@, sprite@, x as int, y as int),
    {
        let ghost before = self@;
        let ghost x0 = x as int;
        let ghost y0 = y as int;
        let mut collision = false;
        let mut row: usize = 0;
        while row < sprite.len()
            invariant
                row <= sprite@.len() <= 32,
                x0 == x,
                y0 == y,
                forall|r: int, c: int|
                    0 <= r < 32 && 0 <= c < 64 ==> #[trigger] self@[r][c] == (before[r][c]
                        != drawn_so_far(sprite@, x0, y0, row as int, 0, r, c)),
                collision == erased_so_far(before, sprite@, x0, y0, row as int, 0),
            decreases sprite@.len() - row,
        {
            let line = sprite[row];
            let wy: usize = (y as usize + row) % SCREEN_HEIGHT;
            let mut col: u8 = 0;
            while col < 8
                invariant
                    row < sprite@.len() <= 32,
                    col <= 8,
                    x0 == x,
                    y0 == y,
                    line == sprite@[row as int],
                    wy == (y0 + row) % 32,
                    forall|r: int, c: int|
                        0 <= r < 32 && 0 <= c < 64 ==> #[trigger] self@[r][c] == (before[r][c]
                            != drawn_so_far(sprite@, x0, y0, row as int, col as int, r, c)),
                    collision == erased_so_far(before, sprite@, x0, y0, row as int, col as int),
                decreases 8 - col,
            {
                let wx: usize = (x as usize + col as usize) % SCREEN_WIDTH;
                let ghost mid = self@;
                let ghost next = col + 1;
                let lit = self.pixels[wy][wx];
                let bit = (line & (0x80u8 >> col)) != 0;
                proof {
                    lemma_draw_bit(before, sprite@, x0, y0, row as int, col as int, next);
                    assert((wy - y0) % 32 == row && (wx - x0) % 64 == col);
                    assert(lit == mid[wy as int][wx as int]);
                    assert(!drawn_so_far(
                        sprite@,
                        x0,
                        y0,
                        row as int,
                        col as int,
                        wy as int,
                        wx as int,
                    ));
                    assert(lit == before[wy as int][wx as int]);
                    assert(bit == sprite_bit(line, col as int));
                }
                if bit {
                    self.pixels[wy][wx] = !lit;
                    if lit {
                        collision = true;
                    }
                    assert(self@[wy as int][wx as int] == !lit);
                    assert forall|r: int, c: int|
                        0 <= r < 32 && 0 <= c < 64 && !(r == wy && c == wx) implies self@[r][c]
                        == mid[r][c] by {
                        assert(self@[r] == self.pixels[r]@);
                    }
                }
                proof {
                    assert forall|r: int, c: int| 0 <= r < 32 && 0 <= c < 64 implies #[trigger] self@[r][c]
                        == (before[r][c] != drawn_so_far(sprite@, x0, y0, row as int, next, r, c)) by {
                        assert(mid[r][c] == (before[r][c] != drawn_so_far(
                            sprite@,
                            x0,
                            y0,
                            row as int,
                            col as int,
                            r,
                            c,
                        )));
                    }
                }
                col += 1;
            }
            proof {
                lemma_draw_row(before, sprite@, x0, y0, row as int, row + 1);
            }
            row += 1;
        }
        proof {
            lemma_draw_done(before, sprite@, x0, y0);
            assert(self@ =~~= draw_pixels(before, sprite@, x0, y0));
        }
        collision
    }
}

} // verus!
