use vstd::prelude::*;

verus! {

/// Columns of the frame buffer.
pub const WIDTH: usize = 64;

/// Rows of the frame buffer.
pub const HEIGHT: usize = 32;

/// Most rows a sprite can have: its height is one opcode nibble.
pub const MAX_SPRITE_ROWS: usize = 15;

/// Bit `j` of a sprite row, counted from the most significant bit.
pub open spec fn sprite_bit(byte: u8, j: int) -> bool {
    (byte >> ((7 - j) as u8)) & 1u8 == 1u8
}

/// Column offset of column `c` from a sprite drawn at column `x`, wrapped.
pub open spec fn col_offset(x: int, c: int) -> int {
    (c - x) % (WIDTH as int)
}

/// Row offset of row `r` from a sprite drawn at row `y`, wrapped.
pub open spec fn row_offset(y: int, r: int) -> int {
    (r - y) % (HEIGHT as int)
}

/// Whether the sprite row `byte` drawn at column `x` has a lit bit on column `c`.
pub open spec fn row_covers(byte: u8, x: int, c: int) -> bool {
    col_offset(x, c) < 8 && sprite_bit(byte, col_offset(x, c))
}

/// Whether `sprite` drawn at `(x, y)` has a lit bit on pixel `(r, c)`.
pub open spec fn covers(sprite: Seq<u8>, x: int, y: int, r: int, c: int) -> bool {
    row_offset(y, r) < sprite.len() && row_covers(sprite[row_offset(y, r)], x, c)
}

/// Whether `(r, c)` is a pixel of the grid.
pub open spec fn on_grid(r: int, c: int) -> bool {
    0 <= r < HEIGHT && 0 <= c < WIDTH
}

/// For `0 <= j < m` and `0 <= c < m`: `c` lies `j` places past `x`, wrapped at `m`,
/// exactly when `c == (x + j) % m`.
proof fn lemma_wrapped_offset(x: int, j: int, c: int, m: int)
    requires
        m == WIDTH || m == HEIGHT,
        0 <= x,
        0 <= j < m,
        0 <= c < m,
    ensures
        ((c - x) % m == j) <==> (c == (x + j) % m),
{
    if m == 64 {
        assert(((c - x) % 64 == j) <==> (c == (x + j) % 64)) by (nonlinear_arith)
            requires
                0 <= x,
                0 <= j < 64,
                0 <= c < 64,
        ;
    } else {
        assert(((c - x) % 32 == j) <==> (c == (x + j) % 32)) by (nonlinear_arith)
            requires
                0 <= x,
                0 <= j < 32,
                0 <= c < 32,
        ;
    }
}

/// The monochrome frame buffer, `HEIGHT` rows of `WIDTH` pixels.
#[derive(Clone, Copy)]
pub struct Display {
    pub data: [[bool; WIDTH]; HEIGHT],
}

impl Display {
    /// Whether the pixel on row `r`, column `c` is set.
    pub open spec fn pixel(&self, r: int, c: int) -> bool {
        self.data@[r]@[c]
    }

    /// Whether no pixel is set.
    pub open spec fn is_blank(&self) -> bool {
        forall|r: int, c: int| on_grid(r, c) ==> !self.pixel(r, c)
    }

    /// Whether drawing `sprite` at `(x, y)` turns a set pixel off.
    pub open spec fn collides(&self, sprite: Seq<u8>, x: int, y: int) -> bool {
        exists|r: int, c: int| on_grid(r, c) && self.pixel(r, c) && covers(sprite, x, y, r, c)
    }

    /// Pixel `(r, c)` after `sprite` is drawn at `(x, y)` over this buffer.
    pub open spec fn pixel_after_draw(&self, sprite: Seq<u8>, x: int, y: int, r: int, c: int) -> bool {
        self.pixel(r, c) != covers(sprite, x, y, r, c)
    }

    /// A buffer with no pixel set.
    pub fn new() -> (r: Display)
        ensures
            r.is_blank(),
    {
        Display { data: [[false; WIDTH]; HEIGHT] }
    }

    /// Unsets every pixel.
    pub fn clear(&mut self)
        ensures
            final(self).is_blank(),
    {
        self.data = [[false; WIDTH]; HEIGHT];
    }

    /// XORs the eight bits of `data`, most significant first, into row `y`
    /// from column `x` on, both wrapped to the grid. Returns whether a set
    /// pixel was turned off.
    pub fn write(&mut self, x: u8, y: u8, data: u8) -> (r: bool)
        ensures
            forall|rr: int, c: int|
                on_grid(rr, c) ==> #[trigger] final(self).pixel(rr, c) == if rr == y as int
                    % HEIGHT as int {
                    old(self).pixel(rr, c) != row_covers(data, x as int, c)
                } else {
                    old(self).pixel(rr, c)
                },
            r == exists|c: int|
                0 <= c < WIDTH && old(self).pixel(y as int % HEIGHT as int, c) && row_covers(
                    data,
                    x as int,
                    c,
                ),
    {
        let row = (y as usize) % HEIGHT;
        let old_line = self.data[row];
        let mut line = old_line;
        let mut flipped = false;
        let mut j: u8 = 0;
        while j < 8
            invariant
                j <= 8,
                old_line@ == old(self).data@[row as int]@,
                forall|c: int|
                    0 <= c < WIDTH ==> #[trigger] line@[c] == if col_offset(x as int, c) < j {
                        old_line@[c] != row_covers(data, x as int, c)
                    } else {
                        old_line@[c]
                    },
                flipped == exists|c: int|
                    0 <= c < WIDTH && col_offset(x as int, c) < j && old_line@[c] && row_covers(
                        data,
                        x as int,
                        c,
                    ),
            decreases 8 - j,
        {
            let col = (x as usize + j as usize) % WIDTH;
            let before = line[col];
            let bit = (data >> (7 - j)) & 1u8 == 1u8;
            proof {
                assert forall|c: int| 0 <= c < WIDTH implies (col_offset(x as int, c) == j) <==> (c
                    == col as int) by {
                    lemma_wrapped_offset(x as int, j as int, c, WIDTH as int);
                }
                assert(col_offset(x as int, col as int) == j);
                assert(row_covers(data, x as int, col as int) == bit);
            }
            line[col] = before != bit;
            if before && bit {
                flipped = true;
            }
            j = j + 1;
        }
        self.data[row] = line;
        flipped
    }
    /// Draws `sprite` with its top-left corner at `(x, y)`: row `k` of the
    /// sprite is XORed into grid row `y + k`, columns `x` to `x + 7`, all
    /// wrapped to the grid. Returns whether any set pixel was turned off.
    pub fn draw(&mut self, x: u8, y: u8, sprite: &Vec<u8>) -> (r: bool)
        requires
            sprite@.len() <= MAX_SPRITE_ROWS,
        ensures
            forall|rr: int, c: int|
                on_grid(rr, c) ==> #[trigger] final(self).pixel(rr, c) == old(
                    self,
                ).pixel_after_draw(sprite@, x as int, y as int, rr, c),
            r == old(self).collides(sprite@, x as int, y as int),
    {
        let ghost start = *self;
        let mut collided = false;
        let mut k: usize = 0;
        while k < sprite.len()
            invariant
                start == *old(self),
                sprite@.len() <= MAX_SPRITE_ROWS,
                k <= sprite@.len(),
                forall|rr: int, c: int|
                    on_grid(rr, c) ==> #[trigger] self.pixel(rr, c) == (start.pixel(rr, c) != (
                    row_offset(y as int, rr) < k && row_covers(
                        sprite@[row_offset(y as int, rr)],
                        x as int,
                        c,
                    ))),
                collided == exists|rr: int, c: int|
                    on_grid(rr, c) && row_offset(y as int, rr) < k && start.pixel(rr, c)
                        && row_covers(sprite@[row_offset(y as int, rr)], x as int, c),
            decreases sprite@.len() - k,
        {
            let row = ((y as usize + k) % HEIGHT) as u8;
            proof {
                assert forall|rr: int| 0 <= rr < HEIGHT implies (row_offset(y as int, rr) == k) <==> (
                rr == row as int) by {
                    lemma_wrapped_offset(y as int, k as int, rr, HEIGHT as int);
                }
            }
            let ghost before = *self;
            let hit = self.write(x, row, sprite[k]);
            proof {
                if hit {
                    let c = choose|c: int|
                        0 <= c < WIDTH && before.pixel(row as int, c) && row_covers(
                            sprite@[k as int],
                            x as int,
                            c,
                        );
                    assert(on_grid(row as int, c) && row_offset(y as int, row as int) < k + 1
                        && start.pixel(row as int, c) && row_covers(
                        sprite@[row_offset(y as int, row as int)],
                        x as int,
                        c,
                    ));
                }
                if collided {
                    let (r0, c0) = choose|rr: int, c: int|
                        on_grid(rr, c) && row_offset(y as int, rr) < k && start.pixel(rr, c)
                            && row_covers(sprite@[row_offset(y as int, rr)], x as int, c);
                    assert(on_grid(r0, c0) && row_offset(y as int, r0) < k + 1 && start.pixel(
                        r0,
                        c0,
                    ) && row_covers(sprite@[row_offset(y as int, r0)], x as int, c0));
                }
                if exists|rr: int, c: int|
                    on_grid(rr, c) && row_offset(y as int, rr) < k + 1 && start.pixel(rr, c)
                        && row_covers(sprite@[row_offset(y as int, rr)], x as int, c) {
                    let (r0, c0) = choose|rr: int, c: int|
                        on_grid(rr, c) && row_offset(y as int, rr) < k + 1 && start.pixel(rr, c)
                            && row_covers(sprite@[row_offset(y as int, rr)], x as int, c);
                    if row_offset(y as int, r0) == k {
                        assert(before.pixel(row as int, c0));
                    }
                }
            }
            collided = collided || hit;
            k = k + 1;
        }
        collided
    }
}

} // verus!
