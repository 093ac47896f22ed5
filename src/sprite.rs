use vstd::prelude::*;

use crate::model::MEMORY_SIZE;

verus! {

/// Framebuffer width in pixels.
pub const SCREEN_WIDTH: usize = 64;

/// Framebuffer height in pixels.
pub const SCREEN_HEIGHT: usize = 32;

/// Number of cells in the framebuffer, row after row.
pub const SCREEN_SIZE: usize = 2048;

/// Bit `col` of a sprite row, counted from the most significant bit.
pub open spec fn sprite_bit(byte: u8, col: int) -> bool {
    byte & (0x80u8 >> (col as u8)) != 0
}

/// The sprite row that lands on screen row `py` when the sprite's top is at
/// row `by` (coordinates wrap around the screen).
#[verifier::opaque]
pub open spec fn row_of(by: int, p: int) -> int {
    (p / 64 - by) % 32
}

/// The sprite column that lands on screen column `px` when the sprite's left
/// edge is at column `bx`.
#[verifier::opaque]
pub open spec fn col_of(bx: int, p: int) -> int {
    (p % 64 - bx) % 64
}

/// Cell index of sprite row `r`, column `c`, for a sprite drawn at `(x, y)`.
pub open spec fn cell_of(x: u8, y: u8, r: int, c: int) -> int {
    ((y as int + r) % 32) * 64 + (x as int + c) % 64
}

/// Whether a set sprite bit lands on cell `p`, for an `n`-row sprite read
/// from `memory[index..index + n]` and drawn at `(x, y)`.
pub open spec fn covers(memory: Seq<u8>, index: int, x: u8, y: u8, n: u8, p: int) -> bool {
    let r = row_of(y as int % 32, p);
    let c = col_of(x as int % 64, p);
    r < n && c < 8 && sprite_bit(memory[index + r], c)
}

/// The framebuffer after the sprite is XORed onto it.
pub open spec fn drawn(
    display: Seq<bool>,
    memory: Seq<u8>,
    index: int,
    x: u8,
    y: u8,
    n: u8,
) -> Seq<bool> {
    Seq::new(display.len(), |p: int| display[p] != covers(memory, index, x, y, n, p))
}

/// Whether the draw turns some lit cell off.
pub open spec fn collides(
    display: Seq<bool>,
    memory: Seq<u8>,
    index: int,
    x: u8,
    y: u8,
    n: u8,
) -> bool {
    exists|p: int| 0 <= p < display.len() && covers(memory, index, x, y, n, p) && #[trigger] display[p]
}

spec fn done_before(rr: int, cc: int, r: int, c: int) -> bool {
    rr < r || (rr == r && cc < c)
}

/// Sprite cell `(r, c)` lands on a cell whose row and column of the sprite
/// are `r` and `c` again.
proof fn lemma_cell_inverse(x: u8, y: u8, r: int, c: int)
    requires
        0 <= r < 32,
        0 <= c < 64,
    ensures
        0 <= cell_of(x, y, r, c) < 2048,
        row_of(y as int % 32, cell_of(x, y, r, c)) == r,
        col_of(x as int % 64, cell_of(x, y, r, c)) == c,
{
    reveal(row_of);
    reveal(col_of);
    let a = (y as int + r) % 32;
    let b = (x as int + c) % 64;
    let p = a * 64 + b;
    assert(0 <= a < 32 && 0 <= b < 64);
    assert(p / 64 == a && p % 64 == b) by (nonlinear_arith)
        requires
            p == a * 64 + b,
            0 <= b < 64,
    ;
    assert((a - y as int % 32) % 32 == r) by (nonlinear_arith)
        requires
            a == (y as int + r) % 32,
            0 <= r < 32,
            y >= 0,
    ;
    assert((b - x as int % 64) % 64 == c) by (nonlinear_arith)
        requires
            b == (x as int + c) % 64,
            0 <= c < 64,
            x >= 0,
    ;
}

/// A cell is the one that its own sprite row and column land on.
proof fn lemma_pixel_inverse(x: u8, y: u8, p: int)
    requires
        0 <= p < 2048,
    ensures
        0 <= row_of(y as int % 32, p) < 32,
        0 <= col_of(x as int % 64, p) < 64,
        cell_of(x, y, row_of(y as int % 32, p), col_of(x as int % 64, p)) == p,
{
    reveal(row_of);
    reveal(col_of);
    let r = row_of(y as int % 32, p);
    let c = col_of(x as int % 64, p);
    let a = p / 64;
    let b = p % 64;
    assert(p == a * 64 + b && 0 <= a < 32 && 0 <= b < 64) by (nonlinear_arith)
        requires
            0 <= p < 2048,
            a == p / 64,
            b == p % 64,
    ;
    assert(0 <= r < 32 && (y as int + r) % 32 == a) by (nonlinear_arith)
        requires
            r == (a - y as int % 32) % 32,
            0 <= a < 32,
            y >= 0,
    ;
    assert(0 <= c < 64 && (x as int + c) % 64 == b) by (nonlinear_arith)
        requires
            c == (b - x as int % 64) % 64,
            0 <= b < 64,
            x >= 0,
    ;
}

/// Every cell has a sprite row and column in range.
proof fn lemma_pixel_ranges(x: u8, y: u8)
    ensures
        forall|p: int| 0 <= p < 2048 ==> 0 <= #[trigger] row_of(y as int % 32, p) < 32,
        forall|p: int| 0 <= p < 2048 ==> 0 <= #[trigger] col_of(x as int % 64, p) < 64,
{
    assert forall|p: int| 0 <= p < 2048 implies 0 <= #[trigger] row_of(y as int % 32, p) < 32 by {
        lemma_pixel_inverse(x, y, p);
    }
    assert forall|p: int| 0 <= p < 2048 implies 0 <= #[trigger] col_of(x as int % 64, p) < 64 by {
        lemma_pixel_inverse(x, y, p);
    }
}

/// XORs an `n`-row sprite read from `memory[index..index + n]` onto the
/// framebuffer at `(x, y)`, wrapping at the screen's edges, and tells
/// whether a lit cell was turned off.
pub fn draw_sprite(
    display: &mut [bool; SCREEN_SIZE],
    memory: &[u8; MEMORY_SIZE],
    index: usize,
    x: u8,
    y: u8,
    n: u8,
) -> (collided: bool)
    requires
        n < 16,
        index + n <= 4096,
    ensures
        final(display)@ == drawn(old(display)@, memory@, index as int, x, y, n),
        collided == collides(old(display)@, memory@, index as int, x, y, n),
{
    let ghost start = display@;
    let ghost bx = x as int % 64;
    let ghost by = y as int % 32;
    proof {
        lemma_pixel_ranges(x, y);
    }
    let mut collided = false;
    let mut row: u8 = 0;
    while row < n
        invariant
            row <= n < 16,
            index + n <= 4096,
            start.len() == 2048,
            bx == x as int % 64,
            by == y as int % 32,
            forall|p: int| 0 <= p < 2048 ==> 0 <= #[trigger] row_of(by, p) < 32,
            forall|p: int| 0 <= p < 2048 ==> 0 <= #[trigger] col_of(bx, p) < 64,
            forall|p: int|
                0 <= p < 2048 ==> #[trigger] display@[p] == (start[p] != (covers(memory@, index as int, x, y, n, p)
                    && row_of(by, p) < row)),
            collided == exists|p: int|
                0 <= p < 2048 && covers(memory@, index as int, x, y, n, p) && row_of(by, p) < row
                    && #[trigger] start[p],
        decreases n - row,
    {
        let byte = memory[index + row as usize];
        let mut col: u8 = 0;
        while col < 8
            invariant
                row < n < 16,
                col <= 8,
                index + n <= 4096,
                start.len() == 2048,
                byte == memory@[index + row],
                bx == x as int % 64,
                by == y as int % 32,
                forall|p: int| 0 <= p < 2048 ==> 0 <= #[trigger] row_of(by, p) < 32,
                forall|p: int| 0 <= p < 2048 ==> 0 <= #[trigger] col_of(bx, p) < 64,
                forall|p: int|
                    0 <= p < 2048 ==> #[trigger] display@[p] == (start[p] != (covers(memory@, index as int, x, y, n, p)
                        && done_before(row_of(by, p), col_of(bx, p), row as int, col as int))),
                collided == exists|p: int|
                    0 <= p < 2048 && covers(memory@, index as int, x, y, n, p)
                        && done_before(row_of(by, p), col_of(bx, p), row as int, col as int)
                        && #[trigger] start[p],
            decreases 8 - col,
        {
            let ghost before = display@;
            let cell = ((y as usize + row as usize) % SCREEN_HEIGHT) * SCREEN_WIDTH + (x as usize
                + col as usize) % SCREEN_WIDTH;
            proof {
                lemma_cell_inverse(x, y, row as int, col as int);
                assert(cell == cell_of(x, y, row as int, col as int));
            }
            if byte & (0x80u8 >> col) != 0 {
                assert(covers(memory@, index as int, x, y, n, cell as int));
                if display[cell] {
                    assert(start[cell as int]);
                    collided = true;
                }
                display[cell] = !display[cell];
            }
            proof {
                assert forall|p: int| 0 <= p < 2048 implies #[trigger] display@[p] == (start[p] != (covers(memory@, index as int, x, y, n, p)
                    && done_before(row_of(by, p), col_of(bx, p), row as int, col + 1))) by {
                    if p != cell {
                        assert(display@[p] == before[p]);
                        lemma_pixel_inverse(x, y, p);
                        assert(!(row_of(by, p) == row && col_of(bx, p) == col));
                    }
                }
                if !collided {
                    assert forall|p: int| 0 <= p < 2048 && covers(memory@, index as int, x, y, n, p)
                        && done_before(row_of(by, p), col_of(bx, p), row as int, col + 1)
                        implies !#[trigger] start[p] by {
                        if p != cell {
                            lemma_pixel_inverse(x, y, p);
                        }
                    }
                }
            }
            col = col + 1;
        }
        proof {
            assert forall|p: int| 0 <= p < 2048 implies #[trigger] display@[p] == (start[p] != (covers(memory@, index as int, x, y, n, p)
                && row_of(by, p) < row + 1)) by {
                if covers(memory@, index as int, x, y, n, p) {
                    assert(col_of(bx, p) < 8);
                }
            }
            if !collided {
                assert forall|p: int| 0 <= p < 2048 && covers(memory@, index as int, x, y, n, p)
                    && row_of(by, p) < row + 1 implies !#[trigger] start[p] by {
                    assert(col_of(bx, p) < 8);
                }
            }
        }
        row = row + 1;
    }
    proof {
        assert forall|p: int| 0 <= p < 2048 && covers(memory@, index as int, x, y, n, p)
            implies row_of(by, p) < row by {}
        assert(display@ =~= drawn(start, memory@, index as int, x, y, n));
        if !collided {
            assert forall|p: int| 0 <= p < 2048 && covers(memory@, index as int, x, y, n, p)
                implies !#[trigger] start[p] by {}
        }
    }
    collided
}

} // verus!
