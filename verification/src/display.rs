//! The 64x32 one-bit framebuffer and sprite drawing.
//!
//! Pixels are stored row by row, one byte per pixel: the pixel in column `x`
//! of row `y` is at index `y * 64 + x` and holds 1 when lit, 0 when dark.
//! A sprite is eight pixels wide and up to fifteen rows high. Each of its
//! rows is one byte of memory, the highest bit leftmost. Drawing flips the
//! pixels under the set bits and wraps around both edges of the screen.

use vstd::prelude::*;

verus! {

/// Pixels in one row of the screen.
pub const GFX_SIZE_COL: usize = 64;

/// Rows of the screen.
pub const GFX_SIZE_ROW: usize = 32;

/// Pixels on the screen.
pub const GFX_SIZE: usize = 2048;

/// Whether the sprite of `n` rows at address `i` has the bit for column
/// `col` of row `row` set.
pub open spec fn sprite_bit(memory: Seq<u8>, i: int, row: int, col: int) -> bool {
    memory[i + row] & (0x80u8 >> (col as u8)) != 0
}

/// The sprite column that falls on screen column `px` when the sprite's
/// left edge is at `vx`; 8 or more where the sprite does not reach `px`.
pub open spec fn sprite_col(vx: u8, px: int) -> int {
    (px - vx) % 64
}

/// The sprite row that falls on screen row `py` when the sprite's top edge
/// is at `vy`; `n` or more where the sprite does not reach `py`.
pub open spec fn sprite_row(vy: u8, py: int) -> int {
    (py - vy) % 32
}

/// Whether drawing the sprite of `n` rows at address `i` to `(vx, vy)`
/// flips the pixel at index `idx`: the sprite covers the pixel, and its bit
/// there is set.
pub open spec fn flips(memory: Seq<u8>, i: int, vx: u8, vy: u8, n: int, idx: int) -> bool {
    let col = sprite_col(vx, idx % 64);
    let row = sprite_row(vy, idx / 64);
    col < 8 && row < n && sprite_bit(memory, i, row, col)
}

/// The framebuffer after drawing the sprite: every flipped pixel is XORed
/// with 1, every other pixel is kept.
pub open spec fn drawn(gfx: Seq<u8>, memory: Seq<u8>, i: int, vx: u8, vy: u8, n: int) -> Seq<u8> {
    Seq::new(
        2048,
        |idx: int|
            if flips(memory, i, vx, vy, n, idx) {
                gfx[idx] ^ 1u8
            } else {
                gfx[idx]
            },
    )
}

/// Whether drawing the sprite turns off a pixel that was lit.
pub open spec fn collides(gfx: Seq<u8>, memory: Seq<u8>, i: int, vx: u8, vy: u8, n: int) -> bool {
    exists|idx: int| 0 <= idx < 2048 && #[trigger] flips(memory, i, vx, vy, n, idx) && gfx[idx] == 1
}

/// A framebuffer with every pixel dark.
pub open spec fn blank() -> Seq<u8> {
    Seq::new(2048, |idx: int| 0u8)
}

/// Every pixel is 0 or 1.
pub open spec fn one_bit(gfx: Seq<u8>) -> bool {
    forall|idx: int| 0 <= idx < gfx.len() ==> gfx[idx] <= 1
}

/// Whether the sprite bit for `(row, col)` comes before `(yline, xline)` in
/// drawing order: rows from the top, and in each row columns from the left.
pub open spec fn before(row: int, col: int, yline: int, xline: int) -> bool {
    row < yline || (row == yline && col < xline)
}

/// Whether the pixel at `idx` is flipped by a sprite bit that comes before
/// `(yline, xline)` in drawing order.
pub open spec fn flips_before(
    memory: Seq<u8>,
    i: int,
    vx: u8,
    vy: u8,
    n: int,
    yline: int,
    xline: int,
    idx: int,
) -> bool {
    flips(memory, i, vx, vy, n, idx) && before(
        sprite_row(vy, idx / 64),
        sprite_col(vx, idx % 64),
        yline,
        xline,
    )
}

/// Whether a sprite bit that comes before `(yline, xline)` in drawing order
/// turns off a pixel that was lit.
pub open spec fn collides_before(
    gfx: Seq<u8>,
    memory: Seq<u8>,
    i: int,
    vx: u8,
    vy: u8,
    n: int,
    yline: int,
    xline: int,
) -> bool {
    exists|idx: int|
        0 <= idx < 2048 && #[trigger] flips_before(memory, i, vx, vy, n, yline, xline, idx)
            && gfx[idx] == 1
}

/// Finishing a row: what comes before column 8 of row `y` is what comes
/// before column 0 of row `y + 1`.
proof fn lemma_row_done(gfx: Seq<u8>, memory: Seq<u8>, i: int, vx: u8, vy: u8, n: int, y: int)
    ensures
        forall|idx: int|
            #![trigger flips_before(memory, i, vx, vy, n, y + 1, 0, idx)]
            #![trigger flips_before(memory, i, vx, vy, n, y, 8, idx)]
            flips_before(memory, i, vx, vy, n, y, 8, idx) == flips_before(
                memory,
                i,
                vx,
                vy,
                n,
                y + 1,
                0,
                idx,
            ),
        collides_before(gfx, memory, i, vx, vy, n, y, 8) == collides_before(
            gfx,
            memory,
            i,
            vx,
            vy,
            n,
            y + 1,
            0,
        ),
{
    if collides_before(gfx, memory, i, vx, vy, n, y, 8) {
        let w = choose|idx: int|
            0 <= idx < 2048 && #[trigger] flips_before(memory, i, vx, vy, n, y, 8, idx) && gfx[idx]
                == 1;
        assert(flips_before(memory, i, vx, vy, n, y + 1, 0, w));
    }
    if collides_before(gfx, memory, i, vx, vy, n, y + 1, 0) {
        let w = choose|idx: int|
            0 <= idx < 2048 && #[trigger] flips_before(memory, i, vx, vy, n, y + 1, 0, idx)
                && gfx[idx] == 1;
        assert(flips_before(memory, i, vx, vy, n, y, 8, w));
    }
}

/// Finishing the sprite: every bit of a sprite of `n` rows comes before row `n`.
proof fn lemma_sprite_done(gfx: Seq<u8>, memory: Seq<u8>, i: int, vx: u8, vy: u8, n: int)
    ensures
        forall|idx: int|
            #![trigger flips_before(memory, i, vx, vy, n, n, 0, idx)]
            #![trigger flips(memory, i, vx, vy, n, idx)]
            flips_before(memory, i, vx, vy, n, n, 0, idx) == flips(memory, i, vx, vy, n, idx),
        collides_before(gfx, memory, i, vx, vy, n, n, 0) == collides(gfx, memory, i, vx, vy, n),
{
    if collides_before(gfx, memory, i, vx, vy, n, n, 0) {
        let w = choose|idx: int|
            0 <= idx < 2048 && #[trigger] flips_before(memory, i, vx, vy, n, n, 0, idx) && gfx[idx]
                == 1;
        assert(flips(memory, i, vx, vy, n, w));
    }
    if collides(gfx, memory, i, vx, vy, n) {
        let w = choose|idx: int|
            0 <= idx < 2048 && #[trigger] flips(memory, i, vx, vy, n, idx) && gfx[idx] == 1;
        assert(flips_before(memory, i, vx, vy, n, n, 0, w));
    }
}

/// One sprite bit: the bit for `(y, x)` falls on the pixel at `index` and
/// on no other, so moving on to `(y, x + 1)` changes sides for that pixel
/// alone, and only where the bit is set.
proof fn lemma_bit_done(
    gfx: Seq<u8>,
    memory: Seq<u8>,
    i: int,
    vx: u8,
    vy: u8,
    n: int,
    y: int,
    x: int,
    index: int,
)
    requires
        0 <= y < n < 16,
        0 <= x < 8,
        index == ((vy + y) % 32) * 64 + (vx + x) % 64,
    ensures
        0 <= index < 2048,
        !flips_before(memory, i, vx, vy, n, y, x, index),
        flips_before(memory, i, vx, vy, n, y, x + 1, index) == sprite_bit(memory, i, y, x),
        forall|idx: int|
            #![trigger flips_before(memory, i, vx, vy, n, y, x + 1, idx)]
            0 <= idx < 2048 && idx != index ==> flips_before(memory, i, vx, vy, n, y, x + 1, idx)
                == flips_before(memory, i, vx, vy, n, y, x, idx),
        collides_before(gfx, memory, i, vx, vy, n, y, x + 1) == (collides_before(
            gfx,
            memory,
            i,
            vx,
            vy,
            n,
            y,
            x,
        ) || (sprite_bit(memory, i, y, x) && gfx[index] == 1)),
{
    assert(sprite_col(vx, index % 64) == x);
    assert(sprite_row(vy, index / 64) == y);
    assert forall|idx: int| 0 <= idx < 2048 && idx != index implies flips_before(
        memory,
        i,
        vx,
        vy,
        n,
        y,
        x + 1,
        idx,
    ) == flips_before(memory, i, vx, vy, n, y, x, idx) by {
        if sprite_col(vx, idx % 64) == x && sprite_row(vy, idx / 64) == y {
            assert(idx % 64 == index % 64);
            assert(idx / 64 == index / 64);
        }
    }
    if collides_before(gfx, memory, i, vx, vy, n, y, x) {
        let w = choose|idx: int|
            0 <= idx < 2048 && #[trigger] flips_before(memory, i, vx, vy, n, y, x, idx) && gfx[idx]
                == 1;
        assert(flips_before(memory, i, vx, vy, n, y, x + 1, w));
    }
    if sprite_bit(memory, i, y, x) && gfx[index] == 1 {
        assert(flips_before(memory, i, vx, vy, n, y, x + 1, index));
    }
    if collides_before(gfx, memory, i, vx, vy, n, y, x + 1) {
        let w = choose|idx: int|
            0 <= idx < 2048 && #[trigger] flips_before(memory, i, vx, vy, n, y, x + 1, idx)
                && gfx[idx] == 1;
        if w != index {
            assert(flips_before(memory, i, vx, vy, n, y, x, w));
        }
    }
}

/// Clears the framebuffer.
pub fn clear(gfx: &mut [u8; 2048])
    ensures
        final(gfx)@ == blank(),
{
    *gfx = [0;2048];
}

/// Draws the sprite of `n` rows at address `i` of `memory` with its top
/// left corner at `(vx, vy)`, and tells whether a lit pixel went dark.
pub fn draw_sprite(
    gfx: &mut [u8; 2048],
    memory: &[u8; 4096],
    i: usize,
    vx: u8,
    vy: u8,
    n: usize,
) -> (collision: bool)
    requires
        n < 16,
        i + n <= 4096,
    ensures
        final(gfx)@ == drawn(old(gfx)@, memory@, i as int, vx, vy, n as int),
        collision == collides(old(gfx)@, memory@, i as int, vx, vy, n as int),
{
    let ghost g0 = gfx@;
    let ghost m = memory@;
    let mut collision = false;
    let mut yline: usize = 0;
    while yline < n
        invariant
            n < 16,
            i + n <= 4096,
            m == memory@,
            g0.len() == 2048,
            yline <= n,
            forall|idx: int|
                0 <= idx < 2048 ==> gfx@[idx] == if #[trigger] flips_before(
                    m,
                    i as int,
                    vx,
                    vy,
                    n as int,
                    yline as int,
                    0,
                    idx,
                ) {
                    g0[idx] ^ 1u8
                } else {
                    g0[idx]
                },
            collision == collides_before(g0, m, i as int, vx, vy, n as int, yline as int, 0),
        decreases n - yline,
    {
        let pixel: u8 = memory[i + yline];
        let mut xline: u8 = 0;
        while xline < 8
            invariant
                n < 16,
                i + n <= 4096,
                m == memory@,
                g0.len() == 2048,
                yline < n,
                xline <= 8,
                pixel == m[i + yline],
                forall|idx: int|
                    0 <= idx < 2048 ==> gfx@[idx] == if #[trigger] flips_before(
                        m,
                        i as int,
                        vx,
                        vy,
                        n as int,
                        yline as int,
                        xline as int,
                        idx,
                    ) {
                        g0[idx] ^ 1u8
                    } else {
                        g0[idx]
                    },
                collision == collides_before(
                    g0,
                    m,
                    i as int,
                    vx,
                    vy,
                    n as int,
                    yline as int,
                    xline as int,
                ),
            decreases 8 - xline,
        {
            let index_x: usize = (vx as usize + xline as usize) % GFX_SIZE_COL;
            let index_y: usize = (vy as usize + yline) % GFX_SIZE_ROW;
            let index: usize = index_y * GFX_SIZE_COL + index_x;
            proof {
                lemma_bit_done(
                    g0,
                    m,
                    i as int,
                    vx,
                    vy,
                    n as int,
                    yline as int,
                    xline as int,
                    index as int,
                );
            }
            if pixel & (0x80u8 >> xline) != 0 {
                if gfx[index] == 1 {
                    collision = true;
                }
                gfx[index] = gfx[index] ^ 1;
            }
            xline += 1;
        }
        proof {
            lemma_row_done(g0, m, i as int, vx, vy, n as int, yline as int);
        }
        yline += 1;
    }
    proof {
        lemma_sprite_done(g0, m, i as int, vx, vy, n as int);
    }
    collision
}

} // verus!
