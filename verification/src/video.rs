//! The 64x32 monochrome display: XOR sprite blit with collision detection,
//! bulk clear, and rendering to a character frame.

use vstd::prelude::*;

verus! {

pub const SCREEN_WIDTH: i32 = 64;

pub const SCREEN_HEIGHT: i32 = 32;

/// The display grid. A cell holds 0 for an off pixel; any other value is on.
/// Cells are indexed row-major: `idx = y * 64 + x`.
#[derive(Debug)]
pub struct Video {
    pub ram: Vec<u8>,
}

/// The grid holds exactly 64 * 32 cells.
pub open spec fn grid_wf(g: Seq<u8>) -> bool {
    g.len() == 2048
}

/// Bit `c` of a sprite row byte, counted from the most significant bit:
/// column 0 is the leftmost pixel of the row.
pub open spec fn row_bit(b: u8, c: int) -> u8
    recommends
        0 <= c < 8,
{
    (b >> ((7 - c) as u8)) & 1
}

/// The sprite bit that lands on display cell `(px, py)` when the sprite is
/// drawn with its top-left corner at `(x, y)`; 0 outside the sprite's
/// 8-wide, `s.len()`-tall rectangle.
pub open spec fn sprite_bit(s: Seq<u8>, x: int, y: int, px: int, py: int) -> u8 {
    if x <= px < x + 8 && y <= py < y + s.len() {
        row_bit(s[py - y], px - x)
    } else {
        0
    }
}

/// The grid after XOR-drawing sprite `s` at `(x, y)`: every cell is the old
/// cell XOR the sprite bit that lands on it (0 where none does, so cells
/// outside the sprite rectangle keep their value).
pub open spec fn draw_grid(g: Seq<u8>, s: Seq<u8>, x: int, y: int) -> Seq<u8> {
    Seq::new(g.len(), |i: int| g[i] ^ sprite_bit(s, x, y, i % 64, i / 64))
}

/// Whether drawing sprite `s` at `(x, y)` turns at least one lit cell off:
/// some in-bounds cell is on and receives a 1 bit.
pub open spec fn draw_collision(g: Seq<u8>, s: Seq<u8>, x: int, y: int) -> bool {
    exists|px: int, py: int|
        0 <= px < 64 && 0 <= py < 32 && g[py * 64 + px] != 0 && #[trigger] sprite_bit(
            s,
            x,
            y,
            px,
            py,
        ) == 1
}

/// XOR with 0 leaves a byte unchanged.
pub proof fn lemma_xor_zero(a: u8)
    ensures
        a ^ 0 == a,
{
    assert(a ^ 0 == a) by (bit_vector);
}

/// XOR with the same byte twice gives the first byte back.
pub proof fn lemma_xor_twice(a: u8, b: u8)
    ensures
        (a ^ b) ^ b == a,
{
    assert((a ^ b) ^ b == a) by (bit_vector);
}

/// A single extracted bit is 0 or 1.
proof fn lemma_shift_mask_01(b: u8, sh: u8)
    ensures
        ((b >> sh) & 1) == 0 || ((b >> sh) & 1) == 1,
{
    assert(((b >> sh) & 1) == 0 || ((b >> sh) & 1) == 1) by (bit_vector);
}

/// Every sprite bit is 0 or 1.
pub proof fn lemma_sprite_bit_01(s: Seq<u8>, x: int, y: int, px: int, py: int)
    ensures
        sprite_bit(s, x, y, px, py) == 0 || sprite_bit(s, x, y, px, py) == 1,
{
    if x <= px < x + 8 && y <= py < y + s.len() {
        lemma_shift_mask_01(s[py - y], (7 - (px - x)) as u8);
    }
}

/// The row-major cell index of an in-bounds coordinate pair.
pub fn map_idx(x: i32, y: i32) -> (idx: usize)
    requires
        0 <= x < 64,
        0 <= y < 32,
    ensures
        idx == y * 64 + x,
{
    ((y * SCREEN_WIDTH) + x) as usize
}

/// Whether a coordinate pair lies on the display.
pub fn in_bounds(x: i32, y: i32) -> (r: bool)
    ensures
        r == (0 <= x < 64 && 0 <= y < 32),
{
    x >= 0 && x < SCREEN_WIDTH && y >= 0 && y < SCREEN_HEIGHT
}

/// Bit `c` of a sprite row byte, from the most significant bit.
fn bit_at(b: u8, c: usize) -> (r: u8)
    requires
        c < 8,
    ensures
        r == row_bit(b, c as int),
{
    let sh: u8 = (7 - c) as u8;
    (b >> sh) & 1
}

impl Video {
    /// A display with every pixel off.
    pub fn new() -> (v: Video)
        ensures
            grid_wf(v.ram@),
            forall|i: int| 0 <= i < 2048 ==> v.ram@[i] == 0,
    {
        let mut ram: Vec<u8> = Vec::new();
        let mut k: usize = 0;
        while k < 2048
            invariant
                k <= 2048,
                ram@.len() == k,
                forall|i: int| 0 <= i < k ==> ram@[i] == 0,
            decreases 2048 - k,
        {
            ram.push(0);
            k = k + 1;
        }
        Video { ram }
    }

    /// XOR the sprite into the grid at origin `(x, y)`, clipping at the
    /// display edges, and report whether any lit pixel was turned off.
    pub fn draw(&mut self, sprite: &[u8], x: i32, y: i32) -> (collision: u8)
        requires
            grid_wf(old(self).ram@),
            0 <= x <= 255,
            0 <= y <= 255,
            sprite@.len() <= 15,
        ensures
            final(self).ram@ == draw_grid(old(self).ram@, sprite@, x as int, y as int),
            collision == (if draw_collision(old(self).ram@, sprite@, x as int, y as int) {
                1u8
            } else {
                0u8
            }),
    {
        let ghost g0 = self.ram@;
        let ghost xs = x as int;
        let ghost ys = y as int;
        let mut result: u8 = 0;
        let mut r: usize = 0;
        proof {
            assert forall|i: int| 0 <= i < 2048 && i / 64 < ys implies g0[i] ^ sprite_bit(
                sprite@,
                xs,
                ys,
                i % 64,
                i / 64,
            ) == g0[i] by {
                assert(sprite_bit(sprite@, xs, ys, i % 64, i / 64) == 0);
                lemma_xor_zero(g0[i]);
            }
        }
        while r < sprite.len()
            invariant
                grid_wf(g0),
                0 <= x <= 255,
                0 <= y <= 255,
                sprite@.len() <= 15,
                xs == x as int,
                ys == y as int,
                r <= sprite@.len(),
                self.ram@.len() == 2048,
                forall|i: int|
                    0 <= i < 2048 ==> self.ram@[i] == (if i / 64 < ys + r {
                        g0[i] ^ sprite_bit(sprite@, xs, ys, i % 64, i / 64)
                    } else {
                        g0[i]
                    }),
                result == 0 || result == 1,
                result == 1 <==> exists|px: int, py: int|
                    0 <= px < 64 && 0 <= py < 32 && py < ys + r && g0[py * 64 + px] != 0
                        && #[trigger] sprite_bit(sprite@, xs, ys, px, py) == 1,
            decreases sprite@.len() - r,
        {
            let byte = sprite[r];
            let mut c: usize = 0;
            proof {
                assert forall|i: int| 0 <= i < 2048 && i / 64 == ys + r && i % 64 < xs implies g0[i]
                    ^ sprite_bit(sprite@, xs, ys, i % 64, i / 64) == g0[i] by {
                    assert(sprite_bit(sprite@, xs, ys, i % 64, i / 64) == 0);
                    lemma_xor_zero(g0[i]);
                }
            }
            while c < 8
                invariant
                    grid_wf(g0),
                    0 <= x <= 255,
                    0 <= y <= 255,
                    sprite@.len() <= 15,
                    xs == x as int,
                    ys == y as int,
                    r < sprite@.len(),
                    byte == sprite@[r as int],
                    c <= 8,
                    self.ram@.len() == 2048,
                    forall|i: int|
                        0 <= i < 2048 ==> self.ram@[i] == (if i / 64 < ys + r || (i / 64 == ys + r
                            && i % 64 < xs + c) {
                            g0[i] ^ sprite_bit(sprite@, xs, ys, i % 64, i / 64)
                        } else {
                            g0[i]
                        }),
                    result == 0 || result == 1,
                    result == 1 <==> exists|px: int, py: int|
                        0 <= px < 64 && 0 <= py < 32 && (py < ys + r || (py == ys + r && px < xs
                            + c)) && g0[py * 64 + px] != 0 && #[trigger] sprite_bit(
                            sprite@,
                            xs,
                            ys,
                            px,
                            py,
                        ) == 1,
                decreases 8 - c,
            {
                let px = x + c as i32;
                let py = y + r as i32;
                if in_bounds(px, py) {
                    let idx = map_idx(px, py);
                    let val = bit_at(byte, c);
                    proof {
                        assert(idx == (py as int) * 64 + (px as int));
                        assert(idx as int % 64 == px as int && idx as int / 64 == py as int)
                            by (nonlinear_arith)
                            requires
                                idx == (py as int) * 64 + (px as int),
                                0 <= px < 64,
                                0 <= py < 32,
                        ;
                        assert(sprite_bit(sprite@, xs, ys, px as int, py as int) == row_bit(
                            sprite@[r as int],
                            c as int,
                        ));
                        lemma_sprite_bit_01(sprite@, xs, ys, px as int, py as int);
                        assert(self.ram@[idx as int] == g0[idx as int]);
                    }
                    if self.ram[idx] != 0 && val != 0 {
                        result = 1;
                        proof {
                            assert(0 <= (px as int) && (px as int) < 64 && 0 <= (py as int) && (
                            py as int) < 32 && ((py as int) == ys + r) && ((px as int) < xs + c + 1)
                                && g0[(py as int) * 64 + (px as int)] != 0 && sprite_bit(
                                sprite@,
                                xs,
                                ys,
                                px as int,
                                py as int,
                            ) == 1);
                        }
                    }
                    let cell = self.ram[idx];
                    self.ram[idx] = cell ^ val;
                } else {
                    proof {
                        lemma_sprite_bit_01(sprite@, xs, ys, xs + c, ys + r);
                    }
                }
                c = c + 1;
            }
            r = r + 1;
            proof {
                assert forall|i: int| 0 <= i < 2048 implies self.ram@[i] == (if i / 64 < ys + r {
                    g0[i] ^ sprite_bit(sprite@, xs, ys, i % 64, i / 64)
                } else {
                    g0[i]
                }) by {
                    if i / 64 == ys + r - 1 && i % 64 >= xs + 8 {
                        assert(sprite_bit(sprite@, xs, ys, i % 64, i / 64) == 0);
                        lemma_xor_zero(g0[i]);
                    }
                }
            }
        }
        proof {
            assert(self.ram@ =~= draw_grid(g0, sprite@, xs, ys)) by {
                assert forall|i: int| 0 <= i < 2048 implies self.ram@[i] == g0[i] ^ sprite_bit(
                    sprite@,
                    xs,
                    ys,
                    i % 64,
                    i / 64,
                ) by {
                    if !(i / 64 < ys + sprite@.len()) {
                        assert(sprite_bit(sprite@, xs, ys, i % 64, i / 64) == 0);
                        lemma_xor_zero(g0[i]);
                    }
                }
            }
        }
        result
    }

    /// Turn every pixel off.
    pub fn clear(&mut self)
        requires
            grid_wf(old(self).ram@),
        ensures
            grid_wf(final(self).ram@),
            forall|i: int| 0 <= i < 2048 ==> final(self).ram@[i] == 0,
    {
        let mut k: usize = 0;
        while k < 2048
            invariant
                k <= 2048,
                self.ram@.len() == 2048,
                forall|i: int| 0 <= i < k ==> self.ram@[i] == 0,
            decreases 2048 - k,
        {
            self.ram[k] = 0;
            k = k + 1;
        }
    }

    /// The frame as one glyph per cell, row-major: '#' for an on pixel,
    /// '.' for an off one. The host paints these onto its character grid.
    pub fn render(&self) -> (frame: Vec<char>)
        requires
            grid_wf(self.ram@),
        ensures
            frame@.len() == 2048,
            forall|i: int|
                0 <= i < 2048 ==> frame@[i] == (if self.ram@[i] == 0 {
                    '.'
                } else {
                    '#'
                }),
    {
        let mut frame: Vec<char> = Vec::new();
        let mut k: usize = 0;
        while k < 2048
            invariant
                k <= 2048,
                self.ram@.len() == 2048,
                frame@.len() == k,
                forall|i: int|
                    0 <= i < k ==> frame@[i] == (if self.ram@[i] == 0 {
                        '.'
                    } else {
                        '#'
                    }),
            decreases 2048 - k,
        {
            if self.ram[k] == 0 {
                frame.push('.');
            } else {
                frame.push('#');
            }
            k = k + 1;
        }
        frame
    }
}

} // verus!
