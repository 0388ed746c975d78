//! The laws the engine obeys, stated over the specification-level machine
//! and display models and proved once and for all.

use vstd::prelude::*;

use crate::cpu::CpuView;
use crate::cpu::cpu_wf;
use crate::cpu::press_spec;
use crate::cpu::step_enabled;
use crate::cpu::step_spec;
use crate::op::Op;
use crate::op::op_wf;
use crate::video::draw_collision;
use crate::video::draw_grid;
use crate::video::grid_wf;
use crate::video::lemma_sprite_bit_01;
use crate::video::lemma_xor_twice;
use crate::video::lemma_xor_zero;
use crate::video::sprite_bit;

verus! {

/// Every well-formed machine state keeps SP within the sixteen stack slots
/// and every register within its width: V registers and DT are bytes, I is
/// sixteen bits.
pub proof fn lemma_state_ranges(c: CpuView)
    requires
        cpu_wf(c),
    ensures
        0 <= c.sp <= 16,
        forall|k: int| 0 <= k < 16 ==> 0 <= #[trigger] c.v[k] <= 255,
        0 <= c.i <= 65535,
        0 <= c.dt <= 255,
{
}

/// A step from a well-formed state on an enabled opcode leaves the state
/// well-formed, whatever byte the random source produced: well-formedness
/// is an invariant of every reachable state.
pub proof fn lemma_step_preserves_wf(c: CpuView, op: Op, rnd: u8)
    requires
        cpu_wf(c),
        op_wf(op),
        step_enabled(c, op),
    ensures
        cpu_wf(step_spec(c, op, rnd)),
{
}

/// A key press from a well-formed state leaves the state well-formed.
pub proof fn lemma_press_preserves_wf(c: CpuView, key: u8)
    requires
        cpu_wf(c),
        key < 16,
    ensures
        cpu_wf(press_spec(c, key)),
{
}

/// After `LD F, Vx` the index register points at one of the sixteen
/// five-byte font glyphs: an address among 0x050, 0x055, ..., 0x0A5.
pub proof fn lemma_font_index(c: CpuView, x: usize, rnd: u8)
    requires
        cpu_wf(c),
        x < 16,
        step_enabled(c, Op::LD_F_Vx { x }),
    ensures
        0x050 <= step_spec(c, Op::LD_F_Vx { x }, rnd).i <= 0x0A5,
        (step_spec(c, Op::LD_F_Vx { x }, rnd).i - 0x050) % 5 == 0,
{
}

/// After any DRW, VF is 0 or 1, and is 1 exactly when some lit pixel
/// received a sprite bit, that is, was turned off by the XOR.
pub proof fn lemma_draw_flag(c: CpuView, x: usize, y: usize, n: u8, rnd: u8)
    requires
        cpu_wf(c),
        op_wf(Op::DRW_Vx_Vy_nibble { x, y, n }),
        step_enabled(c, Op::DRW_Vx_Vy_nibble { x, y, n }),
    ensures
        ({
            let c2 = step_spec(c, Op::DRW_Vx_Vy_nibble { x, y, n }, rnd);
            &&& (c2.v[15] == 0 || c2.v[15] == 1)
            &&& (c2.v[15] == 1 <==> draw_collision(
                c.video,
                c.ram.subrange(c.i as int, c.i + n),
                c.v[x as int] as int,
                c.v[y as int] as int,
            ))
        }),
{
}

/// The wait-key protocol: `LD Vx, K` leaves the machine waiting on register
/// x, a `press` answers it by storing the key there and clearing the latch,
/// and a `press` while not waiting leaves the registers alone.
pub proof fn lemma_wait_key(c: CpuView, x: usize, key: u8, rnd: u8)
    requires
        cpu_wf(c),
        x < 16,
        key < 16,
        step_enabled(c, Op::LD_Vx_K { x }),
    ensures
        step_spec(c, Op::LD_Vx_K { x }, rnd).wait_key == x,
        step_spec(c, Op::LD_Vx_K { x }, rnd).wait_key != 0xff,
        press_spec(step_spec(c, Op::LD_Vx_K { x }, rnd), key).wait_key == 0xff,
        press_spec(step_spec(c, Op::LD_Vx_K { x }, rnd), key).v[x as int] == key,
        c.wait_key == 0xff ==> press_spec(c, key).wait_key == 0xff && press_spec(c, key).v == c.v,
{
}

/// No instruction other than `LD Vx, K` touches the wait latch, so the
/// machine reports waiting exactly between a `LD Vx, K` and the `press`
/// that answers it.
pub proof fn lemma_only_ld_k_sets_the_latch(c: CpuView, op: Op, rnd: u8)
    requires
        cpu_wf(c),
        op_wf(op),
        step_enabled(c, op),
        !(op matches Op::LD_Vx_K { .. }),
    ensures
        step_spec(c, op, rnd).wait_key == c.wait_key,
{
}

/// CLS leaves every pixel off, and a second CLS does not change the
/// display further.
pub proof fn lemma_cls_twice(c: CpuView, rnd: u8, rnd2: u8)
    requires
        cpu_wf(c),
        step_enabled(c, Op::CLS {  }),
    ensures
        forall|i: int| 0 <= i < 2048 ==> step_spec(c, Op::CLS {  }, rnd).video[i] == 0,
        step_spec(step_spec(c, Op::CLS {  }, rnd), Op::CLS {  }, rnd2).video == step_spec(
            c,
            Op::CLS {  },
            rnd,
        ).video,
{
    assert(step_spec(step_spec(c, Op::CLS {  }, rnd), Op::CLS {  }, rnd2).video =~= step_spec(
        c,
        Op::CLS {  },
        rnd,
    ).video);
}

/// A cell outside the sprite's rectangle is untouched by a draw: the blit
/// clips at the display edges and writes nowhere else.
pub proof fn lemma_draw_clips(g: Seq<u8>, s: Seq<u8>, x: int, y: int, px: int, py: int)
    requires
        grid_wf(g),
        0 <= px < 64,
        0 <= py < 32,
        !(x <= px < x + 8 && y <= py < y + s.len()),
    ensures
        draw_grid(g, s, x, y)[py * 64 + px] == g[py * 64 + px],
{
    lemma_row_major(px, py);
    assert(sprite_bit(s, x, y, px, py) == 0);
    lemma_xor_zero(g[py * 64 + px]);
}

/// A row-major index decomposes back into its coordinates.
proof fn lemma_row_major(px: int, py: int)
    requires
        0 <= px < 64,
        0 <= py < 32,
    ensures
        (py * 64 + px) % 64 == px,
        (py * 64 + px) / 64 == py,
        0 <= py * 64 + px < 2048,
{
    assert((py * 64 + px) % 64 == px && (py * 64 + px) / 64 == py) by (nonlinear_arith)
        requires
            0 <= px < 64,
            0 <= py < 32,
    ;
}

/// XOR with 1 flips a boolean pixel.
proof fn lemma_xor_one(a: u8)
    requires
        a == 0 || a == 1,
    ensures
        a ^ 1 == (if a == 0 {
            1u8
        } else {
            0u8
        }),
{
    assert(0u8 ^ 1 == 1 && 1u8 ^ 1 == 0) by (bit_vector);
}

/// XOR drawing is an involution: drawing the same sprite at the same origin
/// twice restores the display exactly, and the second draw reports a
/// collision precisely when the first draw turned some pixel on.
pub proof fn lemma_draw_involution(g: Seq<u8>, s: Seq<u8>, x: int, y: int)
    requires
        grid_wf(g),
        forall|i: int| 0 <= i < 2048 ==> g[i] == 0 || g[i] == 1,
    ensures
        draw_grid(draw_grid(g, s, x, y), s, x, y) == g,
        draw_collision(draw_grid(g, s, x, y), s, x, y) <==> exists|px: int, py: int|
            0 <= px < 64 && 0 <= py < 32 && g[py * 64 + px] == 0 && #[trigger] sprite_bit(
                s,
                x,
                y,
                px,
                py,
            ) == 1,
{
    let g1 = draw_grid(g, s, x, y);
    assert(draw_grid(g1, s, x, y) =~= g) by {
        assert forall|i: int| 0 <= i < 2048 implies draw_grid(g1, s, x, y)[i] == g[i] by {
            lemma_xor_twice(g[i], sprite_bit(s, x, y, i % 64, i / 64));
        }
    }
    if draw_collision(g1, s, x, y) {
        let (px, py) = choose|px: int, py: int|
            0 <= px < 64 && 0 <= py < 32 && g1[py * 64 + px] != 0 && #[trigger] sprite_bit(
                s,
                x,
                y,
                px,
                py,
            ) == 1;
        lemma_row_major(px, py);
        lemma_sprite_bit_01(s, x, y, px, py);
        lemma_xor_one(g[py * 64 + px]);
        assert(g[py * 64 + px] == 0 && sprite_bit(s, x, y, px, py) == 1);
    }
    if exists|px: int, py: int|
        0 <= px < 64 && 0 <= py < 32 && g[py * 64 + px] == 0 && #[trigger] sprite_bit(
            s,
            x,
            y,
            px,
            py,
        ) == 1 {
        let (px, py) = choose|px: int, py: int|
            0 <= px < 64 && 0 <= py < 32 && g[py * 64 + px] == 0 && #[trigger] sprite_bit(
                s,
                x,
                y,
                px,
                py,
            ) == 1;
        lemma_row_major(px, py);
        lemma_xor_one(g[py * 64 + px]);
        assert(g1[py * 64 + px] != 0 && sprite_bit(s, x, y, px, py) == 1);
    }
}

} // verus!
