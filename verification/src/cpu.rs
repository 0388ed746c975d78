//! The virtual-machine execution engine: RAM, registers, call stack, timers,
//! the key latch, and the instruction semantics of `step`.

use vstd::prelude::*;

use rand::Rng;

use vstd::string::StringExecFns;

use crate::op::Op;
use crate::op::hex4;
use crate::op::op_wf;
use crate::op::push_hex4;
use crate::op::spec_decode;
use crate::op::spec_format;
use crate::video::Video;
use crate::video::draw_collision;
use crate::video::draw_grid;
use crate::video::grid_wf;

verus! {

pub const FONTSET_BASE: usize = 0x050;

pub const PROGRAM_BASE: usize = 0x200;

/// The abstract machine state: every contract on `Cpu` speaks of this view.
#[verifier::ext_equal]
pub struct CpuView {
    /// The 4096 bytes of RAM.
    pub ram: Seq<u8>,
    /// The sixteen general registers V0..VF.
    pub v: Seq<u8>,
    /// The index register I.
    pub i: u16,
    /// The program counter.
    pub pc: usize,
    /// The sixteen call-stack slots.
    pub stack: Seq<usize>,
    /// The stack pointer: the next free slot.
    pub sp: usize,
    /// The delay timer.
    pub dt: u8,
    /// The currently pressed key, or 0xff for none.
    pub key: u8,
    /// The register index awaiting a key press, or 0xff for none.
    pub wait_key: usize,
    /// The display grid, row-major.
    pub video: Seq<u8>,
}

/// Well-formedness of a machine state: the sizes are fixed, SP stays within
/// the sixteen stack slots, the wait latch holds a register index or the
/// "not waiting" sentinel, and every stacked return address is a 13-bit
/// quantity.
pub open spec fn cpu_wf(c: CpuView) -> bool {
    &&& c.ram.len() == 4096
    &&& c.v.len() == 16
    &&& c.stack.len() == 16
    &&& c.sp <= 16
    &&& (c.wait_key < 16 || c.wait_key == 0xff)
    &&& grid_wf(c.video)
    &&& forall|k: int| 0 <= k < 16 ==> c.stack[k] < 8192
}

/// The big-endian instruction word at address `pc`.
pub open spec fn word_at(ram: Seq<u8>, pc: int) -> u16 {
    ((ram[pc] as u16) << 8) | (ram[pc + 1] as u16)
}

/// One disassembly line: the address, the word, and the mnemonic, each in
/// zero-padded lowercase hex, separated by single spaces.
pub open spec fn line_spec(addr: int, w: u16) -> Seq<char> {
    "0x"@ + hex4(addr) + " 0x"@ + hex4(w as int) + " "@ + spec_format(spec_decode(w))
}

/// The state after the delay timer's once-per-step decrement.
pub open spec fn tick_dt(c: CpuView) -> CpuView {
    CpuView { dt: if c.dt > 0 { (c.dt - 1) as u8 } else { 0u8 }, ..c }
}

/// Whether `step` may execute `op` from state `c`: the opcode is recognized,
/// PC is a RAM address, a CALL has a free stack slot, a RET has a pushed
/// return address, and every memory access stays inside RAM.
pub open spec fn step_enabled(c: CpuView, op: Op) -> bool {
    &&& c.pc < 4096
    &&& match op {
        Op::CALL_addr { nnn } => c.sp < 16,
        Op::RET {  } => c.sp > 0,
        Op::DRW_Vx_Vy_nibble { x, y, n } => c.i + n <= 4096,
        Op::LD_B_Vx { x } => c.i + 3 <= 4096,
        Op::LD_I_Vx { x } => c.i + x <= 4096,
        Op::LD_Vx_I { x } => c.i + x <= 4096,
        Op::UNKNOWN {  } => false,
        _ => true,
    }
}

/// The state after executing `op` from `c` (with the delay timer already
/// ticked). `rnd` stands for the byte the random source produced; only the
/// RND instruction reads it. Flag writes happen before result writes, so an
/// instruction whose destination or source is VF observes the documented
/// ordering.
pub open spec fn exec_op(c: CpuView, op: Op, rnd: u8) -> CpuView {
    match op {
        Op::LD_Vx_byte { x, nn } => CpuView {
            v: c.v.update(x as int, nn),
            pc: (c.pc + 2) as usize,
            ..c
        },
        Op::ADD_Vx_byte { x, nn } => CpuView {
            v: c.v.update(x as int, ((c.v[x as int] + nn) % 256) as u8),
            pc: (c.pc + 2) as usize,
            ..c
        },
        Op::LD_Vx_Vy { x, y } => CpuView {
            v: c.v.update(x as int, c.v[y as int]),
            pc: (c.pc + 2) as usize,
            ..c
        },
        Op::ADD_Vx_Vy { x, y } => {
            let v1 = c.v.update(15, if c.v[x as int] + c.v[y as int] > 255 {
                1u8
            } else {
                0u8
            });
            CpuView {
                v: v1.update(x as int, ((v1[x as int] + v1[y as int]) % 256) as u8),
                pc: (c.pc + 2) as usize,
                ..c
            }
        },
        Op::SUB_Vx_Vy { x, y } => {
            let v1 = c.v.update(15, if c.v[x as int] >= c.v[y as int] {
                1u8
            } else {
                0u8
            });
            CpuView {
                v: v1.update(x as int, ((v1[x as int] + 256 - v1[y as int]) % 256) as u8),
                pc: (c.pc + 2) as usize,
                ..c
            }
        },
        Op::SUBN_Vx_Vy { x, y } => {
            let v1 = c.v.update(15, if c.v[y as int] >= c.v[x as int] {
                1u8
            } else {
                0u8
            });
            CpuView {
                v: v1.update(y as int, ((v1[y as int] + 256 - v1[x as int]) % 256) as u8),
                pc: (c.pc + 2) as usize,
                ..c
            }
        },
        Op::AND_Vx_Vy { x, y } => CpuView {
            v: c.v.update(x as int, c.v[x as int] & c.v[y as int]),
            pc: (c.pc + 2) as usize,
            ..c
        },
        Op::OR_Vx_Vy { x, y } => CpuView {
            v: c.v.update(x as int, c.v[x as int] | c.v[y as int]),
            pc: (c.pc + 2) as usize,
            ..c
        },
        Op::XOR_Vx_Vy { x, y } => CpuView {
            v: c.v.update(x as int, c.v[x as int] ^ c.v[y as int]),
            pc: (c.pc + 2) as usize,
            ..c
        },
        Op::SHR_Vx_Vy { x, y } => {
            let v1 = c.v.update(15, c.v[y as int] % 2);
            CpuView {
                v: v1.update(x as int, v1[y as int] / 2),
                pc: (c.pc + 2) as usize,
                ..c
            }
        },
        Op::SHL_Vx_Vy { x, y } => {
            let v1 = c.v.update(15, c.v[y as int] / 128);
            CpuView {
                v: v1.update(x as int, ((v1[y as int] * 2) % 256) as u8),
                pc: (c.pc + 2) as usize,
                ..c
            }
        },
        Op::RND_Vx_byte { x, nn } => CpuView {
            v: c.v.update(x as int, rnd & nn),
            pc: (c.pc + 2) as usize,
            ..c
        },
        Op::JP_addr { nnn } => CpuView { pc: nnn, ..c },
        Op::JP_V0_addr { nnn } => CpuView { pc: (nnn + c.v[0]) as usize, ..c },
        Op::CALL_addr { nnn } => CpuView {
            stack: c.stack.update(c.sp as int, (c.pc + 2) as usize),
            sp: (c.sp + 1) as usize,
            pc: nnn,
            ..c
        },
        Op::RET {  } => CpuView {
            sp: (c.sp - 1) as usize,
            pc: c.stack[c.sp - 1],
            ..c
        },
        Op::SE_Vx_byte { x, nn } => CpuView {
            pc: if c.v[x as int] == nn {
                (c.pc + 4) as usize
            } else {
                (c.pc + 2) as usize
            },
            ..c
        },
        Op::SE_Vx_Vy { x, y } => CpuView {
            pc: if c.v[x as int] == c.v[y as int] {
                (c.pc + 4) as usize
            } else {
                (c.pc + 2) as usize
            },
            ..c
        },
        Op::SNE_Vx_byte { x, nn } => CpuView {
            pc: if c.v[x as int] == nn {
                (c.pc + 2) as usize
            } else {
                (c.pc + 4) as usize
            },
            ..c
        },
        Op::SNE_Vx_Vy { x, y } => CpuView {
            pc: if c.v[x as int] == c.v[y as int] {
                (c.pc + 2) as usize
            } else {
                (c.pc + 4) as usize
            },
            ..c
        },
        Op::LD_DT_Vx { x } => CpuView { dt: c.v[x as int], pc: (c.pc + 2) as usize, ..c },
        Op::LD_Vx_DT { x } => CpuView {
            v: c.v.update(x as int, c.dt),
            pc: (c.pc + 2) as usize,
            ..c
        },
        Op::LD_ST_Vx { x } => CpuView { pc: (c.pc + 2) as usize, ..c },
        Op::LD_Vx_K { x } => CpuView { wait_key: x, pc: (c.pc + 2) as usize, ..c },
        Op::SKP_Vx { x } => CpuView {
            pc: if c.v[x as int] == c.key {
                (c.pc + 4) as usize
            } else {
                (c.pc + 2) as usize
            },
            ..c
        },
        Op::SKNP_Vx { x } => CpuView {
            pc: if c.v[x as int] == c.key {
                (c.pc + 2) as usize
            } else {
                (c.pc + 4) as usize
            },
            ..c
        },
        Op::LD_I_addr { nnn } => CpuView { i: nnn as u16, pc: (c.pc + 2) as usize, ..c },
        Op::ADD_I_Vx { x } => {
            let v1 = c.v.update(15, if c.i + c.v[x as int] > 65535 {
                1u8
            } else {
                0u8
            });
            CpuView {
                v: v1,
                i: ((c.i + v1[x as int]) % 65536) as u16,
                pc: (c.pc + 2) as usize,
                ..c
            }
        },
        Op::DRW_Vx_Vy_nibble { x, y, n } => {
            let spr = c.ram.subrange(c.i as int, c.i + n);
            let hit = draw_collision(c.video, spr, c.v[x as int] as int, c.v[y as int] as int);
            CpuView {
                video: draw_grid(c.video, spr, c.v[x as int] as int, c.v[y as int] as int),
                v: c.v.update(15, if hit {
                    1u8
                } else {
                    0u8
                }),
                pc: (c.pc + 2) as usize,
                ..c
            }
        },
        Op::CLS {  } => CpuView {
            video: Seq::new(2048, |i: int| 0u8),
            pc: (c.pc + 2) as usize,
            ..c
        },
        Op::LD_F_Vx { x } => CpuView {
            i: (0x050 + (c.v[x as int] % 16) * 5) as u16,
            pc: (c.pc + 2) as usize,
            ..c
        },
        Op::LD_B_Vx { x } => {
            let val = c.v[x as int];
            CpuView {
                ram: c.ram.update(c.i + 2, (val % 10) as u8).update(
                    c.i + 1,
                    ((val / 10) % 10) as u8,
                ).update(c.i as int, ((val / 100) % 10) as u8),
                pc: (c.pc + 2) as usize,
                ..c
            }
        },
        Op::LD_I_Vx { x } => CpuView {
            ram: Seq::new(
                c.ram.len(),
                |a: int|
                    if c.i <= a < c.i + x {
                        c.v[a - c.i]
                    } else {
                        c.ram[a]
                    },
            ),
            pc: (c.pc + 2) as usize,
            ..c
        },
        Op::LD_Vx_I { x } => CpuView {
            v: Seq::new(
                16,
                |k: int|
                    if k < x {
                        c.ram[c.i + k]
                    } else {
                        c.v[k]
                    },
            ),
            pc: (c.pc + 2) as usize,
            ..c
        },
        Op::UNKNOWN {  } => c,
    }
}

/// One whole step: the delay timer ticks, then `op` executes.
pub open spec fn step_spec(c: CpuView, op: Op, rnd: u8) -> CpuView {
    exec_op(tick_dt(c), op, rnd)
}

/// Whether an opcode is the random-byte instruction, the one instruction
/// whose outcome is not a function of the machine state alone.
pub open spec fn is_rnd(op: Op) -> bool {
    op matches Op::RND_Vx_byte { .. }
}

/// The state `press(key)` leads to: the pressed-key latch always takes the
/// key; if a `LD Vx, K` is pending, the key is also stored into that
/// register and the wait latch is cleared.
pub open spec fn press_spec(c: CpuView, key: u8) -> CpuView {
    if c.wait_key != 0xff {
        CpuView { v: c.v.update(c.wait_key as int, key), wait_key: 0xff, key, ..c }
    } else {
        CpuView { key, ..c }
    }
}

/// The engine: RAM, registers, stack, timers, key latches, and the display
/// it owns.
#[derive(Debug)]
pub struct Cpu {
    pub video: Video,
    ram: Vec<u8>,
    v: Vec<u8>,
    i: u16,
    pc: usize,
    stack: Vec<usize>,
    sp: usize,
    dt: u8,
    key: u8,
    wait_key: usize,
}

impl View for Cpu {
    type V = CpuView;

    closed spec fn view(&self) -> CpuView {
        CpuView {
            ram: self.ram@,
            v: self.v@,
            i: self.i,
            pc: self.pc,
            stack: self.stack@,
            sp: self.sp,
            dt: self.dt,
            key: self.key,
            wait_key: self.wait_key,
            video: self.video.ram@,
        }
    }
}

/// The canonical CHIP-8 hex font: sixteen 5-byte glyphs for the digits 0..F.
pub open spec fn font_seq() -> Seq<u8> {
    seq![
        0xF0u8, 0x90, 0x90, 0x90, 0xF0,
        0x20, 0x60, 0x20, 0x20, 0x70,
        0xF0, 0x10, 0xF0, 0x80, 0xF0,
        0xF0, 0x10, 0xF0, 0x10, 0xF0,
        0x90, 0x90, 0xF0, 0x10, 0x10,
        0xF0, 0x80, 0xF0, 0x10, 0xF0,
        0xF0, 0x80, 0xF0, 0x90, 0xF0,
        0xF0, 0x10, 0x20, 0x40, 0x40,
        0xF0, 0x90, 0xF0, 0x90, 0xF0,
        0xF0, 0x90, 0xF0, 0x10, 0xF0,
        0xF0, 0x90, 0xF0, 0x90, 0x90,
        0xE0, 0x90, 0xE0, 0x90, 0xE0,
        0xF0, 0x80, 0x80, 0x80, 0xF0,
        0xE0, 0x90, 0x90, 0x90, 0xE0,
        0xF0, 0x80, 0xF0, 0x80, 0xF0,
        0xF0, 0x80, 0xF0, 0x80, 0x80,
    ]
}

/// The machine state right after construction: font at 0x050, the program
/// image at 0x200, PC at the program base, everything else zeroed or idle.
pub open spec fn initial_cpu(prog: Seq<u8>) -> CpuView {
    CpuView {
        ram: Seq::new(
            4096,
            |a: int|
                if 0x050 <= a < 0x0A0 {
                    font_seq()[a - 0x050]
                } else if 0x200 <= a < 0x200 + prog.len() {
                    prog[a - 0x200]
                } else {
                    0u8
                },
        ),
        v: Seq::new(16, |k: int| 0u8),
        i: 0,
        pc: 0x200,
        stack: Seq::new(16, |k: int| 0usize),
        sp: 0,
        dt: 0,
        key: 0xff,
        wait_key: 0xff,
        video: Seq::new(2048, |k: int| 0u8),
    }
}

/// Relies on rand::thread_rng and rand::Rng::gen for a uniformly
/// distributed byte; nothing can be promised of the value drawn.
#[verifier::external_body]
fn random_byte() -> u8 {
    rand::thread_rng().gen()
}

/// A vector of `n` zeroed stack slots.
fn zero_slots(n: usize) -> (v: Vec<usize>)
    ensures
        v@.len() == n,
        forall|k: int| 0 <= k < n ==> v@[k] == 0,
{
    let mut v: Vec<usize> = Vec::new();
    let mut k: usize = 0;
    while k < n
        invariant
            k <= n,
            v@.len() == k,
            forall|j: int| 0 <= j < k ==> v@[j] == 0,
        decreases n - k,
    {
        v.push(0);
        k = k + 1;
    }
    v
}

/// A vector of `n` zero bytes.
fn zero_bytes(n: usize) -> (v: Vec<u8>)
    ensures
        v@.len() == n,
        forall|k: int| 0 <= k < n ==> v@[k] == 0,
{
    let mut v: Vec<u8> = Vec::new();
    let mut k: usize = 0;
    while k < n
        invariant
            k <= n,
            v@.len() == k,
            forall|j: int| 0 <= j < k ==> v@[j] == 0,
        decreases n - k,
    {
        v.push(0);
        k = k + 1;
    }
    v
}

/// The font table as bytes, equal to `font_seq`.
fn font_table() -> (t: Vec<u8>)
    ensures
        t@ == font_seq(),
{
    let mut t: Vec<u8> = Vec::new();
    t.push(0xF0); t.push(0x90); t.push(0x90); t.push(0x90); t.push(0xF0);
    t.push(0x20); t.push(0x60); t.push(0x20); t.push(0x20); t.push(0x70);
    t.push(0xF0); t.push(0x10); t.push(0xF0); t.push(0x80); t.push(0xF0);
    t.push(0xF0); t.push(0x10); t.push(0xF0); t.push(0x10); t.push(0xF0);
    t.push(0x90); t.push(0x90); t.push(0xF0); t.push(0x10); t.push(0x10);
    t.push(0xF0); t.push(0x80); t.push(0xF0); t.push(0x10); t.push(0xF0);
    t.push(0xF0); t.push(0x80); t.push(0xF0); t.push(0x90); t.push(0xF0);
    t.push(0xF0); t.push(0x10); t.push(0x20); t.push(0x40); t.push(0x40);
    t.push(0xF0); t.push(0x90); t.push(0xF0); t.push(0x90); t.push(0xF0);
    t.push(0xF0); t.push(0x90); t.push(0xF0); t.push(0x10); t.push(0xF0);
    t.push(0xF0); t.push(0x90); t.push(0xF0); t.push(0x90); t.push(0x90);
    t.push(0xE0); t.push(0x90); t.push(0xE0); t.push(0x90); t.push(0xE0);
    t.push(0xF0); t.push(0x80); t.push(0x80); t.push(0x80); t.push(0xF0);
    t.push(0xE0); t.push(0x90); t.push(0x90); t.push(0x90); t.push(0xE0);
    t.push(0xF0); t.push(0x80); t.push(0xF0); t.push(0x80); t.push(0xF0);
    t.push(0xF0); t.push(0x80); t.push(0xF0); t.push(0x80); t.push(0x80);
    proof {
        assert(t@ =~= font_seq());
    }
    t
}

impl Cpu {
    /// A fresh machine with `program` loaded at 0x200 and the hex font at
    /// 0x050.
    pub fn new(program: &[u8]) -> (cpu: Cpu)
        requires
            program@.len() <= 3584,
        ensures
            cpu@ == initial_cpu(program@),
            cpu_wf(cpu@),
    {
        let mut cpu = Cpu {
            ram: zero_bytes(4096),
            v: zero_bytes(16),
            i: 0,
            pc: 0,
            stack: zero_slots(16),
            sp: 0,
            dt: 0,
            video: Video::new(),
            key: 0xff,
            wait_key: 0xff,
        };
        let font = font_table();
        cpu.load(font.as_slice(), FONTSET_BASE);
        cpu.load(program, PROGRAM_BASE);
        cpu.pc = PROGRAM_BASE;
        proof {
            assert(cpu@ =~= initial_cpu(program@));
        }
        cpu
    }

    /// Copy `data` into RAM starting at `base`; nothing else changes.
    fn load(&mut self, data: &[u8], base: usize)
        requires
            old(self)@.ram.len() == 4096,
            base + data@.len() <= 4096,
        ensures
            final(self)@ == (CpuView {
                ram: Seq::new(
                    old(self)@.ram.len(),
                    |a: int|
                        if base <= a < base + data@.len() {
                            data@[a - base]
                        } else {
                            old(self)@.ram[a]
                        },
                ),
                ..old(self)@
            }),
    {
        let mut k: usize = 0;
        while k < data.len()
            invariant
                base + data@.len() <= 4096,
                old(self)@.ram.len() == 4096,
                k <= data@.len(),
                self@.ram.len() == old(self)@.ram.len(),
                forall|a: int|
                    0 <= a < self@.ram.len() ==> self@.ram[a] == (if base <= a < base + k {
                        data@[a - base]
                    } else {
                        old(self)@.ram[a]
                    }),
                self@.v == old(self)@.v,
                self@.i == old(self)@.i,
                self@.pc == old(self)@.pc,
                self@.stack == old(self)@.stack,
                self@.sp == old(self)@.sp,
                self@.dt == old(self)@.dt,
                self@.key == old(self)@.key,
                self@.wait_key == old(self)@.wait_key,
                self@.video == old(self)@.video,
            decreases data@.len() - k,
        {
            self.ram[base + k] = data[k];
            k = k + 1;
        }
        proof {
            assert(self@ =~= (CpuView {
                ram: Seq::new(
                    old(self)@.ram.len(),
                    |a: int|
                        if base <= a < base + data@.len() {
                            data@[a - base]
                        } else {
                            old(self)@.ram[a]
                        },
                ),
                ..old(self)@
            }));
        }
    }

    /// Whether `step` may execute `op` from the current state: the runtime
    /// check of `step_enabled`, for drivers that must halt on a fatal
    /// condition (an unrecognized word, stack overflow or underflow, an
    /// out-of-range memory access) instead of stepping.
    pub fn can_step(&self, op: &Op) -> (r: bool)
        requires
            cpu_wf(self@),
            op_wf(*op),
        ensures
            r == step_enabled(self@, *op),
    {
        if self.pc >= 4096 {
            return false;
        }
        match *op {
            Op::CALL_addr { nnn } => self.sp < 16,
            Op::RET {  } => self.sp > 0,
            Op::DRW_Vx_Vy_nibble { x, y, n } => (self.i as usize) + (n as usize) <= 4096,
            Op::LD_B_Vx { x } => (self.i as usize) + 3 <= 4096,
            Op::LD_I_Vx { x } => (self.i as usize) + x <= 4096,
            Op::LD_Vx_I { x } => (self.i as usize) + x <= 4096,
            Op::UNKNOWN {  } => false,
            _ => true,
        }
    }

    /// Execute one instruction: the delay timer ticks once, then `op` acts
    /// on the machine exactly as `step_spec` describes. Only RND consults
    /// the random source; every other opcode's outcome is deterministic.
    #[verifier::rlimit(100)]
    pub fn step(&mut self, op: &Op)
        requires
            cpu_wf(old(self)@),
            op_wf(*op),
            step_enabled(old(self)@, *op),
        ensures
            cpu_wf(final(self)@),
            exists|r: u8| final(self)@ == step_spec(old(self)@, *op, r),
            !is_rnd(*op) ==> final(self)@ == step_spec(old(self)@, *op, 0),
    {
        if self.dt > 0 {
            self.dt = self.dt - 1;
        }
        let ghost c1 = tick_dt(old(self)@);
        proof {
            assert(self@ =~= c1);
        }
        match *op {
            Op::LD_Vx_byte { x, nn } => {
                self.v[x] = nn;
                self.pc = self.pc + 2;
                proof {
                    assert(self@ =~= exec_op(c1, *op, 0));
                    assert(self@ == step_spec(old(self)@, *op, 0));
                }
            },
            Op::ADD_Vx_byte { x, nn } => {
                let s: u16 = (self.v[x] as u16) + (nn as u16);
                self.v[x] = (s % 256) as u8;
                self.pc = self.pc + 2;
                proof {
                    assert(self@ =~= exec_op(c1, *op, 0));
                    assert(self@ == step_spec(old(self)@, *op, 0));
                }
            },
            Op::LD_Vx_Vy { x, y } => {
                self.v[x] = self.v[y];
                self.pc = self.pc + 2;
                proof {
                    assert(self@ =~= exec_op(c1, *op, 0));
                    assert(self@ == step_spec(old(self)@, *op, 0));
                }
            },
            Op::ADD_Vx_Vy { x, y } => {
                let flag: u8 = if (self.v[x] as u16) + (self.v[y] as u16) > 255 {
                    1
                } else {
                    0
                };
                self.v[15] = flag;
                let s: u16 = (self.v[x] as u16) + (self.v[y] as u16);
                self.v[x] = (s % 256) as u8;
                self.pc = self.pc + 2;
                proof {
                    assert(self@ =~= exec_op(c1, *op, 0));
                    assert(self@ == step_spec(old(self)@, *op, 0));
                }
            },
            Op::SUB_Vx_Vy { x, y } => {
                let flag: u8 = if self.v[x] >= self.v[y] {
                    1
                } else {
                    0
                };
                self.v[15] = flag;
                let d: u16 = (self.v[x] as u16) + 256 - (self.v[y] as u16);
                self.v[x] = (d % 256) as u8;
                self.pc = self.pc + 2;
                proof {
                    assert(self@ =~= exec_op(c1, *op, 0));
                    assert(self@ == step_spec(old(self)@, *op, 0));
                }
            },
            Op::SUBN_Vx_Vy { x, y } => {
                let flag: u8 = if self.v[y] >= self.v[x] {
                    1
                } else {
                    0
                };
                self.v[15] = flag;
                let d: u16 = (self.v[y] as u16) + 256 - (self.v[x] as u16);
                self.v[y] = (d % 256) as u8;
                self.pc = self.pc + 2;
                proof {
                    assert(self@ =~= exec_op(c1, *op, 0));
                    assert(self@ == step_spec(old(self)@, *op, 0));
                }
            },
            Op::AND_Vx_Vy { x, y } => {
                self.v[x] = self.v[x] & self.v[y];
                self.pc = self.pc + 2;
                proof {
                    assert(self@ =~= exec_op(c1, *op, 0));
                    assert(self@ == step_spec(old(self)@, *op, 0));
                }
            },
            Op::OR_Vx_Vy { x, y } => {
                self.v[x] = self.v[x] | self.v[y];
                self.pc = self.pc + 2;
                proof {
                    assert(self@ =~= exec_op(c1, *op, 0));
                    assert(self@ == step_spec(old(self)@, *op, 0));
                }
            },
            Op::XOR_Vx_Vy { x, y } => {
                self.v[x] = self.v[x] ^ self.v[y];
                self.pc = self.pc + 2;
                proof {
                    assert(self@ =~= exec_op(c1, *op, 0));
                    assert(self@ == step_spec(old(self)@, *op, 0));
                }
            },
            Op::SHR_Vx_Vy { x, y } => {
                self.v[15] = self.v[y] % 2;
                self.v[x] = self.v[y] / 2;
                self.pc = self.pc + 2;
                proof {
                    assert(self@ =~= exec_op(c1, *op, 0));
                    assert(self@ == step_spec(old(self)@, *op, 0));
                }
            },
            Op::SHL_Vx_Vy { x, y } => {
                self.v[15] = self.v[y] / 128;
                let p: u16 = (self.v[y] as u16) * 2;
                self.v[x] = (p % 256) as u8;
                self.pc = self.pc + 2;
                proof {
                    assert(self@ =~= exec_op(c1, *op, 0));
                    assert(self@ == step_spec(old(self)@, *op, 0));
                }
            },
            Op::RND_Vx_byte { x, nn } => {
                let rnd = random_byte();
                self.v[x] = rnd & nn;
                self.pc = self.pc + 2;
                proof {
                    assert(self@ =~= exec_op(c1, *op, rnd));
                    assert(self@ == step_spec(old(self)@, *op, rnd));
                }
            },
            Op::JP_addr { nnn } => {
                self.pc = nnn;
                proof {
                    assert(self@ =~= exec_op(c1, *op, 0));
                    assert(self@ == step_spec(old(self)@, *op, 0));
                }
            },
            Op::JP_V0_addr { nnn } => {
                self.pc = nnn + self.v[0] as usize;
                proof {
                    assert(self@ =~= exec_op(c1, *op, 0));
                    assert(self@ == step_spec(old(self)@, *op, 0));
                }
            },
            Op::CALL_addr { nnn } => {
                let ret = self.pc + 2;
                self.stack[self.sp] = ret;
                self.sp = self.sp + 1;
                self.pc = nnn;
                proof {
                    assert(self@ =~= exec_op(c1, *op, 0));
                    assert(self@ == step_spec(old(self)@, *op, 0));
                }
            },
            Op::RET {  } => {
                self.sp = self.sp - 1;
                self.pc = self.stack[self.sp];
                proof {
                    assert(self@ =~= exec_op(c1, *op, 0));
                    assert(self@ == step_spec(old(self)@, *op, 0));
                }
            },
            Op::SE_Vx_byte { x, nn } => {
                self.pc = if self.v[x] == nn {
                    self.pc + 4
                } else {
                    self.pc + 2
                };
                proof {
                    assert(self@ =~= exec_op(c1, *op, 0));
                    assert(self@ == step_spec(old(self)@, *op, 0));
                }
            },
            Op::SE_Vx_Vy { x, y } => {
                self.pc = if self.v[x] == self.v[y] {
                    self.pc + 4
                } else {
                    self.pc + 2
                };
                proof {
                    assert(self@ =~= exec_op(c1, *op, 0));
                    assert(self@ == step_spec(old(self)@, *op, 0));
                }
            },
            Op::SNE_Vx_byte { x, nn } => {
                self.pc = if self.v[x] == nn {
                    self.pc + 2
                } else {
                    self.pc + 4
                };
                proof {
                    assert(self@ =~= exec_op(c1, *op, 0));
                    assert(self@ == step_spec(old(self)@, *op, 0));
                }
            },
            Op::SNE_Vx_Vy { x, y } => {
                self.pc = if self.v[x] == self.v[y] {
                    self.pc + 2
                } else {
                    self.pc + 4
                };
                proof {
                    assert(self@ =~= exec_op(c1, *op, 0));
                    assert(self@ == step_spec(old(self)@, *op, 0));
                }
            },
            Op::LD_DT_Vx { x } => {
                self.dt = self.v[x];
                self.pc = self.pc + 2;
                proof {
                    assert(self@ =~= exec_op(c1, *op, 0));
                    assert(self@ == step_spec(old(self)@, *op, 0));
                }
            },
            Op::LD_Vx_DT { x } => {
                self.v[x] = self.dt;
                self.pc = self.pc + 2;
                proof {
                    assert(self@ =~= exec_op(c1, *op, 0));
                    assert(self@ == step_spec(old(self)@, *op, 0));
                }
            },
            Op::LD_ST_Vx { x } => {
                self.pc = self.pc + 2;
                proof {
                    assert(self@ =~= exec_op(c1, *op, 0));
                    assert(self@ == step_spec(old(self)@, *op, 0));
                }
            },
            Op::LD_Vx_K { x } => {
                self.wait_key = x;
                self.pc = self.pc + 2;
                proof {
                    assert(self@ =~= exec_op(c1, *op, 0));
                    assert(self@ == step_spec(old(self)@, *op, 0));
                }
            },
            Op::SKP_Vx { x } => {
                self.pc = if self.v[x] == self.key {
                    self.pc + 4
                } else {
                    self.pc + 2
                };
                proof {
                    assert(self@ =~= exec_op(c1, *op, 0));
                    assert(self@ == step_spec(old(self)@, *op, 0));
                }
            },
            Op::SKNP_Vx { x } => {
                self.pc = if self.v[x] == self.key {
                    self.pc + 2
                } else {
                    self.pc + 4
                };
                proof {
                    assert(self@ =~= exec_op(c1, *op, 0));
                    assert(self@ == step_spec(old(self)@, *op, 0));
                }
            },
            Op::LD_I_addr { nnn } => {
                self.i = nnn as u16;
                self.pc = self.pc + 2;
                proof {
                    assert(self@ =~= exec_op(c1, *op, 0));
                    assert(self@ == step_spec(old(self)@, *op, 0));
                }
            },
            Op::ADD_I_Vx { x } => {
                let flag: u8 = if (self.i as u32) + (self.v[x] as u32) > 65535 {
                    1
                } else {
                    0
                };
                self.v[15] = flag;
                let s: u32 = (self.i as u32) + (self.v[x] as u32);
                self.i = (s % 65536) as u16;
                self.pc = self.pc + 2;
                proof {
                    assert(self@ =~= exec_op(c1, *op, 0));
                    assert(self@ == step_spec(old(self)@, *op, 0));
                }
            },
            Op::DRW_Vx_Vy_nibble { x, y, n } => {
                let ii = self.i as usize;
                let nu = n as usize;
                let mut sprite: Vec<u8> = Vec::new();
                let mut k: usize = 0;
                while k < nu
                    invariant
                        self@ == c1,
                        cpu_wf(c1),
                        ii == c1.i,
                        nu < 16,
                        ii + nu <= 4096,
                        k <= nu,
                        sprite@.len() == k,
                        forall|j: int| 0 <= j < k ==> sprite@[j] == c1.ram[ii + j],
                    decreases nu - k,
                {
                    let b = self.ram[ii + k];
                    sprite.push(b);
                    k = k + 1;
                }
                proof {
                    assert(sprite@ =~= c1.ram.subrange(c1.i as int, c1.i + n));
                }
                let vx = self.v[x];
                let vy = self.v[y];
                let flag = self.video.draw(sprite.as_slice(), vx as i32, vy as i32);
                self.v[15] = flag;
                self.pc = self.pc + 2;
                proof {
                    assert(self@ =~= exec_op(c1, *op, 0));
                    assert(self@ == step_spec(old(self)@, *op, 0));
                }
            },
            Op::CLS {  } => {
                self.video.clear();
                self.pc = self.pc + 2;
                proof {
                    assert(self@.video =~= Seq::new(2048, |i: int| 0u8));
                    assert(self@ =~= exec_op(c1, *op, 0));
                    assert(self@ == step_spec(old(self)@, *op, 0));
                }
            },
            Op::LD_F_Vx { x } => {
                let k = self.v[x] % 16;
                self.i = 0x050u16 + (k as u16) * 5;
                self.pc = self.pc + 2;
                proof {
                    assert(self@ =~= exec_op(c1, *op, 0));
                    assert(self@ == step_spec(old(self)@, *op, 0));
                }
            },
            Op::LD_B_Vx { x } => {
                let ii = self.i as usize;
                let val = self.v[x];
                self.ram[ii + 2] = val % 10;
                self.ram[ii + 1] = (val / 10) % 10;
                self.ram[ii] = (val / 100) % 10;
                self.pc = self.pc + 2;
                proof {
                    assert(self@ =~= exec_op(c1, *op, 0));
                    assert(self@ == step_spec(old(self)@, *op, 0));
                }
            },
            Op::LD_I_Vx { x } => {
                let ii = self.i as usize;
                let mut k: usize = 0;
                while k < x
                    invariant
                        cpu_wf(c1),
                        x < 16,
                        ii == c1.i,
                        ii + x <= 4096,
                        k <= x,
                        self@.ram.len() == 4096,
                        forall|a: int|
                            0 <= a < 4096 ==> self@.ram[a] == (if ii <= a < ii + k {
                                c1.v[a - ii]
                            } else {
                                c1.ram[a]
                            }),
                        self@.v == c1.v,
                        self@.i == c1.i,
                        self@.pc == c1.pc,
                        self@.stack == c1.stack,
                        self@.sp == c1.sp,
                        self@.dt == c1.dt,
                        self@.key == c1.key,
                        self@.wait_key == c1.wait_key,
                        self@.video == c1.video,
                    decreases x - k,
                {
                    self.ram[ii + k] = self.v[k];
                    k = k + 1;
                }
                self.pc = self.pc + 2;
                proof {
                    assert(self@ =~= exec_op(c1, *op, 0));
                    assert(self@ == step_spec(old(self)@, *op, 0));
                }
            },
            Op::LD_Vx_I { x } => {
                let ii = self.i as usize;
                let mut k: usize = 0;
                while k < x
                    invariant
                        cpu_wf(c1),
                        x < 16,
                        ii == c1.i,
                        ii + x <= 4096,
                        k <= x,
                        self@.v.len() == 16,
                        forall|j: int|
                            0 <= j < 16 ==> self@.v[j] == (if j < k {
                                c1.ram[ii + j]
                            } else {
                                c1.v[j]
                            }),
                        self@.ram == c1.ram,
                        self@.i == c1.i,
                        self@.pc == c1.pc,
                        self@.stack == c1.stack,
                        self@.sp == c1.sp,
                        self@.dt == c1.dt,
                        self@.key == c1.key,
                        self@.wait_key == c1.wait_key,
                        self@.video == c1.video,
                    decreases x - k,
                {
                    self.v[k] = self.ram[ii + k];
                    k = k + 1;
                }
                self.pc = self.pc + 2;
                proof {
                    assert(self@ =~= exec_op(c1, *op, 0));
                    assert(self@ == step_spec(old(self)@, *op, 0));
                }
            },
            Op::UNKNOWN {  } => {
                proof {
                    assert(false);
                }
            },
        }
    }

    /// Fetch the word at PC and decode it: the triple (PC, word, opcode).
    /// The machine does not change.
    pub fn current(&mut self) -> (r: (usize, u16, Op))
        requires
            cpu_wf(old(self)@),
            old(self)@.pc + 1 < 4096,
        ensures
            final(self)@ == old(self)@,
            r.0 == old(self)@.pc,
            r.1 == word_at(old(self)@.ram, old(self)@.pc as int),
            r.2 == spec_decode(r.1),
            op_wf(r.2),
    {
        let word = ((self.ram[self.pc] as u16) << 8) | (self.ram[self.pc + 1] as u16);
        (self.pc, word, Op::decode(word))
    }

    /// True while a `LD Vx, K` awaits its key press.
    pub fn waiting_key(&mut self) -> (r: bool)
        ensures
            final(self)@ == old(self)@,
            r == (old(self)@.wait_key != 0xff),
    {
        self.wait_key != 0xff
    }

    /// Record `key` as held; if a `LD Vx, K` is pending, store the key into
    /// its register and clear the wait latch.
    pub fn press(&mut self, key: u8)
        requires
            cpu_wf(old(self)@),
            key < 16,
        ensures
            cpu_wf(final(self)@),
            final(self)@ == press_spec(old(self)@, key),
    {
        if self.wait_key != 0xff {
            self.v[self.wait_key] = key;
            self.wait_key = 0xff;
        }
        self.key = key;
        proof {
            assert(self@ =~= press_spec(old(self)@, key));
        }
    }

    /// Record that no key is held.
    pub fn release(&mut self)
        ensures
            final(self)@ == (CpuView { key: 0xff, ..old(self)@ }),
    {
        self.key = 0xff;
        proof {
            assert(self@ =~= (CpuView { key: 0xff, ..old(self)@ }));
        }
    }

    /// The program counter.
    pub fn get_pc(&self) -> (r: usize)
        ensures
            r == self@.pc,
    {
        self.pc
    }

    /// The stack pointer.
    pub fn get_sp(&self) -> (r: usize)
        ensures
            r == self@.sp,
    {
        self.sp
    }

    /// The delay timer.
    pub fn get_dt(&self) -> (r: u8)
        ensures
            r == self@.dt,
    {
        self.dt
    }

    /// The index register I.
    pub fn get_i(&self) -> (r: u16)
        ensures
            r == self@.i,
    {
        self.i
    }

    /// General register Vx.
    pub fn get_v(&self, x: usize) -> (r: u8)
        requires
            cpu_wf(self@),
            x < 16,
        ensures
            r == self@.v[x as int],
    {
        self.v[x]
    }

    /// Disassemble a ROM image: group the bytes into big-endian words from
    /// logical address 0x200 and emit one line per word, each
    /// `<addr> <word> <mnemonic>` in zero-padded lowercase hex.
    pub fn disassemble(data: &[u8]) -> (lines: Vec<String>)
        requires
            data@.len() % 2 == 0,
            data@.len() <= 3584,
        ensures
            lines@.len() == data@.len() / 2,
            forall|k: int|
                0 <= k < lines@.len() ==> lines@[k]@ == line_spec(
                    0x200 + 2 * k,
                    word_at(data@, 2 * k),
                ),
    {
        let mut lines: Vec<String> = Vec::new();
        let mut k: usize = 0;
        while 2 * k < data.len()
            invariant
                data@.len() % 2 == 0,
                data@.len() <= 3584,
                k <= data@.len() / 2,
                lines@.len() == k,
                forall|j: int|
                    0 <= j < k ==> lines@[j]@ == line_spec(0x200 + 2 * j, word_at(data@, 2 * j)),
            decreases data@.len() - 2 * k,
        {
            let w = ((data[2 * k] as u16) << 8) | (data[2 * k + 1] as u16);
            let op = Op::decode(w);
            let mut line = String::new();
            line.append("0x");
            push_hex4(&mut line, 0x200 + 2 * k);
            line.append(" 0x");
            push_hex4(&mut line, w as usize);
            line.append(" ");
            let mnemonic = op.format();
            line.append(mnemonic.as_str());
            proof {
                assert(line@ =~= line_spec(0x200 + 2 * (k as int), word_at(data@, 2 * (k as int))));
            }
            lines.push(line);
            k = k + 1;
        }
        lines
    }

    /// The RAM byte at `addr`.
    pub fn get_ram(&self, addr: usize) -> (r: u8)
        requires
            cpu_wf(self@),
            addr < 4096,
        ensures
            r == self@.ram[addr as int],
    {
        self.ram[addr]
    }
}

} // verus!
