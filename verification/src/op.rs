//! The decoded instruction set: a closed enum of every recognized opcode,
//! the decoder from a 16-bit word, and the mnemonic formatter used by the
//! disassembler.

use vstd::prelude::*;
use vstd::string::StringExecFns;

verus! {

/// One decoded CHIP-8 instruction. Each variant carries exactly the operand
/// fields the instruction uses: `x`, `y` are register indices in `0..16`,
/// `n` a nibble, `nn` a byte, `nnn` a 12-bit address.
#[allow(non_camel_case_types)]
#[derive(Debug, Clone, Copy, PartialEq, Eq, Structural)]
pub enum Op {
    LD_Vx_byte { x: usize, nn: u8 },
    ADD_Vx_byte { x: usize, nn: u8 },
    LD_Vx_Vy { x: usize, y: usize },
    ADD_Vx_Vy { x: usize, y: usize },
    SUB_Vx_Vy { x: usize, y: usize },
    SUBN_Vx_Vy { x: usize, y: usize },
    AND_Vx_Vy { x: usize, y: usize },
    OR_Vx_Vy { x: usize, y: usize },
    XOR_Vx_Vy { x: usize, y: usize },
    SHR_Vx_Vy { x: usize, y: usize },
    SHL_Vx_Vy { x: usize, y: usize },
    RND_Vx_byte { x: usize, nn: u8 },
    JP_addr { nnn: usize },
    JP_V0_addr { nnn: usize },
    CALL_addr { nnn: usize },
    RET {},
    SE_Vx_byte { x: usize, nn: u8 },
    SE_Vx_Vy { x: usize, y: usize },
    SNE_Vx_byte { x: usize, nn: u8 },
    SNE_Vx_Vy { x: usize, y: usize },
    LD_DT_Vx { x: usize },
    LD_Vx_DT { x: usize },
    LD_ST_Vx { x: usize },
    LD_Vx_K { x: usize },
    SKP_Vx { x: usize },
    SKNP_Vx { x: usize },
    LD_I_addr { nnn: usize },
    ADD_I_Vx { x: usize },
    DRW_Vx_Vy_nibble { x: usize, y: usize, n: u8 },
    CLS {},
    LD_F_Vx { x: usize },
    LD_B_Vx { x: usize },
    LD_I_Vx { x: usize },
    LD_Vx_I { x: usize },
    UNKNOWN {},
}

/// Every operand field is within the range its width allows: register
/// indices and nibbles below 16, addresses below 4096. The decoder only
/// produces such values.
pub open spec fn op_wf(op: Op) -> bool {
    match op {
        Op::LD_Vx_byte { x, nn } => x < 16,
        Op::ADD_Vx_byte { x, nn } => x < 16,
        Op::LD_Vx_Vy { x, y } => x < 16 && y < 16,
        Op::ADD_Vx_Vy { x, y } => x < 16 && y < 16,
        Op::SUB_Vx_Vy { x, y } => x < 16 && y < 16,
        Op::SUBN_Vx_Vy { x, y } => x < 16 && y < 16,
        Op::AND_Vx_Vy { x, y } => x < 16 && y < 16,
        Op::OR_Vx_Vy { x, y } => x < 16 && y < 16,
        Op::XOR_Vx_Vy { x, y } => x < 16 && y < 16,
        Op::SHR_Vx_Vy { x, y } => x < 16 && y < 16,
        Op::SHL_Vx_Vy { x, y } => x < 16 && y < 16,
        Op::RND_Vx_byte { x, nn } => x < 16,
        Op::JP_addr { nnn } => nnn < 4096,
        Op::JP_V0_addr { nnn } => nnn < 4096,
        Op::CALL_addr { nnn } => nnn < 4096,
        Op::RET {} => true,
        Op::SE_Vx_byte { x, nn } => x < 16,
        Op::SE_Vx_Vy { x, y } => x < 16 && y < 16,
        Op::SNE_Vx_byte { x, nn } => x < 16,
        Op::SNE_Vx_Vy { x, y } => x < 16 && y < 16,
        Op::LD_DT_Vx { x } => x < 16,
        Op::LD_Vx_DT { x } => x < 16,
        Op::LD_ST_Vx { x } => x < 16,
        Op::LD_Vx_K { x } => x < 16,
        Op::SKP_Vx { x } => x < 16,
        Op::SKNP_Vx { x } => x < 16,
        Op::LD_I_addr { nnn } => nnn < 4096,
        Op::ADD_I_Vx { x } => x < 16,
        Op::DRW_Vx_Vy_nibble { x, y, n } => x < 16 && y < 16 && n < 16,
        Op::CLS {} => true,
        Op::LD_F_Vx { x } => x < 16,
        Op::LD_B_Vx { x } => x < 16,
        Op::LD_I_Vx { x } => x < 16,
        Op::LD_Vx_I { x } => x < 16,
        Op::UNKNOWN {} => true,
    }
}

/// The decode table as a priority-ordered match on masked bits, written once
/// at the specification level; the executable decoder is proved equal to it.
pub open spec fn spec_decode(w: u16) -> Op {
    let x = ((w & 0x0f00) >> 8) as usize;
    let y = ((w & 0x00f0) >> 4) as usize;
    let n = (w & 0x000f) as u8;
    let nn = (w & 0x00ff) as u8;
    let nnn = (w & 0x0fff) as usize;
    if w & 0xf000 == 0x6000 {
        Op::LD_Vx_byte { x, nn }
    } else if w & 0xf000 == 0x7000 {
        Op::ADD_Vx_byte { x, nn }
    } else if w & 0xf00f == 0x8000 {
        Op::LD_Vx_Vy { x, y }
    } else if w & 0xf00f == 0x8004 {
        Op::ADD_Vx_Vy { x, y }
    } else if w & 0xf00f == 0x8005 {
        Op::SUB_Vx_Vy { x, y }
    } else if w & 0xf00f == 0x8007 {
        Op::SUBN_Vx_Vy { x, y }
    } else if w & 0xf00f == 0x8002 {
        Op::AND_Vx_Vy { x, y }
    } else if w & 0xf00f == 0x8001 {
        Op::OR_Vx_Vy { x, y }
    } else if w & 0xf00f == 0x8003 {
        Op::XOR_Vx_Vy { x, y }
    } else if w & 0xf00f == 0x8006 {
        Op::SHR_Vx_Vy { x, y }
    } else if w & 0xf00f == 0x800e {
        Op::SHL_Vx_Vy { x, y }
    } else if w & 0xf000 == 0xc000 {
        Op::RND_Vx_byte { x, nn }
    } else if w & 0xf000 == 0x1000 {
        Op::JP_addr { nnn }
    } else if w & 0xf000 == 0xb000 {
        Op::JP_V0_addr { nnn }
    } else if w & 0xf000 == 0x2000 {
        Op::CALL_addr { nnn }
    } else if w == 0x00ee {
        Op::RET {}
    } else if w & 0xf000 == 0x3000 {
        Op::SE_Vx_byte { x, nn }
    } else if w & 0xf00f == 0x5000 {
        Op::SE_Vx_Vy { x, y }
    } else if w & 0xf000 == 0x4000 {
        Op::SNE_Vx_byte { x, nn }
    } else if w & 0xf00f == 0x9000 {
        Op::SNE_Vx_Vy { x, y }
    } else if w & 0xf0ff == 0xf015 {
        Op::LD_DT_Vx { x }
    } else if w & 0xf0ff == 0xf007 {
        Op::LD_Vx_DT { x }
    } else if w & 0xf0ff == 0xf018 {
        Op::LD_ST_Vx { x }
    } else if w & 0xf0ff == 0xf00a {
        Op::LD_Vx_K { x }
    } else if w & 0xf0ff == 0xe09e {
        Op::SKP_Vx { x }
    } else if w & 0xf0ff == 0xe0a1 {
        Op::SKNP_Vx { x }
    } else if w & 0xf000 == 0xa000 {
        Op::LD_I_addr { nnn }
    } else if w & 0xf0ff == 0xf01e {
        Op::ADD_I_Vx { x }
    } else if w & 0xf000 == 0xd000 {
        Op::DRW_Vx_Vy_nibble { x, y, n }
    } else if w == 0x00e0 {
        Op::CLS {}
    } else if w & 0xf0ff == 0xf029 {
        Op::LD_F_Vx { x }
    } else if w & 0xf0ff == 0xf033 {
        Op::LD_B_Vx { x }
    } else if w & 0xf0ff == 0xf055 {
        Op::LD_I_Vx { x }
    } else if w & 0xf0ff == 0xf065 {
        Op::LD_Vx_I { x }
    } else {
        Op::UNKNOWN {}
    }
}

/// The decoded fields of any word are in range.
pub proof fn lemma_decode_wf(w: u16)
    ensures
        op_wf(spec_decode(w)),
{
    assert(((w & 0x0f00) >> 8) < 16) by (bit_vector);
    assert(((w & 0x00f0) >> 4) < 16) by (bit_vector);
    assert((w & 0x000f) < 16) by (bit_vector);
    assert((w & 0x0fff) < 4096) by (bit_vector);
}

impl Op {
    /// Decode a 16-bit instruction word into its `Op` variant.
    pub fn decode(w: u16) -> (op: Op)
        ensures
            op == spec_decode(w),
            op_wf(op),
    {
        proof {
            lemma_decode_wf(w);
        }
        let x = ((w & 0x0f00) >> 8) as usize;
        let y = ((w & 0x00f0) >> 4) as usize;
        let n = (w & 0x000f) as u8;
        let nn = (w & 0x00ff) as u8;
        let nnn = (w & 0x0fff) as usize;
        if w & 0xf000 == 0x6000 {
            Op::LD_Vx_byte { x, nn }
        } else if w & 0xf000 == 0x7000 {
            Op::ADD_Vx_byte { x, nn }
        } else if w & 0xf00f == 0x8000 {
            Op::LD_Vx_Vy { x, y }
        } else if w & 0xf00f == 0x8004 {
            Op::ADD_Vx_Vy { x, y }
        } else if w & 0xf00f == 0x8005 {
            Op::SUB_Vx_Vy { x, y }
        } else if w & 0xf00f == 0x8007 {
            Op::SUBN_Vx_Vy { x, y }
        } else if w & 0xf00f == 0x8002 {
            Op::AND_Vx_Vy { x, y }
        } else if w & 0xf00f == 0x8001 {
            Op::OR_Vx_Vy { x, y }
        } else if w & 0xf00f == 0x8003 {
            Op::XOR_Vx_Vy { x, y }
        } else if w & 0xf00f == 0x8006 {
            Op::SHR_Vx_Vy { x, y }
        } else if w & 0xf00f == 0x800e {
            Op::SHL_Vx_Vy { x, y }
        } else if w & 0xf000 == 0xc000 {
            Op::RND_Vx_byte { x, nn }
        } else if w & 0xf000 == 0x1000 {
            Op::JP_addr { nnn }
        } else if w & 0xf000 == 0xb000 {
            Op::JP_V0_addr { nnn }
        } else if w & 0xf000 == 0x2000 {
            Op::CALL_addr { nnn }
        } else if w == 0x00ee {
            Op::RET {}
        } else if w & 0xf000 == 0x3000 {
            Op::SE_Vx_byte { x, nn }
        } else if w & 0xf00f == 0x5000 {
            Op::SE_Vx_Vy { x, y }
        } else if w & 0xf000 == 0x4000 {
            Op::SNE_Vx_byte { x, nn }
        } else if w & 0xf00f == 0x9000 {
            Op::SNE_Vx_Vy { x, y }
        } else if w & 0xf0ff == 0xf015 {
            Op::LD_DT_Vx { x }
        } else if w & 0xf0ff == 0xf007 {
            Op::LD_Vx_DT { x }
        } else if w & 0xf0ff == 0xf018 {
            Op::LD_ST_Vx { x }
        } else if w & 0xf0ff == 0xf00a {
            Op::LD_Vx_K { x }
        } else if w & 0xf0ff == 0xe09e {
            Op::SKP_Vx { x }
        } else if w & 0xf0ff == 0xe0a1 {
            Op::SKNP_Vx { x }
        } else if w & 0xf000 == 0xa000 {
            Op::LD_I_addr { nnn }
        } else if w & 0xf0ff == 0xf01e {
            Op::ADD_I_Vx { x }
        } else if w & 0xf000 == 0xd000 {
            Op::DRW_Vx_Vy_nibble { x, y, n }
        } else if w == 0x00e0 {
            Op::CLS {}
        } else if w & 0xf0ff == 0xf029 {
            Op::LD_F_Vx { x }
        } else if w & 0xf0ff == 0xf033 {
            Op::LD_B_Vx { x }
        } else if w & 0xf0ff == 0xf055 {
            Op::LD_I_Vx { x }
        } else if w & 0xf0ff == 0xf065 {
            Op::LD_Vx_I { x }
        } else {
            Op::UNKNOWN {}
        }
    }
}


/// The lowercase hex glyph for a nibble value.
pub open spec fn hex_digit(d: int) -> Seq<char> {
    if d == 0 {
        "0"@
    } else if d == 1 {
        "1"@
    } else if d == 2 {
        "2"@
    } else if d == 3 {
        "3"@
    } else if d == 4 {
        "4"@
    } else if d == 5 {
        "5"@
    } else if d == 6 {
        "6"@
    } else if d == 7 {
        "7"@
    } else if d == 8 {
        "8"@
    } else if d == 9 {
        "9"@
    } else if d == 10 {
        "a"@
    } else if d == 11 {
        "b"@
    } else if d == 12 {
        "c"@
    } else if d == 13 {
        "d"@
    } else if d == 14 {
        "e"@
    } else {
        "f"@
    }
}

/// One lowercase hex digit: the value modulo 16.
pub open spec fn hex1(n: int) -> Seq<char> {
    hex_digit(n % 16)
}

/// Two lowercase hex digits, zero padded.
pub open spec fn hex2(n: int) -> Seq<char> {
    hex_digit((n / 16) % 16) + hex_digit(n % 16)
}

/// Three lowercase hex digits, zero padded.
pub open spec fn hex3(n: int) -> Seq<char> {
    hex_digit((n / 256) % 16) + hex_digit((n / 16) % 16) + hex_digit(n % 16)
}

/// Four lowercase hex digits, zero padded.
pub open spec fn hex4(n: int) -> Seq<char> {
    hex_digit((n / 4096) % 16) + hex_digit((n / 256) % 16) + hex_digit((n / 16) % 16) + hex_digit(
        n % 16,
    )
}

/// The canonical mnemonic of a decoded instruction, exactly as the
/// disassembler prints it.
pub open spec fn spec_format(op: Op) -> Seq<char> {
    match op {
        Op::LD_Vx_byte { x, nn } => "LD V"@ + hex1(x as int) + ", 0x"@ + hex2(nn as int),
        Op::ADD_Vx_byte { x, nn } => "ADD V"@ + hex1(x as int) + ", 0x"@ + hex2(nn as int),
        Op::LD_Vx_Vy { x, y } => "LD V"@ + hex1(x as int) + ", V"@ + hex1(y as int),
        Op::ADD_Vx_Vy { x, y } => "ADD V"@ + hex1(x as int) + ", V"@ + hex1(y as int),
        Op::SUB_Vx_Vy { x, y } => "SUB V"@ + hex1(x as int) + ", V"@ + hex1(y as int),
        Op::SUBN_Vx_Vy { x, y } => "SUBN V"@ + hex1(x as int) + ", V"@ + hex1(y as int),
        Op::AND_Vx_Vy { x, y } => "AND V"@ + hex1(x as int) + ", V"@ + hex1(y as int),
        Op::OR_Vx_Vy { x, y } => "OR V"@ + hex1(x as int) + ", V"@ + hex1(y as int),
        Op::XOR_Vx_Vy { x, y } => "XOR V"@ + hex1(x as int) + ", V"@ + hex1(y as int),
        Op::SHR_Vx_Vy { x, y } => "SHR V"@ + hex1(x as int) + ", V"@ + hex1(y as int),
        Op::SHL_Vx_Vy { x, y } => "SHL V"@ + hex1(x as int) + ", V"@ + hex1(y as int),
        Op::RND_Vx_byte { x, nn } => "RND V"@ + hex1(x as int) + ", 0x"@ + hex2(nn as int),
        Op::JP_addr { nnn } => "JP 0x"@ + hex3(nnn as int),
        Op::JP_V0_addr { nnn } => "JP V0, 0x"@ + hex3(nnn as int),
        Op::CALL_addr { nnn } => "CALL 0x"@ + hex3(nnn as int),
        Op::RET {  } => "RET"@,
        Op::SE_Vx_byte { x, nn } => "SE V"@ + hex1(x as int) + ", 0x"@ + hex2(nn as int),
        Op::SE_Vx_Vy { x, y } => "SE V"@ + hex1(x as int) + ", V"@ + hex1(y as int),
        Op::SNE_Vx_byte { x, nn } => "SNE V"@ + hex1(x as int) + ", 0x"@ + hex2(nn as int),
        Op::SNE_Vx_Vy { x, y } => "SNE V"@ + hex1(x as int) + ", V"@ + hex1(y as int),
        Op::LD_DT_Vx { x } => "LD DT, V"@ + hex1(x as int),
        Op::LD_Vx_DT { x } => "LD V"@ + hex1(x as int) + ", DT"@,
        Op::LD_ST_Vx { x } => "LD ST, V"@ + hex1(x as int),
        Op::LD_Vx_K { x } => "LD V"@ + hex1(x as int) + ", K"@,
        Op::SKP_Vx { x } => "SKP V"@ + hex1(x as int),
        Op::SKNP_Vx { x } => "SKNP V"@ + hex1(x as int),
        Op::LD_I_addr { nnn } => "LD I, 0x"@ + hex3(nnn as int),
        Op::ADD_I_Vx { x } => "ADD I, V"@ + hex1(x as int),
        Op::DRW_Vx_Vy_nibble { x, y, n } => "DRW V"@ + hex1(x as int) + ", V"@ + hex1(y as int)
            + ", "@ + hex1(n as int),
        Op::CLS {  } => "CLS"@,
        Op::LD_F_Vx { x } => "LD F, V"@ + hex1(x as int),
        Op::LD_B_Vx { x } => "LD B, V"@ + hex1(x as int),
        Op::LD_I_Vx { x } => "LD [I], V"@ + hex1(x as int),
        Op::LD_Vx_I { x } => "LD V"@ + hex1(x as int) + ", [I]"@,
        Op::UNKNOWN {  } => "UNKNOWN"@,
    }
}

/// The lowercase hex glyph for a nibble, as a string slice.
fn hex_digit_str(d: u8) -> (r: &'static str)
    requires
        d < 16,
    ensures
        r@ == hex_digit(d as int),
{
    match d {
        0 => "0",
        1 => "1",
        2 => "2",
        3 => "3",
        4 => "4",
        5 => "5",
        6 => "6",
        7 => "7",
        8 => "8",
        9 => "9",
        10 => "a",
        11 => "b",
        12 => "c",
        13 => "d",
        14 => "e",
        _ => "f",
    }
}

/// Append one hex digit.
fn push_hex1(s: &mut String, d: u8)
    requires
        d < 16,
    ensures
        final(s)@ == old(s)@ + hex_digit(d as int),
{
    s.append(hex_digit_str(d));
}

/// Append a byte as two zero-padded hex digits.
fn push_hex2(s: &mut String, n: u8)
    ensures
        final(s)@ == old(s)@ + hex2(n as int),
{
    push_hex1(s, n / 16);
    push_hex1(s, n % 16);
    proof {
        assert(s@ =~= old(s)@ + hex2(n as int));
    }
}

/// Append a 12-bit value as three zero-padded hex digits.
fn push_hex3(s: &mut String, n: usize)
    requires
        n < 4096,
    ensures
        final(s)@ == old(s)@ + hex3(n as int),
{
    push_hex1(s, (n / 256) as u8);
    push_hex1(s, ((n / 16) % 16) as u8);
    push_hex1(s, (n % 16) as u8);
    proof {
        assert(s@ =~= old(s)@ + hex3(n as int));
    }
}

/// Append a 16-bit value as four zero-padded hex digits.
pub fn push_hex4(s: &mut String, n: usize)
    requires
        n < 65536,
    ensures
        final(s)@ == old(s)@ + hex4(n as int),
{
    push_hex1(s, (n / 4096) as u8);
    push_hex1(s, ((n / 256) % 16) as u8);
    push_hex1(s, ((n / 16) % 16) as u8);
    push_hex1(s, (n % 16) as u8);
    proof {
        assert(s@ =~= old(s)@ + hex4(n as int));
    }
}

impl Op {
    /// The canonical mnemonic, equal to `spec_format`.
    #[verifier::rlimit(60)]
    pub fn format(&self) -> (s: String)
        requires
            op_wf(*self),
        ensures
            s@ == spec_format(*self),
    {
        let mut s = String::new();
        match *self {
            Op::LD_Vx_byte { x, nn } => {
                s.append("LD V");
                push_hex1(&mut s, (x % 16) as u8);
                s.append(", 0x");
                push_hex2(&mut s, nn);
            },
            Op::ADD_Vx_byte { x, nn } => {
                s.append("ADD V");
                push_hex1(&mut s, (x % 16) as u8);
                s.append(", 0x");
                push_hex2(&mut s, nn);
            },
            Op::LD_Vx_Vy { x, y } => {
                s.append("LD V");
                push_hex1(&mut s, (x % 16) as u8);
                s.append(", V");
                push_hex1(&mut s, (y % 16) as u8);
            },
            Op::ADD_Vx_Vy { x, y } => {
                s.append("ADD V");
                push_hex1(&mut s, (x % 16) as u8);
                s.append(", V");
                push_hex1(&mut s, (y % 16) as u8);
            },
            Op::SUB_Vx_Vy { x, y } => {
                s.append("SUB V");
                push_hex1(&mut s, (x % 16) as u8);
                s.append(", V");
                push_hex1(&mut s, (y % 16) as u8);
            },
            Op::SUBN_Vx_Vy { x, y } => {
                s.append("SUBN V");
                push_hex1(&mut s, (x % 16) as u8);
                s.append(", V");
                push_hex1(&mut s, (y % 16) as u8);
            },
            Op::AND_Vx_Vy { x, y } => {
                s.append("AND V");
                push_hex1(&mut s, (x % 16) as u8);
                s.append(", V");
                push_hex1(&mut s, (y % 16) as u8);
            },
            Op::OR_Vx_Vy { x, y } => {
                s.append("OR V");
                push_hex1(&mut s, (x % 16) as u8);
                s.append(", V");
                push_hex1(&mut s, (y % 16) as u8);
            },
            Op::XOR_Vx_Vy { x, y } => {
                s.append("XOR V");
                push_hex1(&mut s, (x % 16) as u8);
                s.append(", V");
                push_hex1(&mut s, (y % 16) as u8);
            },
            Op::SHR_Vx_Vy { x, y } => {
                s.append("SHR V");
                push_hex1(&mut s, (x % 16) as u8);
                s.append(", V");
                push_hex1(&mut s, (y % 16) as u8);
            },
            Op::SHL_Vx_Vy { x, y } => {
                s.append("SHL V");
                push_hex1(&mut s, (x % 16) as u8);
                s.append(", V");
                push_hex1(&mut s, (y % 16) as u8);
            },
            Op::RND_Vx_byte { x, nn } => {
                s.append("RND V");
                push_hex1(&mut s, (x % 16) as u8);
                s.append(", 0x");
                push_hex2(&mut s, nn);
            },
            Op::JP_addr { nnn } => {
                s.append("JP 0x");
                push_hex3(&mut s, nnn % 4096);
            },
            Op::JP_V0_addr { nnn } => {
                s.append("JP V0, 0x");
                push_hex3(&mut s, nnn % 4096);
            },
            Op::CALL_addr { nnn } => {
                s.append("CALL 0x");
                push_hex3(&mut s, nnn % 4096);
            },
            Op::RET {  } => {
                s.append("RET");
            },
            Op::SE_Vx_byte { x, nn } => {
                s.append("SE V");
                push_hex1(&mut s, (x % 16) as u8);
                s.append(", 0x");
                push_hex2(&mut s, nn);
            },
            Op::SE_Vx_Vy { x, y } => {
                s.append("SE V");
                push_hex1(&mut s, (x % 16) as u8);
                s.append(", V");
                push_hex1(&mut s, (y % 16) as u8);
            },
            Op::SNE_Vx_byte { x, nn } => {
                s.append("SNE V");
                push_hex1(&mut s, (x % 16) as u8);
                s.append(", 0x");
                push_hex2(&mut s, nn);
            },
            Op::SNE_Vx_Vy { x, y } => {
                s.append("SNE V");
                push_hex1(&mut s, (x % 16) as u8);
                s.append(", V");
                push_hex1(&mut s, (y % 16) as u8);
            },
            Op::LD_DT_Vx { x } => {
                s.append("LD DT, V");
                push_hex1(&mut s, (x % 16) as u8);
            },
            Op::LD_Vx_DT { x } => {
                s.append("LD V");
                push_hex1(&mut s, (x % 16) as u8);
                s.append(", DT");
            },
            Op::LD_ST_Vx { x } => {
                s.append("LD ST, V");
                push_hex1(&mut s, (x % 16) as u8);
            },
            Op::LD_Vx_K { x } => {
                s.append("LD V");
                push_hex1(&mut s, (x % 16) as u8);
                s.append(", K");
            },
            Op::SKP_Vx { x } => {
                s.append("SKP V");
                push_hex1(&mut s, (x % 16) as u8);
            },
            Op::SKNP_Vx { x } => {
                s.append("SKNP V");
                push_hex1(&mut s, (x % 16) as u8);
            },
            Op::LD_I_addr { nnn } => {
                s.append("LD I, 0x");
                push_hex3(&mut s, nnn % 4096);
            },
            Op::ADD_I_Vx { x } => {
                s.append("ADD I, V");
                push_hex1(&mut s, (x % 16) as u8);
            },
            Op::DRW_Vx_Vy_nibble { x, y, n } => {
                s.append("DRW V");
                push_hex1(&mut s, (x % 16) as u8);
                s.append(", V");
                push_hex1(&mut s, (y % 16) as u8);
                s.append(", ");
                push_hex1(&mut s, n % 16);
            },
            Op::CLS {  } => {
                s.append("CLS");
            },
            Op::LD_F_Vx { x } => {
                s.append("LD F, V");
                push_hex1(&mut s, (x % 16) as u8);
            },
            Op::LD_B_Vx { x } => {
                s.append("LD B, V");
                push_hex1(&mut s, (x % 16) as u8);
            },
            Op::LD_I_Vx { x } => {
                s.append("LD [I], V");
                push_hex1(&mut s, (x % 16) as u8);
            },
            Op::LD_Vx_I { x } => {
                s.append("LD V");
                push_hex1(&mut s, (x % 16) as u8);
                s.append(", [I]");
            },
            Op::UNKNOWN {  } => {
                s.append("UNKNOWN");
            },
        }
        proof {
            assert(s@ =~= spec_format(*self));
        }
        s
    }
}


/// The instruction word a decoded instruction stands for: the inverse
/// reading of the decode table. An unrecognized instruction is given the
/// word 0xffff, which decodes to UNKNOWN again.
pub open spec fn spec_encode(op: Op) -> u16 {
    match op {
        Op::LD_Vx_byte { x, nn } => ((0x6000 + (x as u16) * 256 + (nn as u16)) as u16),
        Op::ADD_Vx_byte { x, nn } => ((0x7000 + (x as u16) * 256 + (nn as u16)) as u16),
        Op::LD_Vx_Vy { x, y } => ((0x8000 + (x as u16) * 256 + (y as u16) * 16 + 0x0) as u16),
        Op::ADD_Vx_Vy { x, y } => ((0x8000 + (x as u16) * 256 + (y as u16) * 16 + 0x4) as u16),
        Op::SUB_Vx_Vy { x, y } => ((0x8000 + (x as u16) * 256 + (y as u16) * 16 + 0x5) as u16),
        Op::SUBN_Vx_Vy { x, y } => ((0x8000 + (x as u16) * 256 + (y as u16) * 16 + 0x7) as u16),
        Op::AND_Vx_Vy { x, y } => ((0x8000 + (x as u16) * 256 + (y as u16) * 16 + 0x2) as u16),
        Op::OR_Vx_Vy { x, y } => ((0x8000 + (x as u16) * 256 + (y as u16) * 16 + 0x1) as u16),
        Op::XOR_Vx_Vy { x, y } => ((0x8000 + (x as u16) * 256 + (y as u16) * 16 + 0x3) as u16),
        Op::SHR_Vx_Vy { x, y } => ((0x8000 + (x as u16) * 256 + (y as u16) * 16 + 0x6) as u16),
        Op::SHL_Vx_Vy { x, y } => ((0x8000 + (x as u16) * 256 + (y as u16) * 16 + 0xe) as u16),
        Op::RND_Vx_byte { x, nn } => ((0xc000 + (x as u16) * 256 + (nn as u16)) as u16),
        Op::JP_addr { nnn } => ((0x1000 + (nnn as u16)) as u16),
        Op::JP_V0_addr { nnn } => ((0xb000 + (nnn as u16)) as u16),
        Op::CALL_addr { nnn } => ((0x2000 + (nnn as u16)) as u16),
        Op::RET {  } => 0x00ee,
        Op::SE_Vx_byte { x, nn } => ((0x3000 + (x as u16) * 256 + (nn as u16)) as u16),
        Op::SE_Vx_Vy { x, y } => ((0x5000 + (x as u16) * 256 + (y as u16) * 16 + 0x0) as u16),
        Op::SNE_Vx_byte { x, nn } => ((0x4000 + (x as u16) * 256 + (nn as u16)) as u16),
        Op::SNE_Vx_Vy { x, y } => ((0x9000 + (x as u16) * 256 + (y as u16) * 16 + 0x0) as u16),
        Op::LD_DT_Vx { x } => ((0xf000 + (x as u16) * 256 + 0x15) as u16),
        Op::LD_Vx_DT { x } => ((0xf000 + (x as u16) * 256 + 0x07) as u16),
        Op::LD_ST_Vx { x } => ((0xf000 + (x as u16) * 256 + 0x18) as u16),
        Op::LD_Vx_K { x } => ((0xf000 + (x as u16) * 256 + 0x0a) as u16),
        Op::SKP_Vx { x } => ((0xe000 + (x as u16) * 256 + 0x9e) as u16),
        Op::SKNP_Vx { x } => ((0xe000 + (x as u16) * 256 + 0xa1) as u16),
        Op::LD_I_addr { nnn } => ((0xa000 + (nnn as u16)) as u16),
        Op::ADD_I_Vx { x } => ((0xf000 + (x as u16) * 256 + 0x1e) as u16),
        Op::DRW_Vx_Vy_nibble { x, y, n } => ((0xd000 + (x as u16) * 256 + (y as u16) * 16 + (
        n as u16)) as u16),
        Op::CLS {  } => 0x00e0,
        Op::LD_F_Vx { x } => ((0xf000 + (x as u16) * 256 + 0x29) as u16),
        Op::LD_B_Vx { x } => ((0xf000 + (x as u16) * 256 + 0x33) as u16),
        Op::LD_I_Vx { x } => ((0xf000 + (x as u16) * 256 + 0x55) as u16),
        Op::LD_Vx_I { x } => ((0xf000 + (x as u16) * 256 + 0x65) as u16),
        Op::UNKNOWN {  } => 0xffff,
    }
}

/// Mask values of a word built from a mask, a register nibble and a byte.
proof fn lemma_enc_xnn(m: u16, x: u16, nn: u16)
    by (bit_vector)
    requires
        m % 0x1000 == 0,
        0x1000 <= m,
        x < 16,
        nn < 256,
    ensures
        ((m + x * 256 + nn) as u16) & 0xf000 == m,
        (((m + x * 256 + nn) as u16) & 0x0f00) >> 8 == x,
        ((m + x * 256 + nn) as u16) & 0x00ff == nn,
        ((m + x * 256 + nn) as u16) & 0xf00f == ((m + (nn & 0x0f)) as u16),
        ((m + x * 256 + nn) as u16) & 0xf0ff == ((m + nn) as u16),
        nn & 0x0f < 16,
        ((m + x * 256 + nn) as u16) != 0x00ee,
        ((m + x * 256 + nn) as u16) != 0x00e0,
{
}

/// Mask values of a word built from a mask, two register nibbles and a
/// low nibble.
proof fn lemma_enc_xyk(m: u16, x: u16, y: u16, k: u16)
    by (bit_vector)
    requires
        m % 0x1000 == 0,
        0x1000 <= m,
        x < 16,
        y < 16,
        k < 16,
    ensures
        ((m + x * 256 + y * 16 + k) as u16) & 0xf000 == m,
        (((m + x * 256 + y * 16 + k) as u16) & 0x0f00) >> 8 == x,
        (((m + x * 256 + y * 16 + k) as u16) & 0x00f0) >> 4 == y,
        ((m + x * 256 + y * 16 + k) as u16) & 0x000f == k,
        ((m + x * 256 + y * 16 + k) as u16) & 0xf00f == ((m + k) as u16),
        ((m + x * 256 + y * 16 + k) as u16) & 0xf0ff == ((m + y * 16 + k) as u16),
        ((m + x * 256 + y * 16 + k) as u16) & 0x00ff == y * 16 + k,
        ((m + x * 256 + y * 16 + k) as u16) != 0x00ee,
        ((m + x * 256 + y * 16 + k) as u16) != 0x00e0,
{
}

/// Mask values of a word built from a mask and a 12-bit address.
proof fn lemma_enc_addr(m: u16, nnn: u16)
    by (bit_vector)
    requires
        m % 0x1000 == 0,
        0x1000 <= m,
        nnn < 4096,
    ensures
        ((m + nnn) as u16) & 0xf000 == m,
        ((m + nnn) as u16) & 0x0fff == nnn,
        ((m + nnn) as u16) & 0xf00f == ((m + (nnn & 0x0f)) as u16),
        ((m + nnn) as u16) & 0xf0ff == ((m + (nnn & 0xff)) as u16),
        nnn & 0x0f < 16,
        nnn & 0xff < 256,
        ((m + nnn) as u16) != 0x00ee,
        ((m + nnn) as u16) != 0x00e0,
{
}

/// Mask values of the fixed words RET, CLS and the unrecognized word.
proof fn lemma_enc_consts()
    by (bit_vector)
    ensures
        0x00eeu16 & 0xf000 == 0x0000,
        0x00eeu16 & 0xf00f == 0x000e,
        0x00eeu16 & 0xf0ff == 0x00ee,
        0x00e0u16 & 0xf000 == 0x0000,
        0x00e0u16 & 0xf00f == 0x0000,
        0x00e0u16 & 0xf0ff == 0x00e0,
        0xffffu16 & 0xf000 == 0xf000,
        0xffffu16 & 0xf00f == 0xf00f,
        0xffffu16 & 0xf0ff == 0xf0ff,
{
}

/// Decoding the word an instruction encodes to yields the instruction
/// back: the decoder is a left inverse of the encoding, so a variant that
/// the disassembler printed re-decodes to itself.
pub proof fn lemma_decode_encode(op: Op)
    requires
        op_wf(op),
    ensures
        spec_decode(spec_encode(op)) == op,
{
    lemma_enc_consts();
    match op {
        Op::LD_Vx_byte { x, nn } => lemma_enc_xnn(0x6000, x as u16, nn as u16),
        Op::ADD_Vx_byte { x, nn } => lemma_enc_xnn(0x7000, x as u16, nn as u16),
        Op::LD_Vx_Vy { x, y } => lemma_enc_xyk(0x8000, x as u16, y as u16, 0x0),
        Op::ADD_Vx_Vy { x, y } => lemma_enc_xyk(0x8000, x as u16, y as u16, 0x4),
        Op::SUB_Vx_Vy { x, y } => lemma_enc_xyk(0x8000, x as u16, y as u16, 0x5),
        Op::SUBN_Vx_Vy { x, y } => lemma_enc_xyk(0x8000, x as u16, y as u16, 0x7),
        Op::AND_Vx_Vy { x, y } => lemma_enc_xyk(0x8000, x as u16, y as u16, 0x2),
        Op::OR_Vx_Vy { x, y } => lemma_enc_xyk(0x8000, x as u16, y as u16, 0x1),
        Op::XOR_Vx_Vy { x, y } => lemma_enc_xyk(0x8000, x as u16, y as u16, 0x3),
        Op::SHR_Vx_Vy { x, y } => lemma_enc_xyk(0x8000, x as u16, y as u16, 0x6),
        Op::SHL_Vx_Vy { x, y } => lemma_enc_xyk(0x8000, x as u16, y as u16, 0xe),
        Op::RND_Vx_byte { x, nn } => lemma_enc_xnn(0xc000, x as u16, nn as u16),
        Op::JP_addr { nnn } => lemma_enc_addr(0x1000, nnn as u16),
        Op::JP_V0_addr { nnn } => lemma_enc_addr(0xb000, nnn as u16),
        Op::CALL_addr { nnn } => lemma_enc_addr(0x2000, nnn as u16),
        Op::RET {  } => (),
        Op::SE_Vx_byte { x, nn } => lemma_enc_xnn(0x3000, x as u16, nn as u16),
        Op::SE_Vx_Vy { x, y } => lemma_enc_xyk(0x5000, x as u16, y as u16, 0x0),
        Op::SNE_Vx_byte { x, nn } => lemma_enc_xnn(0x4000, x as u16, nn as u16),
        Op::SNE_Vx_Vy { x, y } => lemma_enc_xyk(0x9000, x as u16, y as u16, 0x0),
        Op::LD_DT_Vx { x } => lemma_enc_xnn(0xf000, x as u16, 0x15),
        Op::LD_Vx_DT { x } => lemma_enc_xnn(0xf000, x as u16, 0x07),
        Op::LD_ST_Vx { x } => lemma_enc_xnn(0xf000, x as u16, 0x18),
        Op::LD_Vx_K { x } => lemma_enc_xnn(0xf000, x as u16, 0x0a),
        Op::SKP_Vx { x } => lemma_enc_xnn(0xe000, x as u16, 0x9e),
        Op::SKNP_Vx { x } => lemma_enc_xnn(0xe000, x as u16, 0xa1),
        Op::LD_I_addr { nnn } => lemma_enc_addr(0xa000, nnn as u16),
        Op::ADD_I_Vx { x } => lemma_enc_xnn(0xf000, x as u16, 0x1e),
        Op::DRW_Vx_Vy_nibble { x, y, n } => lemma_enc_xyk(0xd000, x as u16, y as u16, n as u16),
        Op::CLS {  } => (),
        Op::LD_F_Vx { x } => lemma_enc_xnn(0xf000, x as u16, 0x29),
        Op::LD_B_Vx { x } => lemma_enc_xnn(0xf000, x as u16, 0x33),
        Op::LD_I_Vx { x } => lemma_enc_xnn(0xf000, x as u16, 0x55),
        Op::LD_Vx_I { x } => lemma_enc_xnn(0xf000, x as u16, 0x65),
        Op::UNKNOWN {  } => (),
    }
}

} // verus!
