use chip8::Cpu;
use chip8::Op;

#[test]
fn decode_covers_every_instruction_class() {
    assert!(matches!(Op::decode(0x00E0), Op::CLS {}));
    assert!(matches!(Op::decode(0x00EE), Op::RET {}));
    assert!(matches!(Op::decode(0x1234), Op::JP_addr { nnn: 0x234 }));
    assert!(matches!(Op::decode(0x2345), Op::CALL_addr { nnn: 0x345 }));
    assert!(matches!(Op::decode(0x3A7F), Op::SE_Vx_byte { x: 0xA, nn: 0x7F }));
    assert!(matches!(Op::decode(0x4A7F), Op::SNE_Vx_byte { x: 0xA, nn: 0x7F }));
    assert!(matches!(Op::decode(0x5AB0), Op::SE_Vx_Vy { x: 0xA, y: 0xB }));
    assert!(matches!(Op::decode(0x6A12), Op::LD_Vx_byte { x: 0xA, nn: 0x12 }));
    assert!(matches!(Op::decode(0x7A12), Op::ADD_Vx_byte { x: 0xA, nn: 0x12 }));
    assert!(matches!(Op::decode(0x8AB0), Op::LD_Vx_Vy { x: 0xA, y: 0xB }));
    assert!(matches!(Op::decode(0x8AB1), Op::OR_Vx_Vy { x: 0xA, y: 0xB }));
    assert!(matches!(Op::decode(0x8AB2), Op::AND_Vx_Vy { x: 0xA, y: 0xB }));
    assert!(matches!(Op::decode(0x8AB3), Op::XOR_Vx_Vy { x: 0xA, y: 0xB }));
    assert!(matches!(Op::decode(0x8AB4), Op::ADD_Vx_Vy { x: 0xA, y: 0xB }));
    assert!(matches!(Op::decode(0x8AB5), Op::SUB_Vx_Vy { x: 0xA, y: 0xB }));
    assert!(matches!(Op::decode(0x8AB6), Op::SHR_Vx_Vy { x: 0xA, y: 0xB }));
    assert!(matches!(Op::decode(0x8AB7), Op::SUBN_Vx_Vy { x: 0xA, y: 0xB }));
    assert!(matches!(Op::decode(0x8ABE), Op::SHL_Vx_Vy { x: 0xA, y: 0xB }));
    assert!(matches!(Op::decode(0x9AB0), Op::SNE_Vx_Vy { x: 0xA, y: 0xB }));
    assert!(matches!(Op::decode(0xA678), Op::LD_I_addr { nnn: 0x678 }));
    assert!(matches!(Op::decode(0xB678), Op::JP_V0_addr { nnn: 0x678 }));
    assert!(matches!(Op::decode(0xC377), Op::RND_Vx_byte { x: 3, nn: 0x77 }));
    assert!(matches!(Op::decode(0xD125), Op::DRW_Vx_Vy_nibble { x: 1, y: 2, n: 5 }));
    assert!(matches!(Op::decode(0xE39E), Op::SKP_Vx { x: 3 }));
    assert!(matches!(Op::decode(0xE3A1), Op::SKNP_Vx { x: 3 }));
    assert!(matches!(Op::decode(0xF307), Op::LD_Vx_DT { x: 3 }));
    assert!(matches!(Op::decode(0xF30A), Op::LD_Vx_K { x: 3 }));
    assert!(matches!(Op::decode(0xF315), Op::LD_DT_Vx { x: 3 }));
    assert!(matches!(Op::decode(0xF318), Op::LD_ST_Vx { x: 3 }));
    assert!(matches!(Op::decode(0xF31E), Op::ADD_I_Vx { x: 3 }));
    assert!(matches!(Op::decode(0xF329), Op::LD_F_Vx { x: 3 }));
    assert!(matches!(Op::decode(0xF333), Op::LD_B_Vx { x: 3 }));
    assert!(matches!(Op::decode(0xF355), Op::LD_I_Vx { x: 3 }));
    assert!(matches!(Op::decode(0xF365), Op::LD_Vx_I { x: 3 }));
    assert!(matches!(Op::decode(0x0000), Op::UNKNOWN {}));
    assert!(matches!(Op::decode(0xFFFF), Op::UNKNOWN {}));
}

#[test]
fn decoding_twice_yields_the_same_variant() {
    for w in [0x00E0u16, 0x1234, 0x8AB4, 0xD125, 0xF365, 0x0000] {
        assert_eq!(Op::decode(w), Op::decode(w));
    }
}

#[test]
fn format_yields_canonical_mnemonics() {
    assert_eq!(Op::decode(0x00E0).format(), "CLS");
    assert_eq!(Op::decode(0x00EE).format(), "RET");
    assert_eq!(Op::decode(0x1234).format(), "JP 0x234");
    assert_eq!(Op::decode(0x2345).format(), "CALL 0x345");
    assert_eq!(Op::decode(0x3A7F).format(), "SE Va, 0x7f");
    assert_eq!(Op::decode(0x4A7F).format(), "SNE Va, 0x7f");
    assert_eq!(Op::decode(0x5AB0).format(), "SE Va, Vb");
    assert_eq!(Op::decode(0x6A12).format(), "LD Va, 0x12");
    assert_eq!(Op::decode(0x7A02).format(), "ADD Va, 0x02");
    assert_eq!(Op::decode(0x8AB0).format(), "LD Va, Vb");
    assert_eq!(Op::decode(0x8AB1).format(), "OR Va, Vb");
    assert_eq!(Op::decode(0x8AB2).format(), "AND Va, Vb");
    assert_eq!(Op::decode(0x8AB3).format(), "XOR Va, Vb");
    assert_eq!(Op::decode(0x8AB4).format(), "ADD Va, Vb");
    assert_eq!(Op::decode(0x8AB5).format(), "SUB Va, Vb");
    assert_eq!(Op::decode(0x8AB6).format(), "SHR Va, Vb");
    assert_eq!(Op::decode(0x8AB7).format(), "SUBN Va, Vb");
    assert_eq!(Op::decode(0x8ABE).format(), "SHL Va, Vb");
    assert_eq!(Op::decode(0x9AB0).format(), "SNE Va, Vb");
    assert_eq!(Op::decode(0xA678).format(), "LD I, 0x678");
    assert_eq!(Op::decode(0xB678).format(), "JP V0, 0x678");
    assert_eq!(Op::decode(0xC377).format(), "RND V3, 0x77");
    assert_eq!(Op::decode(0xD125).format(), "DRW V1, V2, 5");
    assert_eq!(Op::decode(0xE39E).format(), "SKP V3");
    assert_eq!(Op::decode(0xE3A1).format(), "SKNP V3");
    assert_eq!(Op::decode(0xF307).format(), "LD V3, DT");
    assert_eq!(Op::decode(0xF30A).format(), "LD V3, K");
    assert_eq!(Op::decode(0xF315).format(), "LD DT, V3");
    assert_eq!(Op::decode(0xF318).format(), "LD ST, V3");
    assert_eq!(Op::decode(0xF31E).format(), "ADD I, V3");
    assert_eq!(Op::decode(0xF329).format(), "LD F, V3");
    assert_eq!(Op::decode(0xF333).format(), "LD B, V3");
    assert_eq!(Op::decode(0xF355).format(), "LD [I], V3");
    assert_eq!(Op::decode(0xF365).format(), "LD V3, [I]");
    assert_eq!(Op::decode(0x0000).format(), "UNKNOWN");
}

#[test]
fn disassemble_emits_one_line_per_word() {
    let lines = Cpu::disassemble(&[0x00, 0xE0, 0xA2, 0xF0, 0x60, 0x01, 0xD0, 0x15, 0x12, 0x00]);
    assert_eq!(lines.len(), 5);
    assert_eq!(lines[0], "0x0200 0x00e0 CLS");
    assert_eq!(lines[1], "0x0202 0xa2f0 LD I, 0x2f0");
    assert_eq!(lines[2], "0x0204 0x6001 LD V0, 0x01");
    assert_eq!(lines[3], "0x0206 0xd015 DRW V0, V1, 5");
    assert_eq!(lines[4], "0x0208 0x1200 JP 0x200");
}

#[test]
fn disassemble_of_empty_rom_is_empty() {
    let lines = Cpu::disassemble(&[]);
    assert!(lines.is_empty());
}
