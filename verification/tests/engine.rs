use chip8::Cpu;
use chip8::Op;

fn tick(cpu: &mut Cpu) {
    let (_pc, _word, op) = cpu.current();
    cpu.step(&op);
}

#[test]
fn fresh_machine_state() {
    let cpu = Cpu::new(&[0x12, 0x00]);
    assert_eq!(cpu.get_pc(), 0x200);
    assert_eq!(cpu.get_sp(), 0);
    assert_eq!(cpu.get_i(), 0);
    assert_eq!(cpu.get_dt(), 0);
    for x in 0..16 {
        assert_eq!(cpu.get_v(x), 0);
    }
    assert_eq!(cpu.get_ram(0x200), 0x12);
    assert_eq!(cpu.get_ram(0x201), 0x00);
}

#[test]
fn font_loaded_at_fontset_base() {
    let cpu = Cpu::new(&[]);
    assert_eq!(cpu.get_ram(0x050), 0xF0);
    assert_eq!(cpu.get_ram(0x051), 0x90);
    assert_eq!(cpu.get_ram(0x09F), 0x80);
    assert_eq!(cpu.get_ram(0x04F), 0x00);
    assert_eq!(cpu.get_ram(0x0A0), 0x00);
}

#[test]
fn immediate_loads_and_register_add() {
    let mut cpu = Cpu::new(&[0x62, 0x0A, 0x63, 0x14, 0x82, 0x34, 0x00, 0x00]);
    tick(&mut cpu);
    assert_eq!(cpu.get_v(2), 0x0A);
    tick(&mut cpu);
    assert_eq!(cpu.get_v(3), 0x14);
    tick(&mut cpu);
    assert_eq!(cpu.get_v(2), 0x1E);
    assert_eq!(cpu.get_v(3), 0x14);
    assert_eq!(cpu.get_v(0xF), 0);
    assert_eq!(cpu.get_pc(), 0x206);
}

#[test]
fn add_with_carry_wraps_and_sets_vf() {
    let mut cpu = Cpu::new(&[0x60, 0xFF, 0x61, 0x01, 0x80, 0x14]);
    tick(&mut cpu);
    tick(&mut cpu);
    tick(&mut cpu);
    assert_eq!(cpu.get_v(0), 0x00);
    assert_eq!(cpu.get_v(0xF), 1);
}

#[test]
fn sub_with_borrow_wraps_and_clears_vf() {
    let mut cpu = Cpu::new(&[0x60, 0x00, 0x61, 0x01, 0x80, 0x15]);
    tick(&mut cpu);
    tick(&mut cpu);
    tick(&mut cpu);
    assert_eq!(cpu.get_v(0), 0xFF);
    assert_eq!(cpu.get_v(0xF), 0);
}

#[test]
fn shr_reads_vy_and_keeps_shifted_out_bit() {
    let mut cpu = Cpu::new(&[0x61, 0x03, 0x80, 0x16]);
    tick(&mut cpu);
    tick(&mut cpu);
    assert_eq!(cpu.get_v(0), 0x01);
    assert_eq!(cpu.get_v(0xF), 1);
}

#[test]
fn subn_writes_vy() {
    let mut cpu = Cpu::new(&[0x60, 0x05, 0x61, 0x03, 0x80, 0x17]);
    tick(&mut cpu);
    tick(&mut cpu);
    tick(&mut cpu);
    assert_eq!(cpu.get_v(1), 0xFE);
    assert_eq!(cpu.get_v(0), 0x05);
    assert_eq!(cpu.get_v(0xF), 0);
}

#[test]
fn call_and_ret_until_stack_underflow() {
    let mut cpu = Cpu::new(&[0x22, 0x04, 0x12, 0x04, 0x00, 0xEE]);
    tick(&mut cpu);
    assert_eq!(cpu.get_pc(), 0x204);
    assert_eq!(cpu.get_sp(), 1);
    tick(&mut cpu);
    assert_eq!(cpu.get_pc(), 0x202);
    assert_eq!(cpu.get_sp(), 0);
    tick(&mut cpu);
    assert_eq!(cpu.get_pc(), 0x204);
    let (_pc, word, op) = cpu.current();
    assert_eq!(word, 0x00EE);
    assert!(matches!(op, Op::RET {}));
    assert!(!cpu.can_step(&op));
}

#[test]
fn call_overflow_is_fatal_after_sixteen_frames() {
    let mut cpu = Cpu::new(&[0x22, 0x00]);
    for k in 1..=16 {
        tick(&mut cpu);
        assert_eq!(cpu.get_sp(), k);
        assert_eq!(cpu.get_pc(), 0x200);
    }
    let (_pc, _word, op) = cpu.current();
    assert!(matches!(op, Op::CALL_addr { nnn: 0x200 }));
    assert!(!cpu.can_step(&op));
}

#[test]
fn wait_key_latch_and_press() {
    let mut cpu = Cpu::new(&[0xF0, 0x0A]);
    assert!(!cpu.waiting_key());
    tick(&mut cpu);
    assert_eq!(cpu.get_pc(), 0x202);
    assert!(cpu.waiting_key());
    cpu.press(0x7);
    assert_eq!(cpu.get_v(0), 0x7);
    assert!(!cpu.waiting_key());
}

#[test]
fn press_without_wait_leaves_registers_alone() {
    let mut cpu = Cpu::new(&[0x12, 0x00]);
    cpu.press(0x3);
    for x in 0..16 {
        assert_eq!(cpu.get_v(x), 0);
    }
    assert!(!cpu.waiting_key());
}

#[test]
fn skp_and_sknp_follow_pressed_key() {
    let mut cpu = Cpu::new(&[0x60, 0x07, 0xE0, 0x9E, 0xE0, 0x9E, 0xE0, 0xA1]);
    tick(&mut cpu);
    cpu.press(0x7);
    tick(&mut cpu);
    assert_eq!(cpu.get_pc(), 0x206);
    cpu.release();
    tick(&mut cpu);
    assert_eq!(cpu.get_pc(), 0x20A);
}

#[test]
fn bcd_of_0xab() {
    let mut cpu = Cpu::new(&[0x65, 0xAB, 0xA2, 0x10, 0xF5, 0x33]);
    tick(&mut cpu);
    tick(&mut cpu);
    tick(&mut cpu);
    assert_eq!(cpu.get_ram(0x210), 1);
    assert_eq!(cpu.get_ram(0x211), 7);
    assert_eq!(cpu.get_ram(0x212), 1);
}

#[test]
fn font_index_and_glyph_draw() {
    let mut cpu = Cpu::new(&[0x60, 0x05, 0xF0, 0x29, 0xD0, 0x05, 0x12, 0x00]);
    tick(&mut cpu);
    tick(&mut cpu);
    assert_eq!(cpu.get_i(), 0x050 + 5 * 5);
    tick(&mut cpu);
    assert_eq!(cpu.get_v(0xF), 0);
    let glyph: [u8; 5] = [0xF0, 0x80, 0xF0, 0x10, 0xF0];
    for r in 0..5usize {
        for c in 0..8usize {
            let bit = (glyph[r] >> (7 - c)) & 1;
            let idx = (5 + r) * 64 + (5 + c);
            assert_eq!(cpu.video.ram[idx], bit, "pixel at row {} col {}", r, c);
        }
    }
    tick(&mut cpu);
    assert_eq!(cpu.get_pc(), 0x200);
}

#[test]
fn delay_timer_decrements_once_per_step() {
    let mut cpu = Cpu::new(&[0x60, 0x05, 0xF0, 0x15, 0xF1, 0x07]);
    tick(&mut cpu);
    tick(&mut cpu);
    assert_eq!(cpu.get_dt(), 5);
    tick(&mut cpu);
    assert_eq!(cpu.get_dt(), 4);
    assert_eq!(cpu.get_v(1), 4);
}

#[test]
fn store_and_load_registers_exclusive_of_x() {
    let mut cpu = Cpu::new(&[
        0x60, 0x11, 0x61, 0x22, 0xA3, 0x00, 0xF2, 0x55, 0x60, 0x00, 0x61, 0x00, 0xF2, 0x65,
    ]);
    for _ in 0..4 {
        tick(&mut cpu);
    }
    assert_eq!(cpu.get_ram(0x300), 0x11);
    assert_eq!(cpu.get_ram(0x301), 0x22);
    assert_eq!(cpu.get_ram(0x302), 0x00);
    tick(&mut cpu);
    tick(&mut cpu);
    assert_eq!(cpu.get_v(0), 0);
    assert_eq!(cpu.get_v(1), 0);
    tick(&mut cpu);
    assert_eq!(cpu.get_v(0), 0x11);
    assert_eq!(cpu.get_v(1), 0x22);
    assert_eq!(cpu.get_v(2), 0x00);
}

#[test]
fn add_i_extends_the_index_register() {
    let mut cpu = Cpu::new(&[0x60, 0x0A, 0xAF, 0xFF, 0xF0, 0x1E]);
    tick(&mut cpu);
    tick(&mut cpu);
    assert_eq!(cpu.get_i(), 0xFFF);
    tick(&mut cpu);
    assert_eq!(cpu.get_i(), 0x1009);
    assert_eq!(cpu.get_v(0xF), 0);
}

#[test]
fn draw_past_ram_end_is_fatal() {
    let mut cpu = Cpu::new(&[0xAF, 0xFF, 0xD0, 0x02]);
    tick(&mut cpu);
    let (_pc, _word, op) = cpu.current();
    assert!(matches!(op, Op::DRW_Vx_Vy_nibble { x: 0, y: 0, n: 2 }));
    assert!(!cpu.can_step(&op));
}

#[test]
fn unknown_word_is_fatal() {
    let mut cpu = Cpu::new(&[0x00, 0x00]);
    let (_pc, word, op) = cpu.current();
    assert_eq!(word, 0x0000);
    assert!(matches!(op, Op::UNKNOWN {}));
    assert!(!cpu.can_step(&op));
}

#[test]
fn rnd_masks_the_random_byte() {
    let mut cpu = Cpu::new(&[0xC0, 0x0F, 0xC1, 0x00]);
    tick(&mut cpu);
    assert!(cpu.get_v(0) <= 0x0F);
    tick(&mut cpu);
    assert_eq!(cpu.get_v(1), 0x00);
}

#[test]
fn cls_after_draw_renders_an_all_off_frame() {
    let mut cpu = Cpu::new(&[0x60, 0x05, 0xF0, 0x29, 0xD0, 0x05, 0x00, 0xE0]);
    for _ in 0..3 {
        tick(&mut cpu);
    }
    assert!(cpu.video.ram.iter().any(|&c| c != 0));
    tick(&mut cpu);
    assert!(cpu.video.ram.iter().all(|&c| c == 0));
    let frame = cpu.video.render();
    assert!(frame.iter().all(|&g| g == '.'));
}

#[test]
fn jp_v0_adds_the_register() {
    let mut cpu = Cpu::new(&[0x60, 0x04, 0xB2, 0x02]);
    tick(&mut cpu);
    tick(&mut cpu);
    assert_eq!(cpu.get_pc(), 0x206);
}
