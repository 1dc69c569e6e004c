use chip8::font::font_set;
use chip8::instruction::{decode, Instruction};
use chip8::machine::{Chip8, Fault, PROGRAM_START};

fn machine_with(program: &[u8]) -> Chip8 {
    let font = font_set();
    let mut m = Chip8::new(&font);
    m.load_rom(program);
    m
}

fn run(m: &mut Chip8, steps: usize) {
    for _ in 0..steps {
        m.step(0).unwrap();
    }
}

#[test]
fn pc_starts_at_program_start_and_fetch_advances_by_two() {
    let mut m = machine_with(&[0x60, 0x05, 0x61, 0x07]);
    assert_eq!(m.pc(), 0x200);
    assert_eq!(PROGRAM_START, 0x200);
    m.fetch();
    assert_eq!(m.pc(), 0x202);
    assert_eq!(m.opcode(), 0x6005);
    let mut m = machine_with(&[0x60, 0x05, 0x61, 0x07]);
    run(&mut m, 2);
    assert_eq!(m.pc(), 0x204);
    assert_eq!(m.register(0), 5);
    assert_eq!(m.register(1), 7);
}

#[test]
fn fetch_at_end_of_memory_wraps() {
    let mut m = machine_with(&[0x1F, 0xFE]);
    run(&mut m, 1);
    assert_eq!(m.pc(), 0xFFE);
    m.fetch();
    assert_eq!(m.pc(), 0x000);
    assert_eq!(m.opcode(), 0x0000);
}

#[test]
fn font_is_loaded_at_start_of_memory() {
    let m = machine_with(&[]);
    assert_eq!(m.memory(0), 0xF0);
    assert_eq!(m.memory(5), 0x20);
    assert_eq!(m.memory(79), 0x80);
    assert_eq!(m.memory(80), 0);
    assert_eq!(font_set().len(), 80);
}

#[test]
fn rom_bytes_past_end_of_memory_are_dropped() {
    let data: Vec<u8> = (0..4000usize).map(|i| (i % 251) as u8 + 1).collect();
    let m = machine_with(&data);
    assert_eq!(m.memory(0x200), 1);
    assert_eq!(m.memory(4095), ((4095 - 0x200) % 251) as u8 + 1);
    assert_eq!(m.memory(0x1FF), 0);
}

#[test]
fn clear_screen_zeroes_all_cells_and_sets_dirty() {
    // draw the 0 glyph, take the render, then clear
    let mut m = machine_with(&[0xD0, 0x05, 0x00, 0xE0]);
    run(&mut m, 1);
    assert_eq!(m.pixel(0, 0), 1);
    let out = m.tick([false; 16]);
    assert!(out.render);
    assert!(!m.needs_redraw());
    run(&mut m, 1);
    assert!(m.needs_redraw());
    assert!(m.framebuffer().iter().all(|&c| c == 0));
    assert_eq!(m.framebuffer().len(), 2048);
}

#[test]
fn call_then_return_restores_pc() {
    // 0x200: call 0x300; 0x300: return
    let mut program = vec![0u8; 0x102];
    program[0] = 0x23;
    program[1] = 0x00;
    program[0x100] = 0x00;
    program[0x101] = 0xEE;
    let mut m = machine_with(&program);
    run(&mut m, 1);
    assert_eq!(m.pc(), 0x300);
    assert_eq!(m.stack_pointer(), 1);
    run(&mut m, 1);
    assert_eq!(m.pc(), 0x202);
    assert_eq!(m.stack_pointer(), 0);
}

#[test]
fn sixteen_nested_calls_succeed_and_seventeenth_overflows() {
    // a subroutine at 0x200 that calls itself
    let mut m = machine_with(&[0x22, 0x00]);
    for depth in 1..=16 {
        assert_eq!(m.step(0), Ok(()));
        assert_eq!(m.stack_pointer(), depth);
    }
    assert_eq!(m.step(0), Err(Fault::StackOverflow));
    assert_eq!(m.stack_pointer(), 16);
    assert_eq!(m.op_2nnn(0x300), Err(Fault::StackOverflow));
}

#[test]
fn return_on_empty_stack_underflows() {
    let mut m = machine_with(&[0x00, 0xEE]);
    assert_eq!(m.step(0), Err(Fault::StackUnderflow));
    assert_eq!(m.stack_pointer(), 0);
    assert_eq!(m.pc(), 0x202);
}

#[test]
fn add_registers_with_and_without_carry() {
    let mut m = machine_with(&[]);
    m.op_6xkk(0, 0xFF);
    m.op_6xkk(1, 0x01);
    m.op_8xy4(0, 1);
    assert_eq!(m.register(0), 0x00);
    assert_eq!(m.register(15), 1);
    m.op_6xkk(0, 0x01);
    m.op_6xkk(1, 0x01);
    m.op_8xy4(0, 1);
    assert_eq!(m.register(0), 0x02);
    assert_eq!(m.register(15), 0);
}

#[test]
fn forward_subtract_wraps_and_clears_flag() {
    let mut m = machine_with(&[]);
    m.op_6xkk(0, 0x01);
    m.op_6xkk(1, 0x02);
    m.op_8xy5(0, 1);
    assert_eq!(m.register(0), 0xFF);
    assert_eq!(m.register(15), 0);
    m.op_6xkk(0, 0x05);
    m.op_6xkk(1, 0x02);
    m.op_8xy5(0, 1);
    assert_eq!(m.register(0), 0x03);
    assert_eq!(m.register(15), 1);
}

#[test]
fn subtract_with_equal_operands_clears_flag() {
    let mut m = machine_with(&[]);
    m.op_6xkk(0, 0x07);
    m.op_6xkk(1, 0x07);
    m.op_8xy5(0, 1);
    assert_eq!(m.register(0), 0);
    assert_eq!(m.register(15), 0);
}

#[test]
fn reverse_subtract_and_shifts() {
    let mut m = machine_with(&[]);
    m.op_6xkk(0, 0x02);
    m.op_6xkk(1, 0x01);
    m.op_8xy7(0, 1);
    assert_eq!(m.register(0), 0xFF);
    assert_eq!(m.register(15), 0);
    m.op_6xkk(2, 0x81);
    m.op_8xy6(2);
    assert_eq!(m.register(2), 0x40);
    assert_eq!(m.register(15), 1);
    m.op_6xkk(3, 0x81);
    m.op_8xye(3);
    assert_eq!(m.register(3), 0x02);
    assert_eq!(m.register(15), 1);
    m.op_6xkk(4, 0x40);
    m.op_8xye(4);
    assert_eq!(m.register(4), 0x80);
    assert_eq!(m.register(15), 0);
}

#[test]
fn bitwise_and_immediate_operations() {
    let mut m = machine_with(&[]);
    m.op_6xkk(0, 0b1100);
    m.op_6xkk(1, 0b1010);
    m.op_8xy1(0, 1);
    assert_eq!(m.register(0), 0b1110);
    m.op_8xy2(0, 1);
    assert_eq!(m.register(0), 0b1010);
    m.op_8xy3(0, 1);
    assert_eq!(m.register(0), 0);
    m.op_6xkk(2, 0xFE);
    m.op_7xkk(2, 0x03);
    assert_eq!(m.register(2), 0x01);
    assert_eq!(m.register(15), 0);
    m.op_8xy0(3, 2);
    assert_eq!(m.register(3), 0x01);
}

#[test]
fn double_draw_restores_screen_and_reports_collision() {
    let mut m = machine_with(&[]);
    m.op_6xkk(0, 10);
    m.op_6xkk(1, 4);
    m.op_fx29(0);
    let before = m.framebuffer();
    m.op_dxyn(0, 1, 5);
    assert_eq!(m.register(15), 0);
    assert_ne!(m.framebuffer(), before);
    m.op_dxyn(0, 1, 5);
    assert_eq!(m.register(15), 1);
    assert_eq!(m.framebuffer(), before);
}

#[test]
fn bcd_of_156() {
    let mut m = machine_with(&[]);
    m.op_6xkk(4, 156);
    m.op_annn(0x300);
    m.op_fx33(4);
    assert_eq!(m.memory(0x300), 1);
    assert_eq!(m.memory(0x301), 5);
    assert_eq!(m.memory(0x302), 6);
}

#[test]
fn bcd_at_end_of_memory_wraps() {
    let mut m = machine_with(&[]);
    m.op_6xkk(0, 255);
    m.op_annn(0xFFF);
    m.op_fx33(0);
    assert_eq!(m.memory(0xFFF), 2);
    assert_eq!(m.memory(0x000), 5);
    assert_eq!(m.memory(0x001), 5);
}

#[test]
fn block_store_then_load_round_trip() {
    for x in 0..16usize {
        let mut m = machine_with(&[]);
        for i in 0..16usize {
            m.op_6xkk(i, (i as u8) * 17 + 3);
        }
        m.op_annn(0x400);
        m.op_fx55(x);
        assert_eq!(m.index_register(), 0x400);
        for i in 0..=x {
            m.op_6xkk(i, 0);
        }
        m.op_fx65(x);
        assert_eq!(m.index_register(), 0x400);
        for i in 0..16usize {
            assert_eq!(m.register(i), (i as u8) * 17 + 3);
        }
    }
}

#[test]
fn key_skip_masks_out_of_range_register() {
    let mut m = machine_with(&[]);
    let mut keys = [false; 16];
    keys[0xF] = true;
    m.tick(keys);
    m.op_6xkk(0, 0x1F);
    let pc = m.pc();
    m.op_ex9e(0);
    assert_eq!(m.pc(), pc + 2);
    m.op_6xkk(0, 0xFE);
    m.op_ex9e(0);
    assert_eq!(m.pc(), pc + 2);
    m.op_exa1(0);
    assert_eq!(m.pc(), pc + 4);
}

#[test]
fn draw_wraps_at_bottom_right_corner() {
    let mut m = machine_with(&[]);
    // a full 8x2 block
    m.op_annn(0x300);
    m.op_6xkk(2, 0xFF);
    m.op_6xkk(3, 0xFF);
    m.op_fx55(3);
    m.op_annn(0x302);
    m.op_6xkk(0, 63);
    m.op_6xkk(1, 31);
    m.op_dxyn(0, 1, 2);
    for &y in &[31usize, 0] {
        for &x in &[63usize, 0, 1, 2, 3, 4, 5, 6] {
            assert_eq!(m.pixel(x, y), 1, "x={} y={}", x, y);
        }
        assert_eq!(m.pixel(7, y), 0);
        assert_eq!(m.pixel(62, y), 0);
    }
    assert_eq!(m.pixel(0, 1), 0);
    assert_eq!(m.pixel(0, 30), 0);
    assert_eq!(m.framebuffer().iter().filter(|&&c| c == 1).count(), 16);
}

#[test]
fn skips_compare_registers_and_immediates() {
    let mut m = machine_with(&[]);
    m.op_6xkk(0, 5);
    m.op_6xkk(1, 5);
    let pc = m.pc();
    m.op_3xkk(0, 5);
    assert_eq!(m.pc(), pc + 2);
    m.op_4xkk(0, 5);
    assert_eq!(m.pc(), pc + 2);
    m.op_5xy0(0, 1);
    assert_eq!(m.pc(), pc + 4);
    m.op_9xy0(0, 1);
    assert_eq!(m.pc(), pc + 4);
    m.op_6xkk(1, 6);
    m.op_9xy0(0, 1);
    assert_eq!(m.pc(), pc + 6);
}

#[test]
fn jumps_and_index_arithmetic_wrap() {
    let mut m = machine_with(&[]);
    m.op_1nnn(0x345);
    assert_eq!(m.pc(), 0x345);
    m.op_6xkk(0, 0x10);
    m.op_bnnn(0xFF8);
    assert_eq!(m.pc(), 0x008);
    m.op_annn(0xFFF);
    m.op_6xkk(1, 2);
    m.op_fx1e(1);
    assert_eq!(m.index_register(), 0x001);
    m.op_6xkk(2, 0xA);
    m.op_fx29(2);
    assert_eq!(m.index_register(), 50);
}

#[test]
fn timers_count_down_once_per_tick() {
    let mut m = machine_with(&[]);
    m.op_6xkk(0, 2);
    m.op_fx15(0);
    m.op_fx18(0);
    assert_eq!(m.delay_timer(), 2);
    let out = m.tick([false; 16]);
    assert_eq!(m.delay_timer(), 1);
    assert_eq!(m.sound_timer(), 1);
    assert!(out.tone);
    assert!(!out.render);
    let out = m.tick([false; 16]);
    assert_eq!(m.sound_timer(), 0);
    assert!(!out.tone);
    m.tick([false; 16]);
    assert_eq!(m.delay_timer(), 0);
    m.op_fx07(3);
    assert_eq!(m.register(3), 0);
}

#[test]
fn wait_for_key_repeats_until_a_key_is_down() {
    let mut m = machine_with(&[0xF5, 0x0A, 0x00, 0x00]);
    run(&mut m, 1);
    assert_eq!(m.pc(), 0x200);
    run(&mut m, 1);
    assert_eq!(m.pc(), 0x200);
    let mut keys = [false; 16];
    keys[9] = true;
    keys[12] = true;
    m.tick(keys);
    run(&mut m, 1);
    assert_eq!(m.pc(), 0x202);
    assert_eq!(m.register(5), 9);
}

#[test]
fn random_byte_is_masked() {
    let mut m = machine_with(&[]);
    m.store_random(3, 0x0F, 0xAB);
    assert_eq!(m.register(3), 0x0B);
    m.op_6xkk(4, 0xFF);
    m.op_cxkk(4, 0x00);
    assert_eq!(m.register(4), 0);
    for _ in 0..32 {
        m.op_cxkk(5, 0x0F);
        assert!(m.register(5) <= 0x0F);
    }
    let mut m = machine_with(&[0xC2, 0xF0]);
    m.step(0x3C).unwrap();
    assert_eq!(m.register(2), 0x30);
    let mut m = machine_with(&[0xC2, 0x00, 0xC3, 0x0F]);
    m.cycle().unwrap();
    assert_eq!(m.register(2), 0);
    m.cycle().unwrap();
    assert!(m.register(3) <= 0x0F);
}

#[test]
fn decode_maps_words_to_operations() {
    assert_eq!(decode(0x00E0), Instruction::ClearScreen);
    assert_eq!(decode(0x00EE), Instruction::Return);
    assert_eq!(decode(0x1ABC), Instruction::Jump { addr: 0xABC });
    assert_eq!(decode(0x2ABC), Instruction::Call { addr: 0xABC });
    assert_eq!(decode(0x3A12), Instruction::SkipEqImm { x: 0xA, kk: 0x12 });
    assert_eq!(decode(0x5AB0), Instruction::SkipEqReg { x: 0xA, y: 0xB });
    assert_eq!(decode(0x8AB4), Instruction::AddReg { x: 0xA, y: 0xB });
    assert_eq!(decode(0x8AB6), Instruction::ShiftRight { x: 0xA });
    assert_eq!(decode(0x8ABE), Instruction::ShiftLeft { x: 0xA });
    assert_eq!(decode(0xBABC), Instruction::JumpOffset { addr: 0xABC });
    assert_eq!(decode(0xC1FF), Instruction::Random { x: 1, kk: 0xFF });
    assert_eq!(decode(0xD12F), Instruction::Draw { x: 1, y: 2, n: 0xF });
    assert_eq!(decode(0xE39E), Instruction::SkipKey { x: 3 });
    assert_eq!(decode(0xE3A1), Instruction::SkipNoKey { x: 3 });
    assert_eq!(decode(0xF40A), Instruction::WaitKey { x: 4 });
    assert_eq!(decode(0xF433), Instruction::Bcd { x: 4 });
    assert_eq!(decode(0xF455), Instruction::StoreRegs { x: 4 });
    assert_eq!(decode(0xF465), Instruction::LoadRegs { x: 4 });
}

#[test]
fn unknown_words_decode_to_nop_and_only_advance() {
    assert_eq!(decode(0x0123), Instruction::Nop);
    assert_eq!(decode(0x5AB1), Instruction::Nop);
    assert_eq!(decode(0x8AB8), Instruction::Nop);
    assert_eq!(decode(0xE000), Instruction::Nop);
    assert_eq!(decode(0xFFFF), Instruction::Nop);
    let mut m = machine_with(&[0xFF, 0xFF]);
    assert_eq!(m.step(0), Ok(()));
    assert_eq!(m.pc(), 0x202);
    assert_eq!(m.execute(Instruction::Nop, 0), Ok(()));
    assert_eq!(m.pc(), 0x202);
}
