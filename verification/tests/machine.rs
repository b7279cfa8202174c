use chip8::{decode, Chip8, Fault, Instruction, Keycode, LoadError, FONTSET};

fn machine(program: &[u8]) -> Chip8 {
    match Chip8::new(program) {
        Ok(cpu) => cpu,
        Err(error) => panic!("the program does not fit: {:?}", error),
    }
}

fn run(cpu: &mut Chip8, cycles: usize) {
    for _ in 0..cycles {
        assert_eq!(cpu.step(), Ok(()));
    }
}

fn pixel(cpu: &Chip8, x: usize, y: usize) -> bool {
    let frame = cpu.get_framebuffer();
    frame[(x + y * 64) * 4] != 0
}

fn lit_pixels(cpu: &Chip8) -> usize {
    let frame = cpu.get_framebuffer();
    (0..2048).filter(|cell| frame[cell * 4] != 0).count()
}

#[test]
fn new_machine_holds_font_and_program() {
    let cpu = machine(&[0x12, 0x34, 0x56]);
    let memory = cpu.get_memory();
    assert_eq!(&memory[0x050..0x0A0], &FONTSET[..]);
    assert_eq!(&memory[0x200..0x203], &[0x12, 0x34, 0x56]);
    assert!(memory[..0x050].iter().all(|byte| *byte == 0));
    assert!(memory[0x0A0..0x200].iter().all(|byte| *byte == 0));
    assert!(memory[0x203..].iter().all(|byte| *byte == 0));
    assert_eq!(cpu.get_program_counter(), 0x200);
    assert_eq!(cpu.get_program_index(), 0);
    assert_eq!(cpu.get_stack_pointer(), 0);
    assert_eq!(cpu.get_stack(), &[0u16; 16]);
    assert_eq!(cpu.get_registers(), &[0u8; 16]);
    assert_eq!(cpu.get_opcode(), 0);
    assert_eq!(cpu.get_delay_timer(), 0);
    assert_eq!(cpu.get_sound_timer(), 0);
    assert!(!cpu.get_beep_flag());
    assert_eq!(lit_pixels(&cpu), 0);
}

#[test]
fn font_has_the_glyph_of_zero_first() {
    assert_eq!(&FONTSET[..5], &[0xF0, 0x90, 0x90, 0x90, 0xF0]);
    assert_eq!(&FONTSET[75..], &[0xF0, 0x80, 0xF0, 0x80, 0x80]);
}

#[test]
fn largest_program_is_accepted() {
    let program = vec![0xAB; 3584];
    let cpu = machine(&program);
    assert_eq!(cpu.get_memory()[0x200], 0xAB);
    assert_eq!(cpu.get_memory()[4095], 0xAB);
}

#[test]
fn program_one_byte_too_long_is_refused() {
    let program = vec![0xAB; 3585];
    assert_eq!(
        Chip8::new(&program).err(),
        Some(LoadError::CapacityExceeded { capacity: 3584, length: 3585 })
    );
}

#[test]
fn refused_program_leaves_the_machine_untouched() {
    // V1 = 7, I = 0x123, call 0x208 (one open call), then the load is tried.
    let mut cpu = machine(&[0x61, 0x07, 0xA1, 0x23, 0x22, 0x08, 0x00, 0x00, 0x00, 0x00]);
    run(&mut cpu, 3);
    let memory_before = *cpu.get_memory();
    let registers_before = *cpu.get_registers();
    let stack_before = *cpu.get_stack();
    let frame_before = cpu.get_framebuffer();
    let too_long = vec![0xFF; 3585];
    assert_eq!(
        cpu.load_rom(&too_long),
        Err(LoadError::CapacityExceeded { capacity: 3584, length: 3585 })
    );
    assert_eq!(cpu.get_memory(), &memory_before);
    assert_eq!(cpu.get_registers(), &registers_before);
    assert_eq!(cpu.get_stack(), &stack_before);
    assert_eq!(cpu.get_framebuffer(), frame_before);
    assert_eq!(cpu.get_program_counter(), 0x208);
    assert_eq!(cpu.get_program_index(), 0x123);
    assert_eq!(cpu.get_stack_pointer(), 1);
    assert_eq!(cpu.get_opcode(), 0x2208);
}

#[test]
fn loading_a_program_resets_counter_index_and_stack_only() {
    // V1 = 7, delay = 7, I = 0x123, call 0x20A.
    let mut cpu =
        machine(&[0x61, 0x07, 0xF1, 0x15, 0xA1, 0x23, 0x22, 0x0A, 0x00, 0x00, 0x00, 0x00]);
    run(&mut cpu, 4);
    assert_eq!(cpu.get_stack_pointer(), 1);
    assert_eq!(cpu.get_stack()[0], 0x206);
    assert_eq!(cpu.load_rom(&[0xAA, 0xBB]), Ok(4096));
    assert_eq!(cpu.get_program_counter(), 0x200);
    assert_eq!(cpu.get_program_index(), 0);
    assert_eq!(cpu.get_stack_pointer(), 0);
    assert_eq!(cpu.get_stack(), &[0u16; 16]);
    assert_eq!(cpu.get_registers()[1], 7);
    assert_eq!(cpu.get_delay_timer(), 4);
    assert_eq!(&cpu.get_memory()[0x200..0x204], &[0xAA, 0xBB, 0xF1, 0x15]);
}

#[test]
fn font_of_81_bytes_is_refused_and_nothing_is_written() {
    let mut cpu = machine(&[]);
    let memory_before = *cpu.get_memory();
    assert_eq!(
        cpu.load_fontset(&[0x11; 81]),
        Err(LoadError::CapacityExceeded { capacity: 80, length: 81 })
    );
    assert_eq!(cpu.get_memory(), &memory_before);
}

#[test]
fn font_of_80_bytes_fills_the_font_area() {
    let mut cpu = machine(&[]);
    assert_eq!(cpu.load_fontset(&[0x11; 80]), Ok(()));
    let memory = cpu.get_memory();
    assert_eq!(memory[0x04F], 0);
    assert!(memory[0x050..0x0A0].iter().all(|byte| *byte == 0x11));
    assert_eq!(memory[0x0A0], 0);
}

#[test]
fn shorter_font_overwrites_only_its_own_length() {
    let mut cpu = machine(&[]);
    assert_eq!(cpu.load_fontset(&[0x11, 0x22]), Ok(()));
    let memory = cpu.get_memory();
    assert_eq!(&memory[0x050..0x052], &[0x11, 0x22]);
    assert_eq!(&memory[0x052..0x0A0], &FONTSET[2..]);
}

#[test]
fn decode_knows_every_instruction() {
    assert_eq!(decode(0x0000), Some(Instruction::NoOperation));
    assert_eq!(decode(0x00E0), Some(Instruction::ClearScreen));
    assert_eq!(decode(0x00EE), Some(Instruction::Return));
    assert_eq!(decode(0x1ABC), Some(Instruction::Jump { address: 0xABC }));
    assert_eq!(decode(0x2ABC), Some(Instruction::Call { address: 0xABC }));
    assert_eq!(decode(0x3A12), Some(Instruction::SkipIfEqual { x: 0xA, value: 0x12 }));
    assert_eq!(decode(0x4A12), Some(Instruction::SkipIfNotEqual { x: 0xA, value: 0x12 }));
    assert_eq!(decode(0x5AB0), Some(Instruction::SkipIfRegistersEqual { x: 0xA, y: 0xB }));
    assert_eq!(decode(0x6A12), Some(Instruction::LoadImmediate { x: 0xA, value: 0x12 }));
    assert_eq!(decode(0x7A12), Some(Instruction::AddImmediate { x: 0xA, value: 0x12 }));
    assert_eq!(decode(0x8AB0), Some(Instruction::Copy { x: 0xA, y: 0xB }));
    assert_eq!(decode(0x8AB1), Some(Instruction::Or { x: 0xA, y: 0xB }));
    assert_eq!(decode(0x8AB2), Some(Instruction::And { x: 0xA, y: 0xB }));
    assert_eq!(decode(0x8AB3), Some(Instruction::Xor { x: 0xA, y: 0xB }));
    assert_eq!(decode(0x8AB4), Some(Instruction::Add { x: 0xA, y: 0xB }));
    assert_eq!(decode(0x8AB5), Some(Instruction::Subtract { x: 0xA, y: 0xB }));
    assert_eq!(decode(0x8AB6), Some(Instruction::ShiftRight { x: 0xA, y: 0xB }));
    assert_eq!(decode(0x8AB7), Some(Instruction::SubtractReversed { x: 0xA, y: 0xB }));
    assert_eq!(decode(0x8ABE), Some(Instruction::ShiftLeft { x: 0xA, y: 0xB }));
    assert_eq!(decode(0x9AB0), Some(Instruction::SkipIfRegistersDiffer { x: 0xA, y: 0xB }));
    assert_eq!(decode(0xAABC), Some(Instruction::LoadIndex { address: 0xABC }));
    assert_eq!(decode(0xBABC), Some(Instruction::JumpOffset { address: 0xABC }));
    assert_eq!(decode(0xCA12), Some(Instruction::Random { x: 0xA, mask: 0x12 }));
    assert_eq!(decode(0xDAB5), Some(Instruction::Draw { x: 0xA, y: 0xB, rows: 5 }));
    assert_eq!(decode(0xEA9E), Some(Instruction::SkipIfKeyDown { x: 0xA }));
    assert_eq!(decode(0xEAA1), Some(Instruction::SkipIfKeyUp { x: 0xA }));
    assert_eq!(decode(0xFA07), Some(Instruction::ReadDelay { x: 0xA }));
    assert_eq!(decode(0xFA0A), Some(Instruction::WaitKey { x: 0xA }));
    assert_eq!(decode(0xFA15), Some(Instruction::SetDelay { x: 0xA }));
    assert_eq!(decode(0xFA18), Some(Instruction::SetSound { x: 0xA }));
    assert_eq!(decode(0xFA1E), Some(Instruction::AddIndex { x: 0xA }));
    assert_eq!(decode(0xFA29), Some(Instruction::Glyph { x: 0xA }));
    assert_eq!(decode(0xFA33), Some(Instruction::Decimal { x: 0xA }));
    assert_eq!(decode(0xFA55), Some(Instruction::Store { x: 0xA }));
    assert_eq!(decode(0xFA65), Some(Instruction::Load { x: 0xA }));
}

#[test]
fn decode_refuses_every_other_word() {
    let mut known = 0usize;
    for word in 0..=0xFFFFu16 {
        let family = word >> 12;
        let n = word & 0x000F;
        let nn = word & 0x00FF;
        let nnn = word & 0x0FFF;
        let expected = match family {
            0x0 => nnn == 0x000 || nnn == 0x0E0 || nnn == 0x0EE,
            0x5 | 0x9 => n == 0,
            0x8 => n <= 7 || n == 0xE,
            0xE => nn == 0x9E || nn == 0xA1,
            0xF => [0x07, 0x0A, 0x15, 0x18, 0x1E, 0x29, 0x33, 0x55, 0x65].contains(&nn),
            _ => true,
        };
        assert_eq!(decode(word).is_some(), expected, "word {:04X}", word);
        if expected {
            known += 1;
        }
    }
    assert_eq!(known, 3 + 10 * 4096 + 2 * 256 + 9 * 256 + 2 * 16 + 9 * 16);
}

#[test]
fn unknown_words_fault_and_change_only_the_opcode_register() {
    for word in [0x0001u16, 0x0123, 0x00EF, 0x5121, 0x8128, 0x812F, 0x9AB1, 0xE19F, 0xE000, 0xF0FF, 0xF100] {
        let program = [0x63, 0x2A, (word >> 8) as u8, (word & 0xFF) as u8];
        let mut cpu = machine(&program);
        run(&mut cpu, 1);
        let memory_before = *cpu.get_memory();
        let registers_before = *cpu.get_registers();
        assert_eq!(cpu.step(), Err(Fault::UnknownInstruction), "word {:04X}", word);
        assert_eq!(cpu.get_opcode(), word);
        assert_eq!(cpu.get_program_counter(), 0x202);
        assert_eq!(cpu.get_memory(), &memory_before);
        assert_eq!(cpu.get_registers(), &registers_before);
        assert_eq!(cpu.get_stack_pointer(), 0);
    }
}

#[test]
fn word_zero_only_moves_on() {
    let mut cpu = machine(&[0x00, 0x00]);
    assert_eq!(cpu.step(), Ok(()));
    assert_eq!(cpu.get_program_counter(), 0x202);
    assert_eq!(cpu.get_registers(), &[0u8; 16]);
    assert_eq!(cpu.get_opcode(), 0x0000);
}

#[test]
fn jump_sets_the_program_counter() {
    let mut cpu = machine(&[0x1A, 0xBC]);
    run(&mut cpu, 1);
    assert_eq!(cpu.get_program_counter(), 0xABC);
    assert_eq!(cpu.get_opcode(), 0x1ABC);
}

#[test]
fn jump_with_offset_adds_register_zero() {
    let mut cpu = machine(&[0x60, 0xFF, 0xBF, 0xFF]);
    run(&mut cpu, 2);
    assert_eq!(cpu.get_program_counter(), 0x0FFF + 0xFF);
}

#[test]
fn load_immediate_sets_a_register() {
    let mut cpu = machine(&[0x6C, 0x9D]);
    run(&mut cpu, 1);
    assert_eq!(cpu.get_registers()[0xC], 0x9D);
    assert_eq!(cpu.get_program_counter(), 0x202);
}

#[test]
fn add_immediate_wraps_and_leaves_the_flag_alone() {
    // VF = 7, V1 = 0xF0, V1 += 0x20.
    let mut cpu = machine(&[0x6F, 0x07, 0x61, 0xF0, 0x71, 0x20]);
    run(&mut cpu, 3);
    assert_eq!(cpu.get_registers()[1], 0x10);
    assert_eq!(cpu.get_registers()[0xF], 7);
}

#[test]
fn add_immediate_to_the_flag_register_adds_to_it() {
    let mut cpu = machine(&[0x6F, 0xFF, 0x7F, 0x02]);
    run(&mut cpu, 2);
    assert_eq!(cpu.get_registers()[0xF], 1);
}

#[test]
fn add_reports_a_carry_exactly_above_255() {
    // 200 + 55 = 255: no carry.
    let mut cpu = machine(&[0x6F, 0x09, 0x61, 200, 0x62, 55, 0x81, 0x24]);
    run(&mut cpu, 4);
    assert_eq!(cpu.get_registers()[1], 255);
    assert_eq!(cpu.get_registers()[0xF], 0);
    // 200 + 56 = 256: carry, result 0.
    let mut cpu = machine(&[0x61, 200, 0x62, 56, 0x81, 0x24]);
    run(&mut cpu, 3);
    assert_eq!(cpu.get_registers()[1], 0);
    assert_eq!(cpu.get_registers()[0xF], 1);
    // 255 + 255 = 510.
    let mut cpu = machine(&[0x61, 255, 0x62, 255, 0x81, 0x24]);
    run(&mut cpu, 3);
    assert_eq!(cpu.get_registers()[1], 254);
    assert_eq!(cpu.get_registers()[0xF], 1);
}

#[test]
fn flag_is_written_after_the_result() {
    // VF = 200, V2 = 100, VF += V2: the carry wins over the sum.
    let mut cpu = machine(&[0x6F, 200, 0x62, 100, 0x8F, 0x24]);
    run(&mut cpu, 3);
    assert_eq!(cpu.get_registers()[0xF], 1);
    // VF = 5 as the second operand is read before the flag is written.
    let mut cpu = machine(&[0x6F, 5, 0x61, 10, 0x81, 0xF4]);
    run(&mut cpu, 3);
    assert_eq!(cpu.get_registers()[1], 15);
    assert_eq!(cpu.get_registers()[0xF], 0);
}

#[test]
fn subtract_reports_no_borrow() {
    // VX = 0, VY = 0: flag 1, result 0.
    let mut cpu = machine(&[0x81, 0x25]);
    run(&mut cpu, 1);
    assert_eq!(cpu.get_registers()[1], 0);
    assert_eq!(cpu.get_registers()[0xF], 1);
    // VX = 0, VY = 1: flag 0, result 255.
    let mut cpu = machine(&[0x62, 0x01, 0x81, 0x25]);
    run(&mut cpu, 2);
    assert_eq!(cpu.get_registers()[1], 255);
    assert_eq!(cpu.get_registers()[0xF], 0);
    // 10 - 3 = 7, no borrow.
    let mut cpu = machine(&[0x61, 10, 0x62, 3, 0x81, 0x25]);
    run(&mut cpu, 3);
    assert_eq!(cpu.get_registers()[1], 7);
    assert_eq!(cpu.get_registers()[2], 3);
    assert_eq!(cpu.get_registers()[0xF], 1);
}

#[test]
fn reversed_subtract_reports_no_borrow() {
    // VX = 0, VY = 0: flag 1, result 0.
    let mut cpu = machine(&[0x81, 0x27]);
    run(&mut cpu, 1);
    assert_eq!(cpu.get_registers()[1], 0);
    assert_eq!(cpu.get_registers()[0xF], 1);
    // VY = 0, VX = 1: VY - VX borrows, result 255.
    let mut cpu = machine(&[0x61, 0x01, 0x81, 0x27]);
    run(&mut cpu, 2);
    assert_eq!(cpu.get_registers()[1], 255);
    assert_eq!(cpu.get_registers()[0xF], 0);
    // VY = 10, VX = 3: 7, no borrow.
    let mut cpu = machine(&[0x61, 3, 0x62, 10, 0x81, 0x27]);
    run(&mut cpu, 3);
    assert_eq!(cpu.get_registers()[1], 7);
    assert_eq!(cpu.get_registers()[0xF], 1);
}

#[test]
fn copy_or_and_xor_combine_registers() {
    let mut cpu = machine(&[0x61, 0xCC, 0x62, 0xAA, 0x83, 0x20, 0x84, 0x10, 0x84, 0x21, 0x85, 0x10,
        0x85, 0x22, 0x86, 0x10, 0x86, 0x23]);
    run(&mut cpu, 9);
    let registers = cpu.get_registers();
    assert_eq!(registers[3], 0xAA);
    assert_eq!(registers[4], 0xEE);
    assert_eq!(registers[5], 0x88);
    assert_eq!(registers[6], 0x66);
    assert_eq!(registers[0xF], 0);
}

#[test]
fn shift_right_takes_the_second_register_and_flags_the_low_bit() {
    let mut cpu = machine(&[0x62, 0x05, 0x81, 0x26]);
    run(&mut cpu, 2);
    assert_eq!(cpu.get_registers()[1], 0x02);
    assert_eq!(cpu.get_registers()[2], 0x05);
    assert_eq!(cpu.get_registers()[0xF], 1);
    let mut cpu = machine(&[0x6F, 0x01, 0x62, 0x04, 0x81, 0x26]);
    run(&mut cpu, 3);
    assert_eq!(cpu.get_registers()[1], 0x02);
    assert_eq!(cpu.get_registers()[0xF], 0);
}

#[test]
fn shift_left_flags_the_high_bit_as_one() {
    let mut cpu = machine(&[0x62, 0x81, 0x81, 0x2E]);
    run(&mut cpu, 2);
    assert_eq!(cpu.get_registers()[1], 0x02);
    assert_eq!(cpu.get_registers()[2], 0x81);
    assert_eq!(cpu.get_registers()[0xF], 1);
    let mut cpu = machine(&[0x6F, 0x01, 0x62, 0x41, 0x81, 0x2E]);
    run(&mut cpu, 3);
    assert_eq!(cpu.get_registers()[1], 0x82);
    assert_eq!(cpu.get_registers()[0xF], 0);
}

#[test]
fn skips_compare_a_register_with_a_constant() {
    let mut cpu = machine(&[0x61, 0x33, 0x31, 0x33]);
    run(&mut cpu, 2);
    assert_eq!(cpu.get_program_counter(), 0x206);
    let mut cpu = machine(&[0x61, 0x33, 0x31, 0x34]);
    run(&mut cpu, 2);
    assert_eq!(cpu.get_program_counter(), 0x204);
    let mut cpu = machine(&[0x61, 0x33, 0x41, 0x33]);
    run(&mut cpu, 2);
    assert_eq!(cpu.get_program_counter(), 0x204);
    let mut cpu = machine(&[0x61, 0x33, 0x41, 0x34]);
    run(&mut cpu, 2);
    assert_eq!(cpu.get_program_counter(), 0x206);
}

#[test]
fn skips_compare_two_registers() {
    let mut cpu = machine(&[0x61, 0x33, 0x62, 0x33, 0x51, 0x20]);
    run(&mut cpu, 3);
    assert_eq!(cpu.get_program_counter(), 0x208);
    let mut cpu = machine(&[0x61, 0x33, 0x62, 0x34, 0x51, 0x20]);
    run(&mut cpu, 3);
    assert_eq!(cpu.get_program_counter(), 0x206);
    let mut cpu = machine(&[0x61, 0x33, 0x62, 0x33, 0x91, 0x20]);
    run(&mut cpu, 3);
    assert_eq!(cpu.get_program_counter(), 0x206);
    let mut cpu = machine(&[0x61, 0x33, 0x62, 0x34, 0x91, 0x20]);
    run(&mut cpu, 3);
    assert_eq!(cpu.get_program_counter(), 0x208);
}

#[test]
fn sixteen_calls_fit_and_the_next_overflows() {
    // Each call goes to the call behind it.
    let mut program = Vec::new();
    for call in 0..17u16 {
        let target = 0x200 + 2 * (call + 1);
        program.push(0x20 | (target >> 8) as u8);
        program.push((target & 0xFF) as u8);
    }
    let mut cpu = machine(&program);
    for call in 0..16usize {
        assert_eq!(cpu.step(), Ok(()));
        assert_eq!(cpu.get_stack_pointer(), call + 1);
        assert_eq!(cpu.get_stack()[call], 0x200 + 2 * call as u16);
    }
    assert_eq!(cpu.get_program_counter(), 0x220);
    let stack_before = *cpu.get_stack();
    assert_eq!(cpu.step(), Err(Fault::StackOverflow));
    assert_eq!(cpu.get_stack_pointer(), 16);
    assert_eq!(cpu.get_stack(), &stack_before);
    assert_eq!(cpu.get_program_counter(), 0x220);
    assert_eq!(cpu.get_opcode(), 0x2222);
}

#[test]
fn return_without_a_call_underflows() {
    let mut cpu = machine(&[0x00, 0xEE]);
    assert_eq!(cpu.step(), Err(Fault::StackUnderflow));
    assert_eq!(cpu.get_stack_pointer(), 0);
    assert_eq!(cpu.get_program_counter(), 0x200);
    assert_eq!(cpu.get_opcode(), 0x00EE);
}

#[test]
fn return_goes_on_behind_the_call() {
    // 0x200: no operation; 0x202: call 0x206; 0x206: return.
    let mut cpu = machine(&[0x00, 0x00, 0x22, 0x06, 0x00, 0x00, 0x00, 0xEE]);
    run(&mut cpu, 2);
    assert_eq!(cpu.get_program_counter(), 0x206);
    assert_eq!(cpu.get_stack_pointer(), 1);
    assert_eq!(cpu.get_stack()[0], 0x202);
    run(&mut cpu, 1);
    assert_eq!(cpu.get_program_counter(), 0x204);
    assert_eq!(cpu.get_stack_pointer(), 0);
}

#[test]
fn drawing_a_sprite_twice_clears_it_and_reports_the_collision() {
    // V0 = 10, V1 = 5, I = 0x20C, draw one row twice. The row is 0xB5.
    let program = [0x60, 10, 0x61, 5, 0xA2, 0x0C, 0xD0, 0x11, 0xD0, 0x11, 0x00, 0x00, 0xB5];
    let mut cpu = machine(&program);
    run(&mut cpu, 4);
    assert_eq!(cpu.get_registers()[0xF], 0);
    let expected = [true, false, true, true, false, true, false, true];
    for (column, on) in expected.iter().enumerate() {
        assert_eq!(pixel(&cpu, 10 + column, 5), *on);
    }
    assert_eq!(lit_pixels(&cpu), 5);
    run(&mut cpu, 1);
    assert_eq!(cpu.get_registers()[0xF], 1);
    assert_eq!(lit_pixels(&cpu), 0);
    assert_eq!(cpu.get_program_counter(), 0x20A);
}

#[test]
fn drawing_clears_a_stale_flag() {
    let program = [0x6F, 0x01, 0xA2, 0x06, 0xD0, 0x11, 0x80];
    let mut cpu = machine(&program);
    run(&mut cpu, 3);
    assert_eq!(cpu.get_registers()[0xF], 0);
    assert!(pixel(&cpu, 0, 0));
    assert_eq!(lit_pixels(&cpu), 1);
}

#[test]
fn sprites_are_clipped_at_the_right_and_bottom_edges() {
    // V0 = 60, V1 = 30, I = 0x208, draw three rows of 0xFF.
    let program = [0x60, 60, 0x61, 30, 0xA2, 0x08, 0xD0, 0x13, 0xFF, 0xFF, 0xFF];
    let mut cpu = machine(&program);
    run(&mut cpu, 4);
    for y in 30..32 {
        for x in 60..64 {
            assert!(pixel(&cpu, x, y));
        }
    }
    assert_eq!(lit_pixels(&cpu), 8);
    assert_eq!(cpu.get_registers()[0xF], 0);
}

#[test]
fn sprite_outside_the_display_draws_nothing() {
    // V0 = 64, V1 = 40: the corner is not reduced, nothing is on the display.
    let program = [0x60, 64, 0x61, 40, 0xA2, 0x08, 0xD0, 0x11, 0xFF];
    let mut cpu = machine(&program);
    run(&mut cpu, 4);
    assert_eq!(lit_pixels(&cpu), 0);
    assert_eq!(cpu.get_registers()[0xF], 0);
}

#[test]
fn clear_screen_switches_every_pixel_off() {
    let program = [0xA2, 0x06, 0xD0, 0x01, 0x00, 0xE0, 0xFF];
    let mut cpu = machine(&program);
    run(&mut cpu, 2);
    assert_eq!(lit_pixels(&cpu), 8);
    run(&mut cpu, 1);
    assert_eq!(lit_pixels(&cpu), 0);
    assert_eq!(cpu.get_program_counter(), 0x206);
}

#[test]
fn frame_has_four_equal_bytes_for_each_pixel() {
    let program = [0x60, 0x01, 0xA2, 0x06, 0xD0, 0x11, 0x80];
    let mut cpu = machine(&program);
    run(&mut cpu, 3);
    let frame = cpu.get_framebuffer();
    assert_eq!(frame.len(), 64 * 32 * 4);
    assert_eq!(&frame[0..4], &[0x00; 4]);
    assert_eq!(&frame[4..8], &[0xFF; 4]);
    assert!(frame[8..].iter().all(|byte| *byte == 0));
}

#[test]
fn decimal_digits_of_255_and_0() {
    // V3 = 255, I = 0x300, store the digits.
    let mut cpu = machine(&[0x63, 0xFF, 0xA3, 0x00, 0xF3, 0x33]);
    run(&mut cpu, 3);
    assert_eq!(&cpu.get_memory()[0x300..0x303], &[2, 5, 5]);
    assert_eq!(cpu.get_program_index(), 0x300);
    // V3 = 0 over memory that is not zero.
    let mut cpu = machine(&[0xA2, 0x04, 0xF3, 0x33, 0x11, 0x22, 0x33]);
    run(&mut cpu, 2);
    assert_eq!(&cpu.get_memory()[0x204..0x207], &[0, 0, 0]);
}

#[test]
fn decimal_digits_of_107() {
    let mut cpu = machine(&[0x63, 107, 0xA3, 0x00, 0xF3, 0x33]);
    run(&mut cpu, 3);
    assert_eq!(&cpu.get_memory()[0x300..0x303], &[1, 0, 7]);
}

#[test]
fn store_then_load_brings_the_registers_back() {
    // V0..V3 = 11, 22, 33, 44; I = 0x300; store V0..V3; clear them;
    // I = 0x300; load V0..V3.
    let program = [
        0x60, 11, 0x61, 22, 0x62, 33, 0x63, 44, 0x64, 55, 0xA3, 0x00, 0xF3, 0x55, 0x60, 0, 0x61, 0,
        0x62, 0, 0x63, 0, 0x64, 0, 0xA3, 0x00, 0xF3, 0x65,
    ];
    let mut cpu = machine(&program);
    run(&mut cpu, 7);
    assert_eq!(cpu.get_program_index(), 0x304);
    assert_eq!(&cpu.get_memory()[0x300..0x305], &[11, 22, 33, 44, 0]);
    run(&mut cpu, 6);
    assert_eq!(cpu.get_program_index(), 0x300);
    run(&mut cpu, 1);
    assert_eq!(cpu.get_program_index(), 0x304);
    assert_eq!(&cpu.get_registers()[0..5], &[11, 22, 33, 44, 0]);
}

#[test]
fn block_at_the_end_of_memory_goes_on_at_address_zero() {
    // V0 = 0xAA, V1 = 0xBB, I = 0xFFF, store V0..V1.
    let mut cpu = machine(&[0x60, 0xAA, 0x61, 0xBB, 0xAF, 0xFF, 0xF1, 0x55]);
    run(&mut cpu, 4);
    assert_eq!(cpu.get_memory()[0xFFF], 0xAA);
    assert_eq!(cpu.get_memory()[0x000], 0xBB);
    assert_eq!(cpu.get_program_index(), 0x1001);
}

#[test]
fn add_index_wraps_at_sixteen_bits() {
    // I = 0xFFF, then V0 = 0xFF is added 241 times in a loop to pass 0xFFFF.
    // I = 0xFFF + n * 0xFF; n = 241 gives 0xFFF + 0xF00F = 0x1000E, so 0x000E.
    let mut cpu = machine(&[0x60, 0xFF, 0xAF, 0xFF, 0xF0, 0x1E, 0x12, 0x04]);
    run(&mut cpu, 2);
    for _ in 0..241 {
        run(&mut cpu, 2);
    }
    assert_eq!(cpu.get_program_index(), 0x000E);
}

#[test]
fn glyph_points_at_five_bytes_per_digit() {
    let mut cpu = machine(&[0x61, 0x0A, 0xF1, 0x29]);
    run(&mut cpu, 2);
    assert_eq!(cpu.get_program_index(), 0x050 + 5 * 0x0A);
    let index = cpu.get_program_index() as usize;
    assert_eq!(&cpu.get_memory()[index..index + 5], &[0xF0, 0x90, 0xF0, 0x90, 0x90]);
}

#[test]
fn wait_for_key_holds_the_program_until_a_key_is_pressed() {
    let mut cpu = machine(&[0xF5, 0x0A, 0x00, 0x00, 0x00, 0x00]);
    for _ in 0..50 {
        assert_eq!(cpu.step(), Ok(()));
        assert_eq!(cpu.get_program_counter(), 0x200);
        assert_eq!(cpu.get_registers()[5], 0);
    }
    cpu.set_key(0xB, true);
    assert_eq!(cpu.step(), Ok(()));
    assert_eq!(cpu.get_program_counter(), 0x202);
    assert_eq!(cpu.get_registers()[5], 0xB);
}

#[test]
fn reported_key_is_forgotten_at_the_end_of_the_cycle() {
    // 0x200: no operation; 0x202: wait for a key.
    let mut cpu = machine(&[0x00, 0x00, 0xF5, 0x0A]);
    cpu.set_key(0x3, true);
    run(&mut cpu, 1);
    for _ in 0..10 {
        run(&mut cpu, 1);
        assert_eq!(cpu.get_program_counter(), 0x202);
    }
    cpu.set_key(0x4, true);
    run(&mut cpu, 1);
    assert_eq!(cpu.get_program_counter(), 0x204);
    assert_eq!(cpu.get_registers()[5], 0x4);
}

#[test]
fn release_of_a_key_is_not_a_key_press() {
    let mut cpu = machine(&[0xF5, 0x0A]);
    cpu.set_key(0x7, false);
    run(&mut cpu, 1);
    assert_eq!(cpu.get_program_counter(), 0x200);
}

#[test]
fn key_skips_look_at_the_key_named_by_the_register() {
    // V1 = 7; skip if key 7 is down.
    let mut cpu = machine(&[0x61, 0x07, 0xE1, 0x9E]);
    cpu.set_key(0x7, true);
    cpu.set_key(0x1, false);
    run(&mut cpu, 2);
    assert_eq!(cpu.get_program_counter(), 0x206);
    let mut cpu = machine(&[0x61, 0x07, 0xE1, 0x9E]);
    cpu.set_key(0x1, true);
    run(&mut cpu, 2);
    assert_eq!(cpu.get_program_counter(), 0x204);
    // Skip if key 7 is not down.
    let mut cpu = machine(&[0x61, 0x07, 0xE1, 0xA1]);
    cpu.set_key(0x7, true);
    run(&mut cpu, 2);
    assert_eq!(cpu.get_program_counter(), 0x204);
    cpu.load_rom(&[0x61, 0x07, 0xE1, 0xA1]).unwrap();
    cpu.set_key(0x7, false);
    run(&mut cpu, 2);
    assert_eq!(cpu.get_program_counter(), 0x206);
}

#[test]
fn key_that_does_not_exist_is_never_down() {
    let mut cpu = machine(&[0x61, 0x17, 0xE1, 0x9E]);
    cpu.set_key(0x7, true);
    cpu.set_key(0x17, true);
    run(&mut cpu, 2);
    assert_eq!(cpu.get_program_counter(), 0x204);
    let mut cpu = machine(&[0x61, 0x17, 0xE1, 0xA1]);
    cpu.set_key(0x7, true);
    run(&mut cpu, 2);
    assert_eq!(cpu.get_program_counter(), 0x206);
}

#[test]
fn host_keys_stand_for_the_keypad() {
    let layout = [
        (Keycode::Num1, 0x1u8),
        (Keycode::Num2, 0x2),
        (Keycode::Num3, 0x3),
        (Keycode::Num4, 0xC),
        (Keycode::Q, 0x4),
        (Keycode::W, 0x5),
        (Keycode::E, 0x6),
        (Keycode::R, 0xD),
        (Keycode::A, 0x7),
        (Keycode::S, 0x8),
        (Keycode::D, 0x9),
        (Keycode::F, 0xE),
        (Keycode::Z, 0xA),
        (Keycode::X, 0x0),
        (Keycode::C, 0xB),
        (Keycode::V, 0xF),
    ];
    for (key, index) in layout {
        assert_eq!(chip8::keypad::key_index(key), Some(index));
        let mut cpu = machine(&[0xF5, 0x0A]);
        cpu.set_key_state(key, true);
        run(&mut cpu, 1);
        assert_eq!(cpu.get_registers()[5], index);
        assert_eq!(cpu.get_program_counter(), 0x202);
    }
    assert_eq!(chip8::keypad::key_index(Keycode::Other), None);
    let mut cpu = machine(&[0xF5, 0x0A]);
    cpu.set_key_state(Keycode::Other, true);
    run(&mut cpu, 1);
    assert_eq!(cpu.get_program_counter(), 0x200);
}

#[test]
fn timers_count_down_once_a_cycle_and_stop_at_zero() {
    // V1 = 3; delay = V1; then no operations.
    let mut cpu = machine(&[0x61, 0x03, 0xF1, 0x15, 0x00, 0x00, 0x00, 0x00, 0x00, 0x00, 0xF2, 0x07]);
    run(&mut cpu, 2);
    assert_eq!(cpu.get_delay_timer(), 2);
    run(&mut cpu, 1);
    assert_eq!(cpu.get_delay_timer(), 1);
    run(&mut cpu, 1);
    assert_eq!(cpu.get_delay_timer(), 0);
    run(&mut cpu, 1);
    assert_eq!(cpu.get_delay_timer(), 0);
    run(&mut cpu, 1);
    assert_eq!(cpu.get_registers()[2], 0);
}

#[test]
fn read_delay_sees_the_timer_before_it_ticks() {
    // V1 = 9; delay = V1 (ticks to 8); V2 = delay.
    let mut cpu = machine(&[0x61, 0x09, 0xF1, 0x15, 0xF2, 0x07]);
    run(&mut cpu, 3);
    assert_eq!(cpu.get_registers()[2], 8);
    assert_eq!(cpu.get_delay_timer(), 7);
}

#[test]
fn beep_is_asked_for_when_the_sound_timer_runs_out() {
    // V1 = 3; sound = V1.
    let mut cpu = machine(&[0x61, 0x03, 0xF1, 0x18, 0x00, 0x00, 0x00, 0x00, 0x00, 0x00]);
    run(&mut cpu, 2);
    assert_eq!(cpu.get_sound_timer(), 2);
    assert!(!cpu.get_beep_flag());
    run(&mut cpu, 1);
    assert_eq!(cpu.get_sound_timer(), 1);
    assert!(!cpu.get_beep_flag());
    run(&mut cpu, 1);
    assert_eq!(cpu.get_sound_timer(), 0);
    assert!(cpu.get_beep_flag());
    run(&mut cpu, 1);
    assert_eq!(cpu.get_sound_timer(), 0);
    assert!(!cpu.get_beep_flag());
}

#[test]
fn sound_timer_set_to_one_beeps_in_the_same_cycle() {
    let mut cpu = machine(&[0x61, 0x01, 0xF1, 0x18]);
    run(&mut cpu, 2);
    assert_eq!(cpu.get_sound_timer(), 0);
    assert!(cpu.get_beep_flag());
}

#[test]
fn random_bytes_follow_the_fixed_seed() {
    let mut cpu = machine(&[0xC0, 0xFF, 0xC1, 0xFF, 0xC2, 0xFF, 0xC3, 0x0F, 0xC4, 0xFF, 0xC5, 0xFF]);
    run(&mut cpu, 6);
    assert_eq!(&cpu.get_registers()[0..6], &[0xA5, 0xD1, 0x9E, 0x00, 0x8C, 0x6A]);
    assert_eq!(cpu.get_program_counter(), 0x20C);
}

#[test]
fn only_random_instructions_take_a_number() {
    // Other instructions between two draws do not move the generator on.
    let mut cpu = machine(&[0xC0, 0xFF, 0x61, 0x07, 0x00, 0x00, 0xC2, 0xFF]);
    run(&mut cpu, 4);
    assert_eq!(cpu.get_registers()[0], 0xA5);
    assert_eq!(cpu.get_registers()[2], 0xD1);
}

#[test]
fn two_machines_draw_the_same_numbers() {
    let mut first = machine(&[0xC0, 0xFF, 0xC1, 0xFF]);
    let mut second = machine(&[0xC0, 0xFF, 0xC1, 0xFF]);
    run(&mut first, 2);
    run(&mut second, 2);
    assert_eq!(first.get_registers(), second.get_registers());
}

#[test]
fn execute_masks_the_low_byte_of_the_given_number() {
    let mut cpu = machine(&[]);
    assert_eq!(cpu.execute(0xC3F0, 0x1234_56AB), Ok(()));
    assert_eq!(cpu.get_registers()[3], 0xA0);
    assert_eq!(cpu.get_program_counter(), 0x202);
    assert_eq!(cpu.get_opcode(), 0xC3F0);
}

#[test]
fn execute_does_not_tick_the_timers() {
    let mut cpu = machine(&[]);
    assert_eq!(cpu.execute(0x6105, 0), Ok(()));
    assert_eq!(cpu.execute(0xF115, 0), Ok(()));
    assert_eq!(cpu.get_delay_timer(), 5);
    assert_eq!(cpu.execute(0x0123, 0), Err(Fault::UnknownInstruction));
    assert_eq!(cpu.get_opcode(), 0x0123);
    assert_eq!(cpu.get_program_counter(), 0x204);
}
