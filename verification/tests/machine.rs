use chip8::{OpCode, VmError, FONTSET, VM};

#[test]
fn test_load_bytes() {
    let mut vm = VM::new();
    let buf = vec![0x00, 0xEE, 0x00, 0xE0, 0x10, 0x20];
    vm.load_bytes(&buf, 0x200).unwrap();
    assert_eq!(vm.get_byte(0x200).unwrap(), 0x00);
    assert_eq!(vm.get_byte(0x201).unwrap(), 0xEE);
}

#[test]
fn test_load_font() {
    let mut vm = VM::new();

    vm.load_bytes(&FONTSET, 0x0).unwrap();
    assert_eq!(vm.get_byte(0x00).unwrap(), 0xF0);
    assert_eq!(vm.get_byte(0x01).unwrap(), 0x90);
    assert_eq!(vm.get_byte(5 * 4).unwrap(), 0x90);
}

#[test]
fn test_max_stack() {
    let mut vm = VM::new();

    for x in 0..16 {
        vm.push(x).unwrap();
    }

    for x in (0..16).rev() {
        assert_eq!(x, vm.pop().unwrap());
    }
}

#[test]
#[should_panic]
fn test_stack_overflow() {
    let mut vm = VM::new();

    for x in 0..17 {
        vm.push(x).unwrap();
    }
}

#[test]
fn seventeenth_push_overflows() {
    let mut vm = VM::new();
    for x in 0..16 {
        assert_eq!(vm.push(x), Ok(()));
    }
    assert_eq!(vm.stack_depth(), 16);
    assert_eq!(vm.push(16), Err(VmError::StackOverflow));
    assert_eq!(vm.stack_depth(), 16);
    assert_eq!(vm.pop(), Ok(15));
}

#[test]
fn pop_from_empty_underflows() {
    let mut vm = VM::new();
    assert_eq!(vm.pop(), Err(VmError::StackUnderflow));
    assert_eq!(vm.stack_depth(), 0);
    vm.push(0x234).unwrap();
    assert_eq!(vm.pop(), Ok(0x234));
    assert_eq!(vm.pop(), Err(VmError::StackUnderflow));
}

#[test]
fn new_machine_is_in_its_initial_state() {
    let vm = VM::new();
    assert_eq!(vm.program_counter(), 0x200);
    assert_eq!(vm.index(), 0);
    assert_eq!(vm.stack_depth(), 0);
    assert_eq!(vm.delay_timer(), 0);
    assert_eq!(vm.sound_timer(), 0);
    assert!(!vm.sound_playing());
    for r in 0..16 {
        assert_eq!(vm.register(r), Ok(0));
        assert_eq!(vm.key(r), Ok(false));
    }
    for a in 0..80u16 {
        assert_eq!(vm.get_byte(a), Ok(FONTSET[usize::from(a)]));
    }
    for a in 80..4096u16 {
        assert_eq!(vm.get_byte(a), Ok(0));
    }
    assert!(vm.screen().iter().all(|on| !on));
}

#[test]
fn default_machine_is_a_new_machine() {
    let vm = VM::default();
    assert_eq!(vm.program_counter(), 0x200);
    assert_eq!(vm.get_byte(0), Ok(0xF0));
    assert_eq!(vm.get_byte(79), Ok(0x80));
}

#[test]
fn font_holds_five_bytes_for_each_digit() {
    assert_eq!(FONTSET.len(), 80);
    assert_eq!(&FONTSET[0..5], &[0xF0, 0x90, 0x90, 0x90, 0xF0]);
    assert_eq!(&FONTSET[75..80], &[0xF0, 0x80, 0xF0, 0x80, 0x80]);
}

#[test]
fn load_that_fills_memory_to_the_end_succeeds() {
    let mut vm = VM::new();
    let image = vec![0xABu8; 4096 - 0x200];
    assert_eq!(vm.load_bytes(&image, 0x200), Ok(()));
    assert_eq!(vm.get_byte(0x1FF), Ok(0));
    assert_eq!(vm.get_byte(0x200), Ok(0xAB));
    assert_eq!(vm.get_byte(0xFFF), Ok(0xAB));
    assert_eq!(vm.get_byte(0), Ok(0xF0));
}

#[test]
fn load_beyond_memory_is_a_load_error() {
    let mut vm = VM::new();
    let image = vec![0xABu8; 4096 - 0x200 + 1];
    assert_eq!(vm.load_bytes(&image, 0x200), Err(VmError::LoadError));
    assert_eq!(vm.get_byte(0x200), Ok(0));
    assert_eq!(vm.get_byte(0xFFF), Ok(0));
    assert_eq!(vm.load_bytes(&[1], 4096), Err(VmError::LoadError));
    assert_eq!(vm.load_bytes(&[], 4096), Ok(()));
    assert_eq!(vm.load_bytes(&[], 4097), Err(VmError::LoadError));
    assert_eq!(vm.load_bytes(&[7], 4095), Ok(()));
    assert_eq!(vm.get_byte(4095), Ok(7));
}

#[test]
fn bytes_are_written_and_read_inside_memory_only() {
    let mut vm = VM::new();
    assert_eq!(vm.set_byte(0xFFF, 0x5A), Ok(()));
    assert_eq!(vm.get_byte(0xFFF), Ok(0x5A));
    assert_eq!(vm.set_byte(0x1000, 0x5A), Err(VmError::OutOfRangeAddress));
    assert_eq!(vm.get_byte(0x1000), Err(VmError::OutOfRangeAddress));
    assert_eq!(vm.set_byte(0, 0x11), Ok(()));
    assert_eq!(vm.get_byte(0), Ok(0x11));
}

#[test]
fn fetch_reads_two_bytes_and_advances() {
    let mut vm = VM::new();
    vm.load_bytes(&[0x12, 0x34, 0x56, 0x78], 0x200).unwrap();
    assert_eq!(vm.get_instruction(), Ok((0x12, 0x34)));
    assert_eq!(vm.program_counter(), 0x202);
    assert_eq!(vm.get_instruction(), Ok((0x56, 0x78)));
    assert_eq!(vm.program_counter(), 0x204);
}

#[test]
fn fetch_at_the_last_word_succeeds_and_beyond_fails() {
    let mut vm = VM::new();
    vm.set_byte(0xFFE, 0xAA).unwrap();
    vm.set_byte(0xFFF, 0xBB).unwrap();
    vm.jump(0xFFE);
    assert_eq!(vm.get_instruction(), Ok((0xAA, 0xBB)));
    assert_eq!(vm.program_counter(), 0x1000);
    assert_eq!(vm.get_instruction(), Err(VmError::OutOfRangeAddress));
    assert_eq!(vm.program_counter(), 0x1000);
    vm.jump(0xFFF);
    assert_eq!(vm.get_instruction(), Err(VmError::OutOfRangeAddress));
    assert_eq!(vm.program_counter(), 0xFFF);
}

#[test]
fn step_runs_a_small_program() {
    let mut vm = VM::new();
    let program = [
        0x60, 0xFA, // V0 = 250
        0x61, 0x0A, // V1 = 10
        0x80, 0x14, // V0 += V1
        0x22, 0x0A, // call 0x20A
        0x12, 0x08, // jump to self
        0xA1, 0x23, // I = 0x123
        0x00, 0xEE, // return
    ];
    vm.load_bytes(&program, 0x200).unwrap();
    for _ in 0..3 {
        assert_eq!(vm.step(), Ok(()));
    }
    assert_eq!(vm.register(0), Ok(4));
    assert_eq!(vm.register(0xF), Ok(1));
    assert_eq!(vm.step(), Ok(()));
    assert_eq!(vm.program_counter(), 0x20A);
    assert_eq!(vm.stack_depth(), 1);
    assert_eq!(vm.step(), Ok(()));
    assert_eq!(vm.index(), 0x123);
    assert_eq!(vm.step(), Ok(()));
    assert_eq!(vm.program_counter(), 0x208);
    assert_eq!(vm.stack_depth(), 0);
    for _ in 0..5 {
        assert_eq!(vm.step(), Ok(()));
        assert_eq!(vm.program_counter(), 0x208);
    }
}

#[test]
fn step_reports_an_unknown_word_and_stays_on_it() {
    let mut vm = VM::new();
    vm.load_bytes(&[0x60, 0x01, 0xFF, 0xFF], 0x200).unwrap();
    assert_eq!(vm.step(), Ok(()));
    assert_eq!(vm.step(), Err(VmError::UnrecognizedInstruction(0xFFFF)));
    assert_eq!(vm.program_counter(), 0x202);
    assert_eq!(vm.register(0), Ok(1));
    assert_eq!(vm.step(), Err(VmError::UnrecognizedInstruction(0xFFFF)));
}

#[test]
fn step_on_zeroed_memory_is_unrecognized() {
    let mut vm = VM::new();
    assert_eq!(vm.step(), Err(VmError::UnrecognizedInstruction(0x0000)));
    assert_eq!(vm.program_counter(), 0x200);
}

#[test]
fn step_beyond_memory_is_out_of_range() {
    let mut vm = VM::new();
    vm.jump(0x1000);
    assert_eq!(vm.step(), Err(VmError::OutOfRangeAddress));
    assert_eq!(vm.program_counter(), 0x1000);
}

#[test]
fn step_undoes_the_fetch_when_the_instruction_fails() {
    let mut vm = VM::new();
    vm.load_bytes(&[0x00, 0xEE], 0x200).unwrap();
    assert_eq!(vm.step(), Err(VmError::StackUnderflow));
    assert_eq!(vm.program_counter(), 0x200);
    assert_eq!(vm.stack_depth(), 0);
}

#[test]
fn step_with_uses_the_given_random_byte() {
    let mut vm = VM::new();
    vm.load_bytes(&[0xC3, 0x3C], 0x200).unwrap();
    assert_eq!(vm.step_with(0xF5), Ok(()));
    assert_eq!(vm.register(3), Ok(0x34));
    assert_eq!(vm.program_counter(), 0x202);
}

#[test]
fn execute_op_refuses_unknown_without_change() {
    let mut vm = VM::new();
    assert_eq!(
        vm.execute_op(&OpCode::Unknown(0x8128)),
        Err(VmError::UnrecognizedInstruction(0x8128))
    );
    assert_eq!(vm.program_counter(), 0x200);
}

#[test]
fn execute_op_dispatches_each_group() {
    let mut vm = VM::new();
    assert_eq!(vm.execute_op(&OpCode::SET { reg: 1, value: 7 }), Ok(()));
    assert_eq!(vm.execute_op(&OpCode::RLD { reg_x: 2, reg_y: 1 }), Ok(()));
    assert_eq!(vm.register(2), Ok(7));
    assert_eq!(vm.execute_op(&OpCode::LD(0x345)), Ok(()));
    assert_eq!(vm.index(), 0x345);
    assert_eq!(vm.execute_op(&OpCode::JMP(0x400)), Ok(()));
    assert_eq!(vm.program_counter(), 0x400);
    assert_eq!(vm.execute_op(&OpCode::SE { reg: 1, value: 7 }), Ok(()));
    assert_eq!(vm.program_counter(), 0x402);
    assert_eq!(vm.execute_op(&OpCode::SETDT(1)), Ok(()));
    assert_eq!(vm.delay_timer(), 7);
    assert_eq!(vm.execute_op(&OpCode::LDT(5)), Ok(()));
    assert_eq!(vm.register(5), Ok(7));
    assert_eq!(vm.execute_op(&OpCode::CLS), Ok(()));
    assert_eq!(vm.execute_op(&OpCode::RET), Err(VmError::StackUnderflow));
}

#[test]
fn execute_op_refuses_operands_out_of_range() {
    let mut vm = VM::new();
    assert_eq!(
        vm.execute_op(&OpCode::SET { reg: 16, value: 1 }),
        Err(VmError::OutOfRangeAddress)
    );
    assert_eq!(
        vm.execute_op(&OpCode::DRW { x: 0, y: 0, n: 16 }),
        Err(VmError::OutOfRangeAddress)
    );
    assert_eq!(
        vm.execute_op(&OpCode::RND { reg: 16, value: 0xFF }),
        Err(VmError::OutOfRangeAddress)
    );
}

#[test]
fn dump_lists_memory_in_lines_of_thirty_two() {
    let vm = VM::new();
    let text = vm.dump_memory();
    assert!(text.starts_with(
        "\n0x0000:   F0 90 90 90 F0 20 60 20   20 70 F0 10 F0 80 F0 F0   10 F0 10 F0 90 90 F0 10   10 F0 80 F0 10 F0 F0 80 \n0x0020:   F0 90 F0 F0 "
    ));
    assert_eq!(text.lines().count(), 129);
    assert!(text.ends_with("\n0x0FE0:   00 00 00 00 00 00 00 00   00 00 00 00 00 00 00 00   00 00 00 00 00 00 00 00   00 00 00 00 00 00 00 00 "));
    assert_eq!(text.len(), 128 * (1 + 8 + 4 * 2 + 32 * 3));
}
