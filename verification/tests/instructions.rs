use chip8::{VmError, VM};

fn machine_with(registers: &[(u8, u8)]) -> VM {
    let mut vm = VM::new();
    for (reg, value) in registers {
        vm.set_register(*reg, *value).unwrap();
    }
    vm
}

#[test]
fn radd_wraps_and_sets_carry() {
    let mut vm = machine_with(&[(0, 250), (1, 10)]);
    assert_eq!(vm.reg_add(0, 1), Ok(()));
    assert_eq!(vm.register(0), Ok(4));
    assert_eq!(vm.register(0xF), Ok(1));
}

#[test]
fn radd_without_overflow_clears_carry() {
    let mut vm = machine_with(&[(0, 200), (1, 55), (0xF, 1)]);
    assert_eq!(vm.reg_add(0, 1), Ok(()));
    assert_eq!(vm.register(0), Ok(255));
    assert_eq!(vm.register(0xF), Ok(0));
}

#[test]
fn radd_into_the_flag_register_keeps_the_flag() {
    let mut vm = machine_with(&[(0xF, 200), (1, 100)]);
    assert_eq!(vm.reg_add(0xF, 1), Ok(()));
    assert_eq!(vm.register(0xF), Ok(1));
    let mut vm = machine_with(&[(0xF, 20), (1, 10)]);
    assert_eq!(vm.reg_add(0xF, 1), Ok(()));
    assert_eq!(vm.register(0xF), Ok(0));
}

#[test]
fn rsub_with_borrow_wraps_and_clears_flag() {
    let mut vm = machine_with(&[(2, 5), (3, 10), (0xF, 1)]);
    assert_eq!(vm.reg_sub(2, 3), Ok(()));
    assert_eq!(vm.register(2), Ok(251));
    assert_eq!(vm.register(0xF), Ok(0));
}

#[test]
fn rsub_without_borrow_sets_flag() {
    let mut vm = machine_with(&[(2, 10), (3, 5)]);
    assert_eq!(vm.reg_sub(2, 3), Ok(()));
    assert_eq!(vm.register(2), Ok(5));
    assert_eq!(vm.register(0xF), Ok(1));
}

#[test]
fn rsub_of_equal_values_clears_flag() {
    let mut vm = machine_with(&[(2, 7), (3, 7), (0xF, 1)]);
    assert_eq!(vm.reg_sub(2, 3), Ok(()));
    assert_eq!(vm.register(2), Ok(0));
    assert_eq!(vm.register(0xF), Ok(0));
}

#[test]
fn rsubn_subtracts_the_other_way() {
    let mut vm = machine_with(&[(2, 5), (3, 10)]);
    assert_eq!(vm.reg_sub_not_borrow(2, 3), Ok(()));
    assert_eq!(vm.register(2), Ok(5));
    assert_eq!(vm.register(0xF), Ok(1));
    let mut vm = machine_with(&[(2, 10), (3, 5)]);
    assert_eq!(vm.reg_sub_not_borrow(2, 3), Ok(()));
    assert_eq!(vm.register(2), Ok(251));
    assert_eq!(vm.register(0xF), Ok(0));
}

#[test]
fn rshr_shifts_out_bit_zero() {
    let mut vm = machine_with(&[(4, 0b0000_0011)]);
    assert_eq!(vm.reg_shift_right(4), Ok(()));
    assert_eq!(vm.register(4), Ok(0b0000_0001));
    assert_eq!(vm.register(0xF), Ok(1));
    let mut vm = machine_with(&[(4, 0b1000_0010), (0xF, 1)]);
    assert_eq!(vm.reg_shift_right(4), Ok(()));
    assert_eq!(vm.register(4), Ok(0b0100_0001));
    assert_eq!(vm.register(0xF), Ok(0));
}

#[test]
fn rshl_shifts_out_bit_seven() {
    let mut vm = machine_with(&[(4, 0b1000_0001)]);
    assert_eq!(vm.reg_shift_left(4), Ok(()));
    assert_eq!(vm.register(4), Ok(0b0000_0010));
    assert_eq!(vm.register(0xF), Ok(1));
    let mut vm = machine_with(&[(4, 0b0100_0001), (0xF, 1)]);
    assert_eq!(vm.reg_shift_left(4), Ok(()));
    assert_eq!(vm.register(4), Ok(0b1000_0010));
    assert_eq!(vm.register(0xF), Ok(0));
}

#[test]
fn add_immediate_wraps_and_leaves_the_flag() {
    let mut vm = machine_with(&[(5, 250), (0xF, 7)]);
    assert_eq!(vm.add(5, 10), Ok(()));
    assert_eq!(vm.register(5), Ok(4));
    assert_eq!(vm.register(0xF), Ok(7));
}

#[test]
fn logic_instructions_combine_bitwise() {
    let mut vm = machine_with(&[(1, 0b1100), (2, 0b1010)]);
    assert_eq!(vm.reg_or(1, 2), Ok(()));
    assert_eq!(vm.register(1), Ok(0b1110));
    let mut vm = machine_with(&[(1, 0b1100), (2, 0b1010)]);
    assert_eq!(vm.reg_and(1, 2), Ok(()));
    assert_eq!(vm.register(1), Ok(0b1000));
    let mut vm = machine_with(&[(1, 0b1100), (2, 0b1010)]);
    assert_eq!(vm.reg_xor(1, 2), Ok(()));
    assert_eq!(vm.register(1), Ok(0b0110));
    assert_eq!(vm.register(2), Ok(0b1010));
}

#[test]
fn reg_load_copies() {
    let mut vm = machine_with(&[(2, 0x77)]);
    assert_eq!(vm.reg_load(9, 2), Ok(()));
    assert_eq!(vm.register(9), Ok(0x77));
    assert_eq!(vm.register(2), Ok(0x77));
}

#[test]
fn set_carry_flag_writes_vf() {
    let mut vm = VM::new();
    vm.set_carry_flag(9);
    assert_eq!(vm.register(0xF), Ok(9));
}

#[test]
fn skips_advance_by_two_only_when_they_apply() {
    let mut vm = machine_with(&[(1, 5), (2, 5), (3, 6)]);
    assert_eq!(vm.skip_equal(1, 5), Ok(()));
    assert_eq!(vm.program_counter(), 0x202);
    assert_eq!(vm.skip_equal(1, 6), Ok(()));
    assert_eq!(vm.program_counter(), 0x202);
    assert_eq!(vm.skip_not_equal(1, 6), Ok(()));
    assert_eq!(vm.program_counter(), 0x204);
    assert_eq!(vm.skip_not_equal(1, 5), Ok(()));
    assert_eq!(vm.program_counter(), 0x204);
    assert_eq!(vm.reg_skip_equal(1, 2), Ok(()));
    assert_eq!(vm.program_counter(), 0x206);
    assert_eq!(vm.reg_skip_equal(1, 3), Ok(()));
    assert_eq!(vm.program_counter(), 0x206);
    assert_eq!(vm.reg_skip_not_equal(1, 3), Ok(()));
    assert_eq!(vm.program_counter(), 0x208);
    assert_eq!(vm.reg_skip_not_equal(1, 2), Ok(()));
    assert_eq!(vm.program_counter(), 0x208);
}

#[test]
fn skip_at_the_top_of_the_address_space_is_out_of_range() {
    let mut vm = machine_with(&[(1, 5)]);
    vm.jump(0xFFFE);
    assert_eq!(vm.skip_equal(1, 5), Err(VmError::OutOfRangeAddress));
    assert_eq!(vm.program_counter(), 0xFFFE);
    assert_eq!(vm.skip_equal(1, 6), Ok(()));
    vm.jump(0xFFFD);
    assert_eq!(vm.skip_equal(1, 5), Ok(()));
    assert_eq!(vm.program_counter(), 0xFFFF);
}

#[test]
fn call_and_return_use_the_stack() {
    let mut vm = VM::new();
    assert_eq!(vm.call(0x300), Ok(()));
    assert_eq!(vm.program_counter(), 0x300);
    assert_eq!(vm.stack_depth(), 1);
    assert_eq!(vm.call(0x400), Ok(()));
    assert_eq!(vm.stack_depth(), 2);
    assert_eq!(vm.return_subroutine(), Ok(()));
    assert_eq!(vm.program_counter(), 0x300);
    assert_eq!(vm.return_subroutine(), Ok(()));
    assert_eq!(vm.program_counter(), 0x200);
    assert_eq!(vm.return_subroutine(), Err(VmError::StackUnderflow));
    assert_eq!(vm.program_counter(), 0x200);
}

#[test]
fn seventeenth_call_overflows_and_does_not_jump() {
    let mut vm = VM::new();
    for k in 0..16u16 {
        assert_eq!(vm.call(0x300 + 2 * k), Ok(()));
    }
    assert_eq!(vm.call(0x500), Err(VmError::StackOverflow));
    assert_eq!(vm.program_counter(), 0x300 + 30);
    assert_eq!(vm.stack_depth(), 16);
}

#[test]
fn jump_location_adds_v0() {
    let mut vm = machine_with(&[(0, 0x12)]);
    assert_eq!(vm.jump_location(0x300), Ok(()));
    assert_eq!(vm.program_counter(), 0x312);
    assert_eq!(vm.jump_location(0xFFF0), Err(VmError::OutOfRangeAddress));
    assert_eq!(vm.program_counter(), 0x312);
    assert_eq!(vm.jump_location(0xFFED), Ok(()));
    assert_eq!(vm.program_counter(), 0xFFFF);
}

#[test]
fn index_instructions() {
    let mut vm = machine_with(&[(1, 0x10), (2, 0xFA), (3, 0x3C)]);
    vm.set_index(0xFFF);
    assert_eq!(vm.index(), 0xFFF);
    assert_eq!(vm.add_i(1), Ok(()));
    assert_eq!(vm.index(), 0x100F);
    assert_eq!(vm.register(0xF), Ok(0));
    vm.set_index(0xFFFF);
    assert_eq!(vm.add_i(1), Ok(()));
    assert_eq!(vm.index(), 0x000F);
    assert_eq!(vm.load_sprite(2), Ok(()));
    assert_eq!(vm.index(), 50);
    assert_eq!(vm.load_sprite(3), Ok(()));
    assert_eq!(vm.index(), 60);
    assert_eq!(vm.load_sprite(0), Ok(()));
    assert_eq!(vm.index(), 0);
}

#[test]
fn load_sprite_points_at_the_glyph() {
    let mut vm = machine_with(&[(1, 4)]);
    assert_eq!(vm.load_sprite(1), Ok(()));
    assert_eq!(vm.index(), 20);
    assert_eq!(vm.get_byte(vm.index()), Ok(0x90));
    assert_eq!(vm.get_byte(vm.index() + 2), Ok(0xF0));
}

#[test]
fn store_bcd_writes_three_digits() {
    let mut vm = machine_with(&[(7, 254)]);
    vm.set_index(0x300);
    assert_eq!(vm.store_bcd(7), Ok(()));
    assert_eq!(vm.get_byte(0x300), Ok(2));
    assert_eq!(vm.get_byte(0x301), Ok(5));
    assert_eq!(vm.get_byte(0x302), Ok(4));
    assert_eq!(vm.get_byte(0x303), Ok(0));
    let mut vm = machine_with(&[(7, 7)]);
    vm.set_index(4093);
    assert_eq!(vm.store_bcd(7), Ok(()));
    assert_eq!(vm.get_byte(4093), Ok(0));
    assert_eq!(vm.get_byte(4094), Ok(0));
    assert_eq!(vm.get_byte(4095), Ok(7));
}

#[test]
fn store_bcd_beyond_memory_changes_nothing() {
    let mut vm = machine_with(&[(7, 199)]);
    vm.set_index(4094);
    assert_eq!(vm.store_bcd(7), Err(VmError::OutOfRangeAddress));
    assert_eq!(vm.get_byte(4094), Ok(0));
    assert_eq!(vm.get_byte(4095), Ok(0));
}

#[test]
fn store_and_read_include_register_x() {
    let mut vm = machine_with(&[(0, 10), (1, 11), (2, 12), (3, 13)]);
    vm.set_index(0x400);
    assert_eq!(vm.store_registers(2), Ok(()));
    assert_eq!(vm.get_byte(0x400), Ok(10));
    assert_eq!(vm.get_byte(0x401), Ok(11));
    assert_eq!(vm.get_byte(0x402), Ok(12));
    assert_eq!(vm.get_byte(0x403), Ok(0));
    assert_eq!(vm.index(), 0x400);

    let mut other = VM::new();
    other.load_bytes(&[1, 2, 3, 4], 0x500).unwrap();
    other.set_register(3, 99).unwrap();
    other.set_index(0x500);
    assert_eq!(other.read_registers(2), Ok(()));
    assert_eq!(other.register(0), Ok(1));
    assert_eq!(other.register(1), Ok(2));
    assert_eq!(other.register(2), Ok(3));
    assert_eq!(other.register(3), Ok(99));
    assert_eq!(other.index(), 0x500);
}

#[test]
fn store_and_read_of_all_registers_at_the_end_of_memory() {
    let mut vm = VM::new();
    for r in 0..16u8 {
        vm.set_register(r, 0xA0 + r).unwrap();
    }
    vm.set_index(4080);
    assert_eq!(vm.store_registers(15), Ok(()));
    assert_eq!(vm.get_byte(4080), Ok(0xA0));
    assert_eq!(vm.get_byte(4095), Ok(0xAF));
    vm.set_index(4081);
    assert_eq!(vm.store_registers(15), Err(VmError::OutOfRangeAddress));
    assert_eq!(vm.read_registers(15), Err(VmError::OutOfRangeAddress));
    assert_eq!(vm.get_byte(4081), Ok(0xA1));
    assert_eq!(vm.read_registers(14), Ok(()));
    assert_eq!(vm.register(0), Ok(0xA1));
    assert_eq!(vm.register(14), Ok(0xAF));
    assert_eq!(vm.register(15), Ok(0xAF));
}

#[test]
fn register_sixteen_is_out_of_range_everywhere() {
    let mut vm = VM::new();
    let e = Err(VmError::OutOfRangeAddress);
    assert_eq!(vm.register(16), Err(VmError::OutOfRangeAddress));
    assert_eq!(vm.set_register(16, 1), e);
    assert_eq!(vm.add(16, 1), e);
    assert_eq!(vm.skip_equal(16, 0), e);
    assert_eq!(vm.skip_not_equal(16, 1), e);
    assert_eq!(vm.reg_skip_equal(16, 0), e);
    assert_eq!(vm.reg_skip_equal(0, 16), e);
    assert_eq!(vm.reg_skip_not_equal(16, 0), e);
    assert_eq!(vm.reg_load(16, 0), e);
    assert_eq!(vm.reg_load(0, 16), e);
    assert_eq!(vm.reg_or(0, 16), e);
    assert_eq!(vm.reg_and(16, 0), e);
    assert_eq!(vm.reg_xor(0, 16), e);
    assert_eq!(vm.reg_add(16, 0), e);
    assert_eq!(vm.reg_sub(0, 16), e);
    assert_eq!(vm.reg_sub_not_borrow(16, 0), e);
    assert_eq!(vm.reg_shift_right(16), e);
    assert_eq!(vm.reg_shift_left(16), e);
    assert_eq!(vm.random(16, 0xFF), e);
    assert_eq!(vm.load_random(16, 0xFF, 1), e);
    assert_eq!(vm.draw(16, 0, 1), e);
    assert_eq!(vm.draw(0, 16, 1), e);
    assert_eq!(vm.skip_if_key(16), e);
    assert_eq!(vm.skip_if_no_key(16), e);
    assert_eq!(vm.load_delay_timer(16), e);
    assert_eq!(vm.await_keypress(16), e);
    assert_eq!(vm.set_delay_timer(16), e);
    assert_eq!(vm.set_sound_timer(16), e);
    assert_eq!(vm.add_i(16), e);
    assert_eq!(vm.load_sprite(16), e);
    assert_eq!(vm.store_bcd(16), e);
    assert_eq!(vm.store_registers(16), e);
    assert_eq!(vm.read_registers(16), e);
    assert_eq!(vm.program_counter(), 0x200);
    for r in 0..16 {
        assert_eq!(vm.register(r), Ok(0));
    }
}

#[test]
fn load_random_masks_the_byte() {
    let mut vm = VM::new();
    assert_eq!(vm.load_random(3, 0x0F, 0xAB), Ok(()));
    assert_eq!(vm.register(3), Ok(0x0B));
    assert_eq!(vm.load_random(3, 0xF0, 0xAB), Ok(()));
    assert_eq!(vm.register(3), Ok(0xA0));
    assert_eq!(vm.load_random(3, 0x00, 0xAB), Ok(()));
    assert_eq!(vm.register(3), Ok(0x00));
}

#[test]
fn random_stays_under_the_mask() {
    let mut vm = VM::new();
    for _ in 0..200 {
        assert_eq!(vm.random(1, 0x0F), Ok(()));
        assert!(vm.register(1).unwrap() <= 0x0F);
        assert_eq!(vm.random(2, 0x00), Ok(()));
        assert_eq!(vm.register(2), Ok(0));
    }
}

#[test]
fn random_draws_more_than_one_value() {
    let mut vm = VM::new();
    let mut seen = [false; 256];
    for _ in 0..512 {
        assert_eq!(vm.random(1, 0xFF), Ok(()));
        seen[usize::from(vm.register(1).unwrap())] = true;
    }
    let distinct = seen.iter().filter(|s| **s).count();
    assert!(distinct > 64);
}
