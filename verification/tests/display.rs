use chip8::{VmError, VM};

fn lit(vm: &VM) -> Vec<(u8, u8)> {
    let mut on = Vec::new();
    for y in 0..32u8 {
        for x in 0..64u8 {
            if vm.pixel(x, y).unwrap() {
                on.push((x, y));
            }
        }
    }
    on
}

#[test]
fn drawing_the_zero_glyph_twice_clears_it_and_collides() {
    let mut vm = VM::new();
    vm.set_register(0, 10).unwrap();
    vm.set_register(1, 5).unwrap();
    vm.set_index(0);
    vm.set_carry_flag(1);

    assert_eq!(vm.draw(0, 1, 5), Ok(()));
    assert_eq!(vm.register(0xF), Ok(0));
    let expected = vec![
        (10, 5), (11, 5), (12, 5), (13, 5),
        (10, 6), (13, 6),
        (10, 7), (13, 7),
        (10, 8), (13, 8),
        (10, 9), (11, 9), (12, 9), (13, 9),
    ];
    assert_eq!(lit(&vm), expected);

    assert_eq!(vm.draw(0, 1, 5), Ok(()));
    assert_eq!(vm.register(0xF), Ok(1));
    assert_eq!(lit(&vm), vec![]);
}

#[test]
fn draw_without_collision_clears_a_stale_flag() {
    let mut vm = VM::new();
    vm.set_index(0);
    assert_eq!(vm.draw(0, 0, 5), Ok(()));
    assert_eq!(vm.draw(0, 0, 5), Ok(()));
    assert_eq!(vm.register(0xF), Ok(1));
    vm.set_register(1, 20).unwrap();
    assert_eq!(vm.draw(1, 1, 5), Ok(()));
    assert_eq!(vm.register(0xF), Ok(0));
}

#[test]
fn partial_overlap_collides_and_leaves_the_difference() {
    let mut vm = VM::new();
    vm.load_bytes(&[0b1111_0000, 0b0011_1100], 0x300).unwrap();
    vm.set_index(0x300);
    assert_eq!(vm.draw(0, 0, 1), Ok(()));
    vm.set_index(0x301);
    assert_eq!(vm.draw(0, 0, 1), Ok(()));
    assert_eq!(vm.register(0xF), Ok(1));
    assert_eq!(lit(&vm), vec![(0, 0), (1, 0), (4, 0), (5, 0)]);
}

#[test]
fn sprite_at_column_sixty_two_wraps_to_the_left_edge() {
    let mut vm = VM::new();
    vm.load_bytes(&[0xFF], 0x300).unwrap();
    vm.set_index(0x300);
    vm.set_register(0, 62).unwrap();
    vm.set_register(1, 3).unwrap();
    assert_eq!(vm.draw(0, 1, 1), Ok(()));
    assert_eq!(
        lit(&vm),
        vec![(0, 3), (1, 3), (2, 3), (3, 3), (4, 3), (5, 3), (62, 3), (63, 3)]
    );
    assert_eq!(vm.register(0xF), Ok(0));
}

#[test]
fn sprite_at_the_bottom_wraps_to_the_top() {
    let mut vm = VM::new();
    vm.load_bytes(&[0x80, 0x80, 0x80], 0x300).unwrap();
    vm.set_index(0x300);
    vm.set_register(0, 7).unwrap();
    vm.set_register(1, 30).unwrap();
    assert_eq!(vm.draw(0, 1, 3), Ok(()));
    assert_eq!(lit(&vm), vec![(7, 0), (7, 30), (7, 31)]);
}

#[test]
fn origin_is_taken_modulo_the_screen() {
    let mut vm = VM::new();
    vm.load_bytes(&[0x80], 0x300).unwrap();
    vm.set_index(0x300);
    vm.set_register(0, 64 + 3).unwrap();
    vm.set_register(1, 32 * 7 + 4).unwrap();
    assert_eq!(vm.draw(0, 1, 1), Ok(()));
    assert_eq!(lit(&vm), vec![(3, 4)]);
}

#[test]
fn most_significant_bit_is_leftmost() {
    let mut vm = VM::new();
    vm.load_bytes(&[0b1000_0001, 0b0100_0000], 0x300).unwrap();
    vm.set_index(0x300);
    assert_eq!(vm.draw(0, 0, 2), Ok(()));
    assert_eq!(lit(&vm), vec![(0, 0), (7, 0), (1, 1)]);
}

#[test]
fn draw_of_no_rows_only_clears_the_flag() {
    let mut vm = VM::new();
    vm.set_carry_flag(1);
    assert_eq!(vm.draw(0, 0, 0), Ok(()));
    assert_eq!(vm.register(0xF), Ok(0));
    assert_eq!(lit(&vm), vec![]);
}

#[test]
fn draw_with_coordinates_from_the_flag_register_reads_them_first() {
    let mut vm = VM::new();
    vm.load_bytes(&[0x80], 0x300).unwrap();
    vm.set_index(0x300);
    vm.set_carry_flag(9);
    assert_eq!(vm.draw(0xF, 0xF, 1), Ok(()));
    assert_eq!(lit(&vm), vec![(9, 9)]);
    assert_eq!(vm.register(0xF), Ok(0));
}

#[test]
fn draw_refuses_sprites_beyond_memory_or_too_tall() {
    let mut vm = VM::new();
    vm.set_carry_flag(1);
    vm.set_index(4090);
    assert_eq!(vm.draw(0, 0, 7), Err(VmError::OutOfRangeAddress));
    assert_eq!(vm.register(0xF), Ok(1));
    assert_eq!(vm.draw(0, 0, 6), Ok(()));
    vm.set_index(0);
    assert_eq!(vm.draw(0, 0, 16), Err(VmError::OutOfRangeAddress));
    assert_eq!(vm.draw(0, 0, 15), Ok(()));
}

#[test]
fn set_pixel_toggles_and_reports_what_was_there() {
    let mut vm = VM::new();
    assert_eq!(vm.set_pixel(63, 31), Ok(false));
    assert_eq!(vm.pixel(63, 31), Ok(true));
    assert!(vm.screen()[2047]);
    assert_eq!(vm.set_pixel(63, 31), Ok(true));
    assert_eq!(vm.pixel(63, 31), Ok(false));
    assert_eq!(vm.set_pixel(1, 2), Ok(false));
    assert!(vm.screen()[129]);
}

#[test]
fn pixels_off_the_screen_are_out_of_range() {
    let mut vm = VM::new();
    assert_eq!(vm.set_pixel(64, 0), Err(VmError::OutOfRangeAddress));
    assert_eq!(vm.set_pixel(0, 32), Err(VmError::OutOfRangeAddress));
    assert_eq!(vm.pixel(64, 0), Err(VmError::OutOfRangeAddress));
    assert_eq!(vm.pixel(0, 32), Err(VmError::OutOfRangeAddress));
    assert_eq!(lit(&vm), vec![]);
}

#[test]
fn clear_display_turns_everything_off() {
    let mut vm = VM::new();
    vm.set_index(0);
    vm.draw(0, 0, 5).unwrap();
    vm.set_screen_border();
    vm.clear_display();
    assert_eq!(lit(&vm), vec![]);
}

#[test]
fn border_lights_the_outermost_rows_and_columns() {
    let mut vm = VM::new();
    vm.set_pixel(10, 10).unwrap();
    vm.set_screen_border();
    for y in 0..32u8 {
        for x in 0..64u8 {
            let edge = x == 0 || x == 63 || y == 0 || y == 31;
            assert_eq!(vm.pixel(x, y), Ok(edge || (x == 10 && y == 10)));
        }
    }
    assert_eq!(lit(&vm).len(), 2 * 64 + 2 * 30 + 1);
}
