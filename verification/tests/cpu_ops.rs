use rustboy::cpu::CPU;
use rustboy::fault::Fault;
use rustboy::mmu::MMU;

fn cpu() -> CPU {
    CPU::new()
}

#[test]
fn add_sets_carry_exactly_past_255() {
    let mut c = cpu();
    c.a = 200;
    c.add_u8_to_a(100);
    assert_eq!(c.a, 44);
    assert!(c.flag_carry);
    assert!(!c.flag_subtract);

    let mut c = cpu();
    c.a = 200;
    c.add_u8_to_a(55);
    assert_eq!(c.a, 255);
    assert!(!c.flag_carry);
}

#[test]
fn add_sets_half_carry_from_low_nibbles() {
    let mut c = cpu();
    c.a = 0x0F;
    c.add_u8_to_a(0x01);
    assert!(c.flag_half_carry);
    assert!(!c.flag_carry);

    let mut c = cpu();
    c.a = 0x10;
    c.add_u8_to_a(0x0F);
    assert!(!c.flag_half_carry);
}

#[test]
fn add_sets_zero_on_wrapped_zero() {
    let mut c = cpu();
    c.a = 0x80;
    c.add_u8_to_a(0x80);
    assert_eq!(c.a, 0);
    assert!(c.flag_zero);
    assert!(c.flag_carry);
}

#[test]
fn subtract_sets_borrow_flags() {
    let mut c = cpu();
    c.a = 0x10;
    c.subtract_u8_from_a(0x20);
    assert_eq!(c.a, 0xF0);
    assert!(c.flag_carry);
    assert!(c.flag_subtract);

    let mut c = cpu();
    c.a = 0x20;
    c.subtract_u8_from_a(0x02);
    assert!(c.flag_half_carry);
    assert!(!c.flag_carry);
}

#[test]
fn compare_leaves_accumulator() {
    let mut c = cpu();
    c.a = 0x42;
    c.compare_with_register_a(0x42);
    assert_eq!(c.a, 0x42);
    assert!(c.flag_zero);
    assert!(c.flag_subtract);
}

#[test]
fn flags_byte_low_nibble_is_always_zero() {
    let mut c = cpu();
    c.write_register_f(0xFF);
    assert_eq!(c.read_register_f(), 0xF0);
    c.write_register_af(0x12BF);
    assert_eq!(c.read_register_af(), 0x12B0);
}

#[test]
fn register_pairs_compose_and_decompose() {
    let mut c = cpu();
    c.write_register_bc(0xABCD);
    assert_eq!(c.b, 0xAB);
    assert_eq!(c.c, 0xCD);
    assert_eq!(c.read_register_bc(), 0xABCD);
    c.write_register_hl(0x014D);
    assert_eq!(c.read_register_hl(), 0x014D);
}

#[test]
fn swap_exchanges_nibbles() {
    let mut c = cpu();
    let r = c.swap_byte(0xA5);
    assert_eq!(r, 0x5A);
    assert!(!c.flag_zero);
    let r = c.swap_byte(0x00);
    assert_eq!(r, 0x00);
    assert!(c.flag_zero);
}

#[test]
fn rotates_move_the_edge_bit_into_carry() {
    let mut c = cpu();
    let r = c.rotate_left(0x81, true);
    assert_eq!(r, 0x03);
    assert!(c.flag_carry);

    let mut c = cpu();
    c.flag_carry = false;
    let r = c.rotate_right_through_carry(0x01, true);
    assert_eq!(r, 0x00);
    assert!(c.flag_carry);
    assert!(c.flag_zero);
}

#[test]
fn shift_right_preserves_sign_bit() {
    let mut c = cpu();
    let r = c.shift_right_preserve_msb(0x81);
    assert_eq!(r, 0xC0);
    assert!(c.flag_carry);
}

#[test]
fn plain_opcode_advances_by_length_and_not_taken_cycles() {
    let mut c = cpu();
    let mut m = MMU::new();
    // The zeroed ROM reads as 0x00, a no-op of length one and one cycle.
    let r = c.tick(&mut m);
    assert_eq!(r, Ok(0x00));
    assert_eq!(c.program_counter, 1);
    assert_eq!(c.get_clock_m(), 1);
    assert_eq!(c.get_clock_t(), 4);
}

#[test]
fn taken_conditional_jump_uses_taken_cycles() {
    let mut c = cpu();
    let mut m = MMU::new();
    // JP NZ,0xC200 placed in working RAM.
    m.write_byte(0xC000, 0xC2).unwrap();
    m.write_byte(0xC001, 0x00).unwrap();
    m.write_byte(0xC002, 0xC2).unwrap();
    c.program_counter = 0xC000;
    c.flag_zero = false;
    c.tick(&mut m).unwrap();
    assert_eq!(c.program_counter, 0xC200);
    assert_eq!(c.get_clock_m(), 4);

    // Not taken: the counter walks over the three-byte instruction.
    let mut c2 = cpu();
    c2.program_counter = 0xC000;
    c2.flag_zero = true;
    c2.tick(&mut m).unwrap();
    assert_eq!(c2.program_counter, 0xC003);
    assert_eq!(c2.get_clock_m(), 3);
}

#[test]
fn call_pushes_return_address_and_ret_restores() {
    let mut c = cpu();
    let mut m = MMU::new();
    // CALL 0xC200 at 0xC000; RET at 0xC200.
    m.write_byte(0xC000, 0xCD).unwrap();
    m.write_byte(0xC001, 0x00).unwrap();
    m.write_byte(0xC002, 0xC2).unwrap();
    m.write_byte(0xC200, 0xC9).unwrap();
    c.program_counter = 0xC000;
    c.stack_pointer = 0xD000;
    c.tick(&mut m).unwrap();
    assert_eq!(c.program_counter, 0xC200);
    assert_eq!(c.stack_pointer, 0xCFFE);
    assert_eq!(m.read_word(0xCFFE), 0xC003);
    c.tick(&mut m).unwrap();
    assert_eq!(c.program_counter, 0xC003);
    assert_eq!(c.stack_pointer, 0xD000);
}

#[test]
fn push_pop_round_trips_every_pair() {
    // PUSH BC; POP BC and PUSH AF; POP AF at 0xC000.
    for (push, pop) in [(0xC5u8, 0xC1u8), (0xD5, 0xD1), (0xE5, 0xE1), (0xF5, 0xF1)] {
        let mut c = CPU::new();
        let mut m = MMU::new();
        m.write_byte(0xC000, push).unwrap();
        m.write_byte(0xC001, pop).unwrap();
        c.program_counter = 0xC000;
        c.stack_pointer = 0xD000;
        c.write_register_bc(0x1234);
        c.write_register_de(0x5678);
        c.write_register_hl(0x9ABC);
        c.write_register_af(0xDEF0);
        let before = (
            c.read_register_bc(),
            c.read_register_de(),
            c.read_register_hl(),
            c.read_register_af(),
        );
        c.tick(&mut m).unwrap();
        c.tick(&mut m).unwrap();
        assert_eq!(c.stack_pointer, 0xD000);
        let after = (
            c.read_register_bc(),
            c.read_register_de(),
            c.read_register_hl(),
            c.read_register_af(),
        );
        assert_eq!(before, after);
    }
}

#[test]
fn reserved_opcode_is_a_typed_fault() {
    let mut c = cpu();
    let mut m = MMU::new();
    m.write_byte(0xC000, 0xD3).unwrap();
    c.program_counter = 0xC000;
    let r = c.tick(&mut m);
    assert_eq!(r, Err(Fault::ReservedOpcode(0xD3)));
    assert_eq!(c.program_counter, 0xC000);
}

#[test]
fn halt_suspends_until_interrupt_pending() {
    let mut c = cpu();
    let mut m = MMU::new();
    m.write_byte(0xC000, 0x76).unwrap();
    c.program_counter = 0xC000;
    // Nothing pending: the counter stays on the halt instruction.
    c.tick(&mut m).unwrap();
    assert_eq!(c.program_counter, 0xC000);
    assert_eq!(c.get_clock_m(), 1);
    // An enabled pending source resumes it.
    m.write_byte(0xFFFF, 0x01).unwrap();
    m.write_byte(0xFF0F, 0x01).unwrap();
    c.tick(&mut m).unwrap();
    assert_eq!(c.program_counter, 0xC001);
}

#[test]
fn prefixed_bit_test_and_set_and_clear() {
    let mut c = cpu();
    let mut m = MMU::new();
    // BIT 7,B then SET 7,B then RES 0,B, all prefixed, at 0xC000.
    m.write_byte(0xC000, 0xCB).unwrap();
    m.write_byte(0xC001, 0x78).unwrap();
    m.write_byte(0xC002, 0xCB).unwrap();
    m.write_byte(0xC003, 0xF8).unwrap();
    m.write_byte(0xC004, 0xCB).unwrap();
    m.write_byte(0xC005, 0x81).unwrap();
    c.program_counter = 0xC000;
    c.b = 0x01;
    c.c = 0x01;
    c.tick(&mut m).unwrap();
    assert!(c.flag_zero);
    assert_eq!(c.get_clock_m(), 2);
    c.tick(&mut m).unwrap();
    assert_eq!(c.b, 0x81);
    c.tick(&mut m).unwrap();
    assert_eq!(c.c, 0x00);
    assert_eq!(c.program_counter, 0xC006);
}

#[test]
fn decimal_adjust_after_addition() {
    let mut c = cpu();
    let mut m = MMU::new();
    // ADD A,d8 of 0x27 onto 0x15, then DAA, at 0xC000.
    m.write_byte(0xC000, 0xC6).unwrap();
    m.write_byte(0xC001, 0x27).unwrap();
    m.write_byte(0xC002, 0x27).unwrap();
    c.program_counter = 0xC000;
    c.a = 0x15;
    c.tick(&mut m).unwrap();
    assert_eq!(c.a, 0x3C);
    c.tick(&mut m).unwrap();
    assert_eq!(c.a, 0x42);
}

#[test]
fn relative_jump_takes_signed_offsets() {
    let mut c = cpu();
    let mut m = MMU::new();
    // JR with offset -2 loops onto itself.
    m.write_byte(0xC010, 0x18).unwrap();
    m.write_byte(0xC011, 0xFE).unwrap();
    c.program_counter = 0xC010;
    c.tick(&mut m).unwrap();
    assert_eq!(c.program_counter, 0xC010);
    // JR with offset +3 skips past.
    m.write_byte(0xC020, 0x18).unwrap();
    m.write_byte(0xC021, 0x03).unwrap();
    c.program_counter = 0xC020;
    c.tick(&mut m).unwrap();
    assert_eq!(c.program_counter, 0xC025);
}
