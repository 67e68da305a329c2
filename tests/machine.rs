use chip8::instruction::Instruction;
use chip8::machine::{Effect, Machine};
use chip8::state::{Fault, MAX_PROGRAM_SIZE, PROGRAM_START};

const NO_KEYS: [bool; 16] = [false; 16];

fn loaded(program: &[u8]) -> Machine {
    let mut m = Machine::new();
    assert_eq!(m.load_program(program), Ok(()));
    m
}

fn run(m: &mut Machine, ins: Instruction) -> Result<Effect, Fault> {
    m.execute(ins, 0, &NO_KEYS)
}

fn set(m: &mut Machine, x: u8, value: u8) {
    assert_eq!(run(m, Instruction::SetImmediate { x, value }), Ok(Effect::Continue));
}

#[test]
fn new_machine_is_zeroed() {
    let m = Machine::new();
    let s = m.inspect_state();
    assert_eq!(s.memory.len(), 4096);
    assert!(s.memory.iter().all(|b| *b == 0));
    assert_eq!(s.registers, vec![0u8; 16]);
    assert_eq!(s.index, 0);
    assert_eq!(s.program_counter, 0);
    assert!(s.stack.is_empty());
    assert_eq!(s.delay_timer, 0);
    assert_eq!(s.sound_timer, 0);
    assert_eq!(s.awaiting_key, None);
}

#[test]
fn add_immediate_then_complement_restores_register() {
    for (a, b) in [(200u8, 100u8), (0, 1), (255, 255), (17, 0)] {
        let mut m = Machine::new();
        set(&mut m, 3, a);
        run(&mut m, Instruction::AddImmediate { x: 3, value: b }).unwrap();
        let back = ((256 - b as u16) % 256) as u8;
        run(&mut m, Instruction::AddImmediate { x: 3, value: back }).unwrap();
        assert_eq!(m.register(3), a);
    }
}

#[test]
fn add_immediate_wraps_and_keeps_flag() {
    let mut m = Machine::new();
    set(&mut m, 15, 0);
    set(&mut m, 2, 0xF0);
    run(&mut m, Instruction::AddImmediate { x: 2, value: 0x20 }).unwrap();
    assert_eq!(m.register(2), 0x10);
    assert_eq!(m.register(15), 0);
}

#[test]
fn add_with_carry_overflow_sets_flag() {
    let mut m = Machine::new();
    set(&mut m, 0, 0xFF);
    set(&mut m, 1, 0x01);
    run(&mut m, Instruction::AddWithCarry { x: 0, y: 1 }).unwrap();
    assert_eq!(m.register(0), 0x00);
    assert_eq!(m.register(15), 1);
}

#[test]
fn add_with_carry_without_overflow_keeps_flag() {
    for prior in [0u8, 7] {
        let mut m = Machine::new();
        set(&mut m, 15, prior);
        set(&mut m, 0, 0x01);
        set(&mut m, 1, 0x01);
        run(&mut m, Instruction::AddWithCarry { x: 0, y: 1 }).unwrap();
        assert_eq!(m.register(0), 0x02);
        assert_eq!(m.register(15), prior);
    }
}

#[test]
fn sub_with_borrow_underflow_sets_flag() {
    let mut m = Machine::new();
    set(&mut m, 0, 0x00);
    set(&mut m, 1, 0x01);
    run(&mut m, Instruction::SubWithBorrow { x: 0, y: 1 }).unwrap();
    assert_eq!(m.register(0), 0xFF);
    assert_eq!(m.register(15), 1);
}

#[test]
fn sub_with_borrow_without_borrow_keeps_flag() {
    let mut m = Machine::new();
    set(&mut m, 15, 9);
    set(&mut m, 4, 0x30);
    set(&mut m, 5, 0x10);
    run(&mut m, Instruction::SubWithBorrow { x: 4, y: 5 }).unwrap();
    assert_eq!(m.register(4), 0x20);
    assert_eq!(m.register(15), 9);
}

#[test]
fn reverse_subtract_values() {
    let mut m = Machine::new();
    set(&mut m, 15, 0);
    set(&mut m, 4, 0x10);
    set(&mut m, 5, 0x30);
    run(&mut m, Instruction::ReverseSubtract { x: 4, y: 5 }).unwrap();
    assert_eq!(m.register(4), 0x20);
    assert_eq!(m.register(15), 0);
    set(&mut m, 6, 0x01);
    set(&mut m, 7, 0x00);
    run(&mut m, Instruction::ReverseSubtract { x: 6, y: 7 }).unwrap();
    assert_eq!(m.register(6), 0xFF);
    assert_eq!(m.register(15), 1);
}

#[test]
fn bitwise_and_copy_operations() {
    let mut m = Machine::new();
    set(&mut m, 1, 0b1100_1010);
    set(&mut m, 2, 0b1010_0110);
    run(&mut m, Instruction::BitwiseOr { x: 1, y: 2 }).unwrap();
    assert_eq!(m.register(1), 0b1110_1110);
    set(&mut m, 1, 0b1100_1010);
    run(&mut m, Instruction::BitwiseAnd { x: 1, y: 2 }).unwrap();
    assert_eq!(m.register(1), 0b1000_0010);
    set(&mut m, 1, 0b1100_1010);
    run(&mut m, Instruction::BitwiseXor { x: 1, y: 2 }).unwrap();
    assert_eq!(m.register(1), 0b0110_1100);
    run(&mut m, Instruction::CopyRegister { x: 9, y: 2 }).unwrap();
    assert_eq!(m.register(9), 0b1010_0110);
    assert_eq!(m.register(2), 0b1010_0110);
}

#[test]
fn shifts_move_source_and_capture_bit() {
    let mut m = Machine::new();
    set(&mut m, 2, 0b1000_0101);
    run(&mut m, Instruction::ShiftRight { x: 1, y: 2 }).unwrap();
    assert_eq!(m.register(1), 0b0100_0010);
    assert_eq!(m.register(15), 1);
    run(&mut m, Instruction::ShiftLeft { x: 3, y: 2 }).unwrap();
    assert_eq!(m.register(3), 0b0000_1010);
    assert_eq!(m.register(15), 1);
    set(&mut m, 2, 0b0100_0010);
    run(&mut m, Instruction::ShiftRight { x: 1, y: 2 }).unwrap();
    assert_eq!(m.register(1), 0b0010_0001);
    assert_eq!(m.register(15), 0);
    run(&mut m, Instruction::ShiftLeft { x: 1, y: 2 }).unwrap();
    assert_eq!(m.register(1), 0b1000_0100);
    assert_eq!(m.register(15), 0);
}

#[test]
fn fetched_set_immediate_runs_and_only_fetch_moves_counter() {
    let mut m = loaded(&[0x6A, 0x3C]);
    assert_eq!(m.fetch(), Ok(0x6A3C));
    assert_eq!(m.step(0, &NO_KEYS), Ok(Effect::Continue));
    assert_eq!(m.register(10), 0x3C);
    assert_eq!(m.program_counter(), 0x202);

    let mut n = loaded(&[]);
    assert_eq!(run(&mut n, Instruction::SetImmediate { x: 10, value: 0x3C }), Ok(Effect::Continue));
    assert_eq!(n.register(10), 0x3C);
    assert_eq!(n.program_counter(), PROGRAM_START);
}

#[test]
fn call_then_return_restores_counter_and_stack() {
    let mut program = vec![0u8; 0x102];
    program[0] = 0x23;
    program[1] = 0x00;
    program[0x100] = 0x00;
    program[0x101] = 0xEE;
    let mut m = loaded(&program);
    assert_eq!(m.program_counter(), 0x200);
    assert_eq!(m.step(0, &NO_KEYS), Ok(Effect::Continue));
    assert_eq!(m.program_counter(), 0x300);
    assert_eq!(m.stack_depth(), 1);
    assert_eq!(m.inspect_state().stack, vec![0x202]);
    assert_eq!(m.step(0, &NO_KEYS), Ok(Effect::Continue));
    assert_eq!(m.program_counter(), 0x202);
    assert_eq!(m.stack_depth(), 0);
}

#[test]
fn load_program_of_largest_size_succeeds() {
    assert_eq!(MAX_PROGRAM_SIZE, 4096 - 0x200);
    let program = vec![0xAB; 4096 - 0x200];
    let mut m = Machine::new();
    assert_eq!(m.load_program(&program), Ok(()));
    assert_eq!(m.program_counter(), 0x200);
    assert_eq!(m.memory_byte(0x1FF), Some(0));
    assert_eq!(m.memory_byte(0x200), Some(0xAB));
    assert_eq!(m.memory_byte(0xFFF), Some(0xAB));
    assert_eq!(m.memory_byte(0x1000), None);
}

#[test]
fn load_program_one_byte_too_large_fails() {
    let program = vec![0xAB; 4096 - 0x200 + 1];
    let mut m = loaded(&[0x12, 0x34]);
    assert_eq!(m.load_program(&program), Err(Fault::ProgramTooLarge));
    assert_eq!(m.memory_byte(0x200), Some(0x12));
    assert_eq!(m.memory_byte(0x201), Some(0x34));
}

#[test]
fn load_program_keeps_state_outside_image() {
    let mut m = loaded(&[0x6A, 0x3C, 0x22, 0x00, 0x77, 0x88]);
    m.step(0, &NO_KEYS).unwrap();
    m.step(0, &NO_KEYS).unwrap();
    assert_eq!(m.stack_depth(), 1);
    run(&mut m, Instruction::SetIndexImmediate { address: 0x1FF }).unwrap();
    set(&mut m, 0, 0x42);
    run(&mut m, Instruction::DumpRegisters { x: 0 }).unwrap();
    assert_eq!(m.memory_byte(0x1FF), Some(0x42));
    assert_eq!(m.load_program(&[0x00, 0xE0]), Ok(()));
    assert_eq!(m.program_counter(), 0x200);
    assert_eq!(m.memory_byte(0x200), Some(0x00));
    assert_eq!(m.memory_byte(0x201), Some(0xE0));
    assert_eq!(m.memory_byte(0x202), Some(0x22));
    assert_eq!(m.memory_byte(0x204), Some(0x77));
    assert_eq!(m.memory_byte(0x1FF), Some(0x42));
    assert_eq!(m.register(10), 0x3C);
    assert_eq!(m.register(0), 0x42);
    assert_eq!(m.index_register(), 0x1FF);
    assert_eq!(m.stack_depth(), 1);
}

#[test]
fn reset_then_load_gives_clean_machine() {
    let mut m = loaded(&[0x6A, 0x3C, 0x22, 0x00]);
    m.step(0, &NO_KEYS).unwrap();
    m.step(0, &NO_KEYS).unwrap();
    m.reset();
    assert_eq!(m.load_program(&[0x00, 0xE0]), Ok(()));
    assert_eq!(m.register(10), 0);
    assert_eq!(m.stack_depth(), 0);
    assert_eq!(m.memory_byte(0x202), Some(0));
    assert_eq!(m.program_counter(), 0x200);
}

#[test]
fn skip_instruction_alone_advances_by_two_or_zero() {
    let mut m = loaded(&[]);
    set(&mut m, 5, 0x12);
    run(&mut m, Instruction::SkipIfEqual { x: 5, value: 0x12 }).unwrap();
    assert_eq!(m.program_counter(), 0x202);
    run(&mut m, Instruction::SkipIfEqual { x: 5, value: 0x13 }).unwrap();
    assert_eq!(m.program_counter(), 0x202);
    run(&mut m, Instruction::SkipIfNotEqual { x: 5, value: 0x13 }).unwrap();
    assert_eq!(m.program_counter(), 0x204);
    run(&mut m, Instruction::SkipIfNotEqual { x: 5, value: 0x12 }).unwrap();
    assert_eq!(m.program_counter(), 0x204);
    assert_eq!(m.register(5), 0x12);
}

fn skip_after(program: &[u8], setup: &[(u8, u8)], keys: &[bool]) -> u16 {
    let mut m = loaded(program);
    for (x, value) in setup {
        set(&mut m, *x, *value);
    }
    assert_eq!(m.step(0, keys), Ok(Effect::Continue));
    m.program_counter()
}

#[test]
fn skip_if_equal_advances_by_four_or_two() {
    assert_eq!(skip_after(&[0x35, 0x12], &[(5, 0x12)], &NO_KEYS), 0x204);
    assert_eq!(skip_after(&[0x35, 0x12], &[(5, 0x13)], &NO_KEYS), 0x202);
}

#[test]
fn skip_if_not_equal_advances_by_four_or_two() {
    assert_eq!(skip_after(&[0x45, 0x12], &[(5, 0x13)], &NO_KEYS), 0x204);
    assert_eq!(skip_after(&[0x45, 0x12], &[(5, 0x12)], &NO_KEYS), 0x202);
}

#[test]
fn skip_on_register_compare_advances_by_four_or_two() {
    assert_eq!(skip_after(&[0x51, 0x20], &[(1, 9), (2, 9)], &NO_KEYS), 0x204);
    assert_eq!(skip_after(&[0x51, 0x20], &[(1, 9), (2, 8)], &NO_KEYS), 0x202);
    assert_eq!(skip_after(&[0x91, 0x20], &[(1, 9), (2, 8)], &NO_KEYS), 0x204);
    assert_eq!(skip_after(&[0x91, 0x20], &[(1, 9), (2, 9)], &NO_KEYS), 0x202);
}

#[test]
fn skip_on_keys_advances_by_four_or_two() {
    let mut keys = [false; 16];
    keys[0xA] = true;
    assert_eq!(skip_after(&[0xE3, 0x9E], &[(3, 0xA)], &keys), 0x204);
    assert_eq!(skip_after(&[0xE3, 0x9E], &[(3, 0xB)], &keys), 0x202);
    assert_eq!(skip_after(&[0xE3, 0xA1], &[(3, 0xB)], &keys), 0x204);
    assert_eq!(skip_after(&[0xE3, 0xA1], &[(3, 0xA)], &keys), 0x202);
    assert_eq!(skip_after(&[0xE3, 0x9E], &[(3, 0x20)], &keys), 0x202);
    assert_eq!(skip_after(&[0xE3, 0xA1], &[(3, 0x20)], &keys), 0x204);
}

#[test]
fn return_with_empty_stack_underflows() {
    let mut m = Machine::new();
    assert_eq!(m.ret(), Err(Fault::StackUnderflow));
    assert_eq!(run(&mut m, Instruction::Return), Err(Fault::StackUnderflow));
    let mut n = loaded(&[0x00, 0xEE]);
    assert_eq!(n.step(0, &NO_KEYS), Err(Fault::StackUnderflow));
    assert_eq!(n.program_counter(), 0x200);
}

#[test]
fn call_with_full_stack_overflows() {
    let mut m = loaded(&[0x22, 0x00]);
    for depth in 1..=16usize {
        assert_eq!(m.step(0, &NO_KEYS), Ok(Effect::Continue));
        assert_eq!(m.stack_depth(), depth);
    }
    assert_eq!(m.step(0, &NO_KEYS), Err(Fault::StackOverflow));
    assert_eq!(m.stack_depth(), 16);
    assert_eq!(m.program_counter(), 0x200);
}

#[test]
fn unknown_word_is_a_decode_failure() {
    let mut m = loaded(&[0x80, 0x08]);
    assert_eq!(m.step(0, &NO_KEYS), Err(Fault::DecodeFailure { word: 0x8008, address: 0x200 }));
    assert_eq!(m.program_counter(), 0x200);
}

#[test]
fn fetch_past_memory_end_is_out_of_bounds() {
    let mut m = loaded(&[0x1F, 0xFF]);
    m.step(0, &NO_KEYS).unwrap();
    assert_eq!(m.program_counter(), 0xFFF);
    assert_eq!(m.fetch(), Err(Fault::OutOfBoundsAccess { address: 0xFFF }));
    assert_eq!(m.step(0, &NO_KEYS), Err(Fault::OutOfBoundsAccess { address: 0xFFF }));
}

#[test]
fn jump_and_jump_plus_v0() {
    let mut m = Machine::new();
    run(&mut m, Instruction::Jump { address: 0x345 }).unwrap();
    assert_eq!(m.program_counter(), 0x345);
    set(&mut m, 0, 0x10);
    run(&mut m, Instruction::JumpPlusV0 { address: 0x300 }).unwrap();
    assert_eq!(m.program_counter(), 0x310);
    set(&mut m, 0, 0xFF);
    run(&mut m, Instruction::JumpPlusV0 { address: 0xFFF }).unwrap();
    assert_eq!(m.program_counter(), 0x10FE);
}

#[test]
fn index_register_operations() {
    let mut m = Machine::new();
    run(&mut m, Instruction::SetIndexImmediate { address: 0x123 }).unwrap();
    assert_eq!(m.index_register(), 0x123);
    set(&mut m, 4, 0x10);
    run(&mut m, Instruction::AddToIndex { x: 4 }).unwrap();
    assert_eq!(m.index_register(), 0x133);
    run(&mut m, Instruction::SetIndexImmediate { address: 0xFFF }).unwrap();
    run(&mut m, Instruction::AddToIndex { x: 4 }).unwrap();
    assert_eq!(m.index_register(), 0x100F);
    set(&mut m, 4, 0xA);
    run(&mut m, Instruction::LoadSpriteAddress { x: 4 }).unwrap();
    assert_eq!(m.index_register(), 50);
}

#[test]
fn random_masked_uses_given_byte() {
    let mut m = Machine::new();
    assert_eq!(m.execute(Instruction::RandomMasked { x: 6, mask: 0x0F }, 0xAB, &NO_KEYS), Ok(Effect::Continue));
    assert_eq!(m.register(6), 0x0B);
    assert_eq!(m.execute(Instruction::RandomMasked { x: 6, mask: 0xF0 }, 0xAB, &NO_KEYS), Ok(Effect::Continue));
    assert_eq!(m.register(6), 0xA0);
}

#[test]
fn run_one_cycle_masks_random_byte() {
    let mut m = loaded(&[0x66, 0xFF, 0xC6, 0x00, 0xC7, 0x0F]);
    assert_eq!(m.run_one_cycle(&NO_KEYS), Ok(Effect::Continue));
    assert_eq!(m.register(6), 0xFF);
    assert_eq!(m.run_one_cycle(&NO_KEYS), Ok(Effect::Continue));
    assert_eq!(m.register(6), 0x00);
    assert_eq!(m.run_one_cycle(&NO_KEYS), Ok(Effect::Continue));
    assert!(m.register(7) <= 0x0F);
    assert_eq!(m.program_counter(), 0x206);
}

#[test]
fn store_bcd_writes_three_digits() {
    let mut m = Machine::new();
    set(&mut m, 2, 254);
    run(&mut m, Instruction::SetIndexImmediate { address: 0x300 }).unwrap();
    run(&mut m, Instruction::StoreBcd { x: 2 }).unwrap();
    assert_eq!(m.memory_byte(0x300), Some(2));
    assert_eq!(m.memory_byte(0x301), Some(5));
    assert_eq!(m.memory_byte(0x302), Some(4));
    assert_eq!(m.index_register(), 0x300);
    set(&mut m, 2, 7);
    run(&mut m, Instruction::StoreBcd { x: 2 }).unwrap();
    assert_eq!(m.memory_byte(0x300), Some(0));
    assert_eq!(m.memory_byte(0x301), Some(0));
    assert_eq!(m.memory_byte(0x302), Some(7));
}

#[test]
fn store_bcd_past_memory_end_is_out_of_bounds() {
    let mut m = Machine::new();
    run(&mut m, Instruction::SetIndexImmediate { address: 0xFFE }).unwrap();
    assert_eq!(run(&mut m, Instruction::StoreBcd { x: 0 }), Err(Fault::OutOfBoundsAccess { address: 0xFFE }));
    assert_eq!(m.memory_byte(0xFFE), Some(0));
    run(&mut m, Instruction::SetIndexImmediate { address: 0xFFD }).unwrap();
    set(&mut m, 0, 123);
    assert_eq!(run(&mut m, Instruction::StoreBcd { x: 0 }), Ok(Effect::Continue));
    assert_eq!(m.memory_byte(0xFFF), Some(3));
}

#[test]
fn dump_and_load_registers_round_trip() {
    let mut m = Machine::new();
    for x in 0..4u8 {
        set(&mut m, x, 10 + x);
    }
    set(&mut m, 4, 99);
    run(&mut m, Instruction::SetIndexImmediate { address: 0x400 }).unwrap();
    run(&mut m, Instruction::DumpRegisters { x: 3 }).unwrap();
    assert_eq!(m.memory_byte(0x400), Some(10));
    assert_eq!(m.memory_byte(0x403), Some(13));
    assert_eq!(m.memory_byte(0x404), Some(0));
    assert_eq!(m.index_register(), 0x400);
    for x in 0..5u8 {
        set(&mut m, x, 0);
    }
    run(&mut m, Instruction::LoadRegisters { x: 3 }).unwrap();
    assert_eq!(m.register(0), 10);
    assert_eq!(m.register(3), 13);
    assert_eq!(m.register(4), 0);
}

#[test]
fn dump_and_load_past_memory_end_are_out_of_bounds() {
    let mut m = Machine::new();
    run(&mut m, Instruction::SetIndexImmediate { address: 0xFFF }).unwrap();
    assert_eq!(run(&mut m, Instruction::DumpRegisters { x: 0 }), Ok(Effect::Continue));
    assert_eq!(run(&mut m, Instruction::DumpRegisters { x: 1 }), Err(Fault::OutOfBoundsAccess { address: 0xFFF }));
    assert_eq!(run(&mut m, Instruction::LoadRegisters { x: 1 }), Err(Fault::OutOfBoundsAccess { address: 0xFFF }));
}

#[test]
fn draw_hands_sprite_to_display_and_takes_collision() {
    let mut m = loaded(&[0xA2, 0x08, 0x61, 0x05, 0x62, 0x06, 0xD1, 0x22, 0xF0, 0x90]);
    for _ in 0..3 {
        assert_eq!(m.step(0, &NO_KEYS), Ok(Effect::Continue));
    }
    assert_eq!(m.step(0, &NO_KEYS), Ok(Effect::Draw { x: 5, y: 6, sprite: vec![0xF0, 0x90] }));
    assert_eq!(m.register(15), 0);
    m.report_collision(true);
    assert_eq!(m.register(15), 1);
    m.report_collision(false);
    assert_eq!(m.register(15), 0);
}

#[test]
fn draw_past_memory_end_is_out_of_bounds() {
    let mut m = Machine::new();
    run(&mut m, Instruction::SetIndexImmediate { address: 0xFFF }).unwrap();
    assert_eq!(
        run(&mut m, Instruction::DrawSprite { x: 0, y: 0, height: 1 }),
        Ok(Effect::Draw { x: 0, y: 0, sprite: vec![0] })
    );
    assert_eq!(
        run(&mut m, Instruction::DrawSprite { x: 0, y: 0, height: 2 }),
        Err(Fault::OutOfBoundsAccess { address: 0xFFF })
    );
}

#[test]
fn clear_screen_and_native_call_effects() {
    let mut m = loaded(&[0x00, 0xE0, 0x01, 0x23]);
    assert_eq!(m.step(0, &NO_KEYS), Ok(Effect::ClearScreen));
    assert_eq!(m.step(0, &NO_KEYS), Ok(Effect::Continue));
    assert_eq!(m.program_counter(), 0x204);
}

#[test]
fn key_wait_suspends_until_key_supplied() {
    let mut m = loaded(&[0xF5, 0x0A, 0x66, 0x01]);
    assert!(!m.supply_key(3));
    assert_eq!(m.step(0, &NO_KEYS), Ok(Effect::AwaitingKey));
    assert!(m.is_awaiting_key());
    assert_eq!(m.inspect_state().awaiting_key, Some(5));
    assert_eq!(m.step(0, &NO_KEYS), Ok(Effect::AwaitingKey));
    assert_eq!(m.program_counter(), 0x202);
    assert!(m.supply_key(0xC));
    assert!(!m.is_awaiting_key());
    assert_eq!(m.register(5), 0xC);
    assert_eq!(m.step(0, &NO_KEYS), Ok(Effect::Continue));
    assert_eq!(m.register(6), 1);
}

#[test]
fn timers_are_set_read_and_count_down_to_zero() {
    let mut m = Machine::new();
    set(&mut m, 1, 2);
    set(&mut m, 2, 1);
    run(&mut m, Instruction::SetDelayFromRegister { x: 1 }).unwrap();
    run(&mut m, Instruction::SetSoundFromRegister { x: 2 }).unwrap();
    assert_eq!(m.delay_timer(), 2);
    assert_eq!(m.sound_timer(), 1);
    m.tick_timers();
    assert_eq!(m.delay_timer(), 1);
    assert_eq!(m.sound_timer(), 0);
    run(&mut m, Instruction::SetRegisterFromDelay { x: 7 }).unwrap();
    assert_eq!(m.register(7), 1);
    m.tick_timers();
    m.tick_timers();
    assert_eq!(m.delay_timer(), 0);
    assert_eq!(m.sound_timer(), 0);
}

#[test]
fn reset_returns_to_power_on_state() {
    let mut m = loaded(&[0x6A, 0x3C, 0x22, 0x00]);
    m.step(0, &NO_KEYS).unwrap();
    m.step(0, &NO_KEYS).unwrap();
    m.reset();
    assert_eq!(m.inspect_state(), Machine::new().inspect_state());
}
