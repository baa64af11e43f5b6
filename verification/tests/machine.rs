use chip8::execute_opcode;
use chip8::execute_with_random;
use chip8::frame_image;
use chip8::init_state;
use chip8::load;
use chip8::set_key;
use chip8::step;
use chip8::update_timers;
use chip8::Chip8Error;
use chip8::Chip8State;

fn fresh() -> (Chip8State, Vec<u8>) {
    let mut state: Chip8State = Default::default();
    init_state(&mut state);
    (state, vec![0u8; 4096])
}

#[test]
fn test_opcode_8xy5_borrow() {
    let (mut state, mut memory) = fresh();
    state.v[2] = 5;
    state.v[7] = 10;
    execute_opcode(0x8275, &mut state, &mut memory).unwrap();

    // 10 > 5: borrow, flag cleared, wrapped difference
    assert_eq!(251, state.v[2]);
    assert_eq!(0, state.v[0xf]);

    // 251 >= 10: no borrow, flag set, plain difference
    execute_opcode(0x8275, &mut state, &mut memory).unwrap();
    assert_eq!(241, state.v[2]);
    assert_eq!(1, state.v[0xf]);
}

#[test]
fn test_opcode_9xy0() {
    let (mut state, mut memory) = fresh();
    state.v[3] = 0x45;
    state.v[5] = 0x28;
    state.v[8] = 0x45;
    state.pc = 0x3456;

    // equal registers: no skip
    execute_opcode(0x9380, &mut state, &mut memory).unwrap();
    assert_eq!(0x3458, state.pc);

    // different registers: skip
    execute_opcode(0x9350, &mut state, &mut memory).unwrap();
    assert_eq!(0x345c, state.pc);
}

#[test]
fn test_opcode_annn() {
    let (mut state, mut memory) = fresh();
    execute_opcode(0xA123, &mut state, &mut memory).unwrap();
    assert_eq!(0x123, state.index);
    assert_eq!(0x202, state.pc);
}

#[test]
fn test_opcode_cxnn_masked() {
    let (mut state, mut memory) = fresh();
    state.v[3] = 0xAA;

    // a zero mask forces the register to zero whatever byte was drawn
    execute_opcode(0xC300, &mut state, &mut memory).unwrap();
    assert_eq!(0, state.v[3]);

    // only masked bits can be set
    execute_opcode(0xC30F, &mut state, &mut memory).unwrap();
    assert_eq!(0, state.v[3] & 0xF0);
}

#[test]
fn test_opcode_cxnn_with_injected_byte() {
    let (mut state, mut memory) = fresh();
    state.v[3] = 0x00;
    execute_with_random(0xC3F0, &mut state, &mut memory, 0xAB).unwrap();
    assert_eq!(0xF0 & 0xAB, state.v[3]);
    assert_eq!(0x202, state.pc);
}

#[test]
fn test_opcode_dxyn_draw_and_collision() {
    let (mut state, mut memory) = fresh();
    memory[0x300] = 0x80; // single leftmost pixel
    state.index = 0x300;
    state.v[0] = 0;
    state.v[1] = 0;

    let drew = execute_opcode(0xD011, &mut state, &mut memory).unwrap();
    assert!(drew);
    assert_eq!(1, state.gfx[0]);
    assert_eq!(0, state.v[0xf]);

    // drawing the same sprite again clears the pixel and reports collision
    execute_opcode(0xD011, &mut state, &mut memory).unwrap();
    assert_eq!(0, state.gfx[0]);
    assert_eq!(1, state.v[0xf]);
}

#[test]
fn test_opcode_dxyn_wraps() {
    let (mut state, mut memory) = fresh();
    memory[0x300] = 0xC0; // two leftmost pixels of the row
    memory[0x301] = 0x80;
    state.index = 0x300;
    state.v[0] = 63;
    state.v[1] = 31;

    execute_opcode(0xD012, &mut state, &mut memory).unwrap();

    // first row lands on row 31, columns 63 and 0
    assert_eq!(1, state.gfx[31 * 64 + 63]);
    assert_eq!(1, state.gfx[31 * 64]);
    // second row wraps to row 0, column 63
    assert_eq!(1, state.gfx[63]);
    assert_eq!(0, state.v[0xf]);
}

#[test]
fn test_opcode_ex9e_exa1() {
    let (mut state, mut memory) = fresh();
    state.v[3] = 0x7;
    state.pc = 0x200;

    // key 7 not pressed: Ex9E does not skip, ExA1 skips
    execute_opcode(0xE39E, &mut state, &mut memory).unwrap();
    assert_eq!(0x202, state.pc);
    execute_opcode(0xE3A1, &mut state, &mut memory).unwrap();
    assert_eq!(0x206, state.pc);

    set_key(&mut state, 0x7, true);
    execute_opcode(0xE39E, &mut state, &mut memory).unwrap();
    assert_eq!(0x20a, state.pc);
    execute_opcode(0xE3A1, &mut state, &mut memory).unwrap();
    assert_eq!(0x20c, state.pc);
}

#[test]
fn test_opcode_fx07_fx15() {
    let (mut state, mut memory) = fresh();
    state.v[4] = 0x21;
    execute_opcode(0xF415, &mut state, &mut memory).unwrap();
    assert_eq!(0x21, state.delay_timer);

    state.delay_timer = 0x13;
    execute_opcode(0xF607, &mut state, &mut memory).unwrap();
    assert_eq!(0x13, state.v[6]);
}

#[test]
fn test_opcode_fx0a_waits_for_key() {
    let (mut state, mut memory) = fresh();
    state.pc = 0x200;

    // no key pressed: the instruction spins, nothing moves
    execute_opcode(0xF30A, &mut state, &mut memory).unwrap();
    assert_eq!(0x200, state.pc);
    assert_eq!(0, state.v[3]);

    // lowest pressed key is reported and the machine moves on
    set_key(&mut state, 5, true);
    set_key(&mut state, 9, true);
    execute_opcode(0xF30A, &mut state, &mut memory).unwrap();
    assert_eq!(0x202, state.pc);
    assert_eq!(5, state.v[3]);
}

#[test]
fn test_opcode_fx1e_wraps() {
    let (mut state, mut memory) = fresh();
    state.index = 0xFFFF;
    state.v[0] = 3;
    execute_opcode(0xF01E, &mut state, &mut memory).unwrap();
    assert_eq!(2, state.index);
}

#[test]
fn test_opcode_fx29_font_address() {
    let (mut state, mut memory) = fresh();
    state.v[3] = 0xA;
    execute_opcode(0xF329, &mut state, &mut memory).unwrap();
    assert_eq!(50, state.index);
}

#[test]
fn test_opcode_fx33_bcd() {
    let (mut state, mut memory) = fresh();
    state.v[4] = 237;
    state.index = 0x300;
    execute_opcode(0xF433, &mut state, &mut memory).unwrap();
    assert_eq!(2, memory[0x300]);
    assert_eq!(3, memory[0x301]);
    assert_eq!(7, memory[0x302]);
}

#[test]
fn test_opcode_fx55_fx65_round_trip() {
    let (mut state, mut memory) = fresh();
    let saved = [0x12u8, 0x34, 0x56, 0x78, 0x9a, 0xbc];
    for i in 0..6 {
        state.v[i] = saved[i];
    }
    state.index = 0x300;
    execute_opcode(0xF555, &mut state, &mut memory).unwrap();

    // scramble the registers, then refill them from the same window
    for i in 0..6 {
        state.v[i] = 0xEE;
    }
    execute_opcode(0xF565, &mut state, &mut memory).unwrap();
    for i in 0..6 {
        assert_eq!(saved[i], state.v[i]);
    }
    // registers above x are untouched by both instructions
    assert_eq!(0, state.v[6]);
}

#[test]
fn test_unknown_opcode_advances_only() {
    let (mut state, mut memory) = fresh();
    state.pc = 0x400;
    state.v[1] = 0x11;

    // the offset-jump opcode is not part of this machine's set
    let drew = execute_opcode(0xB123, &mut state, &mut memory).unwrap();
    assert!(!drew);
    assert_eq!(0x402, state.pc);
    assert_eq!(0x11, state.v[1]);

    // nor are the register-shift opcodes
    execute_opcode(0x8126, &mut state, &mut memory).unwrap();
    assert_eq!(0x404, state.pc);
    assert_eq!(0x11, state.v[1]);
}

#[test]
fn test_stack_underflow() {
    let (mut state, mut memory) = fresh();
    state.pc = 0x200;
    let res = execute_opcode(0x00EE, &mut state, &mut memory);
    assert_eq!(Err(Chip8Error::StackUnderflow), res);
    assert_eq!(0x200, state.pc);
}

#[test]
fn test_stack_overflow() {
    let (mut state, mut memory) = fresh();
    state.stack_pointer = 16;
    state.pc = 0x200;
    let res = execute_opcode(0x2858, &mut state, &mut memory);
    assert_eq!(Err(Chip8Error::StackOverflow), res);
    assert_eq!(0x200, state.pc);
    assert_eq!(16, state.stack_pointer);
}

#[test]
fn test_draw_memory_out_of_range() {
    let (mut state, mut memory) = fresh();
    state.index = 4095;
    let res = execute_opcode(0xD012, &mut state, &mut memory);
    assert_eq!(Err(Chip8Error::MemoryOutOfRange), res);
    assert_eq!(0x200, state.pc);
}

#[test]
fn test_bcd_memory_out_of_range() {
    let (mut state, mut memory) = fresh();
    state.index = 4094;
    let res = execute_opcode(0xF433, &mut state, &mut memory);
    assert_eq!(Err(Chip8Error::MemoryOutOfRange), res);
}

#[test]
fn test_key_out_of_range() {
    let (mut state, mut memory) = fresh();
    state.v[3] = 16;
    let res = execute_opcode(0xE39E, &mut state, &mut memory);
    assert_eq!(Err(Chip8Error::KeyOutOfRange), res);
}

#[test]
fn test_load_places_font_and_program() {
    let rom = vec![0xA2u8, 0xF0, 0x61];
    let (memory, state) = load(&rom).unwrap();

    assert_eq!(4096, memory.len());
    // first and last font bytes
    assert_eq!(0xF0, memory[0]);
    assert_eq!(0x80, memory[79]);
    assert_eq!(0, memory[80]);
    // program image at the base address
    assert_eq!(0xA2, memory[0x200]);
    assert_eq!(0xF0, memory[0x201]);
    assert_eq!(0x61, memory[0x202]);
    assert_eq!(0, memory[0x203]);

    assert_eq!(0x200, state.pc);
    assert_eq!(0, state.stack_pointer);
    assert_eq!(16, state.v.len());
    assert_eq!(2048, state.gfx.len());
}

#[test]
fn test_load_rejects_oversized_rom() {
    let rom = vec![0u8; 3585];
    let res = load(&rom);
    assert!(matches!(res, Err(Chip8Error::RomTooLarge)));
    // the largest image that still fits is accepted
    let rom = vec![0u8; 3584];
    assert!(load(&rom).is_ok());
}

#[test]
fn test_step_fetches_and_executes() {
    let rom = vec![0x63u8, 0xFF, 0xA1, 0x23];
    let (mut memory, mut state) = load(&rom).unwrap();

    step(&mut state, &mut memory).unwrap();
    assert_eq!(0xFF, state.v[3]);
    assert_eq!(0x202, state.pc);

    step(&mut state, &mut memory).unwrap();
    assert_eq!(0x123, state.index);
    assert_eq!(0x204, state.pc);
}

#[test]
fn test_update_timers_floor_at_zero() {
    let mut state: Chip8State = Default::default();
    init_state(&mut state);
    state.delay_timer = 2;
    state.sound_timer = 0;

    update_timers(&mut state);
    assert_eq!(1, state.delay_timer);
    assert_eq!(0, state.sound_timer);

    update_timers(&mut state);
    update_timers(&mut state);
    assert_eq!(0, state.delay_timer);
    assert_eq!(0, state.sound_timer);
}

#[test]
fn test_set_key_levels() {
    let mut state: Chip8State = Default::default();
    init_state(&mut state);
    set_key(&mut state, 4, true);
    assert!(state.key_press[4]);
    set_key(&mut state, 4, false);
    assert!(!state.key_press[4]);
}

#[test]
fn test_frame_image_flips_rows() {
    let mut gfx = vec![0u8; 2048];
    gfx[3 * 64 + 2] = 1; // pixel (2, 3)
    let img = frame_image(&gfx);
    assert_eq!(2048, img.len());
    assert_eq!(255, img[(31 - 3) * 64 + 2]);
    assert_eq!(0, img[3 * 64 + 2]);
}
