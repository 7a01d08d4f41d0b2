use chreight::cpu::{CPU, PROGRAM_START, RAM, SCREEN_HEIGHT, SCREEN_WIDTH};
use chreight::fault::Fault;
use chreight::font::FONT_SET;

const NO_KEYS: [bool; 16] = [false; 16];

fn cpu_running(program: &[u8]) -> CPU {
    let mut cpu = CPU::new();
    cpu.load_program(program.to_vec()).unwrap();
    cpu
}

#[test]
fn new_machine_holds_the_font_and_starts_at_0x200() {
    let cpu = CPU::new();
    assert_eq!(&cpu.memory[0..80], &FONT_SET[..]);
    assert!(cpu.memory[80..].iter().all(|&b| b == 0));
    assert_eq!(cpu.pc, 0x200);
    assert_eq!(cpu.pc, PROGRAM_START);
    assert_eq!(cpu.i, 0x200);
    assert_eq!(cpu.opcode, 0);
    assert_eq!(cpu.v, [0; 16]);
    assert_eq!(cpu.stack, [0; 16]);
    assert_eq!(cpu.sp, 0);
    assert_eq!(cpu.delay_timer, 0);
    assert_eq!(cpu.sound_timer, 0);
    assert_eq!(cpu.display, [[0u8; SCREEN_WIDTH]; SCREEN_HEIGHT]);
    assert!(!cpu.draw_screen);
    assert_eq!(cpu.keypad, NO_KEYS);
    assert!(!cpu.keypad_waiting);
    assert_eq!(cpu.keypad_register, 0);
    assert_eq!(cpu.memory.len(), RAM);
    assert!(cpu.well_formed());
}

#[test]
fn font_glyphs_are_five_rows_each() {
    assert_eq!(FONT_SET.len(), 80);
    assert_eq!(&FONT_SET[0..5], &[0xF0, 0x90, 0x90, 0x90, 0xF0]);
    assert_eq!(&FONT_SET[5..10], &[0x20, 0x60, 0x20, 0x20, 0x70]);
    assert_eq!(&FONT_SET[75..80], &[0xF0, 0x80, 0xF0, 0x80, 0x80]);
}

#[test]
fn well_formed_rejects_what_no_program_can_reach() {
    let mut cpu = CPU::new();
    cpu.sp = 16;
    assert!(cpu.well_formed());
    cpu.sp = 17;
    assert!(!cpu.well_formed());
    cpu.sp = 0;
    cpu.keypad_register = 16;
    assert!(!cpu.well_formed());
    cpu.keypad_register = 15;
    assert!(cpu.well_formed());
    cpu.display[31][63] = 2;
    assert!(!cpu.well_formed());
    cpu.display[31][63] = 1;
    assert!(cpu.well_formed());
}

#[test]
fn program_is_copied_to_0x200() {
    let mut cpu = CPU::new();
    assert_eq!(cpu.load_program(vec![0xAA, 0xBB, 0xCC]), Ok(()));
    assert_eq!(&cpu.memory[0x1FF..0x204], &[0, 0xAA, 0xBB, 0xCC, 0]);
    assert_eq!(&cpu.memory[0..80], &FONT_SET[..]);
    assert_eq!(cpu.pc, 0x200);
}

#[test]
fn largest_program_fills_memory_to_the_end() {
    let mut cpu = CPU::new();
    assert_eq!(cpu.load_program(vec![0x5A; 4096 - 0x200]), Ok(()));
    assert_eq!(cpu.memory[0x200], 0x5A);
    assert_eq!(cpu.memory[4095], 0x5A);
    assert_eq!(cpu.memory[0x1FF], 0);
}

#[test]
fn oversized_program_is_refused() {
    let mut cpu = CPU::new();
    assert_eq!(cpu.load_program(vec![0x5A; 4096 - 0x200 + 1]), Err(Fault::AddressOutOfRange));
    assert!(cpu.memory[0x200..].iter().all(|&b| b == 0));
}

#[test]
fn empty_program_changes_nothing() {
    let mut cpu = CPU::new();
    assert_eq!(cpu.load_program(Vec::new()), Ok(()));
    assert!(cpu.memory[80..].iter().all(|&b| b == 0));
}

#[test]
fn step_reads_a_big_endian_word_and_moves_on() {
    let mut cpu = cpu_running(&[0x6A, 0x42]);
    assert_eq!(cpu.fetch_and_process_opcode(), Ok(()));
    assert_eq!(cpu.opcode, 0x6A42);
    assert_eq!(cpu.v[10], 0x42);
    assert_eq!(cpu.pc, 0x202);
}

#[test]
fn jump_overrides_the_advance() {
    let mut cpu = cpu_running(&[0x12, 0xF0]);
    assert_eq!(cpu.fetch_and_process_opcode(), Ok(()));
    assert_eq!(cpu.pc, 0x2F0);
}

#[test]
fn skip_if_equal_advances_by_four() {
    let mut cpu = cpu_running(&[0x33, 0x07]);
    cpu.v[3] = 7;
    cpu.fetch_and_process_opcode().unwrap();
    assert_eq!(cpu.pc, 0x204);
}

#[test]
fn skip_if_not_equal_advances_by_two_on_equal() {
    let mut cpu = cpu_running(&[0x43, 0x07]);
    cpu.v[3] = 7;
    cpu.fetch_and_process_opcode().unwrap();
    assert_eq!(cpu.pc, 0x202);
}

#[test]
fn skip_if_equal_advances_by_two_on_unequal() {
    let mut cpu = cpu_running(&[0x33, 0x07]);
    cpu.v[3] = 8;
    cpu.fetch_and_process_opcode().unwrap();
    assert_eq!(cpu.pc, 0x202);
}

#[test]
fn process_opcode_executes_the_word_in_opcode() {
    let mut cpu = CPU::new();
    cpu.opcode = 0xA2F0;
    cpu.pc = 0x300;
    assert_eq!(cpu.process_opcode(), Ok(()));
    assert_eq!(cpu.i, 0x2F0);
    assert_eq!(cpu.pc, 0x302);
}

#[test]
fn every_family_is_dispatched() {
    let mut cpu = cpu_running(&[
        0x00, 0xE0, // clear
        0x22, 0x08, // call 0x208
        0x12, 0x0C, // jump 0x20C (reached after return)
        0x00, 0x00, // never executed
        0x61, 0x05, // 0x208: V1 = 5
        0x00, 0xEE, // return to 0x204
        0x71, 0x03, // 0x20C: V1 += 3
        0x82, 0x10, // V2 = V1
        0x32, 0x08, // skip if V2 == 8
        0x00, 0x00, // skipped
        0x42, 0x09, // skip if V2 != 9
        0x00, 0x00, // skipped
        0x51, 0x20, // skip if V1 == V2
        0x00, 0x00, // skipped
        0x91, 0x20, // skip if V1 != V2: not taken
        0xA3, 0x00, // I = 0x300
        0xF2, 0x55, // store V0..V2 at I
        0xC3, 0x00, // V3 = random & 0
        0xD0, 0x01, // draw one row at (V0, V0)
        0xE3, 0xA1, // skip if key V3 (0) is up
        0x00, 0x00, // skipped
        0x60, 0x04, // V0 = 4
        0xB2, 0x30, // jump 0x230 + V0
    ]);
    cpu.memory[0x300] = 0xFF;
    for _ in 0..18 {
        assert_eq!(cpu.fetch_and_process_opcode(), Ok(()));
    }
    assert_eq!(cpu.pc, 0x234);
    assert_eq!(cpu.v[1], 8);
    assert_eq!(cpu.v[2], 8);
    assert_eq!(cpu.v[3], 0);
    assert_eq!(cpu.sp, 0);
    assert_eq!(cpu.stack[0], 0x204);
    assert_eq!(&cpu.memory[0x300..0x303], &[0, 8, 8]);
    assert_eq!(cpu.display, [[0u8; 64]; 32]);
    assert!(cpu.draw_screen);
}

#[test]
fn step_beyond_memory_is_a_fault() {
    let mut cpu = CPU::new();
    cpu.pc = 4095;
    assert_eq!(cpu.fetch_and_process_opcode(), Err(Fault::AddressOutOfRange));
    assert_eq!(cpu.pc, 4095);
    cpu.pc = 4096;
    assert_eq!(cpu.fetch_and_process_opcode(), Err(Fault::AddressOutOfRange));
    cpu.pc = 0xFFFF;
    assert_eq!(cpu.fetch_and_process_opcode(), Err(Fault::AddressOutOfRange));
    assert_eq!(cpu.opcode, 0);
}

#[test]
fn last_instruction_of_memory_executes() {
    let mut cpu = CPU::new();
    cpu.memory[4094] = 0x60;
    cpu.memory[4095] = 0x11;
    cpu.pc = 4094;
    assert_eq!(cpu.fetch_and_process_opcode(), Ok(()));
    assert_eq!(cpu.v[0], 0x11);
    assert_eq!(cpu.pc, 4096);
    assert_eq!(cpu.fetch_and_process_opcode(), Err(Fault::AddressOutOfRange));
}

#[test]
fn odd_program_counter_is_a_fault() {
    let mut cpu = cpu_running(&[0x12, 0x05]);
    assert_eq!(cpu.fetch_and_process_opcode(), Ok(()));
    assert_eq!(cpu.pc, 0x205);
    assert_eq!(cpu.fetch_and_process_opcode(), Err(Fault::MisalignedProgramCounter));
    assert_eq!(cpu.pc, 0x205);
    assert_eq!(cpu.opcode, 0x1205);
}

#[test]
fn unknown_instruction_names_word_and_address() {
    let mut cpu = cpu_running(&[0x60, 0x01, 0x80, 0x1F]);
    cpu.fetch_and_process_opcode().unwrap();
    assert_eq!(
        cpu.fetch_and_process_opcode(),
        Err(Fault::UnknownInstruction { opcode: 0x801F, address: 0x202 })
    );
    assert_eq!(cpu.pc, 0x202);
    assert_eq!(cpu.opcode, 0x801F);
    assert_eq!(cpu.v[0], 1);
}

#[test]
fn step_over_an_undefined_system_word_leaves_the_display() {
    let mut cpu = cpu_running(&[0x01, 0xE0]);
    cpu.display[0][0] = 1;
    assert_eq!(
        cpu.fetch_and_process_opcode(),
        Err(Fault::UnknownInstruction { opcode: 0x01E0, address: 0x200 })
    );
    assert_eq!(cpu.display[0][0], 1);
    assert!(!cpu.draw_screen);
    assert_eq!(cpu.pc, 0x200);
    assert_eq!(cpu.opcode, 0x01E0);
}

#[test]
fn step_over_a_return_like_word_leaves_the_stack() {
    let mut cpu = cpu_running(&[0x0A, 0xEE]);
    cpu.sp = 1;
    cpu.stack[0] = 0x300;
    assert_eq!(
        cpu.tick(NO_KEYS),
        Err(Fault::UnknownInstruction { opcode: 0x0AEE, address: 0x200 })
    );
    assert_eq!((cpu.sp, cpu.pc), (1, 0x200));
}

#[test]
fn return_without_call_is_an_underflow() {
    let mut cpu = cpu_running(&[0x00, 0xEE]);
    assert_eq!(cpu.fetch_and_process_opcode(), Err(Fault::StackUnderflow));
    assert_eq!(cpu.sp, 0);
    assert_eq!(cpu.pc, 0x200);
}

#[test]
fn seventeenth_nested_call_is_an_overflow() {
    let mut cpu = cpu_running(&[0x22, 0x00]);
    for depth in 0..16 {
        assert_eq!(cpu.fetch_and_process_opcode(), Ok(()));
        assert_eq!(cpu.sp, depth + 1);
        assert_eq!(cpu.pc, 0x200);
    }
    assert_eq!(cpu.stack, [0x202; 16]);
    assert_eq!(cpu.fetch_and_process_opcode(), Err(Fault::StackOverflow));
    assert_eq!(cpu.sp, 16);
    assert_eq!(cpu.pc, 0x200);
}

#[test]
fn tick_steps_and_counts_timers_down() {
    let mut cpu = cpu_running(&[0x60, 0x01, 0x60, 0x02, 0x60, 0x03]);
    cpu.delay_timer = 2;
    cpu.sound_timer = 1;
    assert_eq!(cpu.tick(NO_KEYS), Ok(()));
    assert_eq!((cpu.v[0], cpu.pc, cpu.delay_timer, cpu.sound_timer), (1, 0x202, 1, 0));
    assert_eq!(cpu.tick(NO_KEYS), Ok(()));
    assert_eq!((cpu.v[0], cpu.pc, cpu.delay_timer, cpu.sound_timer), (2, 0x204, 0, 0));
    assert_eq!(cpu.tick(NO_KEYS), Ok(()));
    assert_eq!((cpu.v[0], cpu.pc, cpu.delay_timer, cpu.sound_timer), (3, 0x206, 0, 0));
}

#[test]
fn timer_set_by_an_instruction_counts_down_on_the_same_tick() {
    let mut cpu = cpu_running(&[0xF1, 0x15]);
    cpu.v[1] = 10;
    cpu.tick(NO_KEYS).unwrap();
    assert_eq!(cpu.delay_timer, 9);
}

#[test]
fn tick_clears_the_redraw_flag_and_takes_the_keys() {
    let mut cpu = cpu_running(&[0x00, 0xE0, 0x60, 0x00]);
    let mut keys = NO_KEYS;
    keys[3] = true;
    cpu.tick(keys).unwrap();
    assert!(cpu.draw_screen);
    assert_eq!(cpu.keypad, keys);
    cpu.tick(NO_KEYS).unwrap();
    assert!(!cpu.draw_screen);
    assert_eq!(cpu.keypad, NO_KEYS);
}

#[test]
fn tick_hands_the_keys_to_the_instruction_it_executes() {
    let mut cpu = cpu_running(&[0xE0, 0x9E]);
    cpu.v[0] = 0xB;
    let mut keys = NO_KEYS;
    keys[0xB] = true;
    cpu.tick(keys).unwrap();
    assert_eq!(cpu.pc, 0x204);
}

#[test]
fn tick_returns_the_fault_and_leaves_the_timers() {
    let mut cpu = cpu_running(&[0xFF, 0xFF]);
    cpu.delay_timer = 5;
    cpu.sound_timer = 6;
    cpu.draw_screen = true;
    assert_eq!(
        cpu.tick(NO_KEYS),
        Err(Fault::UnknownInstruction { opcode: 0xFFFF, address: 0x200 })
    );
    assert_eq!((cpu.delay_timer, cpu.sound_timer, cpu.pc), (5, 6, 0x200));
    assert!(!cpu.draw_screen);
}

#[test]
fn waiting_machine_is_frozen_until_a_key_is_down() {
    let mut cpu = cpu_running(&[0xF5, 0x0A, 0x61, 0x99]);
    cpu.delay_timer = 9;
    cpu.sound_timer = 8;
    cpu.tick(NO_KEYS).unwrap();
    assert!(cpu.keypad_waiting);
    assert_eq!(cpu.keypad_register, 5);
    assert_eq!((cpu.pc, cpu.delay_timer, cpu.sound_timer), (0x202, 8, 7));
    let registers = cpu.v;
    let memory = cpu.memory;
    for _ in 0..10 {
        assert_eq!(cpu.tick(NO_KEYS), Ok(()));
        assert!(cpu.keypad_waiting);
        assert_eq!(cpu.v, registers);
        assert_eq!(cpu.memory, memory);
        assert_eq!((cpu.pc, cpu.delay_timer, cpu.sound_timer), (0x202, 8, 7));
    }
    let mut keys = NO_KEYS;
    keys[0xC] = true;
    keys[0xE] = true;
    assert_eq!(cpu.tick(keys), Ok(()));
    assert!(!cpu.keypad_waiting);
    assert_eq!(cpu.v[5], 0xC);
    assert_eq!(cpu.v[1], 0);
    assert_eq!((cpu.pc, cpu.delay_timer, cpu.sound_timer), (0x202, 8, 7));
    assert_eq!(cpu.tick(keys), Ok(()));
    assert_eq!(cpu.v[1], 0x99);
    assert_eq!((cpu.pc, cpu.delay_timer, cpu.sound_timer), (0x204, 7, 6));
}

#[test]
fn key_zero_ends_a_wait() {
    let mut cpu = CPU::new();
    cpu.keypad_waiting = true;
    cpu.keypad_register = 0xF;
    cpu.v[15] = 0x55;
    let mut keys = [true; 16];
    keys[15] = false;
    cpu.tick(keys).unwrap();
    assert_eq!(cpu.v[15], 0);
    assert!(!cpu.keypad_waiting);
}

#[test]
fn first_key_down_is_the_lowest() {
    assert_eq!(CPU::first_key_down(&NO_KEYS), None);
    let mut keys = NO_KEYS;
    keys[15] = true;
    assert_eq!(CPU::first_key_down(&keys), Some(15));
    keys[4] = true;
    assert_eq!(CPU::first_key_down(&keys), Some(4));
    keys[0] = true;
    assert_eq!(CPU::first_key_down(&keys), Some(0));
}
