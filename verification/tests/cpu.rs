use chippy8::cpu::{is_known_opcode, Cycle, Fault, CPU};

const WHITE: (u8, u8, u8) = (255, 255, 255);
const BLACK: (u8, u8, u8) = (0, 0, 0);

fn machine(rom: &[u8]) -> CPU {
    CPU::new(rom.to_vec(), rom.len() as u64)
}

fn blank() -> CPU {
    CPU::new(Vec::new(), 0)
}

#[test]
fn new_loads_font_and_program() {
    let cpu = machine(&[0x12, 0x34, 0x56]);
    assert_eq!(cpu.memory.len(), 4096);
    assert_eq!(&cpu.memory[0..5], &[0xF0, 0x90, 0x90, 0x90, 0xF0]);
    assert_eq!(&cpu.memory[75..80], &[0xF0, 0x80, 0xF0, 0x80, 0x80]);
    assert_eq!(cpu.memory[80], 0);
    assert_eq!(cpu.memory[511], 0);
    assert_eq!(&cpu.memory[512..516], &[0x12, 0x34, 0x56, 0]);
    assert_eq!(cpu.memory[4095], 0);
    assert_eq!(cpu.register, vec![0u8; 16]);
    assert_eq!(cpu.stack, vec![0usize; 16]);
    assert_eq!(cpu.pixels.len(), 2048);
    assert!(cpu.pixels.iter().all(|p| *p == BLACK));
    assert_eq!(cpu.pc, 0x200);
    assert_eq!(cpu.sp, 0);
    assert_eq!(cpu.i, 0);
    assert_eq!(cpu.sound_register, 0);
    assert_eq!(cpu.delay_register, 0);
    assert!(cpu.draw_flag);
}

#[test]
fn new_copies_only_fsize_bytes() {
    let cpu = CPU::new(vec![1, 2, 3, 4], 2);
    assert_eq!(&cpu.memory[512..516], &[1, 2, 0, 0]);
}

#[test]
fn new_accepts_largest_program() {
    let rom = vec![7u8; 3583];
    let cpu = CPU::new(rom, 3583);
    assert_eq!(cpu.memory[511], 0);
    assert_eq!(cpu.memory[512], 7);
    assert_eq!(cpu.memory[4094], 7);
    assert_eq!(cpu.memory[4095], 0);
}

#[test]
fn fetch_reads_big_endian_word() {
    let mut cpu = machine(&[0x60, 0x2A]);
    assert_eq!(cpu.fetch_opcode(), Ok(0x602A));
    assert_eq!(cpu.pc, 0x200);
}

#[test]
fn set_and_add_registers() {
    let mut cpu = blank();
    cpu.execute(0x632A, 0);
    assert_eq!(cpu.register[3], 0x2A);
    cpu.execute(0x73F0, 0);
    assert_eq!(cpu.register[3], 0x1A);
    assert_eq!(cpu.register[15], 0);
    assert_eq!(cpu.pc, 0x204);
}

#[test]
fn skips_compare_registers_and_bytes() {
    let mut cpu = blank();
    cpu.execute(0x6107, 0);
    cpu.execute(0x3107, 0);
    assert_eq!(cpu.pc, 0x202 + 4);
    cpu.execute(0x3108, 0);
    assert_eq!(cpu.pc, 0x206 + 2);
    cpu.execute(0x4108, 0);
    assert_eq!(cpu.pc, 0x208 + 4);
    cpu.execute(0x5100, 0);
    assert_eq!(cpu.pc, 0x20C + 2);
    cpu.execute(0x9100, 0);
    assert_eq!(cpu.pc, 0x20E + 4);
}

#[test]
fn jumps_and_computed_jump_wraps_in_a_byte() {
    let mut cpu = blank();
    cpu.execute(0x1ABC, 0);
    assert_eq!(cpu.pc, 0xABC);
    cpu.execute(0x6010, 0);
    cpu.execute(0xB3F8, 0);
    assert_eq!(cpu.pc, 0x08);
}

#[test]
fn call_then_return_lands_four_bytes_past_the_call() {
    let mut cpu = blank();
    cpu.execute(0x2400, 0);
    assert_eq!(cpu.pc, 0x400);
    assert_eq!(cpu.sp, 1);
    assert_eq!(cpu.stack[0], 0x202);
    cpu.execute(0x00EE, 0);
    assert_eq!(cpu.sp, 0);
    assert_eq!(cpu.pc, 0x204);
}

#[test]
fn alu_logic_operations() {
    let mut cpu = blank();
    cpu.execute(0x60F0, 0);
    cpu.execute(0x613C, 0);
    cpu.execute(0x8011, 0);
    assert_eq!(cpu.register[0], 0xFC);
    cpu.execute(0x8012, 0);
    assert_eq!(cpu.register[0], 0x3C);
    cpu.execute(0x8013, 0);
    assert_eq!(cpu.register[0], 0x00);
    cpu.execute(0x8010, 0);
    assert_eq!(cpu.register[0], 0x3C);
}

#[test]
fn add_sets_carry() {
    let mut cpu = blank();
    cpu.execute(0x60F0, 0);
    cpu.execute(0x6120, 0);
    cpu.execute(0x8014, 0);
    assert_eq!(cpu.register[0], 0x10);
    assert_eq!(cpu.register[15], 1);
    cpu.execute(0x8014, 0);
    assert_eq!(cpu.register[0], 0x30);
    assert_eq!(cpu.register[15], 0);
}

#[test]
fn subtract_sets_borrow() {
    let mut cpu = blank();
    cpu.execute(0x6010, 0);
    cpu.execute(0x6120, 0);
    cpu.execute(0x8015, 0);
    assert_eq!(cpu.register[0], 0xF0);
    assert_eq!(cpu.register[15], 1);
    cpu.execute(0x6030, 0);
    cpu.execute(0x8015, 0);
    assert_eq!(cpu.register[0], 0x10);
    assert_eq!(cpu.register[15], 0);
}

#[test]
fn reverse_subtract_writes_vy() {
    let mut cpu = blank();
    cpu.execute(0x6005, 0);
    cpu.execute(0x6103, 0);
    cpu.execute(0x8017, 0);
    assert_eq!(cpu.register[0], 0x05);
    assert_eq!(cpu.register[1], 0xFE);
    assert_eq!(cpu.register[15], 1);
}

#[test]
fn shifts_report_the_bit_shifted_out() {
    let mut cpu = blank();
    cpu.execute(0x6081, 0);
    cpu.execute(0x8006, 0);
    assert_eq!(cpu.register[0], 0x40);
    assert_eq!(cpu.register[15], 1);
    cpu.execute(0x6081, 0);
    cpu.execute(0x800E, 0);
    assert_eq!(cpu.register[0], 0x02);
    assert_eq!(cpu.register[15], 1);
    cpu.execute(0x6F03, 0);
    cpu.execute(0x8F06, 0);
    assert_eq!(cpu.register[15], 0);
}

#[test]
fn index_takes_low_byte_of_address() {
    let mut cpu = blank();
    cpu.execute(0xA123, 0);
    assert_eq!(cpu.i, 0x23);
}

#[test]
fn random_is_masked_by_nn() {
    let mut cpu = blank();
    cpu.execute(0xC30F, 0xAB);
    assert_eq!(cpu.register[3], 0x0B);
    for _ in 0..50 {
        cpu.parse_instruction(0xC30F);
        assert_eq!(cpu.register[3] & 0xF0, 0);
    }
    cpu.parse_instruction(0xC400);
    assert_eq!(cpu.register[4], 0);
}

#[test]
fn clear_screen_turns_everything_white() {
    let mut cpu = blank();
    cpu.draw_flag = false;
    cpu.execute(0x00E0, 0);
    assert!(cpu.pixels.iter().all(|p| *p == WHITE));
    assert!(cpu.draw_flag);
    assert_eq!(cpu.pc, 0x202);
}

#[test]
fn unlisted_system_call_does_nothing() {
    let mut cpu = blank();
    cpu.execute(0x0123, 0);
    assert_eq!(cpu.pc, 0x200);
}

#[test]
fn draw_font_zero_then_erase_it() {
    let mut cpu = blank();
    cpu.execute(0xD015, 0);
    assert_eq!(cpu.register[15], 0);
    let lit: Vec<usize> = (0..2048).filter(|p| cpu.pixels[*p] == WHITE).collect();
    assert_eq!(
        lit,
        vec![0, 1, 2, 3, 64, 67, 128, 131, 192, 195, 256, 257, 258, 259]
    );
    assert!(cpu.draw_flag);
    cpu.execute(0xD015, 0);
    assert_eq!(cpu.register[15], 1);
    assert!(cpu.pixels.iter().all(|p| *p == BLACK));
}

#[test]
fn draw_drops_rows_below_the_screen() {
    let mut cpu = blank();
    cpu.execute(0x611F, 0);
    cpu.execute(0xD015, 0);
    let lit: Vec<usize> = (0..2048).filter(|p| cpu.pixels[*p] == WHITE).collect();
    assert_eq!(lit, vec![1984, 1985, 1986, 1987]);
}

#[test]
fn draw_runs_past_the_right_edge_into_the_next_row() {
    let mut cpu = blank();
    cpu.execute(0x603E, 0);
    cpu.execute(0xD011, 0);
    let lit: Vec<usize> = (0..2048).filter(|p| cpu.pixels[*p] == WHITE).collect();
    assert_eq!(lit, vec![62, 63, 64, 65]);
}

#[test]
fn draw_reports_collision_on_white_pixel() {
    let mut cpu = blank();
    cpu.execute(0x00E0, 0);
    cpu.execute(0xD011, 0);
    assert_eq!(cpu.register[15], 1);
    assert_eq!(&cpu.pixels[0..5], &[BLACK, BLACK, BLACK, BLACK, WHITE]);
}

#[test]
fn timers_load_from_fixed_registers() {
    let mut cpu = blank();
    cpu.execute(0x6509, 0);
    cpu.execute(0x6804, 0);
    cpu.execute(0xF015, 0);
    assert_eq!(cpu.delay_register, 9);
    cpu.execute(0xF018, 0);
    assert_eq!(cpu.sound_register, 4);
    cpu.execute(0xF307, 0);
    assert_eq!(cpu.register[7], 9);
    assert_eq!(cpu.register[3], 0);
}

#[test]
fn add_to_index_writes_vx_and_carry() {
    let mut cpu = blank();
    cpu.execute(0xA0F0, 0);
    cpu.execute(0x6220, 0);
    cpu.execute(0xF21E, 0);
    assert_eq!(cpu.i, 0xF0);
    assert_eq!(cpu.register[2], 0x10);
    assert_eq!(cpu.register[15], 1);
}

#[test]
fn font_address_is_five_times_digit() {
    let mut cpu = blank();
    cpu.execute(0x640A, 0);
    cpu.execute(0xF429, 0);
    assert_eq!(cpu.i, 50);
    cpu.execute(0x6534, 0);
    assert!(!cpu.can_execute(0xF529));
}

#[test]
fn bcd_writes_three_digits() {
    let mut cpu = blank();
    cpu.execute(0xA0C8, 0);
    cpu.execute(0x60FE, 0);
    cpu.execute(0xF033, 0);
    assert_eq!(&cpu.memory[200..203], &[2, 5, 4]);
}

#[test]
fn store_and_load_registers() {
    let mut cpu = blank();
    cpu.execute(0xA0C8, 0);
    cpu.execute(0x6011, 0);
    cpu.execute(0x6122, 0);
    cpu.execute(0x6233, 0);
    cpu.execute(0xF155, 0);
    assert_eq!(&cpu.memory[200..203], &[0x11, 0x22, 0]);
    assert_eq!(cpu.i, 202);
    cpu.execute(0x6000, 0);
    cpu.execute(0x6100, 0);
    cpu.execute(0xA0C8, 0);
    cpu.execute(0xF165, 0);
    assert_eq!(&cpu.register[0..3], &[0x11, 0x22, 0x33]);
    assert_eq!(cpu.i, 202);
}

#[test]
fn store_wraps_index_past_the_byte() {
    let mut cpu = blank();
    cpu.execute(0xA0FE, 0);
    cpu.execute(0xF155, 0);
    assert_eq!(cpu.i, 0);
}

#[test]
fn wait_for_key_without_keys_moves_on() {
    let mut cpu = blank();
    cpu.execute(0x6307, 0);
    cpu.execute(0xF30A, 0);
    assert_eq!(cpu.register[3], 7);
    assert_eq!(cpu.pc, 0x204);
}

#[test]
fn key_skips_without_keys() {
    let mut cpu = blank();
    cpu.execute(0xE09E, 0);
    assert_eq!(cpu.pc, 0x202);
    cpu.execute(0xE0A1, 0);
    assert_eq!(cpu.pc, 0x206);
}

#[test]
fn known_opcodes() {
    assert!(is_known_opcode(0x00E0));
    assert!(is_known_opcode(0x8AB7));
    assert!(is_known_opcode(0x8ABE));
    assert!(!is_known_opcode(0x8AB8));
    assert!(!is_known_opcode(0xE19F));
    assert!(is_known_opcode(0xF165));
    assert!(!is_known_opcode(0xF166));
}

#[test]
fn can_execute_checks_stack_and_bytes() {
    let mut cpu = blank();
    assert!(!cpu.can_execute(0x00EE));
    assert!(cpu.can_execute(0x2300));
    cpu.sp = 16;
    assert!(!cpu.can_execute(0x2300));
    assert!(cpu.can_execute(0x00EE));
    cpu.i = 254;
    assert!(!cpu.can_execute(0xF033));
    assert!(cpu.can_execute(0xF055));
    assert!(cpu.can_execute(0xF155));
    assert!(!cpu.can_execute(0xF255));
    assert!(!cpu.can_execute(0x8008));
    cpu.pc = usize::MAX - 1;
    assert!(!cpu.can_execute(0x6000));
    assert!(cpu.can_execute(0x1200));
}

#[test]
fn cycle_runs_and_ticks_timers() {
    let mut cpu = machine(&[0x68, 0x01, 0xF0, 0x18, 0x65, 0x03, 0xF0, 0x15, 0x00, 0xE0]);
    assert_eq!(
        cpu.run_cycle(),
        Ok(Cycle { opcode: 0x6801, redraw: true, beep: false })
    );
    assert!(!cpu.draw_flag);
    assert_eq!(
        cpu.run_cycle(),
        Ok(Cycle { opcode: 0xF018, redraw: false, beep: true })
    );
    assert_eq!(cpu.sound_register, 0);
    cpu.run_cycle().unwrap();
    cpu.run_cycle().unwrap();
    assert_eq!(cpu.delay_register, 2);
    assert_eq!(
        cpu.run_cycle(),
        Ok(Cycle { opcode: 0x00E0, redraw: true, beep: false })
    );
    assert_eq!(cpu.delay_register, 1);
    assert_eq!(cpu.pc, 0x20A);
}

#[test]
fn cycle_faults_leave_machine_alone() {
    let mut cpu = machine(&[0x80, 0x08]);
    assert_eq!(cpu.run_cycle(), Err(Fault::UnknownOpcode(0x8008)));
    assert_eq!(cpu.pc, 0x200);
    assert!(cpu.draw_flag);

    let mut cpu = machine(&[0x00, 0xEE]);
    assert_eq!(cpu.run_cycle(), Err(Fault::BadState(0x00EE)));
    assert_eq!(cpu.pc, 0x200);

    let mut cpu = blank();
    cpu.pc = 4095;
    assert_eq!(cpu.run_cycle(), Err(Fault::AddressOutOfRange));
    assert_eq!(cpu.pc, 4095);
}

#[test]
fn random_byte_matters_only_for_cxnn() {
    let mut a = blank();
    let mut b = blank();
    for op in [0x6123u16, 0x7101, 0xA010, 0xD015, 0x8114] {
        a.execute(op, 0x00);
        b.execute(op, 0xFF);
    }
    assert_eq!(a.register, b.register);
    assert_eq!(a.pixels, b.pixels);
    assert_eq!(a.pc, b.pc);
    a.execute(0xC2FF, 0x12);
    b.execute(0xC2FF, 0x34);
    assert_eq!(a.register[2], 0x12);
    assert_eq!(b.register[2], 0x34);
}

#[test]
fn instructions_keep_sizes_and_colours() {
    let mut cpu = blank();
    for op in [0x00E0u16, 0x6A05, 0xFA29, 0xDAB5, 0xF333, 0xF555, 0xF765, 0x2300, 0x00EE] {
        cpu.execute(op, 0);
        assert_eq!(cpu.memory.len(), 4096);
        assert_eq!(cpu.register.len(), 16);
        assert_eq!(cpu.stack.len(), 16);
        assert_eq!(cpu.pixels.len(), 2048);
        assert!(cpu.pixels.iter().all(|p| *p == WHITE || *p == BLACK));
    }
}
