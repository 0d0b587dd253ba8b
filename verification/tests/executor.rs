use phakebit::cpu::CPU;
use phakebit::instruction::AddressingMode;
use phakebit::instruction::Operation;
use phakebit::instruction::opcode_to_instruction;
use phakebit::memory::Memory;
use phakebit::memory::PlainMemory;
use phakebit::state::CPUState;

fn cpu_with(bytes: &[u8], at: u16) -> CPU<PlainMemory> {
    let mut memory = PlainMemory::new();
    for (i, byte) in bytes.iter().enumerate() {
        memory.set(at + i as u16, *byte);
    }
    let mut state = CPUState::new(memory);
    state.reset();
    state.set_pc(at);
    CPU::new(state)
}

#[test]
fn bcd_add() {
    // With D=1, C=0, A=0x25: ADC #$48 gives A=0x73, C=0, Z=0, N=0.
    let mut cpu = cpu_with(&[0x69, 0x48], 0x0600);
    cpu.state.set_a(0x25);
    cpu.state.set_d(1);
    cpu.state.set_c(0);
    let r = cpu.step();
    assert!(r.is_ok());
    assert_eq!(cpu.state.get_a(), 0x73);
    assert_eq!(cpu.state.get_c(), 0);
    assert_eq!(cpu.state.get_z(), 0);
    assert_eq!(cpu.state.get_n(), 0);
}

#[test]
fn bcd_carry() {
    // With D=1, C=0, A=0x58: ADC #$46 gives A=0x04, C=1.
    let mut cpu = cpu_with(&[0x69, 0x46], 0x0600);
    cpu.state.set_a(0x58);
    cpu.state.set_d(1);
    cpu.state.set_c(0);
    let r = cpu.step();
    assert!(r.is_ok());
    assert_eq!(cpu.state.get_a(), 0x04);
    assert_eq!(cpu.state.get_c(), 1);
}

#[test]
fn binary_adc_sets_carry_and_overflow() {
    // 0x80 + 0x80 wraps to 0: C=1, V=1 (signed -128 + -128), Z=1.
    let mut cpu = cpu_with(&[0x69, 0x80], 0x0600);
    cpu.state.set_a(0x80);
    cpu.state.set_d(0);
    cpu.state.set_c(0);
    let r = cpu.step();
    assert!(r.is_ok());
    assert_eq!(cpu.state.get_a(), 0x00);
    assert_eq!(cpu.state.get_c(), 1);
    assert_eq!(cpu.state.get_v(), 1);
    assert_eq!(cpu.state.get_z(), 1);
}

#[test]
fn sbc_matches_adc_of_complement() {
    // SBC #$10 with C=1 leaves the same state as ADC #$EF with C=1.
    let mut sbc_cpu = cpu_with(&[0xE9, 0x10], 0x0600);
    sbc_cpu.state.set_a(0x50);
    sbc_cpu.state.set_d(0);
    sbc_cpu.state.set_c(1);
    assert!(sbc_cpu.step().is_ok());

    let mut adc_cpu = cpu_with(&[0x69, 0xEF], 0x0600);
    adc_cpu.state.set_a(0x50);
    adc_cpu.state.set_d(0);
    adc_cpu.state.set_c(1);
    assert!(adc_cpu.step().is_ok());

    assert_eq!(sbc_cpu.state.a, adc_cpu.state.a);
    assert_eq!(sbc_cpu.state.get_c(), adc_cpu.state.get_c());
    assert_eq!(sbc_cpu.state.get_v(), adc_cpu.state.get_v());
    assert_eq!(sbc_cpu.state.get_z(), adc_cpu.state.get_z());
    assert_eq!(sbc_cpu.state.get_n(), adc_cpu.state.get_n());
}

#[test]
fn branch_taken_and_not_taken() {
    // A=0, Z=1; BEQ -2 at 0x0200 returns PC to 0x0200.
    let mut cpu = cpu_with(&[0xF0, 0xFE], 0x0200);
    cpu.state.set_a(0);
    cpu.state.set_z(0);  // Z is written from the value: zero sets the flag
    assert_eq!(cpu.state.get_z(), 1);
    assert!(cpu.step().is_ok());
    assert_eq!(cpu.state.pc, 0x0200);

    // With Z=0 the branch falls through to 0x0202.
    let mut cpu = cpu_with(&[0xF0, 0xFE], 0x0200);
    cpu.state.set_z(1);
    assert_eq!(cpu.state.get_z(), 0);
    assert!(cpu.step().is_ok());
    assert_eq!(cpu.state.pc, 0x0202);
}

#[test]
fn jsr_pushes_return_and_rts_comes_back() {
    // JSR $1234 from 0x0600: top of stack is 0x06 then 0x02 (high then
    // low of the return slot), PC lands on 0x1234; RTS returns to 0x0603.
    let mut cpu = cpu_with(&[0x20, 0x34, 0x12], 0x0600);
    cpu.get_mut_state().write_byte(0x1234, 0x60);  // RTS at the callee
    let sp_before = cpu.state.sp;
    assert!(cpu.step().is_ok());
    assert_eq!(cpu.state.pc, 0x1234);
    assert_eq!(cpu.state.sp, sp_before.wrapping_sub(2));
    let high = cpu.get_mut_state().read_byte(0x0100 + sp_before as u16);
    let low = cpu.get_mut_state().read_byte(0x0100 + sp_before.wrapping_sub(1) as u16);
    assert_eq!(high, 0x06);
    assert_eq!(low, 0x02);

    assert!(cpu.step().is_ok());
    assert_eq!(cpu.state.pc, 0x0603);
    assert_eq!(cpu.state.sp, sp_before);
}

#[test]
fn cmp_leaves_accumulator_and_sets_carry() {
    let mut cpu = cpu_with(&[0xC9, 0x30], 0x0600);
    cpu.state.set_a(0x40);
    assert!(cpu.step().is_ok());
    assert_eq!(cpu.state.a, 0x40);
    assert_eq!(cpu.state.get_c(), 1);
    assert_eq!(cpu.state.get_z(), 0);

    let mut cpu = cpu_with(&[0xC9, 0x50], 0x0600);
    cpu.state.set_a(0x40);
    assert!(cpu.step().is_ok());
    assert_eq!(cpu.state.a, 0x40);
    assert_eq!(cpu.state.get_c(), 0);
}

#[test]
fn pc_advances_by_instruction_length() {
    // LDA #$01 is two bytes and two cycles.
    let mut cpu = cpu_with(&[0xA9, 0x01], 0x0600);
    let r = cpu.step().unwrap();
    assert_eq!(cpu.state.pc, 0x0602);
    assert_eq!(cpu.state.cycles, 2);
    assert_eq!(r.pc, 0x0600);
    assert_eq!(r.instruction.opcode, 0xA9);
    assert_eq!(r.instruction.operation, Operation::LDA);
    assert_eq!(r.instruction.mode, AddressingMode::IMM);
    assert_eq!(r.operand, Some(0x01));
    assert_eq!(r.a, 0x01);
}

#[test]
fn unknown_opcode_is_a_decode_error() {
    let mut cpu = cpu_with(&[0x02], 0x0600);
    let e = cpu.step().unwrap_err();
    assert_eq!(e.opcode, 0x02);
    assert_eq!(e.pc, 0x0600);
}

#[test]
fn decode_table_entries() {
    let i = opcode_to_instruction(0xA9).unwrap();
    assert_eq!(i.operation, Operation::LDA);
    assert_eq!(i.mode, AddressingMode::IMM);
    assert_eq!(i.cycles, 2);

    let i = opcode_to_instruction(0x6C).unwrap();
    assert_eq!(i.operation, Operation::JMP);
    assert_eq!(i.mode, AddressingMode::IND);
    assert_eq!(i.cycles, 5);

    assert!(opcode_to_instruction(0x02).is_none());
    assert!(opcode_to_instruction(0xFF).is_none());
}

#[test]
fn zero_page_x_wraps_and_stores() {
    // STA $F0,X with X=0x20 stores to 0x10 (zero-page wrap).
    let mut cpu = cpu_with(&[0x95, 0xF0], 0x0600);
    cpu.state.set_a(0x5A);
    cpu.state.set_x(0x20);
    assert!(cpu.step().is_ok());
    assert_eq!(cpu.get_mut_state().read_byte(0x0010), 0x5A);
}

#[test]
fn rotate_through_carry() {
    // ROL A with C=1: A=0x80 becomes 0x01, carry out 1.
    let mut cpu = cpu_with(&[0x2A], 0x0600);
    cpu.state.set_a(0x80);
    cpu.state.set_c(1);
    assert!(cpu.step().is_ok());
    assert_eq!(cpu.state.a, 0x01);
    assert_eq!(cpu.state.get_c(), 1);
}

#[test]
fn brk_pushes_state_and_jumps_through_irq_vector() {
    let mut cpu = cpu_with(&[0x00], 0x0600);
    cpu.get_mut_state().write_word(0xFFFE, 0x8000);
    let sp_before = cpu.state.sp;
    let status_before = cpu.state.status;
    assert!(cpu.step().is_ok());
    assert_eq!(cpu.state.pc, 0x8000);
    assert_eq!(cpu.state.sp, sp_before.wrapping_sub(3));
    let pushed_status = cpu.get_mut_state().read_byte(
        0x0100 + sp_before.wrapping_sub(2) as u16,
    );
    assert_eq!(pushed_status, status_before | 0x30);
}

#[test]
fn indirect_indexed_load() {
    // LDA ($40),Y with pointer 0x2000 at zero page 0x40 and Y=5 reads 0x2005.
    let mut cpu = cpu_with(&[0xB1, 0x40], 0x0600);
    cpu.get_mut_state().write_word(0x0040, 0x2000);
    cpu.get_mut_state().write_byte(0x2005, 0x77);
    cpu.state.set_y(0x05);
    assert!(cpu.step().is_ok());
    assert_eq!(cpu.state.a, 0x77);
}

#[test]
fn indexed_indirect_load_wraps_pointer() {
    // LDA ($F0,X) with X=0x20: the pointer is read from 0x10 (wrapped).
    let mut cpu = cpu_with(&[0xA1, 0xF0], 0x0600);
    cpu.get_mut_state().write_word(0x0010, 0x3000);
    cpu.get_mut_state().write_byte(0x3000, 0x55);
    cpu.state.set_x(0x20);
    assert!(cpu.step().is_ok());
    assert_eq!(cpu.state.a, 0x55);
}

#[test]
fn memory_shift_and_increment() {
    // ASL $10 doubles the cell and sets C from the old bit 7.
    let mut cpu = cpu_with(&[0x06, 0x10], 0x0600);
    cpu.get_mut_state().write_byte(0x0010, 0x81);
    assert!(cpu.step().is_ok());
    assert_eq!(cpu.get_mut_state().read_byte(0x0010), 0x02);
    assert_eq!(cpu.state.get_c(), 1);

    // INC $10 wraps 0xFF to 0x00 and sets Z.
    let mut cpu = cpu_with(&[0xE6, 0x10], 0x0600);
    cpu.get_mut_state().write_byte(0x0010, 0xFF);
    assert!(cpu.step().is_ok());
    assert_eq!(cpu.get_mut_state().read_byte(0x0010), 0x00);
    assert_eq!(cpu.state.get_z(), 1);
}

#[test]
fn php_plp_round_trip_forces_break_flag_low() {
    // PHP pushes P with bits 4 and 5 set; PLP restores P with bit 4 low.
    let mut cpu = cpu_with(&[0x08, 0x28], 0x0600);
    cpu.state.status = 0x81;
    assert!(cpu.step().is_ok());
    let pushed = cpu.get_mut_state().read_byte(0x01FF);
    assert_eq!(pushed, 0x81 | 0x30);
    assert!(cpu.step().is_ok());
    assert_eq!(cpu.state.status, (0x81 | 0x30) & 0xEF);
}

#[test]
fn bit_sets_flags_from_memory() {
    // BIT $10 with m=0xC0 and A=0x01: Z=1 (no common bits), N=1, V=1.
    let mut cpu = cpu_with(&[0x24, 0x10], 0x0600);
    cpu.get_mut_state().write_byte(0x0010, 0xC0);
    cpu.state.set_a(0x01);
    assert!(cpu.step().is_ok());
    assert_eq!(cpu.state.a, 0x01);
    assert_eq!(cpu.state.get_z(), 1);
    assert_eq!(cpu.state.get_n(), 1);
    assert_eq!(cpu.state.get_v(), 1);
}

#[test]
fn rti_restores_status_and_pc() {
    // Push a status and a return address by hand, then RTI.
    let mut cpu = cpu_with(&[0x40], 0x0600);
    cpu.get_mut_state().push_word(0x1234);
    cpu.get_mut_state().push_byte(0xFF);
    assert!(cpu.step().is_ok());
    assert_eq!(cpu.state.status, 0xFF & 0xEF);
    assert_eq!(cpu.state.pc, 0x1234);
}
