use phakebit::cpu::CPU;
use phakebit::instructionset::InstructionSet;
use phakebit::memory::Memory;
use phakebit::memory::PlainMemory;
use phakebit::state::CPUState;
use phakebit::state::RESET_VECTOR_ADDR;

#[test]
fn cpu_test_simple_program() {
    let program: [u8; 11] = [
        0xA2, 0x00, 0xA9, 0x0F, 0x09, 0xF0, 0x85, 0x00, 0x4C, 0x08, 0x06,
    ];

    let mut memory = PlainMemory::new();
    for (i, byte) in program.iter().enumerate() {
        memory.set(0x0600 + i as u16, *byte);
    }

    memory.set(RESET_VECTOR_ADDR, 0x00);
    memory.set(RESET_VECTOR_ADDR + 1, 0x06);

    let mut cpu_state = CPUState::new(memory);
    cpu_state.reset();

    let mut cpu = CPU::new(cpu_state);
    let r = cpu.execute(1000);

    assert!(r.is_ok());
    assert_eq!(cpu.state.a, 0xFF);
}

#[test]
fn or_and_store_loop_writes_memory() {
    let program: [u8; 11] = [
        0xA2, 0x00, 0xA9, 0x0F, 0x09, 0xF0, 0x85, 0x00, 0x4C, 0x08, 0x06,
    ];

    let mut memory = PlainMemory::new();
    for (i, byte) in program.iter().enumerate() {
        memory.set(0x0600 + i as u16, *byte);
    }
    memory.set(RESET_VECTOR_ADDR, 0x00);
    memory.set(RESET_VECTOR_ADDR + 1, 0x06);

    let mut cpu_state = CPUState::new(memory);
    cpu_state.reset();
    let mut cpu = CPU::new(cpu_state);
    let r = cpu.execute(1000);

    assert!(r.is_ok());
    assert_eq!(cpu.state.a, 0xFF);
    assert_eq!(cpu.get_mut_state().read_byte(0x0000), 0xFF);
    assert!(cpu.state.cycles >= 1000);
}

#[test]
fn instructionset_test_simple_program() {
    let program: [u8; 11] = [
        0xA2, 0x00, 0xA9, 0x0F, 0x09, 0xF0, 0x85, 0x00, 0x4C, 0x08, 0x06,
    ];

    let mut memory = PlainMemory::new();
    for (i, byte) in program.iter().enumerate() {
        memory.set(0x0600 + i as u16, *byte);
    }

    memory.set(0xFFFC, 0x00);
    memory.set(0xFFFD, 0x06);

    let mut cpu = CPUState::new(memory);
    cpu.reset();

    let mut is = InstructionSet::new(cpu);
    let r = is.execute(1000);

    assert!(r.is_ok());
    assert_eq!(is.cpu.a, 0xFF);
}

#[test]
fn gets() {
    let mut m = PlainMemory::new();
    let zero = m.get(0x0000);
    assert_eq!(zero, 0);

    m.set(0x1FF, 0x01);
    assert_eq!(m.get(0x1FF), 0x01);
}

#[test]
fn test_reset() {
    let memory = PlainMemory::new();
    let mut state = CPUState::new(memory);
    state.reset();
    assert_eq!(state.a, 0);
    assert_eq!(state.x, 0);
    assert_eq!(state.y, 0);
    assert_eq!(state.pc, 0x0000);
    assert_eq!(state.sp, 0xFF);
    assert_eq!(state.status, 0x36);
}

#[test]
fn test_write_word() {
    let memory = PlainMemory::new();
    let mut state = CPUState::new(memory);
    state.reset();
    state.write_word(0x001, 0x1234);

    let value = state.read_word(0x0001);
    assert_eq!(value, 0x1234);
}

#[test]
fn test_push_word() {
    let memory = PlainMemory::new();
    let mut state = CPUState::new(memory);
    state.reset();
    state.push_word(0x1234);

    let value = state.pop_word();
    assert_eq!(value, 0x1234);
}

#[test]
fn push_pop_byte_is_identity() {
    let memory = PlainMemory::new();
    let mut state = CPUState::new(memory);
    state.reset();
    let sp_before = state.sp;
    state.push_byte(0xAB);
    let value = state.pop_byte();
    assert_eq!(value, 0xAB);
    assert_eq!(state.sp, sp_before);
}

#[test]
fn reset_reads_reset_vector() {
    let mut memory = PlainMemory::new();
    memory.set(0xFFFC, 0x34);
    memory.set(0xFFFD, 0x12);
    let mut state = CPUState::new(memory);
    state.reset();
    assert_eq!(state.pc, 0x1234);
    assert_eq!(state.cycles, 0);
}

#[test]
fn stack_pointer_wraps() {
    let memory = PlainMemory::new();
    let mut state = CPUState::new(memory);
    state.reset();
    state.sp = 0x00;
    state.push_byte(0x42);
    assert_eq!(state.sp, 0xFF);
    let v = state.pop_byte();
    assert_eq!(v, 0x42);
    assert_eq!(state.sp, 0x00);
}
