use std::sync::mpsc;

use phakebit::emulator::Emulator;
use phakebit::emulator::parse_hex;
use phakebit::instruction::opcode_to_instruction;
use phakebit::instrumentation::Trace;
use phakebit::instrumentation::format_trace;
use phakebit::pia::display_byte;
use phakebit::pia::kbd_status;
use phakebit::pia::keyboard_byte;
use phakebit::instruction::AddressingMode;
use phakebit::instruction::Operation;
use phakebit::instrumentation::format_operand;
use phakebit::instrumentation::format_operation;
use phakebit::mapped_memory::MappedMemory;
use phakebit::memory::Memory;
use phakebit::pia::PIAChip;

#[test]
fn memory_maps() {
    let (_kbd_tx, kbd_rx) = mpsc::channel();
    let (dsp_tx, _dsp_rx) = mpsc::channel();
    let chip = PIAChip::new(kbd_rx, dsp_tx);
    let mut m = MappedMemory::new(chip);

    // A plain cell holds what is stored.
    m.set(0x2000, 0x01);
    assert_eq!(m.get(0x2000), 0x01);

    // A mapped cell is dispatched to the chip: the keyboard data register
    // latches the written byte and reading it clears the latch.
    m.set(0xD010, 0x02);
    assert_eq!(m.get(0xD010), 0x02);
    assert_eq!(m.get(0xD010), 0x00);
}

#[test]
fn pia_display_write_sends_transformed_byte() {
    let (_kbd_tx, kbd_rx) = mpsc::channel();
    let (dsp_tx, dsp_rx) = mpsc::channel();
    let mut chip = PIAChip::new(kbd_rx, dsp_tx);

    // Bit 7 is stripped before the byte goes outbound.
    chip.write(0xD012, 0xC1);
    assert_eq!(dsp_rx.try_recv(), Ok(0x41));
    // The display register resets to zero after the send.
    assert_eq!(chip.read(0xD012), 0x00);

    // Carriage return is mapped to line feed.
    chip.write(0xD012, 0x8D);
    assert_eq!(dsp_rx.try_recv(), Ok(0x0A));
}

#[test]
fn byte_transforms() {
    assert_eq!(display_byte(0xC1), 0x41);
    assert_eq!(display_byte(0x8D), 0x0A);
    assert_eq!(display_byte(0x0D), 0x0A);
    assert_eq!(display_byte(0x41), 0x41);

    assert_eq!(keyboard_byte(0x0A), 0x8D);
    assert_eq!(keyboard_byte(0x41), 0xC1);
}

#[test]
fn pia_keyboard_latch() {
    let (kbd_tx, kbd_rx) = mpsc::channel();
    let (dsp_tx, _dsp_rx) = mpsc::channel();
    let mut chip = PIAChip::new(kbd_rx, dsp_tx);

    // Nothing queued: status reads 0.
    assert_eq!(chip.read(0xD011), 0x00);

    kbd_tx.send(0xC1).unwrap();
    // A byte can be pulled from the queue: status reads 0xFF and the byte
    // is latched.
    assert_eq!(chip.read(0xD011), 0xFF);
    assert_eq!(chip.read(0xD010), 0xC1);
    // Reading the data register cleared the latch.
    assert_eq!(chip.read(0xD010), 0x00);
}

#[test]
fn emulator_boots_and_runs() {
    let (_kbd_tx, kbd_rx) = mpsc::channel();
    let (dsp_tx, _dsp_rx) = mpsc::channel();
    let emu = Emulator::new(kbd_rx, dsp_tx);

    let program = vec![0xA2, 0x00, 0xA9, 0x0F, 0x09, 0xF0, 0x85, 0x00, 0x4C, 0x08, 0x06];
    let mut cpu = emu.boot(program, 0x0600, 0x0600);
    assert_eq!(cpu.state.pc, 0x0600);
    assert_eq!(cpu.state.sp, 0xFF);

    let r = cpu.execute(1000);
    assert!(r.is_ok());
    assert_eq!(cpu.state.a, 0xFF);
}

#[test]
fn emulator_program_writes_to_display() {
    let (_kbd_tx, kbd_rx) = mpsc::channel();
    let (dsp_tx, dsp_rx) = mpsc::channel();
    let emu = Emulator::new(kbd_rx, dsp_tx);

    // LDA #$C8; STA $D012; JMP in place.  The PIA strips bit 7 before
    // the byte goes outbound.
    let program = vec![0xA9, 0xC8, 0x8D, 0x12, 0xD0, 0x4C, 0x05, 0x06];
    let mut cpu = emu.boot(program, 0x0600, 0x0600);
    let r = cpu.execute(100);
    assert!(r.is_ok());
    assert_eq!(dsp_rx.try_recv(), Ok(0x48));
}

#[test]
fn parse_hex_accepts_plain_and_prefixed() {
    assert_eq!(parse_hex("5F3C"), Ok(0x5F3C));
    assert_eq!(parse_hex("0x5F3C"), Ok(0x5F3C));
    assert_eq!(parse_hex("0x0x1f"), Ok(0x1F));
    assert_eq!(parse_hex("+10"), Ok(0x10));
    assert_eq!(parse_hex("0"), Ok(0));
    assert_eq!(parse_hex("FFFF"), Ok(0xFFFF));
}

#[test]
fn parse_hex_rejects_bad_input() {
    assert!(parse_hex("").is_err());
    assert!(parse_hex("0x").is_err());
    assert!(parse_hex("+").is_err());
    assert!(parse_hex("g1").is_err());
    assert!(parse_hex("-5").is_err());
    assert!(parse_hex("10000").is_err());
    assert!(parse_hex("12 ").is_err());
}

#[test]
fn formats_operations_and_operands() {
    assert_eq!(format_operation(Operation::LDA), "LDA");
    assert_eq!(format_operation(Operation::BRK), "BRK");

    assert_eq!(format_operand(0x0F, 0, AddressingMode::IMM), "#$0F");
    assert_eq!(format_operand(0xD012, 0, AddressingMode::ABS), "$D012");
    assert_eq!(format_operand(0xD012, 0, AddressingMode::ABSX), "$D012,X");
    assert_eq!(format_operand(0x05, 0, AddressingMode::ZPG), "$05");
    assert_eq!(format_operand(0x20, 0, AddressingMode::XIND), "($20,X)");
    assert_eq!(format_operand(0x20, 0, AddressingMode::INDY), "($20),Y");
    assert_eq!(format_operand(0, 0, AddressingMode::ACC), "A");
    assert_eq!(format_operand(0, 0, AddressingMode::IMPL), "");
    // A backward branch resolves relative to the byte after the operand.
    assert_eq!(format_operand(0xFE, 0x0200, AddressingMode::REL), "$0200");
    assert_eq!(format_operand(0x10, 0x0200, AddressingMode::REL), "$0212");
}

#[test]
fn trace_line_layout() {
    let instruction = opcode_to_instruction(0xA9).unwrap();
    let t = Trace::new(0x0600, 0x0F, 0x00, 0x00, 0xFF, 0x34, instruction, Some(0x0F));
    assert_eq!(format_trace(&t), "0600 A9 0F     LDA #$0F      |0F 00 00 FF|000100|2 ");

    // A three-byte instruction shows both operand bytes, low then high.
    let instruction = opcode_to_instruction(0x8D).unwrap();
    let t = Trace::new(0x0602, 0x0F, 0x00, 0x00, 0xFF, 0x34, instruction, Some(0xD012));
    assert_eq!(format_trace(&t), "0602 8D 12 D0  STA $D012     |0F 00 00 FF|000100|4 ");
}

#[test]
fn kbd_status_decision() {
    // A latched byte reports available and stays latched.
    assert_eq!(kbd_status(0x41, None), (0xFF, 0x41));
    // A pulled byte reports available and is latched.
    assert_eq!(kbd_status(0x00, Some(0x42)), (0xFF, 0x42));
    // Nothing latched, nothing pulled: not available.
    assert_eq!(kbd_status(0x00, None), (0x00, 0x00));
}
