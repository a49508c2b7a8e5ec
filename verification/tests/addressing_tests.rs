use emu6502::cpu::CPU;
use emu6502::opcodes::{decode, opcode_table, AddressingMode, Mnemonic};

#[test]
fn test_immediate_mode_returns_program_counter() {
    let mut cpu = CPU::new();
    cpu.program_counter = 0x0200;
    assert_eq!(cpu.get_operand_address(AddressingMode::Immediate), 0x0200);
}

#[test]
fn test_zero_page_x_wraps_within_page_zero() {
    let mut cpu = CPU::new();
    cpu.program_counter = 0x0300;
    cpu.mem_write(0x0300, 0xff);
    cpu.register_x = 0x10;
    // 0xFF + 0x10 wraps to 0x0F; the address stays in page zero.
    assert_eq!(cpu.get_operand_address(AddressingMode::ZeroPageX), 0x000f);
}

#[test]
fn test_absolute_reads_little_endian_address() {
    let mut cpu = CPU::new();
    cpu.program_counter = 0x0300;
    cpu.mem_write(0x0300, 0x34);
    cpu.mem_write(0x0301, 0x12);
    assert_eq!(cpu.get_operand_address(AddressingMode::Absolute), 0x1234);
    cpu.register_y = 0x02;
    assert_eq!(cpu.get_operand_address(AddressingMode::AbsoluteY), 0x1236);
}

#[test]
fn test_indirect_modes_differ_in_indexing_order() {
    // Same raw operand byte, same X and Y; the two indirect modes must
    // resolve to different addresses because IndirectX indexes the pointer
    // before the dereference and IndirectY indexes the base after it.
    let mut cpu = CPU::new();
    cpu.program_counter = 0x0200;
    cpu.mem_write(0x0200, 0x20);
    cpu.register_x = 0x04;
    cpu.register_y = 0x04;
    // IndirectX: pointer = 0x20 + X = 0x24 -> little-endian 0x0833.
    cpu.mem_write(0x0024, 0x33);
    cpu.mem_write(0x0025, 0x08);
    // IndirectY: pointer = 0x20 -> little-endian base 0x0710, + Y = 0x0714.
    cpu.mem_write(0x0020, 0x10);
    cpu.mem_write(0x0021, 0x07);
    let via_x = cpu.get_operand_address(AddressingMode::IndirectX);
    let via_y = cpu.get_operand_address(AddressingMode::IndirectY);
    assert_eq!(via_x, 0x0833);
    assert_eq!(via_y, 0x0714);
    assert_ne!(via_x, via_y);
}

#[test]
fn test_lda_indirect_x_end_to_end() {
    let mut cpu = CPU::new();
    // LDA (0x20,X) with X loaded via TAX after LDA #4.
    cpu.mem_write(0x0024, 0x33);
    cpu.mem_write(0x0025, 0x08);
    cpu.mem_write(0x0833, 0x5a);
    cpu.load_and_run(vec![0xa9, 0x04, 0xaa, 0xa1, 0x20, 0x00]).unwrap();
    assert_eq!(cpu.register_a, 0x5a);
}

#[test]
fn test_decode_known_and_unknown_bytes() {
    let lda = decode(0xa9).expect("0xA9 is assigned");
    assert_eq!(lda.opcode, 0xa9);
    assert!(matches!(lda.mnemonic, Mnemonic::LDA));
    assert!(matches!(lda.addr_mode, AddressingMode::Immediate));
    assert_eq!(lda.bytes, 2);
    assert_eq!(lda.cycles, 2);

    let brk = decode(0x00).expect("0x00 is assigned");
    assert!(matches!(brk.mnemonic, Mnemonic::BRK));
    assert_eq!(brk.bytes, 1);
    assert!(matches!(brk.addr_mode, AddressingMode::NoneAddressing));

    assert!(decode(0x02).is_none());
    assert!(decode(0xff).is_none());
}

#[test]
fn test_opcode_table_has_no_duplicate_bytes() {
    let table = opcode_table();
    assert_eq!(table.len(), 26);
    for i in 0..table.len() {
        let entry = decode(table[i].opcode).expect("every table byte decodes");
        assert_eq!(entry.opcode, table[i].opcode);
        for j in 0..i {
            assert_ne!(table[i].opcode, table[j].opcode);
        }
    }
}
