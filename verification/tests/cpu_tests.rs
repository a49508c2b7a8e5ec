use emu6502::cpu::CPU;
use emu6502::machine::{CARRY, OVERFLOW, SIGN, ZERO};

#[test]
fn test_0xa9_lda_immediate_load_data() {
    let mut cpu = CPU::new();
    cpu.load_and_run(vec![0xa9, 0x05, 0x00]).unwrap();
    assert_eq!(cpu.register_a, 0x05);
    assert!(!cpu.get_flag(ZERO));
    assert!(!cpu.get_flag(SIGN));
}

#[test]
fn test_0xa9_lda_zero_flag() {
    let mut cpu = CPU::new();
    cpu.load_and_run(vec![0xa9, 0x00, 0x00]).unwrap();
    assert!(cpu.get_flag(ZERO));
}

#[test]
fn test_0xaa_tax_move_a_to_x() {
    let mut cpu = CPU::new();
    cpu.load_and_run(vec![0xa9, 0x10, 0xaa, 0x00]).unwrap();
    assert_eq!(cpu.register_x, 0x10);
}

#[test]
fn test_5_ops_working_together() {
    let mut cpu = CPU::new();
    cpu.load_and_run(vec![0xa9, 0xc0, 0xaa, 0xe8, 0x00]).unwrap();
    assert_eq!(cpu.register_x, 0xc1);
}

#[test]
fn test_inx_overflow() {
    let mut cpu = CPU::new();
    cpu.load_and_run(vec![0xa9, 0xff, 0xaa, 0xe8, 0xe8, 0x00]).unwrap();
    assert_eq!(cpu.register_x, 0x1);
}

#[test]
fn test_lda_from_memory() {
    let mut cpu = CPU::new();
    cpu.mem_write(0x10, 0x55);
    cpu.load_and_run(vec![0xa5, 0x10, 0x00]).unwrap();
    assert_eq!(cpu.register_a, 0x55);
}

#[test]
fn test_sta_move_a_to_memory() {
    let mut cpu = CPU::new();
    cpu.load_and_run(vec![0xa9, 0x10, 0x85, 0xff, 0x00]).unwrap();
    assert_eq!(cpu.mem_read(0x00ff), 0x10);
}

#[test]
fn test_adc() {
    let mut cpu = CPU::new();
    cpu.load_and_run(vec![0xa9, 0x10, 0x69, 0x05, 0x00]).unwrap();
    assert_eq!(cpu.register_a, 0x15);
    assert!(!cpu.get_flag(CARRY));
    assert!(!cpu.get_flag(ZERO));
    assert!(!cpu.get_flag(OVERFLOW));
    assert!(!cpu.get_flag(SIGN));
}

#[test]
fn test_adc_overflow() {
    let mut cpu = CPU::new();
    cpu.load_and_run(vec![0xa9, 0x7f, 0x69, 0x01, 0x00]).unwrap();
    assert_eq!(cpu.register_a, 0x80);
    assert!(!cpu.get_flag(CARRY));
    assert!(!cpu.get_flag(ZERO));
    assert!(cpu.get_flag(OVERFLOW));
    assert!(cpu.get_flag(SIGN));
}

#[test]
fn test_adc_carry() {
    let mut cpu = CPU::new();
    cpu.load_and_run(vec![0xa9, 0xff, 0x69, 0x01, 0x00]).unwrap();
    assert_eq!(cpu.register_a, 0x00);
    assert!(cpu.get_flag(CARRY));
    assert!(cpu.get_flag(ZERO));
    assert!(!cpu.get_flag(OVERFLOW));
    assert!(!cpu.get_flag(SIGN));
}

#[test]
fn test_lda_sign_flag() {
    let mut cpu = CPU::new();
    cpu.load_and_run(vec![0xa9, 0x80, 0x00]).unwrap();
    assert_eq!(cpu.register_a, 0x80);
    assert!(!cpu.get_flag(ZERO));
    assert!(cpu.get_flag(SIGN));
}

#[test]
fn test_inx_wraps_to_zero_with_zero_flag() {
    let mut cpu = CPU::new();
    cpu.load_and_run(vec![0xa9, 0xff, 0xaa, 0xe8, 0x00]).unwrap();
    assert_eq!(cpu.register_x, 0x00);
    assert!(cpu.get_flag(ZERO));
    let mut cpu2 = CPU::new();
    cpu2.load_and_run(vec![0xa9, 0xff, 0xaa, 0xe8, 0xe8, 0x00]).unwrap();
    assert_eq!(cpu2.register_x, 0x01);
    assert!(!cpu2.get_flag(ZERO));
}

#[test]
fn test_adc_uses_carry_in() {
    let mut cpu = CPU::new();
    // 0xff + 0x01 sets the carry; the next add must then include it.
    cpu.load_and_run(vec![0xa9, 0xff, 0x69, 0x01, 0x69, 0x10, 0x00]).unwrap();
    assert_eq!(cpu.register_a, 0x11);
    assert!(!cpu.get_flag(CARRY));
}

#[test]
fn test_store_load_round_trip() {
    let mut cpu = CPU::new();
    // STA to 0x10, clobber A with zero, LDA the stored byte back.
    cpu.load_and_run(vec![0xa9, 0x42, 0x85, 0x10, 0xa9, 0x00, 0xa5, 0x10, 0x00]).unwrap();
    assert_eq!(cpu.register_a, 0x42);
    assert_eq!(cpu.mem_read(0x10), 0x42);
}

#[test]
fn test_reset_zeroes_a_x_status_and_keeps_y() {
    let mut cpu = CPU::new();
    cpu.register_a = 0x33;
    cpu.register_x = 0x44;
    cpu.register_y = 0x07;
    cpu.status = 0xff;
    cpu.load(vec![0x00]);
    cpu.reset();
    assert_eq!(cpu.register_a, 0x00);
    assert_eq!(cpu.register_x, 0x00);
    assert_eq!(cpu.status, 0x00);
    assert_eq!(cpu.register_y, 0x07);
    assert_eq!(cpu.program_counter, 0x8000);
}

#[test]
fn test_memory_covers_full_address_space() {
    // The memory spans all of 0x0000..=0xFFFF; the top byte is addressable.
    let mut cpu = CPU::new();
    assert_eq!(cpu.mem_read(0xffff), 0x00);
    cpu.mem_write(0xffff, 0xab);
    assert_eq!(cpu.mem_read(0xffff), 0xab);
}

#[test]
fn test_decode_error_reports_byte_and_address() {
    let mut cpu = CPU::new();
    // LDA #0xC0 succeeds, then 0x02 has no table entry.
    let err = cpu.load_and_run(vec![0xa9, 0xc0, 0x02, 0x00]).unwrap_err();
    match err {
        emu6502::cpu::RunError::UnknownOpcode { opcode, program_counter } => {
            assert_eq!(opcode, 0x02);
            assert_eq!(program_counter, 0x8002);
        }
        other => panic!("expected an unknown-opcode error, got {:?}", other),
    }
    // The completed LDA's effect is intact: no partial corruption.
    assert_eq!(cpu.register_a, 0xc0);
    assert_eq!(cpu.program_counter, 0x8002);
}
