//! The instruction table: a closed mapping from raw opcode bytes to typed
//! instruction descriptors.

use vstd::prelude::*;

verus! {

/// How an instruction locates its operand in memory.
#[derive(Debug, Clone, Copy)]
pub enum AddressingMode {
    Immediate,
    ZeroPage,
    ZeroPageX,
    ZeroPageY,
    Absolute,
    AbsoluteX,
    AbsoluteY,
    IndirectX,
    IndirectY,
    NoneAddressing,
}

/// The symbolic name of a supported instruction.
#[derive(Debug, Clone, Copy)]
pub enum Mnemonic {
    ADC,
    BRK,
    INX,
    LDA,
    STA,
    TAX,
}

/// An immutable descriptor for one assigned opcode byte: its mnemonic, the
/// total instruction length in bytes (opcode byte included), the base cycle
/// count, and the addressing mode.
#[derive(Debug, Clone, Copy)]
pub struct OpCode {
    pub opcode: u8,
    pub mnemonic: Mnemonic,
    pub bytes: u8,
    pub cycles: u8,
    pub addr_mode: AddressingMode,
}

impl OpCode {
    pub fn new(opcode: u8, mnemonic: Mnemonic, bytes: u8, cycles: u8, addr_mode: AddressingMode) -> (r: OpCode)
        ensures
            r == (OpCode { opcode, mnemonic, bytes, cycles, addr_mode }),
    {
        OpCode { opcode, mnemonic, bytes, cycles, addr_mode }
    }
}

/// The instruction table as a function: the descriptor assigned to a raw
/// byte, or `None` for an unassigned byte.
pub open spec fn spec_decode(raw: u8) -> Option<OpCode> {
    if raw == 0x69 { Some(OpCode { opcode: 0x69, mnemonic: Mnemonic::ADC, bytes: 2, cycles: 2, addr_mode: AddressingMode::Immediate }) }
    else if raw == 0x65 { Some(OpCode { opcode: 0x65, mnemonic: Mnemonic::ADC, bytes: 2, cycles: 3, addr_mode: AddressingMode::ZeroPage }) }
    else if raw == 0x75 { Some(OpCode { opcode: 0x75, mnemonic: Mnemonic::ADC, bytes: 2, cycles: 4, addr_mode: AddressingMode::ZeroPageX }) }
    else if raw == 0x6d { Some(OpCode { opcode: 0x6d, mnemonic: Mnemonic::ADC, bytes: 3, cycles: 4, addr_mode: AddressingMode::Absolute }) }
    else if raw == 0x7d { Some(OpCode { opcode: 0x7d, mnemonic: Mnemonic::ADC, bytes: 3, cycles: 4, addr_mode: AddressingMode::AbsoluteX }) }
    else if raw == 0x79 { Some(OpCode { opcode: 0x79, mnemonic: Mnemonic::ADC, bytes: 3, cycles: 4, addr_mode: AddressingMode::AbsoluteY }) }
    else if raw == 0x61 { Some(OpCode { opcode: 0x61, mnemonic: Mnemonic::ADC, bytes: 2, cycles: 6, addr_mode: AddressingMode::IndirectX }) }
    else if raw == 0x71 { Some(OpCode { opcode: 0x71, mnemonic: Mnemonic::ADC, bytes: 2, cycles: 5, addr_mode: AddressingMode::IndirectY }) }
    else if raw == 0x00 { Some(OpCode { opcode: 0x00, mnemonic: Mnemonic::BRK, bytes: 1, cycles: 7, addr_mode: AddressingMode::NoneAddressing }) }
    else if raw == 0xe8 { Some(OpCode { opcode: 0xe8, mnemonic: Mnemonic::INX, bytes: 1, cycles: 2, addr_mode: AddressingMode::NoneAddressing }) }
    else if raw == 0xa9 { Some(OpCode { opcode: 0xa9, mnemonic: Mnemonic::LDA, bytes: 2, cycles: 2, addr_mode: AddressingMode::Immediate }) }
    else if raw == 0xa5 { Some(OpCode { opcode: 0xa5, mnemonic: Mnemonic::LDA, bytes: 2, cycles: 3, addr_mode: AddressingMode::ZeroPage }) }
    else if raw == 0xb5 { Some(OpCode { opcode: 0xb5, mnemonic: Mnemonic::LDA, bytes: 2, cycles: 4, addr_mode: AddressingMode::ZeroPageX }) }
    else if raw == 0xad { Some(OpCode { opcode: 0xad, mnemonic: Mnemonic::LDA, bytes: 3, cycles: 4, addr_mode: AddressingMode::Absolute }) }
    else if raw == 0xbd { Some(OpCode { opcode: 0xbd, mnemonic: Mnemonic::LDA, bytes: 3, cycles: 4, addr_mode: AddressingMode::AbsoluteX }) }
    else if raw == 0xb9 { Some(OpCode { opcode: 0xb9, mnemonic: Mnemonic::LDA, bytes: 3, cycles: 4, addr_mode: AddressingMode::AbsoluteY }) }
    else if raw == 0xa1 { Some(OpCode { opcode: 0xa1, mnemonic: Mnemonic::LDA, bytes: 2, cycles: 6, addr_mode: AddressingMode::IndirectX }) }
    else if raw == 0xb1 { Some(OpCode { opcode: 0xb1, mnemonic: Mnemonic::LDA, bytes: 2, cycles: 5, addr_mode: AddressingMode::IndirectY }) }
    else if raw == 0x85 { Some(OpCode { opcode: 0x85, mnemonic: Mnemonic::STA, bytes: 2, cycles: 3, addr_mode: AddressingMode::ZeroPage }) }
    else if raw == 0x95 { Some(OpCode { opcode: 0x95, mnemonic: Mnemonic::STA, bytes: 2, cycles: 4, addr_mode: AddressingMode::ZeroPageX }) }
    else if raw == 0x8d { Some(OpCode { opcode: 0x8d, mnemonic: Mnemonic::STA, bytes: 3, cycles: 4, addr_mode: AddressingMode::Absolute }) }
    else if raw == 0x9d { Some(OpCode { opcode: 0x9d, mnemonic: Mnemonic::STA, bytes: 3, cycles: 5, addr_mode: AddressingMode::AbsoluteX }) }
    else if raw == 0x99 { Some(OpCode { opcode: 0x99, mnemonic: Mnemonic::STA, bytes: 3, cycles: 5, addr_mode: AddressingMode::AbsoluteY }) }
    else if raw == 0x81 { Some(OpCode { opcode: 0x81, mnemonic: Mnemonic::STA, bytes: 2, cycles: 6, addr_mode: AddressingMode::IndirectX }) }
    else if raw == 0x91 { Some(OpCode { opcode: 0x91, mnemonic: Mnemonic::STA, bytes: 2, cycles: 6, addr_mode: AddressingMode::IndirectY }) }
    else if raw == 0xaa { Some(OpCode { opcode: 0xaa, mnemonic: Mnemonic::TAX, bytes: 1, cycles: 2, addr_mode: AddressingMode::NoneAddressing }) }
    else { None }
}

/// Look a raw opcode byte up in the instruction table.
pub fn decode(raw: u8) -> (r: Option<OpCode>)
    ensures
        r == spec_decode(raw),
{
    match raw {
        0x69 => Some(OpCode::new(0x69, Mnemonic::ADC, 2, 2, AddressingMode::Immediate)),
        0x65 => Some(OpCode::new(0x65, Mnemonic::ADC, 2, 3, AddressingMode::ZeroPage)),
        0x75 => Some(OpCode::new(0x75, Mnemonic::ADC, 2, 4, AddressingMode::ZeroPageX)),
        0x6d => Some(OpCode::new(0x6d, Mnemonic::ADC, 3, 4, AddressingMode::Absolute)),
        0x7d => Some(OpCode::new(0x7d, Mnemonic::ADC, 3, 4, AddressingMode::AbsoluteX)),
        0x79 => Some(OpCode::new(0x79, Mnemonic::ADC, 3, 4, AddressingMode::AbsoluteY)),
        0x61 => Some(OpCode::new(0x61, Mnemonic::ADC, 2, 6, AddressingMode::IndirectX)),
        0x71 => Some(OpCode::new(0x71, Mnemonic::ADC, 2, 5, AddressingMode::IndirectY)),
        0x00 => Some(OpCode::new(0x00, Mnemonic::BRK, 1, 7, AddressingMode::NoneAddressing)),
        0xe8 => Some(OpCode::new(0xe8, Mnemonic::INX, 1, 2, AddressingMode::NoneAddressing)),
        0xa9 => Some(OpCode::new(0xa9, Mnemonic::LDA, 2, 2, AddressingMode::Immediate)),
        0xa5 => Some(OpCode::new(0xa5, Mnemonic::LDA, 2, 3, AddressingMode::ZeroPage)),
        0xb5 => Some(OpCode::new(0xb5, Mnemonic::LDA, 2, 4, AddressingMode::ZeroPageX)),
        0xad => Some(OpCode::new(0xad, Mnemonic::LDA, 3, 4, AddressingMode::Absolute)),
        0xbd => Some(OpCode::new(0xbd, Mnemonic::LDA, 3, 4, AddressingMode::AbsoluteX)),
        0xb9 => Some(OpCode::new(0xb9, Mnemonic::LDA, 3, 4, AddressingMode::AbsoluteY)),
        0xa1 => Some(OpCode::new(0xa1, Mnemonic::LDA, 2, 6, AddressingMode::IndirectX)),
        0xb1 => Some(OpCode::new(0xb1, Mnemonic::LDA, 2, 5, AddressingMode::IndirectY)),
        0x85 => Some(OpCode::new(0x85, Mnemonic::STA, 2, 3, AddressingMode::ZeroPage)),
        0x95 => Some(OpCode::new(0x95, Mnemonic::STA, 2, 4, AddressingMode::ZeroPageX)),
        0x8d => Some(OpCode::new(0x8d, Mnemonic::STA, 3, 4, AddressingMode::Absolute)),
        0x9d => Some(OpCode::new(0x9d, Mnemonic::STA, 3, 5, AddressingMode::AbsoluteX)),
        0x99 => Some(OpCode::new(0x99, Mnemonic::STA, 3, 5, AddressingMode::AbsoluteY)),
        0x81 => Some(OpCode::new(0x81, Mnemonic::STA, 2, 6, AddressingMode::IndirectX)),
        0x91 => Some(OpCode::new(0x91, Mnemonic::STA, 2, 6, AddressingMode::IndirectY)),
        0xaa => Some(OpCode::new(0xaa, Mnemonic::TAX, 1, 2, AddressingMode::NoneAddressing)),
        _ => None,
    }
}

/// Facts that hold of every table entry: the descriptor records the byte it
/// is assigned to, instructions are one to three bytes long, and an
/// instruction takes a memory operand exactly when its addressing mode is
/// not `NoneAddressing`.
pub proof fn lemma_decode_wf(raw: u8)
    ensures
        spec_decode(raw) matches Some(op) ==> {
            &&& op.opcode == raw
            &&& 1 <= op.bytes <= 3
            &&& ((op.mnemonic is BRK || op.mnemonic is INX || op.mnemonic is TAX)
                <==> op.addr_mode is NoneAddressing)
        },
{
}

/// The whole instruction table as a list of descriptors, one per assigned
/// opcode byte. Looking any entry's raw byte up in the table yields that
/// entry, and no raw byte appears twice.
pub fn opcode_table() -> (table: Vec<OpCode>)
    ensures
        table@.len() == 26,
        forall|i: int| 0 <= i < table@.len() ==> #[trigger] spec_decode(table@[i].opcode) == Some(table@[i]),
        forall|i: int, j: int| 0 <= i < j < table@.len() ==> table@[i].opcode != table@[j].opcode,
{
    let mut table: Vec<OpCode> = Vec::new();
    table.push(OpCode::new(0x69, Mnemonic::ADC, 2, 2, AddressingMode::Immediate));
    table.push(OpCode::new(0x65, Mnemonic::ADC, 2, 3, AddressingMode::ZeroPage));
    table.push(OpCode::new(0x75, Mnemonic::ADC, 2, 4, AddressingMode::ZeroPageX));
    table.push(OpCode::new(0x6d, Mnemonic::ADC, 3, 4, AddressingMode::Absolute));
    table.push(OpCode::new(0x7d, Mnemonic::ADC, 3, 4, AddressingMode::AbsoluteX));
    table.push(OpCode::new(0x79, Mnemonic::ADC, 3, 4, AddressingMode::AbsoluteY));
    table.push(OpCode::new(0x61, Mnemonic::ADC, 2, 6, AddressingMode::IndirectX));
    table.push(OpCode::new(0x71, Mnemonic::ADC, 2, 5, AddressingMode::IndirectY));
    table.push(OpCode::new(0x00, Mnemonic::BRK, 1, 7, AddressingMode::NoneAddressing));
    table.push(OpCode::new(0xe8, Mnemonic::INX, 1, 2, AddressingMode::NoneAddressing));
    table.push(OpCode::new(0xa9, Mnemonic::LDA, 2, 2, AddressingMode::Immediate));
    table.push(OpCode::new(0xa5, Mnemonic::LDA, 2, 3, AddressingMode::ZeroPage));
    table.push(OpCode::new(0xb5, Mnemonic::LDA, 2, 4, AddressingMode::ZeroPageX));
    table.push(OpCode::new(0xad, Mnemonic::LDA, 3, 4, AddressingMode::Absolute));
    table.push(OpCode::new(0xbd, Mnemonic::LDA, 3, 4, AddressingMode::AbsoluteX));
    table.push(OpCode::new(0xb9, Mnemonic::LDA, 3, 4, AddressingMode::AbsoluteY));
    table.push(OpCode::new(0xa1, Mnemonic::LDA, 2, 6, AddressingMode::IndirectX));
    table.push(OpCode::new(0xb1, Mnemonic::LDA, 2, 5, AddressingMode::IndirectY));
    table.push(OpCode::new(0x85, Mnemonic::STA, 2, 3, AddressingMode::ZeroPage));
    table.push(OpCode::new(0x95, Mnemonic::STA, 2, 4, AddressingMode::ZeroPageX));
    table.push(OpCode::new(0x8d, Mnemonic::STA, 3, 4, AddressingMode::Absolute));
    table.push(OpCode::new(0x9d, Mnemonic::STA, 3, 5, AddressingMode::AbsoluteX));
    table.push(OpCode::new(0x99, Mnemonic::STA, 3, 5, AddressingMode::AbsoluteY));
    table.push(OpCode::new(0x81, Mnemonic::STA, 2, 6, AddressingMode::IndirectX));
    table.push(OpCode::new(0x91, Mnemonic::STA, 2, 6, AddressingMode::IndirectY));
    table.push(OpCode::new(0xaa, Mnemonic::TAX, 1, 2, AddressingMode::NoneAddressing));
    table
}

} // verus!
