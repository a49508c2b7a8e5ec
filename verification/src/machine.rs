//! The mathematical model of the processor: an abstract machine state, the
//! semantics of each supported instruction, and the single-step transition
//! function of the fetch-decode-execute loop. The executable emulator in
//! [`crate::cpu`] is proved against this model.

use vstd::prelude::*;

use crate::opcodes::{AddressingMode, Mnemonic, OpCode, spec_decode};

verus! {

/// Status-flag bit masks within the 8-bit status register.
pub const CARRY: u8 = 0x01;
pub const ZERO: u8 = 0x02;
pub const OVERFLOW: u8 = 0x40;
pub const SIGN: u8 = 0x80;

/// Number of addressable bytes: the full 16-bit address space.
pub const MEMORY_SIZE: usize = 0x10000;

/// The abstract machine state: the register file, the status byte, the
/// program counter, and the whole memory as a sequence of bytes.
#[verifier::ext_equal]
pub struct Machine {
    pub a: u8,
    pub x: u8,
    pub y: u8,
    pub status: u8,
    pub pc: u16,
    pub mem: Seq<u8>,
}

/// The memory covers the whole 16-bit address space.
pub open spec fn mem_ok(mem: Seq<u8>) -> bool {
    mem.len() == MEMORY_SIZE
}

/// The byte stored at `addr`.
pub open spec fn sread(mem: Seq<u8>, addr: u16) -> u8
    recommends
        mem_ok(mem),
{
    mem[addr as int]
}

/// The memory with the byte at `addr` replaced by `v`.
pub open spec fn swrite(mem: Seq<u8>, addr: u16, v: u8) -> Seq<u8>
    recommends
        mem_ok(mem),
{
    mem.update(addr as int, v)
}

/// Little-endian 16-bit read: low byte at `addr`, high byte at the next
/// address, wrapping around the top of the address space.
pub open spec fn sread16(mem: Seq<u8>, addr: u16) -> u16
    recommends
        mem_ok(mem),
{
    (sread(mem, addr) + 256 * sread(mem, addr.wrapping_add(1))) as u16
}

/// Little-endian 16-bit write: low byte at `addr`, high byte at the next
/// address, wrapping around the top of the address space.
pub open spec fn swrite16(mem: Seq<u8>, addr: u16, v: u16) -> Seq<u8>
    recommends
        mem_ok(mem),
{
    swrite(swrite(mem, addr, (v % 256) as u8), addr.wrapping_add(1), (v / 256) as u8)
}

/// The status byte with one flag bit set or cleared; every other bit kept.
pub open spec fn set_flag_bit(status: u8, flag: u8, on: bool) -> u8 {
    if on {
        status | flag
    } else {
        status & !flag
    }
}

/// Whether a flag bit is set in the status byte.
pub open spec fn flag_set(status: u8, flag: u8) -> bool {
    status & flag != 0
}

/// The status byte with the Zero and Sign flags recomputed from a fresh
/// 8-bit result, as every register-writing instruction does.
pub open spec fn with_zero_sign(status: u8, v: u8) -> u8 {
    set_flag_bit(set_flag_bit(status, ZERO, v == 0), SIGN, v & 0x80 != 0)
}

/// The effective operand address for an addressing mode, given a machine
/// whose program counter has already advanced past the opcode byte.
///
/// `IndirectX` indexes before the dereference: the zero-page operand byte
/// plus X, with 8-bit wraparound, is the address of the pointer.
/// `IndirectY` indexes after it: the operand byte is dereferenced first and
/// Y is added to the pointed-to base, with 16-bit wraparound.
pub open spec fn eff_addr(m: Machine, mode: AddressingMode) -> u16
    recommends
        mem_ok(m.mem),
        !(mode is NoneAddressing),
{
    match mode {
        AddressingMode::Immediate => m.pc,
        AddressingMode::ZeroPage => sread(m.mem, m.pc) as u16,
        AddressingMode::ZeroPageX => sread(m.mem, m.pc).wrapping_add(m.x) as u16,
        AddressingMode::ZeroPageY => sread(m.mem, m.pc).wrapping_add(m.y) as u16,
        AddressingMode::Absolute => sread16(m.mem, m.pc),
        AddressingMode::AbsoluteX => sread16(m.mem, m.pc).wrapping_add(m.x as u16),
        AddressingMode::AbsoluteY => sread16(m.mem, m.pc).wrapping_add(m.y as u16),
        AddressingMode::IndirectX => sread16(m.mem, sread(m.mem, m.pc).wrapping_add(m.x) as u16),
        AddressingMode::IndirectY => sread16(m.mem, sread(m.mem, m.pc) as u16).wrapping_add(m.y as u16),
        AddressingMode::NoneAddressing => 0,
    }
}

/// LDA: load the byte at the effective address into A; Zero/Sign follow A.
pub open spec fn lda_sem(m: Machine, ea: u16) -> Machine
    recommends
        mem_ok(m.mem),
{
    let v = sread(m.mem, ea);
    Machine { a: v, status: with_zero_sign(m.status, v), ..m }
}

/// STA: store A at the effective address; no flag changes.
pub open spec fn sta_sem(m: Machine, ea: u16) -> Machine
    recommends
        mem_ok(m.mem),
{
    Machine { mem: swrite(m.mem, ea, m.a), ..m }
}

/// TAX: copy A into X; Zero/Sign follow the new X.
pub open spec fn tax_sem(m: Machine) -> Machine {
    Machine { x: m.a, status: with_zero_sign(m.status, m.a), ..m }
}

/// INX: increment X with 8-bit wraparound; Zero/Sign follow the new X.
pub open spec fn inx_sem(m: Machine) -> Machine {
    let v = m.x.wrapping_add(1);
    Machine { x: v, status: with_zero_sign(m.status, v), ..m }
}

/// The signed value of an 8-bit two's-complement byte.
pub open spec fn signed(v: u8) -> int {
    if v < 0x80 {
        v as int
    } else {
        v - 256
    }
}

/// Signed 8-bit addition overflow: the exact signed sum of the accumulator,
/// the operand and the carry-in does not fit in two's-complement 8 bits.
/// Equivalently, two same-signed operands produce a result of the opposite
/// sign.
pub open spec fn adc_overflows(a: u8, operand: u8, carry_in: u8) -> bool {
    signed(a) + signed(operand) + carry_in > 127
        || signed(a) + signed(operand) + carry_in < -128
}

/// ADC: add the operand byte and the carry-in to A. The Carry flag records
/// unsigned carry out of bit 7, the Overflow flag records signed overflow,
/// and Zero/Sign follow the 8-bit result.
pub open spec fn adc_sem(m: Machine, ea: u16) -> Machine
    recommends
        mem_ok(m.mem),
{
    let operand = sread(m.mem, ea);
    let c: u8 = if flag_set(m.status, CARRY) { 1 as u8 } else { 0 as u8 };
    let total = m.a + operand + c;
    let result = (total % 256) as u8;
    let st = set_flag_bit(
        set_flag_bit(
            set_flag_bit(set_flag_bit(m.status, CARRY, total > 255), ZERO, result == 0),
            OVERFLOW,
            adc_overflows(m.a, operand, c),
        ),
        SIGN,
        result & 0x80 != 0,
    );
    Machine { a: result, status: st, ..m }
}

/// The state change of one decoded non-break instruction, applied to a
/// machine whose program counter has advanced past the opcode byte but not
/// yet past the operand bytes.
pub open spec fn instr_sem(m: Machine, op: OpCode) -> Machine
    recommends
        mem_ok(m.mem),
        spec_decode(op.opcode) == Some(op),
{
    match op.mnemonic {
        Mnemonic::ADC => adc_sem(m, eff_addr(m, op.addr_mode)),
        Mnemonic::BRK => m,
        Mnemonic::INX => inx_sem(m),
        Mnemonic::LDA => lda_sem(m, eff_addr(m, op.addr_mode)),
        Mnemonic::STA => sta_sem(m, eff_addr(m, op.addr_mode)),
        Mnemonic::TAX => tax_sem(m),
    }
}

/// The program counter advanced past the instruction's operand bytes, with
/// 16-bit wraparound.
pub open spec fn advance_pc(m: Machine, op: OpCode) -> Machine
    recommends
        1 <= op.bytes,
{
    Machine { pc: m.pc.wrapping_add((op.bytes - 1) as u16), ..m }
}

/// The outcome of one fetch-decode-execute step.
#[verifier::ext_equal]
pub enum StepResult {
    /// The instruction completed; execution continues from the given state.
    Next(Machine),
    /// A break instruction was decoded; the given state is final.
    Halt(Machine),
    /// The fetched byte decodes to no instruction; the machine state is
    /// unchanged, and the byte is reported.
    Fault(u8),
}

/// One step of the fetch-decode-execute loop from state `m`: fetch the byte
/// at the program counter, advance the counter past it, decode, execute,
/// and advance the counter past the operand bytes.
pub open spec fn step(m: Machine) -> StepResult
    recommends
        mem_ok(m.mem),
{
    let raw = sread(m.mem, m.pc);
    match spec_decode(raw) {
        Option::None => StepResult::Fault(raw),
        Option::Some(op) => {
            let fetched = Machine { pc: m.pc.wrapping_add(1), ..m };
            if op.mnemonic is BRK {
                StepResult::Halt(fetched)
            } else {
                StepResult::Next(advance_pc(instr_sem(fetched, op), op))
            }
        },
    }
}

/// State `t` is reached from state `s` by exactly `n` completed
/// (non-halting, non-faulting) steps.
pub open spec fn reaches(s: Machine, t: Machine, n: nat) -> bool
    decreases n,
{
    if n == 0 {
        t == s
    } else {
        step(s) matches StepResult::Next(u) && reaches(u, t, (n - 1) as nat)
    }
}

/// Extending a chain of completed steps by one more step.
pub proof fn lemma_reaches_next(s: Machine, t: Machine, u: Machine, n: nat)
    requires
        reaches(s, t, n),
        step(t) == StepResult::Next(u),
    ensures
        reaches(s, u, n + 1),
    decreases n,
{
    if n == 0 {
        assert(t == s);
        assert(reaches(u, u, 0));
        assert(reaches(s, u, 1));
    } else {
        let v = step(s)->Next_0;
        assert(step(s) == StepResult::Next(v) && reaches(v, t, (n - 1) as nat));
        lemma_reaches_next(v, t, u, (n - 1) as nat);
        assert(reaches(v, u, n));
        assert(reaches(s, u, n + 1));
    }
}

/// The four flag masks are single, distinct bits: setting or clearing one
/// flag makes it read back as written and leaves every other flag as it was.
pub proof fn lemma_set_flag_bit(s: u8, flag: u8, other: u8, on: bool)
    requires
        flag == CARRY || flag == ZERO || flag == OVERFLOW || flag == SIGN,
        other == CARRY || other == ZERO || other == OVERFLOW || other == SIGN,
        flag != other,
    ensures
        flag_set(set_flag_bit(s, flag, on), flag) == on,
        flag_set(set_flag_bit(s, flag, on), other) == flag_set(s, other),
{
    assert(flag & other == 0 && flag != 0) by (bit_vector)
        requires
            (flag == 0x01 || flag == 0x02 || flag == 0x40 || flag == 0x80)
                && (other == 0x01 || other == 0x02 || other == 0x40 || other == 0x80)
                && flag != other,
    ;
    if on {
        assert((s | flag) & flag != 0) by (bit_vector)
            requires
                flag != 0,
        ;
        assert((s | flag) & other == s & other) by (bit_vector)
            requires
                flag & other == 0,
        ;
    } else {
        assert((s & !flag) & flag == 0) by (bit_vector);
        assert((s & !flag) & other == s & other) by (bit_vector)
            requires
                flag & other == 0,
        ;
    }
}

/// Recomputing Zero and Sign from a fresh result makes those two flags read
/// exactly as the result dictates and leaves Carry and Overflow untouched.
pub proof fn lemma_with_zero_sign(s: u8, v: u8)
    ensures
        flag_set(with_zero_sign(s, v), ZERO) == (v == 0),
        flag_set(with_zero_sign(s, v), SIGN) == (v & 0x80 != 0),
        flag_set(with_zero_sign(s, v), CARRY) == flag_set(s, CARRY),
        flag_set(with_zero_sign(s, v), OVERFLOW) == flag_set(s, OVERFLOW),
{
    let s1 = set_flag_bit(s, ZERO, v == 0);
    lemma_set_flag_bit(s, ZERO, CARRY, v == 0);
    lemma_set_flag_bit(s, ZERO, OVERFLOW, v == 0);
    lemma_set_flag_bit(s1, SIGN, ZERO, v & 0x80 != 0);
    lemma_set_flag_bit(s1, SIGN, CARRY, v & 0x80 != 0);
    lemma_set_flag_bit(s1, SIGN, OVERFLOW, v & 0x80 != 0);
}

/// Law: a load sets the accumulator to exactly the byte read, the Zero flag
/// exactly when that byte is zero and the Sign flag exactly when its bit 7
/// is set, and leaves X, Y, the program counter, the memory and the
/// Carry/Overflow flags unchanged.
pub proof fn lemma_lda_law(m: Machine, ea: u16)
    ensures
        ({
            let m2 = lda_sem(m, ea);
            let v = sread(m.mem, ea);
            &&& m2.a == v
            &&& flag_set(m2.status, ZERO) == (v == 0)
            &&& flag_set(m2.status, SIGN) == (v & 0x80 != 0)
            &&& flag_set(m2.status, CARRY) == flag_set(m.status, CARRY)
            &&& flag_set(m2.status, OVERFLOW) == flag_set(m.status, OVERFLOW)
            &&& m2.x == m.x
            &&& m2.y == m.y
            &&& m2.pc == m.pc
            &&& m2.mem == m.mem
        }),
{
    lemma_with_zero_sign(m.status, sread(m.mem, ea));
}

/// Law: a transfer from A to X copies the accumulator into X exactly,
/// recomputes Zero and Sign from the new X value, and leaves the
/// accumulator itself, Y, the program counter, the memory and the
/// Carry/Overflow flags unchanged.
pub proof fn lemma_tax_law(m: Machine)
    ensures
        ({
            let m2 = tax_sem(m);
            &&& m2.x == m.a
            &&& m2.a == m.a
            &&& flag_set(m2.status, ZERO) == (m2.x == 0)
            &&& flag_set(m2.status, SIGN) == (m2.x & 0x80 != 0)
            &&& flag_set(m2.status, CARRY) == flag_set(m.status, CARRY)
            &&& flag_set(m2.status, OVERFLOW) == flag_set(m.status, OVERFLOW)
            &&& m2.y == m.y
            &&& m2.pc == m.pc
            &&& m2.mem == m.mem
        }),
{
    lemma_with_zero_sign(m.status, m.a);
}

/// Law: an increment of X wraps modulo 256 — X becomes (X + 1) % 256, so
/// X = 0xFF rolls over to 0x00 with the Zero flag set, and the Zero flag is
/// set in exactly that case. Sign follows bit 7 of the new X; everything
/// else, Carry and Overflow included, is unchanged.
pub proof fn lemma_inx_law(m: Machine)
    ensures
        ({
            let m2 = inx_sem(m);
            &&& m2.x == (m.x + 1) % 256
            &&& flag_set(m2.status, ZERO) == (m.x == 0xff)
            &&& flag_set(m2.status, SIGN) == (m2.x & 0x80 != 0)
            &&& flag_set(m2.status, CARRY) == flag_set(m.status, CARRY)
            &&& flag_set(m2.status, OVERFLOW) == flag_set(m.status, OVERFLOW)
            &&& m2.a == m.a
            &&& m2.y == m.y
            &&& m2.pc == m.pc
            &&& m2.mem == m.mem
        }),
{
    lemma_with_zero_sign(m.status, m.x.wrapping_add(1));
}

/// Law: add-with-carry leaves X, Y, the program counter and the memory
/// unchanged; the accumulator becomes the 8-bit wrapped sum of A, the
/// operand byte and the carry-in; the Carry flag records unsigned carry out
/// of bit 7, the Overflow flag records signed two's-complement overflow,
/// and Zero/Sign follow the result.
pub proof fn lemma_adc_law(m: Machine, ea: u16)
    ensures
        ({
            let m2 = adc_sem(m, ea);
            let operand = sread(m.mem, ea);
            let c: u8 = if flag_set(m.status, CARRY) { 1 as u8 } else { 0 as u8 };
            let total = m.a + operand + c;
            &&& m2.a == total % 256
            &&& flag_set(m2.status, CARRY) == (total > 255)
            &&& flag_set(m2.status, ZERO) == (m2.a == 0)
            &&& flag_set(m2.status, OVERFLOW) == adc_overflows(m.a, operand, c)
            &&& flag_set(m2.status, SIGN) == (m2.a & 0x80 != 0)
            &&& m2.x == m.x
            &&& m2.y == m.y
            &&& m2.pc == m.pc
            &&& m2.mem == m.mem
        }),
{
    let operand = sread(m.mem, ea);
    let c: u8 = if flag_set(m.status, CARRY) { 1 as u8 } else { 0 as u8 };
    let total = m.a + operand + c;
    let result = (total % 256) as u8;
    let s1 = set_flag_bit(m.status, CARRY, total > 255);
    let s2 = set_flag_bit(s1, ZERO, result == 0);
    let s3 = set_flag_bit(s2, OVERFLOW, adc_overflows(m.a, operand, c));
    lemma_set_flag_bit(m.status, CARRY, ZERO, total > 255);
    lemma_set_flag_bit(s1, ZERO, CARRY, result == 0);
    lemma_set_flag_bit(s2, OVERFLOW, CARRY, adc_overflows(m.a, operand, c));
    lemma_set_flag_bit(s2, OVERFLOW, ZERO, adc_overflows(m.a, operand, c));
    lemma_set_flag_bit(s3, SIGN, CARRY, result & 0x80 != 0);
    lemma_set_flag_bit(s3, SIGN, ZERO, result & 0x80 != 0);
    lemma_set_flag_bit(s3, SIGN, OVERFLOW, result & 0x80 != 0);
}

/// Law: a store followed by a load of the same address round-trips — after
/// STA writes the accumulator to an address and LDA reads that address
/// back, the accumulator holds its original value.
pub proof fn lemma_store_load_round_trip(m: Machine, ea: u16)
    requires
        mem_ok(m.mem),
    ensures
        lda_sem(sta_sem(m, ea), ea).a == m.a,
{
}

} // verus!
