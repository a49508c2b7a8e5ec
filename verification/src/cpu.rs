//! The executable emulator: a register file, the status byte, the program
//! counter, and an exclusively owned 64 KiB memory. Every operation is
//! specified against the abstract machine model in [`crate::machine`].
//!
//! Two deliberate policies, observable through the contracts:
//! - the memory spans the full 16-bit address space, 0x0000 through 0xFFFF,
//!   and every address arithmetic wraps, so no access is ever out of range;
//! - `reset` zeroes A, X and the whole status byte, and leaves Y alone.

use vstd::prelude::*;

use crate::machine::{
    CARRY, MEMORY_SIZE, Machine, OVERFLOW, SIGN, StepResult, ZERO, adc_overflows, adc_sem,
    eff_addr, flag_set, inx_sem, lda_sem, lemma_reaches_next, mem_ok, reaches, set_flag_bit,
    sread, sread16, sta_sem, step, swrite, swrite16, tax_sem, with_zero_sign,
};
use crate::opcodes::{AddressingMode, Mnemonic, decode, lemma_decode_wf, spec_decode};

verus! {

/// Where a loaded program is placed in memory, and the value written to the
/// reset vector.
pub const PROGRAM_BASE: u16 = 0x8000;

/// Address of the little-endian 16-bit reset vector.
pub const RESET_VECTOR: u16 = 0xfffc;

/// Why a run stopped before reaching a break instruction.
#[derive(Debug, Clone, Copy)]
pub enum RunError {
    /// The fetched byte decodes to no instruction. The byte and the address
    /// it was fetched from are reported; the machine is left unchanged, at
    /// that address.
    UnknownOpcode { opcode: u8, program_counter: u16 },
    /// The run's internal step budget of 2^64 - 1 executed instructions ran
    /// out. Bounding a program that never halts is the caller's concern;
    /// this budget only makes the loop provably total, and at a billion
    /// instructions per second it would take centuries to exhaust.
    StepLimit,
}

/// The memory after a program is loaded: the program bytes overlay the
/// region starting at `PROGRAM_BASE`, and the reset vector holds
/// `PROGRAM_BASE` in little-endian order.
pub open spec fn loaded_mem(mem: Seq<u8>, prog: Seq<u8>) -> Seq<u8>
    recommends
        mem_ok(mem),
        prog.len() <= 0x8000,
{
    let copied = Seq::new(
        mem.len(),
        |i: int|
            if PROGRAM_BASE <= i < PROGRAM_BASE + prog.len() {
                prog[i - PROGRAM_BASE]
            } else {
                mem[i]
            },
    );
    swrite16(copied, RESET_VECTOR, PROGRAM_BASE)
}

/// The machine after a reset: A, X and the status byte zeroed, the program
/// counter read from the reset vector; Y and the memory kept.
pub open spec fn reset_spec(m: Machine) -> Machine
    recommends
        mem_ok(m.mem),
{
    Machine { a: 0, x: 0, status: 0, pc: sread16(m.mem, RESET_VECTOR), ..m }
}

/// The machine a program starts from: its bytes loaded, then a reset.
pub open spec fn boot(m: Machine, prog: Seq<u8>) -> Machine
    recommends
        mem_ok(m.mem),
        prog.len() <= 0x8000,
{
    reset_spec(Machine { mem: loaded_mem(m.mem, prog), ..m })
}

/// What a completed `run` means. From the starting state `s0` some number
/// of completed steps reach a state `s`; on `Ok` the step at `s` decoded a
/// break instruction and `sf` is the state it halted in; on an unknown
/// opcode the byte at `s`'s program counter decodes to no instruction, the
/// machine is left exactly at `s`, and the error reports that byte and its
/// address. Exhausting the step budget means exactly 2^64 - 1 instructions
/// completed without halting or faulting.
pub open spec fn run_outcome(s0: Machine, r: Result<(), RunError>, sf: Machine) -> bool {
    match r {
        Result::Ok(()) => exists|n: nat, s: Machine|
            #[trigger] reaches(s0, s, n) && step(s) == StepResult::Halt(sf),
        Result::Err(RunError::UnknownOpcode { opcode, program_counter }) => exists|n: nat, s: Machine|
            {
                &&& #[trigger] reaches(s0, s, n)
                &&& sf == s
                &&& step(s) == StepResult::Fault(opcode)
                &&& opcode == sread(s.mem, s.pc)
                &&& program_counter == s.pc
                &&& spec_decode(opcode) is None
            },
        Result::Err(RunError::StepLimit) => reaches(s0, sf, u64::MAX as nat),
    }
}

/// The emulated processor.
#[derive(Debug)]
pub struct CPU {
    pub register_a: u8,
    pub register_x: u8,
    pub register_y: u8,
    pub status: u8,
    pub program_counter: u16,
    memory: Vec<u8>,
}

impl View for CPU {
    type V = Machine;

    closed spec fn view(&self) -> Machine {
        Machine {
            a: self.register_a,
            x: self.register_x,
            y: self.register_y,
            status: self.status,
            pc: self.program_counter,
            mem: self.memory@,
        }
    }
}

impl CPU {
    /// Well-formed: the owned memory covers the whole 16-bit address space.
    pub open spec fn wf(&self) -> bool {
        mem_ok(self@.mem)
    }

    /// A fresh processor: zeroed registers, zeroed status, and all of
    /// memory zeroed.
    pub fn new() -> (cpu: CPU)
        ensures
            cpu.wf(),
            cpu@ == (Machine {
                a: 0,
                x: 0,
                y: 0,
                status: 0,
                pc: 0,
                mem: Seq::new(MEMORY_SIZE as nat, |i: int| 0u8),
            }),
    {
        let mut memory: Vec<u8> = Vec::new();
        while memory.len() < MEMORY_SIZE
            invariant
                memory@.len() <= MEMORY_SIZE,
                forall|i: int| 0 <= i < memory@.len() ==> memory@[i] == 0u8,
            decreases MEMORY_SIZE - memory@.len(),
        {
            memory.push(0);
        }
        let cpu = CPU { register_a: 0, register_x: 0, register_y: 0, status: 0, program_counter: 0, memory };
        proof {
            assert(cpu@.mem =~= Seq::new(MEMORY_SIZE as nat, |i: int| 0u8));
            assert(cpu@ =~= (Machine {
                a: 0,
                x: 0,
                y: 0,
                status: 0,
                pc: 0,
                mem: Seq::new(MEMORY_SIZE as nat, |i: int| 0u8),
            }));
        }
        cpu
    }

    /// Read the byte at `addr`; every 16-bit address is valid.
    pub fn mem_read(&self, addr: u16) -> (v: u8)
        requires
            self.wf(),
        ensures
            v == sread(self@.mem, addr),
    {
        self.memory[addr as usize]
    }

    /// Store a byte at `addr`; every 16-bit address is valid.
    pub fn mem_write(&mut self, addr: u16, data: u8)
        requires
            old(self).wf(),
        ensures
            final(self).wf(),
            final(self)@ == (Machine { mem: swrite(old(self)@.mem, addr, data), ..old(self)@ }),
    {
        self.memory[addr as usize] = data;
    }

    /// Little-endian 16-bit read: low byte at `addr`, high byte at the next
    /// address, wrapping around the top of the address space.
    fn mem_read_u16(&self, addr: u16) -> (v: u16)
        requires
            self.wf(),
        ensures
            v == sread16(self@.mem, addr),
    {
        let lo = self.mem_read(addr);
        let hi = self.mem_read(addr.wrapping_add(1));
        lo as u16 + 256 * (hi as u16)
    }

    /// Little-endian 16-bit write: low byte at `addr`, high byte at the
    /// next address, wrapping around the top of the address space.
    fn mem_write_u16(&mut self, addr: u16, data: u16)
        requires
            old(self).wf(),
        ensures
            final(self).wf(),
            final(self)@ == (Machine { mem: swrite16(old(self)@.mem, addr, data), ..old(self)@ }),
    {
        let lo = (data % 256) as u8;
        let hi = (data / 256) as u8;
        self.mem_write(addr, lo);
        self.mem_write(addr.wrapping_add(1), hi);
    }

    /// Set or clear one status flag, leaving all other bits as they are.
    fn set_flag(&mut self, flag: u8, on: bool)
        ensures
            final(self)@ == (Machine { status: set_flag_bit(old(self)@.status, flag, on), ..old(self)@ }),
    {
        if on {
            self.status = self.status | flag;
        } else {
            self.status = self.status & !flag;
        }
    }

    /// Whether one status flag is currently set.
    pub fn get_flag(&self, flag: u8) -> (on: bool)
        ensures
            on == flag_set(self@.status, flag),
    {
        self.status & flag != 0
    }

    /// Recompute the Zero and Sign flags from a fresh 8-bit result.
    fn update_flags(&mut self, value: u8)
        ensures
            final(self)@ == (Machine { status: with_zero_sign(old(self)@.status, value), ..old(self)@ }),
    {
        self.set_flag(ZERO, value == 0);
        self.set_flag(SIGN, value & 0x80 != 0);
    }

    /// The effective address of the operand for `mode`, relative to the
    /// current program counter (already past the opcode byte). Resolving
    /// `NoneAddressing` is a programming error and is ruled out by the
    /// precondition; in a correct table only operand-taking instructions
    /// reach this.
    pub fn get_operand_address(&self, mode: AddressingMode) -> (addr: u16)
        requires
            self.wf(),
            !(mode is NoneAddressing),
        ensures
            addr == eff_addr(self@, mode),
    {
        match mode {
            AddressingMode::Immediate => self.program_counter,
            AddressingMode::ZeroPage => self.mem_read(self.program_counter) as u16,
            AddressingMode::ZeroPageX => {
                let base = self.mem_read(self.program_counter);
                base.wrapping_add(self.register_x) as u16
            },
            AddressingMode::ZeroPageY => {
                let base = self.mem_read(self.program_counter);
                base.wrapping_add(self.register_y) as u16
            },
            AddressingMode::Absolute => self.mem_read_u16(self.program_counter),
            AddressingMode::AbsoluteX => {
                let base = self.mem_read_u16(self.program_counter);
                base.wrapping_add(self.register_x as u16)
            },
            AddressingMode::AbsoluteY => {
                let base = self.mem_read_u16(self.program_counter);
                base.wrapping_add(self.register_y as u16)
            },
            AddressingMode::IndirectX => {
                let base = self.mem_read(self.program_counter);
                let ptr = base.wrapping_add(self.register_x);
                self.mem_read_u16(ptr as u16)
            },
            AddressingMode::IndirectY => {
                let base = self.mem_read(self.program_counter);
                let deref = self.mem_read_u16(base as u16);
                deref.wrapping_add(self.register_y as u16)
            },
            AddressingMode::NoneAddressing => {
                proof {
                    assert(false);
                }
                0
            },
        }
    }

    /// LDA: load the byte at the effective address into the accumulator.
    fn lda(&mut self, mode: AddressingMode)
        requires
            old(self).wf(),
            !(mode is NoneAddressing),
        ensures
            final(self).wf(),
            final(self)@ == lda_sem(old(self)@, eff_addr(old(self)@, mode)),
    {
        let addr = self.get_operand_address(mode);
        let value = self.mem_read(addr);
        self.register_a = value;
        self.update_flags(value);
    }

    /// STA: store the accumulator at the effective address.
    fn sta(&mut self, mode: AddressingMode)
        requires
            old(self).wf(),
            !(mode is NoneAddressing),
        ensures
            final(self).wf(),
            final(self)@ == sta_sem(old(self)@, eff_addr(old(self)@, mode)),
    {
        let addr = self.get_operand_address(mode);
        self.mem_write(addr, self.register_a);
    }

    /// TAX: copy the accumulator into X.
    fn tax(&mut self)
        ensures
            final(self)@ == tax_sem(old(self)@),
    {
        self.register_x = self.register_a;
        self.update_flags(self.register_x);
    }

    /// INX: increment X with 8-bit wraparound.
    fn inx(&mut self)
        ensures
            final(self)@ == inx_sem(old(self)@),
    {
        self.register_x = self.register_x.wrapping_add(1);
        self.update_flags(self.register_x);
    }

    /// ADC: add the operand byte and the carry-in to the accumulator,
    /// recording unsigned carry, signed overflow, zero and sign.
    fn adc(&mut self, mode: AddressingMode)
        requires
            old(self).wf(),
            !(mode is NoneAddressing),
        ensures
            final(self).wf(),
            final(self)@ == adc_sem(old(self)@, eff_addr(old(self)@, mode)),
    {
        let addr = self.get_operand_address(mode);
        let operand = self.mem_read(addr);
        let a = self.register_a;
        let carry_in: u8 = if self.get_flag(CARRY) { 1 } else { 0 };

        let total: u16 = a as u16 + operand as u16 + carry_in as u16;
        let result: u8 = (total % 256) as u8;
        let overflow = ((a >= 0x80) == (operand >= 0x80)) && ((a >= 0x80) != (result >= 0x80));

        proof {
            if total < 256 {
                assert(total as int % 256 == total as int);
            } else {
                assert(total as int % 256 == total as int - 256);
            }
            assert(result & 0x80 != 0 <==> result >= 0x80) by (bit_vector);
            assert(overflow == adc_overflows(a, operand, carry_in));
        }

        self.register_a = result;
        self.set_flag(CARRY, total > 255);
        self.set_flag(ZERO, result == 0);
        self.set_flag(OVERFLOW, overflow);
        self.set_flag(SIGN, result & 0x80 != 0);
    }

    /// Drive the fetch-decode-execute loop until a break instruction halts
    /// it cleanly, or a byte with no instruction-table entry is fetched, in
    /// which case the machine is left unchanged at that instruction and the
    /// offending byte and its address are reported.
    #[verifier::loop_isolation(false)]
    pub fn run(&mut self) -> (r: Result<(), RunError>)
        requires
            old(self).wf(),
        ensures
            final(self).wf(),
            run_outcome(old(self)@, r, final(self)@),
    {
        let ghost s0 = self@;
        let ghost mut n: nat = 0nat;
        let mut fuel: u64 = u64::MAX;
        loop
            invariant
                self.wf(),
                reaches(s0, self@, n),
                n + fuel == u64::MAX,
            decreases fuel,
        {
            if fuel == 0 {
                return Err(RunError::StepLimit);
            }
            let ghost pre = self@;
            let pc = self.program_counter;
            let raw = self.mem_read(pc);
            match decode(raw) {
                Option::None => {
                    proof {
                        assert(step(pre) == StepResult::Fault(raw));
                    }
                    return Err(RunError::UnknownOpcode { opcode: raw, program_counter: pc });
                },
                Option::Some(op) => {
                    proof {
                        lemma_decode_wf(raw);
                    }
                    self.program_counter = pc.wrapping_add(1);
                    match op.mnemonic {
                        Mnemonic::BRK => {
                            proof {
                                assert(step(pre) == StepResult::Halt(self@));
                            }
                            return Ok(());
                        },
                        Mnemonic::ADC => self.adc(op.addr_mode),
                        Mnemonic::INX => self.inx(),
                        Mnemonic::LDA => self.lda(op.addr_mode),
                        Mnemonic::STA => self.sta(op.addr_mode),
                        Mnemonic::TAX => self.tax(),
                    }
                    self.program_counter = self.program_counter.wrapping_add((op.bytes - 1) as u16);
                    fuel = fuel - 1;
                    proof {
                        assert(step(pre) == StepResult::Next(self@));
                        lemma_reaches_next(s0, pre, self@, n);
                        n = n + 1nat;
                    }
                },
            }
        }
    }

    /// Copy a program into memory starting at `PROGRAM_BASE` and write
    /// `PROGRAM_BASE` to the reset vector. The program must fit between the
    /// base address and the end of memory.
    pub fn load(&mut self, program: Vec<u8>)
        requires
            old(self).wf(),
            program@.len() <= 0x8000,
        ensures
            final(self).wf(),
            final(self)@ == (Machine { mem: loaded_mem(old(self)@.mem, program@), ..old(self)@ }),
    {
        let ghost m0 = self@;
        let mut i: usize = 0;
        while i < program.len()
            invariant
                self.wf(),
                i <= program@.len(),
                program@.len() <= 0x8000,
                forall|k: int| 0 <= k < i ==> self@.mem[PROGRAM_BASE + k] == program@[k],
                forall|k: int|
                    0 <= k < MEMORY_SIZE && !(PROGRAM_BASE <= k < PROGRAM_BASE + i)
                        ==> self@.mem[k] == m0.mem[k],
                self@.a == m0.a,
                self@.x == m0.x,
                self@.y == m0.y,
                self@.status == m0.status,
                self@.pc == m0.pc,
            decreases program@.len() - i,
        {
            self.mem_write((PROGRAM_BASE as usize + i) as u16, program[i]);
            i = i + 1;
        }
        self.mem_write_u16(RESET_VECTOR, PROGRAM_BASE);
        proof {
            assert(self@.mem =~= loaded_mem(m0.mem, program@));
            assert(self@ =~= (Machine { mem: loaded_mem(m0.mem, program@), ..m0 }));
        }
    }

    /// Zero A, X and the status byte, and set the program counter from the
    /// reset vector. Y is deliberately left alone.
    pub fn reset(&mut self)
        requires
            old(self).wf(),
        ensures
            final(self).wf(),
            final(self)@ == reset_spec(old(self)@),
    {
        self.register_a = 0;
        self.register_x = 0;
        self.status = 0;
        self.program_counter = self.mem_read_u16(RESET_VECTOR);
    }

    /// Load a program, reset, and run it to completion: the single entry
    /// point for "execute this program".
    pub fn load_and_run(&mut self, program: Vec<u8>) -> (r: Result<(), RunError>)
        requires
            old(self).wf(),
            program@.len() <= 0x8000,
        ensures
            final(self).wf(),
            run_outcome(boot(old(self)@, program@), r, final(self)@),
    {
        self.load(program);
        self.reset();
        self.run()
    }
}

} // verus!
