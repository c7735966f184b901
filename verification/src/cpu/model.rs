//! The mathematical model of the machine: its state as plain values and every
//! operation as a function from state to state.

use vstd::prelude::*;
use crate::cpu::address_mode::AddressingMode;
use crate::cpu::cpu_6502::{PROGRAM_ORIGIN, RAM_SIZE};
use crate::cpu::flags::Status;
use crate::cpu::instructions::{spec_decode, Operation};
use crate::cpu::util::{spec_high_byte, spec_low_byte, spec_nth_bit, spec_word};

verus! {

/// The memory cell that a 16-bit address denotes: addresses are taken modulo
/// the memory size.
pub open spec fn spec_cell(addr: u16) -> int {
    addr as int % RAM_SIZE as int
}

/// The state of the machine as plain values; memory is a sequence of cells.
pub struct CpuState {
    /// The accumulator.
    pub a: u8,
    /// Index register X.
    pub x: u8,
    /// Index register Y.
    pub y: u8,
    /// The status flags.
    pub status: Status,
    /// The program counter.
    pub pc: u16,
    /// The stack pointer.
    pub sp: u8,
    /// The memory cells.
    pub mem: Seq<u8>,
}

impl CpuState {
    /// A state is well formed when its memory has exactly `RAM_SIZE` cells.
    pub open spec fn wf(self) -> bool {
        self.mem.len() == RAM_SIZE
    }

    /// The state a fresh processor starts in.
    pub open spec fn initial() -> CpuState {
        CpuState {
            a: 0,
            x: 0,
            y: 0,
            status: Status { interrupt_disable: true, carry: true, ..Status::cleared() },
            pc: PROGRAM_ORIGIN,
            sp: 0xFD,
            mem: Seq::new(RAM_SIZE as nat, |i: int| 0u8),
        }
    }

    /// Registers A, X and Y are zeroed and the stack pointer moves down by
    /// three, wrapping; memory, flags and program counter stay.
    pub open spec fn reset(self) -> CpuState {
        CpuState { a: 0, x: 0, y: 0, sp: self.sp.wrapping_sub(3), ..self }
    }

    /// Memory after `bytes` have been copied to the program origin.
    pub open spec fn load(self, bytes: Seq<u8>) -> CpuState {
        CpuState {
            mem: Seq::new(
                self.mem.len(),
                |i: int|
                    if PROGRAM_ORIGIN <= i < PROGRAM_ORIGIN + bytes.len() {
                        bytes[i - PROGRAM_ORIGIN]
                    } else {
                        self.mem[i]
                    },
            ),
            ..self
        }
    }

    /// The byte at `addr`.
    pub open spec fn read_byte(self, addr: u16) -> u8 {
        self.mem[spec_cell(addr)]
    }

    /// The little-endian word at `addr`: low byte at `addr`, high byte at the
    /// address after it.
    pub open spec fn read_word(self, addr: u16) -> u16 {
        spec_word(self.read_byte(addr), self.read_byte(addr.wrapping_add(1)))
    }

    /// This state with `value` stored at `addr`.
    pub open spec fn write_byte(self, addr: u16, value: u8) -> CpuState {
        CpuState { mem: self.mem.update(spec_cell(addr), value), ..self }
    }

    /// `value` is written to the cell the stack pointer names, then the stack
    /// pointer moves down by one, wrapping.
    pub open spec fn push_byte(self, value: u8) -> CpuState {
        CpuState {
            mem: self.mem.update(self.sp as int, value),
            sp: self.sp.wrapping_sub(1),
            ..self
        }
    }

    /// The stack pointer moves up by one, wrapping; the popped byte is the one
    /// in the cell it then names.
    pub open spec fn pop_byte(self) -> (CpuState, u8) {
        let sp = self.sp.wrapping_add(1);
        (CpuState { sp, ..self }, self.mem[sp as int])
    }

    /// The high byte is pushed first, then the low byte.
    pub open spec fn push_word(self, value: u16) -> CpuState {
        self.push_byte(spec_high_byte(value)).push_byte(spec_low_byte(value))
    }

    /// Two bytes are popped; the first is the low byte, the second the high byte.
    pub open spec fn pop_word(self) -> (CpuState, u16) {
        let (after_low, low) = self.pop_byte();
        let (after_high, high) = after_low.pop_byte();
        (after_high, spec_word(low, high))
    }

    /// The byte that follows the opcode at the program counter.
    pub open spec fn operand_byte(self) -> u8 {
        self.read_byte(self.pc.wrapping_add(1))
    }

    /// The little-endian word that follows the opcode at the program counter.
    pub open spec fn operand_word(self) -> u16 {
        self.read_word(self.pc.wrapping_add(1))
    }

    /// The address at which an instruction in `mode` finds its operand. For
    /// `Immediate` that is the address of the operand byte itself. `Implied`
    /// has no operand, and the value given for it carries no meaning.
    pub open spec fn effective_address(self, mode: AddressingMode) -> u16
        recommends
            mode.has_operand(),
    {
        match mode {
            AddressingMode::Implied => self.pc,
            AddressingMode::Immediate => self.pc.wrapping_add(1),
            AddressingMode::ZeroPage => self.operand_byte() as u16,
            AddressingMode::ZeroPageX => self.operand_byte().wrapping_add(self.x) as u16,
            AddressingMode::ZeroPageY => self.operand_byte().wrapping_add(self.y) as u16,
            AddressingMode::Absolute => self.operand_word(),
            AddressingMode::AbsoluteX => self.operand_word().wrapping_add(self.x as u16),
            AddressingMode::AbsoluteY => self.operand_word().wrapping_add(self.y as u16),
            AddressingMode::Indirect => self.read_word(self.operand_word()),
            AddressingMode::IndirectX => self.read_word(
                self.operand_byte().wrapping_add(self.x) as u16,
            ),
            AddressingMode::IndirectY => self.read_word(
                self.operand_byte() as u16,
            ).wrapping_add(self.y as u16),
        }
    }

    /// The operand value of an instruction in `mode`: the byte at its
    /// effective address.
    pub open spec fn operand(self, mode: AddressingMode) -> u8
        recommends
            mode.has_operand(),
    {
        self.read_byte(self.effective_address(mode))
    }
}

/// `status` with Zero and Negative taken from `value`: Zero when it is 0,
/// Negative when its bit 7 is set.
pub open spec fn with_zero_negative(status: Status, value: u8) -> Status {
    Status { zero: value == 0, negative: spec_nth_bit(value, 7), ..status }
}

impl CpuState {
    /// TAY: Y takes the accumulator; Zero and Negative follow Y.
    pub open spec fn tay(self) -> CpuState {
        CpuState { y: self.a, status: with_zero_negative(self.status, self.a), ..self }
    }

    /// JMP: the program counter takes the effective address.
    pub open spec fn jmp(self, mode: AddressingMode) -> CpuState
        recommends
            mode.has_operand(),
    {
        CpuState { pc: self.effective_address(mode), ..self }
    }

    /// The return address that JSR pushes: the address of the last byte of the
    /// calling instruction.
    pub open spec fn return_address(self, mode: AddressingMode) -> u16 {
        self.pc.wrapping_add((mode.spec_len() - 1) as u16)
    }

    /// JSR: the return address is pushed, then the program counter takes the
    /// effective address, resolved in the state after the push.
    pub open spec fn jsr(self, mode: AddressingMode) -> CpuState
        recommends
            mode.has_operand(),
    {
        self.push_word(self.return_address(mode)).jmp(mode)
    }

    /// RTS: a word is popped and the program counter takes the word plus one.
    pub open spec fn rts(self) -> CpuState {
        let (popped, word) = self.pop_word();
        CpuState { pc: word.wrapping_add(1), ..popped }
    }

    /// LDX: X takes the operand; Zero and Negative follow X.
    pub open spec fn ldx(self, mode: AddressingMode) -> CpuState
        recommends
            mode.has_operand(),
    {
        let value = self.operand(mode);
        CpuState { x: value, status: with_zero_negative(self.status, value), ..self }
    }

    /// LDA: the accumulator takes the operand; Zero and Negative follow it.
    pub open spec fn lda(self, mode: AddressingMode) -> CpuState
        recommends
            mode.has_operand(),
    {
        let value = self.operand(mode);
        CpuState { a: value, status: with_zero_negative(self.status, value), ..self }
    }

    /// AND: the accumulator is ANDed with the operand; Zero and Negative
    /// follow the result.
    pub open spec fn and(self, mode: AddressingMode) -> CpuState
        recommends
            mode.has_operand(),
    {
        let value = self.a & self.operand(mode);
        CpuState { a: value, status: with_zero_negative(self.status, value), ..self }
    }

    /// ADC: the operand is added to the accumulator, wrapping at 8 bits. Carry
    /// and Overflow both say whether the unsigned sum exceeded 255; Zero and
    /// Negative follow the result. The incoming Carry is not added.
    pub open spec fn adc(self, mode: AddressingMode) -> CpuState
        recommends
            mode.has_operand(),
    {
        let operand = self.operand(mode);
        let value = self.a.wrapping_add(operand);
        let carried = self.a + operand > 0xFF;
        CpuState {
            a: value,
            status: Status {
                carry: carried,
                overflow: carried,
                ..with_zero_negative(self.status, value)
            },
            ..self
        }
    }

    /// STA: the accumulator is stored at the effective address.
    pub open spec fn sta(self, mode: AddressingMode) -> CpuState
        recommends
            mode.has_operand(),
    {
        self.write_byte(self.effective_address(mode), self.a)
    }

    /// CLC: Carry is cleared.
    pub open spec fn clc(self) -> CpuState {
        CpuState { status: Status { carry: false, ..self.status }, ..self }
    }

    /// SEC: Carry is set.
    pub open spec fn sec(self) -> CpuState {
        CpuState { status: Status { carry: true, ..self.status }, ..self }
    }

    /// The state after `operation` has run with `mode`.
    pub open spec fn execute(self, operation: Operation, mode: AddressingMode) -> CpuState
        recommends
            operation.takes_operand() ==> mode.has_operand(),
    {
        match operation {
            Operation::Adc => self.adc(mode),
            Operation::And => self.and(mode),
            Operation::Brk => self,
            Operation::Clc => self.clc(),
            Operation::Jmp => self.jmp(mode),
            Operation::Jsr => self.jsr(mode),
            Operation::Lda => self.lda(mode),
            Operation::Ldx => self.ldx(mode),
            Operation::Nop => self,
            Operation::Rts => self.rts(),
            Operation::Sec => self.sec(),
            Operation::Sta => self.sta(mode),
            Operation::Tay => self.tay(),
        }
    }

    /// The opcode that the next step fetches: the byte at the program counter.
    pub open spec fn fetched_opcode(self) -> u8 {
        self.read_byte(self.pc)
    }

    /// One fetch-decode-execute step. Where the fetched opcode has no entry in
    /// the decode table there is no next state. Otherwise the operation runs.
    /// After a transfer of control (JMP, JSR, RTS) the program counter stays
    /// where the operation left it; after any other operation it advances by
    /// the encoded length of the instruction, wrapping at 16 bits.
    pub open spec fn step(self) -> Option<CpuState> {
        match spec_decode(self.fetched_opcode()) {
            None => None,
            Some(instruction) => {
                let ran = self.execute(instruction.operation, instruction.mode);
                Some(
                    CpuState {
                        pc: if instruction.operation.spec_transfers_control() {
                            ran.pc
                        } else {
                            ran.pc.wrapping_add(instruction.mode.spec_len())
                        },
                        ..ran
                    },
                )
            },
        }
    }
}

} // verus!
