//! Instruction descriptors and the opcode decode table.

use vstd::prelude::*;
use crate::cpu::address_mode::AddressingMode;
use crate::cpu::cpu_6502::{cell, CPU};
use crate::cpu::util::nth_bit;

verus! {

/// The operations the interpreter implements.
#[derive(Clone, Copy, Debug, PartialEq, Eq, Structural)]
pub enum Operation {
    /// Add memory to the accumulator.
    Adc,
    /// Bitwise AND of memory with the accumulator.
    And,
    /// Break; the interrupt sequence is not modelled.
    Brk,
    /// Clear the Carry flag.
    Clc,
    /// Jump.
    Jmp,
    /// Jump to subroutine.
    Jsr,
    /// Load the accumulator.
    Lda,
    /// Load register X.
    Ldx,
    /// No operation.
    Nop,
    /// Return from subroutine.
    Rts,
    /// Set the Carry flag.
    Sec,
    /// Store the accumulator.
    Sta,
    /// Transfer the accumulator to register Y.
    Tay,
}

impl Operation {
    /// Whether the operation reads its addressing mode to find an operand or
    /// an address; the others ignore the mode.
    pub open spec fn takes_operand(self) -> bool {
        match self {
            Operation::Adc
            | Operation::And
            | Operation::Jmp
            | Operation::Jsr
            | Operation::Lda
            | Operation::Ldx
            | Operation::Sta => true,
            Operation::Brk
            | Operation::Clc
            | Operation::Nop
            | Operation::Rts
            | Operation::Sec
            | Operation::Tay => false,
        }
    }

    /// Whether the operation is a transfer of control: it leaves the program
    /// counter at the place where execution goes on.
    pub open spec fn spec_transfers_control(self) -> bool {
        self == Operation::Jmp || self == Operation::Jsr || self == Operation::Rts
    }

    /// Whether the operation is a transfer of control: JMP, JSR or RTS.
    pub fn transfers_control(&self) -> (transfers: bool)
        ensures
            transfers == self.spec_transfers_control(),
    {
        match self {
            Operation::Jmp | Operation::Jsr | Operation::Rts => true,
            Operation::Adc
            | Operation::And
            | Operation::Brk
            | Operation::Clc
            | Operation::Lda
            | Operation::Ldx
            | Operation::Nop
            | Operation::Sec
            | Operation::Sta
            | Operation::Tay => false,
        }
    }
}

impl CPU {
    /// TAY: copies the accumulator to register Y and sets Zero and Negative
    /// from Y. The addressing mode is not used.
    pub fn tay(&mut self, addr: &AddressingMode)
        ensures
            final(self)@ == old(self)@.tay(),
    {
        self.register_y = self.register_a;
        self.status.set_zero(self.register_y == 0);
        self.status.set_negative(nth_bit(self.register_y, 7));
    }

    /// JMP: sets the program counter to the effective address.
    pub fn jmp(&mut self, addr: &AddressingMode)
        requires
            addr.has_operand(),
        ensures
            final(self)@ == old(self)@.jmp(*addr),
    {
        self.pc = addr.fetch_argument_address(self);
    }

    /// JSR: pushes the address of the last byte of this instruction, then
    /// sets the program counter to the effective address.
    pub fn jsr(&mut self, addr: &AddressingMode)
        requires
            addr.has_operand(),
        ensures
            final(self)@ == old(self)@.jsr(*addr),
    {
        self.push_word(self.pc.wrapping_add(addr.len() - 1));
        self.pc = addr.fetch_argument_address(self);
    }

    /// LDX: loads the operand into register X and sets Zero and Negative
    /// from X.
    pub fn ldx(&mut self, addr: &AddressingMode)
        requires
            addr.has_operand(),
        ensures
            final(self)@ == old(self)@.ldx(*addr),
    {
        self.register_x = addr.fetch_argument(self);
        self.status.set_zero(self.register_x == 0);
        self.status.set_negative(nth_bit(self.register_x, 7));
    }

    /// LDA: loads the operand into the accumulator and sets Zero and Negative
    /// from the accumulator.
    pub fn lda(&mut self, addr: &AddressingMode)
        requires
            addr.has_operand(),
        ensures
            final(self)@ == old(self)@.lda(*addr),
    {
        self.register_a = addr.fetch_argument(self);
        self.status.set_zero(self.register_a == 0);
        self.status.set_negative(nth_bit(self.register_a, 7));
    }

    /// AND: ANDs the operand into the accumulator and sets Zero and Negative
    /// from the accumulator.
    pub fn and(&mut self, addr: &AddressingMode)
        requires
            addr.has_operand(),
        ensures
            final(self)@ == old(self)@.and(*addr),
    {
        self.register_a = self.register_a & addr.fetch_argument(self);
        self.status.set_zero(self.register_a == 0);
        self.status.set_negative(nth_bit(self.register_a, 7));
    }

    /// CLC: clears Carry. The addressing mode is not used.
    pub fn clc(&mut self, addr: &AddressingMode)
        ensures
            final(self)@ == old(self)@.clc(),
    {
        self.status.set_carry(false);
    }

    /// ADC: adds the operand to the accumulator, wrapping at 8 bits. Carry and
    /// Overflow both report whether the unsigned sum exceeded 255; Zero and
    /// Negative follow the result. The incoming Carry is not added.
    pub fn adc(&mut self, addr: &AddressingMode)
        requires
            addr.has_operand(),
        ensures
            final(self)@ == old(self)@.adc(*addr),
    {
        let operand = addr.fetch_argument(self);
        let data = self.register_a.wrapping_add(operand);
        let overflow = operand > 0xFF - self.register_a;
        self.status.set_carry(overflow);
        self.status.set_overflow(overflow);
        self.status.set_zero(data == 0);
        self.status.set_negative(nth_bit(data, 7));
        self.register_a = data;
    }

    /// STA: stores the accumulator at the effective address.
    pub fn sta(&mut self, addr: &AddressingMode)
        requires
            addr.has_operand(),
        ensures
            final(self)@ == old(self)@.sta(*addr),
    {
        let target = cell(addr.fetch_argument_address(self));
        self.ram[target] = self.register_a;
    }

    /// RTS: pops a word and sets the program counter to the word plus one,
    /// wrapping. The addressing mode is not used.
    pub fn rts(&mut self, addr: &AddressingMode)
        ensures
            final(self)@ == old(self)@.rts(),
    {
        self.pc = self.pop_word();
        self.pc = self.pc.wrapping_add(1);
    }

    /// SEC: sets Carry. The addressing mode is not used.
    pub fn sec(&mut self, addr: &AddressingMode)
        ensures
            final(self)@ == old(self)@.sec(),
    {
        self.status.set_carry(true);
    }

    /// NOP: changes nothing.
    pub fn nop(&mut self, addr: &AddressingMode)
        ensures
            *final(self) == *old(self),
    {
    }

    /// BRK: changes nothing; the interrupt sequence is not modelled.
    pub fn brk(&mut self, addr: &AddressingMode)
        ensures
            *final(self) == *old(self),
    {
    }

    /// Runs `operation` with the addressing mode `addr`.
    pub fn execute(&mut self, operation: Operation, addr: &AddressingMode)
        requires
            operation.takes_operand() ==> addr.has_operand(),
        ensures
            final(self)@ == old(self)@.execute(operation, *addr),
    {
        match operation {
            Operation::Adc => self.adc(addr),
            Operation::And => self.and(addr),
            Operation::Brk => self.brk(addr),
            Operation::Clc => self.clc(addr),
            Operation::Jmp => self.jmp(addr),
            Operation::Jsr => self.jsr(addr),
            Operation::Lda => self.lda(addr),
            Operation::Ldx => self.ldx(addr),
            Operation::Nop => self.nop(addr),
            Operation::Rts => self.rts(addr),
            Operation::Sec => self.sec(addr),
            Operation::Sta => self.sta(addr),
            Operation::Tay => self.tay(addr),
        }
    }
}

/// What one opcode means: a display name, an operation and an addressing mode.
#[derive(Clone, Copy, Debug)]
pub struct Instruction {
    /// The mnemonic, for display.
    pub name: &'static str,
    /// The state transition the instruction performs.
    pub operation: Operation,
    /// How the instruction locates its operand.
    pub mode: AddressingMode,
}

impl Instruction {
    /// A descriptor made of the given parts.
    pub fn new(name: &'static str, operation: Operation, mode: AddressingMode) -> (instruction: Instruction)
        ensures
            instruction == (Instruction { name, operation, mode }),
    {
        Instruction { name, operation, mode }
    }
}

/// The failure to decode an opcode that has no entry in the table.
#[derive(Clone, Copy, Debug, PartialEq, Eq, Structural)]
pub struct DecodeError {
    /// The opcode that has no entry.
    pub opcode: u8,
}

/// The decode table: the instruction that `opcode` stands for, if it has an
/// entry.
pub open spec fn spec_decode(opcode: u8) -> Option<Instruction> {
    match opcode {
        0xEA => Some(Instruction { name: "NOP", operation: Operation::Nop, mode: AddressingMode::Implied }),
        0x00 => Some(Instruction { name: "BRK", operation: Operation::Brk, mode: AddressingMode::Implied }),
        0x29 => Some(Instruction { name: "AND", operation: Operation::And, mode: AddressingMode::Immediate }),
        0x18 => Some(Instruction { name: "CLC", operation: Operation::Clc, mode: AddressingMode::Implied }),
        0x38 => Some(Instruction { name: "SEC", operation: Operation::Sec, mode: AddressingMode::Implied }),
        0x4C => Some(Instruction { name: "JMP", operation: Operation::Jmp, mode: AddressingMode::Absolute }),
        0x6C => Some(Instruction { name: "JMP", operation: Operation::Jmp, mode: AddressingMode::Indirect }),
        0x20 => Some(Instruction { name: "JSR", operation: Operation::Jsr, mode: AddressingMode::Absolute }),
        0x60 => Some(Instruction { name: "RTS", operation: Operation::Rts, mode: AddressingMode::Implied }),

        0x69 => Some(Instruction { name: "ADC", operation: Operation::Adc, mode: AddressingMode::Immediate }),
        0x65 => Some(Instruction { name: "ADC", operation: Operation::Adc, mode: AddressingMode::ZeroPage }),
        0x75 => Some(Instruction { name: "ADC", operation: Operation::Adc, mode: AddressingMode::ZeroPageX }),
        0x6D => Some(Instruction { name: "ADC", operation: Operation::Adc, mode: AddressingMode::Absolute }),
        0x7D => Some(Instruction { name: "ADC", operation: Operation::Adc, mode: AddressingMode::AbsoluteX }),
        0x79 => Some(Instruction { name: "ADC", operation: Operation::Adc, mode: AddressingMode::AbsoluteY }),
        0x61 => Some(Instruction { name: "ADC", operation: Operation::Adc, mode: AddressingMode::IndirectX }),
        0x71 => Some(Instruction { name: "ADC", operation: Operation::Adc, mode: AddressingMode::IndirectY }),

        0x85 => Some(Instruction { name: "STA", operation: Operation::Sta, mode: AddressingMode::ZeroPage }),
        0x95 => Some(Instruction { name: "STA", operation: Operation::Sta, mode: AddressingMode::ZeroPageX }),
        0x8D => Some(Instruction { name: "STA", operation: Operation::Sta, mode: AddressingMode::Absolute }),
        0x9D => Some(Instruction { name: "STA", operation: Operation::Sta, mode: AddressingMode::AbsoluteX }),
        0x99 => Some(Instruction { name: "STA", operation: Operation::Sta, mode: AddressingMode::AbsoluteY }),
        0x81 => Some(Instruction { name: "STA", operation: Operation::Sta, mode: AddressingMode::IndirectX }),
        0x91 => Some(Instruction { name: "STA", operation: Operation::Sta, mode: AddressingMode::IndirectY }),

        0xA2 => Some(Instruction { name: "LDX", operation: Operation::Ldx, mode: AddressingMode::Immediate }),
        0xA6 => Some(Instruction { name: "LDX", operation: Operation::Ldx, mode: AddressingMode::ZeroPage }),
        0xB6 => Some(Instruction { name: "LDX", operation: Operation::Ldx, mode: AddressingMode::ZeroPage }),
        0xAE => Some(Instruction { name: "LDX", operation: Operation::Ldx, mode: AddressingMode::Absolute }),
        0xBE => Some(Instruction { name: "LDX", operation: Operation::Ldx, mode: AddressingMode::AbsoluteY }),

        0xA9 => Some(Instruction { name: "LDA", operation: Operation::Lda, mode: AddressingMode::Immediate }),
        0xA5 => Some(Instruction { name: "LDA", operation: Operation::Lda, mode: AddressingMode::ZeroPage }),
        0xB5 => Some(Instruction { name: "LDA", operation: Operation::Lda, mode: AddressingMode::ZeroPageX }),
        0xAD => Some(Instruction { name: "LDA", operation: Operation::Lda, mode: AddressingMode::Absolute }),
        0xBD => Some(Instruction { name: "LDA", operation: Operation::Lda, mode: AddressingMode::AbsoluteX }),
        0xD9 => Some(Instruction { name: "LDA", operation: Operation::Lda, mode: AddressingMode::AbsoluteY }),
        0xA1 => Some(Instruction { name: "LDA", operation: Operation::Lda, mode: AddressingMode::IndirectX }),
        0xB1 => Some(Instruction { name: "LDA", operation: Operation::Lda, mode: AddressingMode::IndirectY }),

        _ => None,
    }
}

/// The length in bytes, opcode included, that the 6502 reference gives for the
/// instruction encoded by `opcode`; `None` for a byte that the reference does
/// not document.
pub open spec fn reference_length(opcode: u8) -> Option<u16> {
    match opcode {
        0x00 | 0x08 | 0x0A | 0x18 | 0x28 | 0x2A | 0x38 | 0x40
        | 0x48 | 0x4A | 0x58 | 0x60 | 0x68 | 0x6A | 0x78 | 0x88
        | 0x8A | 0x98 | 0x9A | 0xA8 | 0xAA | 0xB8 | 0xBA | 0xC8
        | 0xCA | 0xD8 | 0xE8 | 0xEA | 0xF8 => Some(1),
        0x01 | 0x05 | 0x06 | 0x09 | 0x10 | 0x11 | 0x15 | 0x16
        | 0x21 | 0x24 | 0x25 | 0x26 | 0x29 | 0x30 | 0x31 | 0x35
        | 0x36 | 0x41 | 0x45 | 0x46 | 0x49 | 0x50 | 0x51 | 0x55
        | 0x56 | 0x61 | 0x65 | 0x66 | 0x69 | 0x70 | 0x71 | 0x75
        | 0x76 | 0x81 | 0x84 | 0x85 | 0x86 | 0x90 | 0x91 | 0x94
        | 0x95 | 0x96 | 0xA0 | 0xA1 | 0xA2 | 0xA4 | 0xA5 | 0xA6
        | 0xA9 | 0xB0 | 0xB1 | 0xB4 | 0xB5 | 0xB6 | 0xC0 | 0xC1
        | 0xC4 | 0xC5 | 0xC6 | 0xC9 | 0xD0 | 0xD1 | 0xD5 | 0xD6
        | 0xE0 | 0xE1 | 0xE4 | 0xE5 | 0xE6 | 0xE9 | 0xF0 | 0xF1
        | 0xF5 | 0xF6 => Some(2),
        0x0D | 0x0E | 0x19 | 0x1D | 0x1E | 0x20 | 0x2C | 0x2D
        | 0x2E | 0x39 | 0x3D | 0x3E | 0x4C | 0x4D | 0x4E | 0x59
        | 0x5D | 0x5E | 0x6C | 0x6D | 0x6E | 0x79 | 0x7D | 0x7E
        | 0x8C | 0x8D | 0x8E | 0x99 | 0x9D | 0xAC | 0xAD | 0xAE
        | 0xB9 | 0xBC | 0xBD | 0xBE | 0xCC | 0xCD | 0xCE | 0xD9
        | 0xDD | 0xDE | 0xEC | 0xED | 0xEE | 0xF9 | 0xFD | 0xFE => Some(3),
        _ => None,
    }
}

/// Decodes `opcode` by the decode table. An opcode without an entry is a
/// decode failure that carries the opcode.
pub fn decode(opcode: u8) -> (decoded: Result<Instruction, DecodeError>)
    ensures
        decoded == match spec_decode(opcode) {
            Some(instruction) => Ok::<Instruction, DecodeError>(instruction),
            None => Err::<Instruction, DecodeError>(DecodeError { opcode }),
        },
        decoded matches Ok(instruction) ==> {
            &&& reference_length(opcode) == Some(instruction.mode.spec_len())
            &&& instruction.operation.takes_operand() ==> instruction.mode.has_operand()
        },
{
    match opcode {
        0xEA => Ok(Instruction::new("NOP", Operation::Nop, AddressingMode::Implied)),
        0x00 => Ok(Instruction::new("BRK", Operation::Brk, AddressingMode::Implied)),
        0x29 => Ok(Instruction::new("AND", Operation::And, AddressingMode::Immediate)),
        0x18 => Ok(Instruction::new("CLC", Operation::Clc, AddressingMode::Implied)),
        0x38 => Ok(Instruction::new("SEC", Operation::Sec, AddressingMode::Implied)),
        0x4C => Ok(Instruction::new("JMP", Operation::Jmp, AddressingMode::Absolute)),
        0x6C => Ok(Instruction::new("JMP", Operation::Jmp, AddressingMode::Indirect)),
        0x20 => Ok(Instruction::new("JSR", Operation::Jsr, AddressingMode::Absolute)),
        0x60 => Ok(Instruction::new("RTS", Operation::Rts, AddressingMode::Implied)),

        0x69 => Ok(Instruction::new("ADC", Operation::Adc, AddressingMode::Immediate)),
        0x65 => Ok(Instruction::new("ADC", Operation::Adc, AddressingMode::ZeroPage)),
        0x75 => Ok(Instruction::new("ADC", Operation::Adc, AddressingMode::ZeroPageX)),
        0x6D => Ok(Instruction::new("ADC", Operation::Adc, AddressingMode::Absolute)),
        0x7D => Ok(Instruction::new("ADC", Operation::Adc, AddressingMode::AbsoluteX)),
        0x79 => Ok(Instruction::new("ADC", Operation::Adc, AddressingMode::AbsoluteY)),
        0x61 => Ok(Instruction::new("ADC", Operation::Adc, AddressingMode::IndirectX)),
        0x71 => Ok(Instruction::new("ADC", Operation::Adc, AddressingMode::IndirectY)),

        0x85 => Ok(Instruction::new("STA", Operation::Sta, AddressingMode::ZeroPage)),
        0x95 => Ok(Instruction::new("STA", Operation::Sta, AddressingMode::ZeroPageX)),
        0x8D => Ok(Instruction::new("STA", Operation::Sta, AddressingMode::Absolute)),
        0x9D => Ok(Instruction::new("STA", Operation::Sta, AddressingMode::AbsoluteX)),
        0x99 => Ok(Instruction::new("STA", Operation::Sta, AddressingMode::AbsoluteY)),
        0x81 => Ok(Instruction::new("STA", Operation::Sta, AddressingMode::IndirectX)),
        0x91 => Ok(Instruction::new("STA", Operation::Sta, AddressingMode::IndirectY)),

        0xA2 => Ok(Instruction::new("LDX", Operation::Ldx, AddressingMode::Immediate)),
        0xA6 => Ok(Instruction::new("LDX", Operation::Ldx, AddressingMode::ZeroPage)),
        0xB6 => Ok(Instruction::new("LDX", Operation::Ldx, AddressingMode::ZeroPage)),
        0xAE => Ok(Instruction::new("LDX", Operation::Ldx, AddressingMode::Absolute)),
        0xBE => Ok(Instruction::new("LDX", Operation::Ldx, AddressingMode::AbsoluteY)),

        0xA9 => Ok(Instruction::new("LDA", Operation::Lda, AddressingMode::Immediate)),
        0xA5 => Ok(Instruction::new("LDA", Operation::Lda, AddressingMode::ZeroPage)),
        0xB5 => Ok(Instruction::new("LDA", Operation::Lda, AddressingMode::ZeroPageX)),
        0xAD => Ok(Instruction::new("LDA", Operation::Lda, AddressingMode::Absolute)),
        0xBD => Ok(Instruction::new("LDA", Operation::Lda, AddressingMode::AbsoluteX)),
        0xD9 => Ok(Instruction::new("LDA", Operation::Lda, AddressingMode::AbsoluteY)),
        0xA1 => Ok(Instruction::new("LDA", Operation::Lda, AddressingMode::IndirectX)),
        0xB1 => Ok(Instruction::new("LDA", Operation::Lda, AddressingMode::IndirectY)),

        _ => Err(DecodeError { opcode }),
    }
}

/// Every instruction in the decode table has the encoded length that the 6502
/// reference gives for its opcode.
pub proof fn lemma_decoded_length_is_reference_length(opcode: u8)
    ensures
        spec_decode(opcode) matches Some(instruction) ==> reference_length(opcode) == Some(
            instruction.mode.spec_len(),
        ),
{
}

} // verus!
