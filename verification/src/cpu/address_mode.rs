//! Addressing modes: how an instruction locates its operand.

use vstd::prelude::*;
use crate::cpu::cpu_6502::CPU;

verus! {

/// The rule by which an instruction finds its operand.
#[derive(Clone, Copy, Debug, PartialEq, Eq, Structural)]
pub enum AddressingMode {
    /// No operand.
    Implied,
    /// The operand is the byte that follows the opcode.
    Immediate,
    /// The byte that follows the opcode is an address in the zero page.
    ZeroPage,
    /// A zero-page address indexed by register X, wrapping within the zero page.
    ZeroPageX,
    /// A zero-page address indexed by register Y, wrapping within the zero page.
    ZeroPageY,
    /// The two bytes that follow the opcode are a little-endian address.
    Absolute,
    /// An absolute address indexed by register X, wrapping at 16 bits.
    AbsoluteX,
    /// An absolute address indexed by register Y, wrapping at 16 bits.
    AbsoluteY,
    /// The address is the word stored at the absolute operand.
    Indirect,
    /// The address is the word stored at the zero-page operand indexed by X.
    IndirectX,
    /// The address is the word stored at the zero-page operand, plus register Y.
    IndirectY,
}

impl AddressingMode {
    /// The encoded length of an instruction in this mode, opcode byte included.
    pub open spec fn spec_len(self) -> u16 {
        match self {
            AddressingMode::Implied => 1,
            AddressingMode::Immediate
            | AddressingMode::ZeroPage
            | AddressingMode::ZeroPageX
            | AddressingMode::ZeroPageY
            | AddressingMode::IndirectX
            | AddressingMode::IndirectY => 2,
            AddressingMode::Absolute
            | AddressingMode::AbsoluteX
            | AddressingMode::AbsoluteY
            | AddressingMode::Indirect => 3,
        }
    }

    /// Whether an instruction in this mode has an operand at all.
    pub open spec fn has_operand(self) -> bool {
        self != AddressingMode::Implied
    }

    /// The encoded length of an instruction in this mode, opcode byte included.
    pub fn len(&self) -> (length: u16)
        ensures
            length == self.spec_len(),
            1 <= length <= 3,
    {
        match self {
            AddressingMode::Implied => 1,
            AddressingMode::Immediate
            | AddressingMode::ZeroPage
            | AddressingMode::ZeroPageX
            | AddressingMode::ZeroPageY
            | AddressingMode::IndirectX
            | AddressingMode::IndirectY => 2,
            AddressingMode::Absolute
            | AddressingMode::AbsoluteX
            | AddressingMode::AbsoluteY
            | AddressingMode::Indirect => 3,
        }
    }

    /// The address at which an instruction in this mode, standing at the
    /// program counter of `cpu`, finds its operand. For `Immediate` that is the
    /// address of the byte after the opcode. `Implied` has no operand.
    pub fn fetch_argument_address(&self, cpu: &CPU) -> (address: u16)
        requires
            self.has_operand(),
        ensures
            address == cpu@.effective_address(*self),
    {
        let operand_address = cpu.pc.wrapping_add(1);
        match self {
            AddressingMode::Implied => cpu.pc,
            AddressingMode::Immediate => operand_address,
            AddressingMode::ZeroPage => cpu.read_byte(operand_address) as u16,
            AddressingMode::ZeroPageX => cpu.read_byte(operand_address).wrapping_add(
                cpu.register_x,
            ) as u16,
            AddressingMode::ZeroPageY => cpu.read_byte(operand_address).wrapping_add(
                cpu.register_y,
            ) as u16,
            AddressingMode::Absolute => cpu.read_word(operand_address),
            AddressingMode::AbsoluteX => cpu.read_word(operand_address).wrapping_add(
                cpu.register_x as u16,
            ),
            AddressingMode::AbsoluteY => cpu.read_word(operand_address).wrapping_add(
                cpu.register_y as u16,
            ),
            AddressingMode::Indirect => cpu.read_word(cpu.read_word(operand_address)),
            AddressingMode::IndirectX => cpu.read_word(
                cpu.read_byte(operand_address).wrapping_add(cpu.register_x) as u16,
            ),
            AddressingMode::IndirectY => cpu.read_word(
                cpu.read_byte(operand_address) as u16,
            ).wrapping_add(cpu.register_y as u16),
        }
    }

    /// The operand value of an instruction in this mode: the byte at its
    /// effective address, which for `Immediate` is the byte after the opcode.
    pub fn fetch_argument(&self, cpu: &CPU) -> (value: u8)
        requires
            self.has_operand(),
        ensures
            value == cpu@.operand(*self),
    {
        cpu.read_byte(self.fetch_argument_address(cpu))
    }
}

} // verus!
