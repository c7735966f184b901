//! The processor state, its memory and its stack.

use vstd::prelude::*;
use crate::cpu::flags::Status;
use crate::cpu::instructions::{decode, DecodeError};
use crate::cpu::model::{spec_cell, CpuState};
use crate::cpu::util::{high_byte, low_byte, word_from_bytes};

verus! {

/// The number of addressable memory cells.
pub const RAM_SIZE: usize = 0xFFFF;

/// The address at which programs are loaded and at which execution starts.
pub const PROGRAM_ORIGIN: u16 = 0x0600;

/// The memory cell that a 16-bit address denotes: the address modulo the
/// memory size.
pub fn cell(addr: u16) -> (index: usize)
    ensures
        index == spec_cell(addr),
        index < RAM_SIZE,
{
    (addr as usize) % RAM_SIZE
}

/// A 6502 processor with its memory.
///
/// Addresses and the program counter are 16-bit values whose arithmetic wraps
/// at 16 bits; an access at an address touches the cell that the address
/// denotes modulo the memory size. The stack pointer is an 8-bit value that
/// wraps, and names a memory cell directly.
#[derive(Debug)]
pub struct CPU {
    /// The accumulator.
    pub register_a: u8,
    /// Index register X.
    pub register_x: u8,
    /// Index register Y.
    pub register_y: u8,
    /// The status flags.
    pub status: Status,
    /// The program counter.
    pub pc: u16,
    /// The stack pointer.
    pub sp: u8,
    /// The memory cells.
    pub ram: [u8; RAM_SIZE],
}

impl View for CPU {
    type V = CpuState;

    open spec fn view(&self) -> CpuState {
        CpuState {
            a: self.register_a,
            x: self.register_x,
            y: self.register_y,
            status: self.status,
            pc: self.pc,
            sp: self.sp,
            mem: self.ram@,
        }
    }
}

impl CPU {
    /// A processor in its initial state: registers zero, program counter at
    /// the program origin, stack pointer 0xFD, Interrupt-Disable and Carry
    /// set, memory zeroed.
    pub fn new() -> (cpu: CPU)
        ensures
            cpu@ == CpuState::initial(),
    {
        let cpu = CPU {
            register_a: 0,
            register_x: 0,
            register_y: 0,
            status: Status::default().with_interrupt_disable(true).with_carry(true),
            pc: PROGRAM_ORIGIN,
            sp: 0xFD,
            ram: [0;RAM_SIZE],
        };
        assert(cpu@.mem =~= CpuState::initial().mem);
        cpu
    }

    /// Zeroes registers A, X and Y and moves the stack pointer down by three,
    /// wrapping. Memory, flags and program counter stay as they are.
    pub fn reset(&mut self)
        ensures
            final(self)@ == old(self)@.reset(),
    {
        self.sp = self.sp.wrapping_sub(3);
        self.register_x = 0;
        self.register_y = 0;
        self.register_a = 0;
    }

    /// Copies `rom` into memory, starting at the program origin.
    pub fn load(&mut self, rom: &[u8])
        requires
            rom@.len() <= RAM_SIZE - PROGRAM_ORIGIN,
        ensures
            final(self)@ == old(self)@.load(rom@),
    {
        let origin: usize = PROGRAM_ORIGIN as usize;
        let mut i: usize = 0;
        while i < rom.len()
            invariant
                origin == PROGRAM_ORIGIN,
                i <= rom@.len() <= RAM_SIZE - PROGRAM_ORIGIN,
                self.register_a == old(self).register_a,
                self.register_x == old(self).register_x,
                self.register_y == old(self).register_y,
                self.status == old(self).status,
                self.pc == old(self).pc,
                self.sp == old(self).sp,
                self.ram@ == old(self)@.load(rom@.take(i as int)).mem,
            decreases rom@.len() - i,
        {
            self.ram[origin + i] = rom[i];
            i += 1;
        }
        assert(rom@.take(i as int) =~= rom@);
    }

    /// The byte at `addr`.
    pub fn read_byte(&self, addr: u16) -> (value: u8)
        ensures
            value == self@.read_byte(addr),
    {
        self.ram[cell(addr)]
    }

    /// The little-endian word at `addr`: low byte at `addr`, high byte at the
    /// address after it.
    pub fn read_word(&self, addr: u16) -> (value: u16)
        ensures
            value == self@.read_word(addr),
    {
        let low = self.read_byte(addr);
        let high = self.read_byte(addr.wrapping_add(1));
        word_from_bytes(low, high)
    }

    /// Pushes a byte: writes it to the cell the stack pointer names, then moves
    /// the stack pointer down by one, wrapping.
    pub fn push_byte(&mut self, val: u8)
        ensures
            final(self)@ == old(self)@.push_byte(val),
    {
        self.ram[self.sp as usize] = val;
        self.sp = self.sp.wrapping_sub(1);
    }

    /// Pops a byte: moves the stack pointer up by one, wrapping, then reads the
    /// cell it names.
    pub fn pop_byte(&mut self) -> (value: u8)
        ensures
            (final(self)@, value) == old(self)@.pop_byte(),
    {
        self.sp = self.sp.wrapping_add(1);
        self.ram[self.sp as usize]
    }

    /// Pushes a word, high byte first.
    pub fn push_word(&mut self, val: u16)
        ensures
            final(self)@ == old(self)@.push_word(val),
    {
        self.push_byte(high_byte(val));
        self.push_byte(low_byte(val));
    }

    /// Pops a word: the first byte popped is its low byte, the second its high
    /// byte.
    pub fn pop_word(&mut self) -> (value: u16)
        ensures
            (final(self)@, value) == old(self)@.pop_word(),
    {
        let low = self.pop_byte();
        let high = self.pop_byte();
        word_from_bytes(low, high)
    }

    /// One fetch-decode-execute cycle: reads the opcode at the program counter,
    /// decodes it and runs the operation with the instruction's addressing
    /// mode. A transfer of control (JMP, JSR, RTS) leaves the program counter
    /// where the operation put it; after any other operation the program
    /// counter advances by the instruction's encoded length.
    ///
    /// An opcode without an entry in the decode table is a decode failure: the
    /// error carries the opcode and the processor is left exactly as it was.
    pub fn tick(&mut self) -> (outcome: Result<(), DecodeError>)
        ensures
            match old(self)@.step() {
                Some(next) => outcome is Ok && final(self)@ == next,
                None => outcome == Err::<(), DecodeError>(
                    DecodeError { opcode: old(self)@.fetched_opcode() },
                ) && *final(self) == *old(self),
            },
    {
        match decode(self.read_byte(self.pc)) {
            Ok(instruction) => {
                self.execute(instruction.operation, &instruction.mode);
                if !instruction.operation.transfers_control() {
                    self.pc = self.pc.wrapping_add(instruction.mode.len());
                }
                Ok(())
            },
            Err(failure) => Err(failure),
        }
    }
}

} // verus!
