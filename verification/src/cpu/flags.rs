//! The processor status flags.

use vstd::prelude::*;

verus! {

/// The seven processor flags, each an independent boolean.
#[derive(Clone, Copy, Debug, PartialEq, Eq, Structural)]
pub struct Status {
    /// The Carry flag.
    pub carry: bool,
    /// The Zero flag.
    pub zero: bool,
    /// The Interrupt-Disable flag.
    pub interrupt_disable: bool,
    /// The Decimal flag.
    pub decimal: bool,
    /// The Break flag.
    pub break_command: bool,
    /// The Overflow flag.
    pub overflow: bool,
    /// The Negative flag.
    pub negative: bool,
}

impl Status {
    /// The status in which every flag is cleared.
    pub open spec fn cleared() -> Status {
        Status {
            carry: false,
            zero: false,
            interrupt_disable: false,
            decimal: false,
            break_command: false,
            overflow: false,
            negative: false,
        }
    }

    /// A status with every flag cleared.
    pub fn new() -> (status: Status)
        ensures
            status == Status::cleared(),
    {
        Status {
            carry: false,
            zero: false,
            interrupt_disable: false,
            decimal: false,
            break_command: false,
            overflow: false,
            negative: false,
        }
    }

    /// The Carry flag.
    pub fn carry(&self) -> (value: bool)
        ensures
            value == self.carry,
    {
        self.carry
    }

    /// Sets the Carry flag and leaves the other flags as they are.
    pub fn set_carry(&mut self, value: bool)
        ensures
            *final(self) == (Status { carry: value, ..*old(self) }),
    {
        self.carry = value;
    }

    /// This status with the Carry flag set to `value`.
    pub fn with_carry(self, value: bool) -> (status: Status)
        ensures
            status == (Status { carry: value, ..self }),
    {
        Status { carry: value, ..self }
    }

    /// The Zero flag.
    pub fn zero(&self) -> (value: bool)
        ensures
            value == self.zero,
    {
        self.zero
    }

    /// Sets the Zero flag and leaves the other flags as they are.
    pub fn set_zero(&mut self, value: bool)
        ensures
            *final(self) == (Status { zero: value, ..*old(self) }),
    {
        self.zero = value;
    }

    /// This status with the Zero flag set to `value`.
    pub fn with_zero(self, value: bool) -> (status: Status)
        ensures
            status == (Status { zero: value, ..self }),
    {
        Status { zero: value, ..self }
    }

    /// The Interrupt-Disable flag.
    pub fn interrupt_disable(&self) -> (value: bool)
        ensures
            value == self.interrupt_disable,
    {
        self.interrupt_disable
    }

    /// Sets the Interrupt-Disable flag and leaves the other flags as they are.
    pub fn set_interrupt_disable(&mut self, value: bool)
        ensures
            *final(self) == (Status { interrupt_disable: value, ..*old(self) }),
    {
        self.interrupt_disable = value;
    }

    /// This status with the Interrupt-Disable flag set to `value`.
    pub fn with_interrupt_disable(self, value: bool) -> (status: Status)
        ensures
            status == (Status { interrupt_disable: value, ..self }),
    {
        Status { interrupt_disable: value, ..self }
    }

    /// The Decimal flag.
    pub fn decimal(&self) -> (value: bool)
        ensures
            value == self.decimal,
    {
        self.decimal
    }

    /// Sets the Decimal flag and leaves the other flags as they are.
    pub fn set_decimal(&mut self, value: bool)
        ensures
            *final(self) == (Status { decimal: value, ..*old(self) }),
    {
        self.decimal = value;
    }

    /// This status with the Decimal flag set to `value`.
    pub fn with_decimal(self, value: bool) -> (status: Status)
        ensures
            status == (Status { decimal: value, ..self }),
    {
        Status { decimal: value, ..self }
    }

    /// The Break flag.
    pub fn break_command(&self) -> (value: bool)
        ensures
            value == self.break_command,
    {
        self.break_command
    }

    /// Sets the Break flag and leaves the other flags as they are.
    pub fn set_break_command(&mut self, value: bool)
        ensures
            *final(self) == (Status { break_command: value, ..*old(self) }),
    {
        self.break_command = value;
    }

    /// This status with the Break flag set to `value`.
    pub fn with_break_command(self, value: bool) -> (status: Status)
        ensures
            status == (Status { break_command: value, ..self }),
    {
        Status { break_command: value, ..self }
    }

    /// The Overflow flag.
    pub fn overflow(&self) -> (value: bool)
        ensures
            value == self.overflow,
    {
        self.overflow
    }

    /// Sets the Overflow flag and leaves the other flags as they are.
    pub fn set_overflow(&mut self, value: bool)
        ensures
            *final(self) == (Status { overflow: value, ..*old(self) }),
    {
        self.overflow = value;
    }

    /// This status with the Overflow flag set to `value`.
    pub fn with_overflow(self, value: bool) -> (status: Status)
        ensures
            status == (Status { overflow: value, ..self }),
    {
        Status { overflow: value, ..self }
    }

    /// The Negative flag.
    pub fn negative(&self) -> (value: bool)
        ensures
            value == self.negative,
    {
        self.negative
    }

    /// Sets the Negative flag and leaves the other flags as they are.
    pub fn set_negative(&mut self, value: bool)
        ensures
            *final(self) == (Status { negative: value, ..*old(self) }),
    {
        self.negative = value;
    }

    /// This status with the Negative flag set to `value`.
    pub fn with_negative(self, value: bool) -> (status: Status)
        ensures
            status == (Status { negative: value, ..self }),
    {
        Status { negative: value, ..self }
    }
}

impl Default for Status {
    /// The default status has every flag cleared.
    fn default() -> (status: Status)
        ensures
            status == Status::cleared(),
    {
        Status::new()
    }
}

} // verus!
