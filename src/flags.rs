use vstd::prelude::*;

verus! {

/// Whether bit `i` of `b` is set.
pub open spec fn has_bit(b: u8, i: u8) -> bool {
    b & (1u8 << i) != 0
}

/// `b` with bit `i` set to `v`, all other bits kept.
pub open spec fn with_bit(b: u8, i: u8, v: bool) -> u8 {
    if v {
        b | (1u8 << i)
    } else {
        b & !(1u8 << i)
    }
}

pub const CARRY: u8 = 0;
pub const ZERO: u8 = 1;
pub const INTERRUPT: u8 = 2;
pub const DECIMAL: u8 = 3;
pub const BREAK: u8 = 4;
pub const UNUSED: u8 = 5;
pub const OVERFLOW: u8 = 6;
pub const NEGATIVE: u8 = 7;

/// The processor status register, packed as `NV_BDIZC`.
#[derive(Clone, Copy, Debug, PartialEq, Eq, Structural)]
pub struct Flags {
    pub bits: u8,
}

impl Flags {
    /// The power-on status: interrupts disabled, unused bit set.
    pub fn new() -> (r: Self)
        ensures
            r.bits == 0x24,
    {
        Flags { bits: 0x24 }
    }

    pub fn set_bit(&mut self, bit: u8, value: bool)
        requires
            bit < 8,
        ensures
            final(self).bits == with_bit(old(self).bits, bit, value),
    {
        if value {
            self.bits = self.bits | (1u8 << bit);
        } else {
            self.bits = self.bits & !(1u8 << bit);
        }
    }

    pub fn get_bit(&self, bit: u8) -> (r: bool)
        requires
            bit < 8,
        ensures
            r == has_bit(self.bits, bit),
    {
        (self.bits & (1u8 << bit)) != 0
    }

    pub fn carry(&self) -> (r: bool)
        ensures
            r == has_bit(self.bits, CARRY),
    {
        self.get_bit(CARRY)
    }

    pub fn zero(&self) -> (r: bool)
        ensures
            r == has_bit(self.bits, ZERO),
    {
        self.get_bit(ZERO)
    }

    pub fn interrupt(&self) -> (r: bool)
        ensures
            r == has_bit(self.bits, INTERRUPT),
    {
        self.get_bit(INTERRUPT)
    }

    pub fn decimal(&self) -> (r: bool)
        ensures
            r == has_bit(self.bits, DECIMAL),
    {
        self.get_bit(DECIMAL)
    }

    pub fn bflag(&self) -> (r: bool)
        ensures
            r == has_bit(self.bits, BREAK),
    {
        self.get_bit(BREAK)
    }

    pub fn uflag(&self) -> (r: bool)
        ensures
            r == has_bit(self.bits, UNUSED),
    {
        self.get_bit(UNUSED)
    }

    pub fn overflow(&self) -> (r: bool)
        ensures
            r == has_bit(self.bits, OVERFLOW),
    {
        self.get_bit(OVERFLOW)
    }

    pub fn negative(&self) -> (r: bool)
        ensures
            r == has_bit(self.bits, NEGATIVE),
    {
        self.get_bit(NEGATIVE)
    }

    pub fn set_carry(&mut self, value: bool)
        ensures
            final(self).bits == with_bit(old(self).bits, CARRY, value),
    {
        self.set_bit(CARRY, value);
    }

    pub fn set_zero(&mut self, value: bool)
        ensures
            final(self).bits == with_bit(old(self).bits, ZERO, value),
    {
        self.set_bit(ZERO, value);
    }

    pub fn set_int(&mut self, value: bool)
        ensures
            final(self).bits == with_bit(old(self).bits, INTERRUPT, value),
    {
        self.set_bit(INTERRUPT, value);
    }

    pub fn set_decimal(&mut self, value: bool)
        ensures
            final(self).bits == with_bit(old(self).bits, DECIMAL, value),
    {
        self.set_bit(DECIMAL, value);
    }

    pub fn set_bflag(&mut self, value: bool)
        ensures
            final(self).bits == with_bit(old(self).bits, BREAK, value),
    {
        self.set_bit(BREAK, value);
    }

    pub fn set_uflag(&mut self, value: bool)
        ensures
            final(self).bits == with_bit(old(self).bits, UNUSED, value),
    {
        self.set_bit(UNUSED, value);
    }

    pub fn set_overflow(&mut self, value: bool)
        ensures
            final(self).bits == with_bit(old(self).bits, OVERFLOW, value),
    {
        self.set_bit(OVERFLOW, value);
    }

    pub fn set_negative(&mut self, value: bool)
        ensures
            final(self).bits == with_bit(old(self).bits, NEGATIVE, value),
    {
        self.set_bit(NEGATIVE, value);
    }
}

} // verus!
