use vstd::prelude::*;

verus! {

/// A 32-bit general-purpose register.
#[derive(Copy, Clone, PartialEq, Eq, Structural, Debug)]
pub struct GeneralRegister {
    pub value: u32,
}

/// A floating-point register. The interpreter transfers these registers as
/// raw words, so the field holds the IEEE-754 binary32 bit pattern.
#[derive(Copy, Clone, PartialEq, Eq, Structural, Debug)]
pub struct FloatingPointRegister {
    pub value: u32,
}

/// The 32-bit status register, with accessors for its architectural bits:
/// privileged (bit 30), banked (bit 29), interrupt (bit 28), FPU disabled
/// (bit 15), M (bit 9), Q (bit 8), interrupt mask (bits 5-6), saturation
/// (bit 1) and T/carry (bit 0).
#[derive(Copy, Clone, PartialEq, Eq, Structural, Debug)]
pub struct StatusRegister {
    pub value: u32,
}

impl StatusRegister {
    pub fn is_user_mode(&self) -> (r: bool)
        ensures
            r == (self.value & 0x4000_0000u32 == 0),
    {
        self.value & 0x4000_0000u32 == 0
    }

    pub fn is_privileged(&self) -> (r: bool)
        ensures
            r == (self.value & 0x4000_0000u32 != 0),
    {
        self.value & 0x4000_0000u32 > 0
    }

    pub fn is_banked(&self) -> (r: bool)
        ensures
            r == (self.value & 0x2000_0000u32 != 0),
    {
        self.value & 0x2000_0000u32 > 0
    }

    pub fn is_interrupt(&self) -> (r: bool)
        ensures
            r == (self.value & 0x1000_0000u32 != 0),
    {
        self.value & 0x1000_0000u32 > 0
    }

    pub fn is_fpu_disabled(&self) -> (r: bool)
        ensures
            r == (self.value & 0x8000u32 != 0),
    {
        self.value & 0x8000u32 > 0
    }

    pub fn is_m(&self) -> (r: bool)
        ensures
            r == (self.value & 0x200u32 != 0),
    {
        self.value & 0x200u32 > 0
    }

    pub fn is_q(&self) -> (r: bool)
        ensures
            r == (self.value & 0x100u32 != 0),
    {
        self.value & 0x100u32 > 0
    }

    /// The two-bit interrupt mask field, bits 5 and 6.
    pub fn imask(&self) -> (r: u8)
        ensures
            r == ((self.value & 0x60u32) >> 5u32) as u8,
    {
        ((self.value & 0x60u32) >> 5u32) as u8
    }

    pub fn is_saturated(&self) -> (r: bool)
        ensures
            r == (self.value & 0x2u32 != 0),
    {
        self.value & 0x2 > 0
    }

    pub fn set_saturated_cond(&mut self, val: bool)
        ensures
            final(self).value == (if val {
                old(self).value | 0x2u32
            } else {
                old(self).value & 0xFFFF_FFFDu32
            }),
    {
        if val {
            self.value = self.value | 2;
        } else {
            self.value = self.value & 0xFFFFFFFD;
        }
    }

    /// The T bit: target of compares, shifted-out bits and carries, and the
    /// condition for conditional branches.
    pub fn is_carry(&self) -> (r: bool)
        ensures
            r == (self.value & 0x1u32 != 0),
    {
        self.value & 0x1 > 0
    }

    pub fn set_carry_cond(&mut self, val: bool)
        ensures
            final(self).value == (if val {
                old(self).value | 0x1u32
            } else {
                old(self).value & 0xFFFF_FFFEu32
            }),
    {
        if val {
            self.value = self.value | 1;
        } else {
            self.value = self.value & 0xFFFFFFFE;
        }
    }
}

} // verus!
