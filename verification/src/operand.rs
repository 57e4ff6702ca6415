use vstd::prelude::*;

verus! {

/// An operand of a decoded instruction: a tagged 8-bit value.
#[derive(Copy, Clone, PartialEq, Eq, Structural, Debug)]
pub enum Operand {
    /// A general register operand, represented by its index.
    /// Banking is handled by the CPU when the register is resolved.
    RegisterOperand(u8),
    /// An immediate value/constant.
    ImmediateOperand(u8),
    /// A displacement, an offset of a memory address.
    DisplacementOperand(u8),
}

/// The 8-bit payload carried by an operand, whatever its tag.
pub open spec fn operand_value(op: Operand) -> u8 {
    match op {
        Operand::RegisterOperand(v) => v,
        Operand::ImmediateOperand(v) => v,
        Operand::DisplacementOperand(v) => v,
    }
}

impl Operand {
    /// Checks if the operand is a register.
    pub fn is_register(&self) -> (r: bool)
        ensures
            r == (self is RegisterOperand),
    {
        match *self {
            Operand::RegisterOperand(_) => true,
            _ => false,
        }
    }

    /// Checks if the operand is an immediate value.
    pub fn is_immediate(&self) -> (r: bool)
        ensures
            r == (self is ImmediateOperand),
    {
        match *self {
            Operand::ImmediateOperand(_) => true,
            _ => false,
        }
    }

    /// Checks if the operand is a displacement constant.
    pub fn is_displacement(&self) -> (r: bool)
        ensures
            r == (self is DisplacementOperand),
    {
        match *self {
            Operand::DisplacementOperand(_) => true,
            _ => false,
        }
    }

    /// Spec view of `unwrap`.
    pub open spec fn spec_unwrap(&self) -> u8 {
        operand_value(*self)
    }

    /// Akin to `Option::unwrap`: extracts the payload from the operand.
    /// Possible because all three variants carry a `u8`.
    #[verifier::when_used_as_spec(spec_unwrap)]
    pub fn unwrap(&self) -> (r: u8)
        ensures
            r == operand_value(*self),
    {
        match *self {
            Operand::RegisterOperand(v) => v,
            Operand::ImmediateOperand(v) => v,
            Operand::DisplacementOperand(v) => v,
        }
    }
}

} // verus!
