use vstd::prelude::*;
use crate::instruction::Instruction;

verus! {

/// The unit of storage in the backing array: either a raw 16-bit cell or the
/// decoded instruction cached in its place. A cached variant is only ever
/// produced from a prior raw cell at the same address, and any write to the
/// address demotes the slot back to a raw cell.
#[derive(Copy, Clone, PartialEq, Eq, Structural, Debug)]
pub enum MemoryField {
    InstructionCell(Instruction),
    MemoryCell(u16),
}

impl MemoryField {
    /// Checks whether this field holds a cached decoded instruction.
    pub fn is_instruction(&self) -> (r: bool)
        ensures
            r == (self is InstructionCell),
    {
        match *self {
            MemoryField::InstructionCell(_) => true,
            _ => false,
        }
    }

    /// Checks whether this field holds a raw 16-bit cell.
    pub fn is_memory(&self) -> (r: bool)
        ensures
            r == (self is MemoryCell),
    {
        match *self {
            MemoryField::MemoryCell(_) => true,
            _ => false,
        }
    }

    /// The cached instruction, if this field holds one.
    pub fn get_instruction(&self) -> (r: Option<Instruction>)
        ensures
            r == (match *self {
                MemoryField::InstructionCell(inst) => Some(inst),
                MemoryField::MemoryCell(_) => None::<Instruction>,
            }),
    {
        match *self {
            MemoryField::InstructionCell(inst) => Some(inst),
            _ => None,
        }
    }

    /// Overwrites the raw value of a memory cell; a cached instruction cell
    /// is left unchanged.
    pub fn set_cell_value(&mut self, value: u16)
        ensures
            *final(self) == (match *old(self) {
                MemoryField::MemoryCell(_) => MemoryField::MemoryCell(value),
                MemoryField::InstructionCell(inst) => MemoryField::InstructionCell(inst),
            }),
    {
        match *self {
            MemoryField::MemoryCell(_) => {
                *self = MemoryField::MemoryCell(value);
            },
            _ => (),
        }
    }

    /// The raw 16-bit value of a memory cell; 0 for a cached instruction.
    pub fn get_memory(&self) -> (r: u16)
        ensures
            r == (match *self {
                MemoryField::MemoryCell(x) => x,
                MemoryField::InstructionCell(_) => 0u16,
            }),
    {
        match *self {
            MemoryField::MemoryCell(x) => x,
            _ => 0,
        }
    }
}

} // verus!
