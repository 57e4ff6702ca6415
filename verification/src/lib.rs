//! Core interpreter of a Dreamcast-class emulator: a software model of the
//! SuperH-4 32-bit RISC processor, with a flat memory subsystem that folds
//! architectural mirrors, caches decoded instructions in place, and routes
//! memory-mapped I/O to peripherals over request/response channels.

pub use operand::Operand;
pub use instruction::Instruction;
pub use instruction::InstructionGroup;
pub use register::StatusRegister;
pub use register::GeneralRegister;
pub use register::FloatingPointRegister;
pub use memory_field::MemoryField;
pub use instruction_executer::InstructionExecuter;
pub use cpu::Cpu;
pub use cpu::FPSCR_MASK;
pub use memory::Memory;
pub use memory::MemoryRange;
pub use memory::MappedIO;
pub use bsc::Bsc;
pub use dsp::Dsp;

pub use instruction_decoder::InstructionDecoder;

pub mod bsc;
pub mod dsp;
pub mod memory;
pub mod mmio;
pub mod operand;

pub mod instruction;
pub mod instruction_executer;
pub mod cpu;

pub mod instruction_decoder;
pub mod memory_field;
pub mod register;

