//! An instruction-set simulator for a 32-bit ARMv4T-class processor: instruction
//! decoding, the barrel shifter, the arithmetic and transfer semantics, the
//! mode-banked register file and an overlapped fetch/decode/execute pipeline.
//!
//! Every executable item is verified against its contract.

pub mod alu;
pub mod bits;
pub mod condition;
pub mod cpu;
pub mod disasm;
pub mod execute;
pub mod instruction;
pub mod memory;
pub mod pipeline;
pub mod registers;
pub mod shifter;

pub use alu::{alu_operate, check_add_overflow, check_carry, check_sub_overflow, AluOutput};
pub use bits::{get_bit_range, is_match_format, InstFormat, Word};
pub use cpu::{ARMv4T, Bus, BusAccess, BusRW, BusState, BusTrace, Fault, PipelineState};
pub use disasm::{disassemble, Mnemonic};
pub use instruction::{
    BlockDataTransfer, Branch, BranchExchange, CoProcessorDataOperation, CoProcessorDataTransfer,
    CoProcessorRegisterTransfer, ControlImmediate, ControlRegister, DataProcess,
    DecodedInstruction, InstKind, LoadStoreExtention, Multiply, SingleDataTransfer,
    SoftwareInterrupt,
};
pub use memory::MyMemory;
pub use registers::{BankedRegisters, CpsrFlags, ProcessorMode};
pub use shifter::{rotated_immediate, shift_by_immediate, shift_by_register, ShifterOperand};
