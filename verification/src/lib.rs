//! A verified x64 meta-assembler.
//!
//! The crate has two halves. The runtime half models x64 instructions --
//! registers, immediates, memory operands -- and encodes them into a byte
//! sink following the Intel/AMD64 encoding rules (legacy prefixes, REX,
//! opcode, ModR/M, SIB, displacement, immediate). The build-time half is a
//! small DSL describing instruction formats and encodings, plus a code
//! generator that turns an instruction table into the runtime instruction
//! library.

#![allow(non_camel_case_types)]

pub mod abi;
pub mod builders;
pub mod dsl;
pub mod encoding;
pub mod external;
pub mod feat;
pub mod gc;
pub mod generate;
pub mod imm;
pub mod inst;
pub mod instructions;
pub mod map;
pub mod mpk;
pub mod mem;
pub mod reg;
pub mod text;
pub mod visit;
pub mod rex;
pub mod sink;

pub use feat::AvailableFeatures;
pub use inst::{Flag, Inst, PlainRegisters};
pub use imm::{Extension, Imm16, Imm32, Imm8, Simm32, Simm32PlusKnownOffset};
pub use mem::{emit_modrm_sib_disp, Amode, GprMem, Scale};
pub use reg::{AsReg, Gpr, MinusRsp, Size};
pub use visit::{OperandVisitor, Registers, VisitKind};
pub use sink::{ByteBuffer, CodeSink, KnownOffset, KnownOffsetTable, Label, TrapCode};
