//! The instruction description language: CPU features, operand formats, and
//! encoding recipes, from which the instruction library is generated.

pub mod encoding;
pub mod features;
pub mod format;

pub use encoding::{inst, rex, Encoding, Inst, LegacyPrefixes, Rex};
pub use features::{Features, Flag};
pub use format::{fmt, r, rw, sxl, sxq, sxw, Extension, Format, Location, Mutability, Operand,
    OperandKind};
