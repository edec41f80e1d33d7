//! Immediate operands to instructions.

use vstd::prelude::*;
use crate::sink::{KnownOffset, KnownOffsetTable};

verus! {

/// How an immediate is widened when displayed. The byte stream is unaffected:
/// the emitted width is fixed by the instruction's encoding recipe.
#[derive(Clone, Copy, Debug, PartialEq, Eq, Structural)]
pub enum Extension {
    /// Display the raw value.
    NoExtend,
    /// Display the value sign-extended to 64 bits.
    SignExtendQuad,
    /// Display the value sign-extended to 32 bits.
    SignExtendLong,
    /// Display the value sign-extended to 16 bits.
    SignExtendWord,
    /// Display the value zero-extended.
    ZeroExtend,
}

/// An 8-bit immediate.
#[derive(Clone, Copy, Debug, PartialEq, Eq, Structural)]
pub struct Imm8(pub u8);

impl Imm8 {
    /// Wrap the raw bits.
    pub fn new(v: u8) -> (r: Imm8)
        ensures
            r == (Imm8(v)),
    {
        Imm8(v)
    }

    /// The raw bits.
    pub fn value(&self) -> (r: u8)
        ensures
            r == self.0,
    {
        self.0
    }
}

/// A 16-bit immediate.
#[derive(Clone, Copy, Debug, PartialEq, Eq, Structural)]
pub struct Imm16(pub u16);

impl Imm16 {
    /// Wrap the raw bits.
    pub fn new(v: u16) -> (r: Imm16)
        ensures
            r == (Imm16(v)),
    {
        Imm16(v)
    }

    /// The raw bits.
    pub fn value(&self) -> (r: u16)
        ensures
            r == self.0,
    {
        self.0
    }
}

/// A 32-bit immediate.
#[derive(Clone, Copy, Debug, PartialEq, Eq, Structural)]
pub struct Imm32(pub u32);

impl Imm32 {
    /// Wrap the raw bits.
    pub fn new(v: u32) -> (r: Imm32)
        ensures
            r == (Imm32(v)),
    {
        Imm32(v)
    }

    /// The raw bits.
    pub fn value(&self) -> (r: u32)
        ensures
            r == self.0,
    {
        self.0
    }
}

/// A signed 32-bit immediate, used for displacements.
#[derive(Clone, Copy, Debug, PartialEq, Eq, Structural)]
pub struct Simm32(pub i32);

impl Simm32 {
    /// Wrap the value.
    pub fn new(v: i32) -> (r: Simm32)
        ensures
            r == (Simm32(v)),
    {
        Simm32(v)
    }

    /// The value.
    pub fn value(&self) -> (r: i32)
        ensures
            r == self.0,
    {
        self.0
    }
}

/// A signed 32-bit displacement plus an optional late-bound component, looked
/// up by key in a table the caller supplies at encode time.
#[derive(Clone, Copy, Debug, PartialEq, Eq, Structural)]
pub struct Simm32PlusKnownOffset {
    /// The displacement part known at construction time.
    pub simm32: Simm32,
    /// The key of the late-bound component, if any.
    pub offset: Option<KnownOffset>,
}

impl Simm32PlusKnownOffset {
    /// The effective displacement once `offsets` resolves the late-bound
    /// component: the key's value plus the constant part, which must not
    /// overflow `i32`.
    pub open spec fn spec_value(&self, offsets: Seq<i32>) -> int {
        self.simm32.0 + match self.offset {
            Some(k) => offsets[k as int] as int,
            None => 0,
        }
    }

    /// Whether resolution against `offsets` is possible: the key is in range
    /// and the sum does not overflow.
    pub open spec fn can_resolve(&self, offsets: Seq<i32>) -> bool {
        &&& match self.offset {
            Some(k) => k < offsets.len(),
            None => true,
        }
        &&& i32::MIN <= self.spec_value(offsets) <= i32::MAX
    }

    /// Resolve the effective displacement.
    pub fn value<T: KnownOffsetTable>(&self, offsets: &T) -> (r: i32)
        requires
            self.can_resolve(offsets.offsets()),
        ensures
            r == self.spec_value(offsets.offsets()),
    {
        let offset: i32 = match self.offset {
            Some(k) => offsets.index(k),
            None => 0,
        };
        self.simm32.0 + offset
    }
}

} // verus!

use crate::text::{ascii_view, dollar_hex, spec_dollar_hex};

verus! {

/// The displayed text of [`Imm8`] under each extension policy: the raw bits
/// widened to the display width, spelled as a `$`-prefixed hexadecimal
/// number of that width.
pub open spec fn imm8_display(v: u8, extend: Extension) -> Seq<char> {
    match extend {
        Extension::SignExtendQuad => spec_dollar_hex(v as i8 as i64 as u64),
        Extension::SignExtendLong => spec_dollar_hex(v as i8 as i32 as u32 as u64),
        Extension::SignExtendWord => spec_dollar_hex(v as i8 as i16 as u16 as u64),
        Extension::ZeroExtend => spec_dollar_hex(v as u64),
        Extension::NoExtend => spec_dollar_hex(v as u64),
    }
}

/// The displayed text of [`Imm16`] under each extension policy.
pub open spec fn imm16_display(v: u16, extend: Extension) -> Seq<char> {
    match extend {
        Extension::SignExtendQuad => spec_dollar_hex(v as i16 as i64 as u64),
        Extension::SignExtendLong => spec_dollar_hex(v as i16 as i32 as u32 as u64),
        Extension::SignExtendWord => spec_dollar_hex(v as u64),
        Extension::ZeroExtend => spec_dollar_hex(v as u64),
        Extension::NoExtend => spec_dollar_hex(v as u64),
    }
}

/// The displayed text of [`Imm32`] under each extension policy; there is no
/// narrower width to sign-extend a doubleword to.
pub open spec fn imm32_display(v: u32, extend: Extension) -> Seq<char> {
    match extend {
        Extension::SignExtendQuad => spec_dollar_hex(v as i32 as i64 as u64),
        Extension::SignExtendLong => spec_dollar_hex(v as u64),
        Extension::SignExtendWord => spec_dollar_hex(v as u64),
        Extension::ZeroExtend => spec_dollar_hex(v as u64),
        Extension::NoExtend => spec_dollar_hex(v as u64),
    }
}

impl Imm8 {
    /// The displayed text of this immediate under `extend`.
    pub fn to_string(&self, extend: Extension) -> (r: String)
        ensures
            r@ == imm8_display(self.0, extend),
    {
        match extend {
            Extension::SignExtendQuad => dollar_hex(self.0 as i8 as i64 as u64),
            Extension::SignExtendLong => dollar_hex(self.0 as i8 as i32 as u32 as u64),
            Extension::SignExtendWord => dollar_hex(self.0 as i8 as i16 as u16 as u64),
            Extension::ZeroExtend => dollar_hex(self.0 as u64),
            Extension::NoExtend => dollar_hex(self.0 as u64),
        }
    }
}

impl Imm16 {
    /// The displayed text of this immediate under `extend`.
    pub fn to_string(&self, extend: Extension) -> (r: String)
        ensures
            r@ == imm16_display(self.0, extend),
    {
        match extend {
            Extension::SignExtendQuad => dollar_hex(self.0 as i16 as i64 as u64),
            Extension::SignExtendLong => dollar_hex(self.0 as i16 as i32 as u32 as u64),
            Extension::SignExtendWord => dollar_hex(self.0 as u64),
            Extension::ZeroExtend => dollar_hex(self.0 as u64),
            Extension::NoExtend => dollar_hex(self.0 as u64),
        }
    }
}

impl Imm32 {
    /// The displayed text of this immediate under `extend`.
    pub fn to_string(&self, extend: Extension) -> (r: String)
        ensures
            r@ == imm32_display(self.0, extend),
    {
        match extend {
            Extension::SignExtendQuad => dollar_hex(self.0 as i32 as i64 as u64),
            Extension::SignExtendLong => dollar_hex(self.0 as u64),
            Extension::SignExtendWord => dollar_hex(self.0 as u64),
            Extension::ZeroExtend => dollar_hex(self.0 as u64),
            Extension::NoExtend => dollar_hex(self.0 as u64),
        }
    }
}

} // verus!
