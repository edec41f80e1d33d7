//! Encoding recipes for the REX instruction format: legacy prefixes, the
//! REX.W bit, the opcode, an optional opcode-extension digit, and the
//! immediate width.

use vstd::prelude::*;
use crate::dsl::features::Features;
use crate::dsl::format::Format;

verus! {

/// The legacy prefix bytes an instruction carries, if any.
#[derive(Clone, Copy, Debug, PartialEq, Eq, Structural)]
pub enum LegacyPrefixes {
    /// No prefix.
    NoPrefix,
    /// `0x66`: operand-size override.
    _66,
    /// `0xF0`: lock.
    _F0,
    /// `0x66 0xF0`.
    _66F0,
    /// `0xF2`.
    _F2,
    /// `0xF3`.
    _F3,
    /// `0x66 0xF3`.
    _66F3,
}

/// The bytes of a legacy prefix.
pub open spec fn prefix_bytes(p: LegacyPrefixes) -> Seq<u8> {
    match p {
        LegacyPrefixes::NoPrefix => Seq::<u8>::empty(),
        LegacyPrefixes::_66 => seq![0x66u8],
        LegacyPrefixes::_F0 => seq![0xf0u8],
        LegacyPrefixes::_66F0 => seq![0x66u8, 0xf0u8],
        LegacyPrefixes::_F2 => seq![0xf2u8],
        LegacyPrefixes::_F3 => seq![0xf3u8],
        LegacyPrefixes::_66F3 => seq![0x66u8, 0xf3u8],
    }
}

/// A REX-format encoding recipe.
#[derive(Clone, Copy, Debug, PartialEq, Eq, Structural)]
pub struct Rex {
    /// The legacy prefix, if any.
    pub prefixes: LegacyPrefixes,
    /// The opcode byte.
    pub opcode: u8,
    /// Whether the REX.W bit is set.
    pub w: bool,
    /// The opcode-extension digit placed in ModR/M `reg`, if any.
    pub digit: Option<u8>,
    /// The immediate width in bytes (`ib`/`iw`/`id`), if any.
    pub imm: Option<u8>,
    /// Whether the register operand fills ModR/M `reg`.
    pub r: bool,
}

/// Begin a REX-format recipe for `opcode`.
pub fn rex(opcode: u8) -> (r: Rex)
    ensures
        r == (Rex {
            prefixes: LegacyPrefixes::NoPrefix,
            opcode,
            w: false,
            digit: None,
            imm: None,
            r: false,
        }),
{
    Rex { prefixes: LegacyPrefixes::NoPrefix, opcode, w: false, digit: None, imm: None, r: false }
}

impl Rex {
    /// Set the legacy prefix.
    pub fn prefix(self, prefixes: LegacyPrefixes) -> (r: Rex)
        ensures
            r == (Rex { prefixes, ..self }),
    {
        Rex { prefixes, ..self }
    }

    /// Set the REX.W bit.
    pub fn w(self) -> (r: Rex)
        ensures
            r == (Rex { w: true, ..self }),
    {
        Rex { w: true, ..self }
    }

    /// Place the opcode-extension digit `digit` in ModR/M `reg`.
    pub fn digit(self, digit: u8) -> (r: Rex)
        requires
            digit < 8,
        ensures
            r == (Rex { digit: Some(digit), ..self }),
    {
        Rex { digit: Some(digit), ..self }
    }

    /// Declare a one-byte immediate.
    pub fn ib(self) -> (r: Rex)
        ensures
            r == (Rex { imm: Some(1u8), ..self }),
    {
        Rex { imm: Some(1), ..self }
    }

    /// Declare a two-byte immediate.
    pub fn iw(self) -> (r: Rex)
        ensures
            r == (Rex { imm: Some(2u8), ..self }),
    {
        Rex { imm: Some(2), ..self }
    }

    /// Declare a four-byte immediate.
    pub fn id(self) -> (r: Rex)
        ensures
            r == (Rex { imm: Some(4u8), ..self }),
    {
        Rex { imm: Some(4), ..self }
    }

    /// Declare that the register operand fills ModR/M `reg`.
    pub fn r(self) -> (r: Rex)
        ensures
            r == (Rex { r: true, ..self }),
    {
        Rex { r: true, ..self }
    }
}

/// An encoding recipe; only the REX format is described here.
#[derive(Debug)]
pub enum Encoding {
    Rex(Rex),
}

/// One instruction definition: a mnemonic, an operand format, an encoding
/// recipe, and a feature requirement.
#[derive(Debug)]
pub struct Inst {
    pub name: String,
    pub format: Format,
    pub encoding: Encoding,
    pub features: Features,
}

/// Build an instruction definition; an absent feature requirement means the
/// instruction is always available.
pub fn inst(name: &str, format: Format, encoding: Rex, features: Option<Features>) -> (r: Inst)
    ensures
        r.name@ == name@,
        r.format == format,
        r.encoding == Encoding::Rex(encoding),
        r.features == (match features {
            Some(f) => f,
            None => Features::Always,
        }),
{
    let features = match features {
        Some(f) => f,
        None => Features::Always,
    };
    Inst { name: name.to_owned(), format, encoding: Encoding::Rex(encoding), features }
}

} // verus!

use vstd::string::StringExecFns;
use crate::dsl::format::format_text;

verus! {

/// The displayed form of an instruction definition: its mnemonic and its
/// format.
pub open spec fn dsl_inst_text(name: Seq<char>, i: Inst) -> Seq<char> {
    name + ": "@ + format_text(i.format.name@, i.format.operands@)
}

impl Inst {
    /// The displayed form of this definition.
    pub fn to_string(&self) -> (r: String)
        ensures
            r@ == dsl_inst_text(self.name@, *self),
    {
        let mut s = self.name.clone();
        s.append(": ");
        let fmt = self.format.to_string();
        s.append(fmt.as_str());
        s
    }
}

} // verus!
