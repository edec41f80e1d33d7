//! Per-operand fragments of generated code.

use vstd::prelude::*;
use vstd::string::StringExecFns;
use crate::dsl::format::{location_text, Extension, Location, Mutability};

verus! {

/// The generated Rust type of an operand location, if it has one: fixed
/// registers convey nothing beyond their location and have no field.
pub open spec fn spec_generate_type(l: Location, generic: Option<Seq<char>>) -> Option<
    Seq<char>,
> {
    let gen = match generic {
        Some(ty) => "<"@ + ty + ">"@,
        None => Seq::<char>::empty(),
    };
    match l {
        Location::al | Location::ax | Location::eax | Location::rax => None,
        Location::imm8 => Some("Imm8"@),
        Location::imm16 => Some("Imm16"@),
        Location::imm32 => Some("Imm32"@),
        Location::r8 | Location::r16 | Location::r32 | Location::r64 => Some("Gpr"@ + gen),
        Location::rm8 | Location::rm16 | Location::rm32 | Location::rm64 => Some("GprMem"@ + gen),
    }
}

impl Location {
    /// The generated Rust type of this location, if it has one.
    pub fn generate_type(&self, generic: Option<&str>) -> (r: Option<String>)
        ensures
            r matches Some(s) ==> Some(s@) == spec_generate_type(
                *self,
                match generic {
                    Some(g) => Some(g@),
                    None => None,
                },
            ),
            r is Some <==> spec_generate_type(
                *self,
                match generic {
                    Some(g) => Some(g@),
                    None => None,
                },
            ) is Some,
    {
        let mut gen = String::new();
        match generic {
            Some(ty) => {
                gen.append("<");
                gen.append(ty);
                gen.append(">");
            },
            None => {
            },
        }
        match self {
            Location::al | Location::ax | Location::eax | Location::rax => None,
            Location::imm8 => {
                let mut s = String::new();
                s.append("Imm8");
                Some(s)
            },
            Location::imm16 => {
                let mut s = String::new();
                s.append("Imm16");
                Some(s)
            },
            Location::imm32 => {
                let mut s = String::new();
                s.append("Imm32");
                Some(s)
            },
            Location::r8 | Location::r16 | Location::r32 | Location::r64 => {
                let mut s = String::new();
                s.append("Gpr");
                s.append(gen.as_str());
                Some(s)
            },
            Location::rm8 | Location::rm16 | Location::rm32 | Location::rm64 => {
                let mut s = String::new();
                s.append("GprMem");
                s.append(gen.as_str());
                Some(s)
            },
        }
    }

    /// The generated expression rendering this operand as text.
    pub open spec fn spec_generate_to_string(l: Location, extension: Extension) -> Seq<char> {
        match l {
            Location::al => "\"%al\""@,
            Location::ax => "\"%ax\""@,
            Location::eax => "\"%eax\""@,
            Location::rax => "\"%rax\""@,
            Location::imm8 | Location::imm16 | Location::imm32 => "self."@ + location_text(l)
                + ".to_string("@ + spec_generate_variant(extension) + ")"@,
            _ => "self."@ + location_text(l) + ".to_string("@ + spec_generate_size_text(l) + ")"@,
        }
    }

    /// The generated expression rendering this operand as text.
    pub fn generate_to_string(&self, extension: Extension) -> (r: String)
        ensures
            r@ == Location::spec_generate_to_string(*self, extension),
    {
        let mut s = String::new();
        match self {
            Location::al => s.append("\"%al\""),
            Location::ax => s.append("\"%ax\""),
            Location::eax => s.append("\"%eax\""),
            Location::rax => s.append("\"%rax\""),
            Location::imm8 | Location::imm16 | Location::imm32 => {
                s.append("self.");
                s.append(self.to_string());
                s.append(".to_string(");
                s.append(extension.generate_variant());
                s.append(")");
            },
            Location::r8 | Location::r16 | Location::r32 | Location::r64 | Location::rm8
                | Location::rm16 | Location::rm32 | Location::rm64 => {
                s.append("self.");
                s.append(self.to_string());
                s.append(".to_string(");
                s.append(generate_size_str(*self));
                s.append(")");
            },
        }
        s
    }

    /// The generated `Size` of a register or register-or-memory location.
    pub open spec fn spec_generate_size(l: Location) -> Option<Seq<char>> {
        match l {
            Location::r8 | Location::rm8 => Some("Size::Byte"@),
            Location::r16 | Location::rm16 => Some("Size::Word"@),
            Location::r32 | Location::rm32 => Some("Size::Doubleword"@),
            Location::r64 | Location::rm64 => Some("Size::Quadword"@),
            _ => None,
        }
    }

    /// The generated `Size` of this location, if it is sized.
    pub fn generate_size(&self) -> (r: Option<&'static str>)
        ensures
            (match r {
                Some(s) => Some(s@),
                None => None,
            }) == Location::spec_generate_size(*self),
    {
        match self {
            Location::r8 | Location::rm8 => Some("Size::Byte"),
            Location::r16 | Location::rm16 => Some("Size::Word"),
            Location::r32 | Location::rm32 => Some("Size::Doubleword"),
            Location::r64 | Location::rm64 => Some("Size::Quadword"),
            _ => None,
        }
    }

    /// The generated constant for a fixed register, if this location is one.
    pub fn generate_fixed_reg(&self) -> (r: Option<&'static str>)
        ensures
            r matches Some(s) ==> s@ == "reg::ENC_RAX"@,
            r is Some <==> (*self == Location::al || *self == Location::ax || *self
                == Location::eax || *self == Location::rax),
    {
        match self {
            Location::al | Location::ax | Location::eax | Location::rax => Some("reg::ENC_RAX"),
            _ => None,
        }
    }
}

/// The generated `Size` of a sized location, or nothing.
pub open spec fn spec_generate_size_text(l: Location) -> Seq<char> {
    match Location::spec_generate_size(l) {
        Some(s) => s,
        None => Seq::<char>::empty(),
    }
}

/// The generated `Size` of a sized location.
fn generate_size_str(l: Location) -> (r: &'static str)
    ensures
        r@ == spec_generate_size_text(l),
{
    proof {
        reveal_strlit("");
    }
    match l {
        Location::r8 | Location::rm8 => "Size::Byte",
        Location::r16 | Location::rm16 => "Size::Word",
        Location::r32 | Location::rm32 => "Size::Doubleword",
        Location::r64 | Location::rm64 => "Size::Quadword",
        _ => "",
    }
}

impl Mutability {
    /// The visitor method generated for this mutability.
    pub fn generate_regalloc_call(&self) -> (r: &'static str)
        ensures
            r@ == spec_generate_regalloc_call(*self),
    {
        match self {
            Mutability::Read => "read",
            Mutability::ReadWrite => "read_write",
        }
    }
}

/// The visitor method generated for a mutability.
pub open spec fn spec_generate_regalloc_call(m: Mutability) -> Seq<char> {
    match m {
        Mutability::Read => "read"@,
        Mutability::ReadWrite => "read_write"@,
    }
}

/// The generated `Extension` variant for an extension policy.
pub open spec fn spec_generate_variant(e: Extension) -> Seq<char> {
    match e {
        Extension::NoExtend => "Extension::NoExtend"@,
        Extension::SignExtendWord => "Extension::SignExtendWord"@,
        Extension::SignExtendLong => "Extension::SignExtendLong"@,
        Extension::SignExtendQuad => "Extension::SignExtendQuad"@,
        Extension::ZeroExtend => "Extension::ZeroExtend"@,
    }
}

impl Extension {
    /// The generated `Extension` variant for this policy.
    pub fn generate_variant(&self) -> (r: &'static str)
        ensures
            r@ == spec_generate_variant(*self),
    {
        match self {
            Extension::NoExtend => "Extension::NoExtend",
            Extension::SignExtendWord => "Extension::SignExtendWord",
            Extension::SignExtendLong => "Extension::SignExtendLong",
            Extension::SignExtendQuad => "Extension::SignExtendQuad",
            Extension::ZeroExtend => "Extension::ZeroExtend",
        }
    }
}

} // verus!

verus! {

/// Whether a location has a generated type does not depend on the generic
/// parameter spliced into that type.
pub proof fn lemma_generate_type_someness(l: Location, g1: Option<Seq<char>>, g2: Option<Seq<char>>)
    ensures
        spec_generate_type(l, g1) is Some <==> spec_generate_type(l, g2) is Some,
{
    match l {
        Location::al => {
        },
        Location::ax => {
        },
        Location::eax => {
        },
        Location::rax => {
        },
        Location::imm8 => {
        },
        Location::imm16 => {
        },
        Location::imm32 => {
        },
        Location::r8 => {
        },
        Location::r16 => {
        },
        Location::r32 => {
        },
        Location::r64 => {
        },
        Location::rm8 => {
        },
        Location::rm16 => {
        },
        Location::rm32 => {
        },
        Location::rm64 => {
        },
    }
}

} // verus!
