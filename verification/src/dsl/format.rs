//! Instruction operand formats: which locations an instruction reads and
//! writes, and how immediates are widened for display.

use vstd::prelude::*;
use vstd::string::StringExecFns;

verus! {

/// An operand location: a fixed register, an immediate slot, a general
/// register slot, or a register-or-memory slot, each at a fixed width.
#[derive(Clone, Copy, Debug, PartialEq, Eq, Structural)]
pub enum Location {
    al,
    ax,
    eax,
    rax,
    imm8,
    imm16,
    imm32,
    r8,
    r16,
    r32,
    r64,
    rm8,
    rm16,
    rm32,
    rm64,
}

/// The bit width of an operand location.
pub open spec fn spec_loc_bits(l: Location) -> u8 {
    match l {
        Location::al | Location::imm8 | Location::r8 | Location::rm8 => 8,
        Location::ax | Location::imm16 | Location::r16 | Location::rm16 => 16,
        Location::eax | Location::imm32 | Location::r32 | Location::rm32 => 32,
        Location::rax | Location::r64 | Location::rm64 => 64,
    }
}

/// Whether an operand location can name memory.
pub open spec fn spec_loc_uses_memory(l: Location) -> bool {
    match l {
        Location::rm8 | Location::rm16 | Location::rm32 | Location::rm64 => true,
        _ => false,
    }
}

/// The displayed name of an operand location.
pub open spec fn location_text(l: Location) -> Seq<char> {
    match l {
        Location::al => "al"@,
        Location::ax => "ax"@,
        Location::eax => "eax"@,
        Location::rax => "rax"@,
        Location::imm8 => "imm8"@,
        Location::imm16 => "imm16"@,
        Location::imm32 => "imm32"@,
        Location::r8 => "r8"@,
        Location::r16 => "r16"@,
        Location::r32 => "r32"@,
        Location::r64 => "r64"@,
        Location::rm8 => "rm8"@,
        Location::rm16 => "rm16"@,
        Location::rm32 => "rm32"@,
        Location::rm64 => "rm64"@,
    }
}

/// The class of an operand location, with the location itself attached.
#[derive(Clone, Copy, Debug, PartialEq, Eq, Structural)]
pub enum OperandKind {
    FixedReg(Location),
    Imm(Location),
    Reg(Location),
    RegMem(Location),
}

/// The class of an operand location.
pub open spec fn spec_loc_kind(l: Location) -> OperandKind {
    match l {
        Location::al | Location::ax | Location::eax | Location::rax => OperandKind::FixedReg(l),
        Location::imm8 | Location::imm16 | Location::imm32 => OperandKind::Imm(l),
        Location::r8 | Location::r16 | Location::r32 | Location::r64 => OperandKind::Reg(l),
        Location::rm8 | Location::rm16 | Location::rm32 | Location::rm64 => OperandKind::RegMem(l),
    }
}

impl Location {
    /// The bit width of this location.
    pub fn bits(&self) -> (r: u8)
        ensures
            r == spec_loc_bits(*self),
    {
        match self {
            Location::al | Location::imm8 | Location::r8 | Location::rm8 => 8,
            Location::ax | Location::imm16 | Location::r16 | Location::rm16 => 16,
            Location::eax | Location::imm32 | Location::r32 | Location::rm32 => 32,
            Location::rax | Location::r64 | Location::rm64 => 64,
        }
    }

    /// The byte width of this location.
    pub fn bytes(&self) -> (r: u8)
        ensures
            r == spec_loc_bits(*self) / 8,
    {
        self.bits() / 8
    }

    /// Whether this location can name memory.
    pub fn uses_memory(&self) -> (r: bool)
        ensures
            r == spec_loc_uses_memory(*self),
    {
        match self {
            Location::rm8 | Location::rm16 | Location::rm32 | Location::rm64 => true,
            _ => false,
        }
    }

    /// The class of this location.
    pub fn kind(&self) -> (r: OperandKind)
        ensures
            r == spec_loc_kind(*self),
    {
        match self {
            Location::al | Location::ax | Location::eax | Location::rax => OperandKind::FixedReg(
                *self,
            ),
            Location::imm8 | Location::imm16 | Location::imm32 => OperandKind::Imm(*self),
            Location::r8 | Location::r16 | Location::r32 | Location::r64 => OperandKind::Reg(
                *self,
            ),
            Location::rm8 | Location::rm16 | Location::rm32 | Location::rm64 => OperandKind::RegMem(
                *self,
            ),
        }
    }

    /// The displayed name of this location.
    pub fn to_string(&self) -> (r: &'static str)
        ensures
            r@ == location_text(*self),
    {
        match self {
            Location::al => "al",
            Location::ax => "ax",
            Location::eax => "eax",
            Location::rax => "rax",
            Location::imm8 => "imm8",
            Location::imm16 => "imm16",
            Location::imm32 => "imm32",
            Location::r8 => "r8",
            Location::r16 => "r16",
            Location::r32 => "r32",
            Location::r64 => "r64",
            Location::rm8 => "rm8",
            Location::rm16 => "rm16",
            Location::rm32 => "rm32",
            Location::rm64 => "rm64",
        }
    }
}

/// Whether an instruction reads or also writes an operand.
#[derive(Clone, Copy, Debug, PartialEq, Eq, Structural)]
pub enum Mutability {
    Read,
    ReadWrite,
}

impl Default for Mutability {
    /// Operands are reads unless stated otherwise.
    fn default() -> (r: Self)
        ensures
            r == Mutability::Read,
    {
        Mutability::Read
    }
}

/// The displayed form of a mutability.
pub open spec fn mutability_text(m: Mutability) -> Seq<char> {
    match m {
        Mutability::Read => "r"@,
        Mutability::ReadWrite => "rw"@,
    }
}

/// How an immediate operand is widened for display.
#[derive(Clone, Copy, Debug, PartialEq, Eq, Structural)]
pub enum Extension {
    NoExtend,
    SignExtendWord,
    SignExtendLong,
    SignExtendQuad,
    ZeroExtend,
}

impl Default for Extension {
    /// Immediates display at their natural width unless stated otherwise.
    fn default() -> (r: Self)
        ensures
            r == Extension::NoExtend,
    {
        Extension::NoExtend
    }
}

/// The displayed form of an extension policy.
pub open spec fn extension_text(e: Extension) -> Seq<char> {
    match e {
        Extension::NoExtend => Seq::<char>::empty(),
        Extension::SignExtendWord => "sxw"@,
        Extension::SignExtendLong => "sxl"@,
        Extension::SignExtendQuad => "sxq"@,
        Extension::ZeroExtend => "zx"@,
    }
}

/// One operand of an instruction format.
#[derive(Clone, Copy, Debug, PartialEq, Eq, Structural)]
pub struct Operand {
    pub location: Location,
    pub mutability: Mutability,
    pub extension: Extension,
}

/// The displayed form of an operand: its location, with any non-default
/// mutability and extension in brackets.
pub open spec fn operand_text(o: Operand) -> Seq<char> {
    location_text(o.location) + (if o.mutability == Mutability::Read && o.extension
        == Extension::NoExtend {
        Seq::<char>::empty()
    } else if o.mutability == Mutability::Read {
        "["@ + extension_text(o.extension) + "]"@
    } else if o.extension == Extension::NoExtend {
        "["@ + mutability_text(o.mutability) + "]"@
    } else {
        "["@ + mutability_text(o.mutability) + ","@ + extension_text(o.extension) + "]"@
    })
}

impl Operand {
    /// The displayed form of this operand.
    pub fn to_string(&self) -> (r: String)
        ensures
            r@ == operand_text(*self),
    {
        let mut s = String::new();
        s.append(self.location.to_string());
        let read = matches!(self.mutability, Mutability::Read);
        let noext = matches!(self.extension, Extension::NoExtend);
        if read && noext {
        } else if read {
            s.append("[");
            s.append(extension_str(self.extension));
            s.append("]");
        } else if noext {
            s.append("[");
            s.append(mutability_str(self.mutability));
            s.append("]");
        } else {
            s.append("[");
            s.append(mutability_str(self.mutability));
            s.append(",");
            s.append(extension_str(self.extension));
            s.append("]");
        }
        s
    }
}

/// The displayed form of a mutability.
fn mutability_str(m: Mutability) -> (r: &'static str)
    ensures
        r@ == mutability_text(m),
{
    match m {
        Mutability::Read => "r",
        Mutability::ReadWrite => "rw",
    }
}

/// The displayed form of an extension policy.
fn extension_str(e: Extension) -> (r: &'static str)
    ensures
        r@ == extension_text(e),
{
    proof {
        reveal_strlit("");
    }
    match e {
        Extension::NoExtend => "",
        Extension::SignExtendWord => "sxw",
        Extension::SignExtendLong => "sxl",
        Extension::SignExtendQuad => "sxq",
        Extension::ZeroExtend => "zx",
    }
}

/// A read operand at `location`.
pub fn r(location: Location) -> (o: Operand)
    ensures
        o == (Operand {
            location,
            mutability: Mutability::Read,
            extension: Extension::NoExtend,
        }),
{
    Operand { location, mutability: Mutability::Read, extension: Extension::NoExtend }
}

/// A read-write operand at `location`.
pub fn rw(location: Location) -> (o: Operand)
    ensures
        o == (Operand {
            location,
            mutability: Mutability::ReadWrite,
            extension: Extension::NoExtend,
        }),
{
    Operand { location, mutability: Mutability::ReadWrite, extension: Extension::NoExtend }
}

/// A read operand displayed sign-extended to a word.
pub fn sxw(location: Location) -> (o: Operand)
    ensures
        o == (Operand {
            location,
            mutability: Mutability::Read,
            extension: Extension::SignExtendWord,
        }),
{
    Operand { location, mutability: Mutability::Read, extension: Extension::SignExtendWord }
}

/// A read operand displayed sign-extended to a long.
pub fn sxl(location: Location) -> (o: Operand)
    ensures
        o == (Operand {
            location,
            mutability: Mutability::Read,
            extension: Extension::SignExtendLong,
        }),
{
    Operand { location, mutability: Mutability::Read, extension: Extension::SignExtendLong }
}

/// A read operand displayed sign-extended to a quadword.
pub fn sxq(location: Location) -> (o: Operand)
    ensures
        o == (Operand {
            location,
            mutability: Mutability::Read,
            extension: Extension::SignExtendQuad,
        }),
{
    Operand { location, mutability: Mutability::Read, extension: Extension::SignExtendQuad }
}

/// An instruction format: a named list of operands.
#[derive(Debug)]
pub struct Format {
    pub name: String,
    pub operands: Vec<Operand>,
}

/// Build an instruction format.
pub fn fmt(name: &str, operands: Vec<Operand>) -> (f: Format)
    ensures
        f.name@ == name@,
        f.operands@ == operands@,
{
    Format { name: name.to_owned(), operands }
}

/// The first memory-capable location among the operands, if any.
pub open spec fn spec_first_memory(ops: Seq<Operand>) -> Option<Location>
    decreases ops.len(),
{
    if ops.len() == 0 {
        None
    } else if spec_loc_uses_memory(ops[0].location) {
        Some(ops[0].location)
    } else {
        spec_first_memory(ops.drop_first())
    }
}

impl Format {
    /// The memory-capable location of this format, if any; each format has
    /// at most one.
    pub fn uses_memory(&self) -> (r: Option<Location>)
        ensures
            r == spec_first_memory(self.operands@),
    {
        let mut i: usize = 0;
        proof {
            assert(self.operands@.skip(0) =~= self.operands@);
        }
        while i < self.operands.len()
            invariant
                i <= self.operands@.len(),
                spec_first_memory(self.operands@) == spec_first_memory(self.operands@.skip(
                    i as int,
                )),
            decreases self.operands@.len() - i,
        {
            let loc = self.operands[i].location;
            proof {
                assert(self.operands@.skip(i as int).drop_first() =~= self.operands@.skip(i + 1));
                assert(self.operands@.skip(i as int)[0] == self.operands@[i as int]);
            }
            if loc.uses_memory() {
                return Some(loc);
            }
            i = i + 1;
        }
        None
    }

    /// The operand locations, in order.
    pub fn locations(&self) -> (r: Vec<Location>)
        ensures
            r@ == self.operands@.map(|i: int, o: Operand| o.location),
    {
        let mut out: Vec<Location> = Vec::new();
        let mut i: usize = 0;
        while i < self.operands.len()
            invariant
                i <= self.operands@.len(),
                out@ == self.operands@.take(i as int).map(|j: int, o: Operand| o.location),
            decreases self.operands@.len() - i,
        {
            out.push(self.operands[i].location);
            proof {
                assert(out@ =~= self.operands@.take(i + 1).map(|j: int, o: Operand| o.location));
            }
            i = i + 1;
        }
        proof {
            assert(self.operands@.take(self.operands@.len() as int) =~= self.operands@);
        }
        out
    }

    /// The bit width of each operand, in order.
    pub fn operands_by_bits(&self) -> (r: Vec<u8>)
        ensures
            r@ == self.operands@.map(|i: int, o: Operand| spec_loc_bits(o.location)),
    {
        let mut out: Vec<u8> = Vec::new();
        let mut i: usize = 0;
        while i < self.operands.len()
            invariant
                i <= self.operands@.len(),
                out@ == self.operands@.take(i as int).map(
                    |j: int, o: Operand| spec_loc_bits(o.location),
                ),
            decreases self.operands@.len() - i,
        {
            out.push(self.operands[i].location.bits());
            proof {
                assert(out@ =~= self.operands@.take(i + 1).map(
                    |j: int, o: Operand| spec_loc_bits(o.location),
                ));
            }
            i = i + 1;
        }
        proof {
            assert(self.operands@.take(self.operands@.len() as int) =~= self.operands@);
        }
        out
    }

    /// The class of each operand, in order.
    pub fn operands_by_kind(&self) -> (r: Vec<OperandKind>)
        ensures
            r@ == self.operands@.map(|i: int, o: Operand| spec_loc_kind(o.location)),
    {
        let mut out: Vec<OperandKind> = Vec::new();
        let mut i: usize = 0;
        while i < self.operands.len()
            invariant
                i <= self.operands@.len(),
                out@ == self.operands@.take(i as int).map(
                    |j: int, o: Operand| spec_loc_kind(o.location),
                ),
            decreases self.operands@.len() - i,
        {
            out.push(self.operands[i].location.kind());
            proof {
                assert(out@ =~= self.operands@.take(i + 1).map(
                    |j: int, o: Operand| spec_loc_kind(o.location),
                ));
            }
            i = i + 1;
        }
        proof {
            assert(self.operands@.take(self.operands@.len() as int) =~= self.operands@);
        }
        out
    }
}

/// The operands of a format joined with a comma and a space.
pub open spec fn operands_text(ops: Seq<Operand>) -> Seq<char>
    decreases ops.len(),
{
    if ops.len() == 0 {
        Seq::<char>::empty()
    } else if ops.len() == 1 {
        operand_text(ops[0])
    } else {
        operands_text(ops.drop_last()) + ", "@ + operand_text(ops.last())
    }
}

/// The displayed form of a format: its name, then its operands.
pub open spec fn format_text(name: Seq<char>, ops: Seq<Operand>) -> Seq<char> {
    name + "("@ + operands_text(ops) + ")"@
}

impl Format {
    /// The displayed form of this format.
    pub fn to_string(&self) -> (r: String)
        ensures
            r@ == format_text(self.name@, self.operands@),
    {
        let mut s = self.name.clone();
        s.append("(");
        let mut i: usize = 0;
        while i < self.operands.len()
            invariant
                i <= self.operands@.len(),
                s@ == self.name@ + "("@ + operands_text(self.operands@.take(i as int)),
            decreases self.operands@.len() - i,
        {
            if i > 0 {
                s.append(", ");
            }
            let o = self.operands[i].to_string();
            s.append(o.as_str());
            proof {
                assert(self.operands@.take(i + 1).drop_last() =~= self.operands@.take(i as int));
                assert(self.operands@.take(i + 1).last() == self.operands@[i as int]);
                assert(s@ =~= self.name@ + "("@ + operands_text(self.operands@.take(i + 1)));
            }
            i = i + 1;
        }
        s.append(")");
        proof {
            assert(self.operands@.take(self.operands@.len() as int) =~= self.operands@);
            assert(s@ =~= format_text(self.name@, self.operands@));
        }
        s
    }
}

} // verus!
