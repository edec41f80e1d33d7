//! Register allocation: the visitor through which an allocator sees and
//! rewrites an instruction's register operands.

use vstd::prelude::*;
use crate::reg::AsReg;

verus! {

/// The register types a user of the assembler plugs in: one for read-only
/// general purpose registers and one for read-write ones.
pub trait Registers {
    /// The type of a register that an instruction only reads.
    type ReadGpr: AsReg;

    /// The type of a register that an instruction reads and writes.
    type ReadWriteGpr: AsReg;
}

/// One visit of an operand, by polarity.
#[derive(Clone, Copy, Debug, PartialEq, Eq, Structural)]
pub enum VisitKind {
    /// A register the instruction reads, open to reallocation.
    Read,
    /// A register the instruction reads and writes, open to reallocation.
    ReadWrite,
    /// A fixed register the instruction reads.
    FixedRead,
    /// A fixed register the instruction reads and writes.
    FixedReadWrite,
}

/// A register allocator's view of an instruction: one call per register
/// operand, in operand order. The specification records the sequence of
/// visits so that an instruction can state that it presents each operand
/// exactly once, in format order, with the correct polarity.
pub trait OperandVisitor<R: Registers>: Sized {
    /// Every visit so far, oldest first.
    spec fn events(&self) -> Seq<VisitKind>;

    /// Visit a read register; the visitor may rewrite it.
    fn read(&mut self, reg: &mut R::ReadGpr)
        ensures
            final(self).events() == old(self).events().push(VisitKind::Read),
    ;

    /// Visit a read-write register; the visitor may rewrite it.
    fn read_write(&mut self, reg: &mut R::ReadWriteGpr)
        ensures
            final(self).events() == old(self).events().push(VisitKind::ReadWrite),
    ;

    /// Visit a fixed read register, which no allocator may move.
    fn fixed_read(&mut self, reg: &R::ReadGpr)
        ensures
            final(self).events() == old(self).events().push(VisitKind::FixedRead),
    ;

    /// Visit a fixed read-write register, which no allocator may move.
    fn fixed_read_write(&mut self, reg: &R::ReadWriteGpr)
        ensures
            final(self).events() == old(self).events().push(VisitKind::FixedReadWrite),
    ;
}

} // verus!
