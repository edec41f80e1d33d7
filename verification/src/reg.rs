//! Pure register operands.

use vstd::prelude::*;

verus! {

/// Hardware encoding of `%rax`.
pub const ENC_RAX: u8 = 0;
/// Hardware encoding of `%rcx`.
pub const ENC_RCX: u8 = 1;
/// Hardware encoding of `%rdx`.
pub const ENC_RDX: u8 = 2;
/// Hardware encoding of `%rbx`.
pub const ENC_RBX: u8 = 3;
/// Hardware encoding of `%rsp`.
pub const ENC_RSP: u8 = 4;
/// Hardware encoding of `%rbp`.
pub const ENC_RBP: u8 = 5;
/// Hardware encoding of `%rsi`.
pub const ENC_RSI: u8 = 6;
/// Hardware encoding of `%rdi`.
pub const ENC_RDI: u8 = 7;

/// An operand size, selecting among the four width variants of a general
/// purpose register (`%al`/`%ax`/`%eax`/`%rax` and so on).
#[derive(Clone, Copy, Debug, PartialEq, Eq, Structural)]
pub enum Size {
    Byte,
    Word,
    Doubleword,
    Quadword,
}

/// A register representation chosen by the user of the assembler.
///
/// The assembler only requires that a register can reveal its hardware
/// encoding and be built from one. Before register allocation a register may
/// be virtual, in which case `enc_ready` does not hold and `enc` must not be
/// called.
pub trait AsReg: Sized + Clone + core::fmt::Debug {
    /// The hardware encoding this register stands for.
    spec fn spec_enc(&self) -> u8;

    /// Whether `enc` may be called on this value.
    spec fn enc_ready(&self) -> bool;

    /// Wrap a hardware encoding.
    fn new(enc: u8) -> (r: Self)
        requires
            enc < 16,
        ensures
            r.enc_ready(),
            r.spec_enc() == enc,
    ;

    /// The hardware encoding of this register.
    fn enc(&self) -> (r: u8)
        requires
            self.enc_ready(),
        ensures
            r == self.spec_enc(),
    ;
}

impl AsReg for u8 {
    open spec fn spec_enc(&self) -> u8 {
        *self
    }

    open spec fn enc_ready(&self) -> bool {
        true
    }

    fn new(enc: u8) -> (r: Self) {
        enc
    }

    fn enc(&self) -> (r: u8) {
        *self
    }
}

} // verus!

use crate::visit::{OperandVisitor, Registers};
use crate::rex::RexFlags;

verus! {

/// A general purpose x64 register (e.g., `%rax`).
///
/// The wrapped representation may be virtual (waiting for register
/// allocation) or real; encoding requires a real register, whose encoding is
/// below 16.
#[derive(Clone, Copy, Debug)]
pub struct Gpr<R: AsReg>(pub R);

impl<R: AsReg> Gpr<R> {
    /// The hardware encoding this register stands for.
    pub open spec fn view(&self) -> u8 {
        self.0.spec_enc()
    }

    /// Whether the register is real, so that `enc` may be called.
    pub open spec fn enc_ready(&self) -> bool {
        self.0.enc_ready() && self.0.spec_enc() < 16
    }

    /// Wrap a register that may be real or virtual.
    pub fn new(reg: R) -> (r: Self)
        ensures
            r == (Gpr(reg)),
    {
        Gpr(reg)
    }

    /// The hardware encoding; the register must have been allocated.
    pub fn enc(&self) -> (r: u8)
        requires
            self.enc_ready(),
        ensures
            r == self@,
            r < 16,
    {
        self.0.enc()
    }

    /// Demand an explicit REX prefix when this 8-bit register would otherwise
    /// be read as one of the legacy high-byte registers (`%ah`..`%bh`).
    pub fn always_emit_if_8bit_needed(&self, rex: &mut RexFlags)
        requires
            self.enc_ready(),
        ensures
            *final(rex) == (RexFlags {
                w: old(rex).w,
                always: old(rex).always || (4 <= self@ && self@ <= 7),
            }),
    {
        let enc_reg = self.0.enc();
        if 4 <= enc_reg && enc_reg <= 7 {
            rex.always_emit();
        }
    }

    /// Present this register to the allocator as a read.
    pub fn read<RS, V>(&mut self, visitor: &mut V) where
        RS: Registers<ReadGpr = R>,
        V: OperandVisitor<RS>,

        ensures
            final(visitor).events() == old(visitor).events().push(
                crate::visit::VisitKind::Read,
            ),
    {
        visitor.read(&mut self.0);
    }
}

impl<R: AsReg> Gpr<R> {
    /// Present this register to the allocator as a read-write.
    pub fn read_write<RS, V>(&mut self, visitor: &mut V) where
        RS: Registers<ReadWriteGpr = R>,
        V: OperandVisitor<RS>,

        ensures
            final(visitor).events() == old(visitor).events().push(
                crate::visit::VisitKind::ReadWrite,
            ),
    {
        visitor.read_write(&mut self.0);
    }
}

/// A general purpose register that is never the stack pointer; the SIB index
/// field cannot encode `%rsp`.
#[derive(Clone, Copy, Debug)]
pub struct MinusRsp<R: AsReg>(pub R);

impl<R: AsReg> MinusRsp<R> {
    /// The hardware encoding this register stands for.
    pub open spec fn view(&self) -> u8 {
        self.0.spec_enc()
    }

    /// Whether the register is real, so that `enc` may be called.
    pub open spec fn enc_ready(&self) -> bool {
        self.0.enc_ready() && self.0.spec_enc() < 16
    }

    /// Allow the register allocator to modify this register in place.
    pub fn as_mut(&mut self) -> (r: &mut R)
        ensures
            *r == old(self).0,
            *final(self) == (MinusRsp(*final(r))),
    {
        &mut self.0
    }

    /// The hardware encoding; the register must have been allocated.
    pub fn enc(&self) -> (r: u8)
        requires
            self.enc_ready(),
        ensures
            r == self@,
            r < 16,
    {
        self.0.enc()
    }
}

} // verus!

verus! {

/// The AT&T name of the general purpose register with hardware encoding
/// `enc` at operand size `size`.
pub open spec fn spec_reg_name(enc: u8, size: Size) -> Seq<char> {
    if enc == 0 {
        match size {
            Size::Byte => "%al"@,
            Size::Word => "%ax"@,
            Size::Doubleword => "%eax"@,
            Size::Quadword => "%rax"@,
        }
    }
    else if enc == 1 {
        match size {
            Size::Byte => "%cl"@,
            Size::Word => "%cx"@,
            Size::Doubleword => "%ecx"@,
            Size::Quadword => "%rcx"@,
        }
    }
    else if enc == 2 {
        match size {
            Size::Byte => "%dl"@,
            Size::Word => "%dx"@,
            Size::Doubleword => "%edx"@,
            Size::Quadword => "%rdx"@,
        }
    }
    else if enc == 3 {
        match size {
            Size::Byte => "%bl"@,
            Size::Word => "%bx"@,
            Size::Doubleword => "%ebx"@,
            Size::Quadword => "%rbx"@,
        }
    }
    else if enc == 4 {
        match size {
            Size::Byte => "%spl"@,
            Size::Word => "%sp"@,
            Size::Doubleword => "%esp"@,
            Size::Quadword => "%rsp"@,
        }
    }
    else if enc == 5 {
        match size {
            Size::Byte => "%bpl"@,
            Size::Word => "%bp"@,
            Size::Doubleword => "%ebp"@,
            Size::Quadword => "%rbp"@,
        }
    }
    else if enc == 6 {
        match size {
            Size::Byte => "%sil"@,
            Size::Word => "%si"@,
            Size::Doubleword => "%esi"@,
            Size::Quadword => "%rsi"@,
        }
    }
    else if enc == 7 {
        match size {
            Size::Byte => "%dil"@,
            Size::Word => "%di"@,
            Size::Doubleword => "%edi"@,
            Size::Quadword => "%rdi"@,
        }
    }
    else if enc == 8 {
        match size {
            Size::Byte => "%r8b"@,
            Size::Word => "%r8w"@,
            Size::Doubleword => "%r8d"@,
            Size::Quadword => "%r8"@,
        }
    }
    else if enc == 9 {
        match size {
            Size::Byte => "%r9b"@,
            Size::Word => "%r9w"@,
            Size::Doubleword => "%r9d"@,
            Size::Quadword => "%r9"@,
        }
    }
    else if enc == 10 {
        match size {
            Size::Byte => "%r10b"@,
            Size::Word => "%r10w"@,
            Size::Doubleword => "%r10d"@,
            Size::Quadword => "%r10"@,
        }
    }
    else if enc == 11 {
        match size {
            Size::Byte => "%r11b"@,
            Size::Word => "%r11w"@,
            Size::Doubleword => "%r11d"@,
            Size::Quadword => "%r11"@,
        }
    }
    else if enc == 12 {
        match size {
            Size::Byte => "%r12b"@,
            Size::Word => "%r12w"@,
            Size::Doubleword => "%r12d"@,
            Size::Quadword => "%r12"@,
        }
    }
    else if enc == 13 {
        match size {
            Size::Byte => "%r13b"@,
            Size::Word => "%r13w"@,
            Size::Doubleword => "%r13d"@,
            Size::Quadword => "%r13"@,
        }
    }
    else if enc == 14 {
        match size {
            Size::Byte => "%r14b"@,
            Size::Word => "%r14w"@,
            Size::Doubleword => "%r14d"@,
            Size::Quadword => "%r14"@,
        }
    }
    else if enc == 15 {
        match size {
            Size::Byte => "%r15b"@,
            Size::Word => "%r15w"@,
            Size::Doubleword => "%r15d"@,
            Size::Quadword => "%r15"@,
        }
    }
    else {
        Seq::<char>::empty()
    }
}

/// The AT&T name of the general purpose register with hardware encoding
/// `enc` at operand size `size`.
pub fn to_string(enc: u8, size: Size) -> (r: &'static str)
    requires
        enc < 16,
    ensures
        r@ == spec_reg_name(enc, size),
{
    match enc {
        0 => match size {
            Size::Byte => "%al",
            Size::Word => "%ax",
            Size::Doubleword => "%eax",
            Size::Quadword => "%rax",
        },
        1 => match size {
            Size::Byte => "%cl",
            Size::Word => "%cx",
            Size::Doubleword => "%ecx",
            Size::Quadword => "%rcx",
        },
        2 => match size {
            Size::Byte => "%dl",
            Size::Word => "%dx",
            Size::Doubleword => "%edx",
            Size::Quadword => "%rdx",
        },
        3 => match size {
            Size::Byte => "%bl",
            Size::Word => "%bx",
            Size::Doubleword => "%ebx",
            Size::Quadword => "%rbx",
        },
        4 => match size {
            Size::Byte => "%spl",
            Size::Word => "%sp",
            Size::Doubleword => "%esp",
            Size::Quadword => "%rsp",
        },
        5 => match size {
            Size::Byte => "%bpl",
            Size::Word => "%bp",
            Size::Doubleword => "%ebp",
            Size::Quadword => "%rbp",
        },
        6 => match size {
            Size::Byte => "%sil",
            Size::Word => "%si",
            Size::Doubleword => "%esi",
            Size::Quadword => "%rsi",
        },
        7 => match size {
            Size::Byte => "%dil",
            Size::Word => "%di",
            Size::Doubleword => "%edi",
            Size::Quadword => "%rdi",
        },
        8 => match size {
            Size::Byte => "%r8b",
            Size::Word => "%r8w",
            Size::Doubleword => "%r8d",
            Size::Quadword => "%r8",
        },
        9 => match size {
            Size::Byte => "%r9b",
            Size::Word => "%r9w",
            Size::Doubleword => "%r9d",
            Size::Quadword => "%r9",
        },
        10 => match size {
            Size::Byte => "%r10b",
            Size::Word => "%r10w",
            Size::Doubleword => "%r10d",
            Size::Quadword => "%r10",
        },
        11 => match size {
            Size::Byte => "%r11b",
            Size::Word => "%r11w",
            Size::Doubleword => "%r11d",
            Size::Quadword => "%r11",
        },
        12 => match size {
            Size::Byte => "%r12b",
            Size::Word => "%r12w",
            Size::Doubleword => "%r12d",
            Size::Quadword => "%r12",
        },
        13 => match size {
            Size::Byte => "%r13b",
            Size::Word => "%r13w",
            Size::Doubleword => "%r13d",
            Size::Quadword => "%r13",
        },
        14 => match size {
            Size::Byte => "%r14b",
            Size::Word => "%r14w",
            Size::Doubleword => "%r14d",
            Size::Quadword => "%r14",
        },
        15 => match size {
            Size::Byte => "%r15b",
            Size::Word => "%r15w",
            Size::Doubleword => "%r15d",
            Size::Quadword => "%r15",
        },
        _ => "%none",
    }
}

impl<R: AsReg> Gpr<R> {
    /// The AT&T name of this register at operand size `size`.
    pub fn to_string(&self, size: Size) -> (r: &'static str)
        requires
            self.enc_ready(),
        ensures
            r@ == spec_reg_name(self@, size),
    {
        to_string(self.enc(), size)
    }
}

impl<R: AsReg> MinusRsp<R> {
    /// The AT&T name of this register at operand size `size`.
    pub fn to_string(&self, size: Size) -> (r: &'static str)
        requires
            self.enc_ready(),
        ensures
            r@ == spec_reg_name(self@, size),
    {
        to_string(self.enc(), size)
    }
}

} // verus!
