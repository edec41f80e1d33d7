//! Constructors for each instruction, taking the informative operands in
//! format order and wrapping the result in [`Inst`].

use vstd::prelude::*;
use crate::imm::{Imm16, Imm32, Imm8};
use crate::inst::{self, Inst};
use crate::mem::GprMem;
use crate::reg::Gpr;
use crate::visit::Registers;

verus! {

/// Build an [`inst::andb_i`] instruction.
pub fn andb_i<R: Registers>(imm8: Imm8) -> (r: Inst<R>)
    ensures
        r == Inst::<R>::andb_i(inst::andb_i { imm8 }),
{
    Inst::andb_i(inst::andb_i { imm8 })
}

/// Build an [`inst::andw_i`] instruction.
pub fn andw_i<R: Registers>(imm16: Imm16) -> (r: Inst<R>)
    ensures
        r == Inst::<R>::andw_i(inst::andw_i { imm16 }),
{
    Inst::andw_i(inst::andw_i { imm16 })
}

/// Build an [`inst::andl_i`] instruction.
pub fn andl_i<R: Registers>(imm32: Imm32) -> (r: Inst<R>)
    ensures
        r == Inst::<R>::andl_i(inst::andl_i { imm32 }),
{
    Inst::andl_i(inst::andl_i { imm32 })
}

/// Build an [`inst::andq_i_sx`] instruction.
pub fn andq_i_sx<R: Registers>(imm32: Imm32) -> (r: Inst<R>)
    ensures
        r == Inst::<R>::andq_i_sx(inst::andq_i_sx { imm32 }),
{
    Inst::andq_i_sx(inst::andq_i_sx { imm32 })
}

/// Build an [`inst::andb_mi`] instruction.
pub fn andb_mi<R: Registers>(rm8: GprMem<R::ReadWriteGpr, R::ReadGpr>, imm8: Imm8) -> (r: Inst<R>)
    ensures
        r == Inst::<R>::andb_mi(inst::andb_mi { rm8, imm8 }),
{
    Inst::andb_mi(inst::andb_mi { rm8, imm8 })
}

/// Build an [`inst::andw_mi`] instruction.
pub fn andw_mi<R: Registers>(rm16: GprMem<R::ReadWriteGpr, R::ReadGpr>, imm16: Imm16) -> (r: Inst<R>)
    ensures
        r == Inst::<R>::andw_mi(inst::andw_mi { rm16, imm16 }),
{
    Inst::andw_mi(inst::andw_mi { rm16, imm16 })
}

/// Build an [`inst::andl_mi`] instruction.
pub fn andl_mi<R: Registers>(rm32: GprMem<R::ReadWriteGpr, R::ReadGpr>, imm32: Imm32) -> (r: Inst<R>)
    ensures
        r == Inst::<R>::andl_mi(inst::andl_mi { rm32, imm32 }),
{
    Inst::andl_mi(inst::andl_mi { rm32, imm32 })
}

/// Build an [`inst::andq_mi_sx`] instruction.
pub fn andq_mi_sx<R: Registers>(rm64: GprMem<R::ReadWriteGpr, R::ReadGpr>, imm32: Imm32) -> (r: Inst<R>)
    ensures
        r == Inst::<R>::andq_mi_sx(inst::andq_mi_sx { rm64, imm32 }),
{
    Inst::andq_mi_sx(inst::andq_mi_sx { rm64, imm32 })
}

/// Build an [`inst::andl_mi_sx`] instruction.
pub fn andl_mi_sx<R: Registers>(rm32: GprMem<R::ReadWriteGpr, R::ReadGpr>, imm8: Imm8) -> (r: Inst<R>)
    ensures
        r == Inst::<R>::andl_mi_sx(inst::andl_mi_sx { rm32, imm8 }),
{
    Inst::andl_mi_sx(inst::andl_mi_sx { rm32, imm8 })
}

/// Build an [`inst::andq_mi_sxb`] instruction.
pub fn andq_mi_sxb<R: Registers>(rm64: GprMem<R::ReadWriteGpr, R::ReadGpr>, imm8: Imm8) -> (r: Inst<R>)
    ensures
        r == Inst::<R>::andq_mi_sxb(inst::andq_mi_sxb { rm64, imm8 }),
{
    Inst::andq_mi_sxb(inst::andq_mi_sxb { rm64, imm8 })
}

/// Build an [`inst::andb_mr`] instruction.
pub fn andb_mr<R: Registers>(rm8: GprMem<R::ReadWriteGpr, R::ReadGpr>, r8: Gpr<R::ReadGpr>) -> (r: Inst<R>)
    ensures
        r == Inst::<R>::andb_mr(inst::andb_mr { rm8, r8 }),
{
    Inst::andb_mr(inst::andb_mr { rm8, r8 })
}

/// Build an [`inst::andb_mr_sx`] instruction.
pub fn andb_mr_sx<R: Registers>(rm8: GprMem<R::ReadWriteGpr, R::ReadGpr>, r8: Gpr<R::ReadGpr>) -> (r: Inst<R>)
    ensures
        r == Inst::<R>::andb_mr_sx(inst::andb_mr_sx { rm8, r8 }),
{
    Inst::andb_mr_sx(inst::andb_mr_sx { rm8, r8 })
}

/// Build an [`inst::andw_mr`] instruction.
pub fn andw_mr<R: Registers>(rm16: GprMem<R::ReadWriteGpr, R::ReadGpr>, r16: Gpr<R::ReadGpr>) -> (r: Inst<R>)
    ensures
        r == Inst::<R>::andw_mr(inst::andw_mr { rm16, r16 }),
{
    Inst::andw_mr(inst::andw_mr { rm16, r16 })
}

/// Build an [`inst::andl_mr`] instruction.
pub fn andl_mr<R: Registers>(rm32: GprMem<R::ReadWriteGpr, R::ReadGpr>, r32: Gpr<R::ReadGpr>) -> (r: Inst<R>)
    ensures
        r == Inst::<R>::andl_mr(inst::andl_mr { rm32, r32 }),
{
    Inst::andl_mr(inst::andl_mr { rm32, r32 })
}

/// Build an [`inst::andq_mr`] instruction.
pub fn andq_mr<R: Registers>(rm64: GprMem<R::ReadWriteGpr, R::ReadGpr>, r64: Gpr<R::ReadGpr>) -> (r: Inst<R>)
    ensures
        r == Inst::<R>::andq_mr(inst::andq_mr { rm64, r64 }),
{
    Inst::andq_mr(inst::andq_mr { rm64, r64 })
}

/// Build an [`inst::andb_rm`] instruction.
pub fn andb_rm<R: Registers>(r8: Gpr<R::ReadWriteGpr>, rm8: GprMem<R::ReadGpr, R::ReadGpr>) -> (r: Inst<R>)
    ensures
        r == Inst::<R>::andb_rm(inst::andb_rm { r8, rm8 }),
{
    Inst::andb_rm(inst::andb_rm { r8, rm8 })
}

/// Build an [`inst::andb_rm_sx`] instruction.
pub fn andb_rm_sx<R: Registers>(r8: Gpr<R::ReadWriteGpr>, rm8: GprMem<R::ReadGpr, R::ReadGpr>) -> (r: Inst<R>)
    ensures
        r == Inst::<R>::andb_rm_sx(inst::andb_rm_sx { r8, rm8 }),
{
    Inst::andb_rm_sx(inst::andb_rm_sx { r8, rm8 })
}

/// Build an [`inst::andw_rm`] instruction.
pub fn andw_rm<R: Registers>(r16: Gpr<R::ReadWriteGpr>, rm16: GprMem<R::ReadGpr, R::ReadGpr>) -> (r: Inst<R>)
    ensures
        r == Inst::<R>::andw_rm(inst::andw_rm { r16, rm16 }),
{
    Inst::andw_rm(inst::andw_rm { r16, rm16 })
}

/// Build an [`inst::andl_rm`] instruction.
pub fn andl_rm<R: Registers>(r32: Gpr<R::ReadWriteGpr>, rm32: GprMem<R::ReadGpr, R::ReadGpr>) -> (r: Inst<R>)
    ensures
        r == Inst::<R>::andl_rm(inst::andl_rm { r32, rm32 }),
{
    Inst::andl_rm(inst::andl_rm { r32, rm32 })
}

/// Build an [`inst::andq_rm`] instruction.
pub fn andq_rm<R: Registers>(r64: Gpr<R::ReadWriteGpr>, rm64: GprMem<R::ReadGpr, R::ReadGpr>) -> (r: Inst<R>)
    ensures
        r == Inst::<R>::andq_rm(inst::andq_rm { r64, rm64 }),
{
    Inst::andq_rm(inst::andq_rm { r64, rm64 })
}

} // verus!
