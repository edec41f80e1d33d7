//! The concrete instruction library: one operand-bearing struct per
//! instruction definition, wrapped into the [`Inst`] sum type.
//!
//! Everything here is derived mechanically from the instruction table in
//! the DSL; each struct knows how to encode itself, present its operands to
//! a register allocator, and print itself in AT&T syntax.

use vstd::prelude::*;
use crate::imm::{imm16_display, imm32_display, imm8_display, Extension, Imm16, Imm32, Imm8};
use crate::mem::{
    gprmem_text,
    amode_code, amode_encodable, amode_label_uses, amode_rex_seq, gprmem_enc_ready,
    gprmem_same_shape, gprmem_view, gprmem_visit_trace, gprmem_visitable,
    spec_trap_code, GprMem,
};
use crate::reg::{spec_reg_name, AsReg, Gpr, Size};
use crate::rex::{
    emit_modrm, emit_simm, rex_seq, simm_seq, spec_modrm, RexFlags,
};
use crate::mem::emit_modrm_sib_disp;
use crate::sink::{CodeSink, KnownOffsetTable, Label, TrapCode};
use crate::visit::{OperandVisitor, Registers, VisitKind};
use vstd::string::StringExecFns;

verus! {

/// A CPU feature an instruction may require.
#[derive(Clone, Copy, Debug, PartialEq, Eq, Structural)]
pub enum Flag {
    /// The instruction requires 64-bit mode.
    _64b,
    /// The instruction is available in compatibility mode.
    compat,
}

/// Whether an 8-bit register encoding demands an explicit REX prefix (the
/// encodings of `%spl`, `%bpl`, `%sil`, `%dil` collide with the legacy
/// high-byte registers when no REX prefix is present).
pub open spec fn needs_rex8(enc: u8) -> bool {
    4 <= enc && enc <= 7
}

/// Whether the register alternative of a register-or-memory operand demands
/// an explicit REX prefix in an 8-bit instruction.
pub open spec fn gprmem_needs8<R: AsReg, M: AsReg>(rm: GprMem<R, M>) -> bool {
    rm matches GprMem::Gpr(g) && needs_rex8(g@)
}

/// The REX prefix bytes contributed by a register-or-memory operand standing
/// in the ModR/M `rm` field, with `enc_g` in the `reg` field.
pub open spec fn gprmem_rex_seq<R: AsReg, M: AsReg>(
    rm: GprMem<R, M>,
    flags: RexFlags,
    enc_g: u8,
) -> Seq<u8> {
    match rm {
        GprMem::Gpr(g) => rex_seq(flags.w, flags.always, enc_g, 0, g@),
        GprMem::Mem(a) => amode_rex_seq(a, flags, enc_g),
    }
}

/// The ModR/M, SIB and displacement bytes contributed by a register-or-memory
/// operand standing in the ModR/M `rm` field; `bytes_at_end` is the number
/// of instruction bytes that follow a RIP-relative displacement field, which
/// its initial value compensates for.
pub open spec fn gprmem_modrm_code<R: AsReg, M: AsReg>(
    rm: GprMem<R, M>,
    enc_g: u8,
    offsets: Seq<i32>,
    bytes_at_end: u8,
) -> Seq<u8> {
    match rm {
        GprMem::Gpr(g) => seq![spec_modrm(0b11, enc_g, g@)],
        GprMem::Mem(a) => amode_code(a, enc_g, offsets, bytes_at_end),
    }
}

/// The label uses recorded by a register-or-memory operand whose ModR/M byte
/// begins at offset `start`.
pub open spec fn gprmem_label_uses<R: AsReg, M: AsReg>(
    rm: GprMem<R, M>,
    start: int,
) -> Seq<(u32, Label)> {
    match rm {
        GprMem::Gpr(_) => Seq::<(u32, Label)>::empty(),
        GprMem::Mem(a) => amode_label_uses(a, start),
    }
}

/// The traps registered for a register-or-memory operand at instruction
/// offset `start`: at most the one attached to a memory operand.
pub open spec fn gprmem_traps<R: AsReg, M: AsReg>(
    rm: GprMem<R, M>,
    start: int,
) -> Seq<(u32, TrapCode)> {
    match rm {
        GprMem::Gpr(_) => Seq::<(u32, TrapCode)>::empty(),
        GprMem::Mem(a) => match spec_trap_code(a) {
            Some(code) => seq![(start as u32, code)],
            None => Seq::<(u32, TrapCode)>::empty(),
        },
    }
}

/// Whether a register-or-memory operand can be encoded against `offsets`.
pub open spec fn gprmem_encodable<R: AsReg, M: AsReg>(
    rm: GprMem<R, M>,
    offsets: Seq<i32>,
) -> bool {
    match rm {
        GprMem::Gpr(g) => g.enc_ready(),
        GprMem::Mem(a) => amode_encodable(a, offsets),
    }
}

/// The bytes of a fixed-register (accumulator) AND instruction: optional
/// legacy prefix, optional REX prefix, opcode, then the immediate.
pub open spec fn i_form_code(
    prefix: Seq<u8>,
    w: bool,
    opcode: u8,
    imm_bytes: u8,
    imm_val: u32,
) -> Seq<u8> {
    prefix + rex_seq(w, false, 0, 0, 0) + seq![opcode] + simm_seq(imm_bytes, imm_val)
}

/// `andb $imm8, %al`: AND the accumulator's low byte with an immediate.
#[derive(Clone, Copy, Debug, PartialEq, Eq, Structural)]
pub struct andb_i {
    pub imm8: Imm8,
}

impl andb_i {
    /// The bytes this instruction encodes to.
    pub open spec fn spec_code(&self) -> Seq<u8> {
        i_form_code(Seq::<u8>::empty(), false, 0x24, 1, self.imm8.0 as u32)
    }

    /// Encode the instruction into `buf`.
    pub fn encode<S: CodeSink, T: KnownOffsetTable>(&self, buf: &mut S, _off: &T)
        requires
            old(buf).bytes().len() + 32 <= 0xffff_ffff,
        ensures
            final(buf).bytes() == old(buf).bytes() + self.spec_code(),
            final(buf).traps() == old(buf).traps(),
            final(buf).label_uses() == old(buf).label_uses(),
    {
        // Emit REX prefix.
        let rex = RexFlags::clear_w();
        rex.emit_two_op(buf, 0, 0);
        // Emit opcode.
        buf.put1(0x24);
        // Emit immediates.
        emit_simm(buf, 1, self.imm8.value() as u32);
        proof {
            assert(final(buf).bytes() =~= old(buf).bytes() + self.spec_code());
        }
    }

    /// Present the instruction's operands to the allocator, in format order:
    /// the fixed accumulator operand as a fixed read-write, and nothing for
    /// the immediate.
    pub fn visit_operands<R: Registers, V: OperandVisitor<R>>(&mut self, visitor: &mut V)
        ensures
            *final(self) == *old(self),
            final(visitor).events() == old(visitor).events().push(VisitKind::FixedReadWrite),
    {
        visitor.fixed_read_write(&R::ReadWriteGpr::new(crate::reg::ENC_RAX));
    }
}

/// `andw $imm16, %ax`: AND the accumulator's low word with an immediate.
#[derive(Clone, Copy, Debug, PartialEq, Eq, Structural)]
pub struct andw_i {
    pub imm16: Imm16,
}

impl andw_i {
    /// The bytes this instruction encodes to.
    pub open spec fn spec_code(&self) -> Seq<u8> {
        i_form_code(seq![0x66u8], false, 0x25, 2, self.imm16.0 as u32)
    }

    /// Encode the instruction into `buf`.
    pub fn encode<S: CodeSink, T: KnownOffsetTable>(&self, buf: &mut S, _off: &T)
        requires
            old(buf).bytes().len() + 32 <= 0xffff_ffff,
        ensures
            final(buf).bytes() == old(buf).bytes() + self.spec_code(),
            final(buf).traps() == old(buf).traps(),
            final(buf).label_uses() == old(buf).label_uses(),
    {
        // Emit legacy prefixes.
        buf.put1(0x66);
        // Emit REX prefix.
        let rex = RexFlags::clear_w();
        rex.emit_two_op(buf, 0, 0);
        // Emit opcode.
        buf.put1(0x25);
        // Emit immediates.
        emit_simm(buf, 2, self.imm16.value() as u32);
        proof {
            assert(final(buf).bytes() =~= old(buf).bytes() + self.spec_code());
        }
    }

    /// Present the instruction's operands to the allocator, in format order:
    /// the fixed accumulator operand as a fixed read-write, and nothing for
    /// the immediate.
    pub fn visit_operands<R: Registers, V: OperandVisitor<R>>(&mut self, visitor: &mut V)
        ensures
            *final(self) == *old(self),
            final(visitor).events() == old(visitor).events().push(VisitKind::FixedReadWrite),
    {
        visitor.fixed_read_write(&R::ReadWriteGpr::new(crate::reg::ENC_RAX));
    }
}

/// `andl $imm32, %eax`: AND the accumulator's low doubleword with an immediate.
#[derive(Clone, Copy, Debug, PartialEq, Eq, Structural)]
pub struct andl_i {
    pub imm32: Imm32,
}

impl andl_i {
    /// The bytes this instruction encodes to.
    pub open spec fn spec_code(&self) -> Seq<u8> {
        i_form_code(Seq::<u8>::empty(), false, 0x25, 4, self.imm32.0 as u32)
    }

    /// Encode the instruction into `buf`.
    pub fn encode<S: CodeSink, T: KnownOffsetTable>(&self, buf: &mut S, _off: &T)
        requires
            old(buf).bytes().len() + 32 <= 0xffff_ffff,
        ensures
            final(buf).bytes() == old(buf).bytes() + self.spec_code(),
            final(buf).traps() == old(buf).traps(),
            final(buf).label_uses() == old(buf).label_uses(),
    {
        // Emit REX prefix.
        let rex = RexFlags::clear_w();
        rex.emit_two_op(buf, 0, 0);
        // Emit opcode.
        buf.put1(0x25);
        // Emit immediates.
        emit_simm(buf, 4, self.imm32.value() as u32);
        proof {
            assert(final(buf).bytes() =~= old(buf).bytes() + self.spec_code());
        }
    }

    /// Present the instruction's operands to the allocator, in format order:
    /// the fixed accumulator operand as a fixed read-write, and nothing for
    /// the immediate.
    pub fn visit_operands<R: Registers, V: OperandVisitor<R>>(&mut self, visitor: &mut V)
        ensures
            *final(self) == *old(self),
            final(visitor).events() == old(visitor).events().push(VisitKind::FixedReadWrite),
    {
        visitor.fixed_read_write(&R::ReadWriteGpr::new(crate::reg::ENC_RAX));
    }
}

/// `andq $imm32, %rax`: AND the accumulator with a sign-extended immediate.
#[derive(Clone, Copy, Debug, PartialEq, Eq, Structural)]
pub struct andq_i_sx {
    pub imm32: Imm32,
}

impl andq_i_sx {
    /// The bytes this instruction encodes to.
    pub open spec fn spec_code(&self) -> Seq<u8> {
        i_form_code(Seq::<u8>::empty(), true, 0x25, 4, self.imm32.0 as u32)
    }

    /// Encode the instruction into `buf`.
    pub fn encode<S: CodeSink, T: KnownOffsetTable>(&self, buf: &mut S, _off: &T)
        requires
            old(buf).bytes().len() + 32 <= 0xffff_ffff,
        ensures
            final(buf).bytes() == old(buf).bytes() + self.spec_code(),
            final(buf).traps() == old(buf).traps(),
            final(buf).label_uses() == old(buf).label_uses(),
    {
        // Emit REX prefix.
        let rex = RexFlags::set_w();
        rex.emit_two_op(buf, 0, 0);
        // Emit opcode.
        buf.put1(0x25);
        // Emit immediates.
        emit_simm(buf, 4, self.imm32.value() as u32);
        proof {
            assert(final(buf).bytes() =~= old(buf).bytes() + self.spec_code());
        }
    }

    /// Present the instruction's operands to the allocator, in format order:
    /// the fixed accumulator operand as a fixed read-write, and nothing for
    /// the immediate.
    pub fn visit_operands<R: Registers, V: OperandVisitor<R>>(&mut self, visitor: &mut V)
        ensures
            *final(self) == *old(self),
            final(visitor).events() == old(visitor).events().push(VisitKind::FixedReadWrite),
    {
        visitor.fixed_read_write(&R::ReadWriteGpr::new(crate::reg::ENC_RAX));
    }
}

/// `andb $imm8, rm8`: AND a byte register or memory location with an immediate.
#[derive(Clone, Debug)]
pub struct andb_mi<R: Registers> {
    pub rm8: GprMem<R::ReadWriteGpr, R::ReadGpr>,
    pub imm8: Imm8,
}

impl<R: Registers> andb_mi<R> {
    /// The REX flags of this instruction.
    pub open spec fn spec_flags(&self) -> RexFlags {
        RexFlags { w: false, always: gprmem_needs8(self.rm8) }
    }

    /// The bytes this instruction encodes to, given the late-bound offsets.
    pub open spec fn spec_code(&self, offsets: Seq<i32>) -> Seq<u8> {
        Seq::<u8>::empty() + gprmem_rex_seq(self.rm8, self.spec_flags(), 4)
            + seq![0x80u8] + gprmem_modrm_code(self.rm8, 4, offsets, 1)
            + simm_seq(1, self.imm8.0 as u32)
    }

    /// The traps this instruction registers when encoded at offset `start`.
    pub open spec fn spec_traps(&self, start: int) -> Seq<(u32, TrapCode)> {
        gprmem_traps(self.rm8, start)
    }

    /// The label uses this instruction records when encoded at offset
    /// `start`: at most one, at its RIP-relative displacement field.
    pub open spec fn spec_label_uses(&self, start: int) -> Seq<(u32, Label)> {
        gprmem_label_uses(
            self.rm8,
            start + 0 + gprmem_rex_seq(self.rm8, self.spec_flags(), 4).len() + 1,
        )
    }

    /// Encode the instruction into `buf`, resolving late-bound displacements
    /// through `off`.
    pub fn encode<S: CodeSink, T: KnownOffsetTable>(&self, buf: &mut S, off: &T)
        requires
            gprmem_encodable(self.rm8, off.offsets()),
            old(buf).bytes().len() + 32 <= 0xffff_ffff,
        ensures
            final(buf).bytes() == old(buf).bytes() + self.spec_code(off.offsets()),
            final(buf).traps() == old(buf).traps() + self.spec_traps(
                old(buf).bytes().len() as int,
            ),
            final(buf).label_uses() == old(buf).label_uses() + self.spec_label_uses(
                old(buf).bytes().len() as int,
            ),
    {
        // Emit trap.
        if let GprMem::Mem(op) = &self.rm8 {
            if let Some(trap_code) = op.trap_code() {
                buf.add_trap(trap_code);
            }
        }
        // Emit REX prefix.
        let mut rex = RexFlags::clear_w();
        self.rm8.always_emit_if_8bit_needed(&mut rex);
        let digit: u8 = 4;
        match &self.rm8 {
            GprMem::Gpr(dst) => rex.emit_two_op(buf, digit, dst.enc()),
            GprMem::Mem(dst) => dst.emit_rex_prefix(rex, digit, buf),
        }
        // Emit opcode.
        buf.put1(0x80);
        // Emit ModR/M byte.
        match &self.rm8 {
            GprMem::Gpr(dst) => emit_modrm(buf, digit, dst.enc()),
            GprMem::Mem(dst) => emit_modrm_sib_disp(buf, off, digit, dst, 1),
        }
        // Emit immediates.
        emit_simm(buf, 1, self.imm8.value() as u32);
        proof {
            assert(final(buf).bytes() =~= old(buf).bytes() + self.spec_code(off.offsets()));
            assert(final(buf).traps() =~= old(buf).traps() + self.spec_traps(
                old(buf).bytes().len() as int,
            ));
            assert(final(buf).label_uses() =~= old(buf).label_uses() + self.spec_label_uses(
                old(buf).bytes().len() as int,
            ));
        }
    }

    /// Present the instruction's operands to the allocator, in format order:
    /// the register-or-memory destination as a read-write, and nothing for
    /// the immediate.
    pub fn visit_operands<V: OperandVisitor<R>>(&mut self, visitor: &mut V)
        requires
            gprmem_visitable(old(self).rm8),
        ensures
            final(visitor).events() == old(visitor).events() + gprmem_visit_trace(
                old(self).rm8,
                VisitKind::ReadWrite,
            ),
            gprmem_same_shape(old(self).rm8, final(self).rm8),
            final(self).imm8 == old(self).imm8,
    {
        self.rm8.read_write(visitor);
    }
}

/// `andw $imm16, rm16`: AND a word register or memory location with an immediate.
#[derive(Clone, Debug)]
pub struct andw_mi<R: Registers> {
    pub rm16: GprMem<R::ReadWriteGpr, R::ReadGpr>,
    pub imm16: Imm16,
}

impl<R: Registers> andw_mi<R> {
    /// The REX flags of this instruction.
    pub open spec fn spec_flags(&self) -> RexFlags {
        RexFlags { w: false, always: false }
    }

    /// The bytes this instruction encodes to, given the late-bound offsets.
    pub open spec fn spec_code(&self, offsets: Seq<i32>) -> Seq<u8> {
        seq![0x66u8] + gprmem_rex_seq(self.rm16, self.spec_flags(), 4)
            + seq![0x81u8] + gprmem_modrm_code(self.rm16, 4, offsets, 2)
            + simm_seq(2, self.imm16.0 as u32)
    }

    /// The traps this instruction registers when encoded at offset `start`.
    pub open spec fn spec_traps(&self, start: int) -> Seq<(u32, TrapCode)> {
        gprmem_traps(self.rm16, start)
    }

    /// The label uses this instruction records when encoded at offset
    /// `start`: at most one, at its RIP-relative displacement field.
    pub open spec fn spec_label_uses(&self, start: int) -> Seq<(u32, Label)> {
        gprmem_label_uses(
            self.rm16,
            start + 1 + gprmem_rex_seq(self.rm16, self.spec_flags(), 4).len() + 1,
        )
    }

    /// Encode the instruction into `buf`, resolving late-bound displacements
    /// through `off`.
    pub fn encode<S: CodeSink, T: KnownOffsetTable>(&self, buf: &mut S, off: &T)
        requires
            gprmem_encodable(self.rm16, off.offsets()),
            old(buf).bytes().len() + 32 <= 0xffff_ffff,
        ensures
            final(buf).bytes() == old(buf).bytes() + self.spec_code(off.offsets()),
            final(buf).traps() == old(buf).traps() + self.spec_traps(
                old(buf).bytes().len() as int,
            ),
            final(buf).label_uses() == old(buf).label_uses() + self.spec_label_uses(
                old(buf).bytes().len() as int,
            ),
    {
        // Emit trap.
        if let GprMem::Mem(op) = &self.rm16 {
            if let Some(trap_code) = op.trap_code() {
                buf.add_trap(trap_code);
            }
        }
        // Emit legacy prefixes.
        buf.put1(0x66);
        // Emit REX prefix.
        let rex = RexFlags::clear_w();
        let digit: u8 = 4;
        match &self.rm16 {
            GprMem::Gpr(dst) => rex.emit_two_op(buf, digit, dst.enc()),
            GprMem::Mem(dst) => dst.emit_rex_prefix(rex, digit, buf),
        }
        // Emit opcode.
        buf.put1(0x81);
        // Emit ModR/M byte.
        match &self.rm16 {
            GprMem::Gpr(dst) => emit_modrm(buf, digit, dst.enc()),
            GprMem::Mem(dst) => emit_modrm_sib_disp(buf, off, digit, dst, 2),
        }
        // Emit immediates.
        emit_simm(buf, 2, self.imm16.value() as u32);
        proof {
            assert(final(buf).bytes() =~= old(buf).bytes() + self.spec_code(off.offsets()));
            assert(final(buf).traps() =~= old(buf).traps() + self.spec_traps(
                old(buf).bytes().len() as int,
            ));
            assert(final(buf).label_uses() =~= old(buf).label_uses() + self.spec_label_uses(
                old(buf).bytes().len() as int,
            ));
        }
    }

    /// Present the instruction's operands to the allocator, in format order:
    /// the register-or-memory destination as a read-write, and nothing for
    /// the immediate.
    pub fn visit_operands<V: OperandVisitor<R>>(&mut self, visitor: &mut V)
        requires
            gprmem_visitable(old(self).rm16),
        ensures
            final(visitor).events() == old(visitor).events() + gprmem_visit_trace(
                old(self).rm16,
                VisitKind::ReadWrite,
            ),
            gprmem_same_shape(old(self).rm16, final(self).rm16),
            final(self).imm16 == old(self).imm16,
    {
        self.rm16.read_write(visitor);
    }
}

/// `andl $imm32, rm32`: AND a doubleword register or memory location with an immediate.
#[derive(Clone, Debug)]
pub struct andl_mi<R: Registers> {
    pub rm32: GprMem<R::ReadWriteGpr, R::ReadGpr>,
    pub imm32: Imm32,
}

impl<R: Registers> andl_mi<R> {
    /// The REX flags of this instruction.
    pub open spec fn spec_flags(&self) -> RexFlags {
        RexFlags { w: false, always: false }
    }

    /// The bytes this instruction encodes to, given the late-bound offsets.
    pub open spec fn spec_code(&self, offsets: Seq<i32>) -> Seq<u8> {
        Seq::<u8>::empty() + gprmem_rex_seq(self.rm32, self.spec_flags(), 4)
            + seq![0x81u8] + gprmem_modrm_code(self.rm32, 4, offsets, 4)
            + simm_seq(4, self.imm32.0 as u32)
    }

    /// The traps this instruction registers when encoded at offset `start`.
    pub open spec fn spec_traps(&self, start: int) -> Seq<(u32, TrapCode)> {
        gprmem_traps(self.rm32, start)
    }

    /// The label uses this instruction records when encoded at offset
    /// `start`: at most one, at its RIP-relative displacement field.
    pub open spec fn spec_label_uses(&self, start: int) -> Seq<(u32, Label)> {
        gprmem_label_uses(
            self.rm32,
            start + 0 + gprmem_rex_seq(self.rm32, self.spec_flags(), 4).len() + 1,
        )
    }

    /// Encode the instruction into `buf`, resolving late-bound displacements
    /// through `off`.
    pub fn encode<S: CodeSink, T: KnownOffsetTable>(&self, buf: &mut S, off: &T)
        requires
            gprmem_encodable(self.rm32, off.offsets()),
            old(buf).bytes().len() + 32 <= 0xffff_ffff,
        ensures
            final(buf).bytes() == old(buf).bytes() + self.spec_code(off.offsets()),
            final(buf).traps() == old(buf).traps() + self.spec_traps(
                old(buf).bytes().len() as int,
            ),
            final(buf).label_uses() == old(buf).label_uses() + self.spec_label_uses(
                old(buf).bytes().len() as int,
            ),
    {
        // Emit trap.
        if let GprMem::Mem(op) = &self.rm32 {
            if let Some(trap_code) = op.trap_code() {
                buf.add_trap(trap_code);
            }
        }
        // Emit REX prefix.
        let rex = RexFlags::clear_w();
        let digit: u8 = 4;
        match &self.rm32 {
            GprMem::Gpr(dst) => rex.emit_two_op(buf, digit, dst.enc()),
            GprMem::Mem(dst) => dst.emit_rex_prefix(rex, digit, buf),
        }
        // Emit opcode.
        buf.put1(0x81);
        // Emit ModR/M byte.
        match &self.rm32 {
            GprMem::Gpr(dst) => emit_modrm(buf, digit, dst.enc()),
            GprMem::Mem(dst) => emit_modrm_sib_disp(buf, off, digit, dst, 4),
        }
        // Emit immediates.
        emit_simm(buf, 4, self.imm32.value() as u32);
        proof {
            assert(final(buf).bytes() =~= old(buf).bytes() + self.spec_code(off.offsets()));
            assert(final(buf).traps() =~= old(buf).traps() + self.spec_traps(
                old(buf).bytes().len() as int,
            ));
            assert(final(buf).label_uses() =~= old(buf).label_uses() + self.spec_label_uses(
                old(buf).bytes().len() as int,
            ));
        }
    }

    /// Present the instruction's operands to the allocator, in format order:
    /// the register-or-memory destination as a read-write, and nothing for
    /// the immediate.
    pub fn visit_operands<V: OperandVisitor<R>>(&mut self, visitor: &mut V)
        requires
            gprmem_visitable(old(self).rm32),
        ensures
            final(visitor).events() == old(visitor).events() + gprmem_visit_trace(
                old(self).rm32,
                VisitKind::ReadWrite,
            ),
            gprmem_same_shape(old(self).rm32, final(self).rm32),
            final(self).imm32 == old(self).imm32,
    {
        self.rm32.read_write(visitor);
    }
}

/// `andq $imm32, rm64`: AND a quadword register or memory location with a sign-extended doubleword immediate.
#[derive(Clone, Debug)]
pub struct andq_mi_sx<R: Registers> {
    pub rm64: GprMem<R::ReadWriteGpr, R::ReadGpr>,
    pub imm32: Imm32,
}

impl<R: Registers> andq_mi_sx<R> {
    /// The REX flags of this instruction.
    pub open spec fn spec_flags(&self) -> RexFlags {
        RexFlags { w: true, always: false }
    }

    /// The bytes this instruction encodes to, given the late-bound offsets.
    pub open spec fn spec_code(&self, offsets: Seq<i32>) -> Seq<u8> {
        Seq::<u8>::empty() + gprmem_rex_seq(self.rm64, self.spec_flags(), 4)
            + seq![0x81u8] + gprmem_modrm_code(self.rm64, 4, offsets, 4)
            + simm_seq(4, self.imm32.0 as u32)
    }

    /// The traps this instruction registers when encoded at offset `start`.
    pub open spec fn spec_traps(&self, start: int) -> Seq<(u32, TrapCode)> {
        gprmem_traps(self.rm64, start)
    }

    /// The label uses this instruction records when encoded at offset
    /// `start`: at most one, at its RIP-relative displacement field.
    pub open spec fn spec_label_uses(&self, start: int) -> Seq<(u32, Label)> {
        gprmem_label_uses(
            self.rm64,
            start + 0 + gprmem_rex_seq(self.rm64, self.spec_flags(), 4).len() + 1,
        )
    }

    /// Encode the instruction into `buf`, resolving late-bound displacements
    /// through `off`.
    pub fn encode<S: CodeSink, T: KnownOffsetTable>(&self, buf: &mut S, off: &T)
        requires
            gprmem_encodable(self.rm64, off.offsets()),
            old(buf).bytes().len() + 32 <= 0xffff_ffff,
        ensures
            final(buf).bytes() == old(buf).bytes() + self.spec_code(off.offsets()),
            final(buf).traps() == old(buf).traps() + self.spec_traps(
                old(buf).bytes().len() as int,
            ),
            final(buf).label_uses() == old(buf).label_uses() + self.spec_label_uses(
                old(buf).bytes().len() as int,
            ),
    {
        // Emit trap.
        if let GprMem::Mem(op) = &self.rm64 {
            if let Some(trap_code) = op.trap_code() {
                buf.add_trap(trap_code);
            }
        }
        // Emit REX prefix.
        let rex = RexFlags::set_w();
        let digit: u8 = 4;
        match &self.rm64 {
            GprMem::Gpr(dst) => rex.emit_two_op(buf, digit, dst.enc()),
            GprMem::Mem(dst) => dst.emit_rex_prefix(rex, digit, buf),
        }
        // Emit opcode.
        buf.put1(0x81);
        // Emit ModR/M byte.
        match &self.rm64 {
            GprMem::Gpr(dst) => emit_modrm(buf, digit, dst.enc()),
            GprMem::Mem(dst) => emit_modrm_sib_disp(buf, off, digit, dst, 4),
        }
        // Emit immediates.
        emit_simm(buf, 4, self.imm32.value() as u32);
        proof {
            assert(final(buf).bytes() =~= old(buf).bytes() + self.spec_code(off.offsets()));
            assert(final(buf).traps() =~= old(buf).traps() + self.spec_traps(
                old(buf).bytes().len() as int,
            ));
            assert(final(buf).label_uses() =~= old(buf).label_uses() + self.spec_label_uses(
                old(buf).bytes().len() as int,
            ));
        }
    }

    /// Present the instruction's operands to the allocator, in format order:
    /// the register-or-memory destination as a read-write, and nothing for
    /// the immediate.
    pub fn visit_operands<V: OperandVisitor<R>>(&mut self, visitor: &mut V)
        requires
            gprmem_visitable(old(self).rm64),
        ensures
            final(visitor).events() == old(visitor).events() + gprmem_visit_trace(
                old(self).rm64,
                VisitKind::ReadWrite,
            ),
            gprmem_same_shape(old(self).rm64, final(self).rm64),
            final(self).imm32 == old(self).imm32,
    {
        self.rm64.read_write(visitor);
    }
}

/// `andl $imm8, rm32`: AND a doubleword register or memory location with a sign-extended byte immediate.
#[derive(Clone, Debug)]
pub struct andl_mi_sx<R: Registers> {
    pub rm32: GprMem<R::ReadWriteGpr, R::ReadGpr>,
    pub imm8: Imm8,
}

impl<R: Registers> andl_mi_sx<R> {
    /// The REX flags of this instruction.
    pub open spec fn spec_flags(&self) -> RexFlags {
        RexFlags { w: false, always: false }
    }

    /// The bytes this instruction encodes to, given the late-bound offsets.
    pub open spec fn spec_code(&self, offsets: Seq<i32>) -> Seq<u8> {
        Seq::<u8>::empty() + gprmem_rex_seq(self.rm32, self.spec_flags(), 4)
            + seq![0x83u8] + gprmem_modrm_code(self.rm32, 4, offsets, 1)
            + simm_seq(1, self.imm8.0 as u32)
    }

    /// The traps this instruction registers when encoded at offset `start`.
    pub open spec fn spec_traps(&self, start: int) -> Seq<(u32, TrapCode)> {
        gprmem_traps(self.rm32, start)
    }

    /// The label uses this instruction records when encoded at offset
    /// `start`: at most one, at its RIP-relative displacement field.
    pub open spec fn spec_label_uses(&self, start: int) -> Seq<(u32, Label)> {
        gprmem_label_uses(
            self.rm32,
            start + 0 + gprmem_rex_seq(self.rm32, self.spec_flags(), 4).len() + 1,
        )
    }

    /// Encode the instruction into `buf`, resolving late-bound displacements
    /// through `off`.
    pub fn encode<S: CodeSink, T: KnownOffsetTable>(&self, buf: &mut S, off: &T)
        requires
            gprmem_encodable(self.rm32, off.offsets()),
            old(buf).bytes().len() + 32 <= 0xffff_ffff,
        ensures
            final(buf).bytes() == old(buf).bytes() + self.spec_code(off.offsets()),
            final(buf).traps() == old(buf).traps() + self.spec_traps(
                old(buf).bytes().len() as int,
            ),
            final(buf).label_uses() == old(buf).label_uses() + self.spec_label_uses(
                old(buf).bytes().len() as int,
            ),
    {
        // Emit trap.
        if let GprMem::Mem(op) = &self.rm32 {
            if let Some(trap_code) = op.trap_code() {
                buf.add_trap(trap_code);
            }
        }
        // Emit REX prefix.
        let rex = RexFlags::clear_w();
        let digit: u8 = 4;
        match &self.rm32 {
            GprMem::Gpr(dst) => rex.emit_two_op(buf, digit, dst.enc()),
            GprMem::Mem(dst) => dst.emit_rex_prefix(rex, digit, buf),
        }
        // Emit opcode.
        buf.put1(0x83);
        // Emit ModR/M byte.
        match &self.rm32 {
            GprMem::Gpr(dst) => emit_modrm(buf, digit, dst.enc()),
            GprMem::Mem(dst) => emit_modrm_sib_disp(buf, off, digit, dst, 1),
        }
        // Emit immediates.
        emit_simm(buf, 1, self.imm8.value() as u32);
        proof {
            assert(final(buf).bytes() =~= old(buf).bytes() + self.spec_code(off.offsets()));
            assert(final(buf).traps() =~= old(buf).traps() + self.spec_traps(
                old(buf).bytes().len() as int,
            ));
            assert(final(buf).label_uses() =~= old(buf).label_uses() + self.spec_label_uses(
                old(buf).bytes().len() as int,
            ));
        }
    }

    /// Present the instruction's operands to the allocator, in format order:
    /// the register-or-memory destination as a read-write, and nothing for
    /// the immediate.
    pub fn visit_operands<V: OperandVisitor<R>>(&mut self, visitor: &mut V)
        requires
            gprmem_visitable(old(self).rm32),
        ensures
            final(visitor).events() == old(visitor).events() + gprmem_visit_trace(
                old(self).rm32,
                VisitKind::ReadWrite,
            ),
            gprmem_same_shape(old(self).rm32, final(self).rm32),
            final(self).imm8 == old(self).imm8,
    {
        self.rm32.read_write(visitor);
    }
}

/// `andq $imm8, rm64`: AND a quadword register or memory location with a sign-extended byte immediate.
#[derive(Clone, Debug)]
pub struct andq_mi_sxb<R: Registers> {
    pub rm64: GprMem<R::ReadWriteGpr, R::ReadGpr>,
    pub imm8: Imm8,
}

impl<R: Registers> andq_mi_sxb<R> {
    /// The REX flags of this instruction.
    pub open spec fn spec_flags(&self) -> RexFlags {
        RexFlags { w: true, always: false }
    }

    /// The bytes this instruction encodes to, given the late-bound offsets.
    pub open spec fn spec_code(&self, offsets: Seq<i32>) -> Seq<u8> {
        Seq::<u8>::empty() + gprmem_rex_seq(self.rm64, self.spec_flags(), 4)
            + seq![0x83u8] + gprmem_modrm_code(self.rm64, 4, offsets, 1)
            + simm_seq(1, self.imm8.0 as u32)
    }

    /// The traps this instruction registers when encoded at offset `start`.
    pub open spec fn spec_traps(&self, start: int) -> Seq<(u32, TrapCode)> {
        gprmem_traps(self.rm64, start)
    }

    /// The label uses this instruction records when encoded at offset
    /// `start`: at most one, at its RIP-relative displacement field.
    pub open spec fn spec_label_uses(&self, start: int) -> Seq<(u32, Label)> {
        gprmem_label_uses(
            self.rm64,
            start + 0 + gprmem_rex_seq(self.rm64, self.spec_flags(), 4).len() + 1,
        )
    }

    /// Encode the instruction into `buf`, resolving late-bound displacements
    /// through `off`.
    pub fn encode<S: CodeSink, T: KnownOffsetTable>(&self, buf: &mut S, off: &T)
        requires
            gprmem_encodable(self.rm64, off.offsets()),
            old(buf).bytes().len() + 32 <= 0xffff_ffff,
        ensures
            final(buf).bytes() == old(buf).bytes() + self.spec_code(off.offsets()),
            final(buf).traps() == old(buf).traps() + self.spec_traps(
                old(buf).bytes().len() as int,
            ),
            final(buf).label_uses() == old(buf).label_uses() + self.spec_label_uses(
                old(buf).bytes().len() as int,
            ),
    {
        // Emit trap.
        if let GprMem::Mem(op) = &self.rm64 {
            if let Some(trap_code) = op.trap_code() {
                buf.add_trap(trap_code);
            }
        }
        // Emit REX prefix.
        let rex = RexFlags::set_w();
        let digit: u8 = 4;
        match &self.rm64 {
            GprMem::Gpr(dst) => rex.emit_two_op(buf, digit, dst.enc()),
            GprMem::Mem(dst) => dst.emit_rex_prefix(rex, digit, buf),
        }
        // Emit opcode.
        buf.put1(0x83);
        // Emit ModR/M byte.
        match &self.rm64 {
            GprMem::Gpr(dst) => emit_modrm(buf, digit, dst.enc()),
            GprMem::Mem(dst) => emit_modrm_sib_disp(buf, off, digit, dst, 1),
        }
        // Emit immediates.
        emit_simm(buf, 1, self.imm8.value() as u32);
        proof {
            assert(final(buf).bytes() =~= old(buf).bytes() + self.spec_code(off.offsets()));
            assert(final(buf).traps() =~= old(buf).traps() + self.spec_traps(
                old(buf).bytes().len() as int,
            ));
            assert(final(buf).label_uses() =~= old(buf).label_uses() + self.spec_label_uses(
                old(buf).bytes().len() as int,
            ));
        }
    }

    /// Present the instruction's operands to the allocator, in format order:
    /// the register-or-memory destination as a read-write, and nothing for
    /// the immediate.
    pub fn visit_operands<V: OperandVisitor<R>>(&mut self, visitor: &mut V)
        requires
            gprmem_visitable(old(self).rm64),
        ensures
            final(visitor).events() == old(visitor).events() + gprmem_visit_trace(
                old(self).rm64,
                VisitKind::ReadWrite,
            ),
            gprmem_same_shape(old(self).rm64, final(self).rm64),
            final(self).imm8 == old(self).imm8,
    {
        self.rm64.read_write(visitor);
    }
}

/// `andb r8, rm8`: AND a byte register or memory location with a register.
#[derive(Clone, Debug)]
pub struct andb_mr<R: Registers> {
    pub rm8: GprMem<R::ReadWriteGpr, R::ReadGpr>,
    pub r8: Gpr<R::ReadGpr>,
}

impl<R: Registers> andb_mr<R> {
    /// The REX flags of this instruction.
    pub open spec fn spec_flags(&self) -> RexFlags {
        RexFlags { w: false, always: gprmem_needs8(self.rm8) || needs_rex8(self.r8@) }
    }

    /// The bytes this instruction encodes to, given the late-bound offsets.
    pub open spec fn spec_code(&self, offsets: Seq<i32>) -> Seq<u8> {
        Seq::<u8>::empty() + gprmem_rex_seq(self.rm8, self.spec_flags(), self.r8@)
            + seq![0x20u8] + gprmem_modrm_code(self.rm8, self.r8@, offsets, 0)
    }

    /// The traps this instruction registers when encoded at offset `start`.
    pub open spec fn spec_traps(&self, start: int) -> Seq<(u32, TrapCode)> {
        gprmem_traps(self.rm8, start)
    }

    /// The label uses this instruction records when encoded at offset
    /// `start`: at most one, at its RIP-relative displacement field.
    pub open spec fn spec_label_uses(&self, start: int) -> Seq<(u32, Label)> {
        gprmem_label_uses(
            self.rm8,
            start + 0
                + gprmem_rex_seq(self.rm8, self.spec_flags(), self.r8@).len() + 1,
        )
    }

    /// Encode the instruction into `buf`, resolving late-bound displacements
    /// through `off`.
    pub fn encode<S: CodeSink, T: KnownOffsetTable>(&self, buf: &mut S, off: &T)
        requires
            gprmem_encodable(self.rm8, off.offsets()),
            self.r8.enc_ready(),
            old(buf).bytes().len() + 32 <= 0xffff_ffff,
        ensures
            final(buf).bytes() == old(buf).bytes() + self.spec_code(off.offsets()),
            final(buf).traps() == old(buf).traps() + self.spec_traps(
                old(buf).bytes().len() as int,
            ),
            final(buf).label_uses() == old(buf).label_uses() + self.spec_label_uses(
                old(buf).bytes().len() as int,
            ),
    {
        // Emit trap.
        if let GprMem::Mem(op) = &self.rm8 {
            if let Some(trap_code) = op.trap_code() {
                buf.add_trap(trap_code);
            }
        }
        // Emit REX prefix.
        let mut rex = RexFlags::clear_w();
        self.rm8.always_emit_if_8bit_needed(&mut rex);
        self.r8.always_emit_if_8bit_needed(&mut rex);
        let reg = self.r8.enc();
        match &self.rm8 {
            GprMem::Gpr(e) => rex.emit_two_op(buf, reg, e.enc()),
            GprMem::Mem(e) => e.emit_rex_prefix(rex, reg, buf),
        }
        // Emit opcode.
        buf.put1(0x20);
        // Emit ModR/M byte.
        match &self.rm8 {
            GprMem::Gpr(e) => emit_modrm(buf, reg, e.enc()),
            GprMem::Mem(e) => emit_modrm_sib_disp(buf, off, reg, e, 0),
        }
        proof {
            assert(final(buf).bytes() =~= old(buf).bytes() + self.spec_code(off.offsets()));
            assert(final(buf).traps() =~= old(buf).traps() + self.spec_traps(
                old(buf).bytes().len() as int,
            ));
            assert(final(buf).label_uses() =~= old(buf).label_uses() + self.spec_label_uses(
                old(buf).bytes().len() as int,
            ));
        }
    }

    /// Present the instruction's operands to the allocator, in format order:
    /// the register-or-memory destination as a read-write, then the register
    /// source as a read.
    pub fn visit_operands<V: OperandVisitor<R>>(&mut self, visitor: &mut V)
        requires
            gprmem_visitable(old(self).rm8),
        ensures
            final(visitor).events() == old(visitor).events() + (gprmem_visit_trace(
                old(self).rm8,
                VisitKind::ReadWrite,
            ) + seq![VisitKind::Read]),
            gprmem_same_shape(old(self).rm8, final(self).rm8),
    {
        self.rm8.read_write(visitor);
        self.r8.read(visitor);
    }
}

/// `andb r8, rm8` with REX.W: AND a byte register or memory location with a register.
#[derive(Clone, Debug)]
pub struct andb_mr_sx<R: Registers> {
    pub rm8: GprMem<R::ReadWriteGpr, R::ReadGpr>,
    pub r8: Gpr<R::ReadGpr>,
}

impl<R: Registers> andb_mr_sx<R> {
    /// The REX flags of this instruction.
    pub open spec fn spec_flags(&self) -> RexFlags {
        RexFlags { w: true, always: gprmem_needs8(self.rm8) || needs_rex8(self.r8@) }
    }

    /// The bytes this instruction encodes to, given the late-bound offsets.
    pub open spec fn spec_code(&self, offsets: Seq<i32>) -> Seq<u8> {
        Seq::<u8>::empty() + gprmem_rex_seq(self.rm8, self.spec_flags(), self.r8@)
            + seq![0x20u8] + gprmem_modrm_code(self.rm8, self.r8@, offsets, 0)
    }

    /// The traps this instruction registers when encoded at offset `start`.
    pub open spec fn spec_traps(&self, start: int) -> Seq<(u32, TrapCode)> {
        gprmem_traps(self.rm8, start)
    }

    /// The label uses this instruction records when encoded at offset
    /// `start`: at most one, at its RIP-relative displacement field.
    pub open spec fn spec_label_uses(&self, start: int) -> Seq<(u32, Label)> {
        gprmem_label_uses(
            self.rm8,
            start + 0
                + gprmem_rex_seq(self.rm8, self.spec_flags(), self.r8@).len() + 1,
        )
    }

    /// Encode the instruction into `buf`, resolving late-bound displacements
    /// through `off`.
    pub fn encode<S: CodeSink, T: KnownOffsetTable>(&self, buf: &mut S, off: &T)
        requires
            gprmem_encodable(self.rm8, off.offsets()),
            self.r8.enc_ready(),
            old(buf).bytes().len() + 32 <= 0xffff_ffff,
        ensures
            final(buf).bytes() == old(buf).bytes() + self.spec_code(off.offsets()),
            final(buf).traps() == old(buf).traps() + self.spec_traps(
                old(buf).bytes().len() as int,
            ),
            final(buf).label_uses() == old(buf).label_uses() + self.spec_label_uses(
                old(buf).bytes().len() as int,
            ),
    {
        // Emit trap.
        if let GprMem::Mem(op) = &self.rm8 {
            if let Some(trap_code) = op.trap_code() {
                buf.add_trap(trap_code);
            }
        }
        // Emit REX prefix.
        let mut rex = RexFlags::set_w();
        self.rm8.always_emit_if_8bit_needed(&mut rex);
        self.r8.always_emit_if_8bit_needed(&mut rex);
        let reg = self.r8.enc();
        match &self.rm8 {
            GprMem::Gpr(e) => rex.emit_two_op(buf, reg, e.enc()),
            GprMem::Mem(e) => e.emit_rex_prefix(rex, reg, buf),
        }
        // Emit opcode.
        buf.put1(0x20);
        // Emit ModR/M byte.
        match &self.rm8 {
            GprMem::Gpr(e) => emit_modrm(buf, reg, e.enc()),
            GprMem::Mem(e) => emit_modrm_sib_disp(buf, off, reg, e, 0),
        }
        proof {
            assert(final(buf).bytes() =~= old(buf).bytes() + self.spec_code(off.offsets()));
            assert(final(buf).traps() =~= old(buf).traps() + self.spec_traps(
                old(buf).bytes().len() as int,
            ));
            assert(final(buf).label_uses() =~= old(buf).label_uses() + self.spec_label_uses(
                old(buf).bytes().len() as int,
            ));
        }
    }

    /// Present the instruction's operands to the allocator, in format order:
    /// the register-or-memory destination as a read-write, then the register
    /// source as a read.
    pub fn visit_operands<V: OperandVisitor<R>>(&mut self, visitor: &mut V)
        requires
            gprmem_visitable(old(self).rm8),
        ensures
            final(visitor).events() == old(visitor).events() + (gprmem_visit_trace(
                old(self).rm8,
                VisitKind::ReadWrite,
            ) + seq![VisitKind::Read]),
            gprmem_same_shape(old(self).rm8, final(self).rm8),
    {
        self.rm8.read_write(visitor);
        self.r8.read(visitor);
    }
}

/// `andw r16, rm16`: AND a word register or memory location with a register.
#[derive(Clone, Debug)]
pub struct andw_mr<R: Registers> {
    pub rm16: GprMem<R::ReadWriteGpr, R::ReadGpr>,
    pub r16: Gpr<R::ReadGpr>,
}

impl<R: Registers> andw_mr<R> {
    /// The REX flags of this instruction.
    pub open spec fn spec_flags(&self) -> RexFlags {
        RexFlags { w: false, always: false }
    }

    /// The bytes this instruction encodes to, given the late-bound offsets.
    pub open spec fn spec_code(&self, offsets: Seq<i32>) -> Seq<u8> {
        seq![0x66u8] + gprmem_rex_seq(self.rm16, self.spec_flags(), self.r16@)
            + seq![0x21u8] + gprmem_modrm_code(self.rm16, self.r16@, offsets, 0)
    }

    /// The traps this instruction registers when encoded at offset `start`.
    pub open spec fn spec_traps(&self, start: int) -> Seq<(u32, TrapCode)> {
        gprmem_traps(self.rm16, start)
    }

    /// The label uses this instruction records when encoded at offset
    /// `start`: at most one, at its RIP-relative displacement field.
    pub open spec fn spec_label_uses(&self, start: int) -> Seq<(u32, Label)> {
        gprmem_label_uses(
            self.rm16,
            start + 1
                + gprmem_rex_seq(self.rm16, self.spec_flags(), self.r16@).len() + 1,
        )
    }

    /// Encode the instruction into `buf`, resolving late-bound displacements
    /// through `off`.
    pub fn encode<S: CodeSink, T: KnownOffsetTable>(&self, buf: &mut S, off: &T)
        requires
            gprmem_encodable(self.rm16, off.offsets()),
            self.r16.enc_ready(),
            old(buf).bytes().len() + 32 <= 0xffff_ffff,
        ensures
            final(buf).bytes() == old(buf).bytes() + self.spec_code(off.offsets()),
            final(buf).traps() == old(buf).traps() + self.spec_traps(
                old(buf).bytes().len() as int,
            ),
            final(buf).label_uses() == old(buf).label_uses() + self.spec_label_uses(
                old(buf).bytes().len() as int,
            ),
    {
        // Emit trap.
        if let GprMem::Mem(op) = &self.rm16 {
            if let Some(trap_code) = op.trap_code() {
                buf.add_trap(trap_code);
            }
        }
        // Emit legacy prefixes.
        buf.put1(0x66);
        // Emit REX prefix.
        let rex = RexFlags::clear_w();
        let reg = self.r16.enc();
        match &self.rm16 {
            GprMem::Gpr(e) => rex.emit_two_op(buf, reg, e.enc()),
            GprMem::Mem(e) => e.emit_rex_prefix(rex, reg, buf),
        }
        // Emit opcode.
        buf.put1(0x21);
        // Emit ModR/M byte.
        match &self.rm16 {
            GprMem::Gpr(e) => emit_modrm(buf, reg, e.enc()),
            GprMem::Mem(e) => emit_modrm_sib_disp(buf, off, reg, e, 0),
        }
        proof {
            assert(final(buf).bytes() =~= old(buf).bytes() + self.spec_code(off.offsets()));
            assert(final(buf).traps() =~= old(buf).traps() + self.spec_traps(
                old(buf).bytes().len() as int,
            ));
            assert(final(buf).label_uses() =~= old(buf).label_uses() + self.spec_label_uses(
                old(buf).bytes().len() as int,
            ));
        }
    }

    /// Present the instruction's operands to the allocator, in format order:
    /// the register-or-memory destination as a read-write, then the register
    /// source as a read.
    pub fn visit_operands<V: OperandVisitor<R>>(&mut self, visitor: &mut V)
        requires
            gprmem_visitable(old(self).rm16),
        ensures
            final(visitor).events() == old(visitor).events() + (gprmem_visit_trace(
                old(self).rm16,
                VisitKind::ReadWrite,
            ) + seq![VisitKind::Read]),
            gprmem_same_shape(old(self).rm16, final(self).rm16),
    {
        self.rm16.read_write(visitor);
        self.r16.read(visitor);
    }
}

/// `andl r32, rm32`: AND a doubleword register or memory location with a register.
#[derive(Clone, Debug)]
pub struct andl_mr<R: Registers> {
    pub rm32: GprMem<R::ReadWriteGpr, R::ReadGpr>,
    pub r32: Gpr<R::ReadGpr>,
}

impl<R: Registers> andl_mr<R> {
    /// The REX flags of this instruction.
    pub open spec fn spec_flags(&self) -> RexFlags {
        RexFlags { w: false, always: false }
    }

    /// The bytes this instruction encodes to, given the late-bound offsets.
    pub open spec fn spec_code(&self, offsets: Seq<i32>) -> Seq<u8> {
        Seq::<u8>::empty() + gprmem_rex_seq(self.rm32, self.spec_flags(), self.r32@)
            + seq![0x21u8] + gprmem_modrm_code(self.rm32, self.r32@, offsets, 0)
    }

    /// The traps this instruction registers when encoded at offset `start`.
    pub open spec fn spec_traps(&self, start: int) -> Seq<(u32, TrapCode)> {
        gprmem_traps(self.rm32, start)
    }

    /// The label uses this instruction records when encoded at offset
    /// `start`: at most one, at its RIP-relative displacement field.
    pub open spec fn spec_label_uses(&self, start: int) -> Seq<(u32, Label)> {
        gprmem_label_uses(
            self.rm32,
            start + 0
                + gprmem_rex_seq(self.rm32, self.spec_flags(), self.r32@).len() + 1,
        )
    }

    /// Encode the instruction into `buf`, resolving late-bound displacements
    /// through `off`.
    pub fn encode<S: CodeSink, T: KnownOffsetTable>(&self, buf: &mut S, off: &T)
        requires
            gprmem_encodable(self.rm32, off.offsets()),
            self.r32.enc_ready(),
            old(buf).bytes().len() + 32 <= 0xffff_ffff,
        ensures
            final(buf).bytes() == old(buf).bytes() + self.spec_code(off.offsets()),
            final(buf).traps() == old(buf).traps() + self.spec_traps(
                old(buf).bytes().len() as int,
            ),
            final(buf).label_uses() == old(buf).label_uses() + self.spec_label_uses(
                old(buf).bytes().len() as int,
            ),
    {
        // Emit trap.
        if let GprMem::Mem(op) = &self.rm32 {
            if let Some(trap_code) = op.trap_code() {
                buf.add_trap(trap_code);
            }
        }
        // Emit REX prefix.
        let rex = RexFlags::clear_w();
        let reg = self.r32.enc();
        match &self.rm32 {
            GprMem::Gpr(e) => rex.emit_two_op(buf, reg, e.enc()),
            GprMem::Mem(e) => e.emit_rex_prefix(rex, reg, buf),
        }
        // Emit opcode.
        buf.put1(0x21);
        // Emit ModR/M byte.
        match &self.rm32 {
            GprMem::Gpr(e) => emit_modrm(buf, reg, e.enc()),
            GprMem::Mem(e) => emit_modrm_sib_disp(buf, off, reg, e, 0),
        }
        proof {
            assert(final(buf).bytes() =~= old(buf).bytes() + self.spec_code(off.offsets()));
            assert(final(buf).traps() =~= old(buf).traps() + self.spec_traps(
                old(buf).bytes().len() as int,
            ));
            assert(final(buf).label_uses() =~= old(buf).label_uses() + self.spec_label_uses(
                old(buf).bytes().len() as int,
            ));
        }
    }

    /// Present the instruction's operands to the allocator, in format order:
    /// the register-or-memory destination as a read-write, then the register
    /// source as a read.
    pub fn visit_operands<V: OperandVisitor<R>>(&mut self, visitor: &mut V)
        requires
            gprmem_visitable(old(self).rm32),
        ensures
            final(visitor).events() == old(visitor).events() + (gprmem_visit_trace(
                old(self).rm32,
                VisitKind::ReadWrite,
            ) + seq![VisitKind::Read]),
            gprmem_same_shape(old(self).rm32, final(self).rm32),
    {
        self.rm32.read_write(visitor);
        self.r32.read(visitor);
    }
}

/// `andq r64, rm64`: AND a quadword register or memory location with a register.
#[derive(Clone, Debug)]
pub struct andq_mr<R: Registers> {
    pub rm64: GprMem<R::ReadWriteGpr, R::ReadGpr>,
    pub r64: Gpr<R::ReadGpr>,
}

impl<R: Registers> andq_mr<R> {
    /// The REX flags of this instruction.
    pub open spec fn spec_flags(&self) -> RexFlags {
        RexFlags { w: true, always: false }
    }

    /// The bytes this instruction encodes to, given the late-bound offsets.
    pub open spec fn spec_code(&self, offsets: Seq<i32>) -> Seq<u8> {
        Seq::<u8>::empty() + gprmem_rex_seq(self.rm64, self.spec_flags(), self.r64@)
            + seq![0x21u8] + gprmem_modrm_code(self.rm64, self.r64@, offsets, 0)
    }

    /// The traps this instruction registers when encoded at offset `start`.
    pub open spec fn spec_traps(&self, start: int) -> Seq<(u32, TrapCode)> {
        gprmem_traps(self.rm64, start)
    }

    /// The label uses this instruction records when encoded at offset
    /// `start`: at most one, at its RIP-relative displacement field.
    pub open spec fn spec_label_uses(&self, start: int) -> Seq<(u32, Label)> {
        gprmem_label_uses(
            self.rm64,
            start + 0
                + gprmem_rex_seq(self.rm64, self.spec_flags(), self.r64@).len() + 1,
        )
    }

    /// Encode the instruction into `buf`, resolving late-bound displacements
    /// through `off`.
    pub fn encode<S: CodeSink, T: KnownOffsetTable>(&self, buf: &mut S, off: &T)
        requires
            gprmem_encodable(self.rm64, off.offsets()),
            self.r64.enc_ready(),
            old(buf).bytes().len() + 32 <= 0xffff_ffff,
        ensures
            final(buf).bytes() == old(buf).bytes() + self.spec_code(off.offsets()),
            final(buf).traps() == old(buf).traps() + self.spec_traps(
                old(buf).bytes().len() as int,
            ),
            final(buf).label_uses() == old(buf).label_uses() + self.spec_label_uses(
                old(buf).bytes().len() as int,
            ),
    {
        // Emit trap.
        if let GprMem::Mem(op) = &self.rm64 {
            if let Some(trap_code) = op.trap_code() {
                buf.add_trap(trap_code);
            }
        }
        // Emit REX prefix.
        let rex = RexFlags::set_w();
        let reg = self.r64.enc();
        match &self.rm64 {
            GprMem::Gpr(e) => rex.emit_two_op(buf, reg, e.enc()),
            GprMem::Mem(e) => e.emit_rex_prefix(rex, reg, buf),
        }
        // Emit opcode.
        buf.put1(0x21);
        // Emit ModR/M byte.
        match &self.rm64 {
            GprMem::Gpr(e) => emit_modrm(buf, reg, e.enc()),
            GprMem::Mem(e) => emit_modrm_sib_disp(buf, off, reg, e, 0),
        }
        proof {
            assert(final(buf).bytes() =~= old(buf).bytes() + self.spec_code(off.offsets()));
            assert(final(buf).traps() =~= old(buf).traps() + self.spec_traps(
                old(buf).bytes().len() as int,
            ));
            assert(final(buf).label_uses() =~= old(buf).label_uses() + self.spec_label_uses(
                old(buf).bytes().len() as int,
            ));
        }
    }

    /// Present the instruction's operands to the allocator, in format order:
    /// the register-or-memory destination as a read-write, then the register
    /// source as a read.
    pub fn visit_operands<V: OperandVisitor<R>>(&mut self, visitor: &mut V)
        requires
            gprmem_visitable(old(self).rm64),
        ensures
            final(visitor).events() == old(visitor).events() + (gprmem_visit_trace(
                old(self).rm64,
                VisitKind::ReadWrite,
            ) + seq![VisitKind::Read]),
            gprmem_same_shape(old(self).rm64, final(self).rm64),
    {
        self.rm64.read_write(visitor);
        self.r64.read(visitor);
    }
}

/// `andb rm8, r8`: AND a byte register with a register or memory location.
#[derive(Clone, Debug)]
pub struct andb_rm<R: Registers> {
    pub r8: Gpr<R::ReadWriteGpr>,
    pub rm8: GprMem<R::ReadGpr, R::ReadGpr>,
}

impl<R: Registers> andb_rm<R> {
    /// The REX flags of this instruction.
    pub open spec fn spec_flags(&self) -> RexFlags {
        RexFlags { w: false, always: needs_rex8(self.r8@) || gprmem_needs8(self.rm8) }
    }

    /// The bytes this instruction encodes to, given the late-bound offsets.
    pub open spec fn spec_code(&self, offsets: Seq<i32>) -> Seq<u8> {
        Seq::<u8>::empty() + gprmem_rex_seq(self.rm8, self.spec_flags(), self.r8@)
            + seq![0x22u8] + gprmem_modrm_code(self.rm8, self.r8@, offsets, 0)
    }

    /// The traps this instruction registers when encoded at offset `start`.
    pub open spec fn spec_traps(&self, start: int) -> Seq<(u32, TrapCode)> {
        gprmem_traps(self.rm8, start)
    }

    /// The label uses this instruction records when encoded at offset
    /// `start`: at most one, at its RIP-relative displacement field.
    pub open spec fn spec_label_uses(&self, start: int) -> Seq<(u32, Label)> {
        gprmem_label_uses(
            self.rm8,
            start + 0
                + gprmem_rex_seq(self.rm8, self.spec_flags(), self.r8@).len() + 1,
        )
    }

    /// Encode the instruction into `buf`, resolving late-bound displacements
    /// through `off`.
    pub fn encode<S: CodeSink, T: KnownOffsetTable>(&self, buf: &mut S, off: &T)
        requires
            gprmem_encodable(self.rm8, off.offsets()),
            self.r8.enc_ready(),
            old(buf).bytes().len() + 32 <= 0xffff_ffff,
        ensures
            final(buf).bytes() == old(buf).bytes() + self.spec_code(off.offsets()),
            final(buf).traps() == old(buf).traps() + self.spec_traps(
                old(buf).bytes().len() as int,
            ),
            final(buf).label_uses() == old(buf).label_uses() + self.spec_label_uses(
                old(buf).bytes().len() as int,
            ),
    {
        // Emit trap.
        if let GprMem::Mem(op) = &self.rm8 {
            if let Some(trap_code) = op.trap_code() {
                buf.add_trap(trap_code);
            }
        }
        // Emit REX prefix.
        let mut rex = RexFlags::clear_w();
        self.r8.always_emit_if_8bit_needed(&mut rex);
        self.rm8.always_emit_if_8bit_needed(&mut rex);
        let reg = self.r8.enc();
        match &self.rm8 {
            GprMem::Gpr(e) => rex.emit_two_op(buf, reg, e.enc()),
            GprMem::Mem(e) => e.emit_rex_prefix(rex, reg, buf),
        }
        // Emit opcode.
        buf.put1(0x22);
        // Emit ModR/M byte.
        match &self.rm8 {
            GprMem::Gpr(e) => emit_modrm(buf, reg, e.enc()),
            GprMem::Mem(e) => emit_modrm_sib_disp(buf, off, reg, e, 0),
        }
        proof {
            assert(final(buf).bytes() =~= old(buf).bytes() + self.spec_code(off.offsets()));
            assert(final(buf).traps() =~= old(buf).traps() + self.spec_traps(
                old(buf).bytes().len() as int,
            ));
            assert(final(buf).label_uses() =~= old(buf).label_uses() + self.spec_label_uses(
                old(buf).bytes().len() as int,
            ));
        }
    }

    /// Present the instruction's operands to the allocator, in format order:
    /// the register destination as a read-write, then the register-or-memory
    /// source as a read.
    pub fn visit_operands<V: OperandVisitor<R>>(&mut self, visitor: &mut V)
        requires
            gprmem_visitable(old(self).rm8),
        ensures
            final(visitor).events() == old(visitor).events() + (seq![VisitKind::ReadWrite] + gprmem_visit_trace(
                old(self).rm8,
                VisitKind::Read,
            )),
            gprmem_same_shape(old(self).rm8, final(self).rm8),
    {
        self.r8.read_write(visitor);
        self.rm8.read(visitor);
    }
}

/// `andb rm8, r8` with REX.W: AND a byte register with a register or memory location.
#[derive(Clone, Debug)]
pub struct andb_rm_sx<R: Registers> {
    pub r8: Gpr<R::ReadWriteGpr>,
    pub rm8: GprMem<R::ReadGpr, R::ReadGpr>,
}

impl<R: Registers> andb_rm_sx<R> {
    /// The REX flags of this instruction.
    pub open spec fn spec_flags(&self) -> RexFlags {
        RexFlags { w: true, always: needs_rex8(self.r8@) || gprmem_needs8(self.rm8) }
    }

    /// The bytes this instruction encodes to, given the late-bound offsets.
    pub open spec fn spec_code(&self, offsets: Seq<i32>) -> Seq<u8> {
        Seq::<u8>::empty() + gprmem_rex_seq(self.rm8, self.spec_flags(), self.r8@)
            + seq![0x22u8] + gprmem_modrm_code(self.rm8, self.r8@, offsets, 0)
    }

    /// The traps this instruction registers when encoded at offset `start`.
    pub open spec fn spec_traps(&self, start: int) -> Seq<(u32, TrapCode)> {
        gprmem_traps(self.rm8, start)
    }

    /// The label uses this instruction records when encoded at offset
    /// `start`: at most one, at its RIP-relative displacement field.
    pub open spec fn spec_label_uses(&self, start: int) -> Seq<(u32, Label)> {
        gprmem_label_uses(
            self.rm8,
            start + 0
                + gprmem_rex_seq(self.rm8, self.spec_flags(), self.r8@).len() + 1,
        )
    }

    /// Encode the instruction into `buf`, resolving late-bound displacements
    /// through `off`.
    pub fn encode<S: CodeSink, T: KnownOffsetTable>(&self, buf: &mut S, off: &T)
        requires
            gprmem_encodable(self.rm8, off.offsets()),
            self.r8.enc_ready(),
            old(buf).bytes().len() + 32 <= 0xffff_ffff,
        ensures
            final(buf).bytes() == old(buf).bytes() + self.spec_code(off.offsets()),
            final(buf).traps() == old(buf).traps() + self.spec_traps(
                old(buf).bytes().len() as int,
            ),
            final(buf).label_uses() == old(buf).label_uses() + self.spec_label_uses(
                old(buf).bytes().len() as int,
            ),
    {
        // Emit trap.
        if let GprMem::Mem(op) = &self.rm8 {
            if let Some(trap_code) = op.trap_code() {
                buf.add_trap(trap_code);
            }
        }
        // Emit REX prefix.
        let mut rex = RexFlags::set_w();
        self.r8.always_emit_if_8bit_needed(&mut rex);
        self.rm8.always_emit_if_8bit_needed(&mut rex);
        let reg = self.r8.enc();
        match &self.rm8 {
            GprMem::Gpr(e) => rex.emit_two_op(buf, reg, e.enc()),
            GprMem::Mem(e) => e.emit_rex_prefix(rex, reg, buf),
        }
        // Emit opcode.
        buf.put1(0x22);
        // Emit ModR/M byte.
        match &self.rm8 {
            GprMem::Gpr(e) => emit_modrm(buf, reg, e.enc()),
            GprMem::Mem(e) => emit_modrm_sib_disp(buf, off, reg, e, 0),
        }
        proof {
            assert(final(buf).bytes() =~= old(buf).bytes() + self.spec_code(off.offsets()));
            assert(final(buf).traps() =~= old(buf).traps() + self.spec_traps(
                old(buf).bytes().len() as int,
            ));
            assert(final(buf).label_uses() =~= old(buf).label_uses() + self.spec_label_uses(
                old(buf).bytes().len() as int,
            ));
        }
    }

    /// Present the instruction's operands to the allocator, in format order:
    /// the register destination as a read-write, then the register-or-memory
    /// source as a read.
    pub fn visit_operands<V: OperandVisitor<R>>(&mut self, visitor: &mut V)
        requires
            gprmem_visitable(old(self).rm8),
        ensures
            final(visitor).events() == old(visitor).events() + (seq![VisitKind::ReadWrite] + gprmem_visit_trace(
                old(self).rm8,
                VisitKind::Read,
            )),
            gprmem_same_shape(old(self).rm8, final(self).rm8),
    {
        self.r8.read_write(visitor);
        self.rm8.read(visitor);
    }
}

/// `andw rm16, r16`: AND a word register with a register or memory location.
#[derive(Clone, Debug)]
pub struct andw_rm<R: Registers> {
    pub r16: Gpr<R::ReadWriteGpr>,
    pub rm16: GprMem<R::ReadGpr, R::ReadGpr>,
}

impl<R: Registers> andw_rm<R> {
    /// The REX flags of this instruction.
    pub open spec fn spec_flags(&self) -> RexFlags {
        RexFlags { w: false, always: false }
    }

    /// The bytes this instruction encodes to, given the late-bound offsets.
    pub open spec fn spec_code(&self, offsets: Seq<i32>) -> Seq<u8> {
        seq![0x66u8] + gprmem_rex_seq(self.rm16, self.spec_flags(), self.r16@)
            + seq![0x23u8] + gprmem_modrm_code(self.rm16, self.r16@, offsets, 0)
    }

    /// The traps this instruction registers when encoded at offset `start`.
    pub open spec fn spec_traps(&self, start: int) -> Seq<(u32, TrapCode)> {
        gprmem_traps(self.rm16, start)
    }

    /// The label uses this instruction records when encoded at offset
    /// `start`: at most one, at its RIP-relative displacement field.
    pub open spec fn spec_label_uses(&self, start: int) -> Seq<(u32, Label)> {
        gprmem_label_uses(
            self.rm16,
            start + 1
                + gprmem_rex_seq(self.rm16, self.spec_flags(), self.r16@).len() + 1,
        )
    }

    /// Encode the instruction into `buf`, resolving late-bound displacements
    /// through `off`.
    pub fn encode<S: CodeSink, T: KnownOffsetTable>(&self, buf: &mut S, off: &T)
        requires
            gprmem_encodable(self.rm16, off.offsets()),
            self.r16.enc_ready(),
            old(buf).bytes().len() + 32 <= 0xffff_ffff,
        ensures
            final(buf).bytes() == old(buf).bytes() + self.spec_code(off.offsets()),
            final(buf).traps() == old(buf).traps() + self.spec_traps(
                old(buf).bytes().len() as int,
            ),
            final(buf).label_uses() == old(buf).label_uses() + self.spec_label_uses(
                old(buf).bytes().len() as int,
            ),
    {
        // Emit trap.
        if let GprMem::Mem(op) = &self.rm16 {
            if let Some(trap_code) = op.trap_code() {
                buf.add_trap(trap_code);
            }
        }
        // Emit legacy prefixes.
        buf.put1(0x66);
        // Emit REX prefix.
        let rex = RexFlags::clear_w();
        let reg = self.r16.enc();
        match &self.rm16 {
            GprMem::Gpr(e) => rex.emit_two_op(buf, reg, e.enc()),
            GprMem::Mem(e) => e.emit_rex_prefix(rex, reg, buf),
        }
        // Emit opcode.
        buf.put1(0x23);
        // Emit ModR/M byte.
        match &self.rm16 {
            GprMem::Gpr(e) => emit_modrm(buf, reg, e.enc()),
            GprMem::Mem(e) => emit_modrm_sib_disp(buf, off, reg, e, 0),
        }
        proof {
            assert(final(buf).bytes() =~= old(buf).bytes() + self.spec_code(off.offsets()));
            assert(final(buf).traps() =~= old(buf).traps() + self.spec_traps(
                old(buf).bytes().len() as int,
            ));
            assert(final(buf).label_uses() =~= old(buf).label_uses() + self.spec_label_uses(
                old(buf).bytes().len() as int,
            ));
        }
    }

    /// Present the instruction's operands to the allocator, in format order:
    /// the register destination as a read-write, then the register-or-memory
    /// source as a read.
    pub fn visit_operands<V: OperandVisitor<R>>(&mut self, visitor: &mut V)
        requires
            gprmem_visitable(old(self).rm16),
        ensures
            final(visitor).events() == old(visitor).events() + (seq![VisitKind::ReadWrite] + gprmem_visit_trace(
                old(self).rm16,
                VisitKind::Read,
            )),
            gprmem_same_shape(old(self).rm16, final(self).rm16),
    {
        self.r16.read_write(visitor);
        self.rm16.read(visitor);
    }
}

/// `andl rm32, r32`: AND a doubleword register with a register or memory location.
#[derive(Clone, Debug)]
pub struct andl_rm<R: Registers> {
    pub r32: Gpr<R::ReadWriteGpr>,
    pub rm32: GprMem<R::ReadGpr, R::ReadGpr>,
}

impl<R: Registers> andl_rm<R> {
    /// The REX flags of this instruction.
    pub open spec fn spec_flags(&self) -> RexFlags {
        RexFlags { w: false, always: false }
    }

    /// The bytes this instruction encodes to, given the late-bound offsets.
    pub open spec fn spec_code(&self, offsets: Seq<i32>) -> Seq<u8> {
        Seq::<u8>::empty() + gprmem_rex_seq(self.rm32, self.spec_flags(), self.r32@)
            + seq![0x23u8] + gprmem_modrm_code(self.rm32, self.r32@, offsets, 0)
    }

    /// The traps this instruction registers when encoded at offset `start`.
    pub open spec fn spec_traps(&self, start: int) -> Seq<(u32, TrapCode)> {
        gprmem_traps(self.rm32, start)
    }

    /// The label uses this instruction records when encoded at offset
    /// `start`: at most one, at its RIP-relative displacement field.
    pub open spec fn spec_label_uses(&self, start: int) -> Seq<(u32, Label)> {
        gprmem_label_uses(
            self.rm32,
            start + 0
                + gprmem_rex_seq(self.rm32, self.spec_flags(), self.r32@).len() + 1,
        )
    }

    /// Encode the instruction into `buf`, resolving late-bound displacements
    /// through `off`.
    pub fn encode<S: CodeSink, T: KnownOffsetTable>(&self, buf: &mut S, off: &T)
        requires
            gprmem_encodable(self.rm32, off.offsets()),
            self.r32.enc_ready(),
            old(buf).bytes().len() + 32 <= 0xffff_ffff,
        ensures
            final(buf).bytes() == old(buf).bytes() + self.spec_code(off.offsets()),
            final(buf).traps() == old(buf).traps() + self.spec_traps(
                old(buf).bytes().len() as int,
            ),
            final(buf).label_uses() == old(buf).label_uses() + self.spec_label_uses(
                old(buf).bytes().len() as int,
            ),
    {
        // Emit trap.
        if let GprMem::Mem(op) = &self.rm32 {
            if let Some(trap_code) = op.trap_code() {
                buf.add_trap(trap_code);
            }
        }
        // Emit REX prefix.
        let rex = RexFlags::clear_w();
        let reg = self.r32.enc();
        match &self.rm32 {
            GprMem::Gpr(e) => rex.emit_two_op(buf, reg, e.enc()),
            GprMem::Mem(e) => e.emit_rex_prefix(rex, reg, buf),
        }
        // Emit opcode.
        buf.put1(0x23);
        // Emit ModR/M byte.
        match &self.rm32 {
            GprMem::Gpr(e) => emit_modrm(buf, reg, e.enc()),
            GprMem::Mem(e) => emit_modrm_sib_disp(buf, off, reg, e, 0),
        }
        proof {
            assert(final(buf).bytes() =~= old(buf).bytes() + self.spec_code(off.offsets()));
            assert(final(buf).traps() =~= old(buf).traps() + self.spec_traps(
                old(buf).bytes().len() as int,
            ));
            assert(final(buf).label_uses() =~= old(buf).label_uses() + self.spec_label_uses(
                old(buf).bytes().len() as int,
            ));
        }
    }

    /// Present the instruction's operands to the allocator, in format order:
    /// the register destination as a read-write, then the register-or-memory
    /// source as a read.
    pub fn visit_operands<V: OperandVisitor<R>>(&mut self, visitor: &mut V)
        requires
            gprmem_visitable(old(self).rm32),
        ensures
            final(visitor).events() == old(visitor).events() + (seq![VisitKind::ReadWrite] + gprmem_visit_trace(
                old(self).rm32,
                VisitKind::Read,
            )),
            gprmem_same_shape(old(self).rm32, final(self).rm32),
    {
        self.r32.read_write(visitor);
        self.rm32.read(visitor);
    }
}

/// `andq rm64, r64`: AND a quadword register with a register or memory location.
#[derive(Clone, Debug)]
pub struct andq_rm<R: Registers> {
    pub r64: Gpr<R::ReadWriteGpr>,
    pub rm64: GprMem<R::ReadGpr, R::ReadGpr>,
}

impl<R: Registers> andq_rm<R> {
    /// The REX flags of this instruction.
    pub open spec fn spec_flags(&self) -> RexFlags {
        RexFlags { w: true, always: false }
    }

    /// The bytes this instruction encodes to, given the late-bound offsets.
    pub open spec fn spec_code(&self, offsets: Seq<i32>) -> Seq<u8> {
        Seq::<u8>::empty() + gprmem_rex_seq(self.rm64, self.spec_flags(), self.r64@)
            + seq![0x23u8] + gprmem_modrm_code(self.rm64, self.r64@, offsets, 0)
    }

    /// The traps this instruction registers when encoded at offset `start`.
    pub open spec fn spec_traps(&self, start: int) -> Seq<(u32, TrapCode)> {
        gprmem_traps(self.rm64, start)
    }

    /// The label uses this instruction records when encoded at offset
    /// `start`: at most one, at its RIP-relative displacement field.
    pub open spec fn spec_label_uses(&self, start: int) -> Seq<(u32, Label)> {
        gprmem_label_uses(
            self.rm64,
            start + 0
                + gprmem_rex_seq(self.rm64, self.spec_flags(), self.r64@).len() + 1,
        )
    }

    /// Encode the instruction into `buf`, resolving late-bound displacements
    /// through `off`.
    pub fn encode<S: CodeSink, T: KnownOffsetTable>(&self, buf: &mut S, off: &T)
        requires
            gprmem_encodable(self.rm64, off.offsets()),
            self.r64.enc_ready(),
            old(buf).bytes().len() + 32 <= 0xffff_ffff,
        ensures
            final(buf).bytes() == old(buf).bytes() + self.spec_code(off.offsets()),
            final(buf).traps() == old(buf).traps() + self.spec_traps(
                old(buf).bytes().len() as int,
            ),
            final(buf).label_uses() == old(buf).label_uses() + self.spec_label_uses(
                old(buf).bytes().len() as int,
            ),
    {
        // Emit trap.
        if let GprMem::Mem(op) = &self.rm64 {
            if let Some(trap_code) = op.trap_code() {
                buf.add_trap(trap_code);
            }
        }
        // Emit REX prefix.
        let rex = RexFlags::set_w();
        let reg = self.r64.enc();
        match &self.rm64 {
            GprMem::Gpr(e) => rex.emit_two_op(buf, reg, e.enc()),
            GprMem::Mem(e) => e.emit_rex_prefix(rex, reg, buf),
        }
        // Emit opcode.
        buf.put1(0x23);
        // Emit ModR/M byte.
        match &self.rm64 {
            GprMem::Gpr(e) => emit_modrm(buf, reg, e.enc()),
            GprMem::Mem(e) => emit_modrm_sib_disp(buf, off, reg, e, 0),
        }
        proof {
            assert(final(buf).bytes() =~= old(buf).bytes() + self.spec_code(off.offsets()));
            assert(final(buf).traps() =~= old(buf).traps() + self.spec_traps(
                old(buf).bytes().len() as int,
            ));
            assert(final(buf).label_uses() =~= old(buf).label_uses() + self.spec_label_uses(
                old(buf).bytes().len() as int,
            ));
        }
    }

    /// Present the instruction's operands to the allocator, in format order:
    /// the register destination as a read-write, then the register-or-memory
    /// source as a read.
    pub fn visit_operands<V: OperandVisitor<R>>(&mut self, visitor: &mut V)
        requires
            gprmem_visitable(old(self).rm64),
        ensures
            final(visitor).events() == old(visitor).events() + (seq![VisitKind::ReadWrite] + gprmem_visit_trace(
                old(self).rm64,
                VisitKind::Read,
            )),
            gprmem_same_shape(old(self).rm64, final(self).rm64),
    {
        self.r64.read_write(visitor);
        self.rm64.read(visitor);
    }
}

} // verus!

verus! {

/// The simplest register scheme: a register is its hardware encoding.
#[derive(Clone, Copy, Debug, PartialEq, Eq, Structural)]
pub struct PlainRegisters;

impl Registers for PlainRegisters {
    type ReadGpr = u8;

    type ReadWriteGpr = u8;
}

/// An assembly instruction: one variant per instruction definition.
#[derive(Clone, Debug)]
pub enum Inst<R: Registers> {
    andb_i(andb_i),
    andw_i(andw_i),
    andl_i(andl_i),
    andq_i_sx(andq_i_sx),
    andb_mi(andb_mi<R>),
    andw_mi(andw_mi<R>),
    andl_mi(andl_mi<R>),
    andq_mi_sx(andq_mi_sx<R>),
    andl_mi_sx(andl_mi_sx<R>),
    andq_mi_sxb(andq_mi_sxb<R>),
    andb_mr(andb_mr<R>),
    andb_mr_sx(andb_mr_sx<R>),
    andw_mr(andw_mr<R>),
    andl_mr(andl_mr<R>),
    andq_mr(andq_mr<R>),
    andb_rm(andb_rm<R>),
    andb_rm_sx(andb_rm_sx<R>),
    andw_rm(andw_rm<R>),
    andl_rm(andl_rm<R>),
    andq_rm(andq_rm<R>),
}

/// Whether an instruction can be encoded against `offsets`: its registers
/// are allocated and its late-bound displacements resolve.
pub open spec fn inst_encodable<R: Registers>(i: Inst<R>, offsets: Seq<i32>) -> bool {
    match i {
            Inst::andb_i(i) => true,
            Inst::andw_i(i) => true,
            Inst::andl_i(i) => true,
            Inst::andq_i_sx(i) => true,
            Inst::andb_mi(i) => gprmem_encodable(i.rm8, offsets),
            Inst::andw_mi(i) => gprmem_encodable(i.rm16, offsets),
            Inst::andl_mi(i) => gprmem_encodable(i.rm32, offsets),
            Inst::andq_mi_sx(i) => gprmem_encodable(i.rm64, offsets),
            Inst::andl_mi_sx(i) => gprmem_encodable(i.rm32, offsets),
            Inst::andq_mi_sxb(i) => gprmem_encodable(i.rm64, offsets),
            Inst::andb_mr(i) => gprmem_encodable(i.rm8, offsets) && i.r8.enc_ready(),
            Inst::andb_mr_sx(i) => gprmem_encodable(i.rm8, offsets) && i.r8.enc_ready(),
            Inst::andw_mr(i) => gprmem_encodable(i.rm16, offsets) && i.r16.enc_ready(),
            Inst::andl_mr(i) => gprmem_encodable(i.rm32, offsets) && i.r32.enc_ready(),
            Inst::andq_mr(i) => gprmem_encodable(i.rm64, offsets) && i.r64.enc_ready(),
            Inst::andb_rm(i) => gprmem_encodable(i.rm8, offsets) && i.r8.enc_ready(),
            Inst::andb_rm_sx(i) => gprmem_encodable(i.rm8, offsets) && i.r8.enc_ready(),
            Inst::andw_rm(i) => gprmem_encodable(i.rm16, offsets) && i.r16.enc_ready(),
            Inst::andl_rm(i) => gprmem_encodable(i.rm32, offsets) && i.r32.enc_ready(),
            Inst::andq_rm(i) => gprmem_encodable(i.rm64, offsets) && i.r64.enc_ready(),
    }
}

/// The bytes an instruction encodes to, given the late-bound offsets.
pub open spec fn inst_code<R: Registers>(i: Inst<R>, offsets: Seq<i32>) -> Seq<u8> {
    match i {
            Inst::andb_i(i) => i.spec_code(),
            Inst::andw_i(i) => i.spec_code(),
            Inst::andl_i(i) => i.spec_code(),
            Inst::andq_i_sx(i) => i.spec_code(),
            Inst::andb_mi(i) => i.spec_code(offsets),
            Inst::andw_mi(i) => i.spec_code(offsets),
            Inst::andl_mi(i) => i.spec_code(offsets),
            Inst::andq_mi_sx(i) => i.spec_code(offsets),
            Inst::andl_mi_sx(i) => i.spec_code(offsets),
            Inst::andq_mi_sxb(i) => i.spec_code(offsets),
            Inst::andb_mr(i) => i.spec_code(offsets),
            Inst::andb_mr_sx(i) => i.spec_code(offsets),
            Inst::andw_mr(i) => i.spec_code(offsets),
            Inst::andl_mr(i) => i.spec_code(offsets),
            Inst::andq_mr(i) => i.spec_code(offsets),
            Inst::andb_rm(i) => i.spec_code(offsets),
            Inst::andb_rm_sx(i) => i.spec_code(offsets),
            Inst::andw_rm(i) => i.spec_code(offsets),
            Inst::andl_rm(i) => i.spec_code(offsets),
            Inst::andq_rm(i) => i.spec_code(offsets),
    }
}

/// The traps an instruction registers when encoded at offset `start`.
pub open spec fn inst_traps<R: Registers>(i: Inst<R>, start: int) -> Seq<(u32, TrapCode)> {
    match i {
            Inst::andb_i(i) => Seq::<(u32, TrapCode)>::empty(),
            Inst::andw_i(i) => Seq::<(u32, TrapCode)>::empty(),
            Inst::andl_i(i) => Seq::<(u32, TrapCode)>::empty(),
            Inst::andq_i_sx(i) => Seq::<(u32, TrapCode)>::empty(),
            Inst::andb_mi(i) => i.spec_traps(start),
            Inst::andw_mi(i) => i.spec_traps(start),
            Inst::andl_mi(i) => i.spec_traps(start),
            Inst::andq_mi_sx(i) => i.spec_traps(start),
            Inst::andl_mi_sx(i) => i.spec_traps(start),
            Inst::andq_mi_sxb(i) => i.spec_traps(start),
            Inst::andb_mr(i) => i.spec_traps(start),
            Inst::andb_mr_sx(i) => i.spec_traps(start),
            Inst::andw_mr(i) => i.spec_traps(start),
            Inst::andl_mr(i) => i.spec_traps(start),
            Inst::andq_mr(i) => i.spec_traps(start),
            Inst::andb_rm(i) => i.spec_traps(start),
            Inst::andb_rm_sx(i) => i.spec_traps(start),
            Inst::andw_rm(i) => i.spec_traps(start),
            Inst::andl_rm(i) => i.spec_traps(start),
            Inst::andq_rm(i) => i.spec_traps(start),
    }
}

/// The label uses an instruction records when encoded at offset `start`.
pub open spec fn inst_label_uses<R: Registers>(i: Inst<R>, start: int) -> Seq<(u32, Label)> {
    match i {
            Inst::andb_i(i) => Seq::<(u32, Label)>::empty(),
            Inst::andw_i(i) => Seq::<(u32, Label)>::empty(),
            Inst::andl_i(i) => Seq::<(u32, Label)>::empty(),
            Inst::andq_i_sx(i) => Seq::<(u32, Label)>::empty(),
            Inst::andb_mi(i) => i.spec_label_uses(start),
            Inst::andw_mi(i) => i.spec_label_uses(start),
            Inst::andl_mi(i) => i.spec_label_uses(start),
            Inst::andq_mi_sx(i) => i.spec_label_uses(start),
            Inst::andl_mi_sx(i) => i.spec_label_uses(start),
            Inst::andq_mi_sxb(i) => i.spec_label_uses(start),
            Inst::andb_mr(i) => i.spec_label_uses(start),
            Inst::andb_mr_sx(i) => i.spec_label_uses(start),
            Inst::andw_mr(i) => i.spec_label_uses(start),
            Inst::andl_mr(i) => i.spec_label_uses(start),
            Inst::andq_mr(i) => i.spec_label_uses(start),
            Inst::andb_rm(i) => i.spec_label_uses(start),
            Inst::andb_rm_sx(i) => i.spec_label_uses(start),
            Inst::andw_rm(i) => i.spec_label_uses(start),
            Inst::andl_rm(i) => i.spec_label_uses(start),
            Inst::andq_rm(i) => i.spec_label_uses(start),
    }
}

/// Everything the encoder reads from an instruction: the instruction with
/// each register replaced by its hardware encoding.
pub open spec fn inst_enc_view<R: Registers>(i: Inst<R>) -> Inst<PlainRegisters> {
    match i {
            Inst::andb_i(i) => Inst::andb_i(i),
            Inst::andw_i(i) => Inst::andw_i(i),
            Inst::andl_i(i) => Inst::andl_i(i),
            Inst::andq_i_sx(i) => Inst::andq_i_sx(i),
            Inst::andb_mi(i) => Inst::andb_mi(andb_mi { rm8: gprmem_view(i.rm8), imm8: i.imm8 }),
            Inst::andw_mi(i) => Inst::andw_mi(andw_mi { rm16: gprmem_view(i.rm16), imm16: i.imm16 }),
            Inst::andl_mi(i) => Inst::andl_mi(andl_mi { rm32: gprmem_view(i.rm32), imm32: i.imm32 }),
            Inst::andq_mi_sx(i) => Inst::andq_mi_sx(andq_mi_sx { rm64: gprmem_view(i.rm64), imm32: i.imm32 }),
            Inst::andl_mi_sx(i) => Inst::andl_mi_sx(andl_mi_sx { rm32: gprmem_view(i.rm32), imm8: i.imm8 }),
            Inst::andq_mi_sxb(i) => Inst::andq_mi_sxb(andq_mi_sxb { rm64: gprmem_view(i.rm64), imm8: i.imm8 }),
            Inst::andb_mr(i) => Inst::andb_mr(andb_mr { rm8: gprmem_view(i.rm8), r8: Gpr(i.r8@) }),
            Inst::andb_mr_sx(i) => Inst::andb_mr_sx(andb_mr_sx { rm8: gprmem_view(i.rm8), r8: Gpr(i.r8@) }),
            Inst::andw_mr(i) => Inst::andw_mr(andw_mr { rm16: gprmem_view(i.rm16), r16: Gpr(i.r16@) }),
            Inst::andl_mr(i) => Inst::andl_mr(andl_mr { rm32: gprmem_view(i.rm32), r32: Gpr(i.r32@) }),
            Inst::andq_mr(i) => Inst::andq_mr(andq_mr { rm64: gprmem_view(i.rm64), r64: Gpr(i.r64@) }),
            Inst::andb_rm(i) => Inst::andb_rm(andb_rm { r8: Gpr(i.r8@), rm8: gprmem_view(i.rm8) }),
            Inst::andb_rm_sx(i) => Inst::andb_rm_sx(andb_rm_sx { r8: Gpr(i.r8@), rm8: gprmem_view(i.rm8) }),
            Inst::andw_rm(i) => Inst::andw_rm(andw_rm { r16: Gpr(i.r16@), rm16: gprmem_view(i.rm16) }),
            Inst::andl_rm(i) => Inst::andl_rm(andl_rm { r32: Gpr(i.r32@), rm32: gprmem_view(i.rm32) }),
            Inst::andq_rm(i) => Inst::andq_rm(andq_rm { r64: Gpr(i.r64@), rm64: gprmem_view(i.rm64) }),
    }
}

} // verus!

verus! {

/// The operand visits an instruction makes, in format order with the
/// polarity of each operand.
pub open spec fn inst_visit_trace<R: Registers>(i: Inst<R>) -> Seq<VisitKind> {
    match i {
            Inst::andb_i(i) => seq![VisitKind::FixedReadWrite],
            Inst::andw_i(i) => seq![VisitKind::FixedReadWrite],
            Inst::andl_i(i) => seq![VisitKind::FixedReadWrite],
            Inst::andq_i_sx(i) => seq![VisitKind::FixedReadWrite],
            Inst::andb_mi(i) => gprmem_visit_trace(i.rm8, VisitKind::ReadWrite),
            Inst::andw_mi(i) => gprmem_visit_trace(i.rm16, VisitKind::ReadWrite),
            Inst::andl_mi(i) => gprmem_visit_trace(i.rm32, VisitKind::ReadWrite),
            Inst::andq_mi_sx(i) => gprmem_visit_trace(i.rm64, VisitKind::ReadWrite),
            Inst::andl_mi_sx(i) => gprmem_visit_trace(i.rm32, VisitKind::ReadWrite),
            Inst::andq_mi_sxb(i) => gprmem_visit_trace(i.rm64, VisitKind::ReadWrite),
            Inst::andb_mr(i) => gprmem_visit_trace(i.rm8, VisitKind::ReadWrite) + seq![VisitKind::Read],
            Inst::andb_mr_sx(i) => gprmem_visit_trace(i.rm8, VisitKind::ReadWrite) + seq![VisitKind::Read],
            Inst::andw_mr(i) => gprmem_visit_trace(i.rm16, VisitKind::ReadWrite) + seq![VisitKind::Read],
            Inst::andl_mr(i) => gprmem_visit_trace(i.rm32, VisitKind::ReadWrite) + seq![VisitKind::Read],
            Inst::andq_mr(i) => gprmem_visit_trace(i.rm64, VisitKind::ReadWrite) + seq![VisitKind::Read],
            Inst::andb_rm(i) => seq![VisitKind::ReadWrite] + gprmem_visit_trace(i.rm8, VisitKind::Read),
            Inst::andb_rm_sx(i) => seq![VisitKind::ReadWrite] + gprmem_visit_trace(i.rm8, VisitKind::Read),
            Inst::andw_rm(i) => seq![VisitKind::ReadWrite] + gprmem_visit_trace(i.rm16, VisitKind::Read),
            Inst::andl_rm(i) => seq![VisitKind::ReadWrite] + gprmem_visit_trace(i.rm32, VisitKind::Read),
            Inst::andq_rm(i) => seq![VisitKind::ReadWrite] + gprmem_visit_trace(i.rm64, VisitKind::Read),
    }
}

/// Whether an instruction's operands can be presented to the allocator.
pub open spec fn inst_visitable<R: Registers>(i: Inst<R>) -> bool {
    match i {
            Inst::andb_i(i) => true,
            Inst::andw_i(i) => true,
            Inst::andl_i(i) => true,
            Inst::andq_i_sx(i) => true,
            Inst::andb_mi(i) => gprmem_visitable(i.rm8),
            Inst::andw_mi(i) => gprmem_visitable(i.rm16),
            Inst::andl_mi(i) => gprmem_visitable(i.rm32),
            Inst::andq_mi_sx(i) => gprmem_visitable(i.rm64),
            Inst::andl_mi_sx(i) => gprmem_visitable(i.rm32),
            Inst::andq_mi_sxb(i) => gprmem_visitable(i.rm64),
            Inst::andb_mr(i) => gprmem_visitable(i.rm8),
            Inst::andb_mr_sx(i) => gprmem_visitable(i.rm8),
            Inst::andw_mr(i) => gprmem_visitable(i.rm16),
            Inst::andl_mr(i) => gprmem_visitable(i.rm32),
            Inst::andq_mr(i) => gprmem_visitable(i.rm64),
            Inst::andb_rm(i) => gprmem_visitable(i.rm8),
            Inst::andb_rm_sx(i) => gprmem_visitable(i.rm8),
            Inst::andw_rm(i) => gprmem_visitable(i.rm16),
            Inst::andl_rm(i) => gprmem_visitable(i.rm32),
            Inst::andq_rm(i) => gprmem_visitable(i.rm64),
    }
}

/// Whether two instructions differ at most in their register payloads.
pub open spec fn inst_same_shape<R: Registers>(a: Inst<R>, b: Inst<R>) -> bool {
    match (a, b) {
            (Inst::andb_i(a), Inst::andb_i(b)) => a == b,
            (Inst::andw_i(a), Inst::andw_i(b)) => a == b,
            (Inst::andl_i(a), Inst::andl_i(b)) => a == b,
            (Inst::andq_i_sx(a), Inst::andq_i_sx(b)) => a == b,
            (Inst::andb_mi(a), Inst::andb_mi(b)) => gprmem_same_shape(a.rm8, b.rm8) && a.imm8 == b.imm8,
            (Inst::andw_mi(a), Inst::andw_mi(b)) => gprmem_same_shape(a.rm16, b.rm16) && a.imm16 == b.imm16,
            (Inst::andl_mi(a), Inst::andl_mi(b)) => gprmem_same_shape(a.rm32, b.rm32) && a.imm32 == b.imm32,
            (Inst::andq_mi_sx(a), Inst::andq_mi_sx(b)) => gprmem_same_shape(a.rm64, b.rm64) && a.imm32 == b.imm32,
            (Inst::andl_mi_sx(a), Inst::andl_mi_sx(b)) => gprmem_same_shape(a.rm32, b.rm32) && a.imm8 == b.imm8,
            (Inst::andq_mi_sxb(a), Inst::andq_mi_sxb(b)) => gprmem_same_shape(a.rm64, b.rm64) && a.imm8 == b.imm8,
            (Inst::andb_mr(a), Inst::andb_mr(b)) => gprmem_same_shape(a.rm8, b.rm8),
            (Inst::andb_mr_sx(a), Inst::andb_mr_sx(b)) => gprmem_same_shape(a.rm8, b.rm8),
            (Inst::andw_mr(a), Inst::andw_mr(b)) => gprmem_same_shape(a.rm16, b.rm16),
            (Inst::andl_mr(a), Inst::andl_mr(b)) => gprmem_same_shape(a.rm32, b.rm32),
            (Inst::andq_mr(a), Inst::andq_mr(b)) => gprmem_same_shape(a.rm64, b.rm64),
            (Inst::andb_rm(a), Inst::andb_rm(b)) => gprmem_same_shape(a.rm8, b.rm8),
            (Inst::andb_rm_sx(a), Inst::andb_rm_sx(b)) => gprmem_same_shape(a.rm8, b.rm8),
            (Inst::andw_rm(a), Inst::andw_rm(b)) => gprmem_same_shape(a.rm16, b.rm16),
            (Inst::andl_rm(a), Inst::andl_rm(b)) => gprmem_same_shape(a.rm32, b.rm32),
            (Inst::andq_rm(a), Inst::andq_rm(b)) => gprmem_same_shape(a.rm64, b.rm64),
            _ => false,
    }
}

impl<R: Registers> Inst<R> {
    /// Encode the instruction into `b`, resolving late-bound displacements
    /// through `o`. The bytes are appended in strict encoding order; at most
    /// one trap is registered, at the instruction's first byte, before any
    /// byte is appended; at most one label use is recorded, at the
    /// RIP-relative displacement field.
    pub fn encode<S: CodeSink, T: KnownOffsetTable>(&self, b: &mut S, o: &T)
        requires
            inst_encodable(*self, o.offsets()),
            old(b).bytes().len() + 32 <= 0xffff_ffff,
        ensures
            final(b).bytes() == old(b).bytes() + inst_code(*self, o.offsets()),
            final(b).traps() == old(b).traps() + inst_traps(
                *self,
                old(b).bytes().len() as int,
            ),
            final(b).label_uses() == old(b).label_uses() + inst_label_uses(
                *self,
                old(b).bytes().len() as int,
            ),
    {
        match self {
            Inst::andb_i(i) => i.encode(b, o),
            Inst::andw_i(i) => i.encode(b, o),
            Inst::andl_i(i) => i.encode(b, o),
            Inst::andq_i_sx(i) => i.encode(b, o),
            Inst::andb_mi(i) => i.encode(b, o),
            Inst::andw_mi(i) => i.encode(b, o),
            Inst::andl_mi(i) => i.encode(b, o),
            Inst::andq_mi_sx(i) => i.encode(b, o),
            Inst::andl_mi_sx(i) => i.encode(b, o),
            Inst::andq_mi_sxb(i) => i.encode(b, o),
            Inst::andb_mr(i) => i.encode(b, o),
            Inst::andb_mr_sx(i) => i.encode(b, o),
            Inst::andw_mr(i) => i.encode(b, o),
            Inst::andl_mr(i) => i.encode(b, o),
            Inst::andq_mr(i) => i.encode(b, o),
            Inst::andb_rm(i) => i.encode(b, o),
            Inst::andb_rm_sx(i) => i.encode(b, o),
            Inst::andw_rm(i) => i.encode(b, o),
            Inst::andl_rm(i) => i.encode(b, o),
            Inst::andq_rm(i) => i.encode(b, o),
        }
        proof {
            assert(final(b).traps() =~= old(b).traps() + inst_traps(
                *self,
                old(b).bytes().len() as int,
            ));
            assert(final(b).label_uses() =~= old(b).label_uses() + inst_label_uses(
                *self,
                old(b).bytes().len() as int,
            ));
        }
    }

    /// Present the instruction's operands to the allocator: each operand
    /// exactly once, in format order, with its polarity. Only register
    /// payloads may change.
    pub fn visit_operands<V: OperandVisitor<R>>(&mut self, v: &mut V)
        requires
            inst_visitable(*old(self)),
        ensures
            final(v).events() == old(v).events() + inst_visit_trace(*old(self)),
            inst_same_shape(*old(self), *final(self)),
    {
        match self {
            Inst::andb_i(i) => i.visit_operands(v),
            Inst::andw_i(i) => i.visit_operands(v),
            Inst::andl_i(i) => i.visit_operands(v),
            Inst::andq_i_sx(i) => i.visit_operands(v),
            Inst::andb_mi(i) => i.visit_operands(v),
            Inst::andw_mi(i) => i.visit_operands(v),
            Inst::andl_mi(i) => i.visit_operands(v),
            Inst::andq_mi_sx(i) => i.visit_operands(v),
            Inst::andl_mi_sx(i) => i.visit_operands(v),
            Inst::andq_mi_sxb(i) => i.visit_operands(v),
            Inst::andb_mr(i) => i.visit_operands(v),
            Inst::andb_mr_sx(i) => i.visit_operands(v),
            Inst::andw_mr(i) => i.visit_operands(v),
            Inst::andl_mr(i) => i.visit_operands(v),
            Inst::andq_mr(i) => i.visit_operands(v),
            Inst::andb_rm(i) => i.visit_operands(v),
            Inst::andb_rm_sx(i) => i.visit_operands(v),
            Inst::andw_rm(i) => i.visit_operands(v),
            Inst::andl_rm(i) => i.visit_operands(v),
            Inst::andq_rm(i) => i.visit_operands(v),
        }
    }

    /// Whether the features `f` suffice to run this instruction; none of the
    /// instructions in the table requires any feature.
    pub fn match_features(&self, f: &crate::feat::AvailableFeatures) -> (r: bool)
        ensures
            r == true,
    {
        match self {
            Inst::andb_i(i) => true,
            Inst::andw_i(i) => true,
            Inst::andl_i(i) => true,
            Inst::andq_i_sx(i) => true,
            Inst::andb_mi(i) => true,
            Inst::andw_mi(i) => true,
            Inst::andl_mi(i) => true,
            Inst::andq_mi_sx(i) => true,
            Inst::andl_mi_sx(i) => true,
            Inst::andq_mi_sxb(i) => true,
            Inst::andb_mr(i) => true,
            Inst::andb_mr_sx(i) => true,
            Inst::andw_mr(i) => true,
            Inst::andl_mr(i) => true,
            Inst::andq_mr(i) => true,
            Inst::andb_rm(i) => true,
            Inst::andb_rm_sx(i) => true,
            Inst::andw_rm(i) => true,
            Inst::andl_rm(i) => true,
            Inst::andq_rm(i) => true,
        }
    }
}

} // verus!

verus! {

/// Operands whose encoding views agree contribute the same REX, ModR/M, SIB
/// and displacement bytes, traps and label uses.
proof fn lemma_gprmem_view_determines<R: AsReg, M: AsReg>(
    g1: GprMem<R, M>,
    g2: GprMem<R, M>,
    flags: RexFlags,
    enc_g: u8,
    offsets: Seq<i32>,
    start: int,
)
    requires
        gprmem_view(g1) == gprmem_view(g2),
    ensures
        gprmem_rex_seq(g1, flags, enc_g) == gprmem_rex_seq(g2, flags, enc_g),
        forall|b: u8| gprmem_modrm_code(g1, enc_g, offsets, b) == #[trigger] gprmem_modrm_code(
            g2,
            enc_g,
            offsets,
            b,
        ),
        gprmem_label_uses(g1, start) == gprmem_label_uses(g2, start),
        gprmem_traps(g1, start) == gprmem_traps(g2, start),
        gprmem_needs8(g1) == gprmem_needs8(g2),
{
    match (g1, g2) {
        (GprMem::Gpr(a), GprMem::Gpr(b)) => {
            assert(a@ == b@);
        },
        (GprMem::Mem(a), GprMem::Mem(b)) => {
            assert(crate::mem::amode_view(a) == crate::mem::amode_view(b));
        },
        _ => {
            assert(false);
        },
    }
}

/// Encoding reads nothing from an instruction beyond its encoding view: two
/// instructions whose registers carry the same hardware encodings produce
/// byte-identical output, the same traps and the same label uses. In
/// particular, an allocation pass that rewrites every register placeholder
/// to the encoding it already had (a no-op allocation) leaves the encoding
/// unchanged.
pub proof fn lemma_encode_depends_only_on_encodings<R: Registers>(
    i1: Inst<R>,
    i2: Inst<R>,
    offsets: Seq<i32>,
    start: int,
)
    requires
        inst_enc_view(i1) == inst_enc_view(i2),
    ensures
        inst_code(i1, offsets) == inst_code(i2, offsets),
        inst_traps(i1, start) == inst_traps(i2, start),
        inst_label_uses(i1, start) == inst_label_uses(i2, start),
{
    match (i1, i2) {
        (Inst::andb_mi(a), Inst::andb_mi(b)) => {
            lemma_gprmem_view_determines(a.rm8, b.rm8, a.spec_flags(), 4, offsets, start);
            lemma_gprmem_view_determines(
                a.rm8,
                b.rm8,
                a.spec_flags(),
                4,
                offsets,
                start + 0 + gprmem_rex_seq(a.rm8, a.spec_flags(), 4).len() + 1,
            );
        },
        (Inst::andw_mi(a), Inst::andw_mi(b)) => {
            lemma_gprmem_view_determines(
                a.rm16,
                b.rm16,
                a.spec_flags(),
                4,
                offsets,
                start + 1 + gprmem_rex_seq(a.rm16, a.spec_flags(), 4).len() + 1,
            );
        },
        (Inst::andl_mi(a), Inst::andl_mi(b)) => {
            lemma_gprmem_view_determines(
                a.rm32,
                b.rm32,
                a.spec_flags(),
                4,
                offsets,
                start + 0 + gprmem_rex_seq(a.rm32, a.spec_flags(), 4).len() + 1,
            );
        },
        (Inst::andq_mi_sx(a), Inst::andq_mi_sx(b)) => {
            lemma_gprmem_view_determines(
                a.rm64,
                b.rm64,
                a.spec_flags(),
                4,
                offsets,
                start + 0 + gprmem_rex_seq(a.rm64, a.spec_flags(), 4).len() + 1,
            );
        },
        (Inst::andl_mi_sx(a), Inst::andl_mi_sx(b)) => {
            lemma_gprmem_view_determines(
                a.rm32,
                b.rm32,
                a.spec_flags(),
                4,
                offsets,
                start + 0 + gprmem_rex_seq(a.rm32, a.spec_flags(), 4).len() + 1,
            );
        },
        (Inst::andq_mi_sxb(a), Inst::andq_mi_sxb(b)) => {
            lemma_gprmem_view_determines(
                a.rm64,
                b.rm64,
                a.spec_flags(),
                4,
                offsets,
                start + 0 + gprmem_rex_seq(a.rm64, a.spec_flags(), 4).len() + 1,
            );
        },
        (Inst::andb_mr(a), Inst::andb_mr(b)) => {
            lemma_gprmem_view_determines(
                a.rm8,
                b.rm8,
                a.spec_flags(),
                a.r8@,
                offsets,
                start + 0 + gprmem_rex_seq(a.rm8, a.spec_flags(), a.r8@).len() + 1,
            );
        },
        (Inst::andb_mr_sx(a), Inst::andb_mr_sx(b)) => {
            lemma_gprmem_view_determines(
                a.rm8,
                b.rm8,
                a.spec_flags(),
                a.r8@,
                offsets,
                start + 0 + gprmem_rex_seq(a.rm8, a.spec_flags(), a.r8@).len() + 1,
            );
        },
        (Inst::andw_mr(a), Inst::andw_mr(b)) => {
            lemma_gprmem_view_determines(
                a.rm16,
                b.rm16,
                a.spec_flags(),
                a.r16@,
                offsets,
                start + 1 + gprmem_rex_seq(a.rm16, a.spec_flags(), a.r16@).len() + 1,
            );
        },
        (Inst::andl_mr(a), Inst::andl_mr(b)) => {
            lemma_gprmem_view_determines(
                a.rm32,
                b.rm32,
                a.spec_flags(),
                a.r32@,
                offsets,
                start + 0 + gprmem_rex_seq(a.rm32, a.spec_flags(), a.r32@).len() + 1,
            );
        },
        (Inst::andq_mr(a), Inst::andq_mr(b)) => {
            lemma_gprmem_view_determines(
                a.rm64,
                b.rm64,
                a.spec_flags(),
                a.r64@,
                offsets,
                start + 0 + gprmem_rex_seq(a.rm64, a.spec_flags(), a.r64@).len() + 1,
            );
        },
        (Inst::andb_rm(a), Inst::andb_rm(b)) => {
            lemma_gprmem_view_determines(
                a.rm8,
                b.rm8,
                a.spec_flags(),
                a.r8@,
                offsets,
                start + 0 + gprmem_rex_seq(a.rm8, a.spec_flags(), a.r8@).len() + 1,
            );
        },
        (Inst::andb_rm_sx(a), Inst::andb_rm_sx(b)) => {
            lemma_gprmem_view_determines(
                a.rm8,
                b.rm8,
                a.spec_flags(),
                a.r8@,
                offsets,
                start + 0 + gprmem_rex_seq(a.rm8, a.spec_flags(), a.r8@).len() + 1,
            );
        },
        (Inst::andw_rm(a), Inst::andw_rm(b)) => {
            lemma_gprmem_view_determines(
                a.rm16,
                b.rm16,
                a.spec_flags(),
                a.r16@,
                offsets,
                start + 1 + gprmem_rex_seq(a.rm16, a.spec_flags(), a.r16@).len() + 1,
            );
        },
        (Inst::andl_rm(a), Inst::andl_rm(b)) => {
            lemma_gprmem_view_determines(
                a.rm32,
                b.rm32,
                a.spec_flags(),
                a.r32@,
                offsets,
                start + 0 + gprmem_rex_seq(a.rm32, a.spec_flags(), a.r32@).len() + 1,
            );
        },
        (Inst::andq_rm(a), Inst::andq_rm(b)) => {
            lemma_gprmem_view_determines(
                a.rm64,
                b.rm64,
                a.spec_flags(),
                a.r64@,
                offsets,
                start + 0 + gprmem_rex_seq(a.rm64, a.spec_flags(), a.r64@).len() + 1,
            );
        },
        _ => {
        },
    }
}

} // verus!

verus! {

impl andb_i {
    /// The AT&T text of this instruction: destination last.
    pub open spec fn spec_text(&self) -> Seq<char> {
        "andb "@ + imm8_display(self.imm8.0, Extension::NoExtend) + ", "@ + "%al"@
    }

    /// Render the instruction in AT&T syntax.
    pub fn to_string(&self) -> (r: String)
        ensures
            r@ == self.spec_text(),
    {
        let mut s = String::new();
        s.append("andb ");
        let imm = self.imm8.to_string(Extension::NoExtend);
        s.append(imm.as_str());
        s.append(", ");
        s.append("%al");
        s
    }
}

impl andw_i {
    /// The AT&T text of this instruction: destination last.
    pub open spec fn spec_text(&self) -> Seq<char> {
        "andw "@ + imm16_display(self.imm16.0, Extension::NoExtend) + ", "@ + "%ax"@
    }

    /// Render the instruction in AT&T syntax.
    pub fn to_string(&self) -> (r: String)
        ensures
            r@ == self.spec_text(),
    {
        let mut s = String::new();
        s.append("andw ");
        let imm = self.imm16.to_string(Extension::NoExtend);
        s.append(imm.as_str());
        s.append(", ");
        s.append("%ax");
        s
    }
}

impl andl_i {
    /// The AT&T text of this instruction: destination last.
    pub open spec fn spec_text(&self) -> Seq<char> {
        "andl "@ + imm32_display(self.imm32.0, Extension::NoExtend) + ", "@ + "%eax"@
    }

    /// Render the instruction in AT&T syntax.
    pub fn to_string(&self) -> (r: String)
        ensures
            r@ == self.spec_text(),
    {
        let mut s = String::new();
        s.append("andl ");
        let imm = self.imm32.to_string(Extension::NoExtend);
        s.append(imm.as_str());
        s.append(", ");
        s.append("%eax");
        s
    }
}

impl andq_i_sx {
    /// The AT&T text of this instruction: destination last.
    pub open spec fn spec_text(&self) -> Seq<char> {
        "andq "@ + imm32_display(self.imm32.0, Extension::SignExtendQuad) + ", "@ + "%rax"@
    }

    /// Render the instruction in AT&T syntax.
    pub fn to_string(&self) -> (r: String)
        ensures
            r@ == self.spec_text(),
    {
        let mut s = String::new();
        s.append("andq ");
        let imm = self.imm32.to_string(Extension::SignExtendQuad);
        s.append(imm.as_str());
        s.append(", ");
        s.append("%rax");
        s
    }
}

impl<R: Registers> andb_mi<R> {
    /// The AT&T text of this instruction: destination last.
    pub open spec fn spec_text(&self) -> Seq<char> {
        "andb "@ + imm8_display(self.imm8.0, Extension::NoExtend) + ", "@ + gprmem_text(
            self.rm8,
            Size::Byte,
        )
    }

    /// Render the instruction in AT&T syntax.
    pub fn to_string(&self) -> (r: String)
        requires
            gprmem_enc_ready(self.rm8),
        ensures
            r@ == self.spec_text(),
    {
        let mut s = String::new();
        s.append("andb ");
        let imm = self.imm8.to_string(Extension::NoExtend);
        s.append(imm.as_str());
        s.append(", ");
        let rm = self.rm8.to_string(Size::Byte);
        s.append(rm.as_str());
        s
    }
}

impl<R: Registers> andw_mi<R> {
    /// The AT&T text of this instruction: destination last.
    pub open spec fn spec_text(&self) -> Seq<char> {
        "andw "@ + imm16_display(self.imm16.0, Extension::NoExtend) + ", "@ + gprmem_text(
            self.rm16,
            Size::Word,
        )
    }

    /// Render the instruction in AT&T syntax.
    pub fn to_string(&self) -> (r: String)
        requires
            gprmem_enc_ready(self.rm16),
        ensures
            r@ == self.spec_text(),
    {
        let mut s = String::new();
        s.append("andw ");
        let imm = self.imm16.to_string(Extension::NoExtend);
        s.append(imm.as_str());
        s.append(", ");
        let rm = self.rm16.to_string(Size::Word);
        s.append(rm.as_str());
        s
    }
}

impl<R: Registers> andl_mi<R> {
    /// The AT&T text of this instruction: destination last.
    pub open spec fn spec_text(&self) -> Seq<char> {
        "andl "@ + imm32_display(self.imm32.0, Extension::NoExtend) + ", "@ + gprmem_text(
            self.rm32,
            Size::Doubleword,
        )
    }

    /// Render the instruction in AT&T syntax.
    pub fn to_string(&self) -> (r: String)
        requires
            gprmem_enc_ready(self.rm32),
        ensures
            r@ == self.spec_text(),
    {
        let mut s = String::new();
        s.append("andl ");
        let imm = self.imm32.to_string(Extension::NoExtend);
        s.append(imm.as_str());
        s.append(", ");
        let rm = self.rm32.to_string(Size::Doubleword);
        s.append(rm.as_str());
        s
    }
}

impl<R: Registers> andq_mi_sx<R> {
    /// The AT&T text of this instruction: destination last.
    pub open spec fn spec_text(&self) -> Seq<char> {
        "andq "@ + imm32_display(self.imm32.0, Extension::SignExtendQuad) + ", "@ + gprmem_text(
            self.rm64,
            Size::Quadword,
        )
    }

    /// Render the instruction in AT&T syntax.
    pub fn to_string(&self) -> (r: String)
        requires
            gprmem_enc_ready(self.rm64),
        ensures
            r@ == self.spec_text(),
    {
        let mut s = String::new();
        s.append("andq ");
        let imm = self.imm32.to_string(Extension::SignExtendQuad);
        s.append(imm.as_str());
        s.append(", ");
        let rm = self.rm64.to_string(Size::Quadword);
        s.append(rm.as_str());
        s
    }
}

impl<R: Registers> andl_mi_sx<R> {
    /// The AT&T text of this instruction: destination last.
    pub open spec fn spec_text(&self) -> Seq<char> {
        "andl "@ + imm8_display(self.imm8.0, Extension::SignExtendLong) + ", "@ + gprmem_text(
            self.rm32,
            Size::Doubleword,
        )
    }

    /// Render the instruction in AT&T syntax.
    pub fn to_string(&self) -> (r: String)
        requires
            gprmem_enc_ready(self.rm32),
        ensures
            r@ == self.spec_text(),
    {
        let mut s = String::new();
        s.append("andl ");
        let imm = self.imm8.to_string(Extension::SignExtendLong);
        s.append(imm.as_str());
        s.append(", ");
        let rm = self.rm32.to_string(Size::Doubleword);
        s.append(rm.as_str());
        s
    }
}

impl<R: Registers> andq_mi_sxb<R> {
    /// The AT&T text of this instruction: destination last.
    pub open spec fn spec_text(&self) -> Seq<char> {
        "andq "@ + imm8_display(self.imm8.0, Extension::SignExtendQuad) + ", "@ + gprmem_text(
            self.rm64,
            Size::Quadword,
        )
    }

    /// Render the instruction in AT&T syntax.
    pub fn to_string(&self) -> (r: String)
        requires
            gprmem_enc_ready(self.rm64),
        ensures
            r@ == self.spec_text(),
    {
        let mut s = String::new();
        s.append("andq ");
        let imm = self.imm8.to_string(Extension::SignExtendQuad);
        s.append(imm.as_str());
        s.append(", ");
        let rm = self.rm64.to_string(Size::Quadword);
        s.append(rm.as_str());
        s
    }
}

impl<R: Registers> andb_mr<R> {
    /// The AT&T text of this instruction: destination last.
    pub open spec fn spec_text(&self) -> Seq<char> {
        "andb "@ + spec_reg_name(self.r8@, Size::Byte) + ", "@ + gprmem_text(
            self.rm8,
            Size::Byte,
        )
    }

    /// Render the instruction in AT&T syntax.
    pub fn to_string(&self) -> (r: String)
        requires
            gprmem_enc_ready(self.rm8),
            self.r8.enc_ready(),
        ensures
            r@ == self.spec_text(),
    {
        let mut s = String::new();
        s.append("andb ");
        s.append(self.r8.to_string(Size::Byte));
        s.append(", ");
        let rm = self.rm8.to_string(Size::Byte);
        s.append(rm.as_str());
        s
    }
}

impl<R: Registers> andb_mr_sx<R> {
    /// The AT&T text of this instruction: destination last.
    pub open spec fn spec_text(&self) -> Seq<char> {
        "andb "@ + spec_reg_name(self.r8@, Size::Byte) + ", "@ + gprmem_text(
            self.rm8,
            Size::Byte,
        )
    }

    /// Render the instruction in AT&T syntax.
    pub fn to_string(&self) -> (r: String)
        requires
            gprmem_enc_ready(self.rm8),
            self.r8.enc_ready(),
        ensures
            r@ == self.spec_text(),
    {
        let mut s = String::new();
        s.append("andb ");
        s.append(self.r8.to_string(Size::Byte));
        s.append(", ");
        let rm = self.rm8.to_string(Size::Byte);
        s.append(rm.as_str());
        s
    }
}

impl<R: Registers> andw_mr<R> {
    /// The AT&T text of this instruction: destination last.
    pub open spec fn spec_text(&self) -> Seq<char> {
        "andw "@ + spec_reg_name(self.r16@, Size::Word) + ", "@ + gprmem_text(
            self.rm16,
            Size::Word,
        )
    }

    /// Render the instruction in AT&T syntax.
    pub fn to_string(&self) -> (r: String)
        requires
            gprmem_enc_ready(self.rm16),
            self.r16.enc_ready(),
        ensures
            r@ == self.spec_text(),
    {
        let mut s = String::new();
        s.append("andw ");
        s.append(self.r16.to_string(Size::Word));
        s.append(", ");
        let rm = self.rm16.to_string(Size::Word);
        s.append(rm.as_str());
        s
    }
}

impl<R: Registers> andl_mr<R> {
    /// The AT&T text of this instruction: destination last.
    pub open spec fn spec_text(&self) -> Seq<char> {
        "andl "@ + spec_reg_name(self.r32@, Size::Doubleword) + ", "@ + gprmem_text(
            self.rm32,
            Size::Doubleword,
        )
    }

    /// Render the instruction in AT&T syntax.
    pub fn to_string(&self) -> (r: String)
        requires
            gprmem_enc_ready(self.rm32),
            self.r32.enc_ready(),
        ensures
            r@ == self.spec_text(),
    {
        let mut s = String::new();
        s.append("andl ");
        s.append(self.r32.to_string(Size::Doubleword));
        s.append(", ");
        let rm = self.rm32.to_string(Size::Doubleword);
        s.append(rm.as_str());
        s
    }
}

impl<R: Registers> andq_mr<R> {
    /// The AT&T text of this instruction: destination last.
    pub open spec fn spec_text(&self) -> Seq<char> {
        "andq "@ + spec_reg_name(self.r64@, Size::Quadword) + ", "@ + gprmem_text(
            self.rm64,
            Size::Quadword,
        )
    }

    /// Render the instruction in AT&T syntax.
    pub fn to_string(&self) -> (r: String)
        requires
            gprmem_enc_ready(self.rm64),
            self.r64.enc_ready(),
        ensures
            r@ == self.spec_text(),
    {
        let mut s = String::new();
        s.append("andq ");
        s.append(self.r64.to_string(Size::Quadword));
        s.append(", ");
        let rm = self.rm64.to_string(Size::Quadword);
        s.append(rm.as_str());
        s
    }
}

impl<R: Registers> andb_rm<R> {
    /// The AT&T text of this instruction: destination last.
    pub open spec fn spec_text(&self) -> Seq<char> {
        "andb "@ + gprmem_text(self.rm8, Size::Byte) + ", "@ + spec_reg_name(
            self.r8@,
            Size::Byte,
        )
    }

    /// Render the instruction in AT&T syntax.
    pub fn to_string(&self) -> (r: String)
        requires
            gprmem_enc_ready(self.rm8),
            self.r8.enc_ready(),
        ensures
            r@ == self.spec_text(),
    {
        let mut s = String::new();
        s.append("andb ");
        let rm = self.rm8.to_string(Size::Byte);
        s.append(rm.as_str());
        s.append(", ");
        s.append(self.r8.to_string(Size::Byte));
        s
    }
}

impl<R: Registers> andb_rm_sx<R> {
    /// The AT&T text of this instruction: destination last.
    pub open spec fn spec_text(&self) -> Seq<char> {
        "andb "@ + gprmem_text(self.rm8, Size::Byte) + ", "@ + spec_reg_name(
            self.r8@,
            Size::Byte,
        )
    }

    /// Render the instruction in AT&T syntax.
    pub fn to_string(&self) -> (r: String)
        requires
            gprmem_enc_ready(self.rm8),
            self.r8.enc_ready(),
        ensures
            r@ == self.spec_text(),
    {
        let mut s = String::new();
        s.append("andb ");
        let rm = self.rm8.to_string(Size::Byte);
        s.append(rm.as_str());
        s.append(", ");
        s.append(self.r8.to_string(Size::Byte));
        s
    }
}

impl<R: Registers> andw_rm<R> {
    /// The AT&T text of this instruction: destination last.
    pub open spec fn spec_text(&self) -> Seq<char> {
        "andw "@ + gprmem_text(self.rm16, Size::Word) + ", "@ + spec_reg_name(
            self.r16@,
            Size::Word,
        )
    }

    /// Render the instruction in AT&T syntax.
    pub fn to_string(&self) -> (r: String)
        requires
            gprmem_enc_ready(self.rm16),
            self.r16.enc_ready(),
        ensures
            r@ == self.spec_text(),
    {
        let mut s = String::new();
        s.append("andw ");
        let rm = self.rm16.to_string(Size::Word);
        s.append(rm.as_str());
        s.append(", ");
        s.append(self.r16.to_string(Size::Word));
        s
    }
}

impl<R: Registers> andl_rm<R> {
    /// The AT&T text of this instruction: destination last.
    pub open spec fn spec_text(&self) -> Seq<char> {
        "andl "@ + gprmem_text(self.rm32, Size::Doubleword) + ", "@ + spec_reg_name(
            self.r32@,
            Size::Doubleword,
        )
    }

    /// Render the instruction in AT&T syntax.
    pub fn to_string(&self) -> (r: String)
        requires
            gprmem_enc_ready(self.rm32),
            self.r32.enc_ready(),
        ensures
            r@ == self.spec_text(),
    {
        let mut s = String::new();
        s.append("andl ");
        let rm = self.rm32.to_string(Size::Doubleword);
        s.append(rm.as_str());
        s.append(", ");
        s.append(self.r32.to_string(Size::Doubleword));
        s
    }
}

impl<R: Registers> andq_rm<R> {
    /// The AT&T text of this instruction: destination last.
    pub open spec fn spec_text(&self) -> Seq<char> {
        "andq "@ + gprmem_text(self.rm64, Size::Quadword) + ", "@ + spec_reg_name(
            self.r64@,
            Size::Quadword,
        )
    }

    /// Render the instruction in AT&T syntax.
    pub fn to_string(&self) -> (r: String)
        requires
            gprmem_enc_ready(self.rm64),
            self.r64.enc_ready(),
        ensures
            r@ == self.spec_text(),
    {
        let mut s = String::new();
        s.append("andq ");
        let rm = self.rm64.to_string(Size::Quadword);
        s.append(rm.as_str());
        s.append(", ");
        s.append(self.r64.to_string(Size::Quadword));
        s
    }
}

/// The AT&T text of an instruction.
pub open spec fn inst_text<R: Registers>(i: Inst<R>) -> Seq<char> {
    match i {
            Inst::andb_i(i) => i.spec_text(),
            Inst::andw_i(i) => i.spec_text(),
            Inst::andl_i(i) => i.spec_text(),
            Inst::andq_i_sx(i) => i.spec_text(),
            Inst::andb_mi(i) => i.spec_text(),
            Inst::andw_mi(i) => i.spec_text(),
            Inst::andl_mi(i) => i.spec_text(),
            Inst::andq_mi_sx(i) => i.spec_text(),
            Inst::andl_mi_sx(i) => i.spec_text(),
            Inst::andq_mi_sxb(i) => i.spec_text(),
            Inst::andb_mr(i) => i.spec_text(),
            Inst::andb_mr_sx(i) => i.spec_text(),
            Inst::andw_mr(i) => i.spec_text(),
            Inst::andl_mr(i) => i.spec_text(),
            Inst::andq_mr(i) => i.spec_text(),
            Inst::andb_rm(i) => i.spec_text(),
            Inst::andb_rm_sx(i) => i.spec_text(),
            Inst::andw_rm(i) => i.spec_text(),
            Inst::andl_rm(i) => i.spec_text(),
            Inst::andq_rm(i) => i.spec_text(),
    }
}

/// Whether all of an instruction's registers have concrete encodings, so
/// that it can be printed or encoded.
pub open spec fn inst_enc_ready<R: Registers>(i: Inst<R>) -> bool {
    match i {
            Inst::andb_i(i) => true,
            Inst::andw_i(i) => true,
            Inst::andl_i(i) => true,
            Inst::andq_i_sx(i) => true,
            Inst::andb_mi(i) => gprmem_enc_ready(i.rm8),
            Inst::andw_mi(i) => gprmem_enc_ready(i.rm16),
            Inst::andl_mi(i) => gprmem_enc_ready(i.rm32),
            Inst::andq_mi_sx(i) => gprmem_enc_ready(i.rm64),
            Inst::andl_mi_sx(i) => gprmem_enc_ready(i.rm32),
            Inst::andq_mi_sxb(i) => gprmem_enc_ready(i.rm64),
            Inst::andb_mr(i) => gprmem_enc_ready(i.rm8) && i.r8.enc_ready(),
            Inst::andb_mr_sx(i) => gprmem_enc_ready(i.rm8) && i.r8.enc_ready(),
            Inst::andw_mr(i) => gprmem_enc_ready(i.rm16) && i.r16.enc_ready(),
            Inst::andl_mr(i) => gprmem_enc_ready(i.rm32) && i.r32.enc_ready(),
            Inst::andq_mr(i) => gprmem_enc_ready(i.rm64) && i.r64.enc_ready(),
            Inst::andb_rm(i) => gprmem_enc_ready(i.rm8) && i.r8.enc_ready(),
            Inst::andb_rm_sx(i) => gprmem_enc_ready(i.rm8) && i.r8.enc_ready(),
            Inst::andw_rm(i) => gprmem_enc_ready(i.rm16) && i.r16.enc_ready(),
            Inst::andl_rm(i) => gprmem_enc_ready(i.rm32) && i.r32.enc_ready(),
            Inst::andq_rm(i) => gprmem_enc_ready(i.rm64) && i.r64.enc_ready(),
    }
}

impl<R: Registers> Inst<R> {
    /// Render the instruction in AT&T syntax: `mnemonic` followed by the
    /// operands, destination last, `$`-prefixed immediates, `%`-prefixed
    /// registers.
    pub fn to_string(&self) -> (r: String)
        requires
            inst_enc_ready(*self),
        ensures
            r@ == inst_text(*self),
    {
        match self {
            Inst::andb_i(i) => i.to_string(),
            Inst::andw_i(i) => i.to_string(),
            Inst::andl_i(i) => i.to_string(),
            Inst::andq_i_sx(i) => i.to_string(),
            Inst::andb_mi(i) => i.to_string(),
            Inst::andw_mi(i) => i.to_string(),
            Inst::andl_mi(i) => i.to_string(),
            Inst::andq_mi_sx(i) => i.to_string(),
            Inst::andl_mi_sx(i) => i.to_string(),
            Inst::andq_mi_sxb(i) => i.to_string(),
            Inst::andb_mr(i) => i.to_string(),
            Inst::andb_mr_sx(i) => i.to_string(),
            Inst::andw_mr(i) => i.to_string(),
            Inst::andl_mr(i) => i.to_string(),
            Inst::andq_mr(i) => i.to_string(),
            Inst::andb_rm(i) => i.to_string(),
            Inst::andb_rm_sx(i) => i.to_string(),
            Inst::andw_rm(i) => i.to_string(),
            Inst::andl_rm(i) => i.to_string(),
            Inst::andq_rm(i) => i.to_string(),
        }
    }
}

} // verus!

verus! {

/// Use this assembler to emit machine code into a byte buffer; no
/// late-bound offsets are available, so the instruction must not use any.
pub fn assemble<R: Registers>(insn: &Inst<R>) -> (r: Vec<u8>)
    requires
        inst_encodable(*insn, Seq::<i32>::empty()),
    ensures
        r@ == inst_code(*insn, Seq::<i32>::empty()),
{
    let mut buffer = crate::sink::ByteBuffer::new();
    let offsets: Vec<i32> = Vec::new();
    insn.encode(&mut buffer, &offsets);
    proof {
        assert(buffer.bytes@ =~= inst_code(*insn, Seq::<i32>::empty()));
    }
    buffer.bytes
}

/// The uppercase hexadecimal digit for `d`.
pub open spec fn hex_upper_digit(d: u8) -> u8 {
    if d < 10 {
        (0x30 + d) as u8
    } else {
        (0x37 + d) as u8
    }
}

/// Two uppercase hexadecimal digits for each byte, concatenated.
pub open spec fn hex_dump_bytes(s: Seq<u8>) -> Seq<u8>
    decreases s.len(),
{
    if s.len() == 0 {
        Seq::<u8>::empty()
    } else {
        hex_dump_bytes(s.drop_last()) + seq![
            hex_upper_digit(s.last() / 16),
            hex_upper_digit(s.last() % 16),
        ]
    }
}

/// Every byte of a hexadecimal dump is ASCII.
proof fn lemma_hex_dump_ascii(s: Seq<u8>)
    ensures
        forall|i: int| 0 <= i < hex_dump_bytes(s).len() ==> hex_dump_bytes(s)[i] < 0x80,
    decreases s.len(),
{
    if s.len() > 0 {
        lemma_hex_dump_ascii(s.drop_last());
        assert forall|i: int| 0 <= i < hex_dump_bytes(s).len() implies hex_dump_bytes(s)[i]
            < 0x80 by {
            if i < hex_dump_bytes(s).len() - 2 {
                assert(hex_dump_bytes(s)[i] == hex_dump_bytes(s.drop_last())[i]);
            }
        }
    }
}

/// Render a byte buffer as uppercase hexadecimal, two digits per byte.
pub fn pretty_print_hexadecimal(hex: &Vec<u8>) -> (r: String)
    ensures
        r@ == crate::text::ascii_view(hex_dump_bytes(hex@)),
{
    let mut s: Vec<u8> = Vec::new();
    let mut i: usize = 0;
    while i < hex.len()
        invariant
            i <= hex@.len(),
            s@ == hex_dump_bytes(hex@.take(i as int)),
        decreases hex@.len() - i,
    {
        let b = hex[i];
        let hi: u8 = b / 16;
        let lo: u8 = b % 16;
        s.push(
            if hi < 10 {
                0x30 + hi
            } else {
                0x37 + hi
            },
        );
        s.push(
            if lo < 10 {
                0x30 + lo
            } else {
                0x37 + lo
            },
        );
        proof {
            assert(hex@.take(i + 1).drop_last() =~= hex@.take(i as int));
            assert(s@ =~= hex_dump_bytes(hex@.take(i + 1)));
        }
        i = i + 1;
    }
    proof {
        assert(hex@.take(hex@.len() as int) =~= hex@);
        lemma_hex_dump_ascii(hex@);
    }
    crate::text::into_string(s)
}

} // verus!

verus! {

/// A visitor that records each visit and rewrites nothing: what a register
/// allocator with no work left looks like to an instruction.
pub struct RecordingVisitor {
    /// Every visit so far, oldest first.
    pub events: Vec<VisitKind>,
}

impl RecordingVisitor {
    /// A visitor with nothing recorded.
    pub fn new() -> (r: RecordingVisitor)
        ensures
            r.events@ == Seq::<VisitKind>::empty(),
    {
        let r = RecordingVisitor { events: Vec::new() };
        proof {
            assert(r.events@ =~= Seq::<VisitKind>::empty());
        }
        r
    }
}

impl OperandVisitor<PlainRegisters> for RecordingVisitor {
    open spec fn events(&self) -> Seq<VisitKind> {
        self.events@
    }

    fn read(&mut self, reg: &mut u8) {
        self.events.push(VisitKind::Read);
    }

    fn read_write(&mut self, reg: &mut u8) {
        self.events.push(VisitKind::ReadWrite);
    }

    fn fixed_read(&mut self, reg: &u8) {
        self.events.push(VisitKind::FixedRead);
    }

    fn fixed_read_write(&mut self, reg: &u8) {
        self.events.push(VisitKind::FixedReadWrite);
    }
}

} // verus!

verus! {

/// Encoding an instruction has no side effect beyond its bytes, at most
/// one trap registration, and at most one label use; the trap lands exactly
/// at the instruction's first byte.
pub proof fn lemma_encode_side_effects<R: Registers>(i: Inst<R>, start: int)
    requires
        0 <= start <= u32::MAX,
    ensures
        inst_traps(i, start).len() <= 1,
        inst_label_uses(i, start).len() <= 1,
        forall|j: int| 0 <= j < inst_traps(i, start).len() ==> inst_traps(i, start)[j].0
            == start,
{
}

} // verus!
