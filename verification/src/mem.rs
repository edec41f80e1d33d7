//! Memory operands to instructions.

use vstd::prelude::*;
use crate::imm::{Simm32, Simm32PlusKnownOffset};
use crate::reg::{AsReg, Gpr, MinusRsp, ENC_RBP, ENC_RSP};
use crate::rex::{
    disp_seq, encode_modrm, encode_sib, rex_seq, spec_disp_choice, spec_disp_m0d, spec_modrm,
    spec_sib, Imm, RexFlags,
};
use crate::sink::{le4, CodeSink, KnownOffsetTable, Label, TrapCode};
use crate::visit::{OperandVisitor, Registers, VisitKind};

verus! {

/// The index scale of an [`Amode::ImmRegRegShift`] operand.
#[derive(Clone, Copy, Debug, PartialEq, Eq, Structural)]
pub enum Scale {
    One,
    Two,
    Four,
    Eight,
}

impl Scale {
    /// The two-bit encoding of this scale in a SIB byte.
    pub open spec fn spec_enc(&self) -> u8 {
        match self {
            Scale::One => 0b00,
            Scale::Two => 0b01,
            Scale::Four => 0b10,
            Scale::Eight => 0b11,
        }
    }

    /// The two-bit encoding of this scale in a SIB byte.
    pub fn enc(&self) -> (r: u8)
        ensures
            r == self.spec_enc(),
    {
        match self {
            Scale::One => 0b00,
            Scale::Two => 0b01,
            Scale::Four => 0b10,
            Scale::Eight => 0b11,
        }
    }

    /// The multiplier this scale stands for.
    pub fn shift(&self) -> (r: u8)
        ensures
            r == (1u8 << self.spec_enc()),
    {
        1u8 << self.enc()
    }
}

/// A memory operand: one of the three supported x64 addressing modes.
#[derive(Clone, Copy, Debug)]
pub enum Amode<R: AsReg> {
    /// A base register plus a displacement, part of which may be late-bound.
    ImmReg { base: Gpr<R>, simm32: Simm32PlusKnownOffset, trap: Option<TrapCode> },
    /// A base register plus a scaled index register and a displacement. The
    /// index is never the stack pointer.
    ImmRegRegShift {
        base: Gpr<R>,
        index: MinusRsp<R>,
        scale: Scale,
        simm32: Simm32,
        trap: Option<TrapCode>,
    },
    /// An address relative to the end of the instruction, resolved through
    /// a label in the caller's buffer. A label is the only deferred target
    /// kind modelled here: the sink interface records label uses and nothing
    /// else, so a constant-pool target would have no channel to reach the
    /// caller's buffer through; a caller places constants behind labels
    /// instead.
    RipRelative { target: Label },
}

/// The trap code attached to a memory operand, if any.
pub open spec fn spec_trap_code<R: AsReg>(a: Amode<R>) -> Option<TrapCode> {
    match a {
        Amode::ImmReg { trap, .. } => trap,
        Amode::ImmRegRegShift { trap, .. } => trap,
        Amode::RipRelative { .. } => None,
    }
}

/// Whether the registers of a memory operand have been allocated, so that the
/// operand can be encoded.
pub open spec fn amode_enc_ready<R: AsReg>(a: Amode<R>) -> bool {
    match a {
        Amode::ImmReg { base, .. } => base.enc_ready(),
        Amode::ImmRegRegShift { base, index, .. } => base.enc_ready() && index.enc_ready(),
        Amode::RipRelative { .. } => true,
    }
}

/// Whether a memory operand can be encoded against `offsets`: registers
/// allocated, the late-bound displacement resolvable, and the index distinct
/// from the stack pointer.
pub open spec fn amode_encodable<R: AsReg>(a: Amode<R>, offsets: Seq<i32>) -> bool {
    &&& amode_enc_ready(a)
    &&& match a {
        Amode::ImmReg { simm32, .. } => simm32.can_resolve(offsets),
        Amode::ImmRegRegShift { index, .. } => index@ != ENC_RSP,
        Amode::RipRelative { .. } => true,
    }
}

/// The REX prefix bytes an operand contributes, given the REX flags and the
/// value of the ModR/M `reg` field.
pub open spec fn amode_rex_seq<R: AsReg>(a: Amode<R>, rex: RexFlags, enc_g: u8) -> Seq<u8> {
    match a {
        Amode::ImmReg { base, .. } => rex_seq(rex.w, rex.always, enc_g, 0, base@),
        Amode::ImmRegRegShift { base, index, .. } => rex_seq(rex.w, rex.always, enc_g, index@, base@),
        Amode::RipRelative { .. } => rex_seq(rex.w, rex.always, enc_g, 0, 0),
    }
}

/// The displacement representation chosen for a memory operand: forced to
/// an explicit byte when the base register's low three bits equal `%rbp`'s
/// encoding (the mod=00 form would read as RIP-relative) or `%rsp`'s (the
/// displacement always accompanies the SIB byte), and chosen by magnitude
/// otherwise.
pub open spec fn amode_disp_choice(base_enc: u8, disp: i32) -> Imm {
    if base_enc & 7 == ENC_RBP || base_enc & 7 == ENC_RSP {
        crate::rex::spec_force(spec_disp_choice(disp, false))
    } else {
        spec_disp_choice(disp, false)
    }
}

/// The displacement representation chosen for a base-index-scale operand:
/// forced to an explicit byte only when the base register's low three bits
/// equal `%rbp`'s encoding; the SIB form encodes an `%rsp` base directly.
pub open spec fn sib_disp_choice(base_enc: u8, disp: i32) -> Imm {
    if base_enc & 7 == ENC_RBP {
        crate::rex::spec_force(spec_disp_choice(disp, false))
    } else {
        spec_disp_choice(disp, false)
    }
}

/// The ModR/M, SIB and displacement bytes of a memory operand, per the x64
/// encoding rules: a SIB byte of `0x24` when the base is `%rsp`-encoded, a
/// full SIB byte for base-index-scale operands, and `rm = 0b101` with a
/// four-byte displacement of `-(bytes_at_end)` for RIP-relative operands.
pub open spec fn amode_code<R: AsReg>(
    a: Amode<R>,
    enc_g: u8,
    offsets: Seq<i32>,
    bytes_at_end: u8,
) -> Seq<u8> {
    match a {
        Amode::ImmReg { base, simm32, .. } => {
            let disp = simm32.spec_value(offsets) as i32;
            let imm = amode_disp_choice(base@, disp);
            if base@ & 7 == ENC_RSP {
                seq![
                    spec_modrm(spec_disp_m0d(imm), enc_g & 7, 0b100),
                    0b00_100_100u8,
                ] + disp_seq(imm)
            } else {
                seq![spec_modrm(spec_disp_m0d(imm), enc_g & 7, base@ & 7)] + disp_seq(imm)
            }
        },
        Amode::ImmRegRegShift { base, index, scale, simm32, .. } => {
            let imm = sib_disp_choice(base@, simm32.0);
            seq![
                spec_modrm(spec_disp_m0d(imm), enc_g & 7, 0b100),
                spec_sib(scale.spec_enc(), index@ & 7, base@ & 7),
            ] + disp_seq(imm)
        },
        Amode::RipRelative { .. } => {
            seq![spec_modrm(0b00, enc_g & 7, 0b101)] + le4((-(bytes_at_end as i32)) as u32)
        },
    }
}

/// The label uses a memory operand records, given the sink offset at which
/// its ModR/M byte begins: RIP-relative operands record one use at the start
/// of their four-byte displacement field.
pub open spec fn amode_label_uses<R: AsReg>(a: Amode<R>, start: int) -> Seq<(u32, Label)> {
    match a {
        Amode::RipRelative { target } => seq![((start + 1) as u32, target)],
        _ => Seq::<(u32, Label)>::empty(),
    }
}

/// Whether two memory operands differ at most in their register payloads:
/// register allocation rewrites registers in place and touches nothing else.
pub open spec fn amode_same_shape<R: AsReg>(a: Amode<R>, b: Amode<R>) -> bool {
    match (a, b) {
        (
            Amode::ImmReg { simm32: s1, trap: t1, .. },
            Amode::ImmReg { simm32: s2, trap: t2, .. },
        ) => s1 == s2 && t1 == t2,
        (
            Amode::ImmRegRegShift { scale: c1, simm32: s1, trap: t1, .. },
            Amode::ImmRegRegShift { scale: c2, simm32: s2, trap: t2, .. },
        ) => c1 == c2 && s1 == s2 && t1 == t2,
        (Amode::RipRelative { target: l1 }, Amode::RipRelative { target: l2 }) => l1 == l2,
        _ => false,
    }
}

/// A memory operand with its registers replaced by their hardware encodings:
/// everything the encoder reads from the operand.
pub open spec fn amode_view<R: AsReg>(a: Amode<R>) -> Amode<u8> {
    match a {
        Amode::ImmReg { base, simm32, trap } => Amode::ImmReg {
            base: Gpr(base@),
            simm32,
            trap,
        },
        Amode::ImmRegRegShift { base, index, scale, simm32, trap } => Amode::ImmRegRegShift {
            base: Gpr(base@),
            index: MinusRsp(index@),
            scale,
            simm32,
            trap,
        },
        Amode::RipRelative { target } => Amode::RipRelative { target },
    }
}

/// A register-or-memory operand with its registers replaced by their
/// hardware encodings.
pub open spec fn gprmem_view<R: AsReg, M: AsReg>(gm: GprMem<R, M>) -> GprMem<u8, u8> {
    match gm {
        GprMem::Gpr(g) => GprMem::Gpr(Gpr(g@)),
        GprMem::Mem(a) => GprMem::Mem(amode_view(a)),
    }
}

/// The operand visits a memory operand makes during register allocation:
/// its base and index registers are plain reads, base before index; the
/// memory location itself is never a written resource.
pub open spec fn amode_visit_trace<R: AsReg>(a: Amode<R>) -> Seq<VisitKind> {
    match a {
        Amode::ImmReg { .. } => seq![VisitKind::Read],
        Amode::ImmRegRegShift { .. } => seq![VisitKind::Read, VisitKind::Read],
        Amode::RipRelative { .. } => Seq::<VisitKind>::empty(),
    }
}

impl<R: AsReg> Amode<R> {
    /// The trap code attached to this operand, if any.
    pub fn trap_code(&self) -> (r: Option<TrapCode>)
        ensures
            r == spec_trap_code(*self),
    {
        match self {
            Amode::ImmReg { trap, .. } => *trap,
            Amode::ImmRegRegShift { trap, .. } => *trap,
            Amode::RipRelative { .. } => None,
        }
    }

    /// Emit the REX prefix for an instruction whose ModR/M `rm` field is this
    /// operand and whose `reg` field is `enc_g`.
    pub fn emit_rex_prefix<S: CodeSink>(&self, rex: RexFlags, enc_g: u8, sink: &mut S)
        requires
            amode_enc_ready(*self),
            old(sink).bytes().len() < 0xffff_ffff,
        ensures
            final(sink).bytes() == old(sink).bytes() + amode_rex_seq(*self, rex, enc_g),
            final(sink).traps() == old(sink).traps(),
            final(sink).label_uses() == old(sink).label_uses(),
    {
        match self {
            Amode::ImmReg { base, .. } => {
                let enc_e = base.enc();
                rex.emit_two_op(sink, enc_g, enc_e);
            },
            Amode::ImmRegRegShift { base, index, .. } => {
                let enc_base = base.enc();
                let enc_index = index.enc();
                rex.emit_three_op(sink, enc_g, enc_index, enc_base);
            },
            Amode::RipRelative { .. } => {
                rex.emit_two_op(sink, enc_g, 0);
            },
        }
    }

    /// Present this operand's registers to the allocator, in operand order.
    pub fn read<RS, V>(&mut self, visitor: &mut V) where
        RS: Registers<ReadGpr = R>,
        V: OperandVisitor<RS>,

        requires
            !((*old(self)) is RipRelative),
        ensures
            final(visitor).events() == old(visitor).events() + amode_visit_trace(*old(self)),
            amode_same_shape(*old(self), *final(self)),
    {
        match self {
            Amode::ImmReg { base, .. } => {
                visitor.read(&mut base.0);
                proof {
                    assert(final(visitor).events() =~= old(visitor).events()
                        + amode_visit_trace(*old(self)));
                }
            },
            Amode::ImmRegRegShift { base, index, .. } => {
                visitor.read(&mut base.0);
                visitor.read(index.as_mut());
                proof {
                    assert(final(visitor).events() =~= old(visitor).events()
                        + amode_visit_trace(*old(self)));
                }
            },
            Amode::RipRelative { .. } => {
                proof {
                    assert(false);
                }
            },
        }
    }
}

/// Emit the ModR/M byte, the SIB byte where one is needed, and the
/// displacement of a memory operand, with `enc_g` in the ModR/M `reg` field.
/// `bytes_at_end` is the number of instruction bytes that follow a
/// RIP-relative displacement field, compensated for in the field's initial
/// value.
pub fn emit_modrm_sib_disp<R: AsReg, S: CodeSink, T: KnownOffsetTable>(
    sink: &mut S,
    offsets: &T,
    enc_g: u8,
    mem_e: &Amode<R>,
    bytes_at_end: u8,
)
    requires
        amode_encodable(*mem_e, offsets.offsets()),
        old(sink).bytes().len() + 8 <= 0xffff_ffff,
    ensures
        final(sink).bytes() == old(sink).bytes() + amode_code(
            *mem_e,
            enc_g,
            offsets.offsets(),
            bytes_at_end,
        ),
        final(sink).traps() == old(sink).traps(),
        final(sink).label_uses() == old(sink).label_uses() + amode_label_uses(
            *mem_e,
            old(sink).bytes().len() as int,
        ),
{
    match mem_e {
        Amode::ImmReg { base, simm32, .. } => {
            let enc_e = base.enc();
            let mut imm = Imm::new(simm32.value(offsets));

            // Most base registers allow a single ModR/M byte plus an optional
            // displacement; if `%rsp` is the base, a SIB byte is required.
            let enc_e_low3 = enc_e & 7;
            if enc_e_low3 == ENC_RSP {
                // Displacement from `%rsp` uses a SIB byte whose index and
                // base are both 0b100: no index register, base `%rsp` (or
                // `%r12` through REX.B); the chosen displacement is always
                // emitted, a one-byte zero included.
                imm.force_immediate();
                let modrm = encode_modrm(imm.m0d(), enc_g & 7, 0b100);
                sink.put1(modrm);
                sink.put1(0b00_100_100);
                imm.emit(sink);
            } else {
                // A base of `%rbp` (or `%r13`) with no displacement would be
                // read as RIP-relative; force a one-byte zero displacement.
                if enc_e_low3 == ENC_RBP {
                    imm.force_immediate();
                }
                let modrm = encode_modrm(imm.m0d(), enc_g & 7, enc_e & 7);
                sink.put1(modrm);
                imm.emit(sink);
            }
            proof {
                assert(final(sink).bytes() =~= old(sink).bytes() + amode_code(
                    *mem_e,
                    enc_g,
                    offsets.offsets(),
                    bytes_at_end,
                ));
                assert(final(sink).label_uses() =~= old(sink).label_uses() + amode_label_uses(
                    *mem_e,
                    old(sink).bytes().len() as int,
                ));
            }
        },
        Amode::ImmRegRegShift { base, index, scale, simm32, .. } => {
            let enc_base = base.enc();
            let enc_index = index.enc();

            // If the offset is zero there is no displacement byte, except
            // that a base whose low three bits are 0b101 (`%rbp`, `%r13`)
            // demands an explicit displacement.
            let mut imm = Imm::new(simm32.value());
            if enc_base & 7 == ENC_RBP {
                imm.force_immediate();
            }

            let modrm = encode_modrm(imm.m0d(), enc_g & 7, 0b100);
            sink.put1(modrm);
            let sib = encode_sib(scale.enc(), enc_index & 7, enc_base & 7);
            sink.put1(sib);
            imm.emit(sink);
            proof {
                assert(final(sink).bytes() =~= old(sink).bytes() + amode_code(
                    *mem_e,
                    enc_g,
                    offsets.offsets(),
                    bytes_at_end,
                ));
                assert(final(sink).label_uses() =~= old(sink).label_uses() + amode_label_uses(
                    *mem_e,
                    old(sink).bytes().len() as int,
                ));
            }
        },
        Amode::RipRelative { target } => {
            // RIP-relative is mod=00, rm=101.
            let modrm = encode_modrm(0b00, enc_g & 7, 0b101);
            sink.put1(modrm);

            let offset = sink.cur_offset();
            sink.use_label_at_offset(offset, *target);

            // Some instructions have bytes after the RIP-relative field. The
            // addressed location is relative to the end of the instruction,
            // but the label resolver is relative to the end of the four-byte
            // field, so the field starts at minus the number of trailing
            // bytes and the resolver adds to it.
            sink.put4((-(bytes_at_end as i32)) as u32);
            proof {
                assert(final(sink).bytes() =~= old(sink).bytes() + amode_code(
                    *mem_e,
                    enc_g,
                    offsets.offsets(),
                    bytes_at_end,
                ));
                assert(final(sink).label_uses() =~= old(sink).label_uses() + amode_label_uses(
                    *mem_e,
                    old(sink).bytes().len() as int,
                ));
            }
        },
    }
}

} // verus!

verus! {

/// A register-or-memory operand. `R` is the caller's type for the register
/// alternative; `M` is the caller's type for the registers inside the memory
/// alternative, which are always plain reads.
#[derive(Clone, Copy, Debug)]
pub enum GprMem<R: AsReg, M: AsReg> {
    Gpr(Gpr<R>),
    Mem(Amode<M>),
}

/// The operand visits a register-or-memory operand makes during register
/// allocation, given the polarity of its register alternative.
pub open spec fn gprmem_visit_trace<R: AsReg, M: AsReg>(
    gm: GprMem<R, M>,
    polarity: VisitKind,
) -> Seq<VisitKind> {
    match gm {
        GprMem::Gpr(_) => seq![polarity],
        GprMem::Mem(a) => amode_visit_trace(a),
    }
}

/// Whether a register-or-memory operand can be presented to the allocator:
/// RIP-relative memory operands hold no allocatable register.
pub open spec fn gprmem_visitable<R: AsReg, M: AsReg>(gm: GprMem<R, M>) -> bool {
    match gm {
        GprMem::Gpr(_) => true,
        GprMem::Mem(a) => !(a is RipRelative),
    }
}

/// Whether two register-or-memory operands differ at most in their register
/// payloads.
pub open spec fn gprmem_same_shape<R: AsReg, M: AsReg>(
    a: GprMem<R, M>,
    b: GprMem<R, M>,
) -> bool {
    match (a, b) {
        (GprMem::Gpr(_), GprMem::Gpr(_)) => true,
        (GprMem::Mem(m1), GprMem::Mem(m2)) => amode_same_shape(m1, m2),
        _ => false,
    }
}

/// Whether the registers of a register-or-memory operand have been allocated.
pub open spec fn gprmem_enc_ready<R: AsReg, M: AsReg>(gm: GprMem<R, M>) -> bool {
    match gm {
        GprMem::Gpr(gpr) => gpr.enc_ready(),
        GprMem::Mem(a) => amode_enc_ready(a),
    }
}

impl<R: AsReg, M: AsReg> GprMem<R, M> {
    /// Demand an explicit REX prefix when the register alternative is an
    /// 8-bit register that needs one; memory operands never do.
    pub fn always_emit_if_8bit_needed(&self, rex: &mut RexFlags)
        requires
            gprmem_enc_ready(*self),
        ensures
            *final(rex) == (RexFlags {
                w: old(rex).w,
                always: old(rex).always || (self matches GprMem::Gpr(gpr) && 4 <= gpr@ <= 7),
            }),
    {
        match self {
            GprMem::Gpr(gpr) => gpr.always_emit_if_8bit_needed(rex),
            GprMem::Mem(_) => {
            },
        }
    }

    /// Present this operand to the allocator as a read-write; the registers
    /// of the memory alternative are still plain reads, since the memory
    /// location, not the address, is what the instruction writes.
    pub fn read_write<RS, V>(&mut self, visitor: &mut V) where
        RS: Registers<ReadWriteGpr = R, ReadGpr = M>,
        V: OperandVisitor<RS>,

        requires
            gprmem_visitable(*old(self)),
        ensures
            final(visitor).events() == old(visitor).events() + gprmem_visit_trace(
                *old(self),
                VisitKind::ReadWrite,
            ),
            gprmem_same_shape(*old(self), *final(self)),
    {
        match self {
            GprMem::Gpr(gpr) => {
                gpr.read_write(visitor);
                proof {
                    assert(final(visitor).events() =~= old(visitor).events() + gprmem_visit_trace(
                        *old(self),
                        VisitKind::ReadWrite,
                    ));
                }
            },
            GprMem::Mem(amode) => {
                amode.read(visitor);
            },
        }
    }
}

impl<R: AsReg> GprMem<R, R> {
    /// Present this operand to the allocator as a read.
    pub fn read<RS, V>(&mut self, visitor: &mut V) where
        RS: Registers<ReadGpr = R>,
        V: OperandVisitor<RS>,

        requires
            gprmem_visitable(*old(self)),
        ensures
            final(visitor).events() == old(visitor).events() + gprmem_visit_trace(
                *old(self),
                VisitKind::Read,
            ),
            gprmem_same_shape(*old(self), *final(self)),
    {
        match self {
            GprMem::Gpr(gpr) => {
                gpr.read(visitor);
                proof {
                    assert(final(visitor).events() =~= old(visitor).events() + gprmem_visit_trace(
                        *old(self),
                        VisitKind::Read,
                    ));
                }
            },
            GprMem::Mem(amode) => {
                amode.read(visitor);
            },
        }
    }
}

} // verus!

use crate::reg::{spec_reg_name, Size};
use crate::text::{
    ascii_view, dec_bytes, into_string, lemma_dec_bytes_ascii, lemma_signed_hex_ascii, push_dec,
    push_signed_hex, signed_hex_bytes, spec_signed_hex,
};
use vstd::string::StringExecFns;

verus! {

/// The displayed form of a displacement with an optional late-bound
/// component: the key is shown symbolically, since its value is not known
/// until encode time.
pub open spec fn skoff_text_bytes(s: Simm32PlusKnownOffset) -> Seq<u8> {
    match s.offset {
        Some(k) => seq![0x3cu8, 0x6fu8, 0x66u8, 0x66u8, 0x73u8, 0x65u8, 0x74u8, 0x3au8]
            + dec_bytes(k as nat) + seq![0x3eu8, 0x2bu8] + signed_hex_bytes(s.simm32.0 as int),
        None => signed_hex_bytes(s.simm32.0 as int),
    }
}

/// The AT&T text of a memory operand: `disp(%base)`, `disp(%base, %index)`
/// or `disp(%base, %index, scale)` with the scale shown only when it is
/// greater than one, and `(%rip)` for RIP-relative operands. The address is
/// always 64 bits wide, whatever the size of the addressed operand.
pub open spec fn amode_text<R: AsReg>(a: Amode<R>) -> Seq<char> {
    match a {
        Amode::ImmReg { base, simm32, .. } => ascii_view(skoff_text_bytes(simm32)) + "("@
            + spec_reg_name(base@, Size::Quadword) + ")"@,
        Amode::ImmRegRegShift { base, index, scale, simm32, .. } => ascii_view(
            signed_hex_bytes(simm32.0 as int),
        ) + "("@ + spec_reg_name(base@, Size::Quadword) + ", "@ + spec_reg_name(
            index@,
            Size::Quadword,
        ) + (if scale.spec_enc() > 0 {
            ", "@ + ascii_view(dec_bytes((1u8 << scale.spec_enc()) as nat))
        } else {
            Seq::<char>::empty()
        }) + ")"@,
        Amode::RipRelative { .. } => "(%rip)"@,
    }
}

impl<R: AsReg> Amode<R> {
    /// The AT&T text of this memory operand.
    pub fn to_string(&self) -> (r: String)
        requires
            amode_enc_ready(*self),
        ensures
            r@ == amode_text(*self),
    {
        match self {
            Amode::ImmReg { base, simm32, .. } => {
                let mut bytes: Vec<u8> = Vec::new();
                if let Some(k) = simm32.offset {
                    bytes.push(0x3c);
                    bytes.push(0x6f);
                    bytes.push(0x66);
                    bytes.push(0x66);
                    bytes.push(0x73);
                    bytes.push(0x65);
                    bytes.push(0x74);
                    bytes.push(0x3a);
                    push_dec(&mut bytes, k as u64);
                    bytes.push(0x3e);
                    bytes.push(0x2b);
                    push_signed_hex(&mut bytes, simm32.simm32.0 as i64);
                    proof {
                        lemma_dec_bytes_ascii(k as nat);
                    }
                } else {
                    push_signed_hex(&mut bytes, simm32.simm32.0 as i64);
                }
                proof {
                    lemma_signed_hex_ascii(simm32.simm32.0 as int);
                    assert(bytes@ =~= skoff_text_bytes(*simm32));
                }
                let mut s = into_string(bytes);
                s.append("(");
                s.append(base.to_string(Size::Quadword));
                s.append(")");
                proof {
                    assert(s@ =~= amode_text(*self));
                }
                s
            },
            Amode::ImmRegRegShift { base, index, scale, simm32, .. } => {
                let mut bytes: Vec<u8> = Vec::new();
                push_signed_hex(&mut bytes, simm32.0 as i64);
                proof {
                    lemma_signed_hex_ascii(simm32.0 as int);
                }
                let mut s = into_string(bytes);
                s.append("(");
                s.append(base.to_string(Size::Quadword));
                s.append(", ");
                s.append(index.to_string(Size::Quadword));
                let shift = scale.shift();
                if shift > 1 {
                    s.append(", ");
                    let mut sh: Vec<u8> = Vec::new();
                    push_dec(&mut sh, shift as u64);
                    proof {
                        lemma_dec_bytes_ascii(shift as nat);
                    }
                    let shs = into_string(sh);
                    s.append(shs.as_str());
                }
                s.append(")");
                proof {
                    assert((1u8 << scale.spec_enc()) > 1 <==> scale.spec_enc() > 0) by {
                        assert((1u8 << 0) == 1 && (1u8 << 1) == 2 && (1u8 << 2) == 4 && (1u8 << 3)
                            == 8) by (bit_vector);
                    }
                    assert(s@ =~= amode_text(*self));
                }
                s
            },
            Amode::RipRelative { .. } => {
                let mut s = String::new();
                s.append("(%rip)");
                s
            },
        }
    }
}

/// The AT&T text of a register-or-memory operand at operand size `size`.
pub open spec fn gprmem_text<R: AsReg, M: AsReg>(gm: GprMem<R, M>, size: Size) -> Seq<char> {
    match gm {
        GprMem::Gpr(g) => spec_reg_name(g@, size),
        GprMem::Mem(a) => amode_text(a),
    }
}

impl<R: AsReg, M: AsReg> GprMem<R, M> {
    /// The AT&T text of this operand at operand size `size`.
    pub fn to_string(&self, size: Size) -> (r: String)
        requires
            gprmem_enc_ready(*self),
        ensures
            r@ == gprmem_text(*self, size),
    {
        match self {
            GprMem::Gpr(gpr) => {
                let mut s = String::new();
                s.append(gpr.to_string(size));
                s
            },
            GprMem::Mem(amode) => amode.to_string(),
        }
    }
}

} // verus!
