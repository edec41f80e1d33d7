//! Encoding helpers for the REX instruction format: the REX prefix itself,
//! the ModR/M and SIB bytes, and displacement/immediate emission.

use vstd::prelude::*;
use crate::sink::{le2, le4, CodeSink};

verus! {

/// The REX byte for the given W bit and the high bits (bit 3) of the three
/// register fields it may extend.
pub open spec fn rex_byte(w: bool, g: u8, x: u8, b: u8) -> u8 {
    0x40 | ((if w {
        1u8
    } else {
        0u8
    }) << 3) | (((g >> 3) & 1) << 2) | (((x >> 3) & 1) << 1) | ((b >> 3) & 1)
}

/// What a REX prefix emission appends to the sink: the REX byte when any of
/// its low four bits is set or when an 8-bit register demands disambiguation,
/// and nothing otherwise.
pub open spec fn rex_seq(w: bool, always: bool, g: u8, x: u8, b: u8) -> Seq<u8> {
    let byte = rex_byte(w, g, x, b);
    if byte != 0x40 || always {
        seq![byte]
    } else {
        Seq::<u8>::empty()
    }
}

/// Flags feeding the REX prefix: the W bit and whether the prefix must be
/// emitted even with no extension bit set (needed to address `%sil`, `%dil`,
/// `%bpl`, `%spl` rather than `%ah`..`%bh`).
#[derive(Clone, Copy, Debug, PartialEq, Eq, Structural)]
pub struct RexFlags {
    /// The REX.W bit: select 64-bit operand size.
    pub w: bool,
    /// Emit the prefix even when it is `0x40`.
    pub always: bool,
}

impl RexFlags {
    /// Flags with the W bit set.
    pub fn set_w() -> (r: RexFlags)
        ensures
            r == (RexFlags { w: true, always: false }),
    {
        RexFlags { w: true, always: false }
    }

    /// Flags with the W bit clear.
    pub fn clear_w() -> (r: RexFlags)
        ensures
            r == (RexFlags { w: false, always: false }),
    {
        RexFlags { w: false, always: false }
    }

    /// Demand emission of the prefix even when it is `0x40`.
    pub fn always_emit(&mut self)
        ensures
            *final(self) == (RexFlags { w: old(self).w, always: true }),
    {
        self.always = true;
    }

    /// Whether the prefix is emitted even when it is `0x40`.
    pub fn must_always_emit(&self) -> (r: bool)
        ensures
            r == self.always,
    {
        self.always
    }

    /// Emit the REX prefix for a two-register form: `g` names the ModR/M
    /// `reg` field, `e` the ModR/M `rm` field.
    pub fn emit_two_op<S: CodeSink>(&self, sink: &mut S, enc_g: u8, enc_e: u8)
        requires
            old(sink).bytes().len() < 0xffff_ffff,
        ensures
            final(sink).bytes() == old(sink).bytes() + rex_seq(
                self.w,
                self.always,
                enc_g,
                0,
                enc_e,
            ),
            final(sink).traps() == old(sink).traps(),
            final(sink).label_uses() == old(sink).label_uses(),
    {
        self.emit_three_op(sink, enc_g, 0, enc_e)
    }

    /// Emit the REX prefix for a three-register form: `g` names the ModR/M
    /// `reg` field, `x` the SIB `index` field, `b` the SIB `base` field.
    pub fn emit_three_op<S: CodeSink>(&self, sink: &mut S, enc_g: u8, enc_x: u8, enc_b: u8)
        requires
            old(sink).bytes().len() < 0xffff_ffff,
        ensures
            final(sink).bytes() == old(sink).bytes() + rex_seq(
                self.w,
                self.always,
                enc_g,
                enc_x,
                enc_b,
            ),
            final(sink).traps() == old(sink).traps(),
            final(sink).label_uses() == old(sink).label_uses(),
    {
        let w: u8 = if self.w {
            1
        } else {
            0
        };
        let byte: u8 = 0x40 | (w << 3) | (((enc_g >> 3) & 1) << 2) | (((enc_x >> 3) & 1) << 1) | (
        (enc_b >> 3) & 1);
        if byte != 0x40 || self.always {
            sink.put1(byte);
            proof {
                assert(final(sink).bytes() =~= old(sink).bytes() + rex_seq(
                    self.w,
                    self.always,
                    enc_g,
                    enc_x,
                    enc_b,
                ));
            }
        } else {
            proof {
                assert(final(sink).bytes() =~= old(sink).bytes() + rex_seq(
                    self.w,
                    self.always,
                    enc_g,
                    enc_x,
                    enc_b,
                ));
            }
        }
    }
}

/// The ModR/M byte `mod(2) | reg(3) | rm(3)`; only the low three bits of the
/// register fields are used.
pub open spec fn spec_modrm(m0d: u8, enc_reg_g: u8, rm_e: u8) -> u8 {
    (m0d << 6) | ((enc_reg_g & 7) << 3) | (rm_e & 7)
}

/// Build the ModR/M byte.
pub fn encode_modrm(m0d: u8, enc_reg_g: u8, rm_e: u8) -> (r: u8)
    requires
        m0d < 4,
    ensures
        r == spec_modrm(m0d, enc_reg_g, rm_e),
{
    (m0d << 6) | ((enc_reg_g & 7) << 3) | (rm_e & 7)
}

/// The SIB byte `scale(2) | index(3) | base(3)`; only the low three bits of
/// the register fields are used.
pub open spec fn spec_sib(scale: u8, enc_index: u8, enc_base: u8) -> u8 {
    (scale << 6) | ((enc_index & 7) << 3) | (enc_base & 7)
}

/// Build the SIB byte.
pub fn encode_sib(scale: u8, enc_index: u8, enc_base: u8) -> (r: u8)
    requires
        scale < 4,
    ensures
        r == spec_sib(scale, enc_index, enc_base),
{
    (scale << 6) | ((enc_index & 7) << 3) | (enc_base & 7)
}

/// A displacement to be emitted after the ModR/M (and SIB) bytes: either
/// absent, one signed byte, or four bytes.
#[derive(Clone, Copy, Debug, PartialEq, Eq, Structural)]
pub enum Imm {
    NoImm,
    Imm8(i8),
    Imm32(i32),
}

/// The displacement choice for `val`: absent when zero (unless `force` holds),
/// one byte when it fits, four bytes otherwise.
pub open spec fn spec_disp_choice(val: i32, force: bool) -> Imm {
    if val == 0 && !force {
        Imm::NoImm
    } else if -128 <= val && val <= 127 {
        Imm::Imm8(val as i8)
    } else {
        Imm::Imm32(val)
    }
}

/// The bytes a displacement contributes to the instruction.
pub open spec fn disp_seq(imm: Imm) -> Seq<u8> {
    match imm {
        Imm::NoImm => Seq::<u8>::empty(),
        Imm::Imm8(v) => seq![v as u8],
        Imm::Imm32(v) => le4(v as u32),
    }
}

impl Imm {
    /// Choose the smallest representation of the displacement `val`.
    pub fn new(val: i32) -> (r: Imm)
        ensures
            r == spec_disp_choice(val, false),
    {
        if val == 0 {
            Imm::NoImm
        } else if -128 <= val && val <= 127 {
            Imm::Imm8(val as i8)
        } else {
            Imm::Imm32(val)
        }
    }

    /// The ModR/M `mod` field for this displacement.
    pub fn m0d(&self) -> (r: u8)
        ensures
            r == spec_disp_m0d(*self),
    {
        match self {
            Imm::NoImm => 0b00,
            Imm::Imm8(_) => 0b01,
            Imm::Imm32(_) => 0b10,
        }
    }

    /// Turn an absent displacement into an explicit one-byte zero; needed when
    /// the base register's low three bits equal `%rbp`'s encoding.
    pub fn force_immediate(&mut self)
        ensures
            *final(self) == spec_force(*old(self)),
    {
        match self {
            Imm::NoImm => {
                *self = Imm::Imm8(0);
            },
            Imm::Imm8(_) => {
            },
            Imm::Imm32(_) => {
            },
        }
    }

    /// Append the displacement bytes to the sink.
    pub fn emit<S: CodeSink>(&self, sink: &mut S)
        requires
            old(sink).bytes().len() + 4 <= 0xffff_ffff,
        ensures
            final(sink).bytes() == old(sink).bytes() + disp_seq(*self),
            final(sink).traps() == old(sink).traps(),
            final(sink).label_uses() == old(sink).label_uses(),
    {
        match self {
            Imm::NoImm => {
                proof {
                    assert(final(sink).bytes() =~= old(sink).bytes() + disp_seq(*self));
                }
            },
            Imm::Imm8(v) => {
                sink.put1(*v as u8);
                proof {
                    assert(final(sink).bytes() =~= old(sink).bytes() + disp_seq(*self));
                }
            },
            Imm::Imm32(v) => {
                sink.put4(*v as u32);
            },
        }
    }
}

/// The ModR/M `mod` field selected by a displacement.
pub open spec fn spec_disp_m0d(imm: Imm) -> u8 {
    match imm {
        Imm::NoImm => 0b00,
        Imm::Imm8(_) => 0b01,
        Imm::Imm32(_) => 0b10,
    }
}

/// `force_immediate` on the given displacement.
pub open spec fn spec_force(imm: Imm) -> Imm {
    match imm {
        Imm::NoImm => Imm::Imm8(0),
        other => other,
    }
}

/// The bytes of an immediate of `width` bytes holding the low bits of
/// `value`, little-endian.
pub open spec fn simm_seq(width: u8, value: u32) -> Seq<u8> {
    if width == 1 {
        seq![value as u8]
    } else if width == 2 {
        le2(value as u16)
    } else {
        le4(value)
    }
}

/// Emit `width` little-endian bytes of `value`, masked to that width.
pub fn emit_simm<S: CodeSink>(sink: &mut S, width: u8, value: u32)
    requires
        width == 1 || width == 2 || width == 4,
        old(sink).bytes().len() + 4 <= 0xffff_ffff,
    ensures
        final(sink).bytes() == old(sink).bytes() + simm_seq(width, value),
        final(sink).traps() == old(sink).traps(),
        final(sink).label_uses() == old(sink).label_uses(),
{
    if width == 1 {
        sink.put1(value as u8);
    } else if width == 2 {
        sink.put2(value as u16);
    } else {
        sink.put4(value);
    }
}

} // verus!

verus! {

/// Emit a register-direct ModR/M byte (`mod = 0b11`).
pub fn emit_modrm<S: CodeSink>(sink: &mut S, enc_g: u8, enc_e: u8)
    requires
        old(sink).bytes().len() < 0xffff_ffff,
    ensures
        final(sink).bytes() == old(sink).bytes().push(spec_modrm(0b11, enc_g, enc_e)),
        final(sink).traps() == old(sink).traps(),
        final(sink).label_uses() == old(sink).label_uses(),
{
    let b = encode_modrm(0b11, enc_g, enc_e);
    sink.put1(b);
}

} // verus!
