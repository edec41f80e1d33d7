//! Generated encoding bodies for the REX format: legacy prefixes, the REX
//! prefix, the ModR/M byte, and immediates.

use vstd::prelude::*;
use vstd::string::StringExecFns;
use crate::dsl::encoding::{LegacyPrefixes, Rex};
use crate::dsl::format::{
    location_text, operand_text, spec_loc_bits, spec_loc_kind, Format, Location, Operand,
    OperandKind,
};
use crate::generate::formatter::{line_text, Formatter};
use crate::text::{ascii_view, dec_bytes, hex_bytes, into_string, lemma_hex_bytes_ascii, push_hex};

verus! {

/// The four operand shapes the REX encoder knows how to emit.
#[derive(Clone, Copy, Debug, PartialEq, Eq, Structural)]
pub enum RexShape {
    /// A fixed register and an immediate: no ModR/M byte.
    FixedRegImm,
    /// A register-or-memory destination and an immediate: the
    /// opcode-extension digit fills ModR/M `reg`.
    RegMemImm,
    /// A register destination and a register-or-memory source.
    RegRegMem,
    /// A register-or-memory destination and a register source.
    RegMemReg,
    /// Anything else; no emission is defined for it.
    Other,
}

/// The shape of a format's operand list.
pub open spec fn spec_shape(ops: Seq<Operand>) -> RexShape {
    if ops.len() == 2 {
        match (spec_loc_kind(ops[0].location), spec_loc_kind(ops[1].location)) {
            (OperandKind::FixedReg(_), OperandKind::Imm(_)) => RexShape::FixedRegImm,
            (OperandKind::RegMem(_), OperandKind::Imm(_)) => RexShape::RegMemImm,
            (OperandKind::Reg(_), OperandKind::RegMem(_)) => RexShape::RegRegMem,
            (OperandKind::RegMem(_), OperandKind::Reg(_)) => RexShape::RegMemReg,
            _ => RexShape::Other,
        }
    } else {
        RexShape::Other
    }
}

impl Format {
    /// The shape of this format's operand list.
    pub fn shape(&self) -> (r: RexShape)
        ensures
            r == spec_shape(self.operands@),
    {
        let kinds = self.operands_by_kind();
        if kinds.len() == 2 {
            match (kinds[0], kinds[1]) {
                (OperandKind::FixedReg(_), OperandKind::Imm(_)) => RexShape::FixedRegImm,
                (OperandKind::RegMem(_), OperandKind::Imm(_)) => RexShape::RegMemImm,
                (OperandKind::Reg(_), OperandKind::RegMem(_)) => RexShape::RegRegMem,
                (OperandKind::RegMem(_), OperandKind::Reg(_)) => RexShape::RegMemReg,
                _ => RexShape::Other,
            }
        } else {
            RexShape::Other
        }
    }

    /// The operands the instruction prints, in AT&T order: when there are
    /// two or more, the destination moves to the end.
    pub open spec fn spec_att_style_operands(ops: Seq<Operand>) -> Seq<char> {
        if ops.len() > 1 {
            braced_join(ops.drop_first().push(ops[0]))
        } else {
            braced_join(ops)
        }
    }

    /// Emit the AT&T-ordered operand list of this format, each operand in
    /// braces, for splicing into a generated format string.
    pub fn generate_att_style_operands(&self) -> (r: String)
        ensures
            r@ == Format::spec_att_style_operands(self.operands@),
    {
        let mut ordered: Vec<Operand> = Vec::new();
        let mut i: usize = if self.operands.len() > 1 {
            1
        } else {
            0
        };
        while i < self.operands.len()
            invariant
                i <= self.operands@.len(),
                self.operands@.len() > 1 ==> i >= 1 && ordered@ == self.operands@.subrange(
                    1,
                    i as int,
                ),
                self.operands@.len() <= 1 ==> ordered@ == self.operands@.take(i as int),
            decreases self.operands@.len() - i,
        {
            ordered.push(self.operands[i]);
            proof {
                if self.operands@.len() > 1 {
                    assert(ordered@ =~= self.operands@.subrange(1, i + 1));
                } else {
                    assert(ordered@ =~= self.operands@.take(i + 1));
                }
            }
            i = i + 1;
        }
        if self.operands.len() > 1 {
            ordered.push(self.operands[0]);
            proof {
                assert(ordered@ =~= self.operands@.drop_first().push(self.operands@[0]));
            }
        } else {
            proof {
                assert(ordered@ =~= self.operands@);
            }
        }
        let mut s = String::new();
        let mut j: usize = 0;
        while j < ordered.len()
            invariant
                j <= ordered@.len(),
                s@ == braced_join(ordered@.take(j as int)),
            decreases ordered@.len() - j,
        {
            if j > 0 {
                s.append(", ");
            }
            s.append("{");
            let o = ordered[j].to_string();
            s.append(o.as_str());
            s.append("}");
            proof {
                assert(ordered@.take(j + 1).drop_last() =~= ordered@.take(j as int));
                assert(s@ =~= braced_join(ordered@.take(j + 1)));
            }
            j = j + 1;
        }
        proof {
            assert(ordered@.take(ordered@.len() as int) =~= ordered@);
        }
        s
    }
}

/// Each operand in braces, joined with a comma and a space.
pub open spec fn braced_join(ops: Seq<Operand>) -> Seq<char>
    decreases ops.len(),
{
    if ops.len() == 0 {
        Seq::<char>::empty()
    } else if ops.len() == 1 {
        "{"@ + operand_text(ops[0]) + "}"@
    } else {
        braced_join(ops.drop_last()) + ", "@ + "{"@ + operand_text(ops.last()) + "}"@
    }
}

/// A lowercase hexadecimal literal, `0x`-prefixed.
pub fn hex_literal(v: u64) -> (r: String)
    ensures
        r@ == ascii_view(seq![0x30u8, 0x78u8] + hex_bytes(v as nat)),
{
    let mut out: Vec<u8> = Vec::new();
    out.push(0x30);
    out.push(0x78);
    push_hex(&mut out, v);
    proof {
        lemma_hex_bytes_ascii(v as nat);
    }
    let num = into_string(out);
    let mut s = String::new();
    s.append(num.as_str());
    proof {
        assert(s@ =~= ascii_view(seq![0x30u8, 0x78u8] + hex_bytes(v as nat)));
    }
    s
}

impl Format {
    /// Emit the whole REX-format encoding body: legacy prefixes, the REX
    /// prefix, the opcode, the ModR/M byte, and immediates, in that order.
    #[verifier::rlimit(80)]
    pub fn generate_rex_encoding(&self, f: &mut Formatter, rex: &Rex)
        requires
            old(f).indent < 900,
            spec_shape(self.operands@) != RexShape::Other,
            spec_shape(self.operands@) == RexShape::RegMemImm ==> rex.digit is Some,
        ensures
            final(f).spec_indent() == old(f).spec_indent(),
            final(f).lines_view() == old(f).lines_view() + rex_encoding_lines(
                self.operands@,
                *rex,
                old(f).spec_indent(),
            ),
    {
        if !matches!(rex.prefixes, LegacyPrefixes::NoPrefix) {
            f.comment("Emit legacy prefixes.");
            match rex.prefixes {
                LegacyPrefixes::NoPrefix => {
                    proof {
                        assert(false);
                    }
                },
                LegacyPrefixes::_66 => f.line("buf.put1(0x66);", None),
                LegacyPrefixes::_F0 => f.line("buf.put1(0xf0);", None),
                LegacyPrefixes::_66F0 => {
                    f.line("buf.put1(0x66);", None);
                    f.line("buf.put1(0xf0);", None);
                },
                LegacyPrefixes::_F2 => f.line("buf.put1(0xf2);", None),
                LegacyPrefixes::_F3 => f.line("buf.put1(0xf3);", None),
                LegacyPrefixes::_66F3 => {
                    f.line("buf.put1(0x66);", None);
                    f.line("buf.put1(0xf3);", None);
                },
            }
        }
        // Emit REX prefix.
        f.comment("Emit REX prefix.");
        self.generate_rex_prefix(f, rex);

        // Emit opcode.
        f.comment("Emit opcode.");
        let mut op = String::new();
        op.append("buf.put1(");
        let lit = hex_literal(rex.opcode as u64);
        op.append(lit.as_str());
        op.append(");");
        f.line(op.as_str(), None);

        // Emit ModR/M byte.
        f.comment("Emit ModR/M byte.");
        self.generate_modrm_byte(f, rex);

        // Emit immediates.
        f.comment("Emit immediates.");
        self.generate_immediates(f);
        proof {
            assert(final(f).lines_view() =~~= old(f).lines_view() + rex_encoding_lines(
                self.operands@,
                *rex,
                old(f).spec_indent(),
            ));
        }
    }

    /// Emit the code computing the REX flags and writing the REX prefix for
    /// this format.
    #[verifier::rlimit(80)]
    pub fn generate_rex_prefix(&self, f: &mut Formatter, rex: &Rex)
        requires
            old(f).indent < 900,
            spec_shape(self.operands@) != RexShape::Other,
            spec_shape(self.operands@) == RexShape::RegMemImm ==> rex.digit is Some,
        ensures
            final(f).spec_indent() == old(f).spec_indent(),
            final(f).lines_view() == old(f).lines_view() + rex_prefix_lines(
                self.operands@,
                *rex,
                old(f).spec_indent(),
            ),
    {
        let rex_flags: &'static str = if rex.w {
            "RexFlags::set_w()"
        } else {
            "RexFlags::clear_w()"
        };

        // 8-bit register and register-or-memory operands may demand an
        // explicit REX prefix; give those formats a mutable flag set and one
        // call per such operand.
        let mut any8: bool = false;
        let mut i: usize = 0;
        while i < self.operands.len()
            invariant
                i <= self.operands@.len(),
                any8 == exists|k: int| 0 <= k < i && is_reg8(#[trigger] self.operands@[k]),
            decreases self.operands@.len() - i,
        {
            let o = self.operands[i];
            if o.location.bits() == 8 && matches!(
                o.location.kind(),
                OperandKind::Reg(_) | OperandKind::RegMem(_),
            ) {
                any8 = true;
            }
            i = i + 1;
        }
        let mut s = String::new();
        if any8 {
            s.append("let mut rex = ");
        } else {
            s.append("let rex = ");
        }
        s.append(rex_flags);
        s.append(";");
        f.line(s.as_str(), None);
        proof {
            assert(f.lines_view() =~~= old(f).lines_view() + seq![
                rex_intro_line(self.operands@, rex.w, old(f).spec_indent()),
            ]);
            assert(rex8_lines(self.operands@.take(0), old(f).spec_indent())
                =~~= Seq::<Seq<char>>::empty());
        }
        if any8 {
            let mut j: usize = 0;
            while j < self.operands.len()
                invariant
                    j <= self.operands@.len(),
                    f.spec_indent() == old(f).spec_indent(),
                    f.indent == old(f).indent,
                    f.indent < 900,
                    f.lines_view() =~~= old(f).lines_view() + seq![
                        rex_intro_line(self.operands@, rex.w, old(f).spec_indent()),
                    ] + rex8_lines(self.operands@.take(j as int), old(f).spec_indent()),
                decreases self.operands@.len() - j,
            {
                let o = self.operands[j];
                proof {
                    assert(self.operands@.take(j + 1).drop_last() =~= self.operands@.take(
                        j as int,
                    ));
                    assert(self.operands@.take(j + 1).last() == self.operands@[j as int]);
                }
                if o.location.bits() == 8 && matches!(
                    o.location.kind(),
                    OperandKind::Reg(_) | OperandKind::RegMem(_),
                ) {
                    let mut s = String::new();
                    s.append("self.");
                    s.append(o.location.to_string());
                    s.append(".always_emit_if_8bit_needed(&mut rex);");
                    f.line(s.as_str(), None);
                }
                proof {
                    assert(f.lines_view() =~~= old(f).lines_view() + seq![
                        rex_intro_line(self.operands@, rex.w, old(f).spec_indent()),
                    ] + rex8_lines(self.operands@.take(j + 1), old(f).spec_indent()));
                }
                j = j + 1;
            }
            proof {
                assert(self.operands@.take(self.operands@.len() as int) =~= self.operands@);
            }
        } else {
            proof {
                lemma_rex8_lines_empty(self.operands@, old(f).spec_indent());
            }
        }

        let ghost mid = f.lines_view();
        let dst = self.operands[0].location;
        let src = self.operands[1].location;
        proof {
            assert(mid =~~= old(f).lines_view() + seq![
                rex_intro_line(self.operands@, rex.w, old(f).spec_indent()),
            ] + rex8_lines(self.operands@, old(f).spec_indent()));
        }
        match self.shape() {
            RexShape::FixedRegImm => {
                let mut s = String::new();
                s.append("let ");
                s.append(dst.to_string());
                s.append(" = ");
                match dst.generate_fixed_reg() {
                    Some(fixed) => s.append(fixed),
                    None => {
                        proof {
                            assert(false);
                        }
                    },
                }
                s.append(";");
                f.line(s.as_str(), None);
                let digit: u8 = match rex.digit {
                    Some(d) => d,
                    None => 0,
                };
                let mut s = String::new();
                s.append("let digit = ");
                let lit = hex_literal(digit as u64);
                s.append(lit.as_str());
                s.append(";");
                f.line(s.as_str(), None);
                let mut s = String::new();
                s.append("rex.emit_two_op(buf, digit, ");
                s.append(dst.to_string());
                s.append(");");
                f.line(s.as_str(), None);
                proof {
                    assert(f.lines_view() =~~= mid + rex_shape_lines(
                        self.operands@,
                        *rex,
                        old(f).spec_indent(),
                    ));
                }
            },
            RexShape::RegMemImm => {
                let digit: u8 = match rex.digit {
                    Some(d) => d,
                    None => 0,
                };
                let mut s = String::new();
                s.append("let digit = ");
                let lit = hex_literal(digit as u64);
                s.append(lit.as_str());
                s.append(";");
                f.line(s.as_str(), None);
                self.match_gprmem(
                    f,
                    dst,
                    "rex.emit_two_op(buf, digit, ",
                    ".enc()),",
                    ".emit_rex_prefix(rex, digit, buf),",
                );
                proof {
                    assert(f.lines_view() =~~= mid + rex_shape_lines(
                        self.operands@,
                        *rex,
                        old(f).spec_indent(),
                    ));
                }
            },
            RexShape::RegRegMem => {
                let mut s = String::new();
                s.append("let ");
                s.append(dst.to_string());
                s.append(" = self.");
                s.append(dst.to_string());
                s.append(".enc();");
                f.line(s.as_str(), None);
                let mut open_gpr = String::new();
                open_gpr.append("rex.emit_two_op(buf, ");
                open_gpr.append(dst.to_string());
                open_gpr.append(", ");
                let mut mem_tail = String::new();
                mem_tail.append(".emit_rex_prefix(rex, ");
                mem_tail.append(dst.to_string());
                mem_tail.append(", buf),");
                self.match_gprmem(f, src, open_gpr.as_str(), ".enc()),", mem_tail.as_str());
                proof {
                    assert(f.lines_view() =~~= mid + rex_shape_lines(
                        self.operands@,
                        *rex,
                        old(f).spec_indent(),
                    ));
                }
            },
            RexShape::RegMemReg => {
                let mut s = String::new();
                s.append("let ");
                s.append(src.to_string());
                s.append(" = self.");
                s.append(src.to_string());
                s.append(".enc();");
                f.line(s.as_str(), None);
                let mut open_gpr = String::new();
                open_gpr.append("rex.emit_two_op(buf, ");
                open_gpr.append(src.to_string());
                open_gpr.append(", ");
                let mut mem_tail = String::new();
                mem_tail.append(".emit_rex_prefix(rex, ");
                mem_tail.append(src.to_string());
                mem_tail.append(", buf),");
                self.match_gprmem(f, dst, open_gpr.as_str(), ".enc()),", mem_tail.as_str());
                proof {
                    assert(f.lines_view() =~~= mid + rex_shape_lines(
                        self.operands@,
                        *rex,
                        old(f).spec_indent(),
                    ));
                }
            },
            RexShape::Other => {
                proof {
                    assert(false);
                }
            },
        }
        proof {
            assert(final(f).lines_view() =~~= old(f).lines_view() + rex_prefix_lines(
                self.operands@,
                *rex,
                old(f).spec_indent(),
            ));
        }
    }

    /// Emit a two-arm match over a register-or-memory operand: `gpr_open`
    /// and `gpr_close` frame the register arm around the register binding,
    /// and `mem_tail` follows the binding in the memory arm.
    fn match_gprmem(
        &self,
        f: &mut Formatter,
        loc: Location,
        gpr_open: &str,
        gpr_close: &str,
        mem_tail: &str,
    )
        requires
            old(f).indent < 900,
        ensures
            final(f).spec_indent() == old(f).spec_indent(),
            final(f).lines_view() == old(f).lines_view() + match_gprmem_lines(
                loc,
                gpr_open@,
                gpr_close@,
                mem_tail@,
                old(f).spec_indent(),
            ),
    {
        let mut s = String::new();
        s.append("match &self.");
        s.append(loc.to_string());
        s.append(" {");
        f.line(s.as_str(), None);
        f.indent_push();
        let mut s = String::new();
        s.append("GprMem::Gpr(");
        s.append(loc.to_string());
        s.append(") => ");
        s.append(gpr_open);
        s.append(loc.to_string());
        s.append(gpr_close);
        f.line(s.as_str(), None);
        let mut s = String::new();
        s.append("GprMem::Mem(");
        s.append(loc.to_string());
        s.append(") => ");
        s.append(loc.to_string());
        s.append(mem_tail);
        f.line(s.as_str(), None);
        f.indent_pop();
        f.line("}", None);
        proof {
            assert(final(f).lines_view() =~~= old(f).lines_view() + match_gprmem_lines(
                loc,
                gpr_open@,
                gpr_close@,
                mem_tail@,
                old(f).spec_indent(),
            ));
        }
    }

    /// Emit the code writing the ModR/M byte (and, for memory operands, the
    /// SIB byte and displacement) for this format.
    #[verifier::rlimit(80)]
    pub fn generate_modrm_byte(&self, f: &mut Formatter, rex: &Rex)
        requires
            old(f).indent < 900,
            spec_shape(self.operands@) != RexShape::Other,
            spec_shape(self.operands@) == RexShape::RegMemImm ==> rex.digit is Some,
        ensures
            final(f).spec_indent() == old(f).spec_indent(),
            final(f).lines_view() == old(f).lines_view() + modrm_byte_lines(
                self.operands@,
                *rex,
                old(f).spec_indent(),
            ),
    {
        let dst = self.operands[0].location;
        let src = self.operands[1].location;
        match self.shape() {
            RexShape::FixedRegImm => {
                // No ModR/M byte: the register is implied by the opcode.
            },
            RexShape::RegMemImm => {
                let digit: u8 = match rex.digit {
                    Some(d) => d,
                    None => 0,
                };
                let mut s = String::new();
                s.append("let digit = ");
                let lit = hex_literal(digit as u64);
                s.append(lit.as_str());
                s.append(";");
                f.line(s.as_str(), None);
                let mut width: Vec<u8> = Vec::new();
                crate::text::push_dec(&mut width, (src.bytes()) as u64);
                proof {
                    crate::text::lemma_dec_bytes_ascii((spec_loc_bits(src) / 8) as nat);
                }
                let width = crate::text::into_string(width);
                self.emit_modrm_match(
                    f,
                    dst,
                    "emit_modrm(buf, digit, ",
                    "digit",
                    width.as_str(),
                );
            },
            RexShape::RegRegMem => {
                let mut s = String::new();
                s.append("let ");
                s.append(dst.to_string());
                s.append(" = self.");
                s.append(dst.to_string());
                s.append(".enc();");
                f.line(s.as_str(), None);
                let mut open_gpr = String::new();
                open_gpr.append("emit_modrm(buf, ");
                open_gpr.append(dst.to_string());
                open_gpr.append(", ");
                self.emit_modrm_match(f, src, open_gpr.as_str(), dst.to_string(), "0");
            },
            RexShape::RegMemReg => {
                let mut s = String::new();
                s.append("let ");
                s.append(src.to_string());
                s.append(" = self.");
                s.append(src.to_string());
                s.append(".enc();");
                f.line(s.as_str(), None);
                let mut open_gpr = String::new();
                open_gpr.append("emit_modrm(buf, ");
                open_gpr.append(src.to_string());
                open_gpr.append(", ");
                self.emit_modrm_match(f, dst, open_gpr.as_str(), src.to_string(), "0");
            },
            RexShape::Other => {
                proof {
                    assert(false);
                }
            },
        }
        proof {
            assert(final(f).lines_view() =~~= old(f).lines_view() + modrm_byte_lines(
                self.operands@,
                *rex,
                old(f).spec_indent(),
            ));
        }
    }

    /// Emit the two-arm ModR/M match for a register-or-memory operand with a
    /// register in ModR/M `reg`; `bytes_at_end` is spliced into the memory
    /// arm's call.
    fn emit_modrm_match(
        &self,
        f: &mut Formatter,
        loc: Location,
        gpr_open: &str,
        g: &'static str,
        bytes_at_end: &str,
    )
        requires
            old(f).indent < 900,
        ensures
            final(f).spec_indent() == old(f).spec_indent(),
            final(f).lines_view() == old(f).lines_view() + emit_modrm_match_lines(
                loc,
                gpr_open@,
                g@,
                bytes_at_end@,
                old(f).spec_indent(),
            ),
    {
        let mut s = String::new();
        s.append("match &self.");
        s.append(loc.to_string());
        s.append(" {");
        f.line(s.as_str(), None);
        f.indent_push();
        let mut s = String::new();
        s.append("GprMem::Gpr(");
        s.append(loc.to_string());
        s.append(") => ");
        s.append(gpr_open);
        s.append(loc.to_string());
        s.append(".enc()),");
        f.line(s.as_str(), None);
        let mut s = String::new();
        s.append("GprMem::Mem(");
        s.append(loc.to_string());
        s.append(") => emit_modrm_sib_disp(buf, off, ");
        s.append(g);
        s.append(", ");
        s.append(loc.to_string());
        s.append(", ");
        s.append(bytes_at_end);
        s.append("),");
        f.line(s.as_str(), None);
        f.indent_pop();
        f.line("}", None);
        proof {
            assert(final(f).lines_view() =~~= old(f).lines_view() + emit_modrm_match_lines(
                loc,
                gpr_open@,
                g@,
                bytes_at_end@,
                old(f).spec_indent(),
            ));
        }
    }

    /// Emit the code writing this format's immediate, if it has one.
    pub fn generate_immediates(&self, f: &mut Formatter)
        requires
            old(f).indent < 900,
        ensures
            final(f).spec_indent() == old(f).spec_indent(),
            final(f).lines_view() == old(f).lines_view() + immediates_lines(
                self.operands@,
                old(f).spec_indent(),
            ),
    {
        if self.operands.len() == 2 {
            let imm = self.operands[1].location;
            if matches!(imm.kind(), OperandKind::Imm(_)) {
                let mut s = String::new();
                s.append("let bytes = ");
                let lit = hex_literal((imm.bytes()) as u64);
                s.append(lit.as_str());
                s.append(";");
                f.line(s.as_str(), None);
                let mut s = String::new();
                s.append("let value = self.");
                s.append(imm.to_string());
                s.append(".value() as u32;");
                f.line(s.as_str(), None);
                f.line("emit_simm(buf, bytes, value);", None);
            }
        }
        proof {
            assert(final(f).lines_view() =~~= old(f).lines_view() + immediates_lines(
                self.operands@,
                old(f).spec_indent(),
            ));
        }
    }
}

} // verus!

verus! {

/// The `0x`-prefixed lowercase hexadecimal spelling of `v`.
pub open spec fn hex_lit(v: nat) -> Seq<char> {
    ascii_view(seq![0x30u8, 0x78u8] + hex_bytes(v))
}

/// The lines of a two-arm match over a register-or-memory operand:
/// `gpr_open` and `gpr_close` frame the register arm around the binding,
/// `mem_tail` follows the binding in the memory arm.
pub open spec fn match_gprmem_lines(
    loc: Location,
    gpr_open: Seq<char>,
    gpr_close: Seq<char>,
    mem_tail: Seq<char>,
    ind: nat,
) -> Seq<Seq<char>> {
    seq![
        line_text(ind, "match &self."@ + location_text(loc) + " {"@, None),
        line_text(
            ind + 1,
            "GprMem::Gpr("@ + location_text(loc) + ") => "@ + gpr_open + location_text(loc)
                + gpr_close,
            None,
        ),
        line_text(
            ind + 1,
            "GprMem::Mem("@ + location_text(loc) + ") => "@ + location_text(loc) + mem_tail,
            None,
        ),
        line_text(ind, "}"@, None),
    ]
}

/// The lines of the two-arm ModR/M match: a direct `emit_modrm` for a
/// register, `emit_modrm_sib_disp` with `g` in the `reg` field for memory;
/// `tail_num` is the number of instruction bytes that follow a RIP-relative
/// displacement field, spliced into the call.
pub open spec fn emit_modrm_match_lines(
    loc: Location,
    gpr_open: Seq<char>,
    g: Seq<char>,
    tail_num: Seq<char>,
    ind: nat,
) -> Seq<Seq<char>> {
    seq![
        line_text(ind, "match &self."@ + location_text(loc) + " {"@, None),
        line_text(
            ind + 1,
            "GprMem::Gpr("@ + location_text(loc) + ") => "@ + gpr_open + location_text(loc)
                + ".enc()),"@,
            None,
        ),
        line_text(
            ind + 1,
            "GprMem::Mem("@ + location_text(loc) + ") => emit_modrm_sib_disp(buf, off, "@ + g
                + ", "@ + location_text(loc) + ", "@ + tail_num + "),"@,
            None,
        ),
        line_text(ind, "}"@, None),
    ]
}

/// Whether an operand is an 8-bit register or register-or-memory slot,
/// which may demand an explicit REX prefix.
pub open spec fn is_reg8(o: Operand) -> bool {
    spec_loc_bits(o.location) == 8 && (spec_loc_kind(o.location) is Reg || spec_loc_kind(
        o.location,
    ) is RegMem)
}

/// One `always_emit_if_8bit_needed` call per 8-bit register operand, in
/// operand order.
pub open spec fn rex8_lines(ops: Seq<Operand>, ind: nat) -> Seq<Seq<char>>
    decreases ops.len(),
{
    if ops.len() == 0 {
        Seq::<Seq<char>>::empty()
    } else {
        rex8_lines(ops.drop_last(), ind) + (if is_reg8(ops.last()) {
            seq![
                line_text(
                    ind,
                    "self."@ + location_text(ops.last().location)
                        + ".always_emit_if_8bit_needed(&mut rex);"@,
                    None,
                ),
            ]
        } else {
            Seq::<Seq<char>>::empty()
        })
    }
}

/// The generated initial REX flags.
pub open spec fn rex_flag_text(w: bool) -> Seq<char> {
    if w {
        "RexFlags::set_w()"@
    } else {
        "RexFlags::clear_w()"@
    }
}

/// The binding that introduces the REX flags: mutable exactly when an
/// 8-bit register operand may still demand the prefix.
pub open spec fn rex_intro_line(ops: Seq<Operand>, w: bool, ind: nat) -> Seq<char> {
    line_text(
        ind,
        (if exists|j: int| 0 <= j < ops.len() && is_reg8(#[trigger] ops[j]) {
            "let mut rex = "@
        } else {
            "let rex = "@
        }) + rex_flag_text(w) + ";"@,
        None,
    )
}

/// The opcode-extension digit of a recipe, zero when absent.
pub open spec fn spec_digit(rex: Rex) -> u8 {
    match rex.digit {
        Some(d) => d,
        None => 0,
    }
}

/// The shape-specific tail of the REX-prefix computation.
pub open spec fn rex_shape_lines(ops: Seq<Operand>, rex: Rex, ind: nat) -> Seq<Seq<char>> {
    let dst = ops[0].location;
    let src = ops[1].location;
    match spec_shape(ops) {
        RexShape::FixedRegImm => seq![
            line_text(
                ind,
                "let "@ + location_text(dst) + " = "@ + "reg::ENC_RAX"@ + ";"@,
                None,
            ),
            line_text(ind, "let digit = "@ + hex_lit(spec_digit(rex) as nat) + ";"@, None),
            line_text(
                ind,
                "rex.emit_two_op(buf, digit, "@ + location_text(dst) + ");"@,
                None,
            ),
        ],
        RexShape::RegMemImm => seq![
            line_text(ind, "let digit = "@ + hex_lit(spec_digit(rex) as nat) + ";"@, None),
        ] + match_gprmem_lines(
            dst,
            "rex.emit_two_op(buf, digit, "@,
            ".enc()),"@,
            ".emit_rex_prefix(rex, digit, buf),"@,
            ind,
        ),
        RexShape::RegRegMem => seq![
            line_text(
                ind,
                "let "@ + location_text(dst) + " = self."@ + location_text(dst) + ".enc();"@,
                None,
            ),
        ] + match_gprmem_lines(
            src,
            "rex.emit_two_op(buf, "@ + location_text(dst) + ", "@,
            ".enc()),"@,
            ".emit_rex_prefix(rex, "@ + location_text(dst) + ", buf),"@,
            ind,
        ),
        RexShape::RegMemReg => seq![
            line_text(
                ind,
                "let "@ + location_text(src) + " = self."@ + location_text(src) + ".enc();"@,
                None,
            ),
        ] + match_gprmem_lines(
            dst,
            "rex.emit_two_op(buf, "@ + location_text(src) + ", "@,
            ".enc()),"@,
            ".emit_rex_prefix(rex, "@ + location_text(src) + ", buf),"@,
            ind,
        ),
        RexShape::Other => Seq::<Seq<char>>::empty(),
    }
}

/// Every line of the REX-prefix computation: the flag binding, the 8-bit
/// demands, then the shape-specific emission.
pub open spec fn rex_prefix_lines(ops: Seq<Operand>, rex: Rex, ind: nat) -> Seq<Seq<char>> {
    seq![rex_intro_line(ops, rex.w, ind)] + rex8_lines(ops, ind) + rex_shape_lines(ops, rex, ind)
}

/// The shape-specific ModR/M emission lines; a fixed-register form needs no
/// ModR/M byte.
pub open spec fn modrm_byte_lines(ops: Seq<Operand>, rex: Rex, ind: nat) -> Seq<Seq<char>> {
    let dst = ops[0].location;
    let src = ops[1].location;
    match spec_shape(ops) {
        RexShape::FixedRegImm => Seq::<Seq<char>>::empty(),
        RexShape::RegMemImm => seq![
            line_text(ind, "let digit = "@ + hex_lit(spec_digit(rex) as nat) + ";"@, None),
        ] + emit_modrm_match_lines(
            dst,
            "emit_modrm(buf, digit, "@,
            "digit"@,
            ascii_view(dec_bytes((spec_loc_bits(src) / 8) as nat)),
            ind,
        ),
        RexShape::RegRegMem => seq![
            line_text(
                ind,
                "let "@ + location_text(dst) + " = self."@ + location_text(dst) + ".enc();"@,
                None,
            ),
        ] + emit_modrm_match_lines(
            src,
            "emit_modrm(buf, "@ + location_text(dst) + ", "@,
            location_text(dst),
            "0"@,
            ind,
        ),
        RexShape::RegMemReg => seq![
            line_text(
                ind,
                "let "@ + location_text(src) + " = self."@ + location_text(src) + ".enc();"@,
                None,
            ),
        ] + emit_modrm_match_lines(
            dst,
            "emit_modrm(buf, "@ + location_text(src) + ", "@,
            location_text(src),
            "0"@,
            ind,
        ),
        RexShape::Other => Seq::<Seq<char>>::empty(),
    }
}

/// The immediate-emission lines: width, value, and the `emit_simm` call,
/// when the format carries an immediate, and nothing otherwise.
pub open spec fn immediates_lines(ops: Seq<Operand>, ind: nat) -> Seq<Seq<char>> {
    if ops.len() == 2 && spec_loc_kind(ops[1].location) is Imm {
        seq![
            line_text(
                ind,
                "let bytes = "@ + hex_lit((spec_loc_bits(ops[1].location) / 8) as nat) + ";"@,
                None,
            ),
            line_text(
                ind,
                "let value = self."@ + location_text(ops[1].location) + ".value() as u32;"@,
                None,
            ),
            line_text(ind, "emit_simm(buf, bytes, value);"@, None),
        ]
    } else {
        Seq::<Seq<char>>::empty()
    }
}

/// The legacy-prefix lines: a comment and the `put1` calls, or nothing
/// when the recipe has no prefix.
pub open spec fn legacy_prefix_lines(p: LegacyPrefixes, ind: nat) -> Seq<Seq<char>> {
    match p {
        LegacyPrefixes::NoPrefix => Seq::<Seq<char>>::empty(),
        LegacyPrefixes::_66 => seq![
            line_text(ind, "// "@ + "Emit legacy prefixes."@, None),
            line_text(ind, "buf.put1(0x66);"@, None),
        ],
        LegacyPrefixes::_F0 => seq![
            line_text(ind, "// "@ + "Emit legacy prefixes."@, None),
            line_text(ind, "buf.put1(0xf0);"@, None),
        ],
        LegacyPrefixes::_66F0 => seq![
            line_text(ind, "// "@ + "Emit legacy prefixes."@, None),
            line_text(ind, "buf.put1(0x66);"@, None),
            line_text(ind, "buf.put1(0xf0);"@, None),
        ],
        LegacyPrefixes::_F2 => seq![
            line_text(ind, "// "@ + "Emit legacy prefixes."@, None),
            line_text(ind, "buf.put1(0xf2);"@, None),
        ],
        LegacyPrefixes::_F3 => seq![
            line_text(ind, "// "@ + "Emit legacy prefixes."@, None),
            line_text(ind, "buf.put1(0xf3);"@, None),
        ],
        LegacyPrefixes::_66F3 => seq![
            line_text(ind, "// "@ + "Emit legacy prefixes."@, None),
            line_text(ind, "buf.put1(0x66);"@, None),
            line_text(ind, "buf.put1(0xf3);"@, None),
        ],
    }
}

/// Every line of the encoding body, strictly in emission order: legacy
/// prefixes, the REX prefix, the opcode, the ModR/M byte, then the
/// immediate last.
pub open spec fn rex_encoding_lines(ops: Seq<Operand>, rex: Rex, ind: nat) -> Seq<Seq<char>> {
    legacy_prefix_lines(rex.prefixes, ind) + seq![
        line_text(ind, "// "@ + "Emit REX prefix."@, None),
    ] + rex_prefix_lines(ops, rex, ind) + seq![
        line_text(ind, "// "@ + "Emit opcode."@, None),
        line_text(ind, "buf.put1("@ + hex_lit(rex.opcode as nat) + ");"@, None),
        line_text(ind, "// "@ + "Emit ModR/M byte."@, None),
    ] + modrm_byte_lines(ops, rex, ind) + seq![
        line_text(ind, "// "@ + "Emit immediates."@, None),
    ] + immediates_lines(ops, ind)
}

} // verus!

verus! {

/// A format with no 8-bit register operand contributes no REX-demand lines.
proof fn lemma_rex8_lines_empty(ops: Seq<Operand>, ind: nat)
    requires
        forall|k: int| 0 <= k < ops.len() ==> !is_reg8(#[trigger] ops[k]),
    ensures
        rex8_lines(ops, ind) == Seq::<Seq<char>>::empty(),
    decreases ops.len(),
{
    if ops.len() > 0 {
        lemma_rex8_lines_empty(ops.drop_last(), ind);
        assert(rex8_lines(ops, ind) =~~= Seq::<Seq<char>>::empty());
    }
}

} // verus!
