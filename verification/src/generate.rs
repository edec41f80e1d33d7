//! The code generator: turns the instruction table into the source of the
//! runtime instruction library, a bridging macro for an external instruction
//! selector, and the matching external-constructor declarations.

pub mod features;
pub mod format;
pub mod formatter;
pub mod inst;
pub mod operand;

pub use formatter::Formatter;

use vstd::prelude::*;
use vstd::string::StringSliceAdditionalSpecFns;

verus! {

/// Where a line of generated code came from.
#[derive(Clone, Copy, Debug)]
pub struct FileLocation {
    pub file: &'static str,
    pub line: u32,
}

impl FileLocation {
    /// Record a source position.
    pub fn new(file: &'static str, line: u32) -> (r: Self)
        ensures
            r.file@ == file@,
            r.line == line,
    {
        FileLocation { file, line }
    }
}

/// A location is attached only to lines whose text does not end in a brace:
/// brace lines are structural and their origin is noise.
pub fn maybe_file_loc(fmtstr: &str, file: &'static str, line: u32) -> (r: Option<FileLocation>)
    ensures
        r is Some <==> !(fmtstr.spec_bytes().len() > 0 && (fmtstr.spec_bytes().last() == 0x7b
            || fmtstr.spec_bytes().last() == 0x7d)),
        r matches Some(loc) ==> loc.file@ == file@ && loc.line == line,
{
    let bytes = fmtstr.as_bytes();
    if bytes.len() > 0 {
        let last = bytes[bytes.len() - 1];
        if last == 0x7b || last == 0x7d {
            return None;
        }
    }
    Some(FileLocation { file, line })
}

} // verus!

use vstd::string::StringExecFns;
use crate::dsl::{Encoding, Inst};
use crate::generate::format::{spec_shape, RexShape};
use crate::generate::features::{feat_count, feat_expr, feat_terms, spec_flag_name, terms_view};
use crate::generate::formatter::line_text;
use crate::generate::inst::{
    ctor_lines, derive_line, display_arm_line, display_impl_lines, encode_arm_line,
    enum_variant_line, isle_def_lines, isle_macro_lines, regalloc_arm_line, struct_impl_lines,
    struct_lines,
};
use crate::dsl::features::Flag;

verus! {

/// Whether the generator can emit every instruction in the table: each
/// format has one of the four supported operand shapes, a
/// register-or-memory destination paired with an immediate carries an
/// opcode-extension digit, and the feature tree is of reasonable size.
pub open spec fn table_emittable(insts: Seq<Inst>) -> bool {
    forall|j: int| 0 <= j < insts.len() ==> {
        &&& spec_shape(#[trigger] insts[j].format.operands@) != RexShape::Other
        &&& (spec_shape(insts[j].format.operands@) == RexShape::RegMemImm ==> (
        insts[j].encoding matches Encoding::Rex(rex) && rex.digit is Some))
        &&& feat_count(insts[j].features) < 0x1000
    }
}

/// One `Inst` enumeration variant line per instruction, in table order.
pub open spec fn enum_variant_lines(insts: Seq<Inst>, ind: nat) -> Seq<Seq<char>>
    decreases insts.len(),
{
    if insts.len() == 0 {
        Seq::<Seq<char>>::empty()
    } else {
        enum_variant_lines(insts.drop_last(), ind) + seq![enum_variant_line(insts.last(), ind)]
    }
}

/// The term bindings of one feature-matching arm, in leaf order.
pub open spec fn bindings_text(ts: Seq<(Seq<char>, Flag)>) -> Seq<char>
    decreases ts.len(),
{
    if ts.len() == 0 {
        Seq::<char>::empty()
    } else {
        bindings_text(ts.drop_last()) + "let "@ + ts.last().0 + " = f.index(Flag::"@
            + spec_flag_name(ts.last().1) + "); "@
    }
}

/// One feature-matching arm: the term bindings, then the boolean
/// expression of the instruction's feature tree.
pub open spec fn match_arm_line(i: Inst, ind: nat) -> Seq<char> {
    line_text(
        ind,
        "Self::"@ + crate::generate::inst::spec_struct_name(i) + "(i) => { "@ + bindings_text(
            feat_terms(i.features, 0),
        ) + feat_expr(i.features, 0, false) + " },"@,
        None,
    )
}

/// One dispatch arm per instruction: display, encode, operand-visiting or
/// feature-matching, by `which`.
pub open spec fn arm_lines(insts: Seq<Inst>, which: u8, ind: nat) -> Seq<Seq<char>>
    decreases insts.len(),
{
    if insts.len() == 0 {
        Seq::<Seq<char>>::empty()
    } else {
        arm_lines(insts.drop_last(), which, ind) + seq![
            if which == 0 {
                display_arm_line(insts.last(), ind)
            } else if which == 1 {
                encode_arm_line(insts.last(), ind)
            } else if which == 2 {
                regalloc_arm_line(insts.last(), ind)
            } else {
                match_arm_line(insts.last(), ind)
            },
        ]
    }
}

/// Every line of the generated `Inst` enumeration.
pub open spec fn inst_enum_lines(insts: Seq<Inst>, ind: nat) -> Seq<Seq<char>> {
    seq![
        derive_line(ind),
        line_text(ind, "pub enum Inst<R: Registers> {"@, None),
    ] + enum_variant_lines(insts, ind + 1) + seq![line_text(ind, "}"@, None)]
}

/// Every line of one dispatching impl of `Inst`: its signature, one arm
/// per instruction in table order, and the closing braces.
pub open spec fn dispatch_lines(
    insts: Seq<Inst>,
    sig: Seq<char>,
    which: u8,
    ind: nat,
) -> Seq<Seq<char>> {
    seq![
        line_text(ind, "impl<R: Registers> Inst<R> {"@, None),
        line_text(ind + 1, sig, None),
        line_text(ind + 2, "match self {"@, None),
    ] + arm_lines(insts, which, ind + 3) + seq![
        line_text(ind + 2, "}"@, None),
        line_text(ind + 1, "}"@, None),
        line_text(ind, "}"@, None),
    ]
}

/// Every line of the generated display impl of `Inst`.
pub open spec fn display_dispatch_lines(insts: Seq<Inst>, ind: nat) -> Seq<Seq<char>> {
    seq![
        line_text(ind, "impl<R: Registers> std::fmt::Display for Inst<R> {"@, None),
        line_text(
            ind + 1,
            "fn fmt(&self, f: &mut std::fmt::Formatter<'_>) -> std::fmt::Result {"@,
            None,
        ),
        line_text(ind + 2, "match self {"@, None),
    ] + arm_lines(insts, 0, ind + 3) + seq![
        line_text(ind + 2, "}"@, None),
        line_text(ind + 1, "}"@, None),
        line_text(ind, "}"@, None),
    ]
}

/// One constructor per instruction, in table order.
pub open spec fn ctor_blocks(insts: Seq<Inst>, ind: nat) -> Seq<Seq<char>>
    decreases insts.len(),
{
    if insts.len() == 0 {
        Seq::<Seq<char>>::empty()
    } else {
        ctor_blocks(insts.drop_last(), ind) + ctor_lines(insts.last(), ind)
    }
}

/// Every line of the generated constructor module.
pub open spec fn ctor_impl_lines(insts: Seq<Inst>, ind: nat) -> Seq<Seq<char>> {
    seq![
        line_text(ind, "pub mod build {"@, None),
        line_text(ind + 1, "use super::*;"@, None),
    ] + ctor_blocks(insts, ind + 1) + seq![line_text(ind, "}"@, None)]
}

/// The per-instruction blocks of the generated assembler: each struct with
/// its impl and display, separated by blank lines.
pub open spec fn asm_blocks(insts: Seq<Inst>, ind: nat) -> Seq<Seq<char>>
    decreases insts.len(),
{
    if insts.len() == 0 {
        Seq::<Seq<char>>::empty()
    } else {
        asm_blocks(insts.drop_last(), ind) + struct_lines(insts.last(), ind) + struct_impl_lines(
            insts.last(),
            ind,
        ) + display_impl_lines(insts.last(), ind) + seq!["\n"@]
    }
}

/// The five lines of the generated runtime `Flag` enumeration.
pub open spec fn flag_enum_lines(ind: nat) -> Seq<Seq<char>> {
    seq![
        derive_line(ind),
        line_text(ind, "pub enum Flag {"@, None),
        line_text(ind + 1, "_64b = 0,"@, None),
        line_text(ind + 1, "compat = 1,"@, None),
        line_text(ind, "}"@, None),
    ]
}

/// Every line of the generated Rust assembler: the `Inst` enumeration, its
/// dispatching impls, the constructor module, the per-instruction blocks,
/// and the feature enumeration — a pure function of the table.
pub open spec fn asm_lines(insts: Seq<Inst>, ind: nat) -> Seq<Seq<char>> {
    inst_enum_lines(insts, ind) + display_dispatch_lines(insts, ind) + dispatch_lines(
        insts,
        "pub fn encode(&self, b: &mut impl CodeSink, o: &impl KnownOffsetTable) {"@,
        1,
        ind,
    ) + dispatch_lines(
        insts,
        "pub fn visit_operands(&mut self, v: &mut impl OperandVisitor<R>) {"@,
        2,
        ind,
    ) + dispatch_lines(
        insts,
        "pub fn match_features(&self, f: AvailableFeatures) -> bool {"@,
        3,
        ind,
    ) + ctor_impl_lines(insts, ind) + seq!["\n"@] + asm_blocks(insts, ind) + flag_enum_lines(ind)
}

/// Emit the Rust assembler source; the appended text is exactly
/// `asm_lines` of the table.
pub fn rust_assembler(f: &mut Formatter, insts: &Vec<Inst>)
    requires
        old(f).indent < 700,
        table_emittable(insts@),
    ensures
        final(f).spec_indent() == old(f).spec_indent(),
        final(f).lines_view() == old(f).lines_view() + asm_lines(insts@, old(f).spec_indent()),
{
    generate_inst_enum(f, insts);
    generate_inst_display_impl(f, insts);
    generate_inst_encode_impl(f, insts);
    generate_inst_visit_impl(f, insts);
    generate_inst_match_impl(f, insts);
    generate_inst_constructor_impl(f, insts);

    f.empty_line();
    let ghost mid = f.lines_view();
    let mut i: usize = 0;
    while i < insts.len()
        invariant
            i <= insts@.len(),
            table_emittable(insts@),
            f.spec_indent() == old(f).spec_indent(),
            f.indent == old(f).indent,
            f.indent < 700,
            f.lines_view() =~~= mid + asm_blocks(insts@.take(i as int), old(f).spec_indent()),
        decreases insts@.len() - i,
    {
        proof {
            assert(insts@.take(i + 1).drop_last() =~= insts@.take(i as int));
            assert(insts@.take(i + 1).last() == insts@[i as int]);
            assert(spec_shape(insts@[i as int].format.operands@) != RexShape::Other);
        }
        insts[i].generate_struct(f);
        insts[i].generate_struct_impl(f);
        insts[i].generate_display_impl(f);
        f.empty_line();
        proof {
            assert(f.lines_view() =~~= mid + asm_blocks(
                insts@.take(i + 1),
                old(f).spec_indent(),
            ));
        }
        i = i + 1;
    }
    crate::dsl::Flag::generate_enum(f);
    proof {
        assert(insts@.take(insts@.len() as int) =~= insts@);
        assert(final(f).lines_view() =~~= old(f).lines_view() + asm_lines(
            insts@,
            old(f).spec_indent(),
        ));
    }
}

/// Emit the `Inst` enumeration.
fn generate_inst_enum(f: &mut Formatter, insts: &Vec<Inst>)
    requires
        old(f).indent < 700,
    ensures
        final(f).spec_indent() == old(f).spec_indent(),
        final(f).lines_view() == old(f).lines_view() + inst_enum_lines(
            insts@,
            old(f).spec_indent(),
        ),
{
    crate::generate::inst::generate_derive(f);
    f.line("pub enum Inst<R: Registers> {", None);
    f.indent_push();
    let ghost mid = f.lines_view();
    let mut i: usize = 0;
    while i < insts.len()
        invariant
            i <= insts@.len(),
            f.spec_indent() == old(f).spec_indent() + 1,
            f.indent == old(f).indent + 1,
            f.indent < 701,
            f.lines_view() =~~= mid + enum_variant_lines(
                insts@.take(i as int),
                old(f).spec_indent() + 1,
            ),
        decreases insts@.len() - i,
    {
        proof {
            assert(insts@.take(i + 1).drop_last() =~= insts@.take(i as int));
            assert(insts@.take(i + 1).last() == insts@[i as int]);
        }
        insts[i].generate_enum_variant(f);
        proof {
            assert(f.lines_view() =~~= mid + enum_variant_lines(
                insts@.take(i + 1),
                old(f).spec_indent() + 1,
            ));
        }
        i = i + 1;
    }
    f.indent_pop();
    f.line("}", None);
    proof {
        assert(insts@.take(insts@.len() as int) =~= insts@);
        assert(final(f).lines_view() =~~= old(f).lines_view() + inst_enum_lines(
            insts@,
            old(f).spec_indent(),
        ));
    }
}

/// Emit one dispatching impl of `Inst`, with the given signature and one
/// arm per instruction.
fn generate_inst_dispatch(f: &mut Formatter, insts: &Vec<Inst>, signature: &str, which: u8)
    requires
        old(f).indent < 700,
        which < 4,
        which == 3 ==> table_emittable(insts@),
    ensures
        final(f).spec_indent() == old(f).spec_indent(),
        final(f).lines_view() == old(f).lines_view() + dispatch_lines(
            insts@,
            signature@,
            which,
            old(f).spec_indent(),
        ),
{
    f.line("impl<R: Registers> Inst<R> {", None);
    f.indent_push();
    f.line(signature, None);
    f.indent_push();
    f.line("match self {", None);
    f.indent_push();
    let ghost mid = f.lines_view();
    let mut i: usize = 0;
    while i < insts.len()
        invariant
            i <= insts@.len(),
            which < 4,
            which == 3 ==> table_emittable(insts@),
            f.spec_indent() == old(f).spec_indent() + 3,
            f.indent == old(f).indent + 3,
            f.indent < 703,
            f.lines_view() =~~= mid + arm_lines(
                insts@.take(i as int),
                which,
                old(f).spec_indent() + 3,
            ),
        decreases insts@.len() - i,
    {
        proof {
            assert(insts@.take(i + 1).drop_last() =~= insts@.take(i as int));
            assert(insts@.take(i + 1).last() == insts@[i as int]);
        }
        if which == 0 {
            insts[i].generate_variant_display(f);
        } else if which == 1 {
            insts[i].generate_variant_encode(f);
        } else if which == 2 {
            insts[i].generate_variant_regalloc(f);
        } else {
            proof {
                assert(spec_shape(insts@[i as int].format.operands@) != RexShape::Other);
            }
            generate_variant_match(f, &insts[i]);
        }
        proof {
            assert(f.lines_view() =~~= mid + arm_lines(
                insts@.take(i + 1),
                which,
                old(f).spec_indent() + 3,
            ));
        }
        i = i + 1;
    }
    f.indent_pop();
    f.line("}", None);
    f.indent_pop();
    f.line("}", None);
    f.indent_pop();
    f.line("}", None);
    proof {
        assert(insts@.take(insts@.len() as int) =~= insts@);
        assert(final(f).lines_view() =~~= old(f).lines_view() + dispatch_lines(
            insts@,
            signature@,
            which,
            old(f).spec_indent(),
        ));
    }
}

/// Emit one feature-matching arm: the instruction's feature tree as a
/// boolean expression over the available-feature set.
fn generate_variant_match(f: &mut Formatter, inst: &Inst)
    requires
        old(f).indent < 900,
        feat_count(inst.features) < 0x1000,
    ensures
        final(f).spec_indent() == old(f).spec_indent(),
        final(f).lines_view() == old(f).lines_view().push(
            match_arm_line(*inst, old(f).spec_indent()),
        ),
{
    let mut s = String::new();
    s.append("Self::");
    let sn = inst.struct_name();
    s.append(sn.as_str());
    s.append("(i) => { ");
    let mut terms: Vec<(String, Flag)> = Vec::new();
    let expr = inst.features.generate(&mut terms, false);
    let mut j: usize = 0;
    while j < terms.len()
        invariant
            j <= terms@.len(),
            terms_view(terms@) == feat_terms(inst.features, 0),
            s@ == "Self::"@ + crate::generate::inst::spec_struct_name(*inst) + "(i) => { "@
                + bindings_text(feat_terms(inst.features, 0).take(j as int)),
        decreases terms@.len() - j,
    {
        s.append("let ");
        s.append(terms[j].0.as_str());
        s.append(" = f.index(Flag::");
        let flag = match terms[j].1 {
            Flag::_64b => "_64b",
            Flag::compat => "compat",
        };
        s.append(flag);
        s.append("); ");
        proof {
            let ts = feat_terms(inst.features, 0);
            assert(ts.take(j + 1).drop_last() =~= ts.take(j as int));
            assert(ts.take(j + 1).last() == ts[j as int]);
            assert(ts[j as int] == terms_view(terms@)[j as int]);
            assert(s@ =~= "Self::"@ + crate::generate::inst::spec_struct_name(*inst)
                + "(i) => { "@ + bindings_text(ts.take(j + 1)));
        }
        j = j + 1;
    }
    s.append(expr.as_str());
    s.append(" },");
    proof {
        let ts = feat_terms(inst.features, 0);
        assert(ts.take(ts.len() as int) =~= ts);
        assert(terms@.len() == ts.len());
    }
    f.line(s.as_str(), None);
    proof {
        assert(final(f).lines_view() =~~= old(f).lines_view().push(
            match_arm_line(*inst, old(f).spec_indent()),
        ));
    }
}

/// Emit the display dispatch impl of `Inst`.
fn generate_inst_display_impl(f: &mut Formatter, insts: &Vec<Inst>)
    requires
        old(f).indent < 700,
    ensures
        final(f).spec_indent() == old(f).spec_indent(),
        final(f).lines_view() == old(f).lines_view() + display_dispatch_lines(
            insts@,
            old(f).spec_indent(),
        ),
{
    f.line("impl<R: Registers> std::fmt::Display for Inst<R> {", None);
    f.indent_push();
    f.line("fn fmt(&self, f: &mut std::fmt::Formatter<'_>) -> std::fmt::Result {", None);
    f.indent_push();
    f.line("match self {", None);
    f.indent_push();
    let ghost mid = f.lines_view();
    let mut i: usize = 0;
    while i < insts.len()
        invariant
            i <= insts@.len(),
            f.spec_indent() == old(f).spec_indent() + 3,
            f.indent == old(f).indent + 3,
            f.indent < 703,
            f.lines_view() =~~= mid + arm_lines(
                insts@.take(i as int),
                0,
                old(f).spec_indent() + 3,
            ),
        decreases insts@.len() - i,
    {
        proof {
            assert(insts@.take(i + 1).drop_last() =~= insts@.take(i as int));
            assert(insts@.take(i + 1).last() == insts@[i as int]);
        }
        insts[i].generate_variant_display(f);
        proof {
            assert(f.lines_view() =~~= mid + arm_lines(
                insts@.take(i + 1),
                0,
                old(f).spec_indent() + 3,
            ));
        }
        i = i + 1;
    }
    f.indent_pop();
    f.line("}", None);
    f.indent_pop();
    f.line("}", None);
    f.indent_pop();
    f.line("}", None);
    proof {
        assert(insts@.take(insts@.len() as int) =~= insts@);
        assert(final(f).lines_view() =~~= old(f).lines_view() + display_dispatch_lines(
            insts@,
            old(f).spec_indent(),
        ));
    }
}

/// Emit the encode dispatch impl of `Inst`.
fn generate_inst_encode_impl(f: &mut Formatter, insts: &Vec<Inst>)
    requires
        old(f).indent < 700,
    ensures
        final(f).spec_indent() == old(f).spec_indent(),
        final(f).lines_view() == old(f).lines_view() + dispatch_lines(
            insts@,
            "pub fn encode(&self, b: &mut impl CodeSink, o: &impl KnownOffsetTable) {"@,
            1,
            old(f).spec_indent(),
        ),
{
    generate_inst_dispatch(
        f,
        insts,
        "pub fn encode(&self, b: &mut impl CodeSink, o: &impl KnownOffsetTable) {",
        1,
    );
}

/// Emit the operand-visiting dispatch impl of `Inst`.
fn generate_inst_visit_impl(f: &mut Formatter, insts: &Vec<Inst>)
    requires
        old(f).indent < 700,
    ensures
        final(f).spec_indent() == old(f).spec_indent(),
        final(f).lines_view() == old(f).lines_view() + dispatch_lines(
            insts@,
            "pub fn visit_operands(&mut self, v: &mut impl OperandVisitor<R>) {"@,
            2,
            old(f).spec_indent(),
        ),
{
    generate_inst_dispatch(
        f,
        insts,
        "pub fn visit_operands(&mut self, v: &mut impl OperandVisitor<R>) {",
        2,
    );
}

/// Emit the feature-matching dispatch impl of `Inst`.
fn generate_inst_match_impl(f: &mut Formatter, insts: &Vec<Inst>)
    requires
        old(f).indent < 700,
        table_emittable(insts@),
    ensures
        final(f).spec_indent() == old(f).spec_indent(),
        final(f).lines_view() == old(f).lines_view() + dispatch_lines(
            insts@,
            "pub fn match_features(&self, f: AvailableFeatures) -> bool {"@,
            3,
            old(f).spec_indent(),
        ),
{
    generate_inst_dispatch(
        f,
        insts,
        "pub fn match_features(&self, f: AvailableFeatures) -> bool {",
        3,
    );
}

/// Emit the constructor module, one free constructor per instruction.
fn generate_inst_constructor_impl(f: &mut Formatter, insts: &Vec<Inst>)
    requires
        old(f).indent < 700,
    ensures
        final(f).spec_indent() == old(f).spec_indent(),
        final(f).lines_view() == old(f).lines_view() + ctor_impl_lines(
            insts@,
            old(f).spec_indent(),
        ),
{
    f.line("pub mod build {", None);
    f.indent_push();
    f.line("use super::*;", None);
    let ghost mid = f.lines_view();
    let mut i: usize = 0;
    while i < insts.len()
        invariant
            i <= insts@.len(),
            f.spec_indent() == old(f).spec_indent() + 1,
            f.indent == old(f).indent + 1,
            f.indent < 701,
            f.lines_view() =~~= mid + ctor_blocks(
                insts@.take(i as int),
                old(f).spec_indent() + 1,
            ),
        decreases insts@.len() - i,
    {
        proof {
            assert(insts@.take(i + 1).drop_last() =~= insts@.take(i as int));
            assert(insts@.take(i + 1).last() == insts@[i as int]);
        }
        insts[i].generate_variant_constructor(f);
        proof {
            assert(f.lines_view() =~~= mid + ctor_blocks(
                insts@.take(i + 1),
                old(f).spec_indent() + 1,
            ));
        }
        i = i + 1;
    }
    f.indent_pop();
    f.line("}", None);
    proof {
        assert(insts@.take(insts@.len() as int) =~= insts@);
        assert(final(f).lines_view() =~~= old(f).lines_view() + ctor_impl_lines(
            insts@,
            old(f).spec_indent(),
        ));
    }
}

/// One bridging method per instruction, in table order.
pub open spec fn macro_blocks(insts: Seq<Inst>, ind: nat) -> Seq<Seq<char>>
    decreases insts.len(),
{
    if insts.len() == 0 {
        Seq::<Seq<char>>::empty()
    } else {
        macro_blocks(insts.drop_last(), ind) + isle_macro_lines(
            insts.last(),
            "PairedGpr"@,
            ind,
        )
    }
}

/// Every line of the generated bridging macro.
pub open spec fn isle_macro_all_lines(insts: Seq<Inst>, ind: nat) -> Seq<Seq<char>> {
    seq![
        line_text(ind, "#[macro_export]"@, None),
        line_text(ind, "macro_"@ + "rules! isle_assembler_methods {"@, None),
        line_text(ind + 1, "() => {"@, None),
    ] + macro_blocks(insts, ind + 2) + seq![
        line_text(ind + 1, "};"@, None),
        line_text(ind, "}"@, None),
    ]
}

/// Emit the bridging macro for the external instruction selector: one
/// forwarding method per instruction.
pub fn isle_macro(f: &mut Formatter, insts: &Vec<Inst>)
    requires
        old(f).indent < 700,
    ensures
        final(f).spec_indent() == old(f).spec_indent(),
        final(f).lines_view() == old(f).lines_view() + isle_macro_all_lines(
            insts@,
            old(f).spec_indent(),
        ),
{
    f.line("#[macro_export]", None);
    let mut s = String::new();
    s.append("macro_");
    s.append("rules! isle_assembler_methods {");
    f.line(s.as_str(), None);
    f.indent_push();
    f.line("() => {", None);
    f.indent_push();
    let ghost mid = f.lines_view();
    let mut i: usize = 0;
    while i < insts.len()
        invariant
            i <= insts@.len(),
            f.spec_indent() == old(f).spec_indent() + 2,
            f.indent == old(f).indent + 2,
            f.indent < 702,
            f.lines_view() =~~= mid + macro_blocks(
                insts@.take(i as int),
                old(f).spec_indent() + 2,
            ),
        decreases insts@.len() - i,
    {
        proof {
            assert(insts@.take(i + 1).drop_last() =~= insts@.take(i as int));
            assert(insts@.take(i + 1).last() == insts@[i as int]);
        }
        insts[i].generate_isle_macro(f, "PairedGpr");
        proof {
            assert(f.lines_view() =~~= mid + macro_blocks(
                insts@.take(i + 1),
                old(f).spec_indent() + 2,
            ));
        }
        i = i + 1;
    }
    f.indent_pop();
    f.line("};", None);
    f.indent_pop();
    f.line("}", None);
    proof {
        assert(insts@.take(insts@.len() as int) =~= insts@);
        assert(final(f).lines_view() =~~= old(f).lines_view() + isle_macro_all_lines(
            insts@,
            old(f).spec_indent(),
        ));
    }
}

/// The eight operand-type declarations of the rule table.
pub open spec fn isle_type_lines(ind: nat) -> Seq<Seq<char>> {
    seq![
        line_text(ind, "(type "@ + "AssemblerImm8"@ + " ext"@ + "ern (enum))"@, None),
        line_text(ind, "(type "@ + "AssemblerImm16"@ + " ext"@ + "ern (enum))"@, None),
        line_text(ind, "(type "@ + "AssemblerImm32"@ + " ext"@ + "ern (enum))"@, None),
        line_text(ind, "(type "@ + "AssemblerReadGpr"@ + " ext"@ + "ern (enum))"@, None),
        line_text(ind, "(type "@ + "AssemblerReadWriteGpr"@ + " ext"@ + "ern (enum))"@, None),
        line_text(ind, "(type "@ + "AssemblerReadGprMem"@ + " ext"@ + "ern (enum))"@, None),
        line_text(
            ind,
            "(type "@ + "AssemblerReadWriteGprMem"@ + " ext"@ + "ern (enum))"@,
            None,
        ),
        line_text(ind, "(type "@ + "AssemblerInst"@ + " ext"@ + "ern (enum))"@, None),
    ]
}

/// One rule-table declaration per instruction, each followed by a blank
/// line.
pub open spec fn def_blocks(insts: Seq<Inst>, ind: nat) -> Seq<Seq<char>>
    decreases insts.len(),
{
    if insts.len() == 0 {
        Seq::<Seq<char>>::empty()
    } else {
        def_blocks(insts.drop_last(), ind) + isle_def_lines(insts.last(), ind) + seq!["\n"@]
    }
}

/// Every line of the generated rule table.
pub open spec fn isle_defs_all_lines(insts: Seq<Inst>, ind: nat) -> Seq<Seq<char>> {
    isle_type_lines(ind) + seq!["\n"@] + def_blocks(insts, ind)
}

/// Emit the rule-table declarations matching the bridging macro: the
/// operand types, then one constructor declaration per instruction.
pub fn isle_definitions(f: &mut Formatter, insts: &Vec<Inst>)
    requires
        old(f).indent < 700,
    ensures
        final(f).spec_indent() == old(f).spec_indent(),
        final(f).lines_view() == old(f).lines_view() + isle_defs_all_lines(
            insts@,
            old(f).spec_indent(),
        ),
{
    let names = [
        "AssemblerImm8",
        "AssemblerImm16",
        "AssemblerImm32",
        "AssemblerReadGpr",
        "AssemblerReadWriteGpr",
        "AssemblerReadGprMem",
        "AssemblerReadWriteGprMem",
        "AssemblerInst",
    ];
    let mut k: usize = 0;
    while k < 8
        invariant
            k <= 8,
            names@[0]@ == "AssemblerImm8"@,
            names@[1]@ == "AssemblerImm16"@,
            names@[2]@ == "AssemblerImm32"@,
            names@[3]@ == "AssemblerReadGpr"@,
            names@[4]@ == "AssemblerReadWriteGpr"@,
            names@[5]@ == "AssemblerReadGprMem"@,
            names@[6]@ == "AssemblerReadWriteGprMem"@,
            names@[7]@ == "AssemblerInst"@,
            f.spec_indent() == old(f).spec_indent(),
            f.indent == old(f).indent,
            f.indent < 700,
            f.lines_view() =~~= old(f).lines_view() + isle_type_lines(
                old(f).spec_indent(),
            ).take(k as int),
        decreases 8 - k,
    {
        let mut s = String::new();
        s.append("(type ");
        s.append(names[k]);
        s.append(" ext");
        s.append("ern (enum))");
        f.line(s.as_str(), None);
        proof {
            assert(f.lines_view() =~~= old(f).lines_view() + isle_type_lines(
                old(f).spec_indent(),
            ).take(k + 1));
        }
        k = k + 1;
    }
    f.empty_line();
    let ghost mid = f.lines_view();
    proof {
        assert(isle_type_lines(old(f).spec_indent()).take(8) =~= isle_type_lines(
            old(f).spec_indent(),
        ));
    }
    let mut i: usize = 0;
    while i < insts.len()
        invariant
            i <= insts@.len(),
            f.spec_indent() == old(f).spec_indent(),
            f.indent == old(f).indent,
            f.indent < 700,
            f.lines_view() =~~= mid + def_blocks(insts@.take(i as int), old(f).spec_indent()),
        decreases insts@.len() - i,
    {
        proof {
            assert(insts@.take(i + 1).drop_last() =~= insts@.take(i as int));
            assert(insts@.take(i + 1).last() == insts@[i as int]);
        }
        insts[i].generate_isle_definition(f);
        f.empty_line();
        proof {
            assert(f.lines_view() =~~= mid + def_blocks(
                insts@.take(i + 1),
                old(f).spec_indent(),
            ));
        }
        i = i + 1;
    }
    proof {
        assert(insts@.take(insts@.len() as int) =~= insts@);
        assert(final(f).lines_view() =~~= old(f).lines_view() + isle_defs_all_lines(
            insts@,
            old(f).spec_indent(),
        ));
    }
}

} // verus!
