//! Generated code for each instruction definition: its operand struct, its
//! encode and visit methods, its display, and the bridging artefacts for an
//! external instruction selector.

use vstd::prelude::*;
use vstd::string::StringExecFns;
use crate::dsl::encoding::{dsl_inst_text, Encoding, Inst};
use crate::dsl::format::{
    location_text, spec_first_memory, spec_loc_kind, Format, Location, Operand, OperandKind,
};
use crate::generate::format::RexShape;
use crate::generate::formatter::{line_text, Formatter};
use crate::generate::operand::{spec_generate_regalloc_call, spec_generate_type};
use crate::text::spec_lower_ascii;

verus! {

/// Emit the derive attribute shared by all generated types.
pub fn generate_derive(f: &mut Formatter)
    requires
        old(f).indent < 1000,
    ensures
        final(f).spec_indent() == old(f).spec_indent(),
        final(f).lines_view() == old(f).lines_view().push(
            line_text(
                old(f).spec_indent(),
                "#[derive(arbitrary::Arbitrary, Clone, Debug)]"@,
                None,
            ),
        ),
{
    f.line("#[derive(arbitrary::Arbitrary, Clone, Debug)]", None);
}

/// The generated struct name of an instruction: its lowercased mnemonic and
/// format name, joined with an underscore.
pub open spec fn spec_struct_name(i: Inst) -> Seq<char> {
    spec_lower_ascii(i.name@) + "_"@ + spec_lower_ascii(i.format.name@)
}

/// Whether an operand is an arbitrary (allocatable) register slot.
pub open spec fn spec_is_reg_operand(o: Operand) -> bool {
    spec_loc_kind(o.location) is Reg || spec_loc_kind(o.location) is RegMem
}

/// Whether a format mentions any arbitrary register, making its generated
/// struct generic over the register scheme.
pub open spec fn spec_requires_generic(i: Inst) -> bool {
    exists|j: int|
        0 <= j < i.format.operands@.len() && spec_is_reg_operand(#[trigger] i.format.operands@[j])
}

/// The generated struct name, with its generic parameter when one is
/// needed.
pub open spec fn spec_struct_name_with_generic(i: Inst) -> Seq<char> {
    if spec_requires_generic(i) {
        spec_struct_name(i) + "<R>"@
    } else {
        spec_struct_name(i)
    }
}

/// The operand locations that carry a field, in order: fixed registers
/// carry none.
pub open spec fn spec_typed_locs(ops: Seq<Operand>) -> Seq<Location>
    decreases ops.len(),
{
    if ops.len() == 0 {
        Seq::<Location>::empty()
    } else {
        spec_typed_locs(ops.drop_last()) + (match spec_generate_type(ops.last().location, None) {
            Some(_) => seq![ops.last().location],
            None => Seq::<Location>::empty(),
        })
    }
}

/// The type of a typed location, as spliced into generated code.
pub open spec fn spec_type_text(l: Location, gen: Option<Seq<char>>) -> Seq<char> {
    match spec_generate_type(l, gen) {
        Some(t) => t,
        None => Seq::<char>::empty(),
    }
}

/// Parts joined with a comma and a space.
pub open spec fn comma_joined(parts: Seq<Seq<char>>) -> Seq<char>
    decreases parts.len(),
{
    if parts.len() == 0 {
        Seq::<char>::empty()
    } else if parts.len() == 1 {
        parts[0]
    } else {
        comma_joined(parts.drop_last()) + ", "@ + parts.last()
    }
}

/// Parts joined with a space.
pub open spec fn space_joined(parts: Seq<Seq<char>>) -> Seq<char>
    decreases parts.len(),
{
    if parts.len() == 0 {
        Seq::<char>::empty()
    } else if parts.len() == 1 {
        parts[0]
    } else {
        space_joined(parts.drop_last()) + " "@ + parts.last()
    }
}

/// The text of each rendered part.
pub open spec fn strings_view(v: Seq<String>) -> Seq<Seq<char>> {
    Seq::new(v.len(), |i: int| v[i]@)
}

/// The field declaration of each typed operand: `pub <location>: <type>`,
/// with the generic parameter `gen` spliced into the type.
pub open spec fn field_parts(ops: Seq<Operand>, gen: Option<Seq<char>>) -> Seq<Seq<char>>
    decreases ops.len(),
{
    if ops.len() == 0 {
        Seq::<Seq<char>>::empty()
    } else {
        field_parts(ops.drop_last(), gen) + (match spec_generate_type(ops.last().location, gen) {
            Some(t) => seq!["pub "@ + location_text(ops.last().location) + ": "@ + t],
            None => Seq::<Seq<char>>::empty(),
        })
    }
}

/// Join rendered parts with a comma and a space.
pub fn comma_join(items: &Vec<String>) -> (r: String)
    ensures
        r@ == comma_joined(strings_view(items@)),
{
    let mut s = String::new();
    let mut i: usize = 0;
    while i < items.len()
        invariant
            i <= items@.len(),
            s@ == comma_joined(strings_view(items@).take(i as int)),
        decreases items@.len() - i,
    {
        if i > 0 {
            s.append(", ");
        }
        s.append(items[i].as_str());
        proof {
            let view = strings_view(items@);
            assert(view.take(i + 1).drop_last() =~= view.take(i as int));
            assert(view.take(i + 1).last() == view[i as int]);
            assert(s@ =~= comma_joined(view.take(i + 1)));
        }
        i = i + 1;
    }
    proof {
        let view = strings_view(items@);
        assert(view.take(view.len() as int) =~= view);
    }
    s
}

impl Inst {
    /// The generated struct name of this instruction.
    pub fn struct_name(&self) -> (r: String)
        ensures
            r@ == spec_struct_name(*self),
    {
        let mut s = crate::text::lower_ascii(self.name.as_str());
        s.append("_");
        let f = crate::text::lower_ascii(self.format.name.as_str());
        s.append(f.as_str());
        s
    }

    /// Whether the generated struct is generic over the register scheme.
    pub fn requires_generic(&self) -> (r: bool)
        ensures
            r == spec_requires_generic(*self),
    {
        let mut i: usize = 0;
        while i < self.format.operands.len()
            invariant
                i <= self.format.operands@.len(),
                forall|j: int| 0 <= j < i ==> !spec_is_reg_operand(
                    #[trigger] self.format.operands@[j],
                ),
            decreases self.format.operands@.len() - i,
        {
            let o = self.format.operands[i];
            if matches!(o.location.kind(), OperandKind::Reg(_) | OperandKind::RegMem(_)) {
                return true;
            }
            i = i + 1;
        }
        false
    }

    /// The generated struct name, with its generic parameter when needed.
    pub fn struct_name_with_generic(&self) -> (r: String)
        ensures
            r@ == spec_struct_name_with_generic(*self),
    {
        let mut s = self.struct_name();
        if self.requires_generic() {
            s.append("<R>");
        }
        s
    }

    /// The opening of the generated impl block.
    pub fn generate_impl_block_start(&self) -> (r: &'static str)
        ensures
            r@ == (if spec_requires_generic(*self) {
                "impl<R: AsReg>"@
            } else {
                "impl"@
            }),
    {
        if self.requires_generic() {
            "impl<R: AsReg>"
        } else {
            "impl"
        }
    }

    /// The generated field declarations: one `pub` field per typed operand.
    pub fn generate_struct_fields(&self) -> (r: String)
        ensures
            r@ == comma_joined(field_parts(self.format.operands@, Some("R"@))),
    {
        let mut parts: Vec<String> = Vec::new();
        let mut i: usize = 0;
        while i < self.format.operands.len()
            invariant
                i <= self.format.operands@.len(),
                strings_view(parts@) =~= field_parts(
                    self.format.operands@.take(i as int),
                    Some("R"@),
                ),
            decreases self.format.operands@.len() - i,
        {
            let loc = self.format.operands[i].location;
            match loc.generate_type(Some("R")) {
                Some(ty) => {
                    let mut s = String::new();
                    s.append("pub ");
                    s.append(loc.to_string());
                    s.append(": ");
                    s.append(ty.as_str());
                    parts.push(s);
                },
                None => {
                },
            }
            proof {
                let ops = self.format.operands@;
                assert(ops.take(i + 1).drop_last() =~= ops.take(i as int));
                assert(ops.take(i + 1).last() == ops[i as int]);
                assert(strings_view(parts@) =~~= field_parts(ops.take(i + 1), Some("R"@)));
            }
            i = i + 1;
        }
        proof {
            assert(self.format.operands@.take(self.format.operands@.len() as int)
                =~= self.format.operands@);
        }
        comma_join(&parts)
    }
}

} // verus!

verus! {

/// The constructor parameter of each typed operand: `<location>: <type>`.
pub open spec fn ctor_param_parts(ops: Seq<Operand>, gen: Option<Seq<char>>) -> Seq<Seq<char>>
    decreases ops.len(),
{
    if ops.len() == 0 {
        Seq::<Seq<char>>::empty()
    } else {
        ctor_param_parts(ops.drop_last(), gen) + (match spec_generate_type(
            ops.last().location,
            gen,
        ) {
            Some(t) => seq![location_text(ops.last().location) + ": "@ + t],
            None => Seq::<Seq<char>>::empty(),
        })
    }
}

/// The constructor argument of each typed operand: its location name.
pub open spec fn arg_parts(ops: Seq<Operand>) -> Seq<Seq<char>>
    decreases ops.len(),
{
    if ops.len() == 0 {
        Seq::<Seq<char>>::empty()
    } else {
        arg_parts(ops.drop_last()) + (match spec_generate_type(ops.last().location, None) {
            Some(_) => seq![location_text(ops.last().location)],
            None => Seq::<Seq<char>>::empty(),
        })
    }
}

/// The bridging-method parameter of each typed operand: a reference to the
/// assembler's type.
pub open spec fn isle_param_parts(ops: Seq<Operand>, gen: Seq<char>) -> Seq<Seq<char>>
    decreases ops.len(),
{
    if ops.len() == 0 {
        Seq::<Seq<char>>::empty()
    } else {
        isle_param_parts(ops.drop_last(), gen) + (match spec_generate_type(
            ops.last().location,
            Some(gen),
        ) {
            Some(t) => seq![
                location_text(ops.last().location) + ": &cranelift_assembler::"@ + t,
            ],
            None => Seq::<Seq<char>>::empty(),
        })
    }
}

/// The bridging-method argument of each typed operand: a clone of it.
pub open spec fn cloned_arg_parts(ops: Seq<Operand>) -> Seq<Seq<char>>
    decreases ops.len(),
{
    if ops.len() == 0 {
        Seq::<Seq<char>>::empty()
    } else {
        cloned_arg_parts(ops.drop_last()) + (match spec_generate_type(
            ops.last().location,
            None,
        ) {
            Some(_) => seq![location_text(ops.last().location) + ".clone()"@],
            None => Seq::<Seq<char>>::empty(),
        })
    }
}

/// The rule-table operand type of each typed operand.
pub open spec fn isle_ty_parts(ops: Seq<Operand>) -> Seq<Seq<char>>
    decreases ops.len(),
{
    if ops.len() == 0 {
        Seq::<Seq<char>>::empty()
    } else {
        isle_ty_parts(ops.drop_last()) + (match spec_generate_type(ops.last().location, None) {
            Some(t) => seq!["Assembler"@ + t],
            None => Seq::<Seq<char>>::empty(),
        })
    }
}

/// The opening of the generated impl block.
pub open spec fn impl_start_text(i: Inst) -> Seq<char> {
    if spec_requires_generic(i) {
        "impl<R: AsReg>"@
    } else {
        "impl"@
    }
}

/// The shared derive line.
pub open spec fn derive_line(ind: nat) -> Seq<char> {
    line_text(ind, "#[derive(arbitrary::Arbitrary, Clone, Debug)]"@, None)
}

/// The three lines of a generated operand struct: its doc comment, the
/// derive, and the declaration with one public field per typed operand.
pub open spec fn struct_lines(i: Inst, ind: nat) -> Seq<Seq<char>> {
    seq![
        line_text(ind, "/// `"@ + dsl_inst_text(i.name@, i) + "`"@, None),
        derive_line(ind),
        line_text(
            ind,
            "pub struct "@ + spec_struct_name_with_generic(i) + " "@ + (
            if spec_requires_generic(i) {
                "where R: AsReg"@
            } else {
                Seq::<char>::empty()
            }) + " { "@ + comma_joined(field_parts(i.format.operands@, Some("R"@))) + " }"@,
            None,
        ),
    ]
}

/// The three lines of a generated constructor: the header taking the
/// informative operands in format order, the body binding each field to
/// its parameter, and the closing brace.
pub open spec fn ctor_lines(i: Inst, ind: nat) -> Seq<Seq<char>> {
    seq![
        line_text(
            ind,
            "pub fn "@ + spec_struct_name(i) + "<R: AsReg>("@ + comma_joined(
                ctor_param_parts(i.format.operands@, Some("R"@)),
            ) + ") -> Inst<R> {"@,
            None,
        ),
        line_text(
            ind + 1,
            "Inst::"@ + spec_struct_name(i) + "("@ + spec_struct_name(i) + " { "@
                + comma_joined(arg_parts(i.format.operands@)) + " })"@,
            None,
        ),
        line_text(ind, "}"@, None),
    ]
}

/// The trap-registration block of a generated encode body: present exactly
/// when the format has a memory-capable operand, and emitted before any
/// byte of the instruction.
pub open spec fn trap_lines(ops: Seq<Operand>, ind: nat) -> Seq<Seq<char>> {
    match spec_first_memory(ops) {
        Some(op) => seq![
            "\n"@,
            line_text(ind + 1, "// "@ + "Emit trap."@, None),
            line_text(
                ind + 1,
                "if let GprMem::Mem("@ + location_text(op) + ") = &self."@ + location_text(op)
                    + " {"@,
                None,
            ),
            line_text(
                ind + 2,
                "if let Some(trap_code) = "@ + location_text(op) + ".trap_code() {"@,
                None,
            ),
            line_text(ind + 3, "buf.add_trap(trap_code);"@, None),
            line_text(ind + 2, "}"@, None),
            line_text(ind + 1, "}"@, None),
        ],
        None => Seq::<Seq<char>>::empty(),
    }
}

/// Every line of a generated encode method: the header, the trap block,
/// the encoding steps in their fixed order, and the closing brace.
pub open spec fn encode_fn_lines(i: Inst, ind: nat) -> Seq<Seq<char>> {
    let rex = match i.encoding {
        Encoding::Rex(r) => r,
    };
    seq![
        line_text(
            ind,
            "pub fn encode(&self, buf: &mut impl CodeSink, "@ + (match spec_first_memory(
                i.format.operands@,
            ) {
                Some(_) => "off"@,
                None => "_"@,
            }) + ": &impl KnownOffsetTable) {"@,
            None,
        ),
    ] + trap_lines(i.format.operands@, ind) + crate::generate::format::rex_encoding_lines(
        i.format.operands@,
        rex,
        ind + 1,
    ) + seq![line_text(ind, "}"@, None)]
}

/// One visitor call per register operand, in format order, with the
/// polarity of that operand; immediates need no call.
pub open spec fn regalloc_op_lines(ops: Seq<Operand>, ind: nat) -> Seq<Seq<char>>
    decreases ops.len(),
{
    if ops.len() == 0 {
        Seq::<Seq<char>>::empty()
    } else {
        regalloc_op_lines(ops.drop_last(), ind) + (match spec_loc_kind(ops.last().location) {
            OperandKind::Imm(_) => Seq::<Seq<char>>::empty(),
            OperandKind::FixedReg(_) => seq![
                line_text(
                    ind,
                    "visitor.fixed_"@ + spec_generate_regalloc_call(ops.last().mutability)
                        + "(&R::new("@ + "reg::ENC_RAX"@ + "));"@,
                    None,
                ),
            ],
            OperandKind::Reg(_) => seq![
                line_text(
                    ind,
                    "self."@ + location_text(ops.last().location) + "."@
                        + spec_generate_regalloc_call(ops.last().mutability) + "(visitor);"@,
                    None,
                ),
            ],
            OperandKind::RegMem(_) => seq![
                line_text(
                    ind,
                    "self."@ + location_text(ops.last().location) + "."@
                        + spec_generate_regalloc_call(ops.last().mutability) + "(visitor);"@,
                    None,
                ),
            ],
        })
    }
}

/// Every line of a generated operand-visiting method.
pub open spec fn regalloc_fn_lines(i: Inst, ind: nat) -> Seq<Seq<char>> {
    seq![
        line_text(
            ind,
            "pub fn visit_operands"@ + (if spec_requires_generic(i) {
                Seq::<char>::empty()
            } else {
                "<R: AsReg>"@
            }) + "(&mut self, visitor: &mut impl OperandVisitor<R>) {"@,
            None,
        ),
    ] + regalloc_op_lines(i.format.operands@, ind + 1) + seq![line_text(ind, "}"@, None)]
}

/// Every line of a generated impl block: the encode method, a blank line,
/// then the operand-visiting method.
pub open spec fn struct_impl_lines(i: Inst, ind: nat) -> Seq<Seq<char>> {
    seq![
        line_text(
            ind,
            impl_start_text(i) + " "@ + spec_struct_name_with_generic(i) + " {"@,
            None,
        ),
    ] + encode_fn_lines(i, ind + 1) + seq!["\n"@] + regalloc_fn_lines(i, ind + 1) + seq![
        line_text(ind, "}"@, None),
    ]
}

/// One conversion binding per operand, in format order, each widened per
/// that operand's extension policy.
pub open spec fn display_let_lines(ops: Seq<Operand>, ind: nat) -> Seq<Seq<char>>
    decreases ops.len(),
{
    if ops.len() == 0 {
        Seq::<Seq<char>>::empty()
    } else {
        display_let_lines(ops.drop_last(), ind) + seq![
            line_text(
                ind,
                "let "@ + location_text(ops.last().location) + " = "@
                    + Location::spec_generate_to_string(
                    ops.last().location,
                    ops.last().extension,
                ) + ";"@,
                None,
            ),
        ]
    }
}

/// Every line of a generated display impl: the operand conversions, then
/// the mnemonic and the AT&T-ordered operand list.
pub open spec fn display_impl_lines(i: Inst, ind: nat) -> Seq<Seq<char>> {
    seq![
        line_text(
            ind,
            impl_start_text(i) + " std::fmt::Display for "@ + spec_struct_name_with_generic(i)
                + " {"@,
            None,
        ),
        line_text(
            ind + 1,
            "fn fmt(&self, f: &mut std::fmt::Formatter) -> std::fmt::Result {"@,
            None,
        ),
    ] + display_let_lines(i.format.operands@, ind + 2) + seq![
        line_text(
            ind + 2,
            "write!(f, \""@ + i.name@ + " "@ + Format::spec_att_style_operands(
                i.format.operands@,
            ) + "\")"@,
            None,
        ),
        line_text(ind + 1, "}"@, None),
        line_text(ind, "}"@, None),
    ]
}

/// The three lines of a generated bridging method for the instruction
/// selector.
pub open spec fn isle_macro_lines(i: Inst, gen: Seq<char>, ind: nat) -> Seq<Seq<char>> {
    seq![
        line_text(
            ind,
            "fn x64_assemble_"@ + spec_struct_name(i) + "(&mut self, "@ + comma_joined(
                isle_param_parts(i.format.operands@, gen),
            ) + ") -> cranelift_assembler::Inst<"@ + gen + "> {"@,
            None,
        ),
        line_text(
            ind + 1,
            "cranelift_assembler::build::"@ + spec_struct_name(i) + "("@ + comma_joined(
                cloned_arg_parts(i.format.operands@),
            ) + ")"@,
            None,
        ),
        line_text(ind, "}"@, None),
    ]
}

/// The two lines of a generated rule-table declaration.
pub open spec fn isle_def_lines(i: Inst, ind: nat) -> Seq<Seq<char>> {
    seq![
        line_text(
            ind,
            "(decl x64_assemble_"@ + spec_struct_name(i) + " ("@ + space_joined(
                isle_ty_parts(i.format.operands@),
            ) + ") AssemblerInst)"@,
            None,
        ),
        line_text(
            ind,
            "(ext"@ + "ern constructor x64_assemble_"@ + spec_struct_name(i)
                + " x64_assemble_"@ + spec_struct_name(i) + ")"@,
            None,
        ),
    ]
}

} // verus!

verus! {

/// Join rendered parts with a space.
fn space_join(items: &Vec<String>) -> (r: String)
    ensures
        r@ == space_joined(strings_view(items@)),
{
    let mut s = String::new();
    let mut i: usize = 0;
    while i < items.len()
        invariant
            i <= items@.len(),
            s@ == space_joined(strings_view(items@).take(i as int)),
        decreases items@.len() - i,
    {
        if i > 0 {
            s.append(" ");
        }
        s.append(items[i].as_str());
        proof {
            let view = strings_view(items@);
            assert(view.take(i + 1).drop_last() =~= view.take(i as int));
            assert(view.take(i + 1).last() == view[i as int]);
            assert(s@ =~= space_joined(view.take(i + 1)));
        }
        i = i + 1;
    }
    proof {
        let view = strings_view(items@);
        assert(view.take(view.len() as int) =~= view);
    }
    s
}

impl Inst {
    /// The constructor parameters of the typed operands, in format order.
    fn collect_ctor_params(&self) -> (r: Vec<String>)
        ensures
            strings_view(r@) == ctor_param_parts(self.format.operands@, Some("R"@)),
    {
        let mut parts: Vec<String> = Vec::new();
        let mut i: usize = 0;
        while i < self.format.operands.len()
            invariant
                i <= self.format.operands@.len(),
                strings_view(parts@) =~~= ctor_param_parts(
                    self.format.operands@.take(i as int),
                    Some("R"@),
                ),
            decreases self.format.operands@.len() - i,
        {
            let loc = self.format.operands[i].location;
            match loc.generate_type(Some("R")) {
                Some(ty) => {
                    let mut s = String::new();
                    s.append(loc.to_string());
                    s.append(": ");
                    s.append(ty.as_str());
                    parts.push(s);
                },
                None => {
                },
            }
            proof {
                let ops = self.format.operands@;
                assert(ops.take(i + 1).drop_last() =~= ops.take(i as int));
                assert(ops.take(i + 1).last() == ops[i as int]);
                assert(strings_view(parts@) =~~= ctor_param_parts(
                    ops.take(i + 1),
                    Some("R"@),
                ));
            }
            i = i + 1;
        }
        proof {
            assert(self.format.operands@.take(self.format.operands@.len() as int)
                =~= self.format.operands@);
        }
        parts
    }

    /// The constructor arguments of the typed operands, in format order.
    fn collect_args(&self) -> (r: Vec<String>)
        ensures
            strings_view(r@) == arg_parts(self.format.operands@),
    {
        let mut parts: Vec<String> = Vec::new();
        let mut i: usize = 0;
        while i < self.format.operands.len()
            invariant
                i <= self.format.operands@.len(),
                strings_view(parts@) =~~= arg_parts(self.format.operands@.take(i as int)),
            decreases self.format.operands@.len() - i,
        {
            let loc = self.format.operands[i].location;
            match loc.generate_type(None) {
                Some(_) => {
                    let mut s = String::new();
                    s.append(loc.to_string());
                    parts.push(s);
                },
                None => {
                },
            }
            proof {
                let ops = self.format.operands@;
                assert(ops.take(i + 1).drop_last() =~= ops.take(i as int));
                assert(ops.take(i + 1).last() == ops[i as int]);
                assert(strings_view(parts@) =~~= arg_parts(ops.take(i + 1)));
            }
            i = i + 1;
        }
        proof {
            assert(self.format.operands@.take(self.format.operands@.len() as int)
                =~= self.format.operands@);
        }
        parts
    }

    /// The bridging-method parameters of the typed operands.
    fn collect_isle_params(&self, generic_type_name: &str) -> (r: Vec<String>)
        ensures
            strings_view(r@) == isle_param_parts(self.format.operands@, generic_type_name@),
    {
        let mut parts: Vec<String> = Vec::new();
        let mut i: usize = 0;
        while i < self.format.operands.len()
            invariant
                i <= self.format.operands@.len(),
                strings_view(parts@) =~~= isle_param_parts(
                    self.format.operands@.take(i as int),
                    generic_type_name@,
                ),
            decreases self.format.operands@.len() - i,
        {
            let loc = self.format.operands[i].location;
            match loc.generate_type(Some(generic_type_name)) {
                Some(ty) => {
                    let mut s = String::new();
                    s.append(loc.to_string());
                    s.append(": &cranelift_assembler::");
                    s.append(ty.as_str());
                    parts.push(s);
                },
                None => {
                },
            }
            proof {
                let ops = self.format.operands@;
                assert(ops.take(i + 1).drop_last() =~= ops.take(i as int));
                assert(ops.take(i + 1).last() == ops[i as int]);
                assert(strings_view(parts@) =~~= isle_param_parts(
                    ops.take(i + 1),
                    generic_type_name@,
                ));
            }
            i = i + 1;
        }
        proof {
            assert(self.format.operands@.take(self.format.operands@.len() as int)
                =~= self.format.operands@);
        }
        parts
    }

    /// The bridging-method arguments of the typed operands: clones.
    fn collect_cloned_args(&self) -> (r: Vec<String>)
        ensures
            strings_view(r@) == cloned_arg_parts(self.format.operands@),
    {
        let mut parts: Vec<String> = Vec::new();
        let mut i: usize = 0;
        while i < self.format.operands.len()
            invariant
                i <= self.format.operands@.len(),
                strings_view(parts@) =~~= cloned_arg_parts(
                    self.format.operands@.take(i as int),
                ),
            decreases self.format.operands@.len() - i,
        {
            let loc = self.format.operands[i].location;
            match loc.generate_type(None) {
                Some(_) => {
                    let mut s = String::new();
                    s.append(loc.to_string());
                    s.append(".clone()");
                    parts.push(s);
                },
                None => {
                },
            }
            proof {
                let ops = self.format.operands@;
                assert(ops.take(i + 1).drop_last() =~= ops.take(i as int));
                assert(ops.take(i + 1).last() == ops[i as int]);
                assert(strings_view(parts@) =~~= cloned_arg_parts(ops.take(i + 1)));
            }
            i = i + 1;
        }
        proof {
            assert(self.format.operands@.take(self.format.operands@.len() as int)
                =~= self.format.operands@);
        }
        parts
    }

    /// The rule-table operand types of the typed operands.
    fn collect_isle_tys(&self) -> (r: Vec<String>)
        ensures
            strings_view(r@) == isle_ty_parts(self.format.operands@),
    {
        let mut parts: Vec<String> = Vec::new();
        let mut i: usize = 0;
        while i < self.format.operands.len()
            invariant
                i <= self.format.operands@.len(),
                strings_view(parts@) =~~= isle_ty_parts(self.format.operands@.take(i as int)),
            decreases self.format.operands@.len() - i,
        {
            let loc = self.format.operands[i].location;
            match loc.generate_type(None) {
                Some(ty) => {
                    let mut s = String::new();
                    s.append("Assembler");
                    s.append(ty.as_str());
                    parts.push(s);
                },
                None => {
                },
            }
            proof {
                let ops = self.format.operands@;
                assert(ops.take(i + 1).drop_last() =~= ops.take(i as int));
                assert(ops.take(i + 1).last() == ops[i as int]);
                assert(strings_view(parts@) =~~= isle_ty_parts(ops.take(i + 1)));
            }
            i = i + 1;
        }
        proof {
            assert(self.format.operands@.take(self.format.operands@.len() as int)
                =~= self.format.operands@);
        }
        parts
    }
}

} // verus!

verus! {

impl Inst {
    /// Emit the operand-bearing struct of this instruction: a doc comment
    /// naming the definition, the shared derive, and the struct itself.
    pub fn generate_struct(&self, f: &mut Formatter)
        requires
            old(f).indent < 900,
        ensures
            final(f).spec_indent() == old(f).spec_indent(),
            final(f).lines_view() == old(f).lines_view() + struct_lines(
                *self,
                old(f).spec_indent(),
            ),
    {
        let mut doc = String::new();
        doc.append("/// `");
        let text = self.to_string();
        doc.append(text.as_str());
        doc.append("`");
        f.line(doc.as_str(), None);
        generate_derive(f);
        let mut s = String::new();
        s.append("pub struct ");
        let sn = self.struct_name_with_generic();
        s.append(sn.as_str());
        s.append(" ");
        if self.requires_generic() {
            s.append("where R: AsReg");
        }
        s.append(" { ");
        let fields = self.generate_struct_fields();
        s.append(fields.as_str());
        s.append(" }");
        f.line(s.as_str(), None);
        proof {
            assert(final(f).lines_view() =~~= old(f).lines_view() + struct_lines(
                *self,
                old(f).spec_indent(),
            ));
        }
    }

    /// Emit this instruction's free constructor: the informative operands
    /// as parameters, in format order, each field bound to its parameter.
    pub fn generate_variant_constructor(&self, f: &mut Formatter)
        requires
            old(f).indent < 900,
        ensures
            final(f).spec_indent() == old(f).spec_indent(),
            final(f).lines_view() == old(f).lines_view() + ctor_lines(
                *self,
                old(f).spec_indent(),
            ),
    {
        let params = self.collect_ctor_params();
        let args = self.collect_args();
        let sn = self.struct_name();
        let mut s = String::new();
        s.append("pub fn ");
        s.append(sn.as_str());
        s.append("<R: AsReg>(");
        let p = comma_join(&params);
        s.append(p.as_str());
        s.append(") -> Inst<R> {");
        f.line(s.as_str(), None);
        f.indent_push();
        let mut s = String::new();
        s.append("Inst::");
        s.append(sn.as_str());
        s.append("(");
        s.append(sn.as_str());
        s.append(" { ");
        let a = comma_join(&args);
        s.append(a.as_str());
        s.append(" })");
        f.line(s.as_str(), None);
        f.indent_pop();
        f.line("}", None);
        proof {
            assert(final(f).lines_view() =~~= old(f).lines_view() + ctor_lines(
                *self,
                old(f).spec_indent(),
            ));
        }
    }

    /// Emit this instruction's impl block: its encode and operand-visiting
    /// methods.
    pub fn generate_struct_impl(&self, f: &mut Formatter)
        requires
            old(f).indent < 800,
            crate::generate::format::spec_shape(self.format.operands@)
                != crate::generate::format::RexShape::Other,
            (self.encoding matches Encoding::Rex(rex) && crate::generate::format::spec_shape(
                self.format.operands@,
            ) == crate::generate::format::RexShape::RegMemImm) ==> (self.encoding matches
                Encoding::Rex(rex) && rex.digit is Some),
        ensures
            final(f).spec_indent() == old(f).spec_indent(),
            final(f).lines_view() == old(f).lines_view() + struct_impl_lines(
                *self,
                old(f).spec_indent(),
            ),
    {
        let impl_block = self.generate_impl_block_start();
        let sn = self.struct_name_with_generic();
        let mut s = String::new();
        s.append(impl_block);
        s.append(" ");
        s.append(sn.as_str());
        s.append(" {");
        f.line(s.as_str(), None);
        f.indent_push();
        self.generate_encode_function(f);
        f.empty_line();
        self.generate_regalloc_function(f);
        f.indent_pop();
        f.line("}", None);
        proof {
            assert(final(f).lines_view() =~~= old(f).lines_view() + struct_impl_lines(
                *self,
                old(f).spec_indent(),
            ));
        }
    }

    /// Emit this instruction's encode method: the trap registration, then
    /// the encoding steps in their fixed order.
    #[verifier::rlimit(80)]
    pub fn generate_encode_function(&self, f: &mut Formatter)
        requires
            old(f).indent < 850,
            crate::generate::format::spec_shape(self.format.operands@)
                != crate::generate::format::RexShape::Other,
            (self.encoding matches Encoding::Rex(rex) && crate::generate::format::spec_shape(
                self.format.operands@,
            ) == crate::generate::format::RexShape::RegMemImm) ==> (self.encoding matches
                Encoding::Rex(rex) && rex.digit is Some),
        ensures
            final(f).spec_indent() == old(f).spec_indent(),
            final(f).lines_view() == old(f).lines_view() + encode_fn_lines(
                *self,
                old(f).spec_indent(),
            ),
    {
        let uses_mem = self.format.uses_memory();
        let mut s = String::new();
        s.append("pub fn encode(&self, buf: &mut impl CodeSink, ");
        match uses_mem {
            Some(_) => s.append("off"),
            None => s.append("_"),
        }
        s.append(": &impl KnownOffsetTable) {");
        f.line(s.as_str(), None);
        f.indent_push();

        match uses_mem {
            Some(op) => {
                f.empty_line();
                f.comment("Emit trap.");
                let mut s = String::new();
                s.append("if let GprMem::Mem(");
                s.append(op.to_string());
                s.append(") = &self.");
                s.append(op.to_string());
                s.append(" {");
                f.line(s.as_str(), None);
                f.indent_push();
                let mut s = String::new();
                s.append("if let Some(trap_code) = ");
                s.append(op.to_string());
                s.append(".trap_code() {");
                f.line(s.as_str(), None);
                f.indent_push();
                f.line("buf.add_trap(trap_code);", None);
                f.indent_pop();
                f.line("}", None);
                f.indent_pop();
                f.line("}", None);
            },
            None => {
            },
        }

        match &self.encoding {
            Encoding::Rex(rex) => self.format.generate_rex_encoding(f, rex),
        }

        f.indent_pop();
        f.line("}", None);
        proof {
            assert(final(f).lines_view() =~~= old(f).lines_view() + encode_fn_lines(
                *self,
                old(f).spec_indent(),
            ));
        }
    }

    /// Emit this instruction's operand-visiting method: one visitor call
    /// per register operand, in format order.
    pub fn generate_regalloc_function(&self, f: &mut Formatter)
        requires
            old(f).indent < 900,
        ensures
            final(f).spec_indent() == old(f).spec_indent(),
            final(f).lines_view() == old(f).lines_view() + regalloc_fn_lines(
                *self,
                old(f).spec_indent(),
            ),
    {
        let mut s = String::new();
        s.append("pub fn visit_operands");
        if !self.requires_generic() {
            s.append("<R: AsReg>");
        }
        s.append("(&mut self, visitor: &mut impl OperandVisitor<R>) {");
        f.line(s.as_str(), None);
        f.indent_push();
        let mut i: usize = 0;
        while i < self.format.operands.len()
            invariant
                i <= self.format.operands@.len(),
                f.spec_indent() == old(f).spec_indent() + 1,
                f.indent == old(f).indent + 1,
                f.indent < 901,
                f.lines_view() =~~= old(f).lines_view() + seq![
                    line_text(
                        old(f).spec_indent(),
                        "pub fn visit_operands"@ + (if spec_requires_generic(*self) {
                            Seq::<char>::empty()
                        } else {
                            "<R: AsReg>"@
                        }) + "(&mut self, visitor: &mut impl OperandVisitor<R>) {"@,
                        None,
                    ),
                ] + regalloc_op_lines(
                    self.format.operands@.take(i as int),
                    old(f).spec_indent() + 1,
                ),
            decreases self.format.operands@.len() - i,
        {
            let o = self.format.operands[i];
            proof {
                let ops = self.format.operands@;
                assert(ops.take(i + 1).drop_last() =~= ops.take(i as int));
                assert(ops.take(i + 1).last() == ops[i as int]);
            }
            match o.location.kind() {
                OperandKind::Imm(_) => {
                    // Immediates do not need register allocation.
                },
                OperandKind::FixedReg(_) => {
                    let call = o.mutability.generate_regalloc_call();
                    match o.location.generate_fixed_reg() {
                        Some(fixed) => {
                            let mut s = String::new();
                            s.append("visitor.fixed_");
                            s.append(call);
                            s.append("(&R::new(");
                            s.append(fixed);
                            s.append("));");
                            f.line(s.as_str(), None);
                        },
                        None => {
                            proof {
                                assert(false);
                            }
                        },
                    }
                },
                OperandKind::Reg(_) => {
                    let call = o.mutability.generate_regalloc_call();
                    let mut s = String::new();
                    s.append("self.");
                    s.append(o.location.to_string());
                    s.append(".");
                    s.append(call);
                    s.append("(visitor);");
                    f.line(s.as_str(), None);
                },
                OperandKind::RegMem(_) => {
                    let call = o.mutability.generate_regalloc_call();
                    let mut s = String::new();
                    s.append("self.");
                    s.append(o.location.to_string());
                    s.append(".");
                    s.append(call);
                    s.append("(visitor);");
                    f.line(s.as_str(), None);
                },
            }
            proof {
                assert(f.lines_view() =~~= old(f).lines_view() + seq![
                    line_text(
                        old(f).spec_indent(),
                        "pub fn visit_operands"@ + (if spec_requires_generic(*self) {
                            Seq::<char>::empty()
                        } else {
                            "<R: AsReg>"@
                        }) + "(&mut self, visitor: &mut impl OperandVisitor<R>) {"@,
                        None,
                    ),
                ] + regalloc_op_lines(
                    self.format.operands@.take(i + 1),
                    old(f).spec_indent() + 1,
                ));
            }
            i = i + 1;
        }
        f.indent_pop();
        f.line("}", None);
        proof {
            assert(self.format.operands@.take(self.format.operands@.len() as int)
                =~= self.format.operands@);
            assert(final(f).lines_view() =~~= old(f).lines_view() + regalloc_fn_lines(
                *self,
                old(f).spec_indent(),
            ));
        }
    }

    /// Emit this instruction's display impl: one conversion binding per
    /// operand, then the AT&T-ordered format string.
    pub fn generate_display_impl(&self, f: &mut Formatter)
        requires
            old(f).indent < 900,
        ensures
            final(f).spec_indent() == old(f).spec_indent(),
            final(f).lines_view() == old(f).lines_view() + display_impl_lines(
                *self,
                old(f).spec_indent(),
            ),
    {
        let impl_block = self.generate_impl_block_start();
        let sn = self.struct_name_with_generic();
        let mut s = String::new();
        s.append(impl_block);
        s.append(" std::fmt::Display for ");
        s.append(sn.as_str());
        s.append(" {");
        f.line(s.as_str(), None);
        f.indent_push();
        f.line("fn fmt(&self, f: &mut std::fmt::Formatter) -> std::fmt::Result {", None);
        f.indent_push();
        let ghost mid = f.lines_view();
        let mut i: usize = 0;
        while i < self.format.operands.len()
            invariant
                i <= self.format.operands@.len(),
                f.spec_indent() == old(f).spec_indent() + 2,
                f.indent == old(f).indent + 2,
                f.indent < 902,
                f.lines_view() =~~= mid + display_let_lines(
                    self.format.operands@.take(i as int),
                    old(f).spec_indent() + 2,
                ),
            decreases self.format.operands@.len() - i,
        {
            let o = self.format.operands[i];
            proof {
                let ops = self.format.operands@;
                assert(ops.take(i + 1).drop_last() =~= ops.take(i as int));
                assert(ops.take(i + 1).last() == ops[i as int]);
            }
            let mut s = String::new();
            s.append("let ");
            s.append(o.location.to_string());
            s.append(" = ");
            let e = o.location.generate_to_string(o.extension);
            s.append(e.as_str());
            s.append(";");
            f.line(s.as_str(), None);
            proof {
                assert(f.lines_view() =~~= mid + display_let_lines(
                    self.format.operands@.take(i + 1),
                    old(f).spec_indent() + 2,
                ));
            }
            i = i + 1;
        }
        let mut s = String::new();
        s.append("write!(f, \"");
        s.append(self.name.as_str());
        s.append(" ");
        let ops = self.format.generate_att_style_operands();
        s.append(ops.as_str());
        s.append("\")");
        f.line(s.as_str(), None);
        f.indent_pop();
        f.line("}", None);
        f.indent_pop();
        f.line("}", None);
        proof {
            assert(self.format.operands@.take(self.format.operands@.len() as int)
                =~= self.format.operands@);
            assert(final(f).lines_view() =~~= old(f).lines_view() + display_impl_lines(
                *self,
                old(f).spec_indent(),
            ));
        }
    }

    /// Emit the bridging method that forwards from the external instruction
    /// selector to this instruction's constructor.
    pub fn generate_isle_macro(&self, f: &mut Formatter, generic_type_name: &str)
        requires
            old(f).indent < 900,
        ensures
            final(f).spec_indent() == old(f).spec_indent(),
            final(f).lines_view() == old(f).lines_view() + isle_macro_lines(
                *self,
                generic_type_name@,
                old(f).spec_indent(),
            ),
    {
        let sn = self.struct_name();
        let prefixed = self.collect_isle_params(generic_type_name);
        let cloned = self.collect_cloned_args();
        let mut s = String::new();
        s.append("fn x64_assemble_");
        s.append(sn.as_str());
        s.append("(&mut self, ");
        let p = comma_join(&prefixed);
        s.append(p.as_str());
        s.append(") -> cranelift_assembler::Inst<");
        s.append(generic_type_name);
        s.append("> {");
        f.line(s.as_str(), None);
        f.indent_push();
        let mut s = String::new();
        s.append("cranelift_assembler::build::");
        s.append(sn.as_str());
        s.append("(");
        let a = comma_join(&cloned);
        s.append(a.as_str());
        s.append(")");
        f.line(s.as_str(), None);
        f.indent_pop();
        f.line("}", None);
        proof {
            assert(final(f).lines_view() =~~= old(f).lines_view() + isle_macro_lines(
                *self,
                generic_type_name@,
                old(f).spec_indent(),
            ));
        }
    }

    /// Emit the external-constructor declaration matching the bridging
    /// method above.
    pub fn generate_isle_definition(&self, f: &mut Formatter)
        requires
            old(f).indent < 900,
        ensures
            final(f).spec_indent() == old(f).spec_indent(),
            final(f).lines_view() == old(f).lines_view() + isle_def_lines(
                *self,
                old(f).spec_indent(),
            ),
    {
        let sn = self.struct_name();
        let tys = self.collect_isle_tys();
        let joined = space_join(&tys);
        let mut decl = String::new();
        decl.append("(decl x64_assemble_");
        decl.append(sn.as_str());
        decl.append(" (");
        decl.append(joined.as_str());
        decl.append(") AssemblerInst)");
        f.line(decl.as_str(), None);
        let mut c = String::new();
        c.append("(ext");
        c.append("ern constructor x64_assemble_");
        c.append(sn.as_str());
        c.append(" x64_assemble_");
        c.append(sn.as_str());
        c.append(")");
        f.line(c.as_str(), None);
        proof {
            assert(final(f).lines_view() =~~= old(f).lines_view() + isle_def_lines(
                *self,
                old(f).spec_indent(),
            ));
        }
    }
}

} // verus!

verus! {

/// This instruction's variant of the generated `Inst` enumeration.
pub open spec fn enum_variant_line(i: Inst, ind: nat) -> Seq<char> {
    line_text(
        ind,
        spec_struct_name(i) + "("@ + spec_struct_name_with_generic(i) + "),"@,
        None,
    )
}

/// This instruction's display dispatch arm.
pub open spec fn display_arm_line(i: Inst, ind: nat) -> Seq<char> {
    line_text(ind, "Self::"@ + spec_struct_name(i) + "(i) => write!(f, \"{i}\"),"@, None)
}

/// This instruction's encode dispatch arm.
pub open spec fn encode_arm_line(i: Inst, ind: nat) -> Seq<char> {
    line_text(ind, "Self::"@ + spec_struct_name(i) + "(i) => i.encode(b, o),"@, None)
}

/// This instruction's operand-visiting dispatch arm.
pub open spec fn regalloc_arm_line(i: Inst, ind: nat) -> Seq<char> {
    line_text(ind, "Self::"@ + spec_struct_name(i) + "(i) => i.visit_operands(v),"@, None)
}

impl Inst {
    /// Emit this instruction's variant of the `Inst` enumeration.
    pub fn generate_enum_variant(&self, f: &mut Formatter)
        requires
            old(f).indent < 900,
        ensures
            final(f).spec_indent() == old(f).spec_indent(),
            final(f).lines_view() == old(f).lines_view().push(
                enum_variant_line(*self, old(f).spec_indent()),
            ),
    {
        let mut s = self.struct_name();
        s.append("(");
        let sn = self.struct_name_with_generic();
        s.append(sn.as_str());
        s.append("),");
        f.line(s.as_str(), None);
        proof {
            assert(final(f).lines_view() =~~= old(f).lines_view().push(
                enum_variant_line(*self, old(f).spec_indent()),
            ));
        }
    }

    /// Emit this instruction's display dispatch arm.
    pub fn generate_variant_display(&self, f: &mut Formatter)
        requires
            old(f).indent < 900,
        ensures
            final(f).spec_indent() == old(f).spec_indent(),
            final(f).lines_view() == old(f).lines_view().push(
                display_arm_line(*self, old(f).spec_indent()),
            ),
    {
        let mut s = String::new();
        s.append("Self::");
        let sn = self.struct_name();
        s.append(sn.as_str());
        s.append("(i) => write!(f, \"{i}\"),");
        f.line(s.as_str(), None);
        proof {
            assert(final(f).lines_view() =~~= old(f).lines_view().push(
                display_arm_line(*self, old(f).spec_indent()),
            ));
        }
    }

    /// Emit this instruction's encode dispatch arm.
    pub fn generate_variant_encode(&self, f: &mut Formatter)
        requires
            old(f).indent < 900,
        ensures
            final(f).spec_indent() == old(f).spec_indent(),
            final(f).lines_view() == old(f).lines_view().push(
                encode_arm_line(*self, old(f).spec_indent()),
            ),
    {
        let mut s = String::new();
        s.append("Self::");
        let sn = self.struct_name();
        s.append(sn.as_str());
        s.append("(i) => i.encode(b, o),");
        f.line(s.as_str(), None);
        proof {
            assert(final(f).lines_view() =~~= old(f).lines_view().push(
                encode_arm_line(*self, old(f).spec_indent()),
            ));
        }
    }

    /// Emit this instruction's operand-visiting dispatch arm.
    pub fn generate_variant_regalloc(&self, f: &mut Formatter)
        requires
            old(f).indent < 900,
        ensures
            final(f).spec_indent() == old(f).spec_indent(),
            final(f).lines_view() == old(f).lines_view().push(
                regalloc_arm_line(*self, old(f).spec_indent()),
            ),
    {
        let mut s = String::new();
        s.append("Self::");
        let sn = self.struct_name();
        s.append(sn.as_str());
        s.append("(i) => i.visit_operands(v),");
        f.line(s.as_str(), None);
        proof {
            assert(final(f).lines_view() =~~= old(f).lines_view().push(
                regalloc_arm_line(*self, old(f).spec_indent()),
            ));
        }
    }
}

} // verus!
