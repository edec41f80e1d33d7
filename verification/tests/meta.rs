//! Checks of the DSL and the code generator.

use x64_assembler::dsl::{fmt, inst, r, rex, rw, sxq, Features, Flag, LegacyPrefixes, Location};
use x64_assembler::feat::AvailableFeatures;
use x64_assembler::generate::{isle_definitions, isle_macro, maybe_file_loc, rust_assembler,
    FileLocation, Formatter};
use x64_assembler::inst::Flag as RtFlag;
use x64_assembler::instructions;

#[test]
fn locations_know_their_widths() {
    assert_eq!(Location::al.bits(), 8);
    assert_eq!(Location::imm16.bits(), 16);
    assert_eq!(Location::r32.bytes(), 4);
    assert_eq!(Location::rm64.bits(), 64);
    assert!(Location::rm8.uses_memory());
    assert!(!Location::r8.uses_memory());
}

#[test]
fn formats_find_their_memory_operand() {
    let f = fmt("MI", vec![rw(Location::rm32), r(Location::imm32)]);
    assert!(matches!(f.uses_memory(), Some(Location::rm32)));
    let g = fmt("I", vec![rw(Location::al), r(Location::imm8)]);
    assert!(g.uses_memory().is_none());
    assert_eq!(f.operands_by_bits(), vec![32, 32]);
}

#[test]
fn format_displays_operand_annotations() {
    let f = fmt("I_SX", vec![rw(Location::rax), sxq(Location::imm32)]);
    assert_eq!(f.to_string(), "I_SX(rax[rw], imm32[sxq])");
}

#[test]
fn features_display_and_contain_flags() {
    let n = Features::Always;
    assert!(!n.contains_flag());
    assert_eq!(n.to_string(), "");
    let a = Features::And(
        Box::new(Features::Flag(Flag::_64b)),
        Box::new(Features::Flag(Flag::compat)),
    );
    assert!(a.contains_flag());
    assert_eq!(a.to_string(), "64-bit & compat");
}

#[test]
fn available_features_is_a_bitset() {
    let af = AvailableFeatures::new(&[RtFlag::_64b]);
    assert!(af.index(RtFlag::_64b));
    assert!(!af.index(RtFlag::compat));
    let none = AvailableFeatures::new(&[]);
    assert!(!none.index(RtFlag::_64b));
}

#[test]
fn instruction_table_has_every_and_form() {
    let insts = instructions::list();
    assert_eq!(insts.len(), 20);
    assert_eq!(insts[0].to_string(), "andb: I(al[rw], imm8)");
    assert_eq!(insts[0].struct_name(), "andb_i");
    assert_eq!(insts[4].struct_name(), "andb_mi");
}

#[test]
fn generated_assembler_mentions_every_variant() {
    let mut f = Formatter::new();
    let insts = instructions::list();
    rust_assembler(&mut f, &insts);
    let text = f.text();
    assert!(text.contains("pub enum Inst<R: Registers> {"));
    assert!(text.contains("andb_i(andb_i),"));
    assert!(text.contains("andq_mi_sx(andq_mi_sx<R>),"));
    assert!(text.contains("pub struct andb_i  { pub imm8: Imm8 }"));
    assert!(text.contains("buf.put1(0x24);"));
    assert!(text.contains("self.rm8.always_emit_if_8bit_needed(&mut rex);"));
    assert!(text.contains("emit_simm(buf, bytes, value);"));
    assert!(text.contains("pub enum Flag {"));
}

#[test]
fn generator_is_deterministic() {
    let mut f1 = Formatter::new();
    rust_assembler(&mut f1, &instructions::list());
    let mut f2 = Formatter::new();
    rust_assembler(&mut f2, &instructions::list());
    assert_eq!(f1.text(), f2.text());
}

#[test]
fn bridging_artefacts_cover_the_table() {
    let insts = instructions::list();
    let mut f = Formatter::new();
    isle_macro(&mut f, &insts);
    let text = f.text();
    assert!(text.contains("fn x64_assemble_andb_i(&mut self, imm8: &cranelift_assembler::Imm8)"));
    let mut g = Formatter::new();
    isle_definitions(&mut g, &insts);
    let gtext = g.text();
    let tykw = format!("(type AssemblerInst {}{} (enum))", "ext", "ern");
    assert!(gtext.contains(&tykw));
    assert!(gtext.contains("(decl x64_assemble_andb_i (AssemblerImm8) AssemblerInst)"));
    let kw = format!("{}{}", "(ext", "ern constructor x64_assemble_andq_rm");
    assert!(gtext.contains(&kw));
}

#[test]
fn formatter_indents_by_four() {
    let mut f = Formatter::new();
    f.line("a {", None);
    f.indent_push();
    f.line("b", None);
    f.indent_pop();
    f.line("}", None);
    assert_eq!(f.text(), "a {\n    b\n}\n");
}

#[test]
fn recipes_build_by_chaining() {
    let x = rex(0x81).prefix(LegacyPrefixes::_66).w().digit(4).id();
    assert_eq!(x.opcode, 0x81);
    assert!(x.w);
    assert_eq!(x.digit, Some(4));
    assert_eq!(x.imm, Some(4));
    let i = inst("andw", fmt("MI", vec![rw(Location::rm16), r(Location::imm16)]), x, None);
    assert!(matches!(i.features, Features::Always));
}

#[test]
fn file_locations_attach_only_to_plain_lines() {
    assert!(maybe_file_loc("let x = 1;", "gen.rs", 3).is_some());
    assert!(maybe_file_loc("fn f() {", "gen.rs", 3).is_none());
    assert!(maybe_file_loc("}", "gen.rs", 3).is_none());
    let mut f = Formatter::new();
    f.line("let x = 1;", Some(FileLocation::new("gen.rs", 3)));
    assert_eq!(f.text(), " let x = 1; // gen.rs:3\n");
}

#[test]
fn struct_names_lowercase_mnemonic_and_format() {
    let insts = instructions::list();
    assert_eq!(insts[9].struct_name(), "andq_mi_sxb");
    assert_eq!(insts[3].struct_name_with_generic(), "andq_i_sx");
    assert_eq!(insts[4].struct_name_with_generic(), "andb_mi<R>");
}

#[test]
fn generated_constructor_binds_fields_one_to_one() {
    let insts = instructions::list();
    let mut f = Formatter::new();
    insts[0].generate_variant_constructor(&mut f);
    assert_eq!(
        f.text(),
        "pub fn andb_i<R: AsReg>(imm8: Imm8) -> Inst<R> {\n    Inst::andb_i(andb_i { imm8 })\n}\n"
    );
    let mut g = Formatter::new();
    insts[14].generate_variant_constructor(&mut g);
    assert_eq!(
        g.text(),
        "pub fn andq_mr<R: AsReg>(rm64: GprMem<R>, r64: Gpr<R>) -> Inst<R> {\n    \
         Inst::andq_mr(andq_mr { rm64, r64 })\n}\n"
    );
}

#[test]
fn generated_visitor_follows_format_order_and_polarity() {
    let insts = instructions::list();
    let mut f = Formatter::new();
    insts[14].generate_regalloc_function(&mut f);
    assert_eq!(
        f.text(),
        "pub fn visit_operands(&mut self, visitor: &mut impl OperandVisitor<R>) {\n    \
         self.rm64.read_write(visitor);\n    self.r64.read(visitor);\n}\n"
    );
    let mut g = Formatter::new();
    insts[0].generate_regalloc_function(&mut g);
    assert_eq!(
        g.text(),
        "pub fn visit_operands<R: AsReg>(&mut self, visitor: &mut impl OperandVisitor<R>) {\n    \
         visitor.fixed_read_write(&R::new(reg::ENC_RAX));\n}\n"
    );
}

#[test]
fn generated_encode_body_keeps_the_step_order() {
    let insts = instructions::list();
    // `andw_mi` has a legacy prefix, a memory operand with a possible trap,
    // a ModR/M byte and an immediate: every step appears, in order.
    let mut f = Formatter::new();
    insts[5].generate_encode_function(&mut f);
    let text = f.text();
    let trap = text.find("buf.add_trap(trap_code);").unwrap();
    let prefix = text.find("buf.put1(0x66);").unwrap();
    let rex = text.find("emit_rex_prefix").unwrap();
    let opcode = text.find("buf.put1(0x81);").unwrap();
    let modrm = text.find("emit_modrm_sib_disp").unwrap();
    let imm = text.find("emit_simm(buf, bytes, value);").unwrap();
    assert!(trap < prefix);
    assert!(prefix < rex);
    assert!(rex < opcode);
    assert!(opcode < modrm);
    assert!(modrm < imm);
}

#[test]
fn generated_isle_definition_is_exact() {
    let insts = instructions::list();
    let mut f = Formatter::new();
    insts[0].generate_isle_definition(&mut f);
    let expected = format!(
        "(decl x64_assemble_andb_i (AssemblerImm8) AssemblerInst)\n({}{} constructor \
         x64_assemble_andb_i x64_assemble_andb_i)\n",
        "ext", "ern"
    );
    assert_eq!(f.text(), expected);
}
