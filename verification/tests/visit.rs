//! Operand-visiting and no-op-allocation checks.

use x64_assembler::builders;
use x64_assembler::imm::{Imm32, Imm8, Simm32, Simm32PlusKnownOffset};
use x64_assembler::inst::{assemble, Inst, PlainRegisters, RecordingVisitor};
use x64_assembler::mem::{Amode, GprMem};
use x64_assembler::reg::Gpr;
use x64_assembler::visit::VisitKind;

type I = Inst<PlainRegisters>;

#[test]
fn fixed_register_forms_visit_one_fixed_operand() {
    let mut i: I = builders::andb_i(Imm8::new(1));
    let mut v = RecordingVisitor::new();
    i.visit_operands(&mut v);
    assert_eq!(v.events, vec![VisitKind::FixedReadWrite]);
}

#[test]
fn reg_mem_forms_visit_in_format_order() {
    let mut i: I = builders::andq_mr(GprMem::Gpr(Gpr(8)), Gpr(9));
    let mut v = RecordingVisitor::new();
    i.visit_operands(&mut v);
    assert_eq!(v.events, vec![VisitKind::ReadWrite, VisitKind::Read]);

    let mut j: I = builders::andl_rm(Gpr(1), GprMem::Gpr(Gpr(2)));
    let mut w = RecordingVisitor::new();
    j.visit_operands(&mut w);
    assert_eq!(w.events, vec![VisitKind::ReadWrite, VisitKind::Read]);
}

#[test]
fn memory_operands_visit_base_and_index_as_reads() {
    let amode: Amode<u8> = Amode::ImmReg {
        base: Gpr(3),
        simm32: Simm32PlusKnownOffset { simm32: Simm32(4), offset: None },
        trap: None,
    };
    let mut i: I = builders::andl_mi(GprMem::Mem(amode), Imm32::new(1));
    let mut v = RecordingVisitor::new();
    i.visit_operands(&mut v);
    assert_eq!(v.events, vec![VisitKind::Read]);
}

#[test]
fn frame_pointer_bases_are_plain_reads_too() {
    let amode: Amode<u8> = Amode::ImmReg {
        base: Gpr(5),
        simm32: Simm32PlusKnownOffset { simm32: Simm32(4), offset: None },
        trap: None,
    };
    let mut i: I = builders::andl_mi(GprMem::Mem(amode), Imm32::new(1));
    let mut v = RecordingVisitor::new();
    i.visit_operands(&mut v);
    assert_eq!(v.events, vec![VisitKind::Read]);
}

#[test]
fn scaled_index_operands_read_base_then_index() {
    let amode: Amode<u8> = Amode::ImmRegRegShift {
        base: Gpr(0),
        index: x64_assembler::reg::MinusRsp(3),
        scale: x64_assembler::mem::Scale::Two,
        simm32: Simm32(4),
        trap: None,
    };
    let mut i: I = builders::andl_mi(GprMem::Mem(amode), Imm32::new(1));
    let mut v = RecordingVisitor::new();
    i.visit_operands(&mut v);
    assert_eq!(v.events, vec![VisitKind::Read, VisitKind::Read]);
}

#[test]
fn noop_allocation_keeps_encoding_byte_identical() {
    let mut i: I = builders::andq_mr(GprMem::Gpr(Gpr(8)), Gpr(9));
    let before = assemble(&i);
    let mut v = RecordingVisitor::new();
    i.visit_operands(&mut v);
    let after = assemble(&i);
    assert_eq!(before, after);
}
