//! AT&T-syntax pretty-printing checks.

use x64_assembler::builders;
use x64_assembler::imm::{Extension, Imm16, Imm32, Imm8, Simm32, Simm32PlusKnownOffset};
use x64_assembler::inst::{Inst, PlainRegisters};
use x64_assembler::mem::{Amode, GprMem, Scale};
use x64_assembler::reg::{Gpr, MinusRsp, Size};

type I = Inst<PlainRegisters>;

#[test]
fn registers_print_with_percent() {
    assert_eq!(x64_assembler::reg::to_string(0, Size::Byte), "%al");
    assert_eq!(x64_assembler::reg::to_string(0, Size::Quadword), "%rax");
    assert_eq!(x64_assembler::reg::to_string(6, Size::Byte), "%sil");
    assert_eq!(x64_assembler::reg::to_string(12, Size::Word), "%r12w");
}

#[test]
fn small_immediates_print_bare() {
    assert_eq!(Imm8::new(5).to_string(Extension::NoExtend), "$5");
    assert_eq!(Imm8::new(10).to_string(Extension::NoExtend), "$0xa");
    assert_eq!(Imm16::new(9).to_string(Extension::ZeroExtend), "$9");
    assert_eq!(Imm32::new(0xABCD).to_string(Extension::NoExtend), "$0xabcd");
}

#[test]
fn sign_extension_widens_display() {
    assert_eq!(
        Imm8::new(0xA6).to_string(Extension::SignExtendQuad),
        "$0xffffffffffffffa6"
    );
    assert_eq!(
        Imm8::new(0xA6).to_string(Extension::SignExtendLong),
        "$0xffffffa6"
    );
    assert_eq!(
        Imm8::new(0xA6).to_string(Extension::SignExtendWord),
        "$0xffa6"
    );
    assert_eq!(Imm8::new(0xA6).to_string(Extension::ZeroExtend), "$0xa6");
}

#[test]
fn amode_prints_att_style() {
    let a: Amode<u8> = Amode::ImmReg {
        base: Gpr(0),
        simm32: Simm32PlusKnownOffset { simm32: Simm32(-16), offset: None },
        trap: None,
    };
    assert_eq!(a.to_string(), "-0x10(%rax)");
    let z: Amode<u8> = Amode::ImmReg {
        base: Gpr(4),
        simm32: Simm32PlusKnownOffset { simm32: Simm32(0), offset: None },
        trap: None,
    };
    assert_eq!(z.to_string(), "(%rsp)");
    let s: Amode<u8> = Amode::ImmRegRegShift {
        base: Gpr(0),
        index: MinusRsp(3),
        scale: Scale::Four,
        simm32: Simm32(5),
        trap: None,
    };
    assert_eq!(s.to_string(), "5(%rax, %rbx, 4)");
    let one: Amode<u8> = Amode::ImmRegRegShift {
        base: Gpr(1),
        index: MinusRsp(2),
        scale: Scale::One,
        simm32: Simm32(0),
        trap: None,
    };
    assert_eq!(one.to_string(), "(%rcx, %rdx)");
    let rip: Amode<u8> = Amode::RipRelative { target: x64_assembler::sink::Label(0) };
    assert_eq!(rip.to_string(), "(%rip)");
}

#[test]
fn known_offset_displacement_prints_its_key() {
    let a: Amode<u8> = Amode::ImmReg {
        base: Gpr(5),
        simm32: Simm32PlusKnownOffset { simm32: Simm32(8), offset: Some(1) },
        trap: None,
    };
    assert_eq!(a.to_string(), "<offset:1>+8(%rbp)");
}

#[test]
fn instructions_print_destination_last() {
    let a: I = builders::andb_i(Imm8::new(0xAA));
    assert_eq!(a.to_string(), "andb $0xaa, %al");
    let b: I = builders::andq_mr(GprMem::Gpr(Gpr(8)), Gpr(9));
    assert_eq!(b.to_string(), "andq %r9, %r8");
    let c: I = builders::andb_rm(Gpr(1), GprMem::Gpr(Gpr(2)));
    assert_eq!(c.to_string(), "andb %dl, %cl");
    let d: I = builders::andq_i_sx(Imm32::new(0x7FFF_FFFF));
    assert_eq!(d.to_string(), "andq $0x7fffffff, %rax");
}

#[test]
fn gprmem_prints_by_size() {
    let g: GprMem<u8, u8> = GprMem::Gpr(Gpr(3));
    assert_eq!(g.to_string(Size::Doubleword), "%ebx");
}
