//! Byte-level checks of the encoder against known-good x64 encodings.

use x64_assembler::builders;
use x64_assembler::imm::{Imm16, Imm32, Imm8, Simm32, Simm32PlusKnownOffset};
use x64_assembler::inst::{assemble, pretty_print_hexadecimal, Inst, PlainRegisters};
use x64_assembler::mem::{Amode, GprMem, Scale};
use x64_assembler::reg::Gpr;
use x64_assembler::sink::{ByteBuffer, CodeSink, Label, TrapCode};
use x64_assembler::external::{BackendAmode, CraneliftRegisters, PairedGpr, SyntheticAmode,
    KEY_INCOMING_ARG, KEY_SLOT_OFFSET};
use x64_assembler::reg::AsReg;

type I = Inst<PlainRegisters>;

fn no_offset_imm_reg(base: u8, disp: i32) -> Amode<u8> {
    Amode::ImmReg {
        base: Gpr(base),
        simm32: Simm32PlusKnownOffset { simm32: Simm32(disp), offset: None },
        trap: None,
    }
}

#[test]
fn and_al_imm8() {
    let i: I = builders::andb_i(Imm8::new(0b1010_1010));
    assert_eq!(assemble(&i), vec![0x24, 0xAA]);
}

#[test]
fn and_ax_imm16() {
    let i: I = builders::andw_i(Imm16::new(0x1234));
    assert_eq!(assemble(&i), vec![0x66, 0x25, 0x34, 0x12]);
}

#[test]
fn and_eax_imm32() {
    let i: I = builders::andl_i(Imm32::new(0x1122_3344));
    assert_eq!(assemble(&i), vec![0x25, 0x44, 0x33, 0x22, 0x11]);
}

#[test]
fn and_rax_imm32_sx() {
    let i: I = builders::andq_i_sx(Imm32::new(0x7FFF_FFFF));
    assert_eq!(assemble(&i), vec![0x48, 0x25, 0xFF, 0xFF, 0xFF, 0x7F]);
}

#[test]
fn and_rsp_mem_imm8() {
    let i: I = builders::andb_mi(GprMem::Mem(no_offset_imm_reg(4, 0)), Imm8::new(0x0F));
    assert_eq!(assemble(&i), vec![0x80, 0x64, 0x24, 0x00, 0x0F]);
}

#[test]
fn and_r8_r9_quad() {
    let i: I = builders::andq_mr(GprMem::Gpr(Gpr(8)), Gpr(9));
    assert_eq!(assemble(&i), vec![0x4D, 0x21, 0xC8]);
}

#[test]
fn and_rbp_base_forces_disp() {
    // A `%rbp` base with no displacement still emits a one-byte zero.
    let i: I = builders::andl_mi(GprMem::Mem(no_offset_imm_reg(5, 0)), Imm32::new(1));
    assert_eq!(assemble(&i), vec![0x81, 0x65, 0x00, 0x01, 0x00, 0x00, 0x00]);
}

#[test]
fn and_sil_needs_rex() {
    // `%sil` demands a REX prefix to disambiguate from `%dh`.
    let i: I = builders::andb_mr(GprMem::Gpr(Gpr(6)), Gpr(1));
    assert_eq!(assemble(&i), vec![0x40, 0x20, 0xCE]);
}

#[test]
fn and_scaled_index() {
    let i: I = builders::andl_mi(
        GprMem::Mem(Amode::ImmRegRegShift {
            base: Gpr(0),
            index: x64_assembler::reg::MinusRsp(3),
            scale: Scale::Four,
            simm32: Simm32(0x10),
            trap: None,
        }),
        Imm32::new(2),
    );
    // ModR/M = 01 100 100, SIB = 10 011 000, disp8 = 0x10.
    assert_eq!(
        assemble(&i),
        vec![0x81, 0x64, 0x98, 0x10, 0x02, 0x00, 0x00, 0x00]
    );
}

#[test]
fn trap_is_registered_before_any_byte() {
    let amode = Amode::ImmReg {
        base: Gpr(0),
        simm32: Simm32PlusKnownOffset { simm32: Simm32(8), offset: None },
        trap: Some(TrapCode(5)),
    };
    let i: I = builders::andb_mi(GprMem::Mem(amode), Imm8::new(1));
    let mut buf = ByteBuffer::new();
    let offsets: Vec<i32> = Vec::new();
    i.encode(&mut buf, &offsets);
    assert_eq!(buf.traps, vec![(0, TrapCode(5))]);
    assert_eq!(buf.label_uses, vec![]);
    assert_eq!(buf.bytes, vec![0x80, 0x60, 0x08, 0x01]);
}

#[test]
fn rip_relative_records_label_use() {
    let i: I = builders::andl_mi(
        GprMem::Mem(Amode::RipRelative { target: Label(3) }),
        Imm32::new(7),
    );
    let mut buf = ByteBuffer::new();
    buf.put1(0x90);
    let offsets: Vec<i32> = Vec::new();
    i.encode(&mut buf, &offsets);
    // The four-byte displacement field begins right after opcode and ModR/M;
    // its initial value compensates for the four immediate bytes that follow
    // it, since the label resolver is relative to the end of the field.
    assert_eq!(buf.label_uses, vec![(3, Label(3))]);
    assert_eq!(
        buf.bytes,
        vec![0x90, 0x81, 0x25, 0xFC, 0xFF, 0xFF, 0xFF, 0x07, 0x00, 0x00, 0x00]
    );
    assert_eq!(buf.traps, vec![]);
}

#[test]
fn rip_relative_placeholder_matches_trailing_bytes() {
    // A one-byte immediate after the field: the placeholder is minus one.
    let b: I = builders::andb_mi(
        GprMem::Mem(Amode::RipRelative { target: Label(0) }),
        Imm8::new(0x0F),
    );
    assert_eq!(assemble(&b), vec![0x80, 0x25, 0xFF, 0xFF, 0xFF, 0xFF, 0x0F]);

    // Nothing after the field: the placeholder is zero.
    let r: I = builders::andl_mr(
        GprMem::Mem(Amode::RipRelative { target: Label(0) }),
        Gpr(1),
    );
    assert_eq!(assemble(&r), vec![0x21, 0x0D, 0x00, 0x00, 0x00, 0x00]);
}

#[test]
fn late_bound_offset_resolves_through_table() {
    let amode = Amode::ImmReg {
        base: Gpr(5),
        simm32: Simm32PlusKnownOffset { simm32: Simm32(8), offset: Some(1) },
        trap: None,
    };
    let i: I = builders::andq_mi_sx(GprMem::Mem(amode), Imm32::new(0));
    let offsets: Vec<i32> = vec![0, 0x30];
    let mut buf = ByteBuffer::new();
    i.encode(&mut buf, &offsets);
    // Effective displacement 0x38 from `%rbp`.
    assert_eq!(buf.bytes, vec![0x48, 0x81, 0x65, 0x38, 0x00, 0x00, 0x00, 0x00]);
}

#[test]
fn hex_dump_is_uppercase_two_digits() {
    let bytes = vec![0x24u8, 0xAA, 0x01];
    assert_eq!(pretty_print_hexadecimal(&bytes), "24AA01");
}

#[test]
fn synthetic_amodes_lower_to_frame_relative_displacements() {
    let a = SyntheticAmode::IncomingArg { offset: 16 }.to_amode();
    match a {
        Amode::ImmReg { base, simm32, trap } => {
            assert_eq!(base.0, 5);
            assert_eq!(simm32.simm32.0, -16);
            assert_eq!(simm32.offset, Some(KEY_INCOMING_ARG));
            assert!(trap.is_none());
        }
        other => panic!("expected a base-displacement mode, got {other:?}"),
    }
    let s = SyntheticAmode::SlotOffset { simm32: 24 }.to_amode();
    match s {
        Amode::ImmReg { base, simm32, .. } => {
            assert_eq!(base.0, 5);
            assert_eq!(simm32.simm32.0, 24);
            assert_eq!(simm32.offset, Some(KEY_SLOT_OFFSET));
        }
        other => panic!("expected a base-displacement mode, got {other:?}"),
    }
    let r = SyntheticAmode::Real(BackendAmode::ImmReg { simm32: 4, base: 1, trap: None })
        .to_amode();
    match r {
        Amode::ImmReg { base, simm32, .. } => {
            assert_eq!(base.0, 1);
            assert_eq!(simm32.simm32.0, 4);
            assert_eq!(simm32.offset, None);
        }
        other => panic!("expected a base-displacement mode, got {other:?}"),
    }
}

#[test]
fn paired_registers_encode_when_halves_agree() {
    let i: Inst<CraneliftRegisters> = builders::andq_mr(
        GprMem::Gpr(Gpr(PairedGpr { read: 8, write: 8 })),
        Gpr(9),
    );
    assert_eq!(assemble(&i), vec![0x4D, 0x21, 0xC8]);
    assert_eq!(PairedGpr::new(3).enc(), 3);
}
