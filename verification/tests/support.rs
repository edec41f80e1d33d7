//! Checks of the entity map, the GC layouts, and the protection-key stubs.

use x64_assembler::gc::{
    byte_size_of_wasm_ty_in_gc_heap, common_array_layout, common_struct_layout, GcLayout,
    VMGcKind, WasmArrayType, WasmFieldType, WasmStorageType, WasmValType,
};
use x64_assembler::gc::VMGcKind::{AnyRef, ArrayRef, EqRef, ExnRef, ExternRef, StructRef};
use x64_assembler::map::{Entity, EntityRef, SecondaryMap};
use x64_assembler::mpk;
use x64_assembler::encoding::{ByteSink, LabelUse, MachLabel};

#[test]
fn basic() {
    let r0 = Entity(0);
    let r1 = Entity(1);
    let r2 = Entity(2);
    let mut m: SecondaryMap<Entity, i32> = SecondaryMap::new();

    let v: Vec<Entity> = m.keys();
    assert_eq!(v, []);

    m.set(r2, 3);
    m.set(r1, 5);

    assert_eq!(*m.index(r1), 5);
    assert_eq!(*m.index(r2), 3);

    let v: Vec<Entity> = m.keys();
    assert_eq!(v, [r0, r1, r2]);

    let shared = &m;
    assert_eq!(*shared.index(r0), 0);
    assert_eq!(*shared.index(r1), 5);
    assert_eq!(*shared.index(r2), 3);
}

#[test]
fn map_defaults_and_resize() {
    let mut m: SecondaryMap<Entity, u8> = SecondaryMap::with_default(7);
    assert!(m.is_empty());
    assert_eq!(*m.index(Entity(10)), 7);
    m.resize(3);
    assert_eq!(m.values().len(), 3);
    assert_eq!(*m.index(Entity(1)), 7);
    m.clear();
    assert!(m.is_empty());
}

#[test]
fn kind_matches() {
    let all = [ExternRef, AnyRef, EqRef, ArrayRef, StructRef, ExnRef];

    for (sup, subs) in [
        (ExternRef, vec![]),
        (AnyRef, vec![EqRef, ArrayRef, StructRef]),
        // N.B.: exnref is not an eqref.
        (EqRef, vec![ArrayRef, StructRef]),
        (ArrayRef, vec![]),
        (StructRef, vec![]),
        (ExnRef, vec![]),
    ] {
        assert!(sup.matches(sup));
        for sub in &subs {
            assert!(sub.matches(sup));
        }
        for kind in all.iter().filter(|k| **k != sup && !subs.contains(k)) {
            assert!(!kind.matches(sup));
        }
    }
}

#[test]
fn kind_roundtrips_through_high_bits() {
    let k = VMGcKind::from_high_bits_of_u32(VMGcKind::ArrayRef.as_u32() | 123);
    assert_eq!(k, VMGcKind::ArrayRef);
    assert!(VMGcKind::value_fits_in_unused_bits(123));
    assert!(!VMGcKind::value_fits_in_unused_bits(0x0400_0000));
}

#[test]
fn byte_sizes_in_gc_heap() {
    assert_eq!(byte_size_of_wasm_ty_in_gc_heap(&WasmStorageType::I8), 1);
    assert_eq!(byte_size_of_wasm_ty_in_gc_heap(&WasmStorageType::I16), 2);
    assert_eq!(
        byte_size_of_wasm_ty_in_gc_heap(&WasmStorageType::Val(WasmValType::I64)),
        8
    );
    assert_eq!(
        byte_size_of_wasm_ty_in_gc_heap(&WasmStorageType::Val(WasmValType::V128)),
        16
    );
}

#[test]
fn struct_layout_aligns_each_field() {
    let fields = vec![
        WasmFieldType { element_type: WasmStorageType::Val(WasmValType::I32), mutable: false },
        WasmFieldType { element_type: WasmStorageType::Val(WasmValType::I64), mutable: false },
        WasmFieldType { element_type: WasmStorageType::I8, mutable: true },
    ];
    let ty = x64_assembler::gc::WasmStructType { fields };
    let layout = common_struct_layout(&ty, 8, 8);
    assert_eq!(layout.fields[0].offset, 8);
    assert_eq!(layout.fields[1].offset, 16);
    assert_eq!(layout.fields[2].offset, 24);
    assert_eq!(layout.align, 8);
    assert_eq!(layout.size, 32);
    let wrapped = GcLayout::Struct(layout);
    assert_eq!(wrapped.unwrap_struct().size, 32);
}

#[test]
fn array_layout_counts_header_and_length() {
    let ty = WasmArrayType {
        element_type: WasmStorageType::Val(WasmValType::I64),
        mutable: true,
    };
    let layout = common_array_layout(&ty, 8, 8, 8);
    assert_eq!(layout.base_size, 16);
    assert_eq!(layout.elem_size, 8);
    assert_eq!(layout.align, 8);
    assert_eq!(layout.elem_offset(2), 32);
    assert_eq!(layout.size_for_len(3), 40);
    assert_eq!(layout.layout(1).size, 24);
    assert_eq!(layout.layout(1).align, 8);
}

#[test]
fn entity_refs_roundtrip() {
    let e = Entity::new(42);
    assert_eq!(e.index(), 42);
}

#[test]
fn mpk_stubs_report_no_support() {
    assert!(!mpk::is_supported());
    assert_eq!(mpk::keys(16).len(), 0);
    let m = mpk::ProtectionMask::all();
    mpk::allow(m);
    assert_eq!(mpk::current_mask(), mpk::ProtectionMask);
    assert_eq!(mpk::ProtectionMask::zero(), mpk::ProtectionMask);
}

#[test]
fn byte_sink_writes_little_endian() {
    let mut buf: Vec<u8> = Vec::new();
    buf.put1(0x01);
    buf.put2(0x0302);
    buf.put4(0x0707_0605);
    assert_eq!(buf.cur_offset(), 7);
    buf.use_label_at_offset(3, MachLabel(1), LabelUse::PCRel32);
    buf.add_trap(x64_assembler::sink::TrapCode(1));
    buf.put8(0x0f0e_0d0c_0b0a_0908);
    assert_eq!(
        buf,
        vec![0x01, 0x02, 0x03, 0x05, 0x06, 0x07, 0x07, 0x08, 0x09, 0x0a, 0x0b, 0x0c, 0x0d, 0x0e, 0x0f]
    );
}
