//! Target- and pointer-width-agnostic definitions of GC-related types and
//! constants: how array, struct and exception objects are laid out in a GC
//! heap, and the kind bits carried in every object header.

use vstd::prelude::*;

verus! {

/// Discriminant to check whether a GC reference is an `i31ref` or not.
pub const I31_DISCRIMINANT: u32 = 1;

/// The size of the GC header in bytes.
pub const VM_GC_HEADER_SIZE: u32 = 8;

/// The minimum alignment of the GC header in bytes.
pub const VM_GC_HEADER_ALIGN: u32 = 8;

/// The offset of the kind field in the GC header.
pub const VM_GC_HEADER_KIND_OFFSET: u32 = 0;

/// The offset of the type-index field in the GC header.
pub const VM_GC_HEADER_TYPE_INDEX_OFFSET: u32 = 4;

/// The size of a [`VMGcKind`] in bytes.
pub const VM_GC_KIND_SIZE: u8 = 4;

/// A heap type, as far as the GC layouts care: enough to tell GC-managed
/// references apart from function references and `i31`.
#[derive(Clone, Copy, Debug, PartialEq, Eq, Structural)]
pub enum WasmHeapType {
    Func,
    Extern,
    Any,
    Eq,
    I31,
    Array,
    Struct,
    Exn,
    Cont,
}

/// A reference type: a heap type with a nullability bit.
#[derive(Clone, Copy, Debug, PartialEq, Eq, Structural)]
pub struct WasmRefType {
    pub nullable: bool,
    pub heap_type: WasmHeapType,
}

/// A value type.
#[derive(Clone, Copy, Debug, PartialEq, Eq, Structural)]
pub enum WasmValType {
    I32,
    I64,
    F32,
    F64,
    V128,
    Ref(WasmRefType),
}

/// A storage type: a value type, or one of the two packed integer types
/// that exist only inside GC objects.
#[derive(Clone, Copy, Debug, PartialEq, Eq, Structural)]
pub enum WasmStorageType {
    I8,
    I16,
    Val(WasmValType),
}

/// One field of a struct or exception type.
#[derive(Clone, Copy, Debug, PartialEq, Eq, Structural)]
pub struct WasmFieldType {
    pub element_type: WasmStorageType,
    pub mutable: bool,
}

/// An array type: the storage type of its elements.
#[derive(Clone, Copy, Debug, PartialEq, Eq, Structural)]
pub struct WasmArrayType {
    pub element_type: WasmStorageType,
    pub mutable: bool,
}

/// A struct type: its fields.
#[derive(Clone, Debug)]
pub struct WasmStructType {
    pub fields: Vec<WasmFieldType>,
}

/// An exception type: the fields of its payload.
#[derive(Clone, Debug)]
pub struct WasmExnType {
    pub fields: Vec<WasmFieldType>,
}

/// The inner shape of a composite type.
#[derive(Clone, Debug)]
pub enum WasmCompositeInnerType {
    Array(WasmArrayType),
    Struct(WasmStructType),
    Func,
    Cont,
    Exn(WasmExnType),
}

/// A composite type: its inner shape and whether it is shared.
#[derive(Clone, Debug)]
pub struct WasmCompositeType {
    pub shared: bool,
    pub inner: WasmCompositeInnerType,
}

/// Whether a storage type holds a GC-managed reference other than `i31`:
/// references into the `any`, `extern` and exception hierarchies are
/// GC-managed; function references and `i31` are not.
pub open spec fn spec_is_vmgcref_and_not_i31(ty: WasmStorageType) -> bool {
    match ty {
        WasmStorageType::Val(WasmValType::Ref(rt)) => match rt.heap_type {
            WasmHeapType::Func => false,
            WasmHeapType::I31 => false,
            WasmHeapType::Cont => false,
            _ => true,
        },
        _ => false,
    }
}

/// Whether a storage type mentions a continuation, which the GC does not
/// support.
pub open spec fn spec_mentions_cont(ty: WasmStorageType) -> bool {
    match ty {
        WasmStorageType::Val(WasmValType::Ref(rt)) => rt.heap_type == WasmHeapType::Cont,
        _ => false,
    }
}

/// The byte size of a storage type inside the GC heap.
pub open spec fn spec_byte_size(ty: WasmStorageType) -> u32 {
    match ty {
        WasmStorageType::I8 => 1,
        WasmStorageType::I16 => 2,
        WasmStorageType::Val(v) => match v {
            WasmValType::I32 | WasmValType::F32 | WasmValType::Ref(_) => 4,
            WasmValType::I64 | WasmValType::F64 => 8,
            WasmValType::V128 => 16,
        },
    }
}

/// Get the byte size of the given Wasm type when it is stored inside the GC
/// heap.
pub fn byte_size_of_wasm_ty_in_gc_heap(ty: &WasmStorageType) -> (r: u32)
    requires
        !spec_mentions_cont(*ty),
    ensures
        r == spec_byte_size(*ty),
{
    match ty {
        WasmStorageType::I8 => 1,
        WasmStorageType::I16 => 2,
        WasmStorageType::Val(v) => match v {
            WasmValType::I32 | WasmValType::F32 | WasmValType::Ref(_) => 4,
            WasmValType::I64 | WasmValType::F64 => 8,
            WasmValType::V128 => 16,
        },
    }
}

/// Whether `a` is a power of two.
pub open spec fn spec_pow2(a: u32) -> bool {
    a > 0 && a & ((a - 1) as u32) == 0
}

/// `x` rounded up to the next multiple of the power of two `a`: the unique
/// multiple of `a` in `[x, x + a)`.
pub open spec fn spec_round_up(x: u32, a: u32) -> u32 {
    ((x + a - 1) as u32) & !((a - 1) as u32)
}

/// Align `offset` up to `align`, updating `max_align` if `align` is the new
/// maximum alignment, and returning the aligned offset.
pub fn align_up(offset: &mut u32, max_align: &mut u32, align: u32) -> (r: u32)
    requires
        spec_pow2(align),
        spec_pow2(*old(max_align)),
        *old(offset) + align <= u32::MAX,
    ensures
        r == spec_round_up(*old(offset), align),
        r % align == 0,
        *old(offset) <= r < *old(offset) + align,
        *final(offset) == r,
        *final(max_align) == (if align > *old(max_align) {
            align
        } else {
            *old(max_align)
        }),
        spec_pow2(*final(max_align)),
{
    let am1 = align - 1;
    let aligned = (*offset + am1) & !am1;
    proof {
        let x = *old(offset);
        let a = align;
        lemma_round_up_pow2(x, a);
    }
    *offset = aligned;
    if align > *max_align {
        *max_align = align;
    }
    aligned
}

/// Rounding up to a power of two yields the unique multiple of it in the
/// window `[x, x + a)`.
pub proof fn lemma_round_up_pow2(x: u32, a: u32)
    requires
        spec_pow2(a),
        x + a <= u32::MAX,
    ensures
        spec_round_up(x, a) % a == 0,
        x <= spec_round_up(x, a) < x + a,
{
    let am1 = (a - 1) as u32;
    assert(((x + am1) as u32 & !am1) % a == 0 && x <= ((x + am1) as u32 & !am1) && ((x
        + am1) as u32 & !am1) <= (x + am1) as u32) by (bit_vector)
        requires
            a > 0 && a & am1 == 0 && am1 == (a - 1) as u32 && x <= (u32::MAX - a) as u32,
    ;
}

/// Define a new field of size and alignment `bytes`, updating the object's
/// total `size` and `align` as necessary; the offset of the new field is
/// returned.
pub fn field(size: &mut u32, align: &mut u32, bytes: u32) -> (r: u32)
    requires
        spec_pow2(bytes),
        spec_pow2(*old(align)),
        *old(size) + bytes + bytes <= u32::MAX,
    ensures
        r == spec_round_up(*old(size), bytes),
        *final(size) == r + bytes,
        *final(align) == (if bytes > *old(align) {
            bytes
        } else {
            *old(align)
        }),
        spec_pow2(*final(align)),
        *old(size) <= r <= *old(size) + bytes - 1,
{
    let offset = align_up(size, align, bytes);
    *size = *size + bytes;
    offset
}

} // verus!

verus! {

/// A field in a struct or exception layout.
#[derive(Clone, Copy, Debug, PartialEq, Eq, Structural)]
pub struct GcStructLayoutField {
    /// The offset (in bytes) of this field inside instances of this type.
    pub offset: u32,
    /// Whether this field might contain a reference to another GC object.
    pub is_gc_ref: bool,
}

/// The byte size of every storage type is a power of two.
pub proof fn lemma_byte_size_pow2(ty: WasmStorageType)
    ensures
        spec_pow2(spec_byte_size(ty)),
{
    assert(1u32 & 0u32 == 0 && 2u32 & 1u32 == 0 && 4u32 & 3u32 == 0 && 8u32 & 7u32 == 0
        && 16u32 & 15u32 == 0) by (bit_vector);
}

/// Whether any field mentions a continuation.
pub open spec fn spec_any_cont(fields: Seq<WasmFieldType>) -> bool {
    exists|j: int| 0 <= j < fields.len() && spec_mentions_cont(
        (#[trigger] fields[j]).element_type,
    )
}

/// The layout of a run of fields starting at offset `size` with running
/// alignment `align`: each field is aligned to its natural alignment, in
/// order, and the final size and alignment are returned with the field
/// offsets.
pub open spec fn spec_fields_layout(fields: Seq<WasmFieldType>, size: u32, align: u32) -> (
    u32,
    u32,
    Seq<GcStructLayoutField>,
)
    decreases fields.len(),
{
    if fields.len() == 0 {
        (size, align, Seq::<GcStructLayoutField>::empty())
    } else {
        let fs = spec_byte_size(fields[0].element_type);
        let off = spec_round_up(size, fs);
        let size2 = (off + fs) as u32;
        let align2 = if fs > align {
            fs
        } else {
            align
        };
        let rest = spec_fields_layout(fields.drop_first(), size2, align2);
        (
            rest.0,
            rest.1,
            seq![
                GcStructLayoutField {
                    offset: off,
                    is_gc_ref: spec_is_vmgcref_and_not_i31(fields[0].element_type),
                },
            ] + rest.2,
        )
    }
}

/// Lay out a run of struct or exception fields, aligning each to its
/// natural alignment and rounding the final size up to the final alignment;
/// returns the total size, the alignment, and the field offsets.
pub fn common_struct_or_exn_layout(
    fields: &Vec<WasmFieldType>,
    header_size: u32,
    header_align: u32,
) -> (r: (u32, u32, Vec<GcStructLayoutField>))
    requires
        !spec_any_cont(fields@),
        spec_pow2(header_align),
        header_align <= 0x1000,
        header_size <= 0x200_0000,
        fields@.len() <= 0x10_0000,
    ensures
        ({
            let run = spec_fields_layout(fields@, header_size, header_align);
            &&& r.1 == run.1
            &&& r.2@ == run.2
            &&& r.0 == spec_round_up(run.0, run.1)
            &&& r.0 % r.1 == 0
        }),
{
    let mut size = header_size;
    let mut align = header_align;
    let mut out: Vec<GcStructLayoutField> = Vec::new();
    let mut i: usize = 0;
    proof {
        assert(fields@.skip(0) =~= fields@);
    }
    while i < fields.len()
        invariant
            i <= fields@.len(),
            !spec_any_cont(fields@),
            spec_pow2(align),
            align <= 0x1000,
            size <= header_size + 32 * i,
            header_size <= 0x200_0000,
            fields@.len() <= 0x10_0000,
            spec_fields_layout(fields@, header_size, header_align) == ({
                let rest = spec_fields_layout(fields@.skip(i as int), size, align);
                (rest.0, rest.1, out@ + rest.2)
            }),
        decreases fields@.len() - i,
    {
        let f = fields[i];
        let ghost size0 = size;
        let ghost align0 = align;
        let ghost out0 = out@;
        proof {
            assert(!spec_mentions_cont(fields@[i as int].element_type));
            lemma_byte_size_pow2(f.element_type);
            assert(fields@.skip(i as int)[0] == fields@[i as int]);
            assert(fields@.skip(i as int).drop_first() =~= fields@.skip(i + 1));
        }
        let field_size = byte_size_of_wasm_ty_in_gc_heap(&f.element_type);
        let offset = field(&mut size, &mut align, field_size);
        let is_gc_ref = is_vmgcref_type_and_not_i31(&f.element_type);
        out.push(GcStructLayoutField { offset, is_gc_ref });
        proof {
            let prev = spec_fields_layout(fields@.skip(i as int), size0, align0);
            let next = spec_fields_layout(fields@.skip(i + 1), size, align);
            assert(prev.0 == next.0 && prev.1 == next.1);
            assert(prev.2 =~= seq![GcStructLayoutField { offset, is_gc_ref }] + next.2);
            assert(out@ + next.2 =~= out0 + prev.2);
        }
        i = i + 1;
    }
    proof {
        assert(fields@.skip(fields@.len() as int) =~= Seq::<WasmFieldType>::empty());
    }
    // Round the final size up to the alignment, for simplicity.
    let align_size_to = align;
    let mut max_align = align;
    let total = align_up(&mut size, &mut max_align, align_size_to);
    (total, align, out)
}

/// Whether a storage type holds a GC-managed reference other than `i31`.
pub fn is_vmgcref_type_and_not_i31(ty: &WasmStorageType) -> (r: bool)
    ensures
        r == spec_is_vmgcref_and_not_i31(*ty),
{
    match ty {
        WasmStorageType::Val(WasmValType::Ref(rt)) => match rt.heap_type {
            WasmHeapType::Func => false,
            WasmHeapType::I31 => false,
            WasmHeapType::Cont => false,
            _ => true,
        },
        _ => false,
    }
}

} // verus!

verus! {

/// The layout of a GC-managed array: a header, a length field, then the
/// contiguous elements.
///
/// All offsets are from the start of the object; the size of the GC header
/// is included.
#[derive(Clone, Copy, Debug, PartialEq, Eq, Structural)]
pub struct GcArrayLayout {
    /// The size of this array object without any elements; the elements, if
    /// any, begin at exactly this offset.
    pub base_size: u32,
    /// The alignment of this array.
    pub align: u32,
    /// The size and natural alignment of each element in this array.
    pub elem_size: u32,
    /// Whether the elements of this array are GC references.
    pub elems_are_gc_refs: bool,
}

/// The layout of a GC-managed struct.
#[derive(Clone, Debug)]
pub struct GcStructLayout {
    /// The size (in bytes) of this struct.
    pub size: u32,
    /// The alignment (in bytes) of this struct.
    pub align: u32,
    /// The layout of each field, in declaration order.
    pub fields: Vec<GcStructLayoutField>,
}

/// The layout of a GC-managed exception object.
#[derive(Clone, Debug)]
pub struct GcExceptionLayout {
    /// The size (in bytes) of this object.
    pub size: u32,
    /// The alignment (in bytes) of this object.
    pub align: u32,
    /// The offset of the tag pointer.
    pub tag_offset: u32,
    /// The layout of each payload field, in declaration order.
    pub fields: Vec<GcStructLayoutField>,
}

/// A size and alignment, with the alignment a power of two.
#[derive(Clone, Copy, Debug, PartialEq, Eq, Structural)]
pub struct MemLayout {
    /// The size in bytes.
    pub size: usize,
    /// The alignment in bytes.
    pub align: usize,
}

/// Lay out a GC array: the header, then a four-byte length field, which
/// must land at `expected_array_length_offset`, then the aligned elements.
pub fn common_array_layout(
    ty: &WasmArrayType,
    header_size: u32,
    header_align: u32,
    expected_array_length_offset: u32,
) -> (r: GcArrayLayout)
    requires
        !spec_mentions_cont(ty.element_type),
        header_size >= VM_GC_HEADER_SIZE,
        header_align >= VM_GC_HEADER_ALIGN,
        spec_pow2(header_align),
        header_align <= 0x1000,
        header_size <= 0x100_0000,
        spec_round_up(header_size, 4) == expected_array_length_offset,
    ensures
        ({
            let length_offset = spec_round_up(header_size, 4);
            let elem_size = spec_byte_size(ty.element_type);
            let base = spec_round_up((length_offset + 4) as u32, elem_size);
            r == (GcArrayLayout {
                base_size: base,
                align: (if elem_size > (if 4 > header_align {
                    4u32
                } else {
                    header_align
                }) {
                    elem_size
                } else {
                    (if 4 > header_align {
                        4u32
                    } else {
                        header_align
                    })
                }),
                elem_size,
                elems_are_gc_refs: spec_is_vmgcref_and_not_i31(ty.element_type),
            })
        }),
{
    let mut size = header_size;
    let mut align = header_align;

    let length_field_size: u32 = 4;
    proof {
        assert(spec_pow2(4u32) && spec_pow2(1u32) && spec_pow2(2u32) && spec_pow2(8u32)
            && spec_pow2(16u32)) by (bit_vector);
    }
    let length_field_offset = field(&mut size, &mut align, length_field_size);
    // A mismatch here is a programming error in the collector's header
    // description, ruled out by construction.
    if length_field_offset != expected_array_length_offset {
        proof {
            assert(false);
        }
    }

    let elem_size = byte_size_of_wasm_ty_in_gc_heap(&ty.element_type);
    proof {
        lemma_byte_size_pow2(ty.element_type);
    }
    let mut max_align = align;
    let elems_offset = align_up(&mut size, &mut max_align, elem_size);
    align = max_align;

    let elems_are_gc_refs = is_vmgcref_type_and_not_i31(&ty.element_type);

    GcArrayLayout { base_size: size, align, elem_size, elems_are_gc_refs }
}

/// Lay out a GC struct: the header, then its fields.
pub fn common_struct_layout(
    ty: &WasmStructType,
    header_size: u32,
    header_align: u32,
) -> (r: GcStructLayout)
    requires
        !spec_any_cont(ty.fields@),
        header_size >= VM_GC_HEADER_SIZE,
        header_align >= VM_GC_HEADER_ALIGN,
        spec_pow2(header_align),
        header_align <= 0x1000,
        header_size <= 0x100_0000,
        ty.fields@.len() <= 0x10_0000,
    ensures
        ({
            let run = spec_fields_layout(ty.fields@, header_size, header_align);
            &&& r.align == run.1
            &&& r.fields@ == run.2
            &&& r.size == spec_round_up(run.0, run.1)
            &&& r.size % r.align == 0
        }),
{
    let (size, align, fields) = common_struct_or_exn_layout(&ty.fields, header_size, header_align);
    GcStructLayout { size, align, fields }
}

/// Lay out a GC exception object: the header, a two-word tag slot, then its
/// payload fields.
pub fn common_exn_layout(ty: &WasmExnType, header_size: u32, header_align: u32) -> (r:
    GcExceptionLayout)
    requires
        !spec_any_cont(ty.fields@),
        header_size >= VM_GC_HEADER_SIZE,
        header_align >= VM_GC_HEADER_ALIGN,
        spec_pow2(header_align),
        header_align <= 0x1000,
        header_size <= 0x100_0000,
        ty.fields@.len() <= 0x10_0000,
    ensures
        ({
            let run = spec_fields_layout(ty.fields@, (header_size + 8) as u32, header_align);
            &&& r.align == run.1
            &&& r.fields@ == run.2
            &&& r.size == spec_round_up(run.0, run.1)
            &&& r.tag_offset == header_size
            &&& r.size % r.align == 0
        }),
{
    // The tag pointer sits right after the header, in a two-word slot.
    let tag_offset = header_size;
    let header_size = header_size + 2 * 4;

    let (size, align, fields) = common_struct_or_exn_layout(&ty.fields, header_size, header_align);
    GcExceptionLayout { size, align, tag_offset, fields }
}

/// The layout of a GC-managed object.
#[derive(Clone, Debug)]
pub enum GcLayout {
    /// The layout of a GC-managed array object.
    Array(GcArrayLayout),
    /// The layout of a GC-managed struct object.
    Struct(GcStructLayout),
    /// The layout of a GC-managed exception object.
    Exception(GcExceptionLayout),
}

impl GcLayout {
    /// The underlying struct layout; this layout must be one.
    pub fn unwrap_struct(&self) -> (r: &GcStructLayout)
        requires
            self is Struct,
        ensures
            *self == GcLayout::Struct(*r),
    {
        match self {
            GcLayout::Struct(s) => s,
            _ => vstd::pervasive::unreached(),
        }
    }

    /// The underlying array layout; this layout must be one.
    pub fn unwrap_array(&self) -> (r: &GcArrayLayout)
        requires
            self is Array,
        ensures
            *self == GcLayout::Array(*r),
    {
        match self {
            GcLayout::Array(a) => a,
            _ => vstd::pervasive::unreached(),
        }
    }

    /// The underlying exception layout; this layout must be one.
    pub fn unwrap_exception(&self) -> (r: &GcExceptionLayout)
        requires
            self is Exception,
        ensures
            *self == GcLayout::Exception(*r),
    {
        match self {
            GcLayout::Exception(e) => e,
            _ => vstd::pervasive::unreached(),
        }
    }
}

impl GcArrayLayout {
    /// The total size of this array for `len` elements.
    pub fn size_for_len(&self, len: u32) -> (r: u32)
        requires
            self.base_size + len * self.elem_size <= u32::MAX,
        ensures
            r == self.base_size + len * self.elem_size,
    {
        self.elem_offset(len)
    }

    /// The offset of the `i`th element in an array with this layout.
    pub fn elem_offset(&self, i: u32) -> (r: u32)
        requires
            self.base_size + i * self.elem_size <= u32::MAX,
        ensures
            r == self.base_size + i * self.elem_size,
    {
        self.base_size + i * self.elem_size
    }

    /// The size and alignment of an array of this type with `len` elements.
    pub fn layout(&self, len: u32) -> (r: MemLayout)
        requires
            self.base_size + len * self.elem_size <= u32::MAX,
            spec_pow2(self.align),
        ensures
            r == (MemLayout {
                size: (self.base_size + len * self.elem_size) as usize,
                align: self.align as usize,
            }),
    {
        let size = self.size_for_len(len);
        MemLayout { size: size as usize, align: self.align as usize }
    }
}

impl GcStructLayout {
    /// The size and alignment of a struct of this type.
    pub fn layout(&self) -> (r: MemLayout)
        requires
            spec_pow2(self.align),
        ensures
            r == (MemLayout { size: self.size as usize, align: self.align as usize }),
    {
        MemLayout { size: self.size as usize, align: self.align as usize }
    }
}

impl GcExceptionLayout {
    /// The size and alignment of an exception object of this type.
    pub fn layout(&self) -> (r: MemLayout)
        requires
            spec_pow2(self.align),
        ensures
            r == (MemLayout { size: self.size as usize, align: self.align as usize }),
    {
        MemLayout { size: self.size as usize, align: self.align as usize }
    }
}

/// How a collector lays out GC-managed objects.
pub trait GcTypeLayouts {
    /// The offset of an array's length field, the same for every array in
    /// the heap.
    fn array_length_field_offset(&self) -> u32;

    /// This collector's layout for the given array type.
    fn array_layout(&self, ty: &WasmArrayType) -> GcArrayLayout;

    /// This collector's layout for the given struct type.
    fn struct_layout(&self, ty: &WasmStructType) -> GcStructLayout;

    /// This collector's layout for the given exception type.
    fn exn_layout(&self, ty: &WasmExnType) -> GcExceptionLayout;

    /// This collector's layout for the given composite type, or nothing for
    /// a function type, which the GC does not manage.
    fn gc_layout(&self, ty: &WasmCompositeType) -> (r: Option<GcLayout>)
        requires
            !ty.shared,
            !(ty.inner is Cont),
        ensures
            r is Some <==> !(ty.inner is Func),
    {
        match &ty.inner {
            WasmCompositeInnerType::Array(a) => Some(GcLayout::Array(self.array_layout(a))),
            WasmCompositeInnerType::Struct(s) => Some(GcLayout::Struct(self.struct_layout(s))),
            WasmCompositeInnerType::Func => None,
            WasmCompositeInnerType::Cont => {
                proof {
                    assert(false);
                }
                None
            },
            WasmCompositeInnerType::Exn(e) => Some(GcLayout::Exception(self.exn_layout(e))),
        }
    }
}

/// The kind of an object in a GC heap: a bitset in the highest six bits of
/// a `u32`, arranged so that `a` is a subtype of `b` exactly when
/// `a & b == b`.
#[derive(Clone, Copy, Debug, PartialEq, Eq, Structural)]
pub enum VMGcKind {
    ExternRef,
    AnyRef,
    EqRef,
    ArrayRef,
    StructRef,
    ExnRef,
}

/// The bits that [`VMGcKind`] uses: the highest six of a `u32`.
pub const VM_GC_KIND_MASK: u32 = 0xfc00_0000;

/// The bits that [`VMGcKind`] leaves free: the lowest twenty-six of a
/// `u32`.
pub const VM_GC_KIND_UNUSED_MASK: u32 = 0x03ff_ffff;

/// The raw bits of a kind.
pub open spec fn spec_kind_bits(k: VMGcKind) -> u32 {
    match k {
        VMGcKind::ExternRef => 0x4000_0000,
        VMGcKind::AnyRef => 0x8000_0000,
        VMGcKind::EqRef => 0xa000_0000,
        VMGcKind::ArrayRef => 0xa800_0000,
        VMGcKind::StructRef => 0xb000_0000,
        VMGcKind::ExnRef => 0x0400_0000,
    }
}

impl VMGcKind {
    /// Whether `value` fits in the bits a kind leaves free.
    pub fn value_fits_in_unused_bits(value: u32) -> (r: bool)
        ensures
            r == (value & VM_GC_KIND_UNUSED_MASK == value),
    {
        (value & VM_GC_KIND_UNUSED_MASK) == value
    }

    /// Read a kind out of the high bits of `val`, which must hold one.
    pub fn from_high_bits_of_u32(val: u32) -> (r: VMGcKind)
        requires
            exists|k: VMGcKind| spec_kind_bits(k) == val & VM_GC_KIND_MASK,
        ensures
            spec_kind_bits(r) == val & VM_GC_KIND_MASK,
    {
        let masked = val & VM_GC_KIND_MASK;
        if masked == 0x4000_0000 {
            VMGcKind::ExternRef
        } else if masked == 0x8000_0000 {
            VMGcKind::AnyRef
        } else if masked == 0xa000_0000 {
            VMGcKind::EqRef
        } else if masked == 0xa800_0000 {
            VMGcKind::ArrayRef
        } else if masked == 0xb000_0000 {
            VMGcKind::StructRef
        } else if masked == 0x0400_0000 {
            VMGcKind::ExnRef
        } else {
            proof {
                let k = choose|k: VMGcKind| spec_kind_bits(k) == val & VM_GC_KIND_MASK;
                assert(false);
            }
            VMGcKind::ExternRef
        }
    }

    /// Whether this kind is a subtype of `other`.
    pub fn matches(self, other: Self) -> (r: bool)
        ensures
            r == (spec_kind_bits(self) & spec_kind_bits(other) == spec_kind_bits(other)),
    {
        (self.as_u32() & other.as_u32()) == other.as_u32()
    }

    /// This kind as its raw bits.
    pub fn as_u32(self) -> (r: u32)
        ensures
            r == spec_kind_bits(self),
    {
        match self {
            VMGcKind::ExternRef => 0x4000_0000,
            VMGcKind::AnyRef => 0x8000_0000,
            VMGcKind::EqRef => 0xa000_0000,
            VMGcKind::ArrayRef => 0xa800_0000,
            VMGcKind::StructRef => 0xb000_0000,
            VMGcKind::ExnRef => 0x0400_0000,
        }
    }
}

} // verus!
