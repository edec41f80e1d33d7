//! The traits that a user of this assembler must implement, and a convenience
//! buffer implementation.

use vstd::prelude::*;

verus! {

/// The two little-endian bytes of `v`.
pub open spec fn le2(v: u16) -> Seq<u8> {
    seq![(v & 0xff) as u8, (v >> 8) as u8]
}

/// The four little-endian bytes of `v`.
pub open spec fn le4(v: u32) -> Seq<u8> {
    seq![
        (v & 0xff) as u8,
        ((v >> 8) & 0xff) as u8,
        ((v >> 16) & 0xff) as u8,
        (v >> 24) as u8,
    ]
}

/// The eight little-endian bytes of `v`.
pub open spec fn le8(v: u64) -> Seq<u8> {
    seq![
        (v & 0xff) as u8,
        ((v >> 8) & 0xff) as u8,
        ((v >> 16) & 0xff) as u8,
        ((v >> 24) & 0xff) as u8,
        ((v >> 32) & 0xff) as u8,
        ((v >> 40) & 0xff) as u8,
        ((v >> 48) & 0xff) as u8,
        (v >> 56) as u8,
    ]
}

/// A label in the caller's code buffer; the assembler only records uses of it.
#[derive(Clone, Copy, Debug, PartialEq, Eq, Structural)]
pub struct Label(pub u32);

/// A trap code registered just before the byte of an instruction that may
/// access memory. The code itself is opaque to the assembler.
#[derive(Clone, Copy, Debug, PartialEq, Eq, Structural)]
pub struct TrapCode(pub u8);

/// A unique identifier for an offset known only at emission time.
pub type KnownOffset = usize;

/// A table mapping `KnownOffset` identifiers to their `i32` offset values.
///
/// When building an instruction the caller may not yet know certain
/// displacement components (the incoming-argument area, the spill-slot area);
/// it stores a `KnownOffset` key instead and supplies this table at encode
/// time.
pub trait KnownOffsetTable: Sized {
    /// The table contents: the value of each known offset.
    spec fn offsets(&self) -> Seq<i32>;

    /// Look up the value of the known offset `k`.
    fn index(&self, k: KnownOffset) -> (r: i32)
        requires
            k < self.offsets().len(),
        ensures
            r == self.offsets()[k as int],
    ;
}

impl KnownOffsetTable for Vec<i32> {
    open spec fn offsets(&self) -> Seq<i32> {
        self@
    }

    fn index(&self, k: KnownOffset) -> (r: i32) {
        self[k]
    }
}

/// The encoder's output channel.
///
/// A sink records three kinds of events: bytes appended to the code section,
/// trap registrations, and label uses. The specification exposes all three as
/// sequences so that callers can state exactly which events an encoder
/// produces and in which order; a trap registration and a label use each
/// remember the byte offset current when they were recorded.
pub trait CodeSink: Sized {
    /// The bytes of the code section so far.
    spec fn bytes(&self) -> Seq<u8>;

    /// Every trap registered so far, with the byte offset at registration.
    spec fn traps(&self) -> Seq<(u32, TrapCode)>;

    /// Every label use recorded so far, with the offset passed by the caller.
    spec fn label_uses(&self) -> Seq<(u32, Label)>;

    /// Add 1 byte to the code section.
    fn put1(&mut self, v: u8)
        requires
            old(self).bytes().len() < 0xffff_ffff,
        ensures
            final(self).bytes() == old(self).bytes().push(v),
            final(self).traps() == old(self).traps(),
            final(self).label_uses() == old(self).label_uses(),
    ;

    /// Add 2 bytes, little-endian, to the code section.
    fn put2(&mut self, v: u16)
        requires
            old(self).bytes().len() + 2 <= 0xffff_ffff,
        ensures
            final(self).bytes() == old(self).bytes() + le2(v),
            final(self).traps() == old(self).traps(),
            final(self).label_uses() == old(self).label_uses(),
    ;

    /// Add 4 bytes, little-endian, to the code section.
    fn put4(&mut self, v: u32)
        requires
            old(self).bytes().len() + 4 <= 0xffff_ffff,
        ensures
            final(self).bytes() == old(self).bytes() + le4(v),
            final(self).traps() == old(self).traps(),
            final(self).label_uses() == old(self).label_uses(),
    ;

    /// Add 8 bytes, little-endian, to the code section.
    fn put8(&mut self, v: u64)
        requires
            old(self).bytes().len() + 8 <= 0xffff_ffff,
        ensures
            final(self).bytes() == old(self).bytes() + le8(v),
            final(self).traps() == old(self).traps(),
            final(self).label_uses() == old(self).label_uses(),
    ;

    /// The offset at which the next byte will land.
    fn cur_offset(&self) -> (r: u32)
        requires
            self.bytes().len() <= 0xffff_ffff,
        ensures
            r == self.bytes().len(),
    ;

    /// Record that the 4-byte field starting at `offset` refers to `label`.
    fn use_label_at_offset(&mut self, offset: u32, label: Label)
        ensures
            final(self).bytes() == old(self).bytes(),
            final(self).traps() == old(self).traps(),
            final(self).label_uses() == old(self).label_uses().push((offset, label)),
    ;

    /// Register a trap at the current byte offset.
    fn add_trap(&mut self, code: TrapCode)
        requires
            old(self).bytes().len() <= 0xffff_ffff,
        ensures
            final(self).bytes() == old(self).bytes(),
            final(self).traps() == old(self).traps().push(
                ((old(self).bytes().len() as u32), code),
            ),
            final(self).label_uses() == old(self).label_uses(),
    ;
}

/// A convenience implementation of [`CodeSink`] over growable buffers.
pub struct ByteBuffer {
    /// The code section.
    pub bytes: Vec<u8>,
    /// The registered traps, each with the offset at registration.
    pub traps: Vec<(u32, TrapCode)>,
    /// The recorded label uses.
    pub label_uses: Vec<(u32, Label)>,
}

impl ByteBuffer {
    /// An empty buffer.
    pub fn new() -> (r: ByteBuffer)
        ensures
            r.bytes() == Seq::<u8>::empty(),
            r.traps() == Seq::<(u32, TrapCode)>::empty(),
            r.label_uses() == Seq::<(u32, Label)>::empty(),
    {
        ByteBuffer { bytes: Vec::new(), traps: Vec::new(), label_uses: Vec::new() }
    }
}

impl CodeSink for ByteBuffer {
    open spec fn bytes(&self) -> Seq<u8> {
        self.bytes@
    }

    open spec fn traps(&self) -> Seq<(u32, TrapCode)> {
        self.traps@
    }

    open spec fn label_uses(&self) -> Seq<(u32, Label)> {
        self.label_uses@
    }

    fn put1(&mut self, v: u8) {
        self.bytes.push(v);
    }

    fn put2(&mut self, v: u16) {
        let lo: u8 = (v & 0xff) as u8;
        let hi: u8 = (v >> 8) as u8;
        self.bytes.push(lo);
        self.bytes.push(hi);
        proof {
            assert(self.bytes@ =~= old(self).bytes@ + le2(v));
        }
    }

    fn put4(&mut self, v: u32) {
        let b0: u8 = (v & 0xff) as u8;
        let b1: u8 = ((v >> 8) & 0xff) as u8;
        let b2: u8 = ((v >> 16) & 0xff) as u8;
        let b3: u8 = (v >> 24) as u8;
        self.bytes.push(b0);
        self.bytes.push(b1);
        self.bytes.push(b2);
        self.bytes.push(b3);
        proof {
            assert(self.bytes@ =~= old(self).bytes@ + le4(v));
        }
    }

    fn put8(&mut self, v: u64) {
        let b0: u8 = (v & 0xff) as u8;
        let b1: u8 = ((v >> 8) & 0xff) as u8;
        let b2: u8 = ((v >> 16) & 0xff) as u8;
        let b3: u8 = ((v >> 24) & 0xff) as u8;
        let b4: u8 = ((v >> 32) & 0xff) as u8;
        let b5: u8 = ((v >> 40) & 0xff) as u8;
        let b6: u8 = ((v >> 48) & 0xff) as u8;
        let b7: u8 = (v >> 56) as u8;
        self.bytes.push(b0);
        self.bytes.push(b1);
        self.bytes.push(b2);
        self.bytes.push(b3);
        self.bytes.push(b4);
        self.bytes.push(b5);
        self.bytes.push(b6);
        self.bytes.push(b7);
        proof {
            assert(self.bytes@ =~= old(self).bytes@ + le8(v));
        }
    }

    fn cur_offset(&self) -> (r: u32) {
        self.bytes.len() as u32
    }

    fn use_label_at_offset(&mut self, offset: u32, label: Label) {
        self.label_uses.push((offset, label));
    }

    fn add_trap(&mut self, code: TrapCode) {
        let offset: u32 = self.bytes.len() as u32;
        self.traps.push((offset, code));
    }
}

} // verus!
