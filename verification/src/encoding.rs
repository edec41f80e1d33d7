//! The byte-sink interface a code buffer exposes to instruction encoders,
//! in the form the compiler's machine buffer implements: label uses carry a
//! use kind, and traps and label records are the buffer's own business.

use vstd::prelude::*;
use crate::sink::{le2, le4, le8, TrapCode};

verus! {

/// A label in the machine buffer.
#[derive(Clone, Copy, Debug, PartialEq, Eq, Structural)]
pub struct MachLabel(pub u32);

/// How a label use is to be patched.
#[derive(Clone, Copy, Debug, PartialEq, Eq, Structural)]
pub enum LabelUse {
    /// A 32-bit offset relative to the end of the field, as in near jumps.
    JmpRel32,
    /// A 32-bit PC-relative offset, as in RIP-relative addressing.
    PCRel32,
}

/// A place to put encoded bytes. Label uses and traps are recorded however
/// the implementation sees fit; only the byte stream is specified.
pub trait ByteSink: Sized {
    /// The bytes of the code section so far.
    spec fn sink_bytes(&self) -> Seq<u8>;

    /// Add 1 byte to the code section.
    fn put1(&mut self, v: u8)
        requires
            old(self).sink_bytes().len() < 0xffff_ffff,
        ensures
            final(self).sink_bytes() == old(self).sink_bytes().push(v),
    ;

    /// Add 2 bytes, little-endian, to the code section.
    fn put2(&mut self, v: u16)
        requires
            old(self).sink_bytes().len() + 2 <= 0xffff_ffff,
        ensures
            final(self).sink_bytes() == old(self).sink_bytes() + le2(v),
    ;

    /// Add 4 bytes, little-endian, to the code section.
    fn put4(&mut self, v: u32)
        requires
            old(self).sink_bytes().len() + 4 <= 0xffff_ffff,
        ensures
            final(self).sink_bytes() == old(self).sink_bytes() + le4(v),
    ;

    /// Add 8 bytes, little-endian, to the code section.
    fn put8(&mut self, v: u64)
        requires
            old(self).sink_bytes().len() + 8 <= 0xffff_ffff,
        ensures
            final(self).sink_bytes() == old(self).sink_bytes() + le8(v),
    ;

    /// The offset at which the next byte will land.
    fn cur_offset(&self) -> (r: u32)
        requires
            self.sink_bytes().len() <= 0xffff_ffff,
        ensures
            r == self.sink_bytes().len(),
    ;

    /// Record that the field starting at `offset` refers to `label`;
    /// the bytes already written do not change.
    fn use_label_at_offset(&mut self, offset: u32, label: MachLabel, kind: LabelUse)
        ensures
            final(self).sink_bytes() == old(self).sink_bytes(),
    ;

    /// Register a trap for the instruction being encoded; the bytes already
    /// written do not change.
    fn add_trap(&mut self, code: TrapCode)
        ensures
            final(self).sink_bytes() == old(self).sink_bytes(),
    ;
}

/// A convenient implementation for testing: a growable byte buffer that
/// drops label and trap records.
impl ByteSink for Vec<u8> {
    open spec fn sink_bytes(&self) -> Seq<u8> {
        self@
    }

    fn put1(&mut self, v: u8) {
        self.push(v);
    }

    fn put2(&mut self, v: u16) {
        self.push((v & 0xff) as u8);
        self.push((v >> 8) as u8);
        proof {
            assert(self@ =~= old(self)@ + le2(v));
        }
    }

    fn put4(&mut self, v: u32) {
        self.push((v & 0xff) as u8);
        self.push(((v >> 8) & 0xff) as u8);
        self.push(((v >> 16) & 0xff) as u8);
        self.push((v >> 24) as u8);
        proof {
            assert(self@ =~= old(self)@ + le4(v));
        }
    }

    fn put8(&mut self, v: u64)
    {
        self.push((v & 0xff) as u8);
        self.push(((v >> 8) & 0xff) as u8);
        self.push(((v >> 16) & 0xff) as u8);
        self.push(((v >> 24) & 0xff) as u8);
        self.push(((v >> 32) & 0xff) as u8);
        self.push(((v >> 40) & 0xff) as u8);
        self.push(((v >> 48) & 0xff) as u8);
        self.push((v >> 56) as u8);
        proof {
            assert(self@ =~= old(self)@ + le8(v));
        }
    }

    fn cur_offset(&self) -> (r: u32) {
        self.len() as u32
    }

    fn use_label_at_offset(&mut self, _offset: u32, _label: MachLabel, _kind: LabelUse) {
    }

    fn add_trap(&mut self, _code: TrapCode) {
    }
}

} // verus!
