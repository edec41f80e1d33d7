//! The register scheme and addressing-mode bridge a compiler backend plugs
//! into the assembler.

use vstd::prelude::*;
use crate::imm::{Simm32, Simm32PlusKnownOffset};
use crate::mem::{Amode, Scale};
use crate::reg::{AsReg, Gpr, MinusRsp, ENC_RBP};
use crate::sink::{KnownOffset, Label, TrapCode};
use crate::visit::Registers;

verus! {

/// The late-bound offset key of the incoming-argument area.
pub const KEY_INCOMING_ARG: KnownOffset = 0;

/// The late-bound offset key of the spill-slot area.
pub const KEY_SLOT_OFFSET: KnownOffset = 1;

/// A pair of registers, one for reading and one for writing.
///
/// Until register allocation is complete the two halves may be distinct
/// placeholders; afterwards both carry the same hardware encoding, which is
/// the encoding the instruction is encoded with.
#[derive(Clone, Copy, Debug, PartialEq, Eq, Structural)]
pub struct PairedGpr {
    /// The reading half.
    pub read: u8,
    /// The writing half.
    pub write: u8,
}

impl AsReg for PairedGpr {
    open spec fn spec_enc(&self) -> u8 {
        self.write
    }

    open spec fn enc_ready(&self) -> bool {
        self.read == self.write
    }

    fn new(enc: u8) -> (r: Self) {
        PairedGpr { read: enc, write: enc }
    }

    fn enc(&self) -> (r: u8) {
        self.write
    }
}

/// The register types a compiler backend uses: plain encodings for reads,
/// paired registers for read-writes.
#[derive(Clone, Copy, Debug, PartialEq, Eq, Structural)]
pub struct CraneliftRegisters;

impl Registers for CraneliftRegisters {
    type ReadGpr = u8;

    type ReadWriteGpr = PairedGpr;
}

/// A backend addressing mode whose registers are already hardware
/// encodings.
#[derive(Clone, Copy, Debug, PartialEq, Eq, Structural)]
pub enum BackendAmode {
    /// A base register plus a fixed displacement.
    ImmReg { simm32: i32, base: u8, trap: Option<TrapCode> },
    /// A base register plus a scaled index register and a displacement.
    ImmRegRegShift { simm32: i32, base: u8, index: u8, shift: u8, trap: Option<TrapCode> },
    /// An address resolved through a label.
    RipRelative { target: Label },
}

/// A backend addressing mode that may still refer to areas whose offsets
/// are unknown until emission: the incoming-argument area and the
/// spill-slot area, both reached from the frame pointer.
#[derive(Clone, Copy, Debug, PartialEq, Eq, Structural)]
pub enum SyntheticAmode {
    /// A concrete addressing mode.
    Real(BackendAmode),
    /// `offset` bytes down from the incoming-argument base.
    IncomingArg { offset: u32 },
    /// A slot in the spill area.
    SlotOffset { simm32: i32 },
}

/// The assembler addressing mode a synthetic one lowers to: concrete modes
/// carry over, and the two late-bound areas become frame-pointer-relative
/// displacements with the matching known-offset key.
pub open spec fn spec_lower_amode(a: SyntheticAmode) -> Amode<u8> {
    match a {
        SyntheticAmode::Real(BackendAmode::ImmReg { simm32, base, trap }) => Amode::ImmReg {
            base: Gpr(base),
            simm32: Simm32PlusKnownOffset { simm32: Simm32(simm32), offset: None },
            trap,
        },
        SyntheticAmode::Real(
            BackendAmode::ImmRegRegShift { simm32, base, index, shift, trap },
        ) => Amode::ImmRegRegShift {
            base: Gpr(base),
            index: MinusRsp(index),
            scale: spec_scale(shift),
            simm32: Simm32(simm32),
            trap,
        },
        SyntheticAmode::Real(BackendAmode::RipRelative { target }) => Amode::RipRelative {
            target,
        },
        SyntheticAmode::IncomingArg { offset } => Amode::ImmReg {
            base: Gpr(ENC_RBP),
            simm32: Simm32PlusKnownOffset {
                simm32: Simm32((-(offset as int)) as i32),
                offset: Some(KEY_INCOMING_ARG),
            },
            trap: None,
        },
        SyntheticAmode::SlotOffset { simm32 } => Amode::ImmReg {
            base: Gpr(ENC_RBP),
            simm32: Simm32PlusKnownOffset {
                simm32: Simm32(simm32),
                offset: Some(KEY_SLOT_OFFSET),
            },
            trap: None,
        },
    }
}

/// The scale encoding a shift amount stands for.
pub open spec fn spec_scale(shift: u8) -> Scale {
    if shift == 0 {
        Scale::One
    } else if shift == 1 {
        Scale::Two
    } else if shift == 2 {
        Scale::Four
    } else {
        Scale::Eight
    }
}

impl SyntheticAmode {
    /// Lower this addressing mode for the assembler: the index shift must
    /// be a valid scale and an incoming-argument offset must fit a signed
    /// displacement.
    pub fn to_amode(self) -> (r: Amode<u8>)
        requires
            self matches SyntheticAmode::Real(
                BackendAmode::ImmRegRegShift { shift, .. },
            ) ==> shift < 4,
            self matches SyntheticAmode::IncomingArg { offset } ==> offset <= 0x7fff_ffff,
        ensures
            r == spec_lower_amode(self),
    {
        match self {
            SyntheticAmode::Real(BackendAmode::ImmReg { simm32, base, trap }) => Amode::ImmReg {
                base: Gpr(base),
                simm32: Simm32PlusKnownOffset { simm32: Simm32(simm32), offset: None },
                trap,
            },
            SyntheticAmode::Real(
                BackendAmode::ImmRegRegShift { simm32, base, index, shift, trap },
            ) => Amode::ImmRegRegShift {
                base: Gpr(base),
                index: MinusRsp(index),
                scale: (if shift == 0 {
                    Scale::One
                } else if shift == 1 {
                    Scale::Two
                } else if shift == 2 {
                    Scale::Four
                } else {
                    Scale::Eight
                }),
                simm32: Simm32(simm32),
                trap,
            },
            SyntheticAmode::Real(BackendAmode::RipRelative { target }) => Amode::RipRelative {
                target,
            },
            SyntheticAmode::IncomingArg { offset } => Amode::ImmReg {
                base: Gpr(ENC_RBP),
                simm32: Simm32PlusKnownOffset {
                    simm32: Simm32(-(offset as i32)),
                    offset: Some(KEY_INCOMING_ARG),
                },
                trap: None,
            },
            SyntheticAmode::SlotOffset { simm32 } => Amode::ImmReg {
                base: Gpr(ENC_RBP),
                simm32: Simm32PlusKnownOffset {
                    simm32: Simm32(simm32),
                    offset: Some(KEY_SLOT_OFFSET),
                },
                trap: None,
            },
        }
    }
}

} // verus!
