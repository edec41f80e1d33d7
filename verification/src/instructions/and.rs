//! The `AND` family, in each of its accumulator-immediate,
//! memory-immediate, memory-register and register-memory forms.

use vstd::prelude::*;
use crate::dsl::encoding::{inst, rex, Encoding, Inst, LegacyPrefixes, Rex};
use crate::dsl::format::{fmt, r, rw, sxl, sxq, Extension, Location, Mutability, Operand};

verus! {

/// The `AND` instruction definitions.
pub fn list() -> (res: Vec<Inst>)
    ensures
        and_table(res@),
{
    let mut out: Vec<Inst> = Vec::new();
    out.push(
        inst("andb", fmt("I", vec![rw(Location::al), r(Location::imm8)]), rex(0x24).ib(), None),
    );
    out.push(
        inst(
            "andw",
            fmt("I", vec![rw(Location::ax), r(Location::imm16)]),
            rex(0x25).prefix(LegacyPrefixes::_66).iw(),
            None,
        ),
    );
    out.push(
        inst("andl", fmt("I", vec![rw(Location::eax), r(Location::imm32)]), rex(0x25).id(), None),
    );
    out.push(
        inst(
            "andq",
            fmt("I_SX", vec![rw(Location::rax), sxq(Location::imm32)]),
            rex(0x25).w().id(),
            None,
        ),
    );
    out.push(
        inst(
            "andb",
            fmt("MI", vec![rw(Location::rm8), r(Location::imm8)]),
            rex(0x80).digit(4).ib(),
            None,
        ),
    );
    out.push(
        inst(
            "andw",
            fmt("MI", vec![rw(Location::rm16), r(Location::imm16)]),
            rex(0x81).prefix(LegacyPrefixes::_66).digit(4).iw(),
            None,
        ),
    );
    out.push(
        inst(
            "andl",
            fmt("MI", vec![rw(Location::rm32), r(Location::imm32)]),
            rex(0x81).digit(4).id(),
            None,
        ),
    );
    out.push(
        inst(
            "andq",
            fmt("MI_SX", vec![rw(Location::rm64), sxq(Location::imm32)]),
            rex(0x81).w().digit(4).id(),
            None,
        ),
    );
    out.push(
        inst(
            "andl",
            fmt("MI_SX", vec![rw(Location::rm32), sxl(Location::imm8)]),
            rex(0x83).digit(4).ib(),
            None,
        ),
    );
    out.push(
        inst(
            "andq",
            fmt("MI_SXB", vec![rw(Location::rm64), sxq(Location::imm8)]),
            rex(0x83).w().digit(4).ib(),
            None,
        ),
    );
    out.push(
        inst("andb", fmt("MR", vec![rw(Location::rm8), r(Location::r8)]), rex(0x20).r(), None),
    );
    out.push(
        inst(
            "andb",
            fmt("MR_SX", vec![rw(Location::rm8), r(Location::r8)]),
            rex(0x20).w().r(),
            None,
        ),
    );
    out.push(
        inst(
            "andw",
            fmt("MR", vec![rw(Location::rm16), r(Location::r16)]),
            rex(0x21).prefix(LegacyPrefixes::_66).r(),
            None,
        ),
    );
    out.push(
        inst("andl", fmt("MR", vec![rw(Location::rm32), r(Location::r32)]), rex(0x21).r(), None),
    );
    out.push(
        inst(
            "andq",
            fmt("MR", vec![rw(Location::rm64), r(Location::r64)]),
            rex(0x21).w().r(),
            None,
        ),
    );
    out.push(
        inst("andb", fmt("RM", vec![rw(Location::r8), r(Location::rm8)]), rex(0x22).r(), None),
    );
    out.push(
        inst(
            "andb",
            fmt("RM_SX", vec![rw(Location::r8), r(Location::rm8)]),
            rex(0x22).w().r(),
            None,
        ),
    );
    out.push(
        inst(
            "andw",
            fmt("RM", vec![rw(Location::r16), r(Location::rm16)]),
            rex(0x23).prefix(LegacyPrefixes::_66).r(),
            None,
        ),
    );
    out.push(
        inst("andl", fmt("RM", vec![rw(Location::r32), r(Location::rm32)]), rex(0x23).r(), None),
    );
    out.push(
        inst(
            "andq",
            fmt("RM", vec![rw(Location::r64), r(Location::rm64)]),
            rex(0x23).w().r(),
            None,
        ),
    );
    out
}

} // verus!

verus! {

/// Whether one table entry is exactly the given definition: the mnemonic,
/// the named operand list, the REX recipe, and no feature requirement.
pub open spec fn table_entry(
    i: Inst,
    name: Seq<char>,
    format_name: Seq<char>,
    ops: Seq<Operand>,
    recipe: Rex,
) -> bool {
    &&& i.name@ == name
    &&& i.format.name@ == format_name
    &&& i.format.operands@ == ops
    &&& i.encoding == Encoding::Rex(recipe)
    &&& i.features is Always
}

/// The whole `AND` table, entry by entry.
pub open spec fn and_table(s: Seq<Inst>) -> bool {
    &&& s.len() == 20
    &&& table_entry(
        s[0],
        "andb"@,
        "I"@,
        seq![
            Operand { location: Location::al, mutability: Mutability::ReadWrite, extension: Extension::NoExtend },
            Operand { location: Location::imm8, mutability: Mutability::Read, extension: Extension::NoExtend },
        ],
        Rex {
            prefixes: LegacyPrefixes::NoPrefix,
            opcode: 0x24,
            w: false,
            digit: None,
            imm: Some(1u8),
            r: false,
        },
    )
    &&& table_entry(
        s[1],
        "andw"@,
        "I"@,
        seq![
            Operand { location: Location::ax, mutability: Mutability::ReadWrite, extension: Extension::NoExtend },
            Operand { location: Location::imm16, mutability: Mutability::Read, extension: Extension::NoExtend },
        ],
        Rex {
            prefixes: LegacyPrefixes::_66,
            opcode: 0x25,
            w: false,
            digit: None,
            imm: Some(2u8),
            r: false,
        },
    )
    &&& table_entry(
        s[2],
        "andl"@,
        "I"@,
        seq![
            Operand { location: Location::eax, mutability: Mutability::ReadWrite, extension: Extension::NoExtend },
            Operand { location: Location::imm32, mutability: Mutability::Read, extension: Extension::NoExtend },
        ],
        Rex {
            prefixes: LegacyPrefixes::NoPrefix,
            opcode: 0x25,
            w: false,
            digit: None,
            imm: Some(4u8),
            r: false,
        },
    )
    &&& table_entry(
        s[3],
        "andq"@,
        "I_SX"@,
        seq![
            Operand { location: Location::rax, mutability: Mutability::ReadWrite, extension: Extension::NoExtend },
            Operand { location: Location::imm32, mutability: Mutability::Read, extension: Extension::SignExtendQuad },
        ],
        Rex {
            prefixes: LegacyPrefixes::NoPrefix,
            opcode: 0x25,
            w: true,
            digit: None,
            imm: Some(4u8),
            r: false,
        },
    )
    &&& table_entry(
        s[4],
        "andb"@,
        "MI"@,
        seq![
            Operand { location: Location::rm8, mutability: Mutability::ReadWrite, extension: Extension::NoExtend },
            Operand { location: Location::imm8, mutability: Mutability::Read, extension: Extension::NoExtend },
        ],
        Rex {
            prefixes: LegacyPrefixes::NoPrefix,
            opcode: 0x80,
            w: false,
            digit: Some(4u8),
            imm: Some(1u8),
            r: false,
        },
    )
    &&& table_entry(
        s[5],
        "andw"@,
        "MI"@,
        seq![
            Operand { location: Location::rm16, mutability: Mutability::ReadWrite, extension: Extension::NoExtend },
            Operand { location: Location::imm16, mutability: Mutability::Read, extension: Extension::NoExtend },
        ],
        Rex {
            prefixes: LegacyPrefixes::_66,
            opcode: 0x81,
            w: false,
            digit: Some(4u8),
            imm: Some(2u8),
            r: false,
        },
    )
    &&& table_entry(
        s[6],
        "andl"@,
        "MI"@,
        seq![
            Operand { location: Location::rm32, mutability: Mutability::ReadWrite, extension: Extension::NoExtend },
            Operand { location: Location::imm32, mutability: Mutability::Read, extension: Extension::NoExtend },
        ],
        Rex {
            prefixes: LegacyPrefixes::NoPrefix,
            opcode: 0x81,
            w: false,
            digit: Some(4u8),
            imm: Some(4u8),
            r: false,
        },
    )
    &&& table_entry(
        s[7],
        "andq"@,
        "MI_SX"@,
        seq![
            Operand { location: Location::rm64, mutability: Mutability::ReadWrite, extension: Extension::NoExtend },
            Operand { location: Location::imm32, mutability: Mutability::Read, extension: Extension::SignExtendQuad },
        ],
        Rex {
            prefixes: LegacyPrefixes::NoPrefix,
            opcode: 0x81,
            w: true,
            digit: Some(4u8),
            imm: Some(4u8),
            r: false,
        },
    )
    &&& table_entry(
        s[8],
        "andl"@,
        "MI_SX"@,
        seq![
            Operand { location: Location::rm32, mutability: Mutability::ReadWrite, extension: Extension::NoExtend },
            Operand { location: Location::imm8, mutability: Mutability::Read, extension: Extension::SignExtendLong },
        ],
        Rex {
            prefixes: LegacyPrefixes::NoPrefix,
            opcode: 0x83,
            w: false,
            digit: Some(4u8),
            imm: Some(1u8),
            r: false,
        },
    )
    &&& table_entry(
        s[9],
        "andq"@,
        "MI_SXB"@,
        seq![
            Operand { location: Location::rm64, mutability: Mutability::ReadWrite, extension: Extension::NoExtend },
            Operand { location: Location::imm8, mutability: Mutability::Read, extension: Extension::SignExtendQuad },
        ],
        Rex {
            prefixes: LegacyPrefixes::NoPrefix,
            opcode: 0x83,
            w: true,
            digit: Some(4u8),
            imm: Some(1u8),
            r: false,
        },
    )
    &&& table_entry(
        s[10],
        "andb"@,
        "MR"@,
        seq![
            Operand { location: Location::rm8, mutability: Mutability::ReadWrite, extension: Extension::NoExtend },
            Operand { location: Location::r8, mutability: Mutability::Read, extension: Extension::NoExtend },
        ],
        Rex {
            prefixes: LegacyPrefixes::NoPrefix,
            opcode: 0x20,
            w: false,
            digit: None,
            imm: None,
            r: true,
        },
    )
    &&& table_entry(
        s[11],
        "andb"@,
        "MR_SX"@,
        seq![
            Operand { location: Location::rm8, mutability: Mutability::ReadWrite, extension: Extension::NoExtend },
            Operand { location: Location::r8, mutability: Mutability::Read, extension: Extension::NoExtend },
        ],
        Rex {
            prefixes: LegacyPrefixes::NoPrefix,
            opcode: 0x20,
            w: true,
            digit: None,
            imm: None,
            r: true,
        },
    )
    &&& table_entry(
        s[12],
        "andw"@,
        "MR"@,
        seq![
            Operand { location: Location::rm16, mutability: Mutability::ReadWrite, extension: Extension::NoExtend },
            Operand { location: Location::r16, mutability: Mutability::Read, extension: Extension::NoExtend },
        ],
        Rex {
            prefixes: LegacyPrefixes::_66,
            opcode: 0x21,
            w: false,
            digit: None,
            imm: None,
            r: true,
        },
    )
    &&& table_entry(
        s[13],
        "andl"@,
        "MR"@,
        seq![
            Operand { location: Location::rm32, mutability: Mutability::ReadWrite, extension: Extension::NoExtend },
            Operand { location: Location::r32, mutability: Mutability::Read, extension: Extension::NoExtend },
        ],
        Rex {
            prefixes: LegacyPrefixes::NoPrefix,
            opcode: 0x21,
            w: false,
            digit: None,
            imm: None,
            r: true,
        },
    )
    &&& table_entry(
        s[14],
        "andq"@,
        "MR"@,
        seq![
            Operand { location: Location::rm64, mutability: Mutability::ReadWrite, extension: Extension::NoExtend },
            Operand { location: Location::r64, mutability: Mutability::Read, extension: Extension::NoExtend },
        ],
        Rex {
            prefixes: LegacyPrefixes::NoPrefix,
            opcode: 0x21,
            w: true,
            digit: None,
            imm: None,
            r: true,
        },
    )
    &&& table_entry(
        s[15],
        "andb"@,
        "RM"@,
        seq![
            Operand { location: Location::r8, mutability: Mutability::ReadWrite, extension: Extension::NoExtend },
            Operand { location: Location::rm8, mutability: Mutability::Read, extension: Extension::NoExtend },
        ],
        Rex {
            prefixes: LegacyPrefixes::NoPrefix,
            opcode: 0x22,
            w: false,
            digit: None,
            imm: None,
            r: true,
        },
    )
    &&& table_entry(
        s[16],
        "andb"@,
        "RM_SX"@,
        seq![
            Operand { location: Location::r8, mutability: Mutability::ReadWrite, extension: Extension::NoExtend },
            Operand { location: Location::rm8, mutability: Mutability::Read, extension: Extension::NoExtend },
        ],
        Rex {
            prefixes: LegacyPrefixes::NoPrefix,
            opcode: 0x22,
            w: true,
            digit: None,
            imm: None,
            r: true,
        },
    )
    &&& table_entry(
        s[17],
        "andw"@,
        "RM"@,
        seq![
            Operand { location: Location::r16, mutability: Mutability::ReadWrite, extension: Extension::NoExtend },
            Operand { location: Location::rm16, mutability: Mutability::Read, extension: Extension::NoExtend },
        ],
        Rex {
            prefixes: LegacyPrefixes::_66,
            opcode: 0x23,
            w: false,
            digit: None,
            imm: None,
            r: true,
        },
    )
    &&& table_entry(
        s[18],
        "andl"@,
        "RM"@,
        seq![
            Operand { location: Location::r32, mutability: Mutability::ReadWrite, extension: Extension::NoExtend },
            Operand { location: Location::rm32, mutability: Mutability::Read, extension: Extension::NoExtend },
        ],
        Rex {
            prefixes: LegacyPrefixes::NoPrefix,
            opcode: 0x23,
            w: false,
            digit: None,
            imm: None,
            r: true,
        },
    )
    &&& table_entry(
        s[19],
        "andq"@,
        "RM"@,
        seq![
            Operand { location: Location::r64, mutability: Mutability::ReadWrite, extension: Extension::NoExtend },
            Operand { location: Location::rm64, mutability: Mutability::Read, extension: Extension::NoExtend },
        ],
        Rex {
            prefixes: LegacyPrefixes::NoPrefix,
            opcode: 0x23,
            w: true,
            digit: None,
            imm: None,
            r: true,
        },
    )
}

} // verus!

verus! {

/// Every entry of the `AND` table is emittable: its operand shape is one
/// of the four the generator covers, a register-or-memory destination
/// paired with an immediate carries its opcode-extension digit, and no
/// feature tree is oversized.
pub proof fn lemma_and_table_emittable(s: Seq<Inst>)
    requires
        and_table(s),
    ensures
        crate::generate::table_emittable(s),
{
    assert forall|j: int| 0 <= j < s.len() implies {
        &&& crate::generate::format::spec_shape(#[trigger] s[j].format.operands@)
            != crate::generate::format::RexShape::Other
        &&& (crate::generate::format::spec_shape(s[j].format.operands@)
            == crate::generate::format::RexShape::RegMemImm ==> (s[j].encoding matches
            Encoding::Rex(rex) && rex.digit is Some))
        &&& crate::generate::features::feat_count(s[j].features) < 0x1000
    } by {
        if j == 0 {
            assert(crate::generate::format::spec_shape(s[0].format.operands@)
                == crate::generate::format::RexShape::FixedRegImm);
            assert(crate::generate::features::feat_count(s[0].features) == 0);
        } else if j == 1 {
            assert(crate::generate::format::spec_shape(s[1].format.operands@)
                == crate::generate::format::RexShape::FixedRegImm);
            assert(crate::generate::features::feat_count(s[1].features) == 0);
        } else if j == 2 {
            assert(crate::generate::format::spec_shape(s[2].format.operands@)
                == crate::generate::format::RexShape::FixedRegImm);
            assert(crate::generate::features::feat_count(s[2].features) == 0);
        } else if j == 3 {
            assert(crate::generate::format::spec_shape(s[3].format.operands@)
                == crate::generate::format::RexShape::FixedRegImm);
            assert(crate::generate::features::feat_count(s[3].features) == 0);
        } else if j == 4 {
            assert(crate::generate::format::spec_shape(s[4].format.operands@)
                == crate::generate::format::RexShape::RegMemImm);
            assert(crate::generate::features::feat_count(s[4].features) == 0);
        } else if j == 5 {
            assert(crate::generate::format::spec_shape(s[5].format.operands@)
                == crate::generate::format::RexShape::RegMemImm);
            assert(crate::generate::features::feat_count(s[5].features) == 0);
        } else if j == 6 {
            assert(crate::generate::format::spec_shape(s[6].format.operands@)
                == crate::generate::format::RexShape::RegMemImm);
            assert(crate::generate::features::feat_count(s[6].features) == 0);
        } else if j == 7 {
            assert(crate::generate::format::spec_shape(s[7].format.operands@)
                == crate::generate::format::RexShape::RegMemImm);
            assert(crate::generate::features::feat_count(s[7].features) == 0);
        } else if j == 8 {
            assert(crate::generate::format::spec_shape(s[8].format.operands@)
                == crate::generate::format::RexShape::RegMemImm);
            assert(crate::generate::features::feat_count(s[8].features) == 0);
        } else if j == 9 {
            assert(crate::generate::format::spec_shape(s[9].format.operands@)
                == crate::generate::format::RexShape::RegMemImm);
            assert(crate::generate::features::feat_count(s[9].features) == 0);
        } else if j == 10 {
            assert(crate::generate::format::spec_shape(s[10].format.operands@)
                == crate::generate::format::RexShape::RegMemReg);
            assert(crate::generate::features::feat_count(s[10].features) == 0);
        } else if j == 11 {
            assert(crate::generate::format::spec_shape(s[11].format.operands@)
                == crate::generate::format::RexShape::RegMemReg);
            assert(crate::generate::features::feat_count(s[11].features) == 0);
        } else if j == 12 {
            assert(crate::generate::format::spec_shape(s[12].format.operands@)
                == crate::generate::format::RexShape::RegMemReg);
            assert(crate::generate::features::feat_count(s[12].features) == 0);
        } else if j == 13 {
            assert(crate::generate::format::spec_shape(s[13].format.operands@)
                == crate::generate::format::RexShape::RegMemReg);
            assert(crate::generate::features::feat_count(s[13].features) == 0);
        } else if j == 14 {
            assert(crate::generate::format::spec_shape(s[14].format.operands@)
                == crate::generate::format::RexShape::RegMemReg);
            assert(crate::generate::features::feat_count(s[14].features) == 0);
        } else if j == 15 {
            assert(crate::generate::format::spec_shape(s[15].format.operands@)
                == crate::generate::format::RexShape::RegRegMem);
            assert(crate::generate::features::feat_count(s[15].features) == 0);
        } else if j == 16 {
            assert(crate::generate::format::spec_shape(s[16].format.operands@)
                == crate::generate::format::RexShape::RegRegMem);
            assert(crate::generate::features::feat_count(s[16].features) == 0);
        } else if j == 17 {
            assert(crate::generate::format::spec_shape(s[17].format.operands@)
                == crate::generate::format::RexShape::RegRegMem);
            assert(crate::generate::features::feat_count(s[17].features) == 0);
        } else if j == 18 {
            assert(crate::generate::format::spec_shape(s[18].format.operands@)
                == crate::generate::format::RexShape::RegRegMem);
            assert(crate::generate::features::feat_count(s[18].features) == 0);
        } else if j == 19 {
            assert(crate::generate::format::spec_shape(s[19].format.operands@)
                == crate::generate::format::RexShape::RegRegMem);
            assert(crate::generate::features::feat_count(s[19].features) == 0);
        }
    }
}

} // verus!
