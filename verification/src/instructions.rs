//! The table of x64 instructions defined with the DSL.

pub mod and;

use vstd::prelude::*;
use crate::dsl::Inst;

verus! {

/// Every instruction known to the assembler.
pub fn list() -> (r: Vec<Inst>)
    ensures
        and::and_table(r@),
{
    and::list()
}

} // verus!
