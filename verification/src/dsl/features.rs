//! CPU-feature requirements as a boolean tree over feature flags.

use vstd::prelude::*;
use vstd::string::StringExecFns;

verus! {

/// One CPU feature flag.
#[derive(Clone, Copy, Debug, PartialEq, Eq, Structural)]
pub enum Flag {
    /// 64-bit mode.
    _64b,
    /// Compatibility mode.
    compat,
}

/// A feature requirement: a boolean tree over flags. `Always` requires
/// nothing.
#[derive(Debug)]
pub enum Features {
    Always,
    Flag(Flag),
    And(Box<Features>, Box<Features>),
    Or(Box<Features>, Box<Features>),
}

/// Whether a feature tree mentions any flag at all.
pub open spec fn spec_contains_flag(f: Features) -> bool
    decreases f,
{
    match f {
        Features::Always => false,
        Features::Flag(_) => true,
        Features::And(lhs, rhs) => spec_contains_flag(*lhs) || spec_contains_flag(*rhs),
        Features::Or(lhs, rhs) => spec_contains_flag(*lhs) || spec_contains_flag(*rhs),
    }
}

/// The displayed text of a flag.
pub open spec fn flag_text(f: Flag) -> Seq<char> {
    match f {
        Flag::_64b => "64-bit"@,
        Flag::compat => "compat"@,
    }
}

/// The displayed text of a feature tree.
pub open spec fn features_text(f: Features) -> Seq<char>
    decreases f,
{
    match f {
        Features::Always => Seq::<char>::empty(),
        Features::Flag(flag) => flag_text(flag),
        Features::And(lhs, rhs) => features_text(*lhs) + " & "@ + features_text(*rhs),
        Features::Or(lhs, rhs) => features_text(*lhs) + " | "@ + features_text(*rhs),
    }
}

impl Features {
    /// Whether this requirement mentions any flag at all.
    pub fn contains_flag(&self) -> (r: bool)
        ensures
            r == spec_contains_flag(*self),
        decreases *self,
    {
        match self {
            Features::Always => false,
            Features::Flag(_) => true,
            Features::And(lhs, rhs) => lhs.contains_flag() || rhs.contains_flag(),
            Features::Or(lhs, rhs) => lhs.contains_flag() || rhs.contains_flag(),
        }
    }

    /// The displayed text of this requirement.
    pub fn to_string(&self) -> (r: String)
        ensures
            r@ == features_text(*self),
        decreases *self,
    {
        match self {
            Features::Always => String::new(),
            Features::Flag(flag) => {
                let mut s = String::new();
                match flag {
                    Flag::_64b => s.append("64-bit"),
                    Flag::compat => s.append("compat"),
                }
                s
            },
            Features::And(lhs, rhs) => {
                let mut s = lhs.to_string();
                s.append(" & ");
                let r = rhs.to_string();
                s.append(r.as_str());
                s
            },
            Features::Or(lhs, rhs) => {
                let mut s = lhs.to_string();
                s.append(" | ");
                let r = rhs.to_string();
                s.append(r.as_str());
                s
            },
        }
    }
}

impl From<Flag> for Features {
    /// A requirement of exactly one flag.
    fn from(flag: Flag) -> (r: Self) {
        Features::Flag(flag)
    }
}

impl vstd::std_specs::convert::FromSpecImpl<Flag> for Features {
    open spec fn obeys_from_spec() -> bool {
        true
    }

    open spec fn from_spec(flag: Flag) -> Self {
        Features::Flag(flag)
    }
}

} // verus!
