//! Generated code for CPU-feature requirements: the feature enumeration and
//! the boolean expression matching a feature tree.

use vstd::prelude::*;
use vstd::string::StringExecFns;
use crate::dsl::features::{Features, Flag};
use crate::generate::formatter::{line_text, Formatter};
use crate::text::{ascii_view, dec_bytes, into_string, lemma_dec_bytes_ascii, push_dec};

verus! {

/// The number of flag leaves in a feature tree.
pub open spec fn feat_count(f: Features) -> nat
    decreases f,
{
    match f {
        Features::Always => 0,
        Features::Flag(_) => 1,
        Features::And(lhs, rhs) => feat_count(*lhs) + feat_count(*rhs),
        Features::Or(lhs, rhs) => feat_count(*lhs) + feat_count(*rhs),
    }
}

/// The generated boolean expression for a feature tree whose first flag leaf
/// is named `f<n0>`: leaves become term variables, in left-to-right order,
/// and inner nodes become conjunctions and disjunctions, parenthesised
/// except at the root.
pub open spec fn feat_expr(f: Features, n0: nat, parens: bool) -> Seq<char>
    decreases f,
{
    match f {
        Features::Always => "true"@,
        Features::Flag(_) => "f"@ + ascii_view(dec_bytes(n0)),
        Features::And(lhs, rhs) => {
            let l = feat_expr(*lhs, n0, true);
            let r = feat_expr(*rhs, n0 + feat_count(*lhs), true);
            if parens {
                "("@ + l + " && "@ + r + ")"@
            } else {
                l + " && "@ + r
            }
        },
        Features::Or(lhs, rhs) => {
            let l = feat_expr(*lhs, n0, true);
            let r = feat_expr(*rhs, n0 + feat_count(*lhs), true);
            if parens {
                "("@ + l + " || "@ + r + ")"@
            } else {
                l + " || "@ + r
            }
        },
    }
}

/// The term variables a feature tree materialises, with the flag each one
/// tests, when its first leaf is named `f<n0>`.
pub open spec fn feat_terms(f: Features, n0: nat) -> Seq<(Seq<char>, Flag)>
    decreases f,
{
    match f {
        Features::Always => Seq::<(Seq<char>, Flag)>::empty(),
        Features::Flag(flag) => seq![("f"@ + ascii_view(dec_bytes(n0)), flag)],
        Features::And(lhs, rhs) => feat_terms(*lhs, n0) + feat_terms(
            *rhs,
            n0 + feat_count(*lhs),
        ),
        Features::Or(lhs, rhs) => feat_terms(*lhs, n0) + feat_terms(*rhs, n0 + feat_count(*lhs)),
    }
}

/// The text of each accumulated term, with its flag.
pub open spec fn terms_view(v: Seq<(String, Flag)>) -> Seq<(Seq<char>, Flag)> {
    v.map(|i: int, p: (String, Flag)| (p.0@, p.1))
}

impl Features {
    /// Emit the boolean expression matching this feature tree, materialising
    /// one `(variable, flag)` term per flag leaf into `terms`.
    pub fn generate(&self, terms: &mut Vec<(String, Flag)>, parens: bool) -> (r: String)
        requires
            old(terms)@.len() + feat_count(*self) < 0x1_0000_0000,
        ensures
            r@ == feat_expr(*self, old(terms)@.len() as nat, parens),
            terms_view(final(terms)@) == terms_view(old(terms)@) + feat_terms(
                *self,
                old(terms)@.len() as nat,
            ),
            final(terms)@.len() == old(terms)@.len() + feat_count(*self),
        decreases *self,
    {
        match self {
            Features::Always => {
                let mut s = String::new();
                s.append("true");
                proof {
                    assert(terms_view(final(terms)@) =~~= terms_view(old(terms)@) + feat_terms(
                        *self,
                        old(terms)@.len() as nat,
                    ));
                }
                s
            },
            Features::Flag(flag) => {
                let mut t = String::new();
                t.append("f");
                let mut num: Vec<u8> = Vec::new();
                push_dec(&mut num, terms.len() as u64);
                proof {
                    lemma_dec_bytes_ascii(terms@.len() as nat);
                }
                let num = into_string(num);
                t.append(num.as_str());
                let copy = t.clone();
                terms.push((copy, *flag));
                proof {
                    assert(terms_view(terms@) =~~= terms_view(old(terms)@) + feat_terms(
                        *self,
                        old(terms)@.len() as nat,
                    ));
                }
                t
            },
            Features::And(lhs, rhs) => {
                let l = lhs.generate(terms, true);
                let r = rhs.generate(terms, true);
                let mut s = String::new();
                if parens {
                    s.append("(");
                }
                s.append(l.as_str());
                s.append(" && ");
                s.append(r.as_str());
                if parens {
                    s.append(")");
                }
                proof {
                    assert(terms_view(final(terms)@) =~~= terms_view(old(terms)@) + feat_terms(
                        *self,
                        old(terms)@.len() as nat,
                    ));
                    assert(s@ =~= feat_expr(*self, old(terms)@.len() as nat, parens));
                }
                s
            },
            Features::Or(lhs, rhs) => {
                let l = lhs.generate(terms, true);
                let r = rhs.generate(terms, true);
                let mut s = String::new();
                if parens {
                    s.append("(");
                }
                s.append(l.as_str());
                s.append(" || ");
                s.append(r.as_str());
                if parens {
                    s.append(")");
                }
                proof {
                    assert(terms_view(final(terms)@) =~~= terms_view(old(terms)@) + feat_terms(
                        *self,
                        old(terms)@.len() as nat,
                    ));
                    assert(s@ =~= feat_expr(*self, old(terms)@.len() as nat, parens));
                }
                s
            },
        }
    }
}

impl Flag {
    /// The generated name of this flag.
    pub fn name(&self) -> (r: &'static str)
        ensures
            r@ == spec_flag_name(*self),
    {
        match self {
            Flag::_64b => "_64b",
            Flag::compat => "compat",
        }
    }

    /// Emit the runtime `Flag` enumeration, one variant per flag, with its
    /// bit position; the list must name every variant so that the generated
    /// layer can transcribe each one.
    pub fn generate_enum(f: &mut Formatter)
        requires
            old(f).indent < 999,
        ensures
            final(f).spec_indent() == old(f).spec_indent(),
            final(f).lines_view() == old(f).lines_view() + seq![
                line_text(old(f).spec_indent(), "#[derive(arbitrary::Arbitrary, Clone, Debug)]"@, None),
                line_text(old(f).spec_indent(), "pub enum Flag {"@, None),
                line_text(old(f).spec_indent() + 1, "_64b = 0,"@, None),
                line_text(old(f).spec_indent() + 1, "compat = 1,"@, None),
                line_text(old(f).spec_indent(), "}"@, None),
            ],
    {
        crate::generate::inst::generate_derive(f);
        f.line("pub enum Flag {", None);
        f.indent_push();
        f.line("_64b = 0,", None);
        f.line("compat = 1,", None);
        f.indent_pop();
        f.line("}", None);
        proof {
            assert(final(f).lines_view() =~~= old(f).lines_view() + seq![
                line_text(
                    old(f).spec_indent(),
                    "#[derive(arbitrary::Arbitrary, Clone, Debug)]"@,
                    None,
                ),
                line_text(old(f).spec_indent(), "pub enum Flag {"@, None),
                line_text(old(f).spec_indent() + 1, "_64b = 0,"@, None),
                line_text(old(f).spec_indent() + 1, "compat = 1,"@, None),
                line_text(old(f).spec_indent(), "}"@, None),
            ]);
        }
    }
}

/// The generated name of a flag.
pub open spec fn spec_flag_name(f: Flag) -> Seq<char> {
    match f {
        Flag::_64b => "_64b"@,
        Flag::compat => "compat"@,
    }
}

} // verus!
