//! A source-code formatter: collects indented lines of generated code.

use vstd::prelude::*;
use vstd::string::StringExecFns;
use crate::text::{ascii_view, dec_bytes, into_string, lemma_dec_bytes_ascii, push_dec};
use crate::generate::FileLocation;

verus! {

/// `n` spaces.
pub open spec fn sp(n: nat) -> Seq<char>
    decreases n,
{
    if n == 0 {
        Seq::<char>::empty()
    } else {
        sp((n - 1) as nat) + " "@
    }
}

/// The displayed form of a file location: `file:line`.
pub open spec fn file_location_text(file: Seq<char>, line: u32) -> Seq<char> {
    file + ":"@ + ascii_view(dec_bytes(line as nat))
}

/// The text of one formatted line: the current indentation, the contents,
/// and a trailing comment naming the file location that produced the line,
/// when one is given.
pub open spec fn line_text(
    indent: nat,
    contents: Seq<char>,
    location: Option<(Seq<char>, u32)>,
) -> Seq<char> {
    match location {
        Some((file, line)) => sp(indent * 4) + " "@ + contents + " // "@ + file_location_text(
            file,
            line,
        ) + "\n"@,
        None => sp(indent * 4) + contents + "\n"@,
    }
}

/// The lines already written, each with its trailing newline.
pub struct Formatter {
    pub indent: usize,
    pub lines: Vec<String>,
}

impl Formatter {
    /// The text of each line written so far.
    pub open spec fn lines_view(&self) -> Seq<Seq<char>> {
        self.lines@.map(|i: int, s: String| s@)
    }

    /// The current indentation level.
    pub open spec fn spec_indent(&self) -> nat {
        self.indent as nat
    }

    /// An empty formatter at top-level indentation.
    pub fn new() -> (r: Formatter)
        ensures
            r.lines_view() == Seq::<Seq<char>>::empty(),
            r.spec_indent() == 0,
    {
        let r = Formatter { indent: 0, lines: Vec::new() };
        proof {
            assert(r.lines_view() =~= Seq::<Seq<char>>::empty());
        }
        r
    }

    /// Increase the indentation by one level.
    pub fn indent_push(&mut self)
        requires
            old(self).indent < 1000,
        ensures
            final(self).spec_indent() == old(self).spec_indent() + 1,
            final(self).lines_view() == old(self).lines_view(),
    {
        self.indent = self.indent + 1;
    }

    /// Decrease the indentation by one level; the formatter must not already
    /// be at the top level.
    pub fn indent_pop(&mut self)
        requires
            old(self).spec_indent() > 0,
        ensures
            final(self).spec_indent() == old(self).spec_indent() - 1,
            final(self).lines_view() == old(self).lines_view(),
    {
        self.indent = self.indent - 1;
    }

    /// The current indentation as text.
    fn get_indent(&self) -> (r: String)
        requires
            self.indent < 1000,
        ensures
            r@ == sp(self.spec_indent() * 4),
    {
        let mut s = String::new();
        let mut i: usize = 0;
        while i < self.indent * 4
            invariant
                self.indent < 1000,
                i <= self.indent * 4,
                s@ == sp(i as nat),
            decreases self.indent * 4 - i,
        {
            s.append(" ");
            i = i + 1;
        }
        s
    }

    /// Append one line at the current indentation.
    pub fn line(&mut self, contents: &str, location: Option<FileLocation>)
        requires
            old(self).indent < 1000,
        ensures
            final(self).spec_indent() == old(self).spec_indent(),
            final(self).lines_view() == old(self).lines_view().push(
                line_text(
                    old(self).spec_indent(),
                    contents@,
                    match location {
                        Some(loc) => Some((loc.file@, loc.line)),
                        None => None,
                    },
                ),
            ),
    {
        let mut s = self.get_indent();
        match location {
            Some(loc) => {
                s.append(" ");
                s.append(contents);
                s.append(" // ");
                s.append(loc.file);
                s.append(":");
                let mut num: Vec<u8> = Vec::new();
                push_dec(&mut num, loc.line as u64);
                proof {
                    lemma_dec_bytes_ascii(loc.line as nat);
                }
                let num = into_string(num);
                s.append(num.as_str());
                s.append("\n");
            },
            None => {
                s.append(contents);
                s.append("\n");
            },
        }
        self.lines.push(s);
        proof {
            assert(final(self).lines_view() =~~= old(self).lines_view().push(
                line_text(
                    old(self).spec_indent(),
                    contents@,
                    match location {
                        Some(loc) => Some((loc.file@, loc.line)),
                        None => None,
                    },
                ),
            ));
        }
    }

    /// Append an empty line.
    pub fn empty_line(&mut self)
        ensures
            final(self).spec_indent() == old(self).spec_indent(),
            final(self).lines_view() == old(self).lines_view().push("\n"@),
    {
        let mut s = String::new();
        s.append("\n");
        self.lines.push(s);
        proof {
            assert(final(self).lines_view() =~~= old(self).lines_view().push("\n"@));
        }
    }

    /// Append a comment line.
    pub fn comment(&mut self, s: &str)
        requires
            old(self).indent < 1000,
        ensures
            final(self).spec_indent() == old(self).spec_indent(),
            final(self).lines_view() == old(self).lines_view().push(
                line_text(old(self).spec_indent(), "// "@ + s@, None),
            ),
    {
        let mut c = String::new();
        c.append("// ");
        c.append(s);
        self.line(c.as_str(), None);
    }

    /// The generated text: every line, concatenated.
    pub fn text(&self) -> (r: String)
        ensures
            r@ == concat_lines(self.lines_view()),
    {
        let mut s = String::new();
        let mut i: usize = 0;
        while i < self.lines.len()
            invariant
                i <= self.lines@.len(),
                s@ == concat_lines(self.lines_view().take(i as int)),
            decreases self.lines@.len() - i,
        {
            s.append(self.lines[i].as_str());
            proof {
                assert(self.lines_view().take(i + 1).drop_last() =~= self.lines_view().take(
                    i as int,
                ));
                assert(self.lines_view().take(i + 1).last() == self.lines_view()[i as int]);
                assert(s@ =~= concat_lines(self.lines_view().take(i + 1)));
            }
            i = i + 1;
        }
        proof {
            assert(self.lines_view().take(self.lines_view().len() as int) =~= self.lines_view());
        }
        s
    }
}

/// A sequence of lines, concatenated.
pub open spec fn concat_lines(lines: Seq<Seq<char>>) -> Seq<char>
    decreases lines.len(),
{
    if lines.len() == 0 {
        Seq::<char>::empty()
    } else {
        concat_lines(lines.drop_last()) + lines.last()
    }
}

} // verus!
