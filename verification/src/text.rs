//! Verified ASCII text building: the pretty-printer renders into byte
//! buffers, proved against character-level specifications, and converts to
//! `String` at the very end.

use vstd::prelude::*;
use vstd::string::StringSliceAdditionalSpecFns;

verus! {

/// The characters that a sequence of ASCII bytes spells.
pub open spec fn ascii_view(s: Seq<u8>) -> Seq<char> {
    s.map(|i: int, b: u8| b as char)
}

/// The lowercase hexadecimal digit for `d`.
pub open spec fn hex_digit(d: u8) -> u8 {
    if d < 10 {
        (0x30 + d) as u8
    } else {
        (0x57 + d) as u8
    }
}

/// The lowercase hexadecimal spelling of `v`, without leading zeros.
pub open spec fn hex_bytes(v: nat) -> Seq<u8>
    decreases v,
{
    if v < 16 {
        seq![hex_digit(v as u8)]
    } else {
        hex_bytes(v / 16).push(hex_digit((v % 16) as u8))
    }
}

/// The decimal spelling of `v`, without leading zeros.
pub open spec fn dec_bytes(v: nat) -> Seq<u8>
    decreases v,
{
    if v < 10 {
        seq![(0x30 + v) as u8]
    } else {
        dec_bytes(v / 10).push((0x30 + v % 10) as u8)
    }
}

/// Append the lowercase hexadecimal spelling of `v`.
pub fn push_hex(out: &mut Vec<u8>, v: u64)
    ensures
        final(out)@ == old(out)@ + hex_bytes(v as nat),
    decreases v,
{
    if v < 16 {
        let d: u8 = v as u8;
        let c: u8 = if d < 10 {
            0x30 + d
        } else {
            0x57 + d
        };
        out.push(c);
        proof {
            assert(final(out)@ =~= old(out)@ + hex_bytes(v as nat));
        }
    } else {
        push_hex(out, v / 16);
        let d: u8 = (v % 16) as u8;
        let c: u8 = if d < 10 {
            0x30 + d
        } else {
            0x57 + d
        };
        out.push(c);
        proof {
            assert(final(out)@ =~= old(out)@ + hex_bytes(v as nat));
        }
    }
}

/// Append the decimal spelling of `v`.
pub fn push_dec(out: &mut Vec<u8>, v: u64)
    ensures
        final(out)@ == old(out)@ + dec_bytes(v as nat),
    decreases v,
{
    if v < 10 {
        out.push(0x30 + (v as u8));
        proof {
            assert(final(out)@ =~= old(out)@ + dec_bytes(v as nat));
        }
    } else {
        push_dec(out, v / 10);
        out.push(0x30 + ((v % 10) as u8));
        proof {
            assert(final(out)@ =~= old(out)@ + dec_bytes(v as nat));
        }
    }
}

/// Relies on `String::from_utf8`: bytes below `0x80` are single-byte UTF-8
/// code points, so the string holds exactly the characters the bytes spell,
/// and conversion cannot fail.
#[verifier::external_body]
pub fn into_string(bytes: Vec<u8>) -> (r: String)
    requires
        forall|i: int| 0 <= i < bytes@.len() ==> bytes@[i] < 0x80,
    ensures
        r@ == ascii_view(bytes@),
{
    String::from_utf8(bytes).unwrap()
}

/// Every byte of a hexadecimal spelling is an ASCII digit or letter.
pub proof fn lemma_hex_bytes_ascii(v: nat)
    ensures
        forall|i: int| 0 <= i < hex_bytes(v).len() ==> hex_bytes(v)[i] < 0x80,
    decreases v,
{
    if v >= 16 {
        lemma_hex_bytes_ascii(v / 16);
        assert forall|i: int| 0 <= i < hex_bytes(v).len() implies hex_bytes(v)[i] < 0x80 by {
            if i < hex_bytes(v).len() - 1 {
                assert(hex_bytes(v)[i] == hex_bytes(v / 16)[i]);
            } else {
                assert(hex_bytes(v)[i] == hex_digit((v % 16) as u8));
            }
        }
    }
}

/// Every byte of a decimal spelling is an ASCII digit.
pub proof fn lemma_dec_bytes_ascii(v: nat)
    ensures
        forall|i: int| 0 <= i < dec_bytes(v).len() ==> dec_bytes(v)[i] < 0x80,
    decreases v,
{
    if v >= 10 {
        lemma_dec_bytes_ascii(v / 10);
        assert forall|i: int| 0 <= i < dec_bytes(v).len() implies dec_bytes(v)[i] < 0x80 by {
            if i < dec_bytes(v).len() - 1 {
                assert(dec_bytes(v)[i] == dec_bytes(v / 10)[i]);
            } else {
                assert(dec_bytes(v)[i] == (0x30 + v % 10) as u8);
            }
        }
    }
}

} // verus!

verus! {

/// A `$`-prefixed hexadecimal immediate: values below ten print as a bare
/// digit, larger values with an `0x` prefix.
pub open spec fn dollar_hex_bytes(v: u64) -> Seq<u8> {
    if v < 10 {
        seq![0x24u8] + hex_bytes(v as nat)
    } else {
        seq![0x24u8, 0x30u8, 0x78u8] + hex_bytes(v as nat)
    }
}

/// The characters of a `$`-prefixed hexadecimal immediate.
pub open spec fn spec_dollar_hex(v: u64) -> Seq<char> {
    ascii_view(dollar_hex_bytes(v))
}

/// Render a `$`-prefixed hexadecimal immediate.
pub fn dollar_hex(v: u64) -> (r: String)
    ensures
        r@ == spec_dollar_hex(v),
{
    let mut out: Vec<u8> = Vec::new();
    out.push(0x24);
    if v >= 10 {
        out.push(0x30);
        out.push(0x78);
    }
    push_hex(&mut out, v);
    proof {
        lemma_hex_bytes_ascii(v as nat);
        assert(out@ =~= dollar_hex_bytes(v));
    }
    into_string(out)
}

/// A signed hexadecimal displacement: empty when zero, a leading `-` when
/// negative, and an `0x` prefix when the magnitude is ten or more.
pub open spec fn signed_hex_bytes(v: int) -> Seq<u8> {
    if v == 0 {
        Seq::<u8>::empty()
    } else {
        let mag = if v < 0 {
            -v
        } else {
            v
        };
        (if v < 0 {
            seq![0x2du8]
        } else {
            Seq::<u8>::empty()
        }) + (if v > 9 || v < -9 {
            seq![0x30u8, 0x78u8]
        } else {
            Seq::<u8>::empty()
        }) + hex_bytes(mag as nat)
    }
}

/// The characters of a signed hexadecimal displacement.
pub open spec fn spec_signed_hex(v: int) -> Seq<char> {
    ascii_view(signed_hex_bytes(v))
}

/// Append a signed hexadecimal displacement.
pub fn push_signed_hex(out: &mut Vec<u8>, v: i64)
    requires
        -0x8000_0000_0000_0000 < v as int,
    ensures
        final(out)@ == old(out)@ + signed_hex_bytes(v as int),
{
    if v == 0 {
        proof {
            assert(final(out)@ =~= old(out)@ + signed_hex_bytes(v as int));
        }
        return ;
    }
    if v < 0 {
        out.push(0x2d);
    }
    if v > 9 || v < -9 {
        out.push(0x30);
        out.push(0x78);
    }
    let mag: u64 = if v < 0 {
        (-v) as u64
    } else {
        v as u64
    };
    push_hex(out, mag);
    proof {
        assert(final(out)@ =~= old(out)@ + signed_hex_bytes(v as int));
    }
}

/// Every byte of a signed hexadecimal displacement is ASCII.
pub proof fn lemma_signed_hex_ascii(v: int)
    ensures
        forall|i: int| 0 <= i < signed_hex_bytes(v).len() ==> signed_hex_bytes(v)[i] < 0x80,
{
    if v != 0 {
        let mag = if v < 0 {
            -v
        } else {
            v
        };
        lemma_hex_bytes_ascii(mag as nat);
    }
}

} // verus!

verus! {

/// `c` lowercased, for ASCII letters; other characters are unchanged.
pub open spec fn lower_char(c: char) -> char {
    if 'A' <= c && c <= 'Z' {
        ((c as u8) + 0x20) as char
    } else {
        c
    }
}

/// The ASCII-lowercase of a character sequence.
pub open spec fn lower_chars(s: Seq<char>) -> Seq<char> {
    s.map(|i: int, c: char| lower_char(c))
}

/// Lowercase an ASCII string.
pub fn lowercased(s: &str) -> (r: String)
    requires
        vstd::string::is_ascii(s),
    ensures
        r@ == lower_chars(s@),
{
    let bytes = s.as_bytes();
    let mut out: Vec<u8> = Vec::new();
    let mut i: usize = 0;
    proof {
        vstd::string::is_ascii_spec_bytes(s);
    }
    while i < bytes.len()
        invariant
            i <= bytes@.len(),
            bytes@ == s.spec_bytes(),
            vstd::string::is_ascii(s),
            s.spec_bytes() =~= Seq::new(s@.len(), |j: int| s@.index(j) as u8),
            out@.len() == i,
            forall|j: int| 0 <= j < i ==> out@[j] < 0x80 && out@[j] as char == lower_char(s@[j]),
        decreases bytes@.len() - i,
    {
        let b = bytes[i];
        let c: u8 = if 0x41 <= b && b <= 0x5a {
            b + 0x20
        } else {
            b
        };
        out.push(c);
        proof {
            vstd::utf8::is_ascii_chars_encode_utf8(s@);
            vstd::utf8::is_ascii_chars_nat_bound(s@);
            assert(s@[i as int] as u8 == bytes@[i as int]);
            assert(c as char == lower_char(s@[i as int]));
        }
        i = i + 1;
    }
    let r = into_string(out);
    proof {
        assert(r@ =~= lower_chars(s@));
    }
    r
}

} // verus!

verus! {

/// The ASCII-lowercase of a character sequence: non-ASCII text is left
/// unchanged.
pub open spec fn spec_lower_ascii(cs: Seq<char>) -> Seq<char> {
    if vstd::utf8::is_ascii_chars(cs) {
        lower_chars(cs)
    } else {
        cs
    }
}

/// Lowercase the ASCII letters of a string; a string holding any non-ASCII
/// character is returned unchanged.
pub fn lower_ascii(s: &str) -> (r: String)
    ensures
        r@ == spec_lower_ascii(s@),
{
    if s.is_ascii() {
        lowercased(s)
    } else {
        s.to_owned()
    }
}

} // verus!
