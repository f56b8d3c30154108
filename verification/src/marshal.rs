//! Marshaling of host strings into the native text encoding.
//!
//! The native library takes every string as a nul-terminated sequence of
//! UTF-16 code units.  The encoding is specified here as a spec function
//! over the character sequence, and the executable encoder is proved to
//! produce exactly that sequence.

use vstd::prelude::*;
use vstd::utf8::char_is_scalar;

verus! {

/// The UTF-16 code units of one Unicode scalar value: one unit for values
/// below 0x10000, otherwise a high/low surrogate pair.
pub open spec fn utf16_units_of_char(c: char) -> Seq<u16> {
    let v = c as u32;
    if v < 0x10000 {
        seq![v as u16]
    } else {
        seq![
            ((v - 0x10000) / 0x400 + 0xD800) as u16,
            ((v - 0x10000) % 0x400 + 0xDC00) as u16,
        ]
    }
}

/// The UTF-16 code units of a character sequence, in order.
pub open spec fn utf16_units(s: Seq<char>) -> Seq<u16>
    decreases s.len(),
{
    if s.len() == 0 {
        Seq::empty()
    } else {
        utf16_units_of_char(s[0]) + utf16_units(s.drop_first())
    }
}

/// The nul-terminated wide form in which a string crosses the native
/// boundary.
pub open spec fn utf16_nul(s: Seq<char>) -> Seq<u16> {
    utf16_units(s).push(0)
}

proof fn lemma_utf16_units_push(s: Seq<char>, c: char)
    ensures
        utf16_units(s.push(c)) == utf16_units(s) + utf16_units_of_char(c),
    decreases s.len(),
{
    if s.len() == 0 {
        assert(s.push(c)[0] == c);
        assert(s.push(c).drop_first() =~= Seq::<char>::empty());
        assert(utf16_units(Seq::<char>::empty()) == Seq::<u16>::empty());
        assert(utf16_units(s.push(c)) == utf16_units_of_char(c) + Seq::<u16>::empty());
        assert(utf16_units_of_char(c) + Seq::<u16>::empty() =~= Seq::<u16>::empty()
            + utf16_units_of_char(c));
        assert(utf16_units(s.push(c)) =~= utf16_units(s) + utf16_units_of_char(c));
    } else {
        assert(s.push(c)[0] == s[0]);
        assert(s.push(c).drop_first() =~= s.drop_first().push(c));
        lemma_utf16_units_push(s.drop_first(), c);
        assert(utf16_units(s.push(c)) =~= utf16_units(s) + utf16_units_of_char(c));
    }
}

/// Encodes a string as nul-terminated UTF-16, the form every native entry
/// point expects its text arguments in.
pub fn str_to_u16_vec(s: &str) -> (r: Vec<u16>)
    ensures
        r@ == utf16_nul(s@),
{
    let n = s.unicode_len();
    let mut out: Vec<u16> = Vec::new();
    let mut i: usize = 0;
    while i < n
        invariant
            i <= n,
            n == s@.len(),
            out@ == utf16_units(s@.take(i as int)),
        decreases n - i,
    {
        let c = s.get_char(i);
        let v = c as u32;
        proof {
            char_is_scalar(c);
        }
        if v < 0x10000 {
            out.push(v as u16);
        } else {
            let hi: u32 = (v - 0x10000) / 0x400 + 0xD800;
            let lo: u32 = (v - 0x10000) % 0x400 + 0xDC00;
            out.push(hi as u16);
            out.push(lo as u16);
        }
        proof {
            lemma_utf16_units_push(s@.take(i as int), s@[i as int]);
            assert(s@.take(i + 1 as int).drop_last() =~= s@.take(i as int));
            assert(s@.take(i + 1 as int) =~= s@.take(i as int).push(s@[i as int]));
        }
        i = i + 1;
    }
    proof {
        assert(s@.take(n as int) =~= s@);
    }
    out.push(0);
    out
}

/// Optionally encodes a string, mirroring an optional native string slot:
/// an absent string crosses the boundary as a null pointer, a present one
/// as its nul-terminated wide form.
pub fn option_str_encode_nul_wide(from: Option<&str>) -> (r: Option<Vec<u16>>)
    ensures
        match from {
            Some(s) => r matches Some(v) && v@ == utf16_nul(s@),
            None => r is None,
        },
{
    match from {
        Some(s) => Some(str_to_u16_vec(s)),
        None => None,
    }
}

} // verus!
