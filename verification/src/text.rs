//! Searching and cutting text by characters.

use vstd::prelude::*;
use vstd::string::StrSliceExecFns;
use crate::scan::{lemma_position_facts, lemma_position_none, lemma_position_some, position};

verus! {

/// Where the first word of `s` ends: at the first `sep`, or at the end of `s`
/// where it holds none.
pub open spec fn word_end(s: Seq<char>, sep: char) -> int {
    match position(s, sep) {
        Some(i) => if 0 <= i < s.len() {
            i
        } else {
            s.len() as int
        },
        None => s.len() as int,
    }
}

/// What stands before the first `sep`: all of `s` where it holds none.
pub open spec fn first_word(s: Seq<char>, sep: char) -> Seq<char> {
    s.subrange(0, word_end(s, sep))
}

/// What stands after the first `sep`: nothing where `s` holds none.
pub open spec fn after_word(s: Seq<char>, sep: char) -> Seq<char> {
    if word_end(s, sep) < s.len() {
        s.subrange(word_end(s, sep) + 1, s.len() as int)
    } else {
        Seq::empty()
    }
}

/// The index of the first `c` in `s`, counted in characters.
pub fn find(s: &str, c: char) -> (found: Option<usize>)
    ensures
        match found {
            Some(i) => position(s@, c) == Some(i as int),
            None => position(s@, c) is None,
        },
{
    let n: usize = s.unicode_len();
    let mut i: usize = 0;
    for x in it: s.chars()
        invariant
            it.seq() == s@,
            n == s@.len(),
            i == it.index(),
            forall|j: int| 0 <= j < i ==> s@[j] != c,
    {
        if x == c {
            proof {
                lemma_position_some(s@, c, i as int);
            }
            return Some(i);
        }
        assert(i < n);
        i = i + 1;
    }
    proof {
        lemma_position_none(s@, c);
    }
    None
}

/// Cuts `s` at its first `sep` into what stands before it and what stands
/// after it.
pub fn split_word<'a>(s: &'a str, sep: char) -> (parts: (&'a str, &'a str))
    ensures
        parts.0@ == first_word(s@, sep),
        parts.1@ == after_word(s@, sep),
{
    let n: usize = s.unicode_len();
    match find(s, sep) {
        Some(i) => {
            proof {
                lemma_position_facts(s@, sep);
            }
            (s.substring_char(0, i), s.substring_char(i + 1, n))
        },
        None => {
            assert(s@.subrange(0, n as int) =~= s@);
            assert(s@.subrange(n as int, n as int) =~= Seq::<char>::empty());
            (s, s.substring_char(n, n))
        },
    }
}

/// Whether `s` begins with `prefix`.
pub fn has_prefix(s: &str, prefix: &str) -> (r: bool)
    ensures
        r == prefix@.is_prefix_of(s@),
{
    let m: usize = prefix.unicode_len();
    let n: usize = s.unicode_len();
    if n < m {
        false
    } else {
        same(s.substring_char(0, m), prefix)
    }
}

/// Whether two texts hold the same characters.
pub fn same(a: &str, b: &str) -> (r: bool)
    ensures
        r == (a@ == b@),
{
    let x = a.as_bytes();
    let y = b.as_bytes();
    proof {
        vstd::utf8::encode_utf8_decode_utf8(a@);
        vstd::utf8::encode_utf8_decode_utf8(b@);
    }
    if x.len() != y.len() {
        return false;
    }
    let mut i: usize = 0;
    while i < x.len()
        invariant
            x@ == vstd::utf8::encode_utf8(a@),
            y@ == vstd::utf8::encode_utf8(b@),
            x@.len() == y@.len(),
            i <= x@.len(),
            x@.subrange(0, i as int) == y@.subrange(0, i as int),
        decreases x@.len() - i,
    {
        if x[i] != y[i] {
            return false;
        }
        assert(x@.subrange(0, i + 1) =~= x@.subrange(0, i as int).push(x@[i as int]));
        assert(y@.subrange(0, i + 1) =~= y@.subrange(0, i as int).push(y@[i as int]));
        i = i + 1;
    }
    assert(x@ =~= x@.subrange(0, i as int));
    assert(y@ =~= y@.subrange(0, i as int));
    true
}

} // verus!
