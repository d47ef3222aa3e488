//! The textual description of the command table, and what is derived from each
//! of its entries.
//!
//! The description is a list of lines, two for each entry: the symbolic name
//! (`RPL_WELCOME`, `PRIVMSG`) and the wire token (`001`, `PRIVMSG`).

use vstd::prelude::*;
use vstd::std_specs::iter::IteratorSpec;
use vstd::string::{StrSliceExecFns, StringExecFns};
use crate::text::{after_word, first_word, has_prefix, split_word};

verus! {

/// The upper case form of an ASCII letter; any other character as it is.
pub open spec fn ascii_upper(c: char) -> char {
    if 'a' <= c <= 'z' {
        ((c as u8) - 32) as u8 as char
    } else {
        c
    }
}

/// The lower case form of an ASCII letter; any other character as it is.
pub open spec fn ascii_lower(c: char) -> char {
    if 'A' <= c <= 'Z' {
        ((c as u8) + 32) as u8 as char
    } else {
        c
    }
}

/// `s` with its ASCII letters in upper case.
pub open spec fn upper(s: Seq<char>) -> Seq<char> {
    s.map_values(|c: char| ascii_upper(c))
}

/// `s` with its ASCII letters in lower case.
pub open spec fn lower(s: Seq<char>) -> Seq<char> {
    s.map_values(|c: char| ascii_lower(c))
}

/// `str::to_ascii_uppercase` returns a copy of the text in which each ASCII
/// letter `a` to `z` is replaced by `A` to `Z` and every other character is
/// kept.
#[verifier::external_body]
fn to_ascii_uppercase(s: &str) -> (r: String)
    ensures
        r@ == upper(s@),
{
    s.to_ascii_uppercase()
}

/// `str::to_ascii_lowercase` returns a copy of the text in which each ASCII
/// letter `A` to `Z` is replaced by `a` to `z` and every other character is
/// kept.
#[verifier::external_body]
fn to_ascii_lowercase(s: &str) -> (r: String)
    ensures
        r@ == lower(s@),
{
    s.to_ascii_lowercase()
}

/// `s` with its first character in upper case and the others in lower case.
pub open spec fn capfirst_of(s: Seq<char>) -> Seq<char> {
    upper(s.subrange(0, 1)) + lower(s.subrange(1, s.len() as int))
}

/// The first part of a marked name: what stands before its first `_`.
pub open spec fn marker_part(code: Seq<char>) -> Seq<char> {
    first_word(code, '_')
}

/// The second part of a marked name: what stands between its first `_` and
/// the next.
pub open spec fn subject_part(code: Seq<char>) -> Seq<char> {
    first_word(after_word(code, '_'), '_')
}

/// Whether a name can be turned into an identifier: the parts that are
/// capitalised are not empty.
pub open spec fn formattable(code: Seq<char>, marked: bool) -> bool {
    if marked {
        marker_part(code).len() > 0 && subject_part(code).len() > 0
    } else {
        code.len() > 0
    }
}

/// The identifier of a tag. A marked name gives its two first parts, each
/// capitalised (`RPL_WELCOME` gives `RplWelcome`); any other name is
/// capitalised as a whole.
pub open spec fn format_code_of(code: Seq<char>, marked: bool) -> Seq<char> {
    if marked {
        capfirst_of(marker_part(code)) + capfirst_of(subject_part(code))
    } else {
        capfirst_of(code)
    }
}

/// The wire token as a string literal: in upper case, between quotes.
pub open spec fn format_value_of(value: Seq<char>) -> Seq<char> {
    seq!['"'] + upper(value) + seq!['"']
}

/// `s` with its first character in upper case and the others in lower case.
pub fn capfirst(s: &str) -> (r: String)
    requires
        s@.len() > 0,
    ensures
        r@ == capfirst_of(s@),
{
    let n: usize = s.unicode_len();
    let head = to_ascii_uppercase(s.substring_char(0, 1));
    let tail = to_ascii_lowercase(s.substring_char(1, n));
    head.concat(tail.as_str())
}

/// An entry of the command table.
#[derive(Clone, Debug, PartialEq, Eq)]
pub struct Code {
    /// The symbolic name.
    pub code: String,
    /// The wire token.
    pub value: String,
    /// The name begins with `RPL_`.
    pub is_reply: bool,
    /// The name begins with `ERR_`.
    pub is_error: bool,
    /// The identifier of the tag.
    pub format_code: String,
    /// The wire token as a string literal.
    pub format_value: String,
}

/// An entry as a mathematical value.
pub struct CodeView {
    pub code: Seq<char>,
    pub value: Seq<char>,
    pub is_reply: bool,
    pub is_error: bool,
    pub format_code: Seq<char>,
    pub format_value: Seq<char>,
}

impl View for Code {
    type V = CodeView;

    open spec fn view(&self) -> CodeView {
        CodeView {
            code: self.code@,
            value: self.value@,
            is_reply: self.is_reply,
            is_error: self.is_error,
            format_code: self.format_code@,
            format_value: self.format_value@,
        }
    }
}

/// The views of a list of entries.
pub open spec fn views_of(codes: Seq<Code>) -> Seq<CodeView> {
    codes.map_values(|c: Code| c@)
}

/// The views of a list of lines.
pub open spec fn lines_of(lines: Seq<&str>) -> Seq<Seq<char>> {
    lines.map_values(|l: &str| l@)
}

/// Whether a name is marked as a reply or as an error.
pub open spec fn is_marked(code: Seq<char>) -> bool {
    "RPL_"@.is_prefix_of(code) || "ERR_"@.is_prefix_of(code)
}

/// The entry that a name and a wire token give.
pub open spec fn entry_of(code: Seq<char>, value: Seq<char>) -> CodeView {
    CodeView {
        code,
        value,
        is_reply: "RPL_"@.is_prefix_of(code),
        is_error: "ERR_"@.is_prefix_of(code),
        format_code: format_code_of(code, is_marked(code)),
        format_value: format_value_of(value),
    }
}

/// The entries that a description gives: one for each pair of lines. A line
/// without a partner at the end is left out.
pub open spec fn entries_of(lines: Seq<Seq<char>>) -> Seq<CodeView>
    decreases lines.len(),
{
    if lines.len() < 2 {
        Seq::empty()
    } else {
        seq![entry_of(lines[0], lines[1])] + entries_of(lines.skip(2))
    }
}

/// Whether every name of a description can be turned into an identifier.
pub open spec fn all_formattable(lines: Seq<Seq<char>>) -> bool
    decreases lines.len(),
{
    if lines.len() < 2 {
        true
    } else {
        formattable(lines[0], is_marked(lines[0])) && all_formattable(lines.skip(2))
    }
}

/// No name is marked both as a reply and as an error.
pub proof fn lemma_markers_exclusive(code: Seq<char>, value: Seq<char>)
    ensures
        !(entry_of(code, value).is_reply && entry_of(code, value).is_error),
        is_marked(code) == (entry_of(code, value).is_reply || entry_of(code, value).is_error),
{
    reveal_strlit("RPL_");
    reveal_strlit("ERR_");
    if "RPL_"@.is_prefix_of(code) && "ERR_"@.is_prefix_of(code) {
        assert(code.subrange(0, 4)[0] == 'R');
        assert(code.subrange(0, 4)[0] == 'E');
    }
}

/// Whether the name `code` can be turned into an identifier.
pub fn is_formattable(code: &str, marked: bool) -> (ok: bool)
    ensures
        ok == formattable(code@, marked),
{
    if marked {
        let (left, rest) = split_word(code, '_');
        let (right, _) = split_word(rest, '_');
        left.unicode_len() > 0 && right.unicode_len() > 0
    } else {
        code.unicode_len() > 0
    }
}

/// Whether every name of the description `lines` can be turned into an
/// identifier: what `Code::from_iter` asks of the lines that it reads.
pub fn is_description(lines: &[&str]) -> (ok: bool)
    ensures
        ok == all_formattable(lines_of(lines@)),
{
    let ghost all = lines_of(lines@);
    let mut i: usize = 0;
    assert(all.skip(0) =~= all);
    while i < lines.len() && 1 < lines.len() - i
        invariant
            i <= lines@.len(),
            all == lines_of(lines@),
            all_formattable(all) == all_formattable(all.skip(i as int)),
        decreases lines@.len() - i,
    {
        let code = lines[i];
        let marked = has_prefix(code, "RPL_") || has_prefix(code, "ERR_");
        assert(all.skip(i as int)[0] == code@);
        if !is_formattable(code, marked) {
            return false;
        }
        assert(all.skip(i as int).skip(2) =~= all.skip(i + 2));
        i = i + 2;
    }
    true
}

impl Code {
    /// Reads the entries of a description, which `iter` yields line by line.
    pub fn from_iter<'a, I: Iterator<Item = &'a str>>(iter: I) -> (codes: Vec<Self>)
        requires
            iter.obeys_prophetic_iter_laws(),
            iter.decrease() is Some,
            all_formattable(lines_of(iter.remaining())),
        ensures
            views_of(codes@) == entries_of(lines_of(iter.remaining())),
    {
        let mut iter = iter;
        let ghost all = lines_of(iter.remaining());
        let mut codes: Vec<Code> = Vec::new();
        assert(views_of(codes@) =~= Seq::<CodeView>::empty());
        loop
            invariant
                iter.obeys_prophetic_iter_laws(),
                iter.decrease() is Some,
                all_formattable(lines_of(iter.remaining())),
                entries_of(all) == views_of(codes@) + entries_of(lines_of(iter.remaining())),
            ensures
                entries_of(all) == views_of(codes@),
            decreases iter.decrease()->0,
        {
            let ghost before = iter.remaining();
            let ghost done = views_of(codes@);
            let code = match iter.next() {
                Some(code) => code,
                None => {
                    assert(views_of(codes@) + entries_of(lines_of(before)) =~= views_of(codes@));
                    break ;
                },
            };
            let value = match iter.next() {
                Some(value) => value,
                None => {
                    assert(lines_of(before).len() == 1);
                    assert(views_of(codes@) + entries_of(lines_of(before)) =~= views_of(codes@));
                    break ;
                },
            };
            assert(lines_of(before)[0] == code@);
            assert(lines_of(before)[1] == value@);
            assert(lines_of(before).skip(2) =~= lines_of(iter.remaining()));

            let is_reply = has_prefix(code, "RPL_");
            let is_error = has_prefix(code, "ERR_");

            let format_code = Self::format_code(code, is_reply, is_error);
            let format_value = Self::format_value(value);

            codes.push(
                Code {
                    code: code.to_owned(),
                    value: value.to_owned(),
                    is_reply,
                    is_error,
                    format_code,
                    format_value,
                },
            );
            assert(views_of(codes@) =~= done + seq![entry_of(code@, value@)]);
            assert(done + entries_of(lines_of(before)) =~= views_of(codes@) + entries_of(
                lines_of(iter.remaining()),
            ));
        }
        codes
    }

    /// The identifier of the tag with the symbolic name `code`.
    pub fn format_code(code: &str, is_reply: bool, is_error: bool) -> (r: String)
        requires
            formattable(code@, is_reply || is_error),
        ensures
            r@ == format_code_of(code@, is_reply || is_error),
    {
        if is_reply || is_error {
            let (left, rest) = split_word(code, '_');
            let (right, _) = split_word(rest, '_');
            capfirst(left).concat(capfirst(right).as_str())
        } else {
            capfirst(code)
        }
    }

    /// The wire token `value` as a string literal.
    pub fn format_value(value: &str) -> (r: String)
        ensures
            r@ == format_value_of(value@),
    {
        proof {
            reveal_strlit("\"");
        }
        let quoted = "\"".to_owned().concat(to_ascii_uppercase(value).as_str()).concat("\"");
        assert("\""@ =~= seq!['"']);
        quoted
    }
}

} // verus!
