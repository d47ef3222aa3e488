//! The source text of the command table: the enumeration of the tags, their
//! classification, and the conversions between a tag and its wire token.
//!
//! Each function appends its part of the text to a buffer; what it appends is
//! given by a spec function of the entries.

use vstd::prelude::*;
use vstd::string::StringExecFns;
use crate::gen::parser::{views_of, Code, CodeView};

verus! {

/// The texts that `part` gives for the entries, one after the other.
pub open spec fn for_each(codes: Seq<CodeView>, part: spec_fn(CodeView) -> Seq<char>) -> Seq<char>
    decreases codes.len(),
{
    if codes.len() == 0 {
        Seq::empty()
    } else {
        for_each(codes.drop_last(), part) + part(codes.last())
    }
}

proof fn lemma_for_each_next(codes: Seq<CodeView>, part: spec_fn(CodeView) -> Seq<char>, i: int)
    requires
        0 <= i < codes.len(),
    ensures
        for_each(codes.take(i + 1), part) == for_each(codes.take(i), part) + part(codes[i]),
{
    assert(codes.take(i + 1).drop_last() =~= codes.take(i));
}

/// The lines of a tag in the enumeration: its description and its identifier.
pub open spec fn enum_variant(code: CodeView) -> Seq<char> {
    "    /// "@ + code.code + " = \""@ + code.value + "\"\n"@ + "    "@ + code.format_code + ",\n"@
}

/// The arm that says of a reply that it is one; nothing for any other tag.
pub open spec fn reply_arm(code: CodeView) -> Seq<char> {
    if code.is_reply {
        "            Code::"@ + code.format_code + " => true,\n"@
    } else {
        Seq::empty()
    }
}

/// The arm that says of an error that it is one; nothing for any other tag.
pub open spec fn error_arm(code: CodeView) -> Seq<char> {
    if code.is_error {
        "            Code::"@ + code.format_code + " => true,\n"@
    } else {
        Seq::empty()
    }
}

/// The arm that writes the wire token of a tag.
pub open spec fn display_arm(code: CodeView) -> Seq<char> {
    "            Code::"@ + code.format_code + " => write!(f, "@ + code.format_value + "),\n"@
}

/// The arm that reads the wire token of a tag.
pub open spec fn fromstr_arm(code: CodeView) -> Seq<char> {
    "            "@ + code.format_value + " => Code::"@ + code.format_code + ",\n"@
}

/// The comment and the imports at the head of the text.
pub open spec fn header_text() -> Seq<char> {
    "// This file was generated automatically.\n"@
        + "// See `gen/` folder and `build.rs` at the project root.\n"@
        + "\n"@
        + "use std::{convert::Infallible, fmt, str};\n"@
}

/// The enumeration of the tags, with the open tag at its end.
pub open spec fn enum_text(codes: Seq<CodeView>) -> Seq<char> {
    "/// Representation of IRC commands, replies and errors.\n"@
        + "#[derive(Clone, Debug, Eq, PartialEq)]\n"@
        + "pub enum Code {\n"@
        + for_each(codes, |code: CodeView| enum_variant(code))
        + "    /// Codes that are unknown end up in here.\n"@
        + "    Unknown(String),\n"@
        + "}\n"@
}

/// The two methods that classify a tag.
pub open spec fn methods_text(codes: Seq<CodeView>) -> Seq<char> {
    "impl Code {\n"@
        + "    /// Checks if the code is a reply.\n"@
        + "    pub fn is_reply(&self) -> bool {\n"@
        + "        match *self {\n"@
        + for_each(codes, |code: CodeView| reply_arm(code))
        + "            _  => false,\n"@
        + "        }\n"@
        + "    }\n"@
        + "\n"@
        + "    /// Check if the code is en error.\n"@
        + "    pub fn is_error(&self) -> bool {\n"@
        + "        match *self {\n"@
        + for_each(codes, |code: CodeView| error_arm(code))
        + "            _  => false,\n"@
        + "        }\n"@
        + "    }\n"@
        + "}\n"@
}

/// The conversion of a tag into its wire token.
pub open spec fn display_text(codes: Seq<CodeView>) -> Seq<char> {
    "impl fmt::Display for Code {\n"@
        + "\n"@
        + "    fn fmt(&self, f: &mut fmt::Formatter) -> fmt::Result {\n"@
        + "        match *self {\n"@
        + for_each(codes, |code: CodeView| display_arm(code))
        + "            Code::Unknown(ref text) => write!(f, \"{}\", text),\n"@
        + "        }\n"@
        + "    }\n"@
        + "}\n"@
}

/// The conversion of a wire token into its tag.
pub open spec fn fromstr_text(codes: Seq<CodeView>) -> Seq<char> {
    "impl str::FromStr for Code {\n"@
        + "    type Err = Infallible;\n"@
        + "\n"@
        + "    fn from_str(s: &str) -> Result<Self, Self::Err> {\n"@
        + "        let code = match s {\n"@
        + for_each(codes, |code: CodeView| fromstr_arm(code))
        + "            _ => Code::Unknown(s.to_string()),\n"@
        + "        };\n"@
        + "        Ok(code)\n"@
        + "    }\n"@
        + "}\n"@
}

/// The whole text: the head and the four parts, an empty line before each part.
pub open spec fn code_text(codes: Seq<CodeView>) -> Seq<char> {
    header_text() + "\n"@ + enum_text(codes) + "\n"@ + methods_text(codes) + "\n"@ + display_text(
        codes,
    ) + "\n"@ + fromstr_text(codes)
}

/// Appends the comment and the imports at the head of the text.
fn gen_header(out: &mut String)
    ensures
        final(out)@ == old(out)@ + header_text(),
{
    let ghost start = out@;
    out.append("// This file was generated automatically.\n");
    out.append("// See `gen/` folder and `build.rs` at the project root.\n");
    out.append("\n");
    out.append("use std::{convert::Infallible, fmt, str};\n");
    assert(out@ =~= start + header_text());
}

/// Appends the enumeration of the tags.
fn gen_enum(out: &mut String, codes: &[Code])
    ensures
        final(out)@ == old(out)@ + enum_text(views_of(codes@)),
{
    let ghost start = out@;
    let ghost entries = views_of(codes@);
    out.append("/// Representation of IRC commands, replies and errors.\n");
    out.append("#[derive(Clone, Debug, Eq, PartialEq)]\n");
    out.append("pub enum Code {\n");
    let ghost before = out@;
    let ghost part = |code: CodeView| enum_variant(code);
    let mut i: usize = 0;
    assert(out@ =~= before + for_each(entries.take(0), part));
    while i < codes.len()
        invariant
            i <= codes@.len(),
            entries == views_of(codes@),
            forall|c: CodeView| #[trigger] part(c) == enum_variant(c),
            out@ == before + for_each(entries.take(i as int), part),
        decreases codes@.len() - i,
    {
        let code = &codes[i];
        let ghost so_far = out@;
        proof {
            lemma_for_each_next(entries, part, i as int);
            assert(entries[i as int] == code@);
        }
        out.append("    /// ");
        out.append(code.code.as_str());
        out.append(" = \"");
        out.append(code.value.as_str());
        out.append("\"\n");
        out.append("    ");
        out.append(code.format_code.as_str());
        out.append(",\n");
        assert(out@ =~= so_far + enum_variant(code@));
        i = i + 1;
    }
    assert(entries.take(i as int) =~= entries);
    out.append("    /// Codes that are unknown end up in here.\n");
    out.append("    Unknown(String),\n");
    out.append("}\n");
    assert(out@ =~= start + enum_text(entries));
}

/// Appends the two methods that classify a tag.
fn gen_methods(out: &mut String, codes: &[Code])
    ensures
        final(out)@ == old(out)@ + methods_text(views_of(codes@)),
{
    let ghost start = out@;
    let ghost entries = views_of(codes@);
    out.append("impl Code {\n");
    out.append("    /// Checks if the code is a reply.\n");
    out.append("    pub fn is_reply(&self) -> bool {\n");
    out.append("        match *self {\n");
    let ghost before = out@;
    let ghost part = |code: CodeView| reply_arm(code);
    let mut i: usize = 0;
    assert(out@ =~= before + for_each(entries.take(0), part));
    while i < codes.len()
        invariant
            i <= codes@.len(),
            entries == views_of(codes@),
            forall|c: CodeView| #[trigger] part(c) == reply_arm(c),
            out@ == before + for_each(entries.take(i as int), part),
        decreases codes@.len() - i,
    {
        let code = &codes[i];
        let ghost so_far = out@;
        proof {
            lemma_for_each_next(entries, part, i as int);
            assert(entries[i as int] == code@);
        }
        if code.is_reply {
            out.append("            Code::");
            out.append(code.format_code.as_str());
            out.append(" => true,\n");
        }
        assert(out@ =~= so_far + reply_arm(code@));
        i = i + 1;
    }
    assert(entries.take(i as int) =~= entries);
    out.append("            _  => false,\n");
    out.append("        }\n");
    out.append("    }\n");
    out.append("\n");
    out.append("    /// Check if the code is en error.\n");
    out.append("    pub fn is_error(&self) -> bool {\n");
    out.append("        match *self {\n");
    let ghost before = out@;
    let ghost part = |code: CodeView| error_arm(code);
    let mut i: usize = 0;
    assert(out@ =~= before + for_each(entries.take(0), part));
    while i < codes.len()
        invariant
            i <= codes@.len(),
            entries == views_of(codes@),
            forall|c: CodeView| #[trigger] part(c) == error_arm(c),
            out@ == before + for_each(entries.take(i as int), part),
        decreases codes@.len() - i,
    {
        let code = &codes[i];
        let ghost so_far = out@;
        proof {
            lemma_for_each_next(entries, part, i as int);
            assert(entries[i as int] == code@);
        }
        if code.is_error {
            out.append("            Code::");
            out.append(code.format_code.as_str());
            out.append(" => true,\n");
        }
        assert(out@ =~= so_far + error_arm(code@));
        i = i + 1;
    }
    assert(entries.take(i as int) =~= entries);
    out.append("            _  => false,\n");
    out.append("        }\n");
    out.append("    }\n");
    out.append("}\n");
    assert(out@ =~= start + methods_text(entries));
}

/// Appends the conversion of a tag into its wire token.
fn gen_display(out: &mut String, codes: &[Code])
    ensures
        final(out)@ == old(out)@ + display_text(views_of(codes@)),
{
    let ghost start = out@;
    let ghost entries = views_of(codes@);
    out.append("impl fmt::Display for Code {\n");
    out.append("\n");
    out.append("    fn fmt(&self, f: &mut fmt::Formatter) -> fmt::Result {\n");
    out.append("        match *self {\n");
    let ghost before = out@;
    let ghost part = |code: CodeView| display_arm(code);
    let mut i: usize = 0;
    assert(out@ =~= before + for_each(entries.take(0), part));
    while i < codes.len()
        invariant
            i <= codes@.len(),
            entries == views_of(codes@),
            forall|c: CodeView| #[trigger] part(c) == display_arm(c),
            out@ == before + for_each(entries.take(i as int), part),
        decreases codes@.len() - i,
    {
        let code = &codes[i];
        let ghost so_far = out@;
        proof {
            lemma_for_each_next(entries, part, i as int);
            assert(entries[i as int] == code@);
        }
        out.append("            Code::");
        out.append(code.format_code.as_str());
        out.append(" => write!(f, ");
        out.append(code.format_value.as_str());
        out.append("),\n");
        assert(out@ =~= so_far + display_arm(code@));
        i = i + 1;
    }
    assert(entries.take(i as int) =~= entries);
    out.append("            Code::Unknown(ref text) => write!(f, \"{}\", text),\n");
    out.append("        }\n");
    out.append("    }\n");
    out.append("}\n");
    assert(out@ =~= start + display_text(entries));
}

/// Appends the conversion of a wire token into its tag.
fn gen_fromstr(out: &mut String, codes: &[Code])
    ensures
        final(out)@ == old(out)@ + fromstr_text(views_of(codes@)),
{
    let ghost start = out@;
    let ghost entries = views_of(codes@);
    out.append("impl str::FromStr for Code {\n");
    out.append("    type Err = Infallible;\n");
    out.append("\n");
    out.append("    fn from_str(s: &str) -> Result<Self, Self::Err> {\n");
    out.append("        let code = match s {\n");
    let ghost before = out@;
    let ghost part = |code: CodeView| fromstr_arm(code);
    let mut i: usize = 0;
    assert(out@ =~= before + for_each(entries.take(0), part));
    while i < codes.len()
        invariant
            i <= codes@.len(),
            entries == views_of(codes@),
            forall|c: CodeView| #[trigger] part(c) == fromstr_arm(c),
            out@ == before + for_each(entries.take(i as int), part),
        decreases codes@.len() - i,
    {
        let code = &codes[i];
        let ghost so_far = out@;
        proof {
            lemma_for_each_next(entries, part, i as int);
            assert(entries[i as int] == code@);
        }
        out.append("            ");
        out.append(code.format_value.as_str());
        out.append(" => Code::");
        out.append(code.format_code.as_str());
        out.append(",\n");
        assert(out@ =~= so_far + fromstr_arm(code@));
        i = i + 1;
    }
    assert(entries.take(i as int) =~= entries);
    out.append("            _ => Code::Unknown(s.to_string()),\n");
    out.append("        };\n");
    out.append("        Ok(code)\n");
    out.append("    }\n");
    out.append("}\n");
    assert(out@ =~= start + fromstr_text(entries));
}

/// Appends the source text of the table that `codes` describes.
pub fn gen_code(codes: &[Code], out: &mut String)
    ensures
        final(out)@ == old(out)@ + code_text(views_of(codes@)),
{
    let ghost start = out@;
    let ghost entries = views_of(codes@);
    gen_header(out);
    out.append("\n");
    gen_enum(out, codes);
    out.append("\n");
    gen_methods(out, codes);
    out.append("\n");
    gen_display(out, codes);
    out.append("\n");
    gen_fromstr(out, codes);
    assert(out@ =~= start + code_text(entries));
}

} // verus!
