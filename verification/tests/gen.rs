use yaircc::gen::codegen::gen_code;
use yaircc::gen::parser::{capfirst, Code};

#[test]
fn capfirst_examples() {
    assert_eq!(capfirst("PRIVMSG"), "Privmsg");
    assert_eq!(capfirst("rpl"), "Rpl");
    assert_eq!(capfirst("x"), "X");
    assert_eq!(capfirst("ADMINLOC1"), "Adminloc1");
    assert_eq!(capfirst("éCOLE"), "école");
}

#[test]
fn format_code_examples() {
    assert_eq!(Code::format_code("RPL_WELCOME", true, false), "RplWelcome");
    assert_eq!(Code::format_code("ERR_NOSUCHNICK", false, true), "ErrNosuchnick");
    assert_eq!(Code::format_code("PRIVMSG", false, false), "Privmsg");
    // only the first two parts of a marked name are used
    assert_eq!(Code::format_code("RPL_TRACE_LINK", true, false), "RplTrace");
    // an unmarked name is capitalised as a whole
    assert_eq!(Code::format_code("SOME_THING", false, false), "Some_thing");
}

#[test]
fn format_value_examples() {
    assert_eq!(Code::format_value("001"), "\"001\"");
    assert_eq!(Code::format_value("privmsg"), "\"PRIVMSG\"");
    assert_eq!(Code::format_value(""), "\"\"");
}

#[test]
fn from_iter_reads_pairs_of_lines() {
    let codes = Code::from_iter("RPL_WELCOME\n001\nERR_NOSUCHNICK\n401\nPRIVMSG\nprivmsg\n".split('\n'));
    assert_eq!(
        codes,
        vec![
            Code {
                code: "RPL_WELCOME".to_string(),
                value: "001".to_string(),
                is_reply: true,
                is_error: false,
                format_code: "RplWelcome".to_string(),
                format_value: "\"001\"".to_string(),
            },
            Code {
                code: "ERR_NOSUCHNICK".to_string(),
                value: "401".to_string(),
                is_reply: false,
                is_error: true,
                format_code: "ErrNosuchnick".to_string(),
                format_value: "\"401\"".to_string(),
            },
            Code {
                code: "PRIVMSG".to_string(),
                value: "privmsg".to_string(),
                is_reply: false,
                is_error: false,
                format_code: "Privmsg".to_string(),
                format_value: "\"PRIVMSG\"".to_string(),
            },
        ]
    );
}

#[test]
fn from_iter_leaves_out_a_line_without_partner() {
    assert_eq!(Code::from_iter("".split('\n')), Vec::<Code>::new());
    assert_eq!(Code::from_iter(std::iter::empty()), Vec::<Code>::new());
    assert_eq!(Code::from_iter(vec!["PING", "PING", "PONG"].into_iter()).len(), 1);
}

#[test]
fn markers_are_told_by_the_name_alone() {
    let codes = Code::from_iter(vec!["RPL_X", "1", "ERR_X", "2", "Rpl_x", "3", "XRPL_Y", "4"].into_iter());
    let flags: Vec<(bool, bool)> = codes.iter().map(|c| (c.is_reply, c.is_error)).collect();
    assert_eq!(flags, vec![(true, false), (false, true), (false, false), (false, false)]);
}

#[test]
fn gen_code_writes_the_table() {
    let codes = Code::from_iter(vec!["RPL_WELCOME", "001", "ERR_NOSUCHNICK", "401", "PING", "ping"].into_iter());
    let mut text = String::new();
    gen_code(&codes, &mut text);
    let expected = "\
// This file was generated automatically.
// See `gen/` folder and `build.rs` at the project root.

use std::{convert::Infallible, fmt, str};

/// Representation of IRC commands, replies and errors.
#[derive(Clone, Debug, Eq, PartialEq)]
pub enum Code {
    /// RPL_WELCOME = \"001\"
    RplWelcome,
    /// ERR_NOSUCHNICK = \"401\"
    ErrNosuchnick,
    /// PING = \"ping\"
    Ping,
    /// Codes that are unknown end up in here.
    Unknown(String),
}

impl Code {
    /// Checks if the code is a reply.
    pub fn is_reply(&self) -> bool {
        match *self {
            Code::RplWelcome => true,
            _  => false,
        }
    }

    /// Check if the code is en error.
    pub fn is_error(&self) -> bool {
        match *self {
            Code::ErrNosuchnick => true,
            _  => false,
        }
    }
}

impl fmt::Display for Code {

    fn fmt(&self, f: &mut fmt::Formatter) -> fmt::Result {
        match *self {
            Code::RplWelcome => write!(f, \"001\"),
            Code::ErrNosuchnick => write!(f, \"401\"),
            Code::Ping => write!(f, \"PING\"),
            Code::Unknown(ref text) => write!(f, \"{}\", text),
        }
    }
}

impl str::FromStr for Code {
    type Err = Infallible;

    fn from_str(s: &str) -> Result<Self, Self::Err> {
        let code = match s {
            \"001\" => Code::RplWelcome,
            \"401\" => Code::ErrNosuchnick,
            \"PING\" => Code::Ping,
            _ => Code::Unknown(s.to_string()),
        };
        Ok(code)
    }
}
";
    assert_eq!(text, expected);
}

#[test]
fn gen_code_appends_to_what_is_there() {
    let mut text = String::from("// head\n");
    gen_code(&[], &mut text);
    assert!(text.starts_with("// head\n// This file"));
    assert!(text.contains("pub enum Code {\n    /// Codes that are unknown end up in here.\n"));
}
