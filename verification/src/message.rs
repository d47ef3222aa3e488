//! The grammar of a protocol line and the parser for it.
//!
//! A line is an optional prefix, a command token and arguments, separated by
//! single spaces:
//!
//! ```text
//! [":" prefix " "] command {" " argument} [" :" trailing]
//! ```
//!
//! A line terminator at the end (a line feed, a carriage return before it) is
//! ignored. Consecutive spaces are not collapsed: each space ends a token, and
//! an empty command token is an error.

use vstd::prelude::*;
use vstd::string::StrSliceExecFns;
use crate::code::Code;
use crate::scan::{absent, lemma_position_facts};
use crate::text::{after_word, find, first_word, split_word, word_end};

verus! {

/// The sender of a message where it is a user.
#[derive(Clone, Debug, PartialEq, Eq)]
pub struct PrefixUser {
    pub nickname: String,
    pub username: Option<String>,
    pub hostname: Option<String>,
}

/// The sender of a message.
#[derive(Clone, Debug, PartialEq, Eq)]
pub enum Prefix {
    /// A user: `nickname[!username][@hostname]`.
    User(PrefixUser),
    /// A server, by its name.
    Server(String),
}

/// A parsed line.
#[derive(Clone, Debug, PartialEq, Eq)]
pub struct Message {
    pub prefix: Option<Prefix>,
    pub code: Code,
    /// The arguments in the order of the line. Only the last may hold spaces.
    pub args: Vec<String>,
}

/// Why a line is no message.
#[derive(Clone, Copy, Debug, PartialEq, Eq)]
pub enum ParseError {
    /// The line holds nothing but, at most, its terminator.
    EmptyLine,
    /// No command token stands where one is due: the line ends after its
    /// prefix, or a space stands in the command's place.
    MissingCommand,
}

pub struct PrefixUserView {
    pub nickname: Seq<char>,
    pub username: Option<Seq<char>>,
    pub hostname: Option<Seq<char>>,
}

pub enum PrefixView {
    User(PrefixUserView),
    Server(Seq<char>),
}

/// A message as a mathematical value: the code is given by its wire token.
pub struct MessageView {
    pub prefix: Option<PrefixView>,
    pub command: Seq<char>,
    pub args: Seq<Seq<char>>,
}

/// The view of an optional text.
pub open spec fn text_of(text: Option<String>) -> Option<Seq<char>> {
    match text {
        Some(t) => Some(t@),
        None => None,
    }
}

/// The views of a list of texts.
pub open spec fn texts_of(texts: Seq<String>) -> Seq<Seq<char>> {
    texts.map_values(|t: String| t@)
}

impl View for PrefixUser {
    type V = PrefixUserView;

    open spec fn view(&self) -> PrefixUserView {
        PrefixUserView {
            nickname: self.nickname@,
            username: text_of(self.username),
            hostname: text_of(self.hostname),
        }
    }
}

impl View for Prefix {
    type V = PrefixView;

    open spec fn view(&self) -> PrefixView {
        match *self {
            Prefix::User(user) => PrefixView::User(user@),
            Prefix::Server(name) => PrefixView::Server(name@),
        }
    }
}

impl View for Message {
    type V = MessageView;

    open spec fn view(&self) -> MessageView {
        MessageView {
            prefix: match self.prefix {
                Some(prefix) => Some(prefix@),
                None => None,
            },
            command: self.code.wire(),
            args: texts_of(self.args@),
        }
    }
}

/// `line` without the terminator at its end: a line feed, and a carriage
/// return before it or in its place.
pub open spec fn strip_eol(line: Seq<char>) -> Seq<char> {
    let body = if line.len() > 0 && line.last() == '\n' {
        line.drop_last()
    } else {
        line
    };
    if body.len() > 0 && body.last() == '\r' {
        body.drop_last()
    } else {
        body
    }
}

/// The sender that a prefix token names. A token with `!` or `@` names a
/// user: the nickname ends at the first `!`, the user name stands between it
/// and the first `@` after it, the host name after that; without `!` the
/// nickname ends at the first `@`. Any other token names a server.
pub open spec fn prefix_of(token: Seq<char>) -> PrefixView {
    if word_end(token, '!') < token.len() {
        let rest = after_word(token, '!');
        PrefixView::User(
            PrefixUserView {
                nickname: first_word(token, '!'),
                username: Some(first_word(rest, '@')),
                hostname: if word_end(rest, '@') < rest.len() {
                    Some(after_word(rest, '@'))
                } else {
                    None
                },
            },
        )
    } else if word_end(token, '@') < token.len() {
        PrefixView::User(
            PrefixUserView {
                nickname: first_word(token, '@'),
                username: None,
                hostname: Some(after_word(token, '@')),
            },
        )
    } else {
        PrefixView::Server(token)
    }
}

/// The arguments that `rest` holds. Each space ends an argument; an argument
/// that begins with `:` is the last one and takes the rest as it is, spaces
/// included, without the `:`.
pub open spec fn arguments(rest: Seq<char>) -> Seq<Seq<char>>
    decreases rest.len(),
{
    if rest.len() == 0 {
        Seq::empty()
    } else if rest[0] == ':' {
        seq![rest.subrange(1, rest.len() as int)]
    } else {
        seq![first_word(rest, ' ')] + arguments(after_word(rest, ' '))
    }
}

/// What follows the prefix of a line, and the whole line where it has none.
pub open spec fn after_prefix(body: Seq<char>) -> Seq<char> {
    if body.len() > 0 && body[0] == ':' {
        after_word(body, ' ')
    } else {
        body
    }
}

/// The message that a line holds, or the reason why it holds none.
pub open spec fn parse_line(line: Seq<char>) -> Result<MessageView, ParseError> {
    let body = strip_eol(line);
    let rest = after_prefix(body);
    let command = first_word(rest, ' ');
    if body.len() == 0 {
        Err(ParseError::EmptyLine)
    } else if command.len() == 0 {
        Err(ParseError::MissingCommand)
    } else {
        Ok(
            MessageView {
                prefix: if body[0] == ':' {
                    Some(prefix_of(first_word(body, ' ').subrange(1, word_end(body, ' '))))
                } else {
                    None
                },
                command,
                args: arguments(after_word(rest, ' ')),
            },
        )
    }
}

/// `line` without the terminator at its end.
fn without_eol<'a>(line: &'a str) -> (body: &'a str)
    ensures
        body@ == strip_eol(line@),
{
    let n: usize = line.unicode_len();
    let mut end: usize = n;
    if end > 0 && line.get_char(end - 1) == '\n' {
        end = end - 1;
    }
    assert(line@.subrange(0, end as int) =~= if n > 0 && line@.last() == '\n' {
        line@.drop_last()
    } else {
        line@
    });
    if end > 0 && line.get_char(end - 1) == '\r' {
        end = end - 1;
    }
    let body = line.substring_char(0, end);
    assert(body@ =~= strip_eol(line@));
    body
}

/// The sender that a prefix token names.
fn parse_prefix(token: &str) -> (prefix: Prefix)
    ensures
        prefix@ == prefix_of(token@),
{
    match find(token, '!') {
        Some(_) => {
            proof {
                lemma_position_facts(token@, '!');
            }
            let (nickname, rest) = split_word(token, '!');
            let (username, hostname) = split_word(rest, '@');
            let hostname = match find(rest, '@') {
                Some(_) => {
                    proof {
                        lemma_position_facts(rest@, '@');
                    }
                    Some(hostname.to_owned())
                },
                None => None,
            };
            Prefix::User(
                PrefixUser {
                    nickname: nickname.to_owned(),
                    username: Some(username.to_owned()),
                    hostname,
                },
            )
        },
        None => match find(token, '@') {
            Some(_) => {
                proof {
                    lemma_position_facts(token@, '@');
                }
                let (nickname, hostname) = split_word(token, '@');
                Prefix::User(
                    PrefixUser {
                        nickname: nickname.to_owned(),
                        username: None,
                        hostname: Some(hostname.to_owned()),
                    },
                )
            },
            None => Prefix::Server(token.to_owned()),
        },
    }
}

/// The arguments that `rest` holds.
fn parse_args(rest: &str) -> (args: Vec<String>)
    ensures
        texts_of(args@) == arguments(rest@),
{
    let mut args: Vec<String> = Vec::new();
    let mut left: &str = rest;
    let mut n: usize = left.unicode_len();
    assert(texts_of(args@) =~= Seq::<Seq<char>>::empty());
    while n > 0
        invariant
            n == left@.len(),
            arguments(rest@) == texts_of(args@) + arguments(left@),
        decreases n,
    {
        let ghost before = texts_of(args@);
        if left.get_char(0) == ':' {
            let last = left.substring_char(1, n);
            args.push(last.to_owned());
            assert(texts_of(args@) =~= before + arguments(left@));
            assert(arguments(rest@) == texts_of(args@));
            return args;
        }
        let (word, after) = split_word(left, ' ');
        args.push(word.to_owned());
        assert(texts_of(args@) =~= before + seq![word@]);
        assert(before + arguments(left@) =~= texts_of(args@) + arguments(after@));
        left = after;
        n = left.unicode_len();
    }
    assert(texts_of(args@) + arguments(left@) =~= texts_of(args@));
    args
}

impl ParseError {
    /// The diagnostic in words.
    pub open spec fn spec_message(&self) -> Seq<char> {
        match *self {
            ParseError::EmptyLine => "empty line"@,
            ParseError::MissingCommand => "missing command"@,
        }
    }

    /// The diagnostic in words.
    pub fn message(&self) -> (text: String)
        ensures
            text@ == self.spec_message(),
    {
        match *self {
            ParseError::EmptyLine => "empty line".to_owned(),
            ParseError::MissingCommand => "missing command".to_owned(),
        }
    }
}

impl Message {
    /// Parses one line. The line is a message exactly when its command token
    /// is not empty; a command that the table does not know is no error.
    pub fn parse(line: &str) -> (parsed: Result<Message, ParseError>)
        ensures
            match parse_line(line@) {
                Ok(message) => parsed matches Ok(m) && m@ == message && m.code.stands_for(
                    message.command,
                ),
                Err(error) => parsed == Err::<Message, ParseError>(error),
            },
    {
        let body = without_eol(line);
        let len: usize = body.unicode_len();
        if len == 0 {
            return Err(ParseError::EmptyLine);
        }
        let (prefix, rest) = if body.get_char(0) == ':' {
            let (token, rest) = split_word(body, ' ');
            let end: usize = token.unicode_len();
            (Some(parse_prefix(token.substring_char(1, end))), rest)
        } else {
            (None, body)
        };
        let (command, rest) = split_word(rest, ' ');
        if command.unicode_len() == 0 {
            return Err(ParseError::MissingCommand);
        }
        let code = Code::from_token(command);
        let args = parse_args(rest);
        Ok(Message { prefix, code, args })
    }
}

/// Of the arguments of a line only the last can hold a space.
pub proof fn lemma_only_last_argument_has_spaces(rest: Seq<char>, k: int)
    requires
        0 <= k < arguments(rest).len() - 1,
    ensures
        absent(arguments(rest)[k], ' '),
    decreases rest.len(),
{
    if rest.len() > 0 && rest[0] != ':' {
        lemma_position_facts(rest, ' ');
        if k > 0 {
            lemma_only_last_argument_has_spaces(after_word(rest, ' '), k - 1);
        }
    }
}

/// A message's command token is never empty and holds no space.
pub proof fn lemma_command_is_a_word(line: Seq<char>)
    requires
        parse_line(line) is Ok,
    ensures
        parse_line(line)->Ok_0.command.len() > 0,
        absent(parse_line(line)->Ok_0.command, ' '),
{
    lemma_position_facts(after_prefix(strip_eol(line)), ' ');
}

} // verus!
