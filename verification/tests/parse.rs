use yaircc::{Code, Message, ParseError, Prefix, PrefixUser};

fn texts(args: &[&str]) -> Vec<String> {
    args.iter().map(|a| a.to_string()).collect()
}

#[test]
fn parse_privmsg_with_user_prefix() {
    let msg = Message::parse(":nick!user@host PRIVMSG #chan :hello there\n").unwrap();
    match msg.prefix {
        Some(Prefix::User(ref user)) => {
            assert_eq!(user.nickname, "nick");
            assert_eq!(user.username.as_deref(), Some("user"));
            assert_eq!(user.hostname.as_deref(), Some("host"));
        }
        ref other => panic!("unexpected prefix {:?}", other),
    }
    assert_eq!(msg.code, Code::Privmsg);
    assert_eq!(msg.args, texts(&["#chan", "hello there"]));
}

#[test]
fn parse_ping_without_prefix() {
    let msg = Message::parse("PING :server.example\n").unwrap();
    assert_eq!(msg.prefix, None);
    assert_eq!(msg.code, Code::Ping);
    assert_eq!(msg.args, texts(&["server.example"]));
}

#[test]
fn parse_unknown_command() {
    let msg = Message::parse("FOOBAR arg1\n").unwrap();
    assert_eq!(msg.prefix, None);
    assert_eq!(msg.code, Code::Unknown("FOOBAR".to_string()));
    assert_eq!(msg.args, texts(&["arg1"]));
}

#[test]
fn parse_empty_line_is_an_error() {
    assert_eq!(Message::parse(""), Err(ParseError::EmptyLine));
    assert_eq!(Message::parse("\n"), Err(ParseError::EmptyLine));
    assert_eq!(Message::parse("\r\n"), Err(ParseError::EmptyLine));
    assert_eq!(Message::parse("\r"), Err(ParseError::EmptyLine));
}

#[test]
fn parse_missing_command_is_an_error() {
    assert_eq!(Message::parse(":prefix.only\n"), Err(ParseError::MissingCommand));
    assert_eq!(Message::parse(":prefix.only \n"), Err(ParseError::MissingCommand));
    assert_eq!(Message::parse(":\n"), Err(ParseError::MissingCommand));
    assert_eq!(Message::parse(" \n"), Err(ParseError::MissingCommand));
    assert_eq!(Message::parse("   "), Err(ParseError::MissingCommand));
    assert_eq!(Message::parse(":irc.example  PING\n"), Err(ParseError::MissingCommand));
    assert_eq!(Message::parse(" PING\n"), Err(ParseError::MissingCommand));
}

#[test]
fn parse_error_messages() {
    assert_eq!(ParseError::EmptyLine.message(), "empty line");
    assert_eq!(ParseError::MissingCommand.message(), "missing command");
}

#[test]
fn line_terminator_is_ignored() {
    let plain = Message::parse("PING :x").unwrap();
    assert_eq!(Message::parse("PING :x\n").unwrap(), plain);
    assert_eq!(Message::parse("PING :x\r\n").unwrap(), plain);
    assert_eq!(Message::parse("PING :x\r").unwrap(), plain);
    assert_eq!(plain.args, texts(&["x"]));
    // only one terminator is taken off
    assert_eq!(Message::parse("PING :x\n\n").unwrap().args, texts(&["x\n"]));
    assert_eq!(Message::parse("PING :x\r\r\n").unwrap().args, texts(&["x\r"]));
}

#[test]
fn server_prefix() {
    let msg = Message::parse(":irc.example.net 001 me :Welcome to the network\r\n").unwrap();
    assert_eq!(msg.prefix, Some(Prefix::Server("irc.example.net".to_string())));
    assert_eq!(msg.code, Code::RplWelcome);
    assert_eq!(msg.args, texts(&["me", "Welcome to the network"]));
}

#[test]
fn user_prefix_shapes() {
    let user = |nick: &str, user: Option<&str>, host: Option<&str>| {
        Some(Prefix::User(PrefixUser {
            nickname: nick.to_string(),
            username: user.map(|s| s.to_string()),
            hostname: host.map(|s| s.to_string()),
        }))
    };
    assert_eq!(Message::parse(":n!u@h QUIT").unwrap().prefix, user("n", Some("u"), Some("h")));
    assert_eq!(Message::parse(":n!u QUIT").unwrap().prefix, user("n", Some("u"), None));
    assert_eq!(Message::parse(":n@h QUIT").unwrap().prefix, user("n", None, Some("h")));
    assert_eq!(Message::parse(":n! QUIT").unwrap().prefix, user("n", Some(""), None));
    assert_eq!(Message::parse(":n!@ QUIT").unwrap().prefix, user("n", Some(""), Some("")));
    assert_eq!(Message::parse(":!u@h QUIT").unwrap().prefix, user("", Some("u"), Some("h")));
    assert_eq!(
        Message::parse(":n@h!u@x@y QUIT").unwrap().prefix,
        user("n@h", Some("u"), Some("x@y"))
    );
    assert_eq!(
        Message::parse(":n QUIT").unwrap().prefix,
        Some(Prefix::Server("n".to_string()))
    );
}

#[test]
fn arguments_are_split_on_single_spaces() {
    assert_eq!(Message::parse("MODE #chan +o nick").unwrap().args, texts(&["#chan", "+o", "nick"]));
    assert_eq!(Message::parse("JOIN").unwrap().args, Vec::<String>::new());
    assert_eq!(Message::parse("JOIN ").unwrap().args, Vec::<String>::new());
    assert_eq!(Message::parse("JOIN #a ").unwrap().args, texts(&["#a"]));
    assert_eq!(Message::parse("JOIN #a  #b").unwrap().args, texts(&["#a", "", "#b"]));
    assert_eq!(Message::parse("JOIN  #a").unwrap().args, texts(&["", "#a"]));
}

#[test]
fn trailing_argument_keeps_the_rest() {
    assert_eq!(Message::parse("PRIVMSG #c :a  b :c ").unwrap().args, texts(&["#c", "a  b :c "]));
    assert_eq!(Message::parse("PRIVMSG #c :").unwrap().args, texts(&["#c", ""]));
    assert_eq!(Message::parse("PRIVMSG :").unwrap().args, texts(&[""]));
    assert_eq!(Message::parse("PRIVMSG #c ::x").unwrap().args, texts(&["#c", ":x"]));
    // a colon inside an argument is no marker
    assert_eq!(Message::parse("PRIVMSG a:b c").unwrap().args, texts(&["a:b", "c"]));
}

#[test]
fn text_beyond_ascii() {
    let msg = Message::parse(":zoë!z@höst PRIVMSG #café :grüß dich ✓\n").unwrap();
    assert_eq!(
        msg.prefix,
        Some(Prefix::User(PrefixUser {
            nickname: "zoë".to_string(),
            username: Some("z".to_string()),
            hostname: Some("höst".to_string()),
        }))
    );
    assert_eq!(msg.args, texts(&["#café", "grüß dich ✓"]));
}

#[test]
fn command_matching_is_exact() {
    assert_eq!(
        Message::parse("ping :x").unwrap().code,
        Code::Unknown("ping".to_string())
    );
}
