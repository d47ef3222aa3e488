use yaircc::code::Code;

#[test]
fn known_tokens_give_their_tags() {
    assert_eq!(Code::from_token("PRIVMSG"), Code::Privmsg);
    assert_eq!(Code::from_token("PING"), Code::Ping);
    assert_eq!(Code::from_token("JOIN"), Code::Join);
    assert_eq!(Code::from_token("001"), Code::RplWelcome);
    assert_eq!(Code::from_token("353"), Code::RplNamreply);
    assert_eq!(Code::from_token("433"), Code::ErrNicknameinuse);
    assert_eq!(Code::from_token("502"), Code::ErrUsersdontmatch);
}

#[test]
fn other_tokens_give_the_open_tag() {
    assert_eq!(Code::from_token("FOOBAR"), Code::Unknown("FOOBAR".to_string()));
    assert_eq!(Code::from_token("999"), Code::Unknown("999".to_string()));
    assert_eq!(Code::from_token(""), Code::Unknown(String::new()));
}

#[test]
fn matching_is_exact() {
    assert_eq!(Code::from_token("privmsg"), Code::Unknown("privmsg".to_string()));
    assert_eq!(Code::from_token("PING "), Code::Unknown("PING ".to_string()));
    assert_eq!(Code::from_token("1"), Code::Unknown("1".to_string()));
}

#[test]
fn tags_give_their_tokens() {
    assert_eq!(Code::Privmsg.to_wire(), "PRIVMSG");
    assert_eq!(Code::RplWelcome.to_wire(), "001");
    assert_eq!(Code::ErrNosuchnick.to_wire(), "401");
    assert_eq!(Code::Unknown("FOOBAR".to_string()).to_wire(), "FOOBAR");
}

#[test]
fn token_of_a_tag_reads_back_as_the_tag() {
    let tags = [
        Code::Pass,
        Code::Nick,
        Code::Quit,
        Code::Who,
        Code::Whois,
        Code::Whowas,
        Code::RplBounce,
        Code::RplEndofnames,
        Code::RplAdminloc1,
        Code::ErrNeedmoreparams,
        Code::ErrUmodeunknownflag,
    ];
    for tag in tags.iter() {
        assert_eq!(&Code::from_token(&tag.to_wire()), tag);
    }
}

#[test]
fn replies_are_replies_and_no_errors() {
    for tag in [Code::RplWelcome, Code::RplTopic, Code::RplEndofmotd, Code::RplTryagain].iter() {
        assert!(tag.is_reply());
        assert!(!tag.is_error());
    }
}

#[test]
fn errors_are_errors_and_no_replies() {
    for tag in [Code::ErrNosuchnick, Code::ErrNicknameinuse, Code::ErrUsersdontmatch].iter() {
        assert!(tag.is_error());
        assert!(!tag.is_reply());
    }
}

#[test]
fn commands_and_the_open_tag_are_neither() {
    let tags = [
        Code::Privmsg,
        Code::Rehash,
        Code::Restart,
        Code::Error,
        Code::Unknown("RPL_WELCOME".to_string()),
        Code::Unknown("ERR_X".to_string()),
    ];
    for tag in tags.iter() {
        assert!(!tag.is_reply());
        assert!(!tag.is_error());
    }
}

#[test]
fn tags_are_read_from_text() {
    assert_eq!("PING".parse::<Code>(), Ok(Code::Ping));
    assert_eq!("366".parse::<Code>(), Ok(Code::RplEndofnames));
    assert_eq!("nope".parse::<Code>(), Ok(Code::Unknown("nope".to_string())));
}
