use std::io::{Error, ErrorKind};
use yaircc::{Charset, Code, IrcStream, Message, ParseError, StreamError, StreamEvent};

fn utf8() -> Charset {
    Charset::from_label("utf-8").unwrap()
}

/// Drives a stream over the chunks as the owner of a transport does, an empty
/// chunk at the end, and collects what it yields.
fn drive(stream: &mut IrcStream, chunks: &[&[u8]]) -> Vec<Result<Message, StreamError>> {
    let mut items = Vec::new();
    let end: &[u8] = &[];
    for chunk in chunks.iter().chain(std::iter::once(&end)) {
        let mut rest: &[u8] = chunk;
        loop {
            let progress = stream.poll_next(rest);
            rest = &rest[progress.used..];
            match progress.event {
                StreamEvent::NeedMore => break,
                StreamEvent::Item(item) => items.push(item),
                StreamEvent::End => return items,
            }
            if rest.is_empty() {
                break;
            }
        }
    }
    items
}

fn summary(items: &[Result<Message, StreamError>]) -> Vec<String> {
    items
        .iter()
        .map(|item| match item {
            Ok(message) => format!("{:?} {:?} {:?}", message.prefix, message.code, message.args),
            Err(error) => error.message(),
        })
        .collect()
}

#[test]
fn stream_yields_one_item_for_each_line() {
    let mut stream = IrcStream::new(utf8());
    let items = drive(&mut stream, &[b"PING :a\r\nFOOBAR arg1\n:n!u@h PRIVMSG #c :hi there\n"]);
    assert_eq!(items.len(), 3);
    let first = items[0].as_ref().unwrap();
    assert_eq!(first.code, Code::Ping);
    assert_eq!(first.args, vec!["a".to_string()]);
    let second = items[1].as_ref().unwrap();
    assert_eq!(second.code, Code::Unknown("FOOBAR".to_string()));
    let third = items[2].as_ref().unwrap();
    assert_eq!(third.code, Code::Privmsg);
    assert_eq!(third.args, vec!["#c".to_string(), "hi there".to_string()]);
    assert!(stream.is_finished());
}

#[test]
fn stream_goes_on_after_a_parse_error() {
    let mut stream = IrcStream::new(utf8());
    let items = drive(&mut stream, &[b"\nPING :a\n", b" \n", b"PONG :b\n"]);
    assert_eq!(items.len(), 4);
    assert!(matches!(items[0], Err(StreamError::ParseError(ParseError::EmptyLine))));
    assert_eq!(items[1].as_ref().unwrap().code, Code::Ping);
    assert!(matches!(items[2], Err(StreamError::ParseError(ParseError::MissingCommand))));
    assert_eq!(items[3].as_ref().unwrap().code, Code::Pong);
}

#[test]
fn stream_step_reports_what_it_used() {
    let mut stream = IrcStream::new(utf8());
    let progress = stream.poll_next(b"PI");
    assert_eq!(progress.used, 2);
    assert!(matches!(progress.event, StreamEvent::NeedMore));
    let progress = stream.poll_next(b"NG :x\nPONG");
    assert_eq!(progress.used, 6);
    match progress.event {
        StreamEvent::Item(Ok(message)) => {
            assert_eq!(message.code, Code::Ping);
            assert_eq!(message.args, vec!["x".to_string()]);
        }
        other => panic!("unexpected event {:?}", other),
    }
    assert!(!stream.is_finished());
}

#[test]
fn stream_ends_without_a_message_for_the_tail() {
    let mut stream = IrcStream::new(utf8());
    let items = drive(&mut stream, &[b"PING :a\nPING :tail"]);
    assert_eq!(items.len(), 1);
    assert!(stream.is_finished());

    let mut stream = IrcStream::new(utf8());
    assert!(drive(&mut stream, &[b"PING :tail"]).is_empty());
    assert!(stream.is_finished());
}

#[test]
fn stream_stays_ended() {
    let mut stream = IrcStream::new(utf8());
    let progress = stream.poll_next(b"");
    assert_eq!(progress.used, 0);
    assert!(matches!(progress.event, StreamEvent::End));
    assert!(stream.is_finished());
    let progress = stream.poll_next(b"PING :late\n");
    assert_eq!(progress.used, 0);
    assert!(matches!(progress.event, StreamEvent::End));
}

#[test]
fn stream_ends_with_the_error_of_the_transport() {
    let mut stream = IrcStream::new(utf8());
    assert!(matches!(stream.poll_next(b"PING").event, StreamEvent::NeedMore));
    let item = stream.read_failed(Error::new(ErrorKind::ConnectionReset, "reset by peer"));
    match item {
        Err(StreamError::AsyncIoError(ref error)) => {
            assert_eq!(error.kind(), ErrorKind::ConnectionReset)
        }
        ref other => panic!("unexpected item {:?}", other),
    }
    assert!(stream.is_finished());
    assert!(matches!(stream.poll_next(b" :x\n").event, StreamEvent::End));
}

#[test]
fn stream_does_not_depend_on_the_chunks() {
    let data: &[u8] = b":n!u@h PRIVMSG #c :gr\xc3\xbc\xc3\x9f dich\r\n\nBOGUS\n:s 001 me :hi\npart";
    let mut whole = IrcStream::new(utf8());
    let expected = summary(&drive(&mut whole, &[data]));
    assert_eq!(expected.len(), 4);
    assert_eq!(expected[1], "ParseError: empty line");
    for first in 1..data.len() {
        for second in first + 1..data.len() {
            let mut stream = IrcStream::new(utf8());
            let chunks = [&data[..first], &data[first..second], &data[second..]];
            assert_eq!(summary(&drive(&mut stream, &chunks)), expected);
        }
    }
}

#[test]
fn stream_decodes_with_its_encoding() {
    let mut stream = IrcStream::new(Charset::from_label("latin1").unwrap());
    let items = drive(&mut stream, &[b"PRIVMSG #c :caf\xe9\n"]);
    assert_eq!(items[0].as_ref().unwrap().args, vec!["#c".to_string(), "café".to_string()]);
}

#[test]
fn stream_error_messages() {
    assert_eq!(
        StreamError::ParseError(ParseError::EmptyLine).message(),
        "ParseError: empty line"
    );
    assert_eq!(
        StreamError::from(ParseError::MissingCommand).message(),
        "ParseError: missing command"
    );
    let error = StreamError::from(Error::new(ErrorKind::Other, "broken pipe"));
    assert_eq!(error.message(), "AsyncIoError: broken pipe");
}

#[test]
fn writer_encodes_the_text_as_it_is() {
    let stream = IrcStream::new(utf8());
    let writer = stream.writer();
    assert_eq!(writer.raw("NICK zoë\n"), "NICK zoë\n".as_bytes().to_vec());
    assert_eq!(writer.raw("NICK x"), b"NICK x".to_vec());
    assert_eq!(writer.raw(""), Vec::<u8>::new());
    let copy = writer.clone();
    assert_eq!(copy.encoding.label(), "utf-8");

    let latin1 = IrcStream::new(Charset::from_label("latin1").unwrap()).writer();
    assert_eq!(latin1.raw("caf\u{e9} \u{2713}\n"), b"caf\xe9 \n".to_vec());
}
