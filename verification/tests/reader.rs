use yaircc::{LineReader, ReadOutcome, ReadStep};

/// Steps a reader over the chunks as the owner of a transport does, and
/// collects the lines.
fn read_all(chunks: &[&[u8]], byte: u8) -> Vec<Vec<u8>> {
    let mut reader = LineReader::new();
    let mut lines = Vec::new();
    for chunk in chunks {
        let mut rest: &[u8] = chunk;
        while !rest.is_empty() {
            let step = reader.read_until_internal(byte, rest);
            rest = &rest[step.used..];
            match step.outcome {
                ReadOutcome::Incomplete => {}
                ReadOutcome::Complete(count) => {
                    assert_eq!(count, reader.buffer().len());
                    lines.push(reader.buffer().clone());
                    reader.clear();
                }
                ReadOutcome::EndOfInput => unreachable!(),
            }
        }
    }
    let last = reader.read_until_internal(byte, &[]);
    assert_eq!(last, ReadStep { used: 0, outcome: ReadOutcome::EndOfInput });
    lines
}

#[test]
fn step_takes_up_to_the_first_delimiter() {
    let mut reader = LineReader::new();
    let step = reader.read_until_internal(b'\n', b"ab\ncd\n");
    assert_eq!(step, ReadStep { used: 3, outcome: ReadOutcome::Complete(3) });
    assert_eq!(reader.buffer().as_slice(), b"ab\n");
}

#[test]
fn step_takes_a_chunk_without_delimiter_whole() {
    let mut reader = LineReader::new();
    let step = reader.read_until_internal(b'\n', b"abc");
    assert_eq!(step, ReadStep { used: 3, outcome: ReadOutcome::Incomplete });
    assert_eq!(reader.buffer().as_slice(), b"abc");
}

#[test]
fn line_over_several_chunks_is_counted_once() {
    let mut reader = LineReader::new();
    assert_eq!(
        reader.read_until_internal(b'\n', b"PI"),
        ReadStep { used: 2, outcome: ReadOutcome::Incomplete }
    );
    assert_eq!(
        reader.read_until_internal(b'\n', b"NG"),
        ReadStep { used: 2, outcome: ReadOutcome::Incomplete }
    );
    assert_eq!(
        reader.read_until_internal(b'\n', b" x\nrest"),
        ReadStep { used: 3, outcome: ReadOutcome::Complete(7) }
    );
    assert_eq!(reader.buffer().as_slice(), b"PING x\n");
    reader.clear();
    assert!(reader.buffer().is_empty());
    assert_eq!(
        reader.read_until_internal(b'\n', b"rest"),
        ReadStep { used: 4, outcome: ReadOutcome::Incomplete }
    );
    assert_eq!(reader.buffer().as_slice(), b"rest");
}

#[test]
fn delimiter_alone_is_a_line() {
    let mut reader = LineReader::new();
    let step = reader.read_until_internal(b'\n', b"\n");
    assert_eq!(step, ReadStep { used: 1, outcome: ReadOutcome::Complete(1) });
    assert_eq!(reader.buffer().as_slice(), b"\n");
}

#[test]
fn empty_chunk_is_the_end_of_input() {
    let mut reader = LineReader::new();
    let step = reader.read_until_internal(b'\n', b"");
    assert_eq!(step, ReadStep { used: 0, outcome: ReadOutcome::EndOfInput });
    assert!(reader.buffer().is_empty());
}

#[test]
fn unterminated_tail_is_no_line() {
    let mut reader = LineReader::new();
    assert_eq!(
        reader.read_until_internal(b'\n', b"tail"),
        ReadStep { used: 4, outcome: ReadOutcome::Incomplete }
    );
    assert_eq!(
        reader.read_until_internal(b'\n', b""),
        ReadStep { used: 0, outcome: ReadOutcome::EndOfInput }
    );
    assert_eq!(read_all(&[b"one\ntwo\ntail"], b'\n'), vec![b"one\n".to_vec(), b"two\n".to_vec()]);
    assert_eq!(read_all(&[b"tail"], b'\n'), Vec::<Vec<u8>>::new());
}

#[test]
fn other_delimiters_are_honoured() {
    assert_eq!(
        read_all(&[b"a;b\n;c"], b';'),
        vec![b"a;".to_vec(), b"b\n;".to_vec()]
    );
}

#[test]
fn chunking_does_not_change_the_lines() {
    let data: &[u8] = b":a!b@c PRIVMSG #x :hi\r\n\nPING :y\npartial";
    let expected = vec![
        b":a!b@c PRIVMSG #x :hi\r\n".to_vec(),
        b"\n".to_vec(),
        b"PING :y\n".to_vec(),
    ];
    assert_eq!(read_all(&[data], b'\n'), expected);
    // every cut into two chunks
    for cut in 1..data.len() {
        assert_eq!(read_all(&[&data[..cut], &data[cut..]], b'\n'), expected);
    }
    // every cut into three chunks
    for first in 1..data.len() {
        for second in first + 1..data.len() {
            let chunks = [&data[..first], &data[first..second], &data[second..]];
            assert_eq!(read_all(&chunks, b'\n'), expected);
        }
    }
    // byte by byte
    let single: Vec<&[u8]> = data.chunks(1).collect();
    assert_eq!(read_all(&single, b'\n'), expected);
}
