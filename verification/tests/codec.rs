use yaircc::Charset;

#[test]
fn labels_that_name_an_encoding() {
    for label in ["utf-8", "UTF-8", "utf8", "latin1", "windows-1252", "koi8-r", "euc-jp"].iter() {
        let charset = Charset::from_label(label).expect("a known label");
        assert_eq!(charset.label(), *label);
    }
}

#[test]
fn labels_that_name_none() {
    assert!(Charset::from_label("").is_none());
    assert!(Charset::from_label("no-such-encoding").is_none());
}

#[test]
fn ascii_survives_the_round_trip() {
    let text = "PRIVMSG #chan :hello there, 0123456789 ~!@#$%^&*()\r\n";
    for label in ["utf-8", "latin1", "koi8-r", "shift_jis", "gbk"].iter() {
        let charset = Charset::from_label(label).unwrap();
        let bytes = charset.encode(text);
        assert_eq!(bytes, text.as_bytes());
        assert_eq!(charset.decode(&bytes), text);
    }
}

#[test]
fn encode_uses_the_encoding() {
    let utf8 = Charset::from_label("utf-8").unwrap();
    let latin1 = Charset::from_label("latin1").unwrap();
    assert_eq!(utf8.encode("é"), vec![0xc3, 0xa9]);
    assert_eq!(latin1.encode("é"), vec![0xe9]);
    assert_eq!(utf8.encode(""), Vec::<u8>::new());
}

#[test]
fn decode_uses_the_encoding() {
    let utf8 = Charset::from_label("utf-8").unwrap();
    let latin1 = Charset::from_label("latin1").unwrap();
    assert_eq!(utf8.decode(&[0xc3, 0xa9]), "é");
    assert_eq!(latin1.decode(&[0xe9]), "é");
    assert_eq!(latin1.decode(&[0xc3, 0xa9]), "Ã©");
}

#[test]
fn what_cannot_be_encoded_is_dropped() {
    let latin1 = Charset::from_label("latin1").unwrap();
    assert_eq!(latin1.encode("a✓b"), b"ab".to_vec());
}

#[test]
fn what_cannot_be_decoded_is_dropped() {
    let utf8 = Charset::from_label("utf-8").unwrap();
    assert_eq!(utf8.decode(&[b'a', 0xff, b'b']), "ab");
    assert_eq!(utf8.decode(&[b'a', 0xc3]), "a");
}

#[test]
fn clone_keeps_the_label() {
    let charset = Charset::from_label("koi8-r").unwrap();
    let copy = charset.clone();
    assert_eq!(copy.label(), "koi8-r");
    assert_eq!(copy.encode("д"), charset.encode("д"));
}
