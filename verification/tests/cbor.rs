use ma_runtime::cbor::{decode_term, encode_text, encode_text_array, Term};

#[test]
fn encodes_short_text() {
    assert_eq!(encode_text(":pong"), vec![0x65, b':', b'p', b'o', b'n', b'g']);
    assert_eq!(encode_text(""), vec![0x60]);
}

#[test]
fn encodes_long_text_with_length_byte() {
    let s = "x".repeat(24);
    let bytes = encode_text(&s);
    assert_eq!(&bytes[..2], &[0x78, 24]);
    assert_eq!(bytes.len(), 26);
    let s = "y".repeat(300);
    let bytes = encode_text(&s);
    assert_eq!(&bytes[..3], &[0x79, 0x01, 0x2c]);
}

#[test]
fn encodes_non_ascii_text_as_utf8() {
    assert_eq!(encode_text("間"), vec![0x63, 0xe9, 0x96, 0x93]);
}

#[test]
fn encodes_text_array() {
    let items = vec![":ok".to_string(), "bafy".to_string()];
    assert_eq!(
        encode_text_array(&items),
        vec![0x82, 0x63, b':', b'o', b'k', 0x64, b'b', b'a', b'f', b'y']
    );
}

#[test]
fn decodes_text_and_other_items() {
    match decode_term(&encode_text(":ping")) {
        Some(Term::Text(s)) => assert_eq!(s, ":ping"),
        _ => panic!("expected text"),
    }
    assert!(matches!(decode_term(&[0x01]), Some(Term::Other)));
    assert!(matches!(decode_term(&[0x82, 0x01, 0x02]), Some(Term::Other)));
    assert!(decode_term(&[]).is_none());
    assert!(decode_term(&[0x65, b':']).is_none());
}

#[test]
fn text_round_trips() {
    for s in ["", ":pong", "間 Runtime", &"z".repeat(1000)] {
        match decode_term(&encode_text(s)) {
            Some(Term::Text(t)) => assert_eq!(t, s),
            _ => panic!("round trip failed"),
        }
    }
}
