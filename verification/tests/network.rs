use entity_cache::network::{decode_query, encode_reply, DATAGRAM_LEN};

#[test]
fn reply_is_length_prefixed_text() {
    let mut buf = vec![0xeeu8; 16];
    let n = encode_reply("abc".to_string(), &mut buf).unwrap();
    assert_eq!(n, 4);
    assert_eq!(&buf[..4], &[3, b'a', b'b', b'c']);
    assert!(buf[4..].iter().all(|&b| b == 0xee));
}

#[test]
fn long_reply_uses_wide_length() {
    let text = "x".repeat(300);
    let mut buf = vec![0u8; 400];
    let n = encode_reply(text.clone(), &mut buf).unwrap();
    assert_eq!(n, 303);
    assert_eq!(&buf[..3], &[251, 0x2c, 0x01]);
    assert_eq!(decode_query(&buf), Some(text));
}

#[test]
fn reply_that_does_not_fit_is_none() {
    let mut buf = vec![0u8; 3];
    assert_eq!(encode_reply("abc".to_string(), &mut buf), None);
    assert_eq!(buf.len(), 3);
}

#[test]
fn reply_decodes_back() {
    let text = "[{\"cmd\":\"Read\",\"addr\":4096,\"size\":8,\"data\":[]}]".to_string();
    let mut buf = vec![0u8; DATAGRAM_LEN];
    encode_reply(text.clone(), &mut buf).unwrap();
    assert_eq!(decode_query(&buf), Some(text));
}

#[test]
fn query_decoding_rejects_bad_datagrams() {
    // declared length longer than the datagram
    assert_eq!(decode_query(&[10, b'a']), None);
    // invalid UTF-8
    assert_eq!(decode_query(&[2, 0xff, 0xfe]), None);
    assert_eq!(decode_query(&[]), None);
    // a length claiming far more than any datagram holds
    assert_eq!(decode_query(&[253, 0, 0, 0, 0, 0, 0, 0, 0x40]), None);
}

#[test]
fn query_decoding_ignores_trailing_bytes() {
    assert_eq!(decode_query(&[2, b'o', b'k', 9, 9, 9]), Some("ok".to_string()));
    assert_eq!(decode_query(&[0]), Some(String::new()));
}
