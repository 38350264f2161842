use influx_storage::value::{decode_payload, encode_payload, Encoding};

#[test]
fn text_payload_is_stored_as_it_is() {
    assert_eq!(encode_payload(&b"hello".to_vec()), (false, String::from("hello")));
    assert_eq!(encode_payload(&Vec::new()), (false, String::new()));
    assert_eq!(encode_payload(&"héllo".as_bytes().to_vec()), (false, String::from("héllo")));
}

#[test]
fn binary_payload_is_stored_in_base64() {
    assert_eq!(encode_payload(&vec![0xff, 0xfe]), (true, String::from("//4=")));
    assert_eq!(encode_payload(&vec![0x00, 0x80, 0x01]), (true, String::from("AIAB")));
}

#[test]
fn stored_payload_reads_back() {
    for payload in [b"hello".to_vec(), vec![0xff, 0xfe], vec![], vec![0xc3, 0x28], vec![0; 100]] {
        let (base64, text) = encode_payload(&payload);
        assert_eq!(decode_payload(base64, &text), Some(payload));
    }
}

#[test]
fn payload_is_read_by_its_mark() {
    assert_eq!(decode_payload(true, "//4="), Some(vec![0xff, 0xfe]));
    assert_eq!(decode_payload(false, "//4="), Some(b"//4=".to_vec()));
    assert_eq!(decode_payload(true, "aGVsbG8="), Some(b"hello".to_vec()));
    assert_eq!(decode_payload(true, "not base64!"), None);
    assert_eq!(decode_payload(true, "//4"), None);
}

#[test]
fn encoding_is_written_by_name() {
    assert_eq!(Encoding { id: 0, schema: None }.to_text(), "zenoh/bytes");
    assert_eq!(Encoding { id: 4, schema: None }.to_text(), "text/plain");
    assert_eq!(Encoding { id: 4, schema: Some(b"utf-8".to_vec()) }.to_text(), "text/plain;utf-8");
}

#[test]
fn encoding_is_read_from_its_name() {
    let e = Encoding::from_text("text/plain;utf-8");
    assert_eq!(e.id, 4);
    assert_eq!(e.schema, Some(b"utf-8".to_vec()));
    let e = Encoding::from_text("application/json");
    assert_eq!(e.id, 5);
    assert_eq!(e.schema, None);
    let e = Encoding::from_text("my_encoding");
    assert_eq!(e.id, 0xFFFF);
    assert_eq!(e.schema, Some(b"my_encoding".to_vec()));
}

#[test]
fn stored_encoding_is_the_name_or_the_number() {
    let e = Encoding::from_stored(7, "");
    assert_eq!(e.id, 7);
    assert_eq!(e.schema, None);
    let e = Encoding::from_stored(7, "text/plain");
    assert_eq!(e.id, 4);
    assert_eq!(e.schema, None);
}
