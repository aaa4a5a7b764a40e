use oak_io::Message;

#[test]
fn debug_string_shows_bytes_in_hex() {
    let m = Message { bytes: vec![1, 2, 3, 15, 16], handles: vec![7, 42] };
    assert_eq!(m.debug_string(), "Message { handles: [7, 42], bytes: 0102030f10 }");
}

#[test]
fn debug_string_of_empty_message() {
    let m = Message { bytes: vec![], handles: vec![] };
    assert_eq!(m.debug_string(), "Message { handles: [], bytes:  }");
}

#[test]
fn debug_string_of_large_values() {
    let m = Message { bytes: vec![0xab, 0xff, 0x00], handles: vec![0, u64::MAX] };
    assert_eq!(
        m.debug_string(),
        "Message { handles: [0, 18446744073709551615], bytes: abff00 }"
    );
}
