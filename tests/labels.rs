use gpio_cdev::cstring::CString;

#[test]
fn short_label_round_trips() {
    let c = CString::new("gpio-test");
    assert_eq!(c.to_string_lossy(), "gpio-test");
    assert_eq!(c.to_bytes(), b"gpio-test".to_vec());
    assert_eq!(c.bytes[9], 0);
}

#[test]
fn label_of_31_bytes_round_trips() {
    let label = "abcdefghijklmnopqrstuvwxyz01234";
    assert_eq!(label.len(), 31);
    assert_eq!(CString::new(label).to_string_lossy(), label);
}

#[test]
fn long_label_is_cut_to_31_bytes() {
    let label = "abcdefghijklmnopqrstuvwxyz0123456789";
    let c = CString::new(label);
    assert_eq!(c.to_string_lossy(), &label[..31]);
    assert_eq!(c.bytes[31], 0);
    let exact = "abcdefghijklmnopqrstuvwxyz012345";
    assert_eq!(exact.len(), 32);
    assert_eq!(CString::new(exact).to_string_lossy(), &exact[..31]);
}

#[test]
fn empty_label_reads_back_empty() {
    assert_eq!(CString::new("").to_string_lossy(), "");
    assert_eq!(CString::empty().to_bytes(), Vec::<u8>::new());
}

#[test]
fn buffer_without_terminator_reads_whole() {
    let c = CString { bytes: [b'z'; 32] };
    assert_eq!(c.to_string_lossy(), "z".repeat(32));
}

#[test]
fn invalid_utf8_is_replaced() {
    let mut bytes = [0u8; 32];
    bytes[0] = b'a';
    bytes[1] = 0xff;
    bytes[2] = b'b';
    let c = CString { bytes };
    assert_eq!(c.to_string_lossy(), "a\u{fffd}b");
}

#[test]
fn text_stops_at_first_nul() {
    let mut bytes = [b'q'; 32];
    bytes[4] = 0;
    let c = CString { bytes };
    assert_eq!(c.to_string_lossy(), "qqqq");
}
