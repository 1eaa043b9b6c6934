use sol_4626_vault::util::is_valid_ticker;

fn padded(text: &[u8]) -> [u8; 16] {
    let mut ticker = [0u8; 16];
    ticker[..text.len()].copy_from_slice(text);
    ticker
}

#[test]
fn padded_upper_case_ticker_is_valid() {
    assert!(is_valid_ticker(&padded(b"MYTOKEN")));
}

#[test]
fn leading_pad_byte_is_invalid() {
    assert!(!is_valid_ticker(&[0u8; 16]));
    let mut ticker = padded(b"MYTOKEN");
    ticker[0] = 0;
    assert!(!is_valid_ticker(&ticker));
}

#[test]
fn pad_byte_followed_by_other_byte_is_invalid() {
    let mut ticker = padded(b"MYTOKEN");
    ticker[9] = b'A';
    assert!(!is_valid_ticker(&ticker));
    let mut ticker = padded(b"MYTOKEN");
    ticker[15] = b'Z';
    assert!(!is_valid_ticker(&ticker));
    let mut ticker = padded(b"MYTOKEN");
    ticker[3] = 0;
    assert!(!is_valid_ticker(&ticker));
}

#[test]
fn byte_outside_the_alphabet_is_invalid() {
    assert!(!is_valid_ticker(&padded(b"mytoken")));
    assert!(!is_valid_ticker(&padded(b"MYtOKEN")));
    assert!(!is_valid_ticker(&padded(b"MY TOKEN")));
    assert!(!is_valid_ticker(&padded(b"MY.TOKEN")));
    assert!(!is_valid_ticker(&padded(b"MY/TOKEN")));
    assert!(!is_valid_ticker(&padded(b"MYTOKEN!")));
    assert!(!is_valid_ticker(&padded(&[b'A', b'B', 0xff])));
    assert!(!is_valid_ticker(&padded(&[b'A', b'B', 1])));
}

#[test]
fn bytes_next_to_the_alphabet_are_invalid() {
    // '@' before 'A', '[' behind 'Z', '/' before '0', ':' behind '9',
    // ',' and '.' around '-', '^' and '`' around '_'
    for byte in [b'@', b'[', b'/', b':', b',', b'.', b'^', b'`'] {
        assert!(!is_valid_ticker(&padded(&[b'A', b'B', byte])));
    }
    for byte in [b'A', b'Z', b'0', b'9', b'-', b'_'] {
        assert!(is_valid_ticker(&padded(&[b'A', b'B', byte])));
    }
}

#[test]
fn fewer_than_three_bytes_is_invalid() {
    assert!(!is_valid_ticker(&padded(b"A")));
    assert!(!is_valid_ticker(&padded(b"AB")));
    assert!(is_valid_ticker(&padded(b"ABC")));
}

#[test]
fn digits_hyphen_and_underscore_are_valid() {
    assert!(is_valid_ticker(&padded(b"USD-2024_X")));
    assert!(is_valid_ticker(&padded(b"123")));
    assert!(is_valid_ticker(&padded(b"---")));
    assert!(is_valid_ticker(&padded(b"___")));
}

#[test]
fn ticker_may_fill_the_whole_width() {
    assert!(is_valid_ticker(b"ABCDEFGHIJKLMNOP"));
    assert!(is_valid_ticker(b"ABCDEFGHIJKLMNO\0"));
    assert!(!is_valid_ticker(b"ABCDEFGHIJKLMNOp"));
}
