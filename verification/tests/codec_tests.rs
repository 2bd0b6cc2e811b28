use htrime::codec::{parse_response, request_line, trim_ascii, u32_dec};

#[test]
fn request_line_default_canvas() {
    assert_eq!(request_line(200, 80), b"200 80\n".to_vec());
}

#[test]
fn request_line_after_one_resize() {
    assert_eq!(request_line(300, 80), b"300 80\n".to_vec());
}

#[test]
fn request_line_extremes() {
    assert_eq!(request_line(0, u32::MAX), b"0 4294967295\n".to_vec());
    assert_eq!(request_line(1, 10), b"1 10\n".to_vec());
}

#[test]
fn decimal_digits() {
    assert_eq!(u32_dec(0), b"0".to_vec());
    assert_eq!(u32_dec(7), b"7".to_vec());
    assert_eq!(u32_dec(10), b"10".to_vec());
    assert_eq!(u32_dec(100), b"100".to_vec());
    assert_eq!(u32_dec(65535), b"65535".to_vec());
}

#[test]
fn response_with_prefix_is_trimmed_once() {
    assert_eq!(parse_response(b"recognized: hello"), Some(b"hello".to_vec()));
}

#[test]
fn response_keeps_inner_whitespace() {
    assert_eq!(
        parse_response(b"recognized:  two words \r"),
        Some(b"two words".to_vec())
    );
}

#[test]
fn response_with_empty_remainder() {
    assert_eq!(parse_response(b"recognized:"), Some(b"".to_vec()));
}

#[test]
fn response_without_prefix_is_noise() {
    assert_eq!(parse_response(b"log: debug"), None);
    assert_eq!(parse_response(b"recognize"), None);
    assert_eq!(parse_response(b"Recognized: x"), None);
    assert_eq!(parse_response(b""), None);
}

#[test]
fn trim_removes_surrounding_ascii_whitespace() {
    assert_eq!(trim_ascii(b"  a b \t\r\n"), b"a b".to_vec());
    assert_eq!(trim_ascii(b""), b"".to_vec());
    assert_eq!(trim_ascii(b" \n\t"), b"".to_vec());
    assert_eq!(trim_ascii(b"x"), b"x".to_vec());
}
