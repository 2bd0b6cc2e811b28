use htrime::linebuf::LineBuffer;

#[test]
fn empty_buffer_has_no_line() {
    let mut b = LineBuffer::new();
    assert_eq!(b.take_line(), None);
}

#[test]
fn partial_line_is_retained() {
    let mut b = LineBuffer::new();
    b.feed(b"recogni");
    assert_eq!(b.take_line(), None);
    b.feed(b"zed: hi\n");
    assert_eq!(b.take_line(), Some(b"recognized: hi".to_vec()));
    assert_eq!(b.take_line(), None);
}

#[test]
fn split_delivery_matches_whole_delivery() {
    let mut split = LineBuffer::new();
    split.feed(b"recogni");
    split.feed(b"zed: hi\n");
    let mut whole = LineBuffer::new();
    whole.feed(b"recognized: hi\n");
    assert_eq!(split.take_line(), whole.take_line());
}

#[test]
fn two_lines_come_out_one_at_a_time() {
    let mut b = LineBuffer::new();
    b.feed(b"a\nb\n");
    assert_eq!(b.take_line(), Some(b"a".to_vec()));
    assert_eq!(b.take_line(), Some(b"b".to_vec()));
    assert_eq!(b.take_line(), None);
}

#[test]
fn consuming_a_line_keeps_the_tail() {
    let mut b = LineBuffer::new();
    b.feed(b"one\ntw");
    assert_eq!(b.take_line(), Some(b"one".to_vec()));
    assert_eq!(b.take_line(), None);
    b.feed(b"o\n");
    assert_eq!(b.take_line(), Some(b"two".to_vec()));
}

#[test]
fn empty_line_is_a_line() {
    let mut b = LineBuffer::new();
    b.feed(b"\n");
    assert_eq!(b.take_line(), Some(b"".to_vec()));
}
