use procyon::bytes::{bytes_eq, concat_bytes, copy_bytes, split_bytes};
use procyon::socket::{encode_line, strip_line};

#[test]
fn strip_removes_trailing_crlf() {
    assert_eq!(strip_line(&b"PING :x\r\n".to_vec()), b"PING :x".to_vec());
}

#[test]
fn strip_removes_trailing_lf() {
    assert_eq!(strip_line(&b"abc\n".to_vec()), b"abc".to_vec());
}

#[test]
fn strip_removes_every_terminator_byte() {
    assert_eq!(strip_line(&b"a\rb\nc".to_vec()), b"abc".to_vec());
}

#[test]
fn strip_of_empty_is_empty() {
    assert_eq!(strip_line(&Vec::new()), Vec::<u8>::new());
}

#[test]
fn encode_appends_exactly_one_terminator() {
    assert_eq!(encode_line(&b"QUIT :Leaving".to_vec()), b"QUIT :Leaving\r\n".to_vec());
}

#[test]
fn line_round_trip_preserves_spaces_and_colons() {
    let raw = b"PRIVMSG #chan :hello world\r\n".to_vec();
    let content = strip_line(&raw);
    assert_eq!(content, b"PRIVMSG #chan :hello world".to_vec());
    let wire = encode_line(&content);
    assert_eq!(wire, b"PRIVMSG #chan :hello world\r\n".to_vec());
    assert_eq!(strip_line(&wire), content);
}

#[test]
fn split_keeps_empty_fields() {
    let parts = split_bytes(&b"a  b".to_vec(), b' ');
    assert_eq!(parts, vec![b"a".to_vec(), b"".to_vec(), b"b".to_vec()]);
}

#[test]
fn split_of_empty_is_one_empty_field() {
    let parts = split_bytes(&Vec::new(), b' ');
    assert_eq!(parts, vec![b"".to_vec()]);
}

#[test]
fn split_without_separator_is_whole() {
    let parts = split_bytes(&b"abc".to_vec(), b' ');
    assert_eq!(parts, vec![b"abc".to_vec()]);
}

#[test]
fn split_with_trailing_separator() {
    let parts = split_bytes(&b"a b ".to_vec(), b' ');
    assert_eq!(parts, vec![b"a".to_vec(), b"b".to_vec(), b"".to_vec()]);
}

#[test]
fn bytes_eq_decides_equality() {
    assert!(bytes_eq(&b"abc".to_vec(), &b"abc".to_vec()));
    assert!(!bytes_eq(&b"abc".to_vec(), &b"abd".to_vec()));
    assert!(!bytes_eq(&b"abc".to_vec(), &b"ab".to_vec()));
}

#[test]
fn copy_and_concat() {
    let a = b"PONG ".to_vec();
    let b = b":server".to_vec();
    assert_eq!(copy_bytes(&a), a);
    assert_eq!(concat_bytes(&a, &b), b"PONG :server".to_vec());
}
