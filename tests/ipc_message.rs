use pura::error::ErrorType;
use pura::ipc::{decode_message, is_white_space_char, trim_whitespace, IpcChild, IpcParent, MAX_MESSAGE_LEN};

#[test]
fn message_hello_is_received_as_sent() {
    let buf = "hello".as_bytes().to_vec();
    let msg = decode_message(&buf, buf.len()).unwrap();
    assert_eq!(msg, "hello");
}

#[test]
fn message_is_trimmed() {
    let buf = "  0 \n\t".as_bytes().to_vec();
    assert_eq!(decode_message(&buf, buf.len()).unwrap(), "0");
}

#[test]
fn message_only_read_bytes_count() {
    let buf = "hello world".as_bytes().to_vec();
    assert_eq!(decode_message(&buf, 5).unwrap(), "hello");
}

#[test]
fn message_not_utf8_is_runtime_error() {
    let buf = vec![0x66u8, 0xff, 0xfe];
    let err = decode_message(&buf, 3).unwrap_err();
    assert_eq!(err.err_type, ErrorType::Runtime);
}

#[test]
fn message_is_cut_at_limit() {
    let mut buf = vec![b'a'; MAX_MESSAGE_LEN];
    buf.extend_from_slice(b"bbbb");
    let msg = decode_message(&buf, buf.len()).unwrap();
    assert_eq!(msg.len(), 1024);
    assert!(msg.chars().all(|c| c == 'a'));
}

#[test]
fn message_of_whitespace_is_empty() {
    let buf = " \n ".as_bytes().to_vec();
    assert_eq!(decode_message(&buf, buf.len()).unwrap(), "");
}

#[test]
fn trim_handles_unicode_white_space() {
    assert_eq!(trim_whitespace("\u{3000}ab c\u{a0}"), "ab c");
    assert_eq!(trim_whitespace(""), "");
    assert!(is_white_space_char('\u{2028}'));
    assert!(!is_white_space_char('x'));
    for c in ['\t', ' ', '\u{85}', '\u{200a}', 'a', '0', '\u{200b}'] {
        assert_eq!(is_white_space_char(c), c.is_whitespace());
    }
}

#[test]
fn records_keep_descriptor_and_path() {
    let p = IpcParent::from_raw(7, String::from("./tmp.sock"));
    assert_eq!(p.fd(), 7);
    assert_eq!(p.sock_path(), "./tmp.sock");
    let c = IpcChild::from_raw(9);
    assert_eq!(c.fd(), 9);
}
