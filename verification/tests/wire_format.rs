use mosaik_rust_api::decimal::{append_decimal, decimal, push_decimal};
use mosaik_rust_api::framing::{length_header, payload_length};
use mosaik_rust_api::mosaik_protocol::{MosaikMessage, MsgType};
use mosaik_rust_api::text::payload_text;

#[test]
fn header_is_big_endian_length() {
    assert_eq!(length_header(0x18), [0, 0, 0, 0x18]);
    assert_eq!(length_header(0x0102_0304), [1, 2, 3, 4]);
    assert_eq!(length_header(u32::MAX), [0xff, 0xff, 0xff, 0xff]);
}

#[test]
fn header_reads_back_the_written_length() {
    for n in [0u32, 1, 0x18, 0x27, 255, 256, 65_535, 65_536, 0x0102_0304, u32::MAX] {
        assert_eq!(payload_length(length_header(n)), n);
    }
    assert_eq!(payload_length([0, 0, 1, 0]), 256);
}

#[test]
fn network_message_header_announces_payload_length() {
    let message = MosaikMessage {
        msg_type: MsgType::ReplySuccess,
        id: 42,
        content: b"{\"a\":[1,2,3]}".to_vec(),
    };
    let bytes = message.to_network_message();
    let header = [bytes[0], bytes[1], bytes[2], bytes[3]];
    assert_eq!(payload_length(header) as usize, bytes.len() - 4);
    assert_eq!(&bytes[4..], b"[1,42,{\"a\":[1,2,3]}]");
    assert_eq!(message.to_vec(), b"[1,42,{\"a\":[1,2,3]}]".to_vec());
}

#[test]
fn request_message_payload() {
    let message = MosaikMessage {
        msg_type: MsgType::Request,
        id: 0,
        content: b"null".to_vec(),
    };
    assert_eq!(message.to_vec(), b"[0,0,null]".to_vec());
    assert_eq!(message.to_network_message(), b"\x00\x00\x00\x0a[0,0,null]".to_vec());
}

#[test]
fn decimal_notation() {
    assert_eq!(decimal(0), b"0".to_vec());
    assert_eq!(decimal(7), b"7".to_vec());
    assert_eq!(decimal(10), b"10".to_vec());
    assert_eq!(decimal(1234567890), b"1234567890".to_vec());
    assert_eq!(decimal(u64::MAX), b"18446744073709551615".to_vec());
    let mut out = b"x=".to_vec();
    push_decimal(&mut out, 305);
    assert_eq!(out, b"x=305".to_vec());
    let mut s = "id ".to_string();
    append_decimal(&mut s, 9876543210);
    assert_eq!(s, "id 9876543210");
    let mut z = String::new();
    append_decimal(&mut z, 0);
    assert_eq!(z, "0");
}

#[test]
fn msg_type_codes() {
    assert_eq!(MsgType::Request.code(), 0);
    assert_eq!(MsgType::ReplySuccess.code(), 1);
    assert_eq!(MsgType::ReplyFailure.code(), 2);
    assert_eq!(MsgType::from_code(0), Some(MsgType::Request));
    assert_eq!(MsgType::from_code(1), Some(MsgType::ReplySuccess));
    assert_eq!(MsgType::from_code(2), Some(MsgType::ReplyFailure));
    assert_eq!(MsgType::from_code(3), None);
    assert_eq!(MsgType::from_code(u64::MAX), None);
    for t in [MsgType::Request, MsgType::ReplySuccess, MsgType::ReplyFailure] {
        assert_eq!(MsgType::from_code(t.code() as u64), Some(t));
    }
}

#[test]
fn payload_text_decodes_utf8() {
    assert_eq!(payload_text(b"[0,1,[]]".to_vec()), Some("[0,1,[]]".to_string()));
    assert_eq!(
        payload_text("gr\u{fc}\u{df}e \u{1F600}".as_bytes().to_vec()),
        Some("gr\u{fc}\u{df}e \u{1F600}".to_string())
    );
    assert_eq!(payload_text(vec![0xff, 0xfe]), None);
    assert_eq!(payload_text(vec![b'a', 0xc3]), None);
    assert_eq!(payload_text(vec![]), Some(String::new()));
}
