use ipc_throughput::attr::MQueueAttr;
use ipc_throughput::error::IpcError;
use ipc_throughput::name::{queue_name_for, validate_name};
use ipc_throughput::payload::{Sendable, TerminatedText, DEFAULT_DATA_SIZE};

#[test]
fn attr_new_keeps_fields() {
    let a = MQueueAttr::new(1, 10, 8192, 3);
    assert_eq!(a.flags(), 1);
    assert_eq!(a.max_msg(), 10);
    assert_eq!(a.msg_size(), 8192);
    assert_eq!(a.cur_msgs(), 3);
}

#[test]
fn attr_sized_by_type() {
    let a = MQueueAttr::try_new_with_sized_type::<[u8; 64]>(0, 5, 0).unwrap();
    assert_eq!(a.msg_size(), 64);
    assert_eq!(a.max_msg(), 5);
    let b = MQueueAttr::try_new_with_sized_type::<u32>(0, 5, 0).unwrap();
    assert_eq!(b.msg_size(), 4);
}

#[test]
fn attr_sized_by_payload() {
    let a = MQueueAttr::try_new_for_payload::<[u8; 100]>(0, 10, 0).unwrap();
    assert_eq!(a.msg_size(), 100);
    let b = MQueueAttr::try_new_for_payload::<String>(0, 10, 0).unwrap();
    assert_eq!(b.msg_size(), 8192);
}

#[test]
fn data_sizes() {
    assert_eq!(<String as Sendable>::data_size(), DEFAULT_DATA_SIZE);
    assert_eq!(<&str as Sendable>::data_size(), 8192);
    assert_eq!(<&[u8] as Sendable>::data_size(), 8192);
    assert_eq!(<[u8; 16] as Sendable>::data_size(), 16);
    assert_eq!(<TerminatedText as Sendable>::data_size(), 8192);
}

#[test]
fn encodings() {
    let s = String::from("abc");
    assert_eq!(s.encode(), b"abc");
    let t: &str = "héllo";
    assert_eq!(t.encode(), "héllo".as_bytes());
    let raw: &[u8] = &[1, 2, 3];
    assert_eq!(raw.encode(), &[1u8, 2, 3][..]);
    let arr: [u8; 4] = [9, 8, 7, 6];
    assert_eq!(arr.encode(), &[9u8, 8, 7, 6][..]);
}

#[test]
fn terminated_text_encoding_has_one_nul() {
    let t = TerminatedText::from_str("hello world").unwrap();
    let e = t.encode();
    assert_eq!(e.len(), 12);
    assert_eq!(&e[..11], b"hello world");
    assert_eq!(e[11], 0);
    assert_eq!(t.to_bytes(), b"hello world".to_vec());
}

#[test]
fn terminated_text_rejects_nul() {
    assert!(TerminatedText::from_str("a\0b").is_none());
    assert!(TerminatedText::from_bytes(&[1, 0]).is_none());
    let empty = TerminatedText::from_bytes(&[]).unwrap();
    assert_eq!(empty.encode(), &[0u8][..]);
}

#[test]
fn terminated_text_decode() {
    let mut buf = [0u8; 32];
    buf[..4].copy_from_slice(b"abc\0");
    let t = TerminatedText::decode(&buf, 4).unwrap();
    assert_eq!(t.to_bytes(), b"abc".to_vec());
    assert!(TerminatedText::decode(&buf, 3).is_none());
    assert!(TerminatedText::decode(&buf, 0).is_none());
    assert!(TerminatedText::decode(&buf, 33).is_none());
    assert!(TerminatedText::decode(&buf, 5).is_none());
}

#[test]
fn names_are_validated() {
    assert_eq!(validate_name("test"), Ok(()));
    assert_eq!(validate_name("/test"), Ok(()));
    assert_eq!(validate_name(""), Err(IpcError::NameError));
    assert_eq!(validate_name("te\0st"), Err(IpcError::NameError));
}

#[test]
fn queue_name_gets_slash() {
    assert_eq!(queue_name_for("test"), "/test");
    assert_eq!(queue_name_for(""), "/");
}
