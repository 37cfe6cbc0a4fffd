use bytes::Bytes;
use izanami::buf::{Data, SendBuf};

#[test]
fn data_reports_its_bytes() {
    let data = Data(Bytes::from_static(b"hello"));
    assert_eq!(data.remaining(), 5);
    assert_eq!(data.bytes(), b"hello");
}

#[test]
fn data_advance_drops_the_front() {
    let mut data = Data(Bytes::from_static(b"hello"));
    data.advance(2);
    assert_eq!(data.remaining(), 3);
    assert_eq!(data.bytes(), b"llo");
    data.advance(0);
    assert_eq!(data.bytes(), b"llo");
    data.advance(3);
    assert_eq!(data.remaining(), 0);
    assert_eq!(data.bytes(), b"");
}

#[test]
fn send_buf_of_a_chunk_is_the_chunk() {
    let mut buf = SendBuf::Data(Data(Bytes::from_static(b"abc")));
    assert_eq!(buf.remaining(), 3);
    assert_eq!(buf.bytes(), b"abc");
    buf.advance(1);
    assert_eq!(buf.remaining(), 2);
    assert_eq!(buf.bytes(), b"bc");
}

#[test]
fn send_buf_sentinel_is_empty_and_stays() {
    let mut buf = SendBuf::Eos;
    assert_eq!(buf.remaining(), 0);
    assert_eq!(buf.bytes(), b"");
    buf.advance(7);
    assert_eq!(buf.remaining(), 0);
    assert!(matches!(buf, SendBuf::Eos));
}
