use bytes::Bytes;
use kitsune2_transport_iroh::error::ErrorKind;
use kitsune2_transport_iroh::frame::{
    decode_frame_header, decode_frame_preflight, encode_frame, encode_frame_header, Frame,
    FrameType, FRAME_HEADER_LEN,
};
use kitsune2_transport_iroh::url::Url;

const MAX: usize = 1024;

fn peer_url() -> Url {
    Url::from_str("http://localhost:80/peer").unwrap()
}

#[test]
fn data_frame_has_header_and_payload() {
    let bytes = encode_frame(Frame::Data(Bytes::from_static(b"hello")), MAX).unwrap();
    assert_eq!(&bytes[..], &[1, 0, 0, 0, 5, b'h', b'e', b'l', b'l', b'o']);
}

#[test]
fn empty_data_frame_is_a_header() {
    let bytes = encode_frame(Frame::Data(Bytes::new()), MAX).unwrap();
    assert_eq!(&bytes[..], &[1, 0, 0, 0, 0]);
}

#[test]
fn preflight_frame_has_url_before_preflight() {
    let frame = Frame::Preflight((peer_url(), Bytes::from_static(b"pre")));
    let bytes = encode_frame(frame, MAX).unwrap();
    let url = b"http://localhost:80/peer";
    let mut expected = vec![0, 0, 0, 0, 4 + url.len() as u8 + 3, 0, 0, 0, url.len() as u8];
    expected.extend_from_slice(url);
    expected.extend_from_slice(b"pre");
    assert_eq!(&bytes[..], &expected[..]);
}

#[test]
fn header_length_is_big_endian() {
    let header = encode_frame_header(FrameType::Data, 0x0102_0304, usize::MAX).unwrap();
    assert_eq!(&header[..], &[1, 1, 2, 3, 4]);
    let (ty, len) = decode_frame_header(&header, usize::MAX).unwrap();
    assert_eq!(ty, FrameType::Data);
    assert_eq!(len, 0x0102_0304);
}

#[test]
fn length_that_the_header_cannot_hold_is_refused() {
    let largest = u32::MAX as usize;
    let header = encode_frame_header(FrameType::Data, largest, usize::MAX).unwrap();
    assert_eq!(&header[..], &[1, 255, 255, 255, 255]);
    assert_eq!(decode_frame_header(&header, usize::MAX).unwrap(), (FrameType::Data, largest));
    for len in [1usize << 32, (1 << 32) + 7, usize::MAX] {
        let e = encode_frame_header(FrameType::Data, len, usize::MAX).unwrap_err();
        assert_eq!(e.kind, ErrorKind::FrameTooLarge);
    }
}

#[test]
fn frame_of_the_maximum_size_is_encoded() {
    let data = vec![9u8; MAX - FRAME_HEADER_LEN];
    let bytes = encode_frame(Frame::Data(Bytes::from(data)), MAX).unwrap();
    assert_eq!(bytes.len(), MAX);
    assert_eq!(decode_frame_header(&bytes[..5], MAX).unwrap(), (FrameType::Data, MAX - 5));
}

#[test]
fn larger_frame_is_refused() {
    let data = vec![9u8; MAX - FRAME_HEADER_LEN + 1];
    let e = encode_frame(Frame::Data(Bytes::from(data)), MAX).unwrap_err();
    assert_eq!(e.kind, ErrorKind::FrameTooLarge);
    assert_eq!(e.message(), "frame too large (src: None)");
}

#[test]
fn larger_preflight_is_refused() {
    let frame = Frame::Preflight((peer_url(), Bytes::from(vec![0u8; MAX])));
    assert_eq!(encode_frame(frame, MAX).unwrap_err().kind, ErrorKind::FrameTooLarge);
}

#[test]
fn short_header_is_refused() {
    let e = decode_frame_header(&[1, 0, 0, 0], MAX).unwrap_err();
    assert_eq!(e.kind, ErrorKind::ShorterThanHeader);
    assert_eq!(e.message(), "iroh frame shorter than header (src: None)");
}

#[test]
fn unknown_frame_type_is_refused() {
    let e = decode_frame_header(&[2, 0, 0, 0, 0], MAX).unwrap_err();
    assert_eq!(e.kind, ErrorKind::UnknownFrameType(2));
    assert_eq!(e.message(), "unknown iroh frame type: 2 (src: None)");
    let e = FrameType::try_from(255u8).unwrap_err();
    assert_eq!(e.context(), "unknown iroh frame type: 255");
    assert_eq!(FrameType::try_from(0u8).unwrap(), FrameType::Preflight);
    assert_eq!(FrameType::try_from(1u8).unwrap(), FrameType::Data);
}

#[test]
fn announced_length_is_bounded() {
    let e = decode_frame_header(&[1, 0, 0, 4, 0], MAX).unwrap_err();
    assert_eq!(e.kind, ErrorKind::IncomingFrameTooLarge);
    assert_eq!(e.message(), "iroh frame too large (src: None)");
    assert_eq!(decode_frame_header(&[1, 0, 0, 3, 251], MAX).unwrap(), (FrameType::Data, 1019));
    assert!(decode_frame_header(&[1, 0, 0, 3, 252], MAX).is_err());
}

#[test]
fn preflight_reads_as_it_was_written() {
    let frame = Frame::Preflight((peer_url(), Bytes::from_static(b"pre")));
    let bytes = encode_frame(frame, MAX).unwrap();
    let (ty, len) = decode_frame_header(&bytes[..FRAME_HEADER_LEN], MAX).unwrap();
    assert_eq!(ty, FrameType::Preflight);
    assert_eq!(len, bytes.len() - FRAME_HEADER_LEN);
    let (url, preflight) = decode_frame_preflight(&bytes[FRAME_HEADER_LEN..]).unwrap();
    assert_eq!(url.as_str(), "http://localhost:80/peer");
    assert_eq!(&preflight[..], b"pre");
}

#[test]
fn preflight_without_url_length_is_refused() {
    let e = decode_frame_preflight(&[0, 0, 0]).unwrap_err();
    assert_eq!(e.kind, ErrorKind::NoUrlLength);
    assert_eq!(e.message(), "preflight data too short for URL length (src: None)");
}

#[test]
fn preflight_without_url_is_refused() {
    let e = decode_frame_preflight(&[0, 0, 0, 3, b'a', b'b']).unwrap_err();
    assert_eq!(e.kind, ErrorKind::NoUrl);
    assert_eq!(e.message(), "preflight data too short for actual URL (src: None)");
}

#[test]
fn preflight_url_must_be_utf8() {
    let e = decode_frame_preflight(&[0, 0, 0, 2, 0xff, 0xfe]).unwrap_err();
    assert_eq!(e.kind, ErrorKind::UrlNotUtf8);
    let cause = std::str::from_utf8(&[0xff, 0xfe]).unwrap_err().to_string();
    assert_eq!(e.message(), format!("invalid peer url (src: {cause})"));
}

#[test]
fn preflight_url_must_be_valid() {
    let mut data = vec![0, 0, 0, 3];
    data.extend_from_slice(b"abcrest");
    let e = decode_frame_preflight(&data).unwrap_err();
    assert_eq!(e.kind, ErrorKind::InvalidUrl);
    let cause = kitsune2_api::Url::from_str("abc").unwrap_err().to_string();
    assert_eq!(e.message(), cause);
}

#[test]
fn preflight_may_be_empty() {
    let frame = Frame::Preflight((peer_url(), Bytes::new()));
    let bytes = encode_frame(frame, MAX).unwrap();
    let (_, preflight) = decode_frame_preflight(&bytes[FRAME_HEADER_LEN..]).unwrap();
    assert!(preflight.is_empty());
}

#[test]
fn no_frame_begins_with_another() {
    let frames: Vec<Bytes> = vec![
        encode_frame(Frame::Data(Bytes::new()), MAX).unwrap(),
        encode_frame(Frame::Data(Bytes::from_static(b"a")), MAX).unwrap(),
        encode_frame(Frame::Data(Bytes::from_static(b"ab")), MAX).unwrap(),
        encode_frame(Frame::Preflight((peer_url(), Bytes::new())), MAX).unwrap(),
        encode_frame(Frame::Preflight((peer_url(), Bytes::from_static(b"a"))), MAX).unwrap(),
    ];
    for (i, one) in frames.iter().enumerate() {
        for (j, other) in frames.iter().enumerate() {
            assert_eq!(other.starts_with(one), i == j);
        }
    }
}
