//! Frames read as they were written, and no larger than allowed.
use crate::error::{ErrorKind, ErrorView};
use crate::frame::{FrameType, FrameView, FRAME_HEADER_LEN};
use crate::frame_send::SendPhase;
use crate::{frame, frame_send, outside, url};
use vstd::prelude::*;
use vstd::utf8;

verus! {

/// A number of 32 bits reads as it was written.
proof fn be32_reads_back(n: nat)
    requires
        n < 0x1_0000_0000,
    ensures
        frame::from_be32(
            frame::be32(n)[0],
            frame::be32(n)[1],
            frame::be32(n)[2],
            frame::be32(n)[3],
        ) == n,
{
}

/// Four bytes are written as they were read.
proof fn be32_writes_back(b0: u8, b1: u8, b2: u8, b3: u8)
    ensures
        frame::be32(frame::from_be32(b0, b1, b2, b3)) == seq![b0, b1, b2, b3],
{
    let n = frame::from_be32(b0, b1, b2, b3);
    let high = b0 * 0x100 + b1;
    let top = high * 0x100 + b2;
    assert(n == top * 0x100 + b3);
    assert(n / 0x100 == top && n % 0x100 == b3);
    assert(top / 0x100 == high && top % 0x100 == b2);
    assert(high / 0x100 == b0 as int && high % 0x100 == b1);
    assert(n / 0x1_0000 == high);
    assert(n / 0x100_0000 == b0 as int);
}

/// A header reads as it was written, whatever follows it, as long as the length has 32 bits and
/// the frame is no larger than the reader allows.
pub proof fn header_reads_back(ty: FrameType, len: nat, rest: Seq<u8>, max: nat)
    requires
        len < 0x1_0000_0000,
        len + FRAME_HEADER_LEN <= max,
    ensures
        frame::decoded_header(frame::header(ty, len) + rest, max) == Ok::<
            (FrameType, nat),
            ErrorView,
        >((ty, len)),
{
    be32_reads_back(len);
    let h = frame::header(ty, len) + rest;
    assert(h[1] == frame::be32(len)[0]);
    assert(h[2] == frame::be32(len)[1]);
    assert(h[3] == frame::be32(len)[2]);
    assert(h[4] == frame::be32(len)[3]);
}

/// A header that reads is the header that would be written.
pub proof fn header_writes_back(data: Seq<u8>, max: nat)
    ensures
        frame::decoded_header(data, max) matches Ok((ty, len)) ==> data.take(5) == frame::header(
            ty,
            len,
        ) && len + FRAME_HEADER_LEN <= max && len < 0x1_0000_0000,
{
    if let Ok((ty, len)) = frame::decoded_header(data, max) {
        be32_writes_back(data[1], data[2], data[3], data[4]);
        assert(data.take(5) =~= frame::header(ty, len));
    }
}

/// An encoded frame is a header and the payload, no larger than allowed, and its header announces
/// the length of the payload.
pub proof fn frames_are_bounded(f: FrameView, max: nat)
    ensures
        frame::encoded(f, max) matches Ok(bytes) ==> {
            &&& bytes.len() == FRAME_HEADER_LEN + frame::payload(f).len()
            &&& bytes.len() <= max
            &&& frame::from_be32(bytes[1], bytes[2], bytes[3], bytes[4]) == frame::payload(f).len()
            &&& bytes.take(5) == frame::header(frame::frame_type(f), frame::payload(f).len())
            &&& bytes.skip(5) == frame::payload(f)
        },
{
    if let Ok(bytes) = frame::encoded(f, max) {
        let h = frame::header(frame::frame_type(f), frame::payload(f).len());
        assert(h.len() == 5);
        be32_reads_back(frame::payload(f).len());
        assert(bytes.take(5) =~= h);
        assert(bytes.skip(5) =~= frame::payload(f));
    }
}

/// A data frame reads as it was written: its header announces its payload, which is the data.
pub proof fn data_frame_reads_back(data: Seq<u8>, max: nat)
    ensures
        frame::encoded(FrameView::Data(data), max) matches Ok(bytes) ==> {
            &&& frame::decoded_header(bytes.take(5), max) == Ok::<(FrameType, nat), ErrorView>(
                (FrameType::Data, data.len()),
            )
            &&& bytes.skip(5) == data
        },
{
    let f = FrameView::Data(data);
    if let Ok(bytes) = frame::encoded(f, max) {
        frames_are_bounded(f, max);
        header_reads_back(FrameType::Data, data.len(), Seq::empty(), max);
        assert(bytes.take(5) + Seq::<u8>::empty() =~= bytes.take(5));
    }
}

/// The payload of a preflight frame reads as it was written, if the URL is one that is accepted;
/// otherwise it is refused with the error of the URL.
pub proof fn preflight_reads_back(url: Seq<char>, preflight: Seq<u8>)
    requires
        utf8::encode_utf8(url).len() < 0x1_0000_0000,
    ensures
        frame::decoded_preflight(frame::payload(FrameView::Preflight(url, preflight))) == match url::parse(
            url,
        ) {
            Ok(u) => Ok::<(Seq<char>, Seq<u8>), ErrorView>((url, preflight)),
            Err(e) => Err::<(Seq<char>, Seq<u8>), ErrorView>(e),
        },
{
    let bytes = utf8::encode_utf8(url);
    let data = frame::payload(FrameView::Preflight(url, preflight));
    let len = bytes.len();
    be32_reads_back(len);
    assert(data[0] == frame::be32(len)[0]);
    assert(data[1] == frame::be32(len)[1]);
    assert(data[2] == frame::be32(len)[2]);
    assert(data[3] == frame::be32(len)[3]);
    assert(data.subrange(4, 4 + len as int) =~= bytes);
    assert(data.skip(4 + len as int) =~= preflight);
    utf8::encode_utf8_valid_utf8(url);
    utf8::encode_utf8_decode_utf8(url);
}

/// A preflight frame reads as it was written, if the URL is one that is accepted.
pub proof fn preflight_frame_reads_back(url: Seq<char>, preflight: Seq<u8>, max: nat)
    ensures
        frame::encoded(FrameView::Preflight(url, preflight), max) matches Ok(bytes) ==> {
            &&& frame::decoded_header(bytes.take(5), max) == Ok::<(FrameType, nat), ErrorView>(
                (FrameType::Preflight, (bytes.len() - 5) as nat),
            )
            &&& frame::decoded_preflight(bytes.skip(5)) == match url::parse(url) {
                Ok(u) => Ok::<(Seq<char>, Seq<u8>), ErrorView>((url, preflight)),
                Err(e) => Err::<(Seq<char>, Seq<u8>), ErrorView>(e),
            }
        },
{
    let f = FrameView::Preflight(url, preflight);
    if let Ok(bytes) = frame::encoded(f, max) {
        frames_are_bounded(f, max);
        header_reads_back(FrameType::Preflight, frame::payload(f).len(), Seq::empty(), max);
        assert(bytes.take(5) + Seq::<u8>::empty() =~= bytes.take(5));
        preflight_reads_back(url, preflight);
    }
}

/// The payload of a preflight frame that reads is the one that would be written.
pub proof fn preflight_writes_back(data: Seq<u8>)
    ensures
        frame::decoded_preflight(data) matches Ok((url, preflight)) ==> frame::payload(
            FrameView::Preflight(url, preflight),
        ) == data,
{
    if let Ok((url, preflight)) = frame::decoded_preflight(data) {
        let len = frame::from_be32(data[0], data[1], data[2], data[3]);
        let url_bytes = data.subrange(4, 4 + len as int);
        utf8::decode_utf8_encode_utf8(url_bytes);
        be32_writes_back(data[0], data[1], data[2], data[3]);
        assert(frame::payload(FrameView::Preflight(url, preflight)) =~= data);
    }
}

/// Frames have one payload each: what two frames of one type hold is the same where their payloads
/// are.
proof fn payload_tells_the_frame(one: FrameView, other: FrameView)
    requires
        frame::frame_type(one) == frame::frame_type(other),
        frame::payload(one) == frame::payload(other),
        frame::payload(one).len() <= u32::MAX,
    ensures
        one == other,
{
    match (one, other) {
        (FrameView::Preflight(url, preflight), FrameView::Preflight(url2, preflight2)) => {
            let a = frame::payload(one);
            let b = frame::payload(other);
            let bytes = utf8::encode_utf8(url);
            let bytes2 = utf8::encode_utf8(url2);
            be32_reads_back(bytes.len());
            be32_reads_back(bytes2.len());
            assert(a[0] == frame::be32(bytes.len())[0] && b[0] == frame::be32(bytes2.len())[0]);
            assert(a[1] == frame::be32(bytes.len())[1] && b[1] == frame::be32(bytes2.len())[1]);
            assert(a[2] == frame::be32(bytes.len())[2] && b[2] == frame::be32(bytes2.len())[2]);
            assert(a[3] == frame::be32(bytes.len())[3] && b[3] == frame::be32(bytes2.len())[3]);
            let n = bytes.len() as int;
            assert(bytes2.len() == n);
            assert(a.subrange(4, 4 + n) =~= bytes);
            assert(b.subrange(4, 4 + n) =~= bytes2);
            assert(a.skip(4 + n) =~= preflight);
            assert(b.skip(4 + n) =~= preflight2);
            utf8::encode_utf8_decode_utf8(url);
            utf8::encode_utf8_decode_utf8(url2);
        },
        _ => {},
    }
}

/// A stream of frames splits in one way: where the bytes of one frame are what the bytes of another
/// begin with, the two are the same frame.
pub proof fn frames_split_in_one_way(one: FrameView, other: FrameView, max: nat, other_max: nat)
    ensures
        match (frame::encoded(one, max), frame::encoded(other, other_max)) {
            (Ok(bytes), Ok(others)) => bytes.is_prefix_of(others) ==> one == other,
            _ => true,
        },
{
    if let (Ok(bytes), Ok(others)) = (
        frame::encoded(one, max),
        frame::encoded(other, other_max),
    ) {
        if bytes.is_prefix_of(others) {
            frames_are_bounded(one, max);
            frames_are_bounded(other, other_max);
            assert forall|i: int| 0 <= i < bytes.len() implies bytes[i] == others[i] by {
                assert(others.subrange(0, bytes.len() as int)[i] == others[i]);
            }
            assert(bytes.take(5)[0] == bytes[0] && others.take(5)[0] == others[0]);
            assert(bytes.len() == others.len());
            assert(bytes =~= others);
            payload_tells_the_frame(one, other);
        }
    }
}

/// The number that four bytes stand for, the highest first.
pub open spec fn number(b: Seq<u8>, at: int) -> int {
    b[at] * 0x100_0000 + b[at + 1] * 0x1_0000 + b[at + 2] * 0x100 + b[at + 3]
}

/// A message is encoded exactly where the frame has at most `max` bytes with its header of five, and
/// four bytes can tell the length of the message. The frame is a one, that length, and the message.
pub proof fn message_that_fits_is_encoded(data: Seq<u8>, max: nat)
    ensures
        frame::encoded(FrameView::Data(data), max) is Ok <==> data.len() + 5 <= max && data.len()
            <= 0xffff_ffff,
        match frame::encoded(FrameView::Data(data), max) {
            Ok(bytes) => {
                &&& bytes.len() == data.len() + 5
                &&& bytes[0] == 1
                &&& number(bytes, 1) == data.len()
                &&& forall|i: int| 0 <= i < data.len() ==> bytes[5 + i] == #[trigger] data[i]
            },
            Err(e) => e.kind == ErrorKind::FrameTooLarge && e.source is None,
        },
{
    if data.len() <= 0xffff_ffff {
        be32_reads_back(data.len());
    }
}

/// A preflight is encoded exactly where the frame has at most `max` bytes with its header of five,
/// and four bytes can tell the length of its payload. The frame is a zero, that length, the length
/// of the URL in four bytes, the URL, and the preflight.
pub proof fn preflight_that_fits_is_encoded(url: Seq<char>, preflight: Seq<u8>, max: nat)
    ensures
        ({
            let text = utf8::encode_utf8(url);
            let len = 4 + text.len() + preflight.len();
            let encoded = frame::encoded(FrameView::Preflight(url, preflight), max);
            &&& encoded is Ok <==> len + 5 <= max && len <= 0xffff_ffff
            &&& match encoded {
                Ok(bytes) => {
                    &&& bytes.len() == len + 5
                    &&& bytes[0] == 0
                    &&& number(bytes, 1) == len
                    &&& number(bytes, 5) == text.len()
                    &&& bytes.subrange(9, 9 + text.len() as int) == text
                    &&& bytes.skip(9 + text.len() as int) == preflight
                },
                Err(e) => e.kind == ErrorKind::FrameTooLarge && e.source is None,
            }
        }),
{
    let text = utf8::encode_utf8(url);
    let len = 4 + text.len() + preflight.len();
    if let Ok(bytes) = frame::encoded(FrameView::Preflight(url, preflight), max) {
        be32_reads_back(len);
        be32_reads_back(text.len());
        assert(bytes.subrange(9, 9 + text.len() as int) =~= text);
        assert(bytes.skip(9 + text.len() as int) =~= preflight);
        assert(bytes[5] == frame::be32(text.len())[0]);
        assert(bytes[6] == frame::be32(text.len())[1]);
        assert(bytes[7] == frame::be32(text.len())[2]);
        assert(bytes[8] == frame::be32(text.len())[3]);
    }
}

/// A larger maximum refuses no frame that a smaller one takes, and changes no byte of it.
pub proof fn larger_maximum_takes_more(f: FrameView, max: nat, larger: nat)
    requires
        max <= larger,
    ensures
        frame::encoded(f, max) is Ok ==> frame::encoded(f, larger) == frame::encoded(f, max),
{
}

/// What a header of five bytes or more says: the type is in the first byte, and the length of the
/// payload in the next four. It is read exactly where the type is known and the frame has at most
/// `max` bytes.
pub proof fn header_is_read(data: Seq<u8>, max: nat)
    ensures
        match frame::decoded_header(data, max) {
            Ok((ty, len)) => {
                &&& data.len() >= 5
                &&& ty == FrameType::Preflight && data[0] == 0 || ty == FrameType::Data && data[0]
                    == 1
                &&& len == number(data, 1)
                &&& len + 5 <= max
            },
            Err(e) => {
                &&& e.source is None
                &&& match e.kind {
                    ErrorKind::ShorterThanHeader => data.len() < 5,
                    ErrorKind::UnknownFrameType(value) => data.len() >= 5 && data[0] == value
                        && value > 1,
                    ErrorKind::IncomingFrameTooLarge => data.len() >= 5 && data[0] <= 1 && number(
                        data,
                        1,
                    ) + 5 > max,
                    _ => false,
                }
            },
        },
{
}

/// What the payload of a preflight frame says: the length of a URL in four bytes, the URL, and the
/// preflight. It is read exactly where all of the URL is there and the URL is an accepted one.
pub proof fn preflight_is_read(data: Seq<u8>)
    ensures
        match frame::decoded_preflight(data) {
            Ok((url, preflight)) => {
                let end = 4 + number(data, 0);
                &&& 4 <= end <= data.len()
                &&& utf8::valid_utf8(data.subrange(4, end))
                &&& url == utf8::decode_utf8(data.subrange(4, end))
                &&& outside::url_rejection(url) is None
                &&& preflight == data.skip(end)
            },
            Err(e) => match e.kind {
                ErrorKind::NoUrlLength => data.len() < 4 && e.source is None,
                ErrorKind::NoUrl => data.len() >= 4 && data.len() < 4 + number(data, 0)
                    && e.source is None,
                ErrorKind::UrlNotUtf8 => {
                    let bytes = data.subrange(4, 4 + number(data, 0));
                    &&& 4 + number(data, 0) <= data.len()
                    &&& !utf8::valid_utf8(bytes)
                    &&& e.source == Some(outside::utf8_error(bytes))
                },
                ErrorKind::InvalidUrl => {
                    let bytes = data.subrange(4, 4 + number(data, 0));
                    &&& 4 + number(data, 0) <= data.len()
                    &&& utf8::valid_utf8(bytes)
                    &&& e.source is Some
                    &&& e.source == outside::url_rejection(utf8::decode_utf8(bytes))
                },
                _ => false,
            },
        },
{
}

/// A frame that may be sent waits for its turn with the bytes that stand for it. That of a message
/// knows how many bytes the message has.
pub proof fn frame_to_send(f: FrameView, max: nat)
    ensures
        match (frame_send::sending(f, max), frame::encoded(f, max)) {
            (Ok(s), Ok(bytes)) => {
                &&& s.frame == bytes
                &&& s.phase == SendPhase::Waiting
                &&& match f {
                    FrameView::Preflight(..) => s.data_len is None,
                    FrameView::Data(data) => match s.data_len {
                        Some(len) => len == data.len(),
                        None => false,
                    },
                }
            },
            (Err(e), Err(refusal)) => e == refusal,
            _ => false,
        },
{
}

/// A header is the type of the frame, zero for a preflight and one for data, and the length of the
/// payload in four bytes, the highest first.
pub proof fn header_is_written(ty: FrameType, len: nat)
    requires
        len <= 0xffff_ffff,
    ensures
        frame::header(ty, len).len() == 5,
        ty == FrameType::Preflight ==> frame::header(ty, len)[0] == 0,
        ty == FrameType::Data ==> frame::header(ty, len)[0] == 1,
        number(frame::header(ty, len), 1) == len,
{
    be32_reads_back(len);
}

/// Two bytes stand for frame types, each for one; every other byte is an error that names it.
pub proof fn bytes_stand_for_types(value: u8)
    ensures
        match frame::type_of(value) {
            Ok(ty) => ty == FrameType::Preflight && value == 0 || ty == FrameType::Data && value
                == 1,
            Err(e) => value > 1 && e.kind == ErrorKind::UnknownFrameType(value) && e.source is None,
        },
        frame::type_of(value) matches Ok(ty) ==> frame::type_byte(ty) == value,
{
}

} // verus!
