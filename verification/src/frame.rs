//! Frames: how messages are cut on a stream.
//!
//! A frame is a header of five bytes and a payload. The header holds the frame type, in one byte,
//! and the length of the payload, as a big-endian number of four bytes. The payload of a preflight
//! frame holds the length of a URL in four bytes, the URL, and the preflight; that of a data frame
//! holds the data.
use crate::error::{Error, ErrorKind, ErrorView};
use crate::url::Url;
use crate::{error, outside, url};
use bytes::Bytes;
use vstd::prelude::*;
use vstd::slice::slice_subrange;
use vstd::utf8;

verus! {

/// The length of a frame header in bytes.
pub const FRAME_HEADER_LEN: usize = 5;

/// The types of frames.
#[derive(Clone, Copy, Debug, PartialEq, Eq, Structural)]
pub enum FrameType {
    /// A peer URL and a preflight.
    Preflight,
    /// Data.
    Data,
}

/// The byte that stands for a frame type.
pub open spec fn type_byte(ty: FrameType) -> u8 {
    match ty {
        FrameType::Preflight => 0,
        FrameType::Data => 1,
    }
}

/// The frame type that a byte stands for.
pub open spec fn type_of(value: u8) -> Result<FrameType, Error> {
    if value == 0 {
        Ok(FrameType::Preflight)
    } else if value == 1 {
        Ok(FrameType::Data)
    } else {
        Err(Error { kind: ErrorKind::UnknownFrameType(value), source: None })
    }
}

impl TryFrom<u8> for FrameType {
    type Error = Error;

    fn try_from(value: u8) -> (r: Result<FrameType, Error>) {
        match value {
            0 => Ok(FrameType::Preflight),
            1 => Ok(FrameType::Data),
            _ => Err(Error { kind: ErrorKind::UnknownFrameType(value), source: None }),
        }
    }
}

impl vstd::std_specs::convert::TryFromSpecImpl<u8> for FrameType {
    open spec fn obeys_try_from_spec() -> bool {
        true
    }

    open spec fn try_from_spec(value: u8) -> Result<FrameType, Error> {
        type_of(value)
    }
}

/// A frame.
#[derive(Debug)]
pub enum Frame {
    /// The URL of the sender and its preflight.
    Preflight((Url, Bytes)),
    /// Data.
    Data(Bytes),
}

/// A [`Frame`] as a mathematical value.
pub enum FrameView {
    /// The URL of the sender and its preflight.
    Preflight(Seq<char>, Seq<u8>),
    /// Data.
    Data(Seq<u8>),
}

impl View for Frame {
    type V = FrameView;

    open spec fn view(&self) -> FrameView {
        match self {
            Frame::Preflight((url, preflight)) => FrameView::Preflight(
                url@,
                outside::contents(*preflight),
            ),
            Frame::Data(data) => FrameView::Data(outside::contents(*data)),
        }
    }
}

/// A number of at most 32 bits as four bytes, the highest first.
pub open spec fn be32(n: nat) -> Seq<u8> {
    seq![
        (n / 0x100_0000 % 0x100) as u8,
        (n / 0x1_0000 % 0x100) as u8,
        (n / 0x100 % 0x100) as u8,
        (n % 0x100) as u8,
    ]
}

/// The number that four bytes stand for, the highest first.
pub open spec fn from_be32(b0: u8, b1: u8, b2: u8, b3: u8) -> nat {
    (b0 * 0x100_0000 + b1 * 0x1_0000 + b2 * 0x100 + b3) as nat
}

/// A frame header.
pub open spec fn header(ty: FrameType, len: nat) -> Seq<u8> {
    seq![type_byte(ty)] + be32(len)
}

/// The type of a frame.
pub open spec fn frame_type(frame: FrameView) -> FrameType {
    match frame {
        FrameView::Preflight(..) => FrameType::Preflight,
        FrameView::Data(_) => FrameType::Data,
    }
}

/// The payload of a frame.
pub open spec fn payload(frame: FrameView) -> Seq<u8> {
    match frame {
        FrameView::Preflight(url, preflight) => be32(utf8::encode_utf8(url).len())
            + utf8::encode_utf8(url) + preflight,
        FrameView::Data(data) => data,
    }
}

/// Whether a payload is too large for a frame: the frame would have more than `max` bytes, or the
/// header could not announce the length of the payload in four bytes.
pub open spec fn too_large(len: nat, max: nat) -> bool {
    len + FRAME_HEADER_LEN > max || len > u32::MAX
}

/// The bytes of a frame, or the error where its payload is too large.
pub open spec fn encoded(frame: FrameView, max: nat) -> Result<Seq<u8>, ErrorView> {
    if too_large(payload(frame).len(), max) {
        Err(error::plain(ErrorKind::FrameTooLarge))
    } else {
        Ok(header(frame_type(frame), payload(frame).len()) + payload(frame))
    }
}

/// The frame type and the length of the payload that a frame header announces.
pub open spec fn decoded_header(data: Seq<u8>, max: nat) -> Result<(FrameType, nat), ErrorView> {
    if data.len() < FRAME_HEADER_LEN {
        Err(error::plain(ErrorKind::ShorterThanHeader))
    } else {
        match type_of(data[0]) {
            Err(e) => Err(e@),
            Ok(ty) => {
                let len = from_be32(data[1], data[2], data[3], data[4]);
                if len + FRAME_HEADER_LEN > max {
                    Err(error::plain(ErrorKind::IncomingFrameTooLarge))
                } else {
                    Ok((ty, len))
                }
            },
        }
    }
}

/// The URL and the preflight that the payload of a preflight frame holds.
pub open spec fn decoded_preflight(data: Seq<u8>) -> Result<(Seq<char>, Seq<u8>), ErrorView> {
    if data.len() < 4 {
        Err(error::plain(ErrorKind::NoUrlLength))
    } else {
        let len = from_be32(data[0], data[1], data[2], data[3]);
        if data.len() < 4 + len {
            Err(error::plain(ErrorKind::NoUrl))
        } else {
            let url_bytes = data.subrange(4, 4 + len as int);
            if !utf8::valid_utf8(url_bytes) {
                Err(error::caused(ErrorKind::UrlNotUtf8, outside::utf8_error(url_bytes)))
            } else {
                match url::parse(utf8::decode_utf8(url_bytes)) {
                    Err(e) => Err(e),
                    Ok(url) => Ok((url, data.skip(4 + len as int))),
                }
            }
        }
    }
}

/// The view of a result that holds bytes.
pub open spec fn bytes_result(r: Result<Bytes, Error>) -> Result<Seq<u8>, ErrorView> {
    match r {
        Ok(b) => Ok(outside::contents(b)),
        Err(e) => Err(e@),
    }
}

/// The view of a result that holds what a frame header announces.
pub open spec fn header_result(r: Result<(FrameType, usize), Error>) -> Result<
    (FrameType, nat),
    ErrorView,
> {
    match r {
        Ok((ty, len)) => Ok((ty, len as nat)),
        Err(e) => Err(e@),
    }
}

/// The view of a result that holds a URL and a preflight.
pub open spec fn preflight_result(r: Result<(Url, Bytes), Error>) -> Result<
    (Seq<char>, Seq<u8>),
    ErrorView,
> {
    match r {
        Ok((url, preflight)) => Ok((url@, outside::contents(preflight))),
        Err(e) => Err(e@),
    }
}

/// Appends bytes.
fn append(data: &mut Vec<u8>, more: &[u8])
    ensures
        final(data)@ == old(data)@ + more@,
{
    data.extend_from_slice(more);
    assert(data@ == old(data)@ + more@);
}

/// Appends a number of at most 32 bits, the highest byte first.
fn append_be32(data: &mut Vec<u8>, n: usize)
    ensures
        final(data)@ == old(data)@ + be32(n as nat),
{
    let n: u64 = n as u64;
    data.push((n / 0x100_0000 % 0x100) as u8);
    data.push((n / 0x1_0000 % 0x100) as u8);
    data.push((n / 0x100 % 0x100) as u8);
    data.push((n % 0x100) as u8);
    assert(data@ == old(data)@ + be32(n as nat));
}

/// Reads a number of four bytes, the highest first.
fn read_be32(b0: u8, b1: u8, b2: u8, b3: u8) -> (r: usize)
    ensures
        r == from_be32(b0, b1, b2, b3),
{
    (b0 as u32 * 0x100_0000 + b1 as u32 * 0x1_0000 + b2 as u32 * 0x100 + b3 as u32) as usize
}

/// Encodes the header of a frame with a payload of `data_len` bytes.
///
/// The frame may have at most `max_frame_bytes` bytes in all, and its payload no more than four
/// bytes can announce.
pub fn encode_frame_header(ty: FrameType, data_len: usize, max_frame_bytes: usize) -> (r: Result<
    Vec<u8>,
    Error,
>)
    ensures
        match r {
            Ok(h) => {
                &&& data_len + FRAME_HEADER_LEN <= max_frame_bytes
                &&& data_len <= u32::MAX
                &&& h@ == header(ty, data_len as nat)
            },
            Err(e) => {
                &&& data_len + FRAME_HEADER_LEN > max_frame_bytes || data_len > u32::MAX
                &&& e@ == error::plain(ErrorKind::FrameTooLarge)
            },
        },
{
    if max_frame_bytes < FRAME_HEADER_LEN || data_len > max_frame_bytes - FRAME_HEADER_LEN
        || data_len as u64 > 0xffff_ffff {
        return Err(Error::new(ErrorKind::FrameTooLarge));
    }
    let mut h: Vec<u8> = Vec::with_capacity(FRAME_HEADER_LEN);
    h.push(
        match ty {
            FrameType::Preflight => 0u8,
            FrameType::Data => 1u8,
        },
    );
    append_be32(&mut h, data_len);
    assert(h@ == header(ty, data_len as nat));
    Ok(h)
}

/// Encodes a frame, which may have at most `max_frame_bytes` bytes in all, and a payload of no more
/// bytes than its header can announce.
pub fn encode_frame(frame: Frame, max_frame_bytes: usize) -> (r: Result<Bytes, Error>)
    ensures
        bytes_result(r) == encoded(frame@, max_frame_bytes as nat),
        r is Ok <==> {
            let len: nat = match frame@ {
                FrameView::Preflight(url, preflight) => 4 + utf8::encode_utf8(url).len()
                    + preflight.len(),
                FrameView::Data(data) => data.len(),
            };
            len + 5 <= max_frame_bytes && len <= 0xffff_ffff
        },
{
    match frame {
        Frame::Preflight((url, preflight)) => {
            let url_bytes = url.as_str().as_bytes();
            let mut data: Vec<u8> = Vec::new();
            append_be32(&mut data, url_bytes.len());
            append(&mut data, url_bytes);
            append(&mut data, outside::byte_slice(&preflight));
            assert(data@ == payload(frame@));
            match encode_frame_header(FrameType::Preflight, data.len(), max_frame_bytes) {
                Err(e) => Err(e),
                Ok(h) => {
                    let mut out: Vec<u8> = h;
                    append(&mut out, data.as_slice());
                    Ok(outside::copy_bytes(out.as_slice()))
                },
            }
        },
        Frame::Data(data) => {
            let data = outside::byte_slice(&data);
            match encode_frame_header(FrameType::Data, data.len(), max_frame_bytes) {
                Err(e) => Err(e),
                Ok(h) => {
                    let mut out: Vec<u8> = h;
                    append(&mut out, data);
                    Ok(outside::copy_bytes(out.as_slice()))
                },
            }
        },
    }
}

/// Decodes a frame header into the frame type and the length of the payload.
///
/// The frame may have at most `max_frame_bytes` bytes in all.
pub fn decode_frame_header(data: &[u8], max_frame_bytes: usize) -> (r: Result<
    (FrameType, usize),
    Error,
>)
    ensures
        header_result(r) == decoded_header(data@, max_frame_bytes as nat),
{
    if data.len() < FRAME_HEADER_LEN {
        return Err(Error::new(ErrorKind::ShorterThanHeader));
    }
    let ty = match FrameType::try_from(data[0]) {
        Err(e) => return Err(e),
        Ok(ty) => ty,
    };
    let len: usize = read_be32(data[1], data[2], data[3], data[4]);
    if max_frame_bytes < FRAME_HEADER_LEN || len > max_frame_bytes - FRAME_HEADER_LEN {
        return Err(Error::new(ErrorKind::IncomingFrameTooLarge));
    }
    Ok((ty, len))
}

/// Decodes the payload of a preflight frame into the URL of the sender and its preflight.
pub fn decode_frame_preflight(data: &[u8]) -> (r: Result<(Url, Bytes), Error>)
    ensures
        preflight_result(r) == decoded_preflight(data@),
{
    if data.len() < 4 {
        return Err(Error::new(ErrorKind::NoUrlLength));
    }
    let len: usize = read_be32(data[0], data[1], data[2], data[3]);
    if data.len() - 4 < len {
        return Err(Error::new(ErrorKind::NoUrl));
    }
    let url_bytes = slice_subrange(data, 4, 4 + len);
    let text = match outside::read_utf8(url_bytes) {
        Err(e) => return Err(Error::caused_by(ErrorKind::UrlNotUtf8, e)),
        Ok(text) => text,
    };
    let url = match Url::from_str(text.as_str()) {
        Err(e) => return Err(e),
        Ok(url) => url,
    };
    let preflight = slice_subrange(data, 4 + len, data.len());
    assert(preflight@ == data@.skip(4 + len as int));
    Ok((url, outside::copy_bytes(preflight)))
}

} // verus!
