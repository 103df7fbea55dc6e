//! The outside crates, as far as the library calls them.
//!
//! What stands here is believed, not proved: each item says which outside function it calls and
//! what it claims of it.
use crate::text;
use crate::url::{Host, RelayUrl, RelayUrlView};
use std::str::FromStr;
use vstd::prelude::*;
use vstd::utf8;

verus! {

/// `bytes::Bytes`, a cheaply cloneable run of bytes.
#[verifier::external_type_specification]
#[verifier::external_body]
pub struct ExBytes(bytes::Bytes);

/// The bytes that a `bytes::Bytes` holds, in order.
pub uninterp spec fn contents(b: bytes::Bytes) -> Seq<u8>;

/// Calls `bytes::Bytes::copy_from_slice`. The new value holds exactly the bytes of the slice.
#[verifier::external_body]
pub(crate) fn copy_bytes(data: &[u8]) -> (r: bytes::Bytes)
    ensures
        contents(r) == data@,
{
    bytes::Bytes::copy_from_slice(data)
}

/// Calls `bytes::Bytes::as_ref`. The slice holds exactly the bytes of the value.
#[verifier::external_body]
pub(crate) fn byte_slice(b: &bytes::Bytes) -> (r: &[u8])
    ensures
        r@ == contents(*b),
{
    b.as_ref()
}

/// The text of the error with which `std::str::from_utf8` refuses bytes.
pub uninterp spec fn utf8_error(bytes: Seq<u8>) -> Seq<char>;

/// Calls `std::str::from_utf8`. Exactly the valid UTF-8 is accepted, and read as the characters
/// that it encodes; other bytes are refused, with the text of the error.
#[verifier::external_body]
pub(crate) fn read_utf8(bytes: &[u8]) -> (r: Result<String, String>)
    ensures
        match r {
            Ok(s) => utf8::valid_utf8(bytes@) && s@ == utf8::decode_utf8(bytes@),
            Err(e) => !utf8::valid_utf8(bytes@) && e@ == utf8_error(bytes@),
        },
{
    std::str::from_utf8(bytes).map(|s| s.to_string()).map_err(|e| e.to_string())
}

/// The message with which `kitsune2_api::Url::from_str` refuses a text, or `None` where it
/// accepts it.
pub uninterp spec fn url_rejection(text: Seq<char>) -> Option<Seq<char>>;

/// Calls `kitsune2_api::Url::from_str`. An accepted text is kept as it is, and begins with one of
/// four schemes; a refused one gives the message of the error.
#[verifier::external_body]
pub(crate) fn check_url(text: &str) -> (r: Result<(), String>)
    ensures
        match r {
            Ok(()) => url_rejection(text@) is None,
            Err(e) => url_rejection(text@) == Some(e@),
        },
        r is Ok ==> {
            ||| text::begins_with(text@, "ws://"@)
            ||| text::begins_with(text@, "wss://"@)
            ||| text::begins_with(text@, "http://"@)
            ||| text::begins_with(text@, "https://"@)
        },
{
    kitsune2_api::Url::from_str(text).map(|_| ()).map_err(|e| e.to_string())
}

/// The scheme that `url::Url::parse` reads in a text, or the message with which it refuses it.
pub uninterp spec fn url_scheme(text: Seq<char>) -> Result<Seq<char>, Seq<char>>;

/// Calls `url::Url::parse`, and hands out the scheme of the URL or the message of the error.
#[verifier::external_body]
pub(crate) fn read_url_scheme(text: &str) -> (r: Result<String, String>)
    ensures
        match r {
            Ok(s) => url_scheme(text@) == Ok::<Seq<char>, Seq<char>>(s@),
            Err(e) => url_scheme(text@) == Err::<Seq<char>, Seq<char>>(e@),
        },
{
    url::Url::parse(text).map(|u| u.scheme().to_string()).map_err(|e| e.to_string())
}

/// The relay URL that `iroh::RelayUrl::from_str` reads in a text, or the message with which it
/// refuses it.
pub uninterp spec fn relay_url(text: Seq<char>) -> Result<RelayUrlView, Seq<char>>;

/// Calls `iroh::RelayUrl::from_str`, and hands out the parts of the relay URL or the message of
/// the error. A text makes a relay URL exactly where `url::Url::parse` accepts it. A relay URL over
/// HTTP has a host, is written with its scheme and `://` first, and has a path, which starts with a
/// slash; hosts hold no slashes. It keeps a port exactly where that is not the default port of its
/// scheme. One that is nothing but a scheme, a host and perhaps a port reads as itself, also with
/// its port written out, with or without the final slash, however its IPv6 host is written.
#[verifier::external_body]
pub(crate) fn read_relay_url(text: &str) -> (r: Result<RelayUrl, String>)
    ensures
        match r {
            Ok(u) => relay_url(text@) == Ok::<RelayUrlView, Seq<char>>(u@),
            Err(e) => relay_url(text@) == Err::<RelayUrlView, Seq<char>>(e@),
        },
        r is Ok <==> url_scheme(text@) is Ok,
        match r {
            Ok(u) => crate::url::well_written(u@) && crate::url::reads_back(u@),
            Err(_) => true,
        },
{
    let u = iroh::RelayUrl::from_str(text).map_err(|e| e.to_string())?;
    let host = match u.host() {
        None => None,
        Some(url::Host::Domain(d)) => Some(Host::Domain(d.to_string())),
        Some(url::Host::Ipv4(a)) => Some(Host::Ipv4(a.to_string())),
        Some(url::Host::Ipv6(a)) => Some(Host::Ipv6(a.to_string())),
    };
    let (port, known_port) = (u.port(), u.port_or_known_default());
    Ok(RelayUrl { text: u.to_string(), scheme: u.scheme().to_string(), host, port, known_port })
}

/// The endpoint id that `iroh::EndpointId::from_str` reads in a text, written out, or the message
/// with which it refuses it.
pub uninterp spec fn endpoint_id(text: Seq<char>) -> Result<Seq<char>, Seq<char>>;

/// Whether a text is made of 64 lower-case hexadecimal digits.
pub open spec fn is_hex_id(id: Seq<char>) -> bool {
    &&& id.len() == 64
    &&& forall|i: int|
        0 <= i < id.len() ==> ('0' <= #[trigger] id[i] && id[i] <= '9') || ('a' <= id[i] && id[i]
            <= 'f')
}

/// Calls `iroh::EndpointId::from_str`, and hands out the id as `Display` writes it or the message
/// of the error. A written id has 64 lower-case hexadecimal digits, and reads as itself.
#[verifier::external_body]
pub(crate) fn read_endpoint_id(text: &str) -> (r: Result<String, String>)
    ensures
        match r {
            Ok(id) => {
                &&& endpoint_id(text@) == Ok::<Seq<char>, Seq<char>>(id@)
                &&& endpoint_id(id@) == Ok::<Seq<char>, Seq<char>>(id@)
                &&& is_hex_id(id@)
            },
            Err(e) => endpoint_id(text@) == Err::<Seq<char>, Seq<char>>(e@),
        },
{
    iroh::EndpointId::from_str(text).map(|id| id.to_string()).map_err(|e| e.to_string())
}

} // verus!
