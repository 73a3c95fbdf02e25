//! What is read of a request, as plain values: the parts of its URI
//! and the two headers that matter.

use crate::response::text_of;
use vstd::prelude::*;
use vstd::utf8::{char_is_scalar, encode_scalar, encode_utf8, has_width_1_encoding, is_scalar};

verus! {

/// The parts of a URI. `host` and `port` are those of its authority; a URI
/// without an authority has neither.
#[derive(Clone, Debug, PartialEq, Eq)]
pub struct Uri {
    pub host: Option<String>,
    pub port: Option<u16>,
    pub path: String,
    pub query: Option<String>,
}

/// The parts of a URI, as texts.
pub struct UriView {
    pub host: Option<Seq<char>>,
    pub port: Option<u16>,
    pub path: Seq<char>,
    pub query: Option<Seq<char>>,
}

impl View for Uri {
    type V = UriView;

    open spec fn view(&self) -> UriView {
        UriView {
            host: text_of(self.host),
            port: self.port,
            path: self.path@,
            query: text_of(self.query),
        }
    }
}

/// The parts of an optional URI.
pub open spec fn uri_of(uri: Option<Uri>) -> Option<UriView> {
    match uri {
        Some(uri) => Some(uri@),
        None => None,
    }
}

/// The bytes of an optional header value.
pub open spec fn bytes_of(value: Option<Vec<u8>>) -> Option<Seq<u8>> {
    match value {
        Some(bytes) => Some(bytes@),
        None => None,
    }
}

/// The values of a request's `Host` and `session` headers, as they came.
#[derive(Clone, Debug, PartialEq, Eq)]
pub struct Headers {
    pub host: Option<Vec<u8>>,
    pub session: Option<Vec<u8>>,
}

/// The two header values, as bytes.
pub struct HeadersView {
    pub host: Option<Seq<u8>>,
    pub session: Option<Seq<u8>>,
}

impl View for Headers {
    type V = HeadersView;

    open spec fn view(&self) -> HeadersView {
        HeadersView { host: bytes_of(self.host), session: bytes_of(self.session) }
    }
}

/// A request: its target and its headers.
#[derive(Clone, Debug, PartialEq, Eq)]
pub struct Request {
    pub uri: Uri,
    pub headers: Headers,
}

/// What a request says.
pub struct RequestView {
    pub uri: UriView,
    pub headers: HeadersView,
}

impl View for Request {
    type V = RequestView;

    open spec fn view(&self) -> RequestView {
        RequestView { uri: self.uri@, headers: self.headers@ }
    }
}

/// The parts of the URI that `text` is, where it is one.
pub uninterp spec fn parsed_uri(text: Seq<char>) -> Option<UriView>;

/// Calls `from_str` of `http::Uri` on the text and takes the URI apart with
/// its `host`, `port_u16`, `path` and `query`. Taken on trust: that the
/// parts depend on the text alone.
#[verifier::external_body]
pub(crate) fn parse_uri_text(text: &str) -> (uri: Option<Uri>)
    ensures
        uri_of(uri) == parsed_uri(text@),
{
    let uri = text.parse::<http::Uri>().ok()?;
    Some(
        Uri {
            host: uri.host().map(String::from),
            port: uri.port_u16(),
            path: String::from(uri.path()),
            query: uri.query().map(String::from),
        },
    )
}

/// A byte that a header value shows as text: printable ASCII, or a tab.
pub open spec fn is_visible_ascii(byte: u8) -> bool {
    (32 <= byte < 127) || byte == 9
}

/// The text of a header value: its bytes as characters, where all of them
/// are visible.
pub open spec fn header_text(value: Seq<u8>) -> Option<Seq<char>> {
    if forall|i: int| 0 <= i < value.len() ==> is_visible_ascii(#[trigger] value[i]) {
        Some(Seq::new(value.len(), |i: int| value[i] as char))
    } else {
        None
    }
}

/// Calls `to_str` on the `http::HeaderValue` that `HeaderValue::from_bytes`
/// makes of the bytes. Taken on trust: that the bytes come back as a string
/// where each of them is between 32 and 126 or a tab, and that there is no
/// string where one of them is not.
#[verifier::external_body]
pub(crate) fn header_to_str(value: &[u8]) -> (text: Option<String>)
    ensures
        text_of(text) == header_text(value@),
{
    let value = http::HeaderValue::from_bytes(value).ok()?;
    value.to_str().ok().map(String::from)
}

/// A byte that may stand in a header value: anything but a control
/// character, or a tab.
pub open spec fn is_header_value_byte(byte: u8) -> bool {
    (byte >= 32 && byte != 127) || byte == 9
}

/// Whether a text can be sent as a header value.
pub open spec fn is_header_value(text: Seq<char>) -> bool {
    forall|i: int|
        0 <= i < encode_utf8(text).len() ==> is_header_value_byte(#[trigger] encode_utf8(text)[i])
}

/// Calls `http::HeaderValue::from_str` on the text and keeps whether it
/// succeeded. Taken on trust: that it succeeds where every byte of the text
/// is a tab, or 32 or more and not 127, and nowhere else.
#[verifier::external_body]
pub(crate) fn header_value_from_str(text: &str) -> (ok: bool)
    ensures
        ok == is_header_value(text@),
{
    http::HeaderValue::from_str(text).is_ok()
}

/// A character that may stand in a header value: anything but a control
/// character, or a tab.
pub open spec fn is_header_value_char(c: char) -> bool {
    (c as u32 >= 32 && c as u32 != 127) || c as u32 == 9
}

/// Whether every character of a text may stand in a header value.
pub open spec fn is_header_value_text(text: Seq<char>) -> bool {
    forall|i: int| 0 <= i < text.len() ==> is_header_value_char(#[trigger] text[i])
}

/// The encoding of an ASCII character is the character, and every byte of
/// any other encoding is 128 or more.
proof fn lemma_encoded_scalar(scalar: u32)
    requires
        is_scalar(scalar),
    ensures
        has_width_1_encoding(scalar) ==> encode_scalar(scalar) == seq![scalar as u8],
        !has_width_1_encoding(scalar) ==> forall|i: int|
            0 <= i < encode_scalar(scalar).len() ==> #[trigger] encode_scalar(scalar)[i] >= 128,
        encode_scalar(scalar).len() >= 1,
{
    assert(scalar <= 0x7f ==> (scalar & 0x7f) as u8 == scalar as u8) by (bit_vector);
    assert(forall|low: u8| 0xC0u8 | low >= 128) by (bit_vector);
    assert(forall|low: u8| 0xE0u8 | low >= 128) by (bit_vector);
    assert(forall|low: u8| 0xF0u8 | low >= 128) by (bit_vector);
    assert(forall|low: u8| 0x80u8 | low >= 128) by (bit_vector);
}

/// A text can be sent as a header value if and only if each of its
/// characters may stand in one: the bytes of a character beyond ASCII are
/// all 128 or more.
pub proof fn lemma_header_value_by_chars(text: Seq<char>)
    ensures
        is_header_value(text) <==> is_header_value_text(text),
    decreases text.len(),
{
    if text.len() > 0 {
        let first = text[0];
        let rest = text.drop_first();
        let head = encode_scalar(first as u32);
        let tail = encode_utf8(rest);
        char_is_scalar(first);
        lemma_encoded_scalar(first as u32);
        lemma_header_value_by_chars(rest);
        assert(encode_utf8(text) == head + tail);
        if is_header_value(text) {
            assert forall|i: int| 0 <= i < tail.len() implies is_header_value_byte(
                #[trigger] tail[i],
            ) by {
                assert(encode_utf8(text)[head.len() + i] == tail[i]);
            }
            assert(is_header_value_char(first)) by {
                assert(encode_utf8(text)[0] == head[0]);
            }
            assert forall|i: int| 0 <= i < text.len() implies is_header_value_char(
                #[trigger] text[i],
            ) by {
                if i > 0 {
                    assert(text[i] == rest[i - 1]);
                }
            }
        }
        if is_header_value_text(text) {
            assert forall|i: int| 0 <= i < rest.len() implies is_header_value_char(
                #[trigger] rest[i],
            ) by {
                assert(rest[i] == text[i + 1]);
            }
            assert(is_header_value_char(text[0]));
            assert forall|i: int| 0 <= i < encode_utf8(text).len() implies is_header_value_byte(
                #[trigger] encode_utf8(text)[i],
            ) by {
                if i < head.len() {
                    assert(encode_utf8(text)[i] == head[i]);
                } else {
                    assert(encode_utf8(text)[i] == tail[i - head.len()]);
                }
            }
        }
    }
}

/// Texts that can be sent as header values can be sent one after the other,
/// and no others.
pub proof fn lemma_header_value_concat(a: Seq<char>, b: Seq<char>)
    ensures
        is_header_value(a + b) <==> is_header_value(a) && is_header_value(b),
{
    lemma_header_value_by_chars(a);
    lemma_header_value_by_chars(b);
    lemma_header_value_by_chars(a + b);
    if is_header_value_text(a + b) {
        assert forall|i: int| 0 <= i < a.len() implies is_header_value_char(#[trigger] a[i]) by {
            assert(a[i] == (a + b)[i]);
        }
        assert forall|i: int| 0 <= i < b.len() implies is_header_value_char(#[trigger] b[i]) by {
            assert(b[i] == (a + b)[a.len() + i]);
        }
    }
}

} // verus!
