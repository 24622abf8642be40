//! Extraction of the caller's credential from the parts of an inbound HTTP
//! request: the `Authorization` header, or else the first segment of the path.

use vstd::prelude::*;
use vstd::std_specs::iter::IteratorSpec;
use vstd::string::StrSliceExecFns;
use vstd::utf8::{decode_utf8, valid_utf8};

verus! {

/// Length of the scheme prefix `Basic ` of an `Authorization` header.
pub const BASIC_PREFIX_LEN: usize = 6;

/// What the credential extractor reads of an inbound HTTP request.
#[derive(Debug, Clone)]
pub struct RequestHead {
    /// The value of the first `Authorization` header, if the request has one.
    pub authorization: Option<Vec<u8>>,
    /// The path of the request URI.
    pub path: String,
}

impl RequestHead {
    /// Builds the head of a request.
    pub fn new(authorization: Option<Vec<u8>>, path: String) -> (head: RequestHead)
        ensures
            head.authorization == authorization,
            head.path == path,
    {
        RequestHead { authorization, path }
    }
}

/// Whether a byte is a visible ASCII character, a space or a tab.
pub open spec fn is_visible_ascii(byte: u8) -> bool {
    (32 <= byte < 127) || byte == 9
}

/// Whether a header value can be read as text: every byte is visible ASCII.
pub open spec fn header_is_text(value: Seq<u8>) -> bool {
    forall|i: int| 0 <= i < value.len() ==> is_visible_ascii(#[trigger] value[i])
}

/// The bytes of the scheme prefix `Basic `.
pub open spec fn basic_prefix() -> Seq<u8> {
    seq![66u8, 97u8, 115u8, 105u8, 99u8, 32u8]
}

/// What follows the prefix `Basic ` in a header value that is text and starts
/// with that prefix.
pub open spec fn basic_payload_of(value: Seq<u8>) -> Option<Seq<u8>> {
    if header_is_text(value) && value.len() >= BASIC_PREFIX_LEN && value.subrange(
        0,
        BASIC_PREFIX_LEN as int,
    ) == basic_prefix() {
        Some(value.subrange(BASIC_PREFIX_LEN as int, value.len() as int))
    } else {
        None
    }
}

/// The bytes that a base64 text stands for under the standard alphabet with
/// padding, if it is well formed.
pub uninterp spec fn base64_decoded(text: Seq<u8>) -> Option<Seq<u8>>;

/// The credential that decoded header bytes amount to: their text, if they
/// are UTF-8.
pub open spec fn decoded_credential_of(decoded: Option<Seq<u8>>) -> Option<Seq<char>> {
    match decoded {
        Some(bytes) if valid_utf8(bytes) => Some(decode_utf8(bytes)),
        _ => None,
    }
}

/// The credential carried by an `Authorization` header value.
pub open spec fn header_credential_of(value: Seq<u8>) -> Option<Seq<char>> {
    match basic_payload_of(value) {
        Some(payload) => decoded_credential_of(base64_decoded(payload)),
        None => None,
    }
}

/// Number of characters before the first `/` of `text`, or its length if it
/// has none.
pub open spec fn segment_len(text: Seq<char>) -> nat
    decreases text.len(),
{
    if text.len() == 0 || text[0] == '/' {
        0
    } else {
        1 + segment_len(text.drop_first())
    }
}

/// The credential carried by a path: its first segment after the leading `/`,
/// if the path starts with `/` and that segment is not empty.
pub open spec fn path_credential_of(path: Seq<char>) -> Option<Seq<char>> {
    if path.len() > 0 && path[0] == '/' && segment_len(path.skip(1)) > 0 {
        Some(path.subrange(1, 1 + segment_len(path.skip(1)) as int))
    } else {
        None
    }
}

/// The credential of a request: that of its `Authorization` header, or else
/// that of its path.
pub open spec fn credential_of(head: RequestHead) -> Option<Seq<char>> {
    match head.authorization {
        Some(value) if header_credential_of(value@) is Some => header_credential_of(value@),
        _ => path_credential_of(head.path@),
    }
}

/// The bytes behind an optional byte vector.
pub open spec fn option_bytes(bytes: Option<Vec<u8>>) -> Option<Seq<u8>> {
    match bytes {
        Some(bytes) => Some(bytes@),
        None => None,
    }
}

/// The text behind an optional string.
pub open spec fn option_text(text: Option<String>) -> Option<Seq<char>> {
    match text {
        Some(text) => Some(text@),
        None => None,
    }
}

/// Calls `hyper::header::HeaderValue::from_bytes` and then `to_str` on the
/// value. The first accepts bytes from 32 up except 127, and the tab; the
/// second succeeds when every byte is below 127 as well.
#[verifier::external_body]
fn header_reads_as_text(value: &[u8]) -> (readable: bool)
    ensures
        readable == header_is_text(value@),
{
    match hyper::header::HeaderValue::from_bytes(value) {
        Ok(header) => header.to_str().is_ok(),
        Err(_) => false,
    }
}

/// Calls `base64::decode`, the standard alphabet with padding. The contract
/// only names the outcome: it is a function of the input alone.
#[verifier::external_body]
#[allow(deprecated)]
fn base64_decode(text: &[u8]) -> (decoded: Option<Vec<u8>>)
    ensures
        decoded matches Some(bytes) ==> base64_decoded(text@) == Some(bytes@),
        decoded is None ==> base64_decoded(text@) is None,
{
    base64::decode(text).ok()
}

/// Calls `String::from_utf8`, which accepts exactly the byte vectors that are
/// UTF-8 and returns the text that they encode.
#[verifier::external_body]
fn text_from_utf8(bytes: Vec<u8>) -> (text: Option<String>)
    ensures
        text is Some <==> valid_utf8(bytes@),
        text matches Some(s) ==> s@ == decode_utf8(bytes@),
{
    String::from_utf8(bytes).ok()
}

/// Takes what follows `Basic ` out of an `Authorization` header value, if the
/// value is text and starts with that prefix.
pub fn basic_payload(value: &[u8]) -> (payload: Option<&[u8]>)
    ensures
        payload is Some <==> basic_payload_of(value@) is Some,
        payload matches Some(bytes) ==> basic_payload_of(value@) == Some(bytes@),
{
    if !header_reads_as_text(value) {
        return None;
    }
    if value.len() < BASIC_PREFIX_LEN {
        return None;
    }
    if value[0] == 66 && value[1] == 97 && value[2] == 115 && value[3] == 105 && value[4] == 99
        && value[5] == 32 {
        assert(value@.subrange(0, BASIC_PREFIX_LEN as int) =~= basic_prefix());
        Some(vstd::slice::slice_subrange(value, BASIC_PREFIX_LEN, value.len()))
    } else {
        assert(value@.subrange(0, BASIC_PREFIX_LEN as int) != basic_prefix()) by {
            let head = value@.subrange(0, BASIC_PREFIX_LEN as int);
            assert(head[0] == value@[0] && head[1] == value@[1] && head[2] == value@[2] && head[3]
                == value@[3] && head[4] == value@[4] && head[5] == value@[5]);
            assert(basic_prefix()[0] == 66 && basic_prefix()[1] == 97 && basic_prefix()[2] == 115
                && basic_prefix()[3] == 105 && basic_prefix()[4] == 99 && basic_prefix()[5]
                == 32);
        }
        None
    }
}

/// Turns the outcome of decoding a header's payload into a credential: the
/// decoded bytes as text, if there are any and they are UTF-8.
pub fn credential_from_decoded(decoded: Option<Vec<u8>>) -> (credential: Option<String>)
    ensures
        option_text(credential) == decoded_credential_of(option_bytes(decoded)),
{
    match decoded {
        Some(bytes) => text_from_utf8(bytes),
        None => None,
    }
}

/// Reads the credential of an `Authorization` header value.
pub fn header_credential(value: &[u8]) -> (credential: Option<String>)
    ensures
        option_text(credential) == header_credential_of(value@),
{
    match basic_payload(value) {
        Some(payload) => credential_from_decoded(base64_decode(payload)),
        None => None,
    }
}

/// Unfolds `segment_len` one character further along a path.
proof fn lemma_segment_len_step(text: Seq<char>, at: int)
    requires
        0 <= at < text.len(),
        text[at] != '/',
    ensures
        segment_len(text.skip(at)) == 1 + segment_len(text.skip(at + 1)),
{
    assert(text.skip(at).drop_first() =~= text.skip(at + 1));
}

/// Reads the credential of a path: its first segment after the leading `/`,
/// unless the path does not start with `/` or that segment is empty.
pub fn path_credential(path: &str) -> (credential: Option<String>)
    ensures
        option_text(credential) == path_credential_of(path@),
{
    broadcast use vstd::string::group_string_axioms;

    let total = path.unicode_len();
    let mut chars = path.chars();
    match chars.next() {
        Some(first) => {
            if first != '/' {
                return None;
            }
        },
        None => {
            return None;
        },
    }
    let mut end: usize = 1;
    loop
        invariant_except_break
            chars.remaining() == path@.skip(end as int),
            segment_len(path@.skip(1)) == (end - 1) + segment_len(path@.skip(end as int)),
        invariant
            1 <= end <= total,
            total == path@.len(),
            path@[0] == '/',
        ensures
            segment_len(path@.skip(1)) == end - 1,
        decreases total - end,
    {
        match chars.next() {
            Some(next) => {
                if next == '/' {
                    break ;
                }
                proof {
                    lemma_segment_len_step(path@, end as int);
                }
                end += 1;
            },
            None => {
                break ;
            },
        }
    }
    if end == 1 {
        None
    } else {
        Some(path.substring_char(1, end).to_owned())
    }
}

/// Extracts the caller's credential from an inbound request.
///
/// A `Basic` authorization header that decodes to UTF-8 text gives the
/// credential. Any other header, or none, leaves it to the path, whose first
/// segment is the credential unless it is empty.
pub fn get_credentials_from_request(req: &RequestHead) -> (credential: Option<String>)
    ensures
        option_text(credential) == credential_of(*req),
        req.authorization is None ==> option_text(credential) == path_credential_of(req.path@),
{
    match &req.authorization {
        Some(value) => {
            let from_header = header_credential(value.as_slice());
            if from_header.is_some() {
                return from_header;
            }
        },
        None => {},
    }
    path_credential(req.path.as_str())
}

} // verus!
