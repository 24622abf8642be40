//! The JSON-RPC request envelope and the JSON texts that the rewriter reads
//! and writes.

use jsonrpsee::types::{Id, Request};
use serde_json::value::RawValue;
use vstd::prelude::*;
use vstd::string::StringExecFns;

verus! {

/// The identifier of a JSON-RPC request.
#[derive(Debug, Clone)]
pub enum RequestId {
    /// The JSON value `null`.
    Null,
    /// A number.
    Number(u64),
    /// A string.
    Text(String),
}

/// A JSON-RPC request, with its parameters kept as JSON text.
#[derive(Debug, Clone)]
pub struct Envelope {
    /// The identifier of the request.
    pub id: RequestId,
    /// The name of the method to invoke.
    pub method: String,
    /// The JSON text of the parameters, if the request has any.
    pub params: Option<String>,
}

/// A request identifier with its text taken as a sequence of characters.
pub enum IdModel {
    Null,
    Number(u64),
    Text(Seq<char>),
}

/// A request envelope with its texts taken as sequences of characters.
pub struct EnvelopeModel {
    pub id: IdModel,
    pub method: Seq<char>,
    pub params: Option<Seq<char>>,
}

impl View for RequestId {
    type V = IdModel;

    open spec fn view(&self) -> IdModel {
        match self {
            RequestId::Null => IdModel::Null,
            RequestId::Number(number) => IdModel::Number(*number),
            RequestId::Text(text) => IdModel::Text(text@),
        }
    }
}

impl View for Envelope {
    type V = EnvelopeModel;

    open spec fn view(&self) -> EnvelopeModel {
        EnvelopeModel {
            id: self.id@,
            method: self.method@,
            params: match self.params {
                Some(text) => Some(text@),
                None => None,
            },
        }
    }
}

/// The texts of a list of strings.
pub open spec fn texts_of(items: Seq<String>) -> Seq<Seq<char>> {
    Seq::new(items.len(), |i: int| items[i]@)
}

/// The request that a body holds, if the body is a JSON-RPC request.
pub uninterp spec fn envelope_of(body: Seq<u8>) -> Option<EnvelopeModel>;

/// The bytes that a request is written as, if its parameters are JSON text.
pub uninterp spec fn envelope_bytes(envelope: EnvelopeModel) -> Option<Seq<u8>>;

/// The texts of the elements of a JSON array, in order, if the text is one.
pub uninterp spec fn json_array_items(text: Seq<char>) -> Option<Seq<Seq<char>>>;

/// The JSON string literal that stands for a text.
pub uninterp spec fn json_string_literal(text: Seq<char>) -> Option<Seq<char>>;

/// Calls `serde_json::from_slice` for a `jsonrpsee::types::Request` and copies
/// the identifier, the method name and the raw text of the parameters out of
/// it. The contract only names the outcome: it is a function of the body alone.
#[verifier::external_body]
fn decode_envelope(body: &[u8]) -> (decoded: Option<Envelope>)
    ensures
        decoded matches Some(envelope) ==> envelope_of(body@) == Some(envelope@),
        decoded is None ==> envelope_of(body@) is None,
{
    let request: Request = serde_json::from_slice(body).ok()?;
    let id = match request.id {
        Id::Null => RequestId::Null,
        Id::Number(number) => RequestId::Number(number),
        Id::Str(text) => RequestId::Text(text.into_owned()),
    };
    let params = request.params.map(|raw| raw.get().to_owned());
    Some(Envelope { id, method: request.method.into_owned(), params })
}

/// Builds a `jsonrpsee::types::Request` from the envelope, its parameters
/// through `RawValue::from_string`, and calls `serde_json::to_vec` on it. The
/// contract only names the outcome: it is a function of the envelope alone.
#[verifier::external_body]
fn encode_envelope(envelope: &Envelope) -> (encoded: Option<Vec<u8>>)
    ensures
        encoded matches Some(bytes) ==> envelope_bytes(envelope@) == Some(bytes@),
        encoded is None ==> envelope_bytes(envelope@) is None,
{
    let params = match &envelope.params {
        Some(text) => Some(RawValue::from_string(text.clone()).ok()?),
        None => None,
    };
    let id = match &envelope.id {
        RequestId::Null => Id::Null,
        RequestId::Number(number) => Id::Number(*number),
        RequestId::Text(text) => Id::Str(text.as_str().into()),
    };
    let request = Request::new(envelope.method.as_str().into(), params.as_deref(), id);
    serde_json::to_vec(&request).ok()
}

/// Calls `serde_json::from_str` for a list of raw values and hands out the
/// text of each. The contract only names the outcome: it is a function of the
/// text alone.
#[verifier::external_body]
fn parse_array_items(text: &str) -> (items: Option<Vec<String>>)
    ensures
        items matches Some(list) ==> json_array_items(text@) == Some(texts_of(list@)),
        items is None ==> json_array_items(text@) is None,
{
    let raw: Vec<Box<RawValue>> = serde_json::from_str(text).ok()?;
    Some(raw.into_iter().map(|item| item.get().to_owned()).collect())
}

/// Calls `serde_json::to_string` on a string slice. The contract only names
/// the outcome: it is a function of the text alone.
#[verifier::external_body]
fn encode_json_string(text: &str) -> (literal: Option<String>)
    ensures
        literal matches Some(quoted) ==> json_string_literal(text@) == Some(quoted@),
        literal is None ==> json_string_literal(text@) is None,
{
    serde_json::to_string(text).ok()
}

impl Envelope {
    /// Builds an envelope.
    pub fn new(id: RequestId, method: String, params: Option<String>) -> (envelope: Envelope)
        ensures
            envelope.id == id,
            envelope.method == method,
            envelope.params == params,
    {
        Envelope { id, method, params }
    }

    /// Reads the envelope that a request body holds.
    pub fn decode(body: &[u8]) -> (decoded: Option<Envelope>)
        ensures
            decoded matches Some(envelope) ==> envelope_of(body@) == Some(envelope@),
            decoded is None ==> envelope_of(body@) is None,
    {
        decode_envelope(body)
    }

    /// Writes the envelope as a request body.
    pub fn encode(&self) -> (encoded: Option<Vec<u8>>)
        ensures
            encoded matches Some(bytes) ==> envelope_bytes(self@) == Some(bytes@),
            encoded is None ==> envelope_bytes(self@) is None,
    {
        encode_envelope(self)
    }
}

/// The elements of optional parameter text: none where there is no text, and
/// the elements of the array where the text is one.
pub open spec fn params_items(params: Option<Seq<char>>) -> Option<Seq<Seq<char>>> {
    match params {
        Some(text) => json_array_items(text),
        None => Some(Seq::empty()),
    }
}

/// Reads the elements of a request's parameters. Absent parameters count as
/// an empty list; parameters that are no array have no elements to give.
pub fn items_of_params(params: &Option<String>) -> (items: Option<Vec<String>>)
    ensures
        items matches Some(list) ==> params_items(crate::credentials::option_text(*params))
            == Some(texts_of(list@)),
        items is None ==> params_items(crate::credentials::option_text(*params)) is None,
{
    match params {
        Some(text) => parse_array_items(text.as_str()),
        None => Some(Vec::new()),
    }
}

/// Writes a text as a JSON string literal.
pub fn quote(text: &str) -> (literal: Option<String>)
    ensures
        literal matches Some(quoted) ==> json_string_literal(text@) == Some(quoted@),
        literal is None ==> json_string_literal(text@) is None,
{
    encode_json_string(text)
}

/// The items written one after another with a comma between neighbours.
pub open spec fn comma_separated(items: Seq<Seq<char>>) -> Seq<char>
    decreases items.len(),
{
    if items.len() == 0 {
        Seq::empty()
    } else if items.len() == 1 {
        items[0]
    } else {
        comma_separated(items.drop_last()) + seq![','] + items.last()
    }
}

/// The text of the JSON array whose elements have the given texts.
pub open spec fn array_text(items: Seq<Seq<char>>) -> Seq<char> {
    seq!['['] + comma_separated(items) + seq![']']
}

/// Writes the JSON array whose elements have the given texts, in order.
pub fn render_array(items: &Vec<String>) -> (text: String)
    ensures
        text@ == array_text(texts_of(items@)),
{
    proof {
        reveal_strlit("[");
        reveal_strlit(",");
        reveal_strlit("]");
    }
    let ghost all = texts_of(items@);
    let mut text = String::from_str("[");
    let mut i: usize = 0;
    while i < items.len()
        invariant
            i <= items@.len(),
            all == texts_of(items@),
            "["@ == seq!['['],
            ","@ == seq![','],
            text@ == seq!['['] + comma_separated(all.take(i as int)),
        decreases items@.len() - i,
    {
        proof {
            assert(all.take(i + 1).drop_last() =~= all.take(i as int));
        }
        if i > 0 {
            text.append(",");
        }
        text.append(items[i].as_str());
        i += 1;
    }
    text.append("]");
    proof {
        assert(all.take(i as int) =~= all);
    }
    text
}

} // verus!
