//! The request rewriter: turns a public JSON-RPC call into its
//! credential-aware counterpart when the caller presents a credential.

use crate::credentials::{credential_of, get_credentials_from_request, option_text, RequestHead};
use crate::envelope::{
    array_text, envelope_bytes, envelope_of, items_of_params, json_string_literal, params_items,
    quote, render_array, texts_of, Envelope, EnvelopeModel,
};
use vstd::prelude::*;
use vstd::string::StringExecFns;

verus! {

/// Whether the stored pairs hold each public name once and are exactly `table`.
spec fn pairs_hold(pairs: Seq<(String, String)>, table: Map<Seq<char>, Seq<char>>) -> bool {
    &&& forall|i: int, j: int|
        0 <= i < j < pairs.len() ==> (#[trigger] pairs[i]).0@ != (#[trigger] pairs[j]).0@
    &&& forall|i: int|
        0 <= i < pairs.len() ==> table.contains_key((#[trigger] pairs[i]).0@) && table[pairs[i].0@]
            == pairs[i].1@
    &&& forall|name: Seq<char>| #[trigger]
        table.contains_key(name) ==> exists|i: int|
            0 <= i < pairs.len() && (#[trigger] pairs[i]).0@ == name
}

/// Whether no private name of the table is itself a public name of it, so that
/// a rewritten method is not rewritten again.
pub open spec fn settles(table: Map<Seq<char>, Seq<char>>) -> bool {
    forall|name: Seq<char>| #[trigger] table.contains_key(name) ==> !table.contains_key(table[name])
}

/// The method remap table: from the name of a public method to the name of its
/// private, credential-aware counterpart.
pub struct RemapTable {
    pairs: Vec<(String, String)>,
    table: Ghost<Map<Seq<char>, Seq<char>>>,
}

impl View for RemapTable {
    type V = Map<Seq<char>, Seq<char>>;

    closed spec fn view(&self) -> Map<Seq<char>, Seq<char>> {
        self.table@
    }
}

impl RemapTable {
    /// No public name is stored twice, and the stored pairs are exactly the
    /// table.
    #[verifier::type_invariant]
    spec fn well_formed(&self) -> bool {
        pairs_hold(self.pairs@, self.table@)
    }

    /// A table that maps nothing.
    pub fn new() -> (table: RemapTable)
        ensures
            table@ == Map::<Seq<char>, Seq<char>>::empty(),
    {
        RemapTable { pairs: Vec::new(), table: Ghost(Map::empty()) }
    }

    /// The table with `public` mapped to `private`, in place of what it mapped
    /// `public` to before.
    pub fn with(self, public: String, private: String) -> (table: RemapTable)
        ensures
            table@ == self@.insert(public@, private@),
    {
        proof {
            use_type_invariant(&self);
        }
        let ghost before = self.table@;
        let ghost after = before.insert(public@, private@);
        let mut pairs = self.pairs;
        let ghost old_pairs = pairs@;
        let mut i: usize = 0;
        while i < pairs.len()
            invariant
                i <= pairs@.len(),
                pairs@ == old_pairs,
                pairs_hold(old_pairs, before),
                before == self.table@,
                after == before.insert(public@, private@),
                forall|j: int| 0 <= j < i ==> (#[trigger] pairs@[j]).0@ != public@,
            decreases pairs@.len() - i,
        {
            if pairs[i].0 == public {
                pairs.set(i, (public, private));
                assert forall|k: int| 0 <= k < pairs@.len() implies after.contains_key(
                    (#[trigger] pairs@[k]).0@,
                ) && after[pairs@[k].0@] == pairs@[k].1@ by {
                    if k != i {
                        assert(pairs@[k] == old_pairs[k]);
                        assert(old_pairs[k].0@ != old_pairs[i as int].0@);
                    }
                }
                assert forall|name: Seq<char>| #[trigger]
                    after.contains_key(name) implies exists|k: int|
                    0 <= k < pairs@.len() && (#[trigger] pairs@[k]).0@ == name by {
                    if name == public@ {
                        assert(pairs@[i as int].0@ == name);
                    } else {
                        assert(before.contains_key(name));
                        let k = choose|k: int|
                            0 <= k < old_pairs.len() && (#[trigger] old_pairs[k]).0@ == name;
                        assert(pairs@[k].0@ == name);
                    }
                }
                return RemapTable { pairs, table: Ghost(after) };
            }
            i += 1;
        }
        pairs.push((public, private));
        assert forall|k: int| 0 <= k < pairs@.len() implies after.contains_key(
            (#[trigger] pairs@[k]).0@,
        ) && after[pairs@[k].0@] == pairs@[k].1@ by {
            if k < old_pairs.len() {
                assert(pairs@[k] == old_pairs[k]);
            }
        }
        assert forall|name: Seq<char>| #[trigger] after.contains_key(name) implies exists|k: int|
            0 <= k < pairs@.len() && (#[trigger] pairs@[k]).0@ == name by {
            if name == public@ {
                assert(pairs@[old_pairs.len() as int].0@ == name);
            } else {
                assert(before.contains_key(name));
                let k = choose|k: int|
                    0 <= k < old_pairs.len() && (#[trigger] old_pairs[k]).0@ == name;
                assert(pairs@[k].0@ == name);
            }
        }
        RemapTable { pairs, table: Ghost(after) }
    }

    /// The table of the methods that have a private counterpart: reading a
    /// balance, reading the block number, and calling a contract.
    pub fn standard() -> (table: RemapTable)
        ensures
            table@ == standard_table(),
            settles(table@),
    {
        let table = RemapTable::new();
        let table = table.with(
            String::from_str("eth_getBalance"),
            String::from_str("privateeth_getBalance"),
        );
        let table = table.with(
            String::from_str("eth_blockNumber"),
            String::from_str("privateeth_blockNumber"),
        );
        let table = table.with(String::from_str("eth_call"), String::from_str("privateeth_call"));
        proof {
            lemma_standard_table_settles();
        }
        table
    }

    /// Looks up the private counterpart of a method.
    pub fn private_method(&self, method: &String) -> (private: Option<String>)
        ensures
            private is Some <==> self@.contains_key(method@),
            private matches Some(name) ==> name@ == self@[method@],
    {
        proof {
            use_type_invariant(self);
        }
        let mut i: usize = 0;
        while i < self.pairs.len()
            invariant
                i <= self.pairs@.len(),
                pairs_hold(self.pairs@, self@),
                forall|j: int| 0 <= j < i ==> (#[trigger] self.pairs@[j]).0@ != method@,
            decreases self.pairs@.len() - i,
        {
            if self.pairs[i].0 == *method {
                return Some(self.pairs[i].1.clone());
            }
            i += 1;
        }
        None
    }
}

impl Clone for RemapTable {
    fn clone(&self) -> (copy: RemapTable)
        ensures
            copy@ == self@,
    {
        proof {
            use_type_invariant(self);
        }
        let mut pairs: Vec<(String, String)> = Vec::new();
        let mut i: usize = 0;
        while i < self.pairs.len()
            invariant
                i <= self.pairs@.len(),
                pairs@.len() == i,
                forall|j: int| 0 <= j < i ==> (#[trigger] pairs@[j]) == self.pairs@[j],
            decreases self.pairs@.len() - i,
        {
            pairs.push((self.pairs[i].0.clone(), self.pairs[i].1.clone()));
            i += 1;
        }
        assert(pairs@ =~= self.pairs@);
        RemapTable { pairs, table: Ghost(self.table@) }
    }
}

/// The three methods that have a private counterpart.
pub open spec fn standard_table() -> Map<Seq<char>, Seq<char>> {
    Map::<Seq<char>, Seq<char>>::empty().insert(
        "eth_getBalance"@,
        "privateeth_getBalance"@,
    ).insert("eth_blockNumber"@, "privateeth_blockNumber"@).insert(
        "eth_call"@,
        "privateeth_call"@,
    )
}

/// No private name of the standard table is a public name of it.
pub proof fn lemma_standard_table_settles()
    ensures
        settles(standard_table()),
{
    reveal_strlit("eth_getBalance");
    reveal_strlit("eth_blockNumber");
    reveal_strlit("eth_call");
    reveal_strlit("privateeth_getBalance");
    reveal_strlit("privateeth_blockNumber");
    reveal_strlit("privateeth_call");
    assert("eth_getBalance"@[0] != "privateeth_getBalance"@[0]);
    assert("eth_blockNumber"@[0] != "privateeth_blockNumber"@[0]);
    assert("eth_call"@[0] != "privateeth_call"@[0]);
}

/// The envelope that a request is rewritten to for a caller with a
/// credential, if it is rewritten at all.
///
/// A request is rewritten when the table maps its method and its parameters
/// are absent or an array. The rewritten request keeps the identifier, bears
/// the private method name, and has as parameters the credential, written as a
/// JSON string, in front of the elements that were there, in their order.
pub open spec fn rewritten_envelope(
    table: Map<Seq<char>, Seq<char>>,
    credential: Seq<char>,
    envelope: EnvelopeModel,
) -> Option<EnvelopeModel> {
    if table.contains_key(envelope.method) {
        match (params_items(envelope.params), json_string_literal(credential)) {
            (Some(items), Some(literal)) => Some(
                EnvelopeModel {
                    id: envelope.id,
                    method: table[envelope.method],
                    params: Some(array_text(seq![literal] + items)),
                },
            ),
            _ => None,
        }
    } else {
        None
    }
}

/// The body that goes on to dispatch. It is the body that came in, unless the
/// caller has a credential, the body holds a request that is rewritten, and the
/// rewritten request can be written out.
pub open spec fn rewritten_body(
    table: Map<Seq<char>, Seq<char>>,
    credential: Option<Seq<char>>,
    body: Seq<u8>,
) -> Seq<u8> {
    match credential {
        Some(credential) => match envelope_of(body) {
            Some(envelope) => match rewritten_envelope(table, credential, envelope) {
                Some(rewritten) => match envelope_bytes(rewritten) {
                    Some(bytes) => bytes,
                    None => body,
                },
                None => body,
            },
            None => body,
        },
        None => body,
    }
}

/// The view of an optional envelope.
pub open spec fn option_envelope(envelope: Option<Envelope>) -> Option<EnvelopeModel> {
    match envelope {
        Some(envelope) => Some(envelope@),
        None => None,
    }
}

/// Builds the private counterpart of a request: the same identifier, the
/// private method name, and the credential literal in front of the elements of
/// the parameters.
pub fn authenticated_envelope(
    envelope: Envelope,
    private: String,
    literal: String,
    items: Vec<String>,
) -> (rewritten: Envelope)
    ensures
        rewritten@ == (EnvelopeModel {
            id: envelope@.id,
            method: private@,
            params: Some(array_text(seq![literal@] + texts_of(items@))),
        }),
{
    let mut items = items;
    let ghost before = items@;
    items.insert(0, literal);
    assert(texts_of(items@) =~= seq![literal@] + texts_of(before));
    let params = render_array(&items);
    Envelope { id: envelope.id, method: private, params: Some(params) }
}

/// Rewrites a request for a caller with `credential`, or returns nothing when
/// the request is to go on as it came.
pub fn rewrite_envelope(table: &RemapTable, credential: &str, envelope: Envelope) -> (rewritten:
    Option<Envelope>)
    ensures
        option_envelope(rewritten) == rewritten_envelope(table@, credential@, envelope@),
        !table@.contains_key(envelope@.method) ==> rewritten is None,
{
    let private = match table.private_method(&envelope.method) {
        Some(private) => private,
        None => {
            return None;
        },
    };
    let items = match items_of_params(&envelope.params) {
        Some(items) => items,
        None => {
            return None;
        },
    };
    let literal = match quote(credential) {
        Some(literal) => literal,
        None => {
            return None;
        },
    };
    Some(authenticated_envelope(envelope, private, literal, items))
}

/// Rewrites the body of a request for a caller with the given credential.
///
/// Without a credential, with a body that holds no JSON-RPC request, and with
/// a method that the table does not map, the body goes on byte for byte.
pub fn rewrite_body(table: &RemapTable, credential: &Option<String>, body: Vec<u8>) -> (out: Vec<
    u8,
>)
    ensures
        out@ == rewritten_body(table@, option_text(*credential), body@),
        credential is None ==> out@ == body@,
        envelope_of(body@) is None ==> out@ == body@,
        envelope_of(body@) matches Some(envelope) ==> (!table@.contains_key(envelope.method)
            ==> out@ == body@),
{
    let credential = match credential {
        Some(credential) => credential,
        None => {
            return body;
        },
    };
    let envelope = match Envelope::decode(body.as_slice()) {
        Some(envelope) => envelope,
        None => {
            return body;
        },
    };
    let rewritten = match rewrite_envelope(table, credential.as_str(), envelope) {
        Some(rewritten) => rewritten,
        None => {
            return body;
        },
    };
    match rewritten.encode() {
        Some(bytes) => bytes,
        None => body,
    }
}

/// A rewritten request is not rewritten again, under a table none of whose
/// private names is a public name: a second pass lets it go on as it is.
pub proof fn law_rewriting_settles(
    table: Map<Seq<char>, Seq<char>>,
    credential: Seq<char>,
    again: Seq<char>,
    envelope: EnvelopeModel,
)
    requires
        settles(table),
        rewritten_envelope(table, credential, envelope) is Some,
    ensures
        rewritten_envelope(table, again, rewritten_envelope(table, credential, envelope).unwrap())
            is None,
{
}

/// A rewritten request has exactly one parameter more than the request it was
/// made from: the credential literal comes first, and the elements that were
/// there follow in their order.
pub proof fn law_rewriting_prepends_credential(
    table: Map<Seq<char>, Seq<char>>,
    credential: Seq<char>,
    envelope: EnvelopeModel,
)
    requires
        rewritten_envelope(table, credential, envelope) is Some,
    ensures
        params_items(envelope.params) is Some,
        json_string_literal(credential) is Some,
        ({
            let items = params_items(envelope.params).unwrap();
            let literal = json_string_literal(credential).unwrap();
            let rewritten = rewritten_envelope(table, credential, envelope).unwrap();
            let written = seq![literal] + items;
            &&& rewritten.method == table[envelope.method]
            &&& rewritten.id == envelope.id
            &&& rewritten.params == Some(array_text(written))
            &&& written.len() == items.len() + 1
            &&& written[0] == literal
            &&& forall|i: int| 0 <= i < items.len() ==> written[i + 1] == items[i]
        }),
{
}

/// A service wrapped by the request rewriter.
pub struct AuthMiddleware<S> {
    /// The wrapped service, which receives the rewritten request.
    pub inner: S,
    /// The method remap table that the rewriter consults.
    pub remap: RemapTable,
}

impl<S> AuthMiddleware<S> {
    /// Wraps `inner` with a rewriter that consults `remap`.
    pub fn new(inner: S, remap: RemapTable) -> (middleware: AuthMiddleware<S>)
        ensures
            middleware.inner == inner,
            middleware.remap@ == remap@,
    {
        AuthMiddleware { inner, remap }
    }

    /// Decides the body that the wrapped service receives for a request with the
    /// given head and body: the body rewritten for the credential that the head
    /// carries, or the body as it came where the head carries none.
    pub fn intercept(&self, head: &RequestHead, body: Vec<u8>) -> (out: Vec<u8>)
        ensures
            out@ == rewritten_body(self.remap@, credential_of(*head), body@),
            credential_of(*head) is None ==> out@ == body@,
    {
        let credential = get_credentials_from_request(head);
        rewrite_body(&self.remap, &credential, body)
    }
}

/// Wraps services with the request rewriter.
pub struct AuthMiddlewareLayer {
    /// The method remap table handed to every rewriter.
    pub remap: RemapTable,
}

impl AuthMiddlewareLayer {
    /// A layer whose rewriters consult the standard table.
    pub fn new() -> (layer: AuthMiddlewareLayer)
        ensures
            layer.remap@ == standard_table(),
    {
        AuthMiddlewareLayer { remap: RemapTable::standard() }
    }

    /// A layer whose rewriters consult `remap`.
    pub fn with_table(remap: RemapTable) -> (layer: AuthMiddlewareLayer)
        ensures
            layer.remap@ == remap@,
    {
        AuthMiddlewareLayer { remap }
    }

    /// Wraps `service`.
    pub fn layer<S>(&self, service: S) -> (middleware: AuthMiddleware<S>)
        ensures
            middleware.inner == service,
            middleware.remap@ == self.remap@,
    {
        AuthMiddleware { inner: service, remap: self.remap.clone() }
    }
}

} // verus!
