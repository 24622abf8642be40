use rpc_policy_proxy::credentials::RequestHead;
use rpc_policy_proxy::envelope::{items_of_params, quote, render_array, Envelope, RequestId};
use rpc_policy_proxy::middleware::{
    authenticated_envelope, rewrite_body, rewrite_envelope, AuthMiddleware, AuthMiddlewareLayer,
    RemapTable,
};

fn texts(items: &[&str]) -> Vec<String> {
    items.iter().map(|item| item.to_string()).collect()
}

fn rewrite(credential: Option<&str>, body: &str) -> String {
    let table = RemapTable::standard();
    let out = rewrite_body(&table, &credential.map(|text| text.to_string()), body.as_bytes().to_vec());
    String::from_utf8(out).expect("the body is text")
}

fn id_number(envelope: &Envelope) -> Option<u64> {
    match &envelope.id {
        RequestId::Number(number) => Some(*number),
        _ => None,
    }
}

#[test]
fn standard_table_maps_the_three_methods() {
    let table = RemapTable::standard();
    assert_eq!(
        table.private_method(&"eth_getBalance".to_string()),
        Some("privateeth_getBalance".to_string())
    );
    assert_eq!(
        table.private_method(&"eth_blockNumber".to_string()),
        Some("privateeth_blockNumber".to_string())
    );
    assert_eq!(table.private_method(&"eth_call".to_string()), Some("privateeth_call".to_string()));
    for other in ["eth_chainId", "privateeth_call", "ETH_CALL", "eth_call ", ""] {
        assert_eq!(table.private_method(&other.to_string()), None);
    }
}

#[test]
fn table_keeps_the_last_mapping_of_a_name() {
    let table = RemapTable::new()
        .with("a".to_string(), "x".to_string())
        .with("b".to_string(), "y".to_string())
        .with("a".to_string(), "z".to_string());
    assert_eq!(table.private_method(&"a".to_string()), Some("z".to_string()));
    assert_eq!(table.private_method(&"b".to_string()), Some("y".to_string()));
    assert_eq!(table.private_method(&"c".to_string()), None);
    assert_eq!(RemapTable::new().private_method(&"a".to_string()), None);
    let copy = table.clone();
    assert_eq!(copy.private_method(&"a".to_string()), Some("z".to_string()));
    assert_eq!(copy.private_method(&"b".to_string()), Some("y".to_string()));
    assert_eq!(copy.private_method(&"c".to_string()), None);
}

#[test]
fn render_array_joins_with_commas() {
    assert_eq!(render_array(&Vec::new()), "[]");
    assert_eq!(render_array(&texts(&["1"])), "[1]");
    assert_eq!(render_array(&texts(&["1", "\"two\"", "{\"k\":[3]}"])), "[1,\"two\",{\"k\":[3]}]");
    assert_eq!(render_array(&texts(&["", ""])), "[,]");
}

#[test]
fn quote_writes_a_json_string() {
    assert_eq!(quote("user:pass"), Some("\"user:pass\"".to_string()));
    assert_eq!(quote(""), Some("\"\"".to_string()));
    assert_eq!(quote("a\"b\\c\n"), Some("\"a\\\"b\\\\c\\n\"".to_string()));
}

#[test]
fn items_of_params_keeps_each_element_as_written() {
    assert_eq!(items_of_params(&None), Some(Vec::new()));
    assert_eq!(items_of_params(&Some("[]".to_string())), Some(Vec::new()));
    assert_eq!(
        items_of_params(&Some(" [ \"0xabc\" , {\"to\": null} ,1.50, [2, 3] ] ".to_string())),
        Some(texts(&["\"0xabc\"", "{\"to\": null}", "1.50", "[2, 3]"]))
    );
}

#[test]
fn items_of_params_gives_nothing_for_what_is_no_array() {
    for text in ["{\"a\":1}", "\"text\"", "1", "null", "[1,", "", "[1] 2"] {
        assert_eq!(items_of_params(&Some(text.to_string())), None, "{}", text);
    }
}

#[test]
fn envelope_decodes_identifier_method_and_params() {
    let body = br#"{"jsonrpc":"2.0","id":7,"method":"eth_call","params":[{"to":"0xaa"}, "latest"]}"#;
    let envelope = Envelope::decode(body).expect("a request");
    assert_eq!(id_number(&envelope), Some(7));
    assert_eq!(envelope.method, "eth_call");
    assert_eq!(envelope.params.as_deref(), Some("[{\"to\":\"0xaa\"}, \"latest\"]"));

    let body = br#"{"id":"abc","method":"eth_blockNumber","jsonrpc":"2.0"}"#;
    let envelope = Envelope::decode(body).expect("a request");
    assert!(matches!(&envelope.id, RequestId::Text(text) if text == "abc"));
    assert_eq!(envelope.method, "eth_blockNumber");
    assert_eq!(envelope.params, None);

    let body = br#"{"jsonrpc":"2.0","id":null,"method":"m"}"#;
    let envelope = Envelope::decode(body).expect("a request");
    assert!(matches!(envelope.id, RequestId::Null));
}

#[test]
fn envelope_decode_turns_down_what_is_no_request() {
    let bodies: [&[u8]; 7] = [
        b"",
        b"not json",
        b"[]",
        br#"{"jsonrpc":"2.0","id":1}"#,
        br#"{"jsonrpc":"1.0","id":1,"method":"eth_call"}"#,
        br#"{"jsonrpc":"2.0","id":1,"method":5}"#,
        br#"{"jsonrpc":"2.0","id":1,"method":"eth_call""#,
    ];
    for body in bodies {
        assert!(Envelope::decode(body).is_none());
    }
}

#[test]
fn envelope_encodes_in_field_order() {
    let envelope = Envelope::new(
        RequestId::Number(1),
        "privateeth_call".to_string(),
        Some("[\"c\",1]".to_string()),
    );
    assert_eq!(
        envelope.encode(),
        Some(br#"{"jsonrpc":"2.0","id":1,"method":"privateeth_call","params":["c",1]}"#.to_vec())
    );
    let envelope = Envelope::new(RequestId::Text("x\"y".to_string()), "m".to_string(), None);
    assert_eq!(
        envelope.encode(),
        Some(br#"{"jsonrpc":"2.0","id":"x\"y","method":"m","params":null}"#.to_vec())
    );
    let envelope = Envelope::new(RequestId::Null, "m".to_string(), Some("[]".to_string()));
    assert_eq!(
        envelope.encode(),
        Some(br#"{"jsonrpc":"2.0","id":null,"method":"m","params":[]}"#.to_vec())
    );
}

#[test]
fn envelope_encode_turns_down_params_that_are_no_json() {
    let envelope = Envelope::new(RequestId::Number(1), "m".to_string(), Some("[1,".to_string()));
    assert_eq!(envelope.encode(), None);
}

#[test]
fn authenticated_envelope_puts_the_credential_first() {
    let envelope = Envelope::new(
        RequestId::Number(9),
        "eth_getBalance".to_string(),
        Some("ignored".to_string()),
    );
    let rewritten = authenticated_envelope(
        envelope,
        "privateeth_getBalance".to_string(),
        "\"cred\"".to_string(),
        texts(&["\"0xabc\"", "\"latest\""]),
    );
    assert_eq!(id_number(&rewritten), Some(9));
    assert_eq!(rewritten.method, "privateeth_getBalance");
    assert_eq!(rewritten.params.as_deref(), Some("[\"cred\",\"0xabc\",\"latest\"]"));
}

#[test]
fn rewrite_envelope_follows_the_table() {
    let table = RemapTable::standard();
    let envelope = Envelope::new(
        RequestId::Number(3),
        "eth_call".to_string(),
        Some("[{\"to\":\"0xaa\"},\"latest\"]".to_string()),
    );
    let rewritten = rewrite_envelope(&table, "0xabc:", envelope).expect("eth_call is mapped");
    assert_eq!(id_number(&rewritten), Some(3));
    assert_eq!(rewritten.method, "privateeth_call");
    assert_eq!(rewritten.params.as_deref(), Some("[\"0xabc:\",{\"to\":\"0xaa\"},\"latest\"]"));

    let unmapped = Envelope::new(RequestId::Number(3), "eth_chainId".to_string(), None);
    assert!(rewrite_envelope(&table, "0xabc:", unmapped).is_none());
    let by_name = Envelope::new(
        RequestId::Number(3),
        "eth_call".to_string(),
        Some("{\"to\":\"0xaa\"}".to_string()),
    );
    assert!(rewrite_envelope(&table, "0xabc:", by_name).is_none());
}

#[test]
fn rewrite_envelope_settles_after_one_pass() {
    let table = RemapTable::standard();
    for method in ["eth_getBalance", "eth_blockNumber", "eth_call"] {
        let envelope =
            Envelope::new(RequestId::Number(1), method.to_string(), Some("[1,2]".to_string()));
        let once = rewrite_envelope(&table, "c", envelope).expect("the method is mapped");
        assert_eq!(once.params.as_deref(), Some("[\"c\",1,2]"));
        assert!(rewrite_envelope(&table, "c", once).is_none());
    }
}

#[test]
fn body_without_credential_goes_on_unchanged() {
    let body = r#"{"jsonrpc":"2.0","id":1,"method":"eth_getBalance","params":["0xabc","latest"]}"#;
    assert_eq!(rewrite(None, body), body);
}

#[test]
fn body_with_unmapped_method_goes_on_byte_for_byte() {
    let body = "{ \"jsonrpc\" : \"2.0\",\n \"extra\": true, \"id\" : 1, \"method\": \"eth_chainId\", \"params\": [ ] }\n";
    assert_eq!(rewrite(Some("user:pass"), body), body);
}

#[test]
fn body_that_is_no_request_goes_on_unchanged() {
    for body in ["", "not json", "[1,2,3]", "{\"method\":\"eth_call\"}", "{\"jsonrpc\":\"2.0\",\"id\":1,\"method\":\"eth_call\""] {
        assert_eq!(rewrite(Some("user:pass"), body), body);
    }
    let table = RemapTable::standard();
    let bytes = vec![0xff, 0xfe, 0x00, 0x7b];
    assert_eq!(rewrite_body(&table, &Some("c".to_string()), bytes.clone()), bytes);
}

#[test]
fn body_with_params_that_are_no_array_goes_on_unchanged() {
    let body = r#"{"jsonrpc":"2.0","id":1,"method":"eth_call","params":{"to":"0xaa"}}"#;
    assert_eq!(rewrite(Some("user:pass"), body), body);
}

#[test]
fn mapped_method_is_renamed_and_gets_the_credential_first() {
    let body = r#"{"jsonrpc":"2.0","id":1,"method":"eth_getBalance","params":["0xabc", "latest"]}"#;
    assert_eq!(
        rewrite(Some("user:pass"), body),
        r#"{"jsonrpc":"2.0","id":1,"method":"privateeth_getBalance","params":["user:pass","0xabc","latest"]}"#
    );
}

#[test]
fn mapped_method_without_params_gets_the_credential_alone() {
    let body = r#"{"jsonrpc":"2.0","id":"a","method":"eth_blockNumber"}"#;
    assert_eq!(
        rewrite(Some("0xabc:"), body),
        r#"{"jsonrpc":"2.0","id":"a","method":"privateeth_blockNumber","params":["0xabc:"]}"#
    );
    let body = r#"{"jsonrpc":"2.0","id":2,"method":"eth_blockNumber","params":[]}"#;
    assert_eq!(
        rewrite(Some("0xabc:"), body),
        r#"{"jsonrpc":"2.0","id":2,"method":"privateeth_blockNumber","params":["0xabc:"]}"#
    );
}

#[test]
fn credential_is_escaped_as_a_json_string() {
    let body = r#"{"jsonrpc":"2.0","id":1,"method":"eth_call","params":[1]}"#;
    assert_eq!(
        rewrite(Some("a\"b\\"), body),
        r#"{"jsonrpc":"2.0","id":1,"method":"privateeth_call","params":["a\"b\\",1]}"#
    );
}

#[test]
fn rewriting_keeps_the_order_of_the_parameters() {
    let body = r#"{"jsonrpc":"2.0","id":1,"method":"eth_call","params":[3,1,2,[5,4],{"b":1,"a":2}]}"#;
    assert_eq!(
        rewrite(Some("c"), body),
        r#"{"jsonrpc":"2.0","id":1,"method":"privateeth_call","params":["c",3,1,2,[5,4],{"b":1,"a":2}]}"#
    );
}

#[test]
fn rewriting_a_rewritten_body_changes_nothing() {
    let body = r#"{"jsonrpc":"2.0","id":1,"method":"eth_getBalance","params":["0xabc","latest"]}"#;
    let once = rewrite(Some("user:pass"), body);
    assert_ne!(once, body);
    assert_eq!(rewrite(Some("user:pass"), &once), once);
    assert_eq!(rewrite(Some("other"), &once), once);
}

#[test]
fn empty_table_rewrites_nothing() {
    let body = r#"{"jsonrpc":"2.0","id":1,"method":"eth_getBalance","params":[]}"#;
    let out = rewrite_body(&RemapTable::new(), &Some("c".to_string()), body.as_bytes().to_vec());
    assert_eq!(out, body.as_bytes());
}

#[test]
fn balance_request_with_basic_auth_is_rewritten() {
    let middleware = AuthMiddlewareLayer::new().layer(());
    let body = br#"{"jsonrpc":"2.0","id":1,"method":"eth_getBalance","params":["0xabc","latest"]}"#;
    let with_header = RequestHead::new(Some(b"Basic dXNlcjpwYXNz".to_vec()), "/".to_string());
    assert_eq!(
        middleware.intercept(&with_header, body.to_vec()),
        br#"{"jsonrpc":"2.0","id":1,"method":"privateeth_getBalance","params":["user:pass","0xabc","latest"]}"#.to_vec()
    );
    let without_header = RequestHead::new(None, "/".to_string());
    assert_eq!(middleware.intercept(&without_header, body.to_vec()), body.to_vec());
}

#[test]
fn path_credential_rewrites_as_well() {
    let middleware = AuthMiddleware::new((), RemapTable::standard());
    let body = br#"{"jsonrpc":"2.0","id":1,"method":"eth_call","params":[{"to":"0xaa"}]}"#;
    let head = RequestHead::new(None, "/0xabc".to_string());
    assert_eq!(
        middleware.intercept(&head, body.to_vec()),
        br#"{"jsonrpc":"2.0","id":1,"method":"privateeth_call","params":["0xabc",{"to":"0xaa"}]}"#.to_vec()
    );
}

#[test]
fn layer_hands_its_table_to_the_middleware() {
    let table = RemapTable::new().with("ping".to_string(), "private_ping".to_string());
    let layer = AuthMiddlewareLayer::with_table(table);
    let middleware = layer.layer("inner");
    assert_eq!(middleware.inner, "inner");
    assert_eq!(
        middleware.remap.private_method(&"ping".to_string()),
        Some("private_ping".to_string())
    );
    let head = RequestHead::new(None, "/c".to_string());
    let body = br#"{"jsonrpc":"2.0","id":1,"method":"ping"}"#;
    assert_eq!(
        middleware.intercept(&head, body.to_vec()),
        br#"{"jsonrpc":"2.0","id":1,"method":"private_ping","params":["c"]}"#.to_vec()
    );
    let untouched = br#"{"jsonrpc":"2.0","id":1,"method":"eth_call"}"#;
    assert_eq!(middleware.intercept(&head, untouched.to_vec()), untouched.to_vec());
}
