use jmap_gateway::jmap::mailbox::Mailbox;
use jmap_gateway::jmap::method::{
    decode_method_call, decode_method_calls, decode_request, encode_method_call,
    encode_method_call_result, encode_response, EnvelopeError, Method, MethodCall,
    MethodCallResult, MethodResult, Reponse,
};
use jmap_gateway::json::JsonItem;

fn s(v: &str) -> String {
    String::from(v)
}

fn str_item(v: &str) -> JsonItem {
    JsonItem::Str(s(v))
}

fn echo_call_item(payload_key: &str, payload_val: i64, call_id: &str) -> JsonItem {
    JsonItem::List(vec![
        str_item("Core/echo"),
        JsonItem::Obj(vec![(s(payload_key), JsonItem::Int(payload_val))]),
        str_item(call_id),
    ])
}

#[test]
fn decode_echo_call() {
    let call = decode_method_call(echo_call_item("a", 1, "c1")).unwrap();
    assert_eq!(call.call_id, "c1");
    match &call.method {
        Method::CoreEcho(fields) => {
            assert_eq!(fields.len(), 1);
            assert_eq!(fields[0].0, "a");
            assert_eq!(fields[0].1, JsonItem::Int(1));
        },
        _ => panic!("expected an echo call"),
    }
}

#[test]
fn echo_call_round_trips() {
    let item = echo_call_item("a", 1, "c1");
    let call = decode_method_call(echo_call_item("a", 1, "c1")).unwrap();
    assert_eq!(encode_method_call(call), item);
}

#[test]
fn mailbox_get_round_trips() {
    let item = JsonItem::List(vec![
        str_item("Mailbox/get"),
        JsonItem::Obj(vec![
            (s("accountId"), str_item("alice@example.org")),
            (s("ids"), JsonItem::List(vec![str_item("x"), str_item("y")])),
            (s("properties"), JsonItem::List(vec![str_item("name")])),
        ]),
        str_item("c9"),
    ]);
    let call = decode_method_call(JsonItem::List(vec![
        str_item("Mailbox/get"),
        JsonItem::Obj(vec![
            (s("accountId"), str_item("alice@example.org")),
            (s("ids"), JsonItem::List(vec![str_item("x"), str_item("y")])),
            (s("properties"), JsonItem::List(vec![str_item("name")])),
        ]),
        str_item("c9"),
    ]))
    .unwrap();
    match &call.method {
        Method::MailboxGet { account_id, ids, properties } => {
            assert_eq!(account_id, "alice@example.org");
            assert_eq!(ids.as_ref().unwrap(), &vec![s("x"), s("y")]);
            assert_eq!(properties.as_ref().unwrap(), &vec![s("name")]);
        },
        _ => panic!("expected a mailbox listing call"),
    }
    assert_eq!(encode_method_call(call), item);
}

#[test]
fn mailbox_get_null_ids_means_unset() {
    let call = decode_method_call(JsonItem::List(vec![
        str_item("Mailbox/get"),
        JsonItem::Obj(vec![
            (s("accountId"), str_item("a")),
            (s("ids"), JsonItem::Null),
        ]),
        str_item("c1"),
    ]))
    .unwrap();
    match &call.method {
        Method::MailboxGet { ids, properties, .. } => {
            assert!(ids.is_none());
            assert!(properties.is_none());
        },
        _ => panic!("expected a mailbox listing call"),
    }
}

#[test]
fn unknown_method_names_the_call() {
    let r = decode_method_call(JsonItem::List(vec![
        str_item("Email/get"),
        JsonItem::Obj(vec![]),
        str_item("c7"),
    ]));
    assert_eq!(
        r,
        Err(EnvelopeError::UnknownMethod { method_name: s("Email/get"), call_id: s("c7") })
    );
}

#[test]
fn short_tuple_is_malformed() {
    let r = decode_method_call(JsonItem::List(vec![str_item("Core/echo"), str_item("c1")]));
    assert_eq!(r, Err(EnvelopeError::MalformedCall));
}

#[test]
fn missing_account_id_is_invalid_arguments() {
    let r = decode_method_call(JsonItem::List(vec![
        str_item("Mailbox/get"),
        JsonItem::Obj(vec![]),
        str_item("c3"),
    ]));
    assert_eq!(r, Err(EnvelopeError::InvalidArguments { call_id: s("c3") }));
}

#[test]
fn duplicate_call_ids_are_preserved() {
    let items = vec![echo_call_item("a", 1, "dup"), echo_call_item("b", 2, "dup")];
    let calls = decode_method_calls(items).unwrap();
    assert_eq!(calls.len(), 2);
    assert_eq!(calls[0].call_id, "dup");
    assert_eq!(calls[1].call_id, "dup");
}

#[test]
fn decode_full_request() {
    let req = decode_request(JsonItem::Obj(vec![
        (
            s("using"),
            JsonItem::List(vec![str_item("urn:ietf:params:jmap:mail")]),
        ),
        (s("methodCalls"), JsonItem::List(vec![echo_call_item("a", 1, "c1")])),
        (
            s("createdIds"),
            JsonItem::Obj(vec![(s("client-1"), str_item("server-1"))]),
        ),
    ]))
    .unwrap();
    assert_eq!(req.using, vec![s("urn:ietf:params:jmap:mail")]);
    assert_eq!(req.method_calls.len(), 1);
    assert_eq!(req.created_ids, Some(vec![(s("client-1"), s("server-1"))]));
}

#[test]
fn request_without_using_is_malformed() {
    let r = decode_request(JsonItem::Obj(vec![(
        s("methodCalls"),
        JsonItem::List(vec![]),
    )]));
    assert_eq!(r, Err(EnvelopeError::MalformedRequest));
}

#[test]
fn encode_error_result() {
    let item = encode_method_call_result(MethodCallResult {
        method_result: MethodResult::Error { error_type: s("notImplemented") },
        call_id: s("c2"),
    });
    assert_eq!(
        item,
        JsonItem::List(vec![
            str_item("error"),
            JsonItem::Obj(vec![(s("type"), str_item("notImplemented"))]),
            str_item("c2"),
        ])
    );
}

#[test]
fn non_string_created_ids_are_malformed() {
    let r = decode_request(JsonItem::Obj(vec![
        (s("using"), JsonItem::List(vec![])),
        (s("methodCalls"), JsonItem::List(vec![])),
        (s("createdIds"), JsonItem::Obj(vec![(s("k"), JsonItem::Int(3))])),
    ]));
    assert_eq!(r, Err(EnvelopeError::MalformedRequest));
}

#[test]
fn encode_mailbox_result_wire_shape() {
    let item = encode_method_call_result(MethodCallResult {
        method_result: MethodResult::MailboxGet {
            account_id: s("acct"),
            state: s(""),
            list: vec![Mailbox::stub(s("INBOX"))],
            not_found: vec![],
        },
        call_id: s("c5"),
    });
    let expected_mailbox = JsonItem::Obj(vec![
        (s("id"), str_item("INBOX")),
        (s("name"), str_item("INBOX")),
        (s("parentId"), JsonItem::Null),
        (s("role"), JsonItem::Null),
        (s("sortOrder"), JsonItem::UInt(0)),
        (s("totalEmails"), JsonItem::UInt(0)),
        (s("unreadEmails"), JsonItem::UInt(0)),
        (s("totalThreads"), JsonItem::UInt(0)),
        (s("unreadThreads"), JsonItem::UInt(0)),
        (
            s("myRights"),
            JsonItem::Obj(vec![
                (s("mayReadItems"), JsonItem::Bool(false)),
                (s("mayAddItems"), JsonItem::Bool(false)),
                (s("mayRemoveItems"), JsonItem::Bool(false)),
                (s("maySetSeen"), JsonItem::Bool(false)),
                (s("maySetKeywords"), JsonItem::Bool(false)),
                (s("mayCreateChild"), JsonItem::Bool(false)),
                (s("mayRename"), JsonItem::Bool(false)),
                (s("mayDelete"), JsonItem::Bool(false)),
                (s("maySubmit"), JsonItem::Bool(false)),
            ]),
        ),
        (s("isSubscribed"), JsonItem::Bool(false)),
    ]);
    assert_eq!(
        item,
        JsonItem::List(vec![
            str_item("Mailbox/get"),
            JsonItem::Obj(vec![
                (s("accountId"), str_item("acct")),
                (s("state"), str_item("")),
                (s("list"), JsonItem::List(vec![expected_mailbox])),
                (s("notFound"), JsonItem::List(vec![])),
            ]),
            str_item("c5"),
        ])
    );
}

#[test]
fn encode_response_shape() {
    let resp = Reponse {
        method_responses: vec![MethodCallResult {
            method_result: MethodResult::CoreEcho(vec![(s("a"), JsonItem::Int(1))]),
            call_id: s("c1"),
        }],
        created_ids: None,
        session_state: String::new(),
    };
    let item = encode_response(resp);
    assert_eq!(
        item,
        JsonItem::Obj(vec![
            (
                s("methodResponses"),
                JsonItem::List(vec![echo_call_item("a", 1, "c1")]),
            ),
            (s("sessionState"), str_item("")),
        ])
    );
}
