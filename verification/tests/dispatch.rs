use jmap_gateway::jmap::method::{
    decode_request, encode_response, Method, MethodCall, MethodResult,
};
use jmap_gateway::jmap::{Dispatch, DispatchAction, JmapApi, MailboxListOutcome};
use jmap_gateway::json::JsonItem;

fn s(v: &str) -> String {
    String::from(v)
}

fn str_item(v: &str) -> JsonItem {
    JsonItem::Str(s(v))
}

fn echo_call(key: &str, val: i64, call_id: &str) -> MethodCall {
    MethodCall {
        method: Method::CoreEcho(vec![(s(key), JsonItem::Int(val))]),
        call_id: s(call_id),
    }
}

fn mailbox_call(ids: Option<Vec<String>>, call_id: &str) -> MethodCall {
    MethodCall {
        method: Method::MailboxGet { account_id: s("acct"), ids, properties: None },
        call_id: s(call_id),
    }
}

/// Runs the engine to completion, answering every backend request with the
/// given outcomes in order.
fn run(calls: Vec<MethodCall>, mut listings: Vec<MailboxListOutcome>) -> Vec<(String, String)> {
    let mut d = Dispatch::new(calls);
    loop {
        match d.step() {
            DispatchAction::Done => break,
            DispatchAction::Answered => {},
            DispatchAction::ListMailboxes => {
                d.supply_mailbox_list(listings.remove(0));
            },
        }
    }
    let resp = d.into_response();
    resp.method_responses
        .into_iter()
        .map(|r| {
            let tag = match &r.method_result {
                MethodResult::CoreEcho(_) => "Core/echo".to_string(),
                MethodResult::MailboxGet { .. } => "Mailbox/get".to_string(),
                MethodResult::Error { error_type } => format!("error:{}", error_type),
            };
            (tag, r.call_id)
        })
        .collect()
}

#[test]
fn response_matches_request_order_and_ids() {
    let calls = vec![
        echo_call("a", 1, "first"),
        echo_call("b", 2, "second"),
        echo_call("c", 3, "third"),
    ];
    let out = run(calls, vec![]);
    assert_eq!(out.len(), 3);
    assert_eq!(out[0].1, "first");
    assert_eq!(out[1].1, "second");
    assert_eq!(out[2].1, "third");
}

#[test]
fn echo_batch_end_to_end() {
    // The wire exchange: [["Core/echo", {"a": 1}, "c1"]] comes back as
    // [["Core/echo", {"a": 1}, "c1"]] plus batch metadata.
    let req = decode_request(JsonItem::Obj(vec![
        (
            s("using"),
            JsonItem::List(vec![str_item("urn:ietf:params:jmap:mail")]),
        ),
        (
            s("methodCalls"),
            JsonItem::List(vec![JsonItem::List(vec![
                str_item("Core/echo"),
                JsonItem::Obj(vec![(s("a"), JsonItem::Int(1))]),
                str_item("c1"),
            ])]),
        ),
    ]))
    .unwrap();
    let mut d = Dispatch::new(req.method_calls);
    assert_eq!(d.step(), DispatchAction::Answered);
    assert_eq!(d.step(), DispatchAction::Done);
    let body = encode_response(d.into_response());
    assert_eq!(
        body,
        JsonItem::Obj(vec![
            (
                s("methodResponses"),
                JsonItem::List(vec![JsonItem::List(vec![
                    str_item("Core/echo"),
                    JsonItem::Obj(vec![(s("a"), JsonItem::Int(1))]),
                    str_item("c1"),
                ])]),
            ),
            (s("sessionState"), str_item("")),
        ])
    );
}

#[test]
fn id_filter_fails_alone_and_sibling_echo_succeeds() {
    let calls = vec![mailbox_call(Some(vec![s("x")]), "m1"), echo_call("a", 1, "e1")];
    let out = run(calls, vec![]);
    assert_eq!(out.len(), 2);
    assert_eq!(out[0], ("error:notImplemented".to_string(), s("m1")));
    assert_eq!(out[1], ("Core/echo".to_string(), s("e1")));
}

#[test]
fn mailbox_listing_populates_stub_mailboxes() {
    let calls = vec![mailbox_call(None, "m1")];
    let mut d = Dispatch::new(calls);
    assert_eq!(d.step(), DispatchAction::ListMailboxes);
    d.supply_mailbox_list(MailboxListOutcome::Listed(vec![s("INBOX"), s("Sent")]));
    assert_eq!(d.step(), DispatchAction::Done);
    let resp = d.into_response();
    assert_eq!(resp.method_responses.len(), 1);
    assert_eq!(resp.method_responses[0].call_id, "m1");
    match &resp.method_responses[0].method_result {
        MethodResult::MailboxGet { account_id, state, list, not_found } => {
            assert_eq!(account_id, "acct");
            assert_eq!(state, "");
            assert!(not_found.is_empty());
            assert_eq!(list.len(), 2);
            assert_eq!(list[0].id, "INBOX");
            assert_eq!(list[0].name, "INBOX");
            assert_eq!(list[0].total_emails, 0);
            assert!(!list[0].is_subscribed);
            assert_eq!(list[1].name, "Sent");
        },
        _ => panic!("expected a mailbox listing result"),
    }
}

#[test]
fn backend_failure_fails_only_its_call() {
    let calls = vec![mailbox_call(None, "m1"), echo_call("a", 1, "e1")];
    let out = run(calls, vec![MailboxListOutcome::Failed]);
    assert_eq!(out.len(), 2);
    assert_eq!(out[0], ("error:serverFail".to_string(), s("m1")));
    assert_eq!(out[1], ("Core/echo".to_string(), s("e1")));
}

#[test]
fn api_remembers_its_session() {
    let api = JmapApi::new(s("session-7"));
    assert_eq!(api.session_id().as_str(), "session-7");
}
