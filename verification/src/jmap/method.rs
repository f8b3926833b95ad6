//! The protocol envelope codec: method calls and results travel as
//! positional 3-tuples `[name, arguments, call_id]`, never as keyed objects.
//!
//! Decoding reads exactly three elements, resolves the name and the argument
//! object jointly into one method variant, and carries the call id through
//! untouched; encoding is the inverse. The variant set is closed, so adding a
//! method is a compile-time-checked, localized change.

use vstd::prelude::*;
use vstd::string::*;

use crate::jmap::mailbox::{Mailbox, MailboxRights, MailboxV};
use crate::json::{
    jfields_of_seq, jval_of, jvals_of_seq, lemma_jfields_of_seq, lemma_jvals_of_seq,
    lemma_vec_fields_deep_view, lemma_vec_items_deep_view, obj_get, obj_take, spec_obj_get,
    str_eq_str, JsonItem, JsonVal,
};

verus! {

/// An identifier of the protocol: an opaque string.
pub type Id = String;

/// One decoded method call: the closed set of operations the gateway accepts.
#[derive(Debug, PartialEq)]
pub enum Method {
    /// Pure passthrough of the argument object, used for connectivity probing.
    CoreEcho(Vec<(String, JsonItem)>),
    /// Listing of the account's mailboxes, with optional id and property
    /// filters.
    MailboxGet {
        account_id: String,
        ids: Option<Vec<Id>>,
        properties: Option<Vec<String>>,
    },
}

/// The mathematical value of a `Method`.
#[verifier::ext_equal]
pub enum MethodV {
    CoreEcho(Seq<(Seq<char>, JsonVal)>),
    MailboxGet {
        account_id: Seq<char>,
        ids: Option<Seq<Seq<char>>>,
        properties: Option<Seq<Seq<char>>>,
    },
}

impl DeepView for Method {
    type V = MethodV;

    open spec fn deep_view(&self) -> MethodV {
        match self {
            Method::CoreEcho(fields) => MethodV::CoreEcho(jfields_of_seq(fields@)),
            Method::MailboxGet { account_id, ids, properties } => MethodV::MailboxGet {
                account_id: account_id@,
                ids: ids.deep_view(),
                properties: properties.deep_view(),
            },
        }
    }
}

/// One result, mirroring `Method`'s shapes, or the per-call failure variant.
#[derive(Debug, PartialEq)]
pub enum MethodResult {
    CoreEcho(Vec<(String, JsonItem)>),
    MailboxGet {
        account_id: String,
        state: String,
        list: Vec<Mailbox>,
        not_found: Vec<Id>,
    },
    /// A failure scoped to one call of an otherwise-successful batch,
    /// encoded as `["error", {"type": ...}, call_id]`.
    Error { error_type: String },
}

/// The mathematical value of a `MethodResult`.
#[verifier::ext_equal]
pub enum MethodResultV {
    CoreEcho(Seq<(Seq<char>, JsonVal)>),
    MailboxGet {
        account_id: Seq<char>,
        state: Seq<char>,
        list: Seq<MailboxV>,
        not_found: Seq<Seq<char>>,
    },
    Error { error_type: Seq<char> },
}

impl DeepView for MethodResult {
    type V = MethodResultV;

    open spec fn deep_view(&self) -> MethodResultV {
        match self {
            MethodResult::CoreEcho(fields) => MethodResultV::CoreEcho(jfields_of_seq(fields@)),
            MethodResult::MailboxGet { account_id, state, list, not_found } => (
            MethodResultV::MailboxGet {
                account_id: account_id@,
                state: state@,
                list: list.deep_view(),
                not_found: not_found.deep_view(),
            }),
            MethodResult::Error { error_type } => (MethodResultV::Error {
                error_type: error_type@,
            }),
        }
    }
}

/// A method call paired with its client-supplied correlation id.
#[derive(Debug, PartialEq)]
pub struct MethodCall {
    pub method: Method,
    pub call_id: String,
}

/// The mathematical value of a `MethodCall`.
#[verifier::ext_equal]
pub struct MethodCallV {
    pub method: MethodV,
    pub call_id: Seq<char>,
}

impl DeepView for MethodCall {
    type V = MethodCallV;

    open spec fn deep_view(&self) -> MethodCallV {
        MethodCallV { method: self.method.deep_view(), call_id: self.call_id@ }
    }
}

/// A method result paired with the correlation id of the call it answers.
#[derive(Debug, PartialEq)]
pub struct MethodCallResult {
    pub method_result: MethodResult,
    pub call_id: String,
}

/// The mathematical value of a `MethodCallResult`.
#[verifier::ext_equal]
pub struct MethodCallResultV {
    pub method_result: MethodResultV,
    pub call_id: Seq<char>,
}

impl DeepView for MethodCallResult {
    type V = MethodCallResultV;

    open spec fn deep_view(&self) -> MethodCallResultV {
        MethodCallResultV {
            method_result: self.method_result.deep_view(),
            call_id: self.call_id@,
        }
    }
}

/// A batch request: the ordered method calls plus batch-scoped metadata.
#[derive(Debug, PartialEq)]
pub struct Request {
    pub using: Vec<String>,
    pub method_calls: Vec<MethodCall>,
    pub created_ids: Option<Vec<(Id, Id)>>,
}

/// The mathematical value of a `Request`.
#[verifier::ext_equal]
pub struct RequestV {
    pub using: Seq<Seq<char>>,
    pub method_calls: Seq<MethodCallV>,
    pub created_ids: Option<Seq<(Seq<char>, Seq<char>)>>,
}

impl DeepView for Request {
    type V = RequestV;

    open spec fn deep_view(&self) -> RequestV {
        RequestV {
            using: self.using.deep_view(),
            method_calls: self.method_calls.deep_view(),
            created_ids: self.created_ids.deep_view(),
        }
    }
}

/// A batch response: the ordered results plus batch-scoped metadata.
#[derive(Debug, PartialEq)]
pub struct Reponse {
    pub method_responses: Vec<MethodCallResult>,
    pub created_ids: Option<Vec<(Id, Id)>>,
    pub session_state: String,
}

/// The mathematical value of a `Reponse`.
#[verifier::ext_equal]
pub struct ReponseV {
    pub method_responses: Seq<MethodCallResultV>,
    pub created_ids: Option<Seq<(Seq<char>, Seq<char>)>>,
    pub session_state: Seq<char>,
}

impl DeepView for Reponse {
    type V = ReponseV;

    open spec fn deep_view(&self) -> ReponseV {
        ReponseV {
            method_responses: self.method_responses.deep_view(),
            created_ids: self.created_ids.deep_view(),
            session_state: self.session_state@,
        }
    }
}

/// Why a batch failed to decode: such a failure rejects the whole request
/// before any method executes.
#[derive(Debug, PartialEq)]
pub enum EnvelopeError {
    /// The request body is not the expected batch object.
    MalformedRequest,
    /// A method call is not a 3-tuple of name, argument object and call id.
    MalformedCall,
    /// The name of the offending call is not in the method catalog.
    UnknownMethod { method_name: String, call_id: String },
    /// The named call's argument object does not fit its method.
    InvalidArguments { call_id: String },
}

/// The mathematical value of an `EnvelopeError`.
#[verifier::ext_equal]
pub enum EnvelopeErrorV {
    MalformedRequest,
    MalformedCall,
    UnknownMethod { method_name: Seq<char>, call_id: Seq<char> },
    InvalidArguments { call_id: Seq<char> },
}

impl DeepView for EnvelopeError {
    type V = EnvelopeErrorV;

    open spec fn deep_view(&self) -> EnvelopeErrorV {
        match self {
            EnvelopeError::MalformedRequest => EnvelopeErrorV::MalformedRequest,
            EnvelopeError::MalformedCall => EnvelopeErrorV::MalformedCall,
            EnvelopeError::UnknownMethod { method_name, call_id } => (
            EnvelopeErrorV::UnknownMethod {
                method_name: method_name@,
                call_id: call_id@,
            }),
            EnvelopeError::InvalidArguments { call_id } => (EnvelopeErrorV::InvalidArguments {
                call_id: call_id@,
            }),
        }
    }
}

/// String sequences as wire items, in order.
pub open spec fn spec_string_list_items(ss: Seq<Seq<char>>) -> Seq<JsonVal> {
    Seq::new(ss.len(), |i: int| JsonVal::Str(ss[i]))
}

/// The argument object that encodes a mailbox-listing call: optional filters
/// are present exactly when set.
pub open spec fn spec_mailbox_get_args(
    account_id: Seq<char>,
    ids: Option<Seq<Seq<char>>>,
    properties: Option<Seq<Seq<char>>>,
) -> Seq<(Seq<char>, JsonVal)> {
    let base = seq![("accountId"@, JsonVal::Str(account_id))];
    let with_ids = match ids {
        Some(l) => base.push(("ids"@, JsonVal::List(spec_string_list_items(l)))),
        None => base,
    };
    match properties {
        Some(l) => with_ids.push(("properties"@, JsonVal::List(spec_string_list_items(l)))),
        None => with_ids,
    }
}

/// The wire form of one method call.
pub open spec fn spec_encode_call(c: MethodCallV) -> JsonVal {
    match c.method {
        MethodV::CoreEcho(fields) => JsonVal::List(
            seq![JsonVal::Str("Core/echo"@), JsonVal::Obj(fields), JsonVal::Str(c.call_id)],
        ),
        MethodV::MailboxGet { account_id, ids, properties } => JsonVal::List(
            seq![
                JsonVal::Str("Mailbox/get"@),
                JsonVal::Obj(spec_mailbox_get_args(account_id, ids, properties)),
                JsonVal::Str(c.call_id),
            ],
        ),
    }
}

/// Reads a list whose elements must all be strings.
pub open spec fn spec_string_list(l: Seq<JsonVal>) -> Result<Seq<Seq<char>>, ()> {
    if forall|i: int| 0 <= i < l.len() ==> (#[trigger] l[i]) is Str {
        Ok(Seq::new(l.len(), |i: int| l[i]->Str_0))
    } else {
        Err(())
    }
}

/// Reads an optional string-list argument: absent or `null` means unset.
pub open spec fn spec_opt_string_list(v: Option<JsonVal>) -> Result<
    Option<Seq<Seq<char>>>,
    (),
> {
    match v {
        None => Ok(None),
        Some(JsonVal::Null) => Ok(None),
        Some(JsonVal::List(l)) => match spec_string_list(l) {
            Ok(ss) => Ok(Some(ss)),
            Err(()) => Err(()),
        },
        Some(_) => Err(()),
    }
}

/// Resolves a mailbox-listing call from its argument object.
pub open spec fn spec_decode_mailbox_get(
    args: Seq<(Seq<char>, JsonVal)>,
    call_id: Seq<char>,
) -> Result<MethodCallV, EnvelopeErrorV> {
    match spec_obj_get(args, "accountId"@) {
        Some(JsonVal::Str(account_id)) => match spec_opt_string_list(
            spec_obj_get(args, "ids"@),
        ) {
            Ok(ids) => match spec_opt_string_list(spec_obj_get(args, "properties"@)) {
                Ok(properties) => Ok(
                    MethodCallV {
                        method: MethodV::MailboxGet { account_id, ids, properties },
                        call_id,
                    },
                ),
                Err(()) => Err(EnvelopeErrorV::InvalidArguments { call_id }),
            },
            Err(()) => Err(EnvelopeErrorV::InvalidArguments { call_id }),
        },
        _ => Err(EnvelopeErrorV::InvalidArguments { call_id }),
    }
}

/// What decoding one wire value as a method call yields: exactly three
/// elements, a known name resolved jointly with its arguments, and the call
/// id carried through untouched.
pub open spec fn spec_decode_call(v: JsonVal) -> Result<MethodCallV, EnvelopeErrorV> {
    match v {
        JsonVal::List(elems) => if elems.len() != 3 {
            Err(EnvelopeErrorV::MalformedCall)
        } else {
            match (elems[0], elems[1], elems[2]) {
                (JsonVal::Str(name), JsonVal::Obj(args), JsonVal::Str(call_id)) => if name
                    == "Core/echo"@ {
                    Ok(MethodCallV { method: MethodV::CoreEcho(args), call_id })
                } else if name == "Mailbox/get"@ {
                    spec_decode_mailbox_get(args, call_id)
                } else {
                    Err(EnvelopeErrorV::UnknownMethod { method_name: name, call_id })
                },
                _ => Err(EnvelopeErrorV::MalformedCall),
            }
        },
        _ => Err(EnvelopeErrorV::MalformedCall),
    }
}

/// Reads a list whose elements must all be strings, into owned strings.
fn extract_string_list(l: &Vec<JsonItem>) -> (r: Result<Vec<String>, ()>)
    ensures
        match r {
            Ok(ss) => spec_string_list(l.deep_view()) matches Ok(v) && v == ss.deep_view(),
            Err(_) => spec_string_list(l.deep_view()) is Err,
        },
{
    let mut out: Vec<String> = Vec::new();
    let n = l.len();
    let mut i: usize = 0;
    while i < n
        invariant
            i <= n,
            n == l@.len(),
            l.deep_view().len() == n,
            out@.len() == i,
            forall|j: int| 0 <= j < i ==> (#[trigger] l.deep_view()[j]) is Str,
            forall|j: int| 0 <= j < i ==> (#[trigger] out@[j])@ == l.deep_view()[j]->Str_0,
        decreases n - i,
    {
        match &l[i] {
            JsonItem::Str(s) => {
                proof {
                    assert(l@[i as int] == JsonItem::Str(*s));
                    assert(l.deep_view()[i as int] == JsonVal::Str(s@));
                }
                out.push(s.clone());
            },
            _ => {
                proof {
                    assert(!((l.deep_view()[i as int]) is Str));
                }
                return Err(());
            },
        }
        i = i + 1;
    }
    proof {
        assert(spec_string_list(l.deep_view()) matches Ok(v) && v == out.deep_view()) by {
            assert(forall|j: int|
                0 <= j < n ==> (#[trigger] out.deep_view()[j]) == out@[j]@);
            assert(Seq::new(l.deep_view().len(), |j: int| l.deep_view()[j]->Str_0)
                =~= out.deep_view());
        }
    }
    Ok(out)
}

/// The value of an optional borrowed wire item.
pub open spec fn spec_opt_item_val(o: Option<&JsonItem>) -> Option<JsonVal> {
    match o {
        Some(x) => Some(jval_of(*x)),
        None => None,
    }
}

/// Reads an optional string-list argument, into owned strings.
fn extract_opt_string_list(o: Option<&JsonItem>) -> (r: Result<Option<Vec<String>>, ()>)
    ensures
        match r {
            Ok(ss) => spec_opt_string_list(spec_opt_item_val(o)) matches Ok(v) && v
                == ss.deep_view(),
            Err(_) => spec_opt_string_list(spec_opt_item_val(o)) is Err,
        },
{
    broadcast use lemma_vec_items_deep_view;

    match o {
        None => Ok(None),
        Some(JsonItem::Null) => Ok(None),
        Some(JsonItem::List(l)) => match extract_string_list(l) {
            Ok(ss) => Ok(Some(ss)),
            Err(_) => Err(()),
        },
        Some(_) => Err(()),
    }
}

/// Resolves a mailbox-listing call from its argument object.
fn decode_mailbox_args(args: Vec<(String, JsonItem)>, call_id: String) -> (r: Result<
    MethodCall,
    EnvelopeError,
>)
    ensures
        match r {
            Ok(c) => spec_decode_mailbox_get(jfields_of_seq(args@), call_id@) matches Ok(v)
                && v == c.deep_view(),
            Err(e) => spec_decode_mailbox_get(jfields_of_seq(args@), call_id@) matches Err(ev)
                && ev == e.deep_view(),
        },
{
    broadcast use lemma_vec_fields_deep_view;

    let account_id = match obj_get(&args, "accountId") {
        Some(it) => match it {
            JsonItem::Str(s) => s.clone(),
            _ => {
                return Err(EnvelopeError::InvalidArguments { call_id });
            },
        },
        None => {
            return Err(EnvelopeError::InvalidArguments { call_id });
        },
    };
    let ids = match extract_opt_string_list(obj_get(&args, "ids")) {
        Ok(v) => v,
        Err(_) => {
            return Err(EnvelopeError::InvalidArguments { call_id });
        },
    };
    let properties = match extract_opt_string_list(obj_get(&args, "properties")) {
        Ok(v) => v,
        Err(_) => {
            return Err(EnvelopeError::InvalidArguments { call_id });
        },
    };
    Ok(MethodCall { method: Method::MailboxGet { account_id, ids, properties }, call_id })
}

/// Decodes one wire value as a method call: exactly three elements, a known
/// name resolved jointly with its arguments, the call id carried through.
pub fn decode_method_call(item: JsonItem) -> (r: Result<MethodCall, EnvelopeError>)
    ensures
        match r {
            Ok(c) => spec_decode_call(jval_of(item)) matches Ok(v) && v == c.deep_view(),
            Err(e) => spec_decode_call(jval_of(item)) matches Err(ev) && ev == e.deep_view(),
        },
{
    broadcast use lemma_jvals_of_seq;
    broadcast use lemma_vec_fields_deep_view;

    let ghost iv = jval_of(item);
    let mut elems = match item {
        JsonItem::List(l) => l,
        _ => {
            return Err(EnvelopeError::MalformedCall);
        },
    };
    let ghost elems0 = elems@;
    proof {
        assert(iv == JsonVal::List(jvals_of_seq(elems0)));
        assert(jvals_of_seq(elems0).len() == elems0.len());
    }
    if elems.len() != 3 {
        return Err(EnvelopeError::MalformedCall);
    }
    let id_item = elems.pop().unwrap();
    let args_item = elems.pop().unwrap();
    let name_item = elems.pop().unwrap();
    proof {
        assert(elems0[0] == name_item);
        assert(elems0[1] == args_item);
        assert(elems0[2] == id_item);
    }
    let name = match name_item {
        JsonItem::Str(s) => s,
        _ => {
            return Err(EnvelopeError::MalformedCall);
        },
    };
    let args = match args_item {
        JsonItem::Obj(o) => o,
        _ => {
            return Err(EnvelopeError::MalformedCall);
        },
    };
    let call_id = match id_item {
        JsonItem::Str(s) => s,
        _ => {
            return Err(EnvelopeError::MalformedCall);
        },
    };
    if str_eq_str(name.as_str(), "Core/echo") {
        return Ok(MethodCall { method: Method::CoreEcho(args), call_id });
    }
    if str_eq_str(name.as_str(), "Mailbox/get") {
        return decode_mailbox_args(args, call_id);
    }
    Err(EnvelopeError::UnknownMethod { method_name: name, call_id })
}

/// String sequences as owned wire items, in order.
fn string_list_to_items(ss: &Vec<String>) -> (r: Vec<JsonItem>)
    ensures
        jvals_of_seq(r@) == spec_string_list_items(ss.deep_view()),
{
    broadcast use lemma_jvals_of_seq;

    let n = ss.len();
    let mut out: Vec<JsonItem> = Vec::new();
    let mut i: usize = 0;
    while i < n
        invariant
            i <= n,
            n == ss@.len(),
            out@.len() == i,
            forall|j: int|
                0 <= j < i ==> jval_of(#[trigger] out@[j]) == JsonVal::Str(ss@[j]@),
        decreases n - i,
    {
        out.push(JsonItem::Str(ss[i].clone()));
        i = i + 1;
    }
    proof {
        broadcast use lemma_jvals_of_seq;

        assert(jvals_of_seq(out@) =~= spec_string_list_items(ss.deep_view()));
    }
    out
}

/// Encodes one method call as its wire 3-tuple.
pub fn encode_method_call(c: MethodCall) -> (r: JsonItem)
    ensures
        jval_of(r) == spec_encode_call(c.deep_view()),
{
    broadcast use lemma_jvals_of_seq;
    broadcast use lemma_jfields_of_seq;
    broadcast use lemma_vec_fields_deep_view;

    let ghost cv = c.deep_view();
    match c.method {
        Method::CoreEcho(fields) => {
            let mut elems: Vec<JsonItem> = Vec::new();
            elems.push(JsonItem::Str(String::from_str("Core/echo")));
            elems.push(JsonItem::Obj(fields));
            elems.push(JsonItem::Str(c.call_id));
            let r = JsonItem::List(elems);
            proof {
                assert(jvals_of_seq(elems@) =~= spec_encode_call(cv)->List_0);
            }
            r
        },
        Method::MailboxGet { account_id, ids, properties } => {
            let ghost idsv = ids.deep_view();
            let ghost propsv = properties.deep_view();
            let mut args: Vec<(String, JsonItem)> = Vec::new();
            args.push((String::from_str("accountId"), JsonItem::Str(account_id)));
            match ids {
                Some(l) => {
                    args.push((String::from_str("ids"), JsonItem::List(string_list_to_items(&l))));
                },
                None => {},
            }
            match properties {
                Some(l) => {
                    args.push((
                        String::from_str("properties"),
                        JsonItem::List(string_list_to_items(&l)),
                    ));
                },
                None => {},
            }
            proof {
                assert(jfields_of_seq(args@) =~= spec_mailbox_get_args(
                    account_id@,
                    idsv,
                    propsv,
                ));
            }
            let mut elems: Vec<JsonItem> = Vec::new();
            elems.push(JsonItem::Str(String::from_str("Mailbox/get")));
            elems.push(JsonItem::Obj(args));
            elems.push(JsonItem::Str(c.call_id));
            let r = JsonItem::List(elems);
            proof {
                assert(jvals_of_seq(elems@) =~= spec_encode_call(cv)->List_0);
            }
            r
        },
    }
}

/// The wire form of a whole batch of calls, in order.
pub open spec fn spec_encode_calls(cs: Seq<MethodCallV>) -> Seq<JsonVal> {
    Seq::new(cs.len(), |i: int| spec_encode_call(cs[i]))
}

/// What decoding a batch of wire values yields: the calls in order, or the
/// first call's decode failure.
pub open spec fn spec_decode_calls(l: Seq<JsonVal>) -> Result<Seq<MethodCallV>, EnvelopeErrorV>
    decreases l.len(),
{
    if l.len() == 0 {
        Ok(Seq::empty())
    } else {
        match spec_decode_call(l[0]) {
            Ok(c) => match spec_decode_calls(l.drop_first()) {
                Ok(rest) => Ok(seq![c] + rest),
                Err(e) => Err(e),
            },
            Err(e) => Err(e),
        }
    }
}

/// Law: a list of strings survives the trip onto the wire and back.
pub proof fn lemma_string_list_round_trip(l: Seq<Seq<char>>)
    ensures
        spec_string_list(spec_string_list_items(l)) matches Ok(v) && v == l,
{
    let items = spec_string_list_items(l);
    assert(forall|i: int| 0 <= i < items.len() ==> (#[trigger] items[i]) is Str);
    assert(Seq::new(items.len(), |i: int| items[i]->Str_0) =~= l);
}

/// Law: encoding one method call and decoding the result yields the call
/// unchanged, including its correlation id.
pub proof fn lemma_call_round_trip(c: MethodCallV)
    ensures
        spec_decode_call(spec_encode_call(c)) matches Ok(v) && v == c,
{
    reveal_strlit("Core/echo");
    reveal_strlit("Mailbox/get");
    reveal_strlit("accountId");
    reveal_strlit("ids");
    reveal_strlit("properties");
    assert("Core/echo"@.len() == 9);
    assert("Mailbox/get"@.len() == 11);
    assert("Core/echo"@ != "Mailbox/get"@);
    assert("accountId"@.len() == 9);
    assert("ids"@.len() == 3);
    assert("properties"@.len() == 10);
    assert("accountId"@ != "ids"@);
    assert("accountId"@ != "properties"@);
    assert("ids"@ != "properties"@);
    match c.method {
        MethodV::CoreEcho(fields) => {
            let enc = spec_encode_call(c);
            assert(enc->List_0.len() == 3);
            assert(enc->List_0[0] == JsonVal::Str("Core/echo"@));
            assert(enc->List_0[1] == JsonVal::Obj(fields));
            assert(enc->List_0[2] == JsonVal::Str(c.call_id));
            assert(spec_decode_call(enc) matches Ok(v) && v == (MethodCallV {
                method: MethodV::CoreEcho(fields),
                call_id: c.call_id,
            }));
            assert(MethodCallV { method: MethodV::CoreEcho(fields), call_id: c.call_id } =~= c);
        },
        MethodV::MailboxGet { account_id, ids, properties } => {
            let enc = spec_encode_call(c);
            let args = spec_mailbox_get_args(account_id, ids, properties);
            assert(enc->List_0.len() == 3);
            assert(enc->List_0[0] == JsonVal::Str("Mailbox/get"@));
            assert(enc->List_0[1] == JsonVal::Obj(args));
            assert(enc->List_0[2] == JsonVal::Str(c.call_id));
            assert(spec_decode_call(enc) == spec_decode_mailbox_get(args, c.call_id));
            let acct = ("accountId"@, JsonVal::Str(account_id));
            assert(args[0] == acct);
            assert(spec_obj_get(args, "accountId"@) == Some(JsonVal::Str(account_id)));
            match ids {
                Some(l) => {
                    let entry = ("ids"@, JsonVal::List(spec_string_list_items(l)));
                    assert(args[1] == entry);
                    assert(args.drop_first()[0] == entry);
                    assert(spec_obj_get(args.drop_first(), "ids"@) == Some(entry.1));
                    assert(spec_obj_get(args, "ids"@) == Some(entry.1));
                    lemma_string_list_round_trip(l);
                },
                None => {
                    match properties {
                        Some(p) => {
                            assert(args =~= seq![
                                acct,
                                ("properties"@, JsonVal::List(spec_string_list_items(p))),
                            ]);
                            assert(args.drop_first()[0].0 == "properties"@);
                            assert(args.drop_first().drop_first().len() == 0);
                            assert(spec_obj_get(args.drop_first().drop_first(), "ids"@) is None);
                            assert(spec_obj_get(args.drop_first(), "ids"@) is None);
                            assert(spec_obj_get(args, "ids"@) is None);
                        },
                        None => {
                            assert(args =~= seq![acct]);
                            assert(args.drop_first().len() == 0);
                            assert(spec_obj_get(args.drop_first(), "ids"@) is None);
                            assert(spec_obj_get(args, "ids"@) is None);
                        },
                    }
                },
            }
            match properties {
                Some(p) => {
                    let pentry = ("properties"@, JsonVal::List(spec_string_list_items(p)));
                    assert(args.last() == pentry);
                    match ids {
                        Some(_) => {
                            assert(args.len() == 3);
                            assert(args[2] == pentry);
                            assert(args.drop_first()[1] == pentry);
                            assert(args.drop_first().drop_first()[0] == pentry);
                            assert(spec_obj_get(args.drop_first().drop_first(), "properties"@)
                                == Some(pentry.1));
                            assert(spec_obj_get(args.drop_first(), "properties"@) == Some(
                                pentry.1,
                            ));
                            assert(spec_obj_get(args, "properties"@) == Some(pentry.1));
                        },
                        None => {
                            assert(args.len() == 2);
                            assert(args.drop_first()[0] == pentry);
                            assert(spec_obj_get(args.drop_first(), "properties"@) == Some(
                                pentry.1,
                            ));
                            assert(spec_obj_get(args, "properties"@) == Some(pentry.1));
                        },
                    }
                    lemma_string_list_round_trip(p);
                },
                None => {
                    match ids {
                        Some(_) => {
                            assert(args.len() == 2);
                            assert(args.drop_first()[0].0 == "ids"@);
                            assert(args.drop_first().drop_first().len() == 0);
                            assert(spec_obj_get(args.drop_first().drop_first(), "properties"@)
                                is None);
                            assert(spec_obj_get(args.drop_first(), "properties"@) is None);
                            assert(spec_obj_get(args, "properties"@) is None);
                        },
                        None => {
                            assert(args.len() == 1);
                            assert(args.drop_first().len() == 0);
                            assert(spec_obj_get(args.drop_first(), "properties"@) is None);
                            assert(spec_obj_get(args, "properties"@) is None);
                        },
                    }
                },
            }
            assert(spec_decode_mailbox_get(args, c.call_id) matches Ok(v) && v =~= c);
        },
    }
}

/// Law: encoding a batch of calls and decoding the result yields the batch
/// unchanged, in order, duplicates and all.
pub proof fn lemma_batch_round_trip(cs: Seq<MethodCallV>)
    ensures
        spec_decode_calls(spec_encode_calls(cs)) matches Ok(v) && v == cs,
    decreases cs.len(),
{
    let enc = spec_encode_calls(cs);
    if cs.len() == 0 {
        assert(enc.len() == 0);
        assert(spec_decode_calls(enc) matches Ok(v) && v == Seq::<MethodCallV>::empty());
        assert(Seq::<MethodCallV>::empty() =~= cs);
        assert(spec_decode_calls(enc) matches Ok(v) && v == cs);
    } else {
        lemma_call_round_trip(cs[0]);
        lemma_batch_round_trip(cs.drop_first());
        assert(enc[0] == spec_encode_call(cs[0]));
        assert(enc.drop_first() =~= spec_encode_calls(cs.drop_first()));
        assert(spec_decode_calls(enc.drop_first()) matches Ok(v) && v == cs.drop_first());
        assert(spec_decode_calls(enc) matches Ok(v) && v == seq![cs[0]] + cs.drop_first());
        assert(seq![cs[0]] + cs.drop_first() =~= cs);
        assert(spec_decode_calls(enc) matches Ok(v) && v == cs);
    }
}

/// Decodes a batch of wire values into method calls, in order; the first
/// failure rejects the whole batch.
#[verifier::loop_isolation(false)]
pub fn decode_method_calls(items: Vec<JsonItem>) -> (r: Result<Vec<MethodCall>, EnvelopeError>)
    ensures
        match r {
            Ok(cs) => spec_decode_calls(jvals_of_seq(items@)) matches Ok(v) && v
                == cs.deep_view(),
            Err(e) => spec_decode_calls(jvals_of_seq(items@)) matches Err(ev) && ev
                == e.deep_view(),
        },
{
    broadcast use lemma_jvals_of_seq;

    let ghost orig = jvals_of_seq(items@);
    let mut rest = items;
    let mut out: Vec<MethodCall> = Vec::new();
    loop
        invariant
            (match spec_decode_calls(jvals_of_seq(rest@)) {
                Ok(tail) => spec_decode_calls(orig) matches Ok(all) && all == out.deep_view()
                    + tail,
                Err(e) => spec_decode_calls(orig) matches Err(e2) && e2 == e,
            }),
        decreases rest@.len(),
    {
        if rest.len() == 0 {
            proof {
                assert(jvals_of_seq(rest@).len() == 0);
                assert(out.deep_view() + Seq::<MethodCallV>::empty() =~= out.deep_view());
            }
            return Ok(out);
        }
        let ghost prev = rest@;
        let it = rest.remove(0);
        proof {
            assert(rest@ =~= prev.drop_first());
            assert(jvals_of_seq(prev)[0] == jval_of(it));
            assert(jvals_of_seq(prev).drop_first() =~= jvals_of_seq(rest@));
        }
        let ghost out_prev = out.deep_view();
        match decode_method_call(it) {
            Ok(c) => {
                out.push(c);
                proof {
                    assert(out.deep_view() =~= out_prev.push(c.deep_view()));
                    assert(forall|tail: Seq<MethodCallV>|
                        out_prev + (seq![c.deep_view()] + tail) =~= (#[trigger] (out.deep_view()
                            + tail)));
                }
            },
            Err(e) => {
                proof {
                    assert(spec_decode_calls(jvals_of_seq(prev)) matches Err(e2) && e2
                        == e.deep_view());
                }
                return Err(e);
            },
        }
    }
}

/// An optional string as a wire value: `null` when unset.
pub open spec fn spec_opt_str_val(o: Option<Seq<char>>) -> JsonVal {
    match o {
        Some(s) => JsonVal::Str(s),
        None => JsonVal::Null,
    }
}

/// The wire object of a mailbox, keys in declaration order.
pub open spec fn spec_rights_json(r: MailboxRights) -> JsonVal {
    JsonVal::Obj(
        seq![
            ("mayReadItems"@, JsonVal::Bool(r.may_read_items)),
            ("mayAddItems"@, JsonVal::Bool(r.may_add_items)),
            ("mayRemoveItems"@, JsonVal::Bool(r.may_remove_items)),
            ("maySetSeen"@, JsonVal::Bool(r.may_set_seen)),
            ("maySetKeywords"@, JsonVal::Bool(r.may_set_keywords)),
            ("mayCreateChild"@, JsonVal::Bool(r.may_create_child)),
            ("mayRename"@, JsonVal::Bool(r.may_rename)),
            ("mayDelete"@, JsonVal::Bool(r.may_delete)),
            ("maySubmit"@, JsonVal::Bool(r.may_submit)),
        ],
    )
}

/// The wire object of one mailbox.
pub open spec fn spec_mailbox_json(m: MailboxV) -> JsonVal {
    JsonVal::Obj(
        seq![
            ("id"@, JsonVal::Str(m.id)),
            ("name"@, JsonVal::Str(m.name)),
            ("parentId"@, spec_opt_str_val(m.parent_id)),
            ("role"@, spec_opt_str_val(m.role)),
            ("sortOrder"@, JsonVal::UInt(m.sort_order)),
            ("totalEmails"@, JsonVal::UInt(m.total_emails)),
            ("unreadEmails"@, JsonVal::UInt(m.unread_emails)),
            ("totalThreads"@, JsonVal::UInt(m.total_threads)),
            ("unreadThreads"@, JsonVal::UInt(m.unread_threads)),
            ("myRights"@, spec_rights_json(m.my_rights)),
            ("isSubscribed"@, JsonVal::Bool(m.is_subscribed)),
        ],
    )
}

/// The wire 3-tuple of one method result: the mirrored method name (or
/// `"error"` for a per-call failure), the result payload, and the call id.
pub open spec fn spec_encode_result(r: MethodCallResultV) -> JsonVal {
    match r.method_result {
        MethodResultV::CoreEcho(fields) => JsonVal::List(
            seq![JsonVal::Str("Core/echo"@), JsonVal::Obj(fields), JsonVal::Str(r.call_id)],
        ),
        MethodResultV::MailboxGet { account_id, state, list, not_found } => JsonVal::List(
            seq![
                JsonVal::Str("Mailbox/get"@),
                JsonVal::Obj(
                    seq![
                        ("accountId"@, JsonVal::Str(account_id)),
                        ("state"@, JsonVal::Str(state)),
                        (
                            "list"@,
                            JsonVal::List(
                                Seq::new(list.len(), |i: int| spec_mailbox_json(list[i])),
                            ),
                        ),
                        ("notFound"@, JsonVal::List(spec_string_list_items(not_found))),
                    ],
                ),
                JsonVal::Str(r.call_id),
            ],
        ),
        MethodResultV::Error { error_type } => JsonVal::List(
            seq![
                JsonVal::Str("error"@),
                JsonVal::Obj(seq![("type"@, JsonVal::Str(error_type))]),
                JsonVal::Str(r.call_id),
            ],
        ),
    }
}

/// The wire object of a whole batch response: the ordered results, the id
/// allocations only when present, and the state token.
pub open spec fn spec_encode_response(r: ReponseV) -> JsonVal {
    let base = seq![
        (
            "methodResponses"@,
            JsonVal::List(
                Seq::new(r.method_responses.len(), |i: int| spec_encode_result(
                    r.method_responses[i],
                )),
            ),
        ),
    ];
    let with_ids = match r.created_ids {
        Some(entries) => base.push(
            (
                "createdIds"@,
                JsonVal::Obj(
                    Seq::new(entries.len(), |i: int| (entries[i].0, JsonVal::Str(entries[i].1))),
                ),
            ),
        ),
        None => base,
    };
    JsonVal::Obj(with_ids.push(("sessionState"@, JsonVal::Str(r.session_state))))
}

fn opt_str_item(o: Option<String>) -> (r: JsonItem)
    ensures
        jval_of(r) == spec_opt_str_val(o.deep_view()),
{
    match o {
        Some(s) => JsonItem::Str(s),
        None => JsonItem::Null,
    }
}

fn rights_to_json(r: MailboxRights) -> (out: JsonItem)
    ensures
        jval_of(out) == spec_rights_json(r),
{
    broadcast use lemma_jfields_of_seq;

    let mut o: Vec<(String, JsonItem)> = Vec::new();
    o.push((String::from_str("mayReadItems"), JsonItem::Bool(r.may_read_items)));
    o.push((String::from_str("mayAddItems"), JsonItem::Bool(r.may_add_items)));
    o.push((String::from_str("mayRemoveItems"), JsonItem::Bool(r.may_remove_items)));
    o.push((String::from_str("maySetSeen"), JsonItem::Bool(r.may_set_seen)));
    o.push((String::from_str("maySetKeywords"), JsonItem::Bool(r.may_set_keywords)));
    o.push((String::from_str("mayCreateChild"), JsonItem::Bool(r.may_create_child)));
    o.push((String::from_str("mayRename"), JsonItem::Bool(r.may_rename)));
    o.push((String::from_str("mayDelete"), JsonItem::Bool(r.may_delete)));
    o.push((String::from_str("maySubmit"), JsonItem::Bool(r.may_submit)));
    let out = JsonItem::Obj(o);
    proof {
        assert(jfields_of_seq(out->Obj_0@) =~= spec_rights_json(r)->Obj_0);
    }
    out
}

/// Encodes one mailbox as its wire object.
pub fn mailbox_to_json(m: Mailbox) -> (r: JsonItem)
    ensures
        jval_of(r) == spec_mailbox_json(m.deep_view()),
{
    broadcast use lemma_jfields_of_seq;

    let ghost mv = m.deep_view();
    let mut o: Vec<(String, JsonItem)> = Vec::new();
    o.push((String::from_str("id"), JsonItem::Str(m.id)));
    o.push((String::from_str("name"), JsonItem::Str(m.name)));
    o.push((String::from_str("parentId"), opt_str_item(m.parent_id)));
    o.push((String::from_str("role"), opt_str_item(m.role)));
    o.push((String::from_str("sortOrder"), JsonItem::UInt(m.sort_order)));
    o.push((String::from_str("totalEmails"), JsonItem::UInt(m.total_emails)));
    o.push((String::from_str("unreadEmails"), JsonItem::UInt(m.unread_emails)));
    o.push((String::from_str("totalThreads"), JsonItem::UInt(m.total_threads)));
    o.push((String::from_str("unreadThreads"), JsonItem::UInt(m.unread_threads)));
    o.push((String::from_str("myRights"), rights_to_json(m.my_rights)));
    o.push((String::from_str("isSubscribed"), JsonItem::Bool(m.is_subscribed)));
    let r = JsonItem::Obj(o);
    proof {
        assert(jfields_of_seq(r->Obj_0@) =~= spec_mailbox_json(mv)->Obj_0);
    }
    r
}

#[verifier::loop_isolation(false)]
fn mailboxes_to_items(list: Vec<Mailbox>) -> (r: Vec<JsonItem>)
    ensures
        jvals_of_seq(r@).len() == list.deep_view().len(),
        forall|i: int|
            0 <= i < list.deep_view().len() ==> jvals_of_seq(r@)[i] == spec_mailbox_json(
                list.deep_view()[i],
            ),
{
    broadcast use lemma_jvals_of_seq;

    let ghost orig = list.deep_view();
    let mut rest = list;
    let mut out: Vec<JsonItem> = Vec::new();
    loop
        invariant
            out@.len() + rest@.len() == orig.len(),
            forall|j: int|
                0 <= j < out@.len() ==> jval_of(#[trigger] out@[j]) == spec_mailbox_json(
                    orig[j],
                ),
            forall|k: int|
                0 <= k < rest@.len() ==> (#[trigger] rest@[k]).deep_view() == orig[out@.len()
                    + k],
        decreases rest@.len(),
    {
        if rest.len() == 0 {
            proof {
                lemma_jvals_of_seq(out@);
                assert forall|i: int| 0 <= i < orig.len() implies jvals_of_seq(out@)[i]
                    == spec_mailbox_json(orig[i]) by {
                    assert(jvals_of_seq(out@)[i] == jval_of(out@[i]));
                }
            }
            return out;
        }
        let ghost prev = rest@;
        let m = rest.remove(0);
        proof {
            assert(rest@ =~= prev.drop_first());
        }
        out.push(mailbox_to_json(m));
    }
}

/// Encodes one method result as its wire 3-tuple.
pub fn encode_method_call_result(r: MethodCallResult) -> (out: JsonItem)
    ensures
        jval_of(out) == spec_encode_result(r.deep_view()),
{
    broadcast use lemma_jvals_of_seq;
    broadcast use lemma_jfields_of_seq;
    broadcast use lemma_vec_fields_deep_view;

    let ghost rv = r.deep_view();
    match r.method_result {
        MethodResult::CoreEcho(fields) => {
            let mut elems: Vec<JsonItem> = Vec::new();
            elems.push(JsonItem::Str(String::from_str("Core/echo")));
            elems.push(JsonItem::Obj(fields));
            elems.push(JsonItem::Str(r.call_id));
            let out = JsonItem::List(elems);
            proof {
                assert(jvals_of_seq(out->List_0@) =~= spec_encode_result(rv)->List_0);
            }
            out
        },
        MethodResult::MailboxGet { account_id, state, list, not_found } => {
            let ghost listv = list.deep_view();
            let ghost nfv = not_found.deep_view();
            let litems = mailboxes_to_items(list);
            let ghost litemsv = litems@;
            let nfitems = string_list_to_items(&not_found);
            let ghost nfitemsv = nfitems@;
            let mut args: Vec<(String, JsonItem)> = Vec::new();
            args.push((String::from_str("accountId"), JsonItem::Str(account_id)));
            args.push((String::from_str("state"), JsonItem::Str(state)));
            args.push((String::from_str("list"), JsonItem::List(litems)));
            args.push((String::from_str("notFound"), JsonItem::List(nfitems)));
            let mut elems: Vec<JsonItem> = Vec::new();
            elems.push(JsonItem::Str(String::from_str("Mailbox/get")));
            elems.push(JsonItem::Obj(args));
            elems.push(JsonItem::Str(r.call_id));
            let out = JsonItem::List(elems);
            proof {
                let av = jfields_of_seq(args@);
                let sv = spec_encode_result(rv)->List_0[1]->Obj_0;
                assert(av.len() == 4);
                assert(av[2].1 == JsonVal::List(jvals_of_seq(litemsv)));
                assert(jvals_of_seq(litemsv) =~= Seq::new(
                    listv.len(),
                    |i: int| spec_mailbox_json(listv[i]),
                ));
                assert(av[2].1 == sv[2].1);
                assert(av[3].1 == JsonVal::List(jvals_of_seq(nfitemsv)));
                assert(av[3].1 == sv[3].1);
                assert(av =~= sv);
                assert(jvals_of_seq(elems@) =~= spec_encode_result(rv)->List_0);
            }
            out
        },
        MethodResult::Error { error_type } => {
            let mut args: Vec<(String, JsonItem)> = Vec::new();
            args.push((String::from_str("type"), JsonItem::Str(error_type)));
            let mut elems: Vec<JsonItem> = Vec::new();
            elems.push(JsonItem::Str(String::from_str("error")));
            elems.push(JsonItem::Obj(args));
            elems.push(JsonItem::Str(r.call_id));
            let out = JsonItem::List(elems);
            proof {
                assert(jfields_of_seq(elems@[1]->Obj_0@) =~~= spec_encode_result(
                    rv,
                )->List_0[1]->Obj_0);
                assert(jvals_of_seq(out->List_0@) =~~= spec_encode_result(rv)->List_0);
            }
            out
        },
    }
}

#[verifier::loop_isolation(false)]
fn results_to_items(list: Vec<MethodCallResult>) -> (r: Vec<JsonItem>)
    ensures
        jvals_of_seq(r@).len() == list.deep_view().len(),
        forall|i: int|
            0 <= i < list.deep_view().len() ==> jvals_of_seq(r@)[i] == spec_encode_result(
                list.deep_view()[i],
            ),
{
    broadcast use lemma_jvals_of_seq;

    let ghost orig = list.deep_view();
    let mut rest = list;
    let mut out: Vec<JsonItem> = Vec::new();
    loop
        invariant
            out@.len() + rest@.len() == orig.len(),
            forall|j: int|
                0 <= j < out@.len() ==> jval_of(#[trigger] out@[j]) == spec_encode_result(
                    orig[j],
                ),
            forall|k: int|
                0 <= k < rest@.len() ==> (#[trigger] rest@[k]).deep_view() == orig[out@.len()
                    + k],
        decreases rest@.len(),
    {
        if rest.len() == 0 {
            proof {
                lemma_jvals_of_seq(out@);
                assert forall|i: int| 0 <= i < orig.len() implies jvals_of_seq(out@)[i]
                    == spec_encode_result(orig[i]) by {
                    assert(jvals_of_seq(out@)[i] == jval_of(out@[i]));
                }
            }
            return out;
        }
        let ghost prev = rest@;
        let m = rest.remove(0);
        proof {
            assert(rest@ =~= prev.drop_first());
        }
        out.push(encode_method_call_result(m));
    }
}

/// Encodes a whole batch response as its wire object.
#[verifier::loop_isolation(false)]
pub fn encode_response(resp: Reponse) -> (r: JsonItem)
    ensures
        jval_of(r) == spec_encode_response(resp.deep_view()),
{
    broadcast use lemma_jfields_of_seq;
    broadcast use lemma_jvals_of_seq;

    let ghost rv = resp.deep_view();
    let mut o: Vec<(String, JsonItem)> = Vec::new();
    let ritems = results_to_items(resp.method_responses);
    let ghost ritemsv = ritems@;
    o.push((String::from_str("methodResponses"), JsonItem::List(ritems)));
    match resp.created_ids {
        Some(entries) => {
            let mut ids: Vec<(String, JsonItem)> = Vec::new();
            let ghost orig = entries.deep_view();
            let mut rest = entries;
            loop
                invariant
                    ids@.len() + rest@.len() == orig.len(),
                    forall|j: int|
                        0 <= j < ids@.len() ==> (#[trigger] ids@[j]).0@ == orig[j].0
                            && jval_of(ids@[j].1) == JsonVal::Str(orig[j].1),
                    forall|k: int|
                        0 <= k < rest@.len() ==> (#[trigger] rest@[k]).deep_view()
                            == orig[ids@.len() + k],
                decreases rest@.len(),
            {
                if rest.len() == 0 {
                    break;
                }
                let ghost prev = rest@;
                let pair = rest.remove(0);
                proof {
                    assert(rest@ =~= prev.drop_first());
                }
                ids.push((pair.0, JsonItem::Str(pair.1)));
            }
            proof {
                lemma_jfields_of_seq(ids@);
                assert forall|i: int| 0 <= i < orig.len() implies jfields_of_seq(ids@)[i] == (
                    orig[i].0,
                    JsonVal::Str(orig[i].1),
                ) by {
                    assert(jfields_of_seq(ids@)[i] == (ids@[i].0@, jval_of(ids@[i].1)));
                }
                assert(jfields_of_seq(ids@) =~= Seq::new(
                    orig.len(),
                    |i: int| (orig[i].0, JsonVal::Str(orig[i].1)),
                ));
            }
            o.push((String::from_str("createdIds"), JsonItem::Obj(ids)));
        },
        None => {},
    }
    o.push((String::from_str("sessionState"), JsonItem::Str(resp.session_state)));
    let r = JsonItem::Obj(o);
    proof {
        let ov = jfields_of_seq(o@);
        let sv = spec_encode_response(rv)->Obj_0;
        assert(ov[0].1 == JsonVal::List(jvals_of_seq(ritemsv)));
        assert(jvals_of_seq(ritemsv) =~= Seq::new(
            rv.method_responses.len(),
            |i: int| spec_encode_result(rv.method_responses[i]),
        ));
        assert(ov[0].1 == sv[0].1);
        match rv.created_ids {
            Some(entv) => {
                assert(ov.len() == 3);
                assert(sv.len() == 3);
                assert(ov[1].1->Obj_0 =~= Seq::new(
                    entv.len(),
                    |i: int| (entv[i].0, JsonVal::Str(entv[i].1)),
                ));
                assert(ov[1].1 == sv[1].1);
            },
            None => {
                assert(ov.len() == 2);
                assert(sv.len() == 2);
            },
        }
        assert(ov =~= sv);
    }
    r
}

/// Reads the optional id-allocation object: absent or `null` means unset,
/// and every value must be a string.
pub open spec fn spec_opt_created_ids(v: Option<JsonVal>) -> Result<
    Option<Seq<(Seq<char>, Seq<char>)>>,
    (),
> {
    match v {
        None => Ok(None),
        Some(JsonVal::Null) => Ok(None),
        Some(JsonVal::Obj(entries)) => if forall|i: int|
            0 <= i < entries.len() ==> ((#[trigger] entries[i]).1) is Str {
            Ok(Some(Seq::new(entries.len(), |i: int| (entries[i].0, entries[i].1->Str_0))))
        } else {
            Err(())
        },
        Some(_) => Err(()),
    }
}

/// What decoding a whole batch request yields: the declared capability set,
/// the calls in order, and the optional id allocations; any shape failure
/// rejects the whole request before dispatch.
pub open spec fn spec_decode_request(v: JsonVal) -> Result<RequestV, EnvelopeErrorV> {
    match v {
        JsonVal::Obj(fields) => match spec_obj_get(fields, "using"@) {
            Some(JsonVal::List(ul)) => match spec_string_list(ul) {
                Ok(using) => match spec_opt_created_ids(spec_obj_get(fields, "createdIds"@)) {
                    Ok(created_ids) => match spec_obj_get(fields, "methodCalls"@) {
                        Some(JsonVal::List(cl)) => match spec_decode_calls(cl) {
                            Ok(calls) => Ok(
                                RequestV { using, method_calls: calls, created_ids },
                            ),
                            Err(e) => Err(e),
                        },
                        _ => Err(EnvelopeErrorV::MalformedRequest),
                    },
                    Err(()) => Err(EnvelopeErrorV::MalformedRequest),
                },
                Err(()) => Err(EnvelopeErrorV::MalformedRequest),
            },
            _ => Err(EnvelopeErrorV::MalformedRequest),
        },
        _ => Err(EnvelopeErrorV::MalformedRequest),
    }
}

fn extract_created_ids(o: Option<&JsonItem>) -> (r: Result<Option<Vec<(String, String)>>, ()>)
    ensures
        match r {
            Ok(ids) => spec_opt_created_ids(spec_opt_item_val(o)) matches Ok(v) && v
                == ids.deep_view(),
            Err(_) => spec_opt_created_ids(spec_opt_item_val(o)) is Err,
        },
{
    broadcast use lemma_vec_fields_deep_view;

    match o {
        None => Ok(None),
        Some(JsonItem::Null) => Ok(None),
        Some(JsonItem::Obj(entries)) => {
            let ghost ev = jfields_of_seq(entries@);
            proof {
                lemma_jfields_of_seq(entries@);
                assert(spec_opt_item_val(o) == Some(JsonVal::Obj(ev)));
            }
            let mut out: Vec<(String, String)> = Vec::new();
            let n = entries.len();
            let mut i: usize = 0;
            while i < n
                invariant
                    i <= n,
                    n == entries@.len(),
                    ev == jfields_of_seq(entries@),
                    spec_opt_item_val(o) == Some(JsonVal::Obj(ev)),
                    ev.len() == n,
                    out@.len() == i,
                    forall|j: int| 0 <= j < i ==> ((#[trigger] ev[j]).1) is Str,
                    forall|j: int|
                        0 <= j < i ==> ((#[trigger] out@[j]).0@ == ev[j].0 && out@[j].1@
                            == ev[j].1->Str_0),
                decreases n - i,
            {
                proof {
                    lemma_jfields_of_seq(entries@);
                }
                match &entries[i].1 {
                    JsonItem::Str(v) => {
                        out.push((entries[i].0.clone(), v.clone()));
                    },
                    _ => {
                        proof {
                            assert(ev[i as int] == (entries@[i as int].0@, jval_of(
                                entries@[i as int].1,
                            )));
                            assert(!(ev[i as int].1 is Str));
                        }
                        return Err(());
                    },
                }
                i = i + 1;
            }
            proof {
                assert(spec_opt_created_ids(spec_opt_item_val(o)) matches Ok(v) && v
                    == Some(out.deep_view())) by {
                    assert(forall|j: int|
                        0 <= j < n ==> (#[trigger] out.deep_view()[j]) == (out@[j].0@,
                        out@[j].1@));
                    assert(Seq::new(ev.len(), |j: int| (ev[j].0, ev[j].1->Str_0))
                        =~= out.deep_view());
                }
            }
            Ok(Some(out))
        },
        Some(_) => Err(()),
    }
}

/// Decodes a whole batch request from its wire object.
pub fn decode_request(item: JsonItem) -> (r: Result<Request, EnvelopeError>)
    ensures
        match r {
            Ok(req) => spec_decode_request(jval_of(item)) matches Ok(v) && v
                == req.deep_view(),
            Err(e) => spec_decode_request(jval_of(item)) matches Err(ev) && ev
                == e.deep_view(),
        },
{
    broadcast use lemma_jvals_of_seq;
    broadcast use lemma_vec_fields_deep_view;
    broadcast use lemma_vec_items_deep_view;

    let ghost iv = jval_of(item);
    let mut fields = match item {
        JsonItem::Obj(o) => o,
        _ => {
            return Err(EnvelopeError::MalformedRequest);
        },
    };
    proof {
        assert(iv == JsonVal::Obj(jfields_of_seq(fields@)));
    }
    let using = match obj_get(&fields, "using") {
        Some(it) => match it {
            JsonItem::List(l) => match extract_string_list(l) {
                Ok(ss) => ss,
                Err(_) => {
                    return Err(EnvelopeError::MalformedRequest);
                },
            },
            _ => {
                return Err(EnvelopeError::MalformedRequest);
            },
        },
        None => {
            return Err(EnvelopeError::MalformedRequest);
        },
    };
    let created_ids = match extract_created_ids(obj_get(&fields, "createdIds")) {
        Ok(v) => v,
        Err(_) => {
            return Err(EnvelopeError::MalformedRequest);
        },
    };
    let calls_item = match obj_take(&mut fields, "methodCalls") {
        Some(v) => v,
        None => {
            return Err(EnvelopeError::MalformedRequest);
        },
    };
    let calls_vec = match calls_item {
        JsonItem::List(l) => l,
        _ => {
            return Err(EnvelopeError::MalformedRequest);
        },
    };
    let method_calls = match decode_method_calls(calls_vec) {
        Ok(cs) => cs,
        Err(e) => {
            return Err(e);
        },
    };
    Ok(Request { using, method_calls, created_ids })
}

} // verus!
