//! The protocol layer: envelope codec, method catalog and dispatch engine.
//!
//! Dispatch works through an explicit engine: the surrounding server feeds it
//! a decoded batch, performs the backend operations it asks for, and collects
//! the response. Backend failures are scoped to the call that needed the
//! backend — the rest of the batch still runs — and the response sequence
//! always mirrors the request sequence one to one, in order.

use vstd::prelude::*;
use vstd::string::*;

pub mod mailbox;
pub mod method;
pub mod rfc8620;

use crate::jmap::mailbox::{spec_stub_mailbox, Mailbox};
use crate::jmap::method::{
    Method, MethodCall, MethodCallResult, MethodCallResultV, MethodCallV, MethodResult,
    MethodResultV, MethodV, Reponse,
};

verus! {

/// The protocol engine's binding to the caller's session: dispatch borrows
/// the session's cached backend connection through it.
pub struct JmapApi {
    session_id: String,
}

impl JmapApi {
    pub closed spec fn view(&self) -> Seq<char> {
        self.session_id@
    }

    pub fn new(session_id: String) -> (r: JmapApi)
        ensures
            r@ == session_id@,
    {
        JmapApi { session_id }
    }

    /// The session whose backend connection dispatch uses.
    pub fn session_id(&self) -> (r: &String)
        ensures
            r@ == self@,
    {
        &self.session_id
    }
}

/// What the engine asks the surrounding server to do next.
#[derive(Debug, PartialEq, Eq, Clone, Copy)]
pub enum DispatchAction {
    /// Every call is answered; the response can be collected.
    Done,
    /// One call was answered without backend help; step again.
    Answered,
    /// The current call needs the backend's full mailbox listing, through
    /// the session's connection.
    ListMailboxes,
}

/// What came back from the backend's mailbox listing.
#[derive(Debug, PartialEq)]
pub enum MailboxListOutcome {
    /// The mailbox names the backend reported.
    Listed(Vec<String>),
    /// The listing failed; the call it served fails, the batch goes on.
    Failed,
}

/// The mathematical value of a listing outcome.
#[verifier::ext_equal]
pub enum MailboxListOutcomeV {
    Listed(Seq<Seq<char>>),
    Failed,
}

impl DeepView for MailboxListOutcome {
    type V = MailboxListOutcomeV;

    open spec fn deep_view(&self) -> MailboxListOutcomeV {
        match self {
            MailboxListOutcome::Listed(names) => MailboxListOutcomeV::Listed(names.deep_view()),
            MailboxListOutcome::Failed => MailboxListOutcomeV::Failed,
        }
    }
}

/// The result a call gets without backend help: an echo answers itself, and
/// an id-filtered mailbox listing fails alone with `notImplemented` (selecting
/// mailboxes by id is out of scope) rather than aborting the batch. A
/// mailbox listing without an id filter needs the backend: `None`.
pub open spec fn spec_immediate_result(c: MethodCallV) -> Option<MethodCallResultV> {
    match c.method {
        MethodV::CoreEcho(fields) => Some(
            MethodCallResultV {
                method_result: MethodResultV::CoreEcho(fields),
                call_id: c.call_id,
            },
        ),
        MethodV::MailboxGet { ids, .. } => match ids {
            Some(_) => Some(
                MethodCallResultV {
                    method_result: (MethodResultV::Error {
                        error_type: "notImplemented"@,
                    }),
                    call_id: c.call_id,
                },
            ),
            None => None,
        },
    }
}

/// The result of a backend-assisted mailbox listing: the reported names as
/// stub mailboxes on success, a `serverFail` call failure otherwise.
pub open spec fn spec_backend_result(
    c: MethodCallV,
    o: MailboxListOutcomeV,
) -> MethodCallResultV {
    match o {
        MailboxListOutcomeV::Listed(names) => MethodCallResultV {
            method_result: (MethodResultV::MailboxGet {
                account_id: c.method->MailboxGet_account_id,
                state: Seq::empty(),
                list: Seq::new(names.len(), |i: int| spec_stub_mailbox(names[i])),
                not_found: Seq::empty(),
            }),
            call_id: c.call_id,
        },
        MailboxListOutcomeV::Failed => MethodCallResultV {
            method_result: (MethodResultV::Error { error_type: "serverFail"@ }),
            call_id: c.call_id,
        },
    }
}

/// The dispatch engine for one batch: it answers calls in request order,
/// pausing whenever a call needs the backend.
pub struct Dispatch {
    pending: Vec<MethodCall>,
    responses: Vec<MethodCallResult>,
    awaiting: Option<MethodCall>,
    history: Ghost<Seq<MethodCallV>>,
}

impl Dispatch {
    /// The batch being dispatched, in request order.
    pub closed spec fn calls(&self) -> Seq<MethodCallV> {
        self.history@
    }

    /// The responses produced so far, in request order.
    pub closed spec fn responses_view(&self) -> Seq<MethodCallResultV> {
        self.responses.deep_view()
    }

    /// Whether the engine waits for a backend listing.
    pub closed spec fn awaiting_backend(&self) -> bool {
        self.awaiting is Some
    }

    /// Whether every call of the batch is answered.
    pub closed spec fn done(&self) -> bool {
        self.pending@.len() == 0 && self.awaiting is None
    }

    /// The engine's internal consistency: responses answer the batch prefix,
    /// each echoing its call's id; what waits or is still pending lines up
    /// with the rest of the batch in order.
    pub closed spec fn wf(&self) -> bool {
        &&& self.responses.deep_view().len() + (if self.awaiting is Some {
            1int
        } else {
            0int
        }) + self.pending@.len() == self.history@.len()
        &&& forall|k: int|
            0 <= k < self.responses.deep_view().len() ==> (
            #[trigger] self.responses.deep_view()[k]).call_id == self.history@[k].call_id
        &&& (match self.awaiting {
            Some(c) => c.deep_view() == self.history@[self.responses.deep_view().len() as int]
                && spec_immediate_result(c.deep_view()) is None,
            None => true,
        })
        &&& forall|k: int|
            0 <= k < self.pending@.len() ==> (#[trigger] self.pending@[k]).deep_view()
                == self.history@[self.history@.len() - 1 - k]
    }

    /// An engine holding the batch, nothing answered yet.
    #[verifier::loop_isolation(false)]
    pub fn new(calls: Vec<MethodCall>) -> (r: Dispatch)
        ensures
            r.wf(),
            r.calls() == calls.deep_view(),
            r.responses_view().len() == 0,
            !r.awaiting_backend(),
    {
        let ghost h = calls.deep_view();
        let mut src = calls;
        let mut pending: Vec<MethodCall> = Vec::new();
        while src.len() > 0
            invariant
                src@.len() + pending@.len() == h.len(),
                forall|k: int| 0 <= k < src@.len() ==> (#[trigger] src@[k]).deep_view() == h[k],
                forall|j: int|
                    0 <= j < pending@.len() ==> (#[trigger] pending@[j]).deep_view() == h[h.len()
                        - 1 - j],
            decreases src@.len(),
        {
            let ghost sp = src@;
            let c = src.pop().unwrap();
            proof {
                assert(c.deep_view() == h[sp.len() - 1]);
            }
            pending.push(c);
        }
        Dispatch { pending, responses: Vec::new(), awaiting: None, history: Ghost(h) }
    }

    /// Answers the next call of the batch: an echo or an id-filtered
    /// mailbox listing gets its immediate result, a plain mailbox listing
    /// suspends the engine until the backend's listing is supplied.
    pub fn step(&mut self) -> (a: DispatchAction)
        requires
            old(self).wf(),
            !old(self).awaiting_backend(),
        ensures
            final(self).wf(),
            final(self).calls() == old(self).calls(),
            match a {
                DispatchAction::Done => *final(self) == *old(self) && final(self).done()
                    && final(self).responses_view().len() == final(self).calls().len(),
                DispatchAction::Answered => !final(self).awaiting_backend() && (
                spec_immediate_result(
                    old(self).calls()[old(self).responses_view().len() as int],
                ) matches Some(res) && final(self).responses_view() =~~= old(
                    self,
                ).responses_view().push(res)),
                DispatchAction::ListMailboxes => final(self).awaiting_backend()
                    && final(self).responses_view() == old(self).responses_view()
                    && final(self).responses_view().len() < final(self).calls().len()
                    && spec_immediate_result(
                    final(self).calls()[final(self).responses_view().len() as int],
                ) is None,
            },
    {
        proof {
            reveal_strlit("notImplemented");
        }
        let ghost rlen = self.responses.deep_view().len();
        let ghost prev_resp = self.responses.deep_view();
        if self.pending.len() == 0 {
            return DispatchAction::Done;
        }
        let next = self.pending.pop().unwrap();
        let ghost next_view = next.deep_view();
        proof {
            assert(next_view == self.history@[rlen as int]);
        }
        let needs_backend = match &next.method {
            Method::MailboxGet { ids: None, .. } => true,
            _ => false,
        };
        if needs_backend {
            self.awaiting = Some(next);
            return DispatchAction::ListMailboxes;
        }
        let call_id = next.call_id;
        match next.method {
            Method::CoreEcho(fields) => {
                self.responses.push(
                    MethodCallResult {
                        method_result: MethodResult::CoreEcho(fields),
                        call_id,
                    },
                );
            },
            Method::MailboxGet { .. } => {
                self.responses.push(
                    MethodCallResult {
                        method_result: (MethodResult::Error {
                            error_type: String::from_str("notImplemented"),
                        }),
                        call_id,
                    },
                );
            },
        }
        proof {
            assert(self.responses.deep_view().len() == rlen + 1);
            assert(forall|k: int|
                0 <= k < rlen ==> (#[trigger] self.responses.deep_view()[k]) == prev_resp[k]);
            assert(spec_immediate_result(next_view) matches Some(res)
                && self.responses.deep_view()[rlen as int] =~~= res);
            assert(spec_immediate_result(next_view) matches Some(res)
                && self.responses.deep_view() =~~= prev_resp.push(res));
        }
        DispatchAction::Answered
    }

    /// Answers the waiting mailbox-listing call with the backend's outcome:
    /// the reported names as stub mailboxes, or a `serverFail` call failure.
    /// The batch is not aborted either way.
    #[verifier::loop_isolation(false)]
    pub fn supply_mailbox_list(&mut self, outcome: MailboxListOutcome)
        requires
            old(self).wf(),
            old(self).awaiting_backend(),
        ensures
            final(self).wf(),
            !final(self).awaiting_backend(),
            final(self).calls() == old(self).calls(),
            final(self).responses_view() =~~= old(self).responses_view().push(
                spec_backend_result(
                    old(self).calls()[old(self).responses_view().len() as int],
                    outcome.deep_view(),
                ),
            ),
    {
        proof {
            reveal_strlit("serverFail");
        }
        let ghost cv = self.awaiting->Some_0.deep_view();
        let ghost prev_resp = self.responses.deep_view();
        let mut aw: Option<MethodCall> = None;
        core::mem::swap(&mut aw, &mut self.awaiting);
        let call = match aw {
            Some(c) => c,
            None => {
                proof {
                    assert(false);
                }
                return ;
            },
        };
        let call_id = call.call_id;
        match call.method {
            Method::CoreEcho(_) => {
                proof {
                    assert(false);
                }
            },
            Method::MailboxGet { account_id, .. } => {
                match outcome {
                    MailboxListOutcome::Listed(names) => {
                        let ghost namesv = names.deep_view();
                        let mut rest = names;
                        let mut list: Vec<Mailbox> = Vec::new();
                        while rest.len() > 0
                            invariant
                                list@.len() + rest@.len() == namesv.len(),
                                forall|j: int|
                                    0 <= j < list@.len() ==> (#[trigger] list@[j]).deep_view()
                                        == spec_stub_mailbox(namesv[j]),
                                forall|k: int|
                                    0 <= k < rest@.len() ==> (#[trigger] rest@[k])@
                                        == namesv[list@.len() + k],
                            decreases rest@.len(),
                        {
                            let ghost pv = rest@;
                            let name = rest.remove(0);
                            proof {
                                assert(rest@ =~= pv.drop_first());
                            }
                            list.push(Mailbox::stub(name));
                        }
                        proof {
                            assert(list.deep_view() =~= Seq::new(
                                namesv.len(),
                                |i: int| spec_stub_mailbox(namesv[i]),
                            ));
                        }
                        self.responses.push(
                            MethodCallResult {
                                method_result: (MethodResult::MailboxGet {
                                    account_id,
                                    state: String::new(),
                                    list,
                                    not_found: Vec::new(),
                                }),
                                call_id,
                            },
                        );
                    },
                    MailboxListOutcome::Failed => {
                        self.responses.push(
                            MethodCallResult {
                                method_result: (MethodResult::Error {
                                    error_type: String::from_str("serverFail"),
                                }),
                                call_id,
                            },
                        );
                    },
                }
            },
        }
        proof {
            assert(self.responses.deep_view() =~= prev_resp.push(
                self.responses.deep_view().last(),
            ));
            assert(self.responses.deep_view().last() =~~= spec_backend_result(
                cv,
                outcome.deep_view(),
            ));
        }
    }

    /// The batch response: one result per call, in request order, each
    /// carrying its call's id verbatim; the state token is empty and no ids
    /// were allocated.
    pub fn into_response(self) -> (r: Reponse)
        requires
            self.wf(),
            self.done(),
        ensures
            r.deep_view().method_responses.len() == self.calls().len(),
            forall|k: int|
                0 <= k < self.calls().len() ==> (
                #[trigger] r.deep_view().method_responses[k]).call_id
                    == self.calls()[k].call_id,
            r.deep_view().method_responses == self.responses_view(),
            r.deep_view().created_ids is None,
            r.deep_view().session_state == Seq::<char>::empty(),
    {
        Reponse {
            method_responses: self.responses,
            created_ids: None,
            session_state: String::new(),
        }
    }
}

} // verus!
