//! The capturing proxy: it hands matching requests on to an upstream service,
//! records what came back, and keeps the record for a later replay.
//!
//! The call to the upstream is not made here. [`Gateway::upstream_call`] says
//! which call to make, and [`Gateway::settle`] takes what came back;
//! [`Gateway::run_mock`] does both around a function that makes the call.

use crate::json;
use crate::json::parsed_json;
use crate::mocks::replay::{lemma_capture_then_replay, replay_answer, replay_views};
use crate::models::{
    body_view, text_view, BodyView, DynamicBody, Method, Replay, ReplayView, Request, RequestView,
};
use crate::text::{strip_prefix, utf8_text};
use serde_json::Value;
use vstd::prelude::*;
use vstd::string::StringExecFns;
use vstd::string::StringSliceAdditionalSpecFns;
use vstd::utf8::{decode_utf8, encode_utf8_decode_utf8, valid_utf8};

verus! {

/// The seconds an upstream is given to answer.
pub const UPSTREAM_TIMEOUT_SECS: u64 = 300;

/// Whether the gateway hands requests of this method on.
pub open spec fn forwarded(method: Method) -> bool {
    match method {
        Method::Post | Method::Put | Method::Get | Method::Delete | Method::Head | Method::Patch => true,
        Method::Trace | Method::Connect | Method::Options | Method::Other => false,
    }
}

/// The address to call: the upstream base, the path without the gateway's
/// prefix, and the raw query string behind a question mark.
pub open spec fn upstream_uri(
    base: Seq<char>,
    prefix: Seq<char>,
    path: Seq<char>,
    queries: Option<Seq<char>>,
) -> Seq<char> {
    base + path.skip(prefix.len() as int) + match queries {
        Some(queries) => "?"@ + queries,
        None => Seq::empty(),
    }
}

/// The content type that goes with a body, if it needs one.
pub open spec fn content_type_of(body: Option<BodyView>) -> Option<Seq<char>> {
    match body {
        Some(BodyView::Json(_)) => Some("application/json"@),
        _ => None,
    }
}

/// The body that a payload is taken for: a JSON document if it reads as one,
/// else text if it is valid UTF-8, else the raw bytes.
pub open spec fn sniffed(payload: Seq<u8>) -> BodyView {
    classified(parsed_json(payload), payload)
}

/// The body for a payload, given what reading it as JSON gave.
pub open spec fn classified(document: Option<Value>, payload: Seq<u8>) -> BodyView {
    match document {
        Some(document) => BodyView::Json(document),
        None => if valid_utf8(payload) {
            BodyView::Text(decode_utf8(payload))
        } else {
            BodyView::Bytes(payload)
        },
    }
}

/// Whether an upstream status counts as an answer.
pub open spec fn is_success(status: u16) -> bool {
    200 <= status < 300
}

/// A call to make to the upstream.
#[derive(Debug, PartialEq)]
pub struct UpstreamCall {
    /// The method of the call.
    pub method: Method,
    /// The full address, query string included.
    pub uri: String,
    /// The content type header to send, if any.
    pub content_type: Option<String>,
    /// The payload, if any.
    pub body: Option<DynamicBody>,
    /// The seconds after which the call is given up.
    pub timeout_secs: u64,
}

/// What came of a call to the upstream.
#[derive(Debug, PartialEq)]
pub enum UpstreamReply {
    /// The call did not complete, or its payload could not be read.
    Failed,
    /// The upstream answered.
    Response {
        /// The status code.
        status: u16,
        /// The payload as it came.
        payload: Vec<u8>,
    },
}

/// What a gateway writes when it is retired.
#[derive(Debug, PartialEq)]
pub struct CaptureFile {
    /// Where to write.
    pub path: String,
    /// The exchanges to write, in the order they were captured.
    pub replays: Vec<Replay>,
}

/// Decides the body that `payload` is taken for, given the document that
/// reading it as JSON gave.
pub fn classify(document: Option<Value>, payload: Vec<u8>) -> (body: DynamicBody)
    ensures
        body@ == classified(document, payload@),
{
    match document {
        Some(document) => DynamicBody::Json(document),
        None => {
            let text = match utf8_text(payload.as_slice()) {
                Some(text) => Some(text.to_owned()),
                None => None,
            };
            match text {
                Some(text) => {
                    proof {
                        encode_utf8_decode_utf8(text@);
                    }
                    DynamicBody::Text(text)
                },
                None => DynamicBody::Bytes(payload),
            }
        },
    }
}

/// Decides the body that `payload` is taken for.
pub fn sniff(payload: Vec<u8>) -> (body: DynamicBody)
    ensures
        body@ == sniffed(payload@),
{
    let document = json::parse(&payload);
    classify(document, payload)
}

/// A proxy for the requests under one path prefix, with the exchanges it has
/// captured.
pub struct Gateway {
    path: String,
    uri: String,
    file: Option<String>,
    replays: Vec<Replay>,
}

impl Gateway {
    /// The path prefix the gateway is responsible for.
    pub closed spec fn prefix(&self) -> Seq<char> {
        self.path@
    }

    /// The base address of the upstream.
    pub closed spec fn upstream(&self) -> Seq<char> {
        self.uri@
    }

    /// Where the captured exchanges go when the gateway is retired.
    pub closed spec fn output(&self) -> Option<Seq<char>> {
        match self.file {
            Some(file) => Some(file@),
            None => None,
        }
    }

    /// The exchanges captured so far, oldest first.
    pub closed spec fn captured(&self) -> Seq<ReplayView> {
        replay_views(self.replays@)
    }

    /// Whether the gateway hands `request` on to the upstream.
    pub open spec fn takes(&self, request: RequestView) -> bool {
        self.prefix().is_prefix_of(request.path) && forwarded(request.method)
    }

    /// A gateway for the paths under `path`, in front of `uri`, that writes
    /// nothing when it is retired.
    pub fn new(path: &str, uri: &str) -> (gateway: Box<Self>)
        ensures
            gateway.prefix() == path@,
            gateway.upstream() == uri@,
            gateway.output() == None::<Seq<char>>,
            gateway.captured() == Seq::<ReplayView>::empty(),
    {
        let gateway = Self {
            path: path.to_owned(),
            uri: uri.to_owned(),
            file: None,
            replays: Vec::new(),
        };
        assert(gateway.captured() =~= Seq::<ReplayView>::empty());
        Box::new(gateway)
    }

    /// A gateway for the paths under `path`, in front of `uri`, that writes
    /// what it captured to `file` when it is retired.
    pub fn new_replay(path: &str, uri: &str, file: &str) -> (gateway: Box<Self>)
        ensures
            gateway.prefix() == path@,
            gateway.upstream() == uri@,
            gateway.output() == Some(file@),
            gateway.captured() == Seq::<ReplayView>::empty(),
    {
        let gateway = Self {
            path: path.to_owned(),
            uri: uri.to_owned(),
            file: Some(file.to_owned()),
            replays: Vec::new(),
        };
        assert(gateway.captured() =~= Seq::<ReplayView>::empty());
        Box::new(gateway)
    }

    /// Whether `call` is the call to make for `request`: the request's method
    /// and body, sent to the upstream address that stands for its path.
    pub open spec fn plans(&self, request: RequestView, call: UpstreamCall) -> bool {
        &&& call.method == request.method
        &&& call.uri@ == upstream_uri(self.upstream(), self.prefix(), request.path, request.queries)
        &&& text_view(call.content_type) == content_type_of(request.body)
        &&& body_view(call.body) == request.body
        &&& call.timeout_secs == UPSTREAM_TIMEOUT_SECS
    }

    /// What the gateway makes of `reply`: the sniffed payload of a response
    /// with a status of success, and nothing of anything else.
    pub open spec fn answer_to(reply: UpstreamReply) -> Option<BodyView> {
        match reply {
            UpstreamReply::Response { status, payload } if is_success(status) => Some(
                sniffed(payload@),
            ),
            _ => None,
        }
    }

    /// What the gateway has captured once the call made for `request` came
    /// back with `reply`: an answer is recorded behind what was there.
    pub open spec fn captured_after(
        captured: Seq<ReplayView>,
        request: RequestView,
        reply: UpstreamReply,
    ) -> Seq<ReplayView> {
        match Self::answer_to(reply) {
            Some(answer) => captured.push(ReplayView { pattern: request, answer }),
            None => captured,
        }
    }

    /// Decides the call to make for `request`: none if its path is not under
    /// the gateway's prefix or its method is not handed on.
    pub fn upstream_call(&self, request: &Request) -> (call: Option<UpstreamCall>)
        ensures
            call is Some <==> self.takes(request@),
            call matches Some(call) ==> self.plans(request@, call),
    {
        let rest = match strip_prefix(request.path.as_str(), self.path.as_str()) {
            Some(rest) => rest,
            None => {
                return None;
            },
        };
        assert(self.path@.is_prefix_of(request.path@));
        assert(rest@ =~= request.path@.skip(self.path@.len() as int));
        match request.method {
            Method::Trace | Method::Connect | Method::Options | Method::Other => {
                return None;
            },
            _ => {},
        }
        let mut uri = self.uri.clone();
        uri.append(rest);
        match &request.queries {
            Some(queries) => {
                uri.append("?");
                uri.append(queries.as_str());
            },
            None => {},
        }
        assert(uri@ =~= upstream_uri(self.uri@, self.path@, request.path@, request@.queries));
        let content_type = match &request.body {
            Some(DynamicBody::Json(_)) => Some("application/json".to_owned()),
            _ => None,
        };
        let body = match &request.body {
            Some(body) => Some(body.clone()),
            None => None,
        };
        Some(
            UpstreamCall {
                method: request.method,
                uri,
                content_type,
                body,
                timeout_secs: UPSTREAM_TIMEOUT_SECS,
            },
        )
    }

    /// Whether nothing captured so far matches `request`.
    pub open spec fn unseen(&self, request: RequestView) -> bool {
        forall|at: int|
            0 <= at < self.captured().len() ==> !(#[trigger] self.captured()[at]).matches(request)
    }

    /// Takes what came of the call made for `request`. A response with a
    /// status of success is sniffed, recorded behind the earlier captures and
    /// returned; anything else is declined and leaves no trace. An answer to
    /// a request that nothing captured before matches is the answer that a
    /// replay of the captures gives to the same request.
    pub fn settle(&mut self, request: &Request, reply: UpstreamReply) -> (answer: Option<DynamicBody>)
        ensures
            final(self).prefix() == old(self).prefix(),
            final(self).upstream() == old(self).upstream(),
            final(self).output() == old(self).output(),
            body_view(answer) == Self::answer_to(reply),
            final(self).captured() == Self::captured_after(old(self).captured(), request@, reply),
            answer is Some && old(self).unseen(request@) ==> replay_answer(
                final(self).captured(),
                request@,
            ) == body_view(answer),
    {
        proof {
            if Self::answer_to(reply) is Some && self.unseen(request@) {
                lemma_capture_then_replay(self.captured(), request@, Self::answer_to(reply)->0);
            }
        }
        match reply {
            UpstreamReply::Failed => None,
            UpstreamReply::Response { status, payload } => {
                if status < 200 || status >= 300 {
                    return None;
                }
                let body = sniff(payload);
                let ghost before = self.replays@;
                self.replays.push(Replay { when: request.clone(), then: body.clone() });
                assert(replay_views(self.replays@) =~= replay_views(before).push(
                    ReplayView { pattern: request@, answer: body@ },
                ));
                Some(body)
            },
        }
    }

    /// Answers `request` through `upstream`, which makes the call. A request
    /// that the gateway does not take is declined without a call; for one
    /// that it takes, the call is made once and what comes back is settled.
    pub fn run_mock<U: FnOnce(UpstreamCall) -> UpstreamReply>(
        &mut self,
        request: &Request,
        upstream: U,
    ) -> (answer: Option<DynamicBody>)
        requires
            forall|call: UpstreamCall|
                old(self).plans(request@, call) ==> call_requires(upstream, (call,)),
        ensures
            final(self).prefix() == old(self).prefix(),
            final(self).upstream() == old(self).upstream(),
            final(self).output() == old(self).output(),
            !old(self).takes(request@) ==> answer is None && final(self).captured() == old(
                self,
            ).captured(),
            old(self).takes(request@) ==> exists|call: UpstreamCall, reply: UpstreamReply|
                {
                    &&& old(self).plans(request@, call)
                    &&& call_ensures(upstream, (call,), reply)
                    &&& body_view(answer) == Self::answer_to(reply)
                    &&& final(self).captured() == Self::captured_after(
                        old(self).captured(),
                        request@,
                        reply,
                    )
                },
    {
        let call = match self.upstream_call(request) {
            Some(call) => call,
            None => {
                return None;
            },
        };
        let reply = upstream(call);
        let ghost taken = reply;
        let answer = self.settle(request, reply);
        assert(old(self).plans(request@, call) && call_ensures(upstream, (call,), taken));
        answer
    }

    /// Decides what to write when the gateway is retired: the captured
    /// exchanges, if there is a place to write them to and at least one of
    /// them.
    pub fn flush(&self) -> (capture: Option<CaptureFile>)
        ensures
            capture is Some <==> self.output() is Some && self.captured().len() > 0,
            capture matches Some(capture) ==> {
                &&& Some(capture.path@) == self.output()
                &&& replay_views(capture.replays@) == self.captured()
            },
    {
        let path = match &self.file {
            Some(file) => file.clone(),
            None => {
                return None;
            },
        };
        if self.replays.len() == 0 {
            return None;
        }
        let mut replays: Vec<Replay> = Vec::new();
        let mut at: usize = 0;
        while at < self.replays.len()
            invariant
                at <= self.replays.len(),
                replays.len() == at,
                forall|i: int| 0 <= i < at ==> replays@[i]@ == self.replays@[i]@,
            decreases self.replays.len() - at,
        {
            replays.push(self.replays[at].clone());
            at += 1;
        }
        assert(replay_views(replays@) =~= replay_views(self.replays@));
        Some(CaptureFile { path, replays })
    }
}

} // verus!
