//! The canonical request and response model, and the rules by which a recorded
//! request pattern matches a live request.

use crate::json;
use crate::json::json_includes;
use crate::text::same_str;
use serde_json::Value;
use vstd::prelude::*;
use vstd::std_specs::convert::FromSpecImpl;

verus! {

/// The request methods the model distinguishes.
#[derive(Debug, Clone, Copy, PartialEq, Eq, Structural)]
pub enum Method {
    /// POST
    Post,
    /// PUT
    Put,
    /// GET
    Get,
    /// DELETE
    Delete,
    /// TRACE
    Trace,
    /// HEAD
    Head,
    /// CONNECT
    Connect,
    /// PATCH
    Patch,
    /// OPTIONS
    Options,
    /// Any method the model has no name for.
    Other,
}

impl Method {
    /// The method's name on the wire. `Other` has none.
    pub open spec fn wire_name(self) -> Seq<char> {
        match self {
            Method::Post => "POST"@,
            Method::Put => "PUT"@,
            Method::Get => "GET"@,
            Method::Delete => "DELETE"@,
            Method::Trace => "TRACE"@,
            Method::Head => "HEAD"@,
            Method::Connect => "CONNECT"@,
            Method::Patch => "PATCH"@,
            Method::Options => "OPTIONS"@,
            Method::Other => Seq::empty(),
        }
    }

    /// The method that a name on the wire stands for: `Other` for a name
    /// that is none of the nine.
    pub open spec fn named(name: Seq<char>) -> Method {
        if name == "POST"@ {
            Method::Post
        } else if name == "PUT"@ {
            Method::Put
        } else if name == "GET"@ {
            Method::Get
        } else if name == "DELETE"@ {
            Method::Delete
        } else if name == "TRACE"@ {
            Method::Trace
        } else if name == "HEAD"@ {
            Method::Head
        } else if name == "CONNECT"@ {
            Method::Connect
        } else if name == "PATCH"@ {
            Method::Patch
        } else if name == "OPTIONS"@ {
            Method::Options
        } else {
            Method::Other
        }
    }

    /// Reads a method from its name on the wire.
    pub fn from_method_string(name: &str) -> (method: Method)
        ensures
            method == Method::named(name@),
    {
        if same_str(name, "POST") {
            Method::Post
        } else if same_str(name, "PUT") {
            Method::Put
        } else if same_str(name, "GET") {
            Method::Get
        } else if same_str(name, "DELETE") {
            Method::Delete
        } else if same_str(name, "TRACE") {
            Method::Trace
        } else if same_str(name, "HEAD") {
            Method::Head
        } else if same_str(name, "CONNECT") {
            Method::Connect
        } else if same_str(name, "PATCH") {
            Method::Patch
        } else if same_str(name, "OPTIONS") {
            Method::Options
        } else {
            Method::Other
        }
    }

    /// Returns the method as it is written on the wire.
    pub fn as_method_string(&self) -> (name: String)
        requires
            *self != Method::Other,
        ensures
            name@ == self.wire_name(),
    {
        match self {
            Method::Post => "POST".to_owned(),
            Method::Put => "PUT".to_owned(),
            Method::Get => "GET".to_owned(),
            Method::Delete => "DELETE".to_owned(),
            Method::Trace => "TRACE".to_owned(),
            Method::Head => "HEAD".to_owned(),
            Method::Connect => "CONNECT".to_owned(),
            Method::Patch => "PATCH".to_owned(),
            Method::Options => "OPTIONS".to_owned(),
            Method::Other => String::new(),
        }
    }
}

/// Reading a method's wire name gives the method back.
pub proof fn lemma_wire_name_round_trip(method: Method)
    requires
        method != Method::Other,
    ensures
        Method::named(method.wire_name()) == method,
{
    reveal_strlit("POST");
    reveal_strlit("PUT");
    reveal_strlit("GET");
    reveal_strlit("DELETE");
    reveal_strlit("TRACE");
    reveal_strlit("HEAD");
    reveal_strlit("CONNECT");
    reveal_strlit("PATCH");
    reveal_strlit("OPTIONS");
    assert("POST"@[1] == 'O');
    assert("PUT"@[1] == 'U');
    assert("GET"@[0] == 'G');
    assert("DELETE"@[0] == 'D');
    assert("TRACE"@[0] == 'T');
    assert("HEAD"@[0] == 'H');
    assert("CONNECT"@[0] == 'C');
    assert("PATCH"@[1] == 'A');
    assert("OPTIONS"@[0] == 'O');
}

/// A request or response body: text, raw bytes or a JSON document.
#[derive(Debug, PartialEq)]
pub enum DynamicBody {
    /// A text body.
    Text(String),
    /// A body of raw bytes.
    Bytes(Vec<u8>),
    /// A JSON document.
    Json(Value),
}

/// What a body holds.
pub enum BodyView {
    /// The characters of a text body.
    Text(Seq<char>),
    /// The bytes of a raw body.
    Bytes(Seq<u8>),
    /// The document of a JSON body.
    Json(Value),
}

impl BodyView {
    /// Whether this body, taken as the actual one, satisfies `pattern`: both
    /// are of one variant, and a JSON document includes the pattern's while
    /// text and bytes equal it.
    pub open spec fn includes(self, pattern: BodyView) -> bool {
        match pattern {
            BodyView::Text(expected) => self == BodyView::Text(expected),
            BodyView::Bytes(expected) => self == BodyView::Bytes(expected),
            BodyView::Json(expected) => self matches BodyView::Json(actual) && json_includes(
                actual,
                expected,
            ),
        }
    }
}

impl View for DynamicBody {
    type V = BodyView;

    open spec fn view(&self) -> BodyView {
        match self {
            DynamicBody::Text(text) => BodyView::Text(text@),
            DynamicBody::Bytes(bytes) => BodyView::Bytes(bytes@),
            DynamicBody::Json(document) => BodyView::Json(*document),
        }
    }
}

impl Clone for DynamicBody {
    fn clone(&self) -> (copy: DynamicBody)
        ensures
            copy@ == self@,
    {
        match self {
            DynamicBody::Text(text) => DynamicBody::Text(text.clone()),
            DynamicBody::Bytes(bytes) => DynamicBody::Bytes(bytes.clone()),
            DynamicBody::Json(document) => DynamicBody::Json(json::duplicate(document)),
        }
    }
}

impl From<Value> for DynamicBody {
    fn from(value: Value) -> (body: DynamicBody)
        ensures
            body == DynamicBody::Json(value),
    {
        DynamicBody::Json(value)
    }
}

impl FromSpecImpl<Value> for DynamicBody {
    open spec fn obeys_from_spec() -> bool {
        true
    }

    open spec fn from_spec(value: Value) -> DynamicBody {
        DynamicBody::Json(value)
    }
}

impl From<Vec<u8>> for DynamicBody {
    fn from(value: Vec<u8>) -> (body: DynamicBody)
        ensures
            body == DynamicBody::Bytes(value),
    {
        DynamicBody::Bytes(value)
    }
}

impl FromSpecImpl<Vec<u8>> for DynamicBody {
    open spec fn obeys_from_spec() -> bool {
        true
    }

    open spec fn from_spec(value: Vec<u8>) -> DynamicBody {
        DynamicBody::Bytes(value)
    }
}

impl From<&str> for DynamicBody {
    fn from(value: &str) -> (body: DynamicBody)
        ensures
            body@ == BodyView::Text(value@),
    {
        DynamicBody::Text(value.to_owned())
    }
}

impl FromSpecImpl<&str> for DynamicBody {
    open spec fn obeys_from_spec() -> bool {
        false
    }

    open spec fn from_spec(value: &str) -> DynamicBody {
        arbitrary()
    }
}

impl From<String> for DynamicBody {
    fn from(value: String) -> (body: DynamicBody)
        ensures
            body == DynamicBody::Text(value),
    {
        DynamicBody::Text(value)
    }
}

impl FromSpecImpl<String> for DynamicBody {
    open spec fn obeys_from_spec() -> bool {
        true
    }

    open spec fn from_spec(value: String) -> DynamicBody {
        DynamicBody::Text(value)
    }
}

impl DynamicBody {
    /// Decides whether this body, taken as the actual one, satisfies `pattern`.
    pub fn includes(&self, pattern: &DynamicBody) -> (included: bool)
        ensures
            included == self@.includes(pattern@),
    {
        match pattern {
            DynamicBody::Text(expected) => match self {
                DynamicBody::Text(actual) => *actual == *expected,
                _ => false,
            },
            DynamicBody::Bytes(expected) => match self {
                DynamicBody::Bytes(actual) => same_bytes(actual, expected),
                _ => false,
            },
            DynamicBody::Json(expected) => match self {
                DynamicBody::Json(actual) => json::includes(actual, expected),
                _ => false,
            },
        }
    }
}

/// Decides whether two byte strings are equal.
pub fn same_bytes(left: &Vec<u8>, right: &Vec<u8>) -> (same: bool)
    ensures
        same == (left@ == right@),
{
    if left.len() != right.len() {
        return false;
    }
    let mut at: usize = 0;
    while at < left.len()
        invariant
            at <= left.len(),
            left.len() == right.len(),
            forall|i: int| 0 <= i < at ==> left@[i] == right@[i],
        decreases left.len() - at,
    {
        if left[at] != right[at] {
            return false;
        }
        at += 1;
    }
    assert(left@ =~= right@);
    true
}

/// What an optional body holds.
pub open spec fn body_view(body: Option<DynamicBody>) -> Option<BodyView> {
    match body {
        Some(body) => Some(body@),
        None => None,
    }
}

/// What an optional text holds.
pub open spec fn text_view(text: Option<String>) -> Option<Seq<char>> {
    match text {
        Some(text) => Some(text@),
        None => None,
    }
}

/// A request as the responders see it.
#[derive(Debug, PartialEq)]
pub struct Request {
    /// The full path.
    pub path: String,
    /// The raw query string, if there is one.
    pub queries: Option<String>,
    /// The method.
    pub method: Method,
    /// The body, if there is one.
    pub body: Option<DynamicBody>,
}

/// What a request holds.
pub struct RequestView {
    /// The characters of the path.
    pub path: Seq<char>,
    /// The characters of the raw query string.
    pub queries: Option<Seq<char>>,
    /// The method.
    pub method: Method,
    /// The body.
    pub body: Option<BodyView>,
}

impl View for Request {
    type V = RequestView;

    open spec fn view(&self) -> RequestView {
        RequestView {
            path: self.path@,
            queries: text_view(self.queries),
            method: self.method,
            body: body_view(self.body),
        }
    }
}

/// A request pattern and the body to answer it with.
#[derive(Debug, PartialEq)]
pub struct Replay {
    /// The pattern a request is held against.
    pub when: Request,
    /// The answer to a request that matches.
    pub then: DynamicBody,
}

/// What a replay holds.
pub struct ReplayView {
    /// The pattern a request is held against.
    pub pattern: RequestView,
    /// The answer to a request that matches.
    pub answer: BodyView,
}

impl View for Replay {
    type V = ReplayView;

    open spec fn view(&self) -> ReplayView {
        match self {
            Replay { when, then } => ReplayView { pattern: when@, answer: then@ },
        }
    }
}

impl RequestView {
    /// Whether this request's body is a JSON document that includes `pattern`.
    pub open spec fn body_includes(self, pattern: Value) -> bool {
        self.body matches Some(BodyView::Json(actual)) && json_includes(actual, pattern)
    }

    /// Whether this request, taken as a pattern, is met by `request`: path,
    /// method and raw query string are equal, and the pattern has no body or
    /// the request has one that satisfies it.
    pub open spec fn admits(self, request: RequestView) -> bool {
        &&& self.path == request.path
        &&& self.method == request.method
        &&& self.queries == request.queries
        &&& match self.body {
            None => true,
            Some(pattern) => request.body matches Some(actual) && actual.includes(pattern),
        }
    }
}

impl ReplayView {
    /// Whether this replay answers `request`.
    pub open spec fn matches(self, request: RequestView) -> bool {
        self.pattern.admits(request)
    }
}

/// Decides whether two optional texts are equal.
pub fn same_text(left: &Option<String>, right: &Option<String>) -> (same: bool)
    ensures
        same == (text_view(*left) == text_view(*right)),
{
    match left {
        None => right.is_none(),
        Some(left) => match right {
            None => false,
            Some(right) => *left == *right,
        },
    }
}

impl Request {
    /// Decides whether the body of this request is a JSON document that
    /// includes `body`.
    pub fn matches_body(&self, body: &Value) -> (matched: bool)
        ensures
            matched == self@.body_includes(*body),
    {
        match &self.body {
            Some(DynamicBody::Json(actual)) => json::includes(actual, body),
            _ => false,
        }
    }

    /// Decides whether this request, taken as a pattern, is met by `request`.
    pub fn admits(&self, request: &Request) -> (admitted: bool)
        ensures
            admitted == self@.admits(request@),
    {
        if !(self.path == request.path && self.method == request.method && same_text(
            &self.queries,
            &request.queries,
        )) {
            return false;
        }
        match &self.body {
            None => true,
            Some(pattern) => match &request.body {
                None => false,
                Some(actual) => actual.includes(pattern),
            },
        }
    }
}

impl Clone for Request {
    fn clone(&self) -> (copy: Request)
        ensures
            copy@ == self@,
    {
        Request {
            path: self.path.clone(),
            queries: match &self.queries {
                Some(queries) => Some(queries.clone()),
                None => None,
            },
            method: self.method,
            body: match &self.body {
                Some(body) => Some(body.clone()),
                None => None,
            },
        }
    }
}

impl Replay {
    /// Decides whether this replay answers `request`.
    pub fn matches_request(&self, request: &Request) -> (matched: bool)
        ensures
            matched == self@.matches(request@),
    {
        self.when.admits(request)
    }
}

impl Clone for Replay {
    fn clone(&self) -> (copy: Replay)
        ensures
            copy@ == self@,
    {
        match self {
            Replay { when, then } => Replay { when: when.clone(), then: then.clone() },
        }
    }
}

} // verus!
