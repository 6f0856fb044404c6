//! The mapping between what travels on the wire and the model: how a request
//! that came in is read, and how the end of its dispatch is written back.
//!
//! Nothing here touches a socket. The embedding program hands in the parts of
//! the request as it received them and sends what comes back.

use crate::dispatch::{ResultType, ResultView};
use crate::json;
use crate::json::{parsed_json, written_json};
use crate::models::{body_view, text_view, BodyView, DynamicBody, Method, Request, RequestView};
use crate::text::strip_prefix;
use vstd::prelude::*;
use vstd::slice::slice_to_vec;
use vstd::string::StringSliceAdditionalSpecFns;
use vstd::utf8::encode_utf8;

verus! {

/// The status of a reply that carries an answer.
pub const STATUS_OK: u16 = 200;

/// The status of the reply to a request whose body could not be read.
pub const STATUS_BAD_REQUEST: u16 = 400;

/// The status of the reply to a request that no responder answered.
pub const STATUS_NOT_FOUND: u16 = 404;

/// The status of the reply when the answer could not be written.
pub const STATUS_SERVER_ERROR: u16 = 500;

/// A reply as it is sent.
#[derive(Debug, PartialEq)]
pub struct WireReply {
    /// The status code.
    pub status: u16,
    /// The content type header, if one is set.
    pub content_type: Option<String>,
    /// The payload.
    pub payload: Vec<u8>,
}

/// What a reply holds.
pub struct WireReplyView {
    /// The status code.
    pub status: u16,
    /// The content type header, if one is set.
    pub content_type: Option<Seq<char>>,
    /// The payload.
    pub payload: Seq<u8>,
}

impl View for WireReply {
    type V = WireReplyView;

    open spec fn view(&self) -> WireReplyView {
        WireReplyView {
            status: self.status,
            content_type: text_view(self.content_type),
            payload: self.payload@,
        }
    }
}

/// What an optional payload holds.
pub open spec fn payload_view(payload: Option<Vec<u8>>) -> Option<Seq<u8>> {
    match payload {
        Some(payload) => Some(payload@),
        None => None,
    }
}

/// What an optional string slice holds.
pub open spec fn slice_view(text: Option<&str>) -> Option<Seq<char>> {
    match text {
        Some(text) => Some(text@),
        None => None,
    }
}

/// Whether a content type header declares a JSON payload: it is there and
/// starts with the JSON media type.
pub open spec fn json_declared(content_type: Option<Seq<char>>) -> bool {
    content_type matches Some(content_type) && "application/json"@.is_prefix_of(content_type)
}

/// The body of a request that came in with `payload`: none where there is no
/// payload; the document of a payload declared as JSON, which has to read as
/// one; the raw bytes of any other payload.
pub open spec fn body_read(declared_json: bool, payload: Option<Seq<u8>>) -> Result<
    Option<BodyView>,
    (),
> {
    match payload {
        None => Ok(None),
        Some(payload) => if declared_json {
            match parsed_json(payload) {
                Some(document) => Ok(Some(BodyView::Json(document))),
                None => Err(()),
            }
        } else {
            Ok(Some(BodyView::Bytes(payload)))
        },
    }
}

/// The reply for the end of a dispatch: an answer goes out with the status of
/// success, a JSON document as its text under the JSON content type, text and
/// bytes as they are; not found and a document that cannot be written have
/// their own statuses.
pub open spec fn reply_for(result: ResultView) -> WireReplyView {
    match result {
        ResultView::Matched { value: BodyView::Json(document) } => match written_json(document) {
            Some(text) => WireReplyView {
                status: STATUS_OK,
                content_type: Some("application/json"@),
                payload: text,
            },
            None => WireReplyView {
                status: STATUS_SERVER_ERROR,
                content_type: None,
                payload: encode_utf8("the answer could not be written as JSON"@),
            },
        },
        ResultView::Matched { value: BodyView::Text(text) } => WireReplyView {
            status: STATUS_OK,
            content_type: None,
            payload: encode_utf8(text),
        },
        ResultView::Matched { value: BodyView::Bytes(bytes) } => WireReplyView {
            status: STATUS_OK,
            content_type: None,
            payload: bytes,
        },
        ResultView::NotFound => WireReplyView {
            status: STATUS_NOT_FOUND,
            content_type: None,
            payload: Seq::empty(),
        },
    }
}

/// The reply to a request whose body was declared as JSON and is none.
pub fn bad_request() -> (reply: WireReply)
    ensures
        reply.status == STATUS_BAD_REQUEST,
        reply.content_type is None,
        reply.payload@ == encode_utf8("the body is not JSON"@),
{
    WireReply {
        status: STATUS_BAD_REQUEST,
        content_type: None,
        payload: slice_to_vec("the body is not JSON".as_bytes()),
    }
}

/// Decides whether a content type header declares a JSON payload.
pub fn declares_json(content_type: Option<&str>) -> (declared: bool)
    ensures
        declared == json_declared(slice_view(content_type)),
{
    match content_type {
        Some(content_type) => {
            let rest = strip_prefix(content_type, "application/json");
            proof {
                if let Some(rest) = rest {
                    assert("application/json"@.is_prefix_of("application/json"@ + rest@));
                }
            }
            rest.is_some()
        },
        None => false,
    }
}

/// Reads the body of a request that came in with `payload`.
pub fn read_body(declared_json: bool, payload: Option<Vec<u8>>) -> (body: Result<
    Option<DynamicBody>,
    WireReply,
>)
    ensures
        match body {
            Ok(body) => body_read(declared_json, payload_view(payload)) == Ok::<
                Option<BodyView>,
                (),
            >(body_view(body)),
            Err(reply) => {
                &&& body_read(declared_json, payload_view(payload)) is Err
                &&& reply.status == STATUS_BAD_REQUEST
            },
        },
{
    match payload {
        None => Ok(None),
        Some(payload) => {
            if declared_json {
                match json::parse(&payload) {
                    Some(document) => Ok(Some(DynamicBody::Json(document))),
                    None => Err(bad_request()),
                }
            } else {
                Ok(Some(DynamicBody::Bytes(payload)))
            }
        },
    }
}

/// Reads a request from its parts as they came in: the method by its name,
/// path and raw query string as they are, and the body as the content type
/// header declares it. A body that was declared as JSON and is none is
/// refused with the reply to send instead.
pub fn read_request(
    method: &str,
    path: &str,
    queries: Option<&str>,
    content_type: Option<&str>,
    payload: Option<Vec<u8>>,
) -> (request: Result<Request, WireReply>)
    ensures
        match request {
            Ok(request) => {
                &&& request.method == Method::named(method@)
                &&& request.path@ == path@
                &&& request@.queries == slice_view(queries)
                &&& body_read(json_declared(slice_view(content_type)), payload_view(payload)) == Ok::<
                    Option<BodyView>,
                    (),
                >(request@.body)
            },
            Err(reply) => {
                &&& body_read(json_declared(slice_view(content_type)), payload_view(payload)) is Err
                &&& reply.status == STATUS_BAD_REQUEST
            },
        },
{
    let body = match read_body(declares_json(content_type), payload) {
        Ok(body) => body,
        Err(reply) => {
            return Err(reply);
        },
    };
    let queries = match queries {
        Some(queries) => Some(queries.to_owned()),
        None => None,
    };
    Ok(Request { path: path.to_owned(), queries, method: Method::from_method_string(method), body })
}

/// Writes the reply for the end of a dispatch.
pub fn write_reply(result: ResultType) -> (reply: WireReply)
    ensures
        reply@ == reply_for(result@),
{
    match result {
        ResultType::Matched { value: DynamicBody::Json(document) } => match json::write(&document) {
            Some(text) => WireReply {
                status: STATUS_OK,
                content_type: Some("application/json".to_owned()),
                payload: text,
            },
            None => WireReply {
                status: STATUS_SERVER_ERROR,
                content_type: None,
                payload: slice_to_vec("the answer could not be written as JSON".as_bytes()),
            },
        },
        ResultType::Matched { value: DynamicBody::Text(text) } => WireReply {
            status: STATUS_OK,
            content_type: None,
            payload: slice_to_vec(text.as_str().as_bytes()),
        },
        ResultType::Matched { value: DynamicBody::Bytes(bytes) } => WireReply {
            status: STATUS_OK,
            content_type: None,
            payload: bytes,
        },
        ResultType::NotFound => WireReply {
            status: STATUS_NOT_FOUND,
            content_type: None,
            payload: Vec::new(),
        },
    }
}

} // verus!
