//! Responses as scripts: what is sent on a request's stream, in order.

use crate::router::RestResponse;
use crate::text::{decimal, decimal_text};
use vstd::prelude::*;
use vstd::string::*;

verus! {

/// Status of a request that was answered.
pub const STATUS_OK: u16 = 200;

/// Status of a request for a path that has no handler.
pub const STATUS_NOT_FOUND: u16 = 404;

/// The body sent for a path that has no handler.
pub const NOT_FOUND_BODY: &'static str = "{\"error\": \"Not Found\"}";

/// The status line and the headers of a response.
#[derive(Clone, Debug, PartialEq, Eq)]
pub struct ResponseHead {
    pub status: u16,
    pub headers: Vec<(String, String)>,
}

/// One step of answering a request.
#[derive(Clone, Debug, PartialEq, Eq)]
pub enum ResponseOp {
    /// Send the status and the headers.
    Head(ResponseHead),
    /// Send one frame of data, flushed before anything else happens.
    Data(String),
    /// Wait this many milliseconds.
    Sleep(u64),
    /// Finish the stream.
    Finish,
}

/// A step of a response, with its texts as sequences of characters.
pub enum ResponseOpView {
    Head(u16, Seq<(Seq<char>, Seq<char>)>),
    Data(Seq<char>),
    Sleep(u64),
    Finish,
}

/// The headers as pairs of name and value.
pub open spec fn headers_view(headers: Seq<(String, String)>) -> Seq<(Seq<char>, Seq<char>)> {
    Seq::new(headers.len(), |i: int| (headers[i].0@, headers[i].1@))
}

impl View for ResponseOp {
    type V = ResponseOpView;

    open spec fn view(&self) -> ResponseOpView {
        match self {
            ResponseOp::Head(head) => ResponseOpView::Head(head.status, headers_view(head.headers@)),
            ResponseOp::Data(frame) => ResponseOpView::Data(frame@),
            ResponseOp::Sleep(millis) => ResponseOpView::Sleep(*millis),
            ResponseOp::Finish => ResponseOpView::Finish,
        }
    }
}

/// The views of a response's steps, in order.
pub open spec fn response_view(ops: Seq<ResponseOp>) -> Seq<ResponseOpView> {
    Seq::new(ops.len(), |i: int| ops[i]@)
}

/// The number of bytes that a text takes on the wire.
pub open spec fn byte_length(text: Seq<char>) -> nat {
    vstd::utf8::encode_utf8(text).len()
}

/// A complete response with a body known up front: the status, the content
/// type and the length of the body in bytes, then the body in one frame,
/// then the end of the stream.
pub open spec fn full_response(status: u16, content_type: Seq<char>, body: Seq<char>) -> Seq<
    ResponseOpView,
> {
    seq![
        ResponseOpView::Head(
            status,
            seq![
                ("content-type"@, content_type),
                ("content-length"@, decimal(byte_length(body))),
            ],
        ),
        ResponseOpView::Data(body),
        ResponseOpView::Finish,
    ]
}

/// The step that sends a status and headers.
pub fn head_of(status: u16, headers: Vec<(String, String)>) -> (op: ResponseOp)
    ensures
        op@ == ResponseOpView::Head(status, headers_view(headers@)),
{
    ResponseOp::Head(ResponseHead { status, headers })
}

fn respond(status: u16, content_type: &str, body: String) -> (ops: Vec<ResponseOp>)
    ensures
        response_view(ops@) == full_response(status, content_type@, body@),
{
    let length = decimal_text(body.as_str().as_bytes().len() as u64);
    let headers: Vec<(String, String)> = vec![
        ("content-type".to_owned(), content_type.to_owned()),
        ("content-length".to_owned(), length),
    ];
    assert(headers_view(headers@) =~= seq![
        ("content-type"@, content_type@),
        ("content-length"@, decimal(byte_length(body@))),
    ]);
    let ops: Vec<ResponseOp> = vec![
        head_of(status, headers),
        ResponseOp::Data(body),
        ResponseOp::Finish,
    ];
    assert(response_view(ops@) =~= full_response(status, content_type@, body@));
    ops
}

/// The response to a request that a REST handler has answered: status 200
/// with the handler's content type and body.
pub fn rest_reply(response: RestResponse) -> (ops: Vec<ResponseOp>)
    ensures
        response_view(ops@) == full_response(
            STATUS_OK,
            response.content_type@,
            response.body@,
        ),
{
    respond(STATUS_OK, response.content_type, response.body)
}

/// The response to a request for a path that has no handler: status 404
/// with a fixed JSON body.
pub fn not_found_reply() -> (ops: Vec<ResponseOp>)
    ensures
        response_view(ops@) == full_response(
            STATUS_NOT_FOUND,
            "application/json"@,
            NOT_FOUND_BODY@,
        ),
{
    respond(STATUS_NOT_FOUND, "application/json", NOT_FOUND_BODY.to_owned())
}

/// Whether a response is sent in good order: the head exactly once and
/// first, the end of the stream exactly once and last.
pub open spec fn in_good_order(ops: Seq<ResponseOpView>) -> bool {
    &&& ops.len() >= 2
    &&& ops.first() is Head
    &&& ops.last() is Finish
    &&& forall|i: int| 0 < i < ops.len() ==> !(#[trigger] ops[i] is Head)
    &&& forall|i: int| 0 <= i < ops.len() - 1 ==> !(#[trigger] ops[i] is Finish)
}

/// A response with a body known up front is sent in good order, and its
/// body goes out exactly once, whole, between the head and the end.
pub proof fn lemma_full_response_in_good_order(
    status: u16,
    content_type: Seq<char>,
    body: Seq<char>,
)
    ensures
        in_good_order(full_response(status, content_type, body)),
        full_response(status, content_type, body).len() == 3,
        full_response(status, content_type, body)[1] == ResponseOpView::Data(body),
{
}

} // verus!
