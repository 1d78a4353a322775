//! The requests and responses of the service, as plain values.

use vstd::prelude::*;

verus! {

/// The HTTP method of a request, as far as the service tells methods apart.
#[derive(Clone, Copy, Debug, PartialEq, Eq, Structural)]
pub enum Method {
    Get,
    Head,
    Put,
    Delete,
    /// Any other method.
    Other,
}

/// The body of a response.
#[derive(Debug)]
pub enum Body {
    /// No body.
    Empty,
    /// A text message.
    Text(String),
    /// The bytes of a file.
    Data(Vec<u8>),
}

/// A response: a status code and a body.
#[derive(Debug)]
pub struct Response {
    pub status: u16,
    pub body: Body,
}

/// What a body holds.
pub enum BodyView {
    Empty,
    Text(Seq<char>),
    Data(Seq<u8>),
}

/// What a response holds.
pub struct ResponseView {
    pub status: u16,
    pub body: BodyView,
}

impl View for Body {
    type V = BodyView;

    open spec fn view(&self) -> BodyView {
        match self {
            Body::Empty => BodyView::Empty,
            Body::Text(s) => BodyView::Text(s@),
            Body::Data(d) => BodyView::Data(d@),
        }
    }
}

impl View for Response {
    type V = ResponseView;

    open spec fn view(&self) -> ResponseView {
        ResponseView { status: self.status, body: self.body@ }
    }
}

/// `200 OK` with no body.
pub open spec fn ok_empty() -> ResponseView {
    ResponseView { status: 200, body: BodyView::Empty }
}

/// `200 OK` with the bytes of a file.
pub open spec fn ok_data(data: Seq<u8>) -> ResponseView {
    ResponseView { status: 200, body: BodyView::Data(data) }
}

/// A response with a text message.
pub open spec fn text_reply(status: u16, msg: Seq<char>) -> ResponseView {
    ResponseView { status, body: BodyView::Text(msg) }
}

/// A response with the given status and text message.
pub fn text_response(status: u16, msg: &str) -> (r: Response)
    ensures
        r@ == text_reply(status, msg@),
{
    Response { status, body: Body::Text(String::from_str(msg)) }
}

/// `200 OK` with no body.
pub fn empty_ok() -> (r: Response)
    ensures
        r@ == ok_empty(),
{
    Response { status: 200, body: Body::Empty }
}

/// `200 OK` with the bytes of a file.
pub fn data_ok(data: Vec<u8>) -> (r: Response)
    ensures
        r@ == ok_data(data@),
{
    Response { status: 200, body: Body::Data(data) }
}

} // verus!
