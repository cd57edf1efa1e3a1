//! The parts of HTTP that the service speaks of: request methods, the status
//! codes it answers with, and the shape of a response.

use vstd::prelude::*;

verus! {

/// The method of a request. `Other` stands for every method without a variant
/// of its own.
#[derive(Clone, Copy, Debug, PartialEq, Eq, Structural)]
pub enum Method {
    Get,
    Head,
    Post,
    Put,
    Delete,
    Connect,
    Options,
    Trace,
    Patch,
    Other,
}

/// The status codes that the service answers with.
#[derive(Clone, Copy, Debug, PartialEq, Eq, Structural)]
pub enum StatusCode {
    Okay,
    Created,
    BadRequest,
    NotFound,
    MethodNotAllowed,
    UnprocessableEntity,
}

impl StatusCode {
    /// The three-digit number of the status.
    pub open spec fn number(self) -> u16 {
        match self {
            StatusCode::Okay => 200,
            StatusCode::Created => 201,
            StatusCode::BadRequest => 400,
            StatusCode::NotFound => 404,
            StatusCode::MethodNotAllowed => 405,
            StatusCode::UnprocessableEntity => 422,
        }
    }

    /// Whether the status is in the 2xx class.
    pub open spec fn success(self) -> bool {
        200 <= self.number() < 300
    }

    /// Whether the status is in the 4xx class.
    pub open spec fn client_error(self) -> bool {
        400 <= self.number() < 500
    }

    /// The number that goes on the status line.
    pub fn as_u16(self) -> (code: u16)
        ensures
            code == self.number(),
    {
        match self {
            StatusCode::Okay => 200,
            StatusCode::Created => 201,
            StatusCode::BadRequest => 400,
            StatusCode::NotFound => 404,
            StatusCode::MethodNotAllowed => 405,
            StatusCode::UnprocessableEntity => 422,
        }
    }

    /// Whether the request was answered as asked.
    pub fn is_success(self) -> (yes: bool)
        ensures
            yes == self.success(),
    {
        let code: u16 = self.as_u16();
        200 <= code && code < 300
    }

    /// Whether the request was refused for a fault of its own.
    pub fn is_client_error(self) -> (yes: bool)
        ensures
            yes == self.client_error(),
    {
        let code: u16 = self.as_u16();
        400 <= code && code < 500
    }
}

/// What kind of body a response carries, which decides its `Content-Type`.
#[derive(Clone, Copy, Debug, PartialEq, Eq, Structural)]
pub enum Content {
    /// No body and no `Content-Type`.
    Empty,
    /// Plain text in UTF-8.
    Text,
    /// A JSON document.
    Json,
}

impl Content {
    /// The value of the `Content-Type` header, if the response has one.
    pub open spec fn media_type(self) -> Option<Seq<char>> {
        match self {
            Content::Empty => None,
            Content::Text => Some("text/plain; charset=utf-8"@),
            Content::Json => Some("application/json"@),
        }
    }

    /// The value to send as `Content-Type`, or `None` where there is no body
    /// to describe.
    pub fn header_value(self) -> (value: Option<&'static str>)
        ensures
            value is Some == self.media_type() is Some,
            value is Some ==> value.unwrap()@ == self.media_type().unwrap(),
    {
        match self {
            Content::Empty => None,
            Content::Text => Some("text/plain; charset=utf-8"),
            Content::Json => Some("application/json"),
        }
    }
}

/// A response, ready to be sent.
#[derive(Clone, Debug, PartialEq, Eq)]
pub struct Response {
    pub status: StatusCode,
    pub content: Content,
    pub body: String,
}

/// The mathematical value of a [`Response`].
pub struct ResponseView {
    pub status: StatusCode,
    pub content: Content,
    pub body: Seq<char>,
}

impl View for Response {
    type V = ResponseView;

    open spec fn view(&self) -> ResponseView {
        ResponseView { status: self.status, content: self.content, body: self.body@ }
    }
}

impl Response {
    /// A response without a body.
    pub fn empty(status: StatusCode) -> (response: Response)
        ensures
            response@ == (ResponseView { status, content: Content::Empty, body: Seq::empty() }),
    {
        Response { status, content: Content::Empty, body: String::new() }
    }
}

} // verus!
