//! Routing: which handler answers a request, and the response to every
//! request.
//!
//! A request is answered in two steps, so that a server reads and decodes a
//! body only where one is asked for: [`begin`] takes the method and the path
//! and either answers or asks for the payload, and [`finish`] answers from the
//! body and from what a decoder found in it.

use vstd::prelude::*;
use vstd::string::StringSliceAdditionalSpecFns;
use vstd::utf8::encode_utf8_decode_utf8;

use crate::handlers::{
    greeting_response, respond_to_create_user, respond_to_root, user_response,
};
use crate::http::{Content, Method, Response, ResponseView, StatusCode};
use crate::user::{accept, accepted, decoded, Category, CreateUser, CreateUserView};

verus! {

/// Where a request goes.
#[derive(Clone, Copy, Debug, PartialEq, Eq, Structural)]
pub enum Route {
    /// `GET /`: the greeting.
    Root,
    /// `POST /users`: user creation.
    CreateUser,
    /// The path is known, the method is not the one it takes.
    MethodNotAllowed,
    /// The path is not known.
    NotFound,
}

/// The routing table. Paths are compared as they are: no trailing slash is
/// added or removed, and letter case counts.
pub open spec fn route_of(method: Method, path: Seq<char>) -> Route {
    if path == "/"@ {
        if method == Method::Get {
            Route::Root
        } else {
            Route::MethodNotAllowed
        }
    } else if path == "/users"@ {
        if method == Method::Post {
            Route::CreateUser
        } else {
            Route::MethodNotAllowed
        }
    } else {
        Route::NotFound
    }
}

/// What there is to do about a request once its method and path are known.
#[derive(Clone, Debug, PartialEq, Eq)]
pub enum Step {
    /// The request is answered with this response; its body is not read.
    Reply(Response),
    /// The body is to be decoded into a payload and handed to [`finish`].
    Decode,
}

/// The mathematical value of a [`Step`].
pub enum StepView {
    Reply(ResponseView),
    Decode,
}

impl View for Step {
    type V = StepView;

    open spec fn view(&self) -> StepView {
        match self {
            Step::Reply(response) => StepView::Reply(response@),
            Step::Decode => StepView::Decode,
        }
    }
}

/// The step that a method and a path call for: the greeting, the decoding of a
/// payload, or a refusal without a body.
pub open spec fn step_of(method: Method, path: Seq<char>) -> StepView {
    match route_of(method, path) {
        Route::Root => StepView::Reply(greeting_response()),
        Route::CreateUser => StepView::Decode,
        Route::MethodNotAllowed => StepView::Reply(
            ResponseView {
                status: StatusCode::MethodNotAllowed,
                content: Content::Empty,
                body: Seq::empty(),
            },
        ),
        Route::NotFound => StepView::Reply(
            ResponseView {
                status: StatusCode::NotFound,
                content: Content::Empty,
                body: Seq::empty(),
            },
        ),
    }
}

/// The response to a request for user creation, from its body and from what a
/// decoder found in it.
pub open spec fn payload_response(
    body: Seq<u8>,
    found: Result<CreateUserView, Category>,
) -> ResponseView {
    user_response(accepted(body, found))
}

/// The response to a request with this method, path and body, in which a
/// decoder found this.
pub open spec fn response_for(
    method: Method,
    path: Seq<char>,
    body: Seq<u8>,
    found: Result<CreateUserView, Category>,
) -> ResponseView {
    match step_of(method, path) {
        StepView::Reply(response) => response,
        StepView::Decode => payload_response(body, found),
    }
}

/// Whether two strings hold the same text, found by comparing their bytes.
fn same_text(a: &str, b: &str) -> (same: bool)
    ensures
        same == (a@ == b@),
{
    let left = a.as_bytes();
    let right = b.as_bytes();
    if left.len() != right.len() {
        return false;
    }
    let mut i: usize = 0;
    while i < left.len()
        invariant
            i <= left.len(),
            left.len() == right.len(),
            left@ == a.spec_bytes(),
            right@ == b.spec_bytes(),
            forall|j: int| 0 <= j < i ==> left@[j] == right@[j],
        decreases left.len() - i,
    {
        if left[i] != right[i] {
            return false;
        }
        i += 1;
    }
    proof {
        assert(left@ =~= right@);
        encode_utf8_decode_utf8(a@);
        encode_utf8_decode_utf8(b@);
    }
    true
}

/// Finds the route of a request. `path` is the path of the request target,
/// without the query.
pub fn route(method: Method, path: &str) -> (found: Route)
    ensures
        found == route_of(method, path@),
{
    if same_text(path, "/") {
        match method {
            Method::Get => Route::Root,
            _ => Route::MethodNotAllowed,
        }
    } else if same_text(path, "/users") {
        match method {
            Method::Post => Route::CreateUser,
            _ => Route::MethodNotAllowed,
        }
    } else {
        Route::NotFound
    }
}

/// Takes the first step on a request. `path` is the path of the request
/// target, without the query. Nothing else of the request is looked at.
pub fn begin(method: Method, path: &str) -> (step: Step)
    ensures
        step@ == step_of(method, path@),
{
    match route(method, path) {
        Route::Root => Step::Reply(respond_to_root()),
        Route::CreateUser => Step::Decode,
        Route::MethodNotAllowed => Step::Reply(Response::empty(StatusCode::MethodNotAllowed)),
        Route::NotFound => Step::Reply(Response::empty(StatusCode::NotFound)),
    }
}

/// Takes the second step on a request for user creation. `found` is what a
/// typed JSON decoder made of `body`.
pub fn finish(body: &[u8], found: Result<CreateUser, Category>) -> (response: Response)
    ensures
        response@ == payload_response(body@, decoded(found)),
{
    respond_to_create_user(accept(body, found))
}

/// Answers a request whose body has been decoded already: both steps at once.
/// Where the first step answers, `body` and `found` are not looked at.
pub fn handle(
    method: Method,
    path: &str,
    body: &[u8],
    found: Result<CreateUser, Category>,
) -> (response: Response)
    ensures
        response@ == response_for(method, path@, body@, decoded(found)),
{
    match begin(method, path) {
        Step::Reply(response) => response,
        Step::Decode => finish(body, found),
    }
}

} // verus!
