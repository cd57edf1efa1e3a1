//! The two handlers of the service and the responses they give.

use vstd::prelude::*;

use crate::http::{Content, Response, ResponseView, StatusCode};
use crate::user::{
    encode_user, taken, user_json, CreateUser, CreateUserView, Rejection, User, UserView,
};

verus! {

/// The identifier that every created user gets.
pub const USER_ID: u64 = 1337;

/// The greeting: the same text for every request.
pub fn root() -> (greeting: &'static str)
    ensures
        greeting@ == "Hello, world!"@,
{
    "Hello, world!"
}

/// The user made from a payload: the fixed identifier and the payload's
/// username.
pub open spec fn created_user(payload: CreateUserView) -> UserView {
    UserView { id: USER_ID, username: payload.username }
}

/// Creates the user that a payload asks for. Nothing is stored and nothing is
/// counted: the user has the fixed identifier and the username of the payload,
/// and the status is 201 Created.
pub fn create_user(payload: CreateUser) -> (created: (StatusCode, User))
    ensures
        created.0 == StatusCode::Created,
        created.1@ == created_user(payload@),
{
    let user = User { id: USER_ID, username: payload.username };
    (StatusCode::Created, user)
}

/// The response to `GET /`.
pub open spec fn greeting_response() -> ResponseView {
    ResponseView { status: StatusCode::Okay, content: Content::Text, body: "Hello, world!"@ }
}

/// The response to `POST /users`, from what was decided about its body: the
/// created user as a JSON document, or the rejection's status without a body.
pub open spec fn user_response(outcome: Result<CreateUserView, Rejection>) -> ResponseView {
    match outcome {
        Ok(payload) => ResponseView {
            status: StatusCode::Created,
            content: Content::Json,
            body: user_json(created_user(payload)),
        },
        Err(rejection) => ResponseView {
            status: rejection.status_code(),
            content: Content::Empty,
            body: Seq::empty(),
        },
    }
}

/// Answers `GET /`.
pub fn respond_to_root() -> (response: Response)
    ensures
        response@ == greeting_response(),
{
    Response { status: StatusCode::Okay, content: Content::Text, body: root().to_owned() }
}

/// Answers `POST /users` once it is decided whether its body is taken. A
/// payload is handed to [`create_user`] and the user is sent back as JSON; a
/// rejected body is answered with the rejection's status, and no user is made.
pub fn respond_to_create_user(outcome: Result<CreateUser, Rejection>) -> (response: Response)
    ensures
        response@ == user_response(taken(outcome)),
{
    match outcome {
        Ok(payload) => {
            let (status, user) = create_user(payload);
            Response { status, content: Content::Json, body: encode_user(&user) }
        },
        Err(rejection) => Response::empty(rejection.status()),
    }
}

} // verus!
