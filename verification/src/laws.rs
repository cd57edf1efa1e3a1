//! What holds of every request, proved from the contracts of the handlers and
//! of the router.

use vstd::prelude::*;

use crate::handlers::USER_ID;
use crate::http::{Content, Method, Response, ResponseView, StatusCode};
use crate::json::{json_number, json_string, lemma_plain_text_is_unescaped, plain};
use crate::router::{
    begin, finish, handle, response_for, route_of, step_of, Route, Step, StepView,
};
use crate::user::{
    accepted, opens_object, user_json, Category, CreateUser, CreateUserView, UserView,
};

verus! {

/// The fixed identifier is written as the four digits `1337`.
pub proof fn lemma_user_id_literal()
    ensures
        json_number(USER_ID as nat) == "1337"@,
{
    reveal_strlit("0123456789");
    reveal_strlit("1337");
    reveal_with_fuel(json_number, 4);
    assert(json_number(1337) =~= "1337"@);
}

/// The document for a user with the fixed identifier is
/// `{"id":1337,"username":` followed by the username as a JSON string and `}`.
pub proof fn lemma_user_document(username: Seq<char>)
    ensures
        user_json(UserView { id: USER_ID, username }) == "{\"id\":1337,\"username\":"@
            + json_string(username) + "}"@,
{
    lemma_user_id_literal();
    reveal_strlit("{\"id\":");
    reveal_strlit("1337");
    reveal_strlit(",\"username\":");
    reveal_strlit("{\"id\":1337,\"username\":");
    assert("{\"id\":"@ + "1337"@ + ",\"username\":"@ =~= "{\"id\":1337,\"username\":"@);
}

/// `POST /users` is routed to user creation, which asks for the payload: the
/// path is not the root path.
pub proof fn lemma_user_creation_route()
    ensures
        route_of(Method::Post, "/users"@) == Route::CreateUser,
        step_of(Method::Post, "/users"@) == StepView::Decode,
{
    reveal_strlit("/");
    reveal_strlit("/users");
    assert("/"@.len() != "/users"@.len());
}

/// Every `GET /` is answered with status 200 and the body `Hello, world!`.
/// The answer is given from the method and the path alone, so nothing else
/// that a request carries can change it, and neither can the body or what a
/// decoder would find in it.
pub proof fn lemma_root_greets(body: Seq<u8>, found: Result<CreateUserView, Category>)
    ensures
        step_of(Method::Get, "/"@) == StepView::Reply(
            ResponseView {
                status: StatusCode::Okay,
                content: Content::Text,
                body: "Hello, world!"@,
            },
        ),
        response_for(Method::Get, "/"@, body, found) == (ResponseView {
            status: StatusCode::Okay,
            content: Content::Text,
            body: "Hello, world!"@,
        }),
        StatusCode::Okay.number() == 200,
{
}

/// Every `POST /users` whose body is a JSON object in which the decoder found
/// a payload is answered with status 201 and the document
/// `{"id":1337,"username":…}`, which holds the payload's username as it was
/// submitted.
pub proof fn lemma_user_is_created(body: Seq<u8>, username: Seq<char>)
    requires
        opens_object(body),
    ensures
        response_for(Method::Post, "/users"@, body, Ok(CreateUserView { username }))
            == (ResponseView {
            status: StatusCode::Created,
            content: Content::Json,
            body: "{\"id\":1337,\"username\":"@ + json_string(username) + "}"@,
        }),
        StatusCode::Created.number() == 201,
{
    lemma_user_document(username);
    lemma_user_creation_route();
}

/// A username without quotation marks, backslashes and control characters
/// comes back letter for letter, between quotation marks.
pub proof fn lemma_plain_username_is_echoed(body: Seq<u8>, username: Seq<char>)
    requires
        opens_object(body),
        forall|i: int| 0 <= i < username.len() ==> plain(#[trigger] username[i]),
    ensures
        response_for(Method::Post, "/users"@, body, Ok(CreateUserView { username })).body
            == "{\"id\":1337,\"username\":\""@ + username + "\"}"@,
{
    lemma_user_is_created(body, username);
    lemma_plain_text_is_unescaped(username);
    reveal_strlit("{\"id\":1337,\"username\":");
    reveal_strlit("{\"id\":1337,\"username\":\"");
    reveal_strlit("}");
    reveal_strlit("\"}");
    assert("{\"id\":1337,\"username\":"@ + (seq!['"'] + username + seq!['"']) + "}"@
        =~= "{\"id\":1337,\"username\":\""@ + username + "\"}"@);
}

/// Every `POST /users` whose body is not JSON, or is JSON that the decoder
/// does not take for a payload, or is not a JSON object, is answered with a
/// client error and no body: no user is made. The status is 422 where the body
/// is JSON and 400 where it is not.
pub proof fn lemma_bad_body_is_client_error(body: Seq<u8>, found: Result<CreateUserView, Category>)
    requires
        found is Err || !opens_object(body),
    ensures
        response_for(Method::Post, "/users"@, body, found).status.client_error(),
        response_for(Method::Post, "/users"@, body, found).content == Content::Empty,
        response_for(Method::Post, "/users"@, body, found).body == Seq::<char>::empty(),
        response_for(Method::Post, "/users"@, body, found).status == if found is Ok || found
            == Err::<CreateUserView, Category>(Category::Data) {
            StatusCode::UnprocessableEntity
        } else {
            StatusCode::BadRequest
        },
{
    lemma_user_creation_route();
}

/// A user is made exactly where the decoder found a payload in a JSON object:
/// `POST /users` is answered 201 there and nowhere else.
pub proof fn lemma_created_iff_taken(body: Seq<u8>, found: Result<CreateUserView, Category>)
    ensures
        response_for(Method::Post, "/users"@, body, found).status == StatusCode::Created <==> found
            is Ok && opens_object(body),
        accepted(body, found) is Ok <==> found is Ok && opens_object(body),
{
    lemma_user_creation_route();
}

/// Every request that is neither `GET /` nor `POST /users` is refused without
/// a body: with 405 where the path is one of the two, with 404 elsewhere.
pub proof fn lemma_other_requests_are_refused(
    method: Method,
    path: Seq<char>,
    body: Seq<u8>,
    found: Result<CreateUserView, Category>,
)
    requires
        !(method == Method::Get && path == "/"@),
        !(method == Method::Post && path == "/users"@),
    ensures
        step_of(method, path) == StepView::Reply(response_for(method, path, body, found)),
        path == "/"@ || path == "/users"@ ==> response_for(method, path, body, found).status
            == StatusCode::MethodNotAllowed,
        path != "/"@ && path != "/users"@ ==> response_for(method, path, body, found).status
            == StatusCode::NotFound,
        response_for(method, path, body, found).status.client_error(),
        response_for(method, path, body, found).content == Content::Empty,
        response_for(method, path, body, found).body == Seq::<char>::empty(),
{
    lemma_user_creation_route();
}

/// Answering is a function of the request: two answers to the same request are
/// the same response, so posting a user twice gives the same body twice. This
/// holds of each step and of both together.
pub proof fn lemma_same_request_same_response(
    method: Method,
    path: &str,
    body: &[u8],
    found: Result<CreateUser, Category>,
    first: Response,
    second: Response,
)
    requires
        call_ensures(handle, (method, path, body, found), first),
        call_ensures(handle, (method, path, body, found), second),
    ensures
        first@ == second@,
{
}

/// The first step is a function of the method and the path.
pub proof fn lemma_same_request_same_step(method: Method, path: &str, first: Step, second: Step)
    requires
        call_ensures(begin, (method, path), first),
        call_ensures(begin, (method, path), second),
    ensures
        first@ == second@,
{
}

/// The second step is a function of the body and of what the decoder found.
pub proof fn lemma_same_payload_same_response(
    body: &[u8],
    found: Result<CreateUser, Category>,
    first: Response,
    second: Response,
)
    requires
        call_ensures(finish, (body, found), first),
        call_ensures(finish, (body, found), second),
    ensures
        first@ == second@,
{
}

} // verus!
