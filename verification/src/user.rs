//! The two documents of the user endpoint: the payload that a client submits
//! and the user that the service answers with.
//!
//! A payload comes out of a typed JSON decoder, which the caller runs on the
//! request body. What that decoder found goes through [`accept`], which has
//! the last word on whether the body is taken; [`encode_user`] writes the
//! answer.

use vstd::prelude::*;
use vstd::string::StringExecFns;

use crate::http::StatusCode;
use crate::json::{json_number, json_string, number_literal, string_literal};

verus! {

/// The payload of a request to create a user.
#[derive(Clone, Debug, PartialEq, Eq)]
pub struct CreateUser {
    pub username: String,
}

/// The mathematical value of a [`CreateUser`].
pub struct CreateUserView {
    pub username: Seq<char>,
}

impl View for CreateUser {
    type V = CreateUserView;

    open spec fn view(&self) -> CreateUserView {
        CreateUserView { username: self.username@ }
    }
}

/// A user, as the service reports it.
#[derive(Clone, Debug, PartialEq, Eq)]
pub struct User {
    pub id: u64,
    pub username: String,
}

/// The mathematical value of a [`User`].
pub struct UserView {
    pub id: u64,
    pub username: Seq<char>,
}

impl View for User {
    type V = UserView;

    open spec fn view(&self) -> UserView {
        UserView { id: self.id, username: self.username@ }
    }
}

/// Why a JSON decoder gave up on a body.
#[derive(Clone, Copy, Debug, PartialEq, Eq, Structural)]
pub enum Category {
    /// The bytes could not be read.
    Io,
    /// The bytes are not JSON.
    Syntax,
    /// The bytes are JSON, but not a payload: a member is missing, repeated or
    /// of the wrong type.
    Data,
    /// The bytes end before the JSON value does.
    Eof,
}

/// Why a request body was not taken as a [`CreateUser`].
#[derive(Clone, Copy, Debug, PartialEq, Eq, Structural)]
pub enum Rejection {
    /// The body is not a JSON document.
    Syntax,
    /// The body is a JSON document, but not an object with exactly one string
    /// under `username`.
    Data,
}

impl Rejection {
    /// The status that answers a rejected body.
    pub open spec fn status_code(self) -> StatusCode {
        match self {
            Rejection::Syntax => StatusCode::BadRequest,
            Rejection::Data => StatusCode::UnprocessableEntity,
        }
    }

    /// The status that answers a rejected body: always a client error.
    pub fn status(self) -> (status: StatusCode)
        ensures
            status == self.status_code(),
            status.client_error(),
    {
        match self {
            Rejection::Syntax => StatusCode::BadRequest,
            Rejection::Data => StatusCode::UnprocessableEntity,
        }
    }
}

impl Category {
    /// The rejection that a decoder's failure amounts to: only a failure on
    /// the data leaves the body a JSON document.
    pub open spec fn rejection_of(self) -> Rejection {
        match self {
            Category::Data => Rejection::Data,
            Category::Io => Rejection::Syntax,
            Category::Syntax => Rejection::Syntax,
            Category::Eof => Rejection::Syntax,
        }
    }

    /// The rejection that a decoder's failure amounts to.
    pub fn rejection(self) -> (rejection: Rejection)
        ensures
            rejection == self.rejection_of(),
    {
        match self {
            Category::Data => Rejection::Data,
            Category::Io => Rejection::Syntax,
            Category::Syntax => Rejection::Syntax,
            Category::Eof => Rejection::Syntax,
        }
    }
}

/// Whether `byte` is white space in JSON: a space, a tab, a line feed or a
/// carriage return.
pub open spec fn is_space(byte: u8) -> bool {
    byte == 0x20 || byte == 0x09 || byte == 0x0a || byte == 0x0d
}

/// Whether the first byte of `body` after its leading white space is `{`.
pub open spec fn opens_object(body: Seq<u8>) -> bool
    decreases body.len(),
{
    if body.len() == 0 {
        false
    } else if is_space(body[0]) {
        opens_object(body.drop_first())
    } else {
        body[0] == 0x7b
    }
}

/// Whether a body starts, after white space, with the `{` of a JSON object.
pub fn is_object(body: &[u8]) -> (yes: bool)
    ensures
        yes == opens_object(body@),
{
    let mut i: usize = 0;
    assert(body@.skip(0) =~= body@);
    while i < body.len()
        invariant
            i <= body.len(),
            opens_object(body@) == opens_object(body@.skip(i as int)),
        decreases body.len() - i,
    {
        let byte: u8 = body[i];
        proof {
            assert(body@.skip(i as int)[0] == byte);
            assert(body@.skip(i as int).drop_first() =~= body@.skip(i + 1));
        }
        if byte == 0x20 || byte == 0x09 || byte == 0x0a || byte == 0x0d {
            i += 1;
        } else {
            return byte == 0x7b;
        }
    }
    false
}

/// The mathematical value of what a decoder found.
pub open spec fn decoded(outcome: Result<CreateUser, Category>) -> Result<
    CreateUserView,
    Category,
> {
    match outcome {
        Ok(payload) => Ok(payload@),
        Err(category) => Err(category),
    }
}

/// The mathematical value of what [`accept`] decided.
pub open spec fn taken(outcome: Result<CreateUser, Rejection>) -> Result<
    CreateUserView,
    Rejection,
> {
    match outcome {
        Ok(payload) => Ok(payload@),
        Err(rejection) => Err(rejection),
    }
}

/// Whether a body is taken, from the body and from what a decoder found in
/// it: a payload is taken, unchanged, if the body is an object; a failure of
/// the decoder is a rejection.
pub open spec fn accepted(body: Seq<u8>, found: Result<CreateUserView, Category>) -> Result<
    CreateUserView,
    Rejection,
> {
    match found {
        Ok(payload) => if opens_object(body) {
            Ok(payload)
        } else {
            Err(Rejection::Data)
        },
        Err(category) => Err(category.rejection_of()),
    }
}

/// Decides whether a request body is taken as a payload.
///
/// `found` is what a typed JSON decoder made of `body`. A decoder that reads
/// a record from an object commonly reads it from an array of its fields too;
/// the service takes objects only, so a payload found in a body that does not
/// open with `{` is rejected as data that is no payload.
pub fn accept(body: &[u8], found: Result<CreateUser, Category>) -> (outcome: Result<
    CreateUser,
    Rejection,
>)
    ensures
        taken(outcome) == accepted(body@, decoded(found)),
{
    match found {
        Ok(payload) => if is_object(body) {
            Ok(payload)
        } else {
            Err(Rejection::Data)
        },
        Err(category) => Err(category.rejection()),
    }
}

/// The JSON document for a user: an object with the members `id` and
/// `username`, in this order and without white space.
pub open spec fn user_json(user: UserView) -> Seq<char> {
    "{\"id\":"@ + json_number(user.id as nat) + ",\"username\":"@ + json_string(user.username)
        + "}"@
}

/// Encodes a user as a JSON document.
pub fn encode_user(user: &User) -> (document: String)
    ensures
        document@ == user_json(user@),
{
    let id = number_literal(user.id).unwrap();
    let username = string_literal(user.username.as_str()).unwrap();
    let mut document = String::from_str("{\"id\":");
    document.append(id.as_str());
    document.append(",\"username\":");
    document.append(username.as_str());
    document.append("}");
    document
}

} // verus!
