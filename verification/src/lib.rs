//! The request handling of a small HTTP service, stated and proved with Verus.
//!
//! The service answers `GET /` with a fixed greeting and `POST /users` with a
//! JSON document that echoes the submitted username beside a fixed identifier.
//! Everything here is a function from plain values to plain values. A server
//! hands [`router::begin`] the method and the path of a request; where that
//! asks for the payload, it decodes the body and hands [`router::finish`] the
//! body and what the decoder found. Either way it gets the [`http::Response`]
//! to send.

pub mod http;
pub mod json;
pub mod user;
pub mod handlers;
pub mod router;
pub mod laws;
