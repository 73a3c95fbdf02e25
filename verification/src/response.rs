//! The answers to requests, as plain values.

use vstd::prelude::*;

verus! {

pub const STATUS_OK: u16 = 200;

pub const STATUS_MOVED_PERMANENTLY: u16 = 301;

pub const STATUS_UNAUTHORIZED: u16 = 401;

pub const STATUS_FORBIDDEN: u16 = 403;

pub const STATUS_INTERNAL_SERVER_ERROR: u16 = 500;

/// An HTTP response: its status, its body, whether the body is JSON, and its
/// `Location` header where it has one.
#[derive(Clone, Debug, PartialEq, Eq)]
pub struct Response {
    pub status: u16,
    pub json: bool,
    pub body: String,
    pub location: Option<String>,
}

/// What a response says.
pub struct ResponseView {
    pub status: u16,
    pub json: bool,
    pub body: Seq<char>,
    pub location: Option<Seq<char>>,
}

/// The text of an optional string.
pub open spec fn text_of(text: Option<String>) -> Option<Seq<char>> {
    match text {
        Some(t) => Some(t@),
        None => None,
    }
}

impl View for Response {
    type V = ResponseView;

    open spec fn view(&self) -> ResponseView {
        ResponseView {
            status: self.status,
            json: self.json,
            body: self.body@,
            location: text_of(self.location),
        }
    }
}

/// A response with this status and nothing else.
pub open spec fn empty_response(status: u16) -> ResponseView {
    ResponseView { status, json: false, body: Seq::empty(), location: None }
}

/// A response with this status and a plain message.
pub open spec fn message_response(status: u16, message: Seq<char>) -> ResponseView {
    ResponseView { status, json: false, body: message, location: None }
}

/// A `200` whose body is JSON.
pub open spec fn json_response(body: Seq<char>) -> ResponseView {
    ResponseView { status: STATUS_OK, json: true, body, location: None }
}

/// A permanent redirect to `location`.
pub open spec fn redirect_response(location: Seq<char>) -> ResponseView {
    ResponseView {
        status: STATUS_MOVED_PERMANENTLY,
        json: false,
        body: Seq::empty(),
        location: Some(location),
    }
}

impl Response {
    pub fn empty(status: u16) -> (r: Response)
        ensures
            r@ == empty_response(status),
    {
        Response { status, json: false, body: String::new(), location: None }
    }

    pub fn message(status: u16, message: &str) -> (r: Response)
        ensures
            r@ == message_response(status, message@),
    {
        Response { status, json: false, body: String::from_str(message), location: None }
    }

    pub fn json(body: String) -> (r: Response)
        ensures
            r@ == json_response(body@),
    {
        Response { status: STATUS_OK, json: true, body, location: None }
    }

    pub fn redirect(location: String) -> (r: Response)
        ensures
            r@ == redirect_response(location@),
    {
        Response {
            status: STATUS_MOVED_PERMANENTLY,
            json: false,
            body: String::new(),
            location: Some(location),
        }
    }
}

} // verus!
