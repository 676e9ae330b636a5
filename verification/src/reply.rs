//! The answers the API gives: a status and a body.
use vstd::prelude::*;

verus! {

/// The HTTP statuses the API answers with.
#[derive(Debug, Clone, Copy, PartialEq, Eq, Structural)]
pub enum Status {
    /// 200 OK.
    Success,
    BadRequest,
    Unauthorized,
    Forbidden,
    NotFound,
    InternalServerError,
}

/// The numeric HTTP code of a status.
pub open spec fn status_code(s: Status) -> u16 {
    match s {
        Status::Success => 200,
        Status::BadRequest => 400,
        Status::Unauthorized => 401,
        Status::Forbidden => 403,
        Status::NotFound => 404,
        Status::InternalServerError => 500,
    }
}

impl Status {
    /// The numeric HTTP code.
    pub fn code(&self) -> (c: u16)
        ensures
            c == status_code(*self),
    {
        match self {
            Status::Success => 200,
            Status::BadRequest => 400,
            Status::Unauthorized => 401,
            Status::Forbidden => 403,
            Status::NotFound => 404,
            Status::InternalServerError => 500,
        }
    }
}

/// The body of an answer: nothing, plain text, or a value sent as JSON.
#[derive(Debug, PartialEq, Eq)]
pub enum Body<T> {
    Empty,
    Text(String),
    Json(T),
}

/// An answer of the API.
#[derive(Debug, PartialEq, Eq)]
pub struct Reply<T> {
    pub status: Status,
    pub body: Body<T>,
}

/// `r` has the given status and the text body `text`.
pub open spec fn is_text_reply<T>(r: Reply<T>, status: Status, text: Seq<char>) -> bool {
    &&& r.status == status
    &&& match r.body {
        Body::Text(t) => t@ == text,
        _ => false,
    }
}

/// `r` has the given status and no body.
pub open spec fn is_empty_reply<T>(r: Reply<T>, status: Status) -> bool {
    r.status == status && r.body is Empty
}

/// `r` is a 200 answer with a JSON body.
pub open spec fn is_json_reply<T>(r: Reply<T>) -> bool {
    r.status == Status::Success && r.body is Json
}

/// An answer with the given status and no body.
pub fn empty_reply<T>(status: Status) -> (r: Reply<T>)
    ensures
        is_empty_reply(r, status),
{
    Reply { status, body: Body::Empty }
}

/// An answer with the given status and a text body.
pub fn text_reply<T>(status: Status, text: &str) -> (r: Reply<T>)
    ensures
        is_text_reply(r, status, text@),
{
    Reply { status, body: Body::Text(String::from_str(text)) }
}

/// A 200 answer carrying `value` as JSON.
pub fn json_reply<T>(value: T) -> (r: Reply<T>)
    ensures
        is_json_reply(r),
        r.body->Json_0 == value,
{
    Reply { status: Status::Success, body: Body::Json(value) }
}

} // verus!
