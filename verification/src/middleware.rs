//! The authentication guard in front of every API route: public routes pass,
//! every other request needs a `Bearer` token that verifies.
use vstd::prelude::*;
use vstd::string::StrSliceExecFns;
use crate::jwt::Claims;

verus! {

/// The routes that need no token: `/api/login` and `/api/register`.
pub open spec fn is_public_route(path: Seq<char>) -> bool {
    ||| path == seq!['/', 'a', 'p', 'i', '/', 'l', 'o', 'g', 'i', 'n']
    ||| path == seq!['/', 'a', 'p', 'i', '/', 'r', 'e', 'g', 'i', 's', 't', 'e', 'r']
}

/// The scheme prefix of an `Authorization` header that carries a token: `Bearer `.
pub open spec fn bearer_prefix() -> Seq<char> {
    seq!['B', 'e', 'a', 'r', 'e', 'r', ' ']
}

/// The token carried by an `Authorization` header value, if it starts with `Bearer `.
pub open spec fn bearer_token_of(header: Seq<char>) -> Option<Seq<char>> {
    if header.len() >= 7 && header.take(7) == bearer_prefix() {
        Some(header.skip(7))
    } else {
        None
    }
}

/// Why the guard turns a request away (with 401 Unauthorized).
#[derive(Debug, Clone, Copy, PartialEq, Eq, Structural)]
pub enum AuthFailure {
    /// No `Authorization` header with a `Bearer ` token.
    MissingHeader,
    /// A token was given but it does not verify (bad signature, or expired).
    InvalidToken,
}

impl AuthFailure {
    /// The message sent back with the 401 answer.
    pub fn message(&self) -> (m: String)
        ensures
            m@ == auth_failure_message(*self),
    {
        proof {
            reveal_strlit("Authorization header missing");
            reveal_strlit("Invalid or expired token");
        }
        match self {
            AuthFailure::MissingHeader => String::from_str("Authorization header missing"),
            AuthFailure::InvalidToken => String::from_str("Invalid or expired token"),
        }
    }
}

/// The text of the answer for each failure.
pub open spec fn auth_failure_message(f: AuthFailure) -> Seq<char> {
    match f {
        AuthFailure::MissingHeader => seq![
            'A', 'u', 't', 'h', 'o', 'r', 'i', 'z', 'a', 't', 'i', 'o', 'n', ' ',
            'h', 'e', 'a', 'd', 'e', 'r', ' ', 'm', 'i', 's', 's', 'i', 'n', 'g',
        ],
        AuthFailure::InvalidToken => seq![
            'I', 'n', 'v', 'a', 'l', 'i', 'd', ' ', 'o', 'r', ' ', 'e', 'x', 'p', 'i', 'r', 'e', 'd',
            ' ', 't', 'o', 'k', 'e', 'n',
        ],
    }
}

/// What the guard does with an incoming request, before any token is checked.
#[derive(Debug, PartialEq, Eq)]
pub enum GuardStep {
    /// The route is public: hand the request on as it is.
    Forward,
    /// Check this token; `AuthMiddlewareInner::on_token_checked` decides on the outcome.
    VerifyToken(String),
    /// Turn the request away.
    Reject(AuthFailure),
}

/// What the guard does once the token has been checked.
#[derive(Debug, PartialEq, Eq)]
pub enum Admission {
    /// Hand the request on, with these claims attached for the handlers.
    Admit(Claims),
    /// Turn the request away.
    Reject(AuthFailure),
}

/// The guard, before it is put in front of a service.
#[derive(Debug, Clone, Copy, PartialEq, Eq, Structural)]
pub struct AuthMiddleware;

/// The guard in front of `service`.
pub struct AuthMiddlewareInner<S> {
    pub service: S,
}

impl AuthMiddleware {
    /// Puts the guard in front of `service`.
    pub fn new_transform<S>(&self, service: S) -> (inner: AuthMiddlewareInner<S>)
        ensures
            inner.service == service,
    {
        AuthMiddlewareInner { service }
    }
}

/// Whether `path` is one of the public routes.
pub fn is_public_path(path: &str) -> (b: bool)
    ensures
        b == is_public_route(path@),
{
    let p = String::from_str(path);
    let login = String::from_str("/api/login");
    let register = String::from_str("/api/register");
    proof {
        reveal_strlit("/api/login");
        reveal_strlit("/api/register");
    }
    assert(login@ =~= seq!['/', 'a', 'p', 'i', '/', 'l', 'o', 'g', 'i', 'n']);
    assert(register@ =~= seq!['/', 'a', 'p', 'i', '/', 'r', 'e', 'g', 'i', 's', 't', 'e', 'r']);
    let is_login = p == login;
    let is_register = p == register;
    assert(is_login == (p@ == login@));
    is_login || is_register
}

/// The token in an `Authorization` header value: what follows `Bearer `.
pub fn bearer_token(header: &str) -> (t: Option<String>)
    ensures
        match t {
            Some(s) => bearer_token_of(header@) == Some(s@),
            None => bearer_token_of(header@) is None,
        },
        t matches Some(s) ==> header@ == seq!['B', 'e', 'a', 'r', 'e', 'r', ' '] + s@,
        (exists|rest: Seq<char>| header@ == seq!['B', 'e', 'a', 'r', 'e', 'r', ' '] + rest)
            ==> t is Some,
{
    let n = header.unicode_len();
    if n < 7 {
        return None;
    }
    let head = String::from_str(header.substring_char(0, 7));
    let prefix = String::from_str("Bearer ");
    proof {
        reveal_strlit("Bearer ");
    }
    assert(prefix@ =~= bearer_prefix());
    let same = head == prefix;
    assert(same == (head@ == prefix@));
    if same {
        let rest = String::from_str(header.substring_char(7, n));
        assert(head@ =~= header@.take(7));
        assert(rest@ =~= header@.skip(7));
        assert(header@ =~= bearer_prefix() + rest@);
        Some(rest)
    } else {
        assert(head@ =~= header@.take(7));
        proof {
            if exists|rest: Seq<char>| header@ == bearer_prefix() + rest {
                let rest = choose|rest: Seq<char>| header@ == bearer_prefix() + rest;
                assert(header@.take(7) =~= bearer_prefix());
            }
        }
        None
    }
}

/// The token of an `Authorization` header is exactly what follows `Bearer `,
/// whatever its length: a header yields `token` if and only if it is
/// `Bearer ` followed by `token`.
pub proof fn lemma_bearer_token_is_rest_of_header(header: Seq<char>, token: Seq<char>)
    ensures
        bearer_token_of(header) == Some(token) <==> header == seq![
            'B',
            'e',
            'a',
            'r',
            'e',
            'r',
            ' ',
        ] + token,
{
    if header == bearer_prefix() + token {
        assert(header.take(7) =~= bearer_prefix());
        assert(header.skip(7) =~= token);
    }
    if bearer_token_of(header) == Some(token) {
        assert(header =~= bearer_prefix() + token);
    }
}

impl<S> AuthMiddlewareInner<S> {
    /// The first decision on a request to `path` whose `Authorization` header,
    /// read as text, is `authorization` (`None` when absent or not text):
    /// public routes pass; others need a `Bearer ` token.
    pub fn call(&self, path: &str, authorization: Option<&str>) -> (step: GuardStep)
        ensures
            is_public_route(path@) ==> step == GuardStep::Forward,
            !is_public_route(path@) ==> match authorization {
                None => step == GuardStep::Reject(AuthFailure::MissingHeader),
                Some(h) => match bearer_token_of(h@) {
                    None => step == GuardStep::Reject(AuthFailure::MissingHeader),
                    Some(tok) => step matches GuardStep::VerifyToken(t) && t@ == tok,
                },
            },
        step matches GuardStep::VerifyToken(t) ==> authorization matches Some(h) && h@ == seq![
            'B',
            'e',
            'a',
            'r',
            'e',
            'r',
            ' ',
        ] + t@,
    {
        if is_public_path(path) {
            return GuardStep::Forward;
        }
        match authorization {
            None => GuardStep::Reject(AuthFailure::MissingHeader),
            Some(h) => match bearer_token(h) {
                None => GuardStep::Reject(AuthFailure::MissingHeader),
                Some(t) => GuardStep::VerifyToken(t),
            },
        }
    }

    /// The second decision, on the outcome of checking the token: the claims
    /// of a token that verifies are attached to the request; otherwise it is
    /// turned away.
    pub fn on_token_checked(&self, verified: Option<Claims>) -> (a: Admission)
        ensures
            match verified {
                Some(c) => a == Admission::Admit(c),
                None => a == Admission::Reject(AuthFailure::InvalidToken),
            },
    {
        match verified {
            Some(c) => Admission::Admit(c),
            None => Admission::Reject(AuthFailure::InvalidToken),
        }
    }
}

} // verus!
