//! aria2's JSON-RPC envelope as the daemon uses it: the secret token that
//! leads the parameters, and how a reply becomes a result or an error.
use vstd::prelude::*;
use crate::text::{push_str, signed_decimal, signed_decimal_string};

verus! {

/// Why an aria2 call failed.
#[derive(Clone, Debug, PartialEq, Eq)]
pub enum Aria2Error {
    /// aria2 could not be reached; the transport's message.
    Http(String),
    /// aria2 answered with an error.
    Rpc { code: i64, message: String },
    /// The answer had neither a result nor an error; the answer's text.
    UnexpectedResponse(String),
}

pub open spec fn aria2_error_text(e: Aria2Error) -> Seq<char> {
    match e {
        Aria2Error::Http(m) => "aria2 unreachable: "@ + m@,
        Aria2Error::Rpc { code, message } => "aria2 error "@ + signed_decimal(code as int) + ": "@ + message@,
        Aria2Error::UnexpectedResponse(s) => "unexpected aria2 response: "@ + s@,
    }
}

impl Aria2Error {
    /// The error as the daemon reports it.
    pub fn message(&self) -> (r: String)
        ensures
            r@ == aria2_error_text(*self),
    {
        match self {
            Aria2Error::Http(m) => {
                let mut s = "aria2 unreachable: ".to_owned();
                push_str(&mut s, m.as_str());
                s
            },
            Aria2Error::Rpc { code, message } => {
                let mut s = "aria2 error ".to_owned();
                push_str(&mut s, signed_decimal_string(*code).as_str());
                push_str(&mut s, ": ");
                push_str(&mut s, message.as_str());
                s
            },
            Aria2Error::UnexpectedResponse(t) => {
                let mut s = "unexpected aria2 response: ".to_owned();
                push_str(&mut s, t.as_str());
                s
            },
        }
    }
}

/// The token parameter that leads every call when aria2 has a secret.
pub open spec fn token_text(secret: Seq<char>) -> Seq<char> {
    "token:"@ + secret
}

pub fn rpc_token(secret: &Option<String>) -> (r: Option<String>)
    ensures
        match secret {
            Some(s) => r matches Some(t) && t@ == token_text(s@),
            None => r is None,
        },
{
    match secret {
        Some(s) => {
            let mut t = "token:".to_owned();
            push_str(&mut t, s.as_str());
            Some(t)
        },
        None => None,
    }
}

/// What a reply holds: its `error` member (with the code and message when
/// they have the right types), its `result` member, and its text.
#[derive(Clone, Debug)]
pub struct RpcReply<T> {
    pub error: Option<(Option<i64>, Option<String>)>,
    pub result: Option<T>,
    pub text: String,
}

/// An error member wins; its code defaults to 0 and its message to
/// "unknown aria2 error". Without one, the result is taken, and a reply
/// with neither is unexpected.
pub fn reply_outcome<T>(reply: RpcReply<T>) -> (r: Result<T, Aria2Error>)
    ensures
        match reply.error {
            Some((code, message)) => r matches Err(Aria2Error::Rpc { code: c, message: m }) && c == (match code {
                Some(k) => k,
                None => 0,
            }) && m@ == (match message {
                Some(t) => t@,
                None => "unknown aria2 error"@,
            }),
            None => match reply.result {
                Some(v) => r == Ok::<T, Aria2Error>(v),
                None => r matches Err(Aria2Error::UnexpectedResponse(t)) && t@ == reply.text@,
            },
        },
{
    match reply.error {
        Some((code, message)) => {
            let c = match code {
                Some(k) => k,
                None => 0,
            };
            let m = match message {
                Some(t) => t,
                None => "unknown aria2 error".to_owned(),
            };
            Err(Aria2Error::Rpc { code: c, message: m })
        },
        None => match reply.result {
            Some(v) => Ok(v),
            None => Err(Aria2Error::UnexpectedResponse(reply.text)),
        },
    }
}

} // verus!
