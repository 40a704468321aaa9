use vstd::prelude::*;

use crate::error::Failure;

verus! {

/// The HTTP method of a request to the identity provider.
#[derive(Clone, Copy, Debug, PartialEq, Eq, Structural)]
pub enum Method {
    Get,
    Post,
}

/// A request for the caller to send, described as plain values.
#[derive(Clone, Debug)]
pub struct HttpRequest {
    pub method: Method,
    pub url: String,
    /// HTTP Basic authentication as (user name, password).
    pub basic_auth: Option<(String, String)>,
    /// A token for an `Authorization: Bearer <token>` header.
    pub bearer: Option<String>,
    /// Fields of an `application/x-www-form-urlencoded` body, in order.
    pub form: Vec<(String, String)>,
}

/// What came back from a request: nothing, or a status and the body decoded
/// into `T` (`None` where it could not be decoded).
#[derive(Clone, Debug)]
pub enum Reply<T> {
    Unreachable,
    Received { status: u16, body: Option<T> },
}

pub open spec fn is_success_status(status: u16) -> bool {
    200 <= status <= 299
}

/// The body of a reply that counts as an answer, if there is one.
pub open spec fn reply_body<T>(r: Reply<T>) -> Option<T> {
    match r {
        Reply::Received { status, body: Some(b) } => if is_success_status(status) {
            Some(b)
        } else {
            None
        },
        _ => None,
    }
}

/// Why a reply is no answer: meaningful where `reply_body` is `None`, and
/// for a body that lacks a field.
pub open spec fn reply_failure<T>(r: Reply<T>) -> Failure {
    match r {
        Reply::Unreachable => Failure::Unreachable,
        Reply::Received { status, body } => if !is_success_status(status) {
            Failure::Status(status)
        } else {
            Failure::Malformed
        },
    }
}

/// Splits a reply into its body, or the failure that it amounts to.
pub fn check_reply<T>(r: Reply<T>) -> (res: Result<T, Failure>)
    ensures
        match res {
            Ok(b) => reply_body(r) == Some(b),
            Err(f) => reply_body(r).is_none() && f == reply_failure(r),
        },
{
    match r {
        Reply::Unreachable => Err(Failure::Unreachable),
        Reply::Received { status, body } => {
            if status < 200 || status > 299 {
                Err(Failure::Status(status))
            } else {
                match body {
                    Some(b) => Ok(b),
                    None => Err(Failure::Malformed),
                }
            }
        },
    }
}

pub open spec fn pair_view(p: (String, String)) -> (Seq<char>, Seq<char>) {
    (p.0@, p.1@)
}

/// The form fields of a request as character sequences.
pub open spec fn form_view(f: Seq<(String, String)>) -> Seq<(Seq<char>, Seq<char>)> {
    f.map_values(|p: (String, String)| pair_view(p))
}

/// Appends one form field.
pub fn push_field(form: &mut Vec<(String, String)>, name: &str, value: &str)
    ensures
        form_view(final(form)@) == form_view(old(form)@).push((name@, value@)),
{
    form.push((String::from_str(name), String::from_str(value)));
    proof {
        assert(form_view(final(form)@) =~= form_view(old(form)@).push((name@, value@)));
    }
}

} // verus!
