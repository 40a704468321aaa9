use vstd::prelude::*;

use crate::bearer::{has_bearer, has_bearer_prefix, strip_bearer, strip_spec, StripPolicy};
use crate::cache::expiry;
use crate::error::{error_text, ErrorKind, ProviderError};
use crate::headers::{find_header, header_value};
use crate::http::{reply_failure, HttpRequest, Reply};
use crate::provider::{
    accept_exchange, accept_userinfo, bearer_view, client_credentials_form, is_form_post, subject_of,
    token_exchange_form, exchanged_token_of, grant_failure, grant_of, ClientCredentialProvider, MachineTokenStep, TokenBody, UserInfoBody,
};

verus! {

pub open spec fn authorization_header() -> Seq<char> {
    "authorization"@
}

/// What the host runtime is to do with a request.
#[derive(Clone, Debug)]
pub enum TranslationOutcome {
    /// Let the request through, setting and removing the given headers and,
    /// where given, asserting the subject as its mesh identity.
    Allowed { headers_to_set: Vec<(String, String)>, resolved_subject: Option<String>, headers_to_remove: Vec<String> },
    /// The request is not subject to translation.
    Skip,
    /// Fail the request.
    Error { message: String },
}

/// The next thing a flow asks of its caller.
#[derive(Clone, Debug)]
pub enum Action {
    /// Send this request and hand the reply back to the flow.
    Send(HttpRequest),
    /// The flow is over with this outcome.
    Finish(TranslationOutcome),
}

/// Where an ingress flow stands.
#[derive(Clone, Copy, Debug, PartialEq, Eq, Structural)]
pub enum IngressState {
    /// The client-credentials grant was sent.
    AwaitingGrant,
    /// The token exchange was sent.
    AwaitingExchange,
    /// The flow has finished.
    Done,
}

pub open spec fn ingress_error_text(subject: Seq<char>, e: ProviderError) -> Seq<char> {
    "Failed to get access token for user ID '"@ + subject + "': "@ + error_text(e.kind, e.failure, e.subject_view())
}

pub open spec fn egress_error_text(e: ProviderError) -> Seq<char> {
    "Failed to get user ID for access token: "@ + error_text(e.kind, e.failure, e.subject_view())
}

/// An outcome that lets the request through with `Authorization: Bearer
/// <token>` set and nothing else changed.
pub open spec fn allows_with_bearer(o: TranslationOutcome, token: Seq<char>) -> bool {
    match o {
        TranslationOutcome::Allowed { headers_to_set, resolved_subject, headers_to_remove } => {
            &&& headers_to_set@.len() == 1
            &&& headers_to_set@[0].0@ == authorization_header()
            &&& headers_to_set@[0].1@ == "Bearer "@ + token
            &&& resolved_subject.is_none()
            &&& headers_to_remove@.len() == 0
        },
        _ => false,
    }
}

/// An outcome that lets the request through as `subject`, with the
/// `Authorization` header removed.
pub open spec fn allows_as_subject(o: TranslationOutcome, subject: Seq<char>) -> bool {
    match o {
        TranslationOutcome::Allowed { headers_to_set, resolved_subject, headers_to_remove } => {
            &&& headers_to_set@.len() == 0
            &&& resolved_subject.is_some() && resolved_subject.unwrap()@ == subject
            &&& headers_to_remove@.len() == 1
            &&& headers_to_remove@[0]@ == authorization_header()
        },
        _ => false,
    }
}

pub open spec fn is_error_with(o: TranslationOutcome, message: Seq<char>) -> bool {
    match o {
        TranslationOutcome::Error { message: m } => m@ == message,
        _ => false,
    }
}

pub open spec fn is_skip(a: Action) -> bool {
    match a {
        Action::Finish(TranslationOutcome::Skip) => true,
        _ => false,
    }
}

pub open spec fn sends_exchange(a: Action, p: ClientCredentialProvider, machine_token: Seq<char>, subject: Seq<char>) -> bool {
    match a {
        Action::Send(req) => is_form_post(req, p.discovery.token_endpoint@, p.client_id@, p.client_secret@, token_exchange_form(machine_token, subject)),
        _ => false,
    }
}

pub open spec fn sends_grant(a: Action, p: ClientCredentialProvider) -> bool {
    match a {
        Action::Send(req) => is_form_post(req, p.discovery.token_endpoint@, p.client_id@, p.client_secret@, client_credentials_form()),
        _ => false,
    }
}

fn bearer_outcome(token: &str) -> (r: TranslationOutcome)
    ensures
        allows_with_bearer(r, token@),
{
    let mut value = String::from_str("Bearer ");
    value.append(token);
    let mut set: Vec<(String, String)> = Vec::new();
    set.push((String::from_str("authorization"), value));
    TranslationOutcome::Allowed { headers_to_set: set, resolved_subject: None, headers_to_remove: Vec::new() }
}

fn ingress_error(subject_id: &str, e: &ProviderError) -> (r: TranslationOutcome)
    ensures
        is_error_with(r, ingress_error_text(subject_id@, *e)),
{
    let mut m = String::from_str("Failed to get access token for user ID '");
    m.append(subject_id);
    m.append("': ");
    let detail = e.message();
    m.append(detail.as_str());
    TranslationOutcome::Error { message: m }
}

/// Starts ingress for a mesh-verified subject at time `now`: with a valid
/// cached machine token the token exchange is sent at once, else the
/// client-credentials grant is sent first.
pub fn ingress_start(p: &ClientCredentialProvider, subject_id: &str, now: u64) -> (r: (IngressState, Action))
    ensures
        match p.cache.usable_at(now) {
            Some(t) => r.0 == IngressState::AwaitingExchange && sends_exchange(r.1, *p, t, subject_id@),
            None => r.0 == IngressState::AwaitingGrant && sends_grant(r.1, *p),
        },
{
    match p.get_access_token(now) {
        MachineTokenStep::Cached(t) => (IngressState::AwaitingExchange, Action::Send(p.exchange_request(t.as_str(), subject_id))),
        MachineTokenStep::Grant(req) => (IngressState::AwaitingGrant, Action::Send(req)),
    }
}

/// Advances an ingress flow for `subject_id` with the reply to the request it
/// last sent, received at time `now`. A granted machine token is cached and
/// used for the exchange; an exchanged token is set as the bearer token; any
/// failure ends the flow with an error. The flow never skips a request, and
/// never sends a second client-credentials grant.
pub fn ingress_step(p: &mut ClientCredentialProvider, state: IngressState, subject_id: &str, now: u64, reply: Reply<TokenBody>) -> (r: (IngressState, Action))
    requires
        state != IngressState::Done,
    ensures
        !is_skip(r.1),
        r.0 != IngressState::AwaitingGrant,
        final(p).client_id == old(p).client_id,
        final(p).client_secret == old(p).client_secret,
        final(p).discovery == old(p).discovery,
        state == IngressState::AwaitingGrant ==> match grant_of(reply, now) {
            Some((t, e)) => r.0 == IngressState::AwaitingExchange
                && final(p).cache.view_at() == Some((t, expiry(now, e)))
                && now < expiry(now, e)
                && sends_exchange(r.1, *final(p), t, subject_id@),
            None => r.0 == IngressState::Done && final(p).cache == old(p).cache
                && exists|e: ProviderError| e.kind == ErrorKind::Authentication && e.failure == grant_failure(reply)
                    && e.subject.is_none() && #[trigger] finishes_with_error(r.1, ingress_error_text(subject_id@, e)),
        },
        state == IngressState::AwaitingExchange ==> r.0 == IngressState::Done && final(p).cache == old(p).cache
            && match exchanged_token_of(reply) {
            Some(t) => t.len() > 0 && match r.1 {
                Action::Finish(o) => allows_with_bearer(o, t),
                _ => false,
            },
            None => exists|e: ProviderError| e.kind == ErrorKind::TokenExchange && e.failure == reply_failure(reply)
                && e.subject_view() == Some(subject_id@) && #[trigger] finishes_with_error(r.1, ingress_error_text(subject_id@, e)),
        },
{
    match state {
        IngressState::AwaitingGrant => match p.accept_grant(now, reply) {
            Ok(t) => {
                let req = p.exchange_request(t.as_str(), subject_id);
                (IngressState::AwaitingExchange, Action::Send(req))
            },
            Err(e) => {
                let o = ingress_error(subject_id, &e);
                let r = (IngressState::Done, Action::Finish(o));
                assert(finishes_with_error(r.1, ingress_error_text(subject_id@, e)));
                r
            },
        },
        _ => match accept_exchange(subject_id, reply) {
            Ok(t) => (IngressState::Done, Action::Finish(bearer_outcome(t.as_str()))),
            Err(e) => {
                let o = ingress_error(subject_id, &e);
                let r = (IngressState::Done, Action::Finish(o));
                assert(finishes_with_error(r.1, ingress_error_text(subject_id@, e)));
                r
            },
        },
    }
}

pub open spec fn finishes_with_error(a: Action, message: Seq<char>) -> bool {
    match a {
        Action::Finish(o) => is_error_with(o, message),
        _ => false,
    }
}

/// Starts egress for a request with the given headers. Without an
/// `Authorization` header, or with one that does not start with
/// `"Bearer "`, the request is skipped and nothing is sent; otherwise the
/// token is sent to the userinfo endpoint.
pub fn egress_start(p: &ClientCredentialProvider, headers: &Vec<(String, String)>, policy: StripPolicy) -> (r: Action)
    ensures
        match header_value(headers@, authorization_header()) {
            Some(v) => if has_bearer_prefix(v) {
                match r {
                    Action::Send(req) => req.method == crate::http::Method::Get
                        && req.url@ == p.discovery.userinfo_endpoint@
                        && req.basic_auth.is_none() && req.form@.len() == 0
                        && bearer_view(req.bearer) == Some(strip_spec(policy, v)),
                    _ => false,
                }
            } else {
                is_skip(r)
            },
            None => is_skip(r),
        },
{
    match find_header(headers, "authorization") {
        None => Action::Finish(TranslationOutcome::Skip),
        Some(v) => {
            if !has_bearer(v.as_str()) {
                Action::Finish(TranslationOutcome::Skip)
            } else {
                let token = strip_bearer(policy, v.as_str());
                Action::Send(p.userinfo_request(token.as_str()))
            }
        },
    }
}

/// Ends egress with the reply of the userinfo endpoint: the request passes as
/// the resolved subject with its `Authorization` header removed, or fails.
pub fn egress_finish(reply: Reply<UserInfoBody>) -> (r: TranslationOutcome)
    ensures
        match subject_of(reply) {
            Some(s) => allows_as_subject(r, s),
            None => exists|e: ProviderError| e.kind == ErrorKind::UserResolution && e.failure == reply_failure(reply)
                && e.subject.is_none() && #[trigger] is_error_with(r, egress_error_text(e)),
        },
{
    match accept_userinfo(reply) {
        Ok(s) => {
            let mut remove: Vec<String> = Vec::new();
            remove.push(String::from_str("authorization"));
            TranslationOutcome::Allowed { headers_to_set: Vec::new(), resolved_subject: Some(s), headers_to_remove: remove }
        },
        Err(e) => {
            let mut m = String::from_str("Failed to get user ID for access token: ");
            let detail = e.message();
            m.append(detail.as_str());
            let r = TranslationOutcome::Error { message: m };
            assert(is_error_with(r, egress_error_text(e)));
            r
        },
    }
}

} // verus!
