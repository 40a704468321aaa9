use vstd::prelude::*;

use crate::error::{ErrorKind, Failure, ProviderError};
use crate::http::{check_reply, reply_body, reply_failure, HttpRequest, Method, Reply};

verus! {

/// The fields of a discovery document as decoded from JSON; either may be
/// absent.
#[derive(Clone, Debug)]
pub struct DiscoveryFields {
    pub token_endpoint: Option<String>,
    pub userinfo_endpoint: Option<String>,
}

/// The endpoints of an OIDC provider, fixed once resolved.
#[derive(Clone, Debug)]
pub struct DiscoveryDocument {
    pub token_endpoint: String,
    pub userinfo_endpoint: String,
}

impl View for DiscoveryDocument {
    type V = (Seq<char>, Seq<char>);

    open spec fn view(&self) -> (Seq<char>, Seq<char>) {
        (self.token_endpoint@, self.userinfo_endpoint@)
    }
}

pub open spec fn well_known_suffix() -> Seq<char> {
    "/.well-known/openid-configuration"@
}

/// The discovery URL: the override where one is given, else the issuer
/// followed by the well-known path.
pub open spec fn discovery_url_spec(issuer: Seq<char>, override_url: Option<Seq<char>>) -> Seq<char> {
    match override_url {
        Some(u) => u,
        None => issuer + well_known_suffix(),
    }
}

pub fn discovery_url(issuer: &str, override_url: Option<&str>) -> (r: String)
    ensures
        r@ == discovery_url_spec(
            issuer@,
            match override_url {
                Some(u) => Some(u@),
                None => None,
            },
        ),
{
    match override_url {
        Some(u) => String::from_str(u),
        None => {
            let mut r = String::from_str(issuer);
            r.append("/.well-known/openid-configuration");
            r
        },
    }
}

/// The one request that fetches the discovery document: a plain GET of the
/// discovery URL.
pub fn discovery_request(issuer: &str, override_url: Option<&str>) -> (r: HttpRequest)
    ensures
        r.method == Method::Get,
        r.url@ == discovery_url_spec(
            issuer@,
            match override_url {
                Some(u) => Some(u@),
                None => None,
            },
        ),
        r.basic_auth.is_none(),
        r.bearer.is_none(),
        r.form@.len() == 0,
{
    HttpRequest {
        method: Method::Get,
        url: discovery_url(issuer, override_url),
        basic_auth: None,
        bearer: None,
        form: Vec::new(),
    }
}

/// The document that a discovery reply yields, as (token endpoint, userinfo
/// endpoint), or `None` where the reply is no success or lacks a field.
pub open spec fn document_of(r: Reply<DiscoveryFields>) -> Option<(Seq<char>, Seq<char>)> {
    match reply_body(r) {
        Some(f) => match (f.token_endpoint, f.userinfo_endpoint) {
            (Some(t), Some(u)) => Some((t@, u@)),
            _ => None,
        },
        None => None,
    }
}

/// The cause reported for a discovery reply that yields no document.
pub open spec fn discovery_failure(r: Reply<DiscoveryFields>) -> Failure {
    reply_failure(r)
}

/// Turns the reply to the discovery request into the provider's endpoints.
pub fn resolve_discovery(r: Reply<DiscoveryFields>) -> (res: Result<DiscoveryDocument, ProviderError>)
    ensures
        match res {
            Ok(d) => document_of(r) == Some(d@),
            Err(e) => document_of(r).is_none() && e.kind == ErrorKind::Discovery
                && e.failure == discovery_failure(r) && e.subject.is_none(),
        },
{
    match check_reply(r) {
        Ok(f) => match (f.token_endpoint, f.userinfo_endpoint) {
            (Some(t), Some(u)) => Ok(DiscoveryDocument { token_endpoint: t, userinfo_endpoint: u }),
            _ => Err(ProviderError { kind: ErrorKind::Discovery, failure: Failure::Malformed, subject: None }),
        },
        Err(f) => Err(ProviderError { kind: ErrorKind::Discovery, failure: f, subject: None }),
    }
}

/// A discovery reply as plain values: its status and the decoded fields.
pub open spec fn reply_view(r: Reply<DiscoveryFields>) -> Option<(u16, Option<(Option<Seq<char>>, Option<Seq<char>>)>)> {
    match r {
        Reply::Unreachable => None,
        Reply::Received { status, body } => Some((status, match body {
            Some(f) => Some((
                match f.token_endpoint {
                    Some(t) => Some(t@),
                    None => None,
                },
                match f.userinfo_endpoint {
                    Some(u) => Some(u@),
                    None => None,
                },
            )),
            None => None,
        })),
    }
}

/// Resolving the same discovery document twice yields the same endpoints, or
/// the same error: the outcome depends on the reply's content alone.
pub proof fn lemma_discovery_idempotent(r1: Reply<DiscoveryFields>, r2: Reply<DiscoveryFields>)
    requires
        reply_view(r1) == reply_view(r2),
    ensures
        document_of(r1) == document_of(r2),
        discovery_failure(r1) == discovery_failure(r2),
{
}

} // verus!
