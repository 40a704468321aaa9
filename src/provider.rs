use vstd::prelude::*;

use crate::cache::{after_call, expiry, usable_in, CredentialCache};
use crate::discovery::{document_of, discovery_failure, resolve_discovery, DiscoveryDocument, DiscoveryFields};
use crate::error::{ErrorKind, Failure, ProviderError};
use crate::http::{check_reply, form_view, push_field, reply_body, reply_failure, HttpRequest, Method, Reply};

verus! {

/// The body of a token endpoint's answer as decoded from JSON.
#[derive(Clone, Debug)]
pub struct TokenBody {
    pub access_token: Option<String>,
    pub expires_in: Option<u64>,
}

/// The body of a userinfo endpoint's answer as decoded from JSON.
#[derive(Clone, Debug)]
pub struct UserInfoBody {
    pub sub: Option<String>,
}

/// How the translator authenticates itself against the issuer.
#[derive(Clone, Copy, Debug, PartialEq, Eq, Structural)]
pub enum AuthType {
    /// Client ID and client secret, sent as HTTP Basic authentication.
    ClientCredentials,
    /// A signed JWT profile (RFC 7523); not implemented.
    JwtProfile,
}

/// The token and lifetime that a token reply carries: a success status and a
/// body with an `access_token` and an `expires_in`.
pub open spec fn token_fields(r: Reply<TokenBody>) -> Option<(Seq<char>, u64)> {
    match reply_body(r) {
        Some(b) => match (b.access_token, b.expires_in) {
            (Some(t), Some(e)) => Some((t@, e)),
            _ => None,
        },
        None => None,
    }
}

/// The machine token and lifetime that a client-credentials reply received at
/// `now` grants: its token, where the token has not expired by `now`.
pub open spec fn grant_of(r: Reply<TokenBody>, now: u64) -> Option<(Seq<char>, u64)> {
    match token_fields(r) {
        Some((t, e)) => if now < expiry(now, e) {
            Some((t, e))
        } else {
            None
        },
        None => None,
    }
}

/// Why a client-credentials reply grants no token: the reply's own failure,
/// or a malformed answer where its token would already have expired.
pub open spec fn grant_failure(r: Reply<TokenBody>) -> Failure {
    match token_fields(r) {
        Some(_) => Failure::Malformed,
        None => reply_failure(r),
    }
}

/// The token that a token-exchange reply carries: a non-empty `access_token`.
pub open spec fn exchanged_token_of(r: Reply<TokenBody>) -> Option<Seq<char>> {
    match token_fields(r) {
        Some((t, _)) => if t.len() > 0 {
            Some(t)
        } else {
            None
        },
        None => None,
    }
}

/// The subject that a userinfo reply carries.
pub open spec fn subject_of(r: Reply<UserInfoBody>) -> Option<Seq<char>> {
    match reply_body(r) {
        Some(b) => match b.sub {
            Some(s) => Some(s@),
            None => None,
        },
        None => None,
    }
}

pub open spec fn client_credentials_form() -> Seq<(Seq<char>, Seq<char>)> {
    seq![("grant_type"@, "client_credentials"@)]
}

pub open spec fn token_exchange_form(machine_token: Seq<char>, subject: Seq<char>) -> Seq<(Seq<char>, Seq<char>)> {
    seq![
        ("grant_type"@, "urn:ietf:params:oauth:grant-type:token-exchange"@),
        ("subject_token_type"@, "urn:ietf:params:oauth:token-type:access_token"@),
        ("subject_token"@, machine_token),
        ("requested_subject"@, subject),
        ("requested_token_type"@, "urn:ietf:params:oauth:token-type:access_token"@),
    ]
}

pub open spec fn basic_auth_view(b: Option<(String, String)>) -> Option<(Seq<char>, Seq<char>)> {
    match b {
        Some(p) => Some((p.0@, p.1@)),
        None => None,
    }
}

pub open spec fn bearer_view(b: Option<String>) -> Option<Seq<char>> {
    match b {
        Some(t) => Some(t@),
        None => None,
    }
}

/// A POST to `url` authenticated by HTTP Basic with `(id, secret)` and
/// carrying `form`.
pub open spec fn is_form_post(
    r: HttpRequest,
    url: Seq<char>,
    id: Seq<char>,
    secret: Seq<char>,
    form: Seq<(Seq<char>, Seq<char>)>,
) -> bool {
    &&& r.method == Method::Post
    &&& r.url@ == url
    &&& basic_auth_view(r.basic_auth) == Some((id, secret))
    &&& r.bearer.is_none()
    &&& form_view(r.form@) == form
}

/// Checks that both credentials of the client-credentials mode are set.
pub fn require_client_credentials(client_id: Option<String>, client_secret: Option<String>) -> (r: Result<(String, String), ProviderError>)
    ensures
        match r {
            Ok((i, s)) => client_id == Some(i) && client_secret == Some(s),
            Err(e) => (client_id.is_none() || client_secret.is_none())
                && e.kind == ErrorKind::Configuration && e.failure == Failure::MissingCredential
                && e.subject.is_none(),
        },
{
    match (client_id, client_secret) {
        (Some(i), Some(s)) => Ok((i, s)),
        _ => Err(ProviderError { kind: ErrorKind::Configuration, failure: Failure::MissingCredential, subject: None }),
    }
}

/// Checks that the selected authentication mode is one this translator
/// implements.
pub fn require_supported(auth: AuthType) -> (r: Result<(), ProviderError>)
    ensures
        r.is_ok() <==> auth == AuthType::ClientCredentials,
        match r {
            Ok(_) => true,
            Err(e) => e.kind == ErrorKind::Configuration && e.failure == Failure::NotImplemented
                && e.subject.is_none(),
        },
{
    match auth {
        AuthType::ClientCredentials => Ok(()),
        AuthType::JwtProfile => Err(ProviderError { kind: ErrorKind::Configuration, failure: Failure::NotImplemented, subject: None }),
    }
}

/// A provider that authenticates with a client ID and secret and mints
/// user-scoped tokens by token exchange.
#[derive(Clone, Debug)]
pub struct ClientCredentialProvider {
    pub client_id: String,
    pub client_secret: String,
    pub discovery: DiscoveryDocument,
    pub cache: CredentialCache,
}

/// What the caller of `get_access_token` does next.
#[derive(Clone, Debug)]
pub enum MachineTokenStep {
    /// The cached token is valid: use it, no request is needed.
    Cached(String),
    /// Send this client-credentials grant and hand its reply to `accept_grant`.
    Grant(HttpRequest),
}

impl ClientCredentialProvider {
    /// Builds a provider from the reply to its discovery request; fails where
    /// discovery does.
    pub fn new(discovery: Reply<DiscoveryFields>, client_id: String, client_secret: String) -> (r: Result<ClientCredentialProvider, ProviderError>)
        ensures
            match r {
                Ok(p) => document_of(discovery) == Some(p.discovery@) && p.client_id == client_id
                    && p.client_secret == client_secret && p.cache.current.is_none(),
                Err(e) => document_of(discovery).is_none() && e.kind == ErrorKind::Discovery
                    && e.failure == discovery_failure(discovery) && e.subject.is_none(),
            },
    {
        match resolve_discovery(discovery) {
            Ok(d) => Ok(ClientCredentialProvider { client_id, client_secret, discovery: d, cache: CredentialCache::new() }),
            Err(e) => Err(e),
        }
    }

    pub fn discovery(&self) -> (r: &DiscoveryDocument)
        ensures
            r == &self.discovery,
    {
        &self.discovery
    }

    /// The client-credentials grant for the machine account.
    pub fn client_credentials_request(&self) -> (r: HttpRequest)
        ensures
            is_form_post(r, self.discovery.token_endpoint@, self.client_id@, self.client_secret@, client_credentials_form()),
    {
        let mut form: Vec<(String, String)> = Vec::new();
        push_field(&mut form, "grant_type", "client_credentials");
        proof {
            assert(form_view(form@) =~= client_credentials_form());
        }
        HttpRequest {
            method: Method::Post,
            url: self.discovery.token_endpoint.clone(),
            basic_auth: Some((self.client_id.clone(), self.client_secret.clone())),
            bearer: None,
            form,
        }
    }

    /// The cached machine token where it is valid at `now`, else the grant
    /// that obtains a new one.
    pub fn get_access_token(&self, now: u64) -> (r: MachineTokenStep)
        ensures
            match r {
                MachineTokenStep::Cached(t) => self.cache.usable_at(now) == Some(t@),
                MachineTokenStep::Grant(req) => self.cache.usable_at(now).is_none()
                    && is_form_post(req, self.discovery.token_endpoint@, self.client_id@, self.client_secret@, client_credentials_form()),
            },
    {
        match self.cache.token_at(now) {
            Some(t) => MachineTokenStep::Cached(t),
            None => MachineTokenStep::Grant(self.client_credentials_request()),
        }
    }

    /// Takes the reply to the client-credentials grant, received at `now`. On
    /// success the new token is cached and returned; a token that would have
    /// expired by `now` is refused as malformed. On failure the cache is left
    /// as it was.
    pub fn accept_grant(&mut self, now: u64, reply: Reply<TokenBody>) -> (r: Result<String, ProviderError>)
        ensures
            final(self).client_id == old(self).client_id,
            final(self).client_secret == old(self).client_secret,
            final(self).discovery == old(self).discovery,
            !usable_in(old(self).cache.view_at(), now) ==> final(self).cache.view_at() == after_call(
                old(self).cache.view_at(),
                now,
                grant_of(reply, now),
            ),
            match r {
                Ok(t) => grant_of(reply, now) == Some((t@, grant_of(reply, now).unwrap().1))
                    && final(self).cache.view_at() == Some((t@, expiry(now, grant_of(reply, now).unwrap().1)))
                    && now < final(self).cache.current.unwrap().expires_at,
                Err(e) => grant_of(reply, now).is_none() && final(self).cache == old(self).cache
                    && e.kind == ErrorKind::Authentication && e.failure == grant_failure(reply)
                    && e.subject.is_none(),
            },
    {
        match accept_token(reply) {
            Ok((t, e)) => {
                if e == 0 || now == u64::MAX {
                    return Err(ProviderError { kind: ErrorKind::Authentication, failure: Failure::Malformed, subject: None });
                }
                self.cache.store(t.clone(), e, now);
                Ok(t)
            },
            Err(f) => Err(ProviderError { kind: ErrorKind::Authentication, failure: f, subject: None }),
        }
    }

    /// The token-exchange grant that mints a token for `user_id` from the
    /// machine token.
    pub fn exchange_request(&self, machine_token: &str, user_id: &str) -> (r: HttpRequest)
        ensures
            is_form_post(r, self.discovery.token_endpoint@, self.client_id@, self.client_secret@, token_exchange_form(machine_token@, user_id@)),
    {
        let mut form: Vec<(String, String)> = Vec::new();
        push_field(&mut form, "grant_type", "urn:ietf:params:oauth:grant-type:token-exchange");
        push_field(&mut form, "subject_token_type", "urn:ietf:params:oauth:token-type:access_token");
        push_field(&mut form, "subject_token", machine_token);
        push_field(&mut form, "requested_subject", user_id);
        push_field(&mut form, "requested_token_type", "urn:ietf:params:oauth:token-type:access_token");
        proof {
            assert(form_view(form@) =~= token_exchange_form(machine_token@, user_id@));
        }
        HttpRequest {
            method: Method::Post,
            url: self.discovery.token_endpoint.clone(),
            basic_auth: Some((self.client_id.clone(), self.client_secret.clone())),
            bearer: None,
            form,
        }
    }

    /// The request that resolves a caller's bearer token to its subject.
    pub fn userinfo_request(&self, token: &str) -> (r: HttpRequest)
        ensures
            r.method == Method::Get,
            r.url@ == self.discovery.userinfo_endpoint@,
            r.basic_auth.is_none(),
            bearer_view(r.bearer) == Some(token@),
            r.form@.len() == 0,
    {
        HttpRequest {
            method: Method::Get,
            url: self.discovery.userinfo_endpoint.clone(),
            basic_auth: None,
            bearer: Some(String::from_str(token)),
            form: Vec::new(),
        }
    }
}

/// Reads the token and lifetime from a token reply.
pub fn accept_token(reply: Reply<TokenBody>) -> (r: Result<(String, u64), Failure>)
    ensures
        match r {
            Ok((t, e)) => token_fields(reply) == Some((t@, e)),
            Err(f) => token_fields(reply).is_none() && f == reply_failure(reply),
        },
{
    match check_reply(reply) {
        Ok(b) => match (b.access_token, b.expires_in) {
            (Some(t), Some(e)) => Ok((t, e)),
            _ => Err(Failure::Malformed),
        },
        Err(f) => Err(f),
    }
}

/// Takes the reply to the token exchange made for `user_id`: the exchanged
/// token, which is not cached.
pub fn accept_exchange(user_id: &str, reply: Reply<TokenBody>) -> (r: Result<String, ProviderError>)
    ensures
        match r {
            Ok(t) => exchanged_token_of(reply) == Some(t@),
            Err(e) => exchanged_token_of(reply).is_none() && e.kind == ErrorKind::TokenExchange
                && e.failure == reply_failure(reply) && e.subject_view() == Some(user_id@),
        },
{
    match accept_token(reply) {
        Ok((t, _)) => {
            if t.as_str().unicode_len() > 0 {
                Ok(t)
            } else {
                Err(ProviderError { kind: ErrorKind::TokenExchange, failure: Failure::Malformed, subject: Some(String::from_str(user_id)) })
            }
        },
        Err(f) => Err(ProviderError { kind: ErrorKind::TokenExchange, failure: f, subject: Some(String::from_str(user_id)) }),
    }
}

/// Takes the reply to a userinfo request: the subject it names.
pub fn accept_userinfo(reply: Reply<UserInfoBody>) -> (r: Result<String, ProviderError>)
    ensures
        match r {
            Ok(s) => subject_of(reply) == Some(s@),
            Err(e) => subject_of(reply).is_none() && e.kind == ErrorKind::UserResolution
                && e.failure == reply_failure(reply) && e.subject.is_none(),
        },
{
    match check_reply(reply) {
        Ok(b) => match b.sub {
            Some(s) => Ok(s),
            None => Err(ProviderError { kind: ErrorKind::UserResolution, failure: Failure::Malformed, subject: None }),
        },
        Err(f) => Err(ProviderError { kind: ErrorKind::UserResolution, failure: f, subject: None }),
    }
}

} // verus!
