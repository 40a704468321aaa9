use token_exchange_translator::bearer::StripPolicy;
use token_exchange_translator::discovery::DiscoveryFields;
use token_exchange_translator::error::{ErrorKind, Failure};
use token_exchange_translator::http::{HttpRequest, Method, Reply};
use token_exchange_translator::provider::{ClientCredentialProvider, MachineTokenStep, TokenBody, UserInfoBody};
use token_exchange_translator::translator::{
    egress_finish, egress_start, ingress_start, ingress_step, Action, IngressState, TranslationOutcome,
};

fn s(v: &str) -> String {
    v.to_string()
}

fn discovery_reply() -> Reply<DiscoveryFields> {
    Reply::Received {
        status: 200,
        body: Some(DiscoveryFields {
            token_endpoint: Some(s("https://idp/token")),
            userinfo_endpoint: Some(s("https://idp/userinfo")),
        }),
    }
}

fn provider() -> ClientCredentialProvider {
    match ClientCredentialProvider::new(discovery_reply(), s("client"), s("topsecret")) {
        Ok(p) => p,
        Err(_) => panic!("discovery should succeed"),
    }
}

fn token_reply(token: &str, expires_in: u64) -> Reply<TokenBody> {
    Reply::Received {
        status: 200,
        body: Some(TokenBody { access_token: Some(s(token)), expires_in: Some(expires_in) }),
    }
}

fn form(req: &HttpRequest) -> Vec<(&str, &str)> {
    req.form.iter().map(|(k, v)| (k.as_str(), v.as_str())).collect()
}

fn sent(a: &Action) -> &HttpRequest {
    match a {
        Action::Send(r) => r,
        Action::Finish(_) => panic!("expected a request"),
    }
}

fn headers(pairs: &[(&str, &str)]) -> Vec<(String, String)> {
    pairs.iter().map(|(k, v)| (s(k), s(v))).collect()
}

#[test]
fn ingress_mints_token_for_subject() {
    let mut p = provider();
    let (state, action) = ingress_start(&p, "alice", 1000);
    assert_eq!(state, IngressState::AwaitingGrant);
    let grant = sent(&action);
    assert_eq!(grant.method, Method::Post);
    assert_eq!(grant.url, "https://idp/token");
    assert_eq!(grant.basic_auth, Some((s("client"), s("topsecret"))));
    assert_eq!(form(grant), vec![("grant_type", "client_credentials")]);

    let (state, action) = ingress_step(&mut p, state, "alice", 1000, token_reply("m1", 3600));
    assert_eq!(state, IngressState::AwaitingExchange);
    let exchange = sent(&action);
    assert_eq!(exchange.url, "https://idp/token");
    assert_eq!(exchange.basic_auth, Some((s("client"), s("topsecret"))));
    assert_eq!(
        form(exchange),
        vec![
            ("grant_type", "urn:ietf:params:oauth:grant-type:token-exchange"),
            ("subject_token_type", "urn:ietf:params:oauth:token-type:access_token"),
            ("subject_token", "m1"),
            ("requested_subject", "alice"),
            ("requested_token_type", "urn:ietf:params:oauth:token-type:access_token"),
        ]
    );

    let (state, action) = ingress_step(&mut p, state, "alice", 1001, token_reply("u1", 60));
    assert_eq!(state, IngressState::Done);
    match action {
        Action::Finish(TranslationOutcome::Allowed { headers_to_set, resolved_subject, headers_to_remove }) => {
            assert_eq!(headers_to_set, vec![(s("authorization"), s("Bearer u1"))]);
            assert_eq!(resolved_subject, None);
            assert!(headers_to_remove.is_empty());
        },
        _ => panic!("expected Allowed"),
    }
}

#[test]
fn ingress_reuses_cached_machine_token() {
    let mut p = provider();
    let (state, _) = ingress_start(&p, "alice", 1000);
    let _ = ingress_step(&mut p, state, "alice", 1000, token_reply("m1", 3600));
    // A second request within the lifetime goes straight to the exchange.
    let (state, action) = ingress_start(&p, "bob", 2000);
    assert_eq!(state, IngressState::AwaitingExchange);
    let f = form(sent(&action));
    assert_eq!(f[2], ("subject_token", "m1"));
    assert_eq!(f[3], ("requested_subject", "bob"));
}

#[test]
fn ingress_grant_unauthorized_is_error_without_secrets() {
    let mut p = provider();
    let (state, _) = ingress_start(&p, "alice", 1000);
    let reply: Reply<TokenBody> = Reply::Received { status: 401, body: None };
    let (state, action) = ingress_step(&mut p, state, "alice", 1000, reply);
    assert_eq!(state, IngressState::Done);
    match action {
        Action::Finish(TranslationOutcome::Error { message }) => {
            assert!(message.contains("alice"));
            assert!(message.contains("machine authentication failed"));
            assert!(!message.contains("topsecret"));
            assert!(!message.contains("client"));
        },
        _ => panic!("expected Error"),
    }
    assert!(p.cache.current.is_none());
}

#[test]
fn ingress_exchange_failure_names_subject_not_token() {
    let mut p = provider();
    let (state, _) = ingress_start(&p, "alice", 1000);
    let (state, _) = ingress_step(&mut p, state, "alice", 1000, token_reply("m1", 3600));
    let (state, action) = ingress_step(&mut p, state, "alice", 1000, Reply::Unreachable);
    assert_eq!(state, IngressState::Done);
    match action {
        Action::Finish(TranslationOutcome::Error { message }) => {
            assert_eq!(
                message,
                "Failed to get access token for user ID 'alice': token exchange failed for subject 'alice': the identity provider could not be reached"
            );
            assert!(!message.contains("m1"));
        },
        _ => panic!("expected Error"),
    }
}

#[test]
fn ingress_empty_exchanged_token_is_error() {
    let mut p = provider();
    let (state, _) = ingress_start(&p, "alice", 1000);
    let (state, _) = ingress_step(&mut p, state, "alice", 1000, token_reply("m1", 3600));
    let (_, action) = ingress_step(&mut p, state, "alice", 1000, token_reply("", 60));
    assert!(matches!(action, Action::Finish(TranslationOutcome::Error { .. })));
}

#[test]
fn egress_resolves_bearer_token() {
    let p = provider();
    let hs = headers(&[("Authorization", "Bearer u1")]);
    let action = egress_start(&p, &hs, StripPolicy::AllOccurrences);
    let req = sent(&action);
    assert_eq!(req.method, Method::Get);
    assert_eq!(req.url, "https://idp/userinfo");
    assert_eq!(req.bearer, Some(s("u1")));
    assert_eq!(req.basic_auth, None);
    let reply = Reply::Received { status: 200, body: Some(UserInfoBody { sub: Some(s("alice")) }) };
    match egress_finish(reply) {
        TranslationOutcome::Allowed { headers_to_set, resolved_subject, headers_to_remove } => {
            assert!(headers_to_set.is_empty());
            assert_eq!(resolved_subject, Some(s("alice")));
            assert_eq!(headers_to_remove, vec![s("authorization")]);
        },
        _ => panic!("expected Allowed"),
    }
}

#[test]
fn egress_without_headers_skips() {
    let p = provider();
    let action = egress_start(&p, &Vec::new(), StripPolicy::AllOccurrences);
    assert!(matches!(action, Action::Finish(TranslationOutcome::Skip)));
}

#[test]
fn egress_without_authorization_skips() {
    let p = provider();
    let hs = headers(&[("content-type", "text/plain")]);
    let action = egress_start(&p, &hs, StripPolicy::Prefix);
    assert!(matches!(action, Action::Finish(TranslationOutcome::Skip)));
}

#[test]
fn egress_non_bearer_skips() {
    let p = provider();
    for value in ["Basic abc", "bearer u1", "Bearer", "BearerX u1", ""] {
        let hs = headers(&[("authorization", value)]);
        let action = egress_start(&p, &hs, StripPolicy::AllOccurrences);
        assert!(matches!(action, Action::Finish(TranslationOutcome::Skip)), "{}", value);
    }
}

#[test]
fn egress_userinfo_failure_is_error() {
    let reply: Reply<UserInfoBody> = Reply::Received { status: 200, body: Some(UserInfoBody { sub: None }) };
    match egress_finish(reply) {
        TranslationOutcome::Error { message } => assert_eq!(
            message,
            "Failed to get user ID for access token: user resolution failed: the identity provider's answer lacks a required field"
        ),
        _ => panic!("expected Error"),
    }
}

#[test]
fn egress_strip_policies_differ_on_embedded_prefix() {
    let p = provider();
    let hs = headers(&[("AUTHORIZATION", "Bearer aBearer b")]);
    let all = egress_start(&p, &hs, StripPolicy::AllOccurrences);
    assert_eq!(sent(&all).bearer, Some(s("ab")));
    let prefix = egress_start(&p, &hs, StripPolicy::Prefix);
    assert_eq!(sent(&prefix).bearer, Some(s("aBearer b")));
}

#[test]
fn machine_token_step_reports_cache_state() {
    let mut p = provider();
    assert!(matches!(p.get_access_token(0), MachineTokenStep::Grant(_)));
    let t = p.accept_grant(100, token_reply("m1", 60)).unwrap();
    assert_eq!(t, "m1");
    match p.get_access_token(149) {
        MachineTokenStep::Cached(t) => assert_eq!(t, "m1"),
        _ => panic!("expected the cached token"),
    }
    assert!(matches!(p.get_access_token(150), MachineTokenStep::Grant(_)));
}

#[test]
fn grant_failure_kinds() {
    let mut p = provider();
    let e = p.accept_grant(0, Reply::Received { status: 401, body: None }).unwrap_err();
    assert_eq!(e.kind, ErrorKind::Authentication);
    assert_eq!(e.failure, Failure::Status(401));
    let e = p.accept_grant(0, Reply::Unreachable).unwrap_err();
    assert_eq!(e.failure, Failure::Unreachable);
    let body = TokenBody { access_token: Some(s("m1")), expires_in: None };
    let e = p.accept_grant(0, Reply::Received { status: 200, body: Some(body) }).unwrap_err();
    assert_eq!(e.failure, Failure::Malformed);
}

#[test]
fn grant_with_empty_token_is_accepted() {
    let mut p = provider();
    assert_eq!(p.accept_grant(100, token_reply("", 60)).unwrap(), "");
    assert_eq!(p.cache.current.as_ref().unwrap().expires_at, 160);
}

#[test]
fn grant_expiring_at_once_is_refused() {
    let mut p = provider();
    let e = p.accept_grant(100, token_reply("m1", 0)).unwrap_err();
    assert_eq!(e.kind, ErrorKind::Authentication);
    assert_eq!(e.failure, Failure::Malformed);
    assert!(p.cache.current.is_none());
    let e = p.accept_grant(u64::MAX, token_reply("m1", 5)).unwrap_err();
    assert_eq!(e.failure, Failure::Malformed);
    let (state, _) = ingress_start(&p, "alice", 100);
    let (state, action) = ingress_step(&mut p, state, "alice", 100, token_reply("m1", 0));
    assert_eq!(state, IngressState::Done);
    assert!(matches!(action, Action::Finish(TranslationOutcome::Error { .. })));
}

#[test]
fn grant_with_short_lifetime_is_used_once() {
    let mut p = provider();
    assert_eq!(p.accept_grant(100, token_reply("m1", 1)).unwrap(), "m1");
    assert!(matches!(p.get_access_token(100), MachineTokenStep::Grant(_)));
}
