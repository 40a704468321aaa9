use vstd::prelude::*;

verus! {

/// The closed set of failures the translator can report.
#[derive(Clone, Copy, Debug, PartialEq, Eq, Structural)]
pub enum ErrorKind {
    /// The discovery document could not be fetched or lacks an endpoint.
    Discovery,
    /// The machine account could not obtain an access token.
    Authentication,
    /// The token-exchange grant for a subject failed.
    TokenExchange,
    /// The userinfo endpoint did not resolve a bearer token to a subject.
    UserResolution,
    /// A credential required by the selected authentication mode is missing.
    Configuration,
}

/// Why a call to the identity provider did not produce a usable answer.
#[derive(Clone, Copy, Debug, PartialEq, Eq, Structural)]
pub enum Failure {
    /// The request could not be sent or no response arrived.
    Unreachable,
    /// The provider answered with a status outside 200..=299.
    Status(u16),
    /// The answer was a success but its body lacked a required field.
    Malformed,
    /// The selected authentication mode is not available.
    NotImplemented,
    /// A required credential was not configured.
    MissingCredential,
}

/// An error of the translator: its kind, the cause, and, for a token
/// exchange, the subject it was made for. It never holds secrets or tokens.
#[derive(Clone, Debug)]
pub struct ProviderError {
    pub kind: ErrorKind,
    pub failure: Failure,
    pub subject: Option<String>,
}

pub open spec fn kind_text(k: ErrorKind) -> Seq<char> {
    match k {
        ErrorKind::Discovery => "discovery failed"@,
        ErrorKind::Authentication => "machine authentication failed"@,
        ErrorKind::TokenExchange => "token exchange failed"@,
        ErrorKind::UserResolution => "user resolution failed"@,
        ErrorKind::Configuration => "configuration error"@,
    }
}

pub open spec fn failure_text(f: Failure) -> Seq<char> {
    match f {
        Failure::Unreachable => ": the identity provider could not be reached"@,
        Failure::Status(_) => ": the identity provider answered with an error status"@,
        Failure::Malformed => ": the identity provider's answer lacks a required field"@,
        Failure::NotImplemented => ": the authentication mode is not implemented"@,
        Failure::MissingCredential => ": a required credential is missing"@,
    }
}

/// The text of an error: built from fixed phrases and the subject ID alone.
pub open spec fn error_text(k: ErrorKind, f: Failure, subject: Option<Seq<char>>) -> Seq<char> {
    kind_text(k) + match subject {
        Some(s) => " for subject '"@ + s + "'"@,
        None => Seq::empty(),
    } + failure_text(f)
}

impl ProviderError {
    pub open spec fn subject_view(&self) -> Option<Seq<char>> {
        match self.subject {
            Some(s) => Some(s@),
            None => None,
        }
    }

    /// A diagnostic message that names the error kind, the subject if any, and
    /// the cause.
    pub fn message(&self) -> (r: String)
        ensures
            r@ == error_text(self.kind, self.failure, self.subject_view()),
    {
        let mut r = match self.kind {
            ErrorKind::Discovery => String::from_str("discovery failed"),
            ErrorKind::Authentication => String::from_str("machine authentication failed"),
            ErrorKind::TokenExchange => String::from_str("token exchange failed"),
            ErrorKind::UserResolution => String::from_str("user resolution failed"),
            ErrorKind::Configuration => String::from_str("configuration error"),
        };
        match &self.subject {
            Some(s) => {
                r.append(" for subject '");
                r.append(s.as_str());
                r.append("'");
            },
            None => {},
        }
        let tail = match self.failure {
            Failure::Unreachable => ": the identity provider could not be reached",
            Failure::Status(_) => ": the identity provider answered with an error status",
            Failure::Malformed => ": the identity provider's answer lacks a required field",
            Failure::NotImplemented => ": the authentication mode is not implemented",
            Failure::MissingCredential => ": a required credential is missing",
        };
        r.append(tail);
        proof {
            let sv = self.subject_view();
            match sv {
                Some(s) => {
                    assert(r@ =~= error_text(self.kind, self.failure, sv));
                },
                None => {
                    assert(r@ =~= error_text(self.kind, self.failure, sv));
                },
            }
        }
        r
    }
}

} // verus!
