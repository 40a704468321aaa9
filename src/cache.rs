use vstd::prelude::*;

verus! {

/// Seconds before its expiry at which a cached machine token stops being
/// handed out, so that it cannot expire while a request that uses it is on
/// its way.
pub const SAFETY_MARGIN_SECS: u64 = 10;

/// A machine-account access token and the time, in seconds since the epoch,
/// at which it expires.
#[derive(Clone, Debug)]
pub struct MachineCredential {
    pub access_token: String,
    pub expires_at: u64,
}

/// Holds at most one machine credential; each successful grant replaces it.
#[derive(Clone, Debug)]
pub struct CredentialCache {
    pub current: Option<MachineCredential>,
}

/// The expiry of a credential granted at `now` for `expires_in` seconds,
/// held at the largest time that can be represented.
pub open spec fn expiry(now: u64, expires_in: u64) -> u64 {
    if now + expires_in <= u64::MAX {
        (now + expires_in) as u64
    } else {
        u64::MAX
    }
}

impl CredentialCache {
    /// The credential as (token, expiry).
    pub open spec fn view_at(&self) -> Option<(Seq<char>, u64)> {
        match self.current {
            Some(c) => Some((c.access_token@, c.expires_at)),
            None => None,
        }
    }

    /// The token that may be handed out at time `now`: the cached one, where
    /// `now` plus the safety margin lies before its expiry.
    pub open spec fn usable_at(&self, now: u64) -> Option<Seq<char>> {
        match self.current {
            Some(c) => if now + SAFETY_MARGIN_SECS < c.expires_at {
                Some(c.access_token@)
            } else {
                None
            },
            None => None,
        }
    }

    pub fn new() -> (r: CredentialCache)
        ensures
            r.current.is_none(),
    {
        CredentialCache { current: None }
    }

    /// The cached token, if it may still be used at time `now`.
    pub fn token_at(&self, now: u64) -> (r: Option<String>)
        ensures
            match r {
                Some(t) => self.usable_at(now) == Some(t@),
                None => self.usable_at(now).is_none(),
            },
    {
        match &self.current {
            Some(c) => {
                if now < u64::MAX - SAFETY_MARGIN_SECS && now + SAFETY_MARGIN_SECS < c.expires_at {
                    Some(c.access_token.clone())
                } else {
                    None
                }
            },
            None => None,
        }
    }

    /// Replaces the credential with one granted at `now` for `expires_in`
    /// seconds.
    pub fn store(&mut self, access_token: String, expires_in: u64, now: u64)
        ensures
            final(self).view_at() == Some((access_token@, expiry(now, expires_in))),
    {
        let expires_at = now.saturating_add(expires_in);
        self.current = Some(MachineCredential { access_token, expires_at });
    }
}

/// A credential granted at time `granted` for `expires_in` seconds is handed
/// out, unchanged, at every time before its expiry less the safety margin,
/// and at no time from then on.
pub proof fn lemma_cache_window(c: CredentialCache, granted: u64, expires_in: u64, now: u64)
    requires
        c.current.is_some(),
        c.current.unwrap().expires_at == expiry(granted, expires_in),
        granted + expires_in <= u64::MAX,
    ensures
        now + SAFETY_MARGIN_SECS < granted + expires_in ==> c.usable_at(now) == Some(
            c.current.unwrap().access_token@,
        ),
        now + SAFETY_MARGIN_SECS >= granted + expires_in ==> c.usable_at(now).is_none(),
{
}

/// A token handed out at time `now` has not expired: its expiry lies more
/// than the safety margin after `now`.
pub proof fn lemma_handed_out_not_expired(c: CredentialCache, now: u64)
    ensures
        c.usable_at(now).is_some() ==> now + SAFETY_MARGIN_SECS < c.current.unwrap().expires_at,
        c.usable_at(now).is_some() ==> now < c.current.unwrap().expires_at,
{
}

/// A token granted at `now` with a positive lifetime has not expired at
/// `now`. A lifetime of zero gives a token that expires as it is granted.
pub proof fn lemma_granted_not_expired(now: u64, expires_in: u64)
    requires
        expires_in > 0,
        now < u64::MAX,
    ensures
        now < expiry(now, expires_in),
{
}

/// Whether a cache holding `v`, as (token, expiry), hands out its token at
/// `now`.
pub open spec fn usable_in(v: Option<(Seq<char>, u64)>, now: u64) -> bool {
    match v {
        Some((_, x)) => now + SAFETY_MARGIN_SECS < x,
        None => false,
    }
}

/// The cache after one request for the machine token at `now`: unchanged
/// where the cached token is handed out; else replaced by what the grant
/// yielded (`granted`, as token and lifetime), or unchanged where it failed.
pub open spec fn after_call(v: Option<(Seq<char>, u64)>, now: u64, granted: Option<(Seq<char>, u64)>) -> Option<(Seq<char>, u64)> {
    if usable_in(v, now) {
        v
    } else {
        match granted {
            Some((t, e)) => Some((t, expiry(now, e))),
            None => v,
        }
    }
}

/// The number of client-credentials grants sent by requests for the machine
/// token made one after another, each given as its time and what its grant,
/// if sent, yielded.
pub open spec fn grants_in_run(v: Option<(Seq<char>, u64)>, calls: Seq<(u64, Option<(Seq<char>, u64)>)>) -> nat
    decreases calls.len(),
{
    if calls.len() == 0 {
        0
    } else {
        (if usable_in(v, calls[0].0) {
            0nat
        } else {
            1nat
        }) + grants_in_run(after_call(v, calls[0].0, calls[0].1), calls.drop_first())
    }
}

/// The spec of `usable_at` agrees with the model of a run.
pub proof fn lemma_usable_matches_view(c: CredentialCache, now: u64)
    ensures
        c.usable_at(now).is_some() == usable_in(c.view_at(), now),
{
}

/// N requests for the machine token, made one after another, send at most N
/// grants.
pub proof fn lemma_run_at_most_one_grant_each(v: Option<(Seq<char>, u64)>, calls: Seq<(u64, Option<(Seq<char>, u64)>)>)
    ensures
        grants_in_run(v, calls) <= calls.len(),
    decreases calls.len(),
{
    if calls.len() > 0 {
        lemma_run_at_most_one_grant_each(after_call(v, calls[0].0, calls[0].1), calls.drop_first());
    }
}

/// While a cached token stays valid, requests for the machine token send no
/// grant.
pub proof fn lemma_run_within_lifetime_no_grant(t: Seq<char>, x: u64, calls: Seq<(u64, Option<(Seq<char>, u64)>)>)
    requires
        forall|i: int| 0 <= i < calls.len() ==> #[trigger] calls[i].0 + SAFETY_MARGIN_SECS < x,
    ensures
        grants_in_run(Some((t, x)), calls) == 0,
    decreases calls.len(),
{
    if calls.len() > 0 {
        let rest = calls.drop_first();
        assert forall|i: int| 0 <= i < rest.len() implies #[trigger] rest[i].0 + SAFETY_MARGIN_SECS < x by {
            assert(rest[i] == calls[i + 1]);
        }
        lemma_run_within_lifetime_no_grant(t, x, rest);
    }
}

/// Requests made one after another on an empty cache, the first of which is
/// granted a token for `e` seconds at time `T`, send exactly one grant where
/// every later request comes before `T + e` less the safety margin.
pub proof fn lemma_run_single_grant(calls: Seq<(u64, Option<(Seq<char>, u64)>)>, t: Seq<char>, e: u64)
    requires
        calls.len() >= 1,
        calls[0].1 == Some((t, e)),
        forall|i: int| 1 <= i < calls.len() ==> #[trigger] calls[i].0 + SAFETY_MARGIN_SECS < expiry(calls[0].0, e),
    ensures
        grants_in_run(None, calls) == 1,
{
    let rest = calls.drop_first();
    assert forall|i: int| 0 <= i < rest.len() implies #[trigger] rest[i].0 + SAFETY_MARGIN_SECS < expiry(calls[0].0, e) by {
        assert(rest[i] == calls[i + 1]);
    }
    lemma_run_within_lifetime_no_grant(t, expiry(calls[0].0, e), rest);
}

} // verus!
