use vstd::prelude::*;

verus! {

pub open spec fn bearer_prefix() -> Seq<char> {
    "Bearer "@
}

/// Whether an `Authorization` value starts with `"Bearer "`, compared
/// literally.
pub open spec fn has_bearer_prefix(v: Seq<char>) -> bool {
    v.len() >= bearer_prefix().len() && v.subrange(0, bearer_prefix().len() as int) == bearer_prefix()
}

/// How the token is cut out of an `Authorization` value that starts with
/// `"Bearer "`.
#[derive(Clone, Copy, Debug, PartialEq, Eq, Structural)]
pub enum StripPolicy {
    /// Remove the leading `"Bearer "` only: in a value that starts with it,
    /// its first occurrence.
    Prefix,
    /// Remove every occurrence of `"Bearer "`, scanning left to right, as a
    /// plain substring replacement does. A token that itself holds the text
    /// loses it too.
    AllOccurrences,
}

/// `s` with every occurrence of `p` removed, matched left to right without
/// overlap.
pub open spec fn remove_all(s: Seq<char>, p: Seq<char>) -> Seq<char>
    decreases s.len(),
{
    if p.len() == 0 || s.len() < p.len() {
        s
    } else if s.subrange(0, p.len() as int) == p {
        remove_all(s.subrange(p.len() as int, s.len() as int), p)
    } else {
        seq![s[0]] + remove_all(s.subrange(1, s.len() as int), p)
    }
}

/// The token that a policy takes from an `Authorization` value.
pub open spec fn strip_spec(policy: StripPolicy, v: Seq<char>) -> Seq<char> {
    match policy {
        StripPolicy::Prefix => v.subrange(bearer_prefix().len() as int, v.len() as int),
        StripPolicy::AllOccurrences => remove_all(v, bearer_prefix()),
    }
}

/// Whether `s` holds `"Bearer "` at character position `i`.
fn bearer_at(s: &str, i: usize) -> (r: bool)
    requires
        i <= s@.len(),
    ensures
        r == (i + bearer_prefix().len() <= s@.len() && s@.subrange(i as int, i + bearer_prefix().len()) == bearer_prefix()),
{
    let n = s.unicode_len();
    proof {
        reveal_strlit("Bearer ");
    }
    if n - i < 7 {
        return false;
    }
    let part = String::from_str(s.substring_char(i, i + 7));
    let want = String::from_str("Bearer ");
    part == want
}

pub fn has_bearer(v: &str) -> (r: bool)
    ensures
        r == has_bearer_prefix(v@),
{
    bearer_at(v, 0)
}

/// Removes every `"Bearer "` from `s`.
pub fn remove_bearer(s: &str) -> (r: String)
    ensures
        r@ == remove_all(s@, bearer_prefix()),
{
    proof {
        reveal_strlit("Bearer ");
    }
    let ghost p = bearer_prefix();
    let n = s.unicode_len();
    let mut r = String::new();
    let mut seg: usize = 0;
    let mut i: usize = 0;
    assert(s@.subrange(0, n as int) =~= s@);
    while n - i >= 7
        invariant
            n == s@.len(),
            p == bearer_prefix(),
            p.len() == 7,
            seg <= i <= n,
            r@ + s@.subrange(seg as int, i as int) + remove_all(s@.subrange(i as int, n as int), p) == remove_all(s@, p),
        decreases n - i,
    {
        let ghost rest = s@.subrange(i as int, n as int);
        if bearer_at(s, i) {
            assert(rest.subrange(0, 7) =~= s@.subrange(i as int, i + 7));
            assert(rest.subrange(7, rest.len() as int) =~= s@.subrange(i + 7, n as int));
            let ghost old_r = r@;
            r.append(s.substring_char(seg, i));
            assert(r@ + s@.subrange(i + 7, i + 7) =~= old_r + s@.subrange(seg as int, i as int));
            i = i + 7;
            seg = i;
        } else {
            assert(rest.subrange(0, 7) =~= s@.subrange(i as int, i + 7));
            assert(rest.subrange(1, rest.len() as int) =~= s@.subrange(i + 1, n as int));
            assert(s@.subrange(seg as int, i + 1) =~= s@.subrange(seg as int, i as int) + seq![rest[0]]);
            i = i + 1;
        }
    }
    assert(s@.subrange(seg as int, n as int) =~= s@.subrange(seg as int, i as int) + s@.subrange(i as int, n as int));
    r.append(s.substring_char(seg, n));
    r
}

/// Cuts the token out of an `Authorization` value that starts with
/// `"Bearer "`.
pub fn strip_bearer(policy: StripPolicy, v: &str) -> (r: String)
    requires
        has_bearer_prefix(v@),
    ensures
        r@ == strip_spec(policy, v@),
{
    proof {
        reveal_strlit("Bearer ");
    }
    match policy {
        StripPolicy::Prefix => String::from_str(v.substring_char(7, v.unicode_len())),
        StripPolicy::AllOccurrences => remove_bearer(v),
    }
}

/// Where the value holds `"Bearer "` only at its start, both policies give
/// the same token.
pub proof fn lemma_policies_agree(v: Seq<char>)
    requires
        has_bearer_prefix(v),
        remove_all(v.subrange(7, v.len() as int), bearer_prefix()) == v.subrange(7, v.len() as int),
    ensures
        strip_spec(StripPolicy::Prefix, v) == strip_spec(StripPolicy::AllOccurrences, v),
{
    reveal_strlit("Bearer ");
}

} // verus!
