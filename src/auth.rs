//! Authorization decisions around the external token gate: the configured
//! roles, role matching on decoded claims, bearer headers and API keys.

use vstd::prelude::*;
use crate::stats::{split, split_chars, views};
use crate::text::{
    chars_eq_ignore_ascii_case, chars_of, eq_ascii_ci, is_space, is_space_char, string_of, trim,
    trim_bounds, slice_chars,
};

verus! {

/// Decoded token claims.
#[derive(Debug)]
pub struct Claims {
    pub sub: String,
    pub exp: usize,
    pub iat: Option<usize>,
    pub iss: Option<String>,
    pub aud: Option<String>,
    pub roles: Option<Vec<String>>,
}

/// Roles allowed when none are configured.
pub const DEFAULT_ALLOWED_ROLES: &'static str = "admin,orchestrate";

/// Non-empty trimmed pieces of `raw` between commas.
pub open spec fn role_list(raw: Seq<char>) -> Seq<Seq<char>> {
    split(raw, ',').map_values(|p: Seq<char>| trim(p)).filter(|p: Seq<char>| p.len() > 0)
}

/// The allowed roles from a comma-separated setting.
pub fn parse_allowed_roles(raw: &str) -> (r: Vec<String>)
    ensures
        r@.map_values(|s: String| s@) == role_list(raw@),
{
    let chars = chars_of(raw);
    let parts = split_chars(&chars, ',');
    let ghost pieces = split(raw@, ',');
    let ghost trimmed = pieces.map_values(|p: Seq<char>| trim(p));
    let mut out: Vec<String> = Vec::new();
    let mut i: usize = 0;
    while i < parts.len()
        invariant
            i <= parts@.len(),
            views(parts@) == pieces,
            trimmed == pieces.map_values(|p: Seq<char>| trim(p)),
            out@.map_values(|s: String| s@) == trimmed.subrange(0, i as int).filter(
                |p: Seq<char>| p.len() > 0,
            ),
        decreases parts@.len() - i,
    {
        let (a, b) = trim_bounds(&parts[i]);
        let t = slice_chars(&parts[i], a, b);
        assert(t@ == trimmed[i as int]);
        proof {
            reveal(Seq::filter);
            assert(trimmed.subrange(0, i + 1).drop_last() =~= trimmed.subrange(0, i as int));
        }
        let ghost prev = out@;
        if t.len() > 0 {
            let s = string_of(t.as_slice());
            out.push(s);
            assert(out@.map_values(|s: String| s@) =~= prev.map_values(|s: String| s@).push(
                t@,
            ));
        }
        i = i + 1;
    }
    assert(trimmed.subrange(0, i as int) =~= trimmed);
    out
}

pub open spec fn role_allowed(role: Seq<char>, allowed: Seq<String>) -> bool {
    exists|j: int| 0 <= j < allowed.len() && eq_ascii_ci(#[trigger] allowed[j]@, role)
}

/// Claims pass when one of their roles equals an allowed role up to ASCII
/// case; claims without roles never pass.
pub open spec fn some_role_allowed(rs: Seq<String>, allowed: Seq<String>) -> bool {
    exists|i: int| 0 <= i < rs.len() && role_allowed(#[trigger] rs[i]@, allowed)
}

pub open spec fn claims_pass(claims: Claims, allowed: Seq<String>) -> bool {
    match claims.roles {
        Some(rs) => some_role_allowed(rs@, allowed),
        None => false,
    }
}

fn is_allowed(role: &String, allowed: &Vec<String>) -> (r: bool)
    ensures
        r == role_allowed(role@, allowed@),
{
    let rc = chars_of(role.as_str());
    let mut j: usize = 0;
    while j < allowed.len()
        invariant
            j <= allowed@.len(),
            rc@ == role@,
            forall|k: int| 0 <= k < j ==> !eq_ascii_ci(#[trigger] allowed@[k]@, role@),
        decreases allowed@.len() - j,
    {
        let ac = chars_of(allowed[j].as_str());
        if chars_eq_ignore_ascii_case(ac.as_slice(), rc.as_slice()) {
            assert(eq_ascii_ci(allowed@[j as int]@, role@));
            return true;
        }
        j = j + 1;
    }
    false
}

/// Whether the claims carry an allowed role.
pub fn roles_authorized(claims: &Claims, allowed: &Vec<String>) -> (r: bool)
    ensures
        r == claims_pass(*claims, allowed@),
{
    match &claims.roles {
        Some(rs) => {
            let mut i: usize = 0;
            while i < rs.len()
                invariant
                    i <= rs@.len(),
                    claims.roles == Some(*rs),
                    forall|k: int| 0 <= k < i ==> !role_allowed(#[trigger] rs@[k]@, allowed@),
                decreases rs@.len() - i,
            {
                if is_allowed(&rs[i], allowed) {
                    assert(role_allowed(rs@[i as int]@, allowed@));
                    assert(some_role_allowed(rs@, allowed@));
                    return true;
                }
                i = i + 1;
            }
            false
        },
        None => false,
    }
}

/// The token gate: open when no secret is configured; otherwise a token is
/// required, and it must decode to claims with an allowed role.
pub fn token_gate(
    secret_configured: bool,
    token_present: bool,
    claims: &Option<Claims>,
    allowed: &Vec<String>,
) -> (r: bool)
    ensures
        r == (!secret_configured || (token_present && (*claims matches Some(c) && claims_pass(
            c,
            allowed@,
        )))),
{
    if !secret_configured {
        return true;
    }
    if !token_present {
        return false;
    }
    match claims {
        Some(c) => roles_authorized(c, allowed),
        None => false,
    }
}

/// Comparison of two keys that looks at every character of equal-length keys.
pub fn subtle_equals(a: &str, b: &str) -> (r: bool)
    ensures
        r == (a@ == b@),
{
    let x = chars_of(a);
    let y = chars_of(b);
    if x.len() != y.len() {
        return false;
    }
    let mut same = true;
    let mut i: usize = 0;
    while i < x.len()
        invariant
            x@.len() == y@.len(),
            i <= x@.len(),
            same == (forall|k: int| 0 <= k < i ==> x@[k] == y@[k]),
        decreases x@.len() - i,
    {
        // no early exit: every position is compared
        let here = x[i] == y[i];
        same = here && same;
        i = i + 1;
    }
    assert(same == (x@ =~= y@));
    same
}

/// The whitespace-separated words of `s`.
pub open spec fn words(s: Seq<char>) -> Seq<Seq<char>>
    decreases s.len(),
{
    if s.len() == 0 {
        seq![]
    } else {
        let w = words(s.drop_last());
        let c = s.last();
        if is_space(c) {
            w
        } else if s.len() >= 2 && !is_space(s[s.len() - 2]) {
            w.update(w.len() - 1, w.last().push(c))
        } else {
            w.push(seq![c])
        }
    }
}

proof fn lemma_words_open(s: Seq<char>)
    requires
        s.len() > 0,
        !is_space(s.last()),
    ensures
        words(s).len() >= 1,
    decreases s.len(),
{
    if s.len() >= 2 && !is_space(s[s.len() - 2]) {
        lemma_words_open(s.drop_last());
    }
}

/// The token of an `Authorization` header of the form `Bearer TOKEN` (the
/// scheme's case ignored), exactly two words.
pub fn bearer_token(header: &str) -> (r: Option<String>)
    ensures
        r is Some <==> (words(header@).len() == 2 && eq_ascii_ci(words(header@)[0], "Bearer"@)),
        r matches Some(t) ==> t@ == words(header@)[1],
{
    let v = chars_of(header);
    let mut done: Vec<Vec<char>> = Vec::new();
    let mut cur: Vec<char> = Vec::new();
    let mut in_word = false;
    let mut i: usize = 0;
    assert(v@.subrange(0, 0) =~= Seq::<char>::empty());
    while i < v.len()
        invariant
            i <= v@.len(),
            in_word == (i > 0 && !is_space(v@[i - 1])),
            in_word ==> views(done@).push(cur@) == words(v@.subrange(0, i as int)),
            !in_word ==> views(done@) == words(v@.subrange(0, i as int)) && cur@.len() == 0,
        decreases v@.len() - i,
    {
        let c = v[i];
        let ghost pre = v@.subrange(0, i as int);
        let ghost next = v@.subrange(0, i + 1);
        assert(next.drop_last() =~= pre);
        assert(next.last() == c);
        if is_space_char(c) {
            if in_word {
                let w = cur;
                done.push(w);
                cur = Vec::new();
                assert(views(done@) =~= words(pre));
            }
            in_word = false;
        } else {
            if in_word {
                assert(next[next.len() - 2] == v@[i - 1]);
                proof {
                    lemma_words_open(pre);
                }
                let ghost w = words(pre);
                cur.push(c);
                assert(views(done@).push(cur@) =~= w.update(w.len() - 1, w.last().push(c)));
            } else {
                assert(i > 0 ==> next[next.len() - 2] == v@[i - 1]);
                cur.push(c);
                assert(cur@ =~= seq![c]);
                assert(views(done@).push(cur@) =~= words(pre).push(seq![c]));
            }
            in_word = true;
        }
        i = i + 1;
    }
    assert(v@.subrange(0, i as int) =~= v@);
    if in_word {
        done.push(cur);
    }
    assert(views(done@) =~= words(header@));
    if done.len() != 2 {
        return None;
    }
    let scheme = vec!['B', 'e', 'a', 'r', 'e', 'r'];
    proof {
        reveal_strlit("Bearer");
        assert(scheme@ =~= "Bearer"@);
    }
    assert(views(done@)[0] == done@[0]@ && views(done@)[1] == done@[1]@);
    if chars_eq_ignore_ascii_case(done[0].as_slice(), scheme.as_slice()) {
        Some(string_of(done[1].as_slice()))
    } else {
        None
    }
}

/// Request gate: a matching API key passes when one is configured; a valid
/// bearer token passes; with neither an API key nor a token secret
/// configured every request passes.
pub fn request_authorized(
    api_key: &Option<String>,
    provided_key: &Option<String>,
    bearer_ok: bool,
    secret_configured: bool,
) -> (r: bool)
    ensures
        r == ((api_key matches Some(k) && (provided_key matches Some(p) && p@ == k@)) || bearer_ok
            || (api_key is None && !secret_configured)),
{
    if let Some(required) = api_key {
        if let Some(provided) = provided_key {
            if subtle_equals(required.as_str(), provided.as_str()) {
                return true;
            }
        }
    }
    if bearer_ok {
        return true;
    }
    api_key.is_none() && !secret_configured
}

} // verus!
