//! Release selection: filtering a mod's releases against a requested
//! range and picking the best candidate.
//!
//! Releases order by their version key — the numeric components
//! lexicographically, then the pre-release rank, a tagged version below
//! an untagged one and two tags lexicographically. Equal keys are
//! broken by the release timestamp, and equal timestamps by first-seen
//! order.
use crate::error::Error;
use crate::release::{rel_eq, FModRelease};
use crate::text::{lemma_lex_irrefl, lemma_lex_trans, lemma_lex_trichotomy, lex_lt, lex_lt_exec};
use crate::versions::{key_view, spec_key, spec_matches, token_key, VersionRange};
use vstd::prelude::*;

verus! {

/// Order on pre-release tags: a version without a tag ranks above any
/// version with one; two tags rank lexicographically.
pub open spec fn pre_lt(a: Seq<char>, b: Seq<char>) -> bool {
    if a.len() == 0 {
        false
    } else if b.len() == 0 {
        true
    } else {
        lex_lt(a, b)
    }
}

/// Strict order on version keys: the numeric components
/// lexicographically, then the pre-release rank.
pub open spec fn key_lt(a: (u64, u64, u64, Seq<char>), b: (u64, u64, u64, Seq<char>)) -> bool {
    ||| a.0 < b.0
    ||| (a.0 == b.0 && a.1 < b.1)
    ||| (a.0 == b.0 && a.1 == b.1 && a.2 < b.2)
    ||| (a.0 == b.0 && a.1 == b.1 && a.2 == b.2 && pre_lt(a.3, b.3))
}

proof fn lemma_pre_order(a: Seq<char>, b: Seq<char>)
    ensures
        pre_lt(a, b) || pre_lt(b, a) || a == b,
        !(pre_lt(a, b) && pre_lt(b, a)),
        !pre_lt(a, a),
{
    lemma_lex_trichotomy(a, b);
    lemma_lex_irrefl(a);
    lemma_lex_irrefl(b);
    if a.len() > 0 && b.len() > 0 && lex_lt(a, b) && lex_lt(b, a) {
        lemma_lex_trans(a, b, a);
    }
}

/// The key order is total: two keys compare one way or the other, or
/// are equal.
pub proof fn lemma_key_trichotomy(a: (u64, u64, u64, Seq<char>), b: (u64, u64, u64, Seq<char>))
    ensures
        key_lt(a, b) || key_lt(b, a) || a == b,
        !(key_lt(a, b) && key_lt(b, a)),
        !key_lt(a, a),
{
    lemma_pre_order(a.3, b.3);
    lemma_pre_order(a.3, a.3);
    if !key_lt(a, b) && !key_lt(b, a) {
        assert(a.0 == b.0 && a.1 == b.1 && a.2 == b.2 && a.3 == b.3);
    }
}

/// The key order is transitive.
pub proof fn lemma_key_trans(
    a: (u64, u64, u64, Seq<char>),
    b: (u64, u64, u64, Seq<char>),
    c: (u64, u64, u64, Seq<char>),
)
    requires
        key_lt(a, b),
        key_lt(b, c),
    ensures
        key_lt(a, c),
{
    if a.0 == b.0 && a.1 == b.1 && a.2 == b.2 && b.0 == c.0 && b.1 == c.1 && b.2 == c.2 {
        if a.3.len() > 0 && b.3.len() > 0 && c.3.len() > 0 {
            lemma_lex_trans(a.3, b.3, c.3);
        }
    }
}

/// Decides the key order.
pub fn key_lt_exec(a: &(u64, u64, u64, String), b: &(u64, u64, u64, String)) -> (r: bool)
    ensures
        r == key_lt(key_view(*a), key_view(*b)),
{
    if a.0 != b.0 {
        return a.0 < b.0;
    }
    if a.1 != b.1 {
        return a.1 < b.1;
    }
    if a.2 != b.2 {
        return a.2 < b.2;
    }
    if a.3.as_str().is_empty() {
        return false;
    }
    if b.3.as_str().is_empty() {
        return true;
    }
    lex_lt_exec(a.3.as_str(), b.3.as_str())
}

/// The view of a requested range: its operator and version tokens, or
/// nothing when no range was requested.
pub open spec fn rng_view(range: Option<&VersionRange>) -> Option<(Seq<char>, Seq<char>)> {
    match range {
        Some(rg) => Some((rg.op@, rg.ver@)),
        None => None,
    }
}

/// Whether a token passes the requested range: always included when no
/// range was requested, otherwise what matching yields.
pub open spec fn spec_included(
    rng: Option<(Seq<char>, Seq<char>)>,
    t: crate::versions::VersionEncapsulate,
) -> Option<bool> {
    match rng {
        Some((op, rv)) => spec_matches(op, rv, t),
        None => Some(true),
    }
}

/// A token the selection cannot handle: one whose matching fails, or an
/// included one without an ordering key.
pub open spec fn spec_bad(
    rng: Option<(Seq<char>, Seq<char>)>,
    t: crate::versions::VersionEncapsulate,
) -> bool {
    ||| spec_included(rng, t) is None
    ||| (spec_included(rng, t) == Some(true) && spec_key(t) is None)
}

/// One release strictly better than another: a greater version key, or
/// an equal key and a later release timestamp.
pub open spec fn spec_better(a: FModRelease, b: FModRelease) -> bool {
    match (spec_key(a.version), spec_key(b.version)) {
        (Some(ka), Some(kb)) => key_lt(kb, ka) || (ka == kb && a.released_at > b.released_at),
        _ => false,
    }
}

/// Index `j` wins the selection: it is included, keyed, and every other
/// included index is either strictly worse or a full tie seen later.
pub open spec fn spec_winner(
    rels: Seq<FModRelease>,
    rng: Option<(Seq<char>, Seq<char>)>,
    j: int,
) -> bool {
    &&& 0 <= j < rels.len()
    &&& spec_included(rng, rels[j].version) == Some(true)
    &&& spec_key(rels[j].version) is Some
    &&& forall|i: int|
        0 <= i < rels.len() && i != j && spec_included(rng, rels[i].version) == Some(true)
            ==> (spec_better(rels[j], rels[i]) || (!spec_better(rels[i], rels[j]) && j < i))
}

/// Everything selection promises: on success every release was
/// handled, and the result is the winner — or absent when nothing is
/// included; on failure some release could not be handled.
pub open spec fn select_post(
    rels: Seq<FModRelease>,
    rng: Option<(Seq<char>, Seq<char>)>,
    r: Result<Option<FModRelease>, Error>,
) -> bool {
    match r {
        Ok(opt) => {
            &&& forall|i: int| 0 <= i < rels.len() ==> !spec_bad(rng, rels[i].version)
            &&& match opt {
                Some(rel) => exists|j: int| spec_winner(rels, rng, j) && rel_eq(rel, rels[j]),
                None => forall|i: int|
                    0 <= i < rels.len() ==> spec_included(rng, rels[i].version) != Some(true),
            }
        },
        Err(e) => {
            &&& exists|i: int| 0 <= i < rels.len() && spec_bad(rng, rels[i].version)
            &&& e matches Error::VersionError(_)
        },
    }
}

/// A token that matching could handle is always orderable: under a
/// requested range, a selection error can only come from matching
/// itself.
pub proof fn lemma_matched_token_has_key(
    op: Seq<char>,
    rv: Seq<char>,
    t: crate::versions::VersionEncapsulate,
)
    requires
        spec_matches(op, rv, t) is Some,
    ensures
        spec_key(t) is Some,
{
}

/// Two winners are the same index: the selection is deterministic.
pub proof fn lemma_winner_unique(
    rels: Seq<FModRelease>,
    rng: Option<(Seq<char>, Seq<char>)>,
    j1: int,
    j2: int,
)
    requires
        spec_winner(rels, rng, j1),
        spec_winner(rels, rng, j2),
    ensures
        j1 == j2,
{
    if j1 != j2 {
        let a = rels[j1];
        let b = rels[j2];
        let ka = spec_key(a.version)->Some_0;
        let kb = spec_key(b.version)->Some_0;
        lemma_key_trichotomy(ka, kb);
        assert(spec_better(a, b) || (!spec_better(b, a) && j1 < j2));
        assert(spec_better(b, a) || (!spec_better(a, b) && j2 < j1));
    }
}

/// Filters a mod's releases by the requested range, when one is given,
/// and picks the best of what remains; `None` when nothing qualifies. A
/// release whose version cannot be matched or ordered is a hard error.
pub fn select_best(releases: &Vec<FModRelease>, range: Option<&VersionRange>) -> (r: Result<
    Option<FModRelease>,
    Error,
>)
    ensures
        select_post(releases@, rng_view(range), r),
{
    let mut best_idx: usize = 0;
    let mut has_best: bool = false;
    let mut best_key: (u64, u64, u64, String) = (0, 0, 0, String::new());
    let mut i: usize = 0;
    while i < releases.len()
        invariant
            i <= releases@.len(),
            forall|k: int| 0 <= k < i ==> !spec_bad(rng_view(range), releases@[k].version),
            !has_best ==> forall|k: int|
                0 <= k < i ==> spec_included(rng_view(range), releases@[k].version) != Some(true),
            has_best ==> (best_idx as int) < i,
            has_best ==> spec_included(rng_view(range), releases@[best_idx as int].version)
                == Some(true),
            has_best ==> spec_key(releases@[best_idx as int].version) == Some(key_view(best_key)),
            has_best ==> forall|k: int|
                0 <= k < i && k != best_idx && spec_included(rng_view(range), releases@[k].version)
                    == Some(true) ==> (spec_better(releases@[best_idx as int], releases@[k]) || (
                !spec_better(releases@[k], releases@[best_idx as int]) && (best_idx as int) < k)),
        decreases releases@.len() - i,
    {
        let included: bool = match range {
            Some(rg) => {
                match rg.matches(&releases[i].version) {
                    Ok(b) => b,
                    Err(e) => {
                        return Err(e);
                    },
                }
            },
            None => true,
        };
        if included {
            let k = match token_key(&releases[i].version) {
                Ok(k) => k,
                Err(e) => {
                    return Err(e);
                },
            };
            if !has_best {
                has_best = true;
                best_idx = i;
                best_key = k;
            } else {
                let ghost kv_new = key_view(k);
                let ghost kv_best = key_view(best_key);
                let lt_new_best = key_lt_exec(&k, &best_key);
                let lt_best_new = key_lt_exec(&best_key, &k);
                proof {
                    lemma_key_trichotomy(kv_new, kv_best);
                }
                let replace: bool = if lt_best_new {
                    true
                } else if !lt_new_best {
                    releases[i].released_at > releases[best_idx].released_at
                } else {
                    false
                };
                if replace {
                    proof {
                        let rels = releases@;
                        let old_best = rels[best_idx as int];
                        let neu = rels[i as int];
                        assert(spec_better(neu, old_best));
                        assert forall|t: int|
                            0 <= t < i + 1 && t != i && spec_included(rng_view(range), rels[t].version)
                                == Some(true) implies (spec_better(neu, rels[t]) || (!spec_better(
                            rels[t],
                            neu,
                        ) && (i as int) < t)) by {
                            if t != best_idx {
                                let kt = spec_key(rels[t].version)->Some_0;
                                lemma_key_trichotomy(kt, kv_best);
                                lemma_key_trichotomy(kt, kv_new);
                                if key_lt(kt, kv_best) && key_lt(kv_best, kv_new) {
                                    lemma_key_trans(kt, kv_best, kv_new);
                                }
                            }
                        }
                    }
                    best_idx = i;
                    best_key = k;
                } else {
                    proof {
                        let rels = releases@;
                        let best = rels[best_idx as int];
                        let neu = rels[i as int];
                        assert(spec_better(best, neu) || (!spec_better(neu, best) && (
                        best_idx as int) < i));
                    }
                }
            }
        }
        i = i + 1;
    }
    if has_best {
        let rel = releases[best_idx].clone();
        proof {
            let ghost j = best_idx as int;
            assert(spec_winner(releases@, rng_view(range), j) && rel_eq(rel, releases@[j]));
        }
        Ok(Some(rel))
    } else {
        Ok(None)
    }
}

/// The resolution step: the release the service marked latest when it
/// supplied one, otherwise the best release under the range.
pub fn pick_release(
    latest: &Option<FModRelease>,
    releases: &Vec<FModRelease>,
    range: Option<&VersionRange>,
) -> (r: Result<Option<FModRelease>, Error>)
    ensures
        match latest {
            Some(l) => (r matches Ok(o) && o matches Some(x) && rel_eq(x, *l)),
            None => select_post(releases@, rng_view(range), r),
        },
{
    match latest {
        Some(l) => Ok(Some(l.clone())),
        None => select_best(releases, range),
    }
}

} // verus!
