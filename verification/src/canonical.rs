//! Canonical reduction of a parameter set: filter reserved names, sort the
//! rest by name, and join the pairs into a deterministic string. Cache keys
//! and signatures are both derived from this reduction, with different
//! exclusion sets.

use vstd::prelude::*;
use vstd::relations::{is_least, total_ordering};
use crate::lex::{lex_leq, lex_lt, lemma_lex_refl, lemma_lex_antisym, lemma_lex_trans,
    lemma_lex_connected, str_eq, str_lex_leq};
use crate::params::{ParamSet, map_of, keys_of, unique_keys, has_key, entries_view,
    lemma_map_of_dom, lemma_map_of_index, lemma_map_of_permutation};

verus! {

/// Lexicographic order as a relation value.
pub open spec fn key_leq() -> spec_fn(Seq<char>, Seq<char>) -> bool {
    |a: Seq<char>, b: Seq<char>| lex_leq(a, b)
}

/// Lexicographic order on names is a total order.
pub proof fn lemma_key_leq_total_ordering()
    ensures
        total_ordering(key_leq()),
{
    let r = key_leq();
    assert forall|a: Seq<char>| #[trigger] r(a, a) by {
        lemma_lex_refl(a);
    }
    assert forall|a: Seq<char>, b: Seq<char>| #[trigger] r(a, b) && #[trigger] r(b, a) implies a
        == b by {
        lemma_lex_antisym(a, b);
    }
    assert forall|a: Seq<char>, b: Seq<char>, c: Seq<char>|
        #[trigger] r(a, b) && #[trigger] r(b, c) implies r(a, c) by {
        lemma_lex_trans(a, b, c);
    }
    assert forall|a: Seq<char>, b: Seq<char>| !(#[trigger] r(a, b)) implies r(b, a) by {
        lemma_lex_connected(a, b);
    }
}

/// The names of a finite set, in ascending lexicographic order.
pub open spec fn sorted_keys(s: Set<Seq<char>>) -> Seq<Seq<char>>
    decreases s.len(),
    when s.finite()
{
    if s.finite() && s.len() > 0 {
        let m = s.find_unique_minimal(key_leq());
        if s.contains(m) {
            seq![m] + sorted_keys(s.remove(m))
        } else {
            Seq::empty()
        }
    } else {
        Seq::empty()
    }
}

/// A sequence of names in strictly ascending lexicographic order.
pub open spec fn strictly_sorted(ks: Seq<Seq<char>>) -> bool {
    forall|i: int, j: int| 0 <= i < j < ks.len() ==> lex_lt(ks[i], ks[j])
}

/// `sorted_keys` lists exactly the elements of the set, strictly sorted.
pub proof fn lemma_sorted_keys_ensures(s: Set<Seq<char>>)
    requires
        s.finite(),
    ensures
        sorted_keys(s).to_set() == s,
        strictly_sorted(sorted_keys(s)),
        sorted_keys(s).len() == s.len(),
    decreases s.len(),
{
    lemma_key_leq_total_ordering();
    let ks = sorted_keys(s);
    if s.len() == 0 {
        s.lemma_len0_is_empty();
        assert(ks.to_set() =~= s);
    } else {
        let m = s.find_unique_minimal(key_leq());
        s.find_unique_minimal_ensures(key_leq());
        s.lemma_minimal_equivalent_least(key_leq(), m);
        assert(is_least(key_leq(), m, s));
        assert(s.contains(m));
        let rest = s.remove(m);
        lemma_sorted_keys_ensures(rest);
        let tail = sorted_keys(rest);
        assert(ks == seq![m] + tail);
        assert(ks[0] == m);
        assert(forall|i: int| 0 < i < ks.len() ==> ks[i] == tail[i - 1]);
        assert(ks.to_set() =~= s) by {
            assert forall|k: Seq<char>| ks.to_set().contains(k) implies s.contains(k) by {
                let i = choose|i: int| 0 <= i < ks.len() && ks[i] == k;
                if i > 0 {
                    assert(tail.to_set().contains(k));
                }
            }
            assert forall|k: Seq<char>| s.contains(k) implies ks.to_set().contains(k) by {
                if k == m {
                    assert(ks[0] == k);
                } else {
                    assert(rest.contains(k));
                    assert(tail.to_set().contains(k));
                    let i = choose|i: int| 0 <= i < tail.len() && tail[i] == k;
                    assert(ks[i + 1] == k);
                }
            }
        }
        assert forall|i: int, j: int| 0 <= i < j < ks.len() implies lex_lt(ks[i], ks[j]) by {
            if i == 0 {
                assert(tail.to_set().contains(ks[j]));
                assert(rest.contains(ks[j]));
                assert(s.contains(ks[j]));
                assert(key_leq()(m, ks[j]));
                assert(lex_leq(m, ks[j]));
                assert(!rest.contains(m));
                assert(ks[j] != m);
            } else {
                assert(lex_lt(tail[i - 1], tail[j - 1]));
            }
        }
    }
}

/// A strictly sorted sequence of names is determined by the set it lists:
/// it is exactly `sorted_keys` of that set.
pub proof fn lemma_strictly_sorted_is_sorted_keys(ks: Seq<Seq<char>>, s: Set<Seq<char>>)
    requires
        strictly_sorted(ks),
        s.finite(),
        ks.to_set() == s,
    ensures
        ks == sorted_keys(s),
    decreases ks.len(),
{
    lemma_key_leq_total_ordering();
    if ks.len() == 0 {
        assert(s =~= Set::<Seq<char>>::empty()) by {
            assert forall|k: Seq<char>| !s.contains(k) by {
                if s.contains(k) {
                    let i = choose|i: int| 0 <= i < ks.len() && ks[i] == k;
                }
            }
        }
        assert(sorted_keys(s) == Seq::<Seq<char>>::empty());
        assert(ks =~= sorted_keys(s));
    } else {
        let h = ks[0];
        assert(ks.to_set().contains(h));
        assert(s.contains(h));
        assert(s.len() > 0) by {
            if s.len() == 0 {
                s.lemma_len0_is_empty();
            }
        }
        assert(is_least(key_leq(), h, s)) by {
            assert forall|x: Seq<char>| s.contains(x) implies #[trigger] key_leq()(h, x) by {
                let i = choose|i: int| 0 <= i < ks.len() && ks[i] == x;
                if i == 0 {
                    lemma_lex_refl(h);
                } else {
                    assert(lex_lt(ks[0], ks[i]));
                }
            }
        }
        let m = s.find_unique_minimal(key_leq());
        s.find_unique_minimal_ensures(key_leq());
        s.lemma_minimal_equivalent_least(key_leq(), m);
        s.lemma_least_is_unique(key_leq());
        assert(m == h);
        let tail = ks.drop_first();
        let rest = s.remove(h);
        assert(forall|i: int| 0 <= i < tail.len() ==> tail[i] == ks[i + 1]);
        assert(strictly_sorted(tail));
        assert(tail.to_set() =~= rest) by {
            assert forall|k: Seq<char>| tail.to_set().contains(k) implies rest.contains(k) by {
                let i = choose|i: int| 0 <= i < tail.len() && tail[i] == k;
                assert(ks[i + 1] == k);
                assert(lex_lt(ks[0], ks[i + 1]));
                assert(k != h);
                assert(ks.to_set().contains(k));
            }
            assert forall|k: Seq<char>| rest.contains(k) implies tail.to_set().contains(k) by {
                let i = choose|i: int| 0 <= i < ks.len() && ks[i] == k;
                assert(k != h);
                assert(i > 0);
                assert(tail[i - 1] == k);
            }
        }
        lemma_strictly_sorted_is_sorted_keys(tail, rest);
        assert(ks =~= seq![h] + tail);
        assert(sorted_keys(s) == seq![h] + sorted_keys(rest));
    }
}

/// The two reserved-name sets of the reduction.
#[derive(Clone, Copy, PartialEq, Eq, Structural)]
pub enum ExclusionSet {
    /// Cache keys drop the caller's credential and representation controls.
    CacheKey,
    /// Signatures drop the signature itself and representation controls,
    /// but keep the caller's credential so the digest binds to it.
    Signature,
}

/// Whether the name `k` is dropped by the exclusion set `e`.
pub open spec fn excluded_by(e: ExclusionSet, k: Seq<char>) -> bool {
    match e {
        ExclusionSet::CacheKey => k == "api_key"@ || k == "format"@ || k == "callback"@,
        ExclusionSet::Signature => k == "api_sig"@ || k == "format"@ || k == "callback"@,
    }
}

/// Executable test for `excluded_by`.
pub fn is_excluded(e: ExclusionSet, k: &str) -> (r: bool)
    ensures
        r == excluded_by(e, k@),
{
    match e {
        ExclusionSet::CacheKey => str_eq(k, "api_key") || str_eq(k, "format") || str_eq(
            k,
            "callback",
        ),
        ExclusionSet::Signature => str_eq(k, "api_sig") || str_eq(k, "format") || str_eq(
            k,
            "callback",
        ),
    }
}

/// The names of `pm` that survive the exclusion set `e`.
pub open spec fn retained_dom(pm: Map<Seq<char>, Seq<char>>, e: ExclusionSet) -> Set<Seq<char>> {
    pm.dom().filter(|k: Seq<char>| !excluded_by(e, k))
}

/// The canonical pair sequence of a parameter mapping: surviving names in
/// ascending order, each with its value.
pub open spec fn canonical_pairs(pm: Map<Seq<char>, Seq<char>>, e: ExclusionSet) -> Seq<
    (Seq<char>, Seq<char>),
> {
    sorted_keys(retained_dom(pm, e)).map_values(|k: Seq<char>| (k, pm[k]))
}

/// Pairs joined as `name=value` with `&` between pairs.
pub open spec fn join_pairs(ps: Seq<(Seq<char>, Seq<char>)>) -> Seq<char>
    decreases ps.len(),
{
    if ps.len() == 0 {
        Seq::empty()
    } else if ps.len() == 1 {
        ps[0].0 + "="@ + ps[0].1
    } else {
        join_pairs(ps.drop_last()) + "&"@ + ps.last().0 + "="@ + ps.last().1
    }
}

/// Pairs joined as `namevalue` with no separators at all.
pub open spec fn concat_pairs(ps: Seq<(Seq<char>, Seq<char>)>) -> Seq<char>
    decreases ps.len(),
{
    if ps.len() == 0 {
        Seq::empty()
    } else {
        concat_pairs(ps.drop_last()) + ps.last().0 + ps.last().1
    }
}

/// The canonical cache key: `lastfm:<method>:<name=value&...>`, derived from
/// the parameter mapping alone.
pub open spec fn cache_key_spec(method: Seq<char>, pm: Map<Seq<char>, Seq<char>>) -> Seq<char> {
    "lastfm:"@ + method + ":"@ + join_pairs(canonical_pairs(pm, ExclusionSet::CacheKey))
}

/// The string a signature digests: concatenated canonical pairs with the
/// shared secret appended.
pub open spec fn signature_base_spec(pm: Map<Seq<char>, Seq<char>>, secret: Seq<char>) -> Seq<
    char,
> {
    concat_pairs(canonical_pairs(pm, ExclusionSet::Signature)) + secret
}

/// The canonical pair sequence keeps no excluded name, and maps each
/// surviving name of `pm` to its value, in strictly ascending order.
pub proof fn lemma_canonical_pairs_ensures(pm: Map<Seq<char>, Seq<char>>, e: ExclusionSet)
    requires
        pm.dom().finite(),
    ensures
        strictly_sorted(keys_of(canonical_pairs(pm, e))),
        forall|i: int|
            0 <= i < canonical_pairs(pm, e).len() ==> {
                let p = #[trigger] canonical_pairs(pm, e)[i];
                &&& !excluded_by(e, p.0)
                &&& pm.contains_key(p.0)
                &&& p.1 == pm[p.0]
            },
        forall|k: Seq<char>|
            pm.contains_key(k) && !excluded_by(e, k) ==> has_key(canonical_pairs(pm, e), k),
{
    let s = retained_dom(pm, e);
    assert(s.finite());
    lemma_sorted_keys_ensures(s);
    let ks = sorted_keys(s);
    let cp = canonical_pairs(pm, e);
    assert(keys_of(cp) =~= ks);
    assert forall|i: int| 0 <= i < cp.len() implies {
        let p = #[trigger] cp[i];
        &&& !excluded_by(e, p.0)
        &&& pm.contains_key(p.0)
        &&& p.1 == pm[p.0]
    } by {
        assert(ks.to_set().contains(ks[i]));
        assert(s.contains(ks[i]));
    }
    assert forall|k: Seq<char>| pm.contains_key(k) && !excluded_by(e, k) implies has_key(
        cp,
        k,
    ) by {
        assert(s.contains(k));
        assert(ks.to_set().contains(k));
        let i = choose|i: int| 0 <= i < ks.len() && ks[i] == k;
        assert(cp[i].0 == k);
    }
}

/// Strict order composes with the weak order.
proof fn lemma_lex_lt_leq_trans(a: Seq<char>, b: Seq<char>, c: Seq<char>)
    requires
        lex_lt(a, b),
        lex_leq(b, c),
    ensures
        lex_lt(a, c),
{
    lemma_lex_trans(a, b, c);
    if a == c {
        lemma_lex_antisym(a, b);
    }
}

/// Where a fresh name belongs in a sorted pair list: after every smaller
/// name, before every larger one.
fn insert_position(out: &Vec<(String, String)>, key: &str) -> (r: usize)
    requires
        forall|t: int|
            0 <= t < entries_view(out@).len() ==> lex_lt(
                (#[trigger] entries_view(out@)[t]).0,
                key@,
            ) || lex_lt(key@, entries_view(out@)[t].0),
    ensures
        r <= out@.len(),
        forall|t: int| 0 <= t < r ==> lex_lt((#[trigger] entries_view(out@)[t]).0, key@),
        r < out@.len() ==> lex_lt(key@, entries_view(out@)[r as int].0),
{
    let ghost ov = entries_view(out@);
    let m = out.len();
    let mut j: usize = 0;
    while j < m
        invariant
            0 <= j <= m,
            m == out@.len(),
            ov == entries_view(out@),
            forall|t: int|
                0 <= t < ov.len() ==> lex_lt((#[trigger] ov[t]).0, key@) || lex_lt(
                    key@,
                    ov[t].0,
                ),
            forall|t: int| 0 <= t < j ==> lex_lt((#[trigger] ov[t]).0, key@),
        ensures
            0 <= j <= m,
            forall|t: int| 0 <= t < j ==> lex_lt((#[trigger] ov[t]).0, key@),
            j < m ==> !lex_leq(ov[j as int].0, key@),
        decreases m - j,
    {
        if !str_lex_leq(out[j].0.as_str(), key) {
            proof {
                assert(out@[j as int].0@ == ov[j as int].0);
            }
            break ;
        }
        proof {
            assert(out@[j as int].0@ == ov[j as int].0);
            assert(lex_leq(ov[j as int].0, key@));
            assert(lex_lt(ov[j as int].0, key@)) by {
                if !lex_lt(ov[j as int].0, key@) {
                    assert(lex_lt(key@, ov[j as int].0));
                }
            }
        }
        j = j + 1;
    }
    proof {
        if j < m {
            assert(lex_lt(key@, ov[j as int].0)) by {
                if lex_lt(ov[j as int].0, key@) {
                    assert(lex_leq(ov[j as int].0, key@));
                }
            }
        }
    }
    j
}

/// The canonical pair list of a parameter set: retained entries in strictly
/// ascending name order, each name with its value.
pub fn canonical_entries(params: &ParamSet, e: ExclusionSet) -> (r: Vec<(String, String)>)
    requires
        params.wf(),
    ensures
        entries_view(r@) == canonical_pairs(params@, e),
{
    let src = params.entries();
    let ghost sp = params.pairs();
    let ghost pm = params@;
    let n = src.len();
    let mut out: Vec<(String, String)> = Vec::new();
    proof {
        assert(entries_view(out@) =~= Seq::<(Seq<char>, Seq<char>)>::empty());
    }
    let mut i: usize = 0;
    while i < n
        invariant
            0 <= i <= n,
            n == src@.len(),
            entries_view(src@) == sp,
            unique_keys(sp),
            pm == map_of(sp),
            strictly_sorted(keys_of(entries_view(out@))),
            forall|k: Seq<char>|
                #[trigger] has_key(entries_view(out@), k) <==> exists|j: int|
                    0 <= j < i && (#[trigger] sp[j]).0 == k && !excluded_by(e, k),
            forall|t: int|
                0 <= t < entries_view(out@).len() ==> {
                    let p = #[trigger] entries_view(out@)[t];
                    &&& !excluded_by(e, p.0)
                    &&& pm.contains_key(p.0)
                    &&& p.1 == pm[p.0]
                },
        decreases n - i,
    {
        let ghost ov = entries_view(out@);
        let ghost k = sp[i as int].0;
        let ghost v = sp[i as int].1;
        proof {
            assert(src@[i as int].0@ == k && src@[i as int].1@ == v);
        }
        if !is_excluded(e, src[i].0.as_str()) {
            proof {
                lemma_map_of_index(sp, i as int);
                assert forall|t: int| 0 <= t < ov.len() implies lex_lt(
                    (#[trigger] ov[t]).0,
                    k,
                ) || lex_lt(k, ov[t].0) by {
                    assert(ov[t].0 == keys_of(ov)[t]);
                    assert(has_key(ov, ov[t].0));
                    let j = choose|j: int|
                        0 <= j < i && (#[trigger] sp[j]).0 == ov[t].0 && !excluded_by(
                            e,
                            ov[t].0,
                        );
                    assert(keys_of(sp)[j] == ov[t].0);
                    assert(keys_of(sp)[i as int] == k);
                    assert(ov[t].0 != k);
                    lemma_lex_connected(ov[t].0, k);
                }
            }
            let j = insert_position(&out, src[i].0.as_str());
            let entry = (src[i].0.clone(), src[i].1.clone());
            out.insert(j, entry);
            proof {
                let nv = entries_view(out@);
                assert(nv =~= ov.insert(j as int, (k, v)));
                assert(forall|t: int| 0 <= t < j ==> nv[t] == ov[t]);
                assert(nv[j as int] == (k, v));
                assert(forall|t: int| j < t < nv.len() ==> nv[t] == ov[t - 1]);
                assert forall|p: int, q: int| 0 <= p < q < nv.len() implies lex_lt(
                    keys_of(nv)[p],
                    keys_of(nv)[q],
                ) by {
                    assert(keys_of(nv)[p] == nv[p].0);
                    assert(keys_of(nv)[q] == nv[q].0);
                    assert(forall|t: int|
                        0 <= t < ov.len() ==> (#[trigger] keys_of(ov)[t]) == ov[t].0);
                    if q < j {
                        assert(lex_lt(keys_of(ov)[p], keys_of(ov)[q]));
                        assert(lex_lt(ov[p].0, ov[q].0));
                    } else if p < j && q == j {
                        assert(lex_lt(ov[p].0, k));
                    } else if p < j && q > j {
                        if p == q - 1 {
                            assert(p == j - 1 && q == j + 1);
                            assert(false);
                        } else {
                            assert(lex_lt(keys_of(ov)[p], keys_of(ov)[q - 1]));
                            assert(lex_lt(ov[p].0, ov[q - 1].0));
                        }
                    } else if p == j {
                        if j as int == q - 1 {
                            assert(lex_lt(k, ov[q - 1].0));
                        } else {
                            assert(lex_lt(k, ov[j as int].0));
                            assert(lex_lt(keys_of(ov)[j as int], keys_of(ov)[q - 1]));
                            assert(lex_lt(ov[j as int].0, ov[q - 1].0));
                            lemma_lex_lt_leq_trans(k, ov[j as int].0, ov[q - 1].0);
                        }
                    } else {
                        assert(p > j && q > j);
                        assert(lex_lt(keys_of(ov)[p - 1], keys_of(ov)[q - 1]));
                        assert(lex_lt(ov[p - 1].0, ov[q - 1].0));
                    }
                }
                assert forall|kk: Seq<char>| #[trigger] has_key(nv, kk) implies exists|jj: int|
                    0 <= jj < i + 1 && (#[trigger] sp[jj]).0 == kk && !excluded_by(e, kk) by {
                    let t = choose|t: int| 0 <= t < nv.len() && (#[trigger] nv[t]).0 == kk;
                    if t == j {
                        assert(sp[i as int].0 == kk && !excluded_by(e, kk));
                    } else {
                        let t2: int = if t < j {
                            t
                        } else {
                            t - 1
                        };
                        assert(ov[t2].0 == kk);
                        assert(has_key(ov, kk));
                        let jj = choose|jj: int|
                            0 <= jj < i && (#[trigger] sp[jj]).0 == kk && !excluded_by(e, kk);
                        assert(0 <= jj < i + 1 && sp[jj].0 == kk && !excluded_by(e, kk));
                    }
                }
                assert forall|jj: int|
                    0 <= jj < i + 1 && !excluded_by(e, (#[trigger] sp[jj]).0) implies has_key(
                    nv,
                    sp[jj].0,
                ) by {
                    let kk = sp[jj].0;
                    if jj == i as int {
                        assert(nv[j as int].0 == kk);
                    } else {
                        assert(has_key(ov, kk));
                        let t = choose|t: int| 0 <= t < ov.len() && (#[trigger] ov[t]).0 == kk;
                        if t < j {
                            assert(nv[t].0 == kk);
                        } else {
                            assert(nv[t + 1].0 == kk);
                        }
                    }
                }
            }
        } else {
            proof {
                assert(excluded_by(e, k));
                assert forall|kk: Seq<char>| #[trigger] has_key(ov, kk) implies exists|jj: int|
                    0 <= jj < i + 1 && (#[trigger] sp[jj]).0 == kk && !excluded_by(e, kk) by {
                    let jj = choose|jj: int|
                        0 <= jj < i && (#[trigger] sp[jj]).0 == kk && !excluded_by(e, kk);
                    assert(0 <= jj < i + 1 && sp[jj].0 == kk && !excluded_by(e, kk));
                }
                assert forall|jj: int|
                    0 <= jj < i + 1 && !excluded_by(e, (#[trigger] sp[jj]).0) implies has_key(
                    ov,
                    sp[jj].0,
                ) by {
                    assert(jj != i);
                }
            }
        }
        i = i + 1;
    }
    proof {
        let ov = entries_view(out@);
        let ks = keys_of(ov);
        let s = retained_dom(pm, e);
        crate::params::lemma_map_of_finite(sp);
        let f = |kk: Seq<char>| !excluded_by(e, kk);
        pm.dom().lemma_len_filter(f);
        assert(s =~= pm.dom().filter(f));
        assert(s.finite());
        assert(ks.to_set() =~= s) by {
            assert forall|kk: Seq<char>| ks.to_set().contains(kk) implies s.contains(kk) by {
                let t = choose|t: int| 0 <= t < ks.len() && ks[t] == kk;
                assert(ov[t].0 == kk);
                assert(pm.contains_key(kk) && !excluded_by(e, kk));
            }
            assert forall|kk: Seq<char>| s.contains(kk) implies ks.to_set().contains(kk) by {
                lemma_map_of_dom(sp, kk);
                assert(has_key(sp, kk));
                let j = choose|j: int| 0 <= j < sp.len() && (#[trigger] sp[j]).0 == kk;
                assert(has_key(ov, kk));
                let t = choose|t: int| 0 <= t < ov.len() && (#[trigger] ov[t]).0 == kk;
                assert(ks[t] == kk);
            }
        }
        lemma_strictly_sorted_is_sorted_keys(ks, s);
        let cp = canonical_pairs(pm, e);
        assert(ov =~= cp) by {
            assert(cp.len() == sorted_keys(s).len());
            assert(ks.len() == ov.len());
            assert forall|t: int| 0 <= t < ov.len() implies ov[t] == cp[t] by {
                assert(cp[t] == (sorted_keys(s)[t], pm[sorted_keys(s)[t]]));
                assert(ks[t] == ov[t].0);
            }
        }
    }
    out
}

impl ParamSet {
    /// The canonical cache key for this parameter set and method:
    /// `lastfm:<method>:<name=value&...>`, independent of insertion order.
    pub fn cache_key(&self, method: &str) -> (r: String)
        requires
            self.wf(),
        ensures
            r@ == cache_key_spec(method@, self@),
    {
        let entries = canonical_entries(self, ExclusionSet::CacheKey);
        let ghost cv = entries_view(entries@);
        let ghost prefix = "lastfm:"@ + method@ + ":"@;
        let mut out = String::new();
        out.append("lastfm:");
        out.append(method);
        out.append(":");
        proof {
            assert(cv.take(0) =~= Seq::<(Seq<char>, Seq<char>)>::empty());
            assert(out@ =~= prefix + join_pairs(cv.take(0)));
        }
        let n = entries.len();
        let mut i: usize = 0;
        while i < n
            invariant
                0 <= i <= n,
                n == entries@.len(),
                cv == entries_view(entries@),
                out@ == prefix + join_pairs(cv.take(i as int)),
            decreases n - i,
        {
            if i > 0 {
                out.append("&");
            }
            out.append(entries[i].0.as_str());
            out.append("=");
            out.append(entries[i].1.as_str());
            proof {
                assert(entries@[i as int].0@ == cv[i as int].0);
                assert(entries@[i as int].1@ == cv[i as int].1);
                assert(cv.take(i as int + 1).drop_last() =~= cv.take(i as int));
                assert(cv.take(i as int + 1).last() == cv[i as int]);
                if i == 0 {
                    assert(cv.take(1)[0] == cv[0]);
                    assert(join_pairs(cv.take(1)) == cv[0].0 + "="@ + cv[0].1);
                    assert(out@ =~= prefix + join_pairs(cv.take(1)));
                } else {
                    assert(join_pairs(cv.take(i as int + 1)) == join_pairs(cv.take(i as int))
                        + "&"@ + cv[i as int].0 + "="@ + cv[i as int].1);
                    assert(out@ =~= prefix + join_pairs(cv.take(i as int + 1)));
                }
            }
            i = i + 1;
        }
        proof {
            assert(cv.take(n as int) =~= cv);
            assert(out@ =~= cache_key_spec(method@, self@));
        }
        out
    }
}

/// The canonical cache key of a method and parameter set.
pub fn build_cache_key(method: &str, params: &ParamSet) -> (r: String)
    requires
        params.wf(),
    ensures
        r@ == cache_key_spec(method@, params@),
{
    params.cache_key(method)
}

/// The string a signature digests: the canonical pairs of the signature
/// exclusion set, concatenated without separators, with the secret appended.
pub fn signature_base(params: &ParamSet, secret: &str) -> (r: String)
    requires
        params.wf(),
    ensures
        r@ == signature_base_spec(params@, secret@),
{
    let entries = canonical_entries(params, ExclusionSet::Signature);
    let ghost cv = entries_view(entries@);
    let mut out = String::new();
    proof {
        assert(cv.take(0) =~= Seq::<(Seq<char>, Seq<char>)>::empty());
        assert(out@ =~= concat_pairs(cv.take(0)));
    }
    let n = entries.len();
    let mut i: usize = 0;
    while i < n
        invariant
            0 <= i <= n,
            n == entries@.len(),
            cv == entries_view(entries@),
            out@ == concat_pairs(cv.take(i as int)),
        decreases n - i,
    {
        out.append(entries[i].0.as_str());
        out.append(entries[i].1.as_str());
        proof {
            assert(entries@[i as int].0@ == cv[i as int].0);
            assert(entries@[i as int].1@ == cv[i as int].1);
            assert(cv.take(i as int + 1).drop_last() =~= cv.take(i as int));
            assert(cv.take(i as int + 1).last() == cv[i as int]);
            assert(out@ =~= concat_pairs(cv.take(i as int + 1)));
        }
        i = i + 1;
    }
    out.append(secret);
    proof {
        assert(cv.take(n as int) =~= cv);
        assert(out@ =~= signature_base_spec(params@, secret@));
    }
    out
}

/// The pairs a cache key lists never carry the caller's credential nor the
/// representation controls.
pub proof fn lemma_cache_key_excludes(pm: Map<Seq<char>, Seq<char>>)
    requires
        pm.dom().finite(),
    ensures
        forall|i: int|
            0 <= i < canonical_pairs(pm, ExclusionSet::CacheKey).len() ==> {
                let k = (#[trigger] canonical_pairs(pm, ExclusionSet::CacheKey)[i]).0;
                &&& k != "api_key"@
                &&& k != "format"@
                &&& k != "callback"@
            },
{
    lemma_canonical_pairs_ensures(pm, ExclusionSet::CacheKey);
}

/// Canonicalization does not depend on insertion order: parameter pair
/// sequences that are permutations of one another yield the same canonical
/// cache key and the same signature base.
pub proof fn lemma_canonical_order_independent(
    s1: Seq<(Seq<char>, Seq<char>)>,
    s2: Seq<(Seq<char>, Seq<char>)>,
    method: Seq<char>,
    secret: Seq<char>,
)
    requires
        unique_keys(s1),
        unique_keys(s2),
        s1.to_multiset() == s2.to_multiset(),
    ensures
        cache_key_spec(method, map_of(s1)) == cache_key_spec(method, map_of(s2)),
        signature_base_spec(map_of(s1), secret) == signature_base_spec(map_of(s2), secret),
{
    lemma_map_of_permutation(s1, s2);
}

} // verus!
