//! The recipient resolver: the reply's To candidates are the inbound From
//! and To headers split on commas, the Cc candidates the Cc header; entries
//! containing the operator's own address and whitespace-only entries are
//! dropped, and each list is sorted lexicographically with duplicates
//! removed, so the operator never receives their own reply and the output
//! order is reproducible.

use vstd::prelude::*;

use crate::strutil::{
    contains_sub, lex_leq, lex_lt, lemma_lex_total, split_commas, split_commas_spec, str_contains,
    str_eq, str_has_visible_char, str_leq, views_of, whitespace_only,
};

verus! {

/// An entry survives filtering when it does not contain the operator's
/// address and is not whitespace-only.
pub open spec fn keeps_entry(e: Seq<char>, self_addr: Seq<char>) -> bool {
    !contains_sub(e, self_addr) && !whitespace_only(e)
}

/// Some string of `vs` reads `x`.
pub open spec fn in_views(vs: Seq<String>, x: Seq<char>) -> bool {
    exists|k: int| 0 <= k < vs.len() && #[trigger] vs[k]@ == x
}

/// Some element of `vs` is `x`.
pub open spec fn seq_has(vs: Seq<Seq<char>>, x: Seq<char>) -> bool {
    exists|k: int| 0 <= k < vs.len() && #[trigger] vs[k] == x
}

/// Strictly ascending in lexicographic order: sorted, and no entry occurs
/// twice (in particular no adjacent duplicates).
pub open spec fn strictly_sorted(vs: Seq<String>) -> bool {
    forall|i: int| 0 <= i < vs.len() - 1 ==> lex_lt(#[trigger] vs[i]@, vs[i + 1]@)
}

/// `x` inserted at its place in the sorted `vs`; `vs` unchanged when `x`
/// already stands in it.
pub open spec fn insert_sorted_spec(vs: Seq<Seq<char>>, x: Seq<char>) -> Seq<Seq<char>>
    decreases vs.len(),
{
    if vs.len() == 0 {
        seq![x]
    } else if lex_lt(vs[0], x) {
        seq![vs[0]] + insert_sorted_spec(vs.drop_first(), x)
    } else if vs[0] == x {
        vs
    } else {
        seq![x] + vs
    }
}

proof fn lemma_insert_sorted_at(vs: Seq<Seq<char>>, x: Seq<char>, i: int)
    requires
        0 <= i <= vs.len(),
        forall|j: int| 0 <= j < i ==> lex_lt(#[trigger] vs[j], x),
        i < vs.len() ==> !lex_lt(vs[i], x),
    ensures
        insert_sorted_spec(vs, x) == if i < vs.len() && vs[i] == x {
            vs
        } else {
            vs.take(i) + seq![x] + vs.skip(i)
        },
    decreases vs.len(),
{
    if vs.len() == 0 {
        assert(vs.take(0) + seq![x] + vs.skip(0) =~= seq![x]);
    } else if lex_lt(vs[0], x) {
        assert(i != 0);
        assert forall|j: int| 0 <= j < i - 1 implies lex_lt(#[trigger] vs.drop_first()[j], x) by {
            assert(vs[j + 1] == vs.drop_first()[j]);
        }
        lemma_insert_sorted_at(vs.drop_first(), x, i - 1);
        if i < vs.len() && vs[i] == x {
            assert(vs.drop_first()[i - 1] == x);
            assert(seq![vs[0]] + vs.drop_first() =~= vs);
        } else {
            assert(seq![vs[0]] + (vs.drop_first().take(i - 1) + seq![x] + vs.drop_first().skip(
                i - 1,
            )) =~= vs.take(i) + seq![x] + vs.skip(i));
        }
    } else {
        assert(i == 0) by {
            if i > 0 {
                assert(lex_lt(vs[0], x));
            }
        }
        if vs[0] == x {
        } else {
            assert(seq![x] + vs =~= vs.take(0) + seq![x] + vs.skip(0));
        }
    }
}

/// The list built by inserting, left to right, every surviving entry of
/// `entries` into the sorted accumulator `acc`.
pub open spec fn build_sorted(
    acc: Seq<Seq<char>>,
    entries: Seq<Seq<char>>,
    self_addr: Seq<char>,
) -> Seq<Seq<char>>
    decreases entries.len(),
{
    if entries.len() == 0 {
        acc
    } else {
        build_sorted(
            if keeps_entry(entries[0], self_addr) {
                insert_sorted_spec(acc, entries[0])
            } else {
                acc
            },
            entries.drop_first(),
            self_addr,
        )
    }
}

/// The resolved list for a candidate sequence: its surviving entries,
/// sorted and deduplicated.
pub open spec fn resolved_list(entries: Seq<Seq<char>>, self_addr: Seq<char>) -> Seq<Seq<char>> {
    build_sorted(Seq::empty(), entries, self_addr)
}

/// Insert `s` into the strictly sorted `v`, keeping it strictly sorted;
/// a string already present is not inserted again.
fn insert_unique_sorted(v: &mut Vec<String>, s: String)
    requires
        strictly_sorted(old(v)@),
    ensures
        strictly_sorted(final(v)@),
        forall|x: Seq<char>| in_views(final(v)@, x) <==> (in_views(old(v)@, x) || x == s@),
        views_of(final(v)@) == insert_sorted_spec(views_of(old(v)@), s@),
{
    let mut i: usize = 0;
    while i < v.len() && !str_leq(s.as_str(), v[i].as_str())
        invariant
            strictly_sorted(v@),
            0 <= i <= v@.len(),
            forall|j: int| 0 <= j < i ==> lex_lt(#[trigger] v@[j]@, s@),
        decreases v@.len() - i,
    {
        proof {
            lemma_lex_total(s@, v@[i as int]@);
        }
        i += 1;
    }
    proof {
        assert forall|j: int| 0 <= j < i implies lex_lt(#[trigger] views_of(v@)[j], s@) by {
            assert(views_of(v@)[j] == v@[j]@);
        }
    }
    if i < v.len() && str_eq(s.as_str(), v[i].as_str()) {
        proof {
            assert(v@[i as int]@ == s@);
            assert(in_views(v@, s@));
            assert(views_of(v@)[i as int] == s@);
            lemma_insert_sorted_at(views_of(v@), s@, i as int);
        }
        return ;
    }
    proof {
        if i < v@.len() {
            lemma_lex_total(s@, v@[i as int]@);
            assert(!lex_lt(views_of(v@)[i as int], s@));
        }
        lemma_insert_sorted_at(views_of(v@), s@, i as int);
    }
    let ghost oldv = v@;
    v.insert(i, s);
    proof {
        let w = v@;
        assert(w == oldv.insert(i as int, s));
        assert(views_of(w) =~= views_of(oldv).take(i as int) + seq![s@] + views_of(oldv).skip(
            i as int,
        ));
        assert forall|j: int| 0 <= j < w.len() - 1 implies lex_lt(#[trigger] w[j]@, w[j + 1]@) by {
            if j + 1 < i {
                assert(w[j] == oldv[j]);
                assert(w[j + 1] == oldv[j + 1]);
            } else if j + 1 == i {
                assert(w[j] == oldv[j]);
                assert(w[j + 1] == s);
            } else if j == i {
                assert(w[j] == s);
                assert(w[j + 1] == oldv[j]);
                lemma_lex_total(s@, oldv[j]@);
            } else {
                assert(w[j] == oldv[j - 1]);
                assert(w[j + 1] == oldv[j]);
            }
        }
        assert forall|x: Seq<char>| in_views(w, x) <==> (in_views(oldv, x) || x == s@) by {
            if in_views(w, x) {
                let k = choose|k: int| 0 <= k < w.len() && #[trigger] w[k]@ == x;
                if k < i {
                    assert(oldv[k]@ == x);
                } else if k == i {
                    assert(x == s@);
                } else {
                    assert(oldv[k - 1]@ == x);
                }
            }
            if in_views(oldv, x) {
                let k = choose|k: int| 0 <= k < oldv.len() && #[trigger] oldv[k]@ == x;
                if k < i {
                    assert(w[k]@ == x);
                } else {
                    assert(w[k + 1]@ == x);
                }
            }
            if x == s@ {
                assert(w[i as int]@ == x);
            }
        }
    }
}

/// Sort the surviving entries and drop duplicates: the result is strictly
/// sorted and holds exactly the entries of `entries` that `keeps_entry`
/// accepts.
fn sorted_filtered(entries: &Vec<String>, self_addr: &str) -> (r: Vec<String>)
    ensures
        strictly_sorted(r@),
        forall|x: Seq<char>|
            in_views(r@, x) <==> (in_views(entries@, x) && keeps_entry(x, self_addr@)),
        views_of(r@) == resolved_list(views_of(entries@), self_addr@),
{
    let mut r: Vec<String> = Vec::new();
    let mut k: usize = 0;
    proof {
        assert(views_of(entries@).skip(0) =~= views_of(entries@));
        assert(views_of(r@) =~= Seq::<Seq<char>>::empty());
    }
    while k < entries.len()
        invariant
            0 <= k <= entries@.len(),
            strictly_sorted(r@),
            forall|x: Seq<char>|
                in_views(r@, x) <==> (in_views(entries@.take(k as int), x) && keeps_entry(
                    x,
                    self_addr@,
                )),
            build_sorted(views_of(r@), views_of(entries@).skip(k as int), self_addr@)
                == resolved_list(views_of(entries@), self_addr@),
        decreases entries@.len() - k,
    {
        proof {
            let evs = views_of(entries@);
            assert(evs.skip(k as int)[0] == evs[k as int]);
            assert(evs[k as int] == entries@[k as int]@);
            assert(evs.skip(k as int).drop_first() =~= evs.skip(k as int + 1));
        }
        let e = &entries[k];
        let keep = !str_contains(e.as_str(), self_addr) && str_has_visible_char(e.as_str());
        proof {
            assert(entries@.take(k as int + 1) =~= entries@.take(k as int).push(entries@[k as int]));
            assert forall|x: Seq<char>|
                in_views(entries@.take(k as int + 1), x) <==> (in_views(entries@.take(k as int), x)
                    || x == entries@[k as int]@) by {
                let t1 = entries@.take(k as int + 1);
                let t0 = entries@.take(k as int);
                if in_views(t1, x) {
                    let j = choose|j: int| 0 <= j < t1.len() && #[trigger] t1[j]@ == x;
                    if j < k {
                        assert(t0[j]@ == x);
                    }
                }
                if in_views(t0, x) {
                    let j = choose|j: int| 0 <= j < t0.len() && #[trigger] t0[j]@ == x;
                    assert(t1[j]@ == x);
                }
                if x == entries@[k as int]@ {
                    assert(t1[k as int]@ == x);
                }
            }
        }
        if keep {
            insert_unique_sorted(&mut r, e.clone());
        }
        k += 1;
    }
    proof {
        assert(entries@.take(entries@.len() as int) =~= entries@);
        assert(views_of(entries@).skip(entries@.len() as int).len() == 0);
    }
    r
}

/// The comma-separated entries of `from` and `to` together.
fn candidate_entries(from: &str, to: &str) -> (r: Vec<String>)
    ensures
        r@.len() == split_commas_spec(from@).len() + split_commas_spec(to@).len(),
        forall|k: int|
            0 <= k < r@.len() ==> #[trigger] r@[k]@ == (split_commas_spec(from@) + split_commas_spec(
                to@,
            ))[k],
{
    let mut r = split_commas(from);
    let mut second = split_commas(to);
    let ghost firsts = r@;
    let ghost seconds = second@;
    r.append(&mut second);
    proof {
        assert(r@ == firsts + seconds);
        assert forall|k: int|
            0 <= k < r@.len() implies #[trigger] r@[k]@ == (split_commas_spec(from@)
            + split_commas_spec(to@))[k] by {
            if k < firsts.len() {
                assert(r@[k] == firsts[k]);
            } else {
                assert(r@[k] == seconds[k - firsts.len()]);
            }
        }
    }
    r
}

/// Resolve the reply's recipient lists.  The To list is built from the
/// inbound From and To headers, the Cc list from the Cc header; each is
/// split on commas, stripped of entries containing the operator's address
/// and of whitespace-only entries, sorted lexicographically and
/// deduplicated.
pub fn resolve_recipients(from: &str, to: &str, cc: &str, self_addr: &str) -> (r: (
    Vec<String>,
    Vec<String>,
))
    ensures
        strictly_sorted(r.0@),
        strictly_sorted(r.1@),
        forall|x: Seq<char>|
            in_views(r.0@, x) <==> (seq_has(
                split_commas_spec(from@) + split_commas_spec(to@),
                x,
            ) && keeps_entry(x, self_addr@)),
        forall|x: Seq<char>|
            in_views(r.1@, x) <==> (seq_has(split_commas_spec(cc@), x) && keeps_entry(
                x,
                self_addr@,
            )),
        views_of(r.0@) == resolved_list(
            split_commas_spec(from@) + split_commas_spec(to@),
            self_addr@,
        ),
        views_of(r.1@) == resolved_list(split_commas_spec(cc@), self_addr@),
{
    let to_candidates = candidate_entries(from, to);
    let cc_candidates = split_commas(cc);
    let to_list = sorted_filtered(&to_candidates, self_addr);
    let cc_list = sorted_filtered(&cc_candidates, self_addr);
    proof {
        assert(views_of(to_candidates@) =~= split_commas_spec(from@) + split_commas_spec(to@));
        assert(views_of(cc_candidates@) =~= split_commas_spec(cc@));
        let cand = split_commas_spec(from@) + split_commas_spec(to@);
        assert forall|x: Seq<char>| in_views(to_candidates@, x) <==> seq_has(cand, x) by {
            if in_views(to_candidates@, x) {
                let k = choose|k: int|
                    0 <= k < to_candidates@.len() && #[trigger] to_candidates@[k]@ == x;
                assert(cand[k] == x);
            }
            if seq_has(cand, x) {
                let k = choose|k: int| 0 <= k < cand.len() && #[trigger] cand[k] == x;
                assert(to_candidates@[k]@ == x);
            }
        }
        let ccs = split_commas_spec(cc@);
        assert forall|x: Seq<char>| in_views(cc_candidates@, x) <==> seq_has(ccs, x) by {
            if in_views(cc_candidates@, x) {
                let k = choose|k: int|
                    0 <= k < cc_candidates@.len() && #[trigger] cc_candidates@[k]@ == x;
                assert(ccs[k] == x);
            }
            if seq_has(ccs, x) {
                let k = choose|k: int| 0 <= k < ccs.len() && #[trigger] ccs[k] == x;
                assert(cc_candidates@[k]@ == x);
            }
        }
    }
    (to_list, cc_list)
}

/// The guarantees of the resolved lists, spelled out: no entry contains
/// the operator's address, no entry is empty or whitespace-only, the list
/// is sorted, and no entry is adjacent to an equal one.
pub proof fn lemma_recipients_clean(vs: Seq<String>, self_addr: Seq<char>, candidates: Seq<
    Seq<char>,
>)
    requires
        strictly_sorted(vs),
        forall|x: Seq<char>|
            in_views(vs, x) <==> (seq_has(candidates, x) && keeps_entry(x, self_addr)),
    ensures
        forall|k: int| 0 <= k < vs.len() ==> !contains_sub(#[trigger] vs[k]@, self_addr),
        forall|k: int| 0 <= k < vs.len() ==> !whitespace_only(#[trigger] vs[k]@),
        forall|k: int| 0 <= k < vs.len() - 1 ==> lex_leq(#[trigger] vs[k]@, vs[k + 1]@),
        forall|k: int| 0 <= k < vs.len() - 1 ==> #[trigger] vs[k]@ != vs[k + 1]@,
{
    assert forall|k: int| 0 <= k < vs.len() implies !contains_sub(#[trigger] vs[k]@, self_addr)
        && !whitespace_only(vs[k]@) by {
        assert(in_views(vs, vs[k]@));
        assert(keeps_entry(vs[k]@, self_addr));
    }
}

} // verus!
