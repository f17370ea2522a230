//! Ranking of candidates: descending by confidence, equals in the order in
//! which they came.

use crate::confidence::{lemma_at_least_respects_same, Confidence, Ratio};
use crate::encoding::Encoding;
use vstd::prelude::*;

verus! {

/// A ranked list with one more candidate: it goes behind every candidate that
/// is at least as confident, so that of two equals the earlier stays first.
pub open spec fn insert_ranked(ranked: Seq<(Encoding, Ratio)>, x: (Encoding, Ratio)) -> Seq<
    (Encoding, Ratio),
>
    decreases ranked.len(),
{
    if ranked.len() == 0 {
        seq![x]
    } else if ranked[0].1.at_least(x.1) {
        seq![ranked[0]] + insert_ranked(ranked.drop_first(), x)
    } else {
        seq![x] + ranked
    }
}

/// The candidates in descending order of confidence; candidates of the same
/// confidence keep the order in which they were registered.
pub open spec fn ranked(candidates: Seq<(Encoding, Ratio)>) -> Seq<(Encoding, Ratio)>
    decreases candidates.len(),
{
    if candidates.len() == 0 {
        seq![]
    } else {
        insert_ranked(ranked(candidates.drop_last()), candidates.last())
    }
}

/// The candidates of an executable list as mathematical values.
pub open spec fn candidates_view(candidates: Seq<(Encoding, Confidence)>) -> Seq<
    (Encoding, Ratio),
> {
    Seq::new(candidates.len(), |i: int| (candidates[i].0, candidates[i].1@))
}

/// Whether two lists name the same encodings in the same order, with
/// confidences that are the same numbers.
pub open spec fn same_candidates(a: Seq<(Encoding, Ratio)>, b: Seq<(Encoding, Ratio)>) -> bool {
    &&& a.len() == b.len()
    &&& forall|i: int|
        0 <= i < a.len() ==> (#[trigger] a[i]).0 == b[i].0 && a[i].1.same(b[i].1)
}

/// Whether every confidence of the list has a positive denominator.
pub open spec fn proper(a: Seq<(Encoding, Ratio)>) -> bool {
    forall|i: int| 0 <= i < a.len() ==> (#[trigger] a[i]).1.den > 0
}

/// Whether the list is in descending order of confidence.
pub open spec fn descending(a: Seq<(Encoding, Ratio)>) -> bool {
    forall|i: int, j: int| 0 <= i <= j < a.len() ==> (#[trigger] a[i]).1.at_least((#[trigger] a[j]).1)
}

/// Where the candidate goes: behind the first `p` candidates, which are all
/// at least as confident, and before the next, which is less confident.
pub proof fn lemma_insert_at(ranked: Seq<(Encoding, Ratio)>, x: (Encoding, Ratio), p: int)
    requires
        0 <= p <= ranked.len(),
        forall|j: int| 0 <= j < p ==> (#[trigger] ranked[j]).1.at_least(x.1),
        p < ranked.len() ==> !ranked[p].1.at_least(x.1),
    ensures
        insert_ranked(ranked, x) == ranked.insert(p, x),
    decreases ranked.len(),
{
    if ranked.len() == 0 {
        assert(ranked.insert(0, x) =~= seq![x]);
    } else if p == 0 {
        assert(ranked.insert(0, x) =~= seq![x] + ranked);
    } else {
        let rest = ranked.drop_first();
        assert(ranked[0].1.at_least(x.1));
        assert forall|j: int| 0 <= j < p - 1 implies (#[trigger] rest[j]).1.at_least(x.1) by {
            assert(ranked[j + 1].1.at_least(x.1));
        }
        lemma_insert_at(rest, x, p - 1);
        assert(seq![ranked[0]] + rest.insert(p - 1, x) =~= ranked.insert(p, x));
    }
}

/// Inserting a candidate adds one entry, and what holds of the candidate and
/// of every entry of the list holds of every entry of the result.
pub proof fn lemma_insert_keeps(
    ranked: Seq<(Encoding, Ratio)>,
    x: (Encoding, Ratio),
    holds: spec_fn((Encoding, Ratio)) -> bool,
)
    requires
        holds(x),
        forall|i: int| 0 <= i < ranked.len() ==> holds(#[trigger] ranked[i]),
    ensures
        insert_ranked(ranked, x).len() == ranked.len() + 1,
        forall|i: int|
            0 <= i < insert_ranked(ranked, x).len() ==> holds(#[trigger] insert_ranked(ranked, x)[i]),
    decreases ranked.len(),
{
    if ranked.len() > 0 && ranked[0].1.at_least(x.1) {
        let rest = ranked.drop_first();
        assert forall|i: int| 0 <= i < rest.len() implies holds(#[trigger] rest[i]) by {
            assert(holds(ranked[i + 1]));
        }
        lemma_insert_keeps(rest, x, holds);
    }
}

/// Ranking keeps the number of candidates, and what holds of every candidate
/// holds of every entry of the ranked list.
pub proof fn lemma_ranked_keeps(
    candidates: Seq<(Encoding, Ratio)>,
    holds: spec_fn((Encoding, Ratio)) -> bool,
)
    requires
        forall|i: int| 0 <= i < candidates.len() ==> holds(#[trigger] candidates[i]),
    ensures
        ranked(candidates).len() == candidates.len(),
        forall|i: int|
            0 <= i < ranked(candidates).len() ==> holds(#[trigger] ranked(candidates)[i]),
    decreases candidates.len(),
{
    if candidates.len() > 0 {
        let front = candidates.drop_last();
        assert forall|i: int| 0 <= i < front.len() implies holds(#[trigger] front[i]) by {
            assert(holds(candidates[i]));
        }
        lemma_ranked_keeps(front, holds);
        lemma_insert_keeps(ranked(front), candidates.last(), holds);
    }
}

/// Inserting the same candidate into the same list gives the same list,
/// whatever fractions the confidences are written as.
pub proof fn lemma_insert_same(
    a: Seq<(Encoding, Ratio)>,
    x: (Encoding, Ratio),
    b: Seq<(Encoding, Ratio)>,
    y: (Encoding, Ratio),
)
    requires
        same_candidates(a, b),
        proper(a),
        proper(b),
        x.0 == y.0,
        x.1.same(y.1),
        x.1.den > 0,
        y.1.den > 0,
    ensures
        same_candidates(insert_ranked(a, x), insert_ranked(b, y)),
    decreases a.len(),
{
    if a.len() > 0 {
        assert(a[0].1.same(b[0].1));
        lemma_at_least_respects_same(a[0].1, b[0].1, x.1, y.1);
        if a[0].1.at_least(x.1) {
            let ra = a.drop_first();
            let rb = b.drop_first();
            assert forall|i: int| 0 <= i < ra.len() implies (#[trigger] ra[i]).0 == rb[i].0
                && ra[i].1.same(rb[i].1) by {
                assert(a[i + 1].0 == b[i + 1].0);
            }
            assert(proper(ra)) by {
                assert forall|i: int| 0 <= i < ra.len() implies (#[trigger] ra[i]).1.den > 0 by {
                    assert(a[i + 1].1.den > 0);
                }
            }
            assert(proper(rb)) by {
                assert forall|i: int| 0 <= i < rb.len() implies (#[trigger] rb[i]).1.den > 0 by {
                    assert(b[i + 1].1.den > 0);
                }
            }
            lemma_insert_same(ra, x, rb, y);
            let ia = insert_ranked(ra, x);
            let ib = insert_ranked(rb, y);
            let fa = insert_ranked(a, x);
            let fb = insert_ranked(b, y);
            assert(fa == seq![a[0]] + ia);
            assert(fb == seq![b[0]] + ib);
            assert forall|i: int| 0 <= i < fa.len() implies (#[trigger] fa[i]).0 == fb[i].0
                && fa[i].1.same(fb[i].1) by {
                if i > 0 {
                    assert(fa[i] == ia[i - 1]);
                    assert(fb[i] == ib[i - 1]);
                }
            }
        } else {
            let fa = insert_ranked(a, x);
            let fb = insert_ranked(b, y);
            assert(fa == seq![x] + a);
            assert(fb == seq![y] + b);
            assert forall|i: int| 0 <= i < fa.len() implies (#[trigger] fa[i]).0 == fb[i].0
                && fa[i].1.same(fb[i].1) by {
                if i > 0 {
                    assert(fa[i] == a[i - 1]);
                    assert(fb[i] == b[i - 1]);
                }
            }
        }
    }
}

/// Ranking the same candidates gives the same list, whatever fractions the
/// confidences are written as.
pub proof fn lemma_ranked_same(a: Seq<(Encoding, Ratio)>, b: Seq<(Encoding, Ratio)>)
    requires
        same_candidates(a, b),
        proper(a),
        proper(b),
    ensures
        same_candidates(ranked(a), ranked(b)),
    decreases a.len(),
{
    if a.len() > 0 {
        let fa = a.drop_last();
        let fb = b.drop_last();
        assert(same_candidates(fa, fb)) by {
            assert forall|i: int| 0 <= i < fa.len() implies (#[trigger] fa[i]).0 == fb[i].0
                && fa[i].1.same(fb[i].1) by {
                assert(a[i].0 == b[i].0);
            }
        }
        assert(proper(fa)) by {
            assert forall|i: int| 0 <= i < fa.len() implies (#[trigger] fa[i]).1.den > 0 by {
                assert(a[i].1.den > 0);
            }
        }
        assert(proper(fb)) by {
            assert forall|i: int| 0 <= i < fb.len() implies (#[trigger] fb[i]).1.den > 0 by {
                assert(b[i].1.den > 0);
            }
        }
        lemma_ranked_same(fa, fb);
        lemma_ranked_keeps(fa, |c: (Encoding, Ratio)| c.1.den > 0);
        lemma_ranked_keeps(fb, |c: (Encoding, Ratio)| c.1.den > 0);
        assert(a.last().0 == b.last().0 && a.last().1.same(b.last().1));
        lemma_insert_same(ranked(fa), a.last(), ranked(fb), b.last());
    }
}

/// The number of candidates at the head of a ranked list that are at least as
/// confident as `x`: the place at which `x` goes in.
pub open spec fn rank_of(ranked: Seq<(Encoding, Ratio)>, x: (Encoding, Ratio)) -> int
    decreases ranked.len(),
{
    if ranked.len() == 0 || !ranked[0].1.at_least(x.1) {
        0
    } else {
        1 + rank_of(ranked.drop_first(), x)
    }
}

/// Inserting a candidate puts it at its place and leaves the others where
/// they were.
pub proof fn lemma_insert_is_insert(ranked: Seq<(Encoding, Ratio)>, x: (Encoding, Ratio))
    ensures
        0 <= rank_of(ranked, x) <= ranked.len(),
        insert_ranked(ranked, x) == ranked.insert(rank_of(ranked, x), x),
    decreases ranked.len(),
{
    if ranked.len() == 0 {
        assert(ranked.insert(0, x) =~= seq![x]);
    } else if !ranked[0].1.at_least(x.1) {
        assert(ranked.insert(0, x) =~= seq![x] + ranked);
    } else {
        let rest = ranked.drop_first();
        lemma_insert_is_insert(rest, x);
        assert(seq![ranked[0]] + rest.insert(rank_of(rest, x), x) =~= ranked.insert(
            1 + rank_of(rest, x),
            x,
        ));
    }
}

/// Ranking only reorders: the ranked list holds every candidate as often as
/// the list that was ranked.
pub proof fn lemma_ranked_permutes(candidates: Seq<(Encoding, Ratio)>)
    ensures
        ranked(candidates).to_multiset() == candidates.to_multiset(),
    decreases candidates.len(),
{
    if candidates.len() > 0 {
        let front = candidates.drop_last();
        let last = candidates.last();
        lemma_ranked_permutes(front);
        lemma_insert_is_insert(ranked(front), last);
        vstd::seq_lib::to_multiset_insert(ranked(front), rank_of(ranked(front), last), last);
        vstd::seq_lib::to_multiset_build(front, last);
        assert(candidates =~= front.push(last));
        assert(ranked(candidates) == ranked(front).insert(rank_of(ranked(front), last), last));
        assert(ranked(candidates).to_multiset() == ranked(front).to_multiset().insert(last));
        assert(candidates.to_multiset() == front.to_multiset().insert(last));
    } else {
        assert(candidates =~= Seq::<(Encoding, Ratio)>::empty());
        assert(ranked(candidates) =~= Seq::<(Encoding, Ratio)>::empty());
    }
}

/// Of three fractions, the first is at least the third where it is at least
/// the second and the second at least the third.
pub proof fn lemma_at_least_transitive(a: Ratio, b: Ratio, c: Ratio)
    requires
        a.den > 0,
        b.den > 0,
        c.den > 0,
        a.at_least(b),
        b.at_least(c),
    ensures
        a.at_least(c),
{
    assert(a.num * c.den >= c.num * a.den) by (nonlinear_arith)
        requires
            a.den > 0,
            b.den > 0,
            c.den > 0,
            a.num * b.den >= b.num * a.den,
            b.num * c.den >= c.num * b.den,
    {
        assert((a.num * b.den) * c.den >= (b.num * a.den) * c.den);
        assert((b.num * c.den) * a.den >= (c.num * b.den) * a.den);
        assert((a.num * b.den) * c.den == (a.num * c.den) * b.den);
        assert((b.num * a.den) * c.den == (b.num * c.den) * a.den);
        assert((c.num * b.den) * a.den == (c.num * a.den) * b.den);
        assert((a.num * c.den) * b.den >= (c.num * a.den) * b.den);
    }
}

/// Inserting a candidate into a list in descending order gives a list in
/// descending order.
pub proof fn lemma_insert_descending(ranked: Seq<(Encoding, Ratio)>, x: (Encoding, Ratio))
    requires
        descending(ranked),
        proper(ranked),
        x.1.den > 0,
    ensures
        descending(insert_ranked(ranked, x)),
    decreases ranked.len(),
{
    let out = insert_ranked(ranked, x);
    if ranked.len() == 0 {
    } else if ranked[0].1.at_least(x.1) {
        let head = ranked[0];
        let rest = ranked.drop_first();
        assert(descending(rest)) by {
            assert forall|i: int, j: int| 0 <= i <= j < rest.len() implies (#[trigger] rest[i]).1.at_least(
                (#[trigger] rest[j]).1,
            ) by {
                assert(ranked[i + 1].1.at_least(ranked[j + 1].1));
            }
        }
        assert(proper(rest)) by {
            assert forall|i: int| 0 <= i < rest.len() implies (#[trigger] rest[i]).1.den > 0 by {
                assert(ranked[i + 1].1.den > 0);
            }
        }
        lemma_insert_descending(rest, x);
        let tail = insert_ranked(rest, x);
        let below = |c: (Encoding, Ratio)| head.1.at_least(c.1);
        assert forall|i: int| 0 <= i < rest.len() implies below(#[trigger] rest[i]) by {
            assert(ranked[0].1.at_least(ranked[i + 1].1));
        }
        lemma_insert_keeps(rest, x, below);
        assert(out == seq![head] + tail);
        assert forall|i: int, j: int| 0 <= i <= j < out.len() implies (#[trigger] out[i]).1.at_least(
            (#[trigger] out[j]).1,
        ) by {
            if i == 0 {
                if j > 0 {
                    assert(out[j] == tail[j - 1]);
                    assert(below(tail[j - 1]));
                } else {
                    assert(ranked[0].1.at_least(ranked[0].1));
                }
            } else {
                assert(out[i] == tail[i - 1]);
                assert(out[j] == tail[j - 1]);
            }
        }
    } else {
        assert(out == seq![x] + ranked);
        assert(x.1.at_least(ranked[0].1));
        assert forall|i: int, j: int| 0 <= i <= j < out.len() implies (#[trigger] out[i]).1.at_least(
            (#[trigger] out[j]).1,
        ) by {
            if i == 0 {
                if j > 0 {
                    assert(out[j] == ranked[j - 1]);
                    assert(ranked[0].1.at_least(ranked[j - 1].1));
                    assert(ranked[j - 1].1.den > 0);
                    assert(ranked[0].1.den > 0);
                    lemma_at_least_transitive(x.1, ranked[0].1, ranked[j - 1].1);
                }
            } else {
                assert(out[i] == ranked[i - 1]);
                assert(out[j] == ranked[j - 1]);
            }
        }
    }
}

/// A ranked list is in descending order of confidence.
pub proof fn lemma_ranked_descending(candidates: Seq<(Encoding, Ratio)>)
    requires
        proper(candidates),
    ensures
        descending(ranked(candidates)),
    decreases candidates.len(),
{
    if candidates.len() > 0 {
        let front = candidates.drop_last();
        assert(proper(front)) by {
            assert forall|i: int| 0 <= i < front.len() implies (#[trigger] front[i]).1.den > 0 by {
                assert(candidates[i].1.den > 0);
            }
        }
        lemma_ranked_descending(front);
        lemma_ranked_keeps(front, |c: (Encoding, Ratio)| c.1.den > 0);
        lemma_insert_descending(ranked(front), candidates.last());
    }
}

/// Ranks candidates whose confidences are stored over one denominator.
pub fn rank(pool: Vec<(Encoding, Confidence)>) -> (sorted: Vec<(Encoding, Confidence)>)
    requires
        forall|i: int, j: int|
            0 <= i < pool@.len() && 0 <= j < pool@.len() ==> (#[trigger] pool@[i]).1@.den == (
            #[trigger] pool@[j]).1@.den,
    ensures
        candidates_view(sorted@) == ranked(candidates_view(pool@)),
        sorted@.len() == pool@.len(),
{
    let mut sorted: Vec<(Encoding, Confidence)> = Vec::with_capacity(pool.len());
    let mut i: usize = 0;
    assert(candidates_view(pool@).take(0) =~= Seq::<(Encoding, Ratio)>::empty());
    assert(candidates_view(sorted@) =~= Seq::<(Encoding, Ratio)>::empty());
    while i < pool.len()
        invariant
            i <= pool@.len(),
            sorted@.len() == i,
            forall|a: int, b: int|
                0 <= a < pool@.len() && 0 <= b < pool@.len() ==> (#[trigger] pool@[a]).1@.den == (
                #[trigger] pool@[b]).1@.den,
            forall|j: int|
                0 <= j < sorted@.len() ==> (#[trigger] sorted@[j]).1@.den == pool@[0].1@.den,
            candidates_view(sorted@) == ranked(candidates_view(pool@).take(i as int)),
        decreases pool@.len() - i,
    {
        let x = pool[i];
        let key = x.1.numerator();
        let ghost den = x.1@.den;
        let ghost before = candidates_view(sorted@);
        let ghost gx = (x.0, x.1@);
        assert(den == pool@[0].1@.den);
        let mut p: usize = 0;
        while p < sorted.len() && sorted[p].1.numerator() >= key
            invariant
                p <= sorted@.len(),
                before == candidates_view(sorted@),
                gx == (x.0, x.1@),
                key == x.1@.num,
                den == x.1@.den,
                den > 0,
                forall|j: int| 0 <= j < sorted@.len() ==> (#[trigger] sorted@[j]).1@.den == den,
                forall|j: int| 0 <= j < p ==> (#[trigger] before[j]).1.at_least(gx.1),
            decreases sorted@.len() - p,
        {
            proof {
                let other = sorted@[p as int].1@.num;
                assert(before[p as int].1 == sorted@[p as int].1@);
                assert((other * den >= key * den) == (other >= key)) by (nonlinear_arith)
                    requires
                        den > 0,
                ;
            }
            p += 1;
        }
        proof {
            if p < sorted@.len() {
                let other = sorted@[p as int].1@.num;
                assert(before[p as int].1 == sorted@[p as int].1@);
                assert((other * den >= key * den) == (other >= key)) by (nonlinear_arith)
                    requires
                        den > 0,
                ;
            }
            lemma_insert_at(before, gx, p as int);
        }
        sorted.insert(p, x);
        proof {
            let part = candidates_view(pool@).take(i + 1);
            assert(part.drop_last() =~= candidates_view(pool@).take(i as int));
            assert(part.last() == gx);
            assert(candidates_view(sorted@) =~= before.insert(p as int, gx));
        }
        i += 1;
    }
    assert(candidates_view(pool@).take(pool@.len() as int) =~= candidates_view(pool@));
    sorted
}

} // verus!
