//! Price samples: what one message on the chain paid for its gas, and the
//! order in which the premium estimate looks at them.

use vstd::prelude::*;
use num_bigint::BigInt;
use crate::bigint::{big_lt, big_value};

verus! {

/// The premium that a message on the chain offered and the gas it asked for.
#[derive(Debug, Clone, PartialEq, Eq)]
pub struct PriceSample {
    /// Gas premium of the message.
    pub premium: BigInt,
    /// Gas limit of the message.
    pub limit: i64,
}

/// A price sample as a pair of integers.
pub struct SampleModel {
    pub premium: int,
    pub limit: int,
}

impl View for PriceSample {
    type V = SampleModel;

    open spec fn view(&self) -> SampleModel {
        SampleModel { premium: big_value(self.premium), limit: self.limit as int }
    }
}

/// The samples of `s` as pairs of integers, in the same order.
pub open spec fn samples_model(s: Seq<PriceSample>) -> Seq<SampleModel> {
    s.map_values(|p: PriceSample| p@)
}

/// Whether the premiums of `s` never rise from one sample to the next.
pub open spec fn premiums_descend(s: Seq<SampleModel>) -> bool {
    forall|i: int, j: int| 0 <= i < j < s.len() ==> s[i].premium >= s[j].premium
}

/// Selects the samples whose premium is `p`.
pub open spec fn has_premium(p: int) -> spec_fn(SampleModel) -> bool {
    |m: SampleModel| m.premium == p
}

/// `sorted` with `x` put behind every sample that it does not outbid: `x`
/// moves forward from the end past the samples with a smaller premium and
/// stops at the first whose premium is at least its own.
pub open spec fn insert_by_premium(sorted: Seq<SampleModel>, x: SampleModel) -> Seq<SampleModel>
    decreases sorted.len(),
{
    if sorted.len() == 0 {
        seq![x]
    } else if sorted.last().premium >= x.premium {
        sorted.push(x)
    } else {
        insert_by_premium(sorted.drop_last(), x).push(sorted.last())
    }
}

/// The samples of `s` by premium, highest first; samples with the same
/// premium stay in the order in which `s` has them.
pub open spec fn sorted_by_premium(s: Seq<SampleModel>) -> Seq<SampleModel>
    decreases s.len(),
{
    if s.len() == 0 {
        s
    } else {
        insert_by_premium(sorted_by_premium(s.drop_last()), s.last())
    }
}

/// Where `insert_by_premium` puts `x`: at the one position `j` that has only
/// smaller premiums from it on and, unless it is the front, a premium at
/// least as high just before it.
pub proof fn lemma_insert_position(s: Seq<SampleModel>, x: SampleModel, j: int)
    requires
        0 <= j <= s.len(),
        forall|k: int| j <= k < s.len() ==> s[k].premium < x.premium,
        j > 0 ==> s[j - 1].premium >= x.premium,
    ensures
        insert_by_premium(s, x) == s.insert(j, x),
    decreases s.len(),
{
    if s.len() == 0 {
        assert(seq![x] =~= s.insert(j, x));
    } else if s.last().premium >= x.premium {
        assert(j == s.len());
        assert(s.push(x) =~= s.insert(j, x));
    } else {
        assert(j < s.len());
        lemma_insert_position(s.drop_last(), x, j);
        assert(s.drop_last().insert(j, x).push(s.last()) =~= s.insert(j, x));
    }
}

/// The position at which `insert_by_premium` puts `x`.
pub proof fn lemma_insert_lands(s: Seq<SampleModel>, x: SampleModel) -> (j: int)
    ensures
        0 <= j <= s.len(),
        forall|k: int| j <= k < s.len() ==> s[k].premium < x.premium,
        j > 0 ==> s[j - 1].premium >= x.premium,
        insert_by_premium(s, x) == s.insert(j, x),
    decreases s.len(),
{
    if s.len() == 0 {
        lemma_insert_position(s, x, 0);
        0
    } else if s.last().premium >= x.premium {
        lemma_insert_position(s, x, s.len() as int);
        s.len() as int
    } else {
        let j = lemma_insert_lands(s.drop_last(), x);
        assert forall|k: int| j <= k < s.len() implies s[k].premium < x.premium by {
            if k < s.len() - 1 {
                assert(s[k] == s.drop_last()[k]);
            }
        }
        if j > 0 {
            assert(s[j - 1] == s.drop_last()[j - 1]);
        }
        lemma_insert_position(s, x, j);
        j
    }
}

/// Sorting keeps every sample: the result has the samples of `s`, each as
/// often as `s` has it.
pub proof fn lemma_sorted_is_permutation(s: Seq<SampleModel>)
    ensures
        sorted_by_premium(s).len() == s.len(),
        sorted_by_premium(s).to_multiset() == s.to_multiset(),
    decreases s.len(),
{
    broadcast use vstd::seq_lib::group_to_multiset_ensures;

    if s.len() > 0 {
        let rest = s.drop_last();
        let x = s.last();
        lemma_sorted_is_permutation(rest);
        let r = sorted_by_premium(rest);
        let j = lemma_insert_lands(r, x);
        assert(s =~= rest.push(x));
        assert(r.insert(j, x).remove(j) =~= r);
        assert(r.insert(j, x)[j] == x);
        assert(r.insert(j, x).to_multiset().remove(x) =~= r.to_multiset());
        assert(r.insert(j, x).to_multiset() =~= r.to_multiset().insert(x));
    }
}

/// Sorting puts the highest premium first: premiums never rise along the
/// result.
pub proof fn lemma_sorted_descends(s: Seq<SampleModel>)
    ensures
        premiums_descend(sorted_by_premium(s)),
    decreases s.len(),
{
    if s.len() > 0 {
        lemma_sorted_descends(s.drop_last());
        let r = sorted_by_premium(s.drop_last());
        let x = s.last();
        let j = lemma_insert_lands(r, x);
        let out = r.insert(j, x);
        assert forall|a: int, b: int| 0 <= a < b < out.len() implies out[a].premium
            >= out[b].premium by {
            if j > 0 && a < j {
                assert(r[a].premium >= r[j - 1].premium);
            }
        }
    }
}

/// Sorting is stable: for every premium, the samples that offer it come out
/// in the order in which they went in.
pub proof fn lemma_sorted_keeps_encounter_order(s: Seq<SampleModel>, p: int)
    ensures
        sorted_by_premium(s).filter(has_premium(p)) == s.filter(has_premium(p)),
    decreases s.len(),
{
    if s.len() > 0 {
        let rest = s.drop_last();
        let x = s.last();
        lemma_sorted_keeps_encounter_order(rest, p);
        let r = sorted_by_premium(rest);
        let j = lemma_insert_lands(r, x);
        let pred = has_premium(p);
        let front = r.subrange(0, j);
        let back = r.subrange(j, r.len() as int);
        assert(r =~= front + back);
        assert(r.insert(j, x) =~= front.push(x) + back);
        Seq::filter_distributes_over_add(front, back, pred);
        Seq::filter_distributes_over_add(front.push(x), back, pred);
        front.lemma_filter_push(x, pred);
        rest.lemma_filter_push(x, pred);
        assert(s =~= rest.push(x));
        if x.premium == p {
            assert(back.filter(pred).len() == 0) by {
                if back.filter(pred).len() > 0 {
                    let m = back.filter(pred)[0];
                    back.lemma_filter_pred(pred, 0);
                    assert(back.filter(pred).contains(m));
                    back.lemma_filter_contains_rev(pred, m);
                    let k = choose|k: int| 0 <= k < back.len() && back[k] == m;
                    assert(back[k] == r[j + k]);
                    assert(pred(m));
                }
            }
            assert(back.filter(pred) =~= Seq::<SampleModel>::empty());
            assert(front.filter(pred).push(x) + back.filter(pred) =~= (front.filter(pred)
                + back.filter(pred)).push(x));
        }
    }
}

/// Whether `r` is `s` sorted by premium, highest first, in a stable way:
/// premiums never rise along `r`, and for every premium the samples that
/// offer it stand in `r` as they stand in `s`.
pub open spec fn is_stable_sort_of(r: Seq<SampleModel>, s: Seq<SampleModel>) -> bool {
    &&& premiums_descend(r)
    &&& forall|p: int| #[trigger] r.filter(has_premium(p)) == s.filter(has_premium(p))
}

/// `sorted_by_premium` sorts by premium, highest first, and is stable.
pub proof fn lemma_sorted_is_stable_sort(s: Seq<SampleModel>)
    ensures
        is_stable_sort_of(sorted_by_premium(s), s),
{
    lemma_sorted_descends(s);
    assert forall|p: int| #[trigger]
        sorted_by_premium(s).filter(has_premium(p)) == s.filter(has_premium(p)) by {
        lemma_sorted_keeps_encounter_order(s, p);
    }
}

/// The first sample of a sequence heads the samples of its premium, and the
/// rest of the sequence holds the rest of them; the samples of any other
/// premium all lie in the rest.
proof fn lemma_filter_of_first(a: Seq<SampleModel>, p: int)
    requires
        a.len() > 0,
    ensures
        a.filter(has_premium(p)) == if a[0].premium == p {
            seq![a[0]] + a.drop_first().filter(has_premium(p))
        } else {
            a.drop_first().filter(has_premium(p))
        },
{
    let pred = has_premium(p);
    a.drop_first().lemma_filter_prepend(a[0], pred);
    assert(a =~= seq![a[0]] + a.drop_first());
    assert(Seq::<SampleModel>::empty() + a.drop_first().filter(pred) =~= a.drop_first().filter(
        pred,
    ));
}

/// A descending sequence that holds a sample of premium `p` starts with a
/// premium of at least `p`.
proof fn lemma_first_is_highest(a: Seq<SampleModel>, p: int)
    requires
        premiums_descend(a),
        a.filter(has_premium(p)).len() > 0,
    ensures
        a.len() > 0,
        a[0].premium >= p,
{
    let pred = has_premium(p);
    let m = a.filter(pred)[0];
    a.lemma_filter_pred(pred, 0);
    assert(a.filter(pred).contains(m));
    a.lemma_filter_contains_rev(pred, m);
    let k = choose|k: int| 0 <= k < a.len() && a[k] == m;
    assert(pred(m));
    if k > 0 {
        assert(a[0].premium >= a[k].premium);
    }
}

/// There is only one stable sort: two descending sequences that agree, for
/// every premium, on the samples that offer it and on their order, are the
/// same sequence. So `sorted_by_premium(s)` is the one sequence that
/// `is_stable_sort_of` describes.
pub proof fn lemma_stable_sort_is_unique(a: Seq<SampleModel>, b: Seq<SampleModel>)
    requires
        premiums_descend(a),
        premiums_descend(b),
        forall|p: int| #[trigger] a.filter(has_premium(p)) == b.filter(has_premium(p)),
    ensures
        a == b,
    decreases a.len(),
{
    if a.len() == 0 {
        if b.len() > 0 {
            lemma_filter_of_first(b, b[0].premium);
            assert(a.filter(has_premium(b[0].premium)) == b.filter(has_premium(b[0].premium)));
            a.lemma_filter_len(has_premium(b[0].premium));
        }
        assert(a =~= b);
    } else {
        let p = a[0].premium;
        lemma_filter_of_first(a, p);
        assert(a.filter(has_premium(p)) == b.filter(has_premium(p)));
        lemma_first_is_highest(b, p);
        let q = b[0].premium;
        lemma_filter_of_first(b, q);
        assert(a.filter(has_premium(q)) == b.filter(has_premium(q)));
        lemma_first_is_highest(a, q);
        assert(p == q);
        assert(a[0] == a.filter(has_premium(p))[0]);
        assert(b[0] == b.filter(has_premium(p))[0]);
        let ta = a.drop_first();
        let tb = b.drop_first();
        assert forall|r: int| #[trigger]
            ta.filter(has_premium(r)) == tb.filter(has_premium(r)) by {
            lemma_filter_of_first(a, r);
            lemma_filter_of_first(b, r);
            assert(a.filter(has_premium(r)) == b.filter(has_premium(r)));
            if r == p {
                let fa = ta.filter(has_premium(r));
                let fb = tb.filter(has_premium(r));
                assert((seq![a[0]] + fa).drop_first() =~= fa);
                assert((seq![b[0]] + fb).drop_first() =~= fb);
            }
        }
        assert(premiums_descend(ta)) by {
            assert forall|i: int, j: int| 0 <= i < j < ta.len() implies ta[i].premium
                >= ta[j].premium by {
                assert(ta[i] == a[i + 1] && ta[j] == a[j + 1]);
            }
        }
        assert(premiums_descend(tb)) by {
            assert forall|i: int, j: int| 0 <= i < j < tb.len() implies tb[i].premium
                >= tb[j].premium by {
                assert(tb[i] == b[i + 1] && tb[j] == b[j + 1]);
            }
        }
        lemma_stable_sort_is_unique(ta, tb);
        assert(a =~= seq![a[0]] + ta);
        assert(b =~= seq![b[0]] + tb);
    }
}

/// A copy of `sample`.
pub fn clone_sample(sample: &PriceSample) -> (r: PriceSample)
    ensures
        r@ == sample@,
{
    PriceSample { premium: sample.premium.clone(), limit: sample.limit }
}

/// Sorts price samples by premium, highest first. The sort is stable: among
/// samples with the same premium, the one met first stays first.
pub fn sort_by_premium(samples: &Vec<PriceSample>) -> (sorted: Vec<PriceSample>)
    ensures
        samples_model(sorted@) == sorted_by_premium(samples_model(samples@)),
        is_stable_sort_of(samples_model(sorted@), samples_model(samples@)),
        sorted@.len() == samples@.len(),
{
    let mut out: Vec<PriceSample> = Vec::new();
    let mut i: usize = 0;
    assert(samples_model(samples@).take(0) =~= Seq::<SampleModel>::empty());
    assert(samples_model(out@) =~= Seq::<SampleModel>::empty());
    while i < samples.len()
        invariant
            i <= samples.len(),
            samples_model(out@) == sorted_by_premium(samples_model(samples@).take(i as int)),
        decreases samples.len() - i,
    {
        let x = clone_sample(&samples[i]);
        let mut j: usize = out.len();
        while j > 0 && big_lt(&out[j - 1].premium, &x.premium)
            invariant
                j <= out.len(),
                forall|k: int| j <= k < out.len() ==> (#[trigger] out@[k])@.premium < x@.premium,
            decreases j,
        {
            j -= 1;
        }
        proof {
            let before = samples_model(out@);
            let all = samples_model(samples@);
            assert forall|k: int| j <= k < before.len() implies before[k].premium
                < x@.premium by {
                assert(before[k] == out@[k]@);
            }
            if j > 0 {
                assert(before[j - 1] == out@[j - 1]@);
            }
            lemma_insert_position(before, x@, j as int);
            assert(all.take(i + 1).drop_last() =~= all.take(i as int));
            assert(all.take(i + 1).last() == x@);
            assert(samples_model(out@.insert(j as int, x)) =~= before.insert(j as int, x@));
        }
        out.insert(j, x);
        i += 1;
    }
    proof {
        assert(samples_model(samples@).take(i as int) =~= samples_model(samples@));
        lemma_sorted_is_stable_sort(samples_model(samples@));
        lemma_sorted_is_permutation(samples_model(samples@));
    }
    out
}

} // verus!
