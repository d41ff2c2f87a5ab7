//! Delta coding of integer streams: a stream of differences decodes to the
//! running sum of its entries, seeded at zero.

use vstd::prelude::*;

verus! {

/// The entries of an `i64` stream as mathematical integers.
pub open spec fn ints(s: Seq<i64>) -> Seq<int> {
    s.map_values(|x: i64| x as int)
}

/// The entries of an `i32` stream as mathematical integers.
pub open spec fn ints32(s: Seq<i32>) -> Seq<int> {
    s.map_values(|x: i32| x as int)
}

/// Sum of the first `n` entries of `d`.
pub open spec fn prefix_sum(d: Seq<int>, n: int) -> int
    decreases n,
{
    if n <= 0 || n > d.len() {
        0
    } else {
        prefix_sum(d, n - 1) + d[n - 1]
    }
}

/// The decoded stream: entry `i` is the sum of deltas `0..=i`.
pub open spec fn decoded(d: Seq<int>) -> Seq<int> {
    Seq::new(d.len(), |i: int| prefix_sum(d, i + 1))
}

/// The delta stream of `v`: each entry minus the one before it, the first
/// entry against zero.
pub open spec fn deltas_of(v: Seq<int>) -> Seq<int> {
    Seq::new(v.len(), |i: int| if i == 0 { v[0] } else { v[i] - v[i - 1] })
}

pub open spec fn fits_i64(x: int) -> bool {
    i64::MIN <= x <= i64::MAX
}

/// Every entry of `s` is an `i64`.
pub open spec fn all_fit_i64(s: Seq<int>) -> bool {
    forall|i: int| 0 <= i < s.len() ==> fits_i64(#[trigger] s[i])
}

proof fn lemma_prefix_step(d: Seq<int>, i: int)
    requires
        0 <= i < d.len(),
    ensures
        prefix_sum(d, i + 1) == prefix_sum(d, i) + d[i],
{
}

/// Decodes a delta stream into its running sums. Returns `None` exactly
/// when some running sum leaves the `i64` range.
pub fn delta_decode(deltas: &[i64]) -> (r: Option<Vec<i64>>)
    ensures
        r is Some <==> all_fit_i64(decoded(ints(deltas@))),
        r matches Some(v) ==> ints(v@) == decoded(ints(deltas@)),
{
    let ghost d = ints(deltas@);
    let mut out: Vec<i64> = Vec::with_capacity(deltas.len());
    let mut current: i64 = 0;
    let mut i: usize = 0;
    while i < deltas.len()
        invariant
            d == ints(deltas@),
            i <= deltas.len(),
            out@.len() == i,
            current as int == prefix_sum(d, i as int),
            forall|j: int| 0 <= j < i ==> (#[trigger] out@[j]) as int == prefix_sum(d, j + 1),
        decreases deltas.len() - i,
    {
        proof {
            lemma_prefix_step(d, i as int);
        }
        match current.checked_add(deltas[i]) {
            Some(c) => {
                current = c;
                out.push(c);
            },
            None => {
                assert(!fits_i64(decoded(d)[i as int]));
                return None;
            },
        }
        i = i + 1;
    }
    assert(ints(out@) =~= decoded(d));
    Some(out)
}

/// Encodes a stream as the differences of successive entries. Returns
/// `None` exactly when some difference leaves the `i64` range.
pub fn delta_encode(values: &[i64]) -> (r: Option<Vec<i64>>)
    ensures
        r is Some <==> all_fit_i64(deltas_of(ints(values@))),
        r matches Some(v) ==> ints(v@) == deltas_of(ints(values@)),
{
    let ghost s = ints(values@);
    let mut out: Vec<i64> = Vec::with_capacity(values.len());
    let mut previous: i64 = 0;
    let mut i: usize = 0;
    while i < values.len()
        invariant
            s == ints(values@),
            i <= values.len(),
            out@.len() == i,
            i == 0 ==> previous == 0,
            i > 0 ==> previous == values@[i - 1],
            forall|j: int| 0 <= j < i ==> (#[trigger] out@[j]) as int == deltas_of(s)[j],
        decreases values.len() - i,
    {
        match values[i].checked_sub(previous) {
            Some(c) => {
                out.push(c);
            },
            None => {
                assert(!fits_i64(deltas_of(s)[i as int]));
                return None;
            },
        }
        previous = values[i];
        i = i + 1;
    }
    assert(ints(out@) =~= deltas_of(s));
    Some(out)
}

proof fn lemma_decoded_deltas(d: Seq<int>)
    ensures
        deltas_of(decoded(d)) =~= d,
{
    assert forall|i: int| 0 <= i < d.len() implies deltas_of(decoded(d))[i] == d[i] by {
        lemma_prefix_step(d, i);
        if i > 0 {
            lemma_prefix_step(d, i - 1);
        }
    }
}

proof fn lemma_deltas_decoded(v: Seq<int>)
    ensures
        decoded(deltas_of(v)) =~= v,
{
    let d = deltas_of(v);
    assert forall|i: int| 0 <= i < v.len() implies prefix_sum(d, i + 1) == v[i] by {
        lemma_prefix_sum_of_deltas(v, i + 1);
    }
}

proof fn lemma_prefix_sum_of_deltas(v: Seq<int>, n: int)
    requires
        1 <= n <= v.len(),
    ensures
        prefix_sum(deltas_of(v), n) == v[n - 1],
    decreases n,
{
    let d = deltas_of(v);
    lemma_prefix_step(d, n - 1);
    if n > 1 {
        lemma_prefix_sum_of_deltas(v, n - 1);
    }
}

/// Re-encoding a decoded delta stream gives back the delta stream, and
/// the encoding then succeeds: `delta_encode` returns `Some(deltas)` on what
/// `delta_decode` returned for `deltas`.
pub proof fn lemma_delta_round_trip(deltas: Seq<i64>)
    requires
        all_fit_i64(decoded(ints(deltas))),
    ensures
        deltas_of(decoded(ints(deltas))) == ints(deltas),
        all_fit_i64(deltas_of(decoded(ints(deltas)))),
{
    lemma_decoded_deltas(ints(deltas));
    assert forall|i: int| 0 <= i < deltas.len() implies fits_i64(
        #[trigger] deltas_of(decoded(ints(deltas)))[i],
    ) by {
        assert(ints(deltas)[i] == deltas[i] as int);
    }
}

/// Decoding the delta encoding of a stream gives back the stream.
pub proof fn lemma_delta_encode_decode(values: Seq<i64>)
    ensures
        decoded(deltas_of(ints(values))) == ints(values),
{
    lemma_deltas_decoded(ints(values));
}

} // verus!
