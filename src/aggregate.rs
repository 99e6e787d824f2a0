//! Sum of the squares of the even values of a sequence, computed sequentially,
//! chunk by chunk, or in parallel; all three agree with one spec function.
use rayon::iter::IntoParallelRefIterator;
use rayon::iter::ParallelIterator;
use vstd::prelude::*;

verus! {

/// What one value adds to the sum: its square if it is even, else nothing.
pub open spec fn term(x: u32) -> nat {
    if x % 2 == 0 {
        (x as int * x as int) as nat
    } else {
        0
    }
}

/// The sum of `term` over a sequence, read from left to right.
pub open spec fn even_square_sum(s: Seq<u32>) -> nat
    decreases s.len(),
{
    if s.len() == 0 {
        0
    } else {
        even_square_sum(s.drop_last()) + term(s.last())
    }
}

/// Splitting a sequence in two splits its sum in two.
pub proof fn lemma_sum_concat(a: Seq<u32>, b: Seq<u32>)
    ensures
        even_square_sum(a + b) == even_square_sum(a) + even_square_sum(b),
    decreases b.len(),
{
    if b.len() == 0 {
        assert(a + b =~= a);
    } else {
        lemma_sum_concat(a, b.drop_last());
        assert((a + b).drop_last() =~= a + b.drop_last());
    }
}

/// A prefix never sums to more than the whole sequence.
pub proof fn lemma_prefix_sum_le(s: Seq<u32>, i: int)
    requires
        0 <= i <= s.len(),
    ensures
        even_square_sum(s.take(i)) <= even_square_sum(s),
{
    lemma_sum_concat(s.take(i), s.skip(i));
    assert(s.take(i) + s.skip(i) =~= s);
}

/// The square of `x` as a 64-bit value when `x` is even, and 0 when it is odd.
pub fn even_square(x: u32) -> (r: u64)
    ensures
        r == term(x),
{
    if x % 2 == 0 {
        let w = x as u64;
        assert(w * w <= u64::MAX) by (nonlinear_arith)
            requires
                w <= u32::MAX,
        ;
        w * w
    } else {
        0
    }
}

/// Sums `term` over `data[lo..hi]`, one value after the other.
pub fn sum_range(data: &[u32], lo: usize, hi: usize) -> (r: u64)
    requires
        lo <= hi <= data@.len(),
        even_square_sum(data@.subrange(lo as int, hi as int)) <= u64::MAX,
    ensures
        r == even_square_sum(data@.subrange(lo as int, hi as int)),
{
    let ghost part = data@.subrange(lo as int, hi as int);
    let mut total: u64 = 0;
    let mut i: usize = lo;
    while i < hi
        invariant
            lo <= i <= hi <= data@.len(),
            part == data@.subrange(lo as int, hi as int),
            even_square_sum(part) <= u64::MAX,
            total == even_square_sum(data@.subrange(lo as int, i as int)),
        decreases hi - i,
    {
        let ghost next = data@.subrange(lo as int, i + 1);
        assert(next.drop_last() =~= data@.subrange(lo as int, i as int));
        assert(next =~= part.take(i + 1 - lo));
        proof {
            lemma_prefix_sum_le(part, i + 1 - lo);
        }
        total = total + even_square(data[i]);
        i = i + 1;
    }
    total
}

/// The plain left-to-right filter-square-sum over all of `data`.
pub fn sequential_sum(data: &[u32]) -> (r: u64)
    requires
        even_square_sum(data@) <= u64::MAX,
    ensures
        r == even_square_sum(data@),
{
    assert(data@.subrange(0, data@.len() as int) =~= data@);
    sum_range(data, 0, data.len())
}

/// Cuts `data` into consecutive chunks of `chunk_len` values (the last one may
/// be shorter), sums each chunk on its own and adds up the partial sums.
pub fn chunked_sum(data: &[u32], chunk_len: usize) -> (r: u64)
    requires
        chunk_len > 0,
        even_square_sum(data@) <= u64::MAX,
    ensures
        r == even_square_sum(data@),
{
    let n = data.len();
    let mut total: u64 = 0;
    let mut start: usize = 0;
    while start < n
        invariant
            n == data@.len(),
            chunk_len > 0,
            start <= n,
            even_square_sum(data@) <= u64::MAX,
            total == even_square_sum(data@.take(start as int)),
        decreases n - start,
    {
        let end: usize = if n - start > chunk_len {
            start + chunk_len
        } else {
            n
        };
        proof {
            let whole = data@.take(end as int);
            lemma_sum_concat(data@.take(start as int), data@.subrange(start as int, end as int));
            assert(data@.take(start as int) + data@.subrange(start as int, end as int) =~= whole);
            lemma_prefix_sum_le(data@, end as int);
        }
        let partial = sum_range(data, start, end);
        total = total + partial;
        start = end;
    }
    assert(data@.take(n as int) =~= data@);
    total
}

/// Relies on rayon's `par_iter`, `map` and `sum`: the parallel sum of the
/// mapped items is their total, whatever the grouping; with that total at
/// most `u64::MAX`, no partial sum overflows.
#[verifier::external_body]
fn parallel_term_sum(data: &[u32]) -> (r: u64)
    requires
        even_square_sum(data@) <= u64::MAX,
    ensures
        r == even_square_sum(data@),
{
    data.par_iter().map(|x| even_square(*x)).sum()
}

/// The sum of the squares of the even values of `data`, computed on all
/// available workers.
pub fn aggregate(data: &[u32]) -> (r: u64)
    requires
        even_square_sum(data@) <= u64::MAX,
    ensures
        r == even_square_sum(data@),
{
    parallel_term_sum(data)
}

/// The sum of the sums of each part.
pub open spec fn sum_of_parts(parts: Seq<Seq<u32>>) -> nat
    decreases parts.len(),
{
    if parts.len() == 0 {
        0
    } else {
        even_square_sum(parts.first()) + sum_of_parts(parts.drop_first())
    }
}

/// Summing the parts of a partition gives the sum of the whole sequence.
pub proof fn lemma_parts_sum_to_whole(parts: Seq<Seq<u32>>)
    ensures
        sum_of_parts(parts) == even_square_sum(parts.flatten()),
    decreases parts.len(),
{
    if parts.len() > 0 {
        lemma_parts_sum_to_whole(parts.drop_first());
        lemma_sum_concat(parts.first(), parts.drop_first().flatten());
    }
}

/// The combined sum does not depend on how the sequence was partitioned: two
/// partitions of the same sequence, into any number of parts of any lengths,
/// give the same total, and that total is the sum of the sequence.
pub proof fn lemma_partition_invariance(p: Seq<Seq<u32>>, q: Seq<Seq<u32>>)
    requires
        p.flatten() == q.flatten(),
    ensures
        sum_of_parts(p) == sum_of_parts(q),
        sum_of_parts(p) == even_square_sum(p.flatten()),
{
    lemma_parts_sum_to_whole(p);
    lemma_parts_sum_to_whole(q);
}

/// The textbook form: keep the even values, square them, add them up.
pub open spec fn filter_square_sum(s: Seq<u32>) -> int {
    s.filter(|x: u32| x % 2 == 0).map_values(|x: u32| x as int * x as int).fold_left(
        0int,
        |acc: int, y: int| acc + y,
    )
}

proof fn lemma_map_values_push(s: Seq<u32>, x: u32)
    ensures
        s.push(x).map_values(|v: u32| v as int * v as int) == s.map_values(
            |v: u32| v as int * v as int,
        ).push(x as int * x as int),
{
    assert(s.push(x).map_values(|v: u32| v as int * v as int) =~= s.map_values(
        |v: u32| v as int * v as int,
    ).push(x as int * x as int));
}

/// The sum computed here is the textbook filter-square-sum, for every sequence;
/// in particular the empty sequence and a sequence of odd values sum to 0.
pub proof fn lemma_matches_filter_square_sum(s: Seq<u32>)
    ensures
        even_square_sum(s) == filter_square_sum(s),
        s.len() == 0 ==> even_square_sum(s) == 0,
        (forall|i: int| 0 <= i < s.len() ==> s[i] % 2 == 1) ==> even_square_sum(s) == 0,
    decreases s.len(),
{
    if s.len() > 0 {
        let rest = s.drop_last();
        lemma_matches_filter_square_sum(rest);
        let sub = rest.filter(|x: u32| x % 2 == 0);
        reveal(Seq::filter);
        assert(s.filter(|x: u32| x % 2 == 0) == (if s.last() % 2 == 0 {
            sub.push(s.last())
        } else {
            sub
        }));
        if s.last() % 2 == 0 {
            lemma_map_values_push(sub, s.last());
            assert(sub.push(s.last()).map_values(|v: u32| v as int * v as int).drop_last()
                =~= sub.map_values(|v: u32| v as int * v as int));
        }
        if forall|i: int| 0 <= i < s.len() ==> s[i] % 2 == 1 {
            assert(s.last() % 2 == 1);
            assert forall|i: int| 0 <= i < rest.len() implies rest[i] % 2 == 1 by {
                assert(rest[i] == s[i]);
            }
        }
    }
}

/// Every value below 10000 adds at most 9998 squared, so `n` such values sum
/// to at most `n * 9998 * 9998`; up to 10^9 values the sum fits in `u64`.
pub proof fn lemma_draw_sum_bound(s: Seq<u32>)
    requires
        forall|i: int| 0 <= i < s.len() ==> s[i] < 10000,
    ensures
        even_square_sum(s) <= s.len() * (9998 * 9998),
        s.len() <= 1_000_000_000 ==> even_square_sum(s) <= u64::MAX,
    decreases s.len(),
{
    if s.len() > 0 {
        let rest = s.drop_last();
        assert forall|i: int| 0 <= i < rest.len() implies rest[i] < 10000 by {
            assert(rest[i] == s[i]);
        }
        lemma_draw_sum_bound(rest);
        let x = s.last();
        assert(x < 10000);
        if x % 2 == 0 {
            assert(x <= 9998);
            assert(x as int * x as int <= 9998 * 9998) by (nonlinear_arith)
                requires
                    0 <= x <= 9998,
            ;
        }
        assert(term(x) <= 9998 * 9998);
        let n = s.len() as int;
        assert((n - 1) * (9998 * 9998) + 9998 * 9998 == n * (9998 * 9998)) by (nonlinear_arith);
    }
    assert(s.len() <= 1_000_000_000 ==> s.len() * (9998 * 9998) <= u64::MAX) by (nonlinear_arith);
}

} // verus!
