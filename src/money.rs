use vstd::prelude::*;

verus! {

/// Largest number of rows of one kind that a single computation accepts.
/// Totals of that many `i64` amounts stay far inside `i128`.
pub const MAX_ROWS: usize = 1073741824;

/// 2^63: no `i64` amount is larger than this in absolute value.
pub open spec fn amount_bound() -> int {
    0x8000_0000_0000_0000
}

/// Sum of a sequence of amounts.
pub open spec fn total(s: Seq<int>) -> int
    decreases s.len(),
{
    if s.len() == 0 {
        0
    } else {
        total(s.drop_last()) + s.last()
    }
}

/// Adding one more amount to a prefix adds it to the prefix's total.
pub proof fn lemma_total_prefix_step(s: Seq<int>, i: int)
    requires
        0 <= i < s.len(),
    ensures
        total(s.subrange(0, i + 1)) == total(s.subrange(0, i)) + s[i],
{
    assert(s.subrange(0, i + 1).drop_last() =~= s.subrange(0, i));
}

/// The total of the whole sequence is the total of its full prefix.
pub proof fn lemma_total_full(s: Seq<int>)
    ensures
        total(s.subrange(0, s.len() as int)) == total(s),
{
    assert(s.subrange(0, s.len() as int) =~= s);
}

/// Taking one element out of a sequence takes its amount out of the total.
pub proof fn lemma_total_remove<A>(s: Seq<A>, f: spec_fn(A) -> int, j: int)
    requires
        0 <= j < s.len(),
    ensures
        total(s.map_values(f)) == total(s.remove(j).map_values(f)) + f(s[j]),
    decreases s.len(),
{
    let last = s.len() - 1;
    assert(s.map_values(f).drop_last() =~= s.drop_last().map_values(f));
    if j == last {
        assert(s.remove(j) =~= s.drop_last());
    } else {
        lemma_total_remove(s.drop_last(), f, j);
        assert(s.remove(j).drop_last() =~= s.drop_last().remove(j));
        assert(s.remove(j).map_values(f).drop_last() =~= s.remove(j).drop_last().map_values(f));
        assert(s.remove(j).last() == s.last());
    }
}

/// Reordering a sequence does not change its total.
pub proof fn lemma_total_reorder<A>(a: Seq<A>, b: Seq<A>, f: spec_fn(A) -> int)
    requires
        a.to_multiset() == b.to_multiset(),
    ensures
        total(a.map_values(f)) == total(b.map_values(f)),
    decreases a.len(),
{
    broadcast use vstd::seq_lib::group_to_multiset_ensures;

    if a.len() == 0 {
        assert(b.to_multiset().len() == 0);
        assert(b.len() == 0);
        assert(a.map_values(f) =~= b.map_values(f));
    } else {
        let x = a.last();
        assert(a.drop_last().push(x) =~= a);
        assert(a.to_multiset().count(x) > 0);
        assert(b.contains(x));
        let j = choose|j: int| 0 <= j < b.len() && b[j] == x;
        assert(b.remove(j).to_multiset() =~= b.to_multiset().remove(x));
        assert(a.drop_last().to_multiset() =~= a.to_multiset().remove(x));
        lemma_total_reorder(a.drop_last(), b.remove(j), f);
        lemma_total_remove(b, f, j);
        assert(a.map_values(f).drop_last() =~= a.drop_last().map_values(f));
    }
}

/// 2^93: no total of at most `MAX_ROWS` amounts is larger than this in
/// absolute value.
pub open spec fn rows_total_bound() -> int {
    9903520314283042199192993792
}

/// A total of at most `MAX_ROWS` amounts stays within `rows_total_bound()`.
pub proof fn lemma_rows_bound(n: int)
    requires
        0 <= n <= MAX_ROWS,
    ensures
        n * amount_bound() <= rows_total_bound(),
        -n * amount_bound() >= -rows_total_bound(),
{
    assert(n * amount_bound() <= MAX_ROWS as int * amount_bound()) by (nonlinear_arith)
        requires
            0 <= n <= MAX_ROWS,
            amount_bound() > 0,
    ;
    assert(MAX_ROWS as int * amount_bound() == rows_total_bound()) by (nonlinear_arith)
        requires
            MAX_ROWS == 1073741824usize,
            amount_bound() == 9223372036854775808int,
    ;
    assert(-n * amount_bound() == -(n * amount_bound())) by (nonlinear_arith);
}

/// An exact quotient `numer / denom`, with `denom` positive.
#[derive(Clone, Copy, Debug, PartialEq, Eq, Structural)]
pub struct Ratio {
    pub numer: i128,
    pub denom: i128,
}

impl Ratio {
    /// Zero, written as `0 / 1`.
    pub fn zero() -> (r: Ratio)
        ensures
            r.numer == 0,
            r.denom == 1,
    {
        Ratio { numer: 0, denom: 1 }
    }
}

} // verus!
