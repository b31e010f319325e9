use vstd::prelude::*;

verus! {

/// Identifiers in ascending order, each at most once.
pub open spec fn strictly_sorted(v: Seq<u128>) -> bool {
    forall|i: int, j: int| 0 <= i < j < v.len() ==> v[i] < v[j]
}

/// The first index in `lo..hi` at which a binary search for `x` stops.
pub open spec fn lower_bound(v: Seq<u128>, x: u128, lo: int, hi: int) -> int
    decreases hi - lo,
{
    if lo >= hi {
        lo
    } else {
        let mid = lo + (hi - lo) / 2;
        if v[mid] < x {
            lower_bound(v, x, mid + 1, hi)
        } else {
            lower_bound(v, x, lo, mid)
        }
    }
}

/// Result of a binary search for `x` in `v`: `Ok` with an index holding `x`,
/// or `Err` with the place where `x` would be inserted.
pub open spec fn search_result(v: Seq<u128>, x: u128) -> Result<usize, usize> {
    let i = lower_bound(v, x, 0, v.len() as int);
    if 0 <= i < v.len() && v[i] == x {
        Ok(i as usize)
    } else {
        Err(i as usize)
    }
}

proof fn lemma_lower_bound_range(v: Seq<u128>, x: u128, lo: int, hi: int)
    requires
        0 <= lo <= hi <= v.len(),
    ensures
        lo <= lower_bound(v, x, lo, hi) <= hi,
    decreases hi - lo,
{
    if lo < hi {
        let mid = lo + (hi - lo) / 2;
        if v[mid] < x {
            lemma_lower_bound_range(v, x, mid + 1, hi);
        } else {
            lemma_lower_bound_range(v, x, lo, mid);
        }
    }
}

proof fn lemma_lower_bound_sorted(v: Seq<u128>, x: u128, lo: int, hi: int)
    requires
        0 <= lo <= hi <= v.len(),
        strictly_sorted(v),
        forall|j: int| 0 <= j < lo ==> v[j] < x,
        forall|j: int| hi <= j < v.len() ==> v[j] >= x,
    ensures
        forall|j: int| 0 <= j < lower_bound(v, x, lo, hi) ==> v[j] < x,
        forall|j: int| lower_bound(v, x, lo, hi) <= j < v.len() ==> v[j] >= x,
    decreases hi - lo,
{
    if lo < hi {
        let mid = lo + (hi - lo) / 2;
        if v[mid] < x {
            lemma_lower_bound_sorted(v, x, mid + 1, hi);
        } else {
            lemma_lower_bound_sorted(v, x, lo, mid);
        }
    }
}

/// On identifiers in ascending order, a search finds `x` exactly when `x`
/// is there, and otherwise stops where inserting `x` keeps the order.
pub proof fn lemma_search_sorted(v: Seq<u128>, x: u128)
    requires
        strictly_sorted(v),
        v.len() <= usize::MAX,
    ensures
        search_result(v, x) is Ok <==> v.contains(x),
        search_result(v, x) matches Ok(i) ==> i < v.len() && v[i as int] == x,
        search_result(v, x) matches Err(i) ==> {
            &&& i <= v.len()
            &&& forall|j: int| 0 <= j < i ==> v[j] < x
            &&& forall|j: int| i <= j < v.len() ==> v[j] > x
        },
        search_result(v, x) matches Err(i) ==> strictly_sorted(v.insert(i as int, x)),
        search_result(v, x) matches Ok(i) ==> strictly_sorted(v.remove(i as int)),
{
    lemma_lower_bound_range(v, x, 0, v.len() as int);
    lemma_lower_bound_sorted(v, x, 0, v.len() as int);
    let i = lower_bound(v, x, 0, v.len() as int);
    if v.contains(x) {
        let k = choose|k: int| 0 <= k < v.len() && v[k] == x;
        assert(v[i] == x) by {
            if k < i {
            } else if k > i {
                assert(v[i] < v[k]);
            }
        }
    }
    match search_result(v, x) {
        Err(e) => {
            let w = v.insert(e as int, x);
            v.insert_ensures(e as int, x);
            assert(e as int == i);
            assert(!v.contains(x));
            assert forall|a: int, b: int| 0 <= a < b < w.len() implies w[a] < w[b] by {
                if b < e {
                    assert(w[a] == v[a] && w[b] == v[b]);
                } else if a < e && b == e {
                    assert(w[a] == v[a]);
                } else if a < e {
                    assert(w[a] == v[a]);
                    assert(w[b] == v[b - 1]);
                    assert(v[b - 1] >= x);
                } else if a == e {
                    assert(w[b] == v[b - 1]);
                    assert(v[b - 1] != x);
                } else {
                    assert(w[a] == v[a - 1] && w[b] == v[b - 1]);
                }
            }
        },
        Ok(o) => {
            let w = v.remove(o as int);
            v.remove_ensures(o as int);
            assert(o as int == i);
            assert forall|a: int, b: int| 0 <= a < b < w.len() implies w[a] < w[b] by {
                if b < o {
                } else if a < o {
                    assert(w[b] == v[b + 1]);
                } else {
                    assert(w[a] == v[a + 1] && w[b] == v[b + 1]);
                }
            }
        },
    }
}

/// Binary search for an identifier, as `slice::binary_search` does on a
/// sorted slice.
pub fn search(v: &Vec<u128>, x: u128) -> (r: Result<usize, usize>)
    ensures
        r == search_result(v@, x),
        r matches Ok(i) ==> i < v@.len() && v@[i as int] == x,
        r matches Err(i) ==> i <= v@.len(),
{
    proof {
        lemma_lower_bound_range(v@, x, 0, v@.len() as int);
    }
    let mut lo: usize = 0;
    let mut hi: usize = v.len();
    while lo < hi
        invariant
            0 <= lo <= hi <= v@.len(),
            lower_bound(v@, x, lo as int, hi as int) == lower_bound(v@, x, 0, v@.len() as int),
        decreases hi - lo,
    {
        let mid: usize = lo + (hi - lo) / 2;
        if v[mid] < x {
            lo = mid + 1;
        } else {
            hi = mid;
        }
    }
    if lo < v.len() && v[lo] == x {
        Ok(lo)
    } else {
        Err(lo)
    }
}

/// The last index holding `x`, or 0 when there is none.
pub open spec fn last_index_or_zero(v: Seq<u128>, x: u128) -> int
    decreases v.len(),
{
    if v.len() == 0 {
        0
    } else if v.last() == x {
        v.len() - 1
    } else {
        last_index_or_zero(v.drop_last(), x)
    }
}

/// The first index holding `x`, or 0 when there is none.
pub open spec fn first_index_or_zero(v: Seq<u128>, x: u128) -> int
    decreases v.len(),
{
    if v.len() == 0 {
        0
    } else if v[0] == x {
        0
    } else if v.drop_first().contains(x) {
        1 + first_index_or_zero(v.drop_first(), x)
    } else {
        0
    }
}

/// Where `x` first occurs, if it does, is the first index holding it.
pub proof fn lemma_first_index(v: Seq<u128>, x: u128, i: int)
    requires
        0 <= i < v.len(),
        v[i] == x,
        forall|j: int| 0 <= j < i ==> v[j] != x,
    ensures
        first_index_or_zero(v, x) == i,
    decreases v.len(),
{
    if i > 0 {
        assert(v.drop_first()[i - 1] == x);
        lemma_first_index(v.drop_first(), x, i - 1);
    }
}

/// The first index holding `x` is in range when `x` occurs.
pub proof fn lemma_first_index_range(v: Seq<u128>, x: u128)
    ensures
        v.contains(x) ==> 0 <= first_index_or_zero(v, x) < v.len() && v[first_index_or_zero(v, x)]
            == x,
        !v.contains(x) ==> first_index_or_zero(v, x) == 0,
    decreases v.len(),
{
    if v.len() > 0 {
        lemma_first_index_range(v.drop_first(), x);
        if v.contains(x) && v[0] != x {
            let k = choose|k: int| 0 <= k < v.len() && v[k] == x;
            assert(v.drop_first()[k - 1] == x);
        }
    }
}

/// The last index holding `x` is in range when `v` is not empty.
pub proof fn lemma_last_index_range(v: Seq<u128>, x: u128)
    ensures
        v.len() > 0 ==> 0 <= last_index_or_zero(v, x) < v.len(),
    decreases v.len(),
{
    if v.len() > 0 {
        lemma_last_index_range(v.drop_last(), x);
        if v.drop_last().len() == 0 {
            assert(last_index_or_zero(v.drop_last(), x) == 0);
        }
    }
}

} // verus!
