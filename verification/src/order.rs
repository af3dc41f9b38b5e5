//! Index sequences used for most-recently-used ordering: filtering, completion and rotation.

use vstd::prelude::*;

verus! {

/// No index occurs twice.
pub open spec fn no_dups(s: Seq<usize>) -> bool {
    forall|i: int, j: int| 0 <= i < s.len() && 0 <= j < s.len() && i != j ==> s[i] != s[j]
}

/// `s` holds exactly the indices `0..n`, each once.
pub open spec fn is_perm_of_range(s: Seq<usize>, n: int) -> bool {
    &&& no_dups(s)
    &&& forall|i: int| 0 <= i < s.len() ==> (s[i] as int) < n
    &&& forall|k: int| 0 <= k < n ==> #[trigger] s.contains(k as usize)
}

/// The entries of `s` below `n`, in order.
pub open spec fn filter_below(s: Seq<usize>, n: int) -> Seq<usize>
    decreases s.len(),
{
    if s.len() == 0 {
        seq![]
    } else {
        let r = filter_below(s.drop_last(), n);
        if (s.last() as int) < n {
            r.push(s.last())
        } else {
            r
        }
    }
}

/// The entries of `s` other than `v`, in order.
pub open spec fn filter_ne(s: Seq<usize>, v: usize) -> Seq<usize>
    decreases s.len(),
{
    if s.len() == 0 {
        seq![]
    } else {
        let r = filter_ne(s.drop_last(), v);
        if s.last() != v {
            r.push(s.last())
        } else {
            r
        }
    }
}

/// The indices `0..k` that `order` lacks, ascending.
pub open spec fn missing_upto(order: Seq<usize>, k: int) -> Seq<usize>
    decreases k,
{
    if k <= 0 {
        seq![]
    } else {
        let r = missing_upto(order, k - 1);
        if order.contains((k - 1) as usize) {
            r
        } else {
            r.push((k - 1) as usize)
        }
    }
}

/// First position of `v` in `s`, or -1.
pub open spec fn index_of(s: Seq<usize>, v: usize) -> int
    decreases s.len(),
{
    if s.len() == 0 {
        -1
    } else if s[0] == v {
        0
    } else {
        let r = index_of(s.drop_first(), v);
        if r < 0 {
            -1
        } else {
            r + 1
        }
    }
}

pub proof fn lemma_filter_below(s: Seq<usize>, n: int)
    ensures
        forall|i: int| 0 <= i < filter_below(s, n).len() ==> (filter_below(s, n)[i] as int) < n,
        forall|x: usize| filter_below(s, n).contains(x) <==> (s.contains(x) && (x as int) < n),
        no_dups(s) ==> no_dups(filter_below(s, n)),
        filter_below(s, n).len() <= s.len(),
    decreases s.len(),
{
    if s.len() > 0 {
        let p = s.drop_last();
        lemma_filter_below(p, n);
        let r = filter_below(p, n);
        assert forall|x: usize| filter_below(s, n).contains(x) <==> (s.contains(x) && (x as int) < n) by {
            if s.contains(x) && (x as int) < n {
                let j = choose|j: int| 0 <= j < s.len() && s[j] == x;
                if j < s.len() - 1 {
                    assert(p[j] == x);
                    assert(p.contains(x));
                    let t = choose|t: int| 0 <= t < r.len() && r[t] == x;
                    if (s.last() as int) < n {
                        assert(r.push(s.last())[t] == x);
                    }
                } else {
                    assert(r.push(s.last())[r.len() as int] == x);
                }
            }
            if filter_below(s, n).contains(x) {
                let t = choose|t: int| 0 <= t < filter_below(s, n).len() && filter_below(s, n)[t] == x;
                if t < r.len() {
                    assert(r[t] == x);
                    assert(r.contains(x));
                    assert(p.contains(x));
                    let j = choose|j: int| 0 <= j < p.len() && p[j] == x;
                    assert(s[j] == p[j]);
                } else {
                    assert(s[s.len() - 1] == x);
                }
            }
        }
        if no_dups(s) {
            assert(no_dups(p));
            if (s.last() as int) < n {
                assert(!p.contains(s.last())) by {
                    if p.contains(s.last()) {
                        let j = choose|j: int| 0 <= j < p.len() && p[j] == s.last();
                        assert(s[j] == s[s.len() - 1]);
                    }
                }
                assert(!r.contains(s.last()));
                assert forall|i: int, j: int|
                    0 <= i < r.push(s.last()).len() && 0 <= j < r.push(s.last()).len() && i != j
                    implies r.push(s.last())[i] != r.push(s.last())[j] by {
                    if i < r.len() && j < r.len() {
                    } else if i < r.len() {
                        assert(r.contains(r[i]));
                    } else {
                        assert(r.contains(r[j]));
                    }
                }
            }
        }
    }
}

pub proof fn lemma_filter_ne(s: Seq<usize>, v: usize)
    ensures
        forall|x: usize| filter_ne(s, v).contains(x) <==> (s.contains(x) && x != v),
        no_dups(s) ==> no_dups(filter_ne(s, v)),
        !filter_ne(s, v).contains(v),
    decreases s.len(),
{
    if s.len() > 0 {
        let p = s.drop_last();
        lemma_filter_ne(p, v);
        let r = filter_ne(p, v);
        assert forall|x: usize| filter_ne(s, v).contains(x) <==> (s.contains(x) && x != v) by {
            if s.contains(x) && x != v {
                let j = choose|j: int| 0 <= j < s.len() && s[j] == x;
                if j < s.len() - 1 {
                    assert(p[j] == x);
                    assert(p.contains(x));
                    let t = choose|t: int| 0 <= t < r.len() && r[t] == x;
                    if s.last() != v {
                        assert(r.push(s.last())[t] == x);
                    }
                } else {
                    assert(r.push(s.last())[r.len() as int] == x);
                }
            }
            if filter_ne(s, v).contains(x) {
                let t = choose|t: int| 0 <= t < filter_ne(s, v).len() && filter_ne(s, v)[t] == x;
                if t < r.len() {
                    assert(r[t] == x);
                    assert(r.contains(x));
                    assert(p.contains(x));
                    let j = choose|j: int| 0 <= j < p.len() && p[j] == x;
                    assert(s[j] == p[j]);
                } else {
                    assert(s[s.len() - 1] == x);
                }
            }
        }
        if no_dups(s) {
            assert(no_dups(p));
            if s.last() != v {
                assert(!p.contains(s.last())) by {
                    if p.contains(s.last()) {
                        let j = choose|j: int| 0 <= j < p.len() && p[j] == s.last();
                        assert(s[j] == s[s.len() - 1]);
                    }
                }
                assert(!r.contains(s.last()));
                assert forall|i: int, j: int|
                    0 <= i < r.push(s.last()).len() && 0 <= j < r.push(s.last()).len() && i != j
                    implies r.push(s.last())[i] != r.push(s.last())[j] by {
                    if i < r.len() && j < r.len() {
                    } else if i < r.len() {
                        assert(r.contains(r[i]));
                    } else {
                        assert(r.contains(r[j]));
                    }
                }
            }
        }
        if filter_ne(s, v).contains(v) {
            let t = choose|t: int| 0 <= t < filter_ne(s, v).len() && filter_ne(s, v)[t] == v;
            if t < r.len() {
                assert(r[t] == v);
                assert(r.contains(v));
            }
        }
    }
}

pub proof fn lemma_missing_upto(order: Seq<usize>, k: int)
    requires
        k <= usize::MAX,
    ensures
        forall|i: int| 0 <= i < missing_upto(order, k).len() ==> (missing_upto(order, k)[i] as int) < k,
        forall|i: int|
            0 <= i < missing_upto(order, k).len() ==> !order.contains(#[trigger] missing_upto(order, k)[i]),
        forall|x: usize| (x as int) < k && !order.contains(x) ==> #[trigger] missing_upto(order, k).contains(x),
        no_dups(missing_upto(order, k)),
    decreases k,
{
    if k > 0 {
        lemma_missing_upto(order, k - 1);
        let r = missing_upto(order, k - 1);
        assert forall|x: usize| (x as int) < k && !order.contains(x) implies #[trigger] missing_upto(order, k).contains(x) by {
            if (x as int) < k - 1 {
                assert(r.contains(x));
                let t = choose|t: int| 0 <= t < r.len() && r[t] == x;
                if !order.contains((k - 1) as usize) {
                    assert(r.push((k - 1) as usize)[t] == x);
                }
            } else {
                assert(r.push((k - 1) as usize)[r.len() as int] == x);
            }
        }
        if !order.contains((k - 1) as usize) {
            let q = r.push((k - 1) as usize);
            assert forall|i: int| 0 <= i < q.len() implies !order.contains(#[trigger] q[i]) by {
                if i < r.len() {
                    assert(q[i] == r[i]);
                }
            }
            assert forall|i: int, j: int| 0 <= i < q.len() && 0 <= j < q.len() && i != j implies q[i] != q[j] by {
                if i < r.len() && j < r.len() {
                    assert(q[i] == r[i] && q[j] == r[j]);
                } else if i < r.len() {
                    assert(q[i] == r[i]);
                    assert((r[i] as int) < k - 1);
                } else {
                    assert(q[j] == r[j]);
                    assert((r[j] as int) < k - 1);
                }
            }
        }
    }
}

pub proof fn lemma_index_of(s: Seq<usize>, v: usize)
    ensures
        -1 <= index_of(s, v) < s.len(),
        index_of(s, v) >= 0 ==> s[index_of(s, v)] == v,
        index_of(s, v) < 0 ==> !s.contains(v),
        forall|j: int| 0 <= j < index_of(s, v) ==> s[j] != v,
    decreases s.len(),
{
    if s.len() > 0 && s[0] != v {
        lemma_index_of(s.drop_first(), v);
        let r = index_of(s.drop_first(), v);
        if r < 0 {
            assert(!s.contains(v)) by {
                if s.contains(v) {
                    let j = choose|j: int| 0 <= j < s.len() && s[j] == v;
                    assert(s.drop_first()[j - 1] == v);
                }
            }
        }
        assert forall|j: int| 0 <= j < index_of(s, v) implies s[j] != v by {
            if j > 0 {
                assert(s[j] == s.drop_first()[j - 1]);
            }
        }
    }
}

/// Whether `v` holds `x`.
pub fn vec_contains(v: &Vec<usize>, x: usize) -> (r: bool)
    ensures
        r == v@.contains(x),
{
    let mut i: usize = 0;
    while i < v.len()
        invariant
            i <= v.len(),
            forall|j: int| 0 <= j < i ==> v@[j] != x,
        decreases v.len() - i,
    {
        if v[i] == x {
            return true;
        }
        i = i + 1;
    }
    false
}

/// First position of `x` in `v`.
pub fn vec_position(v: &Vec<usize>, x: usize) -> (r: Option<usize>)
    ensures
        match r {
            Some(p) => p as int == index_of(v@, x),
            None => index_of(v@, x) < 0,
        },
{
    proof {
        lemma_index_of(v@, x);
    }
    let mut i: usize = 0;
    while i < v.len()
        invariant
            i <= v.len(),
            forall|j: int| 0 <= j < i ==> v@[j] != x,
            -1 <= index_of(v@, x) < v@.len(),
            index_of(v@, x) >= 0 ==> v@[index_of(v@, x)] == x,
            index_of(v@, x) < 0 ==> !v@.contains(x),
            forall|j: int| 0 <= j < index_of(v@, x) ==> v@[j] != x,
        decreases v.len() - i,
    {
        if v[i] == x {
            return Some(i);
        }
        i = i + 1;
    }
    proof {
        if index_of(v@, x) >= 0 {
            assert(v@[index_of(v@, x)] == x);
        }
    }
    None
}

/// Keeping the entries below `n` keeps every entry when all of them are.
pub proof fn lemma_filter_below_all(s: Seq<usize>, n: int)
    requires
        forall|i: int| 0 <= i < s.len() ==> (#[trigger] s[i] as int) < n,
    ensures
        filter_below(s, n) == s,
    decreases s.len(),
{
    if s.len() > 0 {
        let p = s.drop_last();
        assert forall|i: int| 0 <= i < p.len() implies (#[trigger] p[i] as int) < n by {
            assert(p[i] == s[i]);
        }
        lemma_filter_below_all(p, n);
        assert(s.last() == s[s.len() - 1]);
        assert(p.push(s.last()) =~= s);
    }
}

/// Nothing is missing from a list that already holds every index below `k`.
pub proof fn lemma_missing_none(order: Seq<usize>, k: int)
    requires
        0 <= k <= usize::MAX,
        forall|x: int| 0 <= x < k ==> #[trigger] order.contains(x as usize),
    ensures
        missing_upto(order, k).len() == 0,
{
    lemma_missing_upto(order, k);
    let m = missing_upto(order, k);
    if m.len() > 0 {
        let x = m[0];
        assert((x as int) < k);
        assert(order.contains((x as int) as usize));
        assert(false);
    }
}

} // verus!
