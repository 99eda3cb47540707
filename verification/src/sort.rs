use vstd::prelude::*;
use vstd::relations::{sorted_by, total_ordering};
use vstd::multiset::Multiset;

verus! {

broadcast use vstd::seq_lib::group_to_multiset_ensures, vstd::multiset::group_multiset_axioms;

pub open spec fn u128_leq() -> spec_fn(u128, u128) -> bool {
    |a: u128, b: u128| a <= b
}

pub proof fn lemma_u128_leq_total()
    ensures
        total_ordering(u128_leq()),
{
}

proof fn lemma_insert_multiset(s: Seq<u128>, p: int, x: u128)
    requires
        0 <= p <= s.len(),
    ensures
        s.insert(p, x).to_multiset() =~= s.to_multiset().insert(x),
{
    let t = s.insert(p, x);
    s.insert_ensures(p, x);
    assert(t.remove(p) =~= s);
    assert(t.remove(p).to_multiset() =~= t.to_multiset().remove(t[p]));
    assert(t.contains(x)) by {
        assert(t[p] == x);
    }
    assert(t.to_multiset().count(x) > 0);
}

/// The values of `v` in ascending order.
pub fn sort_u128(v: &Vec<u128>) -> (r: Vec<u128>)
    ensures
        r@ == v@.sort_by(u128_leq()),
{
    let mut out: Vec<u128> = Vec::new();
    let n = v.len();
    let mut i: usize = 0;
    while i < n
        invariant
            n == v@.len(),
            i <= n,
            out@.to_multiset() =~= v@.take(i as int).to_multiset(),
            sorted_by(out@, u128_leq()),
        decreases n - i,
    {
        let x = v[i];
        let mut p: usize = 0;
        while p < out.len() && out[p] <= x
            invariant
                p <= out@.len(),
                forall|k: int| 0 <= k < p ==> out@[k] <= x,
            decreases out@.len() - p,
        {
            p += 1;
        }
        let ghost before = out@;
        proof {
            lemma_insert_multiset(before, p as int, x);
            before.insert_ensures(p as int, x);
            assert(v@.take(i + 1) =~= v@.take(i as int).push(x));
        }
        out.insert(p, x);
        proof {
            assert(out@ =~= before.insert(p as int, x));
            assert forall|a: int, b: int| 0 <= a < b < out@.len() implies #[trigger] u128_leq()(
                out@[a],
                out@[b],
            ) by {
                if b < p {
                    assert(out@[a] == before[a] && out@[b] == before[b]);
                    assert(u128_leq()(before[a], before[b]));
                } else if b == p {
                    assert(out@[a] == before[a]);
                } else if a < p {
                    assert(out@[b] == before[b - 1]);
                    assert(out@[a] == before[a]);
                    assert(u128_leq()(before[a], before[b - 1]));
                } else if a == p {
                    assert(out@[b] == before[b - 1]);
                    assert(!(before[p as int] <= x));
                    if b - 1 > p {
                        assert(u128_leq()(before[p as int], before[b - 1]));
                    }
                } else {
                    assert(out@[a] == before[a - 1] && out@[b] == before[b - 1]);
                    assert(u128_leq()(before[a - 1], before[b - 1]));
                }
            }
        }
        i += 1;
    }
    proof {
        assert(v@.take(n as int) =~= v@);
        lemma_u128_leq_total();
        v@.lemma_sort_by_ensures(u128_leq());
        vstd::seq_lib::lemma_sorted_unique(out@, v@.sort_by(u128_leq()), u128_leq());
    }
    out
}

} // verus!
