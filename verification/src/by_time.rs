//! Ordering positions by the times recorded at them.

use vstd::prelude::*;

verus! {

/// The positions of `pool`, ordered by their times, oldest first.
pub(crate) fn order_by_time(pool: Vec<usize>, ts: &Vec<i64>) -> (out: Vec<usize>)
    requires
        pool@.no_duplicates(),
        forall|a: int| 0 <= a < pool@.len() ==> (#[trigger] pool@[a]) < ts@.len(),
    ensures
        forall|x: usize| out@.contains(x) <==> pool@.contains(x),
        out@.no_duplicates(),
        forall|a: int, b: int| 0 <= a < b < out@.len() ==> ts@[out@[a] as int] <= ts@[out@[b] as int],
{
    let n = ts.len();
    let mut pool = pool;
    let ghost all = pool@;
    let mut out: Vec<usize> = Vec::new();
    while pool.len() > 0
        invariant
            n == ts@.len(),
            forall|x: usize| all.contains(x) <==> (out@.contains(x) || pool@.contains(x)),
            forall|x: usize| !(out@.contains(x) && pool@.contains(x)),
            out@.no_duplicates(),
            pool@.no_duplicates(),
            forall|a: int| 0 <= a < all.len() ==> (#[trigger] all[a]) < n,
            forall|a: int, b: int| 0 <= a < b < out@.len() ==> ts@[out@[a] as int] <= ts@[out@[b] as int],
            forall|a: int, b: int|
                #![trigger out@[a], pool@[b]]
                0 <= a < out@.len() && 0 <= b < pool@.len() ==> ts@[out@[a] as int] <= ts@[pool@[b] as int],
        decreases pool@.len(),
    {
        let mut best: usize = 0;
        let mut j: usize = 1;
        assert(all.contains(pool@[0]));
        while j < pool.len()
            invariant
                n == ts@.len(),
                forall|a: int| 0 <= a < all.len() ==> (#[trigger] all[a]) < n,
                forall|x: usize| all.contains(x) <==> (out@.contains(x) || pool@.contains(x)),
                best < j <= pool@.len(),
                forall|c: int| 0 <= c < j ==> ts@[pool@[best as int] as int] <= ts@[#[trigger] pool@[c] as int],
            decreases pool@.len() - j,
        {
            assert(all.contains(pool@[j as int]));
            assert(all.contains(pool@[best as int]));
            if ts[pool[j]] < ts[pool[best]] {
                best = j;
            }
            j = j + 1;
        }
        let ghost before_pool = pool@;
        let ghost before_out = out@;
        let x = pool.remove(best);
        out.push(x);
        proof {
            assert(forall|c: int| 0 <= c < pool@.len() ==> pool@[c] == before_pool[if c < best { c } else { c + 1 }]);
            assert(out@ == before_out.push(x));
            assert(x == before_pool[best as int]);
            assert forall|y: usize| all.contains(y) <==> (out@.contains(y) || pool@.contains(y)) by {
                if before_pool.contains(y) {
                    let c = choose|c: int| 0 <= c < before_pool.len() && before_pool[c] == y;
                    if c == best {
                        assert(out@[before_out.len() as int] == y);
                    } else {
                        let d = if c < best { c } else { c - 1 };
                        assert(pool@[d] == y);
                    }
                }
                if pool@.contains(y) {
                    let d = choose|d: int| 0 <= d < pool@.len() && pool@[d] == y;
                    assert(before_pool[if d < best { d } else { d + 1 }] == y);
                    assert(before_pool.contains(y));
                }
                if before_out.contains(y) {
                    let d = choose|d: int| 0 <= d < before_out.len() && before_out[d] == y;
                    assert(out@[d] == y);
                }
                if out@.contains(y) {
                    let d = choose|d: int| 0 <= d < out@.len() && out@[d] == y;
                    if d < before_out.len() {
                        assert(before_out[d] == y);
                        assert(before_out.contains(y));
                    } else {
                        assert(before_pool.contains(y));
                    }
                }
            }
            assert forall|y: usize| !(out@.contains(y) && pool@.contains(y)) by {
                if pool@.contains(y) && out@.contains(y) {
                    let d = choose|d: int| 0 <= d < pool@.len() && pool@[d] == y;
                    let c = if d < best { d } else { d + 1 };
                    assert(before_pool[c] == y);
                    assert(before_pool.contains(y));
                    let e = choose|e: int| 0 <= e < out@.len() && out@[e] == y;
                    if e < before_out.len() {
                        assert(before_out[e] == y);
                        assert(before_out.contains(y));
                    } else {
                        assert(before_pool[best as int] == y);
                        assert(c != best);
                    }
                }
            }
            assert(out@.no_duplicates()) by {
                assert forall|a: int, b: int| 0 <= a < out@.len() && 0 <= b < out@.len() && a != b implies out@[a] != out@[b] by {
                    if a < before_out.len() && b < before_out.len() {
                    } else if a < before_out.len() {
                        assert(before_out.contains(out@[a]));
                    } else {
                        assert(before_out.contains(out@[b]));
                    }
                }
            }
            assert(pool@.no_duplicates()) by {
                assert forall|a: int, b: int| 0 <= a < pool@.len() && 0 <= b < pool@.len() && a != b implies pool@[a] != pool@[b] by {
                    let ca = if a < best { a } else { a + 1 };
                    let cb = if b < best { b } else { b + 1 };
                    assert(before_pool[ca] != before_pool[cb]);
                }
            }
            assert forall|a: int, b: int|
                #![trigger out@[a], pool@[b]]
                0 <= a < out@.len() && 0 <= b < pool@.len() implies ts@[out@[a] as int] <= ts@[pool@[b] as int] by {
                let cb = if b < best { b } else { b + 1 };
                assert(pool@[b] == before_pool[cb]);
                if a < before_out.len() {
                    assert(out@[a] == before_out[a]);
                } else {
                    assert(out@[a] == before_pool[best as int]);
                }
            }
            assert forall|a: int, b: int| 0 <= a < b < out@.len() implies ts@[out@[a] as int] <= ts@[out@[b] as int] by {
                if b < before_out.len() {
                    assert(out@[a] == before_out[a]);
                    assert(out@[b] == before_out[b]);
                } else {
                    assert(out@[a] == before_out[a]);
                    assert(out@[b] == before_pool[best as int]);
                }
            }
        }
    }
    out
}

} // verus!
