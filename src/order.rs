use vstd::prelude::*;

verus! {

/// Draw order of two shapes by their depth keys: with `near_first` the
/// nearer (smaller key) comes first, otherwise the farther one does.
pub open spec fn depth_ordered(ka: u32, kb: u32, near_first: bool) -> bool {
    if near_first {
        ka <= kb
    } else {
        ka >= kb
    }
}

/// Every entry of `order` names a shape that has a key.
pub open spec fn indexes_into(order: Seq<u32>, n: nat) -> bool {
    forall|i: int| 0 <= i < order.len() ==> #[trigger] order[i] < n
}

/// `order` lists shapes in depth order of `keys`.
pub open spec fn sorted_by_depth(order: Seq<u32>, keys: Seq<u32>, near_first: bool) -> bool {
    forall|i: int, j: int|
        0 <= i < j < order.len() ==> depth_ordered(
            #[trigger] keys[order[i] as int],
            #[trigger] keys[order[j] as int],
            near_first,
        )
}

/// Whether a shape keyed `ka` is drawn strictly before one keyed `kb`.
fn goes_before(ka: u32, kb: u32, near_first: bool) -> (r: bool)
    ensures
        r == !depth_ordered(kb, ka, near_first),
{
    if near_first {
        ka < kb
    } else {
        ka > kb
    }
}

/// Sorts shape indices by depth key, nearest first when `near_first`,
/// farthest first otherwise. Keys are distances from the camera, encoded
/// so that integer order is distance order. Shapes with equal keys keep
/// their relative order from the previous frame.
pub fn depth_sort(sorted: &mut Vec<u32>, keys: &Vec<u32>, near_first: bool)
    requires
        indexes_into(old(sorted)@, keys@.len()),
    ensures
        final(sorted)@.to_multiset() == old(sorted)@.to_multiset(),
        final(sorted)@.len() == old(sorted)@.len(),
        indexes_into(final(sorted)@, keys@.len()),
        sorted_by_depth(final(sorted)@, keys@, near_first),
{
    let n = sorted.len();
    let mut i: usize = 0;
    while i < n
        invariant
            i <= n,
            sorted@.len() == n,
            sorted@.to_multiset() == old(sorted)@.to_multiset(),
            indexes_into(sorted@, keys@.len()),
            sorted_by_depth(sorted@.subrange(0, i as int), keys@, near_first),
        decreases n - i,
    {
        let x = sorted[i];
        let kx = keys[x as usize];
        let mut j: usize = i;
        while j > 0 && goes_before(kx, keys[sorted[j - 1] as usize], near_first)
            invariant
                j <= i < n,
                sorted@.len() == n,
                indexes_into(sorted@, keys@.len()),
                x == sorted@[i as int],
                kx == keys@[x as int],
                forall|t: int| j <= t < i ==> !depth_ordered(#[trigger] keys@[sorted@[t] as int], kx, near_first),
            decreases j,
        {
            j -= 1;
        }
        let ghost before = sorted@;
        let v = sorted.remove(i);
        proof {
            vstd::seq_lib::to_multiset_remove(before, i as int);
        }
        let ghost mid = sorted@;
        sorted.insert(j, v);
        proof {
            vstd::seq_lib::to_multiset_insert(mid, j as int, v);
            let s = sorted@;
            before.to_multiset_ensures();
            assert(before.to_multiset().count(v) > 0);
            assert(before.to_multiset().remove(v).insert(v) =~= before.to_multiset());
            assert forall|t: int| 0 <= t < s.len() implies #[trigger] s[t] < keys@.len() by {
                if t < j {
                    assert(s[t] == before[t]);
                } else if t == j {
                } else if t <= i {
                    assert(s[t] == before[t - 1]);
                } else {
                    assert(s[t] == before[t]);
                }
            }
            let p = s.subrange(0, i + 1);
            let q = before.subrange(0, i as int);
            assert forall|a: int, b: int| 0 <= a < b < p.len() implies depth_ordered(
                #[trigger] keys@[p[a] as int],
                #[trigger] keys@[p[b] as int],
                near_first,
            ) by {
                if b < j {
                    assert(p[a] == q[a] && p[b] == q[b]);
                } else if b == j {
                    assert(p[b] == x);
                    assert(p[a] == q[a]);
                    assert(depth_ordered(keys@[q[a] as int], keys@[q[j - 1] as int], near_first) || a == j - 1);
                } else if a < j {
                    assert(p[a] == q[a] && p[b] == q[b - 1]);
                } else if a == j {
                    assert(p[a] == x && p[b] == q[b - 1]);
                } else {
                    assert(p[a] == q[a - 1] && p[b] == q[b - 1]);
                }
            }
        }
        i += 1;
    }
    assert(sorted@.subrange(0, n as int) =~= sorted@);
}

} // verus!
