//! Lists of ids in ascending order.

use std::collections::HashMap;
use vstd::prelude::*;
use vstd::std_specs::hash::spec_keys_iter;
use vstd::std_specs::iter::IteratorSpec;

verus! {

broadcast use vstd::std_specs::hash::group_hash_axioms;

/// Each id of the list is greater than the one before it.
pub open spec fn increasing(s: Seq<u64>) -> bool {
    forall|i: int, j: int| 0 <= i < j < s.len() ==> s[i] < s[j]
}

/// The ids of the finite set in ascending order.
pub open spec fn ascending(ids: Set<u64>) -> Seq<u64> {
    choose|s: Seq<u64>| increasing(s) && s.to_set() == ids
}

/// Two increasing lists that hold the same ids are the same list.
pub proof fn lemma_increasing_unique(a: Seq<u64>, b: Seq<u64>)
    requires
        increasing(a),
        increasing(b),
        a.to_set() == b.to_set(),
    ensures
        a == b,
    decreases a.len(),
{
    if a.len() == 0 {
        if b.len() > 0 {
            assert(b.to_set().contains(b[0]));
            assert(a.contains(b[0]));
        }
        assert(a =~= b);
    } else {
        let x = a.last();
        assert(a.to_set().contains(a[a.len() - 1]));
        assert(b.contains(x));
        let k = choose|k: int| 0 <= k < b.len() && b[k] == x;
        assert(k == b.len() - 1) by {
            if k < b.len() - 1 {
                let y = b[b.len() - 1];
                assert(b.to_set().contains(y));
                assert(a.contains(y));
                let j = choose|j: int| 0 <= j < a.len() && a[j] == y;
                assert(a[j] <= a[a.len() - 1]);
            }
        }
        let a0 = a.drop_last();
        let b0 = b.drop_last();
        assert(a0.to_set() =~= b0.to_set()) by {
            assert forall|y: u64| a0.to_set().contains(y) <==> b0.to_set().contains(y) by {
                if a0.contains(y) {
                    let j = choose|j: int| 0 <= j < a0.len() && a0[j] == y;
                    assert(a[j] == y);
                    assert(a.to_set().contains(y));
                    assert(b.contains(y));
                    let i = choose|i: int| 0 <= i < b.len() && b[i] == y;
                    assert(i != b.len() - 1);
                    assert(b0[i] == y);
                }
                if b0.contains(y) {
                    let j = choose|j: int| 0 <= j < b0.len() && b0[j] == y;
                    assert(b[j] == y);
                    assert(b.to_set().contains(y));
                    assert(a.contains(y));
                    let i = choose|i: int| 0 <= i < a.len() && a[i] == y;
                    assert(i != a.len() - 1);
                    assert(a0[i] == y);
                }
            }
        }
        lemma_increasing_unique(a0, b0);
        assert(a =~= a0.push(x));
        assert(b =~= b0.push(x));
    }
}

/// An increasing list is the ascending order of the ids that it holds.
pub proof fn lemma_ascending(s: Seq<u64>)
    requires
        increasing(s),
    ensures
        ascending(s.to_set()) == s,
{
    let t = ascending(s.to_set());
    assert(increasing(s) && s.to_set() == s.to_set());
    lemma_increasing_unique(t, s);
}

/// The keys of the map, each once, in no order that can be relied on.
pub fn key_list<V>(m: &HashMap<u64, V>) -> (res: Vec<u64>)
    ensures
        res@.no_duplicates(),
        res@.to_set() == m@.dom(),
{
    let mut res: Vec<u64> = Vec::new();
    let ghost all = spec_keys_iter(m).remaining();
    assert(all.unref().to_set() == m@.dom());
    for k in it: m.keys()
        invariant
            it.seq() == all,
            res@ == it.seq().take(it.index() as int).unref(),
    {
        res.push(*k);
    }
    assert(res@ =~= all.unref());
    assert(res@.no_duplicates()) by {
        assert forall|i: int, j: int|
            0 <= i < res@.len() && 0 <= j < res@.len() && i != j implies res@[i] != res@[j] by {
            assert(all[i] != all[j]);
        }
    }
    res
}

/// The ids of the list in ascending order, each once.
pub fn sorted(ids: &Vec<u64>) -> (res: Vec<u64>)
    ensures
        res@ == ascending(ids@.to_set()),
        increasing(res@),
        res@.to_set() == ids@.to_set(),
{
    let mut res: Vec<u64> = Vec::new();
    let mut i: usize = 0;
    assert(res@.to_set() =~= ids@.take(0).to_set());
    while i < ids.len()
        invariant
            i <= ids.len(),
            increasing(res@),
            res@.to_set() == ids@.take(i as int).to_set(),
        decreases ids.len() - i,
    {
        let x = ids[i];
        let mut p: usize = 0;
        while p < res.len() && res[p] < x
            invariant
                p <= res.len(),
                forall|j: int| 0 <= j < p ==> res@[j] < x,
            decreases res.len() - p,
        {
            p += 1;
        }
        let ghost before = res@;
        let ghost t0 = ids@.take(i as int);
        let ghost t1 = ids@.take(i as int + 1);
        let held = p < res.len() && res[p] == x;
        if !held {
            res.insert(p, x);
        }
        proof {
            assert(t1.drop_last() =~= t0);
            assert(t1.last() == x);
            if held {
                assert(before.contains(x));
            } else {
                assert(increasing(res@)) by {
                    assert forall|a: int, b: int| 0 <= a < b < res@.len() implies res@[a]
                        < res@[b] by {
                        if a < p && b > p {
                            assert(res@[b] == before[b - 1]);
                            assert(before[p as int] <= before[b - 1]);
                        }
                    }
                }
            }
            assert(res@.to_set() =~= t1.to_set()) by {
                assert forall|y: u64| res@.to_set().contains(y) <==> t1.to_set().contains(y) by {
                    if res@.contains(y) {
                        let a = choose|a: int| 0 <= a < res@.len() && res@[a] == y;
                        if !held && a == p {
                            assert(t1[i as int] == y);
                        } else {
                            let a0 = if held || a < p {
                                a
                            } else {
                                a - 1
                            };
                            assert(before[a0] == y);
                            assert(before.to_set().contains(y));
                            assert(t0.contains(y));
                            let j = choose|j: int| 0 <= j < t0.len() && t0[j] == y;
                            assert(t1[j] == y);
                        }
                    }
                    if t1.contains(y) {
                        let j = choose|j: int| 0 <= j < t1.len() && t1[j] == y;
                        if j == i {
                            assert(res@[p as int] == y);
                        } else {
                            assert(t0[j] == y);
                            assert(t0.to_set().contains(y));
                            assert(before.contains(y));
                            let a = choose|a: int| 0 <= a < before.len() && before[a] == y;
                            let a1 = if held || a < p {
                                a
                            } else {
                                a + 1
                            };
                            assert(res@[a1] == y);
                        }
                    }
                }
            }
        }
        i += 1;
    }
    assert(ids@.take(ids.len() as int) =~= ids@);
    proof {
        lemma_ascending(res@);
    }
    res
}

} // verus!
