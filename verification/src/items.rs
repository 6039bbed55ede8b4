//! Differences between two lists that are read as sets.

use crate::model::{lemma_views_push, occurs_before, views, Item};
use vstd::prelude::*;

verus! {

/// The items of `items` that do not occur in `excluded`, each once, in the
/// order in which `items` first holds them.
pub open spec fn fresh_items<A>(items: Seq<A>, excluded: Seq<A>) -> Seq<A>
    decreases items.len(),
{
    if items.len() == 0 {
        Seq::empty()
    } else {
        let init = fresh_items(items.drop_last(), excluded);
        let x = items.last();
        if excluded.contains(x) || items.drop_last().contains(x) {
            init
        } else {
            init.push(x)
        }
    }
}

/// `fresh_items` lists the set difference of the two lists, each of its
/// members once.
pub proof fn lemma_fresh_items<A>(items: Seq<A>, excluded: Seq<A>)
    ensures
        fresh_items(items, excluded).no_duplicates(),
        forall|x: A|
            #[trigger] fresh_items(items, excluded).contains(x) <==> items.contains(x)
                && !excluded.contains(x),
        fresh_items(items, excluded).to_set() == items.to_set().difference(excluded.to_set()),
        fresh_items(items, excluded).len() == items.to_set().difference(excluded.to_set()).len(),
    decreases items.len(),
{
    let res = fresh_items(items, excluded);
    if items.len() == 0 {
        assert forall|x: A| #[trigger]
            res.contains(x) <==> items.contains(x) && !excluded.contains(x) by {}
    } else {
        let rest = items.drop_last();
        let last = items.last();
        let init = fresh_items(rest, excluded);
        lemma_fresh_items(rest, excluded);
        assert forall|x: A| #[trigger]
            res.contains(x) <==> items.contains(x) && !excluded.contains(x) by {
            if items.contains(x) {
                let i = choose|i: int| 0 <= i < items.len() && items[i] == x;
                if i < rest.len() {
                    assert(rest[i] == x);
                } else {
                    assert(x == last);
                }
            }
            if rest.contains(x) {
                let i = choose|i: int| 0 <= i < rest.len() && rest[i] == x;
                assert(items[i] == x);
            }
            assert(items[items.len() - 1] == last);
            if res.contains(x) {
                let i = choose|i: int| 0 <= i < res.len() && res[i] == x;
                if i < init.len() {
                    assert(init[i] == x);
                }
            }
            if init.contains(x) {
                let i = choose|i: int| 0 <= i < init.len() && init[i] == x;
                assert(res[i] == x);
            }
            if res.len() > init.len() {
                assert(res[res.len() - 1] == last);
            }
        }
        assert(res.no_duplicates()) by {
            if res.len() > init.len() {
                assert(!init.contains(last));
                assert forall|i: int, j: int|
                    0 <= i < res.len() && 0 <= j < res.len() && i != j implies res[i] != res[j] by {
                    if i < init.len() {
                        assert(init[i] == res[i]);
                        assert(init.contains(init[i]));
                    }
                    if j < init.len() {
                        assert(init[j] == res[j]);
                        assert(init.contains(init[j]));
                    }
                }
            }
        }
    }
    assert(res.to_set() =~= items.to_set().difference(excluded.to_set()));
    res.unique_seq_to_set();
}

/// The items that are new in `items` against `excluded`: see `fresh_items`.
pub fn fresh_items_of<T: Item>(items: &Vec<T>, excluded: &Vec<T>) -> (res: Vec<T>)
    ensures
        views(res@) == fresh_items(views(items@), views(excluded@)),
{
    let mut res: Vec<T> = Vec::new();
    let mut i: usize = 0;
    assert(views(items@).take(0) =~= Seq::empty());
    assert(views(res@) =~= Seq::empty());
    while i < items.len()
        invariant
            i <= items.len(),
            views(res@) == fresh_items(views(items@).take(i as int), views(excluded@)),
        decreases items.len() - i,
    {
        let x = &items[i];
        let known = occurs_before(excluded, excluded.len(), x);
        let seen = occurs_before(items, i, x);
        proof {
            let all = views(items@);
            assert(views(excluded@).take(excluded.len() as int) =~= views(excluded@));
            assert(all.take(i as int + 1).drop_last() =~= all.take(i as int));
            assert(all.take(i as int + 1).last() == x@);
        }
        if !known && !seen {
            let ghost before = res@;
            res.push(x.duplicate());
            proof {
                assert(views(res@) =~= views(before).push(x@));
            }
        }
        i += 1;
    }
    assert(views(items@).take(items.len() as int) =~= views(items@));
    res
}

/// The values that `rule` gives for the items of `s`, in order; an item for
/// which it gives none is passed over.
pub open spec fn pick<A, B>(s: Seq<A>, rule: spec_fn(A) -> Option<B>) -> Seq<B>
    decreases s.len(),
{
    if s.len() == 0 {
        Seq::empty()
    } else {
        let init = pick(s.drop_last(), rule);
        match rule(s.last()) {
            Some(b) => init.push(b),
            None => init,
        }
    }
}

/// Every picked value comes from an item of the list, and every item for
/// which the rule gives a value has that value picked.
pub proof fn lemma_pick<A, B>(s: Seq<A>, rule: spec_fn(A) -> Option<B>)
    ensures
        forall|b: B|
            #[trigger] pick(s, rule).contains(b) <==> exists|i: int|
                0 <= i < s.len() && rule(#[trigger] s[i]) == Some(b),
    decreases s.len(),
{
    let res = pick(s, rule);
    if s.len() > 0 {
        let rest = s.drop_last();
        let init = pick(rest, rule);
        lemma_pick(rest, rule);
        assert forall|b: B| #[trigger] res.contains(b) <==> exists|i: int|
            0 <= i < s.len() && rule(#[trigger] s[i]) == Some(b) by {
            if res.contains(b) {
                let j = choose|j: int| 0 <= j < res.len() && res[j] == b;
                if j < init.len() {
                    assert(init[j] == b);
                    assert(init.contains(b));
                    let i = choose|i: int| 0 <= i < rest.len() && rule(#[trigger] rest[i]) == Some(b);
                    assert(rest[i] == s[i]);
                } else {
                    assert(rule(s[s.len() - 1]) == Some(b));
                }
            }
            if exists|i: int| 0 <= i < s.len() && rule(#[trigger] s[i]) == Some(b) {
                let i = choose|i: int| 0 <= i < s.len() && rule(#[trigger] s[i]) == Some(b);
                if i < rest.len() {
                    assert(rest[i] == s[i]);
                    assert(init.contains(b));
                    let j = choose|j: int| 0 <= j < init.len() && init[j] == b;
                    assert(res[j] == b);
                } else {
                    assert(res[res.len() - 1] == b);
                }
            }
        }
    }
}

/// Picking from a list without duplicates, by a rule that gives different
/// items different values, gives a list without duplicates.
pub proof fn lemma_pick_no_duplicates<A, B>(s: Seq<A>, rule: spec_fn(A) -> Option<B>)
    requires
        s.no_duplicates(),
        forall|i: int, j: int|
            0 <= i < s.len() && 0 <= j < s.len() && i != j && rule(#[trigger] s[i]) is Some
                ==> rule(s[i]) != rule(#[trigger] s[j]),
    ensures
        pick(s, rule).no_duplicates(),
    decreases s.len(),
{
    if s.len() > 0 {
        let rest = s.drop_last();
        let init = pick(rest, rule);
        let res = pick(s, rule);
        assert forall|i: int, j: int|
            0 <= i < rest.len() && 0 <= j < rest.len() && i != j && rule(#[trigger] rest[i]) is Some implies rule(
            rest[i],
        ) != rule(#[trigger] rest[j]) by {
            assert(rest[i] == s[i]);
            assert(rest[j] == s[j]);
        }
        lemma_pick_no_duplicates(rest, rule);
        lemma_pick(rest, rule);
        if let Some(b) = rule(s.last()) {
            if init.contains(b) {
                let i = choose|i: int| 0 <= i < rest.len() && rule(#[trigger] rest[i]) == Some(b);
                assert(rest[i] == s[i]);
                assert(s[s.len() - 1] == s.last());
                assert(false);
            }
            assert forall|i: int, j: int|
                0 <= i < res.len() && 0 <= j < res.len() && i != j implies res[i] != res[j] by {
                if i < init.len() {
                    assert(init[i] == res[i]);
                    assert(init.contains(init[i]));
                }
                if j < init.len() {
                    assert(init[j] == res[j]);
                    assert(init.contains(init[j]));
                }
            }
        }
    }
}

/// Picking from two lists in a row is picking from each.
pub proof fn lemma_pick_add<A, B>(a: Seq<A>, b: Seq<A>, rule: spec_fn(A) -> Option<B>)
    ensures
        pick(a + b, rule) == pick(a, rule) + pick(b, rule),
    decreases b.len(),
{
    if b.len() == 0 {
        assert(a + b =~= a);
        assert(pick(a, rule) + pick(b, rule) =~= pick(a, rule));
    } else {
        assert((a + b).drop_last() =~= a + b.drop_last());
        assert((a + b).last() == b.last());
        lemma_pick_add(a, b.drop_last(), rule);
        assert(pick(a + b, rule) =~= pick(a, rule) + pick(b, rule));
    }
}

/// Where the rule gives a value for every item, those values are picked.
pub proof fn lemma_pick_all<A, B>(s: Seq<A>, rule: spec_fn(A) -> Option<B>, out: Seq<B>)
    requires
        out.len() == s.len(),
        forall|i: int| 0 <= i < s.len() ==> rule(#[trigger] s[i]) == Some(out[i]),
    ensures
        pick(s, rule) == out,
    decreases s.len(),
{
    if s.len() > 0 {
        let rest = s.drop_last();
        assert forall|i: int| 0 <= i < rest.len() implies rule(#[trigger] rest[i]) == Some(
            out.drop_last()[i],
        ) by {
            assert(rest[i] == s[i]);
        }
        lemma_pick_all(rest, rule, out.drop_last());
        assert(s.last() == s[s.len() - 1]);
        assert(pick(s, rule) =~= out);
    } else {
        assert(pick(s, rule) =~= out);
    }
}

/// Where the rule gives no value for any item, nothing is picked.
pub proof fn lemma_pick_none<A, B>(s: Seq<A>, rule: spec_fn(A) -> Option<B>)
    requires
        forall|i: int| 0 <= i < s.len() ==> rule(#[trigger] s[i]) is None,
    ensures
        pick(s, rule) == Seq::<B>::empty(),
    decreases s.len(),
{
    if s.len() > 0 {
        let rest = s.drop_last();
        assert forall|i: int| 0 <= i < rest.len() implies rule(#[trigger] rest[i]) is None by {
            assert(rest[i] == s[i]);
        }
        lemma_pick_none(rest, rule);
        assert(s.last() == s[s.len() - 1]);
    }
}

/// Appends the record to `out`.
pub fn push_record<D: View>(record: D, out: &mut Vec<D>)
    ensures
        views(final(out)@) == views(old(out)@) + seq![record@],
{
    proof {
        lemma_views_push(out@, record);
        assert(views(out@).push(record@) =~= views(out@) + seq![record@]);
    }
    out.push(record);
}

/// A list to which nothing is appended stays as it is.
pub proof fn lemma_nothing_pushed<D: View>(out: Seq<D>)
    ensures
        views(out) == views(out) + Seq::<D::V>::empty(),
{
    assert(views(out) =~= views(out) + Seq::<D::V>::empty());
}

/// Two lists in a row hold what either holds, and nothing twice where
/// neither does and they share nothing.
pub proof fn lemma_add_no_duplicates<A>(a: Seq<A>, b: Seq<A>)
    ensures
        forall|x: A| #[trigger] (a + b).contains(x) <==> a.contains(x) || b.contains(x),
        a.no_duplicates() && b.no_duplicates() && (forall|x: A|
            !(a.contains(x) && #[trigger] b.contains(x))) ==> (a + b).no_duplicates(),
{
    let c = a + b;
    assert forall|x: A| #[trigger] c.contains(x) <==> a.contains(x) || b.contains(x) by {
        if c.contains(x) {
            let i = choose|i: int| 0 <= i < c.len() && c[i] == x;
            if i < a.len() {
                assert(a[i] == x);
            } else {
                assert(b[i - a.len()] == x);
            }
        }
        if a.contains(x) {
            let i = choose|i: int| 0 <= i < a.len() && a[i] == x;
            assert(c[i] == x);
        }
        if b.contains(x) {
            let i = choose|i: int| 0 <= i < b.len() && b[i] == x;
            assert(c[i + a.len()] == x);
        }
    }
    if a.no_duplicates() && b.no_duplicates() && (forall|x: A|
        !(a.contains(x) && #[trigger] b.contains(x))) {
        assert forall|i: int, j: int| 0 <= i < c.len() && 0 <= j < c.len() && i != j implies c[i]
            != c[j] by {
            if i < a.len() && j >= a.len() {
                assert(a.contains(a[i]));
                assert(b.contains(b[j - a.len()]));
            }
            if j < a.len() && i >= a.len() {
                assert(a.contains(a[j]));
                assert(b.contains(b[i - a.len()]));
            }
        }
    }
}

/// A kind of record that can report that an item joined or left a collection.
pub trait CollectionDelta<T: Item>: View + Sized {
    /// The record of an item that joined.
    spec fn added_record(item: T::V) -> Self::V;

    /// The record of an item that left.
    spec fn removed_record(item: T::V) -> Self::V;

    fn added(item: T) -> (res: Self)
        ensures
            res@ == Self::added_record(item@),
    ;

    fn removed(item: T) -> (res: Self)
        ensures
            res@ == Self::removed_record(item@),
    ;
}

/// The records of the items of `items`, as having joined or as having left.
pub open spec fn records<T: Item, D: CollectionDelta<T>>(added: bool, items: Seq<T::V>) -> Seq<
    D::V,
> {
    Seq::new(
        items.len(),
        |i: int|
            if added {
                D::added_record(items[i])
            } else {
                D::removed_record(items[i])
            },
    )
}

/// The difference of two lists that are read as sets: one record for each
/// item that only `new` holds, then one for each item that only `old` holds.
pub open spec fn collection_delta<T: Item, D: CollectionDelta<T>>(
    old: Seq<T::V>,
    new: Seq<T::V>,
) -> Seq<D::V> {
    records::<T, D>(true, fresh_items(new, old)) + records::<T, D>(false, fresh_items(old, new))
}

/// Appends the records of `items` to `out`.
pub fn append_records<T: Item, D: CollectionDelta<T>>(added: bool, items: &Vec<T>, out: &mut Vec<D>)
    ensures
        views(final(out)@) == views(old(out)@) + records::<T, D>(added, views(items@)),
{
    let ghost start = views(out@);
    let ghost all = records::<T, D>(added, views(items@));
    let mut i: usize = 0;
    assert(views(out@) =~= start + all.take(0));
    while i < items.len()
        invariant
            i <= items.len(),
            all == records::<T, D>(added, views(items@)),
            views(out@) == start + all.take(i as int),
        decreases items.len() - i,
    {
        let ghost before = out@;
        let item = items[i].duplicate();
        let record = if added {
            D::added(item)
        } else {
            D::removed(item)
        };
        out.push(record);
        proof {
            lemma_views_push(before, record);
            assert(views(items@)[i as int] == items@[i as int]@);
            assert(views(out@) =~= start + all.take(i as int + 1));
        }
        i += 1;
    }
    assert(all.take(items.len() as int) =~= all);
}

/// Appends the difference of the two lists to `out`: see `collection_delta`.
pub fn append_delta<T: Item, D: CollectionDelta<T>>(cached: &Vec<T>, update: &Vec<T>, out: &mut Vec<D>)
    ensures
        views(final(out)@) == views(old(out)@) + collection_delta::<T, D>(
            views(cached@),
            views(update@),
        ),
{
    let ghost start = views(out@);
    let joined = fresh_items_of(update, cached);
    let left = fresh_items_of(cached, update);
    append_records(true, &joined, out);
    append_records(false, &left, out);
    assert(views(out@) =~= start + collection_delta::<T, D>(views(cached@), views(update@)));
}

/// The index of the first item of `s` that stands for the same entity as
/// `x`, if there is one.
pub open spec fn position<T: Item>(s: Seq<T::V>, x: T::V) -> Option<int>
    decreases s.len(),
{
    if s.len() == 0 {
        None
    } else if T::same_key(s[0], x) {
        Some(0)
    } else {
        match position::<T>(s.skip(1), x) {
            Some(i) => Some(i + 1),
            None => None,
        }
    }
}

/// `position` is the least index at which an item stands for the same entity
/// as `x`; there is none if and only if no item does.
pub proof fn lemma_position<T: Item>(s: Seq<T::V>, x: T::V)
    ensures
        match position::<T>(s, x) {
            Some(i) => 0 <= i < s.len() && T::same_key(s[i], x) && forall|j: int|
                0 <= j < i ==> !T::same_key(#[trigger] s[j], x),
            None => forall|j: int| 0 <= j < s.len() ==> !T::same_key(#[trigger] s[j], x),
        },
    decreases s.len(),
{
    if s.len() > 0 && !T::same_key(s[0], x) {
        let rest = s.skip(1);
        lemma_position::<T>(rest, x);
        match position::<T>(rest, x) {
            Some(i) => {
                assert(rest[i] == s[i + 1]);
                assert forall|j: int| 0 <= j < i + 1 implies !T::same_key(#[trigger] s[j], x) by {
                    if j > 0 {
                        assert(rest[j - 1] == s[j]);
                    }
                }
            },
            None => {
                assert forall|j: int| 0 <= j < s.len() implies !T::same_key(#[trigger] s[j], x) by {
                    if j > 0 {
                        assert(rest[j - 1] == s[j]);
                    }
                }
            },
        }
    }
}

/// The list without the first item that stands for the same entity as `x`,
/// if there is such an item.
pub open spec fn without_first<T: Item>(s: Seq<T::V>, x: T::V) -> Option<Seq<T::V>> {
    match position::<T>(s, x) {
        Some(i) => Some(s.remove(i)),
        None => None,
    }
}

/// Removes the first item that stands for the same entity as `x`, keeping
/// the order of the others. Tells whether there was one.
pub fn remove_matching<T: Item>(items: &mut Vec<T>, x: &T) -> (found: bool)
    ensures
        match without_first::<T>(views(old(items)@), x@) {
            Some(s) => found && views(final(items)@) == s,
            None => !found && views(final(items)@) == views(old(items)@),
        },
{
    let mut i: usize = 0;
    while i < items.len()
        invariant
            i <= items.len(),
            items@ == old(items)@,
            forall|j: int| 0 <= j < i ==> !T::same_key(#[trigger] views(items@)[j], x@),
        decreases items.len() - i,
    {
        if items[i].same_entity(x) {
            proof {
                lemma_position::<T>(views(items@), x@);
                assert(T::same_key(views(items@)[i as int], x@));
                assert(position::<T>(views(items@), x@) == Some(i as int));
            }
            let ghost before = items@;
            items.remove(i);
            assert(views(items@) =~= views(before).remove(i as int));
            return true;
        }
        i += 1;
    }
    proof {
        lemma_position::<T>(views(items@), x@);
    }
    false
}

/// The list after the items of `removed` were taken from it one after the
/// other, each by what it stands for; none if one of them was not found.
pub open spec fn without_each<T: Item>(s: Seq<T::V>, removed: Seq<T::V>) -> Option<Seq<T::V>>
    decreases removed.len(),
{
    if removed.len() == 0 {
        Some(s)
    } else {
        match without_first::<T>(s, removed[0]) {
            Some(rest) => without_each::<T>(rest, removed.skip(1)),
            None => None,
        }
    }
}

/// No two items of the list stand for the same entity.
pub open spec fn distinct_keys<T: Item>(s: Seq<T::V>) -> bool {
    forall|i: int, j: int|
        0 <= i < s.len() && 0 <= j < s.len() && i != j ==> !T::same_key(
            #[trigger] s[i],
            #[trigger] s[j],
        )
}

/// Every value stands for the same entity as itself.
pub open spec fn reflexive_keys<T: Item>() -> bool {
    forall|x: T::V| #[trigger] T::same_key(x, x)
}

/// Taking items of `c` from `c + extra`, each once, succeeds where no two
/// items of `c` stand for the same entity. What is left holds the other items
/// of `c` and those of `extra`.
pub proof fn lemma_without_each<T: Item>(c: Seq<T::V>, extra: Seq<T::V>, removed: Seq<T::V>)
    requires
        reflexive_keys::<T>(),
        distinct_keys::<T>(c),
        removed.no_duplicates(),
        forall|k: int| 0 <= k < removed.len() ==> c.contains(#[trigger] removed[k]),
    ensures
        without_each::<T>(c + extra, removed) is Some,
        forall|x: T::V|
            #[trigger] without_each::<T>(c + extra, removed)->0.contains(x) <==> (c.contains(x)
                && !removed.contains(x)) || extra.contains(x),
    decreases removed.len(),
{
    let all = c + extra;
    if removed.len() == 0 {
        assert forall|x: T::V| #[trigger] all.contains(x) <==> (c.contains(x) && !removed.contains(x))
            || extra.contains(x) by {
            if all.contains(x) {
                let i = choose|i: int| 0 <= i < all.len() && all[i] == x;
                if i < c.len() {
                    assert(c[i] == x);
                } else {
                    assert(extra[i - c.len()] == x);
                }
            }
            if c.contains(x) {
                let i = choose|i: int| 0 <= i < c.len() && c[i] == x;
                assert(all[i] == x);
            }
            if extra.contains(x) {
                let i = choose|i: int| 0 <= i < extra.len() && extra[i] == x;
                assert(all[i + c.len()] == x);
            }
        }
    } else {
        let x = removed[0];
        let rest = removed.skip(1);
        assert(c.contains(x));
        let i = choose|i: int| 0 <= i < c.len() && c[i] == x;
        lemma_position::<T>(all, x);
        assert(all[i] == x);
        assert(T::same_key(all[i], x));
        let pos = position::<T>(all, x)->0;
        assert(pos == i) by {
            if pos < i {
                assert(all[pos] == c[pos]);
                assert(T::same_key(c[pos], c[i]));
            }
        }
        let c1 = c.remove(i);
        assert(all.remove(i) =~= c1 + extra);
        assert(distinct_keys::<T>(c1)) by {
            assert forall|a: int, b: int|
                0 <= a < c1.len() && 0 <= b < c1.len() && a != b implies !T::same_key(
                #[trigger] c1[a],
                #[trigger] c1[b],
            ) by {
                let a0 = if a < i { a } else { a + 1 };
                let b0 = if b < i { b } else { b + 1 };
                assert(c1[a] == c[a0]);
                assert(c1[b] == c[b0]);
            }
        }
        assert(rest.no_duplicates()) by {
            assert forall|a: int, b: int|
                0 <= a < rest.len() && 0 <= b < rest.len() && a != b implies rest[a] != rest[b] by {
                assert(rest[a] == removed[a + 1]);
                assert(rest[b] == removed[b + 1]);
            }
        }
        assert forall|k: int| 0 <= k < rest.len() implies c1.contains(#[trigger] rest[k]) by {
            assert(rest[k] == removed[k + 1]);
            assert(c.contains(removed[k + 1]));
            let j = choose|j: int| 0 <= j < c.len() && c[j] == rest[k];
            assert(j != i);
            if j < i {
                assert(c1[j] == rest[k]);
            } else {
                assert(c1[j - 1] == rest[k]);
            }
        }
        lemma_without_each::<T>(c1, extra, rest);
        let out = without_each::<T>(c1 + extra, rest)->0;
        assert(without_each::<T>(all, removed) == Some(out));
        assert forall|y: T::V| #[trigger] out.contains(y) <==> (c.contains(y) && !removed.contains(y))
            || extra.contains(y) by {
            if c1.contains(y) {
                let j = choose|j: int| 0 <= j < c1.len() && c1[j] == y;
                let j0 = if j < i { j } else { j + 1 };
                assert(c[j0] == y);
                assert(y != x) by {
                    if y == x {
                        assert(T::same_key(c[j0], c[i]));
                    }
                }
            }
            if c.contains(y) && y != x {
                let j = choose|j: int| 0 <= j < c.len() && c[j] == y;
                if j < i {
                    assert(c1[j] == y);
                } else {
                    assert(c1[j - 1] == y);
                }
            }
            if rest.contains(y) {
                let k = choose|k: int| 0 <= k < rest.len() && rest[k] == y;
                assert(removed[k + 1] == y);
            }
            if removed.contains(y) && y != x {
                let k = choose|k: int| 0 <= k < removed.len() && removed[k] == y;
                assert(rest[k - 1] == y);
            }
            assert(removed[0] == x);
        }
    }
}

/// Where no two items of the cached list stand for the same entity, joining
/// what the difference reports as added and then taking what it reports as
/// removed succeeds and leaves a list that holds, as a set, what the update
/// holds.
pub proof fn lemma_delta_applies<T: Item>(cached: Seq<T::V>, update: Seq<T::V>)
    requires
        reflexive_keys::<T>(),
        distinct_keys::<T>(cached),
    ensures
        without_each::<T>(cached + fresh_items(update, cached), fresh_items(cached, update))
            is Some,
        without_each::<T>(
            cached + fresh_items(update, cached),
            fresh_items(cached, update),
        )->0.to_set() == update.to_set(),
{
    let joined = fresh_items(update, cached);
    let left = fresh_items(cached, update);
    lemma_fresh_items(update, cached);
    lemma_fresh_items(cached, update);
    assert forall|k: int| 0 <= k < left.len() implies cached.contains(#[trigger] left[k]) by {
        assert(left.contains(left[k]));
    }
    lemma_without_each::<T>(cached, joined, left);
    let out = without_each::<T>(cached + joined, left)->0;
    assert(out.to_set() =~= update.to_set());
}

/// The labels of the items, in order.
pub open spec fn labels<T: Item>(items: Seq<T::V>) -> Seq<Seq<char>> {
    Seq::new(items.len(), |i: int| T::label(items[i]))
}

/// The items by their labels, between square brackets.
pub fn labels_to_string<T: Item>(items: &Vec<T>) -> (res: String)
    ensures
        res@ == crate::text::bracketed(labels::<T>(views(items@))),
{
    let mut texts: Vec<String> = Vec::new();
    let mut i: usize = 0;
    while i < items.len()
        invariant
            i <= items.len(),
            texts.len() == i,
            forall|j: int| 0 <= j < i ==> texts@[j]@ == T::label(#[trigger] items@[j]@),
        decreases items.len() - i,
    {
        texts.push(items[i].label_text());
        i += 1;
    }
    assert(views(texts@) =~= labels::<T>(views(items@)));
    crate::text::list_to_string(&texts)
}

/// A list without duplicates that holds `x` and nothing else is the list of
/// `x` alone.
pub proof fn lemma_only_member<A>(s: Seq<A>, x: A)
    requires
        s.no_duplicates(),
        forall|y: A| #[trigger] s.contains(y) <==> y == x,
    ensures
        s == seq![x],
{
    assert(s.contains(x));
    if s.len() > 1 {
        assert(s.contains(s[0]));
        assert(s.contains(s[1]));
    }
    assert(s.contains(s[0]));
    assert(s =~= seq![x]);
}

/// A list that holds nothing is empty.
pub proof fn lemma_no_member<A>(s: Seq<A>)
    requires
        forall|y: A| !#[trigger] s.contains(y),
    ensures
        s == Seq::<A>::empty(),
{
    if s.len() > 0 {
        assert(s.contains(s[0]));
    }
    assert(s =~= Seq::<A>::empty());
}

/// Where the rule gives a value for two items of the list only, those two
/// values are picked, in the order of the items.
pub proof fn lemma_pick_two<A, B>(s: Seq<A>, rule: spec_fn(A) -> Option<B>, i: int, j: int)
    requires
        0 <= i < j < s.len(),
        rule(s[i]) is Some,
        rule(s[j]) is Some,
        forall|k: int| 0 <= k < s.len() && k != i && k != j ==> rule(#[trigger] s[k]) is None,
    ensures
        pick(s, rule) == seq![rule(s[i])->0, rule(s[j])->0],
{
    let a = s.take(i);
    let b = seq![s[i]];
    let c = s.subrange(i + 1, j);
    let d = seq![s[j]];
    let e = s.skip(j + 1);
    assert(s =~= a + b + c + d + e);
    lemma_pick_add(a + b + c + d, e, rule);
    lemma_pick_add(a + b + c, d, rule);
    lemma_pick_add(a + b, c, rule);
    lemma_pick_add(a, b, rule);
    assert forall|k: int| 0 <= k < a.len() implies rule(#[trigger] a[k]) is None by {
        assert(a[k] == s[k]);
    }
    assert forall|k: int| 0 <= k < c.len() implies rule(#[trigger] c[k]) is None by {
        assert(c[k] == s[k + i + 1]);
    }
    assert forall|k: int| 0 <= k < e.len() implies rule(#[trigger] e[k]) is None by {
        assert(e[k] == s[k + j + 1]);
    }
    lemma_pick_none(a, rule);
    lemma_pick_none(c, rule);
    lemma_pick_none(e, rule);
    lemma_pick_all(b, rule, seq![rule(s[i])->0]);
    lemma_pick_all(d, rule, seq![rule(s[j])->0]);
    assert(pick(s, rule) =~= seq![rule(s[i])->0, rule(s[j])->0]);
}

} // verus!
