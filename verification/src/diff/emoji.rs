//! The changes to the emojis of a community. The update is the complete
//! list of emojis, never a part of it. Changes to the roles that may use an
//! emoji are not reported.

use crate::diff::Diff;
use crate::errors::Error;
use crate::ids::{ascending, key_list, sorted};
use crate::items::pick;
use crate::model::{lemma_views_push, map_views, views, Emoji, EmojiView, Item};
use std::collections::HashMap;
use vstd::prelude::*;

verus! {

broadcast use vstd::std_specs::hash::group_hash_axioms;

/// One change to the emojis of a community.
#[derive(Debug, PartialEq)]
pub enum EmojisUpdateDiff {
    EmojiAdded(Emoji),
    EmojiRemoved(Emoji),
    NameChanged(u64, String, String),
}

/// The view of `EmojisUpdateDiff`: what it holds as mathematical values.
pub enum EmojisUpdateDiffView {
    EmojiAdded(EmojiView),
    EmojiRemoved(EmojiView),
    NameChanged(u64, Seq<char>, Seq<char>),
}

impl View for EmojisUpdateDiff {
    type V = EmojisUpdateDiffView;

    open spec fn view(&self) -> EmojisUpdateDiffView {
        match self {
            EmojisUpdateDiff::EmojiAdded(e) => EmojisUpdateDiffView::EmojiAdded(e@),
            EmojisUpdateDiff::EmojiRemoved(e) => EmojisUpdateDiffView::EmojiRemoved(e@),
            EmojisUpdateDiff::NameChanged(id, from, to) => EmojisUpdateDiffView::NameChanged(
                *id,
                from@,
                to@,
            ),
        }
    }
}

/// The ids of the emojis of the list.
pub open spec fn emoji_ids(list: Seq<EmojiView>) -> Set<u64> {
    Set::new(|id: u64| exists|i: int| 0 <= i < list.len() && (#[trigger] list[i]).id == id)
}

/// What an emoji of the update changes: it is new where its id is not
/// cached, renamed where the cached emoji of its id has another name.
pub open spec fn incoming_change(cached: Map<u64, EmojiView>, e: EmojiView) -> Option<
    EmojisUpdateDiffView,
> {
    if !cached.contains_key(e.id) {
        Some(EmojisUpdateDiffView::EmojiAdded(e))
    } else if cached[e.id].name != e.name {
        Some(EmojisUpdateDiffView::NameChanged(e.id, cached[e.id].name, e.name))
    } else {
        None
    }
}

/// The records of the cached emojis of the given ids as removed.
pub open spec fn removals(cached: Map<u64, EmojiView>, ids: Seq<u64>) -> Seq<
    EmojisUpdateDiffView,
> {
    Seq::new(ids.len(), |i: int| EmojisUpdateDiffView::EmojiRemoved(cached[ids[i]]))
}

/// The changes that turn the cached emojis into the list of the update: what
/// each emoji of the list changes, in the order of the list, then the removal
/// of every cached emoji whose id the list lacks, by ascending id.
pub open spec fn emoji_diff(cached: Map<u64, EmojiView>, update: Seq<EmojiView>) -> Seq<
    EmojisUpdateDiffView,
> {
    pick(update, |e: EmojiView| incoming_change(cached, e)) + removals(
        cached,
        ascending(cached.dom().difference(emoji_ids(update))),
    )
}

/// Whether the list holds an emoji of this id.
fn has_emoji_id(list: &Vec<Emoji>, id: u64) -> (res: bool)
    ensures
        res == emoji_ids(views(list@)).contains(id),
{
    let mut i: usize = 0;
    while i < list.len()
        invariant
            i <= list.len(),
            forall|j: int| 0 <= j < i ==> (#[trigger] views(list@)[j]).id != id,
        decreases list.len() - i,
    {
        if list[i].id == id {
            assert(views(list@)[i as int].id == id);
            return true;
        }
        i += 1;
    }
    false
}

/// The ids of the cached emojis that the list lacks, in ascending order.
fn removed_ids(cached: &HashMap<u64, Emoji>, update: &Vec<Emoji>) -> (res: Vec<u64>)
    ensures
        res@ == ascending(cached@.dom().difference(emoji_ids(views(update@)))),
        forall|i: int| 0 <= i < res.len() ==> cached@.contains_key(#[trigger] res@[i]),
{
    let keys = key_list(cached);
    let ghost ids = emoji_ids(views(update@));
    let mut gone: Vec<u64> = Vec::new();
    let mut j: usize = 0;
    while j < keys.len()
        invariant
            j <= keys.len(),
            ids == emoji_ids(views(update@)),
            forall|y: u64|
                #[trigger] gone@.contains(y) <==> keys@.take(j as int).contains(y) && !ids.contains(
                    y,
                ),
        decreases keys.len() - j,
    {
        let key = keys[j];
        let ghost before = gone@;
        let ghost t0 = keys@.take(j as int);
        let ghost t1 = keys@.take(j as int + 1);
        let listed = has_emoji_id(update, key);
        if !listed {
            gone.push(key);
        }
        proof {
            assert forall|y: u64| #[trigger]
                gone@.contains(y) <==> t1.contains(y) && !ids.contains(y) by {
                if gone@.contains(y) {
                    let a = choose|a: int| 0 <= a < gone@.len() && gone@[a] == y;
                    if a < before.len() {
                        assert(before[a] == y);
                        assert(before.contains(y));
                        let b = choose|b: int| 0 <= b < t0.len() && t0[b] == y;
                        assert(t1[b] == y);
                    } else {
                        assert(t1[j as int] == y);
                    }
                }
                if t1.contains(y) && !ids.contains(y) {
                    let b = choose|b: int| 0 <= b < t1.len() && t1[b] == y;
                    if b < j {
                        assert(t0[b] == y);
                        assert(before.contains(y));
                        let a = choose|a: int| 0 <= a < before.len() && before[a] == y;
                        assert(gone@[a] == y);
                    } else {
                        assert(gone@[gone@.len() - 1] == y);
                    }
                }
            }
        }
        j += 1;
    }
    proof {
        assert(keys@.take(keys.len() as int) =~= keys@);
        assert(gone@.to_set() =~= cached@.dom().difference(ids)) by {
            assert forall|y: u64| gone@.to_set().contains(y) <==> cached@.dom().difference(
                ids,
            ).contains(y) by {
                assert(keys@.contains(y) <==> keys@.to_set().contains(y));
            }
        }
    }
    let res = sorted(&gone);
    proof {
        assert forall|i: int| 0 <= i < res.len() implies cached@.contains_key(
            #[trigger] res@[i],
        ) by {
            assert(res@.to_set().contains(res@[i]));
        }
    }
    res
}

impl Diff for HashMap<u64, Emoji> {
    type Other = Vec<Emoji>;

    type Output = EmojisUpdateDiff;

    /// The changes that turn the cached emojis into the list of the update.
    fn diff(&self, others: &Vec<Emoji>) -> (res: Result<Vec<EmojisUpdateDiff>, Error>)
        ensures
            res is Ok,
            views(res->Ok_0@) == emoji_diff(map_views(self@), views(others@)),
    {
        let mut res: Vec<EmojisUpdateDiff> = Vec::new();
        let ghost cached = map_views(self@);
        let ghost update = views(others@);
        let ghost rule = |e: EmojiView| incoming_change(cached, e);
        let mut i: usize = 0;
        assert(update.take(0) =~= Seq::empty());
        assert(views(res@) =~= pick(update.take(0), rule));
        while i < others.len()
            invariant
                i <= others.len(),
                cached == map_views(self@),
                update == views(others@),
                rule == |e: EmojiView| incoming_change(cached, e),
                views(res@) == pick(update.take(i as int), rule),
            decreases others.len() - i,
        {
            let other = &others[i];
            let ghost before = res@;
            proof {
                assert(update.take(i as int + 1).drop_last() =~= update.take(i as int));
                assert(update.take(i as int + 1).last() == other@);
            }
            match self.get(&other.id) {
                Some(emoji) => {
                    assert(cached[other.id] == emoji@);
                    if !emoji.name.same(&other.name) {
                        let record = EmojisUpdateDiff::NameChanged(
                            other.id,
                            emoji.name.clone(),
                            other.name.clone(),
                        );
                        proof {
                            lemma_views_push(before, record);
                        }
                        res.push(record);
                    }
                },
                None => {
                    let record = EmojisUpdateDiff::EmojiAdded(other.duplicate());
                    proof {
                        lemma_views_push(before, record);
                    }
                    res.push(record);
                },
            }
            i += 1;
        }
        assert(update.take(others.len() as int) =~= update);
        let ghost first = views(res@);
        assert(first == pick(update, rule));
        let gone = removed_ids(self, others);
        let ghost last = removals(cached, gone@);
        let mut k: usize = 0;
        assert(views(res@) =~= first + last.take(0));
        while k < gone.len()
            invariant
                k <= gone.len(),
                cached == map_views(self@),
                last == removals(cached, gone@),
                first == pick(update, rule),
                gone@ == ascending(self@.dom().difference(emoji_ids(update))),
                forall|i: int| 0 <= i < gone.len() ==> self@.contains_key(#[trigger] gone@[i]),
                views(res@) == first + last.take(k as int),
            decreases gone.len() - k,
        {
            let ghost before = res@;
            let id = gone[k];
            assert(self@.contains_key(gone@[k as int]));
            match self.get(&id) {
                Some(emoji) => {
                    let record = EmojisUpdateDiff::EmojiRemoved(emoji.duplicate());
                    proof {
                        lemma_views_push(before, record);
                        assert(cached[id] == emoji@);
                        assert(views(before).push(record@) =~= first + last.take(k as int + 1));
                    }
                    res.push(record);
                },
                None => {
                    assert(false);
                },
            }
            k += 1;
        }
        proof {
            assert(last.take(gone.len() as int) =~= last);
            assert(cached.dom() =~= self@.dom());
            assert(first == pick(update, rule));
            assert(views(res@) == emoji_diff(cached, update));
        }
        Ok(res)
    }
}

/// The emojis after one change was written back to them, and the failure if
/// there is one. An added emoji is stored even where its id was cached, which
/// is reported. A removal or a renaming of an emoji that is not cached changes
/// nothing and is reported.
pub open spec fn apply_emoji_diff(m: Map<u64, EmojiView>, d: EmojisUpdateDiffView) -> (
    Map<u64, EmojiView>,
    Option<Error>,
) {
    match d {
        EmojisUpdateDiffView::EmojiAdded(e) => (
            m.insert(e.id, e),
            if m.contains_key(e.id) {
                Some(Error::DuplicateEmoji(e.id))
            } else {
                None
            },
        ),
        EmojisUpdateDiffView::EmojiRemoved(e) => (
            m.remove(e.id),
            if m.contains_key(e.id) {
                None
            } else {
                Some(Error::UncachedEmoji(e.id))
            },
        ),
        EmojisUpdateDiffView::NameChanged(id, _, to) => if m.contains_key(id) {
            (m.insert(id, EmojiView { name: to, ..m[id] }), None)
        } else {
            (m, Some(Error::UncachedEmoji(id)))
        },
    }
}

/// The emojis after the changes were written back to them one after the
/// other, up to and with the first that fails, and that failure if there is
/// one.
pub open spec fn apply_each(m: Map<u64, EmojiView>, diffs: Seq<EmojisUpdateDiffView>) -> (
    Map<u64, EmojiView>,
    Option<Error>,
)
    decreases diffs.len(),
{
    if diffs.len() == 0 {
        (m, None)
    } else {
        let (next, failure) = apply_emoji_diff(m, diffs[0]);
        if failure is None {
            apply_each(next, diffs.skip(1))
        } else {
            (next, failure)
        }
    }
}

impl EmojisUpdateDiff {
    /// Writes the change back to the cached emojis.
    pub fn apply(&self, emojis: &mut HashMap<u64, Emoji>) -> (res: Result<(), Error>)
        ensures
            map_views(final(emojis)@) == apply_emoji_diff(map_views(old(emojis)@), self@).0,
            res == match apply_emoji_diff(map_views(old(emojis)@), self@).1 {
                None => Ok::<(), Error>(()),
                Some(e) => Err::<(), Error>(e),
            },
    {
        let ghost before = emojis@;
        match self {
            EmojisUpdateDiff::EmojiAdded(emoji) => {
                let item = emoji.duplicate();
                let had = emojis.insert(emoji.id, item);
                assert(map_views(emojis@) =~= map_views(before).insert(emoji.id, emoji@));
                if had.is_some() {
                    return Err(Error::DuplicateEmoji(emoji.id));
                }
            },
            EmojisUpdateDiff::EmojiRemoved(emoji) => {
                let had = emojis.remove(&emoji.id);
                assert(map_views(emojis@) =~= map_views(before).remove(emoji.id));
                if had.is_none() {
                    return Err(Error::UncachedEmoji(emoji.id));
                }
            },
            EmojisUpdateDiff::NameChanged(id, _, to) => {
                match emojis.remove(id) {
                    Some(mut emoji) => {
                        let ghost cached = emoji@;
                        emoji.name = to.clone();
                        emojis.insert(*id, emoji);
                        assert(map_views(emojis@) =~= map_views(before).insert(
                            *id,
                            EmojiView { name: to@, ..cached },
                        ));
                    },
                    None => {
                        assert(emojis@ =~= before);
                        return Err(Error::UncachedEmoji(*id));
                    },
                }
            },
        }
        Ok(())
    }
}

/// Writes the changes back to the cached emojis, one after the other, up to
/// and with the first that fails.
pub fn apply_all(diffs: &Vec<EmojisUpdateDiff>, emojis: &mut HashMap<u64, Emoji>) -> (res: Result<
    (),
    Error,
>)
    ensures
        map_views(final(emojis)@) == apply_each(map_views(old(emojis)@), views(diffs@)).0,
        res == match apply_each(map_views(old(emojis)@), views(diffs@)).1 {
            None => Ok::<(), Error>(()),
            Some(e) => Err::<(), Error>(e),
        },
{
    let ghost all = views(diffs@);
    let ghost start = map_views(emojis@);
    let mut i: usize = 0;
    assert(all.skip(0) =~= all);
    while i < diffs.len()
        invariant
            i <= diffs.len(),
            all == views(diffs@),
            start == map_views(old(emojis)@),
            apply_each(start, all) == apply_each(map_views(emojis@), all.skip(i as int)),
        decreases diffs.len() - i,
    {
        proof {
            assert(all.skip(i as int)[0] == diffs@[i as int]@);
            assert(all.skip(i as int).skip(1) =~= all.skip(i as int + 1));
        }
        match diffs[i].apply(emojis) {
            Ok(()) => {},
            Err(e) => {
                return Err(e);
            },
        }
        i += 1;
    }
    Ok(())
}

/// An update that holds every cached emoji, one of them under a new name,
/// and one emoji that is not cached, yields exactly two records: the new
/// emoji as added and the new name, in the order of the update; no emoji is
/// removed.
pub proof fn law_emoji_added_and_renamed(
    cached: Map<u64, EmojiView>,
    update: Seq<EmojiView>,
    added: int,
    renamed: int,
)
    requires
        forall|id: u64| cached.contains_key(id) ==> emoji_ids(update).contains(id),
        0 <= added < update.len(),
        0 <= renamed < update.len(),
        !cached.contains_key(update[added].id),
        cached.contains_key(update[renamed].id),
        cached[update[renamed].id].name != update[renamed].name,
        forall|k: int|
            0 <= k < update.len() && k != added && k != renamed ==> cached.contains_key(
                (#[trigger] update[k]).id,
            ) && cached[update[k].id].name == update[k].name,
    ensures
        emoji_diff(cached, update) == (if added < renamed {
            seq![
                EmojisUpdateDiffView::EmojiAdded(update[added]),
                EmojisUpdateDiffView::NameChanged(
                    update[renamed].id,
                    cached[update[renamed].id].name,
                    update[renamed].name,
                ),
            ]
        } else {
            seq![
                EmojisUpdateDiffView::NameChanged(
                    update[renamed].id,
                    cached[update[renamed].id].name,
                    update[renamed].name,
                ),
                EmojisUpdateDiffView::EmojiAdded(update[added]),
            ]
        }),
{
    let rule = |e: EmojiView| incoming_change(cached, e);
    if added < renamed {
        crate::items::lemma_pick_two(update, rule, added, renamed);
    } else {
        crate::items::lemma_pick_two(update, rule, renamed, added);
    }
    let gone = cached.dom().difference(emoji_ids(update));
    assert(gone =~= Set::<u64>::empty());
    let none = Seq::<u64>::empty();
    assert(crate::ids::increasing(none));
    assert(none.to_set() =~= Set::<u64>::empty());
    crate::ids::lemma_ascending(none);
    assert(removals(cached, ascending(gone)) =~= Seq::<EmojisUpdateDiffView>::empty());
    assert(emoji_diff(cached, update) =~= pick(update, rule));
}

} // verus!
