//! Writing the changes of a message back gives the message that the update
//! describes.

use crate::diff::message::{
    apply_each, apply_message_diff, content_change, edited_change, kind_change, list_changes,
    author_change, mention_everyone_change, message_diff, nonce_change, pin_change,
    scalar_changes, timestamp_change, tts_change,
    MessageUpdateDiff, MessageUpdateDiffView,
};
use crate::errors::Error;
use crate::items::{
    distinct_keys, fresh_items, lemma_delta_applies, records, reflexive_keys, without_each,
    without_first, CollectionDelta,
};
use crate::model::{Attachment, Item, MessageUpdateView, MessageView, User};
use vstd::prelude::*;

verus! {

/// The cached message with every attribute that the update holds taken from
/// the update.
pub open spec fn merged(m: MessageView, u: MessageUpdateView) -> MessageView {
    MessageView {
        id: u.id,
        channel_id: u.channel_id,
        content: if u.content is Some {
            u.content->0
        } else {
            m.content
        },
        nonce: if u.nonce is Some {
            u.nonce
        } else {
            m.nonce
        },
        tts: if u.tts is Some {
            u.tts->0
        } else {
            m.tts
        },
        timestamp: if u.timestamp is Some {
            u.timestamp->0
        } else {
            m.timestamp
        },
        edited_timestamp: if u.edited_timestamp is Some {
            u.edited_timestamp
        } else {
            m.edited_timestamp
        },
        pinned: if u.pinned is Some {
            u.pinned->0
        } else {
            m.pinned
        },
        kind: if u.kind is Some {
            u.kind->0
        } else {
            m.kind
        },
        author: if u.author is Some {
            u.author->0
        } else {
            m.author
        },
        mention_everyone: if u.mention_everyone is Some {
            u.mention_everyone->0
        } else {
            m.mention_everyone
        },
        mentions: if u.mentions is Some {
            u.mentions->0
        } else {
            m.mentions
        },
        mention_roles: if u.mention_roles is Some {
            u.mention_roles->0
        } else {
            m.mention_roles
        },
        reactions: m.reactions,
        attachments: if u.attachments is Some {
            u.attachments->0
        } else {
            m.attachments
        },
        embeds: if u.embeds is Some {
            u.embeds->0
        } else {
            m.embeds
        },
    }
}

/// Both messages hold the same, their lists being read as sets.
pub open spec fn same_message(a: MessageView, b: MessageView) -> bool {
    &&& a.id == b.id
    &&& a.channel_id == b.channel_id
    &&& a.content == b.content
    &&& a.nonce == b.nonce
    &&& a.tts == b.tts
    &&& a.timestamp == b.timestamp
    &&& a.edited_timestamp == b.edited_timestamp
    &&& a.pinned == b.pinned
    &&& a.kind == b.kind
    &&& a.author == b.author
    &&& a.mention_everyone == b.mention_everyone
    &&& a.reactions == b.reactions
    &&& a.mentions.to_set() == b.mentions.to_set()
    &&& a.mention_roles.to_set() == b.mention_roles.to_set()
    &&& a.attachments.to_set() == b.attachments.to_set()
    &&& a.embeds.to_set() == b.embeds.to_set()
}

/// Writing back two lists of changes in a row is writing back the first and,
/// if that did not fail, the second.
pub proof fn lemma_apply_each_add(
    m: MessageView,
    a: Seq<MessageUpdateDiffView>,
    b: Seq<MessageUpdateDiffView>,
)
    ensures
        apply_each(m, a + b) == (if apply_each(m, a).1 is None {
            apply_each(apply_each(m, a).0, b)
        } else {
            apply_each(m, a)
        }),
    decreases a.len(),
{
    if a.len() == 0 {
        assert(a + b =~= b);
    } else {
        assert((a + b)[0] == a[0]);
        assert((a + b).skip(1) =~= a.skip(1) + b);
        match apply_message_diff(m, a[0]) {
            Ok(next) => lemma_apply_each_add(next, a.skip(1), b),
            Err(_) => {},
        }
    }
}

/// One attribute of a message that holds a list, with the way to read it
/// and to replace it.
pub open spec fn is_list_of<T: Item>(
    get: spec_fn(MessageView) -> Seq<T::V>,
    set: spec_fn(MessageView, Seq<T::V>) -> MessageView,
) -> bool where MessageUpdateDiff: CollectionDelta<T> {
    &&& forall|x: MessageView, s: Seq<T::V>| #[trigger] get(set(x, s)) == s
    &&& forall|x: MessageView, s: Seq<T::V>, t: Seq<T::V>| #[trigger]
        set(set(x, s), t) == set(x, t)
    &&& forall|x: MessageView| #[trigger] set(x, get(x)) == x
    &&& forall|x: MessageView, i: T::V| #[trigger]
        apply_message_diff(x, <MessageUpdateDiff as CollectionDelta<T>>::added_record(i)) == Ok::<
            MessageView,
            Error,
        >(set(x, get(x).push(i)))
    &&& forall|x: MessageView, i: T::V|
        without_first::<T>(get(x), i) is Some ==> #[trigger] apply_message_diff(
            x,
            <MessageUpdateDiff as CollectionDelta<T>>::removed_record(i),
        ) == Ok::<MessageView, Error>(set(x, without_first::<T>(get(x), i)->0))
}

proof fn lemma_apply_added<T: Item>(
    m: MessageView,
    items: Seq<T::V>,
    get: spec_fn(MessageView) -> Seq<T::V>,
    set: spec_fn(MessageView, Seq<T::V>) -> MessageView,
) where MessageUpdateDiff: CollectionDelta<T>
    requires
        is_list_of::<T>(get, set),
    ensures
        apply_each(m, records::<T, MessageUpdateDiff>(true, items)) == (
            set(m, get(m) + items),
            None::<Error>,
        ),
    decreases items.len(),
{
    let all = records::<T, MessageUpdateDiff>(true, items);
    if items.len() == 0 {
        assert(get(m) + items =~= get(m));
    } else {
        let next = set(m, get(m).push(items[0]));
        assert(all[0] == <MessageUpdateDiff as CollectionDelta<T>>::added_record(items[0]));
        assert(apply_message_diff(m, all[0]) == Ok::<MessageView, Error>(next));
        assert(all.skip(1) =~= records::<T, MessageUpdateDiff>(true, items.skip(1)));
        lemma_apply_added::<T>(next, items.skip(1), get, set);
        assert(get(next) + items.skip(1) =~= get(m) + items);
    }
}

proof fn lemma_apply_removed<T: Item>(
    m: MessageView,
    items: Seq<T::V>,
    get: spec_fn(MessageView) -> Seq<T::V>,
    set: spec_fn(MessageView, Seq<T::V>) -> MessageView,
) where MessageUpdateDiff: CollectionDelta<T>
    requires
        is_list_of::<T>(get, set),
        without_each::<T>(get(m), items) is Some,
    ensures
        apply_each(m, records::<T, MessageUpdateDiff>(false, items)) == (
            set(m, without_each::<T>(get(m), items)->0),
            None::<Error>,
        ),
    decreases items.len(),
{
    let all = records::<T, MessageUpdateDiff>(false, items);
    if items.len() > 0 {
        let rest = without_first::<T>(get(m), items[0])->0;
        let next = set(m, rest);
        assert(all[0] == <MessageUpdateDiff as CollectionDelta<T>>::removed_record(items[0]));
        assert(apply_message_diff(m, all[0]) == Ok::<MessageView, Error>(next));
        assert(all.skip(1) =~= records::<T, MessageUpdateDiff>(false, items.skip(1)));
        lemma_apply_removed::<T>(next, items.skip(1), get, set);
    }
}

/// Writing back the changes to one list, where no two of its cached items
/// stand for the same entity, succeeds and leaves in it, as a set, what the
/// update holds. A list that the update leaves out stays as it is.
proof fn lemma_apply_list_changes<T: Item>(
    m: MessageView,
    update: Option<Seq<T::V>>,
    get: spec_fn(MessageView) -> Seq<T::V>,
    set: spec_fn(MessageView, Seq<T::V>) -> MessageView,
) -> (out: Seq<T::V>) where MessageUpdateDiff: CollectionDelta<T>
    requires
        is_list_of::<T>(get, set),
        reflexive_keys::<T>(),
        distinct_keys::<T>(get(m)),
    ensures
        apply_each(m, list_changes::<T>(get(m), update)) == (set(m, out), None::<Error>),
        update is Some ==> out.to_set() == update->0.to_set(),
        update is None ==> out == get(m),
{
    match update {
        Some(list) => {
            let joined = fresh_items(list, get(m));
            let left = fresh_items(get(m), list);
            let a = records::<T, MessageUpdateDiff>(true, joined);
            let b = records::<T, MessageUpdateDiff>(false, left);
            lemma_delta_applies::<T>(get(m), list);
            lemma_apply_added::<T>(m, joined, get, set);
            let mid = set(m, get(m) + joined);
            lemma_apply_removed::<T>(mid, left, get, set);
            lemma_apply_each_add(m, a, b);
            without_each::<T>(get(m) + joined, left)->0
        },
        None => get(m),
    }
}

/// Writing back the changes to the single-valued attributes succeeds and
/// gives each of them the value that the update holds for it.
proof fn lemma_apply_scalar_changes(m: MessageView, u: MessageUpdateView)
    ensures
        apply_each(m, scalar_changes(m, u)) == (
            MessageView {
                kind: merged(m, u).kind,
                content: merged(m, u).content,
                nonce: merged(m, u).nonce,
                tts: merged(m, u).tts,
                pinned: merged(m, u).pinned,
                edited_timestamp: merged(m, u).edited_timestamp,
                mention_everyone: merged(m, u).mention_everyone,
                timestamp: merged(m, u).timestamp,
                author: merged(m, u).author,
                ..m
            },
            None::<Error>,
        ),
{
    let s1 = kind_change(m, u);
    let s2 = s1 + content_change(m, u);
    let s3 = s2 + nonce_change(m, u);
    let s4 = s3 + tts_change(m, u);
    let s5 = s4 + pin_change(m, u);
    let s6 = s5 + edited_change(m, u);
    let s7 = s6 + mention_everyone_change(m, u);
    let s8 = s7 + timestamp_change(m, u);
    let s9 = s8 + author_change(m, u);
    let g = merged(m, u);
    let m1 = MessageView { kind: g.kind, ..m };
    let m2 = MessageView { content: g.content, ..m1 };
    let m3 = MessageView { nonce: g.nonce, ..m2 };
    let m4 = MessageView { tts: g.tts, ..m3 };
    let m5 = MessageView { pinned: g.pinned, ..m4 };
    let m6 = MessageView { edited_timestamp: g.edited_timestamp, ..m5 };
    let m7 = MessageView { mention_everyone: g.mention_everyone, ..m6 };
    let m8 = MessageView { timestamp: g.timestamp, ..m7 };
    let m9 = MessageView { author: g.author, ..m8 };
    lemma_apply_one(m, kind_change(m, u));
    assert(apply_each(m, s1) == (m1, None::<Error>));
    lemma_apply_each_add(m, s1, content_change(m, u));
    lemma_apply_one(m1, content_change(m, u));
    assert(apply_each(m, s2) == (m2, None::<Error>));
    lemma_apply_each_add(m, s2, nonce_change(m, u));
    lemma_apply_one(m2, nonce_change(m, u));
    assert(apply_each(m, s3) == (m3, None::<Error>));
    lemma_apply_each_add(m, s3, tts_change(m, u));
    lemma_apply_one(m3, tts_change(m, u));
    assert(apply_each(m, s4) == (m4, None::<Error>));
    lemma_apply_each_add(m, s4, pin_change(m, u));
    lemma_apply_one(m4, pin_change(m, u));
    assert(apply_each(m, s5) == (m5, None::<Error>));
    lemma_apply_each_add(m, s5, edited_change(m, u));
    lemma_apply_one(m5, edited_change(m, u));
    assert(apply_each(m, s6) == (m6, None::<Error>));
    lemma_apply_each_add(m, s6, mention_everyone_change(m, u));
    lemma_apply_one(m6, mention_everyone_change(m, u));
    assert(apply_each(m, s7) == (m7, None::<Error>));
    lemma_apply_each_add(m, s7, timestamp_change(m, u));
    lemma_apply_one(m7, timestamp_change(m, u));
    assert(apply_each(m, s8) == (m8, None::<Error>));
    lemma_apply_each_add(m, s8, author_change(m, u));
    lemma_apply_one(m8, author_change(m, u));
    assert(apply_each(m, s9) == (m9, None::<Error>));
}

/// Writing back at most one change is writing back that change.
proof fn lemma_apply_one(m: MessageView, diffs: Seq<MessageUpdateDiffView>)
    requires
        diffs.len() <= 1,
    ensures
        diffs.len() == 0 ==> apply_each(m, diffs) == (m, None::<Error>),
        diffs.len() == 1 ==> apply_each(m, diffs) == (match apply_message_diff(m, diffs[0]) {
            Ok(next) => (next, None::<Error>),
            Err(e) => (m, Some(e)),
        }),
{
    if diffs.len() == 1 {
        assert(diffs.skip(1).len() == 0);
        match apply_message_diff(m, diffs[0]) {
            Ok(next) => {
                assert(apply_each(next, diffs.skip(1)) == (next, None::<Error>));
            },
            Err(_) => {},
        }
    }
}

/// Writing back all the changes that the difference of a cached message and
/// an update of it reports succeeds, and gives the cached message with every
/// attribute that the update holds taken from the update, lists being read as
/// sets. No two items of a cached list may stand for the same entity.
pub proof fn law_message_diff_round_trip(m: MessageView, u: MessageUpdateView)
    requires
        u.id == m.id,
        u.channel_id == m.channel_id,
        distinct_keys::<User>(m.mentions),
        distinct_keys::<u64>(m.mention_roles),
        distinct_keys::<Attachment>(m.attachments),
        distinct_keys::<String>(m.embeds),
    ensures
        apply_each(m, message_diff(m, u)).1 is None,
        same_message(apply_each(m, message_diff(m, u)).0, merged(m, u)),
{
    let d0 = scalar_changes(m, u);
    let d1 = list_changes::<User>(m.mentions, u.mentions);
    let d2 = list_changes::<u64>(m.mention_roles, u.mention_roles);
    let d3 = list_changes::<Attachment>(m.attachments, u.attachments);
    let d4 = list_changes::<String>(m.embeds, u.embeds);
    lemma_apply_scalar_changes(m, u);
    let m0 = apply_each(m, d0).0;

    let get1 = |x: MessageView| x.mentions;
    let set1 = |x: MessageView, s: Seq<crate::model::UserView>| MessageView { mentions: s, ..x };
    let out1 = lemma_apply_list_changes::<User>(m0, u.mentions, get1, set1);
    let m1 = set1(m0, out1);
    lemma_apply_each_add(m, d0, d1);

    let get2 = |x: MessageView| x.mention_roles;
    let set2 = |x: MessageView, s: Seq<u64>| MessageView { mention_roles: s, ..x };
    let out2 = lemma_apply_list_changes::<u64>(m1, u.mention_roles, get2, set2);
    let m2 = set2(m1, out2);
    lemma_apply_each_add(m, d0 + d1, d2);

    let get3 = |x: MessageView| x.attachments;
    let set3 = |x: MessageView, s: Seq<crate::model::AttachmentView>|
        MessageView { attachments: s, ..x };
    let out3 = lemma_apply_list_changes::<Attachment>(m2, u.attachments, get3, set3);
    let m3 = set3(m2, out3);
    lemma_apply_each_add(m, d0 + d1 + d2, d3);

    let get4 = |x: MessageView| x.embeds;
    let set4 = |x: MessageView, s: Seq<Seq<char>>| MessageView { embeds: s, ..x };
    let out4 = lemma_apply_list_changes::<String>(m3, u.embeds, get4, set4);
    let m4 = set4(m3, out4);
    lemma_apply_each_add(m, d0 + d1 + d2 + d3, d4);
    assert(apply_each(m, message_diff(m, u)) == (m4, None::<Error>));
}

} // verus!
