//! The changes to a channel. The update is the complete channel, never a
//! part of it.

use crate::diff::permission::{
    reconcile, transitions, ChannelPermission, PermissionType, Transition,
};
use crate::config::Template;
use crate::diff::Diff;
use crate::errors::Error;
use crate::items::{fresh_items, fresh_items_of, lemma_nothing_pushed, push_record};
use crate::model::{
    opt_duplicate, opt_same, opt_view, views, Item, PermissionOverwrite, PermissionOverwriteType,
    Permissions, PublicChannel, PublicChannelView,
};
use vstd::prelude::*;

verus! {

/// One change to a channel. A change of a permission names the member or the
/// role, the permission, and its state before and after.
#[derive(Debug, PartialEq)]
pub enum ChannelUpdateDiff {
    Name(String, String),
    UserPermission(u64, ChannelPermission, PermissionType, PermissionType),
    RolePermission(u64, ChannelPermission, PermissionType, PermissionType),
    Topic(Option<String>, Option<String>),
    Position(i64, i64),
    Bitrate(Option<u64>, Option<u64>),
    UserLimit(Option<u64>, Option<u64>),
}

/// The view of `ChannelUpdateDiff`: what it holds as mathematical values.
pub enum ChannelUpdateDiffView {
    Name(Seq<char>, Seq<char>),
    UserPermission(u64, ChannelPermission, PermissionType, PermissionType),
    RolePermission(u64, ChannelPermission, PermissionType, PermissionType),
    Topic(Option<Seq<char>>, Option<Seq<char>>),
    Position(i64, i64),
    Bitrate(Option<u64>, Option<u64>),
    UserLimit(Option<u64>, Option<u64>),
}

impl View for ChannelUpdateDiff {
    type V = ChannelUpdateDiffView;

    open spec fn view(&self) -> ChannelUpdateDiffView {
        match self {
            ChannelUpdateDiff::Name(from, to) => ChannelUpdateDiffView::Name(from@, to@),
            ChannelUpdateDiff::UserPermission(id, p, from, to) => ChannelUpdateDiffView::UserPermission(
                *id,
                *p,
                *from,
                *to,
            ),
            ChannelUpdateDiff::RolePermission(id, p, from, to) => ChannelUpdateDiffView::RolePermission(
                *id,
                *p,
                *from,
                *to,
            ),
            ChannelUpdateDiff::Topic(from, to) => ChannelUpdateDiffView::Topic(
                opt_view(*from),
                opt_view(*to),
            ),
            ChannelUpdateDiff::Position(from, to) => ChannelUpdateDiffView::Position(*from, *to),
            ChannelUpdateDiff::Bitrate(from, to) => ChannelUpdateDiffView::Bitrate(*from, *to),
            ChannelUpdateDiff::UserLimit(from, to) => ChannelUpdateDiffView::UserLimit(*from, *to),
        }
    }
}

impl ChannelUpdateDiff {
    /// The kind of event that the change is reported as.
    pub open spec fn template(d: ChannelUpdateDiffView) -> Template {
        match d {
            ChannelUpdateDiffView::Name(..) => Template::ChannelUpdateName,
            ChannelUpdateDiffView::UserPermission(..) => Template::ChannelUpdateUserPerms,
            ChannelUpdateDiffView::RolePermission(..) => Template::ChannelUpdateRolePerms,
            ChannelUpdateDiffView::Topic(..) => Template::ChannelUpdateTopic,
            ChannelUpdateDiffView::Position(..) => Template::ChannelUpdatePosition,
            ChannelUpdateDiffView::Bitrate(..) => Template::ChannelUpdateBitrate,
            ChannelUpdateDiffView::UserLimit(..) => Template::ChannelUpdateUserLimit,
        }
    }

    /// The kind of event that the change is reported as.
    pub fn template_kind(&self) -> (res: Template)
        ensures
            res == Self::template(self@),
    {
        match self {
            ChannelUpdateDiff::Name(..) => Template::ChannelUpdateName,
            ChannelUpdateDiff::UserPermission(..) => Template::ChannelUpdateUserPerms,
            ChannelUpdateDiff::RolePermission(..) => Template::ChannelUpdateRolePerms,
            ChannelUpdateDiff::Topic(..) => Template::ChannelUpdateTopic,
            ChannelUpdateDiff::Position(..) => Template::ChannelUpdatePosition,
            ChannelUpdateDiff::Bitrate(..) => Template::ChannelUpdateBitrate,
            ChannelUpdateDiff::UserLimit(..) => Template::ChannelUpdateUserLimit,
        }
    }

    /// A copy of the change.
    pub fn duplicate(&self) -> (res: Self)
        ensures
            res@ == self@,
    {
        match self {
            ChannelUpdateDiff::Name(from, to) => ChannelUpdateDiff::Name(from.clone(), to.clone()),
            ChannelUpdateDiff::UserPermission(id, p, from, to) => ChannelUpdateDiff::UserPermission(
                *id,
                *p,
                *from,
                *to,
            ),
            ChannelUpdateDiff::RolePermission(id, p, from, to) => ChannelUpdateDiff::RolePermission(
                *id,
                *p,
                *from,
                *to,
            ),
            ChannelUpdateDiff::Topic(from, to) => ChannelUpdateDiff::Topic(
                opt_duplicate(from),
                opt_duplicate(to),
            ),
            ChannelUpdateDiff::Position(from, to) => ChannelUpdateDiff::Position(*from, *to),
            ChannelUpdateDiff::Bitrate(from, to) => ChannelUpdateDiff::Bitrate(*from, *to),
            ChannelUpdateDiff::UserLimit(from, to) => ChannelUpdateDiff::UserLimit(*from, *to),
        }
    }
}

/// The change of the name, if it changed.
pub open spec fn name_change(c: PublicChannelView, n: PublicChannelView) -> Seq<
    ChannelUpdateDiffView,
> {
    if c.name != n.name {
        seq![ChannelUpdateDiffView::Name(c.name, n.name)]
    } else {
        Seq::empty()
    }
}

/// The change of the topic, if it changed.
pub open spec fn topic_change(c: PublicChannelView, n: PublicChannelView) -> Seq<
    ChannelUpdateDiffView,
> {
    if c.topic != n.topic {
        seq![ChannelUpdateDiffView::Topic(c.topic, n.topic)]
    } else {
        Seq::empty()
    }
}

/// The change of the position, if it changed.
pub open spec fn position_change(c: PublicChannelView, n: PublicChannelView) -> Seq<
    ChannelUpdateDiffView,
> {
    if c.position != n.position {
        seq![ChannelUpdateDiffView::Position(c.position, n.position)]
    } else {
        Seq::empty()
    }
}

/// The change of the bitrate, if it changed.
pub open spec fn bitrate_change(c: PublicChannelView, n: PublicChannelView) -> Seq<
    ChannelUpdateDiffView,
> {
    if c.bitrate != n.bitrate {
        seq![ChannelUpdateDiffView::Bitrate(c.bitrate, n.bitrate)]
    } else {
        Seq::empty()
    }
}

/// The change of the user limit, if it changed.
pub open spec fn user_limit_change(c: PublicChannelView, n: PublicChannelView) -> Seq<
    ChannelUpdateDiffView,
> {
    if c.user_limit != n.user_limit {
        seq![ChannelUpdateDiffView::UserLimit(c.user_limit, n.user_limit)]
    } else {
        Seq::empty()
    }
}

/// Whom the overwrites of the list are for, in the order of the list.
pub open spec fn kinds(list: Seq<PermissionOverwrite>) -> Seq<PermissionOverwriteType> {
    Seq::new(list.len(), |i: int| list[i].kind)
}

/// The members and roles that an overwrite of either list is for, each once:
/// those of the new list in its order, then those that only the old list
/// names, in its order.
pub open spec fn subjects(old: Seq<PermissionOverwrite>, new: Seq<PermissionOverwrite>) -> Seq<
    PermissionOverwriteType,
> {
    fresh_items(kinds(new), Seq::empty()) + fresh_items(kinds(old), kinds(new))
}

/// The sets of allowed and of denied permissions that the list holds for the
/// subject: those of its last overwrite for it, or two empty sets where it
/// has none.
pub open spec fn overwrite_of(list: Seq<PermissionOverwrite>, subject: PermissionOverwriteType) -> (
    Permissions,
    Permissions,
)
    decreases list.len(),
{
    if list.len() == 0 {
        (Permissions { bits: 0 }, Permissions { bits: 0 })
    } else if list.last().kind == subject {
        (list.last().allow, list.last().deny)
    } else {
        overwrite_of(list.drop_last(), subject)
    }
}

/// The record of one permission's change of state for a member or a role.
pub open spec fn permission_record(
    subject: PermissionOverwriteType,
    t: Transition,
) -> ChannelUpdateDiffView {
    match subject {
        PermissionOverwriteType::Member(id) => ChannelUpdateDiffView::UserPermission(
            id,
            t.permission,
            t.from,
            t.to,
        ),
        PermissionOverwriteType::Role(id) => ChannelUpdateDiffView::RolePermission(
            id,
            t.permission,
            t.from,
            t.to,
        ),
    }
}

/// The records of the permissions whose state changed for one subject.
pub open spec fn subject_changes(
    subject: PermissionOverwriteType,
    old: Seq<PermissionOverwrite>,
    new: Seq<PermissionOverwrite>,
) -> Seq<ChannelUpdateDiffView> {
    let before = overwrite_of(old, subject);
    let after = overwrite_of(new, subject);
    let ts = transitions(before.0, before.1, after.0, after.1);
    Seq::new(ts.len(), |i: int| permission_record(subject, ts[i]))
}

/// The records of the permissions whose state changed, subject by subject.
pub open spec fn changes_of(
    subjects: Seq<PermissionOverwriteType>,
    old: Seq<PermissionOverwrite>,
    new: Seq<PermissionOverwrite>,
) -> Seq<ChannelUpdateDiffView>
    decreases subjects.len(),
{
    if subjects.len() == 0 {
        Seq::empty()
    } else {
        changes_of(subjects.drop_last(), old, new) + subject_changes(subjects.last(), old, new)
    }
}

/// The reconciliation of the permission overwrites of a channel with those
/// of its update.
pub open spec fn permission_changes(
    old: Seq<PermissionOverwrite>,
    new: Seq<PermissionOverwrite>,
) -> Seq<ChannelUpdateDiffView> {
    changes_of(subjects(old, new), old, new)
}

/// The changes that turn the cached channel into the channel of the update:
/// name, topic, position, bitrate and user limit, then the permissions.
pub open spec fn channel_diff(c: PublicChannelView, n: PublicChannelView) -> Seq<
    ChannelUpdateDiffView,
> {
    name_change(c, n) + topic_change(c, n) + position_change(c, n) + bitrate_change(c, n)
        + user_limit_change(c, n) + permission_changes(
        c.permission_overwrites,
        n.permission_overwrites,
    )
}

/// Whom the overwrites of the list are for.
fn kinds_of(list: &Vec<PermissionOverwrite>) -> (res: Vec<PermissionOverwriteType>)
    ensures
        views(res@) == kinds(list@),
        res@ == kinds(list@),
{
    let mut res: Vec<PermissionOverwriteType> = Vec::new();
    let mut i: usize = 0;
    while i < list.len()
        invariant
            i <= list.len(),
            res.len() == i,
            forall|j: int| 0 <= j < i ==> res@[j] == list@[j].kind,
        decreases list.len() - i,
    {
        res.push(list[i].kind);
        i += 1;
    }
    assert(res@ =~= kinds(list@));
    assert(views(res@) =~= res@);
    res
}

/// The sets of allowed and of denied permissions that the list holds for the
/// subject.
pub fn lookup(list: &Vec<PermissionOverwrite>, subject: PermissionOverwriteType) -> (res: (
    Permissions,
    Permissions,
))
    ensures
        res == overwrite_of(list@, subject),
{
    let mut i: usize = list.len();
    assert(list@.take(i as int) =~= list@);
    while i > 0
        invariant
            i <= list.len(),
            overwrite_of(list@, subject) == overwrite_of(list@.take(i as int), subject),
        decreases i,
    {
        i -= 1;
        proof {
            assert(list@.take(i as int + 1).drop_last() =~= list@.take(i as int));
            assert(list@.take(i as int + 1).last() == list@[i as int]);
        }
        if list[i].kind == subject {
            return (list[i].allow, list[i].deny);
        }
    }
    (Permissions { bits: 0 }, Permissions { bits: 0 })
}

/// Appends the records of the permissions whose state changed for one
/// subject.
fn append_subject_changes(
    subject: PermissionOverwriteType,
    cached: &Vec<PermissionOverwrite>,
    update: &Vec<PermissionOverwrite>,
    out: &mut Vec<ChannelUpdateDiff>,
)
    ensures
        views(final(out)@) == views(old(out)@) + subject_changes(subject, cached@, update@),
{
    let before = lookup(cached, subject);
    let after = lookup(update, subject);
    let ts = reconcile(before.0, before.1, after.0, after.1);
    let ghost start = views(out@);
    let ghost all = subject_changes(subject, cached@, update@);
    let mut i: usize = 0;
    assert(views(out@) =~= start + all.take(0));
    while i < ts.len()
        invariant
            i <= ts.len(),
            ts@.len() == all.len(),
            forall|j: int| 0 <= j < ts.len() ==> all[j] == permission_record(subject, ts@[j]),
            views(out@) == start + all.take(i as int),
        decreases ts.len() - i,
    {
        let t = ts[i];
        let record = match subject {
            PermissionOverwriteType::Member(id) => ChannelUpdateDiff::UserPermission(
                id,
                t.permission,
                t.from,
                t.to,
            ),
            PermissionOverwriteType::Role(id) => ChannelUpdateDiff::RolePermission(
                id,
                t.permission,
                t.from,
                t.to,
            ),
        };
        push_record(record, out);
        assert(views(out@) =~= start + all.take(i as int + 1));
        i += 1;
    }
    assert(all.take(ts.len() as int) =~= all);
}

/// Appends the records of the subjects of the list.
fn append_changes_of(
    list: &Vec<PermissionOverwriteType>,
    cached: &Vec<PermissionOverwrite>,
    update: &Vec<PermissionOverwrite>,
    out: &mut Vec<ChannelUpdateDiff>,
)
    ensures
        views(final(out)@) == views(old(out)@) + changes_of(list@, cached@, update@),
{
    let ghost start = views(out@);
    let mut i: usize = 0;
    assert(list@.take(0) =~= Seq::empty());
    assert(views(out@) =~= start + changes_of(list@.take(0), cached@, update@));
    while i < list.len()
        invariant
            i <= list.len(),
            views(out@) == start + changes_of(list@.take(i as int), cached@, update@),
        decreases list.len() - i,
    {
        proof {
            assert(list@.take(i as int + 1).drop_last() =~= list@.take(i as int));
            assert(list@.take(i as int + 1).last() == list@[i as int]);
        }
        append_subject_changes(list[i], cached, update, out);
        assert(views(out@) =~= start + changes_of(list@.take(i as int + 1), cached@, update@));
        i += 1;
    }
    assert(list@.take(list.len() as int) =~= list@);
}

/// The changes of `changes_of` for the subjects of two lists in a row.
proof fn lemma_changes_of_add(
    a: Seq<PermissionOverwriteType>,
    b: Seq<PermissionOverwriteType>,
    old: Seq<PermissionOverwrite>,
    new: Seq<PermissionOverwrite>,
)
    ensures
        changes_of(a + b, old, new) == changes_of(a, old, new) + changes_of(b, old, new),
    decreases b.len(),
{
    if b.len() == 0 {
        assert(a + b =~= a);
        assert(changes_of(a, old, new) + changes_of(b, old, new) =~= changes_of(a, old, new));
    } else {
        assert((a + b).drop_last() =~= a + b.drop_last());
        assert((a + b).last() == b.last());
        lemma_changes_of_add(a, b.drop_last(), old, new);
        assert(changes_of(a + b, old, new) =~= changes_of(a, old, new) + changes_of(b, old, new));
    }
}

/// Appends the reconciliation of the permission overwrites of a channel with
/// those of its update.
pub fn append_permission_changes(
    cached: &Vec<PermissionOverwrite>,
    update: &Vec<PermissionOverwrite>,
    out: &mut Vec<ChannelUpdateDiff>,
)
    ensures
        views(final(out)@) == views(old(out)@) + permission_changes(cached@, update@),
{
    let ghost start = views(out@);
    let cached_kinds = kinds_of(cached);
    let update_kinds = kinds_of(update);
    let none: Vec<PermissionOverwriteType> = Vec::new();
    assert(views(none@) =~= Seq::empty());
    let first = fresh_items_of(&update_kinds, &none);
    let second = fresh_items_of(&cached_kinds, &update_kinds);
    assert(views(first@) =~= first@);
    assert(views(second@) =~= second@);
    append_changes_of(&first, cached, update, out);
    append_changes_of(&second, cached, update, out);
    proof {
        lemma_changes_of_add(first@, second@, cached@, update@);
        assert(views(out@) =~= start + permission_changes(cached@, update@));
    }
}

impl Diff for PublicChannel {
    type Other = PublicChannel;

    type Output = ChannelUpdateDiff;

    /// The changes that turn the channel into the channel of the update.
    fn diff(&self, other: &PublicChannel) -> (res: Result<Vec<ChannelUpdateDiff>, Error>)
        ensures
            res is Ok,
            views(res->Ok_0@) == channel_diff(self@, other@),
    {
        let mut res: Vec<ChannelUpdateDiff> = Vec::new();
        let ghost c = self@;
        let ghost n = other@;
        assert(views(res@) =~= Seq::empty());
        proof {
            lemma_nothing_pushed(res@);
        }
        if !self.name.same(&other.name) {
            push_record(ChannelUpdateDiff::Name(self.name.clone(), other.name.clone()), &mut res);
        }
        assert(views(res@) =~= name_change(c, n));
        proof {
            lemma_nothing_pushed(res@);
        }
        if !opt_same(&self.topic, &other.topic) {
            push_record(
                ChannelUpdateDiff::Topic(opt_duplicate(&self.topic), opt_duplicate(&other.topic)),
                &mut res,
            );
        }
        assert(views(res@) == name_change(c, n) + topic_change(c, n));
        proof {
            lemma_nothing_pushed(res@);
        }
        if self.position != other.position {
            push_record(ChannelUpdateDiff::Position(self.position, other.position), &mut res);
        }
        assert(views(res@) == name_change(c, n) + topic_change(c, n) + position_change(c, n));
        proof {
            lemma_nothing_pushed(res@);
        }
        if !opt_same(&self.bitrate, &other.bitrate) {
            push_record(ChannelUpdateDiff::Bitrate(self.bitrate, other.bitrate), &mut res);
        }
        assert(views(res@) == name_change(c, n) + topic_change(c, n) + position_change(c, n)
            + bitrate_change(c, n));
        proof {
            lemma_nothing_pushed(res@);
        }
        if !opt_same(&self.user_limit, &other.user_limit) {
            push_record(ChannelUpdateDiff::UserLimit(self.user_limit, other.user_limit), &mut res);
        }
        assert(views(res@) == name_change(c, n) + topic_change(c, n) + position_change(c, n)
            + bitrate_change(c, n) + user_limit_change(c, n));
        append_permission_changes(
            &self.permission_overwrites,
            &other.permission_overwrites,
            &mut res,
        );
        Ok(res)
    }
}

} // verus!
