//! The changes to a member: roles given and taken, and the nickname.

use crate::diff::Diff;
use crate::errors::Error;
use crate::items::{
    append_delta, remove_matching, without_first, collection_delta, fresh_items, lemma_fresh_items, lemma_pick_add, lemma_pick_all,
    lemma_pick_none, pick, records, CollectionDelta,
};
use crate::model::{
    lemma_views_push, opt_duplicate, opt_same, opt_view, views, Member, MemberView,
    ServerMemberUpdate, ServerMemberUpdateView,
};
use vstd::prelude::*;

verus! {

/// One change to a member.
#[derive(Debug, PartialEq)]
pub enum MemberUpdateDiff {
    RoleAdded(u64),
    RoleRemoved(u64),
    NickChanged(Option<String>, Option<String>),
}

/// The view of `MemberUpdateDiff`: what it holds as mathematical values.
pub enum MemberUpdateDiffView {
    RoleAdded(u64),
    RoleRemoved(u64),
    NickChanged(Option<Seq<char>>, Option<Seq<char>>),
}

impl View for MemberUpdateDiff {
    type V = MemberUpdateDiffView;

    open spec fn view(&self) -> MemberUpdateDiffView {
        match self {
            MemberUpdateDiff::RoleAdded(id) => MemberUpdateDiffView::RoleAdded(*id),
            MemberUpdateDiff::RoleRemoved(id) => MemberUpdateDiffView::RoleRemoved(*id),
            MemberUpdateDiff::NickChanged(from, to) => MemberUpdateDiffView::NickChanged(
                opt_view(*from),
                opt_view(*to),
            ),
        }
    }
}

impl CollectionDelta<u64> for MemberUpdateDiff {
    open spec fn added_record(item: u64) -> MemberUpdateDiffView {
        MemberUpdateDiffView::RoleAdded(item)
    }

    open spec fn removed_record(item: u64) -> MemberUpdateDiffView {
        MemberUpdateDiffView::RoleRemoved(item)
    }

    fn added(item: u64) -> (res: Self) {
        MemberUpdateDiff::RoleAdded(item)
    }

    fn removed(item: u64) -> (res: Self) {
        MemberUpdateDiff::RoleRemoved(item)
    }
}

/// The change of the nickname, if it changed.
pub open spec fn nick_changed(old: Option<Seq<char>>, new: Option<Seq<char>>) -> Seq<
    MemberUpdateDiffView,
> {
    if old != new {
        seq![MemberUpdateDiffView::NickChanged(old, new)]
    } else {
        Seq::empty()
    }
}

/// The changes that turn the cached member into what the update describes:
/// the roles given, the roles taken, then the nickname.
pub open spec fn member_diff(member: MemberView, update: ServerMemberUpdateView) -> Seq<
    MemberUpdateDiffView,
> {
    collection_delta::<u64, MemberUpdateDiff>(member.roles, update.roles) + nick_changed(
        member.nick,
        update.nick,
    )
}

/// The roles that the records of `diffs` report as given.
pub open spec fn roles_given(diffs: Seq<MemberUpdateDiffView>) -> Seq<u64> {
    pick(
        diffs,
        |d: MemberUpdateDiffView|
            match d {
                MemberUpdateDiffView::RoleAdded(id) => Some(id),
                _ => None,
            },
    )
}

/// The roles that the records of `diffs` report as taken.
pub open spec fn roles_taken(diffs: Seq<MemberUpdateDiffView>) -> Seq<u64> {
    pick(
        diffs,
        |d: MemberUpdateDiffView|
            match d {
                MemberUpdateDiffView::RoleRemoved(id) => Some(id),
                _ => None,
            },
    )
}

/// The difference reports as given exactly the roles that only the update
/// holds and as taken exactly the roles that only the cached member holds,
/// each once; no role is reported as both.
pub proof fn law_member_role_diff(member: MemberView, update: ServerMemberUpdateView)
    ensures
        roles_given(member_diff(member, update)).no_duplicates(),
        roles_taken(member_diff(member, update)).no_duplicates(),
        roles_given(member_diff(member, update)).to_set() == update.roles.to_set().difference(
            member.roles.to_set(),
        ),
        roles_taken(member_diff(member, update)).to_set() == member.roles.to_set().difference(
            update.roles.to_set(),
        ),
        roles_given(member_diff(member, update)).len() == update.roles.to_set().difference(
            member.roles.to_set(),
        ).len(),
        roles_taken(member_diff(member, update)).len() == member.roles.to_set().difference(
            update.roles.to_set(),
        ).len(),
        forall|id: u64|
            !(roles_given(member_diff(member, update)).contains(id) && roles_taken(
                member_diff(member, update),
            ).contains(id)),
{
    let given = fresh_items(update.roles, member.roles);
    let taken = fresh_items(member.roles, update.roles);
    let a = records::<u64, MemberUpdateDiff>(true, given);
    let r = records::<u64, MemberUpdateDiff>(false, taken);
    let n = nick_changed(member.nick, update.nick);
    let pick_given = |d: MemberUpdateDiffView|
        match d {
            MemberUpdateDiffView::RoleAdded(id) => Some(id),
            _ => None,
        };
    let pick_taken = |d: MemberUpdateDiffView|
        match d {
            MemberUpdateDiffView::RoleRemoved(id) => Some(id),
            _ => None,
        };
    assert(member_diff(member, update) == a + r + n);
    lemma_pick_add(a + r, n, pick_given);
    lemma_pick_add(a, r, pick_given);
    lemma_pick_add(a + r, n, pick_taken);
    lemma_pick_add(a, r, pick_taken);
    lemma_pick_all(a, pick_given, given);
    lemma_pick_none(r, pick_given);
    lemma_pick_none(n, pick_given);
    lemma_pick_none(a, pick_taken);
    lemma_pick_all(r, pick_taken, taken);
    lemma_pick_none(n, pick_taken);
    assert(roles_given(member_diff(member, update)) =~= given);
    assert(roles_taken(member_diff(member, update)) =~= taken);
    lemma_fresh_items(update.roles, member.roles);
    lemma_fresh_items(member.roles, update.roles);
}

impl Diff for Member {
    type Other = ServerMemberUpdate;

    type Output = MemberUpdateDiff;

    /// The changes that turn the member into what the update describes.
    fn diff(&self, other: &ServerMemberUpdate) -> (res: Result<Vec<MemberUpdateDiff>, Error>)
        ensures
            res is Ok,
            views(res->Ok_0@) == member_diff(self@, other@),
    {
        let mut res: Vec<MemberUpdateDiff> = Vec::new();
        assert(views(res@) =~= Seq::empty());
        append_delta(&self.roles, &other.roles, &mut res);
        let ghost before = res@;
        if !opt_same(&self.nick, &other.nick) {
            let record = MemberUpdateDiff::NickChanged(
                opt_duplicate(&self.nick),
                opt_duplicate(&other.nick),
            );
            proof {
                lemma_views_push(before, record);
            }
            res.push(record);
        }
        assert(views(res@) =~= member_diff(self@, other@));
        Ok(res)
    }
}

/// The member after one change was written back to it, or the failure if
/// the change takes a role that the member does not have.
pub open spec fn apply_member_diff(m: MemberView, d: MemberUpdateDiffView) -> Result<
    MemberView,
    Error,
> {
    match d {
        MemberUpdateDiffView::RoleAdded(id) => Ok(MemberView { roles: m.roles.push(id), ..m }),
        MemberUpdateDiffView::RoleRemoved(id) => match without_first::<u64>(m.roles, id) {
            Some(rest) => Ok(MemberView { roles: rest, ..m }),
            None => Err(Error::MissingRole(id)),
        },
        MemberUpdateDiffView::NickChanged(_, to) => Ok(MemberView { nick: to, ..m }),
    }
}

/// The member after the changes were written back to it one after the other,
/// up to the first that fails, and that failure if there is one.
pub open spec fn apply_each(m: MemberView, diffs: Seq<MemberUpdateDiffView>) -> (
    MemberView,
    Option<Error>,
)
    decreases diffs.len(),
{
    if diffs.len() == 0 {
        (m, None)
    } else {
        match apply_member_diff(m, diffs[0]) {
            Ok(next) => apply_each(next, diffs.skip(1)),
            Err(e) => (m, Some(e)),
        }
    }
}

impl MemberUpdateDiff {
    /// A copy of the change.
    pub fn duplicate(&self) -> (res: Self)
        ensures
            res@ == self@,
    {
        match self {
            MemberUpdateDiff::RoleAdded(id) => MemberUpdateDiff::RoleAdded(*id),
            MemberUpdateDiff::RoleRemoved(id) => MemberUpdateDiff::RoleRemoved(*id),
            MemberUpdateDiff::NickChanged(from, to) => MemberUpdateDiff::NickChanged(
                opt_duplicate(from),
                opt_duplicate(to),
            ),
        }
    }

    /// Writes the change back to the cached member. Where the change takes a
    /// role that the member does not have, the member stays as it is and the
    /// failure is reported.
    pub fn apply(&self, member: &mut Member) -> (res: Result<(), Error>)
        ensures
            match apply_member_diff(old(member)@, self@) {
                Ok(m) => res is Ok && final(member)@ == m,
                Err(e) => res == Err::<(), Error>(e) && final(member)@ == old(member)@,
            },
    {
        match self {
            MemberUpdateDiff::RoleAdded(id) => {
                proof {
                    lemma_views_push(member.roles@, *id);
                }
                member.roles.push(*id);
            },
            MemberUpdateDiff::RoleRemoved(id) => {
                if !remove_matching(&mut member.roles, id) {
                    return Err(Error::MissingRole(*id));
                }
            },
            MemberUpdateDiff::NickChanged(_, to) => {
                member.nick = opt_duplicate(to);
            },
        }
        Ok(())
    }
}

/// Writes the changes back to the cached member, one after the other. At the
/// first that fails, the member keeps what was written before and the failure
/// is reported.
pub fn apply_all(diffs: &Vec<MemberUpdateDiff>, member: &mut Member) -> (res: Result<(), Error>)
    ensures
        final(member)@ == apply_each(old(member)@, views(diffs@)).0,
        res == match apply_each(old(member)@, views(diffs@)).1 {
            None => Ok::<(), Error>(()),
            Some(e) => Err::<(), Error>(e),
        },
{
    let ghost all = views(diffs@);
    let mut i: usize = 0;
    assert(all.skip(0) =~= all);
    while i < diffs.len()
        invariant
            i <= diffs.len(),
            all == views(diffs@),
            apply_each(old(member)@, all) == apply_each(member@, all.skip(i as int)),
        decreases diffs.len() - i,
    {
        proof {
            assert(all.skip(i as int)[0] == diffs@[i as int]@);
            assert(all.skip(i as int).skip(1) =~= all.skip(i as int + 1));
        }
        match diffs[i].apply(member) {
            Ok(()) => {},
            Err(e) => {
                return Err(e);
            },
        }
        i += 1;
    }
    Ok(())
}

} // verus!
