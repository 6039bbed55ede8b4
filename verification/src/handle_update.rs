//! What a change to a member, to the emojis or to a channel does to the
//! mirror of a community.

use crate::config::Template;
use crate::context::{prefixed, ContextMap, LogOutcome, LogOutcomeView};
use crate::diff::channel::{channel_diff, ChannelUpdateDiff, ChannelUpdateDiffView};
use crate::diff::emoji::{emoji_diff, EmojisUpdateDiff, EmojisUpdateDiffView};
use crate::diff::member::{member_diff, MemberUpdateDiff, MemberUpdateDiffView};
use crate::diff::Diff;
use crate::errors::Error;
use crate::handle::{failed, handled, Step};
use crate::merge_into_map::{
    channel_diff_values, channel_values, emoji_values, member_values, put, role_values,
    MergeIntoMap, Values,
};
use crate::model::{
    views, Emoji, EmojiView, Item, Member, MemberView, PublicChannel, PublicChannelView,
    ServerMemberUpdate, ServerMemberUpdateView,
};
use crate::server::{notice, store, Server, ServerView};
use crate::text::{decimal, or_none, text_or_none, u64_to_string};
use vstd::prelude::*;

verus! {

broadcast use vstd::std_specs::hash::group_hash_axioms;

/// The lines of one change to a member `m`, as it was before the update. A
/// change of a role names the role, which must be cached.
pub open spec fn member_change_notice(
    s: ServerView,
    m: MemberView,
    d: MemberUpdateDiffView,
) -> Result<Seq<LogOutcomeView>, Error> {
    match d {
        MemberUpdateDiffView::RoleAdded(role_id) => if !s.roles.contains_key(role_id) {
            Err(Error::UncachedRole(role_id))
        } else {
            Ok(
                notice(
                    s,
                    Template::ServerMemberRoleAdd,
                    prefixed(role_values(s.roles[role_id]), "role_"@).union_prefer_right(
                        prefixed(member_values(m), "member_"@),
                    ),
                ),
            )
        },
        MemberUpdateDiffView::RoleRemoved(role_id) => if !s.roles.contains_key(role_id) {
            Err(Error::UncachedRole(role_id))
        } else {
            Ok(
                notice(
                    s,
                    Template::ServerMemberRoleRemove,
                    prefixed(role_values(s.roles[role_id]), "role_"@).union_prefer_right(
                        prefixed(member_values(m), "member_"@),
                    ),
                ),
            )
        },
        MemberUpdateDiffView::NickChanged(from, to) => Ok(
            notice(
                s,
                Template::ServerMemberNickChange,
                prefixed(member_values(m), "member_"@).insert("from"@, or_none(from)).insert(
                    "to"@,
                    or_none(to),
                ),
            ),
        ),
    }
}

/// The lines of the changes to a member, one after the other, up to the
/// first that names a role that is not cached, which is a failure.
pub open spec fn member_changes_reported(
    s: ServerView,
    m: MemberView,
    diffs: Seq<MemberUpdateDiffView>,
) -> (Seq<LogOutcomeView>, Option<Error>)
    decreases diffs.len(),
{
    if diffs.len() == 0 {
        (Seq::empty(), None)
    } else {
        match member_change_notice(s, m, diffs[0]) {
            Ok(lines) => {
                let rest = member_changes_reported(s, m, diffs.skip(1));
                (lines + rest.0, rest.1)
            },
            Err(e) => (Seq::empty(), Some(e)),
        }
    }
}

/// A member was changed: the changes are written back to the cached member
/// and reported, or that nothing changed. A member that is not cached, and a
/// change that cannot be written back, are failures.
pub open spec fn member_updated(s: ServerView, u: ServerMemberUpdateView) -> Step {
    let id = u.user.id;
    if !s.members.contains_key(id) {
        failed(s, Error::UncachedMember(id))
    } else {
        let m = s.members[id];
        let diffs = member_diff(m, u);
        let applied = crate::diff::member::apply_each(m, diffs);
        let stored = ServerView { members: s.members.insert(id, applied.0), ..s };
        if applied.1 is Some {
            failed(stored, applied.1->0)
        } else if diffs.len() == 0 {
            Step {
                server: stored,
                outcomes: notice(
                    stored,
                    Template::ServerMemberNoChange,
                    prefixed(member_values(m), "member_"@),
                ),
                failure: None,
            }
        } else {
            let reported = member_changes_reported(stored, m, diffs);
            Step { server: stored, outcomes: reported.0, failure: reported.1 }
        }
    }
}

/// The lines of one change to the emojis.
pub open spec fn emoji_change_notice(s: ServerView, d: EmojisUpdateDiffView) -> Seq<
    LogOutcomeView,
> {
    match d {
        EmojisUpdateDiffView::EmojiAdded(e) => notice(
            s,
            Template::ServerEmojiAdd,
            prefixed(emoji_values(e), "emoji_"@),
        ),
        EmojisUpdateDiffView::EmojiRemoved(e) => notice(
            s,
            Template::ServerEmojiRemove,
            prefixed(emoji_values(e), "emoji_"@),
        ),
        EmojisUpdateDiffView::NameChanged(id, from, to) => notice(
            s,
            Template::ServerEmojiNameChange,
            Map::empty().insert("emoji_id"@, decimal(id as nat)).insert("from"@, from).insert(
                "to"@,
                to,
            ),
        ),
    }
}

/// The lines of the changes to the emojis, one after the other.
pub open spec fn emoji_changes_reported(s: ServerView, diffs: Seq<EmojisUpdateDiffView>) -> Seq<
    LogOutcomeView,
>
    decreases diffs.len(),
{
    if diffs.len() == 0 {
        Seq::empty()
    } else {
        emoji_changes_reported(s, diffs.drop_last()) + emoji_change_notice(s, diffs.last())
    }
}

/// The emojis of a community were changed: the changes are written back and
/// then reported. A change that cannot be written back is a failure.
pub open spec fn emojis_updated(s: ServerView, update: Seq<EmojiView>) -> Step {
    let diffs = emoji_diff(s.emojis, update);
    let applied = crate::diff::emoji::apply_each(s.emojis, diffs);
    let stored = ServerView { emojis: applied.0, ..s };
    if applied.1 is Some {
        failed(stored, applied.1->0)
    } else {
        Step { server: stored, outcomes: emoji_changes_reported(stored, diffs), failure: None }
    }
}

/// A channel was created: it is stored, and reported unless its id was
/// cached, which is a failure.
pub open spec fn channel_created(s: ServerView, c: PublicChannelView) -> Step {
    let stored = ServerView { channels: s.channels.insert(c.id, c), ..s };
    if s.channels.contains_key(c.id) {
        failed(stored, Error::DuplicateChannel(c.id))
    } else {
        Step {
            server: stored,
            outcomes: notice(stored, Template::ChannelCreate, channel_values(c)),
            failure: None,
        }
    }
}

/// The values that every change of one update of a channel hands on.
pub open spec fn channel_context(c: PublicChannelView) -> Values {
    Map::empty().insert("channel_id"@, decimal(c.id as nat)).insert("channel_name"@, c.name)
}

/// The lines of the changes to a channel, one after the other.
pub open spec fn channel_changes_reported(
    s: ServerView,
    base: Values,
    diffs: Seq<ChannelUpdateDiffView>,
) -> Seq<LogOutcomeView>
    decreases diffs.len(),
{
    if diffs.len() == 0 {
        Seq::empty()
    } else {
        channel_changes_reported(s, base, diffs.drop_last()) + notice(
            s,
            ChannelUpdateDiff::template(diffs.last()),
            base.union_prefer_right(channel_diff_values(diffs.last())),
        )
    }
}

/// A channel was changed: the channel of the update takes the place of the
/// cached one, and every change is reported, or that nothing changed. A
/// channel that was not cached is a failure.
pub open spec fn channel_updated(s: ServerView, c: PublicChannelView) -> Step {
    let stored = ServerView { channels: s.channels.insert(c.id, c), ..s };
    if !s.channels.contains_key(c.id) {
        failed(stored, Error::UncachedChannel(c.id))
    } else {
        let diffs = channel_diff(s.channels[c.id], c);
        if diffs.len() == 0 {
            Step {
                server: stored,
                outcomes: notice(stored, Template::ChannelUpdateNoChange, channel_context(c)),
                failure: None,
            }
        } else {
            Step {
                server: stored,
                outcomes: channel_changes_reported(stored, channel_context(c), diffs),
                failure: None,
            }
        }
    }
}

impl Server {
    /// Reports the changes to a member.
    fn report_member_changes(
        &self,
        member: &Member,
        diffs: &Vec<MemberUpdateDiff>,
        out: &mut Vec<LogOutcome>,
    ) -> (res: Result<(), Error>)
        ensures
            views(final(out)@) == views(old(out)@) + member_changes_reported(
                self@,
                member@,
                views(diffs@),
            ).0,
            res == crate::handle::as_result(
                member_changes_reported(self@, member@, views(diffs@)).1,
            ),
    {
        let ghost all = views(diffs@);
        let ghost start = views(out@);
        let ghost goal = member_changes_reported(self@, member@, all);
        let ghost mut done = Seq::<LogOutcomeView>::empty();
        let mut failure: Option<Error> = None;
        let mut i: usize = 0;
        proof {
            assert(all.skip(0) =~= all);
            assert(start + done =~= start);
            assert(done + goal.0 =~= goal.0);
        }
        while i < diffs.len() && failure.is_none()
            invariant
                i <= diffs.len(),
                all == views(diffs@),
                views(out@) == start + done,
                failure is Some ==> goal == (done, failure),
                failure is None ==> goal.0 == done + member_changes_reported(
                    self@,
                    member@,
                    all.skip(i as int),
                ).0,
                failure is None ==> goal.1 == member_changes_reported(
                    self@,
                    member@,
                    all.skip(i as int),
                ).1,
            decreases
                    diffs.len() - i,
                    (if failure is None {
                        1nat
                    } else {
                        0nat
                    }),
        {
            let ghost todo = all.skip(i as int);
            proof {
                assert(todo.len() > 0);
                assert(todo[0] == diffs@[i as int]@);
                assert(todo.skip(1) =~= all.skip(i as int + 1));
                assert(done + Seq::<LogOutcomeView>::empty() =~= done);
            }
            let ghost lines = member_change_notice(self@, member@, todo[0]);
            let ghost rest = member_changes_reported(self@, member@, all.skip(i as int + 1));
            match &diffs[i] {
                MemberUpdateDiff::RoleAdded(role_id) => {
                    match self.role(*role_id) {
                        Ok(role) => {
                            let mut values = ContextMap::new();
                            let _ = role.duplicate().merge_into_map_prefix(&mut values, "role_");
                            let _ = member.duplicate().merge_into_map_prefix(
                                &mut values,
                                "member_",
                            );
                            assert(values@ =~= prefixed(
                                role_values(self@.roles[*role_id]),
                                "role_"@,
                            ).union_prefer_right(prefixed(member_values(member@), "member_"@)));
                            self.notify(Template::ServerMemberRoleAdd, &values, out);
                        },
                        Err(e) => {
                            failure = Some(e);
                        },
                    }
                },
                MemberUpdateDiff::RoleRemoved(role_id) => {
                    match self.role(*role_id) {
                        Ok(role) => {
                            let mut values = ContextMap::new();
                            let _ = role.duplicate().merge_into_map_prefix(&mut values, "role_");
                            let _ = member.duplicate().merge_into_map_prefix(
                                &mut values,
                                "member_",
                            );
                            assert(values@ =~= prefixed(
                                role_values(self@.roles[*role_id]),
                                "role_"@,
                            ).union_prefer_right(prefixed(member_values(member@), "member_"@)));
                            self.notify(Template::ServerMemberRoleRemove, &values, out);
                        },
                        Err(e) => {
                            failure = Some(e);
                        },
                    }
                },
                MemberUpdateDiff::NickChanged(from, to) => {
                    let mut values = ContextMap::new();
                    let _ = member.duplicate().merge_into_map_prefix(&mut values, "member_");
                    assert(values@ =~= prefixed(member_values(member@), "member_"@));
                    put(&mut values, "from", text_or_none(crate::model::opt_duplicate(from)));
                    put(&mut values, "to", text_or_none(crate::model::opt_duplicate(to)));
                    self.notify(Template::ServerMemberNickChange, &values, out);
                },
            }
            if failure.is_none() {
                proof {
                    assert(views(out@) =~= start + (done + lines->Ok_0));
                    assert(done + (lines->Ok_0 + rest.0) =~= (done + lines->Ok_0) + rest.0);
                    done = done + lines->Ok_0;
                }
                i += 1;
            }
        }
        match failure {
            Some(e) => Err(e),
            None => {
                proof {
                    assert(all.skip(diffs.len() as int).len() == 0);
                    assert(done + Seq::<LogOutcomeView>::empty() =~= done);
                }
                Ok(())
            },
        }
    }

    /// A member was changed.
    pub fn on_member_update(&mut self, update: ServerMemberUpdate, out: &mut Vec<LogOutcome>) -> (res:
        Result<(), Error>)
        ensures
            handled(final(self)@, old(out)@, final(out)@, res, member_updated(old(self)@, update@)),
    {
        proof {
            crate::items::lemma_nothing_pushed(out@);
        }
        let id = update.user.id;
        let mut member = match self.remove_member(id) {
            Ok(m) => m,
            Err(e) => {
                assert(self@.members =~= old(self)@.members);
                return Err(e);
            },
        };
        let before = member.duplicate();
        let diffs = before.diff(&update)?;
        let applied = crate::diff::member::apply_all(&diffs, &mut member);
        store(&mut self.members, id, member);
        assert(self@.members =~= old(self)@.members.insert(id, member@));
        applied?;
        if diffs.len() == 0 {
            let values = before.into_map_prefix("member_")?;
            self.notify(Template::ServerMemberNoChange, &values, out);
            Ok(())
        } else {
            self.report_member_changes(&before, &diffs, out)
        }
    }

    /// Reports the changes to the emojis.
    fn report_emoji_changes(&self, diffs: &Vec<EmojisUpdateDiff>, out: &mut Vec<LogOutcome>)
        ensures
            views(final(out)@) == views(old(out)@) + emoji_changes_reported(self@, views(diffs@)),
    {
        let ghost all = views(diffs@);
        let ghost start = views(out@);
        let mut i: usize = 0;
        proof {
            assert(all.take(0) =~= Seq::empty());
            assert(start =~= start + emoji_changes_reported(self@, all.take(0)));
        }
        while i < diffs.len()
            invariant
                i <= diffs.len(),
                all == views(diffs@),
                views(out@) == start + emoji_changes_reported(self@, all.take(i as int)),
            decreases diffs.len() - i,
        {
            proof {
                assert(all.take(i as int + 1).drop_last() =~= all.take(i as int));
                assert(all.take(i as int + 1).last() == diffs@[i as int]@);
            }
            let mut values = ContextMap::new();
            let kind = match &diffs[i] {
                EmojisUpdateDiff::EmojiAdded(emoji) => {
                    let _ = emoji.duplicate().merge_into_map_prefix(&mut values, "emoji_");
                    assert(values@ =~= prefixed(emoji_values(emoji@), "emoji_"@));
                    Template::ServerEmojiAdd
                },
                EmojisUpdateDiff::EmojiRemoved(emoji) => {
                    let _ = emoji.duplicate().merge_into_map_prefix(&mut values, "emoji_");
                    assert(values@ =~= prefixed(emoji_values(emoji@), "emoji_"@));
                    Template::ServerEmojiRemove
                },
                EmojisUpdateDiff::NameChanged(id, from, to) => {
                    put(&mut values, "emoji_id", u64_to_string(*id));
                    put(&mut values, "from", from.clone());
                    put(&mut values, "to", to.clone());
                    Template::ServerEmojiNameChange
                },
            };
            self.notify(kind, &values, out);
            assert(views(out@) =~= start + emoji_changes_reported(self@, all.take(i as int + 1)));
            i += 1;
        }
        assert(all.take(diffs.len() as int) =~= all);
    }

    /// The emojis of the community were changed. `update` is the complete
    /// list of its emojis.
    pub fn on_emojis_update(&mut self, update: Vec<Emoji>, out: &mut Vec<LogOutcome>) -> (res:
        Result<(), Error>)
        ensures
            handled(
                final(self)@,
                old(out)@,
                final(out)@,
                res,
                emojis_updated(old(self)@, views(update@)),
            ),
    {
        proof {
            crate::items::lemma_nothing_pushed(out@);
        }
        let diffs = self.emojis.diff(&update)?;
        crate::diff::emoji::apply_all(&diffs, &mut self.emojis)?;
        self.report_emoji_changes(&diffs, out);
        Ok(())
    }

    /// A channel was created.
    pub fn on_channel_create(&mut self, channel: PublicChannel, out: &mut Vec<LogOutcome>) -> (res:
        Result<(), Error>)
        ensures
            handled(
                final(self)@,
                old(out)@,
                final(out)@,
                res,
                channel_created(old(self)@, channel@),
            ),
    {
        proof {
            crate::items::lemma_nothing_pushed(out@);
        }
        let copy = channel.duplicate();
        self.add_channel(channel)?;
        let values = copy.into_map()?;
        self.notify(Template::ChannelCreate, &values, out);
        Ok(())
    }

    /// Reports the changes to a channel.
    fn report_channel_changes(
        &self,
        base: &ContextMap,
        diffs: &Vec<ChannelUpdateDiff>,
        out: &mut Vec<LogOutcome>,
    )
        ensures
            views(final(out)@) == views(old(out)@) + channel_changes_reported(
                self@,
                base@,
                views(diffs@),
            ),
    {
        let ghost all = views(diffs@);
        let ghost start = views(out@);
        let mut i: usize = 0;
        proof {
            assert(all.take(0) =~= Seq::empty());
            assert(start =~= start + channel_changes_reported(self@, base@, all.take(0)));
        }
        while i < diffs.len()
            invariant
                i <= diffs.len(),
                all == views(diffs@),
                views(out@) == start + channel_changes_reported(self@, base@, all.take(i as int)),
            decreases diffs.len() - i,
        {
            proof {
                assert(all.take(i as int + 1).drop_last() =~= all.take(i as int));
                assert(all.take(i as int + 1).last() == diffs@[i as int]@);
            }
            let mut values = base.duplicate();
            let _ = diffs[i].duplicate().merge_into_map(&mut values);
            self.notify(diffs[i].template_kind(), &values, out);
            assert(views(out@) =~= start + channel_changes_reported(
                self@,
                base@,
                all.take(i as int + 1),
            ));
            i += 1;
        }
        assert(all.take(diffs.len() as int) =~= all);
    }

    /// A channel was changed. `channel` is the complete channel as it is
    /// now.
    pub fn on_channel_update(&mut self, channel: PublicChannel, out: &mut Vec<LogOutcome>) -> (res:
        Result<(), Error>)
        ensures
            handled(
                final(self)@,
                old(out)@,
                final(out)@,
                res,
                channel_updated(old(self)@, channel@),
            ),
    {
        proof {
            crate::items::lemma_nothing_pushed(out@);
        }
        let copy = channel.duplicate();
        let cached = self.replace_channel(channel)?;
        let diffs = cached.diff(&copy)?;
        let mut base = ContextMap::new();
        put(&mut base, "channel_id", u64_to_string(copy.id));
        put(&mut base, "channel_name", copy.name);
        if diffs.len() == 0 {
            self.notify(Template::ChannelUpdateNoChange, &base, out);
        } else {
            self.report_channel_changes(&base, &diffs, out);
        }
        Ok(())
    }
}

} // verus!
