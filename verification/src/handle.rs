//! What each event does to the mirror of a community, and which lines it
//! gives rise to.

use crate::config::Template;
use crate::context::{line_outcome, log, LogOutcome, LogOutcomeView};
use crate::errors::Error;
use crate::merge_into_map::{
    member_values, message_delete_values, message_named, reaction_values, role_values,
    user_values, MergeIntoMap, Values,
};
use crate::model::{
    views, Item, Member, MemberView, Message, MessageDelete, MessageView, Reaction, ReactionView,
    Role, RoleView, User, UserView,
};
use crate::context::prefixed;
use crate::server::{notice, Server, ServerView};
use crate::text::{decimal, text, u64_to_string};
use vstd::prelude::*;
use vstd::string::StringExecFns;

verus! {

/// What an event did: the mirror after it, the lines that it gave rise to,
/// and the failure that ended it, if one did.
pub struct Step {
    pub server: ServerView,
    pub outcomes: Seq<LogOutcomeView>,
    pub failure: Option<Error>,
}

/// The result that reports the failure, if there is one.
pub open spec fn as_result(failure: Option<Error>) -> Result<(), Error> {
    match failure {
        None => Ok(()),
        Some(e) => Err(e),
    }
}

/// The event left the mirror, the lines and the result as `step` says.
pub open spec fn handled(
    after: ServerView,
    lines_before: Seq<LogOutcome>,
    lines_after: Seq<LogOutcome>,
    res: Result<(), Error>,
    step: Step,
) -> bool {
    &&& after == step.server
    &&& views(lines_after) == views(lines_before) + step.outcomes
    &&& res == as_result(step.failure)
}

/// An event that changed nothing but for a failure.
pub open spec fn failed(s: ServerView, e: Error) -> Step {
    Step { server: s, outcomes: Seq::empty(), failure: Some(e) }
}

/// A member joined: it is stored, and reported unless its user id was
/// cached, which is a failure.
pub open spec fn member_added(s: ServerView, m: MemberView) -> Step {
    let stored = ServerView { members: s.members.insert(m.user.id, m), ..s };
    if s.members.contains_key(m.user.id) {
        failed(stored, Error::DuplicateMember(m.user.id))
    } else {
        Step {
            server: stored,
            outcomes: notice(stored, Template::ServerMemberAdd, member_values(m)),
            failure: None,
        }
    }
}

/// A member left: it is taken out and reported, unless it was not cached,
/// which is a failure.
pub open spec fn member_removed(s: ServerView, u: UserView) -> Step {
    if !s.members.contains_key(u.id) {
        failed(s, Error::UncachedMember(u.id))
    } else {
        let removed = ServerView { members: s.members.remove(u.id), ..s };
        Step {
            server: removed,
            outcomes: notice(removed, Template::ServerMemberRemove, user_values(u)),
            failure: None,
        }
    }
}

/// A role was created: it is stored, and reported unless its id was cached,
/// which is a failure.
pub open spec fn role_created(s: ServerView, r: RoleView) -> Step {
    let stored = ServerView { roles: s.roles.insert(r.id, r), ..s };
    if s.roles.contains_key(r.id) {
        failed(stored, Error::DuplicateRole(r.id))
    } else {
        Step {
            server: stored,
            outcomes: notice(stored, Template::ServerRoleCreate, role_values(r)),
            failure: None,
        }
    }
}

/// A role was changed: the change is reported by the id of the role. The
/// mirror keeps the role as it was.
pub open spec fn role_updated(s: ServerView, r: RoleView) -> Step {
    Step {
        server: s,
        outcomes: seq![
            line_outcome(s.log_channel, s.id, Ok("Role Changed: "@ + decimal(r.id as nat))),
        ],
        failure: None,
    }
}

/// A role was deleted: it is taken out and reported by its id, unless it was
/// not cached, which is a failure.
pub open spec fn role_deleted(s: ServerView, id: u64) -> Step {
    if !s.roles.contains_key(id) {
        failed(s, Error::UncachedRole(id))
    } else {
        let removed = ServerView { roles: s.roles.remove(id), ..s };
        Step {
            server: removed,
            outcomes: seq![
                line_outcome(s.log_channel, s.id, Ok("Role Deleted: "@ + decimal(id as nat))),
            ],
            failure: None,
        }
    }
}

/// A user was banned or a ban was lifted: it is reported.
pub open spec fn ban_changed(s: ServerView, t: Template, u: UserView) -> Step {
    Step { server: s, outcomes: notice(s, t, user_values(u)), failure: None }
}

/// The pins of a channel were acknowledged or changed: it is reported by
/// the id of the channel.
pub open spec fn pins_changed(s: ServerView, label: Seq<char>, channel_id: u64) -> Step {
    Step {
        server: s,
        outcomes: seq![
            line_outcome(s.log_channel, s.id, Ok(label + decimal(channel_id as nat))),
        ],
        failure: None,
    }
}

/// Whether a new message is reported: not the bot's own messages in the log
/// channel, which are the log itself.
pub open spec fn is_reported(s: ServerView, m: MessageView, bot_user: u64) -> bool {
    (s.log_channel is Some && m.channel_id != s.log_channel->0) || m.author.id != bot_user
}

/// A message was sent at `now`: it is cached, and reported if it is not
/// part of the log. A message of a kind without text to report is a failure.
pub open spec fn message_created(s: ServerView, now: nat, m: MessageView, bot_user: u64) -> Step {
    let stored = ServerView { messages: s.messages.insert(now, m.id, m), ..s };
    if !is_reported(s, m, bot_user) {
        Step { server: stored, outcomes: Seq::empty(), failure: None }
    } else {
        match message_named(m) {
            Ok(values) => Step {
                server: stored,
                outcomes: notice(stored, Template::MessageCreate, values),
                failure: None,
            },
            Err(e) => failed(stored, e),
        }
    }
}

/// A message was deleted: it is taken out of the cache and reported, with
/// what it held if it was cached.
pub open spec fn message_deleted(s: ServerView, d: MessageDelete) -> Step {
    let removed = ServerView { messages: s.messages.remove(d.message_id), ..s };
    if s.messages.entries.contains_key(d.message_id) {
        match message_named(s.messages.entries[d.message_id]) {
            Ok(values) => Step {
                server: removed,
                outcomes: notice(removed, Template::MessageDeleteCached, values),
                failure: None,
            },
            Err(e) => failed(removed, e),
        }
    } else {
        Step {
            server: removed,
            outcomes: notice(removed, Template::MessageDeleteUncached, message_delete_values(d)),
            failure: None,
        }
    }
}

/// The values that a reaction hands on: its own, those of the member that
/// gave it and those of its channel, and those of its message if that is
/// cached.
pub open spec fn reaction_context(s: ServerView, r: ReactionView) -> Result<Values, Error> {
    if !s.members.contains_key(r.user_id) {
        Err(Error::UncachedMember(r.user_id))
    } else if !s.channels.contains_key(r.channel_id) {
        Err(Error::UncachedChannel(r.channel_id))
    } else {
        let base = reaction_values(r).union_prefer_right(
            prefixed(member_values(s.members[r.user_id]), "user_"@),
        ).union_prefer_right(
            prefixed(crate::merge_into_map::channel_values(s.channels[r.channel_id]), "channel_"@),
        );
        if s.messages.entries.contains_key(r.message_id) {
            match message_named(s.messages.entries[r.message_id]) {
                Ok(values) => Ok(base.union_prefer_right(prefixed(values, "message_"@))),
                Err(e) => Err(e),
            }
        } else {
            Ok(base)
        }
    }
}

/// A reaction was given or taken: it is reported, by one template if its
/// message is cached and by another if it is not.
pub open spec fn reaction_changed(
    s: ServerView,
    cached: Template,
    uncached: Template,
    r: ReactionView,
) -> Step {
    match reaction_context(s, r) {
        Ok(values) => Step {
            server: s,
            outcomes: notice(
                s,
                if s.messages.entries.contains_key(r.message_id) {
                    cached
                } else {
                    uncached
                },
                values,
            ),
            failure: None,
        },
        Err(e) => failed(s, e),
    }
}

impl Server {
    /// A member joined.
    pub fn on_member_add(&mut self, member: Member, out: &mut Vec<LogOutcome>) -> (res: Result<
        (),
        Error,
    >)
        ensures
            handled(final(self)@, old(out)@, final(out)@, res, member_added(old(self)@, member@)),
    {
        proof {
            crate::items::lemma_nothing_pushed(out@);
        }
        let copy = member.duplicate();
        self.add_member(member)?;
        let values = copy.into_map()?;
        self.notify(Template::ServerMemberAdd, &values, out);
        Ok(())
    }

    /// A member left.
    pub fn on_member_remove(&mut self, user: User, out: &mut Vec<LogOutcome>) -> (res: Result<
        (),
        Error,
    >)
        ensures
            handled(final(self)@, old(out)@, final(out)@, res, member_removed(old(self)@, user@)),
    {
        proof {
            crate::items::lemma_nothing_pushed(out@);
        }
        match self.remove_member(user.id) {
            Ok(_) => {},
            Err(e) => {
                assert(self@.members =~= old(self)@.members);
                return Err(e);
            },
        }
        let values = user.into_map()?;
        self.notify(Template::ServerMemberRemove, &values, out);
        Ok(())
    }

    /// A role was created.
    pub fn on_role_create(&mut self, role: Role, out: &mut Vec<LogOutcome>) -> (res: Result<
        (),
        Error,
    >)
        ensures
            handled(final(self)@, old(out)@, final(out)@, res, role_created(old(self)@, role@)),
    {
        proof {
            crate::items::lemma_nothing_pushed(out@);
        }
        let copy = role.duplicate();
        self.add_role(role)?;
        let values = copy.into_map()?;
        self.notify(Template::ServerRoleCreate, &values, out);
        Ok(())
    }

    /// A role was changed.
    pub fn on_role_update(&self, role: Role, out: &mut Vec<LogOutcome>) -> (res: Result<(), Error>)
        ensures
            handled(self@, old(out)@, final(out)@, res, role_updated(self@, role@)),
    {
        let mut line = String::from_str("Role Changed: ");
        line.append(u64_to_string(role.id).as_str());
        log(self.log_channel, self.id, line, out);
        Ok(())
    }

    /// A role was deleted.
    pub fn on_role_delete(&mut self, id: u64, out: &mut Vec<LogOutcome>) -> (res: Result<
        (),
        Error,
    >)
        ensures
            handled(final(self)@, old(out)@, final(out)@, res, role_deleted(old(self)@, id)),
    {
        proof {
            crate::items::lemma_nothing_pushed(out@);
        }
        match self.remove_role(id) {
            Ok(_) => {},
            Err(e) => {
                assert(self@.roles =~= old(self)@.roles);
                return Err(e);
            },
        }
        let mut line = String::from_str("Role Deleted: ");
        line.append(u64_to_string(id).as_str());
        log(self.log_channel, self.id, line, out);
        Ok(())
    }

    /// A user was banned (`Template::ServerBanAdd`) or a ban was lifted
    /// (`Template::ServerBanRemove`).
    pub fn on_ban(&self, t: Template, user: User, out: &mut Vec<LogOutcome>) -> (res: Result<
        (),
        Error,
    >)
        ensures
            handled(self@, old(out)@, final(out)@, res, ban_changed(self@, t, user@)),
    {
        let values = user.into_map()?;
        self.notify(t, &values, out);
        Ok(())
    }

    /// The pins of a channel were acknowledged or changed.
    pub fn on_pins(&self, label: &str, channel_id: u64, out: &mut Vec<LogOutcome>) -> (res: Result<
        (),
        Error,
    >)
        ensures
            handled(self@, old(out)@, final(out)@, res, pins_changed(self@, label@, channel_id)),
    {
        let mut line = String::from_str(label);
        line.append(u64_to_string(channel_id).as_str());
        log(self.log_channel, self.id, line, out);
        Ok(())
    }

    /// A message was sent at `now`, in nanoseconds on the clock of the
    /// dispatcher. `bot_user` is the user id of the bot.
    pub fn on_message_create(
        &mut self,
        now: u128,
        msg: Message,
        bot_user: u64,
        out: &mut Vec<LogOutcome>,
    ) -> (res: Result<(), Error>)
        ensures
            handled(
                final(self)@,
                old(out)@,
                final(out)@,
                res,
                message_created(old(self)@, now as nat, msg@, bot_user),
            ),
    {
        proof {
            crate::items::lemma_nothing_pushed(out@);
        }
        let copy = msg.duplicate();
        let ghost before = self.messages@;
        self.messages.insert_at(now, msg.id, msg);
        proof {
            lemma_cache_insert(before, now as nat, msg.id, msg);
        }
        let in_log = match self.log_channel {
            Some(channel) => copy.channel_id == channel,
            None => true,
        };
        if !in_log || copy.author.id != bot_user {
            let values = copy.into_map()?;
            self.notify(Template::MessageCreate, &values, out);
        }
        Ok(())
    }

    /// A message was deleted.
    pub fn on_message_delete(&mut self, del: MessageDelete, out: &mut Vec<LogOutcome>) -> (res:
        Result<(), Error>)
        ensures
            handled(final(self)@, old(out)@, final(out)@, res, message_deleted(old(self)@, del)),
    {
        proof {
            crate::items::lemma_nothing_pushed(out@);
        }
        let ghost before = self.messages@;
        let cached = self.messages.remove(&del.message_id);
        assert(crate::model::map_views(self.messages@.entries) =~= crate::model::map_views(
            before.entries,
        ).remove(del.message_id));
        match cached {
            Some(msg) => {
                let values = msg.into_map()?;
                self.notify(Template::MessageDeleteCached, &values, out);
            },
            None => {
                let values = del.into_map()?;
                self.notify(Template::MessageDeleteUncached, &values, out);
            },
        }
        Ok(())
    }

    /// A reaction was given (`Template::ReactionAddCached` and
    /// `Template::ReactionAddUncached`) or taken (`Template::ReactionRemoveCached`
    /// and `Template::ReactionRemoveUncached`).
    pub fn on_reaction(
        &self,
        cached: Template,
        uncached: Template,
        reaction: Reaction,
        out: &mut Vec<LogOutcome>,
    ) -> (res: Result<(), Error>)
        ensures
            handled(
                self@,
                old(out)@,
                final(out)@,
                res,
                reaction_changed(self@, cached, uncached, reaction@),
            ),
    {
        proof {
            crate::items::lemma_nothing_pushed(out@);
        }
        let user = self.member(reaction.user_id)?.duplicate();
        let channel = self.channel(reaction.channel_id)?.duplicate();
        let message = self.message(reaction.message_id);
        let mut values = reaction.into_map()?;
        user.merge_into_map_prefix(&mut values, "user_")?;
        channel.merge_into_map_prefix(&mut values, "channel_")?;
        match message {
            Some(msg) => {
                msg.duplicate().merge_into_map_prefix(&mut values, "message_")?;
                self.notify(cached, &values, out);
            },
            None => {
                self.notify(uncached, &values, out);
            },
        }
        Ok(())
    }
}

/// Storing a message in the cache of messages is storing its view in the
/// cache of their views.
pub proof fn lemma_cache_insert(
    cache: crate::expiring_map::CacheModel<Message>,
    now: nat,
    id: u64,
    msg: Message,
)
    ensures
        crate::server::cache_views(cache.insert(now, id, msg)) == crate::server::cache_views(
            cache,
        ).insert(now, id, msg@),
{
    let a = crate::server::cache_views(cache.insert(now, id, msg));
    let b = crate::server::cache_views(cache).insert(now, id, msg@);
    assert(a.entries =~= b.entries);
    assert(a.pending =~= b.pending);
    assert(a.due =~= b.due);
}

} // verus!
