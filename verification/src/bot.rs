//! The dispatcher: it finds the mirror of the community that an event is
//! for, lets the event change it, and hands back the lines to send.

use crate::config::{position_for, Config, ServerConfig, Template};
use crate::context::{line_outcome, log, LogOutcome, LogOutcomeView};
use crate::errors::Error;
use crate::expiring_map::{clock_elapsed, clock_start, duration_nanos};
use crate::handle::{
    ban_changed, member_added, member_removed, message_created, message_deleted, pins_changed,
    reaction_changed, role_created, role_deleted, role_updated, Step,
};
use crate::handle_bulk::messages_deleted;
use crate::handle_message::message_updated;
use crate::handle_update::{channel_created, channel_updated, emojis_updated, member_updated};
use crate::merge_into_map::{channel_values, MergeIntoMap};
use crate::model::{
    map_views, views, Channel, Emoji, Event, LiveServer, Member, Message, MessageDelete,
    MessageDeleteBulk, MessageUpdate, PossibleServer, PublicChannel, PublicChannelView,
    Reaction, Role, ServerMemberUpdate, User,
};
use crate::server::{notice, store, take, Server, ServerView};
use crate::text::text;
use std::collections::HashMap;
use std::time::Instant;
use vstd::prelude::*;

verus! {

broadcast use vstd::std_specs::hash::group_hash_axioms;

/// The mirrors of all communities, the community of every channel, and the
/// configurations that no community has taken yet.
pub struct Bot {
    pub config: Config,
    /// The user id of the bot itself.
    pub user_id: u64,
    pub servers: HashMap<u64, Server>,
    pub channels: HashMap<u64, u64>,
    /// The start of the clock of the dispatcher, by which the caches of all
    /// mirrors are timed.
    pub started: Instant,
}

/// The view of `Bot`: what it holds as mathematical values.
pub struct BotView {
    pub user_id: u64,
    pub servers: Map<u64, ServerView>,
    pub channels: Map<u64, u64>,
    pub configs: Seq<ServerConfig>,
}

impl View for Bot {
    type V = BotView;

    open spec fn view(&self) -> BotView {
        BotView {
            user_id: self.user_id,
            servers: map_views(self.servers@),
            channels: self.channels@,
            configs: self.config.server@,
        }
    }
}

/// What an event left behind: the lines to send, in order, and the failure
/// that ended the event, if one did.
#[derive(Debug, PartialEq)]
pub struct Handled {
    pub outcomes: Vec<LogOutcome>,
    pub failure: Option<Error>,
}

/// What an event did to the dispatcher.
pub struct Outcome {
    pub bot: BotView,
    pub outcomes: Seq<LogOutcomeView>,
    pub failure: Option<Error>,
}

/// The event left the dispatcher and the lines as `outcome` says.
pub open spec fn delivered(after: BotView, res: Handled, outcome: Outcome) -> bool {
    &&& after == outcome.bot
    &&& views(res.outcomes@) == outcome.outcomes
    &&& res.failure == outcome.failure
}

/// An event that changed nothing but for a failure.
pub open spec fn refused(bot: BotView, e: Error) -> Outcome {
    Outcome { bot, outcomes: Seq::empty(), failure: Some(e) }
}

/// The event is for the community of this id: it does to its mirror what
/// `step` says. An id that no mirror has is a failure.
pub open spec fn in_server(bot: BotView, server_id: u64, step: spec_fn(ServerView) -> Step) -> Outcome {
    if !bot.servers.contains_key(server_id) {
        refused(bot, Error::UnknownServer(server_id))
    } else {
        let done = step(bot.servers[server_id]);
        Outcome {
            bot: BotView { servers: bot.servers.insert(server_id, done.server), ..bot },
            outcomes: done.outcomes,
            failure: done.failure,
        }
    }
}

/// The event is for the community of the channel of this id. A channel
/// whose community is not known is a failure.
pub open spec fn in_channel(bot: BotView, channel_id: u64, step: spec_fn(ServerView) -> Step) -> Outcome {
    if !bot.channels.contains_key(channel_id) {
        refused(bot, Error::UnknownChannel(channel_id))
    } else {
        in_server(bot, bot.channels[channel_id], step)
    }
}

/// A message was sent at `now`.
pub open spec fn message_create_outcome(bot: BotView, now: nat, msg: Message) -> Outcome {
    in_channel(
        bot,
        msg.channel_id,
        |s: ServerView| message_created(s, now, msg@, bot.user_id),
    )
}

/// A channel was created: its community is noted, then the channel is
/// stored in the mirror of that community.
pub open spec fn channel_create_outcome(bot: BotView, channel: Channel) -> Outcome {
    match channel {
        Channel::Public(c) => in_server(
            BotView { channels: bot.channels.insert(c.id, c.server_id), ..bot },
            c.server_id,
            |s: ServerView| channel_created(s, c@),
        ),
        Channel::Group(id) => refused(bot, Error::NotPublicChannel(id)),
        Channel::Private(id) => refused(bot, Error::NotPublicChannel(id)),
    }
}

/// A channel was changed.
pub open spec fn channel_update_outcome(bot: BotView, channel: Channel) -> Outcome {
    match channel {
        Channel::Public(c) => in_server(bot, c.server_id, |s: ServerView| channel_updated(s, c@)),
        Channel::Group(id) => refused(bot, Error::NotPublicChannel(id)),
        Channel::Private(id) => refused(bot, Error::NotPublicChannel(id)),
    }
}

/// A channel was deleted: that is reported; then the channel is forgotten,
/// first as a channel of its community, then in the mirror. A channel that
/// was not known in either place is a failure, and ends the event there.
pub open spec fn channel_delete_outcome(bot: BotView, channel: Channel) -> Outcome {
    match channel {
        Channel::Public(c) => if !bot.servers.contains_key(c.server_id) {
            refused(bot, Error::UnknownServer(c.server_id))
        } else {
            let s = bot.servers[c.server_id];
            let shown = notice(s, Template::ChannelDelete, channel_values(c@));
            if !bot.channels.contains_key(c.id) {
                Outcome { bot, outcomes: shown, failure: Some(Error::UnknownChannel(c.id)) }
            } else {
                Outcome {
                    bot: BotView {
                        channels: bot.channels.remove(c.id),
                        servers: bot.servers.insert(
                            c.server_id,
                            ServerView { channels: s.channels.remove(c.id), ..s },
                        ),
                        ..bot
                    },
                    outcomes: shown,
                    failure: if s.channels.contains_key(c.id) {
                        None
                    } else {
                        Some(Error::UncachedChannel(c.id))
                    },
                }
            }
        },
        Channel::Group(id) => refused(bot, Error::NotPublicChannel(id)),
        Channel::Private(id) => refused(bot, Error::NotPublicChannel(id)),
    }
}

/// The channels of the list as channels of the community.
pub open spec fn channels_noted(
    known: Map<u64, u64>,
    channels: Seq<PublicChannelView>,
    server_id: u64,
) -> Map<u64, u64>
    decreases channels.len(),
{
    if channels.len() == 0 {
        known
    } else {
        channels_noted(known, channels.drop_last(), server_id).insert(channels.last().id, server_id)
    }
}

/// The line that greets the log channel of a community.
pub open spec fn greeting() -> Seq<char> {
    "Bot started successfully and is logging to this channel."@
}

/// The bot learns of a community: its channels are noted and its mirror is
/// made. The first configuration that is the community's is taken for it,
/// and its log channel is looked for among its channels and greeted. A
/// community without a configuration is mirrored all the same, which is
/// reported as a failure.
pub open spec fn server_added(bot: BotView, live: LiveServer) -> Outcome {
    let channels = channels_noted(bot.channels, views(live.channels@), live.id);
    match position_for(bot.configs, live.id, live.name@) {
        None => Outcome {
            bot: BotView {
                channels,
                servers: bot.servers.insert(live.id, Server::initial(live, None, None)),
                ..bot
            },
            outcomes: Seq::empty(),
            failure: Some(Error::NotConfigured(live.id)),
        },
        Some(i) => {
            let config = bot.configs[i];
            let log_channel = config.log_channel_among(views(live.channels@));
            Outcome {
                bot: BotView {
                    channels,
                    servers: bot.servers.insert(
                        live.id,
                        Server::initial(live, Some(config), log_channel),
                    ),
                    configs: bot.configs.update(i, bot.configs.last()).drop_last(),
                    ..bot
                },
                outcomes: if log_channel is Some {
                    seq![line_outcome(log_channel, live.id, Ok(greeting()))]
                } else {
                    Seq::empty()
                },
                failure: None,
            }
        },
    }
}

/// The lines that tell a community of a failure: a community without a
/// configuration is told so in its log channel, if it has a mirror. Of the
/// other failures nothing is sent.
pub open spec fn failure_lines(bot: BotView, e: Error) -> Seq<LogOutcomeView> {
    match e {
        Error::NotConfigured(server_id) => if bot.servers.contains_key(server_id) {
            seq![
                line_outcome(
                    bot.servers[server_id].log_channel,
                    server_id,
                    Ok("No configuration found"@),
                ),
            ]
        } else {
            Seq::empty()
        },
        _ => Seq::empty(),
    }
}

/// What an event, received at `now`, does to the dispatcher.
pub open spec fn dispatched(bot: BotView, now: nat, evt: Event) -> Outcome {
    match evt {
        Event::MessageCreate(msg) => message_create_outcome(bot, now, msg),
        Event::MessageUpdate(update) => in_channel(
            bot,
            update.channel_id,
            |s: ServerView| message_updated(s, update@),
        ),
        Event::MessageDelete(del) => in_channel(
            bot,
            del.channel_id,
            |s: ServerView| message_deleted(s, del),
        ),
        Event::MessageDeleteBulk(del) => in_channel(
            bot,
            del.channel_id,
            |s: ServerView| messages_deleted(s, del.channel_id, del.ids@),
        ),
        Event::ServerCreate(PossibleServer::Online(live)) => server_added(bot, live),
        Event::ServerCreate(PossibleServer::Offline(_)) => Outcome {
            bot,
            outcomes: Seq::empty(),
            failure: None,
        },
        Event::ServerMemberAdd(server_id, member) => in_server(
            bot,
            server_id,
            |s: ServerView| member_added(s, member@),
        ),
        Event::ServerMemberUpdate(update) => in_server(
            bot,
            update.server_id,
            |s: ServerView| member_updated(s, update@),
        ),
        Event::ServerMemberRemove(server_id, user) => in_server(
            bot,
            server_id,
            |s: ServerView| member_removed(s, user@),
        ),
        Event::ServerRoleCreate(server_id, role) => in_server(
            bot,
            server_id,
            |s: ServerView| role_created(s, role@),
        ),
        Event::ServerRoleUpdate(server_id, role) => in_server(
            bot,
            server_id,
            |s: ServerView| role_updated(s, role@),
        ),
        Event::ServerRoleDelete(server_id, role_id) => in_server(
            bot,
            server_id,
            |s: ServerView| role_deleted(s, role_id),
        ),
        Event::ServerBanAdd(server_id, user) => in_server(
            bot,
            server_id,
            |s: ServerView| ban_changed(s, Template::ServerBanAdd, user@),
        ),
        Event::ServerBanRemove(server_id, user) => in_server(
            bot,
            server_id,
            |s: ServerView| ban_changed(s, Template::ServerBanRemove, user@),
        ),
        Event::ServerEmojisUpdate(server_id, update) => in_server(
            bot,
            server_id,
            |s: ServerView| emojis_updated(s, views(update@)),
        ),
        Event::ChannelCreate(channel) => channel_create_outcome(bot, channel),
        Event::ChannelUpdate(channel) => channel_update_outcome(bot, channel),
        Event::ChannelDelete(channel) => channel_delete_outcome(bot, channel),
        Event::ChannelPinsAck(channel_id) => in_channel(
            bot,
            channel_id,
            |s: ServerView| pins_changed(s, "Pins Ack: "@, channel_id),
        ),
        Event::ChannelPinsUpdate(channel_id) => in_channel(
            bot,
            channel_id,
            |s: ServerView| pins_changed(s, "Pins Update: "@, channel_id),
        ),
        Event::ReactionAdd(reaction) => in_channel(
            bot,
            reaction.channel_id,
            |s: ServerView| reaction_changed(
                s,
                Template::ReactionAddCached,
                Template::ReactionAddUncached,
                reaction@,
            ),
        ),
        Event::ReactionRemove(reaction) => in_channel(
            bot,
            reaction.channel_id,
            |s: ServerView| reaction_changed(
                s,
                Template::ReactionRemoveCached,
                Template::ReactionRemoveUncached,
                reaction@,
            ),
        ),
        Event::Other => Outcome { bot, outcomes: Seq::empty(), failure: None },
    }
}

/// The failure of a result, if it has one.
fn failure_of(res: Result<(), Error>) -> (failure: Option<Error>)
    ensures
        failure == (match res {
            Ok(_) => None::<Error>,
            Err(e) => Some(e),
        }),
{
    match res {
        Ok(()) => None,
        Err(e) => Some(e),
    }
}

impl Bot {
    /// A dispatcher without communities for the bot of this user id.
    pub fn new(config: Config, user_id: u64) -> (res: Bot)
        ensures
            res@ == (BotView {
                user_id,
                servers: Map::empty(),
                channels: Map::empty(),
                configs: config.server@,
            }),
    {
        let res = Bot {
            config,
            user_id,
            servers: HashMap::new(),
            channels: HashMap::new(),
            started: clock_start(),
        };
        assert(map_views(res.servers@) =~= Map::<u64, ServerView>::empty());
        res
    }

    /// Nanoseconds on the clock of the dispatcher, which started at its
    /// creation.
    fn now(&self) -> u128 {
        let d = clock_elapsed(&self.started);
        duration_nanos(&d)
    }

    /// The mirror of the community of this id.
    pub fn server_by_server(&self, server_id: u64) -> (res: Result<&Server, Error>)
        ensures
            match res {
                Ok(s) => self@.servers.contains_key(server_id) && self@.servers[server_id] == s@,
                Err(e) => !self@.servers.contains_key(server_id) && e == Error::UnknownServer(
                    server_id,
                ),
            },
    {
        match crate::server::find(&self.servers, server_id) {
            Some(s) => Ok(s),
            None => Err(Error::UnknownServer(server_id)),
        }
    }

    /// The mirror of the community of the channel of this id.
    pub fn server_by_channel(&self, channel_id: u64) -> (res: Result<&Server, Error>)
        ensures
            match res {
                Ok(s) => self@.channels.contains_key(channel_id) && self@.servers.contains_key(
                    self@.channels[channel_id],
                ) && self@.servers[self@.channels[channel_id]] == s@,
                Err(e) => if !self@.channels.contains_key(channel_id) {
                    e == Error::UnknownChannel(channel_id)
                } else {
                    !self@.servers.contains_key(self@.channels[channel_id]) && e
                        == Error::UnknownServer(self@.channels[channel_id])
                },
            },
    {
        match self.channels.get(&channel_id) {
            Some(server_id) => self.server_by_server(*server_id),
            None => Err(Error::UnknownChannel(channel_id)),
        }
    }

    /// A member joined the community of this id.
    pub fn handle_server_member_add(&mut self, server_id: u64, member: Member) -> (res: Handled)
        ensures
            delivered(
                final(self)@,
                res,
                in_server(old(self)@, server_id, |s: ServerView| member_added(s, member@)),
            ),
    {
        let mut out: Vec<LogOutcome> = Vec::new();
        assert(views(out@) =~= Seq::empty());
        let mut server = match take(&mut self.servers, server_id) {
            Some(server) => server,
            None => {
                assert(map_views(self.servers@) =~= map_views(old(self).servers@));
                return Handled { outcomes: out, failure: Some(Error::UnknownServer(server_id)) };
            },
        };
        let res = server.on_member_add(member, &mut out);
        store(&mut self.servers, server_id, server);
        assert(map_views(self.servers@) =~= map_views(old(self).servers@).insert(server_id, server@));
        assert(views(out@) =~= Seq::empty() + views(out@));
        Handled { outcomes: out, failure: failure_of(res) }
    }

    /// A member left the community of this id.
    pub fn handle_server_member_remove(&mut self, server_id: u64, user: User) -> (res: Handled)
        ensures
            delivered(
                final(self)@,
                res,
                in_server(old(self)@, server_id, |s: ServerView| member_removed(s, user@)),
            ),
    {
        let mut out: Vec<LogOutcome> = Vec::new();
        assert(views(out@) =~= Seq::empty());
        let mut server = match take(&mut self.servers, server_id) {
            Some(server) => server,
            None => {
                assert(map_views(self.servers@) =~= map_views(old(self).servers@));
                return Handled { outcomes: out, failure: Some(Error::UnknownServer(server_id)) };
            },
        };
        let res = server.on_member_remove(user, &mut out);
        store(&mut self.servers, server_id, server);
        assert(map_views(self.servers@) =~= map_views(old(self).servers@).insert(server_id, server@));
        assert(views(out@) =~= Seq::empty() + views(out@));
        Handled { outcomes: out, failure: failure_of(res) }
    }

    /// A role was created in the community of this id.
    pub fn handle_server_role_create(&mut self, server_id: u64, role: Role) -> (res: Handled)
        ensures
            delivered(
                final(self)@,
                res,
                in_server(old(self)@, server_id, |s: ServerView| role_created(s, role@)),
            ),
    {
        let mut out: Vec<LogOutcome> = Vec::new();
        assert(views(out@) =~= Seq::empty());
        let mut server = match take(&mut self.servers, server_id) {
            Some(server) => server,
            None => {
                assert(map_views(self.servers@) =~= map_views(old(self).servers@));
                return Handled { outcomes: out, failure: Some(Error::UnknownServer(server_id)) };
            },
        };
        let res = server.on_role_create(role, &mut out);
        store(&mut self.servers, server_id, server);
        assert(map_views(self.servers@) =~= map_views(old(self).servers@).insert(server_id, server@));
        assert(views(out@) =~= Seq::empty() + views(out@));
        Handled { outcomes: out, failure: failure_of(res) }
    }

    /// A role of the community of this id was changed.
    pub fn handle_server_role_update(&mut self, server_id: u64, role: Role) -> (res: Handled)
        ensures
            delivered(
                final(self)@,
                res,
                in_server(old(self)@, server_id, |s: ServerView| role_updated(s, role@)),
            ),
    {
        let mut out: Vec<LogOutcome> = Vec::new();
        assert(views(out@) =~= Seq::empty());
        let mut server = match take(&mut self.servers, server_id) {
            Some(server) => server,
            None => {
                assert(map_views(self.servers@) =~= map_views(old(self).servers@));
                return Handled { outcomes: out, failure: Some(Error::UnknownServer(server_id)) };
            },
        };
        let res = server.on_role_update(role, &mut out);
        store(&mut self.servers, server_id, server);
        assert(map_views(self.servers@) =~= map_views(old(self).servers@).insert(server_id, server@));
        assert(views(out@) =~= Seq::empty() + views(out@));
        Handled { outcomes: out, failure: failure_of(res) }
    }

    /// A role of the community of this id was deleted.
    pub fn handle_server_role_delete(&mut self, server_id: u64, role_id: u64) -> (res: Handled)
        ensures
            delivered(
                final(self)@,
                res,
                in_server(old(self)@, server_id, |s: ServerView| role_deleted(s, role_id)),
            ),
    {
        let mut out: Vec<LogOutcome> = Vec::new();
        assert(views(out@) =~= Seq::empty());
        let mut server = match take(&mut self.servers, server_id) {
            Some(server) => server,
            None => {
                assert(map_views(self.servers@) =~= map_views(old(self).servers@));
                return Handled { outcomes: out, failure: Some(Error::UnknownServer(server_id)) };
            },
        };
        let res = server.on_role_delete(role_id, &mut out);
        store(&mut self.servers, server_id, server);
        assert(map_views(self.servers@) =~= map_views(old(self).servers@).insert(server_id, server@));
        assert(views(out@) =~= Seq::empty() + views(out@));
        Handled { outcomes: out, failure: failure_of(res) }
    }

    /// A user was banned from the community of this id.
    pub fn handle_server_ban_add(&mut self, server_id: u64, user: User) -> (res: Handled)
        ensures
            delivered(
                final(self)@,
                res,
                in_server(old(self)@, server_id, |s: ServerView| ban_changed(s, Template::ServerBanAdd, user@)),
            ),
    {
        let mut out: Vec<LogOutcome> = Vec::new();
        assert(views(out@) =~= Seq::empty());
        let mut server = match take(&mut self.servers, server_id) {
            Some(server) => server,
            None => {
                assert(map_views(self.servers@) =~= map_views(old(self).servers@));
                return Handled { outcomes: out, failure: Some(Error::UnknownServer(server_id)) };
            },
        };
        let res = server.on_ban(Template::ServerBanAdd, user, &mut out);
        store(&mut self.servers, server_id, server);
        assert(map_views(self.servers@) =~= map_views(old(self).servers@).insert(server_id, server@));
        assert(views(out@) =~= Seq::empty() + views(out@));
        Handled { outcomes: out, failure: failure_of(res) }
    }

    /// The ban of a user from the community of this id was lifted.
    pub fn handle_server_ban_remove(&mut self, server_id: u64, user: User) -> (res: Handled)
        ensures
            delivered(
                final(self)@,
                res,
                in_server(old(self)@, server_id, |s: ServerView| ban_changed(s, Template::ServerBanRemove, user@)),
            ),
    {
        let mut out: Vec<LogOutcome> = Vec::new();
        assert(views(out@) =~= Seq::empty());
        let mut server = match take(&mut self.servers, server_id) {
            Some(server) => server,
            None => {
                assert(map_views(self.servers@) =~= map_views(old(self).servers@));
                return Handled { outcomes: out, failure: Some(Error::UnknownServer(server_id)) };
            },
        };
        let res = server.on_ban(Template::ServerBanRemove, user, &mut out);
        store(&mut self.servers, server_id, server);
        assert(map_views(self.servers@) =~= map_views(old(self).servers@).insert(server_id, server@));
        assert(views(out@) =~= Seq::empty() + views(out@));
        Handled { outcomes: out, failure: failure_of(res) }
    }

    /// The emojis of the community of this id were changed.
    pub fn handle_server_emojis_update(&mut self, server_id: u64, update: Vec<Emoji>) -> (res: Handled)
        ensures
            delivered(
                final(self)@,
                res,
                in_server(old(self)@, server_id, |s: ServerView| emojis_updated(s, views(update@))),
            ),
    {
        let mut out: Vec<LogOutcome> = Vec::new();
        assert(views(out@) =~= Seq::empty());
        let mut server = match take(&mut self.servers, server_id) {
            Some(server) => server,
            None => {
                assert(map_views(self.servers@) =~= map_views(old(self).servers@));
                return Handled { outcomes: out, failure: Some(Error::UnknownServer(server_id)) };
            },
        };
        let res = server.on_emojis_update(update, &mut out);
        store(&mut self.servers, server_id, server);
        assert(map_views(self.servers@) =~= map_views(old(self).servers@).insert(server_id, server@));
        assert(views(out@) =~= Seq::empty() + views(out@));
        Handled { outcomes: out, failure: failure_of(res) }
    }

    /// A member was changed.
    pub fn handle_server_member_update(&mut self, update: ServerMemberUpdate) -> (res: Handled)
        ensures
            delivered(
                final(self)@,
                res,
                in_server(old(self)@, update.server_id, |s: ServerView| member_updated(s, update@)),
            ),
    {
        let mut out: Vec<LogOutcome> = Vec::new();
        assert(views(out@) =~= Seq::empty());
        let server_id = update.server_id;
        let mut server = match take(&mut self.servers, server_id) {
            Some(server) => server,
            None => {
                assert(map_views(self.servers@) =~= map_views(old(self).servers@));
                return Handled { outcomes: out, failure: Some(Error::UnknownServer(server_id)) };
            },
        };
        let res = server.on_member_update(update, &mut out);
        store(&mut self.servers, server_id, server);
        assert(map_views(self.servers@) =~= map_views(old(self).servers@).insert(server_id, server@));
        assert(views(out@) =~= Seq::empty() + views(out@));
        Handled { outcomes: out, failure: failure_of(res) }
    }

    /// A message was sent at `now`, in nanoseconds on the clock of the dispatcher.
    pub fn handle_message_create_at(&mut self, now: u128, msg: Message) -> (res: Handled)
        ensures
            delivered(
                final(self)@,
                res,
                message_create_outcome(old(self)@, now as nat, msg),
            ),
    {
        let mut out: Vec<LogOutcome> = Vec::new();
        assert(views(out@) =~= Seq::empty());
        let channel = msg.channel_id;
        let server_id = match self.channels.get(&channel) {
            Some(id) => *id,
            None => {
                return Handled { outcomes: out, failure: Some(Error::UnknownChannel(channel)) };
            },
        };
        let mut server = match take(&mut self.servers, server_id) {
            Some(server) => server,
            None => {
                assert(map_views(self.servers@) =~= map_views(old(self).servers@));
                return Handled { outcomes: out, failure: Some(Error::UnknownServer(server_id)) };
            },
        };
        let user_id = self.user_id;
        let res = server.on_message_create(now, msg, user_id, &mut out);
        store(&mut self.servers, server_id, server);
        assert(map_views(self.servers@) =~= map_views(old(self).servers@).insert(
            server_id,
            server@,
        ));
        assert(views(out@) =~= Seq::empty() + views(out@));
        Handled { outcomes: out, failure: failure_of(res) }
    }

    /// A message was changed.
    pub fn handle_message_update(&mut self, update: MessageUpdate) -> (res: Handled)
        ensures
            delivered(
                final(self)@,
                res,
                in_channel(old(self)@, update.channel_id, |s: ServerView| message_updated(s, update@)),
            ),
    {
        let mut out: Vec<LogOutcome> = Vec::new();
        assert(views(out@) =~= Seq::empty());
        let channel = update.channel_id;
        let server_id = match self.channels.get(&channel) {
            Some(id) => *id,
            None => {
                return Handled { outcomes: out, failure: Some(Error::UnknownChannel(channel)) };
            },
        };
        let mut server = match take(&mut self.servers, server_id) {
            Some(server) => server,
            None => {
                assert(map_views(self.servers@) =~= map_views(old(self).servers@));
                return Handled { outcomes: out, failure: Some(Error::UnknownServer(server_id)) };
            },
        };
        let res = server.on_message_update(update, &mut out);
        store(&mut self.servers, server_id, server);
        assert(map_views(self.servers@) =~= map_views(old(self).servers@).insert(
            server_id,
            server@,
        ));
        assert(views(out@) =~= Seq::empty() + views(out@));
        Handled { outcomes: out, failure: failure_of(res) }
    }

    /// A message was deleted.
    pub fn handle_message_delete(&mut self, del: MessageDelete) -> (res: Handled)
        ensures
            delivered(
                final(self)@,
                res,
                in_channel(old(self)@, del.channel_id, |s: ServerView| message_deleted(s, del)),
            ),
    {
        let mut out: Vec<LogOutcome> = Vec::new();
        assert(views(out@) =~= Seq::empty());
        let channel = del.channel_id;
        let server_id = match self.channels.get(&channel) {
            Some(id) => *id,
            None => {
                return Handled { outcomes: out, failure: Some(Error::UnknownChannel(channel)) };
            },
        };
        let mut server = match take(&mut self.servers, server_id) {
            Some(server) => server,
            None => {
                assert(map_views(self.servers@) =~= map_views(old(self).servers@));
                return Handled { outcomes: out, failure: Some(Error::UnknownServer(server_id)) };
            },
        };
        let res = server.on_message_delete(del, &mut out);
        store(&mut self.servers, server_id, server);
        assert(map_views(self.servers@) =~= map_views(old(self).servers@).insert(
            server_id,
            server@,
        ));
        assert(views(out@) =~= Seq::empty() + views(out@));
        Handled { outcomes: out, failure: failure_of(res) }
    }

    /// Several messages of one channel were deleted.
    pub fn handle_message_delete_bulk(&mut self, del: MessageDeleteBulk) -> (res: Handled)
        ensures
            delivered(
                final(self)@,
                res,
                in_channel(old(self)@, del.channel_id, |s: ServerView| messages_deleted(s, del.channel_id, del.ids@)),
            ),
    {
        let mut out: Vec<LogOutcome> = Vec::new();
        assert(views(out@) =~= Seq::empty());
        let channel = del.channel_id;
        let server_id = match self.channels.get(&channel) {
            Some(id) => *id,
            None => {
                return Handled { outcomes: out, failure: Some(Error::UnknownChannel(channel)) };
            },
        };
        let mut server = match take(&mut self.servers, server_id) {
            Some(server) => server,
            None => {
                assert(map_views(self.servers@) =~= map_views(old(self).servers@));
                return Handled { outcomes: out, failure: Some(Error::UnknownServer(server_id)) };
            },
        };
        let res = server.on_message_delete_bulk(del, &mut out);
        store(&mut self.servers, server_id, server);
        assert(map_views(self.servers@) =~= map_views(old(self).servers@).insert(
            server_id,
            server@,
        ));
        assert(views(out@) =~= Seq::empty() + views(out@));
        Handled { outcomes: out, failure: failure_of(res) }
    }

    /// The pins of a channel were acknowledged.
    pub fn handle_channel_pins_ack(&mut self, channel_id: u64) -> (res: Handled)
        ensures
            delivered(
                final(self)@,
                res,
                in_channel(old(self)@, channel_id, |s: ServerView| pins_changed(s, "Pins Ack: "@, channel_id)),
            ),
    {
        let mut out: Vec<LogOutcome> = Vec::new();
        assert(views(out@) =~= Seq::empty());
        let channel = channel_id;
        let server_id = match self.channels.get(&channel) {
            Some(id) => *id,
            None => {
                return Handled { outcomes: out, failure: Some(Error::UnknownChannel(channel)) };
            },
        };
        let mut server = match take(&mut self.servers, server_id) {
            Some(server) => server,
            None => {
                assert(map_views(self.servers@) =~= map_views(old(self).servers@));
                return Handled { outcomes: out, failure: Some(Error::UnknownServer(server_id)) };
            },
        };
        let res = server.on_pins("Pins Ack: ", channel_id, &mut out);
        store(&mut self.servers, server_id, server);
        assert(map_views(self.servers@) =~= map_views(old(self).servers@).insert(
            server_id,
            server@,
        ));
        assert(views(out@) =~= Seq::empty() + views(out@));
        Handled { outcomes: out, failure: failure_of(res) }
    }

    /// The pins of a channel changed.
    pub fn handle_channel_pins_update(&mut self, channel_id: u64) -> (res: Handled)
        ensures
            delivered(
                final(self)@,
                res,
                in_channel(old(self)@, channel_id, |s: ServerView| pins_changed(s, "Pins Update: "@, channel_id)),
            ),
    {
        let mut out: Vec<LogOutcome> = Vec::new();
        assert(views(out@) =~= Seq::empty());
        let channel = channel_id;
        let server_id = match self.channels.get(&channel) {
            Some(id) => *id,
            None => {
                return Handled { outcomes: out, failure: Some(Error::UnknownChannel(channel)) };
            },
        };
        let mut server = match take(&mut self.servers, server_id) {
            Some(server) => server,
            None => {
                assert(map_views(self.servers@) =~= map_views(old(self).servers@));
                return Handled { outcomes: out, failure: Some(Error::UnknownServer(server_id)) };
            },
        };
        let res = server.on_pins("Pins Update: ", channel_id, &mut out);
        store(&mut self.servers, server_id, server);
        assert(map_views(self.servers@) =~= map_views(old(self).servers@).insert(
            server_id,
            server@,
        ));
        assert(views(out@) =~= Seq::empty() + views(out@));
        Handled { outcomes: out, failure: failure_of(res) }
    }

    /// A reaction was given to a message.
    pub fn handle_reaction_add(&mut self, reaction: Reaction) -> (res: Handled)
        ensures
            delivered(
                final(self)@,
                res,
                in_channel(old(self)@, reaction.channel_id, |s: ServerView| reaction_changed(s, Template::ReactionAddCached, Template::ReactionAddUncached, reaction@)),
            ),
    {
        let mut out: Vec<LogOutcome> = Vec::new();
        assert(views(out@) =~= Seq::empty());
        let channel = reaction.channel_id;
        let server_id = match self.channels.get(&channel) {
            Some(id) => *id,
            None => {
                return Handled { outcomes: out, failure: Some(Error::UnknownChannel(channel)) };
            },
        };
        let mut server = match take(&mut self.servers, server_id) {
            Some(server) => server,
            None => {
                assert(map_views(self.servers@) =~= map_views(old(self).servers@));
                return Handled { outcomes: out, failure: Some(Error::UnknownServer(server_id)) };
            },
        };
        let res = server.on_reaction(Template::ReactionAddCached, Template::ReactionAddUncached, reaction, &mut out);
        store(&mut self.servers, server_id, server);
        assert(map_views(self.servers@) =~= map_views(old(self).servers@).insert(
            server_id,
            server@,
        ));
        assert(views(out@) =~= Seq::empty() + views(out@));
        Handled { outcomes: out, failure: failure_of(res) }
    }

    /// A reaction was taken from a message.
    pub fn handle_reaction_remove(&mut self, reaction: Reaction) -> (res: Handled)
        ensures
            delivered(
                final(self)@,
                res,
                in_channel(old(self)@, reaction.channel_id, |s: ServerView| reaction_changed(s, Template::ReactionRemoveCached, Template::ReactionRemoveUncached, reaction@)),
            ),
    {
        let mut out: Vec<LogOutcome> = Vec::new();
        assert(views(out@) =~= Seq::empty());
        let channel = reaction.channel_id;
        let server_id = match self.channels.get(&channel) {
            Some(id) => *id,
            None => {
                return Handled { outcomes: out, failure: Some(Error::UnknownChannel(channel)) };
            },
        };
        let mut server = match take(&mut self.servers, server_id) {
            Some(server) => server,
            None => {
                assert(map_views(self.servers@) =~= map_views(old(self).servers@));
                return Handled { outcomes: out, failure: Some(Error::UnknownServer(server_id)) };
            },
        };
        let res = server.on_reaction(Template::ReactionRemoveCached, Template::ReactionRemoveUncached, reaction, &mut out);
        store(&mut self.servers, server_id, server);
        assert(map_views(self.servers@) =~= map_views(old(self).servers@).insert(
            server_id,
            server@,
        ));
        assert(views(out@) =~= Seq::empty() + views(out@));
        Handled { outcomes: out, failure: failure_of(res) }
    }

    /// A message was sent now, by the clock of the dispatcher.
    pub fn handle_message_create(&mut self, msg: Message) -> (res: Handled)
        ensures
            exists|now: nat|
                delivered(
                    final(self)@,
                    res,
                    #[trigger] message_create_outcome(old(self)@, now, msg),
                ),
    {
        let now = self.now();
        let res = self.handle_message_create_at(now, msg);
        assert(delivered(self@, res, message_create_outcome(old(self)@, now as nat, msg)));
        res
    }

    /// A channel was created.
    pub fn handle_channel_create(&mut self, channel: Channel) -> (res: Handled)
        ensures
            delivered(final(self)@, res, channel_create_outcome(old(self)@, channel)),
    {
        let mut out: Vec<LogOutcome> = Vec::new();
        assert(views(out@) =~= Seq::empty());
        let c = match channel {
            Channel::Public(c) => c,
            Channel::Group(id) => {
                return Handled { outcomes: out, failure: Some(Error::NotPublicChannel(id)) };
            },
            Channel::Private(id) => {
                return Handled { outcomes: out, failure: Some(Error::NotPublicChannel(id)) };
            },
        };
        let server_id = c.server_id;
        self.channels.insert(c.id, server_id);
        let mut server = match take(&mut self.servers, server_id) {
            Some(server) => server,
            None => {
                assert(map_views(self.servers@) =~= map_views(old(self).servers@));
                return Handled { outcomes: out, failure: Some(Error::UnknownServer(server_id)) };
            },
        };
        let res = server.on_channel_create(c, &mut out);
        store(&mut self.servers, server_id, server);
        assert(map_views(self.servers@) =~= map_views(old(self).servers@).insert(
            server_id,
            server@,
        ));
        assert(views(out@) =~= Seq::empty() + views(out@));
        Handled { outcomes: out, failure: failure_of(res) }
    }

    /// A channel was changed.
    pub fn handle_channel_update(&mut self, channel: Channel) -> (res: Handled)
        ensures
            delivered(final(self)@, res, channel_update_outcome(old(self)@, channel)),
    {
        let mut out: Vec<LogOutcome> = Vec::new();
        assert(views(out@) =~= Seq::empty());
        let c = match channel {
            Channel::Public(c) => c,
            Channel::Group(id) => {
                return Handled { outcomes: out, failure: Some(Error::NotPublicChannel(id)) };
            },
            Channel::Private(id) => {
                return Handled { outcomes: out, failure: Some(Error::NotPublicChannel(id)) };
            },
        };
        let server_id = c.server_id;
        let mut server = match take(&mut self.servers, server_id) {
            Some(server) => server,
            None => {
                assert(map_views(self.servers@) =~= map_views(old(self).servers@));
                return Handled { outcomes: out, failure: Some(Error::UnknownServer(server_id)) };
            },
        };
        let res = server.on_channel_update(c, &mut out);
        store(&mut self.servers, server_id, server);
        assert(map_views(self.servers@) =~= map_views(old(self).servers@).insert(
            server_id,
            server@,
        ));
        assert(views(out@) =~= Seq::empty() + views(out@));
        Handled { outcomes: out, failure: failure_of(res) }
    }

    /// A channel was deleted.
    pub fn handle_channel_delete(&mut self, channel: Channel) -> (res: Handled)
        ensures
            delivered(final(self)@, res, channel_delete_outcome(old(self)@, channel)),
    {
        let mut out: Vec<LogOutcome> = Vec::new();
        assert(views(out@) =~= Seq::empty());
        let c = match channel {
            Channel::Public(c) => c,
            Channel::Group(id) => {
                return Handled { outcomes: out, failure: Some(Error::NotPublicChannel(id)) };
            },
            Channel::Private(id) => {
                return Handled { outcomes: out, failure: Some(Error::NotPublicChannel(id)) };
            },
        };
        let server_id = c.server_id;
        let channel_id = c.id;
        let mut server = match take(&mut self.servers, server_id) {
            Some(server) => server,
            None => {
                assert(map_views(self.servers@) =~= map_views(old(self).servers@));
                return Handled { outcomes: out, failure: Some(Error::UnknownServer(server_id)) };
            },
        };
        let ghost s = server@;
        let failure = match c.into_map() {
            Ok(values) => {
                server.notify(Template::ChannelDelete, &values, &mut out);
                if self.channels.remove(&channel_id).is_none() {
                    Some(Error::UnknownChannel(channel_id))
                } else {
                    failure_of(
                        match server.remove_channel(channel_id) {
                            Ok(_) => Ok(()),
                            Err(e) => Err(e),
                        },
                    )
                }
            },
            Err(e) => Some(e),
        };
        store(&mut self.servers, server_id, server);
        proof {
            assert(map_views(self.servers@) =~= map_views(old(self).servers@).insert(
                server_id,
                server@,
            ));
            assert(views(out@) =~= Seq::empty() + views(out@));
            if !old(self)@.channels.contains_key(channel_id) {
                assert(self.channels@ =~= old(self).channels@);
                assert(server@ == s);
                assert(map_views(self.servers@) =~= map_views(old(self).servers@));
            }
        }
        Handled { outcomes: out, failure }
    }

    /// Notes the channels of the list as channels of the community.
    fn note_channels(&mut self, channels: &Vec<PublicChannel>, server_id: u64)
        ensures
            final(self)@ == (BotView {
                channels: channels_noted(old(self)@.channels, views(channels@), server_id),
                ..old(self)@
            }),
    {
        let ghost all = views(channels@);
        let ghost start = self.channels@;
        let mut i: usize = 0;
        assert(all.take(0) =~= Seq::empty());
        while i < channels.len()
            invariant
                i <= channels.len(),
                all == views(channels@),
                self.channels@ == channels_noted(start, all.take(i as int), server_id),
                self.servers == old(self).servers,
                self.user_id == old(self).user_id,
                self.config == old(self).config,
            decreases channels.len() - i,
        {
            proof {
                assert(all.take(i as int + 1).drop_last() =~= all.take(i as int));
                assert(all.take(i as int + 1).last() == channels@[i as int]@);
            }
            self.channels.insert(channels[i].id, server_id);
            i += 1;
        }
        assert(all.take(channels.len() as int) =~= all);
    }

    /// The bot learns of a community.
    pub fn add_server(&mut self, server: LiveServer) -> (res: Handled)
        ensures
            delivered(final(self)@, res, server_added(old(self)@, server)),
    {
        let mut out: Vec<LogOutcome> = Vec::new();
        assert(views(out@) =~= Seq::empty());
        self.note_channels(&server.channels, server.id);
        let id = server.id;
        match self.config.take_server_config(id, &server.name) {
            None => {
                let mirror = Server::with_clock(server, None, None, self.started);
                store(&mut self.servers, id, mirror);
                Handled { outcomes: out, failure: Some(Error::NotConfigured(id)) }
            },
            Some(config) => {
                let log_channel = config.find_log_channel(&server.channels);
                let mirror = Server::with_clock(server, Some(config), log_channel, self.started);
                if log_channel.is_some() {
                    log(
                        log_channel,
                        id,
                        text("Bot started successfully and is logging to this channel."),
                        &mut out,
                    );
                    assert(views(out@) =~= seq![line_outcome(log_channel, id, Ok(greeting()))]);
                }
                store(&mut self.servers, id, mirror);
                Handled { outcomes: out, failure: None }
            },
        }
    }

    /// The lines that tell a community of a failure that ended an event. The
    /// dispatcher goes on with the next event whatever the failure was.
    pub fn handle_err(&self, e: Error) -> (res: Vec<LogOutcome>)
        ensures
            views(res@) == failure_lines(self@, e),
    {
        let mut out: Vec<LogOutcome> = Vec::new();
        assert(views(out@) =~= Seq::empty());
        match e {
            Error::NotConfigured(server_id) => {
                match self.server_by_server(server_id) {
                    Ok(server) => {
                        log(server.log_channel, server_id, text("No configuration found"), &mut out);
                        assert(views(out@) =~= failure_lines(self@, e));
                    },
                    Err(_) => {},
                }
            },
            _ => {},
        }
        out
    }

    /// Lets an event, received at `now` in nanoseconds on the clock of the
    /// dispatcher, change the mirror of its community, and hands back the
    /// lines to send.
    pub fn handle_event_at(&mut self, now: u128, evt: Event) -> (res: Handled)
        ensures
            delivered(final(self)@, res, dispatched(old(self)@, now as nat, evt)),
    {
        match evt {
            Event::MessageCreate(msg) => self.handle_message_create_at(now, msg),
            Event::MessageUpdate(update) => self.handle_message_update(update),
            Event::MessageDelete(del) => self.handle_message_delete(del),
            Event::MessageDeleteBulk(del) => self.handle_message_delete_bulk(del),
            Event::ServerCreate(PossibleServer::Online(live)) => self.add_server(live),
            Event::ServerCreate(PossibleServer::Offline(_)) => {
                let out: Vec<LogOutcome> = Vec::new();
                assert(views(out@) =~= Seq::empty());
                Handled { outcomes: out, failure: None }
            },
            Event::ServerMemberAdd(server_id, member) => self.handle_server_member_add(
                server_id,
                member,
            ),
            Event::ServerMemberUpdate(update) => self.handle_server_member_update(update),
            Event::ServerMemberRemove(server_id, user) => self.handle_server_member_remove(
                server_id,
                user,
            ),
            Event::ServerRoleCreate(server_id, role) => self.handle_server_role_create(
                server_id,
                role,
            ),
            Event::ServerRoleUpdate(server_id, role) => self.handle_server_role_update(
                server_id,
                role,
            ),
            Event::ServerRoleDelete(server_id, role_id) => self.handle_server_role_delete(
                server_id,
                role_id,
            ),
            Event::ServerBanAdd(server_id, user) => self.handle_server_ban_add(server_id, user),
            Event::ServerBanRemove(server_id, user) => self.handle_server_ban_remove(
                server_id,
                user,
            ),
            Event::ServerEmojisUpdate(server_id, update) => self.handle_server_emojis_update(
                server_id,
                update,
            ),
            Event::ChannelCreate(channel) => self.handle_channel_create(channel),
            Event::ChannelUpdate(channel) => self.handle_channel_update(channel),
            Event::ChannelDelete(channel) => self.handle_channel_delete(channel),
            Event::ChannelPinsAck(channel_id) => self.handle_channel_pins_ack(channel_id),
            Event::ChannelPinsUpdate(channel_id) => self.handle_channel_pins_update(channel_id),
            Event::ReactionAdd(reaction) => self.handle_reaction_add(reaction),
            Event::ReactionRemove(reaction) => self.handle_reaction_remove(reaction),
            Event::Other => {
                let out: Vec<LogOutcome> = Vec::new();
                assert(views(out@) =~= Seq::empty());
                Handled { outcomes: out, failure: None }
            },
        }
    }

    /// Lets an event, received now by the clock of the dispatcher, change
    /// the mirror of its community, and hands back the lines to send.
    pub fn handle_event(&mut self, evt: Event) -> (res: Handled)
        ensures
            exists|now: nat|
                delivered(final(self)@, res, #[trigger] dispatched(old(self)@, now, evt)),
    {
        let now = self.now();
        let res = self.handle_event_at(now, evt);
        assert(delivered(self@, res, dispatched(old(self)@, now as nat, evt)));
        res
    }
}

} // verus!
