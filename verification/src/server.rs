//! The mirror of one community: its roles, members, channels and emojis,
//! the cache of its recent messages, where its log goes and how.

use crate::config::{ServerConfig, Template};
use crate::context::{log_fmt, notification, ContextMap, LogOutcome, LogOutcomeView};
use crate::errors::Error;
use crate::expiring_map::{CacheModel, ExpiringMap};
use crate::model::{
    map_views, views, Emoji, EmojiView, Entity, Item, LiveServer, Member, MemberView, Message,
    MessageView, PublicChannel, PublicChannelView, Role, RoleView, VerificationLevel,
};
use std::collections::HashMap;
use std::time::Instant;
use vstd::prelude::*;

verus! {

broadcast use vstd::std_specs::hash::group_hash_axioms;

/// The time that a message stays in the cache: five minutes, in
/// nanoseconds.
pub const MESSAGE_TTL: u64 = 300_000_000_000;

/// The entities of the list under their ids. Of two with the same id the
/// later one stays.
pub open spec fn indexed<T: Entity>(list: Seq<T::V>) -> Map<u64, T::V>
    decreases list.len(),
{
    if list.len() == 0 {
        Map::empty()
    } else {
        indexed::<T>(list.drop_last()).insert(T::key(list.last()), list.last())
    }
}

/// The entities of the list under their ids.
pub fn index_by_id<T: Entity>(list: &Vec<T>) -> (res: HashMap<u64, T>)
    ensures
        map_views(res@) == indexed::<T>(views(list@)),
{
    let mut res: HashMap<u64, T> = HashMap::new();
    let ghost all = views(list@);
    let mut i: usize = 0;
    assert(all.take(0) =~= Seq::empty());
    assert(map_views(res@) =~= indexed::<T>(all.take(0)));
    while i < list.len()
        invariant
            i <= list.len(),
            all == views(list@),
            map_views(res@) == indexed::<T>(all.take(i as int)),
        decreases list.len() - i,
    {
        let ghost before = res@;
        proof {
            assert(all.take(i as int + 1).drop_last() =~= all.take(i as int));
            assert(all.take(i as int + 1).last() == list@[i as int]@);
        }
        let item = list[i].duplicate();
        res.insert(list[i].id(), item);
        assert(map_views(res@) =~= map_views(before).insert(T::key(list@[i as int]@), item@));
        i += 1;
    }
    assert(all.take(list.len() as int) =~= all);
    res
}

/// Stores the entity under the id. Tells whether the id was taken.
pub fn store<T: View>(map: &mut HashMap<u64, T>, id: u64, item: T) -> (taken: bool)
    ensures
        map_views(final(map)@) == map_views(old(map)@).insert(id, item@),
        taken == map_views(old(map)@).contains_key(id),
{
    let ghost before = map@;
    let had = map.insert(id, item);
    assert(map_views(map@) =~= map_views(before).insert(id, item@));
    had.is_some()
}

/// Takes the entity of the id out of the map, if there is one.
pub fn take<T: View>(map: &mut HashMap<u64, T>, id: u64) -> (res: Option<T>)
    ensures
        map_views(final(map)@) == map_views(old(map)@).remove(id),
        match res {
            Some(item) => map_views(old(map)@).contains_key(id) && map_views(old(map)@)[id]
                == item@,
            None => !map_views(old(map)@).contains_key(id),
        },
{
    let ghost before = map@;
    let res = map.remove(&id);
    assert(map_views(map@) =~= map_views(before).remove(id));
    res
}

/// The entity of the id, if there is one.
pub fn find<T: View>(map: &HashMap<u64, T>, id: u64) -> (res: Option<&T>)
    ensures
        match res {
            Some(item) => map_views(map@).contains_key(id) && map_views(map@)[id] == item@,
            None => !map_views(map@).contains_key(id),
        },
{
    map.get(&id)
}

/// The cache with every message as its view.
pub open spec fn cache_views(c: CacheModel<Message>) -> CacheModel<MessageView> {
    CacheModel { entries: map_views(c.entries), due: c.due, pending: c.pending, ttl: c.ttl }
}

/// The mirror of one community.
pub struct Server {
    pub id: u64,
    pub name: String,
    pub owner_id: u64,
    pub roles: HashMap<u64, Role>,
    pub region: String,
    pub members: HashMap<u64, Member>,
    pub icon: Option<String>,
    pub channels: HashMap<u64, PublicChannel>,
    pub afk_timeout: u64,
    pub afk_channel_id: Option<u64>,
    pub verification_level: VerificationLevel,
    pub emojis: HashMap<u64, Emoji>,
    /// Where the log of the community goes, if anywhere.
    pub log_channel: Option<u64>,
    /// The recent messages of the community. The dispatcher times the cache
    /// by its own clock, through `insert_at`.
    pub messages: ExpiringMap<Message>,
    /// The templates of the community, if it is configured.
    pub config: Option<ServerConfig>,
}

/// The view of `Server`: what it holds as mathematical values.
pub struct ServerView {
    pub id: u64,
    pub name: Seq<char>,
    pub owner_id: u64,
    pub roles: Map<u64, RoleView>,
    pub region: Seq<char>,
    pub members: Map<u64, MemberView>,
    pub icon: Option<Seq<char>>,
    pub channels: Map<u64, PublicChannelView>,
    pub afk_timeout: u64,
    pub afk_channel_id: Option<u64>,
    pub verification_level: VerificationLevel,
    pub emojis: Map<u64, EmojiView>,
    pub log_channel: Option<u64>,
    pub messages: CacheModel<MessageView>,
    pub config: Option<ServerConfig>,
}

impl View for Server {
    type V = ServerView;

    open spec fn view(&self) -> ServerView {
        ServerView {
            id: self.id,
            name: self.name@,
            owner_id: self.owner_id,
            roles: map_views(self.roles@),
            region: self.region@,
            members: map_views(self.members@),
            icon: crate::model::opt_view(self.icon),
            channels: map_views(self.channels@),
            afk_timeout: self.afk_timeout,
            afk_channel_id: self.afk_channel_id,
            verification_level: self.verification_level,
            emojis: map_views(self.emojis@),
            log_channel: self.log_channel,
            messages: cache_views(self.messages@),
            config: self.config,
        }
    }
}

/// The template of a community for the kind of event, if the community is
/// configured and has one.
pub open spec fn template_in(config: Option<ServerConfig>, t: Template) -> Option<Seq<char>> {
    match config {
        Some(c) => c.template(t),
        None => None,
    }
}

/// The notifications of one event of the kind `t` in the community, with
/// the values `vars`.
pub open spec fn notice(s: ServerView, t: Template, vars: Map<Seq<char>, Seq<char>>) -> Seq<
    LogOutcomeView,
> {
    notification(s.log_channel, s.id, template_in(s.config, t), vars)
}

impl Server {
    /// The mirror of a community in the state in which the bot learns of it:
    /// every entity under its id, and no message cached.
    pub open spec fn initial(
        server: LiveServer,
        config: Option<ServerConfig>,
        log_channel: Option<u64>,
    ) -> ServerView {
        ServerView {
            id: server.id,
            name: server.name@,
            owner_id: server.owner_id,
            roles: indexed::<Role>(views(server.roles@)),
            region: server.region@,
            members: indexed::<Member>(views(server.members@)),
            icon: crate::model::opt_view(server.icon),
            channels: indexed::<PublicChannel>(views(server.channels@)),
            afk_timeout: server.afk_timeout,
            afk_channel_id: server.afk_channel_id,
            verification_level: server.verification_level,
            emojis: indexed::<Emoji>(views(server.emojis@)),
            log_channel,
            messages: CacheModel::<MessageView>::empty(MESSAGE_TTL as nat),
            config,
        }
    }

    /// The mirror of a community in the state in which the bot learns of it,
    /// with an empty cache of messages that is timed by a clock of its own.
    pub fn new(server: LiveServer, config: Option<ServerConfig>, log_channel: Option<u64>) -> (res:
        Server)
        ensures
            res@ == Self::initial(server, config, log_channel),
    {
        Self::build(server, config, log_channel, ExpiringMap::new(MESSAGE_TTL))
    }

    /// The mirror of a community in the state in which the bot learns of it,
    /// with an empty cache of messages that is timed by the clock that started
    /// at `origin`.
    pub fn with_clock(
        server: LiveServer,
        config: Option<ServerConfig>,
        log_channel: Option<u64>,
        origin: Instant,
    ) -> (res: Server)
        ensures
            res@ == Self::initial(server, config, log_channel),
    {
        Self::build(server, config, log_channel, ExpiringMap::with_clock(MESSAGE_TTL, origin))
    }

    /// The mirror of a community around an empty cache of messages.
    fn build(
        server: LiveServer,
        config: Option<ServerConfig>,
        log_channel: Option<u64>,
        messages: ExpiringMap<Message>,
    ) -> (res: Server)
        requires
            messages@ == CacheModel::<Message>::empty(MESSAGE_TTL as nat),
        ensures
            res@ == Self::initial(server, config, log_channel),
    {
        let roles = index_by_id(&server.roles);
        let members = index_by_id(&server.members);
        let channels = index_by_id(&server.channels);
        let emojis = index_by_id(&server.emojis);
        assert(map_views(messages@.entries) =~= Map::<u64, MessageView>::empty());
        Server {
            id: server.id,
            name: server.name,
            owner_id: server.owner_id,
            roles,
            region: server.region,
            members,
            icon: server.icon,
            channels,
            afk_timeout: server.afk_timeout,
            afk_channel_id: server.afk_channel_id,
            verification_level: server.verification_level,
            emojis,
            log_channel,
            messages,
            config,
        }
    }

    /// The cached member of this user id.
    pub fn member(&self, id: u64) -> (res: Result<&Member, Error>)
        ensures
            match res {
                Ok(m) => self@.members.contains_key(id) && self@.members[id] == m@,
                Err(e) => !self@.members.contains_key(id) && e == Error::UncachedMember(id),
            },
    {
        match find(&self.members, id) {
            Some(m) => Ok(m),
            None => Err(Error::UncachedMember(id)),
        }
    }

    /// The cached role of this id.
    pub fn role(&self, id: u64) -> (res: Result<&Role, Error>)
        ensures
            match res {
                Ok(r) => self@.roles.contains_key(id) && self@.roles[id] == r@,
                Err(e) => !self@.roles.contains_key(id) && e == Error::UncachedRole(id),
            },
    {
        match find(&self.roles, id) {
            Some(r) => Ok(r),
            None => Err(Error::UncachedRole(id)),
        }
    }

    /// The cached channel of this id.
    pub fn channel(&self, id: u64) -> (res: Result<&PublicChannel, Error>)
        ensures
            match res {
                Ok(c) => self@.channels.contains_key(id) && self@.channels[id] == c@,
                Err(e) => !self@.channels.contains_key(id) && e == Error::UncachedChannel(id),
            },
    {
        match find(&self.channels, id) {
            Some(c) => Ok(c),
            None => Err(Error::UncachedChannel(id)),
        }
    }

    /// The cached emoji of this id.
    pub fn emoji(&self, id: u64) -> (res: Result<&Emoji, Error>)
        ensures
            match res {
                Ok(e) => self@.emojis.contains_key(id) && self@.emojis[id] == e@,
                Err(e) => !self@.emojis.contains_key(id) && e == Error::UncachedEmoji(id),
            },
    {
        match find(&self.emojis, id) {
            Some(e) => Ok(e),
            None => Err(Error::UncachedEmoji(id)),
        }
    }

    /// The cached message of this id, if it is cached.
    pub fn message(&self, id: u64) -> (res: Option<&Message>)
        ensures
            match res {
                Some(m) => self@.messages.entries.contains_key(id) && self@.messages.entries[id]
                    == m@,
                None => !self@.messages.entries.contains_key(id),
            },
    {
        self.messages.get(&id)
    }

    /// Stores a member that joined. The member is stored even where one of
    /// its user id was cached, which is reported.
    pub fn add_member(&mut self, member: Member) -> (res: Result<(), Error>)
        ensures
            final(self)@ == (ServerView {
                members: old(self)@.members.insert(member@.user.id, member@),
                ..old(self)@
            }),
            res == (if old(self)@.members.contains_key(member@.user.id) {
                Err::<(), Error>(Error::DuplicateMember(member@.user.id))
            } else {
                Ok::<(), Error>(())
            }),
    {
        let id = member.user.id;
        if store(&mut self.members, id, member) {
            Err(Error::DuplicateMember(id))
        } else {
            Ok(())
        }
    }

    /// Takes out a member that left. Where none of the user id is cached,
    /// nothing changes, which is reported.
    pub fn remove_member(&mut self, id: u64) -> (res: Result<Member, Error>)
        ensures
            final(self)@ == (ServerView { members: old(self)@.members.remove(id), ..old(self)@ }),
            match res {
                Ok(m) => old(self)@.members.contains_key(id) && old(self)@.members[id] == m@,
                Err(e) => !old(self)@.members.contains_key(id) && e == Error::UncachedMember(id),
            },
    {
        match take(&mut self.members, id) {
            Some(m) => Ok(m),
            None => Err(Error::UncachedMember(id)),
        }
    }

    /// Stores a role that was created. The role is stored even where one of
    /// its id was cached, which is reported.
    pub fn add_role(&mut self, role: Role) -> (res: Result<(), Error>)
        ensures
            final(self)@ == (ServerView {
                roles: old(self)@.roles.insert(role@.id, role@),
                ..old(self)@
            }),
            res == (if old(self)@.roles.contains_key(role@.id) {
                Err::<(), Error>(Error::DuplicateRole(role@.id))
            } else {
                Ok::<(), Error>(())
            }),
    {
        let id = role.id;
        if store(&mut self.roles, id, role) {
            Err(Error::DuplicateRole(id))
        } else {
            Ok(())
        }
    }

    /// Takes out a role that was deleted. Where none of the id is cached,
    /// nothing changes, which is reported.
    pub fn remove_role(&mut self, id: u64) -> (res: Result<Role, Error>)
        ensures
            final(self)@ == (ServerView { roles: old(self)@.roles.remove(id), ..old(self)@ }),
            match res {
                Ok(r) => old(self)@.roles.contains_key(id) && old(self)@.roles[id] == r@,
                Err(e) => !old(self)@.roles.contains_key(id) && e == Error::UncachedRole(id),
            },
    {
        match take(&mut self.roles, id) {
            Some(r) => Ok(r),
            None => Err(Error::UncachedRole(id)),
        }
    }

    /// Stores a channel that was created. The channel is stored even where
    /// one of its id was cached, which is reported.
    pub fn add_channel(&mut self, channel: PublicChannel) -> (res: Result<(), Error>)
        ensures
            final(self)@ == (ServerView {
                channels: old(self)@.channels.insert(channel@.id, channel@),
                ..old(self)@
            }),
            res == (if old(self)@.channels.contains_key(channel@.id) {
                Err::<(), Error>(Error::DuplicateChannel(channel@.id))
            } else {
                Ok::<(), Error>(())
            }),
    {
        let id = channel.id;
        if store(&mut self.channels, id, channel) {
            Err(Error::DuplicateChannel(id))
        } else {
            Ok(())
        }
    }

    /// Puts the channel of an update in the place of the cached channel of
    /// its id, which is handed back. The channel is stored even where none of
    /// its id was cached, which is reported.
    pub fn replace_channel(&mut self, channel: PublicChannel) -> (res: Result<PublicChannel, Error>)
        ensures
            final(self)@ == (ServerView {
                channels: old(self)@.channels.insert(channel@.id, channel@),
                ..old(self)@
            }),
            match res {
                Ok(c) => old(self)@.channels.contains_key(channel@.id) && old(
                    self,
                )@.channels[channel@.id] == c@,
                Err(e) => !old(self)@.channels.contains_key(channel@.id) && e
                    == Error::UncachedChannel(channel@.id),
            },
    {
        let id = channel.id;
        let ghost before = self.channels@;
        let had = self.channels.insert(id, channel);
        assert(map_views(self.channels@) =~= map_views(before).insert(id, channel@));
        match had {
            Some(c) => Ok(c),
            None => Err(Error::UncachedChannel(id)),
        }
    }

    /// Takes out a channel that was deleted. Where none of the id is cached,
    /// nothing changes, which is reported.
    pub fn remove_channel(&mut self, id: u64) -> (res: Result<PublicChannel, Error>)
        ensures
            final(self)@ == (ServerView { channels: old(self)@.channels.remove(id), ..old(self)@ }),
            match res {
                Ok(c) => old(self)@.channels.contains_key(id) && old(self)@.channels[id] == c@,
                Err(e) => !old(self)@.channels.contains_key(id) && e == Error::UncachedChannel(id),
            },
    {
        match take(&mut self.channels, id) {
            Some(c) => Ok(c),
            None => Err(Error::UncachedChannel(id)),
        }
    }

    /// Fills in the template of the community for the kind of event, if it
    /// has one, and appends what becomes of the line to `out`.
    pub fn notify(&self, t: Template, vars: &ContextMap, out: &mut Vec<LogOutcome>)
        ensures
            views(final(out)@) == views(old(out)@) + notice(self@, t, vars@),
    {
        match &self.config {
            Some(config) => log_fmt(self.log_channel, self.id, config.template_of(t), vars, out),
            None => {
                let none: Option<String> = None;
                log_fmt(self.log_channel, self.id, &none, vars, out)
            },
        }
    }
}

} // verus!
