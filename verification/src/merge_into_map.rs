//! The named values that an entity hands to a template.

use crate::context::{prefixed, ContextMap};
use crate::errors::Error;
use crate::items::{labels, labels_to_string};
use crate::diff::channel::{ChannelUpdateDiff, ChannelUpdateDiffView};
use crate::diff::message::{MessageUpdateDiff, MessageUpdateDiffView};
use crate::diff::permission::{ChannelPermission, PermissionType};
use crate::model::{
    views, Attachment, ChannelType, Emoji, Member, Message, MessageDelete,
    MessageReaction, MessageType, MessageUpdate, Permissions, PublicChannel, Reaction,
    ReactionEmoji, Role, User, UserView,
};
use crate::text::{
    bool_to_string, bracketed, decimal, hexadecimal, i64_to_string, join, joined, or_none,
    signed_decimal, text, text_or_none, truth, u64_to_hex, u64_to_string,
};
use vstd::prelude::*;

verus! {

/// The values of a map, named by texts.
pub type Values = Map<Seq<char>, Seq<char>>;

/// An entity that hands named values to a template.
pub trait MergeIntoMap: Sized {
    /// The named values of the entity, or why it has none.
    spec fn named_values(&self) -> Result<Values, Error>;

    /// Gives the named values of the entity to the map. Where the entity has
    /// none, the map stays as it is.
    fn merge_into_map(self, map: &mut ContextMap) -> (res: Result<(), Error>)
        ensures
            match self.named_values() {
                Ok(values) => res is Ok && final(map)@ == old(map)@.union_prefer_right(values),
                Err(e) => res == Err::<(), Error>(e) && final(map)@ == old(map)@,
            },
    ;

    /// Gives the named values of the entity to the map, each under its name
    /// with `prefix` before it.
    fn merge_into_map_prefix(self, map: &mut ContextMap, prefix: &str) -> (res: Result<(), Error>)
        ensures
            match self.named_values() {
                Ok(values) => res is Ok && final(map)@ == old(map)@.union_prefer_right(
                    prefixed(values, prefix@),
                ),
                Err(e) => res == Err::<(), Error>(e) && final(map)@ == old(map)@,
            },
    {
        match self.into_map() {
            Ok(values) => {
                map.merge_prefixed(prefix, values);
                Ok(())
            },
            Err(e) => Err(e),
        }
    }

    /// The named values of the entity as a map.
    fn into_map(self) -> (res: Result<ContextMap, Error>)
        ensures
            match self.named_values() {
                Ok(values) => res is Ok && res->Ok_0@ == values,
                Err(e) => res is Err && res->Err_0 == e,
            },
    {
        let mut map = ContextMap::new();
        let ghost values = self.named_values();
        match self.merge_into_map(&mut map) {
            Ok(()) => {
                assert(map@ =~= values->Ok_0);
                Ok(map)
            },
            Err(e) => Err(e),
        }
    }

    /// The named values of the entity as a map, each under its name with
    /// `prefix` before it.
    fn into_map_prefix(self, prefix: &str) -> (res: Result<ContextMap, Error>)
        ensures
            match self.named_values() {
                Ok(values) => res is Ok && res->Ok_0@ == prefixed(values, prefix@),
                Err(e) => res is Err && res->Err_0 == e,
            },
    {
        let mut map = ContextMap::new();
        let ghost values = self.named_values();
        match self.merge_into_map_prefix(&mut map, prefix) {
            Ok(()) => {
                assert(map@ =~= prefixed(values->Ok_0, prefix@));
                Ok(map)
            },
            Err(e) => Err(e),
        }
    }
}

/// Gives the name the value.
pub fn put(map: &mut ContextMap, key: &str, value: String)
    ensures
        final(map)@ == old(map)@.insert(key@, value@),
{
    map.insert(text(key), value);
}

/// The name of the kind of a message.
pub open spec fn message_type_name(kind: MessageType) -> Seq<char> {
    match kind {
        MessageType::Regular => "Regular"@,
        MessageType::GroupRecipientAddition => "GroupRecipientAddition"@,
        MessageType::GroupRecipientRemoval => "GroupRecipientRemoval"@,
        MessageType::GroupCallCreation => "GroupCallCreation"@,
        MessageType::GroupNameUpdate => "GroupNameUpdate"@,
        MessageType::GroupIconUpdate => "GroupIconUpdate"@,
        MessageType::MessagePinned => "MessagePinned"@,
    }
}

/// The name of the kind of a message.
pub fn message_type_text(kind: MessageType) -> (res: String)
    ensures
        res@ == message_type_name(kind),
{
    match kind {
        MessageType::Regular => text("Regular"),
        MessageType::GroupRecipientAddition => text("GroupRecipientAddition"),
        MessageType::GroupRecipientRemoval => text("GroupRecipientRemoval"),
        MessageType::GroupCallCreation => text("GroupCallCreation"),
        MessageType::GroupNameUpdate => text("GroupNameUpdate"),
        MessageType::GroupIconUpdate => text("GroupIconUpdate"),
        MessageType::MessagePinned => text("MessagePinned"),
    }
}

/// The name of the kind of a channel.
pub open spec fn channel_type_name(kind: ChannelType) -> Seq<char> {
    match kind {
        ChannelType::Group => "Group"@,
        ChannelType::Private => "Private"@,
        ChannelType::Text => "Text"@,
        ChannelType::Voice => "Voice"@,
    }
}

/// The name of the kind of a channel.
pub fn channel_type_text(kind: ChannelType) -> (res: String)
    ensures
        res@ == channel_type_name(kind),
{
    match kind {
        ChannelType::Group => text("Group"),
        ChannelType::Private => text("Private"),
        ChannelType::Text => text("Text"),
        ChannelType::Voice => text("Voice"),
    }
}

/// The number as text, or `None` where there is none.
pub open spec fn decimal_or_none(o: Option<u64>) -> Seq<char> {
    match o {
        Some(n) => decimal(n as nat),
        None => "None"@,
    }
}

/// The number as text, or `None` where there is none.
pub fn number_or_none(o: Option<u64>) -> (res: String)
    ensures
        res@ == decimal_or_none(o),
{
    match o {
        Some(n) => u64_to_string(n),
        None => text("None"),
    }
}

/// The named values of a user.
pub open spec fn user_values(u: crate::model::UserView) -> Values {
    Map::empty().insert("id"@, decimal(u.id as nat)).insert("name"@, u.name).insert(
        "discriminator"@,
        decimal(u.discriminator as nat),
    ).insert("avatar"@, or_none(u.avatar)).insert(
        "type"@,
        if u.bot {
            "bot"@
        } else {
            "member"@
        },
    ).insert(
        "Type"@,
        if u.bot {
            "Bot"@
        } else {
            "Member"@
        },
    )
}

impl MergeIntoMap for User {
    open spec fn named_values(&self) -> Result<Values, Error> {
        Ok(user_values(self@))
    }

    fn merge_into_map(self, map: &mut ContextMap) -> (res: Result<(), Error>) {
        let mut values = ContextMap::new();
        put(&mut values, "id", u64_to_string(self.id));
        put(&mut values, "name", self.name);
        put(&mut values, "discriminator", u64_to_string(self.discriminator as u64));
        put(&mut values, "avatar", text_or_none(self.avatar));
        if self.bot {
            put(&mut values, "type", text("bot"));
            put(&mut values, "Type", text("Bot"));
        } else {
            put(&mut values, "type", text("member"));
            put(&mut values, "Type", text("Member"));
        }
        map.merge(values);
        Ok(())
    }
}

/// The text, or nothing where there is none.
pub open spec fn or_empty(o: Option<Seq<char>>) -> Seq<char> {
    match o {
        Some(s) => s,
        None => Seq::empty(),
    }
}

/// The named values of a member: its own and those of its user.
pub open spec fn member_values(m: crate::model::MemberView) -> Values {
    Map::empty().insert("roles"@, bracketed(labels::<u64>(m.roles))).insert(
        "nick"@,
        or_empty(m.nick),
    ).insert("time"@, m.joined_at).insert("mute"@, truth(m.mute)).insert(
        "deaf"@,
        truth(m.deaf),
    ).union_prefer_right(user_values(m.user))
}

impl MergeIntoMap for Member {
    open spec fn named_values(&self) -> Result<Values, Error> {
        Ok(member_values(self@))
    }

    fn merge_into_map(self, map: &mut ContextMap) -> (res: Result<(), Error>) {
        let mut values = ContextMap::new();
        put(&mut values, "roles", labels_to_string(&self.roles));
        let nick = match self.nick {
            Some(n) => n,
            None => String::new(),
        };
        put(&mut values, "nick", nick);
        put(&mut values, "time", self.joined_at);
        put(&mut values, "mute", bool_to_string(self.mute));
        put(&mut values, "deaf", bool_to_string(self.deaf));
        let _ = self.user.merge_into_map(&mut values);
        map.merge(values);
        Ok(())
    }
}

/// The named values of the deletion of a message.
pub open spec fn message_delete_values(d: MessageDelete) -> Values {
    Map::empty().insert("channel_id"@, decimal(d.channel_id as nat)).insert(
        "message_id"@,
        decimal(d.message_id as nat),
    )
}

impl MergeIntoMap for MessageDelete {
    open spec fn named_values(&self) -> Result<Values, Error> {
        Ok(message_delete_values(*self))
    }

    fn merge_into_map(self, map: &mut ContextMap) -> (res: Result<(), Error>) {
        let mut values = ContextMap::new();
        put(&mut values, "channel_id", u64_to_string(self.channel_id));
        put(&mut values, "message_id", u64_to_string(self.message_id));
        map.merge(values);
        Ok(())
    }
}

/// The named values of an attachment.
pub open spec fn attachment_values(a: crate::model::AttachmentView) -> Values {
    Map::empty().insert("id"@, a.id).insert("filename"@, a.filename).insert("url"@, a.url).insert(
        "proxy_url"@,
        a.proxy_url,
    ).insert("size"@, decimal(a.size as nat)).insert(
        "width"@,
        match a.dimensions {
            Some(d) => decimal(d.0 as nat),
            None => "None"@,
        },
    ).insert(
        "height"@,
        match a.dimensions {
            Some(d) => decimal(d.1 as nat),
            None => "None"@,
        },
    )
}

impl MergeIntoMap for Attachment {
    open spec fn named_values(&self) -> Result<Values, Error> {
        Ok(attachment_values(self@))
    }

    fn merge_into_map(self, map: &mut ContextMap) -> (res: Result<(), Error>) {
        let mut values = ContextMap::new();
        put(&mut values, "id", self.id);
        put(&mut values, "filename", self.filename);
        put(&mut values, "url", self.url);
        put(&mut values, "proxy_url", self.proxy_url);
        put(&mut values, "size", u64_to_string(self.size));
        match self.dimensions {
            Some(d) => {
                put(&mut values, "width", u64_to_string(d.0));
                put(&mut values, "height", u64_to_string(d.1));
            },
            None => {
                put(&mut values, "width", text("None"));
                put(&mut values, "height", text("None"));
            },
        }
        map.merge(values);
        Ok(())
    }
}

/// The named values of an emoji.
pub open spec fn emoji_values(e: crate::model::EmojiView) -> Values {
    Map::empty().insert("id"@, decimal(e.id as nat)).insert("name"@, e.name).insert(
        "managed"@,
        truth(e.managed),
    ).insert("require_colons"@, truth(e.require_colons)).insert(
        "roles"@,
        bracketed(labels::<u64>(e.roles)),
    )
}

impl MergeIntoMap for Emoji {
    open spec fn named_values(&self) -> Result<Values, Error> {
        Ok(emoji_values(self@))
    }

    fn merge_into_map(self, map: &mut ContextMap) -> (res: Result<(), Error>) {
        let mut values = ContextMap::new();
        put(&mut values, "id", u64_to_string(self.id));
        put(&mut values, "name", self.name);
        put(&mut values, "managed", bool_to_string(self.managed));
        put(&mut values, "require_colons", bool_to_string(self.require_colons));
        put(&mut values, "roles", labels_to_string(&self.roles));
        map.merge(values);
        Ok(())
    }
}

/// The named values of the emoji of a reaction.
pub open spec fn reaction_emoji_values(e: crate::model::ReactionEmojiView) -> Values {
    match e {
        crate::model::ReactionEmojiView::Unicode(name) => Map::empty().insert("name"@, name).insert(
            "id"@,
            "None"@,
        ),
        crate::model::ReactionEmojiView::Custom { name, id } => Map::empty().insert(
            "name"@,
            name,
        ).insert("id"@, decimal(id as nat)),
    }
}

impl MergeIntoMap for ReactionEmoji {
    open spec fn named_values(&self) -> Result<Values, Error> {
        Ok(reaction_emoji_values(self@))
    }

    fn merge_into_map(self, map: &mut ContextMap) -> (res: Result<(), Error>) {
        let mut values = ContextMap::new();
        match self {
            ReactionEmoji::Unicode(name) => {
                put(&mut values, "name", name);
                put(&mut values, "id", text("None"));
            },
            ReactionEmoji::Custom { name, id } => {
                put(&mut values, "name", name);
                put(&mut values, "id", u64_to_string(id));
            },
        }
        map.merge(values);
        Ok(())
    }
}

/// The named values of a reaction: its own and those of its emoji.
pub open spec fn reaction_values(r: crate::model::ReactionView) -> Values {
    Map::empty().insert("channel_id"@, decimal(r.channel_id as nat)).insert(
        "message_id"@,
        decimal(r.message_id as nat),
    ).insert("user_id"@, decimal(r.user_id as nat)).union_prefer_right(
        prefixed(reaction_emoji_values(r.emoji), "emoji_"@),
    )
}

impl MergeIntoMap for Reaction {
    open spec fn named_values(&self) -> Result<Values, Error> {
        Ok(reaction_values(self@))
    }

    fn merge_into_map(self, map: &mut ContextMap) -> (res: Result<(), Error>) {
        let mut values = ContextMap::new();
        put(&mut values, "channel_id", u64_to_string(self.channel_id));
        put(&mut values, "message_id", u64_to_string(self.message_id));
        put(&mut values, "user_id", u64_to_string(self.user_id));
        let _ = self.emoji.merge_into_map_prefix(&mut values, "emoji_");
        map.merge(values);
        Ok(())
    }
}

/// One named permission: its bit, its name in a template, and its name in a
/// list of permissions.
pub struct Flag {
    pub bit: u64,
    pub key: String,
    pub name: String,
}

impl View for Flag {
    type V = (u64, Seq<char>, Seq<char>);

    open spec fn view(&self) -> (u64, Seq<char>, Seq<char>) {
        (self.bit, self.key@, self.name@)
    }
}

/// All named permissions.
pub open spec fn flags() -> Seq<(u64, Seq<char>, Seq<char>)> {
    seq![
        (crate::diff::permission::CREATE_INVITE, "create_invite"@, "CREATE_INVITE"@),
        (crate::diff::permission::KICK_MEMBERS, "kick_members"@, "KICK_MEMBERS"@),
        (crate::diff::permission::BAN_MEMBERS, "ban_members"@, "BAN_MEMBERS"@),
        (crate::diff::permission::ADMINISTRATOR, "administrator"@, "ADMINISTRATOR"@),
        (crate::diff::permission::MANAGE_ROLES, "manage_roles"@, "MANAGE_ROLES"@),
        (crate::diff::permission::MANAGE_CHANNELS, "manage_channels"@, "MANAGE_CHANNELS"@),
        (crate::diff::permission::MANAGE_SERVER, "manage_server"@, "MANAGE_SERVER"@),
        (crate::diff::permission::CHANGE_NICKNAMES, "change_nicknames"@, "CHANGE_NICKNAMES"@),
        (crate::diff::permission::MANAGE_NICKNAMES, "manage_nicknames"@, "MANAGE_NICKNAMES"@),
        (crate::diff::permission::MANAGE_EMOJIS, "manage_emojis"@, "MANAGE_EMOJIS"@),
        (crate::diff::permission::MANAGE_WEBHOOKS, "manage_webhooks"@, "MANAGE_WEBHOOKS"@),
        (crate::diff::permission::READ_MESSAGES, "read_messages"@, "READ_MESSAGES"@),
        (crate::diff::permission::SEND_MESSAGES, "send_messages"@, "SEND_MESSAGES"@),
        (crate::diff::permission::SEND_TTS_MESSAGES, "send_tts_messages"@, "SEND_TTS_MESSAGES"@),
        (crate::diff::permission::MANAGE_MESSAGES, "manage_messages"@, "MANAGE_MESSAGES"@),
        (crate::diff::permission::EMBED_LINKS, "embed_links"@, "EMBED_LINKS"@),
        (crate::diff::permission::ATTACH_FILES, "attach_files"@, "ATTACH_FILES"@),
        (crate::diff::permission::READ_HISTORY, "read_history"@, "READ_HISTORY"@),
        (crate::diff::permission::MENTION_EVERYONE, "mention_everyone"@, "MENTION_EVERYONE"@),
        (crate::diff::permission::EXTERNAL_EMOJIS, "external_emojis"@, "EXTERNAL_EMOJIS"@),
        (crate::diff::permission::ADD_REACTIONS, "add_reactions"@, "ADD_REACTIONS"@),
        (crate::diff::permission::VOICE_CONNECT, "voice_connect"@, "VOICE_CONNECT"@),
        (crate::diff::permission::VOICE_SPEAK, "voice_speak"@, "VOICE_SPEAK"@),
        (crate::diff::permission::VOICE_MUTE_MEMBERS, "voice_mute_members"@, "VOICE_MUTE_MEMBERS"@),
        (
            crate::diff::permission::VOICE_DEAFEN_MEMBERS,
            "voice_deafen_members"@,
            "VOICE_DEAFEN_MEMBERS"@,
        ),
        (crate::diff::permission::VOICE_MOVE_MEMBERS, "voice_move_members"@, "VOICE_MOVE_MEMBERS"@),
        (crate::diff::permission::VOICE_USE_VAD, "voice_use_vad"@, "VOICE_USE_VAD"@),
    ]
}

fn flag(bit: u64, key: &str, name: &str) -> (res: Flag)
    ensures
        res@ == (bit, key@, name@),
{
    Flag { bit, key: text(key), name: text(name) }
}

/// All named permissions.
pub fn flag_list() -> (res: Vec<Flag>)
    ensures
        views(res@) == flags(),
{
    let mut res: Vec<Flag> = Vec::new();
    res.push(flag(crate::diff::permission::CREATE_INVITE, "create_invite", "CREATE_INVITE"));
    res.push(flag(crate::diff::permission::KICK_MEMBERS, "kick_members", "KICK_MEMBERS"));
    res.push(flag(crate::diff::permission::BAN_MEMBERS, "ban_members", "BAN_MEMBERS"));
    res.push(flag(crate::diff::permission::ADMINISTRATOR, "administrator", "ADMINISTRATOR"));
    res.push(flag(crate::diff::permission::MANAGE_ROLES, "manage_roles", "MANAGE_ROLES"));
    res.push(flag(crate::diff::permission::MANAGE_CHANNELS, "manage_channels", "MANAGE_CHANNELS"));
    res.push(flag(crate::diff::permission::MANAGE_SERVER, "manage_server", "MANAGE_SERVER"));
    res.push(
        flag(crate::diff::permission::CHANGE_NICKNAMES, "change_nicknames", "CHANGE_NICKNAMES"),
    );
    res.push(
        flag(crate::diff::permission::MANAGE_NICKNAMES, "manage_nicknames", "MANAGE_NICKNAMES"),
    );
    res.push(flag(crate::diff::permission::MANAGE_EMOJIS, "manage_emojis", "MANAGE_EMOJIS"));
    res.push(flag(crate::diff::permission::MANAGE_WEBHOOKS, "manage_webhooks", "MANAGE_WEBHOOKS"));
    res.push(flag(crate::diff::permission::READ_MESSAGES, "read_messages", "READ_MESSAGES"));
    res.push(flag(crate::diff::permission::SEND_MESSAGES, "send_messages", "SEND_MESSAGES"));
    res.push(
        flag(crate::diff::permission::SEND_TTS_MESSAGES, "send_tts_messages", "SEND_TTS_MESSAGES"),
    );
    res.push(flag(crate::diff::permission::MANAGE_MESSAGES, "manage_messages", "MANAGE_MESSAGES"));
    res.push(flag(crate::diff::permission::EMBED_LINKS, "embed_links", "EMBED_LINKS"));
    res.push(flag(crate::diff::permission::ATTACH_FILES, "attach_files", "ATTACH_FILES"));
    res.push(flag(crate::diff::permission::READ_HISTORY, "read_history", "READ_HISTORY"));
    res.push(
        flag(crate::diff::permission::MENTION_EVERYONE, "mention_everyone", "MENTION_EVERYONE"),
    );
    res.push(flag(crate::diff::permission::EXTERNAL_EMOJIS, "external_emojis", "EXTERNAL_EMOJIS"));
    res.push(flag(crate::diff::permission::ADD_REACTIONS, "add_reactions", "ADD_REACTIONS"));
    res.push(flag(crate::diff::permission::VOICE_CONNECT, "voice_connect", "VOICE_CONNECT"));
    res.push(flag(crate::diff::permission::VOICE_SPEAK, "voice_speak", "VOICE_SPEAK"));
    res.push(
        flag(
            crate::diff::permission::VOICE_MUTE_MEMBERS,
            "voice_mute_members",
            "VOICE_MUTE_MEMBERS",
        ),
    );
    res.push(
        flag(
            crate::diff::permission::VOICE_DEAFEN_MEMBERS,
            "voice_deafen_members",
            "VOICE_DEAFEN_MEMBERS",
        ),
    );
    res.push(
        flag(
            crate::diff::permission::VOICE_MOVE_MEMBERS,
            "voice_move_members",
            "VOICE_MOVE_MEMBERS",
        ),
    );
    res.push(flag(crate::diff::permission::VOICE_USE_VAD, "voice_use_vad", "VOICE_USE_VAD"));
    assert(views(res@) =~= flags());
    res
}

/// For each permission of the table, under its name, whether the set holds
/// it.
pub open spec fn flag_values(set: Permissions, table: Seq<(u64, Seq<char>, Seq<char>)>) -> Values
    decreases table.len(),
{
    if table.len() == 0 {
        Map::empty()
    } else {
        flag_values(set, table.drop_last()).insert(table.last().1, truth(set.has(table.last().0)))
    }
}

/// The names of the permissions of the table that the set holds.
pub open spec fn flag_names(set: Permissions, table: Seq<(u64, Seq<char>, Seq<char>)>) -> Seq<
    Seq<char>,
>
    decreases table.len(),
{
    if table.len() == 0 {
        Seq::empty()
    } else if set.has(table.last().0) {
        flag_names(set, table.drop_last()).push(table.last().2)
    } else {
        flag_names(set, table.drop_last())
    }
}

/// The names of the permissions that the set holds, separated by a bar.
pub open spec fn permissions_text(set: Permissions) -> Seq<char> {
    joined(flag_names(set, flags()), " | "@)
}

/// The names of the permissions that the set holds, separated by a bar.
pub fn permissions_to_string(set: Permissions) -> (res: String)
    ensures
        res@ == permissions_text(set),
{
    let table = flag_list();
    let mut names: Vec<String> = Vec::new();
    let ghost all = views(table@);
    let mut i: usize = 0;
    assert(all.take(0) =~= Seq::empty());
    assert(views(names@) =~= flag_names(set, all.take(0)));
    while i < table.len()
        invariant
            i <= table.len(),
            all == views(table@),
            views(names@) == flag_names(set, all.take(i as int)),
        decreases table.len() - i,
    {
        proof {
            assert(all.take(i as int + 1).drop_last() =~= all.take(i as int));
            assert(all.take(i as int + 1).last() == all[i as int]);
        }
        if set.contains(table[i].bit) {
            let name = table[i].name.clone();
            proof {
                crate::model::lemma_views_push(names@, name);
            }
            names.push(name);
        }
        i += 1;
    }
    assert(all.take(table.len() as int) =~= all);
    join(&names, " | ")
}

impl MergeIntoMap for Permissions {
    open spec fn named_values(&self) -> Result<Values, Error> {
        Ok(flag_values(*self, flags()))
    }

    fn merge_into_map(self, map: &mut ContextMap) -> (res: Result<(), Error>) {
        let table = flag_list();
        let mut values = ContextMap::new();
        let ghost all = views(table@);
        let mut i: usize = 0;
        assert(all.take(0) =~= Seq::empty());
        while i < table.len()
            invariant
                i <= table.len(),
                all == views(table@),
                values@ == flag_values(self, all.take(i as int)),
            decreases table.len() - i,
        {
            proof {
                assert(all.take(i as int + 1).drop_last() =~= all.take(i as int));
                assert(all.take(i as int + 1).last() == all[i as int]);
            }
            values.insert(table[i].key.clone(), bool_to_string(self.contains(table[i].bit)));
            i += 1;
        }
        assert(all.take(table.len() as int) =~= all);
        map.merge(values);
        Ok(())
    }
}

/// The named values of a role: its own and those of its permissions.
pub open spec fn role_values(r: crate::model::RoleView) -> Values {
    Map::empty().insert("id"@, decimal(r.id as nat)).insert("name"@, r.name).insert(
        "color"@,
        hexadecimal(r.color as nat),
    ).insert("hoist"@, truth(r.hoist)).insert("managed"@, truth(r.managed)).insert(
        "position"@,
        signed_decimal(r.position as int),
    ).insert("mentionable"@, truth(r.mentionable)).insert(
        "perms"@,
        permissions_text(r.permissions),
    ).union_prefer_right(prefixed(flag_values(r.permissions, flags()), "perm_"@))
}

impl MergeIntoMap for Role {
    open spec fn named_values(&self) -> Result<Values, Error> {
        Ok(role_values(self@))
    }

    fn merge_into_map(self, map: &mut ContextMap) -> (res: Result<(), Error>) {
        let mut values = ContextMap::new();
        put(&mut values, "id", u64_to_string(self.id));
        put(&mut values, "name", self.name);
        put(&mut values, "color", u64_to_hex(self.color));
        put(&mut values, "hoist", bool_to_string(self.hoist));
        put(&mut values, "managed", bool_to_string(self.managed));
        put(&mut values, "position", i64_to_string(self.position));
        put(&mut values, "mentionable", bool_to_string(self.mentionable));
        put(&mut values, "perms", permissions_to_string(self.permissions));
        let _ = self.permissions.merge_into_map_prefix(&mut values, "perm_");
        map.merge(values);
        Ok(())
    }
}

/// The named values of a channel.
pub open spec fn channel_values(c: crate::model::PublicChannelView) -> Values {
    Map::empty().insert("id"@, decimal(c.id as nat)).insert("name"@, c.name).insert(
        "Type"@,
        channel_type_name(c.kind),
    ).insert(
        "perms"@,
        bracketed(labels::<crate::model::PermissionOverwrite>(c.permission_overwrites)),
    ).insert("topic"@, or_none(c.topic)).insert("position"@, signed_decimal(c.position as int)).insert(
        "last_message_id"@,
        decimal_or_none(c.last_message_id),
    ).insert("bitrate"@, decimal_or_none(c.bitrate)).insert(
        "user_limit"@,
        decimal_or_none(c.user_limit),
    ).insert("last_pin_time"@, or_none(c.last_pin_timestamp))
}

impl MergeIntoMap for PublicChannel {
    open spec fn named_values(&self) -> Result<Values, Error> {
        Ok(channel_values(self@))
    }

    fn merge_into_map(self, map: &mut ContextMap) -> (res: Result<(), Error>) {
        let mut values = ContextMap::new();
        put(&mut values, "id", u64_to_string(self.id));
        put(&mut values, "name", self.name);
        put(&mut values, "Type", channel_type_text(self.kind));
        assert(views(self.permission_overwrites@) =~= self.permission_overwrites@);
        put(&mut values, "perms", labels_to_string(&self.permission_overwrites));
        put(&mut values, "topic", text_or_none(self.topic));
        put(&mut values, "position", i64_to_string(self.position));
        put(&mut values, "last_message_id", number_or_none(self.last_message_id));
        put(&mut values, "bitrate", number_or_none(self.bitrate));
        put(&mut values, "user_limit", number_or_none(self.user_limit));
        put(&mut values, "last_pin_time", text_or_none(self.last_pin_timestamp));
        map.merge(values);
        Ok(())
    }
}

/// What a message hands on as its content: its text, or a note where it only
/// reports a pin.
pub open spec fn content_text(m: crate::model::MessageView) -> Seq<char> {
    if m.kind == MessageType::MessagePinned {
        "<message pinned>"@
    } else {
        m.content
    }
}

/// The named values of a message that has text to report: its own and
/// those of its author.
pub open spec fn message_values(m: crate::model::MessageView) -> Values {
    Map::empty().insert("id"@, decimal(m.id as nat)).insert(
        "channel_id"@,
        decimal(m.channel_id as nat),
    ).insert("content"@, content_text(m)).insert("nonce"@, or_none(m.nonce)).insert(
        "tts"@,
        truth(m.tts),
    ).insert("time"@, m.timestamp).insert("edited_time"@, or_none(m.edited_timestamp)).insert(
        "pinned"@,
        truth(m.pinned),
    ).union_prefer_right(prefixed(user_values(m.author), "author_"@)).insert(
        "mention_everyone"@,
        truth(m.mention_everyone),
    ).insert("mentions"@, bracketed(labels::<User>(m.mentions))).insert(
        "mention_roles"@,
        bracketed(labels::<u64>(m.mention_roles)),
    ).insert("reactions"@, bracketed(labels::<MessageReaction>(m.reactions))).insert(
        "attachments"@,
        bracketed(labels::<Attachment>(m.attachments)),
    ).insert("embeds"@, bracketed(labels::<String>(m.embeds)))
}

/// The named values of a message: only a regular message and the report of
/// a pin have them.
pub open spec fn message_named(m: crate::model::MessageView) -> Result<Values, Error> {
    if m.kind == MessageType::Regular || m.kind == MessageType::MessagePinned {
        Ok(message_values(m))
    } else {
        Err(Error::UnsupportedMessage(m.id))
    }
}

impl MergeIntoMap for Message {
    open spec fn named_values(&self) -> Result<Values, Error> {
        message_named(self@)
    }

    fn merge_into_map(self, map: &mut ContextMap) -> (res: Result<(), Error>) {
        let content = match self.kind {
            MessageType::Regular => self.content,
            MessageType::MessagePinned => text("<message pinned>"),
            _ => {
                return Err(Error::UnsupportedMessage(self.id));
            },
        };
        let mut values = ContextMap::new();
        put(&mut values, "id", u64_to_string(self.id));
        put(&mut values, "channel_id", u64_to_string(self.channel_id));
        put(&mut values, "content", content);
        put(&mut values, "nonce", text_or_none(self.nonce));
        put(&mut values, "tts", bool_to_string(self.tts));
        put(&mut values, "time", self.timestamp);
        put(&mut values, "edited_time", text_or_none(self.edited_timestamp));
        put(&mut values, "pinned", bool_to_string(self.pinned));
        let _ = self.author.merge_into_map_prefix(&mut values, "author_");
        put(&mut values, "mention_everyone", bool_to_string(self.mention_everyone));
        put(&mut values, "mentions", labels_to_string(&self.mentions));
        put(&mut values, "mention_roles", labels_to_string(&self.mention_roles));
        put(&mut values, "reactions", labels_to_string(&self.reactions));
        put(&mut values, "attachments", labels_to_string(&self.attachments));
        put(&mut values, "embeds", labels_to_string(&self.embeds));
        map.merge(values);
        Ok(())
    }
}

/// The user that stands for an author that is not known.
pub open spec fn nobody() -> UserView {
    UserView { id: 0, name: "None"@, discriminator: 0, avatar: None, bot: false }
}

/// The user that stands for an author that is not known.
pub fn unknown_user() -> (res: User)
    ensures
        res@ == nobody(),
{
    User { id: 0, name: text("None"), discriminator: 0, avatar: None, bot: false }
}

/// The list by the labels of its items, or `None` where there is none.
pub open spec fn labels_or_none<T: crate::model::Item>(o: Option<Seq<T::V>>) -> Seq<char> {
    match o {
        Some(list) => bracketed(labels::<T>(list)),
        None => "None"@,
    }
}

/// The list by the labels of its items, or `None` where there is none.
pub fn list_or_none<T: crate::model::Item>(o: &Option<Vec<T>>) -> (res: String)
    ensures
        res@ == labels_or_none::<T>(crate::model::opt_views(*o)),
{
    match o {
        Some(list) => labels_to_string(list),
        None => text("None"),
    }
}

/// `true` or `false`, or `None` where there is none.
pub open spec fn truth_or_none(o: Option<bool>) -> Seq<char> {
    match o {
        Some(b) => truth(b),
        None => "None"@,
    }
}

/// `true` or `false`, or `None` where there is none.
pub fn flag_or_none(o: Option<bool>) -> (res: String)
    ensures
        res@ == truth_or_none(o),
{
    match o {
        Some(b) => bool_to_string(b),
        None => text("None"),
    }
}

/// The named values of an update of a message; what it lacks is named
/// `None`.
pub open spec fn message_update_values(u: crate::model::MessageUpdateView) -> Values {
    Map::empty().insert("id"@, decimal(u.id as nat)).insert(
        "channel_id"@,
        decimal(u.channel_id as nat),
    ).insert(
        "kind"@,
        match u.kind {
            Some(kind) => message_type_name(kind),
            None => "None"@,
        },
    ).insert("content"@, or_none(u.content)).insert("nonce"@, or_none(u.nonce)).insert(
        "tts"@,
        truth_or_none(u.tts),
    ).insert("pinned"@, truth_or_none(u.pinned)).insert("time"@, or_none(u.timestamp)).insert(
        "edited_time"@,
        or_none(u.edited_timestamp),
    ).union_prefer_right(
        prefixed(
            user_values(
                match u.author {
                    Some(author) => author,
                    None => nobody(),
                },
            ),
            "author_"@,
        ),
    ).insert("mention_everyone"@, truth_or_none(u.mention_everyone)).insert(
        "mentions"@,
        labels_or_none::<User>(u.mentions),
    ).insert("mention_roles"@, labels_or_none::<u64>(u.mention_roles)).insert(
        "attachments"@,
        labels_or_none::<Attachment>(u.attachments),
    ).insert("embeds"@, labels_or_none::<String>(u.embeds))
}

impl MergeIntoMap for MessageUpdate {
    open spec fn named_values(&self) -> Result<Values, Error> {
        Ok(message_update_values(self@))
    }

    fn merge_into_map(self, map: &mut ContextMap) -> (res: Result<(), Error>) {
        let mut values = ContextMap::new();
        put(&mut values, "id", u64_to_string(self.id));
        put(&mut values, "channel_id", u64_to_string(self.channel_id));
        let kind = match self.kind {
            Some(kind) => message_type_text(kind),
            None => text("None"),
        };
        put(&mut values, "kind", kind);
        put(&mut values, "content", text_or_none(self.content));
        put(&mut values, "nonce", text_or_none(self.nonce));
        put(&mut values, "tts", flag_or_none(self.tts));
        put(&mut values, "pinned", flag_or_none(self.pinned));
        put(&mut values, "time", text_or_none(self.timestamp));
        put(&mut values, "edited_time", text_or_none(self.edited_timestamp));
        let author = match self.author {
            Some(author) => author,
            None => unknown_user(),
        };
        let _ = author.merge_into_map_prefix(&mut values, "author_");
        put(&mut values, "mention_everyone", flag_or_none(self.mention_everyone));
        put(&mut values, "mentions", list_or_none(&self.mentions));
        put(&mut values, "mention_roles", list_or_none(&self.mention_roles));
        put(&mut values, "attachments", list_or_none(&self.attachments));
        put(&mut values, "embeds", list_or_none(&self.embeds));
        map.merge(values);
        Ok(())
    }
}

/// The values that one change to a message hands on: what the attribute was
/// and what it is now, or the item that joined or left. Of a change of the
/// author, the values of both authors, under `from_` and `to_`.
pub open spec fn message_diff_values(d: MessageUpdateDiffView) -> Values {
    match d {
        MessageUpdateDiffView::Kind(from, to) => Map::empty().insert(
            "from"@,
            message_type_name(from),
        ).insert("to"@, message_type_name(to)),
        MessageUpdateDiffView::Content(from, to) => Map::empty().insert("from"@, from).insert(
            "to"@,
            to,
        ),
        MessageUpdateDiffView::Nonce(from, to) => Map::empty().insert("from"@, or_none(from)).insert(
            "to"@,
            or_none(to),
        ),
        MessageUpdateDiffView::Tts(from, to) => Map::empty().insert("from"@, truth(from)).insert(
            "to"@,
            truth(to),
        ),
        MessageUpdateDiffView::Pinned => Map::empty(),
        MessageUpdateDiffView::UnPinned => Map::empty(),
        MessageUpdateDiffView::EditedTimestamp(from, to) => Map::empty().insert(
            "from"@,
            or_none(from),
        ).insert("to"@, to),
        MessageUpdateDiffView::MentionEveryone(from, to) => Map::empty().insert(
            "from"@,
            truth(from),
        ).insert("to"@, truth(to)),
        MessageUpdateDiffView::Timestamp(from, to) => Map::empty().insert("from"@, from).insert(
            "to"@,
            to,
        ),
        MessageUpdateDiffView::Author(from, to) => Map::empty().union_prefer_right(
            prefixed(user_values(from), "from_"@),
        ).union_prefer_right(prefixed(user_values(to), "to_"@)),
        MessageUpdateDiffView::MentionAdded(user) => user_values(user),
        MessageUpdateDiffView::MentionRemoved(user) => user_values(user),
        MessageUpdateDiffView::MentionRoleAdded(id) => Map::empty().insert(
            "id"@,
            decimal(id as nat),
        ),
        MessageUpdateDiffView::MentionRoleRemoved(id) => Map::empty().insert(
            "id"@,
            decimal(id as nat),
        ),
        MessageUpdateDiffView::AttachmentAdded(a) => attachment_values(a),
        MessageUpdateDiffView::AttachmentRemoved(a) => attachment_values(a),
        MessageUpdateDiffView::EmbedsAdded(e) => Map::empty().insert("value"@, e),
        MessageUpdateDiffView::EmbedsRemoved(e) => Map::empty().insert("value"@, e),
    }
}

impl MergeIntoMap for MessageUpdateDiff {
    open spec fn named_values(&self) -> Result<Values, Error> {
        Ok(message_diff_values(self@))
    }

    fn merge_into_map(self, map: &mut ContextMap) -> (res: Result<(), Error>) {
        let mut values = ContextMap::new();
        match self {
            MessageUpdateDiff::Kind(from, to) => {
                put(&mut values, "from", message_type_text(from));
                put(&mut values, "to", message_type_text(to));
            },
            MessageUpdateDiff::Content(from, to) => {
                put(&mut values, "from", from);
                put(&mut values, "to", to);
            },
            MessageUpdateDiff::Nonce(from, to) => {
                put(&mut values, "from", text_or_none(from));
                put(&mut values, "to", text_or_none(to));
            },
            MessageUpdateDiff::Tts(from, to) => {
                put(&mut values, "from", bool_to_string(from));
                put(&mut values, "to", bool_to_string(to));
            },
            MessageUpdateDiff::Pinned => {},
            MessageUpdateDiff::UnPinned => {},
            MessageUpdateDiff::EditedTimestamp(from, to) => {
                put(&mut values, "from", text_or_none(from));
                put(&mut values, "to", to);
            },
            MessageUpdateDiff::MentionEveryone(from, to) => {
                put(&mut values, "from", bool_to_string(from));
                put(&mut values, "to", bool_to_string(to));
            },
            MessageUpdateDiff::Timestamp(from, to) => {
                put(&mut values, "from", from);
                put(&mut values, "to", to);
            },
            MessageUpdateDiff::Author(from, to) => {
                let _ = from.merge_into_map_prefix(&mut values, "from_");
                let _ = to.merge_into_map_prefix(&mut values, "to_");
            },
            MessageUpdateDiff::MentionAdded(user) => {
                let _ = user.merge_into_map(&mut values);
                assert(values@ =~= user_values(user@));
            },
            MessageUpdateDiff::MentionRemoved(user) => {
                let _ = user.merge_into_map(&mut values);
                assert(values@ =~= user_values(user@));
            },
            MessageUpdateDiff::MentionRoleAdded(id) => {
                put(&mut values, "id", u64_to_string(id));
            },
            MessageUpdateDiff::MentionRoleRemoved(id) => {
                put(&mut values, "id", u64_to_string(id));
            },
            MessageUpdateDiff::AttachmentAdded(a) => {
                let _ = a.merge_into_map(&mut values);
                assert(values@ =~= attachment_values(a@));
            },
            MessageUpdateDiff::AttachmentRemoved(a) => {
                let _ = a.merge_into_map(&mut values);
                assert(values@ =~= attachment_values(a@));
            },
            MessageUpdateDiff::EmbedsAdded(e) => {
                put(&mut values, "value", e);
            },
            MessageUpdateDiff::EmbedsRemoved(e) => {
                put(&mut values, "value", e);
            },
        }
        map.merge(values);
        Ok(())
    }
}

/// The name of a channel permission.
pub open spec fn channel_permission_name(p: ChannelPermission) -> Seq<char> {
    match p {
        ChannelPermission::CreateInvite => "CreateInvite"@,
        ChannelPermission::ManageChannel => "ManageChannel"@,
        ChannelPermission::ManagePermissions => "ManagePermissions"@,
        ChannelPermission::ManageWebhooks => "ManageWebhooks"@,
        ChannelPermission::ReadMessages => "ReadMessages"@,
        ChannelPermission::SendMessages => "SendMessages"@,
        ChannelPermission::SendTtsMessages => "SendTtsMessages"@,
        ChannelPermission::ManageMessages => "ManageMessages"@,
        ChannelPermission::EmbedLinks => "EmbedLinks"@,
        ChannelPermission::AttachFiles => "AttachFiles"@,
        ChannelPermission::ReadMessageHistory => "ReadMessageHistory"@,
        ChannelPermission::MentionEveryone => "MentionEveryone"@,
        ChannelPermission::UseExternealEmojis => "UseExternealEmojis"@,
        ChannelPermission::AddReactions => "AddReactions"@,
    }
}

/// The name of a channel permission.
pub fn channel_permission_text(p: ChannelPermission) -> (res: String)
    ensures
        res@ == channel_permission_name(p),
{
    match p {
        ChannelPermission::CreateInvite => text("CreateInvite"),
        ChannelPermission::ManageChannel => text("ManageChannel"),
        ChannelPermission::ManagePermissions => text("ManagePermissions"),
        ChannelPermission::ManageWebhooks => text("ManageWebhooks"),
        ChannelPermission::ReadMessages => text("ReadMessages"),
        ChannelPermission::SendMessages => text("SendMessages"),
        ChannelPermission::SendTtsMessages => text("SendTtsMessages"),
        ChannelPermission::ManageMessages => text("ManageMessages"),
        ChannelPermission::EmbedLinks => text("EmbedLinks"),
        ChannelPermission::AttachFiles => text("AttachFiles"),
        ChannelPermission::ReadMessageHistory => text("ReadMessageHistory"),
        ChannelPermission::MentionEveryone => text("MentionEveryone"),
        ChannelPermission::UseExternealEmojis => text("UseExternealEmojis"),
        ChannelPermission::AddReactions => text("AddReactions"),
    }
}

/// The name of a state of a permission.
pub open spec fn permission_type_name(t: PermissionType) -> Seq<char> {
    match t {
        PermissionType::Allow => "Allow"@,
        PermissionType::Default => "Default"@,
        PermissionType::Deny => "Deny"@,
    }
}

/// The name of a state of a permission.
pub fn permission_type_text(t: PermissionType) -> (res: String)
    ensures
        res@ == permission_type_name(t),
{
    match t {
        PermissionType::Allow => text("Allow"),
        PermissionType::Default => text("Default"),
        PermissionType::Deny => text("Deny"),
    }
}

/// The values that a change of a permission hands on.
pub open spec fn permission_change_values(
    id: u64,
    p: ChannelPermission,
    from: PermissionType,
    to: PermissionType,
) -> Values {
    Map::empty().insert("id"@, decimal(id as nat)).insert(
        "permission"@,
        channel_permission_name(p),
    ).insert("from"@, permission_type_name(from)).insert("to"@, permission_type_name(to))
}

/// The values that one change to a channel hands on: what the attribute was
/// and what it is now.
pub open spec fn channel_diff_values(d: ChannelUpdateDiffView) -> Values {
    match d {
        ChannelUpdateDiffView::Name(from, to) => Map::empty().insert("from"@, from).insert(
            "to"@,
            to,
        ),
        ChannelUpdateDiffView::UserPermission(id, p, from, to) => permission_change_values(
            id,
            p,
            from,
            to,
        ),
        ChannelUpdateDiffView::RolePermission(id, p, from, to) => permission_change_values(
            id,
            p,
            from,
            to,
        ),
        ChannelUpdateDiffView::Topic(from, to) => Map::empty().insert("from"@, or_none(from)).insert(
            "to"@,
            or_none(to),
        ),
        ChannelUpdateDiffView::Position(from, to) => Map::empty().insert(
            "from"@,
            signed_decimal(from as int),
        ).insert("to"@, signed_decimal(to as int)),
        ChannelUpdateDiffView::Bitrate(from, to) => Map::empty().insert(
            "from"@,
            decimal_or_none(from),
        ).insert("to"@, decimal_or_none(to)),
        ChannelUpdateDiffView::UserLimit(from, to) => Map::empty().insert(
            "from"@,
            decimal_or_none(from),
        ).insert("to"@, decimal_or_none(to)),
    }
}

fn put_permission_change(
    values: &mut ContextMap,
    id: u64,
    p: ChannelPermission,
    from: PermissionType,
    to: PermissionType,
)
    requires
        old(values)@ == Map::<Seq<char>, Seq<char>>::empty(),
    ensures
        final(values)@ == permission_change_values(id, p, from, to),
{
    put(values, "id", u64_to_string(id));
    put(values, "permission", channel_permission_text(p));
    put(values, "from", permission_type_text(from));
    put(values, "to", permission_type_text(to));
}

impl MergeIntoMap for ChannelUpdateDiff {
    open spec fn named_values(&self) -> Result<Values, Error> {
        Ok(channel_diff_values(self@))
    }

    fn merge_into_map(self, map: &mut ContextMap) -> (res: Result<(), Error>) {
        let mut values = ContextMap::new();
        match self {
            ChannelUpdateDiff::Name(from, to) => {
                put(&mut values, "from", from);
                put(&mut values, "to", to);
            },
            ChannelUpdateDiff::UserPermission(id, p, from, to) => {
                put_permission_change(&mut values, id, p, from, to);
            },
            ChannelUpdateDiff::RolePermission(id, p, from, to) => {
                put_permission_change(&mut values, id, p, from, to);
            },
            ChannelUpdateDiff::Topic(from, to) => {
                put(&mut values, "from", text_or_none(from));
                put(&mut values, "to", text_or_none(to));
            },
            ChannelUpdateDiff::Position(from, to) => {
                put(&mut values, "from", i64_to_string(from));
                put(&mut values, "to", i64_to_string(to));
            },
            ChannelUpdateDiff::Bitrate(from, to) => {
                put(&mut values, "from", number_or_none(from));
                put(&mut values, "to", number_or_none(to));
            },
            ChannelUpdateDiff::UserLimit(from, to) => {
                put(&mut values, "from", number_or_none(from));
                put(&mut values, "to", number_or_none(to));
            },
        }
        map.merge(values);
        Ok(())
    }
}

} // verus!
