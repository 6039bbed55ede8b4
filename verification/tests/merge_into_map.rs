#![allow(dead_code)]
use dilobo::context::ContextMap;
use dilobo::diff::channel::ChannelUpdateDiff;
use dilobo::diff::message::MessageUpdateDiff;
use dilobo::diff::permission::{ChannelPermission, PermissionType};
use dilobo::errors::Error;
use dilobo::merge_into_map::{flag_list, permissions_to_string, MergeIntoMap};
use dilobo::model::{
    Attachment, ChannelType, Emoji, Member, Message, MessageDelete, MessageReaction, MessageType,
    MessageUpdate, PermissionOverwrite, PermissionOverwriteType, Permissions, PublicChannel,
    Reaction, ReactionEmoji, Role, User,
};
use dilobo::text::text;

fn user(id: u64, name: &str) -> User {
    User { id, name: text(name), discriminator: 1234, avatar: None, bot: false }
}

fn message(id: u64, content: &str) -> Message {
    Message {
        id,
        channel_id: 200,
        content: text(content),
        nonce: None,
        tts: false,
        timestamp: text("t0"),
        edited_timestamp: None,
        pinned: false,
        kind: MessageType::Regular,
        author: user(42, "alice"),
        mention_everyone: false,
        mentions: vec![],
        mention_roles: vec![],
        reactions: vec![],
        attachments: vec![],
        embeds: vec![],
    }
}

fn value<'a>(map: &'a ContextMap, key: &str) -> Option<&'a str> {
    map.get(&text(key)).map(|s| s.as_str())
}

#[test]
fn user_hands_on_its_fields() {
    let map = user(7, "bob").into_map().unwrap();
    assert_eq!(value(&map, "id"), Some("7"));
    assert_eq!(value(&map, "name"), Some("bob"));
    assert_eq!(value(&map, "discriminator"), Some("1234"));
    assert_eq!(value(&map, "avatar"), Some("None"));
    assert_eq!(value(&map, "type"), Some("member"));
    assert_eq!(value(&map, "Type"), Some("Member"));
    assert_eq!(map.keys().len(), 6);
}

#[test]
fn bot_user_is_named_a_bot() {
    let mut u = user(7, "bot");
    u.bot = true;
    u.avatar = Some(text("pic"));
    let map = u.into_map().unwrap();
    assert_eq!(value(&map, "avatar"), Some("pic"));
    assert_eq!(value(&map, "type"), Some("bot"));
    assert_eq!(value(&map, "Type"), Some("Bot"));
}

#[test]
fn prefix_comes_before_every_key() {
    let map = user(7, "bob").into_map_prefix("author_").unwrap();
    assert_eq!(value(&map, "author_id"), Some("7"));
    assert_eq!(value(&map, "author_name"), Some("bob"));
    assert_eq!(value(&map, "id"), None);
    assert_eq!(map.keys().len(), 6);
}

#[test]
fn merging_keeps_the_other_values_of_the_map() {
    let mut map = ContextMap::new();
    map.insert(text("id"), text("old"));
    map.insert(text("other"), text("kept"));
    assert_eq!(user(7, "bob").merge_into_map(&mut map), Ok(()));
    assert_eq!(value(&map, "id"), Some("7"));
    assert_eq!(value(&map, "other"), Some("kept"));
    assert_eq!(user(8, "eve").merge_into_map_prefix(&mut map, "x_"), Ok(()));
    assert_eq!(value(&map, "id"), Some("7"));
    assert_eq!(value(&map, "x_id"), Some("8"));
}

#[test]
fn member_hands_on_its_fields_and_those_of_its_user() {
    let m = Member {
        user: user(7, "bob"),
        roles: vec![1, 22],
        nick: None,
        joined_at: text("2017"),
        mute: true,
        deaf: false,
    };
    let map = m.into_map().unwrap();
    assert_eq!(value(&map, "roles"), Some("[1, 22]"));
    assert_eq!(value(&map, "nick"), Some(""));
    assert_eq!(value(&map, "time"), Some("2017"));
    assert_eq!(value(&map, "mute"), Some("true"));
    assert_eq!(value(&map, "deaf"), Some("false"));
    assert_eq!(value(&map, "name"), Some("bob"));
    assert_eq!(map.keys().len(), 11);
}

#[test]
fn message_hands_on_its_fields() {
    let mut m = message(5, "hi");
    m.mentions = vec![user(1, "a"), user(2, "b")];
    m.mention_roles = vec![10];
    m.reactions = vec![MessageReaction { count: 2, me: false, emoji: ReactionEmoji::Unicode(text("+1")) }];
    m.attachments = vec![Attachment {
        id: text("att"),
        filename: text("f"),
        url: text("u"),
        proxy_url: text("p"),
        size: 1,
        dimensions: None,
    }];
    m.embeds = vec![text("{\"a\":1}")];
    let map = m.into_map().unwrap();
    assert_eq!(value(&map, "id"), Some("5"));
    assert_eq!(value(&map, "channel_id"), Some("200"));
    assert_eq!(value(&map, "content"), Some("hi"));
    assert_eq!(value(&map, "nonce"), Some("None"));
    assert_eq!(value(&map, "tts"), Some("false"));
    assert_eq!(value(&map, "time"), Some("t0"));
    assert_eq!(value(&map, "edited_time"), Some("None"));
    assert_eq!(value(&map, "pinned"), Some("false"));
    assert_eq!(value(&map, "author_id"), Some("42"));
    assert_eq!(value(&map, "author_name"), Some("alice"));
    assert_eq!(value(&map, "mention_everyone"), Some("false"));
    assert_eq!(value(&map, "mentions"), Some("[1, 2]"));
    assert_eq!(value(&map, "mention_roles"), Some("[10]"));
    assert_eq!(value(&map, "reactions"), Some("[+1]"));
    assert_eq!(value(&map, "attachments"), Some("[att]"));
    assert_eq!(value(&map, "embeds"), Some("[{\"a\":1}]"));
    assert_eq!(map.keys().len(), 20);
}

#[test]
fn report_of_a_pin_has_a_note_for_content() {
    let mut m = message(5, "ignored");
    m.kind = MessageType::MessagePinned;
    let map = m.into_map().unwrap();
    assert_eq!(value(&map, "content"), Some("<message pinned>"));
}

#[test]
fn message_of_another_kind_has_no_values() {
    let mut m = message(5, "x");
    m.kind = MessageType::GroupCallCreation;
    let mut map = ContextMap::new();
    map.insert(text("k"), text("v"));
    assert_eq!(m.merge_into_map(&mut map), Err(Error::UnsupportedMessage(5)));
    assert_eq!(map.keys().len(), 1);
    let mut m = message(6, "x");
    m.kind = MessageType::GroupIconUpdate;
    assert!(matches!(m.into_map(), Err(Error::UnsupportedMessage(6))));
}

#[test]
fn message_delete_hands_on_both_ids() {
    let map = MessageDelete { channel_id: 3, message_id: 4 }.into_map().unwrap();
    assert_eq!(value(&map, "channel_id"), Some("3"));
    assert_eq!(value(&map, "message_id"), Some("4"));
    assert_eq!(map.keys().len(), 2);
}

#[test]
fn role_hands_on_its_fields_and_permissions() {
    let role = Role {
        id: 9,
        name: text("mods"),
        color: 0xff00aa,
        hoist: true,
        managed: false,
        position: -2,
        mentionable: true,
        permissions: Permissions { bits: 0x1 | 0x4 | 0x400 },
    };
    let map = role.into_map().unwrap();
    assert_eq!(value(&map, "id"), Some("9"));
    assert_eq!(value(&map, "name"), Some("mods"));
    assert_eq!(value(&map, "color"), Some("ff00aa"));
    assert_eq!(value(&map, "hoist"), Some("true"));
    assert_eq!(value(&map, "managed"), Some("false"));
    assert_eq!(value(&map, "position"), Some("-2"));
    assert_eq!(value(&map, "mentionable"), Some("true"));
    assert_eq!(value(&map, "perms"), Some("CREATE_INVITE | BAN_MEMBERS | READ_MESSAGES"));
    assert_eq!(value(&map, "perm_create_invite"), Some("true"));
    assert_eq!(value(&map, "perm_ban_members"), Some("true"));
    assert_eq!(value(&map, "perm_read_messages"), Some("true"));
    assert_eq!(value(&map, "perm_kick_members"), Some("false"));
    assert_eq!(value(&map, "perm_voice_use_vad"), Some("false"));
    assert_eq!(map.keys().len(), 8 + 27);
}

#[test]
fn permissions_hand_on_one_value_for_each_flag() {
    let map = Permissions { bits: 1 << 25 }.into_map().unwrap();
    assert_eq!(map.keys().len(), 27);
    assert_eq!(value(&map, "voice_use_vad"), Some("true"));
    assert_eq!(value(&map, "administrator"), Some("false"));
    assert_eq!(permissions_to_string(Permissions { bits: 0 }), "");
    assert_eq!(permissions_to_string(Permissions { bits: 1 << 3 }), "ADMINISTRATOR");
    let flags = flag_list();
    assert_eq!(flags.len(), 27);
    assert_eq!(flags[4].bit, 1 << 28);
    assert_eq!(flags[4].key, "manage_roles");
    assert_eq!(flags[4].name, "MANAGE_ROLES");
    assert_eq!(flags[20].bit, 1 << 6);
    assert_eq!(flags[20].key, "add_reactions");
}

#[test]
fn channel_hands_on_its_fields() {
    let c = PublicChannel {
        id: 8,
        name: text("general"),
        server_id: 1,
        kind: ChannelType::Voice,
        permission_overwrites: vec![PermissionOverwrite {
            kind: PermissionOverwriteType::Role(3),
            allow: Permissions { bits: 1 },
            deny: Permissions { bits: 0 },
        }],
        topic: Some(text("talk")),
        position: 4,
        last_message_id: Some(77),
        bitrate: None,
        user_limit: Some(5),
        last_pin_timestamp: None,
    };
    let map = c.into_map().unwrap();
    assert_eq!(value(&map, "id"), Some("8"));
    assert_eq!(value(&map, "name"), Some("general"));
    assert_eq!(value(&map, "Type"), Some("Voice"));
    assert_eq!(value(&map, "perms"), Some("[3]"));
    assert_eq!(value(&map, "topic"), Some("talk"));
    assert_eq!(value(&map, "position"), Some("4"));
    assert_eq!(value(&map, "last_message_id"), Some("77"));
    assert_eq!(value(&map, "bitrate"), Some("None"));
    assert_eq!(value(&map, "user_limit"), Some("5"));
    assert_eq!(value(&map, "last_pin_time"), Some("None"));
    assert_eq!(map.keys().len(), 10);
}

#[test]
fn reaction_hands_on_its_ids_and_its_emoji() {
    let r = Reaction {
        channel_id: 1,
        message_id: 2,
        user_id: 3,
        emoji: ReactionEmoji::Custom { name: text("party"), id: 99 },
    };
    let map = r.into_map().unwrap();
    assert_eq!(value(&map, "channel_id"), Some("1"));
    assert_eq!(value(&map, "message_id"), Some("2"));
    assert_eq!(value(&map, "user_id"), Some("3"));
    assert_eq!(value(&map, "emoji_name"), Some("party"));
    assert_eq!(value(&map, "emoji_id"), Some("99"));
    let map = ReactionEmoji::Unicode(text("+1")).into_map().unwrap();
    assert_eq!(value(&map, "name"), Some("+1"));
    assert_eq!(value(&map, "id"), Some("None"));
}

#[test]
fn emoji_hands_on_its_fields() {
    let e = Emoji { id: 4, name: text("wave"), managed: true, require_colons: false, roles: vec![6] };
    let map = e.into_map().unwrap();
    assert_eq!(value(&map, "id"), Some("4"));
    assert_eq!(value(&map, "name"), Some("wave"));
    assert_eq!(value(&map, "managed"), Some("true"));
    assert_eq!(value(&map, "require_colons"), Some("false"));
    assert_eq!(value(&map, "roles"), Some("[6]"));
}

#[test]
fn attachment_hands_on_its_fields() {
    let a = Attachment {
        id: text("att"),
        filename: text("f.png"),
        url: text("u"),
        proxy_url: text("p"),
        size: 12,
        dimensions: Some((640, 480)),
    };
    let map = a.into_map().unwrap();
    assert_eq!(value(&map, "id"), Some("att"));
    assert_eq!(value(&map, "filename"), Some("f.png"));
    assert_eq!(value(&map, "size"), Some("12"));
    assert_eq!(value(&map, "width"), Some("640"));
    assert_eq!(value(&map, "height"), Some("480"));
}

#[test]
fn message_update_names_what_it_lacks_none() {
    let u = MessageUpdate {
        id: 5,
        channel_id: 200,
        kind: Some(MessageType::Regular),
        content: None,
        nonce: None,
        tts: Some(true),
        pinned: None,
        timestamp: None,
        edited_timestamp: Some(text("t1")),
        author: None,
        mention_everyone: None,
        mentions: Some(vec![user(1, "a")]),
        mention_roles: None,
        attachments: None,
        embeds: Some(vec![]),
    };
    let map = u.into_map().unwrap();
    assert_eq!(value(&map, "id"), Some("5"));
    assert_eq!(value(&map, "kind"), Some("Regular"));
    assert_eq!(value(&map, "content"), Some("None"));
    assert_eq!(value(&map, "tts"), Some("true"));
    assert_eq!(value(&map, "pinned"), Some("None"));
    assert_eq!(value(&map, "edited_time"), Some("t1"));
    assert_eq!(value(&map, "author_id"), Some("0"));
    assert_eq!(value(&map, "author_name"), Some("None"));
    assert_eq!(value(&map, "mentions"), Some("[1]"));
    assert_eq!(value(&map, "mention_roles"), Some("None"));
    assert_eq!(value(&map, "embeds"), Some("[]"));
}

#[test]
fn message_diff_hands_on_what_changed() {
    let map = MessageUpdateDiff::Content(text("a"), text("b")).into_map().unwrap();
    assert_eq!(value(&map, "from"), Some("a"));
    assert_eq!(value(&map, "to"), Some("b"));
    let map = MessageUpdateDiff::Kind(MessageType::Regular, MessageType::MessagePinned)
        .into_map()
        .unwrap();
    assert_eq!(value(&map, "from"), Some("Regular"));
    assert_eq!(value(&map, "to"), Some("MessagePinned"));
    let map = MessageUpdateDiff::EditedTimestamp(None, text("t")).into_map().unwrap();
    assert_eq!(value(&map, "from"), Some("None"));
    assert_eq!(value(&map, "to"), Some("t"));
    assert_eq!(MessageUpdateDiff::Pinned.into_map().unwrap().keys().len(), 0);
    assert_eq!(MessageUpdateDiff::UnPinned.into_map().unwrap().keys().len(), 0);
    let map = MessageUpdateDiff::MentionAdded(user(3, "c")).into_map().unwrap();
    assert_eq!(value(&map, "name"), Some("c"));
    let map = MessageUpdateDiff::MentionRoleRemoved(12).into_map().unwrap();
    assert_eq!(value(&map, "id"), Some("12"));
    let map = MessageUpdateDiff::Timestamp(text("t0"), text("t1")).into_map().unwrap();
    assert_eq!(value(&map, "from"), Some("t0"));
    assert_eq!(value(&map, "to"), Some("t1"));
    let map = MessageUpdateDiff::Author(user(1, "a"), user(2, "b")).into_map().unwrap();
    assert_eq!(value(&map, "from_id"), Some("1"));
    assert_eq!(value(&map, "from_name"), Some("a"));
    assert_eq!(value(&map, "to_id"), Some("2"));
    assert_eq!(value(&map, "to_name"), Some("b"));
    assert_eq!(map.keys().len(), 12);
    let map = MessageUpdateDiff::EmbedsAdded(text("{}")).into_map().unwrap();
    assert_eq!(value(&map, "value"), Some("{}"));
}

#[test]
fn channel_diff_hands_on_what_changed() {
    let map = ChannelUpdateDiff::Position(1, -1).into_map().unwrap();
    assert_eq!(value(&map, "from"), Some("1"));
    assert_eq!(value(&map, "to"), Some("-1"));
    let map = ChannelUpdateDiff::Bitrate(None, Some(64)).into_map().unwrap();
    assert_eq!(value(&map, "from"), Some("None"));
    assert_eq!(value(&map, "to"), Some("64"));
    let map = ChannelUpdateDiff::RolePermission(
        7,
        ChannelPermission::SendMessages,
        PermissionType::Default,
        PermissionType::Deny,
    )
    .into_map()
    .unwrap();
    assert_eq!(value(&map, "id"), Some("7"));
    assert_eq!(value(&map, "permission"), Some("SendMessages"));
    assert_eq!(value(&map, "from"), Some("Default"));
    assert_eq!(value(&map, "to"), Some("Deny"));
}
