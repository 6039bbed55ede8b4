#![allow(dead_code)]
use dilobo::bot::{Bot, Handled};
use dilobo::config::{Config, ServerConfig, Template};
use dilobo::context::{FormatError, LogOutcome};
use dilobo::errors::Error;
use dilobo::model::{
    Channel, ChannelType, Emoji, Event, LiveServer, Member, Message, MessageDelete,
    MessageDeleteBulk, MessageType, MessageUpdate, Permissions, PossibleServer, PublicChannel,
    Reaction, ReactionEmoji, Role, ServerMemberUpdate, User, VerificationLevel,
};
use dilobo::text::text;

const BOT: u64 = 1000;
const SERVER: u64 = 1;
const LOG: u64 = 100;
const GENERAL: u64 = 200;

fn user(id: u64, name: &str) -> User {
    User { id, name: text(name), discriminator: 1, avatar: None, bot: false }
}

fn member(id: u64, name: &str, roles: Vec<u64>) -> Member {
    Member {
        user: user(id, name),
        roles,
        nick: None,
        joined_at: text("2017"),
        mute: false,
        deaf: false,
    }
}

fn role(id: u64, name: &str) -> Role {
    Role {
        id,
        name: text(name),
        color: 0,
        hoist: false,
        managed: false,
        position: 0,
        mentionable: false,
        permissions: Permissions { bits: 0 },
    }
}

fn channel(id: u64, name: &str) -> PublicChannel {
    PublicChannel {
        id,
        name: text(name),
        server_id: SERVER,
        kind: ChannelType::Text,
        permission_overwrites: vec![],
        topic: None,
        position: 0,
        last_message_id: None,
        bitrate: None,
        user_limit: None,
        last_pin_timestamp: None,
    }
}

fn emoji(id: u64, name: &str) -> Emoji {
    Emoji { id, name: text(name), managed: false, require_colons: true, roles: vec![] }
}

fn message(id: u64, channel_id: u64, content: &str) -> Message {
    Message {
        id,
        channel_id,
        content: text(content),
        nonce: None,
        tts: false,
        timestamp: text("t0"),
        edited_timestamp: None,
        pinned: false,
        kind: MessageType::Regular,
        author: user(42, "alice"),
        mention_everyone: false,
        mentions: vec![],
        mention_roles: vec![],
        reactions: vec![],
        attachments: vec![],
        embeds: vec![],
    }
}

fn update(id: u64, channel_id: u64) -> MessageUpdate {
    MessageUpdate {
        id,
        channel_id,
        kind: None,
        content: None,
        nonce: None,
        tts: None,
        pinned: None,
        timestamp: None,
        edited_timestamp: None,
        author: None,
        mention_everyone: None,
        mentions: None,
        mention_roles: None,
        attachments: None,
        embeds: None,
    }
}

fn live() -> LiveServer {
    LiveServer {
        id: SERVER,
        name: text("home"),
        owner_id: 42,
        roles: vec![role(10, "mods"), role(11, "helpers")],
        region: text("eu"),
        members: vec![member(42, "alice", vec![10]), member(43, "bob", vec![])],
        icon: None,
        channels: vec![channel(LOG, "log"), channel(GENERAL, "general")],
        afk_timeout: 300,
        afk_channel_id: None,
        verification_level: VerificationLevel::Low,
        emojis: vec![emoji(5, "wave")],
    }
}

fn bot_with(templates: &[(Template, &str)]) -> Bot {
    let mut config = ServerConfig::new(SERVER);
    config.log_channel_id = Some(LOG);
    for (t, s) in templates {
        config.set_template(*t, text(s));
    }
    let mut bot = Bot::new(Config { bot: None, server: vec![config] }, BOT);
    let greeted = bot.add_server(live());
    assert_eq!(greeted.failure, None);
    bot
}

fn line(s: &str) -> LogOutcome {
    LogOutcome::Line { channel: LOG, text: text(s) }
}

fn done(lines: &[&str]) -> Handled {
    Handled { outcomes: lines.iter().map(|s| line(s)).collect(), failure: None }
}

fn failed(lines: &[&str], e: Error) -> Handled {
    Handled { outcomes: lines.iter().map(|s| line(s)).collect(), failure: Some(e) }
}

#[test]
fn configured_community_is_mirrored_and_greeted() {
    let mut config = ServerConfig::new(SERVER);
    config.log_channel_name = Some(text("log"));
    let mut bot = Bot::new(Config { bot: None, server: vec![config] }, BOT);
    let res = bot.add_server(live());
    assert_eq!(res, done(&["Bot started successfully and is logging to this channel."]));
    assert_eq!(bot.config.server.len(), 0);
    let server = bot.server_by_server(SERVER).unwrap();
    assert_eq!(server.log_channel, Some(LOG));
    assert!(server.config.is_some());
    assert_eq!(bot.server_by_channel(GENERAL).unwrap().id, SERVER);
    assert_eq!(bot.channels.len(), 2);
}

#[test]
fn community_without_configuration_is_mirrored_all_the_same() {
    let mut bot = Bot::new(Config { bot: None, server: vec![ServerConfig::new(2)] }, BOT);
    let res = bot.add_server(live());
    assert_eq!(res, failed(&[], Error::NotConfigured(SERVER)));
    assert_eq!(bot.config.server.len(), 1);
    let server = bot.server_by_server(SERVER).unwrap();
    assert_eq!(server.log_channel, None);
    assert!(server.config.is_none());
    assert_eq!(bot.handle_err(Error::NotConfigured(SERVER)), vec![LogOutcome::NoLogChannel]);
    assert_eq!(bot.handle_err(Error::NotConfigured(9)), vec![]);
    assert_eq!(bot.handle_err(Error::UncachedRole(9)), vec![]);
}

#[test]
fn community_whose_log_channel_is_missing_is_not_greeted() {
    let mut config = ServerConfig::new(SERVER);
    config.log_channel_id = Some(999);
    let mut bot = Bot::new(Config { bot: None, server: vec![config] }, BOT);
    assert_eq!(bot.add_server(live()), done(&[]));
    assert_eq!(bot.server_by_server(SERVER).unwrap().log_channel, None);
}

#[test]
fn event_for_an_unknown_community_or_channel_fails() {
    let mut bot = bot_with(&[]);
    assert_eq!(
        bot.handle_event_at(0, Event::MessageCreate(message(5, 999, "hi"))),
        failed(&[], Error::UnknownChannel(999))
    );
    assert_eq!(
        bot.handle_event_at(0, Event::ServerMemberAdd(9, member(1, "x", vec![]))),
        failed(&[], Error::UnknownServer(9))
    );
    assert_eq!(bot.server_by_server(9).err(), Some(Error::UnknownServer(9)));
    assert_eq!(bot.server_by_channel(999).err(), Some(Error::UnknownChannel(999)));
    assert_eq!(bot.handle_event_at(0, Event::Other), done(&[]));
    assert_eq!(bot.handle_event_at(0, Event::ServerCreate(PossibleServer::Offline(3))), done(&[]));
}

#[test]
fn pinning_a_cached_message_is_reported_with_the_pinned_template() {
    let mut bot = bot_with(&[
        (Template::MessageUpdatePinned, "pinned {message_id} by {cached_author_name}"),
        (Template::MessageUpdateUnpinned, "unpinned {message_id}"),
        (Template::MessageUpdateContent, "content"),
    ]);
    assert_eq!(bot.handle_event_at(0, Event::MessageCreate(message(5, GENERAL, "hi"))), done(&[]));
    let mut u = update(5, GENERAL);
    u.pinned = Some(true);
    let res = bot.handle_event_at(1, Event::MessageUpdate(u));
    assert_eq!(res, done(&["pinned 5 by alice"]));
    let cached = bot.server_by_server(SERVER).unwrap().message(5).unwrap();
    assert!(cached.pinned);
    assert_eq!(cached.content, "hi");
}

#[test]
fn every_change_of_an_update_gets_its_own_line() {
    let mut bot = bot_with(&[
        (Template::MessageUpdateContent, "{author_name}: {from} -> {to} in {channel_id}"),
        (Template::MessageUpdateMentionAdded, "mention {name}"),
        (Template::MessageUpdateMentionRoleAdded, "role {id}"),
    ]);
    bot.handle_event_at(0, Event::MessageCreate(message(5, GENERAL, "hi")));
    let mut u = update(5, GENERAL);
    u.content = Some(text("ho"));
    u.tts = Some(true);
    u.author = Some(user(42, "alice"));
    u.mentions = Some(vec![user(43, "bob")]);
    u.mention_roles = Some(vec![10]);
    let res = bot.handle_event_at(1, Event::MessageUpdate(u));
    assert_eq!(res, done(&["alice: hi -> ho in 200", "mention bob", "role 10"]));
    let cached = bot.server_by_server(SERVER).unwrap().message(5).unwrap();
    assert_eq!(cached.content, "ho");
    assert!(cached.tts);
    assert_eq!(cached.mentions, vec![user(43, "bob")]);
    assert_eq!(cached.mention_roles, vec![10]);
}

#[test]
fn template_that_cannot_be_filled_in_spoils_only_its_own_line() {
    let mut bot = bot_with(&[
        (Template::MessageUpdateContent, "{nothing}"),
        (Template::MessageUpdatePinned, "pinned"),
    ]);
    bot.handle_event_at(0, Event::MessageCreate(message(5, GENERAL, "hi")));
    let mut u = update(5, GENERAL);
    u.content = Some(text("ho"));
    u.pinned = Some(true);
    let res = bot.handle_event_at(1, Event::MessageUpdate(u));
    assert_eq!(res.failure, None);
    assert_eq!(res.outcomes.len(), 2);
    assert!(matches!(
        &res.outcomes[0],
        LogOutcome::FormatFailed { channel: LOG, server: SERVER, error: FormatError::KeyError(_) }
    ));
    assert_eq!(res.outcomes[1], line("pinned"));
    let cached = bot.server_by_server(SERVER).unwrap().message(5).unwrap();
    assert_eq!(cached.content, "ho");
    assert!(cached.pinned);
}

#[test]
fn update_of_a_message_that_is_not_cached_is_reported_as_such() {
    let mut bot = bot_with(&[(Template::MessageUpdateUncached, "uncached {id}: {content}")]);
    let mut u = update(6, GENERAL);
    u.content = Some(text("ho"));
    assert_eq!(bot.handle_event_at(0, Event::MessageUpdate(u)), done(&["uncached 6: ho"]));
    assert!(bot.server_by_server(SERVER).unwrap().message(6).is_none());
}

#[test]
fn update_with_embeds_in_the_log_channel_is_passed_over() {
    let mut bot = bot_with(&[
        (Template::MessageUpdateUncached, "uncached"),
        (Template::MessageUpdateContent, "content"),
    ]);
    let mut u = update(6, LOG);
    u.content = Some(text("x"));
    u.embeds = Some(vec![]);
    assert_eq!(bot.handle_event_at(0, Event::MessageUpdate(u)), done(&[]));
    let mut u = update(6, LOG);
    u.content = Some(text("x"));
    assert_eq!(bot.handle_event_at(0, Event::MessageUpdate(u)), done(&["uncached"]));
}

#[test]
fn new_message_is_cached_and_reported() {
    let mut bot = bot_with(&[(Template::MessageCreate, "{author_name} in {channel_id}: {content}")]);
    let res = bot.handle_event_at(0, Event::MessageCreate(message(5, GENERAL, "hi")));
    assert_eq!(res, done(&["alice in 200: hi"]));
    assert_eq!(bot.server_by_server(SERVER).unwrap().message(5), Some(&message(5, GENERAL, "hi")));
}

#[test]
fn own_message_in_the_log_channel_is_not_reported() {
    let mut bot = bot_with(&[(Template::MessageCreate, "{content}")]);
    let mut own = message(5, LOG, "a log line");
    own.author = user(BOT, "bot");
    assert_eq!(bot.handle_event_at(0, Event::MessageCreate(own)), done(&[]));
    assert!(bot.server_by_server(SERVER).unwrap().message(5).is_some());
    let mut elsewhere = message(6, GENERAL, "hello");
    elsewhere.author = user(BOT, "bot");
    assert_eq!(bot.handle_event_at(0, Event::MessageCreate(elsewhere)), done(&["hello"]));
    assert_eq!(
        bot.handle_event_at(0, Event::MessageCreate(message(7, LOG, "a guest"))),
        done(&["a guest"])
    );
}

#[test]
fn message_of_a_kind_without_text_is_cached_but_fails() {
    let mut bot = bot_with(&[(Template::MessageCreate, "{content}")]);
    let mut m = message(5, GENERAL, "x");
    m.kind = MessageType::GroupNameUpdate;
    assert_eq!(
        bot.handle_event_at(0, Event::MessageCreate(m)),
        failed(&[], Error::UnsupportedMessage(5))
    );
    assert!(bot.server_by_server(SERVER).unwrap().message(5).is_some());
}

#[test]
fn cached_message_expires_after_five_minutes() {
    let mut bot = bot_with(&[]);
    let minute: u128 = 60_000_000_000;
    bot.handle_event_at(0, Event::MessageCreate(message(5, GENERAL, "old")));
    bot.handle_event_at(4 * minute, Event::MessageCreate(message(6, GENERAL, "newer")));
    assert!(bot.server_by_server(SERVER).unwrap().message(5).is_some());
    bot.handle_event_at(5 * minute, Event::MessageCreate(message(7, GENERAL, "newest")));
    assert!(bot.server_by_server(SERVER).unwrap().message(5).is_none());
    assert!(bot.server_by_server(SERVER).unwrap().message(6).is_some());
}

#[test]
fn deleted_message_is_reported_with_what_it_held() {
    let mut bot = bot_with(&[
        (Template::MessageDeleteCached, "deleted: {content}"),
        (Template::MessageDeleteUncached, "deleted {message_id} in {channel_id}"),
    ]);
    bot.handle_event_at(0, Event::MessageCreate(message(5, GENERAL, "hi")));
    let del = MessageDelete { channel_id: GENERAL, message_id: 5 };
    assert_eq!(bot.handle_event_at(1, Event::MessageDelete(del)), done(&["deleted: hi"]));
    assert!(bot.server_by_server(SERVER).unwrap().message(5).is_none());
    assert_eq!(bot.handle_event_at(2, Event::MessageDelete(del)), done(&["deleted 5 in 200"]));
}

#[test]
fn lines_of_a_bulk_deletion_are_gathered() {
    let mut bot = bot_with(&[
        (Template::MessageDeleteBulk, "{count} deleted in {channel_id}"),
        (Template::MessageDeleteCached, "{content}"),
        (Template::MessageDeleteUncached, "{message_id}?"),
    ]);
    bot.handle_event_at(0, Event::MessageCreate(message(5, GENERAL, "hi")));
    let del = MessageDeleteBulk { channel_id: GENERAL, ids: vec![5, 6, 7] };
    let res = bot.handle_event_at(1, Event::MessageDeleteBulk(del));
    assert_eq!(res, done(&["3 deleted in 200", "\nhi\n6?\n7?"]));
    assert!(bot.server_by_server(SERVER).unwrap().message(5).is_none());
}

#[test]
fn gathered_lines_are_sent_before_they_grow_too_long() {
    let long = "x".repeat(1500);
    let template = format!("{}{{message_id}}", long);
    let mut bot = bot_with(&[(Template::MessageDeleteUncached, template.as_str())]);
    let del = MessageDeleteBulk { channel_id: GENERAL, ids: vec![1, 2, 3] };
    let res = bot.handle_event_at(1, Event::MessageDeleteBulk(del));
    let first = format!("\n{}1", long);
    let second = format!("{}2", long);
    let third = format!("{}3", long);
    assert_eq!(res, done(&[first.as_str(), second.as_str(), third.as_str()]));
}

#[test]
fn bulk_deletion_without_templates_sends_the_empty_text() {
    let mut bot = bot_with(&[]);
    let del = MessageDeleteBulk { channel_id: GENERAL, ids: vec![1, 2] };
    assert_eq!(bot.handle_event_at(1, Event::MessageDeleteBulk(del)), done(&[""]));
}

#[test]
fn bulk_line_that_cannot_be_made_is_passed_over() {
    let mut bot = bot_with(&[
        (Template::MessageDeleteCached, "{nothing}"),
        (Template::MessageDeleteUncached, "{message_id}"),
    ]);
    bot.handle_event_at(0, Event::MessageCreate(message(5, GENERAL, "hi")));
    let del = MessageDeleteBulk { channel_id: GENERAL, ids: vec![5, 6] };
    let res = bot.handle_event_at(1, Event::MessageDeleteBulk(del));
    assert_eq!(res.failure, None);
    assert_eq!(res.outcomes.len(), 2);
    assert!(matches!(&res.outcomes[0], LogOutcome::FormatFailed { channel: LOG, server: SERVER, .. }));
    assert_eq!(res.outcomes[1], line("\n6"));
}

#[test]
fn member_that_joins_is_stored_and_reported() {
    let mut bot = bot_with(&[(Template::ServerMemberAdd, "{name} joined")]);
    let res = bot.handle_event_at(0, Event::ServerMemberAdd(SERVER, member(44, "carol", vec![])));
    assert_eq!(res, done(&["carol joined"]));
    assert!(bot.server_by_server(SERVER).unwrap().member(44).is_ok());
    let res = bot.handle_event_at(0, Event::ServerMemberAdd(SERVER, member(44, "carol", vec![])));
    assert_eq!(res, failed(&[], Error::DuplicateMember(44)));
}

#[test]
fn member_that_leaves_is_taken_out_and_reported() {
    let mut bot = bot_with(&[(Template::ServerMemberRemove, "{name} left")]);
    let res = bot.handle_event_at(0, Event::ServerMemberRemove(SERVER, user(43, "bob")));
    assert_eq!(res, done(&["bob left"]));
    assert!(bot.server_by_server(SERVER).unwrap().member(43).is_err());
    let res = bot.handle_event_at(0, Event::ServerMemberRemove(SERVER, user(43, "bob")));
    assert_eq!(res, failed(&[], Error::UncachedMember(43)));
}

#[test]
fn changes_of_a_member_are_written_back_and_reported() {
    let mut bot = bot_with(&[
        (Template::ServerMemberRoleAdd, "{member_name} got {role_name}"),
        (Template::ServerMemberRoleRemove, "{member_name} lost {role_name}"),
        (Template::ServerMemberNickChange, "{member_name}: {from} -> {to}"),
        (Template::ServerMemberNoChange, "{member_name} did not change"),
    ]);
    let u = ServerMemberUpdate {
        server_id: SERVER,
        roles: vec![11],
        user: user(42, "alice"),
        nick: Some(text("al")),
    };
    let res = bot.handle_event_at(0, Event::ServerMemberUpdate(u));
    assert_eq!(res, done(&["alice got helpers", "alice lost mods", "alice: None -> al"]));
    let cached = bot.server_by_server(SERVER).unwrap().member(42).unwrap();
    assert_eq!(cached.roles, vec![11]);
    assert_eq!(cached.nick, Some(text("al")));
    let u = ServerMemberUpdate {
        server_id: SERVER,
        roles: vec![11],
        user: user(42, "alice"),
        nick: Some(text("al")),
    };
    assert_eq!(bot.handle_event_at(0, Event::ServerMemberUpdate(u)), done(&["alice did not change"]));
}

#[test]
fn change_of_a_member_to_a_role_that_is_not_cached_fails() {
    let mut bot = bot_with(&[(Template::ServerMemberRoleAdd, "{member_name} got {role_name}")]);
    let u = ServerMemberUpdate {
        server_id: SERVER,
        roles: vec![10, 11, 99],
        user: user(42, "alice"),
        nick: None,
    };
    let res = bot.handle_event_at(0, Event::ServerMemberUpdate(u));
    assert_eq!(res, failed(&["alice got helpers"], Error::UncachedRole(99)));
    assert_eq!(bot.server_by_server(SERVER).unwrap().member(42).unwrap().roles, vec![10, 11, 99]);
    let u = ServerMemberUpdate { server_id: SERVER, roles: vec![], user: user(77, "x"), nick: None };
    assert_eq!(
        bot.handle_event_at(0, Event::ServerMemberUpdate(u)),
        failed(&[], Error::UncachedMember(77))
    );
}

#[test]
fn roles_are_created_changed_and_deleted() {
    let mut bot = bot_with(&[(Template::ServerRoleCreate, "new role {name} #{color}")]);
    let mut r = role(12, "vip");
    r.color = 0xabc;
    assert_eq!(bot.handle_event_at(0, Event::ServerRoleCreate(SERVER, r)), done(&["new role vip #abc"]));
    assert!(bot.server_by_server(SERVER).unwrap().role(12).is_ok());
    assert_eq!(
        bot.handle_event_at(0, Event::ServerRoleCreate(SERVER, role(12, "vip"))),
        failed(&[], Error::DuplicateRole(12))
    );
    assert_eq!(
        bot.handle_event_at(0, Event::ServerRoleUpdate(SERVER, role(12, "renamed"))),
        done(&["Role Changed: 12"])
    );
    assert_eq!(bot.server_by_server(SERVER).unwrap().role(12).unwrap().name, "vip");
    assert_eq!(bot.handle_event_at(0, Event::ServerRoleDelete(SERVER, 12)), done(&["Role Deleted: 12"]));
    assert_eq!(
        bot.handle_event_at(0, Event::ServerRoleDelete(SERVER, 12)),
        failed(&[], Error::UncachedRole(12))
    );
}

#[test]
fn bans_are_reported() {
    let mut bot = bot_with(&[
        (Template::ServerBanAdd, "{name} banned"),
        (Template::ServerBanRemove, "{name} unbanned"),
    ]);
    assert_eq!(bot.handle_event_at(0, Event::ServerBanAdd(SERVER, user(9, "eve"))), done(&["eve banned"]));
    assert_eq!(
        bot.handle_event_at(0, Event::ServerBanRemove(SERVER, user(9, "eve"))),
        done(&["eve unbanned"])
    );
}

#[test]
fn changes_of_the_emojis_are_written_back_and_reported() {
    let mut bot = bot_with(&[
        (Template::ServerEmojiAdd, "+{emoji_name}"),
        (Template::ServerEmojiRemove, "-{emoji_name}"),
        (Template::ServerEmojiNameChange, "{emoji_id}: {from} -> {to}"),
    ]);
    let res = bot.handle_event_at(
        0,
        Event::ServerEmojisUpdate(SERVER, vec![emoji(6, "smile"), emoji(5, "hello")]),
    );
    assert_eq!(res, done(&["+smile", "5: wave -> hello"]));
    let res = bot.handle_event_at(0, Event::ServerEmojisUpdate(SERVER, vec![emoji(6, "smile")]));
    assert_eq!(res, done(&["-hello"]));
    assert_eq!(bot.server_by_server(SERVER).unwrap().emojis.len(), 1);
}

#[test]
fn channels_are_created_changed_and_deleted() {
    let mut bot = bot_with(&[
        (Template::ChannelCreate, "new channel {name}"),
        (Template::ChannelUpdateName, "{channel_id}: {from} -> {to}"),
        (Template::ChannelUpdateNoChange, "{channel_name} did not change"),
        (Template::ChannelDelete, "channel {name} deleted"),
    ]);
    let res = bot.handle_event_at(0, Event::ChannelCreate(Channel::Public(channel(300, "new"))));
    assert_eq!(res, done(&["new channel new"]));
    assert_eq!(bot.server_by_channel(300).unwrap().id, SERVER);
    let res = bot.handle_event_at(0, Event::ChannelUpdate(Channel::Public(channel(300, "newer"))));
    assert_eq!(res, done(&["300: new -> newer"]));
    assert_eq!(bot.server_by_server(SERVER).unwrap().channel(300).unwrap().name, "newer");
    let res = bot.handle_event_at(0, Event::ChannelUpdate(Channel::Public(channel(300, "newer"))));
    assert_eq!(res, done(&["newer did not change"]));
    let res = bot.handle_event_at(0, Event::ChannelDelete(Channel::Public(channel(300, "newer"))));
    assert_eq!(res, done(&["channel newer deleted"]));
    assert!(bot.server_by_channel(300).is_err());
    assert!(bot.server_by_server(SERVER).unwrap().channel(300).is_err());
    let res = bot.handle_event_at(0, Event::ChannelDelete(Channel::Public(channel(300, "newer"))));
    assert_eq!(res, failed(&["channel newer deleted"], Error::UnknownChannel(300)));
}

#[test]
fn channel_failures_are_reported() {
    let mut bot = bot_with(&[(Template::ChannelCreate, "new channel {name}")]);
    assert_eq!(
        bot.handle_event_at(0, Event::ChannelCreate(Channel::Private(7))),
        failed(&[], Error::NotPublicChannel(7))
    );
    assert_eq!(
        bot.handle_event_at(0, Event::ChannelUpdate(Channel::Group(8))),
        failed(&[], Error::NotPublicChannel(8))
    );
    assert_eq!(
        bot.handle_event_at(0, Event::ChannelDelete(Channel::Group(8))),
        failed(&[], Error::NotPublicChannel(8))
    );
    assert_eq!(
        bot.handle_event_at(0, Event::ChannelCreate(Channel::Public(channel(GENERAL, "again")))),
        failed(&[], Error::DuplicateChannel(GENERAL))
    );
    assert_eq!(
        bot.handle_event_at(0, Event::ChannelUpdate(Channel::Public(channel(400, "unknown")))),
        failed(&[], Error::UncachedChannel(400))
    );
    let mut elsewhere = channel(500, "elsewhere");
    elsewhere.server_id = 9;
    assert_eq!(
        bot.handle_event_at(0, Event::ChannelCreate(Channel::Public(elsewhere))),
        failed(&[], Error::UnknownServer(9))
    );
    assert_eq!(bot.channels.get(&500), Some(&9));
}

#[test]
fn pins_are_reported_by_the_id_of_the_channel() {
    let mut bot = bot_with(&[]);
    assert_eq!(bot.handle_event_at(0, Event::ChannelPinsAck(GENERAL)), done(&["Pins Ack: 200"]));
    assert_eq!(bot.handle_event_at(0, Event::ChannelPinsUpdate(GENERAL)), done(&["Pins Update: 200"]));
}

#[test]
fn reactions_are_reported_with_member_channel_and_message() {
    let mut bot = bot_with(&[
        (Template::ReactionAddCached, "{user_name} gave {emoji_name} to {message_content}"),
        (Template::ReactionAddUncached, "{user_name} gave {emoji_name} in {channel_name}"),
        (Template::ReactionRemoveCached, "{user_name} took {emoji_name} from {message_content}"),
        (Template::ReactionRemoveUncached, "{user_name} took {emoji_name} in {channel_name}"),
    ]);
    let reaction = |message_id: u64, user_id: u64| Reaction {
        channel_id: GENERAL,
        message_id,
        user_id,
        emoji: ReactionEmoji::Unicode(text("+1")),
    };
    assert_eq!(
        bot.handle_event_at(0, Event::ReactionAdd(reaction(5, 43))),
        done(&["bob gave +1 in general"])
    );
    bot.handle_event_at(0, Event::MessageCreate(message(5, GENERAL, "hi")));
    assert_eq!(bot.handle_event_at(1, Event::ReactionAdd(reaction(5, 43))), done(&["bob gave +1 to hi"]));
    assert_eq!(
        bot.handle_event_at(1, Event::ReactionRemove(reaction(5, 43))),
        done(&["bob took +1 from hi"])
    );
    assert_eq!(
        bot.handle_event_at(1, Event::ReactionRemove(reaction(6, 43))),
        done(&["bob took +1 in general"])
    );
    assert_eq!(
        bot.handle_event_at(1, Event::ReactionAdd(reaction(5, 77))),
        failed(&[], Error::UncachedMember(77))
    );
}

#[test]
fn community_without_log_channel_gets_no_lines() {
    let mut config = ServerConfig::new(SERVER);
    config.set_template(Template::ServerBanAdd, text("{name} banned"));
    let mut bot = Bot::new(Config { bot: None, server: vec![config] }, BOT);
    bot.add_server(live());
    let res = bot.handle_event_at(0, Event::ServerBanAdd(SERVER, user(9, "eve")));
    assert_eq!(res, Handled { outcomes: vec![LogOutcome::NoLogChannel], failure: None });
}

#[test]
fn events_are_handled_by_the_clock_of_the_dispatcher() {
    let mut bot = bot_with(&[(Template::MessageCreate, "{content}")]);
    assert_eq!(bot.handle_event(Event::MessageCreate(message(5, GENERAL, "hi"))), done(&["hi"]));
    assert_eq!(bot.handle_message_create(message(6, GENERAL, "ho")), done(&["ho"]));
    let server = bot.server_by_server(SERVER).unwrap();
    assert!(server.message(5).is_some());
    assert!(server.message(6).is_some());
}

#[test]
fn change_of_author_and_time_of_sending_is_written_back_and_reported() {
    let mut bot = bot_with(&[
        (Template::MessageUpdateTimestamp, "{message_id}: sent {from} -> {to}"),
        (Template::MessageUpdateAuthor, "{message_id}: {from_name} -> {to_name}"),
    ]);
    bot.handle_event_at(0, Event::MessageCreate(message(5, GENERAL, "hi")));
    let mut u = update(5, GENERAL);
    u.timestamp = Some(text("t1"));
    u.author = Some(user(43, "bob"));
    let res = bot.handle_event_at(1, Event::MessageUpdate(u));
    assert_eq!(res, done(&["5: sent t0 -> t1", "5: alice -> bob"]));
    let cached = bot.server_by_server(SERVER).unwrap().message(5).unwrap();
    assert_eq!(cached.timestamp, "t1");
    assert_eq!(cached.author, user(43, "bob"));
}

#[test]
fn message_stored_anew_outlives_the_expiry_of_the_deleted_one() {
    let mut bot = bot_with(&[]);
    let minute: u128 = 60_000_000_000;
    bot.handle_event_at(0, Event::MessageCreate(message(5, GENERAL, "old")));
    let del = MessageDelete { channel_id: GENERAL, message_id: 5 };
    bot.handle_event_at(minute, Event::MessageDelete(del));
    bot.handle_event_at(2 * minute, Event::MessageCreate(message(5, GENERAL, "new")));
    bot.handle_event_at(6 * minute, Event::MessageCreate(message(6, GENERAL, "other")));
    assert_eq!(bot.server_by_server(SERVER).unwrap().message(5).unwrap().content, "new");
    bot.handle_event_at(7 * minute, Event::MessageCreate(message(7, GENERAL, "last")));
    assert!(bot.server_by_server(SERVER).unwrap().message(5).is_none());
}
