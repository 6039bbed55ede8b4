#![allow(dead_code)]
use dilobo::errors::Error;
use dilobo::model::{
    ChannelType, Emoji, LiveServer, Member, Permissions, PublicChannel, Role, User,
    VerificationLevel,
};
use dilobo::server::{index_by_id, Server, MESSAGE_TTL};
use dilobo::text::text;

fn user(id: u64, name: &str) -> User {
    User { id, name: text(name), discriminator: 1, avatar: None, bot: false }
}

fn member(id: u64, name: &str) -> Member {
    Member {
        user: user(id, name),
        roles: vec![],
        nick: None,
        joined_at: text("2017"),
        mute: false,
        deaf: false,
    }
}

fn role(id: u64, name: &str) -> Role {
    Role {
        id,
        name: text(name),
        color: 0,
        hoist: false,
        managed: false,
        position: 0,
        mentionable: false,
        permissions: Permissions { bits: 0 },
    }
}

fn channel(id: u64, name: &str) -> PublicChannel {
    PublicChannel {
        id,
        name: text(name),
        server_id: 1,
        kind: ChannelType::Text,
        permission_overwrites: vec![],
        topic: None,
        position: 0,
        last_message_id: None,
        bitrate: None,
        user_limit: None,
        last_pin_timestamp: None,
    }
}

fn live() -> LiveServer {
    LiveServer {
        id: 1,
        name: text("home"),
        owner_id: 42,
        roles: vec![role(10, "mods"), role(11, "helpers")],
        region: text("eu"),
        members: vec![member(42, "alice"), member(43, "bob")],
        icon: None,
        channels: vec![channel(100, "log"), channel(200, "general")],
        afk_timeout: 300,
        afk_channel_id: None,
        verification_level: VerificationLevel::Low,
        emojis: vec![Emoji {
            id: 5,
            name: text("wave"),
            managed: false,
            require_colons: true,
            roles: vec![],
        }],
    }
}

#[test]
fn message_cache_keeps_messages_for_five_minutes() {
    assert_eq!(MESSAGE_TTL, 300 * 1_000_000_000);
}

#[test]
fn new_mirror_holds_every_entity_under_its_id() {
    let server = Server::new(live(), None, Some(100));
    assert_eq!(server.id, 1);
    assert_eq!(server.name, "home");
    assert_eq!(server.owner_id, 42);
    assert_eq!(server.log_channel, Some(100));
    assert!(server.config.is_none());
    assert_eq!(server.roles.len(), 2);
    assert_eq!(server.role(10), Ok(&role(10, "mods")));
    assert_eq!(server.member(43), Ok(&member(43, "bob")));
    assert_eq!(server.channel(200), Ok(&channel(200, "general")));
    assert_eq!(server.emoji(5).unwrap().name, "wave");
    assert_eq!(server.message(1), None);
}

#[test]
fn later_entity_of_the_same_id_stays() {
    let map = index_by_id(&vec![role(1, "first"), role(2, "other"), role(1, "second")]);
    assert_eq!(map.keys().len(), 2);
    assert_eq!(map.get(&1), Some(&role(1, "second")));
}

#[test]
fn entity_that_is_not_cached_is_a_failure() {
    let server = Server::new(live(), None, None);
    assert_eq!(server.role(99), Err(Error::UncachedRole(99)));
    assert_eq!(server.member(99), Err(Error::UncachedMember(99)));
    assert_eq!(server.channel(99), Err(Error::UncachedChannel(99)));
    assert_eq!(server.emoji(99), Err(Error::UncachedEmoji(99)));
}

#[test]
fn created_entity_is_stored_even_if_it_was_cached() {
    let mut server = Server::new(live(), None, None);
    assert_eq!(server.add_member(member(44, "carol")), Ok(()));
    assert_eq!(server.add_member(member(44, "carol again")), Err(Error::DuplicateMember(44)));
    assert_eq!(server.member(44).unwrap().user.name, "carol again");
    assert_eq!(server.add_role(role(12, "new")), Ok(()));
    assert_eq!(server.add_role(role(10, "mods again")), Err(Error::DuplicateRole(10)));
    assert_eq!(server.role(10).unwrap().name, "mods again");
    assert_eq!(server.add_channel(channel(300, "new")), Ok(()));
    assert_eq!(server.add_channel(channel(100, "log again")), Err(Error::DuplicateChannel(100)));
    assert_eq!(server.channel(100).unwrap().name, "log again");
}

#[test]
fn deleted_entity_is_handed_back() {
    let mut server = Server::new(live(), None, None);
    assert_eq!(server.remove_member(43), Ok(member(43, "bob")));
    assert_eq!(server.remove_member(43), Err(Error::UncachedMember(43)));
    assert_eq!(server.remove_role(11), Ok(role(11, "helpers")));
    assert_eq!(server.remove_role(11), Err(Error::UncachedRole(11)));
    assert_eq!(server.remove_channel(200), Ok(channel(200, "general")));
    assert_eq!(server.remove_channel(200), Err(Error::UncachedChannel(200)));
    assert_eq!(server.members.len(), 1);
}

#[test]
fn replaced_channel_hands_back_the_cached_one() {
    let mut server = Server::new(live(), None, None);
    assert_eq!(server.replace_channel(channel(200, "renamed")), Ok(channel(200, "general")));
    assert_eq!(server.channel(200).unwrap().name, "renamed");
    assert_eq!(server.replace_channel(channel(300, "new")), Err(Error::UncachedChannel(300)));
    assert_eq!(server.channel(300).unwrap().name, "new");
}

#[test]
fn failure_has_words() {
    assert_eq!(Error::UncachedMember(7).message(), "uncached member 7");
    assert_eq!(Error::UnknownChannel(12).message(), "could not find server for channel 12");
    assert_eq!(Error::UnknownServer(3).message(), "could not find server for server_id 3");
    assert_eq!(Error::NoServerIdentity.message(), "No server_id or server_name given");
    assert_eq!(Error::MissingEmbed.message(), "message does not hold the embed");
    assert_eq!(Error::NotConfigured(4).message(), "No configuration found for server 4");
}

#[test]
fn mirror_can_be_timed_by_the_clock_of_its_owner() {
    let server = Server::with_clock(live(), None, Some(100), std::time::Instant::now());
    assert_eq!(server.log_channel, Some(100));
    assert_eq!(server.roles.len(), 2);
    assert_eq!(server.message(1), None);
}
