#![allow(dead_code)]
use dilobo::config::{BotConfig, Config, ServerConfig, Template};
use dilobo::errors::Error;
use dilobo::model::{ChannelType, PublicChannel};
use dilobo::text::text;

fn channel(id: u64, name: &str) -> PublicChannel {
    PublicChannel {
        id,
        name: text(name),
        server_id: 1,
        kind: ChannelType::Text,
        permission_overwrites: vec![],
        topic: None,
        position: 0,
        last_message_id: None,
        bitrate: None,
        user_limit: None,
        last_pin_timestamp: None,
    }
}

fn named(name: &str) -> ServerConfig {
    let mut c = ServerConfig::new(0);
    c.server_id = None;
    c.server_name = Some(text(name));
    c
}

#[test]
fn new_server_config_has_no_templates() {
    let c = ServerConfig::new(7);
    assert_eq!(c.server_id, Some(7));
    assert_eq!(c.server_name, None);
    assert_eq!(c.template_of(Template::MessageCreate), &None);
    assert_eq!(c.template_of(Template::ReactionRemoveUncached), &None);
}

#[test]
fn template_is_kept_for_its_kind_of_event() {
    let mut c = ServerConfig::new(7);
    c.set_template(Template::MessageUpdatePinned, text("pinned"));
    assert_eq!(c.template_of(Template::MessageUpdatePinned), &Some(text("pinned")));
    assert_eq!(c.message_update_pinned_msg, Some(text("pinned")));
    assert_eq!(c.template_of(Template::MessageUpdateUnpinned), &None);
    c.set_template(Template::MessageUpdateTimestamp, text("time"));
    c.set_template(Template::MessageUpdateAuthor, text("author"));
    assert_eq!(c.message_update_timestamp_msg, Some(text("time")));
    assert_eq!(c.template_of(Template::MessageUpdateAuthor), &Some(text("author")));
    c.channel_delete_msg = Some(text("gone"));
    assert_eq!(c.template_of(Template::ChannelDelete), &Some(text("gone")));
}

#[test]
fn configuration_with_identified_servers_is_valid() {
    let config = Config {
        bot: Some(BotConfig { token: text("SECRET-REDACTED") }),
        server: vec![ServerConfig::new(1), named("two")],
    };
    assert_eq!(config.validate(), Ok(()));
    assert_eq!(Config { bot: None, server: vec![] }.validate(), Ok(()));
}

#[test]
fn server_without_id_and_name_is_refused() {
    let mut nameless = ServerConfig::new(1);
    nameless.server_id = None;
    let config = Config { bot: None, server: vec![ServerConfig::new(1), nameless] };
    assert_eq!(config.validate(), Err(Error::NoServerIdentity));
}

#[test]
fn server_is_recognised_by_what_the_configuration_gives() {
    let by_id = ServerConfig::new(7);
    assert!(by_id.matches_server(7, &text("any")));
    assert!(!by_id.matches_server(8, &text("any")));
    let by_name = named("home");
    assert!(by_name.matches_server(1, &text("home")));
    assert!(!by_name.matches_server(1, &text("away")));
    let mut by_both = ServerConfig::new(7);
    by_both.server_name = Some(text("home"));
    assert!(by_both.matches_server(7, &text("home")));
    assert!(!by_both.matches_server(7, &text("away")));
    assert!(!by_both.matches_server(8, &text("home")));
    let mut by_nothing = ServerConfig::new(7);
    by_nothing.server_id = None;
    assert!(!by_nothing.matches_server(7, &text("home")));
}

#[test]
fn log_channel_is_the_first_channel_that_matches() {
    let channels = vec![channel(1, "general"), channel(2, "log"), channel(3, "log")];
    let mut c = ServerConfig::new(7);
    assert_eq!(c.find_log_channel(&channels), None);
    c.log_channel_name = Some(text("log"));
    assert_eq!(c.find_log_channel(&channels), Some(2));
    c.log_channel_id = Some(3);
    assert_eq!(c.find_log_channel(&channels), Some(3));
    c.log_channel_name = None;
    c.log_channel_id = Some(1);
    assert_eq!(c.find_log_channel(&channels), Some(1));
    c.log_channel_id = Some(9);
    assert_eq!(c.find_log_channel(&channels), None);
    assert_eq!(c.find_log_channel(&vec![]), None);
}

#[test]
fn taken_configuration_leaves_the_list() {
    let mut config = Config {
        bot: None,
        server: vec![ServerConfig::new(1), ServerConfig::new(2), ServerConfig::new(3)],
    };
    let taken = config.take_server_config(1, &text("x")).unwrap();
    assert_eq!(taken.server_id, Some(1));
    let left: Vec<Option<u64>> = config.server.iter().map(|c| c.server_id).collect();
    assert_eq!(left, vec![Some(3), Some(2)]);
    assert!(config.take_server_config(1, &text("x")).is_none());
    assert_eq!(config.server.len(), 2);
}

#[test]
fn first_of_two_matching_configurations_is_taken() {
    let mut first = named("home");
    first.log_channel_id = Some(10);
    let mut second = ServerConfig::new(5);
    second.log_channel_id = Some(20);
    let mut config = Config { bot: None, server: vec![first, second] };
    let taken = config.take_server_config(5, &text("home")).unwrap();
    assert_eq!(taken.log_channel_id, Some(10));
}
