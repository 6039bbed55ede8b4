#![allow(dead_code)]
use dilobo::diff::message::{apply_all, MessageUpdateDiff};
use dilobo::diff::Diff;
use dilobo::errors::Error;
use dilobo::model::{Attachment, Message, MessageType, MessageUpdate, User};
use dilobo::text::text;

fn user(id: u64, name: &str) -> User {
    User { id, name: text(name), discriminator: 1, avatar: None, bot: false }
}

fn attachment(id: &str, filename: &str) -> Attachment {
    Attachment {
        id: text(id),
        filename: text(filename),
        url: text("u"),
        proxy_url: text("p"),
        size: 3,
        dimensions: None,
    }
}

fn message(id: u64, content: &str) -> Message {
    Message {
        id,
        channel_id: 200,
        content: text(content),
        nonce: None,
        tts: false,
        timestamp: text("t0"),
        edited_timestamp: None,
        pinned: false,
        kind: MessageType::Regular,
        author: user(42, "alice"),
        mention_everyone: false,
        mentions: vec![],
        mention_roles: vec![],
        reactions: vec![],
        attachments: vec![],
        embeds: vec![],
    }
}

fn update(id: u64) -> MessageUpdate {
    MessageUpdate {
        id,
        channel_id: 200,
        kind: None,
        content: None,
        nonce: None,
        tts: None,
        pinned: None,
        timestamp: None,
        edited_timestamp: None,
        author: None,
        mention_everyone: None,
        mentions: None,
        mention_roles: None,
        attachments: None,
        embeds: None,
    }
}

#[test]
fn update_without_fields_has_no_diff() {
    let mut m = message(5, "hi");
    m.mentions = vec![user(1, "a")];
    m.embeds = vec![text("{}")];
    assert_eq!(m.diff(&update(5)), Ok(vec![]));
}

#[test]
fn update_with_the_cached_values_has_no_diff() {
    let mut m = message(5, "hi");
    m.nonce = Some(text("n"));
    m.mentions = vec![user(1, "a"), user(2, "b")];
    let mut u = update(5);
    u.kind = Some(MessageType::Regular);
    u.content = Some(text("hi"));
    u.nonce = Some(text("n"));
    u.tts = Some(false);
    u.pinned = Some(false);
    u.mention_everyone = Some(false);
    u.mentions = Some(vec![user(2, "b"), user(1, "a")]);
    u.mention_roles = Some(vec![]);
    u.attachments = Some(vec![]);
    u.embeds = Some(vec![]);
    assert_eq!(m.diff(&u), Ok(vec![]));
}

#[test]
fn pin_is_reported_by_its_direction() {
    let mut m = message(5, "hi");
    let mut u = update(5);
    u.pinned = Some(true);
    assert_eq!(m.diff(&u), Ok(vec![MessageUpdateDiff::Pinned]));
    m.pinned = true;
    assert_eq!(m.diff(&u), Ok(vec![]));
    u.pinned = Some(false);
    assert_eq!(m.diff(&u), Ok(vec![MessageUpdateDiff::UnPinned]));
}

#[test]
fn scalar_changes_come_in_a_fixed_order() {
    let m = message(5, "hi");
    let mut u = update(5);
    u.author = Some(user(42, "alice renamed"));
    u.timestamp = Some(text("t2"));
    u.mention_everyone = Some(true);
    u.edited_timestamp = Some(text("t1"));
    u.pinned = Some(true);
    u.tts = Some(true);
    u.nonce = Some(text("n"));
    u.content = Some(text("ho"));
    u.kind = Some(MessageType::MessagePinned);
    assert_eq!(
        m.diff(&u),
        Ok(vec![
            MessageUpdateDiff::Kind(MessageType::Regular, MessageType::MessagePinned),
            MessageUpdateDiff::Content(text("hi"), text("ho")),
            MessageUpdateDiff::Nonce(None, Some(text("n"))),
            MessageUpdateDiff::Tts(false, true),
            MessageUpdateDiff::Pinned,
            MessageUpdateDiff::EditedTimestamp(None, text("t1")),
            MessageUpdateDiff::MentionEveryone(false, true),
            MessageUpdateDiff::Timestamp(text("t0"), text("t2")),
            MessageUpdateDiff::Author(user(42, "alice"), user(42, "alice renamed")),
        ])
    );
}

#[test]
fn author_and_time_of_sending_are_compared() {
    let mut m = message(5, "hi");
    let mut u = update(5);
    u.author = Some(user(42, "alice"));
    u.timestamp = Some(text("t0"));
    assert_eq!(m.diff(&u), Ok(vec![]));
    u.author = Some(user(43, "eve"));
    u.timestamp = Some(text("t9"));
    let diffs = m.diff(&u).unwrap();
    assert_eq!(
        diffs,
        vec![
            MessageUpdateDiff::Timestamp(text("t0"), text("t9")),
            MessageUpdateDiff::Author(user(42, "alice"), user(43, "eve")),
        ]
    );
    assert_eq!(apply_all(&diffs, &mut m), Ok(()));
    assert_eq!(m.timestamp, "t9");
    assert_eq!(m.author, user(43, "eve"));
    assert_eq!(m.content, "hi");
    assert_eq!(m.diff(&u), Ok(vec![]));
}

#[test]
fn lists_are_compared_as_sets() {
    let mut m = message(5, "hi");
    m.mentions = vec![user(1, "a"), user(2, "b")];
    m.mention_roles = vec![10, 20];
    m.attachments = vec![attachment("x", "x.png")];
    m.embeds = vec![text("{\"a\":1}")];
    let mut u = update(5);
    u.mentions = Some(vec![user(3, "c"), user(2, "b"), user(3, "c")]);
    u.mention_roles = Some(vec![20, 30, 30]);
    u.attachments = Some(vec![attachment("y", "y.png")]);
    u.embeds = Some(vec![text("{\"b\":2}"), text("{\"b\":2}")]);
    assert_eq!(
        m.diff(&u),
        Ok(vec![
            MessageUpdateDiff::MentionAdded(user(3, "c")),
            MessageUpdateDiff::MentionRemoved(user(1, "a")),
            MessageUpdateDiff::MentionRoleAdded(30),
            MessageUpdateDiff::MentionRoleRemoved(10),
            MessageUpdateDiff::AttachmentAdded(attachment("y", "y.png")),
            MessageUpdateDiff::AttachmentRemoved(attachment("x", "x.png")),
            MessageUpdateDiff::EmbedsAdded(text("{\"b\":2}")),
            MessageUpdateDiff::EmbedsRemoved(text("{\"a\":1}")),
        ])
    );
}

#[test]
fn changed_item_is_reported_as_added_and_removed() {
    let mut m = message(5, "hi");
    m.mentions = vec![user(1, "old name")];
    let mut u = update(5);
    u.mentions = Some(vec![user(1, "new name")]);
    assert_eq!(
        m.diff(&u),
        Ok(vec![
            MessageUpdateDiff::MentionAdded(user(1, "new name")),
            MessageUpdateDiff::MentionRemoved(user(1, "old name")),
        ])
    );
}

#[test]
fn diff_changes_neither_message_nor_update() {
    let m = message(5, "hi");
    let mut u = update(5);
    u.content = Some(text("ho"));
    let first = m.diff(&u);
    let second = m.diff(&u);
    assert_eq!(first, second);
    assert_eq!(m, message(5, "hi"));
}

#[test]
fn applying_the_diffs_gives_the_merged_message() {
    let mut m = message(5, "hi");
    m.nonce = Some(text("n0"));
    m.mentions = vec![user(1, "a"), user(2, "b")];
    m.mention_roles = vec![10, 20];
    m.attachments = vec![attachment("x", "x.png"), attachment("z", "z.png")];
    m.embeds = vec![text("e1"), text("e2")];
    let mut u = update(5);
    u.kind = Some(MessageType::Regular);
    u.content = Some(text("ho"));
    u.nonce = Some(text("n1"));
    u.tts = Some(true);
    u.pinned = Some(true);
    u.edited_timestamp = Some(text("t1"));
    u.mention_everyone = Some(true);
    u.timestamp = Some(text("t5"));
    u.author = Some(user(44, "carol"));
    u.mentions = Some(vec![user(2, "b"), user(3, "c"), user(1, "renamed")]);
    u.mention_roles = Some(vec![30]);
    u.attachments = Some(vec![attachment("z", "z.png"), attachment("y", "y.png")]);
    u.embeds = Some(vec![text("e2"), text("e3")]);
    let diffs = m.diff(&u).unwrap();
    assert_eq!(apply_all(&diffs, &mut m), Ok(()));
    assert_eq!(m.id, 5);
    assert_eq!(m.content, "ho");
    assert_eq!(m.nonce, Some(text("n1")));
    assert!(m.tts);
    assert!(m.pinned);
    assert_eq!(m.edited_timestamp, Some(text("t1")));
    assert!(m.mention_everyone);
    assert_eq!(m.timestamp, "t5");
    assert_eq!(m.author, user(44, "carol"));
    assert_eq!(m.mentions, vec![user(2, "b"), user(3, "c"), user(1, "renamed")]);
    assert_eq!(m.mention_roles, vec![30]);
    assert_eq!(m.attachments, vec![attachment("z", "z.png"), attachment("y", "y.png")]);
    assert_eq!(m.embeds, vec![text("e2"), text("e3")]);
    assert_eq!(m.diff(&u), Ok(vec![]));
}

#[test]
fn several_renamed_mentions_survive_the_round_trip() {
    let mut m = message(5, "hi");
    m.mentions = vec![user(1, "a"), user(2, "b")];
    let mut u = update(5);
    u.mentions = Some(vec![user(1, "a2"), user(2, "b2")]);
    let diffs = m.diff(&u).unwrap();
    assert_eq!(apply_all(&diffs, &mut m), Ok(()));
    assert_eq!(m.mentions, vec![user(1, "a2"), user(2, "b2")]);
}

#[test]
fn partial_update_leaves_the_other_fields() {
    let mut m = message(5, "hi");
    m.mentions = vec![user(1, "a")];
    let mut u = update(5);
    u.content = Some(text("ho"));
    let diffs = m.diff(&u).unwrap();
    assert_eq!(apply_all(&diffs, &mut m), Ok(()));
    let mut expected = message(5, "ho");
    expected.mentions = vec![user(1, "a")];
    assert_eq!(m, expected);
}

#[test]
fn each_scalar_diff_overwrites_its_field() {
    let mut m = message(5, "hi");
    assert_eq!(
        MessageUpdateDiff::Kind(MessageType::Regular, MessageType::GroupNameUpdate).apply(&mut m),
        Ok(())
    );
    assert_eq!(m.kind, MessageType::GroupNameUpdate);
    assert_eq!(MessageUpdateDiff::Content(text("x"), text("y")).apply(&mut m), Ok(()));
    assert_eq!(m.content, "y");
    assert_eq!(MessageUpdateDiff::Nonce(None, Some(text("n"))).apply(&mut m), Ok(()));
    assert_eq!(m.nonce, Some(text("n")));
    assert_eq!(MessageUpdateDiff::Tts(false, true).apply(&mut m), Ok(()));
    assert!(m.tts);
    assert_eq!(MessageUpdateDiff::Pinned.apply(&mut m), Ok(()));
    assert!(m.pinned);
    assert_eq!(MessageUpdateDiff::UnPinned.apply(&mut m), Ok(()));
    assert!(!m.pinned);
    assert_eq!(MessageUpdateDiff::EditedTimestamp(None, text("t1")).apply(&mut m), Ok(()));
    assert_eq!(m.edited_timestamp, Some(text("t1")));
    assert_eq!(MessageUpdateDiff::MentionEveryone(false, true).apply(&mut m), Ok(()));
    assert!(m.mention_everyone);
    assert_eq!(MessageUpdateDiff::Timestamp(text("t0"), text("t3")).apply(&mut m), Ok(()));
    assert_eq!(m.timestamp, "t3");
    assert_eq!(
        MessageUpdateDiff::Author(user(42, "alice"), user(7, "dave")).apply(&mut m),
        Ok(())
    );
    assert_eq!(m.author, user(7, "dave"));
}

#[test]
fn removal_finds_the_item_by_what_it_stands_for() {
    let mut m = message(5, "hi");
    m.mentions = vec![user(1, "a"), user(2, "b"), user(3, "c")];
    assert_eq!(MessageUpdateDiff::MentionRemoved(user(2, "other name")).apply(&mut m), Ok(()));
    assert_eq!(m.mentions, vec![user(1, "a"), user(3, "c")]);
    m.attachments = vec![attachment("x", "x.png"), attachment("y", "y.png")];
    assert_eq!(
        MessageUpdateDiff::AttachmentRemoved(attachment("x", "renamed.png")).apply(&mut m),
        Ok(())
    );
    assert_eq!(m.attachments, vec![attachment("y", "y.png")]);
}

#[test]
fn removing_what_the_message_lacks_fails() {
    let mut m = message(5, "hi");
    m.mentions = vec![user(1, "a")];
    assert_eq!(
        MessageUpdateDiff::MentionRemoved(user(9, "z")).apply(&mut m),
        Err(Error::MissingMention(9))
    );
    assert_eq!(
        MessageUpdateDiff::MentionRoleRemoved(7).apply(&mut m),
        Err(Error::MissingMentionRole(7))
    );
    assert_eq!(
        MessageUpdateDiff::AttachmentRemoved(attachment("x", "x")).apply(&mut m),
        Err(Error::MissingAttachment)
    );
    assert_eq!(MessageUpdateDiff::EmbedsRemoved(text("e")).apply(&mut m), Err(Error::MissingEmbed));
    let mut same = message(5, "hi");
    same.mentions = vec![user(1, "a")];
    assert_eq!(m, same);
}

#[test]
fn failed_message_diff_keeps_what_was_written_before() {
    let mut m = message(5, "hi");
    let diffs = vec![
        MessageUpdateDiff::Pinned,
        MessageUpdateDiff::MentionRoleRemoved(7),
        MessageUpdateDiff::Content(text("hi"), text("never")),
    ];
    assert_eq!(apply_all(&diffs, &mut m), Err(Error::MissingMentionRole(7)));
    assert!(m.pinned);
    assert_eq!(m.content, "hi");
}

#[test]
fn copy_of_a_diff_equals_it() {
    let d = MessageUpdateDiff::MentionAdded(user(1, "a"));
    assert_eq!(d.duplicate(), d);
    let d = MessageUpdateDiff::EditedTimestamp(Some(text("a")), text("b"));
    assert_eq!(d.duplicate(), d);
}
