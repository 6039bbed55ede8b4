#![allow(dead_code)]
use dilobo::diff::channel::{lookup, ChannelUpdateDiff};
use dilobo::diff::permission::{
    reconcile, ChannelPermission, MyVec, PermissionType, Transition, ADD_REACTIONS,
    CREATE_INVITE, READ_MESSAGES, SEND_MESSAGES,
};
use dilobo::diff::Diff;
use dilobo::model::{
    ChannelType, PermissionOverwrite, PermissionOverwriteType, Permissions, PublicChannel,
};
use dilobo::text::text;

fn set(bits: u64) -> Permissions {
    Permissions { bits }
}

fn overwrite(kind: PermissionOverwriteType, allow: u64, deny: u64) -> PermissionOverwrite {
    PermissionOverwrite { kind, allow: set(allow), deny: set(deny) }
}

fn channel(id: u64, name: &str, overwrites: Vec<PermissionOverwrite>) -> PublicChannel {
    PublicChannel {
        id,
        name: text(name),
        server_id: 1,
        kind: ChannelType::Text,
        permission_overwrites: overwrites,
        topic: None,
        position: 0,
        last_message_id: None,
        bitrate: None,
        user_limit: None,
        last_pin_timestamp: None,
    }
}

fn transition(p: ChannelPermission, from: PermissionType, to: PermissionType) -> Transition {
    Transition { permission: p, from, to }
}

#[test]
fn same_channel_has_no_diff() {
    let c = channel(1, "general", vec![overwrite(PermissionOverwriteType::Role(7), 1, 2)]);
    let n = channel(1, "general", vec![overwrite(PermissionOverwriteType::Role(7), 1, 2)]);
    assert_eq!(c.diff(&n), Ok(vec![]));
}

#[test]
fn scalar_fields_of_a_channel_are_compared() {
    let mut c = channel(1, "general", vec![]);
    c.topic = Some(text("old"));
    c.bitrate = Some(64);
    let mut n = channel(1, "talk", vec![]);
    n.topic = None;
    n.position = -3;
    n.bitrate = Some(96);
    n.user_limit = Some(10);
    assert_eq!(
        c.diff(&n),
        Ok(vec![
            ChannelUpdateDiff::Name(text("general"), text("talk")),
            ChannelUpdateDiff::Topic(Some(text("old")), None),
            ChannelUpdateDiff::Position(0, -3),
            ChannelUpdateDiff::Bitrate(Some(64), Some(96)),
            ChannelUpdateDiff::UserLimit(None, Some(10)),
        ])
    );
}

#[test]
fn reconciliation_of_allow_ab_with_allow_b_deny_c() {
    let a = CREATE_INVITE;
    let b = READ_MESSAGES;
    let c = SEND_MESSAGES;
    assert_eq!(
        reconcile(set(a | b), set(0), set(b), set(c)),
        vec![
            transition(ChannelPermission::CreateInvite, PermissionType::Allow, PermissionType::Default),
            transition(ChannelPermission::SendMessages, PermissionType::Default, PermissionType::Deny),
        ]
    );
}

#[test]
fn permission_diff_of_a_role_in_both_channels() {
    let role = PermissionOverwriteType::Role(7);
    let c = channel(1, "g", vec![overwrite(role, CREATE_INVITE | READ_MESSAGES, 0)]);
    let n = channel(1, "g", vec![overwrite(role, READ_MESSAGES, SEND_MESSAGES)]);
    assert_eq!(
        c.diff(&n),
        Ok(vec![
            ChannelUpdateDiff::RolePermission(
                7,
                ChannelPermission::CreateInvite,
                PermissionType::Allow,
                PermissionType::Default
            ),
            ChannelUpdateDiff::RolePermission(
                7,
                ChannelPermission::SendMessages,
                PermissionType::Default,
                PermissionType::Deny
            ),
        ])
    );
}

#[test]
fn permission_that_flips_is_reported_once() {
    assert_eq!(
        reconcile(set(CREATE_INVITE), set(READ_MESSAGES), set(READ_MESSAGES), set(CREATE_INVITE)),
        vec![
            transition(ChannelPermission::CreateInvite, PermissionType::Allow, PermissionType::Deny),
            transition(ChannelPermission::ReadMessages, PermissionType::Deny, PermissionType::Allow),
        ]
    );
}

#[test]
fn equal_overwrites_reconcile_to_nothing() {
    assert_eq!(reconcile(set(0x400), set(0x800), set(0x400), set(0x800)), vec![]);
    assert_eq!(reconcile(set(0), set(0), set(0), set(0)), vec![]);
}

#[test]
fn bits_that_name_no_channel_permission_are_passed_over() {
    assert_eq!(reconcile(set(0x2), set(0), set(0), set(0x8)), vec![]);
}

#[test]
fn subject_that_is_new_starts_from_default() {
    let c = channel(1, "g", vec![]);
    let n = channel(
        1,
        "g",
        vec![overwrite(PermissionOverwriteType::Member(5), CREATE_INVITE, SEND_MESSAGES)],
    );
    assert_eq!(
        c.diff(&n),
        Ok(vec![
            ChannelUpdateDiff::UserPermission(
                5,
                ChannelPermission::CreateInvite,
                PermissionType::Default,
                PermissionType::Allow
            ),
            ChannelUpdateDiff::UserPermission(
                5,
                ChannelPermission::SendMessages,
                PermissionType::Default,
                PermissionType::Deny
            ),
        ])
    );
}

#[test]
fn subject_that_is_gone_returns_to_default() {
    let c = channel(
        1,
        "g",
        vec![overwrite(PermissionOverwriteType::Member(5), CREATE_INVITE, SEND_MESSAGES)],
    );
    let n = channel(1, "g", vec![]);
    assert_eq!(
        c.diff(&n),
        Ok(vec![
            ChannelUpdateDiff::UserPermission(
                5,
                ChannelPermission::CreateInvite,
                PermissionType::Allow,
                PermissionType::Default
            ),
            ChannelUpdateDiff::UserPermission(
                5,
                ChannelPermission::SendMessages,
                PermissionType::Deny,
                PermissionType::Default
            ),
        ])
    );
}

#[test]
fn subjects_of_the_update_come_before_those_that_are_gone() {
    let c = channel(
        1,
        "g",
        vec![
            overwrite(PermissionOverwriteType::Role(1), CREATE_INVITE, 0),
            overwrite(PermissionOverwriteType::Role(2), CREATE_INVITE, 0),
        ],
    );
    let n = channel(
        1,
        "g",
        vec![
            overwrite(PermissionOverwriteType::Member(3), CREATE_INVITE, 0),
            overwrite(PermissionOverwriteType::Role(2), 0, 0),
        ],
    );
    assert_eq!(
        c.diff(&n),
        Ok(vec![
            ChannelUpdateDiff::UserPermission(
                3,
                ChannelPermission::CreateInvite,
                PermissionType::Default,
                PermissionType::Allow
            ),
            ChannelUpdateDiff::RolePermission(
                2,
                ChannelPermission::CreateInvite,
                PermissionType::Allow,
                PermissionType::Default
            ),
            ChannelUpdateDiff::RolePermission(
                1,
                ChannelPermission::CreateInvite,
                PermissionType::Allow,
                PermissionType::Default
            ),
        ])
    );
}

#[test]
fn member_and_role_of_the_same_id_are_different_subjects() {
    let c = channel(1, "g", vec![overwrite(PermissionOverwriteType::Role(5), CREATE_INVITE, 0)]);
    let n = channel(1, "g", vec![overwrite(PermissionOverwriteType::Member(5), CREATE_INVITE, 0)]);
    assert_eq!(c.diff(&n).unwrap().len(), 2);
}

#[test]
fn order_of_the_overwrites_does_not_matter() {
    let a = overwrite(PermissionOverwriteType::Role(1), CREATE_INVITE, 0);
    let b = overwrite(PermissionOverwriteType::Role(2), 0, SEND_MESSAGES);
    assert_eq!(channel(1, "g", vec![a, b]).diff(&channel(1, "g", vec![b, a])), Ok(vec![]));
}

#[test]
fn lookup_gives_the_last_overwrite_of_a_subject() {
    let list = vec![
        overwrite(PermissionOverwriteType::Role(1), 1, 2),
        overwrite(PermissionOverwriteType::Role(2), 4, 8),
        overwrite(PermissionOverwriteType::Role(1), 16, 32),
    ];
    assert_eq!(lookup(&list, PermissionOverwriteType::Role(1)), (set(16), set(32)));
    assert_eq!(lookup(&list, PermissionOverwriteType::Role(2)), (set(4), set(8)));
    assert_eq!(lookup(&list, PermissionOverwriteType::Member(1)), (set(0), set(0)));
}

#[test]
fn permission_list_follows_the_order_of_the_permissions() {
    let list: MyVec<ChannelPermission> = set(ADD_REACTIONS | READ_MESSAGES | CREATE_INVITE).into();
    assert_eq!(
        list.0,
        vec![
            ChannelPermission::CreateInvite,
            ChannelPermission::ReadMessages,
            ChannelPermission::AddReactions,
        ]
    );
    assert_eq!(list.len(), 3);
    let none: MyVec<ChannelPermission> = MyVec::from(set(0));
    assert!(none.is_empty());
}

#[test]
fn every_channel_permission_has_its_own_bit() {
    let all = ChannelPermission::list();
    assert_eq!(all.len(), 14);
    let mut bits = 0u64;
    for p in all.iter() {
        assert_eq!(p.bit().count_ones(), 1);
        assert_eq!(bits & p.bit(), 0);
        bits |= p.bit();
        assert!(p.is_in(set(p.bit())));
        assert!(!p.is_in(set(!p.bit())));
    }
    assert_eq!(ChannelPermission::CreateInvite.bit(), 1);
    assert_eq!(ChannelPermission::ManageChannel.bit(), 1 << 4);
    assert_eq!(ChannelPermission::ManagePermissions.bit(), 1 << 28);
    assert_eq!(ChannelPermission::ManageWebhooks.bit(), 1 << 29);
    assert_eq!(ChannelPermission::ReadMessages.bit(), 1 << 10);
    assert_eq!(ChannelPermission::SendMessages.bit(), 1 << 11);
    assert_eq!(ChannelPermission::SendTtsMessages.bit(), 1 << 12);
    assert_eq!(ChannelPermission::ManageMessages.bit(), 1 << 13);
    assert_eq!(ChannelPermission::EmbedLinks.bit(), 1 << 14);
    assert_eq!(ChannelPermission::AttachFiles.bit(), 1 << 15);
    assert_eq!(ChannelPermission::ReadMessageHistory.bit(), 1 << 16);
    assert_eq!(ChannelPermission::MentionEveryone.bit(), 1 << 17);
    assert_eq!(ChannelPermission::UseExternealEmojis.bit(), 1 << 18);
    assert_eq!(ChannelPermission::AddReactions.bit(), 1 << 6);
}

#[test]
fn list_can_be_made_from_a_vector() {
    let list: MyVec<u32> = MyVec::from(vec![1, 2, 3]);
    assert_eq!(*list, vec![1, 2, 3]);
}
