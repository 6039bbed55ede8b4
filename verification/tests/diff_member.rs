#![allow(dead_code)]
use dilobo::diff::member::{apply_all, MemberUpdateDiff};
use dilobo::diff::Diff;
use dilobo::errors::Error;
use dilobo::model::{Member, ServerMemberUpdate, User};
use dilobo::text::text;

fn user(id: u64, name: &str) -> User {
    User { id, name: text(name), discriminator: 1, avatar: None, bot: false }
}

fn member(id: u64, roles: Vec<u64>, nick: Option<&str>) -> Member {
    Member {
        user: user(id, "bob"),
        roles,
        nick: nick.map(text),
        joined_at: text("2017-01-01"),
        mute: false,
        deaf: false,
    }
}

fn update(id: u64, roles: Vec<u64>, nick: Option<&str>) -> ServerMemberUpdate {
    ServerMemberUpdate { server_id: 1, roles, user: user(id, "bob"), nick: nick.map(text) }
}

#[test]
fn member_without_changes_has_no_diff() {
    let m = member(1, vec![1, 2], Some("nick"));
    assert_eq!(m.diff(&update(1, vec![2, 1], Some("nick"))), Ok(vec![]));
}

#[test]
fn member_role_diff_reports_each_role_once() {
    let m = member(1, vec![1, 2, 3], None);
    let diffs = m.diff(&update(1, vec![3, 4, 2, 5, 4], None)).unwrap();
    assert_eq!(
        diffs,
        vec![
            MemberUpdateDiff::RoleAdded(4),
            MemberUpdateDiff::RoleAdded(5),
            MemberUpdateDiff::RoleRemoved(1),
        ]
    );
}

#[test]
fn member_role_diff_counts_the_set_differences() {
    let m = member(1, vec![10, 20, 30, 40], None);
    let diffs = m.diff(&update(1, vec![30, 50, 60, 10, 70], None)).unwrap();
    let added = diffs.iter().filter(|d| matches!(d, MemberUpdateDiff::RoleAdded(_))).count();
    let removed = diffs.iter().filter(|d| matches!(d, MemberUpdateDiff::RoleRemoved(_))).count();
    assert_eq!(added, 3);
    assert_eq!(removed, 2);
    for d in diffs.iter() {
        if let MemberUpdateDiff::RoleAdded(id) = d {
            assert!(!diffs.contains(&MemberUpdateDiff::RoleRemoved(*id)));
        }
    }
}

#[test]
fn nick_change_is_reported_with_both_values() {
    let m = member(1, vec![], None);
    assert_eq!(
        m.diff(&update(1, vec![], Some("new"))),
        Ok(vec![MemberUpdateDiff::NickChanged(None, Some(text("new")))])
    );
    let m = member(1, vec![], Some("old"));
    assert_eq!(
        m.diff(&update(1, vec![], None)),
        Ok(vec![MemberUpdateDiff::NickChanged(Some(text("old")), None)])
    );
    assert_eq!(
        m.diff(&update(1, vec![], Some("new"))),
        Ok(vec![MemberUpdateDiff::NickChanged(Some(text("old")), Some(text("new")))])
    );
}

#[test]
fn roles_come_before_the_nick() {
    let m = member(1, vec![1], None);
    assert_eq!(
        m.diff(&update(1, vec![2], Some("n"))),
        Ok(vec![
            MemberUpdateDiff::RoleAdded(2),
            MemberUpdateDiff::RoleRemoved(1),
            MemberUpdateDiff::NickChanged(None, Some(text("n"))),
        ])
    );
}

#[test]
fn applying_member_diffs_gives_the_updated_member() {
    let mut m = member(1, vec![1, 2, 3], Some("old"));
    let u = update(1, vec![3, 4], Some("new"));
    let diffs = m.diff(&u).unwrap();
    assert_eq!(apply_all(&diffs, &mut m), Ok(()));
    assert_eq!(m.roles, vec![3, 4]);
    assert_eq!(m.nick, Some(text("new")));
}

#[test]
fn taking_a_role_that_the_member_lacks_fails() {
    let mut m = member(1, vec![1], None);
    assert_eq!(MemberUpdateDiff::RoleRemoved(9).apply(&mut m), Err(Error::MissingRole(9)));
    assert_eq!(m.roles, vec![1]);
}

#[test]
fn failed_member_diff_keeps_what_was_written_before() {
    let mut m = member(1, vec![1], None);
    let diffs = vec![
        MemberUpdateDiff::RoleAdded(2),
        MemberUpdateDiff::RoleRemoved(9),
        MemberUpdateDiff::RoleAdded(3),
    ];
    assert_eq!(apply_all(&diffs, &mut m), Err(Error::MissingRole(9)));
    assert_eq!(m.roles, vec![1, 2]);
}
