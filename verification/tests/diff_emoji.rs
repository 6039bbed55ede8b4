#![allow(dead_code)]
use dilobo::diff::emoji::{apply_all, EmojisUpdateDiff};
use dilobo::diff::Diff;
use dilobo::errors::Error;
use dilobo::ids::{key_list, sorted};
use dilobo::model::Emoji;
use dilobo::text::text;
use std::collections::HashMap;

fn emoji(id: u64, name: &str) -> Emoji {
    Emoji { id, name: text(name), managed: false, require_colons: true, roles: vec![] }
}

fn cache(list: Vec<Emoji>) -> HashMap<u64, Emoji> {
    let mut map = HashMap::new();
    for e in list {
        map.insert(e.id, e);
    }
    map
}

#[test]
fn same_emojis_have_no_diff() {
    let cached = cache(vec![emoji(1, "a"), emoji(2, "b")]);
    assert_eq!(cached.diff(&vec![emoji(2, "b"), emoji(1, "a")]), Ok(vec![]));
}

#[test]
fn new_emoji_and_renamed_emoji_in_one_update() {
    let cached = cache(vec![emoji(1, "a"), emoji(2, "b")]);
    let diffs = cached.diff(&vec![emoji(1, "a"), emoji(2, "bee"), emoji(3, "c")]).unwrap();
    assert_eq!(
        diffs,
        vec![
            EmojisUpdateDiff::NameChanged(2, text("b"), text("bee")),
            EmojisUpdateDiff::EmojiAdded(emoji(3, "c")),
        ]
    );
    let added = diffs.iter().filter(|d| matches!(d, EmojisUpdateDiff::EmojiAdded(_))).count();
    let renamed = diffs.iter().filter(|d| matches!(d, EmojisUpdateDiff::NameChanged(..))).count();
    let removed = diffs.iter().filter(|d| matches!(d, EmojisUpdateDiff::EmojiRemoved(_))).count();
    assert_eq!((added, renamed, removed), (1, 1, 0));
}

#[test]
fn removed_emojis_come_last_by_ascending_id() {
    let cached = cache(vec![emoji(9, "z"), emoji(1, "a"), emoji(2, "b"), emoji(3, "c"), emoji(5, "e")]);
    assert_eq!(
        cached.diff(&vec![emoji(4, "d"), emoji(2, "bee"), emoji(3, "c")]),
        Ok(vec![
            EmojisUpdateDiff::EmojiAdded(emoji(4, "d")),
            EmojisUpdateDiff::NameChanged(2, text("b"), text("bee")),
            EmojisUpdateDiff::EmojiRemoved(emoji(1, "a")),
            EmojisUpdateDiff::EmojiRemoved(emoji(5, "e")),
            EmojisUpdateDiff::EmojiRemoved(emoji(9, "z")),
        ])
    );
}

#[test]
fn empty_update_removes_every_emoji() {
    let cached = cache(vec![emoji(2, "b"), emoji(1, "a")]);
    assert_eq!(
        cached.diff(&vec![]),
        Ok(vec![
            EmojisUpdateDiff::EmojiRemoved(emoji(1, "a")),
            EmojisUpdateDiff::EmojiRemoved(emoji(2, "b")),
        ])
    );
}

#[test]
fn change_of_the_roles_of_an_emoji_is_not_reported() {
    let cached = cache(vec![emoji(1, "a")]);
    let mut changed = emoji(1, "a");
    changed.roles = vec![7];
    assert_eq!(cached.diff(&vec![changed]), Ok(vec![]));
}

#[test]
fn applying_emoji_diffs_gives_the_updated_emojis() {
    let mut cached = cache(vec![emoji(1, "a"), emoji(2, "b"), emoji(3, "c")]);
    let update = vec![emoji(2, "bee"), emoji(4, "d"), emoji(3, "c")];
    let diffs = cached.diff(&update).unwrap();
    assert_eq!(apply_all(&diffs, &mut cached), Ok(()));
    assert_eq!(cached, cache(update));
}

#[test]
fn adding_a_cached_emoji_stores_it_and_fails() {
    let mut cached = cache(vec![emoji(1, "a")]);
    assert_eq!(
        EmojisUpdateDiff::EmojiAdded(emoji(1, "other")).apply(&mut cached),
        Err(Error::DuplicateEmoji(1))
    );
    assert_eq!(cached, cache(vec![emoji(1, "other")]));
}

#[test]
fn emoji_twice_in_an_update_is_a_duplicate() {
    let mut cached = cache(vec![]);
    let diffs = cached.diff(&vec![emoji(1, "a"), emoji(1, "a")]).unwrap();
    assert_eq!(diffs.len(), 2);
    assert_eq!(apply_all(&diffs, &mut cached), Err(Error::DuplicateEmoji(1)));
}

#[test]
fn removing_or_renaming_an_emoji_that_is_not_cached_fails() {
    let mut cached = cache(vec![emoji(1, "a")]);
    assert_eq!(
        EmojisUpdateDiff::EmojiRemoved(emoji(2, "b")).apply(&mut cached),
        Err(Error::UncachedEmoji(2))
    );
    assert_eq!(
        EmojisUpdateDiff::NameChanged(3, text("x"), text("y")).apply(&mut cached),
        Err(Error::UncachedEmoji(3))
    );
    assert_eq!(cached, cache(vec![emoji(1, "a")]));
}

#[test]
fn renaming_keeps_the_rest_of_the_emoji() {
    let mut first = emoji(1, "a");
    first.managed = true;
    first.roles = vec![5];
    let mut cached = cache(vec![first]);
    assert_eq!(EmojisUpdateDiff::NameChanged(1, text("a"), text("b")).apply(&mut cached), Ok(()));
    let e = cached.get(&1).unwrap();
    assert_eq!(e.name, "b");
    assert!(e.managed);
    assert_eq!(e.roles, vec![5]);
}

#[test]
fn key_list_holds_each_key_once() {
    let cached = cache(vec![emoji(3, "c"), emoji(1, "a"), emoji(2, "b")]);
    let mut keys = key_list(&cached);
    keys.sort();
    assert_eq!(keys, vec![1, 2, 3]);
}

#[test]
fn sorted_ids_ascend() {
    assert_eq!(sorted(&vec![]), Vec::<u64>::new());
    assert_eq!(sorted(&vec![5]), vec![5]);
    assert_eq!(sorted(&vec![5, 1, 9, 3, 0, u64::MAX]), vec![0, 1, 3, 5, 9, u64::MAX]);
    assert_eq!(sorted(&vec![2, 1, 2, 1, 1]), vec![1, 2]);
}
