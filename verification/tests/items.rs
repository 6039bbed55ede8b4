use dilobo::bot::Bot;
use dilobo::config::Config;
use dilobo::context::LogOutcome;
use dilobo::errors::Error;
use dilobo::items::{fresh_items_of, labels_to_string, remove_matching};
use dilobo::model::{opt_duplicate, opt_same, vec_duplicate, vec_same, Item, User};
use dilobo::text::text;

fn user(id: u64, name: &str) -> User {
    User { id, name: text(name), discriminator: 1, avatar: None, bot: false }
}

#[test]
fn fresh_items_are_those_that_the_other_list_lacks() {
    assert_eq!(fresh_items_of(&vec![1u64, 2, 3], &vec![2u64]), vec![1, 3]);
    assert_eq!(fresh_items_of(&vec![3u64, 1, 3, 1, 2], &vec![]), vec![3, 1, 2]);
    assert_eq!(fresh_items_of(&vec![1u64, 2], &vec![2u64, 1, 5]), Vec::<u64>::new());
    assert_eq!(fresh_items_of(&Vec::<u64>::new(), &vec![1u64]), Vec::<u64>::new());
}

#[test]
fn fresh_items_are_compared_by_all_that_they_hold() {
    let cached = vec![user(1, "a"), user(2, "b")];
    let update = vec![user(1, "a"), user(2, "renamed")];
    assert_eq!(fresh_items_of(&update, &cached), vec![user(2, "renamed")]);
    assert_eq!(fresh_items_of(&cached, &update), vec![user(2, "b")]);
}

#[test]
fn first_matching_item_is_removed_and_the_order_kept() {
    let mut list = vec![user(1, "a"), user(2, "b"), user(1, "c"), user(3, "d")];
    assert!(remove_matching(&mut list, &user(1, "whatever")));
    assert_eq!(list, vec![user(2, "b"), user(1, "c"), user(3, "d")]);
    assert!(!remove_matching(&mut list, &user(9, "z")));
    assert_eq!(list.len(), 3);
}

#[test]
fn items_are_compared_and_copied_by_what_they_hold() {
    let a = user(1, "a");
    assert!(a.same(&a.duplicate()));
    assert!(!a.same(&user(1, "b")));
    assert!(a.same_entity(&user(1, "b")));
    assert!(!a.same_entity(&user(2, "a")));
    assert_eq!(a.label_text(), "1");
    assert!(opt_same(&Some(text("x")), &Some(text("x"))));
    assert!(!opt_same(&Some(text("x")), &None));
    assert!(opt_same::<String>(&None, &None));
    assert_eq!(opt_duplicate(&Some(text("x"))), Some(text("x")));
    assert!(vec_same(&vec![1u64, 2], &vec![1u64, 2]));
    assert!(!vec_same(&vec![1u64, 2], &vec![2u64, 1]));
    assert!(!vec_same(&vec![1u64], &vec![1u64, 1]));
    assert_eq!(vec_duplicate(&vec![user(1, "a")]), vec![user(1, "a")]);
}

#[test]
fn list_of_labels_is_bracketed() {
    assert_eq!(labels_to_string(&vec![user(1, "a"), user(22, "b")]), "[1, 22]");
    assert_eq!(labels_to_string(&vec![text("x"), text("y")]), "[x, y]");
    assert_eq!(labels_to_string(&Vec::<u64>::new()), "[]");
}

#[test]
fn only_a_missing_configuration_is_told_to_the_community() {
    let bot = Bot::new(Config { bot: None, server: vec![] }, 1);
    assert_eq!(bot.handle_err(Error::NotConfigured(1)), Vec::<LogOutcome>::new());
    assert_eq!(bot.handle_err(Error::UnknownChannel(1)), Vec::<LogOutcome>::new());
}
