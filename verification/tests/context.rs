use dilobo::context::{log, log_decision, log_fmt, ContextMap, FormatError, LogOutcome};
use dilobo::text::text;

fn values(pairs: &[(&str, &str)]) -> ContextMap {
    let mut map = ContextMap::new();
    for (k, v) in pairs {
        map.insert(text(k), text(v));
    }
    map
}

#[test]
fn new_map_has_no_values() {
    let map = ContextMap::new();
    assert_eq!(map.keys().len(), 0);
    assert_eq!(map.get(&text("a")), None);
}

#[test]
fn insert_gives_the_key_its_value() {
    let map = values(&[("a", "1"), ("b", "2")]);
    assert_eq!(map.get(&text("a")), Some(&text("1")));
    assert_eq!(map.get(&text("b")), Some(&text("2")));
    assert_eq!(map.get(&text("c")), None);
    assert_eq!(map.keys().len(), 2);
}

#[test]
fn map_insert_replaces_the_value_of_a_key() {
    let map = values(&[("a", "1"), ("b", "2"), ("a", "3")]);
    assert_eq!(map.get(&text("a")), Some(&text("3")));
    assert_eq!(map.keys().len(), 2);
}

#[test]
fn duplicate_holds_the_same_values() {
    let map = values(&[("a", "1")]);
    let copy = map.duplicate();
    assert_eq!(copy.get(&text("a")), Some(&text("1")));
    assert_eq!(copy.keys().len(), 1);
}

#[test]
fn merge_prefers_the_values_that_come_in() {
    let mut map = values(&[("a", "1"), ("b", "2")]);
    map.merge(values(&[("b", "20"), ("c", "30")]));
    assert_eq!(map.get(&text("a")), Some(&text("1")));
    assert_eq!(map.get(&text("b")), Some(&text("20")));
    assert_eq!(map.get(&text("c")), Some(&text("30")));
}

#[test]
fn merge_prefixed_puts_the_prefix_before_each_key() {
    let mut map = values(&[("name", "outer")]);
    map.merge_prefixed("user_", values(&[("name", "bob"), ("id", "7")]));
    assert_eq!(map.get(&text("name")), Some(&text("outer")));
    assert_eq!(map.get(&text("user_name")), Some(&text("bob")));
    assert_eq!(map.get(&text("user_id")), Some(&text("7")));
    assert_eq!(map.get(&text("id")), None);
}

#[test]
fn template_is_filled_in_with_the_values() {
    let mut out = Vec::new();
    log_fmt(Some(7), 1, &Some(text("{a}-{b}")), &values(&[("a", "1"), ("b", "2")]), &mut out);
    assert_eq!(out, vec![LogOutcome::Line { channel: 7, text: text("1-2") }]);
}

#[test]
fn template_without_fields_is_sent_as_it_is() {
    let mut out = Vec::new();
    log_fmt(Some(7), 1, &Some(text("hello")), &values(&[]), &mut out);
    assert_eq!(out, vec![LogOutcome::Line { channel: 7, text: text("hello") }]);
}

#[test]
fn doubled_braces_stand_for_braces() {
    let mut out = Vec::new();
    log_fmt(Some(7), 1, &Some(text("{{{a}}}")), &values(&[("a", "1")]), &mut out);
    assert_eq!(out, vec![LogOutcome::Line { channel: 7, text: text("{1}") }]);
}

#[test]
fn event_without_template_is_not_reported() {
    let mut out = Vec::new();
    log_fmt(Some(7), 1, &None, &values(&[("a", "1")]), &mut out);
    assert_eq!(out, vec![]);
}

#[test]
fn missing_value_is_a_key_error() {
    let mut out = Vec::new();
    log_fmt(Some(7), 1, &Some(text("{missing}")), &values(&[("a", "1")]), &mut out);
    assert_eq!(out.len(), 1);
    assert!(matches!(
        &out[0],
        LogOutcome::FormatFailed { channel: 7, server: 1, error: FormatError::KeyError(_) }
    ));
}

#[test]
fn unclosed_field_is_an_invalid_template() {
    let mut out = Vec::new();
    log_fmt(Some(7), 1, &Some(text("{a")), &values(&[("a", "1")]), &mut out);
    assert_eq!(out.len(), 1);
    assert!(matches!(
        &out[0],
        LogOutcome::FormatFailed { channel: 7, server: 1, error: FormatError::Invalid(_) }
    ));
}

#[test]
fn number_form_for_a_text_is_a_type_error() {
    let mut out = Vec::new();
    log_fmt(Some(7), 1, &Some(text("{a:x}")), &values(&[("a", "1")]), &mut out);
    assert_eq!(out.len(), 1);
    assert!(matches!(
        &out[0],
        LogOutcome::FormatFailed { channel: 7, server: 1, error: FormatError::TypeError(_) }
    ));
}

#[test]
fn failed_template_does_not_stop_the_next_one() {
    let mut out = Vec::new();
    let vars = values(&[("a", "1")]);
    log_fmt(Some(7), 1, &Some(text("{missing}")), &vars, &mut out);
    log_fmt(Some(7), 1, &Some(text("{a}")), &vars, &mut out);
    assert_eq!(out.len(), 2);
    assert_eq!(out[1], LogOutcome::Line { channel: 7, text: text("1") });
}

#[test]
fn community_without_log_channel_gets_no_line() {
    let mut out = Vec::new();
    log_fmt(None, 1, &Some(text("{a}")), &values(&[("a", "1")]), &mut out);
    assert_eq!(out, vec![LogOutcome::NoLogChannel]);
}

#[test]
fn decision_follows_the_log_channel_and_the_line() {
    assert_eq!(
        log_decision(Some(3), 1, Ok(text("x"))),
        LogOutcome::Line { channel: 3, text: text("x") }
    );
    assert_eq!(
        log_decision(Some(3), 1, Err(FormatError::KeyError(text("k")))),
        LogOutcome::FormatFailed { channel: 3, server: 1, error: FormatError::KeyError(text("k")) }
    );
    assert_eq!(log_decision(None, 1, Ok(text("x"))), LogOutcome::NoLogChannel);
    assert_eq!(
        log_decision(None, 1, Err(FormatError::Invalid(text("k")))),
        LogOutcome::NoLogChannel
    );
}

#[test]
fn plain_line_goes_to_the_log_channel() {
    let mut out = Vec::new();
    log(Some(3), 1, text("hello"), &mut out);
    log(None, 1, text("lost"), &mut out);
    assert_eq!(
        out,
        vec![LogOutcome::Line { channel: 3, text: text("hello") }, LogOutcome::NoLogChannel]
    );
}

#[test]
fn format_failure_has_words() {
    assert_eq!(FormatError::Invalid(text("bad")).message(), "Invalid(bad)");
    assert_eq!(FormatError::KeyError(text("Invalid key: x")).message(), "KeyError(Invalid key: x)");
    assert_eq!(FormatError::TypeError(text("")).message(), "TypeError()");
    let mut out = Vec::new();
    log_fmt(Some(7), 1, &Some(text("{missing}")), &values(&[]), &mut out);
    match &out[0] {
        LogOutcome::FormatFailed { channel, error, .. } => {
            assert_eq!(*channel, 7);
            assert_eq!(error.message(), "KeyError(Invalid key: missing)");
        }
        other => panic!("unexpected outcome {:?}", other),
    }
}
