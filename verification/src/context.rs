//! The named values that a template is filled in with, the filling in, and
//! what becomes of the line that results.

use crate::model::{lemma_views_push, views, Item};
use std::collections::HashMap;
use vstd::prelude::*;
use vstd::string::StringExecFns;

verus! {

/// One named value.
#[derive(Debug, PartialEq)]
pub struct Entry {
    pub key: String,
    pub value: String,
}

impl View for Entry {
    type V = (Seq<char>, Seq<char>);

    open spec fn view(&self) -> (Seq<char>, Seq<char>) {
        (self.key@, self.value@)
    }
}

/// The map that the entries stand for: each key with its value.
pub open spec fn as_map(entries: Seq<(Seq<char>, Seq<char>)>) -> Map<Seq<char>, Seq<char>>
    decreases entries.len(),
{
    if entries.len() == 0 {
        Map::empty()
    } else {
        as_map(entries.drop_last()).insert(entries.last().0, entries.last().1)
    }
}

/// `as_map` holds a key if and only if an entry has it, and gives it the
/// value of the last entry that has it.
pub proof fn lemma_as_map(entries: Seq<(Seq<char>, Seq<char>)>)
    ensures
        forall|k: Seq<char>| #[trigger]
            as_map(entries).contains_key(k) <==> exists|i: int|
                0 <= i < entries.len() && (#[trigger] entries[i]).0 == k,
        forall|i: int|
            0 <= i < entries.len() && (forall|j: int|
                i < j < entries.len() ==> (#[trigger] entries[j]).0 != entries[i].0) ==> as_map(
                entries,
            )[(#[trigger] entries[i]).0] == entries[i].1,
    decreases entries.len(),
{
    if entries.len() > 0 {
        let rest = entries.drop_last();
        let last = entries.last();
        lemma_as_map(rest);
        assert forall|k: Seq<char>| #[trigger]
            as_map(entries).contains_key(k) <==> exists|i: int|
                0 <= i < entries.len() && (#[trigger] entries[i]).0 == k by {
            if as_map(rest).contains_key(k) {
                let i = choose|i: int| 0 <= i < rest.len() && (#[trigger] rest[i]).0 == k;
                assert(entries[i].0 == k);
            }
            if k == last.0 {
                assert(entries[entries.len() - 1].0 == k);
            }
            if exists|i: int| 0 <= i < entries.len() && (#[trigger] entries[i]).0 == k {
                let i = choose|i: int| 0 <= i < entries.len() && (#[trigger] entries[i]).0 == k;
                if i < rest.len() {
                    assert(rest[i].0 == k);
                }
            }
        }
        assert forall|i: int|
            0 <= i < entries.len() && (forall|j: int|
                i < j < entries.len() ==> (#[trigger] entries[j]).0 != entries[i].0) implies as_map(
            entries,
        )[(#[trigger] entries[i]).0] == entries[i].1 by {
            if i < rest.len() {
                assert(rest[i] == entries[i]);
                assert(entries[entries.len() - 1].0 != entries[i].0);
                assert forall|j: int| i < j < rest.len() implies (#[trigger] rest[j]).0
                    != rest[i].0 by {
                    assert(rest[j] == entries[j]);
                }
            }
        }
    }
}

/// Taking an entry away changes at most what the map holds for its key.
pub proof fn lemma_as_map_without(entries: Seq<(Seq<char>, Seq<char>)>, i: int)
    requires
        0 <= i < entries.len(),
    ensures
        as_map(entries.remove(i)).remove(entries[i].0) == as_map(entries).remove(entries[i].0),
    decreases entries.len(),
{
    let k = entries[i].0;
    let rest = entries.drop_last();
    if i == entries.len() - 1 {
        assert(entries.remove(i) =~= rest);
        assert(as_map(rest).remove(k) =~= as_map(entries).remove(k));
    } else {
        let last = entries.last();
        assert(entries.remove(i).drop_last() =~= rest.remove(i));
        assert(entries.remove(i).last() == last);
        assert(rest[i] == entries[i]);
        lemma_as_map_without(rest, i);
        let a = as_map(rest.remove(i));
        let b = as_map(rest);
        assert(as_map(entries.remove(i)) == a.insert(last.0, last.1));
        assert(as_map(entries) == b.insert(last.0, last.1));
        let l = a.insert(last.0, last.1).remove(k);
        let r = b.insert(last.0, last.1).remove(k);
        assert forall|x: Seq<char>| #[trigger] l.dom().contains(x) == r.dom().contains(x) by {
            if x != k {
                assert(a.remove(k).contains_key(x) == a.contains_key(x));
                assert(b.remove(k).contains_key(x) == b.contains_key(x));
            }
        }
        assert forall|x: Seq<char>| l.dom().contains(x) implies #[trigger] l[x] == r[x] by {
            if x != last.0 {
                assert(a.remove(k).contains_key(x));
                assert(a.remove(k)[x] == a[x]);
                assert(b.remove(k)[x] == b[x]);
            }
        }
        assert(l =~= r);
    }
}

/// The named values that a template is filled in with.
#[derive(Debug, PartialEq)]
pub struct ContextMap {
    entries: Vec<Entry>,
}

impl View for ContextMap {
    type V = Map<Seq<char>, Seq<char>>;

    closed spec fn view(&self) -> Map<Seq<char>, Seq<char>> {
        as_map(views(self.entries@))
    }
}

/// The values of `m`, each under its key with `prefix` before it.
pub open spec fn prefixed(m: Map<Seq<char>, Seq<char>>, prefix: Seq<char>) -> Map<
    Seq<char>,
    Seq<char>,
> {
    Map::new(
        |k: Seq<char>|
            k.len() >= prefix.len() && k.take(prefix.len() as int) == prefix && m.contains_key(
                k.skip(prefix.len() as int),
            ),
        |k: Seq<char>| m[k.skip(prefix.len() as int)],
    )
}

/// Prefixing a map with one more value is prefixing it and adding that value
/// under its prefixed key.
pub proof fn lemma_prefixed_insert(
    m: Map<Seq<char>, Seq<char>>,
    prefix: Seq<char>,
    key: Seq<char>,
    value: Seq<char>,
)
    ensures
        prefixed(m.insert(key, value), prefix) == prefixed(m, prefix).insert(prefix + key, value),
{
    let a = prefixed(m.insert(key, value), prefix);
    let b = prefixed(m, prefix).insert(prefix + key, value);
    let n = prefix.len() as int;
    assert((prefix + key).take(n) =~= prefix);
    assert((prefix + key).skip(n) =~= key);
    assert forall|k: Seq<char>| #[trigger] a.dom().contains(k) == b.dom().contains(k) by {
        if k.len() >= n && k.take(n) == prefix && k.skip(n) == key {
            assert(k =~= prefix + key);
        }
    }
    assert forall|k: Seq<char>| a.dom().contains(k) implies #[trigger] a[k] == b[k] by {
        if k.len() >= n && k.take(n) == prefix && k.skip(n) == key {
            assert(k =~= prefix + key);
        }
    }
    assert(a =~= b);
}

impl ContextMap {
    /// A map without values.
    pub fn new() -> (res: Self)
        ensures
            res@ == Map::<Seq<char>, Seq<char>>::empty(),
    {
        let res = ContextMap { entries: Vec::new() };
        assert(views(res.entries@) =~= Seq::empty());
        res
    }

    /// Gives the key the value, in place of the value that it had.
    pub fn insert(&mut self, key: String, value: String)
        ensures
            final(self)@ == old(self)@.insert(key@, value@),
    {
        let ghost before = views(self.entries@);
        let mut i: usize = 0;
        while i < self.entries.len()
            invariant
                i <= self.entries.len(),
                before == views(old(self).entries@),
                forall|j: int| 0 <= j < i ==> (#[trigger] views(self.entries@)[j]).0 != key@,
                as_map(views(self.entries@)).remove(key@) == as_map(before).remove(key@),
            decreases self.entries.len() - i,
        {
            if self.entries[i].key.same(&key) {
                let ghost cur = views(self.entries@);
                proof {
                    lemma_as_map_without(cur, i as int);
                }
                self.entries.remove(i);
                assert(views(self.entries@) =~= cur.remove(i as int));
            } else {
                i += 1;
            }
        }
        let entry = Entry { key, value };
        proof {
            let cur = views(self.entries@);
            lemma_as_map(cur);
            lemma_views_push(self.entries@, entry);
            assert(cur.push(entry@).drop_last() =~= cur);
            assert(!as_map(cur).contains_key(key@));
            assert(as_map(cur) =~= as_map(cur).remove(key@));
            assert(as_map(cur.push(entry@)) =~= as_map(before).insert(key@, value@));
        }
        self.entries.push(entry);
    }

    /// The value of the key, if it has one.
    pub fn get(&self, key: &String) -> (res: Option<&String>)
        ensures
            match res {
                Some(value) => self@.contains_key(key@) && self@[key@] == value@,
                None => !self@.contains_key(key@),
            },
    {
        let ghost all = views(self.entries@);
        proof {
            lemma_as_map(all);
        }
        let mut i: usize = self.entries.len();
        while i > 0
            invariant
                i <= self.entries.len(),
                all == views(self.entries@),
                forall|j: int| i <= j < all.len() ==> (#[trigger] all[j]).0 != key@,
            decreases i,
        {
            i -= 1;
            if self.entries[i].key.same(key) {
                assert(all[i as int].0 == key@);
                proof {
                    lemma_as_map(all);
                }
                return Some(&self.entries[i].value);
            }
        }
        proof {
            lemma_as_map(all);
        }
        None
    }

    /// The keys that have a value.
    pub fn keys(&self) -> (res: Vec<String>)
        ensures
            forall|k: Seq<char>| #[trigger] views(res@).contains(k) <==> self@.contains_key(k),
    {
        let ghost all = views(self.entries@);
        let mut res: Vec<String> = Vec::new();
        let mut i: usize = 0;
        while i < self.entries.len()
            invariant
                i <= self.entries.len(),
                all == views(self.entries@),
                res.len() == i,
                forall|j: int| 0 <= j < i ==> #[trigger] res@[j]@ == all[j].0,
            decreases self.entries.len() - i,
        {
            res.push(self.entries[i].key.clone());
            i += 1;
        }
        proof {
            lemma_as_map(all);
            let keys = views(res@);
            assert forall|k: Seq<char>| #[trigger] keys.contains(k) <==> self@.contains_key(k) by {
                if keys.contains(k) {
                    let j = choose|j: int| 0 <= j < keys.len() && keys[j] == k;
                    assert(res@[j]@ == all[j].0);
                    assert(all[j].0 == k);
                }
                if self@.contains_key(k) {
                    let j = choose|j: int| 0 <= j < all.len() && (#[trigger] all[j]).0 == k;
                    assert(res@[j]@ == all[j].0);
                    assert(keys[j] == k);
                }
            }
        }
        res
    }

    /// A copy of the map.
    pub fn duplicate(&self) -> (res: Self)
        ensures
            res@ == self@,
    {
        let mut entries: Vec<Entry> = Vec::new();
        let mut i: usize = 0;
        while i < self.entries.len()
            invariant
                i <= self.entries.len(),
                entries.len() == i,
                forall|j: int| 0 <= j < i ==> entries@[j]@ == self.entries@[j]@,
            decreases self.entries.len() - i,
        {
            entries.push(
                Entry { key: self.entries[i].key.clone(), value: self.entries[i].value.clone() },
            );
            i += 1;
        }
        assert(views(entries@) =~= views(self.entries@));
        ContextMap { entries }
    }

    /// Gives every value of `other` to this map, under its key with `prefix`
    /// before it.
    pub fn merge_prefixed(&mut self, prefix: &str, other: ContextMap)
        ensures
            final(self)@ == old(self)@.union_prefer_right(prefixed(other@, prefix@)),
    {
        let ghost start = self@;
        let ghost all = views(other.entries@);
        let mut i: usize = 0;
        proof {
            assert(all.take(0) =~= Seq::empty());
            assert(self@ =~= start.union_prefer_right(prefixed(as_map(all.take(0)), prefix@)));
        }
        while i < other.entries.len()
            invariant
                i <= other.entries.len(),
                all == views(other.entries@),
                self@ == start.union_prefer_right(prefixed(as_map(all.take(i as int)), prefix@)),
            decreases other.entries.len() - i,
        {
            let mut key = String::from_str(prefix);
            key.append(other.entries[i].key.as_str());
            let value = other.entries[i].value.clone();
            let ghost before = self@;
            proof {
                assert(all.take(i as int + 1).drop_last() =~= all.take(i as int));
                assert(all.take(i as int + 1).last() == all[i as int]);
                lemma_prefixed_insert(
                    as_map(all.take(i as int)),
                    prefix@,
                    all[i as int].0,
                    all[i as int].1,
                );
            }
            self.insert(key, value);
            assert(self@ =~= start.union_prefer_right(
                prefixed(as_map(all.take(i as int + 1)), prefix@),
            ));
            i += 1;
        }
        assert(all.take(other.entries.len() as int) =~= all);
    }

    /// Gives every value of `other` to this map.
    pub fn merge(&mut self, other: ContextMap)
        ensures
            final(self)@ == old(self)@.union_prefer_right(other@),
    {
        let ghost start = self@;
        let ghost all = views(other.entries@);
        let mut i: usize = 0;
        proof {
            assert(all.take(0) =~= Seq::empty());
            assert(self@ =~= start.union_prefer_right(as_map(all.take(0))));
        }
        while i < other.entries.len()
            invariant
                i <= other.entries.len(),
                all == views(other.entries@),
                self@ == start.union_prefer_right(as_map(all.take(i as int))),
            decreases other.entries.len() - i,
        {
            let key = other.entries[i].key.clone();
            let value = other.entries[i].value.clone();
            proof {
                assert(all.take(i as int + 1).drop_last() =~= all.take(i as int));
                assert(all.take(i as int + 1).last() == all[i as int]);
            }
            self.insert(key, value);
            assert(self@ =~= start.union_prefer_right(as_map(all.take(i as int + 1))));
            i += 1;
        }
        assert(all.take(other.entries.len() as int) =~= all);
    }
}

/// Why a template could not be filled in.
#[derive(Debug, PartialEq)]
pub enum FormatError {
    /// The template is not well formed.
    Invalid(String),
    /// The template names a value that the map lacks.
    KeyError(String),
    /// The template asks for a form that a text cannot take.
    TypeError(String),
}

/// The view of `FormatError`: what it holds as mathematical values.
pub enum FormatErrorView {
    Invalid(Seq<char>),
    KeyError(Seq<char>),
    TypeError(Seq<char>),
}

impl View for FormatError {
    type V = FormatErrorView;

    open spec fn view(&self) -> FormatErrorView {
        match self {
            FormatError::Invalid(m) => FormatErrorView::Invalid(m@),
            FormatError::KeyError(m) => FormatErrorView::KeyError(m@),
            FormatError::TypeError(m) => FormatErrorView::TypeError(m@),
        }
    }
}

impl FormatError {
    /// The words that describe the failure: its kind, and in brackets what
    /// was found wrong.
    pub open spec fn words(e: FormatErrorView) -> Seq<char> {
        match e {
            FormatErrorView::Invalid(m) => "Invalid("@ + m + ")"@,
            FormatErrorView::KeyError(m) => "KeyError("@ + m + ")"@,
            FormatErrorView::TypeError(m) => "TypeError("@ + m + ")"@,
        }
    }

    /// The words that describe the failure.
    pub fn message(&self) -> (res: String)
        ensures
            res@ == Self::words(self@),
    {
        let (kind, found) = match self {
            FormatError::Invalid(m) => ("Invalid(", m),
            FormatError::KeyError(m) => ("KeyError(", m),
            FormatError::TypeError(m) => ("TypeError(", m),
        };
        let mut res = String::from_str(kind);
        res.append(found.as_str());
        res.append(")");
        res
    }
}

/// The view of a line or of the failure to make it.
pub open spec fn formatted_view(r: Result<String, FormatError>) -> Result<
    Seq<char>,
    FormatErrorView,
> {
    match r {
        Ok(s) => Ok(s@),
        Err(e) => Err(e@),
    }
}

/// What `strfmt::strfmt` makes of a template and the values to fill it in
/// with: the line, or why there is none.
pub uninterp spec fn strfmt_result(fmt: Seq<char>, vars: Map<Seq<char>, Seq<char>>) -> Result<
    Seq<char>,
    FormatErrorView,
>;

/// `strfmt::strfmt` on the template and the values of the map. The result is
/// a function of the template and of the values alone; it is known by the
/// name `strfmt_result`, and nothing more is claimed of it.
#[verifier::external_body]
pub(crate) fn fill_in(fmt: &String, vars: &ContextMap) -> (res: Result<String, FormatError>)
    ensures
        formatted_view(res) == strfmt_result(fmt@, vars@),
{
    let map: HashMap<String, String> =
        vars.entries.iter().map(|e| (e.key.clone(), e.value.clone())).collect();
    match strfmt::strfmt(fmt, &map) {
        Ok(line) => Ok(line),
        Err(strfmt::FmtError::Invalid(m)) => Err(FormatError::Invalid(m)),
        Err(strfmt::FmtError::KeyError(m)) => Err(FormatError::KeyError(m)),
        Err(strfmt::FmtError::TypeError(m)) => Err(FormatError::TypeError(m)),
    }
}

/// What became of one notification.
#[derive(Debug, PartialEq)]
pub enum LogOutcome {
    /// The line is to be sent to the channel.
    Line { channel: u64, text: String },
    /// The template of the community could not be filled in; the channel is
    /// the log channel of the community, where that can be told.
    FormatFailed { channel: u64, server: u64, error: FormatError },
    /// The community has no channel to send the line to.
    NoLogChannel,
}

/// The view of `LogOutcome`: what it holds as mathematical values.
pub enum LogOutcomeView {
    Line { channel: u64, text: Seq<char> },
    FormatFailed { channel: u64, server: u64, error: FormatErrorView },
    NoLogChannel,
}

impl View for LogOutcome {
    type V = LogOutcomeView;

    open spec fn view(&self) -> LogOutcomeView {
        match self {
            LogOutcome::Line { channel, text } => LogOutcomeView::Line {
                channel: *channel,
                text: text@,
            },
            LogOutcome::FormatFailed { channel, server, error } => LogOutcomeView::FormatFailed {
                channel: *channel,
                server: *server,
                error: error@,
            },
            LogOutcome::NoLogChannel => LogOutcomeView::NoLogChannel,
        }
    }
}

/// What becomes of a line that was made, or of the failure to make it: a
/// community without a log channel gets nothing, whatever was made.
pub open spec fn line_outcome(
    log_channel: Option<u64>,
    server: u64,
    formatted: Result<Seq<char>, FormatErrorView>,
) -> LogOutcomeView {
    match log_channel {
        None => LogOutcomeView::NoLogChannel,
        Some(channel) => match formatted {
            Ok(text) => LogOutcomeView::Line { channel, text },
            Err(error) => LogOutcomeView::FormatFailed { channel, server, error },
        },
    }
}

/// What becomes of a line that was made, or of the failure to make it.
pub fn log_decision(
    log_channel: Option<u64>,
    server: u64,
    formatted: Result<String, FormatError>,
) -> (res: LogOutcome)
    ensures
        res@ == line_outcome(log_channel, server, formatted_view(formatted)),
{
    match log_channel {
        None => LogOutcome::NoLogChannel,
        Some(channel) => match formatted {
            Ok(text) => LogOutcome::Line { channel, text },
            Err(error) => LogOutcome::FormatFailed { channel, server, error },
        },
    }
}

/// The notifications of one template: none where the community has no
/// template for the event, else what becomes of the line that the template
/// gives with the values.
pub open spec fn notification(
    log_channel: Option<u64>,
    server: u64,
    fmt: Option<Seq<char>>,
    vars: Map<Seq<char>, Seq<char>>,
) -> Seq<LogOutcomeView> {
    match fmt {
        None => Seq::empty(),
        Some(f) => seq![line_outcome(log_channel, server, strfmt_result(f, vars))],
    }
}

/// Fills in the template, if there is one, and appends what becomes of the
/// line to `out`.
pub fn log_fmt(
    log_channel: Option<u64>,
    server: u64,
    fmt: &Option<String>,
    vars: &ContextMap,
    out: &mut Vec<LogOutcome>,
)
    ensures
        views(final(out)@) == views(old(out)@) + notification(
            log_channel,
            server,
            crate::model::opt_view(*fmt),
            vars@,
        ),
{
    match fmt {
        None => {
            proof {
                crate::items::lemma_nothing_pushed(out@);
            }
        },
        Some(f) => {
            let formatted = fill_in(f, vars);
            crate::items::push_record(log_decision(log_channel, server, formatted), out);
        },
    }
}

/// A line that needs no template, and what becomes of it.
pub fn log(log_channel: Option<u64>, server: u64, text: String, out: &mut Vec<LogOutcome>)
    ensures
        views(final(out)@) == views(old(out)@) + seq![
            line_outcome(log_channel, server, Ok(text@)),
        ],
{
    crate::items::push_record(log_decision(log_channel, server, Ok(text)), out);
}

} // verus!
