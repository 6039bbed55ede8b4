//! What the deletion of several messages at once does to the mirror of a
//! community: the lines of the deleted messages are gathered into texts of
//! bounded length.

use crate::config::Template;
use crate::context::{
    fill_in, formatted_view, line_outcome, log, strfmt_result, ContextMap, FormatError,
    FormatErrorView, LogOutcome, LogOutcomeView,
};
use crate::errors::Error;
use crate::handle::{failed, handled, Step};
use crate::merge_into_map::{
    message_delete_values, message_named, put, MergeIntoMap, Values,
};
use crate::model::{views, MessageDelete, MessageDeleteBulk};
use crate::server::{notice, template_in, Server, ServerView};
use crate::text::{decimal, u64_to_string};
use vstd::prelude::*;
use vstd::string::StringExecFns;

verus! {

/// The greatest length of a text of gathered lines, in bytes.
pub const TEXT_LIMIT: usize = 2000;

/// The length of a text in bytes, as the machine counts it.
pub open spec fn byte_len(s: Seq<char>) -> usize {
    vstd::utf8::encode_utf8(s).len() as usize
}

/// Adds a line to the text of gathered lines: the line goes on a line of its
/// own behind the text, unless both together are longer than the limit; then
/// the text is sent and the line starts a new text.
pub open spec fn gathered(
    log_channel: Option<u64>,
    server: u64,
    gathered: Seq<char>,
    line: Seq<char>,
) -> (Seq<char>, Seq<LogOutcomeView>) {
    if byte_len(gathered) + byte_len(line) > TEXT_LIMIT {
        (line, seq![line_outcome(log_channel, server, Ok(gathered))])
    } else {
        (gathered + "\n"@ + line, Seq::empty())
    }
}

/// What the attempt to make the line of one deleted message adds to the
/// text of gathered lines and to the lines that are sent: a line that was
/// made is gathered; a line that could not be made is reported and passed
/// over.
pub open spec fn line_gathered(
    log_channel: Option<u64>,
    server: u64,
    text: Seq<char>,
    formatted: Result<Seq<char>, FormatErrorView>,
) -> (Seq<char>, Seq<LogOutcomeView>) {
    match formatted {
        Ok(line) => gathered(log_channel, server, text, line),
        Err(error) => (text, seq![line_outcome(log_channel, server, Err(error))]),
    }
}

/// Adds what became of the line of one deleted message to the text of
/// gathered lines.
pub fn gather_line(
    log_channel: Option<u64>,
    server: u64,
    text: &mut String,
    formatted: Result<String, FormatError>,
    out: &mut Vec<LogOutcome>,
)
    ensures
        final(text)@ == line_gathered(log_channel, server, old(text)@, formatted_view(formatted)).0,
        views(final(out)@) == views(old(out)@) + line_gathered(
            log_channel,
            server,
            old(text)@,
            formatted_view(formatted),
        ).1,
{
    proof {
        crate::items::lemma_nothing_pushed(out@);
    }
    match formatted {
        Ok(line) => {
            let text_len = text.as_str().len();
            let line_len = line.as_str().len();
            if line_len > TEXT_LIMIT || text_len > TEXT_LIMIT - line_len {
                let mut full = line;
                std::mem::swap(text, &mut full);
                log(log_channel, server, full, out);
            } else {
                text.append("\n");
                text.append(line.as_str());
            }
        },
        Err(error) => {
            crate::items::push_record(
                crate::context::log_decision(log_channel, server, Err(error)),
                out,
            );
        },
    }
}

/// The values that the line of a deleted message is made with, and its
/// template: those of the message if it is cached, else the ids. None where
/// the community has no template for the case.
pub open spec fn deletion_line(s: ServerView, channel_id: u64, id: u64) -> Option<
    Result<Result<Seq<char>, FormatErrorView>, Error>,
> {
    if s.messages.entries.contains_key(id) {
        match template_in(s.config, Template::MessageDeleteCached) {
            None => None,
            Some(fmt) => Some(
                match message_named(s.messages.entries[id]) {
                    Ok(values) => Ok(strfmt_result(fmt, values)),
                    Err(e) => Err(e),
                },
            ),
        }
    } else {
        match template_in(s.config, Template::MessageDeleteUncached) {
            None => None,
            Some(fmt) => Some(
                Ok(
                    strfmt_result(
                        fmt,
                        message_delete_values(MessageDelete { channel_id, message_id: id }),
                    ),
                ),
            ),
        }
    }
}

/// The messages of the ids are taken out of the cache one after the other
/// and their lines gathered; at the end the text of gathered lines is sent.
/// A cached message of a kind without text to report ends the event.
pub open spec fn lines_gathered(s: ServerView, channel_id: u64, text: Seq<char>, ids: Seq<u64>) -> Step
    decreases ids.len(),
{
    if ids.len() == 0 {
        Step {
            server: s,
            outcomes: seq![line_outcome(s.log_channel, s.id, Ok(text))],
            failure: None,
        }
    } else {
        let removed = ServerView { messages: s.messages.remove(ids[0]), ..s };
        match deletion_line(s, channel_id, ids[0]) {
            None => lines_gathered(removed, channel_id, text, ids.skip(1)),
            Some(Err(e)) => failed(removed, e),
            Some(Ok(formatted)) => {
                let added = line_gathered(s.log_channel, s.id, text, formatted);
                let rest = lines_gathered(removed, channel_id, added.0, ids.skip(1));
                Step {
                    server: rest.server,
                    outcomes: added.1 + rest.outcomes,
                    failure: rest.failure,
                }
            },
        }
    }
}

/// The values of the report that messages were deleted.
pub open spec fn bulk_values(channel_id: u64, count: nat) -> Values {
    Map::empty().insert("channel_id"@, decimal(channel_id as nat)).insert("count"@, decimal(count))
}

/// Several messages of one channel were deleted: that is reported with their
/// number, then each is taken out of the cache and its line gathered.
pub open spec fn messages_deleted(s: ServerView, channel_id: u64, ids: Seq<u64>) -> Step {
    let shown = notice(s, Template::MessageDeleteBulk, bulk_values(channel_id, ids.len()));
    let rest = lines_gathered(s, channel_id, Seq::empty(), ids);
    Step { server: rest.server, outcomes: shown + rest.outcomes, failure: rest.failure }
}

impl Server {
    /// The line of one deleted message, which is taken out of the cache: what
    /// the template of the community makes of its values. None where the
    /// community has no template for the case.
    fn deletion_line_of(&mut self, channel_id: u64, id: u64) -> (res: Option<
        Result<Result<String, FormatError>, Error>,
    >)
        ensures
            final(self)@ == (ServerView {
                messages: old(self)@.messages.remove(id),
                ..old(self)@
            }),
            match deletion_line(old(self)@, channel_id, id) {
                None => res is None,
                Some(Err(e)) => res is Some && res->0 is Err && res->0->Err_0 == e,
                Some(Ok(formatted)) => res is Some && res->0 is Ok && formatted_view(res->0->Ok_0)
                    == formatted,
            },
    {
        let ghost before = self.messages@;
        let cached = self.messages.remove(&id);
        assert(crate::model::map_views(self.messages@.entries) =~= crate::model::map_views(
            before.entries,
        ).remove(id));
        let kind = if cached.is_some() {
            Template::MessageDeleteCached
        } else {
            Template::MessageDeleteUncached
        };
        let fmt = match &self.config {
            Some(config) => config.template_of(kind),
            None => {
                return None;
            },
        };
        match fmt {
            None => None,
            Some(fmt) => {
                let values = match cached {
                    Some(msg) => msg.into_map(),
                    None => (MessageDelete { channel_id, message_id: id }).into_map(),
                };
                match values {
                    Ok(values) => Some(Ok(fill_in(fmt, &values))),
                    Err(e) => Some(Err(e)),
                }
            },
        }
    }

    /// Several messages of one channel were deleted.
    pub fn on_message_delete_bulk(&mut self, del: MessageDeleteBulk, out: &mut Vec<LogOutcome>) -> (res:
        Result<(), Error>)
        ensures
            handled(
                final(self)@,
                old(out)@,
                final(out)@,
                res,
                messages_deleted(old(self)@, del.channel_id, del.ids@),
            ),
    {
        let ghost ids = del.ids@;
        let ghost first = views(out@);
        let mut values = ContextMap::new();
        put(&mut values, "channel_id", u64_to_string(del.channel_id));
        put(&mut values, "count", u64_to_string(del.ids.len() as u64));
        self.notify(Template::MessageDeleteBulk, &values, out);
        let ghost start = views(out@);
        let ghost goal = lines_gathered(self@, del.channel_id, Seq::empty(), ids);
        let ghost mut done = Seq::<LogOutcomeView>::empty();
        let mut text = String::new();
        let mut failure: Option<Error> = None;
        let mut i: usize = 0;
        proof {
            assert(ids.skip(0) =~= ids);
            assert(start + done =~= start);
            assert(done + goal.outcomes =~= goal.outcomes);
        }
        while i < del.ids.len() && failure.is_none()
            invariant
                i <= del.ids.len(),
                ids == del.ids@,
                views(out@) == start + done,
                failure is Some ==> goal == (Step { server: self@, outcomes: done, failure }),
                failure is None ==> goal.server == lines_gathered(
                    self@,
                    del.channel_id,
                    text@,
                    ids.skip(i as int),
                ).server,
                failure is None ==> goal.outcomes == done + lines_gathered(
                    self@,
                    del.channel_id,
                    text@,
                    ids.skip(i as int),
                ).outcomes,
                failure is None ==> goal.failure == lines_gathered(
                    self@,
                    del.channel_id,
                    text@,
                    ids.skip(i as int),
                ).failure,
            decreases
                    del.ids.len() - i,
                    (if failure is None {
                        1nat
                    } else {
                        0nat
                    }),
        {
            let ghost before = self@;
            let ghost was = text@;
            let ghost todo = ids.skip(i as int);
            proof {
                assert(todo.len() > 0);
                assert(todo[0] == del.ids@[i as int]);
                assert(todo.skip(1) =~= ids.skip(i as int + 1));
                assert(done + Seq::<LogOutcomeView>::empty() =~= done);
            }
            let log_channel = self.log_channel;
            let server = self.id;
            match self.deletion_line_of(del.channel_id, del.ids[i]) {
                None => {
                    i += 1;
                },
                Some(Err(e)) => {
                    failure = Some(e);
                },
                Some(Ok(formatted)) => {
                    let ghost added = line_gathered(
                        log_channel,
                        server,
                        was,
                        formatted_view(formatted),
                    );
                    gather_line(log_channel, server, &mut text, formatted, out);
                    proof {
                        let rest = lines_gathered(
                            self@,
                            del.channel_id,
                            text@,
                            ids.skip(i as int + 1),
                        );
                        assert(views(out@) =~= start + (done + added.1));
                        assert(done + (added.1 + rest.outcomes) =~= (done + added.1)
                            + rest.outcomes);
                        done = done + added.1;
                    }
                    i += 1;
                },
            }
        }
        match failure {
            Some(e) => {
                assert(views(out@) =~= first + (notice(
                    old(self)@,
                    Template::MessageDeleteBulk,
                    bulk_values(del.channel_id, ids.len()),
                ) + done));
                Err(e)
            },
            None => {
                let ghost last = seq![line_outcome(self@.log_channel, self@.id, Ok(text@))];
                proof {
                    assert(ids.skip(del.ids.len() as int).len() == 0);
                }
                log(self.log_channel, self.id, text, out);
                proof {
                    assert(views(out@) =~= first + (notice(
                        old(self)@,
                        Template::MessageDeleteBulk,
                        bulk_values(del.channel_id, ids.len()),
                    ) + (done + last)));
                }
                Ok(())
            },
        }
    }
}

} // verus!
