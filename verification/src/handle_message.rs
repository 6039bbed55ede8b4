//! What a change to a message does to the mirror of a community.

use crate::config::Template;
use crate::context::{prefixed, ContextMap, LogOutcome, LogOutcomeView};
use crate::diff::message::{
    apply_message_diff, message_diff, MessageUpdateDiff, MessageUpdateDiffView,
};
use crate::diff::Diff;
use crate::errors::Error;
use crate::handle::{failed, handled, Step};
use crate::merge_into_map::{
    message_diff_values, message_update_values, nobody, put, unknown_user, user_values,
    MergeIntoMap, Values,
};
use crate::model::{
    map_views, views, Item, Message, MessageUpdate, MessageUpdateView, MessageView, UserView,
};
use crate::server::{notice, Server, ServerView};
use crate::text::{decimal, u64_to_string};
use vstd::prelude::*;

verus! {

/// The values that every change of one update of a message hands on: the
/// author of the cached message, the ids of the message and of its channel,
/// and the author that the update names.
pub open spec fn update_context(cached_author: UserView, u: MessageUpdateView) -> Values {
    Map::empty().union_prefer_right(prefixed(user_values(cached_author), "cached_author_"@)).insert(
        "message_id"@,
        decimal(u.id as nat),
    ).insert("channel_id"@, decimal(u.channel_id as nat)).union_prefer_right(
        prefixed(
            user_values(
                match u.author {
                    Some(author) => author,
                    None => nobody(),
                },
            ),
            "author_"@,
        ),
    )
}

/// The mirror with the cached message of the id replaced.
pub open spec fn with_message(s: ServerView, id: u64, m: MessageView) -> ServerView {
    ServerView { messages: s.messages.update(id, m), ..s }
}

/// Each change is written back to the cached message `m` of the id and then
/// reported, one after the other. A change that cannot be written back ends
/// the event.
pub open spec fn changes_reported(
    s: ServerView,
    id: u64,
    m: MessageView,
    base: Values,
    diffs: Seq<MessageUpdateDiffView>,
) -> Step
    decreases diffs.len(),
{
    if diffs.len() == 0 {
        Step { server: s, outcomes: Seq::empty(), failure: None }
    } else {
        match apply_message_diff(m, diffs[0]) {
            Ok(next) => {
                let stored = with_message(s, id, next);
                let rest = changes_reported(stored, id, next, base, diffs.skip(1));
                Step {
                    server: rest.server,
                    outcomes: notice(
                        stored,
                        MessageUpdateDiff::template(diffs[0]),
                        base.union_prefer_right(message_diff_values(diffs[0])),
                    ) + rest.outcomes,
                    failure: rest.failure,
                }
            },
            Err(e) => failed(s, e),
        }
    }
}

/// A message was changed. An update with embeds of a message of the log
/// channel is passed over, as it comes from the log itself. An update of a
/// message that is not cached is reported as such. Else every change to the
/// cached message is written back and reported.
pub open spec fn message_updated(s: ServerView, u: MessageUpdateView) -> Step {
    if s.log_channel == Some(u.channel_id) && u.embeds is Some {
        Step { server: s, outcomes: Seq::empty(), failure: None }
    } else if !s.messages.entries.contains_key(u.id) {
        Step {
            server: s,
            outcomes: notice(s, Template::MessageUpdateUncached, message_update_values(u)),
            failure: None,
        }
    } else {
        let m = s.messages.entries[u.id];
        changes_reported(s, u.id, m, update_context(m.author, u), message_diff(m, u))
    }
}

impl Server {
    /// Writes each change back to the cached message and reports it.
    fn report_changes(
        &mut self,
        id: u64,
        current: Message,
        base: &ContextMap,
        diffs: &Vec<MessageUpdateDiff>,
        out: &mut Vec<LogOutcome>,
    ) -> (res: Result<(), Error>)
        requires
            old(self)@.messages.entries.contains_key(id),
        ensures
            handled(
                final(self)@,
                old(out)@,
                final(out)@,
                res,
                changes_reported(old(self)@, id, current@, base@, views(diffs@)),
            ),
    {
        let ghost all = views(diffs@);
        let ghost start = views(out@);
        let ghost goal = changes_reported(self@, id, current@, base@, all);
        let ghost mut done = Seq::<LogOutcomeView>::empty();
        let mut current = current;
        let mut failure: Option<Error> = None;
        let mut i: usize = 0;
        proof {
            assert(all.skip(0) =~= all);
            assert(start + done =~= start);
            assert(done + goal.outcomes =~= goal.outcomes);
        }
        while i < diffs.len() && failure.is_none()
            invariant
                i <= diffs.len(),
                all == views(diffs@),
                self@.messages.entries.contains_key(id),
                views(out@) == start + done,
                failure is Some ==> goal == (Step {
                    server: self@,
                    outcomes: done,
                    failure,
                }),
                failure is None ==> goal.server == changes_reported(
                    self@,
                    id,
                    current@,
                    base@,
                    all.skip(i as int),
                ).server,
                failure is None ==> goal.outcomes == done + changes_reported(
                    self@,
                    id,
                    current@,
                    base@,
                    all.skip(i as int),
                ).outcomes,
                failure is None ==> goal.failure == changes_reported(
                    self@,
                    id,
                    current@,
                    base@,
                    all.skip(i as int),
                ).failure,
            decreases
                    diffs.len() - i,
                    (if failure is None {
                        1nat
                    } else {
                        0nat
                    }),
        {
            let ghost before = self@;
            let ghost was = current@;
            let ghost todo = all.skip(i as int);
            proof {
                assert(todo.len() > 0);
                assert(todo[0] == diffs@[i as int]@);
                assert(todo.skip(1) =~= all.skip(i as int + 1));
            }
            match diffs[i].apply(&mut current) {
                Ok(()) => {
                    let ghost cache = self.messages@;
                    let copy = current.duplicate();
                    self.messages.update(id, copy);
                    proof {
                        assert(map_views(cache.update(id, copy).entries) =~= map_views(
                            cache.entries,
                        ).insert(id, current@));
                        assert(self@ == with_message(before, id, current@));
                    }
                    let mut values = base.duplicate();
                    let _ = diffs[i].duplicate().merge_into_map(&mut values);
                    self.notify(diffs[i].template_kind(), &values, out);
                    proof {
                        let shown = notice(
                            self@,
                            MessageUpdateDiff::template(diffs@[i as int]@),
                            base@.union_prefer_right(message_diff_values(diffs@[i as int]@)),
                        );
                        let rest = changes_reported(
                            self@,
                            id,
                            current@,
                            base@,
                            all.skip(i as int + 1),
                        );
                        assert(views(out@) =~= start + (done + shown));
                        assert(done + (shown + rest.outcomes) =~= (done + shown) + rest.outcomes);
                        done = done + shown;
                    }
                    i += 1;
                },
                Err(e) => {
                    proof {
                        assert(apply_message_diff(was, todo[0]) == Err::<MessageView, Error>(e));
                        assert(changes_reported(before, id, was, base@, todo) == failed(before, e));
                        assert(done + Seq::<LogOutcomeView>::empty() =~= done);
                    }
                    failure = Some(e);
                },
            }
        }
        match failure {
            Some(e) => Err(e),
            None => {
                proof {
                    assert(all.skip(diffs.len() as int).len() == 0);
                    assert(done + Seq::<LogOutcomeView>::empty() =~= done);
                }
                Ok(())
            },
        }
    }

    /// A message was changed.
    pub fn on_message_update(&mut self, update: MessageUpdate, out: &mut Vec<LogOutcome>) -> (res:
        Result<(), Error>)
        ensures
            handled(
                final(self)@,
                old(out)@,
                final(out)@,
                res,
                message_updated(old(self)@, update@),
            ),
    {
        proof {
            crate::items::lemma_nothing_pushed(out@);
        }
        let from_log = match self.log_channel {
            Some(channel) => channel == update.channel_id,
            None => false,
        };
        if from_log && update.embeds.is_some() {
            return Ok(());
        }
        let current = match self.message(update.id) {
            Some(msg) => msg.duplicate(),
            None => {
                let values = update.into_map()?;
                self.notify(Template::MessageUpdateUncached, &values, out);
                return Ok(());
            },
        };
        let diffs = current.diff(&update)?;
        let mut base = ContextMap::new();
        current.author.duplicate().merge_into_map_prefix(&mut base, "cached_author_")?;
        put(&mut base, "message_id", u64_to_string(update.id));
        put(&mut base, "channel_id", u64_to_string(update.channel_id));
        let author = match update.author {
            Some(author) => author,
            None => unknown_user(),
        };
        author.merge_into_map_prefix(&mut base, "author_")?;
        self.report_changes(update.id, current, &base, &diffs, out)
    }
}

/// An update that only pins a cached message that is not pinned yields the
/// one change `Pinned`: the cached message becomes pinned, and the change is
/// reported once, by the template for pins.
pub proof fn law_pin_is_written_back_and_reported(s: ServerView, u: MessageUpdateView)
    requires
        s.messages.entries.contains_key(u.id),
        !s.messages.entries[u.id].pinned,
        u.pinned == Some(true),
        u.kind is None,
        u.content is None,
        u.nonce is None,
        u.tts is None,
        u.timestamp is None,
        u.author is None,
        u.edited_timestamp is None,
        u.mention_everyone is None,
        u.mentions is None,
        u.mention_roles is None,
        u.attachments is None,
        u.embeds is None,
    ensures
        message_diff(s.messages.entries[u.id], u) == seq![MessageUpdateDiffView::Pinned],
        message_updated(s, u) == ({
            let m = s.messages.entries[u.id];
            let stored = with_message(s, u.id, MessageView { pinned: true, ..m });
            Step {
                server: stored,
                outcomes: notice(
                    stored,
                    crate::config::Template::MessageUpdatePinned,
                    update_context(m.author, u),
                ),
                failure: None,
            }
        }),
{
    let m = s.messages.entries[u.id];
    let diffs = message_diff(m, u);
    assert(diffs =~= seq![MessageUpdateDiffView::Pinned]);
    let base = update_context(m.author, u);
    let next = MessageView { pinned: true, ..m };
    let stored = with_message(s, u.id, next);
    assert(diffs.skip(1) =~= Seq::<MessageUpdateDiffView>::empty());
    assert(base.union_prefer_right(message_diff_values(diffs[0])) =~= base);
    let rest = changes_reported(stored, u.id, next, base, diffs.skip(1));
    assert(rest.outcomes =~= Seq::<LogOutcomeView>::empty());
    let shown = notice(stored, crate::config::Template::MessageUpdatePinned, base);
    assert(shown + rest.outcomes =~= shown);
}

} // verus!
