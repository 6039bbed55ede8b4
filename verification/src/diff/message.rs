//! The changes to a message, and how each is written back to the cached
//! message.

use crate::config::Template;
use crate::diff::Diff;
use crate::errors::Error;
use crate::items::{
    append_delta, collection_delta, lemma_nothing_pushed, push_record, remove_matching,
    without_first, CollectionDelta,
};
use crate::model::{
    lemma_views_push, opt_duplicate, opt_same, opt_view, views, Attachment, AttachmentView, Item,
    Message, MessageType, MessageUpdate, MessageUpdateView, MessageView, User, UserView,
};
use vstd::prelude::*;

verus! {

/// One change to a message.
#[derive(Debug, PartialEq)]
pub enum MessageUpdateDiff {
    Kind(MessageType, MessageType),
    Content(String, String),
    Nonce(Option<String>, Option<String>),
    Tts(bool, bool),
    Pinned,
    UnPinned,
    EditedTimestamp(Option<String>, String),
    MentionEveryone(bool, bool),
    Timestamp(String, String),
    Author(User, User),
    MentionAdded(User),
    MentionRemoved(User),
    MentionRoleAdded(u64),
    MentionRoleRemoved(u64),
    AttachmentAdded(Attachment),
    AttachmentRemoved(Attachment),
    EmbedsAdded(String),
    EmbedsRemoved(String),
}

/// The view of `MessageUpdateDiff`: what it holds as mathematical values.
pub enum MessageUpdateDiffView {
    Kind(MessageType, MessageType),
    Content(Seq<char>, Seq<char>),
    Nonce(Option<Seq<char>>, Option<Seq<char>>),
    Tts(bool, bool),
    Pinned,
    UnPinned,
    EditedTimestamp(Option<Seq<char>>, Seq<char>),
    MentionEveryone(bool, bool),
    Timestamp(Seq<char>, Seq<char>),
    Author(UserView, UserView),
    MentionAdded(UserView),
    MentionRemoved(UserView),
    MentionRoleAdded(u64),
    MentionRoleRemoved(u64),
    AttachmentAdded(AttachmentView),
    AttachmentRemoved(AttachmentView),
    EmbedsAdded(Seq<char>),
    EmbedsRemoved(Seq<char>),
}

impl View for MessageUpdateDiff {
    type V = MessageUpdateDiffView;

    open spec fn view(&self) -> MessageUpdateDiffView {
        match self {
            MessageUpdateDiff::Kind(from, to) => MessageUpdateDiffView::Kind(*from, *to),
            MessageUpdateDiff::Content(from, to) => MessageUpdateDiffView::Content(from@, to@),
            MessageUpdateDiff::Nonce(from, to) => MessageUpdateDiffView::Nonce(
                opt_view(*from),
                opt_view(*to),
            ),
            MessageUpdateDiff::Tts(from, to) => MessageUpdateDiffView::Tts(*from, *to),
            MessageUpdateDiff::Pinned => MessageUpdateDiffView::Pinned,
            MessageUpdateDiff::UnPinned => MessageUpdateDiffView::UnPinned,
            MessageUpdateDiff::EditedTimestamp(from, to) => MessageUpdateDiffView::EditedTimestamp(
                opt_view(*from),
                to@,
            ),
            MessageUpdateDiff::MentionEveryone(from, to) => MessageUpdateDiffView::MentionEveryone(
                *from,
                *to,
            ),
            MessageUpdateDiff::Timestamp(from, to) => MessageUpdateDiffView::Timestamp(from@, to@),
            MessageUpdateDiff::Author(from, to) => MessageUpdateDiffView::Author(from@, to@),
            MessageUpdateDiff::MentionAdded(user) => MessageUpdateDiffView::MentionAdded(user@),
            MessageUpdateDiff::MentionRemoved(user) => MessageUpdateDiffView::MentionRemoved(user@),
            MessageUpdateDiff::MentionRoleAdded(id) => MessageUpdateDiffView::MentionRoleAdded(*id),
            MessageUpdateDiff::MentionRoleRemoved(id) => MessageUpdateDiffView::MentionRoleRemoved(
                *id,
            ),
            MessageUpdateDiff::AttachmentAdded(a) => MessageUpdateDiffView::AttachmentAdded(a@),
            MessageUpdateDiff::AttachmentRemoved(a) => MessageUpdateDiffView::AttachmentRemoved(a@),
            MessageUpdateDiff::EmbedsAdded(e) => MessageUpdateDiffView::EmbedsAdded(e@),
            MessageUpdateDiff::EmbedsRemoved(e) => MessageUpdateDiffView::EmbedsRemoved(e@),
        }
    }
}

impl CollectionDelta<User> for MessageUpdateDiff {
    open spec fn added_record(item: UserView) -> MessageUpdateDiffView {
        MessageUpdateDiffView::MentionAdded(item)
    }

    open spec fn removed_record(item: UserView) -> MessageUpdateDiffView {
        MessageUpdateDiffView::MentionRemoved(item)
    }

    fn added(item: User) -> (res: Self) {
        MessageUpdateDiff::MentionAdded(item)
    }

    fn removed(item: User) -> (res: Self) {
        MessageUpdateDiff::MentionRemoved(item)
    }
}

impl CollectionDelta<u64> for MessageUpdateDiff {
    open spec fn added_record(item: u64) -> MessageUpdateDiffView {
        MessageUpdateDiffView::MentionRoleAdded(item)
    }

    open spec fn removed_record(item: u64) -> MessageUpdateDiffView {
        MessageUpdateDiffView::MentionRoleRemoved(item)
    }

    fn added(item: u64) -> (res: Self) {
        MessageUpdateDiff::MentionRoleAdded(item)
    }

    fn removed(item: u64) -> (res: Self) {
        MessageUpdateDiff::MentionRoleRemoved(item)
    }
}

impl CollectionDelta<Attachment> for MessageUpdateDiff {
    open spec fn added_record(item: AttachmentView) -> MessageUpdateDiffView {
        MessageUpdateDiffView::AttachmentAdded(item)
    }

    open spec fn removed_record(item: AttachmentView) -> MessageUpdateDiffView {
        MessageUpdateDiffView::AttachmentRemoved(item)
    }

    fn added(item: Attachment) -> (res: Self) {
        MessageUpdateDiff::AttachmentAdded(item)
    }

    fn removed(item: Attachment) -> (res: Self) {
        MessageUpdateDiff::AttachmentRemoved(item)
    }
}

impl CollectionDelta<String> for MessageUpdateDiff {
    open spec fn added_record(item: Seq<char>) -> MessageUpdateDiffView {
        MessageUpdateDiffView::EmbedsAdded(item)
    }

    open spec fn removed_record(item: Seq<char>) -> MessageUpdateDiffView {
        MessageUpdateDiffView::EmbedsRemoved(item)
    }

    fn added(item: String) -> (res: Self) {
        MessageUpdateDiff::EmbedsAdded(item)
    }

    fn removed(item: String) -> (res: Self) {
        MessageUpdateDiff::EmbedsRemoved(item)
    }
}

/// The record `record`, if `changed` holds; else none.
pub open spec fn when(changed: bool, record: MessageUpdateDiffView) -> Seq<MessageUpdateDiffView> {
    if changed {
        seq![record]
    } else {
        Seq::empty()
    }
}

/// The change of the kind, if the update holds another.
pub open spec fn kind_change(m: MessageView, u: MessageUpdateView) -> Seq<MessageUpdateDiffView> {
    when(u.kind is Some && u.kind->0 != m.kind, MessageUpdateDiffView::Kind(m.kind, u.kind->0))
}

/// The change of the content, if the update holds another.
pub open spec fn content_change(m: MessageView, u: MessageUpdateView) -> Seq<
    MessageUpdateDiffView,
> {
    when(
        u.content is Some && u.content->0 != m.content,
        MessageUpdateDiffView::Content(m.content, u.content->0),
    )
}

/// The change of the nonce, if the update holds another.
pub open spec fn nonce_change(m: MessageView, u: MessageUpdateView) -> Seq<MessageUpdateDiffView> {
    when(u.nonce is Some && u.nonce != m.nonce, MessageUpdateDiffView::Nonce(m.nonce, u.nonce))
}

/// The change of the reading aloud, if the update holds another.
pub open spec fn tts_change(m: MessageView, u: MessageUpdateView) -> Seq<MessageUpdateDiffView> {
    when(u.tts is Some && u.tts->0 != m.tts, MessageUpdateDiffView::Tts(m.tts, u.tts->0))
}

/// A change of the pin is reported by its direction.
pub open spec fn pin_change(m: MessageView, u: MessageUpdateView) -> Seq<MessageUpdateDiffView> {
    if u.pinned == Some(true) && !m.pinned {
        seq![MessageUpdateDiffView::Pinned]
    } else if u.pinned == Some(false) && m.pinned {
        seq![MessageUpdateDiffView::UnPinned]
    } else {
        Seq::empty()
    }
}

/// The change of the time of the last edit, if the update holds another.
pub open spec fn edited_change(m: MessageView, u: MessageUpdateView) -> Seq<MessageUpdateDiffView> {
    when(
        u.edited_timestamp is Some && u.edited_timestamp != m.edited_timestamp,
        MessageUpdateDiffView::EditedTimestamp(m.edited_timestamp, u.edited_timestamp->0),
    )
}

/// The change of the mention of everyone, if the update holds another.
pub open spec fn mention_everyone_change(m: MessageView, u: MessageUpdateView) -> Seq<
    MessageUpdateDiffView,
> {
    when(
        u.mention_everyone is Some && u.mention_everyone->0 != m.mention_everyone,
        MessageUpdateDiffView::MentionEveryone(m.mention_everyone, u.mention_everyone->0),
    )
}

/// The change of the time of sending, if the update holds another.
pub open spec fn timestamp_change(m: MessageView, u: MessageUpdateView) -> Seq<
    MessageUpdateDiffView,
> {
    when(
        u.timestamp is Some && u.timestamp->0 != m.timestamp,
        MessageUpdateDiffView::Timestamp(m.timestamp, u.timestamp->0),
    )
}

/// The change of the author, if the update holds another.
pub open spec fn author_change(m: MessageView, u: MessageUpdateView) -> Seq<MessageUpdateDiffView> {
    when(
        u.author is Some && u.author->0 != m.author,
        MessageUpdateDiffView::Author(m.author, u.author->0),
    )
}

/// The changes to the single-valued attributes, in a fixed order. An
/// attribute that the update leaves out is unchanged.
pub open spec fn scalar_changes(m: MessageView, u: MessageUpdateView) -> Seq<
    MessageUpdateDiffView,
> {
    kind_change(m, u) + content_change(m, u) + nonce_change(m, u) + tts_change(m, u) + pin_change(
        m,
        u,
    ) + edited_change(m, u) + mention_everyone_change(m, u) + timestamp_change(m, u)
        + author_change(m, u)
}

/// The changes to a list-valued attribute, read as a set. A list that the
/// update leaves out is unchanged.
pub open spec fn list_changes<T: Item>(cached: Seq<T::V>, update: Option<Seq<T::V>>) -> Seq<
    MessageUpdateDiffView,
> where MessageUpdateDiff: CollectionDelta<T> {
    match update {
        Some(list) => collection_delta::<T, MessageUpdateDiff>(cached, list),
        None => Seq::empty(),
    }
}

/// The changes that turn the cached message into what the update describes:
/// the single-valued attributes, then mentions, mentioned roles, attachments
/// and embeds.
pub open spec fn message_diff(m: MessageView, u: MessageUpdateView) -> Seq<MessageUpdateDiffView> {
    scalar_changes(m, u) + list_changes::<User>(m.mentions, u.mentions) + list_changes::<u64>(
        m.mention_roles,
        u.mention_roles,
    ) + list_changes::<Attachment>(m.attachments, u.attachments) + list_changes::<String>(
        m.embeds,
        u.embeds,
    )
}

/// An update that holds no attribute yields no change.
pub proof fn law_empty_update_yields_no_diff(m: MessageView, u: MessageUpdateView)
    requires
        u.kind is None,
        u.content is None,
        u.nonce is None,
        u.tts is None,
        u.pinned is None,
        u.timestamp is None,
        u.author is None,
        u.edited_timestamp is None,
        u.mention_everyone is None,
        u.mentions is None,
        u.mention_roles is None,
        u.attachments is None,
        u.embeds is None,
    ensures
        message_diff(m, u) == Seq::<MessageUpdateDiffView>::empty(),
{
    assert(message_diff(m, u) =~= Seq::<MessageUpdateDiffView>::empty());
}

fn push_kind_change(m: &Message, u: &MessageUpdate, out: &mut Vec<MessageUpdateDiff>)
    ensures
        views(final(out)@) == views(old(out)@) + kind_change(m@, u@),
{
    proof {
        lemma_nothing_pushed(out@);
    }
    if let Some(kind) = u.kind {
        if kind != m.kind {
            push_record(MessageUpdateDiff::Kind(m.kind, kind), out);
        }
    }
}

fn push_content_change(m: &Message, u: &MessageUpdate, out: &mut Vec<MessageUpdateDiff>)
    ensures
        views(final(out)@) == views(old(out)@) + content_change(m@, u@),
{
    proof {
        lemma_nothing_pushed(out@);
    }
    if let Some(content) = &u.content {
        if !content.same(&m.content) {
            push_record(MessageUpdateDiff::Content(m.content.clone(), content.clone()), out);
        }
    }
}

fn push_nonce_change(m: &Message, u: &MessageUpdate, out: &mut Vec<MessageUpdateDiff>)
    ensures
        views(final(out)@) == views(old(out)@) + nonce_change(m@, u@),
{
    proof {
        lemma_nothing_pushed(out@);
    }
    if u.nonce.is_some() {
        if !opt_same(&u.nonce, &m.nonce) {
            push_record(
                MessageUpdateDiff::Nonce(opt_duplicate(&m.nonce), opt_duplicate(&u.nonce)),
                out,
            );
        }
    }
}

fn push_tts_change(m: &Message, u: &MessageUpdate, out: &mut Vec<MessageUpdateDiff>)
    ensures
        views(final(out)@) == views(old(out)@) + tts_change(m@, u@),
{
    proof {
        lemma_nothing_pushed(out@);
    }
    if let Some(tts) = u.tts {
        if tts != m.tts {
            push_record(MessageUpdateDiff::Tts(m.tts, tts), out);
        }
    }
}

fn push_pin_change(m: &Message, u: &MessageUpdate, out: &mut Vec<MessageUpdateDiff>)
    ensures
        views(final(out)@) == views(old(out)@) + pin_change(m@, u@),
{
    proof {
        lemma_nothing_pushed(out@);
    }
    if let Some(pinned) = u.pinned {
        if pinned && !m.pinned {
            push_record(MessageUpdateDiff::Pinned, out);
        } else if m.pinned && !pinned {
            push_record(MessageUpdateDiff::UnPinned, out);
        }
    }
}

fn push_edited_change(m: &Message, u: &MessageUpdate, out: &mut Vec<MessageUpdateDiff>)
    ensures
        views(final(out)@) == views(old(out)@) + edited_change(m@, u@),
{
    proof {
        lemma_nothing_pushed(out@);
    }
    if let Some(ts) = &u.edited_timestamp {
        if !opt_same(&u.edited_timestamp, &m.edited_timestamp) {
            push_record(
                MessageUpdateDiff::EditedTimestamp(opt_duplicate(&m.edited_timestamp), ts.clone()),
                out,
            );
        }
    }
}

fn push_mention_everyone_change(m: &Message, u: &MessageUpdate, out: &mut Vec<MessageUpdateDiff>)
    ensures
        views(final(out)@) == views(old(out)@) + mention_everyone_change(m@, u@),
{
    proof {
        lemma_nothing_pushed(out@);
    }
    if let Some(everyone) = u.mention_everyone {
        if everyone != m.mention_everyone {
            push_record(MessageUpdateDiff::MentionEveryone(m.mention_everyone, everyone), out);
        }
    }
}

fn push_timestamp_change(m: &Message, u: &MessageUpdate, out: &mut Vec<MessageUpdateDiff>)
    ensures
        views(final(out)@) == views(old(out)@) + timestamp_change(m@, u@),
{
    proof {
        lemma_nothing_pushed(out@);
    }
    if let Some(timestamp) = &u.timestamp {
        if !timestamp.same(&m.timestamp) {
            push_record(MessageUpdateDiff::Timestamp(m.timestamp.clone(), timestamp.clone()), out);
        }
    }
}

fn push_author_change(m: &Message, u: &MessageUpdate, out: &mut Vec<MessageUpdateDiff>)
    ensures
        views(final(out)@) == views(old(out)@) + author_change(m@, u@),
{
    proof {
        lemma_nothing_pushed(out@);
    }
    if let Some(author) = &u.author {
        if !author.same(&m.author) {
            push_record(MessageUpdateDiff::Author(m.author.duplicate(), author.duplicate()), out);
        }
    }
}

/// Appends the changes to a list-valued attribute to `out`.
fn append_list_changes<T: Item>(
    cached: &Vec<T>,
    update: &Option<Vec<T>>,
    out: &mut Vec<MessageUpdateDiff>,
) where MessageUpdateDiff: CollectionDelta<T>
    ensures
        views(final(out)@) == views(old(out)@) + list_changes::<T>(
            views(cached@),
            crate::model::opt_views(*update),
        ),
{
    match update {
        Some(list) => append_delta(cached, list, out),
        None => {
            assert(views(out@) =~= views(out@) + Seq::<MessageUpdateDiffView>::empty());
        },
    }
}

impl Diff for Message {
    type Other = MessageUpdate;

    type Output = MessageUpdateDiff;

    /// The changes that turn the message into what the update describes.
    fn diff(&self, other: &MessageUpdate) -> (res: Result<Vec<MessageUpdateDiff>, Error>)
        ensures
            res is Ok,
            views(res->Ok_0@) == message_diff(self@, other@),
    {
        let mut res: Vec<MessageUpdateDiff> = Vec::new();
        let ghost m = self@;
        let ghost u = other@;
        assert(views(res@) =~= Seq::empty());
        push_kind_change(self, other, &mut res);
        assert(views(res@) =~= kind_change(m, u));
        push_content_change(self, other, &mut res);
        push_nonce_change(self, other, &mut res);
        push_tts_change(self, other, &mut res);
        push_pin_change(self, other, &mut res);
        push_edited_change(self, other, &mut res);
        push_mention_everyone_change(self, other, &mut res);
        push_timestamp_change(self, other, &mut res);
        push_author_change(self, other, &mut res);
        assert(views(res@) == scalar_changes(m, u));
        append_list_changes(&self.mentions, &other.mentions, &mut res);
        append_list_changes(&self.mention_roles, &other.mention_roles, &mut res);
        append_list_changes(&self.attachments, &other.attachments, &mut res);
        append_list_changes(&self.embeds, &other.embeds, &mut res);
        Ok(res)
    }
}

/// The message after one change was written back to it, or the failure if
/// the change takes away an item that the message does not hold. An item is
/// taken away by what it stands for, not by all that it holds.
pub open spec fn apply_message_diff(m: MessageView, d: MessageUpdateDiffView) -> Result<
    MessageView,
    Error,
> {
    match d {
        MessageUpdateDiffView::Kind(_, to) => Ok(MessageView { kind: to, ..m }),
        MessageUpdateDiffView::Content(_, to) => Ok(MessageView { content: to, ..m }),
        MessageUpdateDiffView::Nonce(_, to) => Ok(MessageView { nonce: to, ..m }),
        MessageUpdateDiffView::Tts(_, to) => Ok(MessageView { tts: to, ..m }),
        MessageUpdateDiffView::Pinned => Ok(MessageView { pinned: true, ..m }),
        MessageUpdateDiffView::UnPinned => Ok(MessageView { pinned: false, ..m }),
        MessageUpdateDiffView::EditedTimestamp(_, to) => Ok(
            MessageView { edited_timestamp: Some(to), ..m },
        ),
        MessageUpdateDiffView::MentionEveryone(_, to) => Ok(
            MessageView { mention_everyone: to, ..m },
        ),
        MessageUpdateDiffView::Timestamp(_, to) => Ok(MessageView { timestamp: to, ..m }),
        MessageUpdateDiffView::Author(_, to) => Ok(MessageView { author: to, ..m }),
        MessageUpdateDiffView::MentionAdded(user) => Ok(
            MessageView { mentions: m.mentions.push(user), ..m },
        ),
        MessageUpdateDiffView::MentionRemoved(user) => match without_first::<User>(
            m.mentions,
            user,
        ) {
            Some(rest) => Ok(MessageView { mentions: rest, ..m }),
            None => Err(Error::MissingMention(user.id)),
        },
        MessageUpdateDiffView::MentionRoleAdded(id) => Ok(
            MessageView { mention_roles: m.mention_roles.push(id), ..m },
        ),
        MessageUpdateDiffView::MentionRoleRemoved(id) => match without_first::<u64>(
            m.mention_roles,
            id,
        ) {
            Some(rest) => Ok(MessageView { mention_roles: rest, ..m }),
            None => Err(Error::MissingMentionRole(id)),
        },
        MessageUpdateDiffView::AttachmentAdded(a) => Ok(
            MessageView { attachments: m.attachments.push(a), ..m },
        ),
        MessageUpdateDiffView::AttachmentRemoved(a) => match without_first::<Attachment>(
            m.attachments,
            a,
        ) {
            Some(rest) => Ok(MessageView { attachments: rest, ..m }),
            None => Err(Error::MissingAttachment),
        },
        MessageUpdateDiffView::EmbedsAdded(e) => Ok(MessageView { embeds: m.embeds.push(e), ..m }),
        MessageUpdateDiffView::EmbedsRemoved(e) => match without_first::<String>(m.embeds, e) {
            Some(rest) => Ok(MessageView { embeds: rest, ..m }),
            None => Err(Error::MissingEmbed),
        },
    }
}

impl MessageUpdateDiff {
    /// A copy of the change.
    pub fn duplicate(&self) -> (res: Self)
        ensures
            res@ == self@,
    {
        match self {
            MessageUpdateDiff::Kind(from, to) => MessageUpdateDiff::Kind(*from, *to),
            MessageUpdateDiff::Content(from, to) => MessageUpdateDiff::Content(
                from.clone(),
                to.clone(),
            ),
            MessageUpdateDiff::Nonce(from, to) => MessageUpdateDiff::Nonce(
                opt_duplicate(from),
                opt_duplicate(to),
            ),
            MessageUpdateDiff::Tts(from, to) => MessageUpdateDiff::Tts(*from, *to),
            MessageUpdateDiff::Pinned => MessageUpdateDiff::Pinned,
            MessageUpdateDiff::UnPinned => MessageUpdateDiff::UnPinned,
            MessageUpdateDiff::EditedTimestamp(from, to) => MessageUpdateDiff::EditedTimestamp(
                opt_duplicate(from),
                to.clone(),
            ),
            MessageUpdateDiff::MentionEveryone(from, to) => MessageUpdateDiff::MentionEveryone(
                *from,
                *to,
            ),
            MessageUpdateDiff::Timestamp(from, to) => MessageUpdateDiff::Timestamp(
                from.clone(),
                to.clone(),
            ),
            MessageUpdateDiff::Author(from, to) => MessageUpdateDiff::Author(
                from.duplicate(),
                to.duplicate(),
            ),
            MessageUpdateDiff::MentionAdded(user) => MessageUpdateDiff::MentionAdded(
                user.duplicate(),
            ),
            MessageUpdateDiff::MentionRemoved(user) => MessageUpdateDiff::MentionRemoved(
                user.duplicate(),
            ),
            MessageUpdateDiff::MentionRoleAdded(id) => MessageUpdateDiff::MentionRoleAdded(*id),
            MessageUpdateDiff::MentionRoleRemoved(id) => MessageUpdateDiff::MentionRoleRemoved(*id),
            MessageUpdateDiff::AttachmentAdded(a) => MessageUpdateDiff::AttachmentAdded(
                a.duplicate(),
            ),
            MessageUpdateDiff::AttachmentRemoved(a) => MessageUpdateDiff::AttachmentRemoved(
                a.duplicate(),
            ),
            MessageUpdateDiff::EmbedsAdded(e) => MessageUpdateDiff::EmbedsAdded(e.clone()),
            MessageUpdateDiff::EmbedsRemoved(e) => MessageUpdateDiff::EmbedsRemoved(e.clone()),
        }
    }

    /// The kind of event that the change is reported as.
    pub open spec fn template(d: MessageUpdateDiffView) -> Template {
        match d {
            MessageUpdateDiffView::Kind(..) => Template::MessageUpdateKind,
            MessageUpdateDiffView::Content(..) => Template::MessageUpdateContent,
            MessageUpdateDiffView::Nonce(..) => Template::MessageUpdateNonce,
            MessageUpdateDiffView::Tts(..) => Template::MessageUpdateTts,
            MessageUpdateDiffView::Pinned => Template::MessageUpdatePinned,
            MessageUpdateDiffView::UnPinned => Template::MessageUpdateUnpinned,
            MessageUpdateDiffView::EditedTimestamp(..) => Template::MessageUpdateEditedTime,
            MessageUpdateDiffView::MentionEveryone(..) => Template::MessageUpdateMentionEveryone,
            MessageUpdateDiffView::Timestamp(..) => Template::MessageUpdateTimestamp,
            MessageUpdateDiffView::Author(..) => Template::MessageUpdateAuthor,
            MessageUpdateDiffView::MentionAdded(..) => Template::MessageUpdateMentionAdded,
            MessageUpdateDiffView::MentionRemoved(..) => Template::MessageUpdateMentionRemoved,
            MessageUpdateDiffView::MentionRoleAdded(..) => Template::MessageUpdateMentionRoleAdded,
            MessageUpdateDiffView::MentionRoleRemoved(..) => Template::MessageUpdateMentionRoleRemoved,
            MessageUpdateDiffView::AttachmentAdded(..) => Template::MessageUpdateAttachmentAdded,
            MessageUpdateDiffView::AttachmentRemoved(..) => Template::MessageUpdateAttachmentRemoved,
            MessageUpdateDiffView::EmbedsAdded(..) => Template::MessageUpdateEmbedsAdded,
            MessageUpdateDiffView::EmbedsRemoved(..) => Template::MessageUpdateEmbedsRemoved,
        }
    }

    /// The kind of event that the change is reported as.
    pub fn template_kind(&self) -> (res: Template)
        ensures
            res == Self::template(self@),
    {
        match self {
            MessageUpdateDiff::Kind(..) => Template::MessageUpdateKind,
            MessageUpdateDiff::Content(..) => Template::MessageUpdateContent,
            MessageUpdateDiff::Nonce(..) => Template::MessageUpdateNonce,
            MessageUpdateDiff::Tts(..) => Template::MessageUpdateTts,
            MessageUpdateDiff::Pinned => Template::MessageUpdatePinned,
            MessageUpdateDiff::UnPinned => Template::MessageUpdateUnpinned,
            MessageUpdateDiff::EditedTimestamp(..) => Template::MessageUpdateEditedTime,
            MessageUpdateDiff::MentionEveryone(..) => Template::MessageUpdateMentionEveryone,
            MessageUpdateDiff::Timestamp(..) => Template::MessageUpdateTimestamp,
            MessageUpdateDiff::Author(..) => Template::MessageUpdateAuthor,
            MessageUpdateDiff::MentionAdded(..) => Template::MessageUpdateMentionAdded,
            MessageUpdateDiff::MentionRemoved(..) => Template::MessageUpdateMentionRemoved,
            MessageUpdateDiff::MentionRoleAdded(..) => Template::MessageUpdateMentionRoleAdded,
            MessageUpdateDiff::MentionRoleRemoved(..) => Template::MessageUpdateMentionRoleRemoved,
            MessageUpdateDiff::AttachmentAdded(..) => Template::MessageUpdateAttachmentAdded,
            MessageUpdateDiff::AttachmentRemoved(..) => Template::MessageUpdateAttachmentRemoved,
            MessageUpdateDiff::EmbedsAdded(..) => Template::MessageUpdateEmbedsAdded,
            MessageUpdateDiff::EmbedsRemoved(..) => Template::MessageUpdateEmbedsRemoved,
        }
    }

    /// Writes the change back to the cached message. Where the change takes
    /// away an item that the message does not hold, the message stays as it is
    /// and the failure is reported.
    pub fn apply(&self, message: &mut Message) -> (res: Result<(), Error>)
        ensures
            match apply_message_diff(old(message)@, self@) {
                Ok(m) => res is Ok && final(message)@ == m,
                Err(e) => res == Err::<(), Error>(e) && final(message)@ == old(message)@,
            },
    {
        match self {
            MessageUpdateDiff::Kind(_, to) => {
                message.kind = *to;
            },
            MessageUpdateDiff::Content(_, to) => {
                message.content = to.clone();
            },
            MessageUpdateDiff::Nonce(_, to) => {
                message.nonce = opt_duplicate(to);
            },
            MessageUpdateDiff::Tts(_, to) => {
                message.tts = *to;
            },
            MessageUpdateDiff::Pinned => {
                message.pinned = true;
            },
            MessageUpdateDiff::UnPinned => {
                message.pinned = false;
            },
            MessageUpdateDiff::EditedTimestamp(_, to) => {
                message.edited_timestamp = Some(to.clone());
            },
            MessageUpdateDiff::MentionEveryone(_, to) => {
                message.mention_everyone = *to;
            },
            MessageUpdateDiff::Timestamp(_, to) => {
                message.timestamp = to.clone();
            },
            MessageUpdateDiff::Author(_, to) => {
                message.author = to.duplicate();
            },
            MessageUpdateDiff::MentionAdded(user) => {
                let ghost before = message.mentions@;
                let item = user.duplicate();
                proof {
                    lemma_views_push(before, item);
                }
                message.mentions.push(item);
            },
            MessageUpdateDiff::MentionRemoved(user) => {
                if !remove_matching(&mut message.mentions, user) {
                    return Err(Error::MissingMention(user.id));
                }
            },
            MessageUpdateDiff::MentionRoleAdded(id) => {
                let ghost before = message.mention_roles@;
                proof {
                    lemma_views_push(before, *id);
                }
                message.mention_roles.push(*id);
            },
            MessageUpdateDiff::MentionRoleRemoved(id) => {
                if !remove_matching(&mut message.mention_roles, id) {
                    return Err(Error::MissingMentionRole(*id));
                }
            },
            MessageUpdateDiff::AttachmentAdded(a) => {
                let ghost before = message.attachments@;
                let item = a.duplicate();
                proof {
                    lemma_views_push(before, item);
                }
                message.attachments.push(item);
            },
            MessageUpdateDiff::AttachmentRemoved(a) => {
                if !remove_matching(&mut message.attachments, a) {
                    return Err(Error::MissingAttachment);
                }
            },
            MessageUpdateDiff::EmbedsAdded(e) => {
                let ghost before = message.embeds@;
                let item = e.duplicate();
                proof {
                    lemma_views_push(before, item);
                }
                message.embeds.push(item);
            },
            MessageUpdateDiff::EmbedsRemoved(e) => {
                if !remove_matching(&mut message.embeds, e) {
                    return Err(Error::MissingEmbed);
                }
            },
        }
        Ok(())
    }
}

/// The message after the changes were written back to it one after the
/// other, up to the first that fails, and that failure if there is one.
pub open spec fn apply_each(m: MessageView, diffs: Seq<MessageUpdateDiffView>) -> (
    MessageView,
    Option<Error>,
)
    decreases diffs.len(),
{
    if diffs.len() == 0 {
        (m, None)
    } else {
        match apply_message_diff(m, diffs[0]) {
            Ok(next) => apply_each(next, diffs.skip(1)),
            Err(e) => (m, Some(e)),
        }
    }
}

/// Writes the changes back to the cached message, one after the other. At the
/// first that fails, the message keeps what was written before and the
/// failure is reported.
pub fn apply_all(diffs: &Vec<MessageUpdateDiff>, message: &mut Message) -> (res: Result<(), Error>)
    ensures
        final(message)@ == apply_each(old(message)@, views(diffs@)).0,
        res == match apply_each(old(message)@, views(diffs@)).1 {
            None => Ok::<(), Error>(()),
            Some(e) => Err::<(), Error>(e),
        },
{
    let ghost all = views(diffs@);
    let mut i: usize = 0;
    assert(all.skip(0) =~= all);
    while i < diffs.len()
        invariant
            i <= diffs.len(),
            all == views(diffs@),
            apply_each(old(message)@, all) == apply_each(message@, all.skip(i as int)),
        decreases diffs.len() - i,
    {
        proof {
            assert(all.skip(i as int)[0] == diffs@[i as int]@);
            assert(all.skip(i as int).skip(1) =~= all.skip(i as int + 1));
        }
        match diffs[i].apply(message) {
            Ok(()) => {},
            Err(e) => {
                return Err(e);
            },
        }
        i += 1;
    }
    Ok(())
}

} // verus!
