//! The entities of a community as plain values, each with its mathematical
//! view, and the helpers that compare and copy them.

use crate::text::{decimal, u64_to_string};
use vstd::prelude::*;

verus! {

/// A value that can be compared and copied by its view.
pub trait Item: View + Sized {
    /// Whether both values have the same view.
    fn same(&self, other: &Self) -> (b: bool)
        ensures
            b == (self@ == other@),
    ;

    /// A copy with the same view.
    fn duplicate(&self) -> (res: Self)
        ensures
            res@ == self@,
    ;

    /// Whether two views stand for the same entity, whatever else they hold.
    spec fn same_key(a: Self::V, b: Self::V) -> bool;

    /// Whether both values stand for the same entity.
    fn same_entity(&self, other: &Self) -> (b: bool)
        ensures
            b == Self::same_key(self@, other@),
    ;

    /// The short text by which a value is named in a list.
    spec fn label(v: Self::V) -> Seq<char>;

    /// The short text by which the value is named in a list.
    fn label_text(&self) -> (res: String)
        ensures
            res@ == Self::label(self@),
    ;
}

/// The view of an optional value.
pub open spec fn opt_view<T: View>(o: Option<T>) -> Option<T::V> {
    match o {
        Some(x) => Some(x@),
        None => None,
    }
}

/// The views of a sequence of values.
pub open spec fn views<T: View>(s: Seq<T>) -> Seq<T::V> {
    Seq::new(s.len(), |i: int| s[i]@)
}

/// The views of the values of a map from ids.
pub open spec fn map_views<T: View>(m: Map<u64, T>) -> Map<u64, T::V> {
    m.map_values(|x: T| x@)
}

/// The views of a list with one more item.
pub proof fn lemma_views_push<T: View>(s: Seq<T>, x: T)
    ensures
        views(s.push(x)) == views(s).push(x@),
{
    assert(views(s.push(x)) =~= views(s).push(x@));
}

impl Item for u64 {
    fn same(&self, other: &Self) -> (b: bool) {
        *self == *other
    }

    fn duplicate(&self) -> (res: Self) {
        *self
    }

    open spec fn same_key(a: Self::V, b: Self::V) -> bool {
        a == b
    }

    fn same_entity(&self, other: &Self) -> (b: bool) {
        *self == *other
    }

    open spec fn label(v: Self::V) -> Seq<char> {
        decimal(v as nat)
    }

    fn label_text(&self) -> (res: String) {
        u64_to_string(*self)
    }
}

impl Item for String {
    fn same(&self, other: &Self) -> (b: bool) {
        *self == *other
    }

    fn duplicate(&self) -> (res: Self) {
        self.clone()
    }

    open spec fn same_key(a: Self::V, b: Self::V) -> bool {
        a == b
    }

    fn same_entity(&self, other: &Self) -> (b: bool) {
        *self == *other
    }

    open spec fn label(v: Self::V) -> Seq<char> {
        v
    }

    fn label_text(&self) -> (res: String) {
        self.clone()
    }
}

/// Whether both optional values have the same view.
pub fn opt_same<T: Item>(a: &Option<T>, b: &Option<T>) -> (res: bool)
    ensures
        res == (opt_view(*a) == opt_view(*b)),
{
    match (a, b) {
        (Some(x), Some(y)) => x.same(y),
        (None, None) => true,
        _ => false,
    }
}

/// A copy of an optional value.
pub fn opt_duplicate<T: Item>(a: &Option<T>) -> (res: Option<T>)
    ensures
        opt_view(res) == opt_view(*a),
{
    match a {
        Some(x) => Some(x.duplicate()),
        None => None,
    }
}

/// Whether both lists have the same views, item by item.
pub fn vec_same<T: Item>(a: &Vec<T>, b: &Vec<T>) -> (res: bool)
    ensures
        res == (views(a@) == views(b@)),
{
    if a.len() != b.len() {
        return false;
    }
    let mut i: usize = 0;
    while i < a.len()
        invariant
            i <= a.len(),
            a.len() == b.len(),
            forall|j: int| 0 <= j < i ==> a@[j]@ == b@[j]@,
        decreases a.len() - i,
    {
        if !a[i].same(&b[i]) {
            assert(views(a@)[i as int] != views(b@)[i as int]);
            return false;
        }
        i += 1;
    }
    assert(views(a@) =~= views(b@));
    true
}

/// A copy of a list.
pub fn vec_duplicate<T: Item>(a: &Vec<T>) -> (res: Vec<T>)
    ensures
        views(res@) == views(a@),
{
    let mut res: Vec<T> = Vec::new();
    let mut i: usize = 0;
    while i < a.len()
        invariant
            i <= a.len(),
            res.len() == i,
            forall|j: int| 0 <= j < i ==> res@[j]@ == a@[j]@,
        decreases a.len() - i,
    {
        res.push(a[i].duplicate());
        i += 1;
    }
    assert(views(res@) =~= views(a@));
    res
}

/// Whether one of the first `upto` items has the view of `x`.
pub(crate) fn occurs_before<T: Item>(items: &Vec<T>, upto: usize, x: &T) -> (res: bool)
    requires
        upto <= items.len(),
    ensures
        res == views(items@).take(upto as int).contains(x@),
{
    let mut i: usize = 0;
    while i < upto
        invariant
            i <= upto <= items.len(),
            forall|j: int| 0 <= j < i ==> items@[j]@ != x@,
        decreases upto - i,
    {
        if items[i].same(x) {
            assert(views(items@).take(upto as int)[i as int] == x@);
            return true;
        }
        i += 1;
    }
    false
}

/// Broadly applicable information on a user.
#[derive(Debug, PartialEq)]
pub struct User {
    pub id: u64,
    pub name: String,
    pub discriminator: u16,
    pub avatar: Option<String>,
    pub bot: bool,
}

/// The view of `User`: what it holds as mathematical values.
pub struct UserView {
    pub id: u64,
    pub name: Seq<char>,
    pub discriminator: u16,
    pub avatar: Option<Seq<char>>,
    pub bot: bool,
}

impl View for User {
    type V = UserView;

    open spec fn view(&self) -> UserView {
        UserView {
            id: self.id,
            name: self.name@,
            discriminator: self.discriminator,
            avatar: opt_view(self.avatar),
            bot: self.bot,
        }
    }
}

impl Item for User {
    fn same(&self, other: &Self) -> (b: bool) {
        self.id == other.id && self.name == other.name && self.discriminator == other.discriminator
            && opt_same(&self.avatar, &other.avatar) && self.bot == other.bot
    }

    fn duplicate(&self) -> (res: Self) {
        User {
            id: self.id,
            name: self.name.clone(),
            discriminator: self.discriminator,
            avatar: opt_duplicate(&self.avatar),
            bot: self.bot,
        }
    }

    open spec fn same_key(a: Self::V, b: Self::V) -> bool {
        a.id == b.id
    }

    fn same_entity(&self, other: &Self) -> (b: bool) {
        self.id == other.id
    }

    open spec fn label(v: Self::V) -> Seq<char> {
        decimal(v.id as nat)
    }

    fn label_text(&self) -> (res: String) {
        u64_to_string(self.id)
    }
}

/// File attached to a message.
#[derive(Debug, PartialEq)]
pub struct Attachment {
    pub id: String,
    pub filename: String,
    pub url: String,
    pub proxy_url: String,
    pub size: u64,
    /// Width and height, if the file is an image.
    pub dimensions: Option<(u64, u64)>,
}

/// The view of `Attachment`: what it holds as mathematical values.
pub struct AttachmentView {
    pub id: Seq<char>,
    pub filename: Seq<char>,
    pub url: Seq<char>,
    pub proxy_url: Seq<char>,
    pub size: u64,
    pub dimensions: Option<(u64, u64)>,
}

impl View for Attachment {
    type V = AttachmentView;

    open spec fn view(&self) -> AttachmentView {
        AttachmentView {
            id: self.id@,
            filename: self.filename@,
            url: self.url@,
            proxy_url: self.proxy_url@,
            size: self.size,
            dimensions: self.dimensions,
        }
    }
}

impl Item for Attachment {
    fn same(&self, other: &Self) -> (b: bool) {
        let dims = match (self.dimensions, other.dimensions) {
            (Some(a), Some(b)) => a.0 == b.0 && a.1 == b.1,
            (None, None) => true,
            _ => false,
        };
        self.id == other.id && self.filename == other.filename && self.url == other.url
            && self.proxy_url == other.proxy_url && self.size == other.size && dims
    }

    fn duplicate(&self) -> (res: Self) {
        Attachment {
            id: self.id.clone(),
            filename: self.filename.clone(),
            url: self.url.clone(),
            proxy_url: self.proxy_url.clone(),
            size: self.size,
            dimensions: self.dimensions,
        }
    }

    open spec fn same_key(a: Self::V, b: Self::V) -> bool {
        a.id == b.id
    }

    fn same_entity(&self, other: &Self) -> (b: bool) {
        self.id == other.id
    }

    open spec fn label(v: Self::V) -> Seq<char> {
        v.id
    }

    fn label_text(&self) -> (res: String) {
        self.id.clone()
    }
}

/// The kind of a message.
#[derive(Copy, Clone, Debug, PartialEq, Eq, Structural)]
pub enum MessageType {
    Regular,
    GroupRecipientAddition,
    GroupRecipientRemoval,
    GroupCallCreation,
    GroupNameUpdate,
    GroupIconUpdate,
    MessagePinned,
}

/// The kind of a channel.
#[derive(Copy, Clone, Debug, PartialEq, Eq, Structural)]
pub enum ChannelType {
    Group,
    Private,
    Text,
    Voice,
}

/// The emoji of a reaction.
#[derive(Debug, PartialEq)]
pub enum ReactionEmoji {
    Unicode(String),
    Custom { name: String, id: u64 },
}

/// The view of `ReactionEmoji`: what it holds as mathematical values.
pub enum ReactionEmojiView {
    Unicode(Seq<char>),
    Custom { name: Seq<char>, id: u64 },
}

impl View for ReactionEmoji {
    type V = ReactionEmojiView;

    open spec fn view(&self) -> ReactionEmojiView {
        match self {
            ReactionEmoji::Unicode(name) => ReactionEmojiView::Unicode(name@),
            ReactionEmoji::Custom { name, id } => ReactionEmojiView::Custom { name: name@, id: *id },
        }
    }
}

impl Item for ReactionEmoji {
    fn same(&self, other: &Self) -> (b: bool) {
        match (self, other) {
            (ReactionEmoji::Unicode(a), ReactionEmoji::Unicode(b)) => *a == *b,
            (
                ReactionEmoji::Custom { name: a, id: i },
                ReactionEmoji::Custom { name: b, id: j },
            ) => *a == *b && *i == *j,
            _ => false,
        }
    }

    fn duplicate(&self) -> (res: Self) {
        match self {
            ReactionEmoji::Unicode(name) => ReactionEmoji::Unicode(name.clone()),
            ReactionEmoji::Custom { name, id } => ReactionEmoji::Custom {
                name: name.clone(),
                id: *id,
            },
        }
    }

    open spec fn same_key(a: Self::V, b: Self::V) -> bool {
        a == b
    }

    fn same_entity(&self, other: &Self) -> (b: bool) {
        self.same(other)
    }

    open spec fn label(v: Self::V) -> Seq<char> {
        match v {
            ReactionEmojiView::Unicode(name) => name,
            ReactionEmojiView::Custom { name, .. } => name,
        }
    }

    fn label_text(&self) -> (res: String) {
        match self {
            ReactionEmoji::Unicode(name) => name.clone(),
            ReactionEmoji::Custom { name, .. } => name.clone(),
        }
    }
}

/// How often an emoji was given to a message as a reaction.
#[derive(Debug, PartialEq)]
pub struct MessageReaction {
    pub count: u64,
    pub me: bool,
    pub emoji: ReactionEmoji,
}

/// The view of `MessageReaction`: what it holds as mathematical values.
pub struct MessageReactionView {
    pub count: u64,
    pub me: bool,
    pub emoji: ReactionEmojiView,
}

impl View for MessageReaction {
    type V = MessageReactionView;

    open spec fn view(&self) -> MessageReactionView {
        MessageReactionView { count: self.count, me: self.me, emoji: self.emoji@ }
    }
}

impl Item for MessageReaction {
    fn same(&self, other: &Self) -> (b: bool) {
        self.count == other.count && self.me == other.me && self.emoji.same(&other.emoji)
    }

    fn duplicate(&self) -> (res: Self) {
        MessageReaction { count: self.count, me: self.me, emoji: self.emoji.duplicate() }
    }

    open spec fn same_key(a: Self::V, b: Self::V) -> bool {
        a == b
    }

    fn same_entity(&self, other: &Self) -> (b: bool) {
        self.same(other)
    }

    open spec fn label(v: Self::V) -> Seq<char> {
        ReactionEmoji::label(v.emoji)
    }

    fn label_text(&self) -> (res: String) {
        self.emoji.label_text()
    }
}

/// A reaction given to or taken from a message.
#[derive(Debug, PartialEq)]
pub struct Reaction {
    pub channel_id: u64,
    pub message_id: u64,
    pub user_id: u64,
    pub emoji: ReactionEmoji,
}

/// The view of `Reaction`: what it holds as mathematical values.
pub struct ReactionView {
    pub channel_id: u64,
    pub message_id: u64,
    pub user_id: u64,
    pub emoji: ReactionEmojiView,
}

impl View for Reaction {
    type V = ReactionView;

    open spec fn view(&self) -> ReactionView {
        ReactionView {
            channel_id: self.channel_id,
            message_id: self.message_id,
            user_id: self.user_id,
            emoji: self.emoji@,
        }
    }
}

/// A message of a text channel.
#[derive(Debug, PartialEq)]
pub struct Message {
    pub id: u64,
    pub channel_id: u64,
    pub content: String,
    pub nonce: Option<String>,
    pub tts: bool,
    pub timestamp: String,
    pub edited_timestamp: Option<String>,
    pub pinned: bool,
    pub kind: MessageType,
    pub author: User,
    pub mention_everyone: bool,
    pub mentions: Vec<User>,
    pub mention_roles: Vec<u64>,
    pub reactions: Vec<MessageReaction>,
    pub attachments: Vec<Attachment>,
    /// Each embed as its JSON text.
    pub embeds: Vec<String>,
}

/// The view of `Message`: what it holds as mathematical values.
pub struct MessageView {
    pub id: u64,
    pub channel_id: u64,
    pub content: Seq<char>,
    pub nonce: Option<Seq<char>>,
    pub tts: bool,
    pub timestamp: Seq<char>,
    pub edited_timestamp: Option<Seq<char>>,
    pub pinned: bool,
    pub kind: MessageType,
    pub author: UserView,
    pub mention_everyone: bool,
    pub mentions: Seq<UserView>,
    pub mention_roles: Seq<u64>,
    pub reactions: Seq<MessageReactionView>,
    pub attachments: Seq<AttachmentView>,
    pub embeds: Seq<Seq<char>>,
}

impl View for Message {
    type V = MessageView;

    open spec fn view(&self) -> MessageView {
        MessageView {
            id: self.id,
            channel_id: self.channel_id,
            content: self.content@,
            nonce: opt_view(self.nonce),
            tts: self.tts,
            timestamp: self.timestamp@,
            edited_timestamp: opt_view(self.edited_timestamp),
            pinned: self.pinned,
            kind: self.kind,
            author: self.author@,
            mention_everyone: self.mention_everyone,
            mentions: views(self.mentions@),
            mention_roles: views(self.mention_roles@),
            reactions: views(self.reactions@),
            attachments: views(self.attachments@),
            embeds: views(self.embeds@),
        }
    }
}

impl Item for Message {
    fn same(&self, other: &Self) -> (b: bool) {
        self.id == other.id && self.channel_id == other.channel_id && self.content == other.content
            && opt_same(&self.nonce, &other.nonce) && self.tts == other.tts && self.timestamp
            == other.timestamp && opt_same(&self.edited_timestamp, &other.edited_timestamp)
            && self.pinned == other.pinned && self.kind == other.kind && self.author.same(
            &other.author,
        ) && self.mention_everyone == other.mention_everyone && vec_same(
            &self.mentions,
            &other.mentions,
        ) && vec_same(&self.mention_roles, &other.mention_roles) && vec_same(
            &self.reactions,
            &other.reactions,
        ) && vec_same(&self.attachments, &other.attachments) && vec_same(
            &self.embeds,
            &other.embeds,
        )
    }

    fn duplicate(&self) -> (res: Self) {
        Message {
            id: self.id,
            channel_id: self.channel_id,
            content: self.content.clone(),
            nonce: opt_duplicate(&self.nonce),
            tts: self.tts,
            timestamp: self.timestamp.clone(),
            edited_timestamp: opt_duplicate(&self.edited_timestamp),
            pinned: self.pinned,
            kind: self.kind,
            author: self.author.duplicate(),
            mention_everyone: self.mention_everyone,
            mentions: vec_duplicate(&self.mentions),
            mention_roles: vec_duplicate(&self.mention_roles),
            reactions: vec_duplicate(&self.reactions),
            attachments: vec_duplicate(&self.attachments),
            embeds: vec_duplicate(&self.embeds),
        }
    }

    open spec fn same_key(a: Self::V, b: Self::V) -> bool {
        a.id == b.id
    }

    fn same_entity(&self, other: &Self) -> (b: bool) {
        self.id == other.id
    }

    open spec fn label(v: Self::V) -> Seq<char> {
        decimal(v.id as nat)
    }

    fn label_text(&self) -> (res: String) {
        u64_to_string(self.id)
    }
}

/// The view of an optional list of values.
pub open spec fn opt_views<T: View>(o: Option<Vec<T>>) -> Option<Seq<T::V>> {
    match o {
        Some(v) => Some(views(v@)),
        None => None,
    }
}

/// A change to a message. A field that is absent is unchanged.
#[derive(Debug, PartialEq)]
pub struct MessageUpdate {
    pub id: u64,
    pub channel_id: u64,
    pub kind: Option<MessageType>,
    pub content: Option<String>,
    pub nonce: Option<String>,
    pub tts: Option<bool>,
    pub pinned: Option<bool>,
    pub timestamp: Option<String>,
    pub edited_timestamp: Option<String>,
    pub author: Option<User>,
    pub mention_everyone: Option<bool>,
    pub mentions: Option<Vec<User>>,
    pub mention_roles: Option<Vec<u64>>,
    pub attachments: Option<Vec<Attachment>>,
    /// Each embed as its JSON text.
    pub embeds: Option<Vec<String>>,
}

/// The view of `MessageUpdate`: what it holds as mathematical values.
pub struct MessageUpdateView {
    pub id: u64,
    pub channel_id: u64,
    pub kind: Option<MessageType>,
    pub content: Option<Seq<char>>,
    pub nonce: Option<Seq<char>>,
    pub tts: Option<bool>,
    pub pinned: Option<bool>,
    pub timestamp: Option<Seq<char>>,
    pub edited_timestamp: Option<Seq<char>>,
    pub author: Option<UserView>,
    pub mention_everyone: Option<bool>,
    pub mentions: Option<Seq<UserView>>,
    pub mention_roles: Option<Seq<u64>>,
    pub attachments: Option<Seq<AttachmentView>>,
    pub embeds: Option<Seq<Seq<char>>>,
}

impl View for MessageUpdate {
    type V = MessageUpdateView;

    open spec fn view(&self) -> MessageUpdateView {
        MessageUpdateView {
            id: self.id,
            channel_id: self.channel_id,
            kind: self.kind,
            content: opt_view(self.content),
            nonce: opt_view(self.nonce),
            tts: self.tts,
            pinned: self.pinned,
            timestamp: opt_view(self.timestamp),
            edited_timestamp: opt_view(self.edited_timestamp),
            author: opt_view(self.author),
            mention_everyone: self.mention_everyone,
            mentions: opt_views(self.mentions),
            mention_roles: opt_views(self.mention_roles),
            attachments: opt_views(self.attachments),
            embeds: opt_views(self.embeds),
        }
    }
}

/// The deletion of one message.
#[derive(Copy, Clone, Debug, PartialEq, Eq, Structural)]
pub struct MessageDelete {
    pub channel_id: u64,
    pub message_id: u64,
}

/// The deletion of several messages of one channel.
#[derive(Debug, PartialEq)]
pub struct MessageDeleteBulk {
    pub channel_id: u64,
    pub ids: Vec<u64>,
}

/// A user as a member of a community.
#[derive(Debug, PartialEq)]
pub struct Member {
    pub user: User,
    pub roles: Vec<u64>,
    pub nick: Option<String>,
    pub joined_at: String,
    pub mute: bool,
    pub deaf: bool,
}

/// The view of `Member`: what it holds as mathematical values.
pub struct MemberView {
    pub user: UserView,
    pub roles: Seq<u64>,
    pub nick: Option<Seq<char>>,
    pub joined_at: Seq<char>,
    pub mute: bool,
    pub deaf: bool,
}

impl View for Member {
    type V = MemberView;

    open spec fn view(&self) -> MemberView {
        MemberView {
            user: self.user@,
            roles: views(self.roles@),
            nick: opt_view(self.nick),
            joined_at: self.joined_at@,
            mute: self.mute,
            deaf: self.deaf,
        }
    }
}

impl Item for Member {
    fn same(&self, other: &Self) -> (b: bool) {
        self.user.same(&other.user) && vec_same(&self.roles, &other.roles) && opt_same(
            &self.nick,
            &other.nick,
        ) && self.joined_at == other.joined_at && self.mute == other.mute && self.deaf
            == other.deaf
    }

    fn duplicate(&self) -> (res: Self) {
        Member {
            user: self.user.duplicate(),
            roles: vec_duplicate(&self.roles),
            nick: opt_duplicate(&self.nick),
            joined_at: self.joined_at.clone(),
            mute: self.mute,
            deaf: self.deaf,
        }
    }

    open spec fn same_key(a: Self::V, b: Self::V) -> bool {
        a.user.id == b.user.id
    }

    fn same_entity(&self, other: &Self) -> (b: bool) {
        self.user.id == other.user.id
    }

    open spec fn label(v: Self::V) -> Seq<char> {
        decimal(v.user.id as nat)
    }

    fn label_text(&self) -> (res: String) {
        u64_to_string(self.user.id)
    }
}

/// A change to a member: the roles and the nickname that the member has now.
#[derive(Debug, PartialEq)]
pub struct ServerMemberUpdate {
    pub server_id: u64,
    pub roles: Vec<u64>,
    pub user: User,
    pub nick: Option<String>,
}

/// The view of `ServerMemberUpdate`: what it holds as mathematical values.
pub struct ServerMemberUpdateView {
    pub server_id: u64,
    pub roles: Seq<u64>,
    pub user: UserView,
    pub nick: Option<Seq<char>>,
}

impl View for ServerMemberUpdate {
    type V = ServerMemberUpdateView;

    open spec fn view(&self) -> ServerMemberUpdateView {
        ServerMemberUpdateView {
            server_id: self.server_id,
            roles: views(self.roles@),
            user: self.user@,
            nick: opt_view(self.nick),
        }
    }
}

/// A custom emoji of a community.
#[derive(Debug, PartialEq)]
pub struct Emoji {
    pub id: u64,
    pub name: String,
    pub managed: bool,
    pub require_colons: bool,
    pub roles: Vec<u64>,
}

/// The view of `Emoji`: what it holds as mathematical values.
pub struct EmojiView {
    pub id: u64,
    pub name: Seq<char>,
    pub managed: bool,
    pub require_colons: bool,
    pub roles: Seq<u64>,
}

impl View for Emoji {
    type V = EmojiView;

    open spec fn view(&self) -> EmojiView {
        EmojiView {
            id: self.id,
            name: self.name@,
            managed: self.managed,
            require_colons: self.require_colons,
            roles: views(self.roles@),
        }
    }
}

impl Item for Emoji {
    fn same(&self, other: &Self) -> (b: bool) {
        self.id == other.id && self.name == other.name && self.managed == other.managed
            && self.require_colons == other.require_colons && vec_same(&self.roles, &other.roles)
    }

    fn duplicate(&self) -> (res: Self) {
        Emoji {
            id: self.id,
            name: self.name.clone(),
            managed: self.managed,
            require_colons: self.require_colons,
            roles: vec_duplicate(&self.roles),
        }
    }

    open spec fn same_key(a: Self::V, b: Self::V) -> bool {
        a.id == b.id
    }

    fn same_entity(&self, other: &Self) -> (b: bool) {
        self.id == other.id
    }

    open spec fn label(v: Self::V) -> Seq<char> {
        v.name
    }

    fn label_text(&self) -> (res: String) {
        self.name.clone()
    }
}

/// A set of permissions, one bit for each.
#[derive(Copy, Clone, Debug, PartialEq, Eq, Structural)]
pub struct Permissions {
    pub bits: u64,
}

impl Permissions {
    /// Whether the set holds every bit of `flag`.
    pub open spec fn has(self, flag: u64) -> bool {
        self.bits & flag == flag
    }

    /// Whether the set holds every bit of `flag`.
    pub fn contains(self, flag: u64) -> (res: bool)
        ensures
            res == self.has(flag),
    {
        self.bits & flag == flag
    }
}

/// A role of a community.
#[derive(Debug, PartialEq)]
pub struct Role {
    pub id: u64,
    pub name: String,
    pub color: u64,
    pub hoist: bool,
    pub managed: bool,
    pub position: i64,
    pub mentionable: bool,
    pub permissions: Permissions,
}

/// The view of `Role`: what it holds as mathematical values.
pub struct RoleView {
    pub id: u64,
    pub name: Seq<char>,
    pub color: u64,
    pub hoist: bool,
    pub managed: bool,
    pub position: i64,
    pub mentionable: bool,
    pub permissions: Permissions,
}

impl View for Role {
    type V = RoleView;

    open spec fn view(&self) -> RoleView {
        RoleView {
            id: self.id,
            name: self.name@,
            color: self.color,
            hoist: self.hoist,
            managed: self.managed,
            position: self.position,
            mentionable: self.mentionable,
            permissions: self.permissions,
        }
    }
}

impl Item for Role {
    fn same(&self, other: &Self) -> (b: bool) {
        self.id == other.id && self.name == other.name && self.color == other.color && self.hoist
            == other.hoist && self.managed == other.managed && self.position == other.position
            && self.mentionable == other.mentionable && self.permissions == other.permissions
    }

    fn duplicate(&self) -> (res: Self) {
        Role {
            id: self.id,
            name: self.name.clone(),
            color: self.color,
            hoist: self.hoist,
            managed: self.managed,
            position: self.position,
            mentionable: self.mentionable,
            permissions: self.permissions,
        }
    }

    open spec fn same_key(a: Self::V, b: Self::V) -> bool {
        a.id == b.id
    }

    fn same_entity(&self, other: &Self) -> (b: bool) {
        self.id == other.id
    }

    open spec fn label(v: Self::V) -> Seq<char> {
        v.name
    }

    fn label_text(&self) -> (res: String) {
        self.name.clone()
    }
}

/// Whom a permission overwrite is for.
#[derive(Copy, Clone, Debug, PartialEq, Eq, Structural)]
pub enum PermissionOverwriteType {
    Member(u64),
    Role(u64),
}

impl View for PermissionOverwriteType {
    type V = PermissionOverwriteType;

    open spec fn view(&self) -> PermissionOverwriteType {
        *self
    }
}

impl Item for PermissionOverwriteType {
    fn same(&self, other: &Self) -> (b: bool) {
        *self == *other
    }

    fn duplicate(&self) -> (res: Self) {
        *self
    }

    open spec fn same_key(a: Self::V, b: Self::V) -> bool {
        a == b
    }

    fn same_entity(&self, other: &Self) -> (b: bool) {
        *self == *other
    }

    open spec fn label(v: Self::V) -> Seq<char> {
        match v {
            PermissionOverwriteType::Member(id) => decimal(id as nat),
            PermissionOverwriteType::Role(id) => decimal(id as nat),
        }
    }

    fn label_text(&self) -> (res: String) {
        match self {
            PermissionOverwriteType::Member(id) => u64_to_string(*id),
            PermissionOverwriteType::Role(id) => u64_to_string(*id),
        }
    }
}

/// The permissions that a channel grants to or takes from one member or role.
#[derive(Copy, Clone, Debug, PartialEq, Eq, Structural)]
pub struct PermissionOverwrite {
    pub kind: PermissionOverwriteType,
    pub allow: Permissions,
    pub deny: Permissions,
}

impl View for PermissionOverwrite {
    type V = PermissionOverwrite;

    open spec fn view(&self) -> PermissionOverwrite {
        *self
    }
}

impl Item for PermissionOverwrite {
    fn same(&self, other: &Self) -> (b: bool) {
        *self == *other
    }

    fn duplicate(&self) -> (res: Self) {
        *self
    }

    open spec fn same_key(a: Self::V, b: Self::V) -> bool {
        a.kind == b.kind
    }

    fn same_entity(&self, other: &Self) -> (b: bool) {
        self.kind == other.kind
    }

    open spec fn label(v: Self::V) -> Seq<char> {
        PermissionOverwriteType::label(v.kind)
    }

    fn label_text(&self) -> (res: String) {
        self.kind.label_text()
    }
}

/// A text or voice channel of a community.
#[derive(Debug, PartialEq)]
pub struct PublicChannel {
    pub id: u64,
    pub name: String,
    pub server_id: u64,
    pub kind: ChannelType,
    pub permission_overwrites: Vec<PermissionOverwrite>,
    pub topic: Option<String>,
    pub position: i64,
    pub last_message_id: Option<u64>,
    pub bitrate: Option<u64>,
    pub user_limit: Option<u64>,
    pub last_pin_timestamp: Option<String>,
}

/// The view of `PublicChannel`: what it holds as mathematical values.
pub struct PublicChannelView {
    pub id: u64,
    pub name: Seq<char>,
    pub server_id: u64,
    pub kind: ChannelType,
    pub permission_overwrites: Seq<PermissionOverwrite>,
    pub topic: Option<Seq<char>>,
    pub position: i64,
    pub last_message_id: Option<u64>,
    pub bitrate: Option<u64>,
    pub user_limit: Option<u64>,
    pub last_pin_timestamp: Option<Seq<char>>,
}

impl View for PublicChannel {
    type V = PublicChannelView;

    open spec fn view(&self) -> PublicChannelView {
        PublicChannelView {
            id: self.id,
            name: self.name@,
            server_id: self.server_id,
            kind: self.kind,
            permission_overwrites: self.permission_overwrites@,
            topic: opt_view(self.topic),
            position: self.position,
            last_message_id: self.last_message_id,
            bitrate: self.bitrate,
            user_limit: self.user_limit,
            last_pin_timestamp: opt_view(self.last_pin_timestamp),
        }
    }
}

impl Item for PublicChannel {
    fn same(&self, other: &Self) -> (b: bool) {
        let same_overwrites = vec_same(&self.permission_overwrites, &other.permission_overwrites);
        assert(views(self.permission_overwrites@) =~= self.permission_overwrites@);
        assert(views(other.permission_overwrites@) =~= other.permission_overwrites@);
        self.id == other.id && self.name == other.name && self.server_id == other.server_id
            && self.kind == other.kind && same_overwrites && opt_same(&self.topic, &other.topic)
            && self.position == other.position && opt_same(
            &self.last_message_id,
            &other.last_message_id,
        ) && opt_same(&self.bitrate, &other.bitrate) && opt_same(
            &self.user_limit,
            &other.user_limit,
        ) && opt_same(&self.last_pin_timestamp, &other.last_pin_timestamp)
    }

    fn duplicate(&self) -> (res: Self) {
        let overwrites = vec_duplicate(&self.permission_overwrites);
        assert(views(self.permission_overwrites@) =~= self.permission_overwrites@);
        assert(views(overwrites@) =~= overwrites@);
        PublicChannel {
            id: self.id,
            name: self.name.clone(),
            server_id: self.server_id,
            kind: self.kind,
            permission_overwrites: overwrites,
            topic: opt_duplicate(&self.topic),
            position: self.position,
            last_message_id: self.last_message_id,
            bitrate: self.bitrate,
            user_limit: self.user_limit,
            last_pin_timestamp: opt_duplicate(&self.last_pin_timestamp),
        }
    }

    open spec fn same_key(a: Self::V, b: Self::V) -> bool {
        a.id == b.id
    }

    fn same_entity(&self, other: &Self) -> (b: bool) {
        self.id == other.id
    }

    open spec fn label(v: Self::V) -> Seq<char> {
        v.name
    }

    fn label_text(&self) -> (res: String) {
        self.name.clone()
    }
}

/// An entity that is known by a numeric id.
pub trait Entity: Item {
    /// The id of the entity.
    spec fn key(v: Self::V) -> u64;

    /// The id of the entity.
    fn id(&self) -> (res: u64)
        ensures
            res == Self::key(self@),
    ;
}

impl Entity for Role {
    open spec fn key(v: RoleView) -> u64 {
        v.id
    }

    fn id(&self) -> (res: u64) {
        self.id
    }
}

impl Entity for Member {
    open spec fn key(v: MemberView) -> u64 {
        v.user.id
    }

    fn id(&self) -> (res: u64) {
        self.user.id
    }
}

impl Entity for PublicChannel {
    open spec fn key(v: PublicChannelView) -> u64 {
        v.id
    }

    fn id(&self) -> (res: u64) {
        self.id
    }
}

impl Entity for Emoji {
    open spec fn key(v: EmojiView) -> u64 {
        v.id
    }

    fn id(&self) -> (res: u64) {
        self.id
    }
}

impl Entity for Message {
    open spec fn key(v: MessageView) -> u64 {
        v.id
    }

    fn id(&self) -> (res: u64) {
        self.id
    }
}

/// A channel of any kind. Only a channel of a community is mirrored; of the
/// others the id is kept.
#[derive(Debug, PartialEq)]
pub enum Channel {
    Group(u64),
    Private(u64),
    Public(PublicChannel),
}

/// How much a community asks of a new member.
#[derive(Copy, Clone, Debug, PartialEq, Eq, Structural)]
pub enum VerificationLevel {
    Unrestricted,
    Low,
    Medium,
    High,
}

/// The full state of a community, as it is when the bot learns of it.
#[derive(Debug, PartialEq)]
pub struct LiveServer {
    pub id: u64,
    pub name: String,
    pub owner_id: u64,
    pub roles: Vec<Role>,
    pub region: String,
    pub members: Vec<Member>,
    pub icon: Option<String>,
    pub channels: Vec<PublicChannel>,
    pub afk_timeout: u64,
    pub afk_channel_id: Option<u64>,
    pub verification_level: VerificationLevel,
    pub emojis: Vec<Emoji>,
}

/// A community that the bot is part of: in full if it can be reached, else
/// by its id.
#[derive(Debug, PartialEq)]
pub enum PossibleServer {
    Offline(u64),
    Online(LiveServer),
}

/// One change notification.
#[derive(Debug, PartialEq)]
pub enum Event {
    MessageCreate(Message),
    MessageUpdate(MessageUpdate),
    MessageDelete(MessageDelete),
    MessageDeleteBulk(MessageDeleteBulk),
    ServerCreate(PossibleServer),
    ServerMemberAdd(u64, Member),
    ServerMemberUpdate(ServerMemberUpdate),
    ServerMemberRemove(u64, User),
    ServerRoleCreate(u64, Role),
    ServerRoleUpdate(u64, Role),
    ServerRoleDelete(u64, u64),
    ServerBanAdd(u64, User),
    ServerBanRemove(u64, User),
    ServerEmojisUpdate(u64, Vec<Emoji>),
    ChannelCreate(Channel),
    ChannelUpdate(Channel),
    ChannelDelete(Channel),
    /// The pins of the channel of this id were acknowledged.
    ChannelPinsAck(u64),
    /// The pins of the channel of this id changed.
    ChannelPinsUpdate(u64),
    ReactionAdd(Reaction),
    ReactionRemove(Reaction),
    /// Any other event; it changes nothing and is not reported.
    Other,
}

} // verus!
