//! Channel permissions as named flags, and the three-state reconciliation of
//! two permission overwrites.

use crate::items::{lemma_add_no_duplicates, lemma_pick, lemma_pick_no_duplicates, pick};
use crate::model::Permissions;
use std::ops::Deref;
use vstd::prelude::*;

verus! {

/// What an overwrite says of one permission. `Default` means that no explicit
/// overwrite exists.
#[derive(Debug, Copy, Clone, Hash, PartialEq, Eq, Structural)]
pub enum PermissionType {
    Allow,
    Default,
    Deny,
}

/// The permissions that a channel overwrite can grant or take.
#[derive(Debug, Copy, Clone, Hash, PartialEq, Eq, Structural)]
pub enum ChannelPermission {
    CreateInvite,
    ManageChannel,
    ManagePermissions,
    ManageWebhooks,
    ReadMessages,
    SendMessages,
    SendTtsMessages,
    ManageMessages,
    EmbedLinks,
    AttachFiles,
    ReadMessageHistory,
    MentionEveryone,
    UseExternealEmojis,
    AddReactions,
}

/// The bit of the permission to create invites.
pub const CREATE_INVITE: u64 = 0x0000_0001;

/// The bit of the permission to kick members.
pub const KICK_MEMBERS: u64 = 0x0000_0002;

/// The bit of the permission to ban members.
pub const BAN_MEMBERS: u64 = 0x0000_0004;

/// The bit of the permission to do everything.
pub const ADMINISTRATOR: u64 = 0x0000_0008;

/// The bit of the permission to manage channels.
pub const MANAGE_CHANNELS: u64 = 0x0000_0010;

/// The bit of the permission to manage the community.
pub const MANAGE_SERVER: u64 = 0x0000_0020;

/// The bit of the permission to give reactions.
pub const ADD_REACTIONS: u64 = 0x0000_0040;

/// The bit of the permission to read messages.
pub const READ_MESSAGES: u64 = 0x0000_0400;

/// The bit of the permission to send messages.
pub const SEND_MESSAGES: u64 = 0x0000_0800;

/// The bit of the permission to send messages that are read aloud.
pub const SEND_TTS_MESSAGES: u64 = 0x0000_1000;

/// The bit of the permission to manage the messages of others.
pub const MANAGE_MESSAGES: u64 = 0x0000_2000;

/// The bit of the permission to embed links.
pub const EMBED_LINKS: u64 = 0x0000_4000;

/// The bit of the permission to attach files.
pub const ATTACH_FILES: u64 = 0x0000_8000;

/// The bit of the permission to read earlier messages.
pub const READ_HISTORY: u64 = 0x0001_0000;

/// The bit of the permission to mention everyone.
pub const MENTION_EVERYONE: u64 = 0x0002_0000;

/// The bit of the permission to use the emojis of other communities.
pub const EXTERNAL_EMOJIS: u64 = 0x0004_0000;

/// The bit of the permission to join a voice channel.
pub const VOICE_CONNECT: u64 = 0x0010_0000;

/// The bit of the permission to speak in a voice channel.
pub const VOICE_SPEAK: u64 = 0x0020_0000;

/// The bit of the permission to mute members.
pub const VOICE_MUTE_MEMBERS: u64 = 0x0040_0000;

/// The bit of the permission to deafen members.
pub const VOICE_DEAFEN_MEMBERS: u64 = 0x0080_0000;

/// The bit of the permission to move members between voice channels.
pub const VOICE_MOVE_MEMBERS: u64 = 0x0100_0000;

/// The bit of the permission to speak without pushing a key.
pub const VOICE_USE_VAD: u64 = 0x0200_0000;

/// The bit of the permission to change one's own nickname.
pub const CHANGE_NICKNAMES: u64 = 0x0400_0000;

/// The bit of the permission to change the nicknames of others.
pub const MANAGE_NICKNAMES: u64 = 0x0800_0000;

/// The bit of the permission to manage roles and permissions.
pub const MANAGE_ROLES: u64 = 0x1000_0000;

/// The bit of the permission to manage webhooks.
pub const MANAGE_WEBHOOKS: u64 = 0x2000_0000;

/// The bit of the permission to manage emojis.
pub const MANAGE_EMOJIS: u64 = 0x4000_0000;

impl ChannelPermission {
    /// The bit that stands for the permission in a permission set.
    pub open spec fn flag(self) -> u64 {
        match self {
            ChannelPermission::CreateInvite => CREATE_INVITE,
            ChannelPermission::ManageChannel => MANAGE_CHANNELS,
            ChannelPermission::ManagePermissions => MANAGE_ROLES,
            ChannelPermission::ManageWebhooks => MANAGE_WEBHOOKS,
            ChannelPermission::ReadMessages => READ_MESSAGES,
            ChannelPermission::SendMessages => SEND_MESSAGES,
            ChannelPermission::SendTtsMessages => SEND_TTS_MESSAGES,
            ChannelPermission::ManageMessages => MANAGE_MESSAGES,
            ChannelPermission::EmbedLinks => EMBED_LINKS,
            ChannelPermission::AttachFiles => ATTACH_FILES,
            ChannelPermission::ReadMessageHistory => READ_HISTORY,
            ChannelPermission::MentionEveryone => MENTION_EVERYONE,
            ChannelPermission::UseExternealEmojis => EXTERNAL_EMOJIS,
            ChannelPermission::AddReactions => ADD_REACTIONS,
        }
    }

    /// The bit that stands for the permission in a permission set.
    pub fn bit(self) -> (res: u64)
        ensures
            res == self.flag(),
    {
        match self {
            ChannelPermission::CreateInvite => CREATE_INVITE,
            ChannelPermission::ManageChannel => MANAGE_CHANNELS,
            ChannelPermission::ManagePermissions => MANAGE_ROLES,
            ChannelPermission::ManageWebhooks => MANAGE_WEBHOOKS,
            ChannelPermission::ReadMessages => READ_MESSAGES,
            ChannelPermission::SendMessages => SEND_MESSAGES,
            ChannelPermission::SendTtsMessages => SEND_TTS_MESSAGES,
            ChannelPermission::ManageMessages => MANAGE_MESSAGES,
            ChannelPermission::EmbedLinks => EMBED_LINKS,
            ChannelPermission::AttachFiles => ATTACH_FILES,
            ChannelPermission::ReadMessageHistory => READ_HISTORY,
            ChannelPermission::MentionEveryone => MENTION_EVERYONE,
            ChannelPermission::UseExternealEmojis => EXTERNAL_EMOJIS,
            ChannelPermission::AddReactions => ADD_REACTIONS,
        }
    }

    /// Whether the permission set holds the permission.
    pub open spec fn granted_by(self, set: Permissions) -> bool {
        set.has(self.flag())
    }

    /// Whether the permission set holds the permission.
    pub fn is_in(self, set: Permissions) -> (res: bool)
        ensures
            res == self.granted_by(set),
    {
        set.contains(self.bit())
    }

    /// All channel permissions, in the order in which they are reported.
    pub open spec fn all() -> Seq<ChannelPermission> {
        seq![
            ChannelPermission::CreateInvite,
            ChannelPermission::ManageChannel,
            ChannelPermission::ManagePermissions,
            ChannelPermission::ManageWebhooks,
            ChannelPermission::ReadMessages,
            ChannelPermission::SendMessages,
            ChannelPermission::SendTtsMessages,
            ChannelPermission::ManageMessages,
            ChannelPermission::EmbedLinks,
            ChannelPermission::AttachFiles,
            ChannelPermission::ReadMessageHistory,
            ChannelPermission::MentionEveryone,
            ChannelPermission::UseExternealEmojis,
            ChannelPermission::AddReactions,
        ]
    }

    /// All channel permissions, in the order in which they are reported.
    pub fn list() -> (res: Vec<ChannelPermission>)
        ensures
            res@ == Self::all(),
    {
        let mut res: Vec<ChannelPermission> = Vec::new();
        res.push(ChannelPermission::CreateInvite);
        res.push(ChannelPermission::ManageChannel);
        res.push(ChannelPermission::ManagePermissions);
        res.push(ChannelPermission::ManageWebhooks);
        res.push(ChannelPermission::ReadMessages);
        res.push(ChannelPermission::SendMessages);
        res.push(ChannelPermission::SendTtsMessages);
        res.push(ChannelPermission::ManageMessages);
        res.push(ChannelPermission::EmbedLinks);
        res.push(ChannelPermission::AttachFiles);
        res.push(ChannelPermission::ReadMessageHistory);
        res.push(ChannelPermission::MentionEveryone);
        res.push(ChannelPermission::UseExternealEmojis);
        res.push(ChannelPermission::AddReactions);
        assert(res@ =~= Self::all());
        res
    }
}

/// Every channel permission occurs in `ChannelPermission::all()`, once.
pub proof fn lemma_all_permissions()
    ensures
        forall|p: ChannelPermission| #[trigger] ChannelPermission::all().contains(p),
        ChannelPermission::all().no_duplicates(),
{
    let all = ChannelPermission::all();
    assert forall|p: ChannelPermission| #[trigger] all.contains(p) by {
        match p {
            ChannelPermission::CreateInvite => assert(all[0] == p),
            ChannelPermission::ManageChannel => assert(all[1] == p),
            ChannelPermission::ManagePermissions => assert(all[2] == p),
            ChannelPermission::ManageWebhooks => assert(all[3] == p),
            ChannelPermission::ReadMessages => assert(all[4] == p),
            ChannelPermission::SendMessages => assert(all[5] == p),
            ChannelPermission::SendTtsMessages => assert(all[6] == p),
            ChannelPermission::ManageMessages => assert(all[7] == p),
            ChannelPermission::EmbedLinks => assert(all[8] == p),
            ChannelPermission::AttachFiles => assert(all[9] == p),
            ChannelPermission::ReadMessageHistory => assert(all[10] == p),
            ChannelPermission::MentionEveryone => assert(all[11] == p),
            ChannelPermission::UseExternealEmojis => assert(all[12] == p),
            ChannelPermission::AddReactions => assert(all[13] == p),
        }
    }
}

/// A list that can be made from a set of permissions.
pub struct MyVec<T>(pub Vec<T>);

impl<T> View for MyVec<T> {
    type V = Seq<T>;

    open spec fn view(&self) -> Seq<T> {
        self.0@
    }
}

/// The channel permissions that the permission set holds, in the order of
/// `ChannelPermission::all()`.
pub open spec fn permissions_in(bits: Permissions) -> Seq<ChannelPermission> {
    pick(
        ChannelPermission::all(),
        |p: ChannelPermission|
            if p.granted_by(bits) {
                Some(p)
            } else {
                None
            },
    )
}

impl<T> From<Vec<T>> for MyVec<T> {
    fn from(other: Vec<T>) -> (res: Self) {
        MyVec(other)
    }
}

impl<T> vstd::std_specs::convert::FromSpecImpl<Vec<T>> for MyVec<T> {
    open spec fn obeys_from_spec() -> bool {
        true
    }

    open spec fn from_spec(other: Vec<T>) -> Self {
        MyVec(other)
    }
}

impl From<Permissions> for MyVec<ChannelPermission> {
    /// The channel permissions that the permission set holds.
    fn from(perm: Permissions) -> (res: Self)
        ensures
            res@ == permissions_in(perm),
    {
        let all = ChannelPermission::list();
        let mut res: Vec<ChannelPermission> = Vec::new();
        let ghost rule = |p: ChannelPermission|
            if p.granted_by(perm) {
                Some(p)
            } else {
                None
            };
        let mut i: usize = 0;
        assert(all@.take(0) =~= Seq::empty());
        while i < all.len()
            invariant
                i <= all.len(),
                all@ == ChannelPermission::all(),
                rule == |p: ChannelPermission|
                    if p.granted_by(perm) {
                        Some(p)
                    } else {
                        None
                    },
                res@ == pick(all@.take(i as int), rule),
            decreases all.len() - i,
        {
            let p = all[i];
            proof {
                assert(all@.take(i as int + 1).drop_last() =~= all@.take(i as int));
                assert(all@.take(i as int + 1).last() == p);
            }
            if p.is_in(perm) {
                res.push(p);
            }
            i += 1;
        }
        assert(all@.take(all.len() as int) =~= all@);
        proof {
            assert(res@ == permissions_in(perm));
        }
        MyVec(res)
    }
}

impl vstd::std_specs::convert::FromSpecImpl<Permissions> for MyVec<ChannelPermission> {
    /// A list is known by its view alone, so the conversion is stated on
    /// `from` itself, over `permissions_in`.
    open spec fn obeys_from_spec() -> bool {
        false
    }

    open spec fn from_spec(perm: Permissions) -> Self {
        arbitrary()
    }
}

impl<T> Deref for MyVec<T> {
    type Target = Vec<T>;

    fn deref(&self) -> (res: &Vec<T>)
        ensures
            res@ == self@,
    {
        &self.0
    }
}

/// One permission's change of state.
#[derive(Debug, Copy, Clone, PartialEq, Eq, Structural)]
pub struct Transition {
    pub permission: ChannelPermission,
    pub from: PermissionType,
    pub to: PermissionType,
}

/// The four ways in which the state of a permission can change.
#[derive(Debug, Copy, Clone, PartialEq, Eq, Structural)]
pub enum Change {
    /// Allowed before, no longer allowed.
    LostAllow,
    /// Denied before, no longer denied.
    LostDeny,
    /// Allowed now, neither allowed nor denied before.
    GainedAllow,
    /// Denied now, neither denied nor allowed before.
    GainedDeny,
}

/// What an overwrite with the sets `allow` and `deny` says of a permission.
pub open spec fn state_of(allow: Permissions, deny: Permissions, p: ChannelPermission) -> PermissionType {
    if p.granted_by(allow) {
        PermissionType::Allow
    } else if p.granted_by(deny) {
        PermissionType::Deny
    } else {
        PermissionType::Default
    }
}

/// The record of the permission `p` for a change of the kind `change`, if
/// the permission changed in that way.
pub open spec fn transition(
    change: Change,
    old_allow: Permissions,
    old_deny: Permissions,
    new_allow: Permissions,
    new_deny: Permissions,
    p: ChannelPermission,
) -> Option<Transition> {
    match change {
        Change::LostAllow => if p.granted_by(old_allow) && !p.granted_by(new_allow) {
            Some(
                Transition {
                    permission: p,
                    from: PermissionType::Allow,
                    to: if p.granted_by(new_deny) {
                        PermissionType::Deny
                    } else {
                        PermissionType::Default
                    },
                },
            )
        } else {
            None
        },
        Change::LostDeny => if p.granted_by(old_deny) && !p.granted_by(new_deny) {
            Some(
                Transition {
                    permission: p,
                    from: PermissionType::Deny,
                    to: if p.granted_by(new_allow) {
                        PermissionType::Allow
                    } else {
                        PermissionType::Default
                    },
                },
            )
        } else {
            None
        },
        Change::GainedAllow => if p.granted_by(new_allow) && !p.granted_by(old_allow)
            && !p.granted_by(old_deny) {
            Some(
                Transition {
                    permission: p,
                    from: PermissionType::Default,
                    to: PermissionType::Allow,
                },
            )
        } else {
            None
        },
        Change::GainedDeny => if p.granted_by(new_deny) && !p.granted_by(old_deny)
            && !p.granted_by(old_allow) {
            Some(
                Transition { permission: p, from: PermissionType::Default, to: PermissionType::Deny },
            )
        } else {
            None
        },
    }
}

/// The records of one kind of change, in the order of the permissions.
pub open spec fn group(
    change: Change,
    old_allow: Permissions,
    old_deny: Permissions,
    new_allow: Permissions,
    new_deny: Permissions,
) -> Seq<Transition> {
    pick(
        ChannelPermission::all(),
        |p: ChannelPermission| transition(change, old_allow, old_deny, new_allow, new_deny, p),
    )
}

/// The records that reconcile an overwrite with the sets `old_allow` and
/// `old_deny` with one with the sets `new_allow` and `new_deny`. A subject
/// without an overwrite has two empty sets.
pub open spec fn transitions(old_allow: Permissions, old_deny: Permissions, new_allow: Permissions, new_deny: Permissions) -> Seq<
    Transition,
> {
    group(Change::LostAllow, old_allow, old_deny, new_allow, new_deny) + group(
        Change::LostDeny,
        old_allow,
        old_deny,
        new_allow,
        new_deny,
    ) + group(Change::GainedAllow, old_allow, old_deny, new_allow, new_deny) + group(
        Change::GainedDeny,
        old_allow,
        old_deny,
        new_allow,
        new_deny,
    )
}

/// The record of the permission `p` for a change of the kind `change`, if
/// the permission changed in that way.
pub fn transition_of(
    change: Change,
    old_allow: Permissions,
    old_deny: Permissions,
    new_allow: Permissions,
    new_deny: Permissions,
    p: ChannelPermission,
) -> (res: Option<Transition>)
    ensures
        res == transition(change, old_allow, old_deny, new_allow, new_deny, p),
{
    match change {
        Change::LostAllow => {
            if p.is_in(old_allow) && !p.is_in(new_allow) {
                let to = if p.is_in(new_deny) {
                    PermissionType::Deny
                } else {
                    PermissionType::Default
                };
                Some(Transition { permission: p, from: PermissionType::Allow, to })
            } else {
                None
            }
        },
        Change::LostDeny => {
            if p.is_in(old_deny) && !p.is_in(new_deny) {
                let to = if p.is_in(new_allow) {
                    PermissionType::Allow
                } else {
                    PermissionType::Default
                };
                Some(Transition { permission: p, from: PermissionType::Deny, to })
            } else {
                None
            }
        },
        Change::GainedAllow => {
            if p.is_in(new_allow) && !p.is_in(old_allow) && !p.is_in(old_deny) {
                Some(
                    Transition {
                        permission: p,
                        from: PermissionType::Default,
                        to: PermissionType::Allow,
                    },
                )
            } else {
                None
            }
        },
        Change::GainedDeny => {
            if p.is_in(new_deny) && !p.is_in(old_deny) && !p.is_in(old_allow) {
                Some(
                    Transition {
                        permission: p,
                        from: PermissionType::Default,
                        to: PermissionType::Deny,
                    },
                )
            } else {
                None
            }
        },
    }
}

/// Appends the records of one kind of change to `out`.
pub fn append_group(
    change: Change,
    old_allow: Permissions,
    old_deny: Permissions,
    new_allow: Permissions,
    new_deny: Permissions,
    out: &mut Vec<Transition>,
)
    ensures
        final(out)@ == old(out)@ + group(change, old_allow, old_deny, new_allow, new_deny),
{
    let all = ChannelPermission::list();
    let ghost rule = |p: ChannelPermission|
        transition(change, old_allow, old_deny, new_allow, new_deny, p);
    let ghost start = out@;
    let mut i: usize = 0;
    assert(all@.take(0) =~= Seq::empty());
    assert(out@ =~= start + pick(all@.take(0), rule));
    while i < all.len()
        invariant
            i <= all.len(),
            all@ == ChannelPermission::all(),
            rule == |p: ChannelPermission|
                transition(change, old_allow, old_deny, new_allow, new_deny, p),
            out@ == start + pick(all@.take(i as int), rule),
        decreases all.len() - i,
    {
        let p = all[i];
        proof {
            assert(all@.take(i as int + 1).drop_last() =~= all@.take(i as int));
            assert(all@.take(i as int + 1).last() == p);
        }
        let ghost before = out@;
        match transition_of(change, old_allow, old_deny, new_allow, new_deny, p) {
            Some(t) => {
                out.push(t);
                assert(out@ =~= start + pick(all@.take(i as int + 1), rule));
            },
            None => {},
        }
        i += 1;
    }
    assert(all@.take(all.len() as int) =~= all@);
}

/// The records that reconcile two overwrites: see `transitions`.
pub fn reconcile(old_allow: Permissions, old_deny: Permissions, new_allow: Permissions, new_deny: Permissions) -> (res: Vec<
    Transition,
>)
    ensures
        res@ == transitions(old_allow, old_deny, new_allow, new_deny),
{
    let mut res: Vec<Transition> = Vec::new();
    append_group(Change::LostAllow, old_allow, old_deny, new_allow, new_deny, &mut res);
    append_group(Change::LostDeny, old_allow, old_deny, new_allow, new_deny, &mut res);
    append_group(Change::GainedAllow, old_allow, old_deny, new_allow, new_deny, &mut res);
    append_group(Change::GainedDeny, old_allow, old_deny, new_allow, new_deny, &mut res);
    assert(res@ =~= transitions(old_allow, old_deny, new_allow, new_deny));
    res
}

/// The records of one kind of change are those that the rule gives for a
/// permission, each once.
pub proof fn lemma_group(
    change: Change,
    old_allow: Permissions,
    old_deny: Permissions,
    new_allow: Permissions,
    new_deny: Permissions,
)
    ensures
        forall|t: Transition|
            #[trigger] group(change, old_allow, old_deny, new_allow, new_deny).contains(t)
                <==> transition(change, old_allow, old_deny, new_allow, new_deny, t.permission)
                == Some(t),
        group(change, old_allow, old_deny, new_allow, new_deny).no_duplicates(),
{
    let all = ChannelPermission::all();
    let rule = |p: ChannelPermission|
        transition(change, old_allow, old_deny, new_allow, new_deny, p);
    let g = pick(all, rule);
    lemma_all_permissions();
    lemma_pick(all, rule);
    assert forall|i: int, j: int|
        0 <= i < all.len() && 0 <= j < all.len() && i != j && rule(#[trigger] all[i]) is Some implies rule(
        all[i],
    ) != rule(#[trigger] all[j]) by {
        assert(rule(all[i])->0.permission == all[i]);
        if rule(all[j]) is Some {
            assert(rule(all[j])->0.permission == all[j]);
        }
    }
    lemma_pick_no_duplicates(all, rule);
    assert forall|t: Transition| #[trigger] g.contains(t) <==> rule(t.permission) == Some(t) by {
        if g.contains(t) {
            let i = choose|i: int| 0 <= i < all.len() && rule(#[trigger] all[i]) == Some(t);
            assert(all[i] == t.permission);
        }
        if rule(t.permission) == Some(t) {
            assert(all.contains(t.permission));
            let i = choose|i: int| 0 <= i < all.len() && all[i] == t.permission;
            assert(rule(all[i]) == Some(t));
        }
    }
}

/// Where no permission is both allowed and denied, the reconciliation is
/// complete and without duplicates: it holds a record for a permission if and
/// only if the permission's state changed, that record gives the state before
/// and the state after, and no record occurs twice.
pub proof fn law_transitions_exact(
    old_allow: Permissions,
    old_deny: Permissions,
    new_allow: Permissions,
    new_deny: Permissions,
)
    requires
        forall|p: ChannelPermission| !(p.granted_by(old_allow) && p.granted_by(old_deny)),
        forall|p: ChannelPermission| !(p.granted_by(new_allow) && p.granted_by(new_deny)),
    ensures
        forall|t: Transition|
            #[trigger] transitions(old_allow, old_deny, new_allow, new_deny).contains(t) <==> t.from
                == state_of(old_allow, old_deny, t.permission) && t.to == state_of(
                new_allow,
                new_deny,
                t.permission,
            ) && t.from != t.to,
        transitions(old_allow, old_deny, new_allow, new_deny).no_duplicates(),
{
    let g1 = group(Change::LostAllow, old_allow, old_deny, new_allow, new_deny);
    let g2 = group(Change::LostDeny, old_allow, old_deny, new_allow, new_deny);
    let g3 = group(Change::GainedAllow, old_allow, old_deny, new_allow, new_deny);
    let g4 = group(Change::GainedDeny, old_allow, old_deny, new_allow, new_deny);
    lemma_group(Change::LostAllow, old_allow, old_deny, new_allow, new_deny);
    lemma_group(Change::LostDeny, old_allow, old_deny, new_allow, new_deny);
    lemma_group(Change::GainedAllow, old_allow, old_deny, new_allow, new_deny);
    lemma_group(Change::GainedDeny, old_allow, old_deny, new_allow, new_deny);
    lemma_add_no_duplicates(g1, g2);
    lemma_add_no_duplicates(g1 + g2, g3);
    lemma_add_no_duplicates(g1 + g2 + g3, g4);
    let res = transitions(old_allow, old_deny, new_allow, new_deny);
    assert(res == g1 + g2 + g3 + g4);
    assert forall|t: Transition| #[trigger] res.contains(t) <==> t.from == state_of(
        old_allow,
        old_deny,
        t.permission,
    ) && t.to == state_of(new_allow, new_deny, t.permission) && t.from != t.to by {
        let p = t.permission;
        assert(res.contains(t) <==> g1.contains(t) || g2.contains(t) || g3.contains(t)
            || g4.contains(t));
        assert(!(p.granted_by(old_allow) && p.granted_by(old_deny)));
        assert(!(p.granted_by(new_allow) && p.granted_by(new_deny)));
    }
}

/// An overwrite that allowed `a` and `b` and denied nothing, and now allows
/// `b` and denies `c`, reconciles to two records: `a` goes from allowed to
/// default and `c` from default to denied; of `b` there is none.
pub proof fn law_lost_allow_and_gained_deny(
    old_allow: Permissions,
    old_deny: Permissions,
    new_allow: Permissions,
    new_deny: Permissions,
    a: ChannelPermission,
    b: ChannelPermission,
    c: ChannelPermission,
)
    requires
        a != b,
        a != c,
        b != c,
        forall|p: ChannelPermission| p.granted_by(old_allow) <==> p == a || p == b,
        forall|p: ChannelPermission| !p.granted_by(old_deny),
        forall|p: ChannelPermission| p.granted_by(new_allow) <==> p == b,
        forall|p: ChannelPermission| p.granted_by(new_deny) <==> p == c,
    ensures
        transitions(old_allow, old_deny, new_allow, new_deny) == seq![
            Transition { permission: a, from: PermissionType::Allow, to: PermissionType::Default },
            Transition { permission: c, from: PermissionType::Default, to: PermissionType::Deny },
        ],
{
    let g1 = group(Change::LostAllow, old_allow, old_deny, new_allow, new_deny);
    let g2 = group(Change::LostDeny, old_allow, old_deny, new_allow, new_deny);
    let g3 = group(Change::GainedAllow, old_allow, old_deny, new_allow, new_deny);
    let g4 = group(Change::GainedDeny, old_allow, old_deny, new_allow, new_deny);
    let first = Transition {
        permission: a,
        from: PermissionType::Allow,
        to: PermissionType::Default,
    };
    let second = Transition {
        permission: c,
        from: PermissionType::Default,
        to: PermissionType::Deny,
    };
    lemma_group(Change::LostAllow, old_allow, old_deny, new_allow, new_deny);
    lemma_group(Change::LostDeny, old_allow, old_deny, new_allow, new_deny);
    lemma_group(Change::GainedAllow, old_allow, old_deny, new_allow, new_deny);
    lemma_group(Change::GainedDeny, old_allow, old_deny, new_allow, new_deny);
    assert forall|t: Transition| #[trigger] g1.contains(t) <==> t == first by {
        assert(t.permission.granted_by(old_allow) <==> t.permission == a || t.permission == b);
        assert(t.permission.granted_by(new_allow) <==> t.permission == b);
        assert(t.permission.granted_by(new_deny) <==> t.permission == c);
    }
    assert forall|t: Transition| !#[trigger] g2.contains(t) by {
        assert(!t.permission.granted_by(old_deny));
    }
    assert forall|t: Transition| !#[trigger] g3.contains(t) by {
        assert(t.permission.granted_by(old_allow) <==> t.permission == a || t.permission == b);
        assert(t.permission.granted_by(new_allow) <==> t.permission == b);
    }
    assert forall|t: Transition| #[trigger] g4.contains(t) <==> t == second by {
        assert(t.permission.granted_by(old_allow) <==> t.permission == a || t.permission == b);
        assert(!t.permission.granted_by(old_deny));
        assert(t.permission.granted_by(new_deny) <==> t.permission == c);
    }
    crate::items::lemma_only_member(g1, first);
    crate::items::lemma_no_member(g2);
    crate::items::lemma_no_member(g3);
    crate::items::lemma_only_member(g4, second);
    assert(g1 + g2 + g3 + g4 =~= seq![first, second]);
}

} // verus!
