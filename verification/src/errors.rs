//! The failures that the mirror reports. None of them ends the program: each
//! is handed back to the caller of the function that met it.

use crate::text::{decimal, text, u64_to_string};
use vstd::prelude::*;
use vstd::string::StringExecFns;

verus! {

/// Why an event or a change could not be carried out.
#[derive(Debug, Copy, Clone, PartialEq, Eq, Structural)]
pub enum Error {
    /// No community is mirrored under this id.
    UnknownServer(u64),
    /// No community is known to own this channel.
    UnknownChannel(u64),
    /// The member with this user id is not in the mirror.
    UncachedMember(u64),
    /// The role with this id is not in the mirror.
    UncachedRole(u64),
    /// The channel with this id is not in the mirror.
    UncachedChannel(u64),
    /// The emoji with this id is not in the mirror.
    UncachedEmoji(u64),
    /// The member with this user id was created though the mirror holds it.
    DuplicateMember(u64),
    /// The role with this id was created though the mirror holds it.
    DuplicateRole(u64),
    /// The channel with this id was created though the mirror holds it.
    DuplicateChannel(u64),
    /// The emoji with this id was added though the mirror holds it.
    DuplicateEmoji(u64),
    /// A mention of this user was to be removed from a message without it.
    MissingMention(u64),
    /// A mention of this role was to be removed from a message without it.
    MissingMentionRole(u64),
    /// An attachment was to be removed from a message without it.
    MissingAttachment,
    /// An embed was to be removed from a message without it.
    MissingEmbed,
    /// This role was to be taken from a member without it.
    MissingRole(u64),
    /// The channel of this id is not a channel of a community.
    NotPublicChannel(u64),
    /// The message of this id is of a kind that has no text to report.
    UnsupportedMessage(u64),
    /// A community of the configuration has neither an id nor a name.
    NoServerIdentity,
    /// The configuration holds nothing for the community of this id.
    NotConfigured(u64),
}

impl Error {
    /// The words that describe the failure.
    pub open spec fn words(self) -> Seq<char> {
        match self {
            Error::UnknownServer(id) => "could not find server for server_id "@ + decimal(id as nat),
            Error::UnknownChannel(id) => "could not find server for channel "@ + decimal(id as nat),
            Error::UncachedMember(id) => "uncached member "@ + decimal(id as nat),
            Error::UncachedRole(id) => "uncached role "@ + decimal(id as nat),
            Error::UncachedChannel(id) => "uncached channel "@ + decimal(id as nat),
            Error::UncachedEmoji(id) => "uncached emoji "@ + decimal(id as nat),
            Error::DuplicateMember(id) => "member is cached already: "@ + decimal(id as nat),
            Error::DuplicateRole(id) => "role is cached already: "@ + decimal(id as nat),
            Error::DuplicateChannel(id) => "channel is cached already: "@ + decimal(id as nat),
            Error::DuplicateEmoji(id) => "emoji is cached already: "@ + decimal(id as nat),
            Error::MissingMention(id) => "message does not mention user "@ + decimal(id as nat),
            Error::MissingMentionRole(id) => "message does not mention role "@ + decimal(id as nat),
            Error::MissingAttachment => "message does not hold the attachment"@,
            Error::MissingEmbed => "message does not hold the embed"@,
            Error::MissingRole(id) => "member does not have role "@ + decimal(id as nat),
            Error::NotPublicChannel(id) => "expected public channel: "@ + decimal(id as nat),
            Error::UnsupportedMessage(id) => "message of unsupported kind: "@ + decimal(id as nat),
            Error::NoServerIdentity => "No server_id or server_name given"@,
            Error::NotConfigured(id) => "No configuration found for server "@ + decimal(id as nat),
        }
    }

    /// The words that describe the failure.
    pub fn message(&self) -> (res: String)
        ensures
            res@ == self.words(),
    {
        match self {
            Error::UnknownServer(id) => numbered("could not find server for server_id ", *id),
            Error::UnknownChannel(id) => numbered("could not find server for channel ", *id),
            Error::UncachedMember(id) => numbered("uncached member ", *id),
            Error::UncachedRole(id) => numbered("uncached role ", *id),
            Error::UncachedChannel(id) => numbered("uncached channel ", *id),
            Error::UncachedEmoji(id) => numbered("uncached emoji ", *id),
            Error::DuplicateMember(id) => numbered("member is cached already: ", *id),
            Error::DuplicateRole(id) => numbered("role is cached already: ", *id),
            Error::DuplicateChannel(id) => numbered("channel is cached already: ", *id),
            Error::DuplicateEmoji(id) => numbered("emoji is cached already: ", *id),
            Error::MissingMention(id) => numbered("message does not mention user ", *id),
            Error::MissingMentionRole(id) => numbered("message does not mention role ", *id),
            Error::MissingAttachment => text("message does not hold the attachment"),
            Error::MissingEmbed => text("message does not hold the embed"),
            Error::MissingRole(id) => numbered("member does not have role ", *id),
            Error::NotPublicChannel(id) => numbered("expected public channel: ", *id),
            Error::UnsupportedMessage(id) => numbered("message of unsupported kind: ", *id),
            Error::NoServerIdentity => text("No server_id or server_name given"),
            Error::NotConfigured(id) => numbered("No configuration found for server ", *id),
        }
    }
}

/// The label with the number behind it.
fn numbered(label: &str, id: u64) -> (res: String)
    ensures
        res@ == label@ + decimal(id as nat),
{
    let mut res = String::from_str(label);
    res.append(u64_to_string(id).as_str());
    res
}

} // verus!
