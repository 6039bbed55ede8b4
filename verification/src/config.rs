//! The configuration: how the bot logs in, and for each community where its
//! log goes and which line each kind of event gets.

use crate::errors::Error;
use crate::model::{opt_view, Item, PublicChannel};
use vstd::prelude::*;

verus! {

/// The whole configuration.
#[derive(Debug)]
pub struct Config {
    pub bot: Option<BotConfig>,
    pub server: Vec<ServerConfig>,
}

/// How the bot logs in.
#[derive(Debug)]
pub struct BotConfig {
    pub token: String,
}

/// The configuration of one community: how to recognise it and its log
/// channel, and a template for the line of each kind of event. An event
/// without a template is not reported.
#[derive(Debug)]
pub struct ServerConfig {
    pub server_id: Option<u64>,
    pub server_name: Option<String>,
    pub log_channel_id: Option<u64>,
    pub log_channel_name: Option<String>,
    pub verbose: Option<bool>,
    pub message_create_msg: Option<String>,
    pub message_update_uncached_msg: Option<String>,
    pub message_update_kind_msg: Option<String>,
    pub message_update_content_msg: Option<String>,
    pub message_update_nonce_msg: Option<String>,
    pub message_update_tts_msg: Option<String>,
    pub message_update_pinned_msg: Option<String>,
    pub message_update_unpinned_msg: Option<String>,
    pub message_update_edited_time_msg: Option<String>,
    pub message_update_mention_everyone_msg: Option<String>,
    pub message_update_timestamp_msg: Option<String>,
    pub message_update_author_msg: Option<String>,
    pub message_update_mention_added_msg: Option<String>,
    pub message_update_mention_removed_msg: Option<String>,
    pub message_update_mention_role_added_msg: Option<String>,
    pub message_update_mention_role_removed_msg: Option<String>,
    pub message_update_attachment_added_msg: Option<String>,
    pub message_update_attachment_removed_msg: Option<String>,
    pub message_update_embeds_added_msg: Option<String>,
    pub message_update_embeds_removed_msg: Option<String>,
    pub message_delete_cached_msg: Option<String>,
    pub message_delete_uncached_msg: Option<String>,
    pub message_delete_bulk_msg: Option<String>,
    pub server_member_add_msg: Option<String>,
    pub server_member_role_add_msg: Option<String>,
    pub server_member_role_remove_msg: Option<String>,
    pub server_member_nick_change_msg: Option<String>,
    pub server_member_no_change_msg: Option<String>,
    pub server_member_remove_msg: Option<String>,
    pub server_role_create_msg: Option<String>,
    pub server_ban_add_msg: Option<String>,
    pub server_ban_remove_msg: Option<String>,
    pub server_emoji_add_msg: Option<String>,
    pub server_emoji_remove_msg: Option<String>,
    pub server_emoji_name_change_msg: Option<String>,
    pub channel_create_msg: Option<String>,
    pub channel_update_no_change_msg: Option<String>,
    pub channel_update_name_msg: Option<String>,
    pub channel_update_user_perms_msg: Option<String>,
    pub channel_update_role_perms_msg: Option<String>,
    pub channel_update_topic_msg: Option<String>,
    pub channel_update_position_msg: Option<String>,
    pub channel_update_bitrate_msg: Option<String>,
    pub channel_update_user_limit_msg: Option<String>,
    pub channel_delete_msg: Option<String>,
    pub reaction_add_cached_msg: Option<String>,
    pub reaction_add_uncached_msg: Option<String>,
    pub reaction_remove_cached_msg: Option<String>,
    pub reaction_remove_uncached_msg: Option<String>,
}

/// The kinds of event that a community can have a template for.
#[derive(Debug, Copy, Clone, PartialEq, Eq, Structural)]
pub enum Template {
    MessageCreate,
    MessageUpdateUncached,
    MessageUpdateKind,
    MessageUpdateContent,
    MessageUpdateNonce,
    MessageUpdateTts,
    MessageUpdatePinned,
    MessageUpdateUnpinned,
    MessageUpdateEditedTime,
    MessageUpdateMentionEveryone,
    MessageUpdateTimestamp,
    MessageUpdateAuthor,
    MessageUpdateMentionAdded,
    MessageUpdateMentionRemoved,
    MessageUpdateMentionRoleAdded,
    MessageUpdateMentionRoleRemoved,
    MessageUpdateAttachmentAdded,
    MessageUpdateAttachmentRemoved,
    MessageUpdateEmbedsAdded,
    MessageUpdateEmbedsRemoved,
    MessageDeleteCached,
    MessageDeleteUncached,
    MessageDeleteBulk,
    ServerMemberAdd,
    ServerMemberRoleAdd,
    ServerMemberRoleRemove,
    ServerMemberNickChange,
    ServerMemberNoChange,
    ServerMemberRemove,
    ServerRoleCreate,
    ServerBanAdd,
    ServerBanRemove,
    ServerEmojiAdd,
    ServerEmojiRemove,
    ServerEmojiNameChange,
    ChannelCreate,
    ChannelUpdateNoChange,
    ChannelUpdateName,
    ChannelUpdateUserPerms,
    ChannelUpdateRolePerms,
    ChannelUpdateTopic,
    ChannelUpdatePosition,
    ChannelUpdateBitrate,
    ChannelUpdateUserLimit,
    ChannelDelete,
    ReactionAddCached,
    ReactionAddUncached,
    ReactionRemoveCached,
    ReactionRemoveUncached,
}

impl ServerConfig {
    /// A configuration for the community of this id, without a log channel
    /// and without templates.
    pub fn new(server_id: u64) -> (res: Self)
        ensures
            res.server_id == Some(server_id),
            res.server_name is None,
            res.log_channel_id is None,
            res.log_channel_name is None,
            forall|t: Template| res.template(t) is None,
    {
        ServerConfig {
            server_id: Some(server_id),
            server_name: None,
            log_channel_id: None,
            log_channel_name: None,
            verbose: None,
            message_create_msg: None,
            message_update_uncached_msg: None,
            message_update_kind_msg: None,
            message_update_content_msg: None,
            message_update_nonce_msg: None,
            message_update_tts_msg: None,
            message_update_pinned_msg: None,
            message_update_unpinned_msg: None,
            message_update_edited_time_msg: None,
            message_update_mention_everyone_msg: None,
            message_update_timestamp_msg: None,
            message_update_author_msg: None,
            message_update_mention_added_msg: None,
            message_update_mention_removed_msg: None,
            message_update_mention_role_added_msg: None,
            message_update_mention_role_removed_msg: None,
            message_update_attachment_added_msg: None,
            message_update_attachment_removed_msg: None,
            message_update_embeds_added_msg: None,
            message_update_embeds_removed_msg: None,
            message_delete_cached_msg: None,
            message_delete_uncached_msg: None,
            message_delete_bulk_msg: None,
            server_member_add_msg: None,
            server_member_role_add_msg: None,
            server_member_role_remove_msg: None,
            server_member_nick_change_msg: None,
            server_member_no_change_msg: None,
            server_member_remove_msg: None,
            server_role_create_msg: None,
            server_ban_add_msg: None,
            server_ban_remove_msg: None,
            server_emoji_add_msg: None,
            server_emoji_remove_msg: None,
            server_emoji_name_change_msg: None,
            channel_create_msg: None,
            channel_update_no_change_msg: None,
            channel_update_name_msg: None,
            channel_update_user_perms_msg: None,
            channel_update_role_perms_msg: None,
            channel_update_topic_msg: None,
            channel_update_position_msg: None,
            channel_update_bitrate_msg: None,
            channel_update_user_limit_msg: None,
            channel_delete_msg: None,
            reaction_add_cached_msg: None,
            reaction_add_uncached_msg: None,
            reaction_remove_cached_msg: None,
            reaction_remove_uncached_msg: None,
        }
    }

    /// The template of the community for the kind of event, if it has one.
    pub open spec fn template(&self, t: Template) -> Option<Seq<char>> {
        match t {
            Template::MessageCreate => opt_view(self.message_create_msg),
            Template::MessageUpdateUncached => opt_view(self.message_update_uncached_msg),
            Template::MessageUpdateKind => opt_view(self.message_update_kind_msg),
            Template::MessageUpdateContent => opt_view(self.message_update_content_msg),
            Template::MessageUpdateNonce => opt_view(self.message_update_nonce_msg),
            Template::MessageUpdateTts => opt_view(self.message_update_tts_msg),
            Template::MessageUpdatePinned => opt_view(self.message_update_pinned_msg),
            Template::MessageUpdateUnpinned => opt_view(self.message_update_unpinned_msg),
            Template::MessageUpdateEditedTime => opt_view(self.message_update_edited_time_msg),
            Template::MessageUpdateMentionEveryone => opt_view(self.message_update_mention_everyone_msg),
            Template::MessageUpdateTimestamp => opt_view(self.message_update_timestamp_msg),
            Template::MessageUpdateAuthor => opt_view(self.message_update_author_msg),
            Template::MessageUpdateMentionAdded => opt_view(self.message_update_mention_added_msg),
            Template::MessageUpdateMentionRemoved => opt_view(self.message_update_mention_removed_msg),
            Template::MessageUpdateMentionRoleAdded => opt_view(self.message_update_mention_role_added_msg),
            Template::MessageUpdateMentionRoleRemoved => opt_view(self.message_update_mention_role_removed_msg),
            Template::MessageUpdateAttachmentAdded => opt_view(self.message_update_attachment_added_msg),
            Template::MessageUpdateAttachmentRemoved => opt_view(self.message_update_attachment_removed_msg),
            Template::MessageUpdateEmbedsAdded => opt_view(self.message_update_embeds_added_msg),
            Template::MessageUpdateEmbedsRemoved => opt_view(self.message_update_embeds_removed_msg),
            Template::MessageDeleteCached => opt_view(self.message_delete_cached_msg),
            Template::MessageDeleteUncached => opt_view(self.message_delete_uncached_msg),
            Template::MessageDeleteBulk => opt_view(self.message_delete_bulk_msg),
            Template::ServerMemberAdd => opt_view(self.server_member_add_msg),
            Template::ServerMemberRoleAdd => opt_view(self.server_member_role_add_msg),
            Template::ServerMemberRoleRemove => opt_view(self.server_member_role_remove_msg),
            Template::ServerMemberNickChange => opt_view(self.server_member_nick_change_msg),
            Template::ServerMemberNoChange => opt_view(self.server_member_no_change_msg),
            Template::ServerMemberRemove => opt_view(self.server_member_remove_msg),
            Template::ServerRoleCreate => opt_view(self.server_role_create_msg),
            Template::ServerBanAdd => opt_view(self.server_ban_add_msg),
            Template::ServerBanRemove => opt_view(self.server_ban_remove_msg),
            Template::ServerEmojiAdd => opt_view(self.server_emoji_add_msg),
            Template::ServerEmojiRemove => opt_view(self.server_emoji_remove_msg),
            Template::ServerEmojiNameChange => opt_view(self.server_emoji_name_change_msg),
            Template::ChannelCreate => opt_view(self.channel_create_msg),
            Template::ChannelUpdateNoChange => opt_view(self.channel_update_no_change_msg),
            Template::ChannelUpdateName => opt_view(self.channel_update_name_msg),
            Template::ChannelUpdateUserPerms => opt_view(self.channel_update_user_perms_msg),
            Template::ChannelUpdateRolePerms => opt_view(self.channel_update_role_perms_msg),
            Template::ChannelUpdateTopic => opt_view(self.channel_update_topic_msg),
            Template::ChannelUpdatePosition => opt_view(self.channel_update_position_msg),
            Template::ChannelUpdateBitrate => opt_view(self.channel_update_bitrate_msg),
            Template::ChannelUpdateUserLimit => opt_view(self.channel_update_user_limit_msg),
            Template::ChannelDelete => opt_view(self.channel_delete_msg),
            Template::ReactionAddCached => opt_view(self.reaction_add_cached_msg),
            Template::ReactionAddUncached => opt_view(self.reaction_add_uncached_msg),
            Template::ReactionRemoveCached => opt_view(self.reaction_remove_cached_msg),
            Template::ReactionRemoveUncached => opt_view(self.reaction_remove_uncached_msg),
        }
    }

    /// The template of the community for the kind of event, if it has one.
    pub fn template_of(&self, t: Template) -> (res: &Option<String>)
        ensures
            opt_view(*res) == self.template(t),
    {
        match t {
            Template::MessageCreate => &self.message_create_msg,
            Template::MessageUpdateUncached => &self.message_update_uncached_msg,
            Template::MessageUpdateKind => &self.message_update_kind_msg,
            Template::MessageUpdateContent => &self.message_update_content_msg,
            Template::MessageUpdateNonce => &self.message_update_nonce_msg,
            Template::MessageUpdateTts => &self.message_update_tts_msg,
            Template::MessageUpdatePinned => &self.message_update_pinned_msg,
            Template::MessageUpdateUnpinned => &self.message_update_unpinned_msg,
            Template::MessageUpdateEditedTime => &self.message_update_edited_time_msg,
            Template::MessageUpdateMentionEveryone => &self.message_update_mention_everyone_msg,
            Template::MessageUpdateTimestamp => &self.message_update_timestamp_msg,
            Template::MessageUpdateAuthor => &self.message_update_author_msg,
            Template::MessageUpdateMentionAdded => &self.message_update_mention_added_msg,
            Template::MessageUpdateMentionRemoved => &self.message_update_mention_removed_msg,
            Template::MessageUpdateMentionRoleAdded => &self.message_update_mention_role_added_msg,
            Template::MessageUpdateMentionRoleRemoved => &self.message_update_mention_role_removed_msg,
            Template::MessageUpdateAttachmentAdded => &self.message_update_attachment_added_msg,
            Template::MessageUpdateAttachmentRemoved => &self.message_update_attachment_removed_msg,
            Template::MessageUpdateEmbedsAdded => &self.message_update_embeds_added_msg,
            Template::MessageUpdateEmbedsRemoved => &self.message_update_embeds_removed_msg,
            Template::MessageDeleteCached => &self.message_delete_cached_msg,
            Template::MessageDeleteUncached => &self.message_delete_uncached_msg,
            Template::MessageDeleteBulk => &self.message_delete_bulk_msg,
            Template::ServerMemberAdd => &self.server_member_add_msg,
            Template::ServerMemberRoleAdd => &self.server_member_role_add_msg,
            Template::ServerMemberRoleRemove => &self.server_member_role_remove_msg,
            Template::ServerMemberNickChange => &self.server_member_nick_change_msg,
            Template::ServerMemberNoChange => &self.server_member_no_change_msg,
            Template::ServerMemberRemove => &self.server_member_remove_msg,
            Template::ServerRoleCreate => &self.server_role_create_msg,
            Template::ServerBanAdd => &self.server_ban_add_msg,
            Template::ServerBanRemove => &self.server_ban_remove_msg,
            Template::ServerEmojiAdd => &self.server_emoji_add_msg,
            Template::ServerEmojiRemove => &self.server_emoji_remove_msg,
            Template::ServerEmojiNameChange => &self.server_emoji_name_change_msg,
            Template::ChannelCreate => &self.channel_create_msg,
            Template::ChannelUpdateNoChange => &self.channel_update_no_change_msg,
            Template::ChannelUpdateName => &self.channel_update_name_msg,
            Template::ChannelUpdateUserPerms => &self.channel_update_user_perms_msg,
            Template::ChannelUpdateRolePerms => &self.channel_update_role_perms_msg,
            Template::ChannelUpdateTopic => &self.channel_update_topic_msg,
            Template::ChannelUpdatePosition => &self.channel_update_position_msg,
            Template::ChannelUpdateBitrate => &self.channel_update_bitrate_msg,
            Template::ChannelUpdateUserLimit => &self.channel_update_user_limit_msg,
            Template::ChannelDelete => &self.channel_delete_msg,
            Template::ReactionAddCached => &self.reaction_add_cached_msg,
            Template::ReactionAddUncached => &self.reaction_add_uncached_msg,
            Template::ReactionRemoveCached => &self.reaction_remove_cached_msg,
            Template::ReactionRemoveUncached => &self.reaction_remove_uncached_msg,
        }
    }

    /// Gives the community the template for the kind of event.
    pub fn set_template(&mut self, t: Template, template: String)
        ensures
            final(self).template(t) == Some(template@),
            forall|other: Template| other != t ==> final(self).template(other) == old(self).template(other),
            final(self).server_id == old(self).server_id,
            final(self).server_name == old(self).server_name,
            final(self).log_channel_id == old(self).log_channel_id,
            final(self).log_channel_name == old(self).log_channel_name,
    {
        match t {
            Template::MessageCreate => {
                self.message_create_msg = Some(template);
            },
            Template::MessageUpdateUncached => {
                self.message_update_uncached_msg = Some(template);
            },
            Template::MessageUpdateKind => {
                self.message_update_kind_msg = Some(template);
            },
            Template::MessageUpdateContent => {
                self.message_update_content_msg = Some(template);
            },
            Template::MessageUpdateNonce => {
                self.message_update_nonce_msg = Some(template);
            },
            Template::MessageUpdateTts => {
                self.message_update_tts_msg = Some(template);
            },
            Template::MessageUpdatePinned => {
                self.message_update_pinned_msg = Some(template);
            },
            Template::MessageUpdateUnpinned => {
                self.message_update_unpinned_msg = Some(template);
            },
            Template::MessageUpdateEditedTime => {
                self.message_update_edited_time_msg = Some(template);
            },
            Template::MessageUpdateMentionEveryone => {
                self.message_update_mention_everyone_msg = Some(template);
            },
            Template::MessageUpdateTimestamp => {
                self.message_update_timestamp_msg = Some(template);
            },
            Template::MessageUpdateAuthor => {
                self.message_update_author_msg = Some(template);
            },
            Template::MessageUpdateMentionAdded => {
                self.message_update_mention_added_msg = Some(template);
            },
            Template::MessageUpdateMentionRemoved => {
                self.message_update_mention_removed_msg = Some(template);
            },
            Template::MessageUpdateMentionRoleAdded => {
                self.message_update_mention_role_added_msg = Some(template);
            },
            Template::MessageUpdateMentionRoleRemoved => {
                self.message_update_mention_role_removed_msg = Some(template);
            },
            Template::MessageUpdateAttachmentAdded => {
                self.message_update_attachment_added_msg = Some(template);
            },
            Template::MessageUpdateAttachmentRemoved => {
                self.message_update_attachment_removed_msg = Some(template);
            },
            Template::MessageUpdateEmbedsAdded => {
                self.message_update_embeds_added_msg = Some(template);
            },
            Template::MessageUpdateEmbedsRemoved => {
                self.message_update_embeds_removed_msg = Some(template);
            },
            Template::MessageDeleteCached => {
                self.message_delete_cached_msg = Some(template);
            },
            Template::MessageDeleteUncached => {
                self.message_delete_uncached_msg = Some(template);
            },
            Template::MessageDeleteBulk => {
                self.message_delete_bulk_msg = Some(template);
            },
            Template::ServerMemberAdd => {
                self.server_member_add_msg = Some(template);
            },
            Template::ServerMemberRoleAdd => {
                self.server_member_role_add_msg = Some(template);
            },
            Template::ServerMemberRoleRemove => {
                self.server_member_role_remove_msg = Some(template);
            },
            Template::ServerMemberNickChange => {
                self.server_member_nick_change_msg = Some(template);
            },
            Template::ServerMemberNoChange => {
                self.server_member_no_change_msg = Some(template);
            },
            Template::ServerMemberRemove => {
                self.server_member_remove_msg = Some(template);
            },
            Template::ServerRoleCreate => {
                self.server_role_create_msg = Some(template);
            },
            Template::ServerBanAdd => {
                self.server_ban_add_msg = Some(template);
            },
            Template::ServerBanRemove => {
                self.server_ban_remove_msg = Some(template);
            },
            Template::ServerEmojiAdd => {
                self.server_emoji_add_msg = Some(template);
            },
            Template::ServerEmojiRemove => {
                self.server_emoji_remove_msg = Some(template);
            },
            Template::ServerEmojiNameChange => {
                self.server_emoji_name_change_msg = Some(template);
            },
            Template::ChannelCreate => {
                self.channel_create_msg = Some(template);
            },
            Template::ChannelUpdateNoChange => {
                self.channel_update_no_change_msg = Some(template);
            },
            Template::ChannelUpdateName => {
                self.channel_update_name_msg = Some(template);
            },
            Template::ChannelUpdateUserPerms => {
                self.channel_update_user_perms_msg = Some(template);
            },
            Template::ChannelUpdateRolePerms => {
                self.channel_update_role_perms_msg = Some(template);
            },
            Template::ChannelUpdateTopic => {
                self.channel_update_topic_msg = Some(template);
            },
            Template::ChannelUpdatePosition => {
                self.channel_update_position_msg = Some(template);
            },
            Template::ChannelUpdateBitrate => {
                self.channel_update_bitrate_msg = Some(template);
            },
            Template::ChannelUpdateUserLimit => {
                self.channel_update_user_limit_msg = Some(template);
            },
            Template::ChannelDelete => {
                self.channel_delete_msg = Some(template);
            },
            Template::ReactionAddCached => {
                self.reaction_add_cached_msg = Some(template);
            },
            Template::ReactionAddUncached => {
                self.reaction_add_uncached_msg = Some(template);
            },
            Template::ReactionRemoveCached => {
                self.reaction_remove_cached_msg = Some(template);
            },
            Template::ReactionRemoveUncached => {
                self.reaction_remove_uncached_msg = Some(template);
            },
        }
    }

    /// Whether the configuration says how to recognise its community.
    pub open spec fn identifies_server(&self) -> bool {
        self.server_id is Some || self.server_name is Some
    }

    /// Whether the configuration is that of the community with this id and
    /// name: it agrees with each of the two that it gives, and gives one.
    pub open spec fn is_for(&self, id: u64, name: Seq<char>) -> bool {
        &&& self.identifies_server()
        &&& self.server_id is Some ==> self.server_id->0 == id
        &&& self.server_name is Some ==> self.server_name->0@ == name
    }

    /// Whether the configuration is that of the community with this id and
    /// name.
    pub fn matches_server(&self, id: u64, name: &String) -> (res: bool)
        ensures
            res == self.is_for(id, name@),
    {
        match (&self.server_id, &self.server_name) {
            (Some(i), Some(n)) => *i == id && n.same(name),
            (Some(i), None) => *i == id,
            (None, Some(n)) => n.same(name),
            (None, None) => false,
        }
    }

    /// Whether the configuration says how to recognise the log channel.
    pub open spec fn identifies_log_channel(&self) -> bool {
        self.log_channel_id is Some || self.log_channel_name is Some
    }

    /// Whether the channel with this id and name is the log channel: it
    /// agrees with each of the two that the configuration gives, and the
    /// configuration gives one.
    pub open spec fn logs_to(&self, id: u64, name: Seq<char>) -> bool {
        &&& self.identifies_log_channel()
        &&& self.log_channel_id is Some ==> self.log_channel_id->0 == id
        &&& self.log_channel_name is Some ==> self.log_channel_name->0@ == name
    }

    /// Whether the channel with this id and name is the log channel.
    pub fn is_log_channel(&self, id: u64, name: &String) -> (res: bool)
        ensures
            res == self.logs_to(id, name@),
    {
        match (&self.log_channel_id, &self.log_channel_name) {
            (Some(i), Some(n)) => *i == id && n.same(name),
            (Some(i), None) => *i == id,
            (None, Some(n)) => n.same(name),
            (None, None) => false,
        }
    }

    /// The first channel of the list that is the log channel, if there is
    /// one.
    pub open spec fn log_channel_among(&self, channels: Seq<crate::model::PublicChannelView>) -> Option<
        u64,
    >
        decreases channels.len(),
    {
        if channels.len() == 0 {
            None
        } else if self.logs_to(channels[0].id, channels[0].name) {
            Some(channels[0].id)
        } else {
            self.log_channel_among(channels.skip(1))
        }
    }

    /// The first channel of the list that is the log channel, if there is
    /// one.
    pub fn find_log_channel(&self, channels: &Vec<PublicChannel>) -> (res: Option<u64>)
        ensures
            res == self.log_channel_among(crate::model::views(channels@)),
    {
        let ghost all = crate::model::views(channels@);
        let mut i: usize = 0;
        assert(all.skip(0) =~= all);
        while i < channels.len()
            invariant
                i <= channels.len(),
                all == crate::model::views(channels@),
                self.log_channel_among(all) == self.log_channel_among(all.skip(i as int)),
            decreases channels.len() - i,
        {
            proof {
                assert(all.skip(i as int)[0] == channels@[i as int]@);
                assert(all.skip(i as int).skip(1) =~= all.skip(i as int + 1));
            }
            if self.is_log_channel(channels[i].id, &channels[i].name) {
                return Some(channels[i].id);
            }
            i += 1;
        }
        None
    }
}

/// The index of the first configuration of the list that is that of the
/// community with this id and name, if there is one.
pub open spec fn position_for(configs: Seq<ServerConfig>, id: u64, name: Seq<char>) -> Option<int>
    decreases configs.len(),
{
    if configs.len() == 0 {
        None
    } else if configs[0].is_for(id, name) {
        Some(0)
    } else {
        match position_for(configs.skip(1), id, name) {
            Some(i) => Some(i + 1),
            None => None,
        }
    }
}

/// `position_for` gives an index of the list, and none where no
/// configuration is the community's.
pub proof fn lemma_position_for(configs: Seq<ServerConfig>, id: u64, name: Seq<char>)
    ensures
        match position_for(configs, id, name) {
            Some(i) => 0 <= i < configs.len() && configs[i].is_for(id, name) && forall|j: int|
                0 <= j < i ==> !(#[trigger] configs[j]).is_for(id, name),
            None => forall|j: int| 0 <= j < configs.len() ==> !(#[trigger] configs[j]).is_for(id, name),
        },
    decreases configs.len(),
{
    if configs.len() > 0 && !configs[0].is_for(id, name) {
        let rest = configs.skip(1);
        lemma_position_for(rest, id, name);
        match position_for(rest, id, name) {
            Some(i) => {
                assert(rest[i] == configs[i + 1]);
                assert forall|j: int| 0 <= j < i + 1 implies !(#[trigger] configs[j]).is_for(
                    id,
                    name,
                ) by {
                    if j > 0 {
                        assert(rest[j - 1] == configs[j]);
                    }
                }
            },
            None => {
                assert forall|j: int| 0 <= j < configs.len() implies !(
                #[trigger] configs[j]).is_for(id, name) by {
                    if j > 0 {
                        assert(rest[j - 1] == configs[j]);
                    }
                }
            },
        }
    }
}

impl Config {
    /// Whether every community of the configuration says how to recognise
    /// it.
    pub open spec fn valid(&self) -> bool {
        forall|i: int| 0 <= i < self.server@.len() ==> (#[trigger] self.server@[i]).identifies_server()
    }

    /// Checks that every community of the configuration has an id or a name.
    pub fn validate(&self) -> (res: Result<(), Error>)
        ensures
            res == (if self.valid() {
                Ok::<(), Error>(())
            } else {
                Err::<(), Error>(Error::NoServerIdentity)
            }),
    {
        let mut i: usize = 0;
        while i < self.server.len()
            invariant
                i <= self.server.len(),
                forall|j: int| 0 <= j < i ==> (#[trigger] self.server@[j]).identifies_server(),
            decreases self.server.len() - i,
        {
            if self.server[i].server_id.is_none() && self.server[i].server_name.is_none() {
                assert(!self.server@[i as int].identifies_server());
                return Err(Error::NoServerIdentity);
            }
            i += 1;
        }
        Ok(())
    }

    /// Takes the first configuration that is that of the community with this
    /// id and name out of the list, if there is one. The last configuration
    /// of the list takes its place.
    pub fn take_server_config(&mut self, id: u64, name: &String) -> (res: Option<ServerConfig>)
        ensures
            final(self).bot == old(self).bot,
            match position_for(old(self).server@, id, name@) {
                Some(i) => res == Some(old(self).server@[i]) && final(self).server@ == old(
                    self,
                ).server@.update(i, old(self).server@.last()).drop_last(),
                None => res is None && final(self).server@ == old(self).server@,
            },
    {
        proof {
            lemma_position_for(self.server@, id, name@);
        }
        let mut i: usize = 0;
        while i < self.server.len()
            invariant
                i <= self.server.len(),
                self.server@ == old(self).server@,
                self.bot == old(self).bot,
                forall|j: int| 0 <= j < i ==> !(#[trigger] self.server@[j]).is_for(id, name@),
            decreases self.server.len() - i,
        {
            if self.server[i].matches_server(id, name) {
                proof {
                    lemma_position_for(self.server@, id, name@);
                }
                let config = self.server.swap_remove(i);
                return Some(config);
            }
            i += 1;
        }
        proof {
            lemma_position_for(self.server@, id, name@);
        }
        None
    }
}

} // verus!
