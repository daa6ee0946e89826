//! Messages and what they carry.
use crate::types::channel::ChannelMention;
use crate::types::guild::GuildMember;
use crate::types::role::Role;
use crate::types::user::User;
use crate::types::{Snowflake, Timestamp};
use vstd::prelude::*;

verus! {

#[derive(Clone, Debug, PartialEq, Eq)]
pub struct MentionedUsers {
    pub id: Snowflake,
    pub username: String,
    pub discriminator: String,
    pub avatar: String,
    pub verified: bool,
    pub email: String,
    pub flags: i64,
    pub premium_type: i64,
    pub public_flags: i64,
    pub member: GuildMember,
}

#[derive(Clone, Debug, PartialEq, Eq)]
pub struct Message {
    pub id: Snowflake,
    pub channel_id: Snowflake,
    pub guild_id: Option<Snowflake>,
    pub author: User,
    pub member: GuildMember,
    pub content: String,
    pub timestamp: Timestamp,
    pub edited_timestamp: Option<Timestamp>,
    pub tts: bool,
    pub mention_everyone: bool,
    pub mentions: Vec<MentionedUsers>,
    pub mention_roles: Vec<String>,
    pub mention_channels: Option<Vec<ChannelMention>>,
    pub attachments: Vec<Attachment>,
    pub embeds: Vec<Embed>,
    pub reactions: Vec<MessageReaction>,
    pub nonce: Option<String>,
    pub pinned: bool,
    pub webhook_id: Option<Snowflake>,
    pub kind: MessageType,
    pub activity: Option<MessageActivity>,
    pub application: Option<MessageApplication>,
    pub message_reference: Option<MessageReference>,
    pub flags: Option<i32>,
}

#[derive(Clone, Debug, PartialEq, Eq)]
pub struct MessageReaction {
    pub count: i32,
    pub me: bool,
    pub emoji: Emoji,
}

#[derive(Clone, Copy, Debug, PartialEq, Eq, Structural)]
pub struct MessageActivity {
    pub kind: MessageActivityType,
    pub party_id: Option<Snowflake>,
}

#[derive(Clone, Copy, Debug, PartialEq, Eq, Structural)]
pub enum MessageActivityType {
    Join,
    Spectate,
    Listen,
    JoinRequest,
}

#[derive(Clone, Copy, Debug, PartialEq, Eq, Structural)]
pub enum MessageType {
    Default,
    AddRecipient,
    RemoveRecipient,
    Call,
    ChannelNameChange,
    ChannelIconChange,
    ChannelPinnedMessage,
    GuildMemberJoin,
    UserBoost,
    UserBoostTier1,
    UserBoostTier2,
    UserBoostTier3,
    AddChannelFollow,
    GuildDiscoveryDisqualified,
    GuildDiscoveryRequalified,
}

#[derive(Clone, Debug, PartialEq, Eq)]
pub struct MessageApplication {
    pub id: Snowflake,
    pub cover_image: Option<String>,
    pub description: String,
    pub icon: Option<String>,
    pub name: String,
}

#[derive(Clone, Copy, Debug, PartialEq, Eq, Structural)]
pub struct MessageReference {
    pub message_id: Snowflake,
    pub channel_id: Snowflake,
    pub guild_id: Snowflake,
}

pub struct AllowedMentions {
    pub parse: Vec<String>,
    pub roles: Vec<Snowflake>,
    pub users: Vec<Snowflake>,
}

#[derive(Clone, Debug, PartialEq, Eq)]
pub struct Attachment {
    pub id: Snowflake,
    pub filename: String,
    pub size: i32,
    pub url: String,
    pub proxy_url: String,
    pub height: i32,
    pub width: i32,
}

#[derive(Clone, Debug, PartialEq, Eq)]
pub struct Embed {
    pub title: Option<String>,
    pub kind: Option<String>,
    pub description: Option<String>,
    pub url: Option<String>,
    pub timestamp: Option<Timestamp>,
    pub color: Option<i32>,
    pub footer: Option<Vec<EmbedFooter>>,
    pub image: Option<EmbedImage>,
    pub thumbnail: Option<EmbedThumbnail>,
    pub video: Option<EmbedVideo>,
    pub provider: Option<EmbedProvider>,
    pub author: Option<EmbedAuthor>,
    pub fields: Vec<EmbedField>,
}

#[derive(Clone, Debug, PartialEq, Eq)]
pub struct EmbedFooter {
    pub text: String,
    pub icon_url: Option<String>,
    pub proxy_icon_url: Option<String>,
}

#[derive(Clone, Debug, PartialEq, Eq)]
pub struct EmbedImage {
    pub url: Option<String>,
    pub proxy_url: Option<String>,
    pub height: Option<i32>,
    pub width: Option<i32>,
}

#[derive(Clone, Debug, PartialEq, Eq)]
pub struct EmbedProvider {
    pub name: Option<String>,
    pub url: Option<String>,
}

#[derive(Clone, Debug, PartialEq, Eq)]
pub struct EmbedAuthor {
    pub name: Option<String>,
    pub url: Option<String>,
    pub icon_url: Option<String>,
    pub proxy_icon_url: Option<String>,
}

#[derive(Clone, Debug, PartialEq, Eq)]
pub struct EmbedField {
    pub name: String,
    pub value: String,
    pub inline: bool,
}

#[derive(Clone, Debug, PartialEq, Eq)]
pub struct EmbedThumbnail {
    pub url: Option<String>,
    pub proxy_url: Option<String>,
    pub height: Option<i32>,
    pub width: Option<i32>,
}

#[derive(Clone, Debug, PartialEq, Eq)]
pub struct EmbedVideo {
    pub url: Option<String>,
    pub height: Option<i32>,
    pub width: Option<i32>,
}

#[derive(Clone, Debug, PartialEq, Eq)]
pub struct Emoji {
    pub id: Snowflake,
    pub name: String,
    pub roles: Option<Role>,
    pub user: Option<User>,
    pub require_colons: bool,
    pub managed: bool,
    pub animated: bool,
    pub available: bool,
}

} // verus!
