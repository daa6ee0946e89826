//! Channels.
use crate::types::permission::PermissionOverride;
use crate::types::user::User;
use crate::types::{CachedTypes, Snowflake};
use vstd::prelude::*;

verus! {

#[derive(Clone, Debug, PartialEq, Eq)]
pub struct Channel {
    pub id: Snowflake,
    pub kind: ChannelType,
    pub guild_id: Option<Snowflake>,
    pub position: Option<u16>,
    pub permission_overwrites: Option<Vec<PermissionOverride>>,
    pub name: Option<String>,
    pub topic: Option<String>,
    pub nsfw: bool,
    pub last_message_id: Option<Snowflake>,
    pub bitrate: Option<u32>,
    pub user_limit: Option<u16>,
    pub rate_limit_per_user: Option<u16>,
    pub recipients: Option<Vec<User>>,
    pub icon: Option<String>,
    pub owner_id: Option<Snowflake>,
    pub application_id: Option<Snowflake>,
    pub parent_id: Option<Snowflake>,
    pub last_pin_timestamp: Option<String>,
}

impl CachedTypes for Channel {

}

/// The kinds of channel.
#[derive(Clone, Copy, Debug, PartialEq, Eq, Structural)]
pub enum ChannelType {
    /// Text channel in a guild.
    GuildText,
    /// Direct message channel.
    DirectMessage,
    /// Voice channel in a guild.
    GuildVoice,
    /// Group direct messages.
    GroupDirectMessage,
    /// Category of a guild.
    GuildCategory,
    /// News channel of a guild.
    GuildNews,
    /// Store channel of a guild.
    GuildStore,
}

#[derive(Clone, Debug, PartialEq, Eq)]
pub struct ChannelMention {
    pub id: Snowflake,
    pub guild_id: Snowflake,
    pub kind: ChannelType,
    pub name: String,
}

/// The body of the request that opens a private channel.
#[derive(Clone, Copy, Debug, PartialEq, Eq, Structural)]
pub struct CreatePrivateChannelBody {
    pub recipient_id: Snowflake,
}

} // verus!
