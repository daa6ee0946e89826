//! Guilds, their members, and their audit logs.
use crate::types::channel::Channel;
use crate::types::gateway::activity::PresenceUpdate;
use crate::types::message::Emoji;
use crate::types::permission::PermissionOverride;
use crate::types::role::Role;
use crate::types::user::User;
use crate::types::voice::VoiceState;
use crate::types::{CachedTypes, Snowflake, Timestamp};
use vstd::prelude::*;

verus! {

#[derive(Clone, Debug, PartialEq, Eq)]
pub struct Guild {
    pub id: Snowflake,
    pub name: String,
    pub icon: String,
    pub splash: String,
    pub discovery_splash: String,
    pub owner: bool,
    pub owner_id: Snowflake,
    pub permissions: Option<i32>,
    pub region: String,
    pub afk_channel_id: Snowflake,
    pub afk_timeout: i32,
    pub embed_enabled: bool,
    pub embed_channel_id: Option<Snowflake>,
    pub verification_level: VerificationLevel,
    pub default_message_notifications: i32,
    pub explicit_content_filter: ExplicitFilterLevel,
    pub roles: Vec<Role>,
    pub emojis: Vec<Emoji>,
    pub features: Vec<String>,
    pub mfa_level: MFALevel,
    pub application_id: Snowflake,
    pub widget_enabled: bool,
    pub widget_channel_id: Option<Snowflake>,
    pub system_channel_id: Snowflake,
    pub system_channel_flags: i32,
    pub rules_channel_id: Snowflake,
    pub joined_at: Option<Timestamp>,
    pub large: bool,
    pub unavailable: bool,
    pub member_count: Option<i32>,
    pub voice_states: Option<Vec<VoiceState>>,
    pub members: Option<Vec<GuildMember>>,
    pub channels: Option<Vec<Channel>>,
    pub presences: Option<Vec<PresenceUpdate>>,
    pub max_presences: Option<i32>,
    pub max_members: Option<i32>,
    pub vanity_url_code: String,
    pub description: String,
    pub banner: String,
    pub premium_tier: i32,
    pub premium_subscription_count: Option<i32>,
    pub preferred_locale: String,
    pub public_updates_channel_id: Snowflake,
    pub max_video_channel_users: Option<i32>,
    pub approximate_member_count: Option<i32>,
    pub approximate_presence_count: Option<i32>,
}

impl CachedTypes for Guild {

}

#[derive(Clone, Copy, Debug, PartialEq, Eq, Structural)]
pub enum VerificationLevel {
    NoVerification,
    Low,
    Medium,
    High,
    VeryHigh,
}

#[derive(Clone, Copy, Debug, PartialEq, Eq, Structural)]
pub enum ExplicitFilterLevel {
    Disabled,
    MembersWithoutRoles,
    AllMembers,
}

#[derive(Clone, Copy, Debug, PartialEq, Eq, Structural)]
pub enum MFALevel {
    Disabled,
    Elevated,
}

#[derive(Clone, Debug, PartialEq, Eq)]
pub struct GuildMember {
    pub user: User,
    pub nick: Option<String>,
    pub roles: Vec<Snowflake>,
    pub joined_at: Option<Timestamp>,
    pub premium_since: Option<String>,
    pub deaf: bool,
    pub mute: bool,
}

impl CachedTypes for GuildMember {

}

#[derive(Clone, Debug, PartialEq, Eq)]
pub struct AuditLog {
    pub webhooks: Vec<Webhook>,
    pub users: Vec<User>,
    pub audit_log_entries: Vec<AuditLogEntry>,
    pub integrations: Vec<Integration>,
}

#[derive(Clone, Debug, PartialEq, Eq)]
pub struct Webhook {
    pub id: Snowflake,
    pub kind: WebhookType,
    pub guild_id: Option<Snowflake>,
    pub channel_id: Snowflake,
    pub user: Option<User>,
    pub name: String,
    pub avatar: String,
    pub token: Option<String>,
}

#[derive(Clone, Copy, Debug, PartialEq, Eq, Structural)]
pub enum WebhookType {
    Incoming,
    ChannelFollower,
}

#[derive(Clone, Debug, PartialEq, Eq)]
pub struct Integration {
    pub id: Snowflake,
    pub name: String,
    pub kind: String,
    pub enabled: bool,
    pub syncing: bool,
    pub role_id: String,
    pub enable_emoticons: Option<String>,
    pub expire_behavior: IntegrationExpireBehavior,
    pub expire_grace_period: i32,
    pub user: User,
    pub account: IntegrationAccount,
    pub synced_at: Timestamp,
}

#[derive(Clone, Copy, Debug, PartialEq, Eq, Structural)]
pub enum IntegrationExpireBehavior {
    RemoveRole,
    Kick,
}

#[derive(Clone, Debug, PartialEq, Eq)]
pub struct IntegrationAccount {
    pub id: Snowflake,
    pub name: String,
}

#[derive(Clone, Debug, PartialEq, Eq)]
pub struct AuditLogEntry {
    pub target_id: Snowflake,
    pub changes: Option<Vec<AuditLogChange>>,
    pub user_id: Snowflake,
    pub id: Snowflake,
    pub action_type: AuditLogEvent,
    pub options: Option<OptionalAuditLogEntry>,
    pub reason: Option<String>,
}

/// What an entry of the audit log records.
#[derive(Clone, Copy, Debug, PartialEq, Eq, Structural)]
pub enum AuditLogEvent {
    GuildUpdate,
    ChannelCreate,
    ChannelUpdate,
    ChannelDelete,
    ChannelCreateOverwrite,
    ChannelUpdateOverwrite,
    ChannelDeleteOverwrite,
    KickMember,
    PruneMember,
    AddMemberBan,
    RemoveMemberBan,
    UpdateMember,
    UpdateMemberRole,
    MoveMember,
    DisconnectMember,
    AddBot,
    CreateRole,
    UpdateRole,
    DeleteRole,
    CreateInvite,
    UpdateInvite,
    DeleteInvite,
    CreateWebhook,
    UpdateWebhook,
    DeleteWebhook,
    CreateEmoji,
    UpdateEmoji,
    DeleteEmoji,
    DeleteMessage,
    BulkDeleteMessage,
    PinMessage,
    UnpinMessage,
    CreateIntegration,
    UpdateIntegration,
    DeleteIntegration,
}

#[derive(Clone, Debug, PartialEq, Eq)]
pub struct OptionalAuditLogEntry {
    pub delete_member_days: String,
    pub members_removed: String,
    pub channel_id: Snowflake,
    pub message_id: Snowflake,
    pub count: String,
    pub id: Snowflake,
    pub kind: String,
    pub role_name: String,
}

#[derive(Clone, Debug, PartialEq, Eq)]
pub struct AuditLogChange {
    pub new_value: Option<MixedType>,
    pub old_value: Option<MixedType>,
    pub key: String,
}

/// A value of an audit log change, whose type depends on the key.
#[derive(Clone, Debug, PartialEq, Eq)]
pub enum MixedType {
    String(Option<String>),
    U8(Option<u8>),
    AuditLogEvent(Option<AuditLogEvent>),
    Int(Option<i32>),
    RoleVec(Option<Vec<Role>>),
    Bool(bool),
    OverwriteVec(Option<Vec<PermissionOverride>>),
}

/// A guild as the server lists it when a session starts: its identifier, and
/// whether it is unavailable.
#[derive(Clone, Copy, Debug, PartialEq, Eq, Structural)]
pub struct PartialGuild {
    pub id: Snowflake,
    pub unavailable: bool,
}

} // verus!
