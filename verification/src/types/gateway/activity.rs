//! Presences, activities, and the status that a client announces.
use crate::types::message::Emoji;
use crate::types::user::User;
use crate::types::{Snowflake, Timestamp};
use vstd::prelude::*;
use vstd::string::StringExecFns;

verus! {

#[derive(Clone, Debug, PartialEq, Eq)]
pub struct PresenceUpdate {
    pub user: User,
    pub roles: Vec<Snowflake>,
    pub game: Activity,
    pub guild_id: Snowflake,
    pub status: String,
    pub activities: Vec<Activity>,
    pub client_status: ClientStatus,
    pub premium_since: Option<Timestamp>,
    pub nick: Option<String>,
}

#[derive(Clone, Debug, PartialEq, Eq)]
pub struct Activity {
    pub name: String,
    pub kind: ActivityType,
    pub url: Option<String>,
    pub created_at: i32,
    pub timestamps: Option<ActivityTimestamp>,
    pub application_id: Option<Snowflake>,
    pub details: Option<String>,
    pub state: Option<String>,
    pub emoji: Option<Emoji>,
    pub party: Option<ActivityParty>,
    pub assets: Option<ActivityAssets>,
    pub secrets: Option<ActivitySecrets>,
    pub instance: Option<bool>,
    pub flags: Option<ActivityFlags>,
}

/// Start and end of an activity, as Unix timestamps.
#[derive(Clone, Copy, Debug, PartialEq, Eq, Structural)]
pub struct ActivityTimestamp {
    pub start: Option<i32>,
    pub end: Option<i32>,
}

#[derive(Clone, Copy, Debug, PartialEq, Eq, Structural)]
pub enum ActivityType {
    Game,
    Streaming,
    Listening,
    Custom,
}

#[derive(Clone, Debug, PartialEq, Eq)]
pub struct ClientStatus {
    pub desktop: Option<String>,
    pub mobile: Option<String>,
    pub web: Option<String>,
}

#[derive(Clone, Debug, PartialEq, Eq)]
pub struct ActivityParty {
    pub id: Option<Snowflake>,
    pub size: Vec<i32>,
}

#[derive(Clone, Debug, PartialEq, Eq)]
pub struct ActivityAssets {
    pub large_image: Option<String>,
    pub large_text: Option<String>,
    pub small_image: Option<String>,
    pub small_text: Option<String>,
}

#[derive(Clone, Debug, PartialEq, Eq)]
pub struct ActivitySecrets {
    pub join: Option<String>,
    pub spectate: Option<String>,
    pub match_: Option<String>,
}

/// One flag of an activity. Each stands for one bit.
#[derive(Clone, Copy, Debug, PartialEq, Eq, Structural)]
pub enum ActivityFlags {
    Instance,
    Join,
    Spectate,
    JoinRequest,
    Sync,
    Play,
}

/// What a client sends to the server to announce its status, for instance
/// that it plays another game.
#[derive(Clone, Debug, PartialEq, Eq)]
pub struct StatusUpdate {
    /// Since when the client is idle, as a Unix timestamp in milliseconds.
    since: Option<u64>,
    /// The activity that is shown.
    game: Activity,
    /// The status of the user: one of `online`, `dnd`, `idle`, `invisible`
    /// and `offline`.
    status: String,
    afk: bool,
}

/// The statuses that a client can announce.
#[derive(Clone, Copy, Debug, PartialEq, Eq, Structural)]
pub enum Status {
    Online,
    DND,
    Idle,
    Invisible,
    Offline,
}

impl Status {
    /// The word that stands for this status on the wire.
    pub open spec fn spec_name(self) -> Seq<char> {
        match self {
            Status::Online => "online"@,
            Status::DND => "dnd"@,
            Status::Idle => "idle"@,
            Status::Invisible => "invisible"@,
            Status::Offline => "offline"@,
        }
    }

    /// The word that stands for this status on the wire.
    pub fn to_string(&self) -> (s: String)
        ensures
            s@ == self.spec_name(),
    {
        match self {
            Status::Online => String::from_str("online"),
            Status::DND => String::from_str("dnd"),
            Status::Idle => String::from_str("idle"),
            Status::Invisible => String::from_str("invisible"),
            Status::Offline => String::from_str("offline"),
        }
    }
}

impl StatusUpdate {
    /// Since when the client is idle, as a Unix timestamp in milliseconds.
    pub closed spec fn spec_since(&self) -> Option<u64> {
        self.since
    }

    /// The activity that is shown.
    pub closed spec fn spec_game(&self) -> Activity {
        self.game
    }

    /// The status of the user, as the word sent on the wire.
    pub closed spec fn spec_status(&self) -> Seq<char> {
        self.status@
    }

    /// Whether the client is away.
    pub closed spec fn spec_afk(&self) -> bool {
        self.afk
    }

    /// A status update that shows `activity` under `status`: the client is
    /// not idle and not away.
    pub fn new(activity: Activity, status: Status) -> (update: Self)
        ensures
            update.spec_since() is None,
            update.spec_game() == activity,
            update.spec_status() == status.spec_name(),
            !update.spec_afk(),
    {
        StatusUpdate { since: None, game: activity, status: status.to_string(), afk: false }
    }

    /// Since when the client is idle, as a Unix timestamp in milliseconds.
    pub fn since(&self) -> (since: Option<u64>)
        ensures
            since == self.spec_since(),
    {
        self.since
    }

    /// The activity that is shown.
    pub fn game(&self) -> (game: &Activity)
        ensures
            *game == self.spec_game(),
    {
        &self.game
    }

    /// The status of the user, as the word sent on the wire.
    pub fn status(&self) -> (status: &String)
        ensures
            status@ == self.spec_status(),
    {
        &self.status
    }

    /// Whether the client is away.
    pub fn afk(&self) -> (afk: bool)
        ensures
            afk == self.spec_afk(),
    {
        self.afk
    }
}

} // verus!
