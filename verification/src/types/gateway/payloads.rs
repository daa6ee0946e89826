//! The envelope of a gateway frame and the payloads it carries.
use crate::types::channel::Channel;
use crate::types::gateway::builder::IdentifyObject;
use crate::types::gateway::decoder::DecodeError;
use crate::types::gateway::opcodes::OPCode;
use crate::types::guild::{Guild, PartialGuild};
use crate::types::user::User;
use crate::types::{CachedTypes, Snowflake};
use vstd::prelude::*;
use vstd::string::StringExecFns;

verus! {

/// The envelope of every frame: opcode, payload, and for dispatch frames the
/// sequence number and the name of the event.
#[derive(Debug, PartialEq, Eq)]
pub struct GatewayPayload {
    /// The opcode.
    pub op: OPCode,
    /// The payload. Which kind it has to be follows from `op` and `t`.
    pub d: GatewayPayloadObjects,
    /// The sequence number; only dispatch frames have one.
    pub s: Option<u64>,
    /// The name of the event; only dispatch frames have one.
    pub t: Option<String>,
}

/// What the server sends when a session has started.
#[derive(Debug, PartialEq, Eq)]
pub struct ReadyObject {
    /// The version of the gateway.
    pub v: u8,
    /// The user that has connected.
    pub user: User,
    /// The private channels; empty at first.
    pub private_channels: Vec<Channel>,
    /// The guilds that the user is in.
    pub guilds: Vec<PartialGuild>,
    /// The identifier of the session, needed to resume it.
    pub session_id: String,
    /// Number of this shard and number of shards.
    pub shard: Option<Vec<u16>>,
}

/// What a client sends to resume a session.
#[derive(Debug, PartialEq, Eq)]
pub struct ResumeObject {
    pub token: String,
    pub session_id: String,
    pub seq: u64,
}

/// The events that a client hands on to its user.
#[derive(Debug, PartialEq, Eq)]
pub enum DiscordEvent {
    Ready(ReadyObject),
    GuildCreate(GuildType),
}

/// A guild, in full or only by its identifier.
#[derive(Clone, Debug, PartialEq, Eq)]
pub enum GuildType {
    Full(Guild),
    Partial(PartialGuild),
}

impl CachedTypes for GuildType {

}

impl GuildType {
    /// The identifier of the guild.
    pub open spec fn spec_id(self) -> Snowflake {
        match self {
            GuildType::Full(guild) => guild.id,
            GuildType::Partial(guild) => guild.id,
        }
    }

    /// The identifier of the guild, under which it is cached.
    pub fn id(&self) -> (id: Snowflake)
        ensures
            id == self.spec_id(),
    {
        match self {
            GuildType::Full(guild) => guild.id,
            GuildType::Partial(guild) => guild.id,
        }
    }
}

/// What the server sends first: the time between two heartbeats, in
/// milliseconds.
#[derive(Clone, Copy, Debug, PartialEq, Eq, Structural)]
pub struct HelloObject {
    pub heartbeat_interval: u64,
}

/// The payloads of a frame.
#[derive(Debug, PartialEq, Eq)]
pub enum GatewayPayloadObjects {
    /// The client identifies itself.
    Identify(IdentifyObject),
    /// The server says hello.
    Hello(HelloObject),
    /// The client resumes a session.
    Resume(ResumeObject),
    /// A heartbeat, with the last sequence number that the sender received.
    Heartbeat(Option<u64>),
    /// The session is not valid; the flag says whether it can be resumed.
    InvalidSession(bool),
    /// The event `READY`: a session has started.
    Ready(ReadyObject),
    /// The event `RESUMED`: a session has been resumed.
    Resumed,
    /// The event `GUILD_CREATE`: a guild has become available.
    GuildCreate(GuildType),
    /// No payload, as in a request to reconnect or in the acknowledgement of
    /// a heartbeat.
    Empty,
}

/// What comes from the server: a bare ready object, or a frame in its
/// envelope.
#[derive(Debug, PartialEq, Eq)]
pub enum GatewayMessages {
    Ready(ReadyObject),
    Others(GatewayPayload),
}

/// The kinds of payload.
#[derive(Clone, Copy, Debug, PartialEq, Eq, Structural)]
pub enum PayloadKind {
    Identify,
    Hello,
    Resume,
    Heartbeat,
    InvalidSession,
    Ready,
    Resumed,
    GuildCreate,
    Empty,
}

impl GatewayPayloadObjects {
    /// The kind of this payload.
    pub open spec fn spec_kind(self) -> PayloadKind {
        match self {
            GatewayPayloadObjects::Identify(_) => PayloadKind::Identify,
            GatewayPayloadObjects::Hello(_) => PayloadKind::Hello,
            GatewayPayloadObjects::Resume(_) => PayloadKind::Resume,
            GatewayPayloadObjects::Heartbeat(_) => PayloadKind::Heartbeat,
            GatewayPayloadObjects::InvalidSession(_) => PayloadKind::InvalidSession,
            GatewayPayloadObjects::Ready(_) => PayloadKind::Ready,
            GatewayPayloadObjects::Resumed => PayloadKind::Resumed,
            GatewayPayloadObjects::GuildCreate(_) => PayloadKind::GuildCreate,
            GatewayPayloadObjects::Empty => PayloadKind::Empty,
        }
    }

    /// The kind of this payload.
    pub fn kind(&self) -> (kind: PayloadKind)
        ensures
            kind == self.spec_kind(),
    {
        match self {
            GatewayPayloadObjects::Identify(_) => PayloadKind::Identify,
            GatewayPayloadObjects::Hello(_) => PayloadKind::Hello,
            GatewayPayloadObjects::Resume(_) => PayloadKind::Resume,
            GatewayPayloadObjects::Heartbeat(_) => PayloadKind::Heartbeat,
            GatewayPayloadObjects::InvalidSession(_) => PayloadKind::InvalidSession,
            GatewayPayloadObjects::Ready(_) => PayloadKind::Ready,
            GatewayPayloadObjects::Resumed => PayloadKind::Resumed,
            GatewayPayloadObjects::GuildCreate(_) => PayloadKind::GuildCreate,
            GatewayPayloadObjects::Empty => PayloadKind::Empty,
        }
    }
}

/// The kind of payload that the event named `name` carries, if the event is
/// one that this client knows.
pub open spec fn spec_event_kind(name: Seq<char>) -> Option<PayloadKind> {
    if name == "READY"@ {
        Some(PayloadKind::Ready)
    } else if name == "RESUMED"@ {
        Some(PayloadKind::Resumed)
    } else if name == "GUILD_CREATE"@ {
        Some(PayloadKind::GuildCreate)
    } else {
        None
    }
}

/// The kind of payload that a frame from the server has to carry when its
/// opcode is `op` and its event name is `t`.
///
/// An opcode that only clients send is refused. A dispatch frame carries
/// what its event name asks for, and is refused without a name or with a name
/// that is not known. Hello, invalid session and heartbeat carry a payload of
/// their own, and the other opcodes carry none.
pub open spec fn spec_expected_kind(op: OPCode, t: Option<Seq<char>>) -> Result<
    PayloadKind,
    DecodeError,
> {
    match op {
        OPCode::Dispatch => match t {
            Some(name) => match spec_event_kind(name) {
                Some(kind) => Ok(kind),
                None => Err(DecodeError::UnknownEvent),
            },
            None => Err(DecodeError::UnknownEvent),
        },
        OPCode::Hello => Ok(PayloadKind::Hello),
        OPCode::InvalidSession => Ok(PayloadKind::InvalidSession),
        OPCode::Heartbeat => Ok(PayloadKind::Heartbeat),
        OPCode::Reconnect | OPCode::HeartbeatACK => Ok(PayloadKind::Empty),
        OPCode::Identify
        | OPCode::PresenceUpdate
        | OPCode::VoiceStateUpdate
        | OPCode::Resume
        | OPCode::RequestGuildMembers => Err(DecodeError::UnexpectedOpcode),
    }
}

/// The kind of payload that a frame from the server has to carry when the
/// number in its `op` field is `code` and its event name is `t`.
pub open spec fn spec_expected_payload(code: u8, t: Option<Seq<char>>) -> Result<
    PayloadKind,
    DecodeError,
> {
    match OPCode::spec_from_code(code) {
        Some(op) => spec_expected_kind(op, t),
        None => Err(DecodeError::UnknownOpcode),
    }
}

/// The view of an optional event name.
pub open spec fn name_view(t: Option<String>) -> Option<Seq<char>> {
    match t {
        Some(name) => Some(name@),
        None => None,
    }
}

/// The kind of payload that the event named `name` carries, if the event is
/// one that this client knows: `READY`, `RESUMED` or `GUILD_CREATE`.
pub fn event_kind(name: &String) -> (kind: Option<PayloadKind>)
    ensures
        kind == spec_event_kind(name@),
{
    if *name == String::from_str("READY") {
        Some(PayloadKind::Ready)
    } else if *name == String::from_str("RESUMED") {
        Some(PayloadKind::Resumed)
    } else if *name == String::from_str("GUILD_CREATE") {
        Some(PayloadKind::GuildCreate)
    } else {
        None
    }
}

/// The kind of payload that a frame from the server has to carry when its
/// opcode is `op` and its event name is `t`.
pub fn expected_kind(op: OPCode, t: Option<&String>) -> (res: Result<PayloadKind, DecodeError>)
    ensures
        res == spec_expected_kind(
            op,
            match t {
                Some(name) => Some(name@),
                None => None,
            },
        ),
{
    match op {
        OPCode::Dispatch => match t {
            Some(name) => match event_kind(name) {
                Some(kind) => Ok(kind),
                None => Err(DecodeError::UnknownEvent),
            },
            None => Err(DecodeError::UnknownEvent),
        },
        OPCode::Hello => Ok(PayloadKind::Hello),
        OPCode::InvalidSession => Ok(PayloadKind::InvalidSession),
        OPCode::Heartbeat => Ok(PayloadKind::Heartbeat),
        OPCode::Reconnect | OPCode::HeartbeatACK => Ok(PayloadKind::Empty),
        OPCode::Identify
        | OPCode::PresenceUpdate
        | OPCode::VoiceStateUpdate
        | OPCode::Resume
        | OPCode::RequestGuildMembers => Err(DecodeError::UnexpectedOpcode),
    }
}

/// The first phase of decoding a frame: from the number in `op` and the event
/// name to the kind of payload that `d` has to be decoded as.
pub fn expected_payload(code: u8, t: Option<&String>) -> (res: Result<PayloadKind, DecodeError>)
    ensures
        res == spec_expected_payload(
            code,
            match t {
                Some(name) => Some(name@),
                None => None,
            },
        ),
{
    match OPCode::from_code(code) {
        Some(op) => expected_kind(op, t),
        None => Err(DecodeError::UnknownOpcode),
    }
}

impl GatewayPayload {
    /// Whether a frame from the server is well formed, and if it is, the kind
    /// of its payload.
    ///
    /// The opcode must be one that a server sends. A dispatch frame must name
    /// a known event, have a sequence number, and carry the payload of its
    /// event. Any other frame must have neither sequence number nor event
    /// name, and carry the payload of its opcode.
    pub open spec fn spec_check(self) -> Result<PayloadKind, DecodeError> {
        match spec_expected_kind(self.op, name_view(self.t)) {
            Err(e) => Err(e),
            Ok(kind) => {
                if self.op == OPCode::Dispatch && self.s is None {
                    Err(DecodeError::MissingSequence)
                } else if self.op != OPCode::Dispatch && (self.s is Some || self.t is Some) {
                    Err(DecodeError::UnexpectedDispatchField)
                } else if self.d.spec_kind() != kind {
                    Err(DecodeError::PayloadMismatch)
                } else {
                    Ok(kind)
                }
            },
        }
    }

    /// Checks a frame from the server: the second phase of decoding it. A
    /// frame that fails here is to be treated as one that could not be
    /// decoded.
    pub fn check(&self) -> (res: Result<PayloadKind, DecodeError>)
        ensures
            res == self.spec_check(),
    {
        match expected_kind(self.op, self.t.as_ref()) {
            Err(e) => Err(e),
            Ok(kind) => {
                let dispatch = match self.op {
                    OPCode::Dispatch => true,
                    _ => false,
                };
                if dispatch && self.s.is_none() {
                    Err(DecodeError::MissingSequence)
                } else if !dispatch && (self.s.is_some() || self.t.is_some()) {
                    Err(DecodeError::UnexpectedDispatchField)
                } else if self.d.kind() != kind {
                    Err(DecodeError::PayloadMismatch)
                } else {
                    Ok(kind)
                }
            },
        }
    }
}

} // verus!
