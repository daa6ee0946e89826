//! Opcodes of gateway frames and the close codes of the gateway.
use vstd::prelude::*;

verus! {

/// Who may send a frame with a given opcode.
#[derive(Clone, Copy, Debug, PartialEq, Eq, Structural)]
pub enum Direction {
    /// Only the client sends it.
    ClientToServer,
    /// Only the server sends it.
    ServerToClient,
    /// Either side sends it.
    Both,
}

/// The opcode found in the `op` field of every frame.
#[derive(Clone, Copy, Debug, PartialEq, Eq, Structural)]
pub enum OPCode {
    Dispatch,
    Heartbeat,
    Identify,
    PresenceUpdate,
    VoiceStateUpdate,
    Resume,
    Reconnect,
    RequestGuildMembers,
    InvalidSession,
    Hello,
    HeartbeatACK,
}

impl OPCode {
    /// The number that stands for this opcode on the wire.
    pub open spec fn spec_code(self) -> u8 {
        match self {
            OPCode::Dispatch => 0,
            OPCode::Heartbeat => 1,
            OPCode::Identify => 2,
            OPCode::PresenceUpdate => 3,
            OPCode::VoiceStateUpdate => 4,
            OPCode::Resume => 6,
            OPCode::Reconnect => 7,
            OPCode::RequestGuildMembers => 8,
            OPCode::InvalidSession => 9,
            OPCode::Hello => 10,
            OPCode::HeartbeatACK => 11,
        }
    }

    /// The opcode that a wire number stands for, if it stands for one.
    pub open spec fn spec_from_code(code: u8) -> Option<OPCode> {
        match code {
            0 => Some(OPCode::Dispatch),
            1 => Some(OPCode::Heartbeat),
            2 => Some(OPCode::Identify),
            3 => Some(OPCode::PresenceUpdate),
            4 => Some(OPCode::VoiceStateUpdate),
            6 => Some(OPCode::Resume),
            7 => Some(OPCode::Reconnect),
            8 => Some(OPCode::RequestGuildMembers),
            9 => Some(OPCode::InvalidSession),
            10 => Some(OPCode::Hello),
            11 => Some(OPCode::HeartbeatACK),
            _ => None,
        }
    }

    /// The side that sends frames with this opcode.
    pub open spec fn spec_direction(self) -> Direction {
        match self {
            OPCode::Heartbeat => Direction::Both,
            OPCode::Dispatch
            | OPCode::Reconnect
            | OPCode::InvalidSession
            | OPCode::Hello
            | OPCode::HeartbeatACK => Direction::ServerToClient,
            OPCode::Identify
            | OPCode::PresenceUpdate
            | OPCode::VoiceStateUpdate
            | OPCode::Resume
            | OPCode::RequestGuildMembers => Direction::ClientToServer,
        }
    }

    /// Whether a client may receive a frame with this opcode.
    pub open spec fn spec_receivable(self) -> bool {
        self.spec_direction() != Direction::ClientToServer
    }

    /// The number that stands for this opcode on the wire.
    pub fn code(&self) -> (c: u8)
        ensures
            c == self.spec_code(),
    {
        match self {
            OPCode::Dispatch => 0,
            OPCode::Heartbeat => 1,
            OPCode::Identify => 2,
            OPCode::PresenceUpdate => 3,
            OPCode::VoiceStateUpdate => 4,
            OPCode::Resume => 6,
            OPCode::Reconnect => 7,
            OPCode::RequestGuildMembers => 8,
            OPCode::InvalidSession => 9,
            OPCode::Hello => 10,
            OPCode::HeartbeatACK => 11,
        }
    }

    /// The opcode that a wire number stands for. Five and everything above
    /// eleven stand for none.
    pub fn from_code(code: u8) -> (op: Option<OPCode>)
        ensures
            op == OPCode::spec_from_code(code),
            op matches Some(o) ==> o.spec_code() == code,
            op is None <==> (code == 5 || code > 11),
    {
        match code {
            0 => Some(OPCode::Dispatch),
            1 => Some(OPCode::Heartbeat),
            2 => Some(OPCode::Identify),
            3 => Some(OPCode::PresenceUpdate),
            4 => Some(OPCode::VoiceStateUpdate),
            6 => Some(OPCode::Resume),
            7 => Some(OPCode::Reconnect),
            8 => Some(OPCode::RequestGuildMembers),
            9 => Some(OPCode::InvalidSession),
            10 => Some(OPCode::Hello),
            11 => Some(OPCode::HeartbeatACK),
            _ => None,
        }
    }

    /// The side that sends frames with this opcode.
    pub fn direction(&self) -> (d: Direction)
        ensures
            d == self.spec_direction(),
    {
        match self {
            OPCode::Heartbeat => Direction::Both,
            OPCode::Dispatch
            | OPCode::Reconnect
            | OPCode::InvalidSession
            | OPCode::Hello
            | OPCode::HeartbeatACK => Direction::ServerToClient,
            OPCode::Identify
            | OPCode::PresenceUpdate
            | OPCode::VoiceStateUpdate
            | OPCode::Resume
            | OPCode::RequestGuildMembers => Direction::ClientToServer,
        }
    }

    /// Whether a client may receive a frame with this opcode.
    pub fn receivable(&self) -> (b: bool)
        ensures
            b == self.spec_receivable(),
    {
        match self.direction() {
            Direction::ClientToServer => false,
            _ => true,
        }
    }
}

/// Two opcodes with the same wire number are the same opcode.
pub proof fn lemma_opcode_code_injective(a: OPCode, b: OPCode)
    requires
        a.spec_code() == b.spec_code(),
    ensures
        a == b,
{
}

/// What a client does after the server has closed the connection.
#[derive(Clone, Copy, Debug, PartialEq, Eq, Structural)]
pub enum RecoveryAction {
    /// Connect again and start a new session: the old one cannot be resumed.
    RetryReconnect,
    /// Connect again and resume the session.
    RetryResume,
    /// Stop: the token was refused, a new one is needed.
    FatalReauthenticate,
    /// Stop: the configuration sent on identification must change.
    FatalConfiguration,
}

impl RecoveryAction {
    /// Whether the client stops for good.
    pub open spec fn spec_is_fatal(self) -> bool {
        self == RecoveryAction::FatalReauthenticate || self == RecoveryAction::FatalConfiguration
    }

    /// Whether the session may be resumed on the next connection.
    pub open spec fn spec_keeps_session(self) -> bool {
        self == RecoveryAction::RetryResume
    }

    /// Whether the client stops for good.
    pub fn is_fatal(&self) -> (b: bool)
        ensures
            b == self.spec_is_fatal(),
    {
        match self {
            RecoveryAction::FatalReauthenticate | RecoveryAction::FatalConfiguration => true,
            _ => false,
        }
    }

    /// Whether the session may be resumed on the next connection.
    pub fn keeps_session(&self) -> (b: bool)
        ensures
            b == self.spec_keeps_session(),
    {
        match self {
            RecoveryAction::RetryResume => true,
            _ => false,
        }
    }
}

/// The close codes with which the server ends a connection.
#[derive(Clone, Copy, Debug, PartialEq, Eq, Structural)]
pub enum CloseCode {
    /// Unknown reason for closing. Reconnect.
    Unknown,
    /// The client sent an opcode that does not exist.
    UnknownOPCode,
    /// The server failed to decode a payload of the client.
    DecodeError,
    /// A payload was sent before the client identified itself.
    Unauthenticated,
    /// Failed to authenticate: the token is wrong.
    AuthFailed,
    /// The client identified itself twice in one session.
    AlreadyAuthenticated,
    /// The sequence number sent on resuming was not valid.
    InvalidSeq,
    /// Too many payloads were sent too quickly. A new session is needed.
    Ratelimited,
    /// The session timed out. A new session is needed.
    Timeout,
    /// The shard sent on identification was not valid.
    InvalidShard,
    /// The session would handle too many guilds: sharding is required.
    ShardingRequired,
    /// The gateway version asked for does not exist.
    InvalidVersion,
    /// The intents sent on identification were not valid.
    InvalidIntent,
    /// An intent was sent which the client is not allowed to use.
    DisallowedIntent,
}

impl CloseCode {
    /// The number that stands for this close code on the wire.
    pub open spec fn spec_code(self) -> u16 {
        match self {
            CloseCode::Unknown => 4000,
            CloseCode::UnknownOPCode => 4001,
            CloseCode::DecodeError => 4002,
            CloseCode::Unauthenticated => 4003,
            CloseCode::AuthFailed => 4004,
            CloseCode::AlreadyAuthenticated => 4005,
            CloseCode::InvalidSeq => 4007,
            CloseCode::Ratelimited => 4008,
            CloseCode::Timeout => 4009,
            CloseCode::InvalidShard => 4010,
            CloseCode::ShardingRequired => 4011,
            CloseCode::InvalidVersion => 4012,
            CloseCode::InvalidIntent => 4013,
            CloseCode::DisallowedIntent => 4014,
        }
    }

    /// The close code that a wire number stands for, if it stands for one.
    pub open spec fn spec_from_code(code: u16) -> Option<CloseCode> {
        match code {
            4000 => Some(CloseCode::Unknown),
            4001 => Some(CloseCode::UnknownOPCode),
            4002 => Some(CloseCode::DecodeError),
            4003 => Some(CloseCode::Unauthenticated),
            4004 => Some(CloseCode::AuthFailed),
            4005 => Some(CloseCode::AlreadyAuthenticated),
            4007 => Some(CloseCode::InvalidSeq),
            4008 => Some(CloseCode::Ratelimited),
            4009 => Some(CloseCode::Timeout),
            4010 => Some(CloseCode::InvalidShard),
            4011 => Some(CloseCode::ShardingRequired),
            4012 => Some(CloseCode::InvalidVersion),
            4013 => Some(CloseCode::InvalidIntent),
            4014 => Some(CloseCode::DisallowedIntent),
            _ => None,
        }
    }

    /// What the client does after a close with this code.
    ///
    /// A refused token and a second identification are fatal and ask for a
    /// new authentication. A wrong shard, a wrong gateway version, required
    /// sharding and wrong or disallowed intents are fatal and ask for another
    /// configuration. After a rate limit or a timeout the client connects
    /// again with a new session. After every other code it connects again and
    /// resumes.
    pub open spec fn spec_recovery(self) -> RecoveryAction {
        match self {
            CloseCode::AuthFailed | CloseCode::AlreadyAuthenticated => {
                RecoveryAction::FatalReauthenticate
            },
            CloseCode::InvalidShard
            | CloseCode::ShardingRequired
            | CloseCode::InvalidVersion
            | CloseCode::InvalidIntent
            | CloseCode::DisallowedIntent => RecoveryAction::FatalConfiguration,
            CloseCode::Ratelimited | CloseCode::Timeout => RecoveryAction::RetryReconnect,
            CloseCode::Unknown
            | CloseCode::UnknownOPCode
            | CloseCode::DecodeError
            | CloseCode::Unauthenticated
            | CloseCode::InvalidSeq => RecoveryAction::RetryResume,
        }
    }

    /// The number that stands for this close code on the wire.
    pub fn code(&self) -> (c: u16)
        ensures
            c == self.spec_code(),
    {
        match self {
            CloseCode::Unknown => 4000,
            CloseCode::UnknownOPCode => 4001,
            CloseCode::DecodeError => 4002,
            CloseCode::Unauthenticated => 4003,
            CloseCode::AuthFailed => 4004,
            CloseCode::AlreadyAuthenticated => 4005,
            CloseCode::InvalidSeq => 4007,
            CloseCode::Ratelimited => 4008,
            CloseCode::Timeout => 4009,
            CloseCode::InvalidShard => 4010,
            CloseCode::ShardingRequired => 4011,
            CloseCode::InvalidVersion => 4012,
            CloseCode::InvalidIntent => 4013,
            CloseCode::DisallowedIntent => 4014,
        }
    }

    /// The close code that a wire number stands for: one of 4000 to 4014,
    /// without 4006.
    pub fn from_code(code: u16) -> (cc: Option<CloseCode>)
        ensures
            cc == CloseCode::spec_from_code(code),
            cc matches Some(c) ==> c.spec_code() == code,
            cc is None <==> (code < 4000 || code == 4006 || code > 4014),
    {
        match code {
            4000 => Some(CloseCode::Unknown),
            4001 => Some(CloseCode::UnknownOPCode),
            4002 => Some(CloseCode::DecodeError),
            4003 => Some(CloseCode::Unauthenticated),
            4004 => Some(CloseCode::AuthFailed),
            4005 => Some(CloseCode::AlreadyAuthenticated),
            4007 => Some(CloseCode::InvalidSeq),
            4008 => Some(CloseCode::Ratelimited),
            4009 => Some(CloseCode::Timeout),
            4010 => Some(CloseCode::InvalidShard),
            4011 => Some(CloseCode::ShardingRequired),
            4012 => Some(CloseCode::InvalidVersion),
            4013 => Some(CloseCode::InvalidIntent),
            4014 => Some(CloseCode::DisallowedIntent),
            _ => None,
        }
    }

    /// What the client does after a close with this code.
    pub fn recovery(&self) -> (r: RecoveryAction)
        ensures
            r == self.spec_recovery(),
    {
        match self {
            CloseCode::AuthFailed | CloseCode::AlreadyAuthenticated => {
                RecoveryAction::FatalReauthenticate
            },
            CloseCode::InvalidShard
            | CloseCode::ShardingRequired
            | CloseCode::InvalidVersion
            | CloseCode::InvalidIntent
            | CloseCode::DisallowedIntent => RecoveryAction::FatalConfiguration,
            CloseCode::Ratelimited | CloseCode::Timeout => RecoveryAction::RetryReconnect,
            CloseCode::Unknown
            | CloseCode::UnknownOPCode
            | CloseCode::DecodeError
            | CloseCode::Unauthenticated
            | CloseCode::InvalidSeq => RecoveryAction::RetryResume,
        }
    }
}

/// What the client does after a close whose code is the number `code`, or
/// after a close without a code. A number that is no close code of the
/// gateway, and a missing one, mean that the transport failed: the client
/// connects again and resumes.
pub open spec fn spec_recovery_for(code: Option<u16>) -> RecoveryAction {
    match code {
        Some(n) => match CloseCode::spec_from_code(n) {
            Some(cc) => cc.spec_recovery(),
            None => RecoveryAction::RetryResume,
        },
        None => RecoveryAction::RetryResume,
    }
}

/// What the client does after a close whose code is the number `code`, or
/// after a close without a code.
pub fn recovery_for(code: Option<u16>) -> (r: RecoveryAction)
    ensures
        r == spec_recovery_for(code),
{
    match code {
        Some(n) => match CloseCode::from_code(n) {
            Some(cc) => cc.recovery(),
            None => RecoveryAction::RetryResume,
        },
        None => RecoveryAction::RetryResume,
    }
}

} // verus!
