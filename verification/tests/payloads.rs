use derust::types::gateway::builder::IdentifyObject;
use derust::types::gateway::decoder::DecodeError;
use derust::types::gateway::opcodes::OPCode;
use derust::types::gateway::payloads::{
    event_kind, expected_kind, expected_payload, GatewayPayload, GatewayPayloadObjects, GuildType,
    HelloObject, PayloadKind, ReadyObject, ResumeObject,
};
use derust::types::guild::PartialGuild;
use derust::types::user::{PremiumType, User};
use derust::types::Snowflake;

fn ready() -> ReadyObject {
    ReadyObject {
        v: 6,
        user: User {
            id: Snowflake(42),
            username: String::from("bot"),
            discriminator: String::from("0001"),
            avatar: String::new(),
            verified: true,
            email: String::new(),
            flags: 0,
            premium_type: PremiumType::NoPremium,
            public_flags: 0,
        },
        private_channels: vec![],
        guilds: vec![],
        session_id: String::from("abc"),
        shard: None,
    }
}

fn frame(op: OPCode, d: GatewayPayloadObjects, s: Option<u64>, t: Option<&str>) -> GatewayPayload {
    GatewayPayload { op, d, s, t: t.map(String::from) }
}

#[test]
fn known_event_names() {
    assert_eq!(event_kind(&String::from("READY")), Some(PayloadKind::Ready));
    assert_eq!(event_kind(&String::from("RESUMED")), Some(PayloadKind::Resumed));
    assert_eq!(event_kind(&String::from("GUILD_CREATE")), Some(PayloadKind::GuildCreate));
    assert_eq!(event_kind(&String::from("ready")), None);
    assert_eq!(event_kind(&String::from("")), None);
    assert_eq!(event_kind(&String::from("MESSAGE_CREATE")), None);
}

#[test]
fn expected_kind_by_opcode() {
    assert_eq!(expected_kind(OPCode::Hello, None), Ok(PayloadKind::Hello));
    assert_eq!(expected_kind(OPCode::InvalidSession, None), Ok(PayloadKind::InvalidSession));
    assert_eq!(expected_kind(OPCode::Heartbeat, None), Ok(PayloadKind::Heartbeat));
    assert_eq!(expected_kind(OPCode::Reconnect, None), Ok(PayloadKind::Empty));
    assert_eq!(expected_kind(OPCode::HeartbeatACK, None), Ok(PayloadKind::Empty));
    assert_eq!(
        expected_kind(OPCode::Dispatch, Some(&String::from("READY"))),
        Ok(PayloadKind::Ready)
    );
    assert_eq!(expected_kind(OPCode::Dispatch, None), Err(DecodeError::UnknownEvent));
    assert_eq!(
        expected_kind(OPCode::Dispatch, Some(&String::from("TYPING_START"))),
        Err(DecodeError::UnknownEvent)
    );
    for op in [
        OPCode::Identify,
        OPCode::PresenceUpdate,
        OPCode::VoiceStateUpdate,
        OPCode::Resume,
        OPCode::RequestGuildMembers,
    ] {
        assert_eq!(expected_kind(op, None), Err(DecodeError::UnexpectedOpcode));
    }
}

#[test]
fn expected_payload_by_number() {
    assert_eq!(expected_payload(10, None), Ok(PayloadKind::Hello));
    assert_eq!(expected_payload(11, None), Ok(PayloadKind::Empty));
    assert_eq!(expected_payload(7, None), Ok(PayloadKind::Empty));
    assert_eq!(expected_payload(9, None), Ok(PayloadKind::InvalidSession));
    assert_eq!(expected_payload(1, None), Ok(PayloadKind::Heartbeat));
    assert_eq!(
        expected_payload(0, Some(&String::from("GUILD_CREATE"))),
        Ok(PayloadKind::GuildCreate)
    );
    assert_eq!(expected_payload(0, Some(&String::from("RESUMED"))), Ok(PayloadKind::Resumed));
    assert_eq!(expected_payload(0, None), Err(DecodeError::UnknownEvent));
    assert_eq!(expected_payload(5, None), Err(DecodeError::UnknownOpcode));
    assert_eq!(expected_payload(12, None), Err(DecodeError::UnknownOpcode));
    assert_eq!(expected_payload(2, None), Err(DecodeError::UnexpectedOpcode));
    assert_eq!(expected_payload(6, None), Err(DecodeError::UnexpectedOpcode));
}

#[test]
fn payload_kinds() {
    assert_eq!(
        GatewayPayloadObjects::Hello(HelloObject { heartbeat_interval: 1 }).kind(),
        PayloadKind::Hello
    );
    assert_eq!(
        GatewayPayloadObjects::Identify(IdentifyObject::new(String::from("t"))).kind(),
        PayloadKind::Identify
    );
    assert_eq!(
        GatewayPayloadObjects::Resume(ResumeObject {
            token: String::from("t"),
            session_id: String::from("abc"),
            seq: 1
        })
        .kind(),
        PayloadKind::Resume
    );
    assert_eq!(GatewayPayloadObjects::Heartbeat(Some(3)).kind(), PayloadKind::Heartbeat);
    assert_eq!(GatewayPayloadObjects::InvalidSession(true).kind(), PayloadKind::InvalidSession);
    assert_eq!(GatewayPayloadObjects::Ready(ready()).kind(), PayloadKind::Ready);
    assert_eq!(GatewayPayloadObjects::Resumed.kind(), PayloadKind::Resumed);
    assert_eq!(GatewayPayloadObjects::Empty.kind(), PayloadKind::Empty);
}

#[test]
fn well_formed_frames_pass_the_check() {
    let hello = GatewayPayloadObjects::Hello(HelloObject { heartbeat_interval: 41250 });
    assert_eq!(frame(OPCode::Hello, hello, None, None).check(), Ok(PayloadKind::Hello));
    assert_eq!(
        frame(OPCode::Dispatch, GatewayPayloadObjects::Ready(ready()), Some(1), Some("READY"))
            .check(),
        Ok(PayloadKind::Ready)
    );
    assert_eq!(
        frame(OPCode::Dispatch, GatewayPayloadObjects::Resumed, Some(9), Some("RESUMED")).check(),
        Ok(PayloadKind::Resumed)
    );
    assert_eq!(
        frame(OPCode::HeartbeatACK, GatewayPayloadObjects::Empty, None, None).check(),
        Ok(PayloadKind::Empty)
    );
    assert_eq!(
        frame(OPCode::Reconnect, GatewayPayloadObjects::Empty, None, None).check(),
        Ok(PayloadKind::Empty)
    );
    assert_eq!(
        frame(OPCode::InvalidSession, GatewayPayloadObjects::InvalidSession(false), None, None)
            .check(),
        Ok(PayloadKind::InvalidSession)
    );
    assert_eq!(
        frame(OPCode::Heartbeat, GatewayPayloadObjects::Heartbeat(None), None, None).check(),
        Ok(PayloadKind::Heartbeat)
    );
}

#[test]
fn check_refuses_opcodes_of_clients() {
    let identify = GatewayPayloadObjects::Identify(IdentifyObject::new(String::from("t")));
    assert_eq!(
        frame(OPCode::Identify, identify, None, None).check(),
        Err(DecodeError::UnexpectedOpcode)
    );
    assert_eq!(
        frame(OPCode::Resume, GatewayPayloadObjects::Empty, None, None).check(),
        Err(DecodeError::UnexpectedOpcode)
    );
}

#[test]
fn check_refuses_dispatch_without_known_event() {
    assert_eq!(
        frame(OPCode::Dispatch, GatewayPayloadObjects::Resumed, Some(1), None).check(),
        Err(DecodeError::UnknownEvent)
    );
    assert_eq!(
        frame(OPCode::Dispatch, GatewayPayloadObjects::Resumed, Some(1), Some("NOPE")).check(),
        Err(DecodeError::UnknownEvent)
    );
}

#[test]
fn check_refuses_dispatch_without_sequence() {
    assert_eq!(
        frame(OPCode::Dispatch, GatewayPayloadObjects::Resumed, None, Some("RESUMED")).check(),
        Err(DecodeError::MissingSequence)
    );
}

#[test]
fn check_refuses_sequence_or_name_outside_dispatch() {
    assert_eq!(
        frame(OPCode::HeartbeatACK, GatewayPayloadObjects::Empty, Some(1), None).check(),
        Err(DecodeError::UnexpectedDispatchField)
    );
    assert_eq!(
        frame(OPCode::HeartbeatACK, GatewayPayloadObjects::Empty, None, Some("READY")).check(),
        Err(DecodeError::UnexpectedDispatchField)
    );
}

#[test]
fn check_refuses_payload_of_another_kind() {
    assert_eq!(
        frame(OPCode::Hello, GatewayPayloadObjects::Empty, None, None).check(),
        Err(DecodeError::PayloadMismatch)
    );
    assert_eq!(
        frame(OPCode::Dispatch, GatewayPayloadObjects::Resumed, Some(1), Some("READY")).check(),
        Err(DecodeError::PayloadMismatch)
    );
    assert_eq!(
        frame(
            OPCode::Reconnect,
            GatewayPayloadObjects::Hello(HelloObject { heartbeat_interval: 1 }),
            None,
            None
        )
        .check(),
        Err(DecodeError::PayloadMismatch)
    );
}

#[test]
fn guild_identifier() {
    let partial = GuildType::Partial(PartialGuild { id: Snowflake(77), unavailable: false });
    assert_eq!(partial.id(), Snowflake(77));
}
