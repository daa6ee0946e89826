use derust::types::gateway::builder::IdentifyObject;
use derust::types::gateway::cache::{CacheAction, CacheOutcome, CacheReply, CacheRequest, Caches};
use derust::types::gateway::client::{
    backoff_delay, Client, ConnectionState, GatewayAction, GatewayEvent,
};
use derust::types::gateway::decoder::DecodeError;
use derust::types::gateway::heartbeat::HeartbeatMonitor;
use derust::types::gateway::opcodes::{CloseCode, OPCode};
use derust::types::gateway::payloads::{
    DiscordEvent, GatewayMessages, GatewayPayload, GatewayPayloadObjects, GuildType, HelloObject,
    ReadyObject,
};
use derust::types::guild::PartialGuild;
use derust::types::user::{PremiumType, User};
use derust::types::Snowflake;
use derust::GATEWAY_URL;

fn ready(session_id: &str, guilds: Vec<PartialGuild>) -> ReadyObject {
    ReadyObject {
        v: 6,
        user: User {
            id: Snowflake(42),
            username: String::from("bot"),
            discriminator: String::from("0001"),
            avatar: String::new(),
            verified: true,
            email: String::new(),
            flags: 0,
            premium_type: PremiumType::NoPremium,
            public_flags: 0,
        },
        private_channels: vec![],
        guilds,
        session_id: String::from(session_id),
        shard: None,
    }
}

fn frame(op: OPCode, d: GatewayPayloadObjects, s: Option<u64>, t: Option<&str>) -> GatewayEvent {
    GatewayEvent::Message(GatewayMessages::Others(GatewayPayload {
        op,
        d,
        s,
        t: t.map(String::from),
    }))
}

fn hello(interval: u64) -> GatewayEvent {
    frame(
        OPCode::Hello,
        GatewayPayloadObjects::Hello(HelloObject { heartbeat_interval: interval }),
        None,
        None,
    )
}

fn ready_frame(session_id: &str, guilds: Vec<PartialGuild>, s: u64) -> GatewayEvent {
    frame(OPCode::Dispatch, GatewayPayloadObjects::Ready(ready(session_id, guilds)), Some(s), Some("READY"))
}

fn guild_create(id: u64, s: u64) -> GatewayEvent {
    frame(
        OPCode::Dispatch,
        GatewayPayloadObjects::GuildCreate(GuildType::Partial(PartialGuild {
            id: Snowflake(id),
            unavailable: false,
        })),
        Some(s),
        Some("GUILD_CREATE"),
    )
}

fn ack() -> GatewayEvent {
    frame(OPCode::HeartbeatACK, GatewayPayloadObjects::Empty, None, None)
}

fn new_client() -> Client {
    Client::new(IdentifyObject::new(String::from("token")), String::from(GATEWAY_URL))
}

/// A client whose session "abc" runs, with the sequence number 1.
fn connected() -> Client {
    let mut client = new_client();
    client.handle(GatewayEvent::SocketOpened);
    client.handle(hello(41250));
    client.handle(ready_frame("abc", vec![], 1));
    assert_eq!(client.state(), ConnectionState::Connected);
    client
}

#[test]
fn new_client_is_about_to_connect() {
    let client = new_client();
    assert_eq!(client.state(), ConnectionState::Connecting);
    assert_eq!(client.gateway_url(), "wss://gateway.discord.gg");
    assert_eq!(client.attempts(), 0);
    assert_eq!(client.heartbeat(), HeartbeatMonitor::Idle);
    assert_eq!(client.session().snapshot_for_resume(), None);
    assert_eq!(client.identify_object().token(), "token");
    assert_eq!(client.login(), vec![GatewayAction::OpenSocket]);
}

#[test]
fn url_can_be_changed() {
    let mut client = new_client();
    client.url(String::from("wss://example.invalid"));
    assert_eq!(client.gateway_url(), "wss://example.invalid");
    assert_eq!(client.state(), ConnectionState::Connecting);
}

#[test]
fn login_starts_only_a_client_that_is_about_to_connect() {
    let client = connected();
    assert_eq!(client.login(), vec![]);
}

#[test]
fn fresh_session_from_hello_to_ready() {
    let mut client = new_client();
    assert_eq!(client.handle(GatewayEvent::SocketOpened), vec![]);
    assert_eq!(client.state(), ConnectionState::AwaitingHello);

    let actions = client.handle(hello(41250));
    assert_eq!(
        actions,
        vec![GatewayAction::StartHeartbeat { interval: 41250 }, GatewayAction::SendIdentify]
    );
    assert_eq!(client.state(), ConnectionState::Identifying);
    assert_eq!(client.session().heartbeat_interval(), Some(41250));
    assert_eq!(client.heartbeat(), HeartbeatMonitor::Armed { interval: 41250 });

    let listed = PartialGuild { id: Snowflake(1), unavailable: true };
    let actions = client.handle(ready_frame("abc", vec![listed], 1));
    assert_eq!(
        actions,
        vec![
            GatewayAction::Cache(CacheRequest::Guild(CacheAction::Push((
                Snowflake(1),
                GuildType::Partial(listed)
            )))),
            GatewayAction::Emit(DiscordEvent::Ready(ready("abc", vec![listed]))),
        ]
    );
    assert_eq!(client.state(), ConnectionState::Connected);
    assert_eq!(client.session().session_id(), Some(&String::from("abc")));
    assert_eq!(client.session().sequence(), Some(1));
}

#[test]
fn ready_seeds_the_cache_in_the_order_of_the_list() {
    let mut client = new_client();
    client.handle(GatewayEvent::SocketOpened);
    client.handle(hello(1000));
    let guilds: Vec<PartialGuild> =
        [5u64, 3, 9].iter().map(|id| PartialGuild { id: Snowflake(*id), unavailable: true }).collect();
    let actions = client.handle(ready_frame("abc", guilds.clone(), 1));
    assert_eq!(actions.len(), 4);
    let mut caches = Caches::initialize();
    let mut emitted = 0;
    for (i, action) in actions.into_iter().enumerate() {
        match action {
            GatewayAction::Cache(request) => {
                assert!(i < 3);
                assert_eq!(caches.handle(request), CacheReply::Guild(CacheOutcome::Pushed(None)));
            }
            GatewayAction::Emit(DiscordEvent::Ready(r)) => {
                assert_eq!(i, 3);
                assert_eq!(r.guilds, guilds);
                emitted += 1;
            }
            other => panic!("unexpected action {:?}", other),
        }
    }
    assert_eq!(emitted, 1);
    assert_eq!(caches.handle(CacheRequest::Guild(CacheAction::Len)), CacheReply::Guild(CacheOutcome::Len(3)));
    assert_eq!(caches.guild(Snowflake(3)), Some(&GuildType::Partial(guilds[1])));
}

#[test]
fn reconnect_resumes_and_refused_resume_identifies() {
    let mut client = connected();
    client.handle(guild_create(10, 5));
    assert_eq!(client.session().sequence(), Some(5));

    let actions = client.handle(frame(OPCode::Reconnect, GatewayPayloadObjects::Empty, None, None));
    assert_eq!(
        actions,
        vec![
            GatewayAction::StopHeartbeat,
            GatewayAction::CloseSocket,
            GatewayAction::ScheduleReconnect { attempt: 0 },
        ]
    );
    assert_eq!(client.state(), ConnectionState::Reconnecting);
    assert_eq!(client.session().snapshot_for_resume(), Some((String::from("abc"), 5)));
    assert_eq!(client.heartbeat(), HeartbeatMonitor::Idle);

    assert_eq!(client.handle(GatewayEvent::SocketClosed(None)), vec![]);
    assert_eq!(client.handle(GatewayEvent::BackoffElapsed), vec![GatewayAction::OpenSocket]);
    assert_eq!(client.state(), ConnectionState::Connecting);
    assert_eq!(client.handle(GatewayEvent::SocketOpened), vec![]);
    let actions = client.handle(hello(41250));
    assert_eq!(
        actions,
        vec![
            GatewayAction::StartHeartbeat { interval: 41250 },
            GatewayAction::SendResume { session_id: String::from("abc"), seq: 5 },
        ]
    );
    assert_eq!(client.state(), ConnectionState::Resuming);

    let actions = client.handle(frame(
        OPCode::InvalidSession,
        GatewayPayloadObjects::InvalidSession(false),
        None,
        None,
    ));
    assert_eq!(
        actions,
        vec![
            GatewayAction::StopHeartbeat,
            GatewayAction::CloseSocket,
            GatewayAction::ScheduleReconnect { attempt: 1 },
        ]
    );
    assert_eq!(client.state(), ConnectionState::Reconnecting);
    assert_eq!(client.session().snapshot_for_resume(), None);
    assert_eq!(client.session().session_id(), None);
    assert_eq!(client.session().sequence(), None);

    client.handle(GatewayEvent::BackoffElapsed);
    client.handle(GatewayEvent::SocketOpened);
    let actions = client.handle(hello(41250));
    assert_eq!(
        actions,
        vec![GatewayAction::StartHeartbeat { interval: 41250 }, GatewayAction::SendIdentify]
    );
    assert_eq!(client.state(), ConnectionState::Identifying);
}

#[test]
fn resumed_session_keeps_the_caches_and_the_sequence() {
    let mut client = connected();
    client.handle(guild_create(10, 5));
    client.handle(GatewayEvent::SocketClosed(Some(1006)));
    assert_eq!(client.state(), ConnectionState::Reconnecting);
    client.handle(GatewayEvent::BackoffElapsed);
    client.handle(GatewayEvent::SocketOpened);
    client.handle(hello(100));
    assert_eq!(client.state(), ConnectionState::Resuming);
    let replayed = client.handle(guild_create(11, 6));
    assert_eq!(replayed.len(), 2);
    assert_eq!(client.state(), ConnectionState::Resuming);
    let actions =
        client.handle(frame(OPCode::Dispatch, GatewayPayloadObjects::Resumed, Some(7), Some("RESUMED")));
    assert_eq!(actions, vec![]);
    assert_eq!(client.state(), ConnectionState::Connected);
    assert_eq!(client.session().snapshot_for_resume(), Some((String::from("abc"), 7)));
    assert_eq!(client.attempts(), 0);
}

#[test]
fn invalid_session_that_can_be_resumed_keeps_the_session() {
    let mut client = connected();
    let actions = client.handle(frame(
        OPCode::InvalidSession,
        GatewayPayloadObjects::InvalidSession(true),
        None,
        None,
    ));
    assert_eq!(actions.len(), 3);
    assert_eq!(client.state(), ConnectionState::Reconnecting);
    assert_eq!(client.session().snapshot_for_resume(), Some((String::from("abc"), 1)));
}

#[test]
fn dispatch_updates_sequence_cache_and_user() {
    let mut client = connected();
    let created = GuildType::Partial(PartialGuild { id: Snowflake(10), unavailable: false });
    let actions = client.handle(guild_create(10, 2));
    assert_eq!(
        actions,
        vec![
            GatewayAction::Cache(CacheRequest::Guild(CacheAction::Push((Snowflake(10), created.clone())))),
            GatewayAction::Emit(DiscordEvent::GuildCreate(created)),
        ]
    );
    assert_eq!(client.session().sequence(), Some(2));
    assert_eq!(client.state(), ConnectionState::Connected);
}

#[test]
fn late_dispatch_does_not_take_the_sequence_back() {
    let mut client = connected();
    for s in [4u64, 2, 9, 3, 9, 1] {
        client.handle(guild_create(s, s));
    }
    assert_eq!(client.session().sequence(), Some(9));
}

#[test]
fn heartbeat_is_sent_and_acknowledged() {
    let mut client = connected();
    let actions = client.handle(GatewayEvent::HeartbeatTick);
    assert_eq!(actions, vec![GatewayAction::SendHeartbeat { seq: Some(1) }]);
    assert!(!client.session().last_ack_received());
    assert_eq!(client.heartbeat(), HeartbeatMonitor::AwaitingAck { interval: 41250 });
    assert_eq!(client.handle(ack()), vec![]);
    assert!(client.session().last_ack_received());
    assert_eq!(client.heartbeat(), HeartbeatMonitor::Armed { interval: 41250 });
    client.handle(guild_create(3, 8));
    let actions = client.handle(GatewayEvent::HeartbeatTick);
    assert_eq!(actions, vec![GatewayAction::SendHeartbeat { seq: Some(8) }]);
    assert_eq!(client.state(), ConnectionState::Connected);
}

#[test]
fn first_heartbeat_before_ready_has_no_sequence() {
    let mut client = new_client();
    client.handle(GatewayEvent::SocketOpened);
    client.handle(hello(10));
    let actions = client.handle(GatewayEvent::HeartbeatTick);
    assert_eq!(actions, vec![GatewayAction::SendHeartbeat { seq: None }]);
    assert_eq!(actions[0].opcode(), Some(OPCode::Heartbeat));
}

#[test]
fn missed_ack_makes_the_client_reconnect_and_resume() {
    let mut client = connected();
    assert_eq!(
        client.handle(GatewayEvent::HeartbeatTick),
        vec![GatewayAction::SendHeartbeat { seq: Some(1) }]
    );
    let actions = client.handle(GatewayEvent::HeartbeatTick);
    assert_eq!(
        actions,
        vec![
            GatewayAction::StopHeartbeat,
            GatewayAction::CloseSocket,
            GatewayAction::ScheduleReconnect { attempt: 0 },
        ]
    );
    assert_eq!(client.state(), ConnectionState::Reconnecting);
    assert_eq!(client.session().snapshot_for_resume(), Some((String::from("abc"), 1)));
    assert_eq!(client.handle(GatewayEvent::HeartbeatTick), vec![]);
}

#[test]
fn server_may_ask_for_a_heartbeat() {
    let mut client = connected();
    let actions =
        client.handle(frame(OPCode::Heartbeat, GatewayPayloadObjects::Heartbeat(None), None, None));
    assert_eq!(actions, vec![GatewayAction::SendHeartbeat { seq: Some(1) }]);
    assert!(client.session().last_ack_received());
}

#[test]
fn decode_failure_reconnects_with_the_session() {
    let mut client = connected();
    let actions = client.handle(GatewayEvent::DecodeFailed(DecodeError::InvalidUtf8));
    assert_eq!(actions.len(), 3);
    assert_eq!(actions[1], GatewayAction::CloseSocket);
    assert_eq!(client.state(), ConnectionState::Reconnecting);
    assert_eq!(client.session().snapshot_for_resume(), Some((String::from("abc"), 1)));
}

#[test]
fn malformed_frame_counts_as_decode_failure() {
    let mut client = connected();
    let actions = client.handle(frame(OPCode::Hello, GatewayPayloadObjects::Empty, None, None));
    assert_eq!(
        actions,
        vec![
            GatewayAction::StopHeartbeat,
            GatewayAction::CloseSocket,
            GatewayAction::ScheduleReconnect { attempt: 0 },
        ]
    );
    assert_eq!(client.state(), ConnectionState::Reconnecting);
}

#[test]
fn fatal_close_code_stops_the_client() {
    for (number, code) in [
        (4004u16, CloseCode::AuthFailed),
        (4005, CloseCode::AlreadyAuthenticated),
        (4010, CloseCode::InvalidShard),
        (4013, CloseCode::InvalidIntent),
        (4014, CloseCode::DisallowedIntent),
    ] {
        let mut client = connected();
        let actions = client.handle(GatewayEvent::SocketClosed(Some(number)));
        assert_eq!(
            actions,
            vec![GatewayAction::StopHeartbeat, GatewayAction::CloseEvents { failure: Some(code) }]
        );
        assert_eq!(client.state(), ConnectionState::Closed);
        assert_eq!(client.session().snapshot_for_resume(), None);
        assert_eq!(client.handle(GatewayEvent::BackoffElapsed), vec![]);
        assert_eq!(client.handle(hello(1)), vec![]);
        assert_eq!(client.state(), ConnectionState::Closed);
    }
}

#[test]
fn retryable_close_codes_reconnect() {
    for number in [4000u16, 4001, 4002, 4003, 4007, 1000, 1006] {
        let mut client = connected();
        let actions = client.handle(GatewayEvent::SocketClosed(Some(number)));
        assert_eq!(
            actions,
            vec![GatewayAction::StopHeartbeat, GatewayAction::ScheduleReconnect { attempt: 0 }]
        );
        assert_eq!(client.state(), ConnectionState::Reconnecting);
        assert_eq!(client.session().snapshot_for_resume(), Some((String::from("abc"), 1)));
    }
    for number in [4008u16, 4009] {
        let mut client = connected();
        client.handle(GatewayEvent::SocketClosed(Some(number)));
        assert_eq!(client.state(), ConnectionState::Reconnecting);
        assert_eq!(client.session().snapshot_for_resume(), None);
    }
}

#[test]
fn failed_connection_attempts_are_counted() {
    let mut client = new_client();
    for attempt in 0..4u32 {
        let actions = client.handle(GatewayEvent::SocketClosed(None));
        assert_eq!(
            actions,
            vec![GatewayAction::StopHeartbeat, GatewayAction::ScheduleReconnect { attempt }]
        );
        assert_eq!(client.attempts(), attempt + 1);
        assert_eq!(client.handle(GatewayEvent::BackoffElapsed), vec![GatewayAction::OpenSocket]);
    }
    client.handle(GatewayEvent::SocketOpened);
    client.handle(hello(1));
    assert_eq!(client.attempts(), 4);
    client.handle(ready_frame("abc", vec![], 1));
    assert_eq!(client.attempts(), 0);
}

#[test]
fn shutdown_closes_everything() {
    let mut client = connected();
    let actions = client.handle(GatewayEvent::Shutdown);
    assert_eq!(
        actions,
        vec![
            GatewayAction::StopHeartbeat,
            GatewayAction::CloseSocket,
            GatewayAction::CloseEvents { failure: None },
        ]
    );
    assert_eq!(client.state(), ConnectionState::Closed);
    assert_eq!(client.handle(GatewayEvent::Shutdown), vec![]);
    assert_eq!(client.handle(GatewayEvent::SocketClosed(None)), vec![]);
    assert_eq!(client.handle(GatewayEvent::HeartbeatTick), vec![]);
}

#[test]
fn shutdown_without_a_socket_closes_none() {
    let mut client = new_client();
    let actions = client.handle(GatewayEvent::Shutdown);
    assert_eq!(
        actions,
        vec![GatewayAction::StopHeartbeat, GatewayAction::CloseEvents { failure: None }]
    );
}

#[test]
fn stale_frames_are_ignored() {
    let mut client = new_client();
    assert_eq!(client.handle(hello(5)), vec![]);
    assert_eq!(client.state(), ConnectionState::Connecting);
    assert_eq!(client.handle(ready_frame("abc", vec![], 1)), vec![]);
    assert_eq!(client.session().session_id(), None);
    client.handle(GatewayEvent::SocketOpened);
    assert_eq!(client.handle(ready_frame("abc", vec![], 1)), vec![]);
    assert_eq!(client.state(), ConnectionState::AwaitingHello);
    assert_eq!(client.handle(GatewayEvent::HeartbeatTick), vec![]);
    let mut running = connected();
    assert_eq!(running.handle(hello(5)), vec![]);
    assert_eq!(running.session().heartbeat_interval(), Some(41250));
}

#[test]
fn bare_ready_object_starts_a_session_without_sequence() {
    let mut client = new_client();
    client.handle(GatewayEvent::SocketOpened);
    client.handle(hello(5));
    let actions =
        client.handle(GatewayEvent::Message(GatewayMessages::Ready(ready("xyz", vec![]))));
    assert_eq!(actions, vec![GatewayAction::Emit(DiscordEvent::Ready(ready("xyz", vec![])))]);
    assert_eq!(client.state(), ConnectionState::Connected);
    assert_eq!(client.session().session_id(), Some(&String::from("xyz")));
    assert_eq!(client.session().sequence(), None);
}

#[test]
fn handle_ws_payload_is_the_frame_handler() {
    let mut client = new_client();
    client.handle(GatewayEvent::SocketOpened);
    let actions = client.handle_ws_payload(GatewayPayload {
        op: OPCode::Hello,
        d: GatewayPayloadObjects::Hello(HelloObject { heartbeat_interval: 250 }),
        s: None,
        t: None,
    });
    assert_eq!(
        actions,
        vec![GatewayAction::StartHeartbeat { interval: 250 }, GatewayAction::SendIdentify]
    );
    assert_eq!(actions[1].opcode(), Some(OPCode::Identify));
    assert_eq!(actions[0].opcode(), None);
}

#[test]
fn backoff_delays() {
    assert_eq!(backoff_delay(0, 0), 1000);
    assert_eq!(backoff_delay(0, 999), 1999);
    assert_eq!(backoff_delay(0, 1000), 1000);
    assert_eq!(backoff_delay(1, 1234), 3234);
    assert_eq!(backoff_delay(2, 4001), 4001);
    assert_eq!(backoff_delay(3, 7), 8007);
    assert_eq!(backoff_delay(5, 0), 32000);
    assert_eq!(backoff_delay(6, 63999), 127999);
    assert_eq!(backoff_delay(7, 0), 64000);
    assert_eq!(backoff_delay(u32::MAX, u64::MAX), 64000 + u64::MAX % 64000);
}

#[test]
fn unreadable_document_reconnects() {
    let mut client = connected();
    let actions = client.handle(GatewayEvent::DecodeFailed(DecodeError::Malformed));
    assert_eq!(actions.len(), 3);
    assert_eq!(client.state(), ConnectionState::Reconnecting);
}
