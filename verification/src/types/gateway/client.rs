//! The connection supervisor: the state machine of a gateway client.
//!
//! The supervisor owns no socket and no timer. It is told what happened, as
//! a [`GatewayEvent`], and answers with what is to be done, as a list of
//! [`GatewayAction`]s in the order in which they are due. The program around
//! it opens and closes the socket, runs the timers, and reports back.
use crate::types::gateway::builder::{IdentifyObject, IdentifyObjectView};
use crate::types::gateway::cache::{CacheAction, CacheRequest};
use crate::types::gateway::decoder::DecodeError;
use crate::types::gateway::heartbeat::{HeartbeatAction, HeartbeatMonitor};
use crate::types::gateway::opcodes::{
    recovery_for, spec_recovery_for, CloseCode, OPCode, RecoveryAction,
};
use crate::types::gateway::payloads::{
    DiscordEvent, GatewayMessages, GatewayPayload, GatewayPayloadObjects, GuildType, HelloObject,
    ReadyObject,
};
use crate::types::gateway::session::{Session, SessionView};
use crate::types::guild::PartialGuild;
use vstd::prelude::*;

verus! {

/// The states of a connection.
#[derive(Clone, Copy, Debug, PartialEq, Eq, Structural)]
pub enum ConnectionState {
    /// The socket is being opened.
    Connecting,
    /// The socket is open and the server has not said hello yet.
    AwaitingHello,
    /// The client has identified itself and waits for the session to start.
    Identifying,
    /// The client has asked to resume its session and waits for the answer.
    Resuming,
    /// The session runs.
    Connected,
    /// The connection is gone and the client waits before it connects again.
    Reconnecting,
    /// The client has stopped for good.
    Closed,
}

/// What happened, as the supervisor is told.
#[derive(Debug, PartialEq, Eq)]
pub enum GatewayEvent {
    /// The socket is open.
    SocketOpened,
    /// A frame came in and was decoded.
    Message(GatewayMessages),
    /// A frame came in and could not be decoded.
    DecodeFailed(DecodeError),
    /// The heartbeat timer ticked.
    HeartbeatTick,
    /// The socket was closed by the server or broke, with the close code if
    /// one came.
    SocketClosed(Option<u16>),
    /// The wait before connecting again is over.
    BackoffElapsed,
    /// The user of the client asks it to stop.
    Shutdown,
}

/// What is to be done, as the supervisor answers.
#[derive(Debug, PartialEq, Eq)]
pub enum GatewayAction {
    /// Open the socket to the gateway.
    OpenSocket,
    /// Close the socket.
    CloseSocket,
    /// Start the heartbeat timer with this time between two ticks, in
    /// milliseconds.
    StartHeartbeat { interval: u64 },
    /// Stop the heartbeat timer.
    StopHeartbeat,
    /// Send an identify frame with the identify object of the client.
    SendIdentify,
    /// Send a resume frame with the token of the client and with this
    /// session identifier and sequence number.
    SendResume { session_id: String, seq: u64 },
    /// Send a heartbeat frame with this sequence number.
    SendHeartbeat { seq: Option<u64> },
    /// Hand this request to the caches.
    Cache(CacheRequest),
    /// Hand this event to the user.
    Emit(DiscordEvent),
    /// Wait, then report that the wait is over. `attempt` counts the
    /// connections lost in a row before this one, and sets the length of the
    /// wait.
    ScheduleReconnect { attempt: u32 },
    /// Close the stream of events. With a close code the client has failed
    /// for good; without, it stops because it was asked to.
    CloseEvents { failure: Option<CloseCode> },
}

/// The mathematical value of a [`GatewayAction`].
pub enum GatewayActionView {
    OpenSocket,
    CloseSocket,
    StartHeartbeat { interval: u64 },
    StopHeartbeat,
    SendIdentify,
    SendResume { session_id: Seq<char>, seq: u64 },
    SendHeartbeat { seq: Option<u64> },
    Cache(CacheRequest),
    Emit(DiscordEvent),
    ScheduleReconnect { attempt: u32 },
    CloseEvents { failure: Option<CloseCode> },
}

impl View for GatewayAction {
    type V = GatewayActionView;

    open spec fn view(&self) -> GatewayActionView {
        match *self {
            GatewayAction::OpenSocket => GatewayActionView::OpenSocket,
            GatewayAction::CloseSocket => GatewayActionView::CloseSocket,
            GatewayAction::StartHeartbeat { interval } => GatewayActionView::StartHeartbeat {
                interval,
            },
            GatewayAction::StopHeartbeat => GatewayActionView::StopHeartbeat,
            GatewayAction::SendIdentify => GatewayActionView::SendIdentify,
            GatewayAction::SendResume { session_id, seq } => GatewayActionView::SendResume {
                session_id: session_id@,
                seq,
            },
            GatewayAction::SendHeartbeat { seq } => GatewayActionView::SendHeartbeat { seq },
            GatewayAction::Cache(request) => GatewayActionView::Cache(request),
            GatewayAction::Emit(event) => GatewayActionView::Emit(event),
            GatewayAction::ScheduleReconnect { attempt } => GatewayActionView::ScheduleReconnect {
                attempt,
            },
            GatewayAction::CloseEvents { failure } => GatewayActionView::CloseEvents { failure },
        }
    }
}

impl GatewayAction {
    /// The opcode of the frame that this action sends, if it sends one.
    pub open spec fn spec_opcode(self) -> Option<OPCode> {
        match self {
            GatewayAction::SendIdentify => Some(OPCode::Identify),
            GatewayAction::SendResume { .. } => Some(OPCode::Resume),
            GatewayAction::SendHeartbeat { .. } => Some(OPCode::Heartbeat),
            _ => None,
        }
    }

    /// The opcode of the frame that this action sends, if it sends one.
    pub fn opcode(&self) -> (op: Option<OPCode>)
        ensures
            op == self.spec_opcode(),
    {
        match self {
            GatewayAction::SendIdentify => Some(OPCode::Identify),
            GatewayAction::SendResume { .. } => Some(OPCode::Resume),
            GatewayAction::SendHeartbeat { .. } => Some(OPCode::Heartbeat),
            _ => None,
        }
    }
}

/// The views of a list of actions.
pub open spec fn actions_view(actions: Seq<GatewayAction>) -> Seq<GatewayActionView> {
    actions.map_values(|a: GatewayAction| a@)
}

/// Whether `actual` is the action `expected`. A guild that goes to the cache
/// is a clone of the guild that came in, made by the `Clone` of its type.
pub open spec fn action_matches(expected: GatewayActionView, actual: GatewayActionView) -> bool {
    match (expected, actual) {
        (
            GatewayActionView::Cache(CacheRequest::Guild(CacheAction::Push((k, guild)))),
            GatewayActionView::Cache(CacheRequest::Guild(CacheAction::Push((pushed_k, pushed)))),
        ) => k == pushed_k && cloned(guild, pushed),
        _ => expected == actual,
    }
}

/// Whether `actual` holds the actions `expected`, in the same order.
pub open spec fn actions_match(
    expected: Seq<GatewayActionView>,
    actual: Seq<GatewayActionView>,
) -> bool {
    &&& expected.len() == actual.len()
    &&& forall|i: int| 0 <= i < expected.len() ==> action_matches(expected[i], #[trigger] actual[i])
}

/// A state after an event, and the actions that are due.
pub struct Transition {
    pub next: ClientView,
    pub actions: Seq<GatewayActionView>,
}

/// The mathematical value of a [`Client`].
pub struct ClientView {
    /// The URL of the gateway.
    pub url: Seq<char>,
    /// What the client sends to identify itself.
    pub identify: IdentifyObjectView,
    /// What the client remembers of its session.
    pub session: SessionView,
    /// The heartbeat monitor.
    pub heartbeat: HeartbeatMonitor,
    /// The state of the connection.
    pub state: ConnectionState,
    /// The number of connections lost in a row.
    pub attempts: u32,
}

/// The requests that seed the guild cache when a session starts: one push
/// for each guild of the list, under its identifier, in the order of the
/// list.
pub open spec fn spec_seed_requests(guilds: Seq<PartialGuild>) -> Seq<GatewayActionView> {
    Seq::new(
        guilds.len(),
        |i: int|
            GatewayActionView::Cache(
                CacheRequest::Guild(CacheAction::Push((guilds[i].id, GuildType::Partial(guilds[i])))),
            ),
    )
}

impl ClientView {
    /// Whether the socket is open.
    pub open spec fn socket_open(self) -> bool {
        self.in_session() || self.state == ConnectionState::AwaitingHello
    }

    /// Whether the server has said hello on this connection, so that
    /// heartbeats are due.
    pub open spec fn in_session(self) -> bool {
        self.state == ConnectionState::Identifying || self.state == ConnectionState::Resuming
            || self.state == ConnectionState::Connected
    }

    /// The heartbeat monitor runs exactly while heartbeats are due, with the
    /// interval that the session remembers, and it awaits an acknowledgement
    /// exactly when the session does.
    pub open spec fn wf(self) -> bool {
        &&& self.identify.wf()
        &&& self.in_session() ==> {
            ||| (self.heartbeat matches HeartbeatMonitor::Armed { interval }
                && self.session.heartbeat_interval == Some(interval)
                && self.session.last_ack_received)
            ||| (self.heartbeat matches HeartbeatMonitor::AwaitingAck { interval }
                && self.session.heartbeat_interval == Some(interval)
                && !self.session.last_ack_received)
        }
        &&& !self.in_session() ==> self.heartbeat == HeartbeatMonitor::Idle
    }

    /// Nothing happens.
    pub open spec fn stay(self) -> Transition {
        Transition { next: self, actions: Seq::empty() }
    }

    /// The number of connections lost in a row, after one more.
    pub open spec fn next_attempt(self) -> u32 {
        if self.attempts < u32::MAX {
            (self.attempts + 1) as u32
        } else {
            self.attempts
        }
    }

    /// The connection is given up and another one is due. The heartbeat
    /// stops. The session stays unless `hard` is set. The socket is closed
    /// unless it is closed already.
    pub open spec fn reconnect(self, hard: bool, close_socket: bool) -> Transition {
        Transition {
            next: ClientView {
                state: ConnectionState::Reconnecting,
                session: self.session.invalidate(hard),
                heartbeat: HeartbeatMonitor::Idle,
                attempts: self.next_attempt(),
                ..self
            },
            actions: if close_socket {
                seq![
                    GatewayActionView::StopHeartbeat,
                    GatewayActionView::CloseSocket,
                    GatewayActionView::ScheduleReconnect { attempt: self.attempts },
                ]
            } else {
                seq![
                    GatewayActionView::StopHeartbeat,
                    GatewayActionView::ScheduleReconnect { attempt: self.attempts },
                ]
            },
        }
    }

    /// The client stops for good: the heartbeat stops, the session is
    /// forgotten, and the stream of events is closed, with the close code
    /// that made the client fail if there is one.
    pub open spec fn close(self, failure: Option<CloseCode>, close_socket: bool) -> Transition {
        Transition {
            next: ClientView {
                state: ConnectionState::Closed,
                session: self.session.invalidate(true),
                heartbeat: HeartbeatMonitor::Idle,
                ..self
            },
            actions: if close_socket {
                seq![
                    GatewayActionView::StopHeartbeat,
                    GatewayActionView::CloseSocket,
                    GatewayActionView::CloseEvents { failure },
                ]
            } else {
                seq![GatewayActionView::StopHeartbeat, GatewayActionView::CloseEvents { failure }]
            },
        }
    }

    /// The server says hello. A client that waits for it arms the heartbeat
    /// and then resumes its session, if it has one that can be resumed, or
    /// else identifies itself. In any other state the frame is ignored.
    pub open spec fn on_hello(self, hello: HelloObject) -> Transition {
        if self.state != ConnectionState::AwaitingHello {
            self.stay()
        } else {
            let interval = hello.heartbeat_interval;
            let armed = ClientView {
                session: self.session.on_hello(interval),
                heartbeat: HeartbeatMonitor::spec_arm(interval),
                ..self
            };
            match self.session.snapshot_for_resume() {
                Some((session_id, seq)) => Transition {
                    next: ClientView { state: ConnectionState::Resuming, ..armed },
                    actions: seq![
                        GatewayActionView::StartHeartbeat { interval },
                        GatewayActionView::SendResume { session_id, seq },
                    ],
                },
                None => Transition {
                    next: ClientView { state: ConnectionState::Identifying, ..armed },
                    actions: seq![
                        GatewayActionView::StartHeartbeat { interval },
                        GatewayActionView::SendIdentify,
                    ],
                },
            }
        }
    }

    /// A session has started. The client takes note of the sequence number
    /// and of the session identifier, seeds the guild cache from the list of
    /// guilds, and hands the event to the user. Before the server has said
    /// hello the frame is ignored.
    pub open spec fn on_ready(self, ready: ReadyObject, s: Option<u64>) -> Transition {
        if !self.in_session() {
            self.stay()
        } else {
            Transition {
                next: ClientView {
                    state: ConnectionState::Connected,
                    session: self.session.on_dispatch(s).on_ready(ready.session_id@),
                    attempts: 0,
                    ..self
                },
                actions: spec_seed_requests(ready.guilds@).push(
                    GatewayActionView::Emit(DiscordEvent::Ready(ready)),
                ),
            }
        }
    }

    /// A session has been resumed. The client takes note of the sequence
    /// number; the caches stay as they are.
    pub open spec fn on_resumed(self, s: Option<u64>) -> Transition {
        if !self.in_session() {
            self.stay()
        } else {
            Transition {
                next: ClientView {
                    state: ConnectionState::Connected,
                    session: self.session.on_dispatch(s),
                    attempts: 0,
                    ..self
                },
                actions: Seq::empty(),
            }
        }
    }

    /// A guild has become available. The client takes note of the sequence
    /// number, sends the guild to the cache, and hands the event to the
    /// user.
    pub open spec fn on_guild_create(self, guild: GuildType, s: Option<u64>) -> Transition {
        if !self.in_session() {
            self.stay()
        } else {
            Transition {
                next: ClientView { session: self.session.on_dispatch(s), ..self },
                actions: seq![
                    GatewayActionView::Cache(
                        CacheRequest::Guild(CacheAction::Push((guild.spec_id(), guild))),
                    ),
                    GatewayActionView::Emit(DiscordEvent::GuildCreate(guild)),
                ],
            }
        }
    }

    /// The server acknowledges a heartbeat.
    pub open spec fn on_heartbeat_ack(self) -> Transition {
        if !self.in_session() {
            self.stay()
        } else {
            Transition {
                next: ClientView {
                    session: self.session.on_heartbeat_ack(),
                    heartbeat: self.heartbeat.spec_ack(),
                    ..self
                },
                actions: Seq::empty(),
            }
        }
    }

    /// The server asks for a heartbeat: the client sends one at once. The
    /// timer and what it waits for stay as they are.
    pub open spec fn on_heartbeat_request(self) -> Transition {
        if !self.in_session() {
            self.stay()
        } else {
            Transition {
                next: self,
                actions: seq![GatewayActionView::SendHeartbeat { seq: self.session.sequence }],
            }
        }
    }

    /// A frame in its envelope came in. While no socket is open the frame is
    /// stale and ignored. A frame that is not well formed counts as one that
    /// could not be decoded. A request to reconnect ends the connection and
    /// keeps the session; an invalid session ends it too, and keeps the
    /// session only if the server says that it can be resumed.
    pub open spec fn on_payload(self, msg: GatewayPayload) -> Transition {
        if !self.socket_open() {
            self.stay()
        } else if msg.spec_check() is Err {
            self.reconnect(false, true)
        } else {
            match msg.d {
                GatewayPayloadObjects::Hello(hello) => self.on_hello(hello),
                GatewayPayloadObjects::Ready(ready) => self.on_ready(ready, msg.s),
                GatewayPayloadObjects::Resumed => self.on_resumed(msg.s),
                GatewayPayloadObjects::GuildCreate(guild) => self.on_guild_create(guild, msg.s),
                GatewayPayloadObjects::InvalidSession(resumable) => self.reconnect(
                    !resumable,
                    true,
                ),
                GatewayPayloadObjects::Heartbeat(_) => self.on_heartbeat_request(),
                GatewayPayloadObjects::Empty => if msg.op == OPCode::Reconnect {
                    self.reconnect(false, true)
                } else {
                    self.on_heartbeat_ack()
                },
                _ => self.stay(),
            }
        }
    }

    /// Something came from the server: a frame in its envelope, or a bare
    /// ready object, which is taken as the start of a session without a
    /// sequence number.
    pub open spec fn on_message(self, msg: GatewayMessages) -> Transition {
        match msg {
            GatewayMessages::Others(payload) => self.on_payload(payload),
            GatewayMessages::Ready(ready) => if self.socket_open() {
                self.on_ready(ready, None)
            } else {
                self.stay()
            },
        }
    }

    /// The heartbeat timer ticked. If the last heartbeat was acknowledged the
    /// next one is sent; if not, the connection is dead, and the client
    /// reconnects and keeps its session.
    pub open spec fn on_tick(self) -> Transition {
        match self.heartbeat.spec_tick_action(self.session.sequence) {
            HeartbeatAction::Nothing => self.stay(),
            HeartbeatAction::Send { sequence } => Transition {
                next: ClientView {
                    session: self.session.on_heartbeat_sent(),
                    heartbeat: self.heartbeat.spec_tick(),
                    ..self
                },
                actions: seq![GatewayActionView::SendHeartbeat { seq: sequence }],
            },
            HeartbeatAction::Dead => self.reconnect(false, true),
        }
    }

    /// The socket was closed from outside. A client that has closed the
    /// socket itself takes no notice. Otherwise the close code decides: a
    /// fatal one stops the client for good, a code that ends the session
    /// makes it reconnect without the session, and any other code, an unknown
    /// one, or none makes it reconnect with the session.
    pub open spec fn on_socket_closed(self, code: Option<u16>) -> Transition {
        if self.state == ConnectionState::Closed || self.state == ConnectionState::Reconnecting {
            self.stay()
        } else {
            match spec_recovery_for(code) {
                RecoveryAction::RetryResume => self.reconnect(false, false),
                RecoveryAction::RetryReconnect => self.reconnect(true, false),
                _ => self.close(
                    match code {
                        Some(n) => CloseCode::spec_from_code(n),
                        None => None,
                    },
                    false,
                ),
            }
        }
    }

    /// The user asks the client to stop.
    pub open spec fn on_shutdown(self) -> Transition {
        if self.state == ConnectionState::Closed {
            self.stay()
        } else {
            self.close(None, self.socket_open())
        }
    }

    /// The state after an event, and the actions that are due. A client that
    /// has stopped for good takes no notice of anything.
    pub open spec fn step(self, event: GatewayEvent) -> Transition {
        match event {
            GatewayEvent::SocketOpened => if self.state == ConnectionState::Connecting {
                Transition {
                    next: ClientView { state: ConnectionState::AwaitingHello, ..self },
                    actions: Seq::empty(),
                }
            } else {
                self.stay()
            },
            GatewayEvent::Message(msg) => self.on_message(msg),
            GatewayEvent::DecodeFailed(_) => if self.socket_open() {
                self.reconnect(false, true)
            } else {
                self.stay()
            },
            GatewayEvent::HeartbeatTick => self.on_tick(),
            GatewayEvent::SocketClosed(code) => self.on_socket_closed(code),
            GatewayEvent::BackoffElapsed => if self.state == ConnectionState::Reconnecting {
                Transition {
                    next: ClientView { state: ConnectionState::Connecting, ..self },
                    actions: seq![GatewayActionView::OpenSocket],
                }
            } else {
                self.stay()
            },
            GatewayEvent::Shutdown => self.on_shutdown(),
        }
    }
}

/// A list of actions holds itself.
pub proof fn lemma_actions_match_themselves(actions: Seq<GatewayActionView>)
    ensures
        actions_match(actions, actions),
{
}

/// The gateway client: the connection supervisor with what it owns, the
/// session and the heartbeat monitor.
pub struct Client {
    url: String,
    identify_object: IdentifyObject,
    session: Session,
    heartbeat: HeartbeatMonitor,
    state: ConnectionState,
    attempts: u32,
}

impl View for Client {
    type V = ClientView;

    closed spec fn view(&self) -> ClientView {
        ClientView {
            url: self.url@,
            identify: self.identify_object@,
            session: self.session@,
            heartbeat: self.heartbeat,
            state: self.state,
            attempts: self.attempts,
        }
    }
}

impl Client {
    /// A client for the gateway at `url` that identifies itself with `io`.
    /// It has no session yet and is about to connect.
    pub fn new(io: IdentifyObject, url: String) -> (client: Self)
        ensures
            client@ == (ClientView {
                url: url@,
                identify: io@,
                session: SessionView::empty(),
                heartbeat: HeartbeatMonitor::Idle,
                state: ConnectionState::Connecting,
                attempts: 0,
            }),
            client@.wf(),
    {
        io.well_formed();
        Self {
            url,
            identify_object: io,
            session: Session::new(),
            heartbeat: HeartbeatMonitor::new(),
            state: ConnectionState::Connecting,
            attempts: 0,
        }
    }

    /// Sets the URL of the gateway.
    pub fn url(&mut self, url: String) -> (ret: &mut Self)
        ensures
            ret@ == (ClientView { url: url@, ..old(self)@ }),
            *final(self) == *final(ret),
    {
        self.url = url;
        self
    }

    /// Starts the client: a client that is about to connect asks for the
    /// socket to be opened. In any other state there is nothing to start.
    pub fn login(&self) -> (actions: Vec<GatewayAction>)
        ensures
            actions_view(actions@) == (if self@.state == ConnectionState::Connecting {
                seq![GatewayActionView::OpenSocket]
            } else {
                Seq::empty()
            }),
    {
        let mut actions: Vec<GatewayAction> = Vec::new();
        match self.state {
            ConnectionState::Connecting => {
                actions.push(GatewayAction::OpenSocket);
            },
            _ => {},
        }
        assert(actions_view(actions@) =~= (if self@.state == ConnectionState::Connecting {
            seq![GatewayActionView::OpenSocket]
        } else {
            Seq::empty()
        }));
        actions
    }

    /// The URL of the gateway.
    pub fn gateway_url(&self) -> (url: &String)
        ensures
            url@ == self@.url,
    {
        &self.url
    }

    /// What the client sends to identify itself.
    pub fn identify_object(&self) -> (io: &IdentifyObject)
        ensures
            io@ == self@.identify,
    {
        &self.identify_object
    }

    /// What the client remembers of its session.
    pub fn session(&self) -> (session: &Session)
        ensures
            session@ == self@.session,
    {
        &self.session
    }

    /// The heartbeat monitor.
    pub fn heartbeat(&self) -> (monitor: HeartbeatMonitor)
        ensures
            monitor == self@.heartbeat,
    {
        self.heartbeat
    }

    /// The state of the connection.
    pub fn state(&self) -> (state: ConnectionState)
        ensures
            state == self@.state,
    {
        self.state
    }

    /// The number of connections lost in a row.
    pub fn attempts(&self) -> (attempts: u32)
        ensures
            attempts == self@.attempts,
    {
        self.attempts
    }

    /// Whether the server has said hello on this connection.
    fn in_session(&self) -> (b: bool)
        ensures
            b == self@.in_session(),
    {
        match self.state {
            ConnectionState::Identifying
            | ConnectionState::Resuming
            | ConnectionState::Connected => true,
            _ => false,
        }
    }

    /// Whether the socket is open.
    fn socket_open(&self) -> (b: bool)
        ensures
            b == self@.socket_open(),
    {
        match self.state {
            ConnectionState::AwaitingHello
            | ConnectionState::Identifying
            | ConnectionState::Resuming
            | ConnectionState::Connected => true,
            _ => false,
        }
    }

    /// Gives the connection up and asks for another one.
    fn reconnect(&mut self, hard: bool, close_socket: bool) -> (actions: Vec<GatewayAction>)
        ensures
            final(self)@ == old(self)@.reconnect(hard, close_socket).next,
            actions_view(actions@) == old(self)@.reconnect(hard, close_socket).actions,
    {
        let attempt = self.attempts;
        self.state = ConnectionState::Reconnecting;
        self.session.invalidate(hard);
        self.heartbeat.disarm();
        if self.attempts < u32::MAX {
            self.attempts = self.attempts + 1;
        }
        let mut actions: Vec<GatewayAction> = Vec::new();
        actions.push(GatewayAction::StopHeartbeat);
        if close_socket {
            actions.push(GatewayAction::CloseSocket);
        }
        actions.push(GatewayAction::ScheduleReconnect { attempt });
        assert(actions_view(actions@) =~= old(self)@.reconnect(hard, close_socket).actions);
        actions
    }

    /// Stops the client for good.
    fn close(&mut self, failure: Option<CloseCode>, close_socket: bool) -> (actions: Vec<
        GatewayAction,
    >)
        ensures
            final(self)@ == old(self)@.close(failure, close_socket).next,
            actions_view(actions@) == old(self)@.close(failure, close_socket).actions,
    {
        self.state = ConnectionState::Closed;
        self.session.invalidate(true);
        self.heartbeat.disarm();
        let mut actions: Vec<GatewayAction> = Vec::new();
        actions.push(GatewayAction::StopHeartbeat);
        if close_socket {
            actions.push(GatewayAction::CloseSocket);
        }
        actions.push(GatewayAction::CloseEvents { failure });
        assert(actions_view(actions@) =~= old(self)@.close(failure, close_socket).actions);
        actions
    }

    /// The server says hello.
    fn on_hello(&mut self, hello: HelloObject) -> (actions: Vec<GatewayAction>)
        ensures
            final(self)@ == old(self)@.on_hello(hello).next,
            actions_view(actions@) == old(self)@.on_hello(hello).actions,
    {
        let mut actions: Vec<GatewayAction> = Vec::new();
        match self.state {
            ConnectionState::AwaitingHello => {
                let interval = hello.heartbeat_interval;
                let snapshot = self.session.snapshot_for_resume();
                self.session.on_hello(interval);
                self.heartbeat.arm(interval);
                actions.push(GatewayAction::StartHeartbeat { interval });
                match snapshot {
                    Some((session_id, seq)) => {
                        self.state = ConnectionState::Resuming;
                        actions.push(GatewayAction::SendResume { session_id, seq });
                    },
                    None => {
                        self.state = ConnectionState::Identifying;
                        actions.push(GatewayAction::SendIdentify);
                    },
                }
            },
            _ => {},
        }
        assert(actions_view(actions@) =~= old(self)@.on_hello(hello).actions);
        actions
    }

    /// A session has started.
    fn on_ready(&mut self, ready: ReadyObject, s: Option<u64>) -> (actions: Vec<GatewayAction>)
        ensures
            final(self)@ == old(self)@.on_ready(ready, s).next,
            actions_view(actions@) == old(self)@.on_ready(ready, s).actions,
    {
        let mut actions: Vec<GatewayAction> = Vec::new();
        if !self.in_session() {
            assert(actions_view(actions@) =~= Seq::empty());
            return actions;
        }
        self.session.on_dispatch(s);
        self.session.on_ready(ready.session_id.clone());
        self.state = ConnectionState::Connected;
        self.attempts = 0;
        let count = ready.guilds.len();
        let mut i: usize = 0;
        while i < count
            invariant
                i <= count,
                count == ready.guilds@.len(),
                actions_view(actions@) =~= spec_seed_requests(ready.guilds@).take(i as int),
            decreases count - i,
        {
            let guild = ready.guilds[i];
            let ghost before = actions@;
            actions.push(
                GatewayAction::Cache(
                    CacheRequest::Guild(CacheAction::Push((guild.id, GuildType::Partial(guild)))),
                ),
            );
            assert(actions_view(actions@) =~= actions_view(before).push(
                spec_seed_requests(ready.guilds@)[i as int],
            ));
            i = i + 1;
        }
        assert(spec_seed_requests(ready.guilds@).take(count as int) =~= spec_seed_requests(
            ready.guilds@,
        ));
        actions.push(GatewayAction::Emit(DiscordEvent::Ready(ready)));
        assert(actions_view(actions@) =~= old(self)@.on_ready(ready, s).actions);
        actions
    }

    /// A session has been resumed.
    fn on_resumed(&mut self, s: Option<u64>) -> (actions: Vec<GatewayAction>)
        ensures
            final(self)@ == old(self)@.on_resumed(s).next,
            actions_view(actions@) == old(self)@.on_resumed(s).actions,
    {
        if self.in_session() {
            self.session.on_dispatch(s);
            self.state = ConnectionState::Connected;
            self.attempts = 0;
        }
        let actions: Vec<GatewayAction> = Vec::new();
        assert(actions_view(actions@) =~= Seq::empty());
        actions
    }

    /// A guild has become available.
    fn on_guild_create(&mut self, guild: GuildType, s: Option<u64>) -> (actions: Vec<
        GatewayAction,
    >)
        ensures
            final(self)@ == old(self)@.on_guild_create(guild, s).next,
            actions_match(
                old(self)@.on_guild_create(guild, s).actions,
                actions_view(actions@),
            ),
    {
        let mut actions: Vec<GatewayAction> = Vec::new();
        if !self.in_session() {
            assert(actions_view(actions@) =~= Seq::empty());
            return actions;
        }
        self.session.on_dispatch(s);
        let cached = guild.clone();
        assert(cloned(guild, cached));
        actions.push(
            GatewayAction::Cache(CacheRequest::Guild(CacheAction::Push((guild.id(), cached)))),
        );
        actions.push(GatewayAction::Emit(DiscordEvent::GuildCreate(guild)));
        assert(actions_view(actions@).len() == 2);
        actions
    }

    /// The server acknowledges a heartbeat.
    fn on_heartbeat_ack(&mut self) -> (actions: Vec<GatewayAction>)
        ensures
            final(self)@ == old(self)@.on_heartbeat_ack().next,
            actions_view(actions@) == old(self)@.on_heartbeat_ack().actions,
    {
        if self.in_session() {
            self.session.on_heartbeat_ack();
            self.heartbeat.ack();
        }
        let actions: Vec<GatewayAction> = Vec::new();
        assert(actions_view(actions@) =~= Seq::empty());
        actions
    }

    /// The server asks for a heartbeat.
    fn on_heartbeat_request(&mut self) -> (actions: Vec<GatewayAction>)
        ensures
            final(self)@ == old(self)@.on_heartbeat_request().next,
            actions_view(actions@) == old(self)@.on_heartbeat_request().actions,
    {
        let mut actions: Vec<GatewayAction> = Vec::new();
        if self.in_session() {
            actions.push(GatewayAction::SendHeartbeat { seq: self.session.sequence() });
        }
        assert(actions_view(actions@) =~= old(self)@.on_heartbeat_request().actions);
        actions
    }

    /// Handles one frame in its envelope.
    ///
    /// While no socket is open the frame is stale and ignored. A frame that
    /// is not well formed ends the connection as a frame that could not be
    /// decoded does. Hello starts the handshake; the events of a session
    /// update the sequence number, the caches and the user; a request to
    /// reconnect and an invalid session end the connection.
    pub fn handle_ws_payload(&mut self, msg: GatewayPayload) -> (actions: Vec<GatewayAction>)
        ensures
            final(self)@ == old(self)@.on_payload(msg).next,
            actions_match(old(self)@.on_payload(msg).actions, actions_view(actions@)),
    {
        if !self.socket_open() {
            let actions: Vec<GatewayAction> = Vec::new();
            assert(actions_view(actions@) =~= Seq::empty());
            return actions;
        }
        match msg.check() {
            Err(_) => self.reconnect(false, true),
            Ok(_) => {
                let GatewayPayload { op, d, s, t: _ } = msg;
                match d {
                    GatewayPayloadObjects::Hello(hello) => self.on_hello(hello),
                    GatewayPayloadObjects::Ready(ready) => self.on_ready(ready, s),
                    GatewayPayloadObjects::Resumed => self.on_resumed(s),
                    GatewayPayloadObjects::GuildCreate(guild) => self.on_guild_create(guild, s),
                    GatewayPayloadObjects::InvalidSession(resumable) => self.reconnect(
                        !resumable,
                        true,
                    ),
                    GatewayPayloadObjects::Heartbeat(_) => self.on_heartbeat_request(),
                    GatewayPayloadObjects::Empty => match op {
                        OPCode::Reconnect => self.reconnect(false, true),
                        _ => self.on_heartbeat_ack(),
                    },
                    _ => {
                        let actions: Vec<GatewayAction> = Vec::new();
                        assert(actions_view(actions@) =~= Seq::empty());
                        actions
                    },
                }
            },
        }
    }

    /// Handles what came from the server.
    fn on_message(&mut self, msg: GatewayMessages) -> (actions: Vec<GatewayAction>)
        ensures
            final(self)@ == old(self)@.on_message(msg).next,
            actions_match(old(self)@.on_message(msg).actions, actions_view(actions@)),
    {
        match msg {
            GatewayMessages::Others(payload) => self.handle_ws_payload(payload),
            GatewayMessages::Ready(ready) => {
                if self.socket_open() {
                    self.on_ready(ready, None)
                } else {
                    let actions: Vec<GatewayAction> = Vec::new();
                    assert(actions_view(actions@) =~= Seq::empty());
                    actions
                }
            },
        }
    }

    /// The heartbeat timer ticked.
    fn on_tick(&mut self) -> (actions: Vec<GatewayAction>)
        ensures
            final(self)@ == old(self)@.on_tick().next,
            actions_view(actions@) == old(self)@.on_tick().actions,
    {
        let ghost before = self@;
        match self.heartbeat.tick(self.session.sequence()) {
            HeartbeatAction::Nothing => {
                let actions: Vec<GatewayAction> = Vec::new();
                assert(actions_view(actions@) =~= Seq::empty());
                actions
            },
            HeartbeatAction::Send { sequence } => {
                self.session.on_heartbeat_sent();
                let mut actions: Vec<GatewayAction> = Vec::new();
                actions.push(GatewayAction::SendHeartbeat { seq: sequence });
                assert(actions_view(actions@) =~= before.on_tick().actions);
                actions
            },
            HeartbeatAction::Dead => {
                let ghost dead = self@;
                let actions = self.reconnect(false, true);
                assert(dead.reconnect(false, true) == before.reconnect(false, true));
                actions
            },
        }
    }

    /// The socket was closed from outside.
    fn on_socket_closed(&mut self, code: Option<u16>) -> (actions: Vec<GatewayAction>)
        ensures
            final(self)@ == old(self)@.on_socket_closed(code).next,
            actions_view(actions@) == old(self)@.on_socket_closed(code).actions,
    {
        match self.state {
            ConnectionState::Closed | ConnectionState::Reconnecting => {
                let actions: Vec<GatewayAction> = Vec::new();
                assert(actions_view(actions@) =~= Seq::empty());
                actions
            },
            _ => match recovery_for(code) {
                RecoveryAction::RetryResume => self.reconnect(false, false),
                RecoveryAction::RetryReconnect => self.reconnect(true, false),
                _ => {
                    let failure = match code {
                        Some(n) => CloseCode::from_code(n),
                        None => None,
                    };
                    self.close(failure, false)
                },
            },
        }
    }

    /// The user asks the client to stop.
    fn on_shutdown(&mut self) -> (actions: Vec<GatewayAction>)
        ensures
            final(self)@ == old(self)@.on_shutdown().next,
            actions_view(actions@) == old(self)@.on_shutdown().actions,
    {
        match self.state {
            ConnectionState::Closed => {
                let actions: Vec<GatewayAction> = Vec::new();
                assert(actions_view(actions@) =~= Seq::empty());
                actions
            },
            _ => {
                let open = self.socket_open();
                self.close(None, open)
            },
        }
    }

    /// Takes one event and gives back the actions that are due, in their
    /// order. State and actions are those of [`ClientView::step`]: this is
    /// the whole of what the supervisor decides.
    pub fn handle(&mut self, event: GatewayEvent) -> (actions: Vec<GatewayAction>)
        ensures
            final(self)@ == old(self)@.step(event).next,
            actions_match(old(self)@.step(event).actions, actions_view(actions@)),
            old(self)@.wf() ==> final(self)@.wf(),
    {
        proof {
            if self@.wf() {
                lemma_step_preserves_wf(self@, event);
            }
        }
        match event {
            GatewayEvent::SocketOpened => {
                match self.state {
                    ConnectionState::Connecting => {
                        self.state = ConnectionState::AwaitingHello;
                    },
                    _ => {},
                }
                let actions: Vec<GatewayAction> = Vec::new();
                assert(actions_view(actions@) =~= Seq::empty());
                actions
            },
            GatewayEvent::Message(msg) => self.on_message(msg),
            GatewayEvent::DecodeFailed(_) => {
                if self.socket_open() {
                    self.reconnect(false, true)
                } else {
                    let actions: Vec<GatewayAction> = Vec::new();
                    assert(actions_view(actions@) =~= Seq::empty());
                    actions
                }
            },
            GatewayEvent::HeartbeatTick => self.on_tick(),
            GatewayEvent::SocketClosed(code) => self.on_socket_closed(code),
            GatewayEvent::BackoffElapsed => {
                let mut actions: Vec<GatewayAction> = Vec::new();
                match self.state {
                    ConnectionState::Reconnecting => {
                        self.state = ConnectionState::Connecting;
                        actions.push(GatewayAction::OpenSocket);
                    },
                    _ => {},
                }
                assert(actions_view(actions@) =~= old(self)@.step(event).actions);
                actions
            },
            GatewayEvent::Shutdown => self.on_shutdown(),
        }
    }
}

/// The wait before the first reconnection, in milliseconds.
pub const BACKOFF_BASE: u64 = 1000;

/// The greatest number of doublings of the wait.
pub const BACKOFF_DOUBLINGS: u32 = 6;

/// The wait before a reconnection without the random part, in milliseconds:
/// one second after the first lost connection, and twice as long after each
/// further one in a row, up to 64 seconds.
pub open spec fn spec_backoff_base(attempt: u32) -> u64 {
    match attempt {
        0 => 1000,
        1 => 2000,
        2 => 4000,
        3 => 8000,
        4 => 16000,
        5 => 32000,
        _ => 64000,
    }
}

/// The wait before a reconnection, in milliseconds: the wait that the number
/// of lost connections asks for, and on top of it a random part that is
/// shorter than that wait.
pub open spec fn spec_backoff_delay(attempt: u32, entropy: u64) -> u64 {
    (spec_backoff_base(attempt) + entropy % spec_backoff_base(attempt)) as u64
}

/// The wait before a reconnection, in milliseconds, after `attempt`
/// connections lost in a row. The caller brings `entropy`, a number drawn at
/// random, so that many clients that lose their connections at once do not
/// all come back at the same moment.
pub fn backoff_delay(attempt: u32, entropy: u64) -> (delay: u64)
    ensures
        delay == spec_backoff_delay(attempt, entropy),
        spec_backoff_base(attempt) <= delay < 2 * spec_backoff_base(attempt),
{
    let base: u64 = match attempt {
        0 => 1000,
        1 => 2000,
        2 => 4000,
        3 => 8000,
        4 => 16000,
        5 => 32000,
        _ => 64000,
    };
    base + entropy % base
}

/// The wait never gets shorter as connections keep failing, and never
/// exceeds 128 seconds.
pub proof fn lemma_backoff_grows(earlier: u32, later: u32, entropy: u64)
    requires
        earlier <= later,
    ensures
        spec_backoff_base(earlier) <= spec_backoff_base(later),
        1000 <= spec_backoff_delay(later, entropy) < 128000,
{
}

/// Every event leaves the client well formed: the heartbeat monitor runs
/// exactly while heartbeats are due, and it and the session agree on whether
/// an acknowledgement is awaited.
pub proof fn lemma_step_preserves_wf(client: ClientView, event: GatewayEvent)
    requires
        client.wf(),
    ensures
        client.step(event).next.wf(),
{
}

/// A new client is well formed.
pub proof fn lemma_new_client_wf(url: Seq<char>, identify: IdentifyObjectView)
    requires
        identify.wf(),
    ensures
        (ClientView {
            url,
            identify,
            session: SessionView::empty(),
            heartbeat: HeartbeatMonitor::Idle,
            state: ConnectionState::Connecting,
            attempts: 0,
        }).wf(),
{
}

/// Resume is attempted if and only if the session can be resumed: when the
/// server says hello to a client that waits for it, the client arms the
/// heartbeat and then sends a resume frame with the stored identifier and
/// sequence number if both are known, and an identify frame if not.
pub proof fn lemma_resume_iff_resumable(client: ClientView, hello: HelloObject)
    requires
        client.state == ConnectionState::AwaitingHello,
    ensures
        client.on_hello(hello).actions.len() == 2,
        client.on_hello(hello).actions[0] == (GatewayActionView::StartHeartbeat {
            interval: hello.heartbeat_interval,
        }),
        client.session.resumable() <==> client.on_hello(hello).actions[1] is SendResume,
        !client.session.resumable() <==> client.on_hello(hello).actions[1]
            == GatewayActionView::SendIdentify,
        client.session.snapshot_for_resume() matches Some((session_id, seq)) ==> client.on_hello(
            hello,
        ).actions[1] == (GatewayActionView::SendResume { session_id, seq }),
        client.session.resumable() <==> client.on_hello(hello).next.state
            == ConnectionState::Resuming,
        !client.session.resumable() <==> client.on_hello(hello).next.state
            == ConnectionState::Identifying,
{
}

/// A heartbeat that was not acknowledged kills the connection: when the timer
/// ticks while an acknowledgement is awaited, the client stops the
/// heartbeat, closes the socket and reconnects, and it keeps session
/// identifier and sequence number, so that it can resume.
pub proof fn lemma_missed_ack_reconnects(client: ClientView)
    requires
        client.wf(),
        client.in_session(),
        !client.session.last_ack_received,
    ensures
        client.step(GatewayEvent::HeartbeatTick).next.state == ConnectionState::Reconnecting,
        client.step(GatewayEvent::HeartbeatTick).next.session.session_id
            == client.session.session_id,
        client.step(GatewayEvent::HeartbeatTick).next.session.sequence == client.session.sequence,
        client.step(GatewayEvent::HeartbeatTick).actions == seq![
            GatewayActionView::StopHeartbeat,
            GatewayActionView::CloseSocket,
            GatewayActionView::ScheduleReconnect { attempt: client.attempts },
        ],
{
}

/// A heartbeat that was acknowledged keeps the connection: when the timer
/// ticks while no acknowledgement is awaited, the client sends a heartbeat
/// with the last sequence number and stays in its state.
pub proof fn lemma_acked_heartbeat_continues(client: ClientView)
    requires
        client.wf(),
        client.in_session(),
        client.session.last_ack_received,
    ensures
        client.step(GatewayEvent::HeartbeatTick).next.state == client.state,
        client.step(GatewayEvent::HeartbeatTick).actions == seq![
            GatewayActionView::SendHeartbeat { seq: client.session.sequence },
        ],
        !client.step(GatewayEvent::HeartbeatTick).next.session.last_ack_received,
{
}

/// After the server has refused a session for good, the client identifies
/// itself anew: an invalid session that cannot be resumed makes the client
/// reconnect, and when the wait is over, the socket is open and the server
/// has said hello, the client sends an identify frame and no resume frame.
pub proof fn lemma_refused_session_identifies(client: ClientView, refusal: GatewayPayload, hello: HelloObject)
    requires
        client.socket_open(),
        refusal.spec_check() is Ok,
        refusal.d == GatewayPayloadObjects::InvalidSession(false),
    ensures
        ({
            let lost = client.on_payload(refusal).next;
            let waited = lost.step(GatewayEvent::BackoffElapsed).next;
            let opened = waited.step(GatewayEvent::SocketOpened).next;
            &&& lost.state == ConnectionState::Reconnecting
            &&& lost.session.snapshot_for_resume() is None
            &&& waited.state == ConnectionState::Connecting
            &&& opened.state == ConnectionState::AwaitingHello
            &&& opened.on_hello(hello).next.state == ConnectionState::Identifying
            &&& opened.on_hello(hello).actions == seq![
                GatewayActionView::StartHeartbeat { interval: hello.heartbeat_interval },
                GatewayActionView::SendIdentify,
            ]
        }),
{
}

/// A request to reconnect, a frame that could not be decoded and a session
/// that the server calls resumable all keep the session: what can be sent to
/// resume is the same before and after.
pub proof fn lemma_soft_loss_keeps_session(client: ClientView, error: DecodeError)
    requires
        client.socket_open(),
    ensures
        client.step(GatewayEvent::DecodeFailed(error)).next.state == ConnectionState::Reconnecting,
        client.step(GatewayEvent::DecodeFailed(error)).next.session.snapshot_for_resume()
            == client.session.snapshot_for_resume(),
        client.reconnect(false, true).next.session.snapshot_for_resume()
            == client.session.snapshot_for_resume(),
        client.reconnect(true, true).next.session.snapshot_for_resume() is None,
{
}

/// A client that has stopped for good stays stopped: no event changes it or
/// asks for anything.
pub proof fn lemma_closed_is_final(client: ClientView, event: GatewayEvent)
    requires
        client.wf(),
        client.state == ConnectionState::Closed,
    ensures
        client.step(event) == client.stay(),
{
}

/// The stored sequence number never goes back while the session lasts: after
/// any event it is gone, with the session, or it is at least what it was.
pub proof fn lemma_sequence_never_regresses(client: ClientView, event: GatewayEvent)
    ensures
        client.step(event).next.session.sequence matches Some(after) ==> (client.session.sequence
            matches Some(before) ==> after >= before),
        client.step(event).next.session.session_id is Some ==> (client.session.sequence
            matches Some(before) ==> client.step(event).next.session.sequence matches Some(after)
            && after >= before),
{
}

/// A fatal close code stops the client for good and tells the user why; any
/// other close makes the client reconnect, and only a rate limit or a timeout
/// costs it the session.
pub proof fn lemma_close_code_decides(client: ClientView, code: Option<u16>)
    requires
        client.state != ConnectionState::Closed,
        client.state != ConnectionState::Reconnecting,
    ensures
        spec_recovery_for(code).spec_is_fatal() <==> client.step(
            GatewayEvent::SocketClosed(code),
        ).next.state == ConnectionState::Closed,
        !spec_recovery_for(code).spec_is_fatal() <==> client.step(
            GatewayEvent::SocketClosed(code),
        ).next.state == ConnectionState::Reconnecting,
        spec_recovery_for(code).spec_is_fatal() ==> client.step(
            GatewayEvent::SocketClosed(code),
        ).actions == seq![
            GatewayActionView::StopHeartbeat,
            GatewayActionView::CloseEvents { failure: CloseCode::spec_from_code(code->0) },
        ],
        spec_recovery_for(code) == RecoveryAction::RetryResume ==> client.step(
            GatewayEvent::SocketClosed(code),
        ).next.session.snapshot_for_resume() == client.session.snapshot_for_resume(),
        spec_recovery_for(code) == RecoveryAction::RetryReconnect ==> client.step(
            GatewayEvent::SocketClosed(code),
        ).next.session.snapshot_for_resume() is None,
{
}

} // verus!
