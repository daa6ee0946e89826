//! The facts that a client needs to resume a session.
use vstd::prelude::*;

verus! {

/// What a client remembers of its session: the one source of truth for
/// whether a session can be resumed.
pub struct Session {
    session_id: Option<String>,
    sequence: Option<u64>,
    heartbeat_interval: Option<u64>,
    last_ack_received: bool,
}

/// The mathematical value of a [`Session`].
pub struct SessionView {
    /// The identifier that the server gave to the session.
    pub session_id: Option<Seq<char>>,
    /// The greatest sequence number received so far.
    pub sequence: Option<u64>,
    /// The time between two heartbeats, in milliseconds.
    pub heartbeat_interval: Option<u64>,
    /// Whether no heartbeat is waiting for its acknowledgement.
    pub last_ack_received: bool,
}

impl SessionView {
    /// The session of a client that has not connected yet.
    pub open spec fn empty() -> SessionView {
        SessionView {
            session_id: None,
            sequence: None,
            heartbeat_interval: None,
            last_ack_received: false,
        }
    }

    /// The session after the server has said hello. No heartbeat has been
    /// sent yet, so none waits for an acknowledgement.
    pub open spec fn on_hello(self, interval: u64) -> SessionView {
        SessionView { heartbeat_interval: Some(interval), last_ack_received: true, ..self }
    }

    /// The session after a frame with the sequence number `seq`, if it had
    /// one.
    pub open spec fn on_dispatch(self, seq: Option<u64>) -> SessionView {
        SessionView { sequence: later_sequence(self.sequence, seq), ..self }
    }

    /// The session after the server has named it.
    pub open spec fn on_ready(self, session_id: Seq<char>) -> SessionView {
        SessionView { session_id: Some(session_id), ..self }
    }

    /// The session after a heartbeat was sent.
    pub open spec fn on_heartbeat_sent(self) -> SessionView {
        SessionView { last_ack_received: false, ..self }
    }

    /// The session after a heartbeat was acknowledged.
    pub open spec fn on_heartbeat_ack(self) -> SessionView {
        SessionView { last_ack_received: true, ..self }
    }

    /// The session after the connection was lost. The heartbeat interval
    /// belongs to the lost connection and goes with it. Identifier and
    /// sequence number stay unless `hard` is set.
    pub open spec fn invalidate(self, hard: bool) -> SessionView {
        if hard {
            SessionView::empty()
        } else {
            SessionView { heartbeat_interval: None, last_ack_received: false, ..self }
        }
    }

    /// What a client sends to resume this session, if it can be resumed.
    pub open spec fn snapshot_for_resume(self) -> Option<(Seq<char>, u64)> {
        match (self.session_id, self.sequence) {
            (Some(id), Some(seq)) => Some((id, seq)),
            _ => None,
        }
    }

    /// Whether the session can be resumed: identifier and sequence number are
    /// both known.
    pub open spec fn resumable(self) -> bool {
        self.session_id is Some && self.sequence is Some
    }

    /// The session after frames with the sequence numbers `arrivals` have
    /// come in, in this order.
    pub open spec fn on_dispatches(self, arrivals: Seq<Option<u64>>) -> SessionView
        decreases arrivals.len(),
    {
        if arrivals.len() == 0 {
            self
        } else {
            self.on_dispatches(arrivals.drop_last()).on_dispatch(arrivals.last())
        }
    }
}

/// The sequence number to keep when `stored` is known and `incoming` comes
/// in: the greater of the two, so that a late or repeated frame never takes
/// the number back.
pub open spec fn later_sequence(stored: Option<u64>, incoming: Option<u64>) -> Option<u64> {
    match (stored, incoming) {
        (Some(s), Some(i)) => if i > s {
            Some(i)
        } else {
            Some(s)
        },
        (None, Some(i)) => Some(i),
        (_, None) => stored,
    }
}

impl View for Session {
    type V = SessionView;

    closed spec fn view(&self) -> SessionView {
        SessionView {
            session_id: match self.session_id {
                Some(id) => Some(id@),
                None => None,
            },
            sequence: self.sequence,
            heartbeat_interval: self.heartbeat_interval,
            last_ack_received: self.last_ack_received,
        }
    }
}

impl Session {
    /// The session of a client that has not connected yet.
    pub fn new() -> (session: Session)
        ensures
            session@ == SessionView::empty(),
    {
        Session {
            session_id: None,
            sequence: None,
            heartbeat_interval: None,
            last_ack_received: false,
        }
    }

    /// Takes note of the heartbeat interval that the server asks for, in
    /// milliseconds. No heartbeat waits for an acknowledgement yet.
    pub fn on_hello(&mut self, interval: u64)
        ensures
            final(self)@ == old(self)@.on_hello(interval),
    {
        self.heartbeat_interval = Some(interval);
        self.last_ack_received = true;
    }

    /// Takes note of the sequence number of a frame, if it has one. The
    /// stored number never gets smaller.
    pub fn on_dispatch(&mut self, seq: Option<u64>)
        ensures
            final(self)@ == old(self)@.on_dispatch(seq),
    {
        match seq {
            Some(incoming) => {
                match self.sequence {
                    Some(stored) => {
                        if incoming > stored {
                            self.sequence = Some(incoming);
                        }
                    },
                    None => {
                        self.sequence = Some(incoming);
                    },
                }
            },
            None => {},
        }
    }

    /// Takes note of the identifier that the server gave to the session.
    pub fn on_ready(&mut self, session_id: String)
        ensures
            final(self)@ == old(self)@.on_ready(session_id@),
    {
        self.session_id = Some(session_id);
    }

    /// Takes note that a heartbeat was sent: its acknowledgement is awaited.
    pub fn on_heartbeat_sent(&mut self)
        ensures
            final(self)@ == old(self)@.on_heartbeat_sent(),
    {
        self.last_ack_received = false;
    }

    /// Takes note that the server acknowledged the last heartbeat.
    pub fn on_heartbeat_ack(&mut self)
        ensures
            final(self)@ == old(self)@.on_heartbeat_ack(),
    {
        self.last_ack_received = true;
    }

    /// Identifier and sequence number of the session, if both are known.
    /// Without them the session cannot be resumed, and the client has to
    /// identify itself anew.
    pub fn snapshot_for_resume(&self) -> (snapshot: Option<(String, u64)>)
        ensures
            snapshot is Some <==> self@.resumable(),
            match snapshot {
                Some((id, seq)) => self@.snapshot_for_resume() == Some((id@, seq)),
                None => self@.snapshot_for_resume() is None,
            },
    {
        match (&self.session_id, self.sequence) {
            (Some(id), Some(seq)) => Some((id.clone(), seq)),
            _ => None,
        }
    }

    /// Forgets what belongs to a lost connection. With `hard` set, identifier
    /// and sequence number go too, and the client must identify itself anew;
    /// without, they stay, and the client may resume.
    pub fn invalidate(&mut self, hard: bool)
        ensures
            final(self)@ == old(self)@.invalidate(hard),
    {
        self.heartbeat_interval = None;
        self.last_ack_received = false;
        if hard {
            self.session_id = None;
            self.sequence = None;
        }
    }

    /// The identifier that the server gave to the session.
    pub fn session_id(&self) -> (id: Option<&String>)
        ensures
            match id {
                Some(s) => self@.session_id == Some(s@),
                None => self@.session_id is None,
            },
    {
        self.session_id.as_ref()
    }

    /// The greatest sequence number received so far.
    pub fn sequence(&self) -> (seq: Option<u64>)
        ensures
            seq == self@.sequence,
    {
        self.sequence
    }

    /// The time between two heartbeats, in milliseconds.
    pub fn heartbeat_interval(&self) -> (interval: Option<u64>)
        ensures
            interval == self@.heartbeat_interval,
    {
        self.heartbeat_interval
    }

    /// Whether no heartbeat is waiting for its acknowledgement.
    pub fn last_ack_received(&self) -> (acked: bool)
        ensures
            acked == self@.last_ack_received,
    {
        self.last_ack_received
    }
}

/// After any frames, in any order, the stored sequence number is at least
/// the number stored before and at least every number that came in.
pub proof fn lemma_sequence_dominates(start: SessionView, arrivals: Seq<Option<u64>>)
    ensures
        start.sequence matches Some(s) ==> (start.on_dispatches(arrivals).sequence matches Some(r)
            && r >= s),
        forall|i: int|
            0 <= i < arrivals.len() ==> (#[trigger] arrivals[i] matches Some(n) ==> (
            start.on_dispatches(arrivals).sequence matches Some(r) && r >= n)),
    decreases arrivals.len(),
{
    if arrivals.len() > 0 {
        let front = arrivals.drop_last();
        lemma_sequence_dominates(start, front);
        assert forall|i: int| 0 <= i < arrivals.len() implies (#[trigger] arrivals[i] matches Some(
            n,
        ) ==> (start.on_dispatches(arrivals).sequence matches Some(r) && r >= n)) by {
            if i < front.len() {
                assert(front[i] == arrivals[i]);
            }
        }
    }
}

/// After any frames, in any order, the stored sequence number is the number
/// stored before or one of the numbers that came in: nothing else is ever
/// stored.
pub proof fn lemma_sequence_is_received(start: SessionView, arrivals: Seq<Option<u64>>)
    ensures
        start.on_dispatches(arrivals).sequence == start.sequence || exists|i: int|
            0 <= i < arrivals.len() && #[trigger] arrivals[i] is Some && arrivals[i]
                == start.on_dispatches(arrivals).sequence,
    decreases arrivals.len(),
{
    if arrivals.len() > 0 {
        let front = arrivals.drop_last();
        lemma_sequence_is_received(start, front);
        let before = start.on_dispatches(front).sequence;
        let after = start.on_dispatches(arrivals).sequence;
        if after == before {
            if before != start.sequence {
                let i = choose|i: int|
                    0 <= i < front.len() && #[trigger] front[i] is Some && front[i] == before;
                assert(arrivals[i] == front[i]);
            }
        } else {
            let last = arrivals.len() - 1;
            assert(arrivals[last] is Some && arrivals[last] == after);
        }
    }
}

/// Frames only change the sequence number of a session.
pub proof fn lemma_dispatches_keep_the_rest(start: SessionView, arrivals: Seq<Option<u64>>)
    ensures
        start.on_dispatches(arrivals) == (SessionView {
            sequence: start.on_dispatches(arrivals).sequence,
            ..start
        }),
    decreases arrivals.len(),
{
    if arrivals.len() > 0 {
        lemma_dispatches_keep_the_rest(start, arrivals.drop_last());
    }
}

/// The stored sequence number is the maximum of what was received, whatever
/// the order of arrival: a session that starts without a number and receives
/// the numbers `numbers`, at least one, ends with the greatest of them.
pub proof fn lemma_sequence_is_maximum(start: SessionView, numbers: Seq<u64>)
    requires
        start.sequence is None,
        numbers.len() > 0,
    ensures
        start.on_dispatches(numbers.map_values(|n: u64| Some(n))).sequence matches Some(r) && (
        forall|i: int| 0 <= i < numbers.len() ==> numbers[i] <= r) && (exists|i: int|
            0 <= i < numbers.len() && numbers[i] == r),
{
    let arrivals = numbers.map_values(|n: u64| Some(n));
    lemma_sequence_dominates(start, arrivals);
    lemma_sequence_is_received(start, arrivals);
    assert(arrivals[0] == Some(numbers[0]));
    let r = start.on_dispatches(arrivals).sequence->0;
    assert forall|i: int| 0 <= i < numbers.len() implies numbers[i] <= r by {
        assert(arrivals[i] == Some(numbers[i]));
    }
    let i = choose|i: int|
        0 <= i < arrivals.len() && #[trigger] arrivals[i] is Some && arrivals[i]
            == start.on_dispatches(arrivals).sequence;
    assert(arrivals[i] == Some(numbers[i]));
}

/// A session can be resumed if and only if its identifier and its sequence
/// number are both known; a hard invalidation leaves a session that cannot
/// be resumed, a soft one changes nothing of that.
pub proof fn lemma_resume_needs_both(session: SessionView)
    ensures
        session.snapshot_for_resume() is Some <==> (session.session_id is Some && session.sequence
            is Some),
        session.invalidate(true).snapshot_for_resume() is None,
        session.invalidate(false).snapshot_for_resume() == session.snapshot_for_resume(),
{
}

} // verus!
