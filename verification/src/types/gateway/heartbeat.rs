//! The heartbeat monitor: when to send a heartbeat, and when to give a
//! connection up for dead.
use vstd::prelude::*;

verus! {

/// The state of the heartbeat monitor.
#[derive(Clone, Copy, Debug, PartialEq, Eq, Structural)]
pub enum HeartbeatMonitor {
    /// No connection to keep alive.
    Idle,
    /// Waiting for the next tick; every heartbeat sent was acknowledged.
    Armed { interval: u64 },
    /// A heartbeat was sent and its acknowledgement has not come yet.
    AwaitingAck { interval: u64 },
    /// A tick came before the acknowledgement: the connection is dead.
    Zombied,
}

/// What the monitor asks for on a tick.
#[derive(Clone, Copy, Debug, PartialEq, Eq, Structural)]
pub enum HeartbeatAction {
    /// Nothing: the monitor is not armed.
    Nothing,
    /// Send a heartbeat that carries this sequence number.
    Send { sequence: Option<u64> },
    /// Treat the connection as dead.
    Dead,
}

impl HeartbeatMonitor {
    /// The monitor after the server has asked for a heartbeat every
    /// `interval` milliseconds.
    pub open spec fn spec_arm(interval: u64) -> HeartbeatMonitor {
        HeartbeatMonitor::Armed { interval }
    }

    /// The monitor after a tick.
    pub open spec fn spec_tick(self) -> HeartbeatMonitor {
        match self {
            HeartbeatMonitor::Armed { interval } => HeartbeatMonitor::AwaitingAck { interval },
            HeartbeatMonitor::AwaitingAck { .. } => HeartbeatMonitor::Zombied,
            _ => self,
        }
    }

    /// What the monitor asks for on a tick, when the last sequence number
    /// received is `sequence`.
    pub open spec fn spec_tick_action(self, sequence: Option<u64>) -> HeartbeatAction {
        match self {
            HeartbeatMonitor::Armed { .. } => HeartbeatAction::Send { sequence },
            HeartbeatMonitor::AwaitingAck { .. } => HeartbeatAction::Dead,
            _ => HeartbeatAction::Nothing,
        }
    }

    /// The monitor after an acknowledgement.
    pub open spec fn spec_ack(self) -> HeartbeatMonitor {
        match self {
            HeartbeatMonitor::AwaitingAck { interval } => HeartbeatMonitor::Armed { interval },
            _ => self,
        }
    }

    /// Whether the monitor runs: it is armed or awaits an acknowledgement.
    pub open spec fn spec_is_running(self) -> bool {
        self is Armed || self is AwaitingAck
    }

    /// The monitor after `ticks` ticks without an acknowledgement.
    pub open spec fn spec_ticks(self, ticks: nat) -> HeartbeatMonitor
        decreases ticks,
    {
        if ticks == 0 {
            self
        } else {
            self.spec_ticks((ticks - 1) as nat).spec_tick()
        }
    }

    /// A monitor with no connection to keep alive.
    pub fn new() -> (monitor: HeartbeatMonitor)
        ensures
            monitor == HeartbeatMonitor::Idle,
    {
        HeartbeatMonitor::Idle
    }

    /// Arms the monitor: the server asks for a heartbeat every `interval`
    /// milliseconds.
    pub fn arm(&mut self, interval: u64)
        ensures
            *final(self) == HeartbeatMonitor::spec_arm(interval),
    {
        *self = HeartbeatMonitor::Armed { interval };
    }

    /// Stops the monitor: there is no connection to keep alive.
    pub fn disarm(&mut self)
        ensures
            *final(self) == HeartbeatMonitor::Idle,
    {
        *self = HeartbeatMonitor::Idle;
    }

    /// A tick of the timer. If the last heartbeat was acknowledged, the
    /// monitor asks for the next one, with the last sequence number received,
    /// and awaits its acknowledgement. If it was not, the connection is dead.
    /// A monitor that does not run asks for nothing.
    pub fn tick(&mut self, sequence: Option<u64>) -> (action: HeartbeatAction)
        ensures
            *final(self) == old(self).spec_tick(),
            action == old(self).spec_tick_action(sequence),
    {
        match *self {
            HeartbeatMonitor::Armed { interval } => {
                *self = HeartbeatMonitor::AwaitingAck { interval };
                HeartbeatAction::Send { sequence }
            },
            HeartbeatMonitor::AwaitingAck { .. } => {
                *self = HeartbeatMonitor::Zombied;
                HeartbeatAction::Dead
            },
            _ => HeartbeatAction::Nothing,
        }
    }

    /// The server acknowledged a heartbeat: the monitor waits for the next
    /// tick again.
    pub fn ack(&mut self)
        ensures
            *final(self) == old(self).spec_ack(),
    {
        match *self {
            HeartbeatMonitor::AwaitingAck { interval } => {
                *self = HeartbeatMonitor::Armed { interval };
            },
            _ => {},
        }
    }

    /// Whether the monitor runs: it is armed or awaits an acknowledgement.
    pub fn is_running(&self) -> (running: bool)
        ensures
            running == self.spec_is_running(),
    {
        match self {
            HeartbeatMonitor::Armed { .. } | HeartbeatMonitor::AwaitingAck { .. } => true,
            _ => false,
        }
    }

    /// The time between two heartbeats, in milliseconds, while the monitor
    /// runs.
    pub fn interval(&self) -> (interval: Option<u64>)
        ensures
            interval == match *self {
                HeartbeatMonitor::Armed { interval } => Some(interval),
                HeartbeatMonitor::AwaitingAck { interval } => Some(interval),
                _ => None,
            },
    {
        match self {
            HeartbeatMonitor::Armed { interval } => Some(*interval),
            HeartbeatMonitor::AwaitingAck { interval } => Some(*interval),
            _ => None,
        }
    }
}

/// The delay before the first heartbeat, in milliseconds: `entropy` brought
/// into the range from zero up to, and without, `interval`. With an interval
/// of zero there is nothing to wait for.
pub open spec fn spec_first_delay(interval: u64, entropy: u64) -> u64 {
    if interval == 0 {
        0
    } else {
        entropy % interval
    }
}

/// The delay before the first heartbeat, in milliseconds. The caller brings
/// `entropy`, a number drawn at random, so that many clients that connect at
/// once do not all send their heartbeats at the same moment.
pub fn first_delay(interval: u64, entropy: u64) -> (delay: u64)
    ensures
        delay == spec_first_delay(interval, entropy),
        interval > 0 ==> delay < interval,
{
    if interval == 0 {
        0
    } else {
        entropy % interval
    }
}

/// A heartbeat that is not acknowledged before the next tick kills the
/// connection: an armed monitor that sees two ticks and no acknowledgement
/// between them asks for a heartbeat on the first and reports the connection
/// dead on the second.
pub proof fn lemma_missed_ack_is_fatal(interval: u64, sequence: Option<u64>)
    ensures
        HeartbeatMonitor::spec_arm(interval).spec_tick_action(sequence) == (HeartbeatAction::Send {
            sequence,
        }),
        HeartbeatMonitor::spec_arm(interval).spec_tick().spec_tick_action(sequence)
            == HeartbeatAction::Dead,
        HeartbeatMonitor::spec_arm(interval).spec_tick().spec_tick() == HeartbeatMonitor::Zombied,
{
}

/// A heartbeat that is acknowledged before the next tick keeps the
/// connection alive: after tick and acknowledgement the monitor is armed as
/// before, and asks for a heartbeat again on the next tick.
pub proof fn lemma_ack_rearms(interval: u64, sequence: Option<u64>)
    ensures
        HeartbeatMonitor::spec_arm(interval).spec_tick().spec_ack() == HeartbeatMonitor::spec_arm(
            interval,
        ),
        HeartbeatMonitor::spec_arm(interval).spec_tick().spec_ack().spec_tick_action(sequence) == (
        HeartbeatAction::Send { sequence }),
{
}

/// A dead connection stays dead: neither ticks nor acknowledgements bring a
/// zombied monitor back.
pub proof fn lemma_zombied_is_final(ticks: nat)
    ensures
        HeartbeatMonitor::Zombied.spec_ticks(ticks) == HeartbeatMonitor::Zombied,
        HeartbeatMonitor::Zombied.spec_ack() == HeartbeatMonitor::Zombied,
    decreases ticks,
{
    if ticks > 0 {
        lemma_zombied_is_final((ticks - 1) as nat);
    }
}

} // verus!
