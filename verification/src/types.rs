//! The base types that every other module uses.
//!
//! The records in the modules below mirror what the API sends. They are plain
//! data: the connection logic carries them and never looks inside, apart from
//! the identifier under which a record is cached.
use vstd::prelude::*;

pub mod channel;
pub mod error;
pub mod gateway;
pub mod guild;
pub mod invite;
pub mod message;
pub mod permission;
pub mod role;
pub mod user;
pub mod voice;

verus! {

/// A Discord identifier. The API transmits it as a decimal string; here it is
/// the number itself.
#[derive(Clone, Copy, Debug, PartialEq, Eq, Hash, Structural)]
pub struct Snowflake(pub u64);

/// A point in time, which the API transmits as an ISO 8601 string: whole
/// seconds since the Unix epoch, and the nanoseconds within the second.
#[derive(Clone, Copy, Debug, PartialEq, Eq, Structural)]
pub struct Timestamp {
    /// Seconds since 1970-01-01T00:00:00Z; negative before it.
    pub seconds: i64,
    /// Nanoseconds since the last whole second.
    pub nanoseconds: u32,
}

impl Timestamp {
    /// A timestamp is well formed when its nanoseconds stay below one second.
    pub open spec fn wf(self) -> bool {
        self.nanoseconds < 1_000_000_000
    }

    /// The timestamp of the given second and nanoseconds, if the nanoseconds
    /// stay below one second.
    pub fn new(seconds: i64, nanoseconds: u32) -> (t: Option<Timestamp>)
        ensures
            t is Some <==> nanoseconds < 1_000_000_000,
            t matches Some(ts) ==> ts.wf() && ts.seconds == seconds && ts.nanoseconds
                == nanoseconds,
    {
        if nanoseconds < 1_000_000_000 {
            Some(Timestamp { seconds, nanoseconds })
        } else {
            None
        }
    }
}

/// Marks the records that a cache can hold: `Guild`, `GuildMember`, `User`,
/// `Channel`, `VoiceState` and `GuildType`.
pub trait CachedTypes {

}

} // verus!
