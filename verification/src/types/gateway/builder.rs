//! Builds what a client sends to identify itself.
use crate::types::gateway::activity::StatusUpdate;
use vstd::prelude::*;
use vstd::string::StringExecFns;

verus! {

/// The large threshold that the server uses when a client names none.
pub const DEFAULT_LARGE_THRESHOLD: u8 = 50;

/// The smallest large threshold that the server accepts.
pub const MIN_LARGE_THRESHOLD: u8 = 50;

/// The greatest large threshold that the server accepts.
pub const MAX_LARGE_THRESHOLD: u8 = 250;

/// The large threshold that holds when a client asks for `threshold`: the
/// number asked for if the server accepts it, the default if not.
pub open spec fn spec_clamp_large_threshold(threshold: u8) -> u8 {
    if MIN_LARGE_THRESHOLD <= threshold <= MAX_LARGE_THRESHOLD {
        threshold
    } else {
        DEFAULT_LARGE_THRESHOLD
    }
}

/// The large threshold that holds when a client asks for `threshold`: the
/// number asked for if it lies between 50 and 250, and 50 if not.
pub fn clamp_large_threshold(threshold: u8) -> (t: u8)
    ensures
        t == spec_clamp_large_threshold(threshold),
        MIN_LARGE_THRESHOLD <= t <= MAX_LARGE_THRESHOLD,
{
    if threshold >= MIN_LARGE_THRESHOLD && threshold <= MAX_LARGE_THRESHOLD {
        threshold
    } else {
        DEFAULT_LARGE_THRESHOLD
    }
}

/// What a client says of the machine it runs on.
#[derive(Clone, Debug, PartialEq, Eq)]
pub struct IdentifyProperties {
    pub os: String,
    pub browser: String,
    pub device: String,
}

/// What a client sends once per new session to identify itself.
#[derive(Debug, PartialEq, Eq)]
pub struct IdentifyObject {
    token: String,
    properties: IdentifyProperties,
    compress: bool,
    large_threshold: Option<u8>,
    shard: Option<Vec<u8>>,
    presence: Option<StatusUpdate>,
    guild_subscriptions: Option<bool>,
    intents: Option<u32>,
    auto_reidentify: bool,
}

/// The mathematical value of an [`IdentifyObject`].
pub struct IdentifyObjectView {
    /// The token of the bot.
    pub token: Seq<char>,
    /// Operating system, browser and device, as the client names them.
    pub os: Seq<char>,
    pub browser: Seq<char>,
    pub device: Seq<char>,
    /// Whether the server may compress what it sends.
    pub compress: bool,
    /// The large threshold asked for; without one the default holds.
    pub large_threshold: Option<u8>,
    /// Number of this shard and number of shards.
    pub shard: Option<Seq<u8>>,
    /// The presence to show from the start.
    pub presence: Option<StatusUpdate>,
    /// Whether presence and typing events of guild members are wanted.
    pub guild_subscriptions: Option<bool>,
    /// The intents, one bit each.
    pub intents: Option<u32>,
    /// Whether to identify anew when a session could not be resumed. This is
    /// the client's own policy and is not sent to the server.
    pub auto_reidentify: bool,
}

impl IdentifyObjectView {
    /// The large threshold that holds for the session.
    pub open spec fn effective_large_threshold(self) -> u8 {
        match self.large_threshold {
            Some(t) => t,
            None => DEFAULT_LARGE_THRESHOLD,
        }
    }

    /// The large threshold, if one is named, is one that the server accepts.
    pub open spec fn wf(self) -> bool {
        self.large_threshold matches Some(t) ==> MIN_LARGE_THRESHOLD <= t <= MAX_LARGE_THRESHOLD
    }
}

impl View for IdentifyObject {
    type V = IdentifyObjectView;

    closed spec fn view(&self) -> IdentifyObjectView {
        IdentifyObjectView {
            token: self.token@,
            os: self.properties.os@,
            browser: self.properties.browser@,
            device: self.properties.device@,
            compress: self.compress,
            large_threshold: self.large_threshold,
            shard: match self.shard {
                Some(s) => Some(s@),
                None => None,
            },
            presence: self.presence,
            guild_subscriptions: self.guild_subscriptions,
            intents: self.intents,
            auto_reidentify: self.auto_reidentify,
        }
    }
}

impl IdentifyObject {
    #[verifier::type_invariant]
    spec fn large_threshold_in_range(self) -> bool {
        self.large_threshold matches Some(t) ==> MIN_LARGE_THRESHOLD <= t <= MAX_LARGE_THRESHOLD
    }

    /// An identify object with the given token and the defaults of the
    /// gateway, but for compression, which is on.
    pub fn new(token: String) -> (io: Self)
        ensures
            io@ == (IdentifyObjectView {
                token: token@,
                os: "Linux"@,
                browser: "derust"@,
                device: "derust"@,
                compress: true,
                large_threshold: None,
                shard: None,
                presence: None,
                guild_subscriptions: None,
                intents: None,
                auto_reidentify: false,
            }),
    {
        Self {
            token,
            properties: IdentifyProperties {
                os: String::from_str("Linux"),
                browser: String::from_str("derust"),
                device: String::from_str("derust"),
            },
            compress: true,
            large_threshold: None,
            shard: None,
            presence: None,
            guild_subscriptions: None,
            intents: None,
            auto_reidentify: false,
        }
    }

    /// Whether the server may compress what it sends. The client itself
    /// always sends plain JSON.
    ///
    /// Default: true
    pub fn compress(&mut self, choice: bool) -> (ret: &mut Self)
        ensures
            ret@ == (IdentifyObjectView { compress: choice, ..old(self)@ }),
            *final(self) == *final(ret),
    {
        proof {
            use_type_invariant(&*self);
        }
        self.compress = choice;
        self
    }

    /// The intents of the session, one bit each: see [`Intents`].
    ///
    /// Default: none
    pub fn intents(&mut self, intents: u32) -> (ret: &mut Self)
        ensures
            ret@ == (IdentifyObjectView { intents: Some(intents), ..old(self)@ }),
            *final(self) == *final(ret),
    {
        proof {
            use_type_invariant(&*self);
        }
        self.intents = Some(intents);
        self
    }

    /// The presence to show from the start of the session.
    ///
    /// Default: none
    pub fn presence(&mut self, presence: StatusUpdate) -> (ret: &mut Self)
        ensures
            ret@ == (IdentifyObjectView { presence: Some(presence), ..old(self)@ }),
            *final(self) == *final(ret),
    {
        proof {
            use_type_invariant(&*self);
        }
        self.presence = Some(presence);
        self
    }

    /// The number of members from which on the server takes a guild for
    /// large and no longer lists its offline members.
    ///
    /// A number between 50 and 250 is taken as it is. With any other number
    /// the default of 50 holds.
    pub fn large_threshold(&mut self, threshold: u8) -> (ret: &mut Self)
        ensures
            ret@ == (IdentifyObjectView {
                large_threshold: if MIN_LARGE_THRESHOLD <= threshold <= MAX_LARGE_THRESHOLD {
                    Some(threshold)
                } else {
                    None
                },
                ..old(self)@
            }),
            ret@.effective_large_threshold() == spec_clamp_large_threshold(threshold),
            *final(self) == *final(ret),
    {
        if threshold >= MIN_LARGE_THRESHOLD && threshold <= MAX_LARGE_THRESHOLD {
            self.large_threshold = Some(threshold);
        } else {
            self.large_threshold = None;
        }
        self
    }

    /// Whether presence and typing events of guild members are wanted.
    ///
    /// Default: none, which the server takes for true
    pub fn guild_subscriptions(&mut self, choice: bool) -> (ret: &mut Self)
        ensures
            ret@ == (IdentifyObjectView { guild_subscriptions: Some(choice), ..old(self)@ }),
            *final(self) == *final(ret),
    {
        proof {
            use_type_invariant(&*self);
        }
        self.guild_subscriptions = Some(choice);
        self
    }

    /// Whether to identify anew when the server refuses to resume a session.
    ///
    /// Default: `false`
    pub fn auto_reidentify(&mut self, choice: bool) -> (ret: &mut Self)
        ensures
            ret@ == (IdentifyObjectView { auto_reidentify: choice, ..old(self)@ }),
            *final(self) == *final(ret),
    {
        proof {
            use_type_invariant(&*self);
        }
        self.auto_reidentify = choice;
        self
    }

    /// Every identify object is well formed: its large threshold, if it names
    /// one, is one that the server accepts. The call does nothing at run
    /// time; it tells the verifier what the type guarantees.
    pub fn well_formed(&self)
        ensures
            self@.wf(),
    {
        proof {
            use_type_invariant(self);
        }
    }

    /// The large threshold that holds for the session: the one named, or the
    /// default of 50.
    pub fn effective_large_threshold(&self) -> (t: u8)
        ensures
            t == self@.effective_large_threshold(),
            MIN_LARGE_THRESHOLD <= t <= MAX_LARGE_THRESHOLD,
    {
        proof {
            use_type_invariant(self);
        }
        match self.large_threshold {
            Some(t) => t,
            None => DEFAULT_LARGE_THRESHOLD,
        }
    }

    /// The token of the bot.
    pub fn token(&self) -> (token: &String)
        ensures
            token@ == self@.token,
    {
        &self.token
    }

    /// What the client says of the machine it runs on.
    pub fn properties(&self) -> (properties: &IdentifyProperties)
        ensures
            properties.os@ == self@.os,
            properties.browser@ == self@.browser,
            properties.device@ == self@.device,
    {
        &self.properties
    }

    /// Whether the server may compress what it sends.
    pub fn compress_enabled(&self) -> (compress: bool)
        ensures
            compress == self@.compress,
    {
        self.compress
    }

    /// The large threshold asked for, if one was.
    pub fn large_threshold_value(&self) -> (threshold: Option<u8>)
        ensures
            threshold == self@.large_threshold,
            self@.wf(),
    {
        proof {
            use_type_invariant(self);
        }
        self.large_threshold
    }

    /// Number of this shard and number of shards, if the client is sharded.
    pub fn shard_value(&self) -> (shard: Option<&Vec<u8>>)
        ensures
            match shard {
                Some(s) => self@.shard == Some(s@),
                None => self@.shard is None,
            },
    {
        self.shard.as_ref()
    }

    /// The presence to show from the start of the session.
    pub fn presence_value(&self) -> (presence: Option<&StatusUpdate>)
        ensures
            match presence {
                Some(p) => self@.presence == Some(*p),
                None => self@.presence is None,
            },
    {
        self.presence.as_ref()
    }

    /// Whether presence and typing events of guild members are wanted.
    pub fn guild_subscriptions_value(&self) -> (choice: Option<bool>)
        ensures
            choice == self@.guild_subscriptions,
    {
        self.guild_subscriptions
    }

    /// The intents of the session, one bit each.
    pub fn intents_value(&self) -> (intents: Option<u32>)
        ensures
            intents == self@.intents,
    {
        self.intents
    }

    /// Whether to identify anew when the server refuses to resume a session.
    pub fn auto_reidentify_enabled(&self) -> (choice: bool)
        ensures
            choice == self@.auto_reidentify,
    {
        self.auto_reidentify
    }
}

/// The events that a client can ask the server for. Each intent stands for
/// one bit of the number sent on identification.
///
/// `GuildPresences` and `GuildMembers` are privileged.
#[derive(Clone, Copy, Debug, PartialEq, Eq, Structural)]
pub enum Intents {
    Guilds,
    GuildMembers,
    GuildBans,
    GuildEmojis,
    GuildIntegrations,
    GuildWebhooks,
    GuildInvites,
    GuildVoiceStates,
    GuildPresences,
    GuildMessages,
    GuildMessageReactions,
    GuildMessageTyping,
    DirectMessages,
    DirectMessageReactions,
    DirectMessageTyping,
}

impl Intents {
    /// The number with only the bit of this intent set.
    pub open spec fn spec_bits(self) -> u16 {
        match self {
            Intents::Guilds => 0x0001,
            Intents::GuildMembers => 0x0002,
            Intents::GuildBans => 0x0004,
            Intents::GuildEmojis => 0x0008,
            Intents::GuildIntegrations => 0x0010,
            Intents::GuildWebhooks => 0x0020,
            Intents::GuildInvites => 0x0040,
            Intents::GuildVoiceStates => 0x0080,
            Intents::GuildPresences => 0x0100,
            Intents::GuildMessages => 0x0200,
            Intents::GuildMessageReactions => 0x0400,
            Intents::GuildMessageTyping => 0x0800,
            Intents::DirectMessages => 0x1000,
            Intents::DirectMessageReactions => 0x2000,
            Intents::DirectMessageTyping => 0x4000,
        }
    }

    /// The number with only the bit of this intent set.
    pub fn bits(&self) -> (b: u16)
        ensures
            b == self.spec_bits(),
    {
        match self {
            Intents::Guilds => 0x0001,
            Intents::GuildMembers => 0x0002,
            Intents::GuildBans => 0x0004,
            Intents::GuildEmojis => 0x0008,
            Intents::GuildIntegrations => 0x0010,
            Intents::GuildWebhooks => 0x0020,
            Intents::GuildInvites => 0x0040,
            Intents::GuildVoiceStates => 0x0080,
            Intents::GuildPresences => 0x0100,
            Intents::GuildMessages => 0x0200,
            Intents::GuildMessageReactions => 0x0400,
            Intents::GuildMessageTyping => 0x0800,
            Intents::DirectMessages => 0x1000,
            Intents::DirectMessageReactions => 0x2000,
            Intents::DirectMessageTyping => 0x4000,
        }
    }
}

/// Whatever was asked for, the large threshold that holds lies between 50
/// and 250: a number in that range holds as it is, and any other gives way to
/// 50.
pub proof fn lemma_large_threshold_clamped(threshold: u8)
    ensures
        MIN_LARGE_THRESHOLD <= spec_clamp_large_threshold(threshold) <= MAX_LARGE_THRESHOLD,
        (50 <= threshold <= 250) ==> spec_clamp_large_threshold(threshold) == threshold,
        (threshold < 50 || threshold > 250) ==> spec_clamp_large_threshold(threshold) == 50,
{
}

} // verus!
