//! The caches of a client and the requests that change them.
//!
//! There is one store for each kind of cached record. Every change of a
//! store is a request, and every request gets one reply, so that one owner
//! can serve the requests of many.
use crate::types::channel::Channel;
use crate::types::gateway::payloads::GuildType;
use crate::types::guild::GuildMember;
use crate::types::user::User;
use crate::types::voice::VoiceState;
use crate::types::{CachedTypes, Snowflake};
use std::collections::HashMap;
use vstd::prelude::*;

verus! {

broadcast use vstd::std_specs::hash::group_hash_axioms;

/// What a store holds under `k`, if it holds anything there.
pub open spec fn spec_get<C>(contents: Map<u64, C>, k: Snowflake) -> Option<C> {
    if contents.contains_key(k.0) {
        Some(contents[k.0])
    } else {
        None
    }
}

/// What a store holds after `v` was pushed under `k`.
pub open spec fn spec_push<C>(contents: Map<u64, C>, k: Snowflake, v: C) -> Map<u64, C> {
    contents.insert(k.0, v)
}

/// What a store holds after what it held under `k` was removed.
pub open spec fn spec_remove<C>(contents: Map<u64, C>, k: Snowflake) -> Map<u64, C> {
    contents.remove(k.0)
}

/// A store for cached records of one kind: a map from identifiers to
/// records. `HashMap` is one; a client may bring another, for instance one
/// that keeps the records in a database. A store can be handed to the task
/// that owns it.
pub trait Cache<C: CachedTypes>: Send {
    /// What the store holds: a finite map from the numbers of identifiers to
    /// records.
    spec fn contents(&self) -> Map<u64, C>;

    /// The record stored under `k`, if there is one.
    fn get(&self, k: Snowflake) -> (found: Option<&C>)
        ensures
            match found {
                Some(v) => spec_get(self.contents(), k) == Some(*v),
                None => spec_get(self.contents(), k) is None,
            },
    ;

    /// Stores `v` under `k` and gives back what was stored there before.
    fn push(&mut self, k: Snowflake, v: C) -> (prior: Option<C>)
        ensures
            final(self).contents() == spec_push(old(self).contents(), k, v),
            prior == spec_get(old(self).contents(), k),
    ;

    /// Takes away what is stored under `k` and gives it back.
    fn remove(&mut self, k: Snowflake) -> (removed: Option<C>)
        ensures
            final(self).contents() == spec_remove(old(self).contents(), k),
            removed == spec_get(old(self).contents(), k),
    ;

    /// Drops every record and gives the memory that held them back at once.
    fn clear(&mut self)
        ensures
            final(self).contents() == Map::<u64, C>::empty(),
    ;

    /// The number of records stored.
    fn len(&self) -> (n: usize)
        ensures
            self.contents().dom().finite(),
            n == self.contents().len(),
    ;
}

impl<V: CachedTypes + Send> Cache<V> for HashMap<u64, V> {
    open spec fn contents(&self) -> Map<u64, V> {
        self@
    }

    fn get(&self, k: Snowflake) -> (found: Option<&V>) {
        HashMap::get(self, &k.0)
    }

    fn push(&mut self, k: Snowflake, v: V) -> (prior: Option<V>) {
        self.insert(k.0, v)
    }

    fn remove(&mut self, k: Snowflake) -> (removed: Option<V>) {
        HashMap::remove(self, &k.0)
    }

    fn clear(&mut self) {
        *self = HashMap::new();
    }

    fn len(&self) -> (n: usize) {
        HashMap::len(self)
    }
}

/// The kinds of cached record, one store each.
#[derive(Clone, Copy, Debug, PartialEq, Eq, Structural)]
pub enum CacheType {
    Guild,
    User,
    Member,
    VoiceState,
    Channel,
}

/// What a request asks of a store.
#[derive(Debug, PartialEq, Eq)]
pub enum CacheAction<V> {
    /// Store the record under the identifier.
    Push((Snowflake, V)),
    /// Take away what is stored under the identifier.
    Remove(Snowflake),
    /// Drop every record.
    Clear,
    /// Count the records.
    Len,
}

/// What a store answers.
#[derive(Debug, PartialEq, Eq)]
pub enum CacheOutcome<V> {
    /// There is no store for this kind of record: nothing was done.
    Absent,
    /// The record was stored; here is what was stored there before.
    Pushed(Option<V>),
    /// Here is what was taken away.
    Removed(Option<V>),
    /// Every record was dropped.
    Cleared,
    /// The number of records.
    Len(usize),
}

/// A request to the store of one kind of record.
#[derive(Debug, PartialEq, Eq)]
pub enum CacheRequest {
    Guild(CacheAction<GuildType>),
    User(CacheAction<User>),
    Member(CacheAction<GuildMember>),
    VoiceState(CacheAction<VoiceState>),
    Channel(CacheAction<Channel>),
}

/// The reply to a request, from the store of the same kind.
#[derive(Debug, PartialEq, Eq)]
pub enum CacheReply {
    Guild(CacheOutcome<GuildType>),
    User(CacheOutcome<User>),
    Member(CacheOutcome<GuildMember>),
    VoiceState(CacheOutcome<VoiceState>),
    Channel(CacheOutcome<Channel>),
}

impl CacheRequest {
    /// The kind of record that the request is about.
    pub open spec fn spec_target(self) -> CacheType {
        match self {
            CacheRequest::Guild(_) => CacheType::Guild,
            CacheRequest::User(_) => CacheType::User,
            CacheRequest::Member(_) => CacheType::Member,
            CacheRequest::VoiceState(_) => CacheType::VoiceState,
            CacheRequest::Channel(_) => CacheType::Channel,
        }
    }

    /// The kind of record that the request is about.
    pub fn target(&self) -> (target: CacheType)
        ensures
            target == self.spec_target(),
    {
        match self {
            CacheRequest::Guild(_) => CacheType::Guild,
            CacheRequest::User(_) => CacheType::User,
            CacheRequest::Member(_) => CacheType::Member,
            CacheRequest::VoiceState(_) => CacheType::VoiceState,
            CacheRequest::Channel(_) => CacheType::Channel,
        }
    }
}

impl CacheReply {
    /// The kind of record that the reply is about.
    pub open spec fn spec_target(self) -> CacheType {
        match self {
            CacheReply::Guild(_) => CacheType::Guild,
            CacheReply::User(_) => CacheType::User,
            CacheReply::Member(_) => CacheType::Member,
            CacheReply::VoiceState(_) => CacheType::VoiceState,
            CacheReply::Channel(_) => CacheType::Channel,
        }
    }
}

/// What a store holds after a request, when it held `contents` before. With
/// no store there is nothing before and nothing after.
pub open spec fn spec_contents_after<V>(
    contents: Option<Map<u64, V>>,
    action: CacheAction<V>,
) -> Option<Map<u64, V>> {
    match contents {
        None => None,
        Some(m) => Some(
            match action {
                CacheAction::Push((k, v)) => spec_push(m, k, v),
                CacheAction::Remove(k) => spec_remove(m, k),
                CacheAction::Clear => Map::empty(),
                CacheAction::Len => m,
            },
        ),
    }
}

/// What a store that holds `contents` answers to a request.
pub open spec fn spec_outcome<V>(contents: Option<Map<u64, V>>, action: CacheAction<V>)
    -> CacheOutcome<V> {
    match contents {
        None => CacheOutcome::Absent,
        Some(m) => match action {
            CacheAction::Push((k, _)) => CacheOutcome::Pushed(spec_get(m, k)),
            CacheAction::Remove(k) => CacheOutcome::Removed(spec_get(m, k)),
            CacheAction::Clear => CacheOutcome::Cleared,
            CacheAction::Len => CacheOutcome::Len(m.len() as usize),
        },
    }
}

/// What an optional store holds.
pub open spec fn store_contents<V: CachedTypes>(store: Option<Box<dyn Cache<V>>>) -> Option<
    Map<u64, V>,
> {
    match store {
        Some(cache) => Some(cache.contents()),
        None => None,
    }
}

/// Serves one request to one store and gives the reply. Where there is no
/// store the request is answered at once and nothing is stored.
pub fn apply<V: CachedTypes>(store: &mut Option<Box<dyn Cache<V>>>, action: CacheAction<V>) -> (outcome:
    CacheOutcome<V>)
    ensures
        store_contents(*final(store)) == spec_contents_after(store_contents(*old(store)), action),
        outcome == spec_outcome(store_contents(*old(store)), action),
{
    match store {
        None => CacheOutcome::Absent,
        Some(cache) => match action {
            CacheAction::Push((k, v)) => CacheOutcome::Pushed(cache.push(k, v)),
            CacheAction::Remove(k) => CacheOutcome::Removed(cache.remove(k)),
            CacheAction::Clear => {
                cache.clear();
                CacheOutcome::Cleared
            },
            CacheAction::Len => CacheOutcome::Len(cache.len()),
        },
    }
}

/// The stores of a client, one for each kind of cached record. A kind
/// without a store is not cached.
pub struct Caches {
    guild_cache: Option<Box<dyn Cache<GuildType>>>,
    user_cache: Option<Box<dyn Cache<User>>>,
    member_cache: Option<Box<dyn Cache<GuildMember>>>,
    voice_state_cache: Option<Box<dyn Cache<VoiceState>>>,
    channel_cache: Option<Box<dyn Cache<Channel>>>,
}

/// The mathematical value of [`Caches`]: what each store holds, for the
/// kinds that have one.
pub struct CachesView {
    pub guilds: Option<Map<u64, GuildType>>,
    pub users: Option<Map<u64, User>>,
    pub members: Option<Map<u64, GuildMember>>,
    pub voice_states: Option<Map<u64, VoiceState>>,
    pub channels: Option<Map<u64, Channel>>,
}

impl CachesView {
    /// The stores after a request.
    pub open spec fn after(self, request: CacheRequest) -> CachesView {
        match request {
            CacheRequest::Guild(action) => CachesView {
                guilds: spec_contents_after(self.guilds, action),
                ..self
            },
            CacheRequest::User(action) => CachesView {
                users: spec_contents_after(self.users, action),
                ..self
            },
            CacheRequest::Member(action) => CachesView {
                members: spec_contents_after(self.members, action),
                ..self
            },
            CacheRequest::VoiceState(action) => CachesView {
                voice_states: spec_contents_after(self.voice_states, action),
                ..self
            },
            CacheRequest::Channel(action) => CachesView {
                channels: spec_contents_after(self.channels, action),
                ..self
            },
        }
    }

    /// The reply to a request.
    pub open spec fn reply(self, request: CacheRequest) -> CacheReply {
        match request {
            CacheRequest::Guild(action) => CacheReply::Guild(spec_outcome(self.guilds, action)),
            CacheRequest::User(action) => CacheReply::User(spec_outcome(self.users, action)),
            CacheRequest::Member(action) => CacheReply::Member(spec_outcome(self.members, action)),
            CacheRequest::VoiceState(action) => CacheReply::VoiceState(
                spec_outcome(self.voice_states, action),
            ),
            CacheRequest::Channel(action) => CacheReply::Channel(
                spec_outcome(self.channels, action),
            ),
        }
    }
}

impl View for Caches {
    type V = CachesView;

    closed spec fn view(&self) -> CachesView {
        CachesView {
            guilds: store_contents(self.guild_cache),
            users: store_contents(self.user_cache),
            members: store_contents(self.member_cache),
            voice_states: store_contents(self.voice_state_cache),
            channels: store_contents(self.channel_cache),
        }
    }
}

impl Caches {
    /// Five empty stores, each a `HashMap` without a limit.
    pub fn initialize() -> (caches: Self)
        ensures
            caches@ == (CachesView {
                guilds: Some(Map::empty()),
                users: Some(Map::empty()),
                members: Some(Map::empty()),
                voice_states: Some(Map::empty()),
                channels: Some(Map::empty()),
            }),
    {
        let guilds: HashMap<u64, GuildType> = HashMap::new();
        let users: HashMap<u64, User> = HashMap::new();
        let members: HashMap<u64, GuildMember> = HashMap::new();
        let voice_states: HashMap<u64, VoiceState> = HashMap::new();
        let channels: HashMap<u64, Channel> = HashMap::new();
        Self {
            guild_cache: Some(Box::new(guilds)),
            user_cache: Some(Box::new(users)),
            member_cache: Some(Box::new(members)),
            voice_state_cache: Some(Box::new(voice_states)),
            channel_cache: Some(Box::new(channels)),
        }
    }

    /// Sets the store for guilds: one of the caller's own, or none, and
    /// guilds are not cached.
    ///
    /// Default: a `HashMap` without a limit.
    pub fn guild_cache(&mut self, cache: Option<Box<dyn Cache<GuildType>>>) -> (ret: &mut Self)
        ensures
            ret@ == (CachesView { guilds: store_contents(cache), ..old(self)@ }),
            *final(self) == *final(ret),
    {
        self.guild_cache = cache;
        self
    }

    /// Sets the store for users, as [`Caches::guild_cache`] does for guilds.
    pub fn user_cache(&mut self, cache: Option<Box<dyn Cache<User>>>) -> (ret: &mut Self)
        ensures
            ret@ == (CachesView { users: store_contents(cache), ..old(self)@ }),
            *final(self) == *final(ret),
    {
        self.user_cache = cache;
        self
    }

    /// Sets the store for members of guilds, as [`Caches::guild_cache`] does
    /// for guilds.
    pub fn member_cache(&mut self, cache: Option<Box<dyn Cache<GuildMember>>>) -> (ret: &mut Self)
        ensures
            ret@ == (CachesView { members: store_contents(cache), ..old(self)@ }),
            *final(self) == *final(ret),
    {
        self.member_cache = cache;
        self
    }

    /// Sets the store for voice states, as [`Caches::guild_cache`] does for
    /// guilds.
    pub fn voice_state_cache(&mut self, cache: Option<Box<dyn Cache<VoiceState>>>) -> (ret:
        &mut Self)
        ensures
            ret@ == (CachesView { voice_states: store_contents(cache), ..old(self)@ }),
            *final(self) == *final(ret),
    {
        self.voice_state_cache = cache;
        self
    }

    /// Sets the store for channels, as [`Caches::guild_cache`] does for
    /// guilds.
    pub fn channel_cache(&mut self, cache: Option<Box<dyn Cache<Channel>>>) -> (ret: &mut Self)
        ensures
            ret@ == (CachesView { channels: store_contents(cache), ..old(self)@ }),
            *final(self) == *final(ret),
    {
        self.channel_cache = cache;
        self
    }

    /// Serves one request and gives its reply. The request goes to the store
    /// of its kind and changes no other store. A request for a kind without a
    /// store is answered at once, and nothing is stored.
    pub fn handle(&mut self, request: CacheRequest) -> (reply: CacheReply)
        ensures
            final(self)@ == old(self)@.after(request),
            reply == old(self)@.reply(request),
    {
        match request {
            CacheRequest::Guild(action) => CacheReply::Guild(apply(&mut self.guild_cache, action)),
            CacheRequest::User(action) => CacheReply::User(apply(&mut self.user_cache, action)),
            CacheRequest::Member(action) => CacheReply::Member(
                apply(&mut self.member_cache, action),
            ),
            CacheRequest::VoiceState(action) => CacheReply::VoiceState(
                apply(&mut self.voice_state_cache, action),
            ),
            CacheRequest::Channel(action) => CacheReply::Channel(
                apply(&mut self.channel_cache, action),
            ),
        }
    }

    /// The guild cached under `k`, if guilds are cached and there is one.
    pub fn guild(&self, k: Snowflake) -> (found: Option<&GuildType>)
        ensures
            match found {
                Some(v) => self@.guilds matches Some(m) && spec_get(m, k) == Some(*v),
                None => self@.guilds matches Some(m) ==> spec_get(m, k) is None,
            },
    {
        match &self.guild_cache {
            Some(cache) => cache.get(k),
            None => None,
        }
    }
}

/// What is pushed can be got: after a push under `k` the store holds the
/// pushed record under `k`, and the push gives back what the store held there
/// before. A second push under the same key therefore gives back the record
/// of the first and leaves its own.
pub proof fn lemma_push_then_get<V>(contents: Map<u64, V>, k: Snowflake, v1: V, v2: V)
    ensures
        spec_get(spec_push(contents, k, v1), k) == Some(v1),
        spec_outcome(Some(spec_push(contents, k, v1)), CacheAction::Push((k, v2)))
            == CacheOutcome::Pushed(Some(v1)),
        spec_get(spec_push(spec_push(contents, k, v1), k, v2), k) == Some(v2),
{
}

/// What is removed is gone: after a removal under `k` the store holds
/// nothing under `k`, and the removal gives back what the store held there.
pub proof fn lemma_remove_then_get<V>(contents: Map<u64, V>, k: Snowflake)
    ensures
        spec_get(spec_remove(contents, k), k) is None,
        spec_outcome(Some(contents), CacheAction::<V>::Remove(k)) == CacheOutcome::Removed(
            spec_get(contents, k),
        ),
{
}

/// A cleared store is empty: whatever it held, it counts no records
/// afterwards.
pub proof fn lemma_clear_then_len<V>(contents: Map<u64, V>)
    ensures
        spec_contents_after(Some(contents), CacheAction::<V>::Clear) == Some(Map::<u64, V>::empty()),
        spec_outcome(
            spec_contents_after(Some(contents), CacheAction::<V>::Clear),
            CacheAction::<V>::Len,
        ) == CacheOutcome::<V>::Len(0),
{
}

/// A push or a removal under one key leaves every other key alone.
pub proof fn lemma_other_keys_untouched<V>(contents: Map<u64, V>, k: Snowflake, other: Snowflake, v: V)
    requires
        k.0 != other.0,
    ensures
        spec_get(spec_push(contents, k, v), other) == spec_get(contents, other),
        spec_get(spec_remove(contents, k), other) == spec_get(contents, other),
{
}

/// A kind without a store takes no records: every request is answered with
/// `Absent`, and there is no store afterwards either.
pub proof fn lemma_absent_store_is_inert<V>(action: CacheAction<V>)
    ensures
        spec_outcome(None, action) == CacheOutcome::<V>::Absent,
        spec_contents_after(None, action) == None::<Map<u64, V>>,
{
}

} // verus!
