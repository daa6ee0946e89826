//! Users.
use crate::types::channel::CreatePrivateChannelBody;
use crate::types::{CachedTypes, Snowflake};
use vstd::prelude::*;

verus! {

/// A user as the API returns it.
#[derive(Clone, Debug, PartialEq, Eq)]
pub struct User {
    pub id: Snowflake,
    pub username: String,
    pub discriminator: String,
    pub avatar: String,
    pub verified: bool,
    pub email: String,
    pub flags: i64,
    pub premium_type: PremiumType,
    pub public_flags: i64,
}

impl CachedTypes for User {

}

#[derive(Clone, Copy, Debug, PartialEq, Eq, Structural)]
pub enum PremiumType {
    NoPremium,
    NitroClassic,
    Nitro,
}

/// One public flag of a user. Each but `NoFlags` stands for one bit.
#[derive(Clone, Copy, Debug, PartialEq, Eq, Structural)]
pub enum PublicFlags {
    NoFlags,
    Employee,
    Partner,
    HypeSquadEvents,
    BugHunterLevel1,
    BraveryHouse,
    BrillianceHouse,
    BalanceHouse,
    EarlySupporter,
    TeamUser,
    System,
    BugHunterLevel2,
    VerifiedBot,
    VerifiedBotDeveloper,
}

impl User {
    /// The body of the request that opens a private channel with this user:
    /// it names the user as the recipient.
    pub fn create_private_channel(&self) -> (body: CreatePrivateChannelBody)
        ensures
            body.recipient_id == self.id,
    {
        CreatePrivateChannelBody { recipient_id: self.id }
    }
}

} // verus!
