//! Invites.
use crate::types::channel::Channel;
use crate::types::guild::Guild;
use crate::types::user::User;
use crate::types::Snowflake;
use vstd::prelude::*;

verus! {

#[derive(Clone, Debug, PartialEq, Eq)]
pub struct Invite {
    pub code: String,
    pub guild: Option<Guild>,
    pub channel: Channel,
    pub inviter: Option<User>,
    pub target_user: Option<User>,
    pub target_user_type: Option<TargetUserType>,
    pub approximate_presence_count: Option<i32>,
    pub approximate_member_count: Option<i32>,
}

#[derive(Clone, Copy, Debug, PartialEq, Eq, Structural)]
pub enum TargetUserType {
    Stream,
}

#[derive(Clone, Copy, Debug, PartialEq, Eq, Structural)]
pub struct InviteMetadata {
    pub uses: i32,
    pub max_uses: i32,
    pub max_age: i32,
    pub temporary: bool,
    pub created_at: Snowflake,
}

} // verus!
