//! Roles of a guild.
use crate::types::Snowflake;
use vstd::prelude::*;

verus! {

#[derive(Clone, Debug, PartialEq, Eq)]
pub struct Role {
    pub id: Snowflake,
    pub name: String,
    pub color: i32,
    pub hoist: bool,
    pub position: i32,
    pub permissions: i32,
    pub managed: bool,
    pub mentionable: bool,
}

} // verus!
