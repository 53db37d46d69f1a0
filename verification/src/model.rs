//! The game's records: players, votes and rules.
use vstd::prelude::*;

verus! {

/// A player of the game.
#[derive(Debug)]
pub struct Player {
    pub id: i32,
    pub slack_id: String,
    pub username: String,
    pub points: i32,
    pub timezone: String,
}

/// A player's vote on a proposal.
#[derive(Debug)]
pub struct Vote {
    pub id: i32,
    pub proposal_id: i32,
    pub user_id: i32,
    pub timestamp: i64,
    pub yes_no: bool,
}

/// A rule in force, and the proposal that made it.
#[derive(Debug)]
pub struct Rule {
    pub id: i32,
    pub proposal_id: i32,
    pub mutable: bool,
    pub amendment_id: Option<i32>,
}

} // verus!
