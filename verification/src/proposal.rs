//! Proposals, and what each kind of proposal does once it is accepted.
use vstd::prelude::*;

use crate::db::{register_proposal, registered_msg};
use crate::interpreter::Mutability;

verus! {

/// A point in time: seconds and nanoseconds since the Unix epoch.
#[derive(Debug, Clone, Copy, PartialEq, Eq, Structural)]
pub struct Timespec {
    pub sec: i64,
    pub nsec: i32,
}

/// A proposal for a change to the rules.
#[derive(Debug)]
pub struct Proposal {
    pub id: i32,
    pub creator_id: String,
    pub timestamp_proposed: i64,
    pub text: String,
    pub target_id: Option<i32>,
    pub timestamp_closed: Option<Timespec>,
    pub pass_fail: Option<bool>,
}

/// The current time in whole seconds since the Unix epoch.
///
/// Calls `time::get_time` and reads its `sec` field.  The clock decides the
/// value, so nothing is stated of it.
#[verifier::external_body]
pub(crate) fn now_seconds() -> i64 {
    time::get_time().sec
}

/// A fresh proposal: not aimed at another rule, not closed, not decided.
pub fn new_proposal(id: i32, creator_id: &str, timestamp_proposed: i64, text: &str) -> (r:
    Proposal)
    ensures
        r.id == id,
        r.creator_id@ == creator_id@,
        r.timestamp_proposed == timestamp_proposed,
        r.text@ == text@,
        r.target_id is None,
        r.timestamp_closed is None,
        r.pass_fail is None,
{
    Proposal {
        id,
        creator_id: String::from_str(creator_id),
        timestamp_proposed,
        text: String::from_str(text),
        target_id: None,
        timestamp_closed: None,
        pass_fail: None,
    }
}

pub open spec fn enact_failed_msg() -> Seq<char> {
    "Error enacting the proposal, sorry!"@
}

/// Records a new rule proposal, stamped with the current time.  The database
/// decides whether the insertion succeeds.
pub fn enact(conn: &rusqlite::Connection, prop: &str, proposal_id: i32, creator_id: &str) -> (r:
    Result<String, String>)
    ensures
        r is Ok ==> r->Ok_0@ == registered_msg(),
        r is Err ==> r->Err_0@ == enact_failed_msg(),
{
    let proposal = new_proposal(proposal_id, creator_id, now_seconds(), prop);
    match register_proposal(conn, &proposal) {
        Ok(s) => Ok(s),
        Err(_) => Err(String::from_str("Error enacting the proposal, sorry!")),
    }
}

pub open spec fn amend_msg() -> Seq<char> {
    "Do an amendment!"@
}

pub open spec fn repeal_msg() -> Seq<char> {
    "Repeal it then re-squeal it!?"@
}

pub open spec fn transmute_msg() -> Seq<char> {
    "transmuting yeah!"@
}

/// Amending a rule is not implemented yet: always answers with an error.
pub fn amend(
    conn: &rusqlite::Connection,
    prop: &str,
    proposal_id: i32,
    creator_id: &str,
    target_id: i32,
) -> (r: Result<String, String>)
    ensures
        r is Err && r->Err_0@ == amend_msg(),
{
    Err(String::from_str("Do an amendment!"))
}

/// Repealing a rule is not implemented yet: always answers with an error.
pub fn repeal(
    conn: &rusqlite::Connection,
    prop: &str,
    proposal_id: i32,
    creator_id: &str,
    target_id: i32,
) -> (r: Result<String, String>)
    ensures
        r is Err && r->Err_0@ == repeal_msg(),
{
    Err(String::from_str("Repeal it then re-squeal it!?"))
}

/// Transmuting a rule is not implemented yet: always answers with an error.
pub fn transmute(
    conn: &rusqlite::Connection,
    prop: &str,
    proposal_id: i32,
    creator_id: &str,
    target_id: i32,
    transmute_direction: Mutability,
) -> (r: Result<String, String>)
    ensures
        r is Err && r->Err_0@ == transmute_msg(),
{
    Err(String::from_str("transmuting yeah!"))
}

} // verus!
