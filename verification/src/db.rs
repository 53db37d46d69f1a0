//! The game's SQLite database: the queries the bot makes and what it does
//! with their answers.
//!
//! The answers depend on what the database holds, so the contracts here say
//! which SQL is handed to SQLite (through the `*_query` builders, whose
//! contracts are exact) and how each answer is turned into a result.
use vstd::prelude::*;

use crate::interpreter::Mutability;
use crate::model::Player;
use crate::proposal::{Proposal, Timespec};
use crate::text::{decimal_of, decimal_string};

verus! {

// ---------------------------------------------------------------------------
// Trusted access to rusqlite
// ---------------------------------------------------------------------------

/// An open SQLite connection (`rusqlite::Connection`).
#[verifier::external_type_specification]
#[verifier::external_body]
pub struct ExConnection(rusqlite::Connection);

/// An error reported by rusqlite (`rusqlite::Error`).
#[verifier::external_type_specification]
#[verifier::external_body]
pub struct ExSqliteError(rusqlite::Error);

/// A prepared statement (`rusqlite::Statement`).
#[verifier::external_type_specification]
#[verifier::external_body]
pub struct ExStatement<'conn>(rusqlite::Statement<'conn>);

/// Runs `sql` with no parameters and reads column 0 of the first row as text.
///
/// Calls `rusqlite::Connection::query_row`.  What comes back depends on the
/// database contents, so nothing is stated of it.
#[verifier::external_body]
fn query_row_text(conn: &rusqlite::Connection, sql: &str) -> (r: Result<String, rusqlite::Error>) {
    conn.query_row(sql, [], |row| row.get::<usize, String>(0))
}

/// Runs `sql` with no parameters and reads column 0 of the first row as an
/// `i32`.
///
/// Calls `rusqlite::Connection::query_row`.  What comes back depends on the
/// database contents, so nothing is stated of it.
#[verifier::external_body]
fn query_row_int(conn: &rusqlite::Connection, sql: &str) -> (r: Result<i32, rusqlite::Error>) {
    conn.query_row(sql, [], |row| row.get::<usize, i32>(0))
}

/// The columns of a proposal row, in table order.
pub type ProposalRow = (i32, String, i64, String, Option<i32>, Option<i64>, Option<bool>);

/// Runs `sql` with `id` bound to `?1` and reads the first row as the seven
/// columns of a proposal.
///
/// Calls `rusqlite::Connection::query_row`.  What comes back depends on the
/// database contents, so nothing is stated of it.
#[verifier::external_body]
fn query_row_proposal(conn: &rusqlite::Connection, sql: &str, id: i32) -> (r: Result<
    ProposalRow,
    rusqlite::Error,
>) {
    conn.query_row(
        sql,
        [id],
        |row|
            Ok((row.get(0)?, row.get(1)?, row.get(2)?, row.get(3)?, row.get(4)?, row.get(5)?,
            row.get(6)?)),
    )
}

/// A value bound to a `?N` parameter of a statement.
#[derive(Debug)]
pub enum SqlParam {
    Integer(i64),
    Text(String),
}

pub enum SqlParamView {
    Integer(i64),
    Text(Seq<char>),
}

impl View for SqlParam {
    type V = SqlParamView;

    open spec fn view(&self) -> SqlParamView {
        match self {
            SqlParam::Integer(n) => SqlParamView::Integer(*n),
            SqlParam::Text(t) => SqlParamView::Text(t@),
        }
    }
}

/// Executes one SQL statement, binding `params` to `?1`, `?2`, ... in order.
///
/// Calls `rusqlite::Connection::execute` (each parameter is handed over as
/// the `rusqlite::types::Value` of the same kind).  Whether it succeeds
/// depends on the database, so nothing is stated of the result.
#[verifier::external_body]
fn execute(conn: &rusqlite::Connection, sql: &str, params: &Vec<SqlParam>) -> (r: Result<
    usize,
    rusqlite::Error,
>) {
    let values: Vec<rusqlite::types::Value> = params.iter().map(|p| match p {
        SqlParam::Integer(n) => rusqlite::types::Value::Integer(*n),
        SqlParam::Text(t) => rusqlite::types::Value::Text(t.clone()),
    }).collect();
    conn.execute(sql, rusqlite::params_from_iter(values))
}

/// Prepares a statement.
///
/// Calls `rusqlite::Connection::prepare`.  Whether it succeeds depends on the
/// database, so nothing is stated of the result.
#[verifier::external_body]
fn prepare<'conn>(conn: &'conn rusqlite::Connection, sql: &str) -> (r: Result<
    rusqlite::Statement<'conn>,
    rusqlite::Error,
>) {
    conn.prepare(sql)
}

/// The columns of a player row, in table order.
pub type PlayerRow = (i32, String, String, i32, String);

/// Runs a prepared statement with no parameters and reads every row as the
/// five columns of a player; each row's own decoding error is kept.
///
/// Calls `rusqlite::Statement::query_map` and collects the rows it yields.
/// What comes back depends on the database contents, so nothing is stated of
/// it.
#[verifier::external_body]
fn query_player_rows(stmt: &mut rusqlite::Statement) -> (r: Result<
    Vec<Result<PlayerRow, rusqlite::Error>>,
    rusqlite::Error,
>) {
    let rows = stmt.query_map(
        [],
        |row| Ok((row.get(0)?, row.get(1)?, row.get(2)?, row.get(3)?, row.get(4)?)),
    )?;
    Ok(rows.collect())
}

/// The text that rusqlite gives for an error (its `Display` rendering).
///
/// Calls `ToString::to_string` on a `rusqlite::Error`; nothing is stated of
/// the text.
#[verifier::external_body]
fn error_text(e: &rusqlite::Error) -> (r: String) {
    e.to_string()
}

// ---------------------------------------------------------------------------
// Errors
// ---------------------------------------------------------------------------

/// A failed database operation, with SQLite's description of the failure.
#[derive(Debug)]
pub struct DbError {
    pub description: String,
}

fn db_error(e: &rusqlite::Error) -> (r: DbError) {
    DbError { description: error_text(e) }
}

// ---------------------------------------------------------------------------
// Queries
// ---------------------------------------------------------------------------

/// Executes, in order, the statements that set up the game's tables
/// (one statement per line of the set-up files), stopping at the first one
/// that fails.
pub fn init_db(conn: &rusqlite::Connection, statements: &Vec<String>) -> (r: Result<(), DbError>)
    ensures
        statements@.len() == 0 ==> r is Ok,
{
    let mut i: usize = 0;
    while i < statements.len()
        invariant
            i <= statements.len(),
        decreases statements.len() - i,
    {
        match execute(conn, statements[i].as_str(), &Vec::new()) {
            Ok(_) => {},
            Err(e) => {
                return Err(db_error(&e));
            },
        }
        i = i + 1;
    }
    Ok(())
}

pub open spec fn player_table_query_spec() -> Seq<char> {
    "SELECT * FROM player"@
}

/// The SQL that `player_table` runs.
pub fn player_table_query() -> (r: String)
    ensures
        r@ == player_table_query_spec(),
{
    String::from_str("SELECT * FROM player")
}

/// A player record holds exactly the columns of its row.
pub open spec fn player_matches_row(p: Player, row: PlayerRow) -> bool {
    &&& p.id == row.0
    &&& p.slack_id@ == row.1@
    &&& p.username@ == row.2@
    &&& p.points == row.3
    &&& p.timezone@ == row.4@
}

/// Turns the rows read from the `player` table into players, in order; the
/// first row that could not be read makes the whole read fail.
pub fn players_from_rows(rows: &Vec<Result<PlayerRow, rusqlite::Error>>) -> (r: Result<
    Vec<Player>,
    DbError,
>)
    ensures
        (r is Ok) == (forall|k: int| 0 <= k < rows.len() ==> #[trigger] rows[k] is Ok),
        r matches Ok(ps) ==> ps.len() == rows.len() && forall|k: int|
            0 <= k < rows.len() ==> (#[trigger] rows[k] matches Ok(row) && player_matches_row(
                ps[k],
                row,
            )),
{
    let mut players: Vec<Player> = Vec::new();
    let mut i: usize = 0;
    while i < rows.len()
        invariant
            i <= rows.len(),
            players.len() == i,
            forall|k: int| 0 <= k < i ==> #[trigger] rows[k] is Ok,
            forall|k: int|
                0 <= k < i ==> (#[trigger] rows[k] matches Ok(row) && player_matches_row(
                    players[k],
                    row,
                )),
        decreases rows.len() - i,
    {
        match &rows[i] {
            Ok(row) => {
                players.push(
                    Player {
                        id: row.0,
                        slack_id: row.1.clone(),
                        username: row.2.clone(),
                        points: row.3,
                        timezone: row.4.clone(),
                    },
                );
            },
            Err(e) => {
                return Err(db_error(e));
            },
        }
        i = i + 1;
    }
    Ok(players)
}

/// Reads every player of the `player` table (the rows that
/// `print_player_table` prints), failing if any row cannot be read.  Each
/// player holds exactly the columns of one row of the table, in the order
/// SQLite yields them.
pub fn player_table(conn: &rusqlite::Connection) -> (r: Result<Vec<Player>, DbError>)
    ensures
        r matches Ok(ps) ==> exists|rows: Seq<PlayerRow>|
            rows.len() == ps.len() && forall|k: int|
                0 <= k < ps.len() ==> player_matches_row(#[trigger] ps[k], rows[k]),
{
    let q = player_table_query();
    let mut stmt = match prepare(conn, q.as_str()) {
        Ok(s) => s,
        Err(e) => {
            return Err(db_error(&e));
        },
    };
    let rows = match query_player_rows(&mut stmt) {
        Ok(rows) => rows,
        Err(e) => {
            return Err(db_error(&e));
        },
    };
    let r = players_from_rows(&rows);
    proof {
        if r is Ok {
            let ps = r->Ok_0;
            let w = Seq::new(rows.len() as nat, |k: int| rows[k]->Ok_0);
            assert forall|k: int| 0 <= k < ps.len() implies player_matches_row(
                #[trigger] ps[k],
                w[k],
            ) by {
                assert(rows[k] is Ok);
            }
            assert(w.len() == ps.len());
            assert(exists|rows: Seq<PlayerRow>|
                rows.len() == ps.len() && forall|k: int|
                    0 <= k < ps.len() ==> player_matches_row(#[trigger] ps[k], rows[k])) by {
                assert(w.len() == ps.len() && forall|k: int|
                    0 <= k < ps.len() ==> player_matches_row(#[trigger] ps[k], w[k]));
            }
        }
    }
    r
}

pub open spec fn id_exists_query_spec(table_name: Seq<char>, id: i32) -> Seq<char> {
    "SELECT id FROM "@ + table_name + " WHERE id='"@ + decimal_of(id as int) + "'"@
}

/// The SQL that `id_exists` runs.
pub fn id_exists_query(table_name: &str, id: i32) -> (r: String)
    ensures
        r@ == id_exists_query_spec(table_name@, id),
{
    let mut q = String::from_str("SELECT id FROM ");
    q.append(table_name);
    q.append(" WHERE id='");
    let d = decimal_string(id as i64);
    q.append(d.as_str());
    q.append("'");
    q
}

/// Whether the query for `id` in `table_name` yields a row whose first column
/// reads as text.
pub fn id_exists(conn: &rusqlite::Connection, table_name: &str, id: i32) -> bool {
    let q = id_exists_query(table_name, id);
    query_row_text(conn, q.as_str()).is_ok()
}

pub open spec fn last_proposal_query_spec() -> Seq<char> {
    "SELECT id FROM proposal ORDER BY id DESC LIMIT 1"@
}

/// The SQL that `last_proposal_id` runs.
pub fn last_proposal_query() -> (r: String)
    ensures
        r@ == last_proposal_query_spec(),
{
    String::from_str("SELECT id FROM proposal ORDER BY id DESC LIMIT 1")
}

/// The id of the most recent proposal, if the `proposal` table has any row.
pub fn last_proposal_id(conn: &rusqlite::Connection) -> Option<i32> {
    let q = last_proposal_query();
    match query_row_int(conn, q.as_str()) {
        Ok(n) => Some(n),
        Err(_) => None,
    }
}

pub open spec fn mutability_query_spec(prop_id: i32) -> Seq<char> {
    "SELECT mutable FROM rule WHERE id='"@ + decimal_of(prop_id as int) + "'"@
}

/// The SQL that `check_prop_mutability` runs.
pub fn mutability_query(prop_id: i32) -> (r: String)
    ensures
        r@ == mutability_query_spec(prop_id),
{
    let mut q = String::from_str("SELECT mutable FROM rule WHERE id='");
    let d = decimal_string(prop_id as i64);
    q.append(d.as_str());
    q.append("'");
    q
}

pub open spec fn not_a_rule_msg() -> Seq<char> {
    "That proposal doesn't seem to be a current rule, can't transmute that!"@
}

pub open spec fn bad_mutability_value_msg() -> Seq<char> {
    "The mutability value in the db is not 'mutable' or 'mmutable' wtf"@
}

/// What the mutability lookup makes of the stored text: the mutability it
/// names, or the error when there is no such rule or the text names none.
pub open spec fn stored_mutability(row: Option<Seq<char>>) -> Result<Mutability, Seq<char>> {
    match row {
        None => Err(not_a_rule_msg()),
        Some(text) => match Mutability::parsed(text) {
            Some(m) => Ok(m),
            None => Err(bad_mutability_value_msg()),
        },
    }
}

/// Every outcome that a mutability lookup can have.
pub open spec fn is_mutability_outcome(r: Result<Mutability, Seq<char>>) -> bool {
    r is Ok || r == Err::<Mutability, Seq<char>>(not_a_rule_msg()) || r == Err::<
        Mutability,
        Seq<char>,
    >(bad_mutability_value_msg())
}

/// Interprets the stored mutability text of a rule (`None` when the rule has
/// no row).
pub fn mutability_from_row(row: Option<&str>) -> (r: Result<Mutability, String>)
    ensures
        match (r, stored_mutability(
            match row {
                Some(t) => Some(t@),
                None => None,
            },
        )) {
            (Ok(a), Ok(b)) => a == b,
            (Err(a), Err(b)) => a@ == b,
            _ => false,
        },
{
    match row {
        None => Err(String::from_str(
            "That proposal doesn't seem to be a current rule, can't transmute that!",
        )),
        Some(text) => match Mutability::from_str(text) {
            Ok(m) => Ok(m),
            Err(_) => Err(String::from_str(
                "The mutability value in the db is not 'mutable' or 'mmutable' wtf",
            )),
        },
    }
}

/// Looks up whether rule `prop_id` is mutable.
pub fn check_prop_mutability(conn: &rusqlite::Connection, prop_id: i32) -> (r: Result<
    Mutability,
    String,
>)
    ensures
        is_mutability_outcome(
            match r {
                Ok(m) => Ok(m),
                Err(e) => Err(e@),
            },
        ),
{
    let q = mutability_query(prop_id);
    match query_row_text(conn, q.as_str()) {
        Ok(s) => mutability_from_row(Some(s.as_str())),
        Err(_) => mutability_from_row(None),
    }
}

pub open spec fn current_rule_query_spec(prop_id: i32) -> Seq<char> {
    "SELECT 1 FROM rule WHERE id='"@ + decimal_of(prop_id as int) + "'"@
}

/// The SQL that `is_current_rule` runs.
pub fn current_rule_query(prop_id: i32) -> (r: String)
    ensures
        r@ == current_rule_query_spec(prop_id),
{
    let mut q = String::from_str("SELECT 1 FROM rule WHERE id='");
    let d = decimal_string(prop_id as i64);
    q.append(d.as_str());
    q.append("'");
    q
}

/// Whether the rule query for `prop_id` yields a row whose first column reads
/// as text.
pub fn is_current_rule(conn: &rusqlite::Connection, prop_id: i32) -> bool {
    let q = current_rule_query(prop_id);
    query_row_text(conn, q.as_str()).is_ok()
}

pub open spec fn username_query_spec(user_id: Seq<char>) -> Seq<char> {
    "SELECT 1 FROM player WHERE slack_id='"@ + user_id + "'"@
}

/// The SQL that `get_username` runs.
pub fn username_query(user_id: &str) -> (r: String)
    ensures
        r@ == username_query_spec(user_id@),
{
    let mut q = String::from_str("SELECT 1 FROM player WHERE slack_id='");
    q.append(user_id);
    q.append("'");
    q
}

pub open spec fn no_such_user_msg(user_id: Seq<char>) -> Seq<char> {
    "No such user for id "@ + user_id
}

/// The user name of the player with Slack id `user_id`, or an error naming
/// the id.
pub fn get_username(conn: &rusqlite::Connection, user_id: &str) -> (r: Result<String, String>)
    ensures
        r is Err ==> r->Err_0@ == no_such_user_msg(user_id@),
{
    let q = username_query(user_id);
    match query_row_text(conn, q.as_str()) {
        Ok(name) => Ok(name),
        Err(_) => {
            let mut m = String::from_str("No such user for id ");
            m.append(user_id);
            Err(m)
        },
    }
}

/// The values that a proposal's row is inserted with: its id, creator,
/// time of proposal and text, in that order.
pub open spec fn proposal_params_spec(p: Proposal) -> Seq<SqlParamView> {
    seq![
        SqlParamView::Integer(p.id as i64),
        SqlParamView::Text(p.creator_id@),
        SqlParamView::Integer(p.timestamp_proposed),
        SqlParamView::Text(p.text@),
    ]
}

/// The parameters `?1`..`?4` of the insertion of a proposal.
pub fn proposal_params(p: &Proposal) -> (r: Vec<SqlParam>)
    ensures
        r@.map_values(|x: SqlParam| x@) == proposal_params_spec(*p),
{
    let r = vec![
        SqlParam::Integer(p.id as i64),
        SqlParam::Text(p.creator_id.clone()),
        SqlParam::Integer(p.timestamp_proposed),
        SqlParam::Text(p.text.clone()),
    ];
    assert(r@.map_values(|x: SqlParam| x@) =~= proposal_params_spec(*p));
    r
}

pub open spec fn insert_proposal_query_spec() -> Seq<char> {
    "INSERT INTO proposal\n                  (id, creator_id, timestamp_proposed, text) VALUES (?1, ?2, ?3, ?4)"@
}

/// The SQL that `register_proposal` runs, with `proposal_params` bound to `?1`..`?4`.
pub fn insert_proposal_query() -> (r: String)
    ensures
        r@ == insert_proposal_query_spec(),
{
    String::from_str("INSERT INTO proposal\n                  (id, creator_id, timestamp_proposed, text) VALUES (?1, ?2, ?3, ?4)")
}

/// The message that a registered proposal is reported with.
pub open spec fn registered_msg() -> Seq<char> {
    "Proposal registered:"@
}

/// Inserts a proposal's id, creator, time of proposal and text into the
/// `proposal` table.
pub fn register_proposal(conn: &rusqlite::Connection, proposal: &Proposal) -> (r: Result<
    String,
    DbError,
>)
    ensures
        r is Ok ==> r->Ok_0@ == registered_msg(),
{
    let params = proposal_params(proposal);
    let q = insert_proposal_query();
    match execute(conn, q.as_str(), &params) {
        Ok(_) => Ok(String::from_str("Proposal registered:")),
        Err(e) => Err(db_error(&e)),
    }
}

/// The proposal that a row's seven columns describe: id, creator, time of
/// proposal, text, target, time of closing (whole seconds) and verdict.
pub open spec fn proposal_of_row(row: ProposalRow) -> Proposal {
    Proposal {
        id: row.0,
        creator_id: row.1,
        timestamp_proposed: row.2,
        text: row.3,
        target_id: row.4,
        timestamp_closed: match row.5 {
            Some(s) => Some(Timespec { sec: s, nsec: 0 }),
            None => None,
        },
        pass_fail: row.6,
    }
}

/// Builds a proposal from the seven columns of its row.
pub fn proposal_from_row(row: ProposalRow) -> (r: Proposal)
    ensures
        r == proposal_of_row(row),
{
    let closed = match row.5 {
        Some(s) => Some(Timespec { sec: s, nsec: 0 }),
        None => None,
    };
    Proposal {
        id: row.0,
        creator_id: row.1,
        timestamp_proposed: row.2,
        text: row.3,
        target_id: row.4,
        timestamp_closed: closed,
        pass_fail: row.6,
    }
}

pub open spec fn latest_rule_proposal_query_spec() -> Seq<char> {
    "SELECT proposal_id FROM rule ORDER BY id DESC LIMIT 1"@
}

/// The SQL that finds the proposal of the most recent rule.
pub fn latest_rule_proposal_query() -> (r: String)
    ensures
        r@ == latest_rule_proposal_query_spec(),
{
    String::from_str("SELECT proposal_id FROM rule ORDER BY id DESC LIMIT 1")
}

pub open spec fn proposal_row_query_spec() -> Seq<char> {
    "SELECT row FROM proposal ORDER WHERE id=?1"@
}

/// The SQL that reads a proposal by its id, bound to `?1`.
pub fn proposal_row_query() -> (r: String)
    ensures
        r@ == proposal_row_query_spec(),
{
    String::from_str("SELECT row FROM proposal ORDER WHERE id=?1")
}

/// The proposal attached to the most recent rule, if both lookups succeed:
/// the proposal that the row read by `proposal_row_query` describes.
pub fn get_current_proposal(conn: &rusqlite::Connection) -> (r: Option<Proposal>)
    ensures
        r matches Some(p) ==> exists|row: ProposalRow| p == proposal_of_row(row),
{
    let q = latest_rule_proposal_query();
    let prop_id = match query_row_int(conn, q.as_str()) {
        Ok(n) => n,
        Err(_) => {
            return None;
        },
    };
    let q2 = proposal_row_query();
    match query_row_proposal(conn, q2.as_str(), prop_id) {
        Ok(row) => Some(proposal_from_row(row)),
        Err(_) => None,
    }
}

pub open spec fn turn_query_spec() -> Seq<char> {
    "SELECT user_id FROM turn ORDER BY id DESC LIMIT 1"@
}

/// The SQL that `current_rulemaker` runs.
pub fn turn_query() -> (r: String)
    ensures
        r@ == turn_query_spec(),
{
    String::from_str("SELECT user_id FROM turn ORDER BY id DESC LIMIT 1")
}

/// The Slack id of the player whose turn it is (the latest row of `turn`).
pub fn current_rulemaker(conn: &rusqlite::Connection) -> Option<String> {
    let q = turn_query();
    match query_row_text(conn, q.as_str()) {
        Ok(id) => Some(id),
        Err(_) => None,
    }
}

} // verus!
