use autonomic::db::{
    current_rule_query, init_db, insert_proposal_query, last_proposal_query,
    latest_rule_proposal_query, mutability_query, player_table_query, players_from_rows,
    proposal_params, proposal_row_query, turn_query, username_query, SqlParam,
};
use autonomic::interpreter::tokenize_lexeme;
use autonomic::json::{oauth_token, web_reply_status};
use autonomic::proposal::new_proposal;
use autonomic::slack::{
    answer_interaction, answer_interaction_fields, proposal_verdict, turn_allows, vote_on,
};
use autonomic::text::remove_punctuation;

#[test]
fn players_from_rows_keeps_every_column_in_order() {
    let rows: Vec<Result<(i32, String, String, i32, String), rusqlite::Error>> = vec![
        Ok((1, "U1".to_string(), "rowan".to_string(), 3, "NZ".to_string())),
        Ok((2, "U2".to_string(), "kim".to_string(), -1, "UTC".to_string())),
    ];
    let players = players_from_rows(&rows).unwrap();
    assert_eq!(players.len(), 2);
    assert_eq!((players[0].id, players[0].slack_id.as_str(), players[0].username.as_str(), players[0].points, players[0].timezone.as_str()), (1, "U1", "rowan", 3, "NZ"));
    assert_eq!((players[1].id, players[1].slack_id.as_str(), players[1].username.as_str(), players[1].points, players[1].timezone.as_str()), (2, "U2", "kim", -1, "UTC"));
}

#[test]
fn players_from_rows_fails_on_a_bad_row() {
    let rows: Vec<Result<(i32, String, String, i32, String), rusqlite::Error>> = vec![
        Ok((1, "U1".to_string(), "rowan".to_string(), 3, "NZ".to_string())),
        Err(rusqlite::Error::QueryReturnedNoRows),
    ];
    assert!(players_from_rows(&rows).is_err());
    assert!(players_from_rows(&vec![]).unwrap().is_empty());
}

#[test]
fn proposal_params_are_id_creator_time_text() {
    let p = new_proposal(300, "U1", 1234, "Nomicball");
    let params = proposal_params(&p);
    assert_eq!(params.len(), 4);
    assert!(matches!(params[0], SqlParam::Integer(300)));
    assert!(matches!(&params[1], SqlParam::Text(t) if t == "U1"));
    assert!(matches!(params[2], SqlParam::Integer(1234)));
    assert!(matches!(&params[3], SqlParam::Text(t) if t == "Nomicball"));
}

#[test]
fn turn_allows_everyone_but_the_rule_maker() {
    assert!(!turn_allows(&Some("U1".to_string()), "U1"));
    assert!(turn_allows(&Some("U1".to_string()), "U2"));
    assert!(turn_allows(&None, "U1"));
}

#[test]
fn proposal_verdict_messages() {
    let ok = proposal_verdict(&Ok("Cool".to_string()), "Rule 300");
    assert_eq!(ok.text, "Cool");
    assert!(ok.color.is_none());
    let err = proposal_verdict(&Err("Bad".to_string()), "Rule 300");
    assert_eq!(err.text, "Bad");
    assert_eq!(err.color.as_deref(), Some("#FF3333"));
}

#[test]
fn vote_on_unknown_creator_fails() {
    let conn = rusqlite::Connection::open_in_memory().unwrap();
    init_db(&conn, &vec!["CREATE TABLE player (id INTEGER, slack_id TEXT, username TEXT, points INTEGER, timezone TEXT)".to_string()]).unwrap();
    let p = new_proposal(300, "U7", 0, "x");
    assert_eq!(vote_on(&conn, &p).unwrap_err(), "No such user for id U7");
}

#[test]
fn oauth_token_reads_the_credentials() {
    assert_eq!(
        oauth_token("{\"oauth_token\": \"xoxp-123\", \"client_id\": \"9\"}"),
        Some("xoxp-123".to_string())
    );
    assert_eq!(oauth_token("{}"), Some("null".to_string()));
    assert_eq!(oauth_token("not json"), None);
}

#[test]
fn web_reply_status_reads_ok() {
    assert_eq!(web_reply_status("{\"ok\":true,\"members\":[]}"), Some("true".to_string()));
    assert_eq!(web_reply_status("<html>"), None);
}

#[test]
fn interactions_from_payloads() {
    assert_eq!(
        answer_interaction("{\"callback_id\":\"proposal\",\"message_ts\":\"1.2\"}"),
        Some("This is just so it compiles :)".to_string())
    );
    assert_eq!(
        answer_interaction("{\"callback_id\":\"vote\",\"message_ts\":\"1503435956.000247\"}"),
        Some("Oh no, to late!".to_string())
    );
    assert_eq!(
        answer_interaction("{\"message_ts\":\"1.2\"}"),
        Some("I don't know how to handle this interaction yet, soz!".to_string())
    );
    assert_eq!(answer_interaction("{\"callback_id\":\"vote\"}"), None);
    assert_eq!(answer_interaction("nope"), None);
    assert_eq!(answer_interaction_fields(None, Some("1".to_string())), None);
}

#[test]
fn tokens_ignore_case_and_punctuation() {
    for w in ["Enactment:", "amend!", "301,", "(Immutable)", "Rule", "transmute?"] {
        assert_eq!(tokenize_lexeme(w), tokenize_lexeme(&remove_punctuation(w)));
        assert_eq!(tokenize_lexeme(w), tokenize_lexeme(&w.to_ascii_uppercase()));
    }
}

#[test]
fn queries_the_bot_runs() {
    assert_eq!(player_table_query(), "SELECT * FROM player");
    assert_eq!(last_proposal_query(), "SELECT id FROM proposal ORDER BY id DESC LIMIT 1");
    assert_eq!(mutability_query(-7), "SELECT mutable FROM rule WHERE id='-7'");
    assert_eq!(current_rule_query(12), "SELECT 1 FROM rule WHERE id='12'");
    assert_eq!(username_query("U9"), "SELECT 1 FROM player WHERE slack_id='U9'");
    assert_eq!(
        insert_proposal_query(),
        "INSERT INTO proposal\n                  (id, creator_id, timestamp_proposed, text) VALUES (?1, ?2, ?3, ?4)"
    );
    assert_eq!(latest_rule_proposal_query(), "SELECT proposal_id FROM rule ORDER BY id DESC LIMIT 1");
    assert_eq!(proposal_row_query(), "SELECT row FROM proposal ORDER WHERE id=?1");
    assert_eq!(turn_query(), "SELECT user_id FROM turn ORDER BY id DESC LIMIT 1");
}
