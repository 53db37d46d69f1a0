use autonomic::db::init_db;
use autonomic::request::{
    get_field, respond_to_command, route, route_request, slack_web_call_url, Route,
};
use autonomic::slack::{
    handle_interaction, handle_proposal_interaction, handle_proposal_slash, handle_vote_interaction,
    handle_vote_slash, interaction_kind, message_seconds, proposal_reply_for,
    proposal_reply_without_text, rejection, submit_prompt, vote_on_current,
    turns_slash_response, vote_prompt, vote_reply, InteractionKind, Message, Reply,
};

fn db() -> rusqlite::Connection {
    let conn = rusqlite::Connection::open_in_memory().unwrap();
    let schema = vec![
        "CREATE TABLE player (id INTEGER, slack_id TEXT, username TEXT, points INTEGER, timezone TEXT)".to_string(),
        "CREATE TABLE proposal (id INTEGER, creator_id TEXT, timestamp_proposed INTEGER, text TEXT, target_id INTEGER, timestamp_closed INTEGER, pass_fail INTEGER)".to_string(),
        "CREATE TABLE rule (id INTEGER, proposal_id INTEGER, mutable TEXT, amendment_id INTEGER)".to_string(),
        "CREATE TABLE turn (id INTEGER, user_id TEXT)".to_string(),
    ];
    init_db(&conn, &schema).unwrap();
    conn
}

fn pairs(v: &[(&str, &str)]) -> Vec<(String, String)> {
    v.iter().map(|(a, b)| (a.to_string(), b.to_string())).collect()
}

fn button_names(m: &Message) -> Vec<(String, String, String, String)> {
    m.attachments.as_ref().unwrap()[0]
        .actions
        .as_ref()
        .unwrap()
        .iter()
        .map(|b| (b.name.clone(), b.text.clone(), b.kind.clone(), b.value.clone()))
        .collect()
}

#[test]
fn turns_response() {
    let m = turns_slash_response();
    assert_eq!(m.text, "It's someone's turn I guess?");
    assert!(m.color.is_none());
    assert!(m.attachments.is_none());
}

#[test]
fn vote_prompt_layout() {
    let m = vote_prompt(300, "rowan", "Nomicball");
    assert_eq!(m.text, "Vote on prop 300 by rowan");
    let a = &m.attachments.as_ref().unwrap()[0];
    assert_eq!(a.text, "Nomicball");
    assert_eq!(a.fallback.as_deref(), Some("You can't vote from this device, soz"));
    assert_eq!(a.callback_id.as_deref(), Some("vote"));
    assert_eq!(a.attachment_type.as_deref(), Some("default"));
    assert_eq!(
        button_names(&m),
        vec![
            ("yes".to_string(), "Yes".to_string(), "button".to_string(), "yes".to_string()),
            ("no".to_string(), "No".to_string(), "button".to_string(), "no".to_string()),
        ]
    );
}

#[test]
fn submit_and_rejection_layout() {
    let m = submit_prompt("Cool rule", "Rule 300, enact");
    assert_eq!(m.text, "Cool rule");
    assert_eq!(m.attachments.as_ref().unwrap()[0].text, "Rule 300, enact");
    assert_eq!(
        button_names(&m),
        vec![
            ("submit".to_string(), "Submit".to_string(), "button".to_string(), "yes".to_string()),
            ("don't submit".to_string(), "Don't Submit".to_string(), "button".to_string(), "no".to_string()),
        ]
    );
    let r = rejection("Error: nope", "Rule 1");
    assert_eq!(r.text, "Error: nope");
    assert_eq!(r.color.as_deref(), Some("#FF3333"));
    let a = &r.attachments.as_ref().unwrap()[0];
    assert_eq!(a.text, "Rule 1");
    assert!(a.fallback.is_none() && a.callback_id.is_none() && a.actions.is_none());
}

#[test]
fn vote_slash_without_proposal() {
    let conn = db();
    assert_eq!(
        handle_vote_slash(&conn, "U1").unwrap_err(),
        "Error: There is no current active proposal"
    );
}

#[test]
fn proposal_slash_by_current_rulemaker_is_refused() {
    let conn = db();
    conn.execute("INSERT INTO turn VALUES (1, 'U1')", []).unwrap();
    match handle_proposal_slash(&conn, "U1", "Rule 300, enact: x") {
        Reply::Text(t) => assert_eq!(t, "Error: it's not your turn to propose a rule"),
        _ => panic!("expected a text reply"),
    }
}

#[test]
fn proposal_slash_reports_interpreter_answer() {
    let conn = db();
    conn.execute("INSERT INTO turn VALUES (1, 'U1')", []).unwrap();
    match handle_proposal_slash(&conn, "U2", "Rule 300, enact: x") {
        Reply::Message(m) => {
            assert_eq!(m.text, "Cool rule, double check it and then submit!");
            assert!(m.color.is_none());
            assert_eq!(m.attachments.as_ref().unwrap()[0].text, "Rule 300, enact: x");
        },
        _ => panic!("expected a message"),
    }
    match handle_proposal_slash(&conn, "U2", "hello") {
        Reply::Message(m) => {
            assert_eq!(m.text, "Error: Please add some words to your proposal!");
            assert_eq!(m.color.as_deref(), Some("#FF3333"));
        },
        _ => panic!("expected a message"),
    }
}

#[test]
fn proposal_slash_with_empty_turn_table() {
    let conn = db();
    match handle_proposal_slash(&conn, "U2", "Rule 301, enact") {
        Reply::Message(m) => assert!(m.text.starts_with("Error: that rule id number")),
        _ => panic!("expected a message"),
    }
}

#[test]
fn interactions() {
    assert_eq!(interaction_kind("\"vote\""), InteractionKind::Vote);
    assert_eq!(interaction_kind("\"proposal\""), InteractionKind::Proposal);
    assert_eq!(interaction_kind("null"), InteractionKind::Unknown);
    assert_eq!(handle_proposal_interaction(), "This is just so it compiles :)");
    assert_eq!(handle_interaction("\"proposal\"", "x"), "This is just so it compiles :)");
    assert_eq!(
        handle_interaction("\"other\"", "x"),
        "I don't know how to handle this interaction yet, soz!"
    );
    assert_eq!(handle_interaction("\"vote\"", "\"1.5\""), "Oh no, to late!");
    assert_eq!(handle_vote_interaction("\"4000000000000000000.1\""), "Great vote!");
}

#[test]
fn message_time_and_vote_window() {
    assert_eq!(message_seconds("\"1503435956.000247\""), Some(1503435956));
    assert_eq!(message_seconds("null"), None);
    assert_eq!(vote_reply(100, 109), "Great vote!");
    assert_eq!(vote_reply(100, 110), "Oh no, to late!");
    assert_eq!(vote_reply(i64::MIN, i64::MAX), "Oh no, to late!");
}

#[test]
fn form_fields_and_routes() {
    let f = pairs(&[("command", "/vote"), ("user_id", "U1"), ("user_id", "U2")]);
    assert_eq!(get_field(&f, "user_id"), Some("U2".to_string()));
    assert_eq!(get_field(&f, "text"), None);
    assert_eq!(route(&f), Route::Vote(Some("U2".to_string())));
    assert_eq!(route(&pairs(&[("command", "/turns")])), Route::Turns);
    assert_eq!(route(&pairs(&[("command", "/nope")])), Route::UnknownCommand);
    assert_eq!(route(&pairs(&[("token", "x")])), Route::Unrecognised);
    assert_eq!(
        route(&pairs(&[("command", "/vote"), ("payload", "{}")])),
        Route::Interaction("{}".to_string())
    );
}

#[test]
fn route_request_decodes_form_bodies() {
    assert_eq!(
        route_request("command=%2Fproposal&user_id=U1&text=Rule+300%2C+enact"),
        Route::Proposal(Some("U1".to_string()), Some("Rule 300, enact".to_string()))
    );
    assert_eq!(route_request(""), Route::Unrecognised);
}

#[test]
fn respond_to_commands() {
    let conn = db();
    match respond_to_command(&conn, &Route::Turns) {
        Some(Reply::Message(m)) => assert_eq!(m.text, "It's someone's turn I guess?"),
        _ => panic!("expected a message"),
    }
    match respond_to_command(&conn, &Route::UnknownCommand) {
        Some(Reply::Text(t)) => assert_eq!(t, "I haven't implemented this command yet, soz!"),
        _ => panic!("expected text"),
    }
    assert!(respond_to_command(&conn, &Route::Unrecognised).is_none());
    assert!(respond_to_command(&conn, &Route::Vote(Some("U1".to_string()))).is_none());
}

#[test]
fn proposal_without_text_answers_only_the_rule_maker() {
    let conn = db();
    init_db(&conn, &vec!["INSERT INTO turn VALUES (1, 'U1')".to_string()]).unwrap();
    match respond_to_command(&conn, &Route::Proposal(Some("U1".to_string()), None)) {
        Some(Reply::Text(t)) => assert_eq!(t, "Error: it's not your turn to propose a rule"),
        _ => panic!("expected the not-your-turn text"),
    }
    assert!(respond_to_command(&conn, &Route::Proposal(Some("U2".to_string()), None)).is_none());
    let empty = db();
    assert!(respond_to_command(&empty, &Route::Proposal(Some("U1".to_string()), None)).is_none());
}

#[test]
fn web_call_url() {
    let f = pairs(&[("token", "abc"), ("limit", "5")]);
    assert_eq!(
        slack_web_call_url("users.list", &f),
        "https://slack.com/api/users.list?token=abc&limit=5&"
    );
    assert_eq!(slack_web_call_url("auth.test", &vec![]), "https://slack.com/api/auth.test?");
}

#[test]
fn vote_with_no_current_proposal_is_refused() {
    let conn = db();
    assert_eq!(
        vote_on_current(&conn, &None).unwrap_err(),
        "Error: There is no current active proposal"
    );
    assert_eq!(handle_vote_slash(&conn, "U1").unwrap_err(), "Error: There is no current active proposal");
}

#[test]
fn proposal_reply_depends_on_the_rule_maker() {
    let conn = db();
    let rm = Some("U1".to_string());
    match proposal_reply_for(&conn, &rm, "U1", "Rule 301, enact: be nice") {
        Reply::Text(t) => assert_eq!(t, "Error: it's not your turn to propose a rule"),
        _ => panic!("expected the not-your-turn text"),
    }
    match proposal_reply_for(&conn, &rm, "U2", "Rule 301, enact: be nice") {
        Reply::Message(m) => {
            assert_eq!(m.attachments.as_ref().unwrap()[0].text, "Rule 301, enact: be nice")
        },
        _ => panic!("expected the interpreter's verdict"),
    }
    match proposal_reply_without_text(&rm, "U1") {
        Some(Reply::Text(t)) => assert_eq!(t, "Error: it's not your turn to propose a rule"),
        _ => panic!("expected the not-your-turn text"),
    }
    assert!(proposal_reply_without_text(&rm, "U2").is_none());
    assert!(proposal_reply_without_text(&None, "U1").is_none());
}
