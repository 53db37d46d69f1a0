use autonomic::db::{
    check_prop_mutability, current_rulemaker, get_current_proposal, get_username, id_exists,
    id_exists_query, init_db, is_current_rule, last_proposal_id, mutability_from_row,
    player_table, register_proposal,
};
use autonomic::interpreter::{
    check_direction, check_next_id, check_target, interesting_token, interpret, keyword_tokens,
    parse, tokenize_lexeme, Mutability, ParsedCommand, Token,
};
use autonomic::proposal::{amend, enact, new_proposal, repeal, transmute};

const PROP_TYPES: &str = ":small_blue_diamond: Enactment\n:small_blue_diamond: Amendment\n:small_blue_diamond: Transmutation\n:small_blue_diamond: Repeal";
const NO_TARGET: &str = "Error: no target id found.\nIf you're going to change another rule, you need to specify which one!\nPlease put the id of the target rule right after the proposal type, like this:\n'Rule 999, amendment to rule 998: Give me all the treasure rather than sharing it equally' or something :)";

fn schema() -> Vec<String> {
    vec![
        "CREATE TABLE player (id INTEGER, slack_id TEXT, username TEXT, points INTEGER, timezone TEXT)".to_string(),
        "CREATE TABLE proposal (id INTEGER, creator_id TEXT, timestamp_proposed INTEGER, text TEXT, target_id INTEGER, timestamp_closed INTEGER, pass_fail INTEGER)".to_string(),
        "CREATE TABLE vote (id INTEGER, proposal_id INTEGER, user_id INTEGER, timestamp INTEGER, yes_no INTEGER)".to_string(),
        "CREATE TABLE rule (id INTEGER, proposal_id INTEGER, mutable TEXT, amendment_id INTEGER)".to_string(),
        "CREATE TABLE turn (id INTEGER, user_id TEXT)".to_string(),
    ]
}

fn empty_db() -> rusqlite::Connection {
    let conn = rusqlite::Connection::open_in_memory().unwrap();
    init_db(&conn, &schema()).unwrap();
    conn
}

#[test]
fn mutability_from_str_ignores_case() {
    assert_eq!(Mutability::from_str("mutable"), Ok(Mutability::Mutable));
    assert_eq!(Mutability::from_str("IMMUTABLE"), Ok(Mutability::Immutable));
    assert_eq!(Mutability::from_str("MuTaBlE"), Ok(Mutability::Mutable));
}

#[test]
fn mutability_from_str_error_quotes_input() {
    assert_eq!(
        Mutability::from_str("Wobbly"),
        Err("Error: Wobbly isn't one of the two valid mutability types: Mutable and Immutable".to_string())
    );
}

#[test]
fn mutability_not_and_display() {
    assert_eq!(Mutability::Mutable.not(), Mutability::Immutable);
    assert_eq!(Mutability::Immutable.not(), Mutability::Mutable);
    assert_eq!(Mutability::Mutable.not().not(), Mutability::Mutable);
    assert_eq!(Mutability::Mutable.to_string(), "Mutable");
    assert_eq!(Mutability::Immutable.to_string(), "Immutable");
    for m in [Mutability::Mutable, Mutability::Immutable] {
        assert_eq!(Mutability::from_str(&m.to_string()), Ok(m));
    }
}

#[test]
fn tokenize_keywords() {
    for w in ["Enactment", "enact,", "ENACTIFY", "enacterate:"] {
        assert_eq!(tokenize_lexeme(w), Token::Enact);
    }
    for w in ["amendment", "Amend", "amendify!"] {
        assert_eq!(tokenize_lexeme(w), Token::Amend);
    }
    for w in ["repeal", "Repealify."] {
        assert_eq!(tokenize_lexeme(w), Token::Repeal);
    }
    for w in ["transmutation", "transmute", "Transmutate", "transmuterate"] {
        assert_eq!(tokenize_lexeme(w), Token::Transmute);
    }
}

#[test]
fn tokenize_numbers_mutabilities_and_text() {
    assert_eq!(tokenize_lexeme("301,"), Token::Id(301));
    assert_eq!(tokenize_lexeme("(-5)"), Token::Id(-5));
    assert_eq!(tokenize_lexeme("+7"), Token::Id(7));
    assert_eq!(tokenize_lexeme("99999999999"), Token::Text);
    assert_eq!(tokenize_lexeme("Mutable!"), Token::Muta(Mutability::Mutable));
    assert_eq!(tokenize_lexeme("immutable."), Token::Muta(Mutability::Immutable));
    assert_eq!(tokenize_lexeme("Rule"), Token::Text);
    assert_eq!(tokenize_lexeme("enacting"), Token::Text);
}

#[test]
fn interesting_tokens() {
    assert!(!interesting_token(&Token::Text));
    assert!(interesting_token(&Token::Enact));
    assert!(interesting_token(&Token::Id(3)));
    assert!(interesting_token(&Token::Muta(Mutability::Mutable)));
}

#[test]
fn keyword_tokens_keep_order_and_drop_text() {
    assert_eq!(
        keyword_tokens("Rule 301, amendment to rule 205: players may dance"),
        vec![Token::Id(301), Token::Amend, Token::Id(205)]
    );
    assert_eq!(keyword_tokens("   "), Vec::<Token>::new());
}

#[test]
fn parse_each_form() {
    let c = "U1";
    assert_eq!(parse(vec![], c), ParsedCommand::NoKeyWords);
    assert_eq!(parse(vec![Token::Enact], c), ParsedCommand::NotIdFirst);
    assert_eq!(parse(vec![Token::Id(3)], c), ParsedCommand::IdOnly);
    assert_eq!(parse(vec![Token::Id(3), Token::Id(4)], c), ParsedCommand::IdNoType);
    assert_eq!(
        parse(vec![Token::Id(3), Token::Enact], c),
        ParsedCommand::Enactment(3, "U1".to_string())
    );
    assert_eq!(parse(vec![Token::Id(3), Token::Amend], c), ParsedCommand::NoTarget);
    assert_eq!(
        parse(vec![Token::Id(3), Token::Repeal, Token::Enact], c),
        ParsedCommand::NoTargetAfterType
    );
    assert_eq!(
        parse(vec![Token::Id(3), Token::Amend, Token::Id(2)], c),
        ParsedCommand::Amendment(3, "U1".to_string(), 2)
    );
    assert_eq!(
        parse(vec![Token::Id(3), Token::Repeal, Token::Id(2)], c),
        ParsedCommand::Repealment(3, "U1".to_string(), 2)
    );
    assert_eq!(
        parse(vec![Token::Id(3), Token::Transmute, Token::Id(2)], c),
        ParsedCommand::NoTransmuteDir
    );
    assert_eq!(
        parse(vec![Token::Id(3), Token::Transmute, Token::Id(2), Token::Id(1)], c),
        ParsedCommand::NoTransmuteDirAfterTarget
    );
    assert_eq!(
        parse(vec![Token::Id(3), Token::Transmute, Token::Id(2), Token::Muta(Mutability::Mutable)], c),
        ParsedCommand::Transmutation(3, "U1".to_string(), 2, Mutability::Mutable)
    );
}

#[test]
fn parse_ignores_trailing_keywords() {
    assert_eq!(
        parse(vec![Token::Id(3), Token::Enact, Token::Repeal, Token::Id(9)], "x"),
        ParsedCommand::Enactment(3, "x".to_string())
    );
}

#[test]
fn check_next_id_messages() {
    assert_eq!(check_next_id(300, None), Ok(()));
    assert_eq!(check_next_id(302, Some(301)), Ok(()));
    assert_eq!(
        check_next_id(5, None),
        Err("Error: that rule id number isn't the next one in the sequence, try again!\nThe next rule number should be 300".to_string())
    );
    assert_eq!(
        check_next_id(5, Some(i32::MAX)),
        Err("Error: that rule id number isn't the next one in the sequence, try again!\nThe next rule number should be 2147483648".to_string())
    );
}

#[test]
fn check_target_and_direction() {
    assert_eq!(check_target(7, true), Ok(()));
    assert_eq!(check_target(7, false), Err("Error: The target id 7 is not a current rule!".to_string()));
    assert_eq!(check_direction(7, Mutability::Immutable, Ok(Mutability::Mutable)), Ok(()));
    assert_eq!(
        check_direction(7, Mutability::Mutable, Ok(Mutability::Mutable)),
        Err("Error: rule 7 can't be transmuted to Mutable".to_string())
    );
    assert_eq!(
        check_direction(7, Mutability::Mutable, Err("no rule".to_string())),
        Err("no rule".to_string())
    );
}

#[test]
fn interpret_syntax_errors() {
    let conn = empty_db();
    assert_eq!(interpret(&conn, "", "U1"), Err("Error: Please add some words to your proposal!".to_string()));
    assert_eq!(
        interpret(&conn, "Enactment 300", "U1"),
        Err("Error: Please start your proposal by declaring its identification number, cheers!".to_string())
    );
    assert_eq!(
        interpret(&conn, "Rule 300", "U1"),
        Err(format!("Error: Please include the proposal type :)\nValid types are:\n{}", PROP_TYPES))
    );
    assert_eq!(
        interpret(&conn, "Rule 300 299", "U1"),
        Err(format!("Error: no proposal type found.\nPlease begin your proposal with it's type. For example:\n'Rule 999, Enactment: Nomicball! Nomic is now also a ball game.'\nValid types are:\n{}", PROP_TYPES))
    );
    assert_eq!(interpret(&conn, "Rule 300, amendment", "U1"), Err(NO_TARGET.to_string()));
    assert_eq!(interpret(&conn, "Rule 300, repeal enact", "U1"), Err(NO_TARGET.to_string()));
}

#[test]
fn interpret_enactment_checks_next_id() {
    let conn = empty_db();
    assert_eq!(
        interpret(&conn, "Rule 300, Enactment: Nomicball!", "U1"),
        Ok("Cool rule, double check it and then submit!".to_string())
    );
    assert_eq!(
        interpret(&conn, "Rule 301, Enactment: Nomicball!", "U1"),
        Err("Error: that rule id number isn't the next one in the sequence, try again!\nThe next rule number should be 300".to_string())
    );
    conn.execute("INSERT INTO proposal (id, creator_id, timestamp_proposed, text) VALUES (305, 'U2', 0, 'x')", []).unwrap();
    assert_eq!(
        interpret(&conn, "Rule 306, Enactment: more", "U1"),
        Ok("Cool rule, double check it and then submit!".to_string())
    );
}

#[test]
fn interpret_changes_need_a_current_target() {
    let conn = empty_db();
    assert_eq!(
        interpret(&conn, "Rule 300, amendment to rule 205: x", "U1"),
        Err("Error: The target id 205 is not a current rule!".to_string())
    );
    assert_eq!(
        interpret(&conn, "Rule 300, transmute rule 205 to immutable", "U1"),
        Err("Error: The target id 205 is not a current rule!".to_string())
    );
    assert_eq!(
        interpret(&conn, "Rule 299, repeal rule 205", "U1"),
        Err("Error: that rule id number isn't the next one in the sequence, try again!\nThe next rule number should be 300".to_string())
    );
}

#[test]
fn interpret_transmutation_direction_errors() {
    let conn = empty_db();
    assert_eq!(
        interpret(&conn, "Rule 300, transmute 205", "U1"),
        Err("Error: Please provide a direction of transmutation. I know it can only go one way, but Autonomic would like to encourage clarity for human's sake :)".to_string())
    );
    assert_eq!(
        interpret(&conn, "Rule 300, transmute 205 206", "U1"),
        Err("Error: Please specify the direction of transmutation :)".to_string())
    );
}

#[test]
fn proposal_changes_are_not_implemented() {
    let conn = empty_db();
    assert_eq!(amend(&conn, "p", 1, "U", 2), Err("Do an amendment!".to_string()));
    assert_eq!(repeal(&conn, "p", 1, "U", 2), Err("Repeal it then re-squeal it!?".to_string()));
    assert_eq!(
        transmute(&conn, "p", 1, "U", 2, Mutability::Mutable),
        Err("transmuting yeah!".to_string())
    );
}

#[test]
fn register_and_enact_proposals() {
    let conn = empty_db();
    assert_eq!(last_proposal_id(&conn), None);
    let p = new_proposal(300, "U1", 1000, "Nomicball");
    assert_eq!(register_proposal(&conn, &p).unwrap(), "Proposal registered:");
    assert_eq!(last_proposal_id(&conn), Some(300));
    assert_eq!(enact(&conn, "More rules", 301, "U2"), Ok("Proposal registered:".to_string()));
    assert_eq!(last_proposal_id(&conn), Some(301));
    let missing = rusqlite::Connection::open_in_memory().unwrap();
    assert_eq!(enact(&missing, "x", 1, "U"), Err("Error enacting the proposal, sorry!".to_string()));
}

#[test]
fn mutability_lookup() {
    let conn = empty_db();
    assert_eq!(
        check_prop_mutability(&conn, 5),
        Err("That proposal doesn't seem to be a current rule, can't transmute that!".to_string())
    );
    conn.execute("INSERT INTO rule (id, proposal_id, mutable) VALUES (5, 300, 'Mutable')", []).unwrap();
    conn.execute("INSERT INTO rule (id, proposal_id, mutable) VALUES (6, 301, 'bogus')", []).unwrap();
    assert_eq!(check_prop_mutability(&conn, 5), Ok(Mutability::Mutable));
    assert_eq!(
        check_prop_mutability(&conn, 6),
        Err("The mutability value in the db is not 'mutable' or 'mmutable' wtf".to_string())
    );
    assert_eq!(mutability_from_row(Some("IMMUTABLE")), Ok(Mutability::Immutable));
}

#[test]
fn rule_and_id_lookups_read_text_columns() {
    let conn = empty_db();
    conn.execute("INSERT INTO rule (id, proposal_id, mutable) VALUES (5, 300, 'mutable')", []).unwrap();
    // The lookups read an integer column as text, which SQLite's typed
    // access refuses, so they report no match.
    assert!(!is_current_rule(&conn, 5));
    assert!(!id_exists(&conn, "rule", 5));
    assert_eq!(id_exists_query("rule", 5), "SELECT id FROM rule WHERE id='5'");
}

#[test]
fn players_and_turns() {
    let conn = empty_db();
    assert_eq!(current_rulemaker(&conn), None);
    conn.execute("INSERT INTO turn (id, user_id) VALUES (1, 'U1'), (2, 'U2')", []).unwrap();
    assert_eq!(current_rulemaker(&conn), Some("U2".to_string()));
    conn.execute("INSERT INTO player VALUES (1, 'U1', 'rowan', 3, 'NZ')", []).unwrap();
    let players = player_table(&conn).unwrap();
    assert_eq!(players.len(), 1);
    assert_eq!(players[0].username, "rowan");
    assert_eq!(players[0].points, 3);
    assert_eq!(get_username(&conn, "U9"), Err("No such user for id U9".to_string()));
    assert!(get_current_proposal(&conn).is_none());
}

#[test]
fn init_db_reports_bad_statements() {
    let conn = rusqlite::Connection::open_in_memory().unwrap();
    assert!(init_db(&conn, &vec!["NOT SQL".to_string()]).is_err());
    assert!(init_db(&conn, &vec![]).is_ok());
}

#[test]
fn malformed_proposals_get_the_same_answer_whatever_the_db() {
    let empty = empty_db();
    let full = empty_db();
    full.execute("INSERT INTO proposal (id, creator_id, timestamp_proposed, text) VALUES (400, 'U2', 0, 'x')", []).unwrap();
    full.execute("INSERT INTO rule (id, proposal_id, mutable) VALUES (5, 400, 'mutable')", []).unwrap();
    for text in ["", "hello there", "Rule 401", "Rule 401 402", "Rule 401 amend", "Rule 401 transmute 5", "Rule 401 transmute 5 6"] {
        let a = interpret(&empty, text, "U1");
        assert!(a.is_err());
        assert_eq!(a, interpret(&full, text, "U1"));
    }
}

#[test]
fn only_the_next_enactment_is_accepted() {
    let conn = empty_db();
    conn.execute("INSERT INTO proposal (id, creator_id, timestamp_proposed, text) VALUES (310, 'U2', 0, 'x')", []).unwrap();
    assert!(interpret(&conn, "311 enact", "U1").is_ok());
    assert!(interpret(&conn, "312 enact", "U1").is_err());
    assert!(interpret(&conn, "310 enact", "U1").is_err());
    assert!(interpret(&conn, "311 amend 310", "U1").is_err());
}
