//! Reading a `/proposal` slash command: words become keyword tokens, the
//! sequence of keywords is matched against the valid proposal forms, and the
//! proposal is checked against the rules in force.
use vstd::prelude::*;

use crate::db::{check_prop_mutability, is_current_rule, is_mutability_outcome, last_proposal_id};
use crate::proposal::{amend, amend_msg, repeal, repeal_msg};
use crate::text::{
    ascii_lowercase, decimal_i32, decimal_of, decimal_string, equals, lowercase_of, parse_i32,
    remove_punctuation, split_whitespace, to_lowercase, without_punctuation, words,
};

verus! {

broadcast use vstd::string::group_string_axioms;

/// The lower-case form that the bot compares words in: per-character ASCII
/// lower-casing for ASCII text, the Unicode mapping of `str::to_lowercase`
/// otherwise.
pub open spec fn lowercased(s: Seq<char>) -> Seq<char> {
    if vstd::utf8::is_ascii_chars(s) {
        ascii_lowercase(s)
    } else {
        lowercase_of(s)
    }
}

/// Lower-cases a string the way `str::to_lowercase` does.
pub fn lowercase(s: &str) -> (r: String)
    ensures
        r@ == lowercased(s@),
{
    to_lowercase(s)
}

// ---------------------------------------------------------------------------
// Mutability
// ---------------------------------------------------------------------------

/// Whether a rule may be changed by later proposals.
#[derive(Debug, Clone, Copy, PartialEq, Eq, Structural)]
pub enum Mutability {
    Mutable,
    Immutable,
}

pub open spec fn invalid_mutability_msg(s: Seq<char>) -> Seq<char> {
    "Error: "@ + s + " isn't one of the two valid mutability types: Mutable and Immutable"@
}

impl Mutability {
    /// The mutability that an already lower-cased word names, if any.
    pub open spec fn named(lower: Seq<char>) -> Option<Mutability> {
        if lower == "mutable"@ {
            Some(Mutability::Mutable)
        } else if lower == "immutable"@ {
            Some(Mutability::Immutable)
        } else {
            None
        }
    }

    /// The mutability that a word names, ignoring case.
    pub open spec fn parsed(s: Seq<char>) -> Option<Mutability> {
        Self::named(lowercased(s))
    }

    /// The other mutability.
    pub open spec fn negated(self) -> Mutability {
        match self {
            Mutability::Mutable => Mutability::Immutable,
            Mutability::Immutable => Mutability::Mutable,
        }
    }

    /// How a mutability is written: `Mutable` or `Immutable`.
    pub open spec fn name(self) -> Seq<char> {
        match self {
            Mutability::Mutable => "Mutable"@,
            Mutability::Immutable => "Immutable"@,
        }
    }

    /// Reads a mutability from a word that is already lower case; the error
    /// quotes `word`.
    pub fn from_lowercase(lower: &str, word: &str) -> (r: Result<Mutability, String>)
        ensures
            match r {
                Ok(m) => Self::named(lower@) == Some(m),
                Err(e) => Self::named(lower@) is None && e@ == invalid_mutability_msg(word@),
            },
    {
        if equals(lower, "mutable") {
            Ok(Mutability::Mutable)
        } else if equals(lower, "immutable") {
            Ok(Mutability::Immutable)
        } else {
            let mut e = String::from_str("Error: ");
            e.append(word);
            e.append(" isn't one of the two valid mutability types: Mutable and Immutable");
            Err(e)
        }
    }

    /// Reads `mutable` or `immutable`, in any case.
    pub fn from_str(s: &str) -> (r: Result<Mutability, String>)
        ensures
            match r {
                Ok(m) => Self::parsed(s@) == Some(m),
                Err(e) => Self::parsed(s@) is None && e@ == invalid_mutability_msg(s@),
            },
    {
        let lower = lowercase(s);
        Self::from_lowercase(lower.as_str(), s)
    }

    /// The other mutability.
    pub fn not(&self) -> (r: Mutability)
        ensures
            r == self.negated(),
    {
        match self {
            Mutability::Mutable => Mutability::Immutable,
            Mutability::Immutable => Mutability::Mutable,
        }
    }

    /// The display form: `Mutable` or `Immutable`.
    pub fn to_string(&self) -> (r: String)
        ensures
            r@ == self.name(),
    {
        match self {
            Mutability::Mutable => String::from_str("Mutable"),
            Mutability::Immutable => String::from_str("Immutable"),
        }
    }
}

// ---------------------------------------------------------------------------
// Tokens
// ---------------------------------------------------------------------------

/// The keyword that a word of a proposal stands for.
#[derive(Debug, Clone, Copy, PartialEq, Eq, Structural)]
pub enum Token {
    Enact,
    Repeal,
    Amend,
    Transmute,
    Id(i32),
    Muta(Mutability),
    Text,
}

pub open spec fn is_enact_word(c: Seq<char>) -> bool {
    c == "enactment"@ || c == "enact"@ || c == "enactify"@ || c == "enacterate"@
}

pub open spec fn is_amend_word(c: Seq<char>) -> bool {
    c == "amendment"@ || c == "amend"@ || c == "amendify"@
}

pub open spec fn is_repeal_word(c: Seq<char>) -> bool {
    c == "repeal"@ || c == "repealify"@
}

pub open spec fn is_transmute_word(c: Seq<char>) -> bool {
    c == "transmutation"@ || c == "transmute"@ || c == "transmutate"@ || c == "transmuterate"@
}

/// The token that a word stands for: it is lower-cased and stripped of
/// punctuation, then read as a keyword, else as a number, else as a
/// mutability, else it is plain text.
pub open spec fn token_of(word: Seq<char>) -> Token {
    let c = without_punctuation(lowercased(word));
    if is_enact_word(c) {
        Token::Enact
    } else if is_amend_word(c) {
        Token::Amend
    } else if is_repeal_word(c) {
        Token::Repeal
    } else if is_transmute_word(c) {
        Token::Transmute
    } else {
        match decimal_i32(c) {
            Some(n) => Token::Id(n),
            None => match Mutability::parsed(c) {
                Some(m) => Token::Muta(m),
                None => Token::Text,
            },
        }
    }
}

/// Reads one word of a proposal as a token.
pub fn tokenize_lexeme(word: &str) -> (r: Token)
    ensures
        r == token_of(word@),
{
    let lower = lowercase(word);
    let cleaned = remove_punctuation(lower.as_str());
    let c = cleaned.as_str();
    if equals(c, "enactment") || equals(c, "enact") || equals(c, "enactify") || equals(
        c,
        "enacterate",
    ) {
        Token::Enact
    } else if equals(c, "amendment") || equals(c, "amend") || equals(c, "amendify") {
        Token::Amend
    } else if equals(c, "repeal") || equals(c, "repealify") {
        Token::Repeal
    } else if equals(c, "transmutation") || equals(c, "transmute") || equals(c, "transmutate")
        || equals(c, "transmuterate") {
        Token::Transmute
    } else {
        match parse_i32(c) {
            Some(n) => Token::Id(n),
            None => match Mutability::from_str(c) {
                Ok(m) => Token::Muta(m),
                Err(_) => Token::Text,
            },
        }
    }
}

pub open spec fn is_interesting(t: Token) -> bool {
    t != Token::Text
}

/// Whether a token is a keyword (anything but plain text).
pub fn interesting_token(token: &Token) -> (r: bool)
    ensures
        r == is_interesting(*token),
{
    match token {
        Token::Text => false,
        _ => true,
    }
}

/// The keyword tokens of a proposal, in the order its words come.
pub open spec fn tokens_of(prop: Seq<char>) -> Seq<Token> {
    words(prop).map_values(|w: Seq<char>| token_of(w)).filter(|t: Token| is_interesting(t))
}

/// Splits a proposal into words and keeps the keyword tokens, in order.
pub fn keyword_tokens(prop: &str) -> (r: Vec<Token>)
    ensures
        r@ == tokens_of(prop@),
{
    let ws = split_whitespace(prop);
    let ghost w = ws.deep_view();
    let mut tokens: Vec<Token> = Vec::new();
    let mut i: usize = 0;
    assert(w.take(0).map_values(|w: Seq<char>| token_of(w)).filter(|t: Token| is_interesting(t))
        =~= Seq::<Token>::empty());
    while i < ws.len()
        invariant
            w == ws.deep_view(),
            w == words(prop@),
            i <= ws.len(),
            tokens@ == w.take(i as int).map_values(|w: Seq<char>| token_of(w)).filter(
                |t: Token| is_interesting(t),
            ),
        decreases ws.len() - i,
    {
        let t = tokenize_lexeme(ws[i].as_str());
        let ghost pre = w.take(i as int).map_values(|w: Seq<char>| token_of(w));
        let ghost post = w.take(i + 1).map_values(|w: Seq<char>| token_of(w));
        assert(ws[i as int]@ == w[i as int]);
        assert(post =~= pre.push(t));
        assert(post.drop_last() =~= pre);
        reveal_with_fuel(Seq::filter, 1);
        if interesting_token(&t) {
            tokens.push(t);
        }
        i = i + 1;
    }
    assert(w.take(ws.len() as int) =~= w);
    tokens
}

// ---------------------------------------------------------------------------
// Parsing the keyword sequence
// ---------------------------------------------------------------------------

/// What a sequence of keywords amounts to: a well-formed proposal of one of
/// the four kinds, or the first thing found wrong with it.
#[derive(Debug, PartialEq, Eq)]
pub enum ParsedCommand<S> {
    Enactment(i32, S),
    Amendment(i32, S, i32),
    Repealment(i32, S, i32),
    Transmutation(i32, S, i32, Mutability),
    NoKeyWords,
    NotIdFirst,
    IdOnly,
    IdNoType,
    NoTarget,
    NoTargetAfterType,
    NoTransmuteDir,
    NoTransmuteDirAfterTarget,
    Invalid,
}

impl View for ParsedCommand<String> {
    type V = ParsedCommand<Seq<char>>;

    open spec fn view(&self) -> ParsedCommand<Seq<char>> {
        match self {
            ParsedCommand::Enactment(p, c) => ParsedCommand::Enactment(*p, c@),
            ParsedCommand::Amendment(p, c, t) => ParsedCommand::Amendment(*p, c@, *t),
            ParsedCommand::Repealment(p, c, t) => ParsedCommand::Repealment(*p, c@, *t),
            ParsedCommand::Transmutation(p, c, t, m) => ParsedCommand::Transmutation(
                *p,
                c@,
                *t,
                *m,
            ),
            ParsedCommand::NoKeyWords => ParsedCommand::NoKeyWords,
            ParsedCommand::NotIdFirst => ParsedCommand::NotIdFirst,
            ParsedCommand::IdOnly => ParsedCommand::IdOnly,
            ParsedCommand::IdNoType => ParsedCommand::IdNoType,
            ParsedCommand::NoTarget => ParsedCommand::NoTarget,
            ParsedCommand::NoTargetAfterType => ParsedCommand::NoTargetAfterType,
            ParsedCommand::NoTransmuteDir => ParsedCommand::NoTransmuteDir,
            ParsedCommand::NoTransmuteDirAfterTarget => ParsedCommand::NoTransmuteDirAfterTarget,
            ParsedCommand::Invalid => ParsedCommand::Invalid,
        }
    }
}

/// The command that a keyword sequence forms.  A proposal starts with its
/// id; then comes its kind; an amendment, repeal or transmutation names its
/// target rule next; a transmutation then names the direction.  Keywords
/// after a complete command are ignored.
pub open spec fn parse_spec(tokens: Seq<Token>, creator: Seq<char>) -> ParsedCommand<Seq<char>> {
    if tokens.len() == 0 {
        ParsedCommand::NoKeyWords
    } else {
        match tokens[0] {
            Token::Id(p) => if tokens.len() < 2 {
                ParsedCommand::IdOnly
            } else {
                match tokens[1] {
                    Token::Enact => ParsedCommand::Enactment(p, creator),
                    Token::Amend | Token::Repeal | Token::Transmute => if tokens.len() < 3 {
                        ParsedCommand::NoTarget
                    } else {
                        match tokens[2] {
                            Token::Id(t) => match tokens[1] {
                                Token::Amend => ParsedCommand::Amendment(p, creator, t),
                                Token::Repeal => ParsedCommand::Repealment(p, creator, t),
                                _ => if tokens.len() < 4 {
                                    ParsedCommand::NoTransmuteDir
                                } else {
                                    match tokens[3] {
                                        Token::Muta(m) => ParsedCommand::Transmutation(
                                            p,
                                            creator,
                                            t,
                                            m,
                                        ),
                                        _ => ParsedCommand::NoTransmuteDirAfterTarget,
                                    }
                                },
                            },
                            _ => ParsedCommand::NoTargetAfterType,
                        }
                    },
                    _ => ParsedCommand::IdNoType,
                }
            },
            _ => ParsedCommand::NotIdFirst,
        }
    }
}

/// Matches a keyword sequence against the valid proposal forms.
pub fn parse(tokens: Vec<Token>, creator_id: &str) -> (r: ParsedCommand<String>)
    ensures
        r@ == parse_spec(tokens@, creator_id@),
{
    let n = tokens.len();
    if n == 0 {
        return ParsedCommand::NoKeyWords;
    }
    let proposal_id = match tokens[0] {
        Token::Id(num) => num,
        _ => {
            return ParsedCommand::NotIdFirst;
        },
    };
    if n < 2 {
        return ParsedCommand::IdOnly;
    }
    let prop_type = tokens[1];
    match prop_type {
        Token::Enact => ParsedCommand::Enactment(proposal_id, String::from_str(creator_id)),
        Token::Amend | Token::Repeal | Token::Transmute => {
            if n < 3 {
                return ParsedCommand::NoTarget;
            }
            let target_id = match tokens[2] {
                Token::Id(num) => num,
                _ => {
                    return ParsedCommand::NoTargetAfterType;
                },
            };
            match prop_type {
                Token::Amend => ParsedCommand::Amendment(
                    proposal_id,
                    String::from_str(creator_id),
                    target_id,
                ),
                Token::Repeal => ParsedCommand::Repealment(
                    proposal_id,
                    String::from_str(creator_id),
                    target_id,
                ),
                _ => {
                    if n < 4 {
                        return ParsedCommand::NoTransmuteDir;
                    }
                    match tokens[3] {
                        Token::Muta(muta) => ParsedCommand::Transmutation(
                            proposal_id,
                            String::from_str(creator_id),
                            target_id,
                            muta,
                        ),
                        _ => ParsedCommand::NoTransmuteDirAfterTarget,
                    }
                },
            }
        },
        _ => ParsedCommand::IdNoType,
    }
}

// ---------------------------------------------------------------------------
// Checking a proposal against the rules in force
// ---------------------------------------------------------------------------

/// The number that the next proposal must carry: one more than the last
/// proposal's, or 300 when there is none.
pub open spec fn next_proposal_id(last: Option<i32>) -> int {
    match last {
        Some(n) => n + 1,
        None => 300,
    }
}

pub open spec fn wrong_id_msg(next: int) -> Seq<char> {
    "Error: that rule id number isn't the next one in the sequence, try again!\nThe next rule number should be "@
        + decimal_of(next)
}

/// Whether `prop_id` is the next proposal number after `last`.
pub open spec fn id_outcome(prop_id: i32, last: Option<i32>) -> Result<(), Seq<char>> {
    if prop_id != next_proposal_id(last) {
        Err(wrong_id_msg(next_proposal_id(last)))
    } else {
        Ok(())
    }
}

/// Turns a `Result<(), String>` into its view.
pub open spec fn unit_view(r: Result<(), String>) -> Result<(), Seq<char>> {
    match r {
        Ok(()) => Ok(()),
        Err(e) => Err(e@),
    }
}

/// Checks `prop_id` against the id of the last proposal.
pub fn check_next_id(prop_id: i32, last: Option<i32>) -> (r: Result<(), String>)
    ensures
        unit_view(r) == id_outcome(prop_id, last),
{
    let next: i64 = match last {
        Some(n) => n as i64 + 1,
        None => 300,
    };
    if prop_id as i64 != next {
        let mut e = String::from_str(
            "Error: that rule id number isn't the next one in the sequence, try again!\nThe next rule number should be ",
        );
        let d = decimal_string(next);
        e.append(d.as_str());
        Err(e)
    } else {
        Ok(())
    }
}

/// Checks that `prop_id` is the next proposal number, asking the database
/// for the last one.
pub fn check_prop_id(conn: &rusqlite::Connection, prop_id: i32) -> (r: Result<(), String>)
    ensures
        exists|last: Option<i32>| unit_view(r) == id_outcome(prop_id, last),
{
    let last = last_proposal_id(conn);
    check_next_id(prop_id, last)
}

pub open spec fn not_current_rule_msg(target_id: i32) -> Seq<char> {
    "Error: The target id "@ + decimal_of(target_id as int) + " is not a current rule!"@
}

/// Whether the target of a change is a rule in force.
pub open spec fn target_outcome(target_id: i32, is_rule: bool) -> Result<(), Seq<char>> {
    if !is_rule {
        Err(not_current_rule_msg(target_id))
    } else {
        Ok(())
    }
}

/// Checks that the target is a rule in force, given whether it is.
pub fn check_target(target_id: i32, is_rule: bool) -> (r: Result<(), String>)
    ensures
        unit_view(r) == target_outcome(target_id, is_rule),
{
    if !is_rule {
        let mut e = String::from_str("Error: The target id ");
        let d = decimal_string(target_id as i64);
        e.append(d.as_str());
        e.append(" is not a current rule!");
        Err(e)
    } else {
        Ok(())
    }
}

/// Checks that the target is a rule in force, asking the database.
pub fn check_target_prop_id(conn: &rusqlite::Connection, target_id: i32) -> (r: Result<(), String>)
    ensures
        exists|is_rule: bool| unit_view(r) == target_outcome(target_id, is_rule),
{
    let is_rule = is_current_rule(conn, target_id);
    check_target(target_id, is_rule)
}

pub open spec fn wrong_direction_msg(target_id: i32, trans_dir: Mutability) -> Seq<char> {
    "Error: rule "@ + decimal_of(target_id as int) + " can't be transmuted to "@
        + trans_dir.name()
}

/// Whether a rule of the looked-up mutability can be transmuted in the given
/// direction: only to the opposite of what it is.
pub open spec fn direction_outcome(
    target_id: i32,
    trans_dir: Mutability,
    target_mutability: Result<Mutability, Seq<char>>,
) -> Result<(), Seq<char>> {
    match target_mutability {
        Err(e) => Err(e),
        Ok(m) => if trans_dir != m.negated() {
            Err(wrong_direction_msg(target_id, trans_dir))
        } else {
            Ok(())
        },
    }
}

/// Turns a mutability lookup result into its view.
pub open spec fn mutability_view(r: Result<Mutability, String>) -> Result<Mutability, Seq<char>> {
    match r {
        Ok(m) => Ok(m),
        Err(e) => Err(e@),
    }
}

/// Checks a transmutation's direction against the target's mutability.
pub fn check_direction(
    target_id: i32,
    trans_dir: Mutability,
    target_mutability: Result<Mutability, String>,
) -> (r: Result<(), String>)
    ensures
        unit_view(r) == direction_outcome(
            target_id,
            trans_dir,
            mutability_view(target_mutability),
        ),
{
    match target_mutability {
        Err(e) => Err(e),
        Ok(m) => {
            if trans_dir != m.not() {
                let mut e = String::from_str("Error: rule ");
                let d = decimal_string(target_id as i64);
                e.append(d.as_str());
                e.append(" can't be transmuted to ");
                let name = trans_dir.to_string();
                e.append(name.as_str());
                Err(e)
            } else {
                Ok(())
            }
        },
    }
}

/// Checks a transmutation's direction, asking the database for the target's
/// mutability.
pub fn check_mutability_of_target(
    conn: &rusqlite::Connection,
    target_id: i32,
    trans_dir: Mutability,
) -> (r: Result<(), String>)
    ensures
        exists|tm: Result<Mutability, Seq<char>>|
            is_mutability_outcome(tm) && unit_view(r) == direction_outcome(
                target_id,
                trans_dir,
                tm,
            ),
{
    let target_mutability = check_prop_mutability(conn, target_id);
    check_direction(target_id, trans_dir, target_mutability)
}

// ---------------------------------------------------------------------------
// The answer to a proposal
// ---------------------------------------------------------------------------

pub open spec fn prop_types_list() -> Seq<char> {
    ":small_blue_diamond: Enactment\n:small_blue_diamond: Amendment\n:small_blue_diamond: Transmutation\n:small_blue_diamond: Repeal"@
}

pub open spec fn accepted_msg() -> Seq<char> {
    "Cool rule, double check it and then submit!"@
}

pub open spec fn no_words_msg() -> Seq<char> {
    "Error: Please add some words to your proposal!"@
}

pub open spec fn not_id_first_msg() -> Seq<char> {
    "Error: Please start your proposal by declaring its identification number, cheers!"@
}

pub open spec fn id_only_msg() -> Seq<char> {
    "Error: Please include the proposal type :)\nValid types are:\n"@ + prop_types_list()
}

pub open spec fn no_type_msg() -> Seq<char> {
    "Error: no proposal type found.\nPlease begin your proposal with it's type. For example:\n'Rule 999, Enactment: Nomicball! Nomic is now also a ball game.'\nValid types are:\n"@
        + prop_types_list()
}

pub open spec fn no_target_msg() -> Seq<char> {
    "Error: no target id found.\nIf you're going to change another rule, you need to specify which one!\nPlease put the id of the target rule right after the proposal type, like this:\n'Rule 999, amendment to rule 998: Give me all the treasure rather than sharing it equally' or something :)"@
}

pub open spec fn no_direction_msg() -> Seq<char> {
    "Error: Please provide a direction of transmutation. I know it can only go one way, but Autonomic would like to encourage clarity for human's sake :)"@
}

pub open spec fn no_direction_after_target_msg() -> Seq<char> {
    "Error: Please specify the direction of transmutation :)"@
}

pub open spec fn invalid_msg() -> Seq<char> {
    "Invalid parsing of the proposal, woops!"@
}

/// Runs `first`, and if it passes, answers `then`.
pub open spec fn after(first: Result<(), Seq<char>>, then: Result<Seq<char>, Seq<char>>) -> Result<
    Seq<char>,
    Seq<char>,
> {
    match first {
        Err(e) => Err(e),
        Ok(()) => then,
    }
}

/// The answer to a parsed proposal, given what the database says: the id of
/// the last proposal, whether the target is a rule in force, and the
/// target's mutability.
pub open spec fn command_outcome(
    cmd: ParsedCommand<Seq<char>>,
    last: Option<i32>,
    target_is_rule: bool,
    target_mutability: Result<Mutability, Seq<char>>,
) -> Result<Seq<char>, Seq<char>> {
    match cmd {
        ParsedCommand::Enactment(p, _) => after(id_outcome(p, last), Ok(accepted_msg())),
        ParsedCommand::Amendment(p, _, t) => after(
            id_outcome(p, last),
            after(target_outcome(t, target_is_rule), Err(amend_msg())),
        ),
        ParsedCommand::Repealment(p, _, t) => after(
            id_outcome(p, last),
            after(target_outcome(t, target_is_rule), Err(repeal_msg())),
        ),
        ParsedCommand::Transmutation(p, _, t, m) => after(
            id_outcome(p, last),
            after(
                target_outcome(t, target_is_rule),
                after(direction_outcome(t, m, target_mutability), Err(repeal_msg())),
            ),
        ),
        ParsedCommand::NoKeyWords => Err(no_words_msg()),
        ParsedCommand::NotIdFirst => Err(not_id_first_msg()),
        ParsedCommand::IdOnly => Err(id_only_msg()),
        ParsedCommand::IdNoType => Err(no_type_msg()),
        ParsedCommand::NoTarget => Err(no_target_msg()),
        ParsedCommand::NoTargetAfterType => Err(no_target_msg()),
        ParsedCommand::NoTransmuteDir => Err(no_direction_msg()),
        ParsedCommand::NoTransmuteDirAfterTarget => Err(no_direction_after_target_msg()),
        ParsedCommand::Invalid => Err(invalid_msg()),
    }
}

/// Turns a `Result<String, String>` into its view.
pub open spec fn text_view(r: Result<String, String>) -> Result<Seq<char>, Seq<char>> {
    match r {
        Ok(s) => Ok(s@),
        Err(e) => Err(e@),
    }
}

fn text_error(e: String) -> (r: Result<String, String>)
    ensures
        text_view(r) == Err::<Seq<char>, Seq<char>>(e@),
{
    Err(e)
}

/// Reads a `/proposal` command and answers it: an error naming the first
/// problem found, or the go-ahead for a well-formed enactment.  The id,
/// target and direction are checked against the database.
pub fn interpret(conn: &rusqlite::Connection, prop: &str, creator_id: &str) -> (r: Result<
    String,
    String,
>)
    ensures
        exists|
            last: Option<i32>,
            target_is_rule: bool,
            target_mutability: Result<Mutability, Seq<char>>,
        |
            #![trigger command_outcome(
                parse_spec(tokens_of(prop@), creator_id@),
                last,
                target_is_rule,
                target_mutability,
            )]
            is_mutability_outcome(target_mutability) && text_view(r) == command_outcome(
                parse_spec(tokens_of(prop@), creator_id@),
                last,
                target_is_rule,
                target_mutability,
            ),
{
    let tokens = keyword_tokens(prop);
    let cmd = parse(tokens, creator_id);
    let ghost c = parse_spec(tokens_of(prop@), creator_id@);
    let ghost ok_tm: Result<Mutability, Seq<char>> = Ok(Mutability::Mutable);
    match cmd {
        ParsedCommand::Enactment(prop_id, _) => {
            let a = check_prop_id(conn, prop_id);
            let ghost last = choose|last: Option<i32>| unit_view(a) == id_outcome(prop_id, last);
            match a {
                Err(e) => {
                    assert(command_outcome(c, last, true, ok_tm) == Err::<Seq<char>, Seq<char>>(
                        e@,
                    ));
                    text_error(e)
                },
                Ok(()) => {
                    let r = Ok(String::from_str("Cool rule, double check it and then submit!"));
                    assert(text_view(r) == command_outcome(c, last, true, ok_tm));
                    r
                },
            }
        },
        ParsedCommand::Amendment(prop_id, creator, target_id) => {
            let a = check_prop_id(conn, prop_id);
            let ghost last = choose|last: Option<i32>| unit_view(a) == id_outcome(prop_id, last);
            if let Err(e) = a {
                assert(command_outcome(c, last, true, ok_tm) == Err::<Seq<char>, Seq<char>>(e@));
                return text_error(e);
            }
            let b = check_target_prop_id(conn, target_id);
            let ghost is_rule = choose|is_rule: bool|
                unit_view(b) == target_outcome(target_id, is_rule);
            if let Err(e) = b {
                assert(command_outcome(c, last, is_rule, ok_tm) == Err::<Seq<char>, Seq<char>>(
                    e@,
                ));
                return text_error(e);
            }
            let r = amend(conn, prop, prop_id, creator.as_str(), target_id);
            assert(text_view(r) == command_outcome(c, last, is_rule, ok_tm));
            r
        },
        ParsedCommand::Repealment(prop_id, creator, target_id) => {
            let a = check_prop_id(conn, prop_id);
            let ghost last = choose|last: Option<i32>| unit_view(a) == id_outcome(prop_id, last);
            if let Err(e) = a {
                assert(command_outcome(c, last, true, ok_tm) == Err::<Seq<char>, Seq<char>>(e@));
                return text_error(e);
            }
            let b = check_target_prop_id(conn, target_id);
            let ghost is_rule = choose|is_rule: bool|
                unit_view(b) == target_outcome(target_id, is_rule);
            if let Err(e) = b {
                assert(command_outcome(c, last, is_rule, ok_tm) == Err::<Seq<char>, Seq<char>>(
                    e@,
                ));
                return text_error(e);
            }
            let r = repeal(conn, prop, prop_id, creator.as_str(), target_id);
            assert(text_view(r) == command_outcome(c, last, is_rule, ok_tm));
            r
        },
        ParsedCommand::Transmutation(prop_id, creator, target_id, muta) => {
            let a = check_prop_id(conn, prop_id);
            let ghost last = choose|last: Option<i32>| unit_view(a) == id_outcome(prop_id, last);
            if let Err(e) = a {
                assert(command_outcome(c, last, true, ok_tm) == Err::<Seq<char>, Seq<char>>(e@));
                return text_error(e);
            }
            let b = check_target_prop_id(conn, target_id);
            let ghost is_rule = choose|is_rule: bool|
                unit_view(b) == target_outcome(target_id, is_rule);
            if let Err(e) = b {
                assert(command_outcome(c, last, is_rule, ok_tm) == Err::<Seq<char>, Seq<char>>(
                    e@,
                ));
                return text_error(e);
            }
            let d = check_mutability_of_target(conn, target_id, muta);
            let ghost tm = choose|tm: Result<Mutability, Seq<char>>|
                is_mutability_outcome(tm) && unit_view(d) == direction_outcome(
                    target_id,
                    muta,
                    tm,
                );
            if let Err(e) = d {
                assert(command_outcome(c, last, is_rule, tm) == Err::<Seq<char>, Seq<char>>(
                    e@,
                ));
                return text_error(e);
            }
            let r = repeal(conn, prop, prop_id, creator.as_str(), target_id);
            assert(text_view(r) == command_outcome(c, last, is_rule, tm));
            r
        },
        ParsedCommand::NoKeyWords => {
            let r = Err(String::from_str("Error: Please add some words to your proposal!"));
            assert(text_view(r) == command_outcome(c, None, true, ok_tm));
            r
        },
        ParsedCommand::NotIdFirst => {
            let r = Err(
                String::from_str(
                    "Error: Please start your proposal by declaring its identification number, cheers!",
                ),
            );
            assert(text_view(r) == command_outcome(c, None, true, ok_tm));
            r
        },
        ParsedCommand::IdOnly => {
            let mut e = String::from_str(
                "Error: Please include the proposal type :)\nValid types are:\n",
            );
            e.append(
                ":small_blue_diamond: Enactment\n:small_blue_diamond: Amendment\n:small_blue_diamond: Transmutation\n:small_blue_diamond: Repeal",
            );
            let r = Err(e);
            assert(text_view(r) == command_outcome(c, None, true, ok_tm));
            r
        },
        ParsedCommand::IdNoType => {
            let mut e = String::from_str(
                "Error: no proposal type found.\nPlease begin your proposal with it's type. For example:\n'Rule 999, Enactment: Nomicball! Nomic is now also a ball game.'\nValid types are:\n",
            );
            e.append(
                ":small_blue_diamond: Enactment\n:small_blue_diamond: Amendment\n:small_blue_diamond: Transmutation\n:small_blue_diamond: Repeal",
            );
            let r = Err(e);
            assert(text_view(r) == command_outcome(c, None, true, ok_tm));
            r
        },
        ParsedCommand::NoTarget | ParsedCommand::NoTargetAfterType => {
            let r = Err(
                String::from_str(
                    "Error: no target id found.\nIf you're going to change another rule, you need to specify which one!\nPlease put the id of the target rule right after the proposal type, like this:\n'Rule 999, amendment to rule 998: Give me all the treasure rather than sharing it equally' or something :)",
                ),
            );
            assert(text_view(r) == command_outcome(c, None, true, ok_tm));
            r
        },
        ParsedCommand::NoTransmuteDir => {
            let r = Err(
                String::from_str(
                    "Error: Please provide a direction of transmutation. I know it can only go one way, but Autonomic would like to encourage clarity for human's sake :)",
                ),
            );
            assert(text_view(r) == command_outcome(c, None, true, ok_tm));
            r
        },
        ParsedCommand::NoTransmuteDirAfterTarget => {
            let r = Err(
                String::from_str("Error: Please specify the direction of transmutation :)"),
            );
            assert(text_view(r) == command_outcome(c, None, true, ok_tm));
            r
        },
        ParsedCommand::Invalid => {
            let r = Err(String::from_str("Invalid parsing of the proposal, woops!"));
            assert(text_view(r) == command_outcome(c, None, true, ok_tm));
            r
        },
    }
}

} // verus!
