//! Incoming requests: the form fields Slack posts, which kind of request
//! they make, and the reply to each slash command; and the address of a
//! call to Slack's Web API.
use vstd::prelude::*;

use crate::db::{current_rulemaker, is_mutability_outcome, no_such_user_msg};
use crate::interpreter::{command_outcome, parse_spec, tokens_of, Mutability};
use crate::slack::{
    handle_proposal_slash, handle_vote_slash, no_proposal_msg, not_your_turn_text, opt_view,
    proposal_reply, proposal_reply_without_text, turn_holder, turns_message, turns_slash_response, vote_message,
    Reply, ReplyView,
};
use crate::text::equals;

verus! {

broadcast use vstd::string::group_string_axioms;

// ---------------------------------------------------------------------------
// Form fields
// ---------------------------------------------------------------------------

/// The name/value pairs, in order, that `application/x-www-form-urlencoded`
/// decoding of `body` yields.
pub uninterp spec fn form_pairs(body: Seq<char>) -> Seq<(Seq<char>, Seq<char>)>;

/// Decodes a form-encoded request body into its name/value pairs.
///
/// Calls `url::form_urlencoded::parse` on the body's bytes and collects the
/// owned pairs.  The decoding (percent-escapes, `+` for space, `&` and `=`
/// as separators) is not written out: the result is named `form_pairs` of
/// the body, which it depends on alone.
#[verifier::external_body]
fn parse_form(body: &str) -> (r: Vec<(String, String)>)
    ensures
        r.deep_view() == form_pairs(body@),
{
    url::form_urlencoded::parse(body.as_bytes()).into_owned().collect()
}

/// The value of form field `key`: the last pair with that name wins, as when
/// the pairs are collected into a map.
pub open spec fn field(pairs: Seq<(Seq<char>, Seq<char>)>, key: Seq<char>) -> Option<Seq<char>>
    decreases pairs.len(),
{
    if pairs.len() == 0 {
        None
    } else if pairs.last().0 == key {
        Some(pairs.last().1)
    } else {
        field(pairs.drop_last(), key)
    }
}

/// Looks up form field `key` (its last occurrence).
pub fn get_field(fields: &Vec<(String, String)>, key: &str) -> (r: Option<String>)
    ensures
        opt_view(r) == field(fields.deep_view(), key@),
{
    let ghost pairs = fields.deep_view();
    let mut i: usize = fields.len();
    assert(pairs.take(i as int) =~= pairs);
    while i > 0
        invariant
            i <= fields.len(),
            pairs == fields.deep_view(),
            field(pairs, key@) == field(pairs.take(i as int), key@),
        decreases i,
    {
        let ghost pre = pairs.take(i as int);
        assert(pre.last() == pairs[i - 1]);
        assert(pre.drop_last() =~= pairs.take(i - 1));
        if equals(fields[i - 1].0.as_str(), key) {
            return Some(fields[i - 1].1.clone());
        }
        i = i - 1;
    }
    None
}

// ---------------------------------------------------------------------------
// Kinds of request
// ---------------------------------------------------------------------------

/// What an incoming request asks for.
#[derive(Debug, PartialEq, Eq)]
pub enum Route<S> {
    /// A button press on a message, with its JSON payload.
    Interaction(S),
    /// `/vote`, with the sender's user id.
    Vote(Option<S>),
    /// `/turns`.
    Turns,
    /// `/proposal`, with the sender's user id and the proposal text.
    Proposal(Option<S>, Option<S>),
    /// A slash command the bot does not know.
    UnknownCommand,
    /// Neither a slash command nor an interaction: left unanswered.
    Unrecognised,
}

impl View for Route<String> {
    type V = Route<Seq<char>>;

    open spec fn view(&self) -> Route<Seq<char>> {
        match self {
            Route::Interaction(p) => Route::Interaction(p@),
            Route::Vote(u) => Route::Vote(opt_view(*u)),
            Route::Turns => Route::Turns,
            Route::Proposal(u, t) => Route::Proposal(opt_view(*u), opt_view(*t)),
            Route::UnknownCommand => Route::UnknownCommand,
            Route::Unrecognised => Route::Unrecognised,
        }
    }
}

/// The kind of request that the form fields make: a `payload` field marks
/// a message interaction; otherwise the `command` field names the slash
/// command.
pub open spec fn route_spec(pairs: Seq<(Seq<char>, Seq<char>)>) -> Route<Seq<char>> {
    match field(pairs, "payload"@) {
        Some(p) => Route::Interaction(p),
        None => match field(pairs, "command"@) {
            Some(c) => if c == "/vote"@ {
                Route::Vote(field(pairs, "user_id"@))
            } else if c == "/turns"@ {
                Route::Turns
            } else if c == "/proposal"@ {
                Route::Proposal(field(pairs, "user_id"@), field(pairs, "text"@))
            } else {
                Route::UnknownCommand
            },
            None => Route::Unrecognised,
        },
    }
}

/// Tells what request the form fields make.
pub fn route(fields: &Vec<(String, String)>) -> (r: Route<String>)
    ensures
        r@ == route_spec(fields.deep_view()),
{
    match get_field(fields, "payload") {
        Some(p) => Route::Interaction(p),
        None => match get_field(fields, "command") {
            Some(c) => {
                if equals(c.as_str(), "/vote") {
                    Route::Vote(get_field(fields, "user_id"))
                } else if equals(c.as_str(), "/turns") {
                    Route::Turns
                } else if equals(c.as_str(), "/proposal") {
                    Route::Proposal(get_field(fields, "user_id"), get_field(fields, "text"))
                } else {
                    Route::UnknownCommand
                }
            },
            None => Route::Unrecognised,
        },
    }
}

/// Tells what request a form-encoded body makes.
pub fn route_request(body: &str) -> (r: Route<String>)
    ensures
        r@ == route_spec(form_pairs(body@)),
{
    let fields = parse_form(body);
    route(&fields)
}

pub open spec fn unknown_command_text() -> Seq<char> {
    "I haven't implemented this command yet, soz!"@
}

/// Answers a slash command.  `None` means the request is left unanswered:
/// it is no slash command, `/vote` found no proposal to vote on, or a
/// `/proposal` without a text came from someone other than the rule maker
/// the database names (only that player is answered without reading the
/// text).  Every `/vote` and `/proposal` must carry the sender's user id.
pub fn respond_to_command(conn: &rusqlite::Connection, route: &Route<String>) -> (r: Option<Reply>)
    requires
        !(route is Interaction),
        route is Vote ==> route->Vote_0 is Some,
        route is Proposal ==> route->Proposal_0 is Some,
    ensures
        match route@ {
            Route::Vote(_) => match r {
                Some(Reply::Message(m)) => exists|id: i32, name: Seq<char>, text: Seq<char>|
                    m@ == vote_message(id, name, text),
                None => true,
                _ => false,
            },
            Route::Turns => r matches Some(Reply::Message(m)) && m@ == turns_message(),
            Route::Proposal(Some(user_id), Some(text)) => exists|
                rulemaker: Option<Seq<char>>,
                last: Option<i32>,
                target_is_rule: bool,
                target_mutability: Result<Mutability, Seq<char>>,
            |
                #![trigger proposal_reply(
                    rulemaker,
                    user_id,
                    text,
                    command_outcome(
                        parse_spec(tokens_of(text), user_id),
                        last,
                        target_is_rule,
                        target_mutability,
                    ),
                )]
                is_mutability_outcome(target_mutability) && (r matches Some(rep) && rep@
                    == proposal_reply(
                    rulemaker,
                    user_id,
                    text,
                    command_outcome(
                        parse_spec(tokens_of(text), user_id),
                        last,
                        target_is_rule,
                        target_mutability,
                    ),
                )),
            Route::Proposal(Some(user_id), None) => exists|rulemaker: Option<Seq<char>>|
                #![trigger turn_holder(rulemaker)]
                if turn_holder(rulemaker) == user_id {
                    r matches Some(Reply::Text(t)) && t@ == not_your_turn_text()
                } else {
                    r is None
                },
            Route::UnknownCommand => r matches Some(Reply::Text(t)) && t@
                == unknown_command_text(),
            _ => r is None,
        },
{
    match route {
        Route::Vote(Some(user_id)) => match handle_vote_slash(conn, user_id.as_str()) {
            Ok(m) => Some(Reply::Message(m)),
            Err(_) => None,
        },
        Route::Turns => Some(Reply::Message(turns_slash_response())),
        Route::Proposal(Some(user_id), Some(text)) => Some(
            handle_proposal_slash(conn, user_id.as_str(), text.as_str()),
        ),
        Route::Proposal(Some(user_id), None) => {
            let rm = current_rulemaker(conn);
            proposal_reply_without_text(&rm, user_id.as_str())
        },
        Route::UnknownCommand => Some(
            Reply::Text(String::from_str("I haven't implemented this command yet, soz!")),
        ),
        _ => None,
    }
}

// ---------------------------------------------------------------------------
// Slack Web API calls
// ---------------------------------------------------------------------------

/// `key=value&` for each field, in order.
pub open spec fn query_string(fields: Seq<(Seq<char>, Seq<char>)>) -> Seq<char>
    decreases fields.len(),
{
    if fields.len() == 0 {
        Seq::empty()
    } else {
        query_string(fields.drop_last()) + fields.last().0 + "="@ + fields.last().1 + "&"@
    }
}

/// The address of a call to Web API method `method` with the given fields.
pub open spec fn api_url(method: Seq<char>, fields: Seq<(Seq<char>, Seq<char>)>) -> Seq<char> {
    "https://slack.com/api/"@ + method + "?"@ + query_string(fields)
}

/// Builds the address of a Slack Web API call (the fields are put in as
/// they are, without escaping).
pub fn slack_web_call_url(method: &str, fields: &Vec<(String, String)>) -> (r: String)
    ensures
        r@ == api_url(method@, fields.deep_view()),
{
    let ghost pairs = fields.deep_view();
    let mut url = String::from_str("https://slack.com/api/");
    url.append(method);
    url.append("?");
    let mut i: usize = 0;
    assert(pairs.take(0) =~= Seq::<(Seq<char>, Seq<char>)>::empty());
    while i < fields.len()
        invariant
            i <= fields.len(),
            pairs == fields.deep_view(),
            url@ == "https://slack.com/api/"@ + method@ + "?"@ + query_string(
                pairs.take(i as int),
            ),
        decreases fields.len() - i,
    {
        let ghost pre = pairs.take(i as int);
        let ghost post = pairs.take(i + 1);
        assert(post.drop_last() =~= pre);
        assert(post.last() == pairs[i as int]);
        url.append(fields[i].0.as_str());
        url.append("=");
        url.append(fields[i].1.as_str());
        url.append("&");
        assert(url@ =~= "https://slack.com/api/"@ + method@ + "?"@ + query_string(post));
        i = i + 1;
    }
    assert(pairs.take(fields.len() as int) =~= pairs);
    url
}

} // verus!
