//! The bot's side of the conversation with Slack: what each incoming request
//! is, and the message that answers it.
//!
//! Slack messages are built here as values of `Message`; `wire` writes them
//! as JSON text.
use vstd::prelude::*;

use crate::db::{current_rulemaker, get_current_proposal, get_username, is_mutability_outcome, no_such_user_msg};
use crate::json::{json_member, json_member_text};
use crate::proposal::{now_seconds, Proposal};
use crate::interpreter::{command_outcome, interpret, parse_spec, text_view, tokens_of, Mutability};
use crate::text::{
    before_first, decimal_i64, decimal_of, decimal_string, equals, parse_i64, prefix_before,
    remove_double_quotes, without_double_quotes,
};

verus! {

broadcast use vstd::string::group_string_axioms;

// ---------------------------------------------------------------------------
// Messages
// ---------------------------------------------------------------------------

/// An interactive button of a message attachment.
#[derive(Debug)]
pub struct Button {
    pub name: String,
    pub text: String,
    /// Slack's `type` field.
    pub kind: String,
    pub value: String,
}

pub struct ButtonView {
    pub name: Seq<char>,
    pub text: Seq<char>,
    pub kind: Seq<char>,
    pub value: Seq<char>,
}

impl View for Button {
    type V = ButtonView;

    open spec fn view(&self) -> ButtonView {
        ButtonView { name: self.name@, text: self.text@, kind: self.kind@, value: self.value@ }
    }
}

pub open spec fn opt_view(o: Option<String>) -> Option<Seq<char>> {
    match o {
        Some(s) => Some(s@),
        None => None,
    }
}

/// An attachment of a Slack message; fields that are `None` are left out.
#[derive(Debug)]
pub struct Attachment {
    pub text: String,
    pub fallback: Option<String>,
    pub callback_id: Option<String>,
    pub attachment_type: Option<String>,
    pub actions: Option<Vec<Button>>,
}

pub struct AttachmentView {
    pub text: Seq<char>,
    pub fallback: Option<Seq<char>>,
    pub callback_id: Option<Seq<char>>,
    pub attachment_type: Option<Seq<char>>,
    pub actions: Option<Seq<ButtonView>>,
}

impl View for Attachment {
    type V = AttachmentView;

    open spec fn view(&self) -> AttachmentView {
        AttachmentView {
            text: self.text@,
            fallback: opt_view(self.fallback),
            callback_id: opt_view(self.callback_id),
            attachment_type: opt_view(self.attachment_type),
            actions: match self.actions {
                Some(v) => Some(v@.map_values(|b: Button| b@)),
                None => None,
            },
        }
    }
}

/// A Slack message; fields that are `None` are left out.
#[derive(Debug)]
pub struct Message {
    pub text: String,
    pub color: Option<String>,
    pub attachments: Option<Vec<Attachment>>,
}

pub struct MessageView {
    pub text: Seq<char>,
    pub color: Option<Seq<char>>,
    pub attachments: Option<Seq<AttachmentView>>,
}

impl View for Message {
    type V = MessageView;

    open spec fn view(&self) -> MessageView {
        MessageView {
            text: self.text@,
            color: opt_view(self.color),
            attachments: match self.attachments {
                Some(v) => Some(v@.map_values(|a: Attachment| a@)),
                None => None,
            },
        }
    }
}

/// What the bot answers a request with: plain text, or a Slack message.
#[derive(Debug)]
pub enum Reply {
    Text(String),
    Message(Message),
}

pub enum ReplyView {
    Text(Seq<char>),
    Message(MessageView),
}

impl View for Reply {
    type V = ReplyView;

    open spec fn view(&self) -> ReplyView {
        match self {
            Reply::Text(s) => ReplyView::Text(s@),
            Reply::Message(m) => ReplyView::Message(m@),
        }
    }
}

pub open spec fn button_spec(name: Seq<char>, text: Seq<char>, value: Seq<char>) -> ButtonView {
    ButtonView { name, text, kind: "button"@, value }
}

fn button(name: &str, text: &str, value: &str) -> (r: Button)
    ensures
        r@ == button_spec(name@, text@, value@),
{
    Button {
        name: String::from_str(name),
        text: String::from_str(text),
        kind: String::from_str("button"),
        value: String::from_str(value),
    }
}

// ---------------------------------------------------------------------------
// Slash commands
// ---------------------------------------------------------------------------

pub open spec fn turns_text() -> Seq<char> {
    "It's someone's turn I guess?"@
}

/// The answer to `/turns`.
pub open spec fn turns_message() -> MessageView {
    MessageView { text: turns_text(), color: None, attachments: None }
}

/// Answers `/turns`.
pub fn turns_slash_response() -> (r: Message)
    ensures
        r@ == turns_message(),
{
    Message { text: String::from_str("It's someone's turn I guess?"), color: None, attachments: None }
}

pub open spec fn vote_fallback() -> Seq<char> {
    "You can't vote from this device, soz"@
}

/// The vote prompt for proposal `id` by `username`, whose text is `text`:
/// a message with Yes and No buttons.
pub open spec fn vote_message(id: i32, username: Seq<char>, text: Seq<char>) -> MessageView {
    MessageView {
        text: "Vote on prop "@ + decimal_of(id as int) + " by "@ + username,
        color: None,
        attachments: Some(
            seq![
                AttachmentView {
                    text: text,
                    fallback: Some(vote_fallback()),
                    callback_id: Some("vote"@),
                    attachment_type: Some("default"@),
                    actions: Some(
                        seq![
                            button_spec("yes"@, "Yes"@, "yes"@),
                            button_spec("no"@, "No"@, "no"@),
                        ],
                    ),
                },
            ],
        ),
    }
}

/// Builds the vote prompt for a proposal.
pub fn vote_prompt(id: i32, username: &str, text: &str) -> (r: Message)
    ensures
        r@ == vote_message(id, username@, text@),
{
    let mut title = String::from_str("Vote on prop ");
    let d = decimal_string(id as i64);
    title.append(d.as_str());
    title.append(" by ");
    title.append(username);
    let buttons = vec![button("yes", "Yes", "yes"), button("no", "No", "no")];
    let att = Attachment {
        text: String::from_str(text),
        fallback: Some(String::from_str("You can't vote from this device, soz")),
        callback_id: Some(String::from_str("vote")),
        attachment_type: Some(String::from_str("default")),
        actions: Some(buttons),
    };
    let atts = vec![att];
    let r = Message { text: title, color: None, attachments: Some(atts) };
    assert(r@.attachments->0[0].actions->0 =~= seq![
        button_spec("yes"@, "Yes"@, "yes"@),
        button_spec("no"@, "No"@, "no"@),
    ]);
    assert(r@.attachments->0 =~= vote_message(id, username@, text@).attachments->0);
    r
}

/// Puts a proposal to the vote: the prompt names its id and its creator's
/// user name and shows its text; it fails when the creator is no known
/// player.
pub fn vote_on(conn: &rusqlite::Connection, p: &Proposal) -> (r: Result<Message, String>)
    ensures
        match r {
            Ok(m) => exists|name: Seq<char>| m@ == vote_message(p.id, name, p.text@),
            Err(e) => e@ == no_such_user_msg(p.creator_id@),
        },
{
    match get_username(conn, p.creator_id.as_str()) {
        Ok(username) => Ok(vote_prompt(p.id, username.as_str(), p.text.as_str())),
        Err(e) => Err(e),
    }
}

pub open spec fn no_proposal_msg() -> Seq<char> {
    "Error: There is no current active proposal"@
}

/// Answers `/vote` given the proposal under vote that the database names:
/// the no-proposal error when it names none, else the vote prompt for it.
pub fn vote_on_current(conn: &rusqlite::Connection, current: &Option<Proposal>) -> (r: Result<
    Message,
    String,
>)
    ensures
        match current {
            None => r matches Err(e) && e@ == no_proposal_msg(),
            Some(p) => match r {
                Ok(m) => exists|name: Seq<char>| m@ == vote_message(p.id, name, p.text@),
                Err(e) => e@ == no_such_user_msg(p.creator_id@),
            },
        },
{
    match current {
        Some(p) => vote_on(conn, p),
        None => Err(String::from_str("Error: There is no current active proposal")),
    }
}

/// Answers `/vote` with the prompt for the proposal under vote: the proposal
/// attached to the latest rule, by its creator's user name.  Fails when there
/// is no such proposal or its creator is not a known player.
pub fn handle_vote_slash(conn: &rusqlite::Connection, user_id: &str) -> (r: Result<Message, String>)
    ensures
        match r {
            Ok(m) => exists|id: i32, name: Seq<char>, text: Seq<char>|
                m@ == vote_message(id, name, text),
            Err(e) => e@ == no_proposal_msg() || exists|creator: Seq<char>|
                e@ == no_such_user_msg(creator),
        },
{
    let current = get_current_proposal(conn);
    vote_on_current(conn, &current)
}

pub open spec fn no_rulemaker_text() -> Seq<char> {
    "Ooh, looks like the database isn't set up or something. Everybody freak out!"@
}

pub open spec fn not_your_turn_text() -> Seq<char> {
    "Error: it's not your turn to propose a rule"@
}

/// The message that accepts a proposal for submission: the interpreter's
/// answer, the proposal's text, and Submit / Don't Submit buttons.
pub open spec fn submit_message(answer: Seq<char>, text: Seq<char>) -> MessageView {
    MessageView {
        text: answer,
        color: None,
        attachments: Some(
            seq![
                AttachmentView {
                    text: text,
                    fallback: Some(vote_fallback()),
                    callback_id: Some("vote"@),
                    attachment_type: Some("default"@),
                    actions: Some(
                        seq![
                            button_spec("submit"@, "Submit"@, "yes"@),
                            button_spec("don't submit"@, "Don't Submit"@, "no"@),
                        ],
                    ),
                },
            ],
        ),
    }
}

/// The message that rejects a proposal: the interpreter's error in red, and
/// the proposal's text.
pub open spec fn rejection_message(error: Seq<char>, text: Seq<char>) -> MessageView {
    MessageView {
        text: error,
        color: Some("#FF3333"@),
        attachments: Some(
            seq![
                AttachmentView {
                    text: text,
                    fallback: None,
                    callback_id: None,
                    attachment_type: None,
                    actions: None,
                },
            ],
        ),
    }
}

/// The player whose turn the database says it is; when it names nobody, a
/// placeholder text that is no user id.
pub open spec fn turn_holder(rulemaker: Option<Seq<char>>) -> Seq<char> {
    match rulemaker {
        Some(r) => r,
        None => no_rulemaker_text(),
    }
}

/// The message that gives the interpreter's verdict on a proposal.
pub open spec fn verdict_message(answer: Result<Seq<char>, Seq<char>>, text: Seq<char>) -> MessageView {
    match answer {
        Ok(a) => submit_message(a, text),
        Err(e) => rejection_message(e, text),
    }
}

/// The reply to `/proposal` from `user_id` with `text`, given whose turn the
/// database says it is and the interpreter's answer.  The sender named as
/// the current rule maker gets the not-your-turn error; anybody else gets
/// the interpreter's verdict.
pub open spec fn proposal_reply(
    rulemaker: Option<Seq<char>>,
    user_id: Seq<char>,
    text: Seq<char>,
    answer: Result<Seq<char>, Seq<char>>,
) -> ReplyView {
    if turn_holder(rulemaker) == user_id {
        ReplyView::Text(not_your_turn_text())
    } else {
        ReplyView::Message(verdict_message(answer, text))
    }
}

/// Whether `user_id` may have a proposal interpreted, given the rule maker
/// that the database names: everybody but the named rule maker may.
pub fn turn_allows(rulemaker: &Option<String>, user_id: &str) -> (r: bool)
    ensures
        r == (turn_holder(opt_view(*rulemaker)) != user_id@),
{
    match rulemaker {
        Some(id) => !equals(id.as_str(), user_id),
        None => !equals(
            "Ooh, looks like the database isn't set up or something. Everybody freak out!",
            user_id,
        ),
    }
}

/// Builds the message that gives the interpreter's verdict on a proposal.
pub fn proposal_verdict(answer: &Result<String, String>, text: &str) -> (r: Message)
    ensures
        r@ == verdict_message(text_view(*answer), text@),
{
    match answer {
        Ok(msg) => submit_prompt(msg.as_str(), text),
        Err(msg) => rejection(msg.as_str(), text),
    }
}

/// Builds the message that accepts a proposal for submission.
pub fn submit_prompt(answer: &str, text: &str) -> (r: Message)
    ensures
        r@ == submit_message(answer@, text@),
{
    let buttons = vec![button("submit", "Submit", "yes"), button("don't submit", "Don't Submit", "no")];
    let att = Attachment {
        text: String::from_str(text),
        fallback: Some(String::from_str("You can't vote from this device, soz")),
        attachment_type: Some(String::from_str("default")),
        callback_id: Some(String::from_str("vote")),
        actions: Some(buttons),
    };
    let atts = vec![att];
    let r = Message { text: String::from_str(answer), color: None, attachments: Some(atts) };
    assert(r@.attachments->0[0].actions->0 =~= seq![
        button_spec("submit"@, "Submit"@, "yes"@),
        button_spec("don't submit"@, "Don't Submit"@, "no"@),
    ]);
    assert(r@.attachments->0 =~= submit_message(answer@, text@).attachments->0);
    r
}

/// Builds the message that rejects a proposal.
pub fn rejection(error: &str, text: &str) -> (r: Message)
    ensures
        r@ == rejection_message(error@, text@),
{
    let att = Attachment {
        text: String::from_str(text),
        fallback: None,
        callback_id: None,
        attachment_type: None,
        actions: None,
    };
    let atts = vec![att];
    let r = Message {
        text: String::from_str(error),
        color: Some(String::from_str("#FF3333")),
        attachments: Some(atts),
    };
    assert(r@.attachments->0 =~= rejection_message(error@, text@).attachments->0);
    r
}

/// Answers `/proposal` from `user_id` with the proposal `text`, given the
/// rule maker that the database names: that player gets the not-your-turn
/// error, anybody else the interpreter's verdict as a message.
pub fn proposal_reply_for(
    conn: &rusqlite::Connection,
    rulemaker: &Option<String>,
    user_id: &str,
    text: &str,
) -> (r: Reply)
    ensures
        exists|
            last: Option<i32>,
            target_is_rule: bool,
            target_mutability: Result<Mutability, Seq<char>>,
        |
            #![trigger command_outcome(
                parse_spec(tokens_of(text@), user_id@),
                last,
                target_is_rule,
                target_mutability,
            )]
            is_mutability_outcome(target_mutability) && r@ == proposal_reply(
                opt_view(*rulemaker),
                user_id@,
                text@,
                command_outcome(
                    parse_spec(tokens_of(text@), user_id@),
                    last,
                    target_is_rule,
                    target_mutability,
                ),
            ),
{
    let ghost rm_view = opt_view(*rulemaker);
    let ghost cmd = parse_spec(tokens_of(text@), user_id@);
    let ghost ok_tm: Result<Mutability, Seq<char>> = Ok(Mutability::Mutable);
    if !turn_allows(rulemaker, user_id) {
        let r = Reply::Text(String::from_str("Error: it's not your turn to propose a rule"));
        assert(r@ == proposal_reply(
            rm_view,
            user_id@,
            text@,
            command_outcome(cmd, None, true, ok_tm),
        ));
        r
    } else {
        let answer = interpret(conn, text, user_id);
        let ghost w = choose|
            last: Option<i32>,
            target_is_rule: bool,
            target_mutability: Result<Mutability, Seq<char>>,
        |
            #![trigger command_outcome(cmd, last, target_is_rule, target_mutability)]
            is_mutability_outcome(target_mutability) && text_view(answer) == command_outcome(
                cmd,
                last,
                target_is_rule,
                target_mutability,
            );
        let r = Reply::Message(proposal_verdict(&answer, text));
        assert(r@ == proposal_reply(rm_view, user_id@, text@, command_outcome(cmd, w.0, w.1, w.2)));
        r
    }
}

/// Answers a `/proposal` that carries no text, given the rule maker that the
/// database names: that player gets the not-your-turn error, and anybody else
/// no answer (the text would be needed).
pub fn proposal_reply_without_text(rulemaker: &Option<String>, user_id: &str) -> (r: Option<Reply>)
    ensures
        if turn_holder(opt_view(*rulemaker)) == user_id@ {
            r matches Some(Reply::Text(t)) && t@ == not_your_turn_text()
        } else {
            r is None
        },
{
    if turn_allows(rulemaker, user_id) {
        None
    } else {
        Some(Reply::Text(String::from_str("Error: it's not your turn to propose a rule")))
    }
}

/// Answers `/proposal` from `user_id` with the proposal `text`.
pub fn handle_proposal_slash(conn: &rusqlite::Connection, user_id: &str, text: &str) -> (r: Reply)
    ensures
        exists|
            rulemaker: Option<Seq<char>>,
            last: Option<i32>,
            target_is_rule: bool,
            target_mutability: Result<Mutability, Seq<char>>,
        |
            #![trigger proposal_reply(
                rulemaker,
                user_id@,
                text@,
                command_outcome(
                    parse_spec(tokens_of(text@), user_id@),
                    last,
                    target_is_rule,
                    target_mutability,
                ),
            )]
            is_mutability_outcome(target_mutability) && r@ == proposal_reply(
                rulemaker,
                user_id@,
                text@,
                command_outcome(
                    parse_spec(tokens_of(text@), user_id@),
                    last,
                    target_is_rule,
                    target_mutability,
                ),
            ),
{
    let rm = current_rulemaker(conn);
    proposal_reply_for(conn, &rm, user_id, text)
}

// ---------------------------------------------------------------------------
// Message interactions (button presses)
// ---------------------------------------------------------------------------

/// The send time, in whole seconds, of a message whose `message_ts` renders
/// as `ts`: the quotes are dropped and the part before the first `.` read as
/// an integer.
pub open spec fn message_seconds_spec(ts: Seq<char>) -> Option<i64> {
    decimal_i64(before_first(without_double_quotes(ts), '.'))
}

/// Reads the send time in whole seconds from a rendered `message_ts`.
pub fn message_seconds(ts: &str) -> (r: Option<i64>)
    ensures
        r == message_seconds_spec(ts@),
{
    let unquoted = remove_double_quotes(ts);
    let secs = prefix_before(unquoted.as_str(), '.');
    parse_i64(secs.as_str())
}

pub open spec fn great_vote_text() -> Seq<char> {
    "Great vote!"@
}

pub open spec fn too_late_text() -> Seq<char> {
    "Oh no, to late!"@
}

/// A vote counts when it comes within ten seconds of the message it answers.
pub open spec fn vote_reply_spec(sent: i64, now: i64) -> Seq<char> {
    if now - sent < 10 {
        great_vote_text()
    } else {
        too_late_text()
    }
}

/// Answers a vote button pressed at `now` on a message sent at `sent`
/// (both in seconds).
pub fn vote_reply(sent: i64, now: i64) -> (r: String)
    ensures
        r@ == vote_reply_spec(sent, now),
{
    if (now as i128) - (sent as i128) < 10 {
        String::from_str("Great vote!")
    } else {
        String::from_str("Oh no, to late!")
    }
}

/// Answers a vote button press on the message whose `message_ts` renders as
/// `message_ts`, by the current time.
pub fn handle_vote_interaction(message_ts: &str) -> (r: String)
    requires
        message_seconds_spec(message_ts@) is Some,
    ensures
        r@ == great_vote_text() || r@ == too_late_text(),
        exists|now: i64| r@ == vote_reply_spec(message_seconds_spec(message_ts@)->0, now),
{
    let sent = match message_seconds(message_ts) {
        Some(s) => s,
        None => 0,
    };
    let now = now_seconds();
    vote_reply(sent, now)
}

pub open spec fn proposal_interaction_text() -> Seq<char> {
    "This is just so it compiles :)"@
}

/// Answers a button press on a proposal message (not implemented yet).
pub fn handle_proposal_interaction() -> (r: String)
    ensures
        r@ == proposal_interaction_text(),
{
    String::from_str("This is just so it compiles :)")
}

/// The kinds of message interaction the bot tells apart, by callback id.
#[derive(Debug, Clone, Copy, PartialEq, Eq, Structural)]
pub enum InteractionKind {
    Vote,
    Proposal,
    Unknown,
}

/// The interaction that a rendered `callback_id` names, quotes ignored.
pub open spec fn interaction_kind_spec(callback_id: Seq<char>) -> InteractionKind {
    let c = without_double_quotes(callback_id);
    if c == "vote"@ {
        InteractionKind::Vote
    } else if c == "proposal"@ {
        InteractionKind::Proposal
    } else {
        InteractionKind::Unknown
    }
}

/// Tells which interaction a rendered `callback_id` names.
pub fn interaction_kind(callback_id: &str) -> (r: InteractionKind)
    ensures
        r == interaction_kind_spec(callback_id@),
{
    let c = remove_double_quotes(callback_id);
    if equals(c.as_str(), "vote") {
        InteractionKind::Vote
    } else if equals(c.as_str(), "proposal") {
        InteractionKind::Proposal
    } else {
        InteractionKind::Unknown
    }
}

pub open spec fn unknown_interaction_text() -> Seq<char> {
    "I don't know how to handle this interaction yet, soz!"@
}

/// Answers a message interaction with the given rendered `callback_id` and
/// `message_ts`.
pub fn handle_interaction(callback_id: &str, message_ts: &str) -> (r: String)
    requires
        interaction_kind_spec(callback_id@) == InteractionKind::Vote ==> message_seconds_spec(
            message_ts@,
        ) is Some,
    ensures
        match interaction_kind_spec(callback_id@) {
            InteractionKind::Vote => exists|now: i64|
                r@ == vote_reply_spec(message_seconds_spec(message_ts@)->0, now),
            InteractionKind::Proposal => r@ == proposal_interaction_text(),
            InteractionKind::Unknown => r@ == unknown_interaction_text(),
        },
{
    match interaction_kind(callback_id) {
        InteractionKind::Vote => handle_vote_interaction(message_ts),
        InteractionKind::Proposal => handle_proposal_interaction(),
        InteractionKind::Unknown => String::from_str(
            "I don't know how to handle this interaction yet, soz!",
        ),
    }
}

/// Whether a message interaction can be answered: its payload is JSON and,
/// for a vote, its `message_ts` reads as a time in seconds.
pub open spec fn interaction_answerable(callback_id: Option<Seq<char>>, message_ts: Option<
    Seq<char>,
>) -> bool {
    &&& callback_id is Some
    &&& message_ts is Some
    &&& interaction_kind_spec(callback_id->0) == InteractionKind::Vote ==> message_seconds_spec(
        message_ts->0,
    ) is Some
}

/// The answers a message interaction may get, given its rendered
/// `callback_id` and `message_ts`.
pub open spec fn is_interaction_answer(callback_id: Seq<char>, message_ts: Seq<char>, r: Seq<char>) -> bool {
    match interaction_kind_spec(callback_id) {
        InteractionKind::Vote => exists|now: i64|
            r == vote_reply_spec(message_seconds_spec(message_ts)->0, now),
        InteractionKind::Proposal => r == proposal_interaction_text(),
        InteractionKind::Unknown => r == unknown_interaction_text(),
    }
}

/// Answers a message interaction given the rendered `callback_id` and
/// `message_ts` of its payload (`None` for a payload that is not JSON);
/// `None` when it cannot be answered.
pub fn answer_interaction_fields(callback_id: Option<String>, message_ts: Option<String>) -> (r:
    Option<String>)
    ensures
        (r is Some) == interaction_answerable(opt_view(callback_id), opt_view(message_ts)),
        r matches Some(a) ==> is_interaction_answer(
            opt_view(callback_id)->0,
            opt_view(message_ts)->0,
            a@,
        ),
{
    match (callback_id, message_ts) {
        (Some(c), Some(t)) => {
            if interaction_kind(c.as_str()) == InteractionKind::Vote && message_seconds(
                t.as_str(),
            ).is_none() {
                None
            } else {
                Some(handle_interaction(c.as_str(), t.as_str()))
            }
        },
        _ => None,
    }
}

/// Answers a message interaction from its JSON payload; `None` when the
/// payload is not JSON, or is a vote whose `message_ts` is no time in
/// seconds.
pub fn answer_interaction(payload: &str) -> (r: Option<String>)
    ensures
        (r is Some) == interaction_answerable(
            json_member_text(payload@, "callback_id"@),
            json_member_text(payload@, "message_ts"@),
        ),
        r matches Some(a) ==> is_interaction_answer(
            json_member_text(payload@, "callback_id"@)->0,
            json_member_text(payload@, "message_ts"@)->0,
            a@,
        ),
{
    let callback_id = json_member(payload, "callback_id");
    let message_ts = json_member(payload, "message_ts");
    answer_interaction_fields(callback_id, message_ts)
}

} // verus!
