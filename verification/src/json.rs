//! Reading members of the JSON documents the bot receives (its credentials
//! file, Slack's interaction payloads and the replies of Slack's Web API),
//! and writing strings as JSON string literals.
use vstd::prelude::*;

use crate::slack::opt_view;
use crate::text::{remove_double_quotes, without_double_quotes};

verus! {

broadcast use vstd::string::group_string_axioms;

/// The JSON text of member `key` of the JSON document `json` (`null` when
/// the document has no such member), or nothing when `json` is not JSON.
pub uninterp spec fn json_member_text(json: Seq<char>, key: Seq<char>) -> Option<Seq<char>>;

/// Parses a JSON document and renders one of its members as JSON text.
///
/// Calls `serde_json::from_str` into a `serde_json::Value`, indexes it by
/// `key` (which gives `null` for a missing member or a non-object document)
/// and renders that value with its `Display` (compact JSON).  Both steps
/// depend on their input alone, so the result is named
/// `json_member_text(json, key)`; the JSON grammar and rendering are not
/// written out.  It is `None` exactly when `from_str` fails.
#[verifier::external_body]
pub(crate) fn json_member(json: &str, key: &str) -> (r: Option<String>)
    ensures
        opt_view(r) == json_member_text(json@, key@),
{
    match serde_json::from_str::<serde_json::Value>(json) {
        Ok(v) => Some(v[key].to_string()),
        Err(_) => None,
    }
}

/// A lower-case hexadecimal digit.
pub open spec fn hex_digit(n: int) -> char {
    seq!['0', '1', '2', '3', '4', '5', '6', '7', '8', '9', 'a', 'b', 'c', 'd', 'e', 'f'][n]
}

/// How a JSON string literal writes one character: the quotation mark, the
/// backslash and the control characters below U+0020 escaped (the five with
/// a short escape by it, the others as `\u00` and two hexadecimal digits),
/// every other character as it is.
pub open spec fn json_escape_char(c: char) -> Seq<char> {
    if c == '"' {
        seq!['\\', '"']
    } else if c == '\\' {
        seq!['\\', '\\']
    } else if c == '\u{8}' {
        seq!['\\', 'b']
    } else if c == '\t' {
        seq!['\\', 't']
    } else if c == '\n' {
        seq!['\\', 'n']
    } else if c == '\u{c}' {
        seq!['\\', 'f']
    } else if c == '\r' {
        seq!['\\', 'r']
    } else if (c as u32) < 0x20 {
        seq!['\\', 'u', '0', '0', hex_digit((c as int) / 16), hex_digit((c as int) % 16)]
    } else {
        seq![c]
    }
}

/// The characters of a string, each written as a JSON string literal writes it.
pub open spec fn json_escaped(s: Seq<char>) -> Seq<char>
    decreases s.len(),
{
    if s.len() == 0 {
        Seq::empty()
    } else {
        json_escaped(s.drop_last()) + json_escape_char(s.last())
    }
}

/// The JSON string literal that stands for `s`.
pub open spec fn json_string_literal(s: Seq<char>) -> Seq<char> {
    "\""@ + json_escaped(s) + "\""@
}

/// Writes a string as a JSON string literal.
///
/// Calls `serde_json::to_string` on the string, which writes a quotation
/// mark, each character as `json_escape_char` says (serde_json's escape
/// table and its `\u00XX` form with lower-case digits), and a closing
/// quotation mark.  Writing into memory cannot fail, so the error arm is
/// never taken.
#[verifier::external_body]
pub(crate) fn json_quote(s: &str) -> (r: String)
    ensures
        r@ == json_string_literal(s@),
{
    match serde_json::to_string(s) {
        Ok(t) => t,
        Err(_) => String::new(),
    }
}

/// The token the bot authenticates with: the `oauth_token` member of the
/// credentials file, quotes removed.
pub open spec fn oauth_token_spec(credentials: Seq<char>) -> Option<Seq<char>> {
    match json_member_text(credentials, "oauth_token"@) {
        Some(t) => Some(without_double_quotes(t)),
        None => None,
    }
}

/// Reads the OAuth token out of the credentials file's text; `None` when the
/// text is not JSON.
pub fn oauth_token(credentials: &str) -> (r: Option<String>)
    ensures
        opt_view(r) == oauth_token_spec(credentials@),
{
    match json_member(credentials, "oauth_token") {
        Some(t) => Some(remove_double_quotes(t.as_str())),
        None => None,
    }
}

/// The `ok` member of a Web API reply, as JSON text (`true` or `false` for
/// Slack's replies); `None` when the reply is not JSON.
pub fn web_reply_status(response: &str) -> (r: Option<String>)
    ensures
        opt_view(r) == json_member_text(response@, "ok"@),
{
    json_member(response, "ok")
}

} // verus!
