//! The JSON text that answers a request: a reply's text as it is, or a
//! Slack message written as a JSON object.  Objects are written compactly,
//! their members in the order of their keys, and a member whose value is
//! `None` is left out.
use vstd::prelude::*;

use crate::json::{json_quote, json_string_literal};
use crate::slack::{
    opt_view, Attachment, AttachmentView, Button, ButtonView, Message, MessageView, Reply,
    ReplyView,
};

verus! {

broadcast use vstd::string::group_string_axioms;

/// The items, separated by commas.
pub open spec fn comma_join(items: Seq<Seq<char>>) -> Seq<char>
    decreases items.len(),
{
    if items.len() == 0 {
        Seq::empty()
    } else if items.len() == 1 {
        items[0]
    } else {
        comma_join(items.drop_last()) + ","@ + items.last()
    }
}

/// A JSON array of the given JSON values.
pub open spec fn json_array(items: Seq<Seq<char>>) -> Seq<char> {
    "["@ + comma_join(items) + "]"@
}

/// A string value as JSON, if there is one.
pub open spec fn quoted(value: Option<Seq<char>>) -> Option<Seq<char>> {
    match value {
        Some(s) => Some(json_string_literal(s)),
        None => None,
    }
}

/// The member `"key":value` and the comma after it, or nothing when there
/// is no value.
pub open spec fn optional_member(key: Seq<char>, value: Option<Seq<char>>) -> Seq<char> {
    match value {
        Some(v) => "\""@ + key + "\":"@ + v + ","@,
        None => Seq::empty(),
    }
}

/// A button as JSON: its name, text, type and value.
pub open spec fn button_json(b: ButtonView) -> Seq<char> {
    "{\"name\":"@ + json_string_literal(b.name) + ",\"text\":"@ + json_string_literal(b.text)
        + ",\"type\":"@ + json_string_literal(b.kind) + ",\"value\":"@ + json_string_literal(b.value)
        + "}"@
}

/// A list of buttons as a JSON array.
pub open spec fn buttons_json(bs: Seq<ButtonView>) -> Seq<char> {
    json_array(bs.map_values(|b: ButtonView| button_json(b)))
}

/// An attachment as JSON: its actions, type, callback id, fallback and text.
pub open spec fn attachment_json(a: AttachmentView) -> Seq<char> {
    "{"@ + optional_member(
        "actions"@,
        match a.actions {
            Some(bs) => Some(buttons_json(bs)),
            None => None,
        },
    ) + optional_member("attachment_type"@, quoted(a.attachment_type)) + optional_member(
        "callback_id"@,
        quoted(a.callback_id),
    ) + optional_member("fallback"@, quoted(a.fallback)) + "\"text\":"@ + json_string_literal(a.text)
        + "}"@
}

/// A list of attachments as a JSON array.
pub open spec fn attachments_json(atts: Seq<AttachmentView>) -> Seq<char> {
    json_array(atts.map_values(|a: AttachmentView| attachment_json(a)))
}

/// A message as JSON: its attachments, color and text.
pub open spec fn message_json(m: MessageView) -> Seq<char> {
    "{"@ + optional_member(
        "attachments"@,
        match m.attachments {
            Some(atts) => Some(attachments_json(atts)),
            None => None,
        },
    ) + optional_member("color"@, quoted(m.color)) + "\"text\":"@ + json_string_literal(m.text)
        + "}"@
}

/// The text that answers a request with a reply.
pub open spec fn reply_json(r: ReplyView) -> Seq<char> {
    match r {
        ReplyView::Text(t) => t,
        ReplyView::Message(m) => message_json(m),
    }
}

/// Appends `"key":"value",` when there is a value.
fn append_optional_string(out: &mut String, key: &str, value: &Option<String>)
    ensures
        final(out)@ == old(out)@ + optional_member(key@, quoted(opt_view(*value))),
{
    match value {
        Some(v) => {
            let q = json_quote(v.as_str());
            out.append("\"");
            out.append(key);
            out.append("\":");
            out.append(q.as_str());
            out.append(",");
        },
        None => {
            assert(old(out)@ + Seq::<char>::empty() =~= old(out)@);
        },
    }
}

/// Writes a button as JSON.
pub fn render_button(b: &Button) -> (r: String)
    ensures
        r@ == button_json(b@),
{
    let name = json_quote(b.name.as_str());
    let text = json_quote(b.text.as_str());
    let kind = json_quote(b.kind.as_str());
    let value = json_quote(b.value.as_str());
    let mut out = String::from_str("{\"name\":");
    out.append(name.as_str());
    out.append(",\"text\":");
    out.append(text.as_str());
    out.append(",\"type\":");
    out.append(kind.as_str());
    out.append(",\"value\":");
    out.append(value.as_str());
    out.append("}");
    out
}

/// Writes a list of buttons as a JSON array.
pub fn render_buttons(bs: &Vec<Button>) -> (r: String)
    ensures
        r@ == buttons_json(bs@.map_values(|b: Button| b@)),
{
    let ghost items = bs@.map_values(|b: Button| b@).map_values(|b: ButtonView| button_json(b));
    let mut out = String::from_str("[");
    let mut i: usize = 0;
    while i < bs.len()
        invariant
            i <= bs.len(),
            items == bs@.map_values(|b: Button| b@).map_values(|b: ButtonView| button_json(b)),
            out@ == "["@ + comma_join(items.take(i as int)),
        decreases bs.len() - i,
    {
        let item = render_button(&bs[i]);
        assert(items[i as int] == item@);
        let ghost next = items.take(i + 1);
        assert(next.drop_last() =~= items.take(i as int));
        if i > 0 {
            out.append(",");
        }
        out.append(item.as_str());
        assert(out@ =~= "["@ + comma_join(next));
        i = i + 1;
    }
    assert(items.take(bs.len() as int) =~= items);
    out.append("]");
    out
}

/// Writes an attachment as JSON.
pub fn render_attachment(a: &Attachment) -> (r: String)
    ensures
        r@ == attachment_json(a@),
{
    let mut out = String::from_str("{");
    match &a.actions {
        Some(bs) => {
            let arr = render_buttons(bs);
            assert(bs@.map_values(|b: Button| b@) =~= a@.actions->0);
            out.append("\"");
            out.append("actions");
            out.append("\":");
            out.append(arr.as_str());
            out.append(",");
        },
        None => {},
    }
    let ghost head = out@;
    assert(head =~= "{"@ + optional_member(
        "actions"@,
        match a@.actions {
            Some(bs) => Some(buttons_json(bs)),
            None => None,
        },
    ));
    append_optional_string(&mut out, "attachment_type", &a.attachment_type);
    append_optional_string(&mut out, "callback_id", &a.callback_id);
    append_optional_string(&mut out, "fallback", &a.fallback);
    let text = json_quote(a.text.as_str());
    out.append("\"text\":");
    out.append(text.as_str());
    out.append("}");
    assert(out@ =~= attachment_json(a@));
    out
}

/// Writes a list of attachments as a JSON array.
pub fn render_attachments(atts: &Vec<Attachment>) -> (r: String)
    ensures
        r@ == attachments_json(atts@.map_values(|a: Attachment| a@)),
{
    let ghost items = atts@.map_values(|a: Attachment| a@).map_values(
        |a: AttachmentView| attachment_json(a),
    );
    let mut out = String::from_str("[");
    let mut i: usize = 0;
    while i < atts.len()
        invariant
            i <= atts.len(),
            items == atts@.map_values(|a: Attachment| a@).map_values(
                |a: AttachmentView| attachment_json(a),
            ),
            out@ == "["@ + comma_join(items.take(i as int)),
        decreases atts.len() - i,
    {
        let item = render_attachment(&atts[i]);
        assert(items[i as int] == item@);
        let ghost next = items.take(i + 1);
        assert(next.drop_last() =~= items.take(i as int));
        if i > 0 {
            out.append(",");
        }
        out.append(item.as_str());
        assert(out@ =~= "["@ + comma_join(next));
        i = i + 1;
    }
    assert(items.take(atts.len() as int) =~= items);
    out.append("]");
    out
}

/// Writes a Slack message as JSON.
pub fn render_message(m: &Message) -> (r: String)
    ensures
        r@ == message_json(m@),
{
    let mut out = String::from_str("{");
    match &m.attachments {
        Some(atts) => {
            let arr = render_attachments(atts);
            assert(atts@.map_values(|a: Attachment| a@) =~= m@.attachments->0);
            out.append("\"");
            out.append("attachments");
            out.append("\":");
            out.append(arr.as_str());
            out.append(",");
        },
        None => {},
    }
    let ghost head = out@;
    assert(head =~= "{"@ + optional_member(
        "attachments"@,
        match m@.attachments {
            Some(atts) => Some(attachments_json(atts)),
            None => None,
        },
    ));
    append_optional_string(&mut out, "color", &m.color);
    let text = json_quote(m.text.as_str());
    out.append("\"text\":");
    out.append(text.as_str());
    out.append("}");
    assert(out@ =~= message_json(m@));
    out
}

/// The text that answers a request: a plain reply as it is, a message as
/// JSON.
pub fn render_reply(r: &Reply) -> (s: String)
    ensures
        s@ == reply_json(r@),
{
    match r {
        Reply::Text(t) => t.clone(),
        Reply::Message(m) => render_message(m),
    }
}

} // verus!
