//! The message-extraction heuristic.
//!
//! Given the optional response body, the HTTP status text and the status
//! code, derive a single human-readable message, in this priority order:
//! a message found inside a parsed JSON body; the raw body text, where the
//! body is short plain text; and the fallback `"<status text> (<code>)"`.

use vstd::prelude::*;

use crate::digits::{dec_str, u16_string};
use crate::json::{
    field_lookup, fields_view, json_doc_of, lookup_field, node_view, as_text, parse_json,
    JsonNode, JsonValue,
};

verus! {

/// The value of the first field named `key`, where that value is a string.
pub open spec fn text_field(fields: Seq<(Seq<char>, JsonNode)>, key: Seq<char>) -> Option<
    Seq<char>,
> {
    match field_lookup(fields, key) {
        Option::Some(JsonNode::Text(s)) => Option::Some(s),
        _ => Option::None,
    }
}

/// The message taken from the `error` field: the `message` string of an
/// `error` object, or the `error` string itself.
pub open spec fn error_field_message(fields: Seq<(Seq<char>, JsonNode)>) -> Option<Seq<char>> {
    match field_lookup(fields, "error"@) {
        Option::Some(JsonNode::Object(efields)) => text_field(efields, "message"@),
        Option::Some(JsonNode::Text(s)) => Option::Some(s),
        _ => Option::None,
    }
}

/// The message a parsed document yields, by priority: `error.message`, a
/// string-valued `error`, a top-level `message`, a top-level `detail`.
pub open spec fn message_of(doc: JsonNode) -> Option<Seq<char>> {
    match doc {
        JsonNode::Object(fields) => match error_field_message(fields) {
            Option::Some(m) => Option::Some(m),
            Option::None => match text_field(fields, "message"@) {
                Option::Some(m) => Option::Some(m),
                Option::None => text_field(fields, "detail"@),
            },
        },
        _ => Option::None,
    }
}

/// The fallback message: `"<status text> (<code>)"`.
pub open spec fn fallback_of(status_text: Seq<char>, code: u16) -> Seq<char> {
    status_text + " ("@ + dec_str(code as nat) + ")"@
}

/// What the extraction heuristic yields for a body, a status text and a
/// status code. A message found in a parsed JSON body comes first; a body
/// that does not parse is returned verbatim where it is short plain text
/// (fewer than 200 characters and not opening a JSON object); everything
/// else falls back to `"<status text> (<code>)"`.
pub open spec fn extract_spec(body: Option<Seq<char>>, status_text: Seq<char>, code: u16) -> Seq<
    char,
> {
    match body {
        Option::None => fallback_of(status_text, code),
        Option::Some(b) => {
            if b.len() == 0 {
                fallback_of(status_text, code)
            } else {
                match json_doc_of(b) {
                    Option::Some(doc) => match message_of(doc) {
                        Option::Some(m) => m,
                        Option::None => fallback_of(status_text, code),
                    },
                    Option::None => {
                        if b.len() < 200 && b[0] != '{' {
                            b
                        } else {
                            fallback_of(status_text, code)
                        }
                    },
                }
            }
        },
    }
}

/// The model of an optional body.
pub open spec fn opt_text_view(body: Option<String>) -> Option<Seq<char>> {
    match body {
        Option::Some(b) => Option::Some(b@),
        Option::None => Option::None,
    }
}

/// Wherever the parsed body has an `error` field that is an object whose
/// `message` field is a string, extraction finds exactly that string — it
/// wins over any other field, in particular over a top-level `message`.
pub proof fn lemma_error_message_wins(
    fields: Seq<(Seq<char>, JsonNode)>,
    efields: Seq<(Seq<char>, JsonNode)>,
    x: Seq<char>,
)
    requires
        field_lookup(fields, "error"@) == Option::Some(JsonNode::Object(efields)),
        field_lookup(efields, "message"@) == Option::Some(JsonNode::Text(x)),
    ensures
        message_of(JsonNode::Object(fields)) == Option::Some(x),
{
}

/// Wherever the parsed body has an `error` field that is itself a string,
/// extraction finds exactly that string.
pub proof fn lemma_error_text(fields: Seq<(Seq<char>, JsonNode)>, x: Seq<char>)
    requires
        field_lookup(fields, "error"@) == Option::Some(JsonNode::Text(x)),
    ensures
        message_of(JsonNode::Object(fields)) == Option::Some(x),
{
}

/// Wherever the parsed body has no `error` field but a string-valued
/// top-level `message` field, extraction finds exactly that string.
pub proof fn lemma_top_message(fields: Seq<(Seq<char>, JsonNode)>, x: Seq<char>)
    requires
        field_lookup(fields, "error"@) is None,
        field_lookup(fields, "message"@) == Option::Some(JsonNode::Text(x)),
    ensures
        message_of(JsonNode::Object(fields)) == Option::Some(x),
{
}

/// Wherever the parsed body has neither an `error` nor a `message` field but
/// a string-valued top-level `detail` field, extraction finds exactly that
/// string.
pub proof fn lemma_top_detail(fields: Seq<(Seq<char>, JsonNode)>, x: Seq<char>)
    requires
        field_lookup(fields, "error"@) is None,
        field_lookup(fields, "message"@) is None,
        field_lookup(fields, "detail"@) == Option::Some(JsonNode::Text(x)),
    ensures
        message_of(JsonNode::Object(fields)) == Option::Some(x),
{
}

/// For a non-empty body that parses to a document in which the heuristic
/// finds a message, extraction returns exactly that message.
pub proof fn lemma_parsed_message(b: Seq<char>, status_text: Seq<char>, code: u16, m: Seq<char>)
    requires
        b.len() != 0,
        json_doc_of(b) matches Option::Some(doc) && message_of(doc) == Option::Some(m),
    ensures
        extract_spec(Option::Some(b), status_text, code) == m,
{
}

/// For a body that does not parse as JSON, is shorter than 200 characters
/// and does not open with `{`, extraction returns the body verbatim.
pub proof fn lemma_plain_body(b: Seq<char>, status_text: Seq<char>, code: u16)
    requires
        json_doc_of(b) is None,
        0 < b.len() < 200,
        b[0] != '{',
    ensures
        extract_spec(Option::Some(b), status_text, code) == b,
{
}

/// For a body that does not parse as JSON and is 200 characters or longer,
/// or opens with `{`, extraction falls back to `"<status text> (<code>)"`.
pub proof fn lemma_fallback_unparsed(b: Seq<char>, status_text: Seq<char>, code: u16)
    requires
        json_doc_of(b) is None,
        b.len() > 0,
        b.len() >= 200 || b[0] == '{',
    ensures
        extract_spec(Option::Some(b), status_text, code) == fallback_of(status_text, code),
{
}

/// For an absent or empty body, extraction falls back to
/// `"<status text> (<code>)"`.
pub proof fn lemma_fallback_empty_or_absent(
    body: Option<Seq<char>>,
    status_text: Seq<char>,
    code: u16,
)
    requires
        body is None || body == Option::Some(Seq::<char>::empty()),
    ensures
        extract_spec(body, status_text, code) == fallback_of(status_text, code),
{
}

/// For a non-empty body that parses to a document in which the heuristic
/// finds no message, extraction falls back to `"<status text> (<code>)"`.
pub proof fn lemma_fallback_parsed_without_message(
    b: Seq<char>,
    status_text: Seq<char>,
    code: u16,
)
    requires
        b.len() != 0,
        json_doc_of(b) matches Option::Some(doc) && message_of(doc) is None,
    ensures
        extract_spec(Option::Some(b), status_text, code) == fallback_of(status_text, code),
{
}

/// The fallback message is never empty, whatever the status text.
pub proof fn lemma_fallback_nonempty(status_text: Seq<char>, code: u16)
    ensures
        fallback_of(status_text, code).len() > 0,
{
    reveal_strlit(" (");
    reveal_strlit(")");
}

/// The derived message is empty only where the parsed body itself supplies
/// an empty string as the found message.
pub proof fn lemma_message_nonempty(body: Option<Seq<char>>, status_text: Seq<char>, code: u16)
    requires
        match body {
            Option::Some(b) => !(json_doc_of(b) matches Option::Some(doc) && message_of(doc)
                == Option::Some(Seq::<char>::empty())),
            Option::None => true,
        },
    ensures
        extract_spec(body, status_text, code).len() > 0,
{
    lemma_fallback_nonempty(status_text, code);
    if let Option::Some(b) = body {
        if b.len() != 0 {
            if let Option::Some(doc) = json_doc_of(b) {
                if let Option::Some(m) = message_of(doc) {
                    if m.len() == 0 {
                        assert(m =~= Seq::<char>::empty());
                    }
                }
            }
        }
    }
}

/// Builds the fallback message `"<status text> (<code>)"`.
fn fallback(status_text: &str, status_code: u16) -> (r: String)
    ensures
        r@ == fallback_of(status_text@, status_code),
{
    let mut r = String::from_str(status_text);
    r.append(" (");
    let num = u16_string(status_code);
    r.append(num.as_str());
    r.append(")");
    proof {
        assert(r@ =~= fallback_of(status_text@, status_code));
    }
    r
}

/// Searches a parsed document for a message, by the heuristic's priority.
fn find_message(doc: &JsonValue) -> (r: Option<String>)
    ensures
        match r {
            Option::Some(m) => message_of(node_view(*doc)) == Option::Some(m@),
            Option::None => message_of(node_view(*doc)) is None,
        },
{
    match doc {
        JsonValue::Object(fields) => {
            let ghost fv = fields_view(fields@);
            let error_key = String::from_str("error");
            let message_key = String::from_str("message");
            let detail_key = String::from_str("detail");
            match lookup_field(fields, &error_key) {
                Option::Some(ev) => {
                    match ev {
                        JsonValue::Object(efields) => {
                            if let Option::Some(mv) = lookup_field(efields, &message_key) {
                                if let Option::Some(s) = as_text(mv) {
                                    return Option::Some(s.clone());
                                }
                            }
                        },
                        JsonValue::Text(s) => {
                            return Option::Some(s.clone());
                        },
                        JsonValue::Other => {},
                    }
                },
                Option::None => {},
            }
            assert(error_field_message(fv) is None);
            if let Option::Some(mv) = lookup_field(fields, &message_key) {
                if let Option::Some(s) = as_text(mv) {
                    return Option::Some(s.clone());
                }
            }
            assert(text_field(fv, "message"@) is None);
            if let Option::Some(dv) = lookup_field(fields, &detail_key) {
                if let Option::Some(s) = as_text(dv) {
                    return Option::Some(s.clone());
                }
            }
            assert(text_field(fv, "detail"@) is None);
            Option::None
        },
        _ => Option::None,
    }
}

/// Derives the human-readable message for one failed exchange, as
/// [`extract_spec`] describes.
pub fn extract_message(body: &Option<String>, status_text: &str, status_code: u16) -> (r: String)
    ensures
        r@ == extract_spec(opt_text_view(*body), status_text@, status_code),
{
    match body {
        Option::None => fallback(status_text, status_code),
        Option::Some(b) => {
            if b.as_str().is_empty() {
                return fallback(status_text, status_code);
            }
            match parse_json(b.as_str()) {
                Option::Some(doc) => match find_message(&doc) {
                    Option::Some(m) => m,
                    Option::None => fallback(status_text, status_code),
                },
                Option::None => {
                    let n = b.as_str().unicode_len();
                    if n < 200 && b.as_str().get_char(0) != '{' {
                        b.clone()
                    } else {
                        fallback(status_text, status_code)
                    }
                },
            }
        },
    }
}

} // verus!
