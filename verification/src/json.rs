//! A parsed JSON document, modelled as deeply as the message-extraction
//! heuristic reads it.
//!
//! The heuristic only ever distinguishes strings and objects (it looks up a
//! handful of fields by name and asks whether their values are strings), so a
//! document is carried as [`JsonValue`]: strings and objects keep their
//! contents, every other kind of node collapses to [`JsonValue::Other`].
//! Parsing itself is the outside capability; it stands behind
//! [`parse_json`], and its outcome is named by [`json_doc_of`].

use vstd::prelude::*;

verus! {

/// A JSON node, as deep as the extraction heuristic reads it.
pub enum JsonValue {
    /// A JSON string.
    Text(String),
    /// A JSON object: its fields in order, each a name paired with a value.
    Object(Vec<(String, JsonValue)>),
    /// Any other kind of node (null, boolean, number, array).
    Other,
}

/// The mathematical model of a [`JsonValue`].
pub enum JsonNode {
    Text(Seq<char>),
    Object(Seq<(Seq<char>, JsonNode)>),
    Other,
}

/// The model of a [`JsonValue`].
pub open spec fn node_view(v: JsonValue) -> JsonNode
    decreases v,
{
    match v {
        JsonValue::Text(s) => JsonNode::Text(s@),
        JsonValue::Object(fields) => JsonNode::Object(fields_view(fields@)),
        JsonValue::Other => JsonNode::Other,
    }
}

/// The model of an object's field list.
pub open spec fn fields_view(fields: Seq<(String, JsonValue)>) -> Seq<(Seq<char>, JsonNode)>
    decreases fields,
{
    if fields.len() == 0 {
        Seq::empty()
    } else {
        seq![(fields[0].0@, node_view(fields[0].1))] + fields_view(fields.drop_first())
    }
}

/// `fields_view` maps the field list element by element.
pub proof fn lemma_fields_view(fields: Seq<(String, JsonValue)>)
    ensures
        fields_view(fields).len() == fields.len(),
        forall|i: int|
            0 <= i < fields.len() ==> #[trigger] fields_view(fields)[i] == (
            fields[i].0@,
            node_view(fields[i].1),
            ),
    decreases fields,
{
    if fields.len() > 0 {
        lemma_fields_view(fields.drop_first());
        assert forall|i: int| 0 <= i < fields.len() implies #[trigger] fields_view(fields)[i]
            == (fields[i].0@, node_view(fields[i].1)) by {
            if i > 0 {
                assert(fields.drop_first()[i - 1] == fields[i]);
            }
        }
    }
}

/// The value of the first field named `key`, if any.
pub open spec fn field_lookup(fields: Seq<(Seq<char>, JsonNode)>, key: Seq<char>) -> Option<
    JsonNode,
>
    decreases fields.len(),
{
    if fields.len() == 0 {
        Option::None
    } else if fields[0].0 == key {
        Option::Some(fields[0].1)
    } else {
        field_lookup(fields.drop_first(), key)
    }
}

/// The value of the first field named `key`, in the object `fields`.
pub fn lookup_field<'a>(fields: &'a Vec<(String, JsonValue)>, key: &String) -> (r: Option<
    &'a JsonValue,
>)
    ensures
        match r {
            Option::Some(v) => field_lookup(fields_view(fields@), key@) == Option::Some(
                node_view(*v),
            ),
            Option::None => field_lookup(fields_view(fields@), key@) is None,
        },
{
    proof {
        lemma_fields_view(fields@);
        assert(fields_view(fields@).skip(0) =~= fields_view(fields@));
    }
    let ghost fv = fields_view(fields@);
    let n = fields.len();
    let mut i: usize = 0;
    while i < n
        invariant
            n == fields.len(),
            i <= n,
            fv == fields_view(fields@),
            fv.len() == n,
            forall|j: int|
                0 <= j < n ==> #[trigger] fv[j] == (fields@[j].0@, node_view(fields@[j].1)),
            field_lookup(fv, key@) == field_lookup(fv.skip(i as int), key@),
        decreases n - i,
    {
        let p = &fields[i];
        if p.0 == *key {
            proof {
                assert(fv.skip(i as int)[0] == fv[i as int]);
                assert(field_lookup(fv.skip(i as int), key@) == Option::Some(
                    node_view(fields@[i as int].1),
                ));
            }
            return Option::Some(&p.1);
        }
        proof {
            assert(fv.skip(i as int)[0] == fv[i as int]);
            assert(fv.skip(i as int).drop_first() =~= fv.skip(i + 1));
        }
        i = i + 1;
    }
    proof {
        assert(fv.skip(n as int) =~= Seq::empty());
    }
    Option::None
}

/// The string content of `v`, if `v` is a string node.
pub fn as_text(v: &JsonValue) -> (r: Option<&String>)
    ensures
        match r {
            Option::Some(s) => node_view(*v) == JsonNode::Text(s@),
            Option::None => !(node_view(*v) is Text),
        },
{
    match v {
        JsonValue::Text(s) => Option::Some(s),
        _ => Option::None,
    }
}

#[verifier::external_type_specification]
#[verifier::external_body]
pub struct ExJsonValue(serde_json::Value);

/// What parsing a given text as JSON yields: the document's model, or nothing
/// where the text is not valid JSON. The outcome depends on the text alone.
pub uninterp spec fn json_doc_of(text: Seq<char>) -> Option<JsonNode>;

/// Relies on `serde_json::from_str::<serde_json::Value>`: parses the text as
/// one JSON document, or fails; the outcome is a function of the text alone.
#[verifier::external_body]
pub(crate) fn parse_json(text: &str) -> (r: Option<JsonValue>)
    ensures
        match r {
            Option::Some(v) => json_doc_of(text@) == Option::Some(node_view(v)),
            Option::None => json_doc_of(text@) is None,
        },
{
    serde_json::from_str::<serde_json::Value>(text).ok().map(json_of_value)
}

/// Relies on `serde_json::Value`: carries each variant over one for one;
/// strings and objects keep their contents (an object's fields come out of
/// serde_json's map with unique names), every other variant becomes `Other`,
/// which is all the extraction heuristic distinguishes.
#[verifier::external_body]
fn json_of_value(v: serde_json::Value) -> JsonValue {
    match v {
        serde_json::Value::String(s) => JsonValue::Text(s),
        serde_json::Value::Object(m) => JsonValue::Object(
            m.into_iter().map(|(k, x)| (k, json_of_value(x))).collect(),
        ),
        _ => JsonValue::Other,
    }
}

} // verus!
