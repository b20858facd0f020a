//! Reading JSON text.
use vstd::prelude::*;

use crate::json::{Json, JsonObject, JsonView};

verus! {

/// `serde_json::Value`: a parsed JSON document.
#[verifier::external_type_specification]
#[verifier::external_body]
pub struct ExValue(serde_json::Value);

/// `serde_json::Error`: why a text is no JSON document.
#[verifier::external_type_specification]
#[verifier::external_body]
pub struct ExJsonError(serde_json::Error);

/// What a parsed document says.
pub uninterp spec fn value_view(value: serde_json::Value) -> JsonView;

/// The document that `text` spells, if it spells one.
pub uninterp spec fn document_of(text: Seq<char>) -> Option<JsonView>;

/// `serde_json::from_str`: a text is either parsed, and the result says what [`document_of`] names,
/// or refused, and then it names none. Which texts spell which document is left to the parser.
#[verifier::external_body]
fn parse_value(text: &str) -> (r: Result<serde_json::Value, serde_json::Error>)
    ensures
        match r {
            Ok(value) => document_of(text@) == Some(value_view(value)),
            Err(_) => document_of(text@) is None,
        },
{
    serde_json::from_str(text)
}

/// The outermost layer of a parsed document.
enum Layer {
    Null,
    Bool(bool),
    Number(String),
    Text(String),
    Array(Vec<serde_json::Value>),
    Object(Vec<(String, serde_json::Value)>),
}

/// `layer` is the outermost layer of a document that says `view`.
spec fn is_layer(layer: Layer, view: JsonView) -> bool {
    match layer {
        Layer::Null => view == JsonView::Null,
        Layer::Bool(b) => view == JsonView::Bool(b),
        Layer::Number(s) => view == JsonView::Number(s@),
        Layer::Text(s) => view == JsonView::Text(s@),
        Layer::Array(items) => view == JsonView::Array(
            items@.map_values(|v: serde_json::Value| value_view(v)),
        ),
        Layer::Object(entries) => view matches JsonView::Object(fields) && {
            &&& forall|k: Seq<char>| #[trigger]
                fields.dom().contains(k) <==> entries@.map_values(
                    |e: (String, serde_json::Value)| e.0@,
                ).contains(k)
            &&& forall|i: int|
                0 <= i < entries@.len() ==> value_view((#[trigger] entries@[i]).1)
                    == fields[entries@[i].0@]
        },
    }
}

/// Takes a `serde_json::Value` apart by its variant. A number gives the text that
/// `serde_json::Number` displays, an array its items, an object its entries, whose keys are
/// exactly the object's keys.
#[verifier::external_body]
fn outer_layer(value: serde_json::Value) -> (r: Layer)
    ensures
        is_layer(r, value_view(value)),
{
    match value {
        serde_json::Value::Null => Layer::Null,
        serde_json::Value::Bool(b) => Layer::Bool(b),
        serde_json::Value::Number(n) => Layer::Number(n.to_string()),
        serde_json::Value::String(s) => Layer::Text(s),
        serde_json::Value::Array(items) => Layer::Array(items),
        serde_json::Value::Object(fields) => Layer::Object(fields.into_iter().collect()),
    }
}

/// The document that says what `value` says.
pub fn json_of_value(value: serde_json::Value) -> (r: Json)
    ensures
        r@ == value_view(value),
    decreases value_view(value),
{
    let ghost view = value_view(value);
    match outer_layer(value) {
        Layer::Null => Json::null(),
        Layer::Bool(b) => Json::boolean(b),
        Layer::Number(s) => Json::numeral(s),
        Layer::Text(s) => Json::string(s.as_str()),
        Layer::Array(items) => {
            let mut documents: Vec<Json> = Vec::new();
            let ghost views = items@.map_values(|v: serde_json::Value| value_view(v));
            for item in it: items
                invariant
                    it.seq() == items@,
                    view == value_view(value),
                    view == JsonView::Array(views),
                    views == items@.map_values(|v: serde_json::Value| value_view(v)),
                    documents.len() == it.index(),
                    forall|k: int|
                        0 <= k < documents.len() ==> (#[trigger] documents@[k])@ == views[k],
            {
                assert(decreases_to!(view => view->Array_0));
                assert(views[it.index()] == value_view(item));
                documents.push(json_of_value(item));
            }
            assert(documents@.map_values(|j: Json| j@) =~= views);
            Json::array(documents)
        },
        Layer::Object(entries) => {
            let mut object = JsonObject::new();
            let ghost fields = view->Object_0;
            let ghost keys = entries@.map_values(|e: (String, serde_json::Value)| e.0@);
            proof {
                vstd::seq_lib::seq_to_set_is_finite(keys);
                assert(fields.dom() =~= keys.to_set());
            }
            for entry in it: entries
                invariant
                    it.seq() == entries@,
                    view == value_view(value),
                    view == JsonView::Object(fields),
                    fields.dom().finite(),
                    is_layer(Layer::Object(entries), view),
                    keys == entries@.map_values(|e: (String, serde_json::Value)| e.0@),
                    forall|k: Seq<char>| #[trigger]
                        object@.dom().contains(k) <==> keys.take(it.index()).contains(k),
                    forall|k: Seq<char>| #[trigger]
                        object@.dom().contains(k) ==> fields.dom().contains(k) && object@[k]
                            == fields[k],
            {
                let ghost n = it.index();
                let ghost name = entry.0@;
                let ghost earlier = object@;
                proof {
                    assert(keys[n] == name);
                    assert(keys.contains(name));
                    assert(decreases_to!(view => view->Object_0));
                    assert(decreases_to!(fields => fields[name]));
                }
                object.insert(entry.0.as_str(), json_of_value(entry.1));
                proof {
                    let past = keys.take(n);
                    let next = keys.take(n + 1);
                    assert(next =~= past.push(name));
                    assert forall|k: Seq<char>| #[trigger]
                        object@.dom().contains(k) <==> next.contains(k) by {
                        if k == name {
                            assert(next[n] == k);
                        } else if next.contains(k) {
                            let i = choose|i: int| 0 <= i < next.len() && next[i] == k;
                            assert(past[i] == k);
                            assert(earlier.dom().contains(k));
                        } else if earlier.dom().contains(k) {
                            let i = choose|i: int| 0 <= i < past.len() && past[i] == k;
                            assert(next[i] == k);
                        }
                    }
                }
            }
            proof {
                assert(keys.take(keys.len() as int) =~= keys);
                assert(object@ =~= fields);
            }
            object.document()
        },
    }
}

/// Parses `text` as one JSON document. `None` where it spells none.
pub fn parse_json(text: &str) -> (r: Option<Json>)
    ensures
        match r {
            Some(document) => document_of(text@) == Some(document@),
            None => document_of(text@) is None,
        },
{
    match parse_value(text) {
        Ok(value) => Some(json_of_value(value)),
        Err(_) => None,
    }
}

} // verus!
