//! Building blocks of tool parameter schemas (JSON Schema objects) and of
//! tool results.
use vstd::prelude::*;

use crate::json::{json_array, json_object, json_str, member_views, push_member, views, JsonValue, JsonView};
use crate::text::{chars_of, push_str, string_from_chars, string_views};
use crate::types::{result_view, ResultView, ToolResult};

verus! {

/// `{"type": ty, "description": desc}`.
pub open spec fn prop_json(ty: Seq<char>, desc: Seq<char>) -> JsonView {
    JsonView::Object(seq![("type"@, JsonView::Str(ty)), ("description"@, JsonView::Str(desc))])
}

/// `{"type": "object", "required": required, "properties": props}`.
pub open spec fn params_json(required: Seq<Seq<char>>, props: Seq<(Seq<char>, JsonView)>) -> JsonView {
    JsonView::Object(
        seq![
            ("type"@, JsonView::Str("object"@)),
            ("required"@, JsonView::Array(required.map_values(|r: Seq<char>| JsonView::Str(r)))),
            ("properties"@, JsonView::Object(props)),
        ],
    )
}

/// `{"type": ty, "description": desc}`.
pub fn prop_value(ty: &str, desc: &str) -> (r: JsonValue)
    ensures
        r@ == prop_json(ty@, desc@),
{
    let mut m: Vec<(String, JsonValue)> = Vec::new();
    push_member(&mut m, "type", json_str(ty));
    push_member(&mut m, "description", json_str(desc));
    assert(member_views(m@) =~= prop_json(ty@, desc@)->Object_0);
    json_object(m)
}

/// `{"type": "object", "required": required, "properties": props}`.
pub fn params_value(required: Vec<String>, props: Vec<(String, JsonValue)>) -> (r: JsonValue)
    ensures
        r@ == params_json(string_views(required@), member_views(props@)),
{
    let mut req: Vec<JsonValue> = Vec::new();
    let mut i: usize = 0;
    while i < required.len()
        invariant
            i <= required@.len(),
            views(req@) == string_views(required@).subrange(0, i as int).map_values(|r: Seq<char>| JsonView::Str(r)),
        decreases required@.len() - i,
    {
        let ghost before = views(req@);
        let v = json_str(required[i].as_str());
        req.push(v);
        assert(views(req@) =~= before.push(v@));
        assert(string_views(required@).subrange(0, i + 1).map_values(|r: Seq<char>| JsonView::Str(r))
            =~= string_views(required@).subrange(0, i as int).map_values(|r: Seq<char>| JsonView::Str(r)).push(
            JsonView::Str(required@[i as int]@),
        ));
        i = i + 1;
    }
    assert(string_views(required@).subrange(0, required@.len() as int) =~= string_views(required@));
    let mut m: Vec<(String, JsonValue)> = Vec::new();
    push_member(&mut m, "type", json_str("object"));
    push_member(&mut m, "required", json_array(req));
    push_member(&mut m, "properties", json_object(props));
    assert(member_views(m@) =~= params_json(string_views(required@), member_views(props@))->Object_0);
    json_object(m)
}

/// A failed result for a missing parameter.
pub fn missing_parameter(name: &str) -> (r: ToolResult)
    ensures
        result_view(r) == (ResultView {
            success: false,
            output: "Missing required parameter: "@ + name@,
            metadata: Seq::empty(),
        }),
{
    let mut v = chars_of("Missing required parameter: ");
    push_str(&mut v, name);
    let s = string_from_chars(v.as_slice());
    ToolResult::err(s.as_str())
}

/// A failed result for an operation that the system refused: `what` names
/// the operation and `detail` is the system's error text.
pub fn failure(what: &str, detail: &str) -> (r: ToolResult)
    ensures
        result_view(r) == (ResultView { success: false, output: what@ + ": "@ + detail@, metadata: Seq::empty() }),
{
    let mut v = chars_of(what);
    push_str(&mut v, ": ");
    push_str(&mut v, detail);
    let s = string_from_chars(v.as_slice());
    ToolResult::err(s.as_str())
}

} // verus!
