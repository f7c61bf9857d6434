//! The `submit_plan` tool: the only action that the orchestrator may take.
//!
//! The orchestrator is made to call this tool, so the schema of the tool's input
//! is what gives a plan its shape.

use vstd::prelude::*;

use serde_json::Value;

use crate::json::{
    array_value, bool_value, insert_member, json_of, json_row, no_members, number_value,
    object_value, text_array, text_value, JsonView,
};

verus! {

/// The name of the tool.
pub const SUBMIT_PLAN_TOOL_NAME: &'static str = "submit_plan";

/// A tool as a model sees it.
#[derive(Debug)]
pub struct ToolDefinition {
    pub type_: String,
    pub function: FunctionDefinition,
    /// A cache marker, which the orchestrator's call does not use.
    pub cache_control: Option<Value>,
}

/// The function of a tool.
#[derive(Debug)]
pub struct FunctionDefinition {
    pub name: String,
    pub description: Option<String>,
    /// The JSON Schema of the input.
    pub parameters: Option<Value>,
}

/// The schema of a text.
pub open spec fn string_schema() -> JsonView {
    JsonView::Object(map!["type"@ => JsonView::Text("string"@)])
}

/// The schema of the reasoning: a text.
pub open spec fn reasoning_schema() -> JsonView {
    JsonView::Object(
        map![
            "type"@ => JsonView::Text("string"@),
            "description"@ => JsonView::Text("Brief why-this-plan rationale (1-3 sentences)."@),
        ],
    )
}

/// The schema of a worker's id: `w` and a number.
pub open spec fn id_schema() -> JsonView {
    JsonView::Object(
        map![
            "type"@ => JsonView::Text("string"@),
            "pattern"@ => JsonView::Text("^w[0-9]+$"@),
        ],
    )
}

/// The schema of a worker's prompt: a text that is not empty.
pub open spec fn prompt_schema() -> JsonView {
    JsonView::Object(
        map![
            "type"@ => JsonView::Text("string"@),
            "minLength"@ => JsonView::Number(1),
        ],
    )
}

/// The schema of what a worker may read: one of two words, or a list of texts.
pub open spec fn see_prior_schema() -> JsonView {
    JsonView::Object(
        map![
            "oneOf"@ => JsonView::Array(seq![
                JsonView::Object(map![
                    "type"@ => JsonView::Text("string"@),
                    "enum"@ => JsonView::Array(seq![
                        JsonView::Text("none"@),
                        JsonView::Text("all"@),
                    ]),
                ]),
                JsonView::Object(map![
                    "type"@ => JsonView::Text("array"@),
                    "items"@ => string_schema(),
                ]),
            ]),
        ],
    )
}

/// The schema of a worker: four members, all required, and no others.
pub open spec fn worker_schema() -> JsonView {
    JsonView::Object(
        map![
            "type"@ => JsonView::Text("object"@),
            "additionalProperties"@ => JsonView::Bool(false),
            "required"@ => JsonView::Array(seq![
                JsonView::Text("id"@),
                JsonView::Text("model"@),
                JsonView::Text("prompt"@),
                JsonView::Text("see_prior"@),
            ]),
            "properties"@ => JsonView::Object(map![
                "id"@ => id_schema(),
                "model"@ => string_schema(),
                "prompt"@ => prompt_schema(),
                "see_prior"@ => see_prior_schema(),
            ]),
        ],
    )
}

/// The schema of the workers: at least one.
pub open spec fn workers_schema() -> JsonView {
    JsonView::Object(
        map![
            "type"@ => JsonView::Text("array"@),
            "minItems"@ => JsonView::Number(1),
            "items"@ => worker_schema(),
        ],
    )
}

/// The schema of the tool's input: the reasoning and the workers, both
/// required, and nothing else.
pub open spec fn plan_schema() -> JsonView {
    JsonView::Object(
        map![
            "type"@ => JsonView::Text("object"@),
            "additionalProperties"@ => JsonView::Bool(false),
            "required"@ => JsonView::Array(seq![
                JsonView::Text("reasoning"@),
                JsonView::Text("plan"@),
            ]),
            "properties"@ => JsonView::Object(map![
                "reasoning"@ => reasoning_schema(),
                "plan"@ => workers_schema(),
            ]),
        ],
    )
}

fn string_schema_value() -> (res: Value)
    ensures
        json_of(res) == string_schema(),
{
    let mut members = no_members();
    insert_member(&mut members, "type", text_value("string"));
    object_value(members)
}

fn reasoning_schema_value() -> (res: Value)
    ensures
        json_of(res) == reasoning_schema(),
{
    let mut members = no_members();
    insert_member(&mut members, "type", text_value("string"));
    insert_member(
        &mut members,
        "description",
        text_value("Brief why-this-plan rationale (1-3 sentences)."),
    );
    object_value(members)
}

fn id_schema_value() -> (res: Value)
    ensures
        json_of(res) == id_schema(),
{
    let mut members = no_members();
    insert_member(&mut members, "type", text_value("string"));
    insert_member(&mut members, "pattern", text_value("^w[0-9]+$"));
    object_value(members)
}

fn prompt_schema_value() -> (res: Value)
    ensures
        json_of(res) == prompt_schema(),
{
    let mut members = no_members();
    insert_member(&mut members, "type", text_value("string"));
    insert_member(&mut members, "minLength", number_value(1));
    object_value(members)
}

fn see_prior_schema_value() -> (res: Value)
    ensures
        json_of(res) == see_prior_schema(),
{
    let words = text_array(&["none", "all"]);
    assert(json_of(words)->Array_0 =~= seq![JsonView::Text("none"@), JsonView::Text("all"@)]);
    let mut keyword = no_members();
    insert_member(&mut keyword, "type", text_value("string"));
    insert_member(&mut keyword, "enum", words);
    let mut list = no_members();
    insert_member(&mut list, "type", text_value("array"));
    insert_member(&mut list, "items", string_schema_value());
    let keyword = object_value(keyword);
    let list = object_value(list);
    let choices = vec![keyword, list];
    assert(json_row(choices@) =~= seq![json_of(keyword), json_of(list)]);
    let mut members = no_members();
    insert_member(&mut members, "oneOf", array_value(choices));
    object_value(members)
}

fn worker_schema_value() -> (res: Value)
    ensures
        json_of(res) == worker_schema(),
{
    let required = text_array(&["id", "model", "prompt", "see_prior"]);
    assert(json_of(required)->Array_0 =~= seq![
        JsonView::Text("id"@),
        JsonView::Text("model"@),
        JsonView::Text("prompt"@),
        JsonView::Text("see_prior"@),
    ]);
    let mut properties = no_members();
    insert_member(&mut properties, "id", id_schema_value());
    insert_member(&mut properties, "model", string_schema_value());
    insert_member(&mut properties, "prompt", prompt_schema_value());
    insert_member(&mut properties, "see_prior", see_prior_schema_value());
    let mut members = no_members();
    insert_member(&mut members, "type", text_value("object"));
    insert_member(&mut members, "additionalProperties", bool_value(false));
    insert_member(&mut members, "required", required);
    insert_member(&mut members, "properties", object_value(properties));
    object_value(members)
}

fn workers_schema_value() -> (res: Value)
    ensures
        json_of(res) == workers_schema(),
{
    let mut members = no_members();
    insert_member(&mut members, "type", text_value("array"));
    insert_member(&mut members, "minItems", number_value(1));
    insert_member(&mut members, "items", worker_schema_value());
    object_value(members)
}

/// The JSON Schema of the tool's input.
pub fn submit_plan_input_schema() -> (res: Value)
    ensures
        json_of(res) == plan_schema(),
{
    let required = text_array(&["reasoning", "plan"]);
    assert(json_of(required)->Array_0 =~= seq![
        JsonView::Text("reasoning"@),
        JsonView::Text("plan"@),
    ]);
    let mut properties = no_members();
    insert_member(&mut properties, "reasoning", reasoning_schema_value());
    insert_member(&mut properties, "plan", workers_schema_value());
    let mut members = no_members();
    insert_member(&mut members, "type", text_value("object"));
    insert_member(&mut members, "additionalProperties", bool_value(false));
    insert_member(&mut members, "required", required);
    insert_member(&mut members, "properties", object_value(properties));
    object_value(members)
}

/// What the tool's description says.
pub open spec fn submit_plan_description() -> Seq<char> {
    "Submit the worker plan for this \
     task. The plan is an ordered list of workers; each worker has \
     a model id, a natural-language prompt, and a see_prior field \
     declaring which prior worker outputs it may consume."@
}

/// The `submit_plan` tool, as the orchestrator's call offers it.
pub fn submit_plan_tool() -> (res: ToolDefinition)
    ensures
        res.type_@ == "function"@,
        res.function.name@ == SUBMIT_PLAN_TOOL_NAME@,
        res.function.description.deep_view() == Some(submit_plan_description()),
        res.function.parameters matches Some(schema) && json_of(schema) == plan_schema(),
        res.cache_control is None,
{
    ToolDefinition {
        type_: "function".to_owned(),
        function: FunctionDefinition {
            name: SUBMIT_PLAN_TOOL_NAME.to_owned(),
            description: Some(
                "Submit the worker plan for this \
                 task. The plan is an ordered list of workers; each worker has \
                 a model id, a natural-language prompt, and a see_prior field \
                 declaring which prior worker outputs it may consume.".to_owned(),
            ),
            parameters: Some(submit_plan_input_schema()),
        },
        cache_control: None,
    }
}

/// The names that an object schema lists as required.
pub open spec fn required_names(schema: JsonView) -> Seq<JsonView> {
    schema->Object_0["required"@]->Array_0
}

/// The members that an object schema describes.
pub open spec fn described(schema: JsonView) -> Map<Seq<char>, JsonView> {
    schema->Object_0["properties"@]->Object_0
}

/// An object schema requires exactly the members that it describes, and admits
/// no others.
pub open spec fn is_strict(schema: JsonView) -> bool {
    &&& schema is Object
    &&& schema->Object_0["additionalProperties"@] == JsonView::Bool(false)
    &&& forall|k: Seq<char>| #[trigger]
        described(schema).contains_key(k) <==> required_names(schema).contains(JsonView::Text(k))
}

/// Both objects of the tool's input, the plan and the worker, are strict.
pub proof fn law_input_is_strict()
    ensures
        is_strict(plan_schema()),
        is_strict(worker_schema()),
{
    reveal_strlit("type");
    reveal_strlit("additionalProperties");
    reveal_strlit("required");
    reveal_strlit("properties");
    assert("type"@.len() == 4);
    assert("additionalProperties"@.len() == 20);
    assert("required"@.len() == 8);
    assert("properties"@.len() == 10);
    assert forall|k: Seq<char>| #[trigger] described(plan_schema()).contains_key(
        k,
    ) <==> required_names(plan_schema()).contains(JsonView::Text(k)) by {
        let names = required_names(plan_schema());
        assert(names[0] == JsonView::Text("reasoning"@));
        assert(names[1] == JsonView::Text("plan"@));
    }
    assert forall|k: Seq<char>| #[trigger] described(worker_schema()).contains_key(
        k,
    ) <==> required_names(worker_schema()).contains(JsonView::Text(k)) by {
        let names = required_names(worker_schema());
        assert(names[0] == JsonView::Text("id"@));
        assert(names[1] == JsonView::Text("model"@));
        assert(names[2] == JsonView::Text("prompt"@));
        assert(names[3] == JsonView::Text("see_prior"@));
    }
}

} // verus!
