use rise::description::parse_material_description;
use rise::description::DescriptionError;
use rise::json::parse_json;
use rise::json::JsonValue;
use rise::uniform::SlotKind;

const STANDARD_MAT: &str = r#"
{
    "vertex_stage": "res/shader/standard.vert.spv",
    "fragment_stage": "res/shader/standard.frag.spv",
    "uniforms": [
        { "name": "camera", "type": "camera" },
        { "name": "diffuse", "type": "texture" }
    ]
}
"#;

#[test]
fn parses_standard_description() {
    let d = parse_material_description(STANDARD_MAT).unwrap();
    assert_eq!(d.vertex_stage, "res/shader/standard.vert.spv");
    assert_eq!(d.fragment_stage, "res/shader/standard.frag.spv");
    assert_eq!(d.slots.len(), 2);
    assert_eq!(d.slots[0].name, "camera");
    assert_eq!(d.slots[0].kind, SlotKind::Camera);
    assert_eq!(d.slots[1].name, "diffuse");
    assert_eq!(d.slots[1].kind, SlotKind::Texture);
}

#[test]
fn parses_empty_uniform_list() {
    let d = parse_material_description(
        r#"{ "vertex_stage": "a.spv", "fragment_stage": "b.spv", "uniforms": [] }"#,
    )
    .unwrap();
    assert_eq!(d.slots.len(), 0);
}

#[test]
fn ignores_extra_fields() {
    let d = parse_material_description(
        r#"{ "comment": "standard material", "version": 3, "extra": null,
             "vertex_stage": "a.spv", "fragment_stage": "b.spv",
             "uniforms": [ { "name": "camera", "type": "camera", "set": 0 } ] }"#,
    )
    .unwrap();
    assert_eq!(d.slots.len(), 1);
    assert_eq!(d.slots[0].name, "camera");
}

#[test]
fn malformed_json_is_reported() {
    let r = parse_material_description("{ \"vertex_stage\": ");
    assert_eq!(r.unwrap_err(), DescriptionError::MalformedDocument);
}

#[test]
fn trailing_garbage_is_malformed() {
    let r = parse_material_description("{} {}");
    assert_eq!(r.unwrap_err(), DescriptionError::MalformedDocument);
}

#[test]
fn missing_vertex_stage_is_invalid() {
    let r = parse_material_description(
        r#"{ "fragment_stage": "b.spv", "uniforms": [] }"#,
    );
    assert_eq!(r.unwrap_err(), DescriptionError::InvalidDescription);
}

#[test]
fn missing_fragment_stage_is_invalid() {
    let r = parse_material_description(
        r#"{ "vertex_stage": "a.spv", "uniforms": [] }"#,
    );
    assert_eq!(r.unwrap_err(), DescriptionError::InvalidDescription);
}

#[test]
fn missing_uniforms_is_invalid() {
    let r = parse_material_description(
        r#"{ "vertex_stage": "a.spv", "fragment_stage": "b.spv" }"#,
    );
    assert_eq!(r.unwrap_err(), DescriptionError::InvalidDescription);
}

#[test]
fn unknown_slot_type_is_invalid() {
    let r = parse_material_description(
        r#"{ "vertex_stage": "a.spv", "fragment_stage": "b.spv",
             "uniforms": [ { "name": "x", "type": "storage" } ] }"#,
    );
    assert_eq!(r.unwrap_err(), DescriptionError::InvalidDescription);
}

#[test]
fn slot_without_name_is_invalid() {
    let r = parse_material_description(
        r#"{ "vertex_stage": "a.spv", "fragment_stage": "b.spv",
             "uniforms": [ { "type": "texture" } ] }"#,
    );
    assert_eq!(r.unwrap_err(), DescriptionError::InvalidDescription);
}

#[test]
fn non_object_document_is_invalid() {
    let r = parse_material_description("[1, 2, 3]");
    assert_eq!(r.unwrap_err(), DescriptionError::InvalidDescription);
}

#[test]
fn description_error_messages_name_the_problem() {
    assert_eq!(
        DescriptionError::MalformedDocument.message(),
        "the material description is not valid JSON"
    );
    assert_eq!(
        DescriptionError::InvalidDescription.message(),
        "the material description lacks a required field"
    );
}

#[test]
fn json_values_parse() {
    assert!(matches!(parse_json("null"), Some(JsonValue::Null)));
    assert!(matches!(parse_json("true"), Some(JsonValue::Bool(true))));
    assert!(matches!(parse_json("false"), Some(JsonValue::Bool(false))));
    assert!(matches!(parse_json("-12.5e3"), Some(JsonValue::Num)));
    match parse_json("\"hello world\"") {
        Some(JsonValue::Str(s)) => assert_eq!(s, "hello world"),
        other => panic!("expected a string, got {:?}", other.is_some()),
    }
}

#[test]
fn json_nesting_parses() {
    match parse_json(" [ 1 , [ true , { } ] , \"x\" ] ") {
        Some(JsonValue::Arr(items)) => {
            assert_eq!(items.len(), 3);
            assert!(matches!(items[0], JsonValue::Num));
            match &items[1] {
                JsonValue::Arr(inner) => {
                    assert_eq!(inner.len(), 2);
                    assert!(matches!(inner[1], JsonValue::Obj(_)));
                }
                _ => panic!("expected a nested array"),
            }
        }
        _ => panic!("expected an array"),
    }
}

#[test]
fn json_object_keeps_member_order() {
    match parse_json(r#"{ "b": 1, "a": 2, "b": 3 }"#) {
        Some(JsonValue::Obj(members)) => {
            assert_eq!(members.len(), 3);
            assert_eq!(members[0].0, "b");
            assert_eq!(members[1].0, "a");
            assert_eq!(members[2].0, "b");
        }
        _ => panic!("expected an object"),
    }
}

#[test]
fn json_rejects_stray_input() {
    assert!(parse_json("").is_none());
    assert!(parse_json("   ").is_none());
    assert!(parse_json("nul").is_none());
    assert!(parse_json("[1, ]").is_none());
    assert!(parse_json("{ \"a\" 1 }").is_none());
    assert!(parse_json("\"unterminated").is_none());
}

#[test]
fn json_rejects_escape_sequences() {
    // Escape sequences are not part of the material description format.
    assert!(parse_json("\"a\\nb\"").is_none());
}
