use desktop_shell::commands::file::{
    export_payload, export_to_json, save_chat_history, save_json_to_file, save_plan,
    save_report, select_file, FileError, SavePlan,
};
use serde_json::{Number, Value};

fn sample() -> Value {
    let mut object = serde_json::Map::new();
    object.insert("role".to_string(), Value::String("user".to_string()));
    object.insert("turn".to_string(), Value::Number(Number::from(3u64)));
    object.insert("tags".to_string(), Value::Array(vec![Value::Bool(true), Value::Null]));
    Value::Object(object)
}

fn sample_text() -> String {
    "{\n  \"role\": \"user\",\n  \"tags\": [\n    true,\n    null\n  ],\n  \"turn\": 3\n}".to_string()
}

#[test]
fn closing_the_pick_dialog_is_no_error() {
    assert_eq!(select_file(None), Ok(None));
}

#[test]
fn picked_path_is_returned() {
    assert_eq!(select_file(Some(Ok("/home/u/a.txt".to_string()))), Ok(Some("/home/u/a.txt".to_string())));
}

#[test]
fn picked_location_that_is_no_path_is_an_error() {
    assert_eq!(
        select_file(Some(Err("not a file URL".to_string()))),
        Err(FileError::PathResolve("not a file URL".to_string()))
    );
}

#[test]
fn payload_is_pretty_printed_json() {
    assert_eq!(export_payload(&Value::Null), Ok("null".to_string()));
    assert_eq!(export_payload(&Value::Array(Vec::new())), Ok("[]".to_string()));
    assert_eq!(export_payload(&Value::String("a\"b".to_string())), Ok("\"a\\\"b\"".to_string()));
    assert_eq!(export_payload(&sample()), Ok(sample_text()));
}

#[test]
fn closing_the_save_dialog_writes_nothing() {
    assert_eq!(save_json_to_file(&sample(), None), Ok(None));
    assert_eq!(export_to_json(&sample(), None), Ok(None));
    assert_eq!(save_chat_history(&sample(), None), Ok(None));
}

#[test]
fn chosen_path_gets_the_payload() {
    let plan = SavePlan { path: "/tmp/out.json".to_string(), payload: sample_text() };
    assert_eq!(
        save_json_to_file(&sample(), Some(Ok("/tmp/out.json".to_string()))),
        Ok(Some(SavePlan { path: "/tmp/out.json".to_string(), payload: sample_text() }))
    );
    assert_eq!(
        export_to_json(&sample(), Some(Ok("/tmp/out.json".to_string()))),
        Ok(Some(SavePlan { path: "/tmp/out.json".to_string(), payload: sample_text() }))
    );
    assert_eq!(save_chat_history(&sample(), Some(Ok("/tmp/out.json".to_string()))), Ok(Some(plan)));
}

#[test]
fn save_location_that_is_no_path_is_an_error() {
    assert_eq!(
        save_json_to_file(&sample(), Some(Err("bad".to_string()))),
        Err(FileError::PathResolve("bad".to_string()))
    );
}

#[test]
fn save_report_tells_path_or_cause() {
    assert_eq!(save_report("/tmp/out.json".to_string(), Ok(())), Ok(Some("/tmp/out.json".to_string())));
    assert_eq!(
        save_report("/tmp/out.json".to_string(), Err("permission denied".to_string())),
        Err(FileError::Write("permission denied".to_string()))
    );
}

#[test]
fn plan_pairs_path_and_text_or_passes_the_error_on() {
    assert_eq!(
        save_plan("/tmp/a.json".to_string(), Ok("[]".to_string())),
        Ok(Some(SavePlan { path: "/tmp/a.json".to_string(), payload: "[]".to_string() }))
    );
    assert_eq!(
        save_plan("/tmp/a.json".to_string(), Err(FileError::Serialize("key must be a string".to_string()))),
        Err(FileError::Serialize("key must be a string".to_string()))
    );
}
