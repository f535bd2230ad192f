use sample_plugin::effect::{Effect, ToastLevel};
use sample_plugin::json::{Json, Member};
use sample_plugin::router::{exec, ExecError, ExecInput, ExecOutput};

fn s(text: &str) -> Json {
    Json::Str(text.to_string())
}

fn obj(members: Vec<(&str, Json)>) -> Json {
    Json::Object(
        members
            .into_iter()
            .map(|(k, v)| Member { key: k.to_string(), value: v })
            .collect(),
    )
}

fn run(action: &str, payload: Json) -> ExecOutput {
    exec(ExecInput { action: action.to_string(), payload, ctx: Json::Null })
}

fn text(j: &Json) -> String {
    format!("{:?}", j)
}

fn assert_success_toast(e: &Effect, expected: &str) {
    match e {
        Effect::ShowToast { level, message } => {
            assert_eq!(*level, ToastLevel::Success);
            assert_eq!(message, expected);
        }
        other => panic!("expected a toast, got {:?}", other),
    }
}

fn assert_bad_request(out: &ExecOutput, expected: &str) {
    assert!(!out.ok);
    assert!(out.effects.is_empty());
    assert!(out.data.is_none());
    let err = out.error.as_ref().expect("an error");
    assert_eq!(err.code(), "BAD_REQUEST");
    assert_eq!(err.message(), Some(expected));
}

#[test]
fn unknown_actions_are_refused() {
    for action in ["", "sample", "sample.HELLO", "sample.hello ", "other.create", "sample.delete"] {
        let out = run(action, obj(vec![("docId", s("d1"))]));
        assert!(!out.ok);
        assert!(out.effects.is_empty());
        assert!(out.data.is_none());
        let err = out.error.as_ref().expect("an error");
        assert!(matches!(err, ExecError::UnknownAction));
        assert_eq!(err.code(), "UNKNOWN_ACTION");
        assert_eq!(err.message(), None);
    }
}

#[test]
fn hello_shows_one_success_toast() {
    for payload in [Json::Null, obj(vec![]), obj(vec![("title", s("X"))])] {
        let out = run("sample.hello", payload);
        assert!(out.ok);
        assert!(out.error.is_none());
        assert_eq!(out.effects.len(), 1);
        assert_success_toast(&out.effects[0], "Hello from Sample plugin!");
    }
}

fn assert_create_effects(out: &ExecOutput, expected_title: &str) {
    assert!(out.ok);
    assert!(out.error.is_none());
    assert_eq!(out.effects.len(), 4);
    match &out.effects[0] {
        Effect::CreateDocument { title, doc_type } => {
            assert_eq!(title, expected_title);
            assert_eq!(doc_type, "document");
        }
        other => panic!("expected createDocument, got {:?}", other),
    }
    match &out.effects[1] {
        Effect::PutKv { scope, key, value } => {
            assert_eq!(scope, "doc");
            assert_eq!(key, "meta");
            assert_eq!(text(value), text(&obj(vec![("isSample", Json::Bool(true))])));
        }
        other => panic!("expected putKv, got {:?}", other),
    }
    assert_success_toast(&out.effects[2], "Sample document created");
    match &out.effects[3] {
        Effect::Navigate { to } => assert_eq!(to, "/sample/:createdDocId"),
        other => panic!("expected navigate, got {:?}", other),
    }
}

#[test]
fn create_without_title_uses_default() {
    assert_create_effects(&run("sample.create", obj(vec![])), "Sample Plugin Demo");
    assert_create_effects(&run("sample.create", Json::Null), "Sample Plugin Demo");
}

#[test]
fn create_with_title_uses_it() {
    assert_create_effects(&run("sample.create", obj(vec![("title", s("X"))])), "X");
}

#[test]
fn create_with_non_string_title_uses_default() {
    let payload = obj(vec![("title", Json::Number("5".to_string()))]);
    assert_create_effects(&run("sample.create", payload), "Sample Plugin Demo");
}

#[test]
fn create_with_empty_title_keeps_it() {
    assert_create_effects(&run("sample.create", obj(vec![("title", s(""))])), "");
}

#[test]
fn create_record_without_doc_id_is_bad_request() {
    assert_bad_request(&run("sample.create_record", obj(vec![])), "docId required");
    assert_bad_request(&run("sample.create_record", Json::Null), "docId required");
    assert_bad_request(
        &run("sample.create_record", obj(vec![("docId", Json::Bool(true))])),
        "docId required",
    );
    assert_bad_request(&run("sample.create_record", obj(vec![("docId", s(""))])), "docId required");
}

fn assert_create_record(out: &ExecOutput, expected_doc_id: &str, expected_data: &Json) {
    assert!(out.ok);
    assert!(out.error.is_none());
    assert_eq!(out.effects.len(), 2);
    match &out.effects[0] {
        Effect::CreateRecord { scope, doc_id, kind, data } => {
            assert_eq!(scope, "doc");
            assert_eq!(doc_id, expected_doc_id);
            assert_eq!(kind, "sample");
            assert_eq!(text(data), text(expected_data));
        }
        other => panic!("expected createRecord, got {:?}", other),
    }
    assert_success_toast(&out.effects[1], "Created a sample record");
}

#[test]
fn create_record_with_doc_id_uses_default_data() {
    let out = run("sample.create_record", obj(vec![("docId", s("d1"))]));
    assert_create_record(&out, "d1", &obj(vec![("message", s("sample"))]));
}

#[test]
fn create_record_keeps_given_data() {
    let data = || Json::Array(vec![Json::Number("1".to_string()), Json::Null]);
    let out = run("sample.create_record", obj(vec![("data", data()), ("docId", s("d2"))]));
    assert_create_record(&out, "d2", &data());
}

#[test]
fn update_record_passes_patch() {
    let out = run(
        "sample.update_record",
        obj(vec![("recordId", s("r1")), ("patch", obj(vec![("x", Json::Number("1".to_string()))]))]),
    );
    assert!(out.ok);
    assert_eq!(out.effects.len(), 2);
    match &out.effects[0] {
        Effect::UpdateRecord { record_id, patch } => {
            assert_eq!(record_id, "r1");
            assert_eq!(text(patch), text(&obj(vec![("x", Json::Number("1".to_string()))])));
        }
        other => panic!("expected updateRecord, got {:?}", other),
    }
    assert_success_toast(&out.effects[1], "Record updated");
}

#[test]
fn update_record_without_patch_uses_empty_object() {
    let out = run("sample.update_record", obj(vec![("recordId", s("r1"))]));
    assert!(out.ok);
    match &out.effects[0] {
        Effect::UpdateRecord { record_id, patch } => {
            assert_eq!(record_id, "r1");
            assert_eq!(text(patch), text(&obj(vec![])));
        }
        other => panic!("expected updateRecord, got {:?}", other),
    }
}

#[test]
fn update_record_without_record_id_is_bad_request() {
    let payload = obj(vec![("patch", obj(vec![]))]);
    assert_bad_request(&run("sample.update_record", payload), "recordId required");
}

#[test]
fn delete_record_with_empty_id_is_bad_request() {
    assert_bad_request(&run("sample.delete_record", obj(vec![("recordId", s(""))])), "recordId required");
    assert_bad_request(&run("sample.delete_record", obj(vec![])), "recordId required");
}

#[test]
fn delete_record_with_id() {
    let out = run("sample.delete_record", obj(vec![("recordId", s("r9"))]));
    assert!(out.ok);
    assert_eq!(out.effects.len(), 2);
    match &out.effects[0] {
        Effect::DeleteRecord { record_id } => assert_eq!(record_id, "r9"),
        other => panic!("expected deleteRecord, got {:?}", other),
    }
    assert_success_toast(&out.effects[1], "Record deleted");
}

#[test]
fn same_request_same_response() {
    let payload = || obj(vec![("recordId", s("r1")), ("patch", obj(vec![("x", s("y"))]))]);
    for action in ["sample.hello", "sample.create", "sample.update_record", "sample.bogus"] {
        let first = exec(ExecInput { action: action.to_string(), payload: payload(), ctx: Json::Null });
        let second = exec(ExecInput {
            action: action.to_string(),
            payload: payload(),
            ctx: obj(vec![("user", s("someone"))]),
        });
        assert_eq!(format!("{:?}", first), format!("{:?}", second));
    }
}
