use verisure_exporter::verisure::json::{introspection_answer, JsonValue};
use verisure_exporter::verisure::queries::{
    account_installations_query, arm_state_query, broadband_query, climate_query, door_lock_query,
    door_window_query, fetch_queries, introspection_query, smart_plug_query, GraphQLQuery,
};
use verisure_exporter::verisure::reply::is_service_unavailable;

fn op(q: &GraphQLQuery) -> (String, String, String) {
    let v = q.variables.clone().unwrap();
    (q.operation_name.clone().unwrap(), v.0, v.1)
}

#[test]
fn arm_state_query_names_installation() {
    let q = arm_state_query("123456789012");
    assert_eq!(op(&q), ("ArmState".to_string(), "giid".to_string(), "123456789012".to_string()));
    assert_eq!(
        q.query,
        "query ArmState($giid: String!) { installation(giid: $giid) { armState { type statusType date name changedVia } } }"
    );
}

#[test]
fn device_queries_have_their_operations() {
    assert_eq!(op(&climate_query("g")).0, "Climate");
    assert_eq!(op(&door_window_query("g")).0, "DoorWindow");
    assert_eq!(op(&door_lock_query("g")).0, "DoorLock");
    assert_eq!(op(&smart_plug_query("g")).0, "SmartPlug");
    assert_eq!(op(&broadband_query("g")).0, "Broadband");
    assert!(door_lock_query("g").query.contains("smartLocks { device { deviceLabel area } lockStatus"));
    assert!(broadband_query("g").query.contains("testDate isBroadbandConnected"));
}

#[test]
fn account_query_uses_email() {
    let q = account_installations_query("me@example.com");
    assert_eq!(op(&q), ("AccountInstallations".to_string(), "email".to_string(), "me@example.com".to_string()));
    assert!(q.query.starts_with("query AccountInstallations($email: String!)"));
}

#[test]
fn fetch_batch_order() {
    let qs = fetch_queries("42");
    let names: Vec<String> = qs.iter().map(|q| q.operation_name.clone().unwrap()).collect();
    assert_eq!(names, vec!["ArmState", "Climate", "DoorWindow", "DoorLock", "SmartPlug", "Broadband"]);
    assert!(qs.iter().all(|q| q.variables.clone().unwrap().1 == "42"));
}

#[test]
fn introspection_text() {
    let q = introspection_query("Climate");
    assert!(q.operation_name.is_none());
    assert!(q.variables.is_none());
    assert_eq!(
        q.query,
        "{ __type(name: \"Climate\") { fields { name type { name kind ofType { name } } } } }"
    );
}

fn obj(entries: Vec<(&str, JsonValue)>) -> JsonValue {
    JsonValue::Object(entries.into_iter().map(|(k, v)| (k.to_string(), v)).collect())
}

fn s(t: &str) -> JsonValue {
    JsonValue::Str(t.to_string())
}

#[test]
fn json_get_finds_members() {
    let v = obj(vec![("a", s("x")), ("b", JsonValue::Null)]);
    assert_eq!(v.get("a").and_then(|x| x.as_str()), Some("x"));
    assert!(v.get("b").unwrap().is_null());
    assert!(v.get("c").is_none());
    assert!(JsonValue::Array(vec![]).get("a").is_none());
    assert!(s("a").get("a").is_none());
}

fn error_with_code(code: &str) -> JsonValue {
    obj(vec![("message", s("m")), ("data", obj(vec![("errorCode", s(code))]))])
}

#[test]
fn unavailable_errors() {
    assert!(is_service_unavailable(&JsonValue::Array(vec![error_with_code("SYS_00004")])));
    assert!(is_service_unavailable(&JsonValue::Array(vec![
        error_with_code("OTHER"),
        error_with_code("SYS_00004")
    ])));
    assert!(!is_service_unavailable(&JsonValue::Array(vec![error_with_code("SYS_00005")])));
    assert!(!is_service_unavailable(&JsonValue::Array(vec![])));
    assert!(!is_service_unavailable(&error_with_code("SYS_00004")));
    assert!(!is_service_unavailable(&JsonValue::Array(vec![obj(vec![(
        "data",
        obj(vec![("errorCode", JsonValue::Number("4".to_string()))])
    )])])));
}

#[test]
fn introspection_answer_is_pretty_printed() {
    let answer = JsonValue::Object(vec![
        ("data".to_string(), JsonValue::Object(vec![(
            "__type".to_string(),
            JsonValue::Object(vec![
                ("name".to_string(), JsonValue::Str("Climate".to_string())),
                ("fields".to_string(), JsonValue::Array(vec![JsonValue::Number("1".to_string()), JsonValue::Bool(true), JsonValue::Null])),
            ]),
        )])),
    ]);
    assert_eq!(
        introspection_answer(&answer),
        "{\n  \"data\": {\n    \"__type\": {\n      \"fields\": [\n        1,\n        true,\n        null\n      ],\n      \"name\": \"Climate\"\n    }\n  }\n}"
    );
    assert_eq!(introspection_answer(&JsonValue::Array(vec![])), "[]");
}
