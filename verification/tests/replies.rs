use verisure_exporter::verisure::json::JsonValue;
use verisure_exporter::verisure::reply::{
    fetch_rejected, installations_rejected, login_rejected,
    fetch_body, fetch_outcome, installations_body, installations_list, installations_outcome,
    is_success, login_body, login_outcome, parse_response, BodyWanted, GraphQLResponse,
    Installation, InstallationSections, Reply, VerisureError,
};
use verisure_exporter::verisure::types::{ArmState, Broadband, Device, DoorWindow};

fn obj(entries: Vec<(&str, JsonValue)>) -> JsonValue {
    JsonValue::Object(entries.into_iter().map(|(k, v)| (k.to_string(), v)).collect())
}

fn s(t: &str) -> JsonValue {
    JsonValue::Str(t.to_string())
}

#[test]
fn success_statuses() {
    assert!(is_success(200));
    assert!(is_success(299));
    assert!(!is_success(199));
    assert!(!is_success(300));
    assert!(!is_success(401));
}

#[test]
fn bodies_read_per_status() {
    assert_eq!(login_body(200), BodyWanted::Json);
    assert_eq!(login_body(403), BodyWanted::Text);
    assert_eq!(installations_body(200), BodyWanted::Json);
    assert_eq!(installations_body(500), BodyWanted::Nothing);
    assert_eq!(fetch_body(401), BodyWanted::Nothing);
    assert_eq!(fetch_body(200), BodyWanted::Json);
    assert_eq!(fetch_body(503), BodyWanted::Text);
}

#[test]
fn login_rejected_reports_status_and_body() {
    let r = login_outcome(Reply::Status { status: 401, text: Some("bad credentials".to_string()) });
    match r {
        Err(VerisureError::Auth(m)) => assert_eq!(m, "Login failed with status 401 Unauthorized: bad credentials"),
        other => panic!("unexpected {:?}", other),
    }
}

#[test]
fn login_forbidden_without_body() {
    let r = login_outcome(Reply::Status { status: 403, text: None });
    match r {
        Err(VerisureError::Auth(m)) => assert_eq!(m, "Login failed with status 403 Forbidden: "),
        other => panic!("unexpected {:?}", other),
    }
}

#[test]
fn login_step_up_is_refused() {
    let r = login_outcome(Reply::Body(obj(vec![("stepUpToken", s("abc"))])));
    match r {
        Err(VerisureError::Auth(m)) => assert_eq!(m, "MFA (stepUpToken) required but not supported"),
        other => panic!("unexpected {:?}", other),
    }
}

#[test]
fn login_accepts_null_or_missing_step_up() {
    assert!(login_outcome(Reply::Body(obj(vec![("stepUpToken", JsonValue::Null)]))).is_ok());
    assert!(login_outcome(Reply::Body(obj(vec![("accessToken", s("x"))]))).is_ok());
    assert!(login_outcome(Reply::Body(JsonValue::Array(vec![]))).is_ok());
}

#[test]
fn login_transport_error_is_http() {
    match login_outcome(Reply::Transport("connection refused".to_string())) {
        Err(VerisureError::Http(m)) => assert_eq!(m, "connection refused"),
        other => panic!("unexpected {:?}", other),
    }
}

fn inst(giid: &str) -> Installation {
    Installation { giid: giid.to_string(), alias: None }
}

#[test]
fn single_installation_is_chosen() {
    let r = installations_outcome(Reply::Body(Some(Ok(vec![inst("111")]))));
    assert_eq!(r.unwrap(), "111");
}

#[test]
fn installation_counts() {
    assert!(matches!(installations_outcome(Reply::Body(Some(Ok(vec![])))), Err(VerisureError::NoInstallations)));
    assert!(matches!(installations_outcome(Reply::Body(None)), Err(VerisureError::NoInstallations)));
    assert!(matches!(
        installations_outcome(Reply::Body(Some(Ok(vec![inst("1"), inst("2")])))),
        Err(VerisureError::MultipleInstallations)
    ));
    assert!(matches!(
        installations_outcome(Reply::Body(Some(Err("bad".to_string())))),
        Err(VerisureError::Json(m)) if m == "bad"
    ));
}

#[test]
fn installations_status_failure() {
    match installations_outcome(Reply::Status { status: 500, text: None }) {
        Err(VerisureError::Api(m)) => assert_eq!(m, "Installations query failed with status 500 Internal Server Error"),
        other => panic!("unexpected {:?}", other),
    }
}

#[test]
fn installations_list_is_found() {
    let body = obj(vec![(
        "data",
        obj(vec![("account", obj(vec![("installations", JsonValue::Array(vec![]))]))]),
    )]);
    assert!(matches!(installations_list(&body), Some(JsonValue::Array(v)) if v.is_empty()));
    assert!(installations_list(&obj(vec![("data", JsonValue::Null)])).is_none());
}

fn no_sections() -> InstallationSections {
    InstallationSections {
        arm_state: None,
        climates: None,
        door_windows: None,
        smart_locks: None,
        smartplugs: None,
        broadband: None,
    }
}

fn installation_body() -> JsonValue {
    obj(vec![("data", obj(vec![("installation", obj(vec![]))]))])
}

fn arm(status: &str) -> ArmState {
    ArmState { status_type: status.to_string(), date: None, name: None, changed_via: None }
}

fn unavailable() -> GraphQLResponse {
    GraphQLResponse {
        body: obj(vec![(
            "errors",
            JsonValue::Array(vec![obj(vec![("data", obj(vec![("errorCode", s("SYS_00004"))]))])]),
        )]),
        sections: no_sections(),
    }
}

#[test]
fn empty_batch_is_unavailable() {
    assert!(matches!(parse_response(vec![]), Err(VerisureError::ServiceUnavailable)));
}

#[test]
fn all_unavailable_is_unavailable() {
    assert!(matches!(parse_response(vec![unavailable(), unavailable()]), Err(VerisureError::ServiceUnavailable)));
}

#[test]
fn errored_answers_are_skipped() {
    let mut sections = no_sections();
    sections.arm_state = Some(Ok(arm("ARMED_AWAY")));
    let errored = GraphQLResponse {
        body: obj(vec![("errors", JsonValue::Array(vec![])), ("data", obj(vec![("installation", obj(vec![]))]))]),
        sections,
    };
    let d = parse_response(vec![unavailable(), errored]).unwrap();
    assert!(d.arm_state.is_none());
}

#[test]
fn later_answers_win_and_failures_keep_earlier() {
    let mut first = no_sections();
    first.arm_state = Some(Ok(arm("DISARMED")));
    first.broadband = Some(Ok(Broadband { test_date: None, is_broadband_connected: Some(true) }));
    let mut second = no_sections();
    second.arm_state = Some(Ok(arm("ARMED_HOME")));
    second.broadband = Some(Err("invalid type".to_string()));
    second.door_windows = Some(Ok(vec![DoorWindow {
        device: Device { device_label: "DW1".to_string(), area: None },
        state: "OPEN".to_string(),
        wired: None,
        report_time: None,
    }]));
    let no_installation = GraphQLResponse { body: obj(vec![("data", JsonValue::Null)]), sections: {
        let mut x = no_sections();
        x.arm_state = Some(Ok(arm("ARMED_AWAY")));
        x
    } };
    let d = parse_response(vec![
        GraphQLResponse { body: installation_body(), sections: first },
        GraphQLResponse { body: installation_body(), sections: second },
        no_installation,
    ])
    .unwrap();
    assert_eq!(d.arm_state.unwrap().status_type, "ARMED_HOME");
    assert_eq!(d.broadband.unwrap().is_broadband_connected, Some(true));
    assert_eq!(d.door_windows.len(), 1);
    assert!(d.climate_values.is_empty());
}

#[test]
fn fetch_unauthorized() {
    assert!(matches!(
        fetch_outcome(Reply::Status { status: 401, text: None }),
        Err(VerisureError::Auth(m)) if m == "Unauthorized"
    ));
}

#[test]
fn fetch_server_error() {
    match fetch_outcome(Reply::Status { status: 502, text: Some("upstream".to_string()) }) {
        Err(VerisureError::Api(m)) => assert_eq!(m, "GraphQL request failed 502 Bad Gateway: upstream"),
        other => panic!("unexpected {:?}", other),
    }
}

#[test]
fn fetch_body_is_merged() {
    let mut sec = no_sections();
    sec.arm_state = Some(Ok(arm("DISARMED")));
    let d = fetch_outcome(Reply::Body(vec![unavailable(), GraphQLResponse { body: installation_body(), sections: sec }])).unwrap();
    assert_eq!(d.arm_state.unwrap().status_type, "DISARMED");
}

#[test]
fn rejection_messages() {
    assert!(matches!(login_rejected("418 I'm a teapot", &None), VerisureError::Auth(m) if m == "Login failed with status 418 I'm a teapot: "));
    assert!(matches!(installations_rejected("500 X"), VerisureError::Api(m) if m == "Installations query failed with status 500 X"));
    assert!(matches!(fetch_rejected("503 Y", &Some("b".to_string())), VerisureError::Api(m) if m == "GraphQL request failed 503 Y: b"));
}

#[test]
fn unknown_status_is_displayed_with_placeholder() {
    match fetch_outcome(Reply::Status { status: 599, text: None }) {
        Err(VerisureError::Api(m)) => assert_eq!(m, "GraphQL request failed 599 <unknown status code>: "),
        other => panic!("unexpected {:?}", other),
    }
}
