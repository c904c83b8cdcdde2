use verisure_exporter::config::Config;
use verisure_exporter::verisure::client::{Action, Request, VerisureClient};
use verisure_exporter::verisure::reply::VerisureError;
use verisure_exporter::verisure::types::VerisureData;

fn config(urls: &[&str], giid: Option<&str>) -> Config {
    Config {
        username: "me@example.com".to_string(),
        password: "secret".to_string(),
        giid: giid.map(|g| g.to_string()),
        listen_address: "0.0.0.0:9878".to_string(),
        metrics_path: "/metrics".to_string(),
        poll_interval: 60,
        api_url: urls.iter().map(|u| u.to_string()).collect(),
        log_level: "info".to_string(),
        api_introspection: false,
    }
}

fn login_url(a: &Action) -> String {
    match a {
        Action::Send(Request::Login { url, username, password }) => {
            assert_eq!(username, "me@example.com");
            assert_eq!(password, "secret");
            url.clone()
        }
        other => panic!("expected a login, got {:?}", other),
    }
}

fn fetch_url(a: &Action) -> String {
    match a {
        Action::Send(Request::Fetch { url, queries }) => {
            assert_eq!(queries.len(), 6);
            url.clone()
        }
        other => panic!("expected a data request, got {:?}", other),
    }
}

fn empty() -> VerisureData {
    VerisureData::default()
}

#[test]
fn new_client_uses_first_endpoint() {
    let c = VerisureClient::new(&config(&["https://a", "https://b"], None));
    assert_eq!(c.active_url(), "https://a");
    assert!(c.get_giid().is_none());
    assert!(c.is_idle());
    let c = VerisureClient::new(&config(&[], Some("9")));
    assert_eq!(c.active_url(), "");
    assert_eq!(c.get_giid().as_deref(), Some("9"));
}

#[test]
fn init_detects_installation() {
    let mut c = VerisureClient::new(&config(&["https://a"], None));
    let a = c.start_init();
    assert_eq!(login_url(&a), "https://a/auth/login");
    let a = c.on_login(Ok(()));
    match &a {
        Action::Send(Request::Installations { url, query }) => {
            assert_eq!(url, "https://a/graphql");
            assert_eq!(query.variables.clone().unwrap().1, "me@example.com");
        }
        other => panic!("unexpected {:?}", other),
    }
    let a = c.on_installations(Ok("123".to_string()));
    assert!(matches!(a, Action::InitDone(Ok(()))));
    assert_eq!(c.get_giid().as_deref(), Some("123"));
    assert!(c.is_idle());
}

#[test]
fn init_with_configured_giid_skips_lookup() {
    let mut c = VerisureClient::new(&config(&["https://a"], Some("77")));
    c.start_init();
    assert!(matches!(c.on_login(Ok(())), Action::InitDone(Ok(()))));
    assert_eq!(c.get_giid().as_deref(), Some("77"));
}

#[test]
fn init_moves_to_next_endpoint_then_gives_up() {
    let mut c = VerisureClient::new(&config(&["https://a", "https://b"], None));
    c.start_init();
    let a = c.on_login(Err(VerisureError::Auth("no".to_string())));
    assert_eq!(login_url(&a), "https://b/auth/login");
    assert_eq!(c.active_url(), "https://b");
    c.on_login(Ok(()));
    let a = c.on_installations(Err(VerisureError::MultipleInstallations));
    match a {
        Action::InitDone(Err(VerisureError::Auth(m))) => assert_eq!(m, "All API endpoints failed during init"),
        other => panic!("unexpected {:?}", other),
    }
    assert!(c.is_idle());
    assert_eq!(c.active_url(), "https://b");
}

#[test]
fn init_without_endpoints_fails() {
    let mut c = VerisureClient::new(&config(&[], None));
    assert!(matches!(c.start_init(), Action::InitDone(Err(VerisureError::Auth(_)))));
}

#[test]
fn fetch_without_giid_fails() {
    let mut c = VerisureClient::new(&config(&["https://a"], None));
    match c.start_fetch() {
        Action::FetchDone(Err(VerisureError::Api(m))) => assert_eq!(m, "GIID not set"),
        other => panic!("unexpected {:?}", other),
    }
}

#[test]
fn fetch_success_is_delivered() {
    let mut c = VerisureClient::new(&config(&["https://a"], Some("1")));
    let a = c.start_fetch();
    assert_eq!(fetch_url(&a), "https://a/graphql");
    assert!(matches!(c.on_fetch(Ok(empty())), Action::FetchDone(Ok(_))));
    assert!(c.is_idle());
}

#[test]
fn fetch_reauthenticates_once() {
    let mut c = VerisureClient::new(&config(&["https://a"], Some("1")));
    c.start_fetch();
    let a = c.on_fetch(Err(VerisureError::Auth("Unauthorized".to_string())));
    assert_eq!(login_url(&a), "https://a/auth/login");
    let a = c.on_login(Ok(()));
    assert_eq!(fetch_url(&a), "https://a/graphql");
    let a = c.on_fetch(Err(VerisureError::Auth("Unauthorized".to_string())));
    assert!(matches!(a, Action::FetchDone(Err(VerisureError::Auth(_)))));
    assert!(c.is_idle());
}

#[test]
fn fetch_relogin_failure_ends_scrape() {
    let mut c = VerisureClient::new(&config(&["https://a"], Some("1")));
    c.start_fetch();
    c.on_fetch(Err(VerisureError::Auth("Unauthorized".to_string())));
    let a = c.on_login(Err(VerisureError::Http("down".to_string())));
    assert!(matches!(a, Action::FetchDone(Err(VerisureError::Http(m))) if m == "down"));
}

#[test]
fn fetch_fails_over_to_other_endpoints() {
    let mut c = VerisureClient::new(&config(&["https://a", "https://b", "https://c"], Some("1")));
    c.start_fetch();
    let a = c.on_fetch(Err(VerisureError::ServiceUnavailable));
    assert_eq!(login_url(&a), "https://b/auth/login");
    let a = c.on_login(Ok(()));
    assert_eq!(fetch_url(&a), "https://b/graphql");
    let a = c.on_fetch(Err(VerisureError::ServiceUnavailable));
    assert_eq!(login_url(&a), "https://c/auth/login");
    let a = c.on_login(Err(VerisureError::Auth("x".to_string())));
    assert!(matches!(a, Action::FetchDone(Err(VerisureError::ServiceUnavailable))));
    assert_eq!(c.active_url(), "https://c");
}

#[test]
fn failover_success_is_delivered() {
    let mut c = VerisureClient::new(&config(&["https://a", "https://b"], Some("1")));
    c.start_fetch();
    c.on_fetch(Err(VerisureError::ServiceUnavailable));
    c.on_login(Ok(()));
    assert!(matches!(c.on_fetch(Ok(empty())), Action::FetchDone(Ok(_))));
    assert_eq!(c.active_url(), "https://b");
}

#[test]
fn failover_with_single_endpoint_is_unavailable() {
    let mut c = VerisureClient::new(&config(&["https://a"], Some("1")));
    c.start_fetch();
    assert!(matches!(c.on_fetch(Err(VerisureError::ServiceUnavailable)), Action::FetchDone(Err(VerisureError::ServiceUnavailable))));
}

#[test]
fn other_fetch_errors_end_scrape() {
    let mut c = VerisureClient::new(&config(&["https://a", "https://b"], Some("1")));
    c.start_fetch();
    assert!(matches!(c.on_fetch(Err(VerisureError::Json("x".to_string()))), Action::FetchDone(Err(VerisureError::Json(_)))));
}

#[test]
fn configured_giid_survives_a_run() {
    let mut c = VerisureClient::new(&config(&["https://a", "https://b"], Some("42")));
    c.start_init();
    c.on_login(Err(VerisureError::Auth("no".to_string())));
    assert!(matches!(c.on_login(Ok(())), Action::InitDone(Ok(()))));
    c.start_fetch();
    c.on_fetch(Err(VerisureError::Auth("expired".to_string())));
    c.on_login(Ok(()));
    c.on_fetch(Err(VerisureError::ServiceUnavailable));
    c.start_fetch();
    c.on_fetch(Err(VerisureError::ServiceUnavailable));
    c.on_login(Ok(()));
    c.on_fetch(Ok(empty()));
    assert_eq!(c.get_giid().as_deref(), Some("42"));
    assert!(c.is_idle());
}
