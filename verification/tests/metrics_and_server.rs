use verisure_exporter::metrics::collector::{
    arm_state_value, door_window_value, float_updates, lock_value, plug_value, update_metrics,
    FloatGauge,
};
use verisure_exporter::metrics::registry::{
    metric_help, metric_name, metric_prefix, registration_order, ClimateLabels, DeviceLabels,
    ExporterMetric, GaugeFamily, InstallationLabels, Metrics, StateMetric,
};
use verisure_exporter::server::{handle_request, landing_page, route, scrape_report, Route};
use verisure_exporter::verisure::types::{
    ArmState, Broadband, ClimateValue, Device, DoorLock, DoorWindow, SmartPlug, VerisureData,
};

fn pairs(v: &[(&str, &str)]) -> Vec<(String, String)> {
    v.iter().map(|(a, b)| (a.to_string(), b.to_string())).collect()
}

fn dev(label: &str, area: Option<&str>) -> Device {
    Device { device_label: label.to_string(), area: area.map(|a| a.to_string()) }
}

#[test]
fn state_values_follow_the_documented_encoding() {
    assert_eq!(arm_state_value("DISARMED"), 0);
    assert_eq!(arm_state_value("ARMED_HOME"), 1);
    assert_eq!(arm_state_value("ARMED_AWAY"), 2);
    assert_eq!(arm_state_value("armed_away"), -1);
    assert_eq!(door_window_value("OPEN"), 1);
    assert_eq!(door_window_value("CLOSE"), 0);
    assert_eq!(door_window_value("CLOSED"), 0);
    assert_eq!(door_window_value("AJAR"), -1);
    assert_eq!(lock_value(&Some("LOCKED".to_string())), 1);
    assert_eq!(lock_value(&Some("UNLOCKED".to_string())), 0);
    assert_eq!(lock_value(&Some("PENDING".to_string())), -1);
    assert_eq!(lock_value(&None), -1);
    assert_eq!(plug_value("ON"), 1);
    assert_eq!(plug_value("OFF"), 0);
    assert_eq!(plug_value("?"), -1);
}

#[test]
fn label_pairs_in_field_order() {
    let l = DeviceLabels { installation: "g".into(), device_label: "D".into(), area: "Hall".into() };
    assert_eq!(l.pairs(), pairs(&[("installation", "g"), ("device_label", "D"), ("area", "Hall")]));
    let l = ClimateLabels { installation: "g".into(), device_label: "D".into(), area: "".into(), device_type: "SMOKE3".into() };
    assert_eq!(
        l.pairs(),
        pairs(&[("installation", "g"), ("device_label", "D"), ("area", ""), ("device_type", "SMOKE3")])
    );
    assert_eq!(InstallationLabels { installation: "g".into() }.pairs(), pairs(&[("installation", "g")]));
}

#[test]
fn gauge_family_set_and_get() {
    let mut f = GaugeFamily::new();
    let k = pairs(&[("installation", "g")]);
    assert_eq!(f.get(&k), None);
    f.set(&k, 5);
    f.set(&k, 7);
    assert_eq!(f.get(&k), Some(7));
    assert_eq!(f.get(&pairs(&[("installation", "h")])), None);
}

fn sample() -> VerisureData {
    VerisureData {
        arm_state: Some(ArmState {
            status_type: "ARMED_HOME".into(),
            date: Some("2024-01-01T00:00:00.000Z".into()),
            name: None,
            changed_via: None,
        }),
        climate_values: vec![ClimateValue {
            device: dev("ABCD 1234", Some("Living Room")),
            device_type: Some("SMOKE3".into()),
            humidity_enabled: Some(true),
            humidity_timestamp: None,
            humidity_value: Some("45".into()),
            temperature_timestamp: None,
            temperature_value: Some("21.5".into()),
        }],
        door_windows: vec![
            DoorWindow { device: dev("IJKL 9012", Some("Front Door")), state: "CLOSE".into(), wired: None, report_time: Some("2023-11-14T22:13:20+01:00".into()) },
            DoorWindow { device: dev("QRST", None), state: "OPEN".into(), wired: None, report_time: Some("yesterday".into()) },
        ],
        door_locks: vec![DoorLock {
            device: dev("MNOP 3456", Some("Front Door")),
            lock_status: Some("LOCKED".into()),
            door_state: None,
            lock_method: None,
            event_time: None,
            door_lock_type: None,
            secure_mode: None,
            user_string: None,
            motor_jam: Some(true),
            secure_mode_active: None,
        }],
        smart_plugs: vec![SmartPlug { device: dev("PLUG", Some("Kitchen")), current_state: "ON".into(), icon: None, is_hazardous: None }],
        broadband: Some(Broadband { test_date: None, is_broadband_connected: Some(true) }),
    }
}

#[test]
fn update_sets_every_state_gauge() {
    let mut m = Metrics::new();
    update_metrics(&sample(), &mut m, "123456789012");
    let inst = pairs(&[("installation", "123456789012")]);
    assert_eq!(m.alarm_armed_state.get(&inst), Some(1));
    assert_eq!(m.alarm_changed_timestamp.get(&inst), Some(1704067200));
    let front = pairs(&[("installation", "123456789012"), ("device_label", "IJKL 9012"), ("area", "Front Door")]);
    assert_eq!(m.door_window_open.get(&front), Some(0));
    assert_eq!(m.door_window_report_timestamp.get(&front), Some(1699996400));
    let other = pairs(&[("installation", "123456789012"), ("device_label", "QRST"), ("area", "")]);
    assert_eq!(m.door_window_open.get(&other), Some(1));
    assert_eq!(m.door_window_report_timestamp.get(&other), None);
    let lock = pairs(&[("installation", "123456789012"), ("device_label", "MNOP 3456"), ("area", "Front Door")]);
    assert_eq!(m.lock_locked.get(&lock), Some(1));
    assert_eq!(m.lock_motor_jam.get(&lock), Some(1));
    assert_eq!(m.lock_secure_mode.get(&lock), Some(0));
    let plug = pairs(&[("installation", "123456789012"), ("device_label", "PLUG"), ("area", "Kitchen")]);
    assert_eq!(m.smartplug_on.get(&plug), Some(1));
    assert_eq!(m.broadband_connected.get(&inst), Some(1));
}

#[test]
fn unreported_devices_keep_their_gauges() {
    let mut m = Metrics::new();
    update_metrics(&sample(), &mut m, "g");
    let mut second = VerisureData::default();
    second.door_windows.push(DoorWindow { device: dev("QRST", None), state: "CLOSED".into(), wired: None, report_time: None });
    update_metrics(&second, &mut m, "g");
    let front = pairs(&[("installation", "g"), ("device_label", "IJKL 9012"), ("area", "Front Door")]);
    let other = pairs(&[("installation", "g"), ("device_label", "QRST"), ("area", "")]);
    assert_eq!(m.door_window_open.get(&front), Some(0));
    assert_eq!(m.door_window_open.get(&other), Some(0));
    assert_eq!(m.alarm_armed_state.get(&pairs(&[("installation", "g")])), Some(1));
}

#[test]
fn empty_scrape_sets_nothing() {
    let mut m = Metrics::new();
    update_metrics(&VerisureData::default(), &mut m, "g");
    assert_eq!(m.alarm_armed_state.get(&pairs(&[("installation", "g")])), None);
    assert_eq!(m.broadband_connected.get(&pairs(&[("installation", "g")])), None);
}

#[test]
fn climate_readings_in_order() {
    let mut data = sample();
    data.climate_values.push(ClimateValue {
        device: dev("EFGH 5678", Some("Bedroom")),
        device_type: None,
        humidity_enabled: None,
        humidity_timestamp: None,
        humidity_value: None,
        temperature_timestamp: None,
        temperature_value: Some("19.2".into()),
    });
    let u = float_updates(&data, "g");
    assert_eq!(u.len(), 3);
    assert_eq!(u[0].gauge, FloatGauge::TemperatureCelsius);
    assert_eq!(u[0].value, "21.5");
    assert_eq!(
        u[0].labels,
        pairs(&[("installation", "g"), ("device_label", "ABCD 1234"), ("area", "Living Room"), ("device_type", "SMOKE3")])
    );
    assert_eq!(u[1].gauge, FloatGauge::HumidityPercent);
    assert_eq!(u[1].value, "45");
    assert_eq!(u[2].gauge, FloatGauge::TemperatureCelsius);
    assert_eq!(u[2].labels, pairs(&[("installation", "g"), ("device_label", "EFGH 5678"), ("area", "Bedroom"), ("device_type", "")]));
}

#[test]
fn metric_catalogue() {
    assert_eq!(metric_prefix(), "verisure");
    let order = registration_order();
    assert_eq!(order.len(), 14);
    let names: Vec<String> = order.iter().map(metric_name).collect();
    assert_eq!(names[0], "alarm_armed_state");
    assert_eq!(names[1], "alarm_changed_timestamp_seconds");
    assert_eq!(names[2], "temperature_celsius");
    assert_eq!(names[3], "humidity_percent");
    assert_eq!(names[13], "scrape_errors");
    assert_eq!(metric_help(&ExporterMetric::State(StateMetric::AlarmArmedState)), "Arm state: 0=disarmed, 1=armed_home, 2=armed_away");
    assert_eq!(metric_help(&ExporterMetric::State(StateMetric::DoorWindowOpen)), "1=open, 0=closed");
    assert_eq!(metric_help(&ExporterMetric::State(StateMetric::LockLocked)), "1=locked, 0=unlocked");
    assert_eq!(metric_help(&ExporterMetric::State(StateMetric::BroadbandConnected)), "1 if broadband connected");
    assert_eq!(metric_help(&ExporterMetric::ScrapeDurationSeconds), "Duration of the last scrape");
    assert_eq!(metric_help(&ExporterMetric::ScrapeSuccess), "1 if last scrape succeeded");
    assert_eq!(metric_name(&ExporterMetric::State(StateMetric::DoorWindowReportTimestamp)), "door_window_report_timestamp_seconds");
}

#[test]
fn routing() {
    assert_eq!(route(true, "/metrics", "/metrics"), Route::Metrics);
    assert_eq!(route(true, "/healthz", "/metrics"), Route::Health);
    assert_eq!(route(true, "/readyz", "/metrics"), Route::Ready);
    assert_eq!(route(true, "/", "/metrics"), Route::Landing);
    assert_eq!(route(true, "/nope", "/metrics"), Route::NotFound);
    assert_eq!(route(false, "/metrics", "/metrics"), Route::NotFound);
    assert_eq!(route(true, "/healthz", "/healthz"), Route::Metrics);
}

#[test]
fn probe_answers() {
    let registry = prometheus_client::registry::Registry::default();
    let r = handle_request(true, "/healthz", &registry, "/metrics", false);
    assert_eq!((r.status, r.body.as_str()), (200, "OK"));
    let r = handle_request(true, "/readyz", &registry, "/metrics", false);
    assert_eq!((r.status, r.body.as_str()), (503, "Not ready"));
    let r = handle_request(true, "/readyz", &registry, "/metrics", true);
    assert_eq!((r.status, r.body.as_str()), (200, "OK"));
    let r = handle_request(false, "/healthz", &registry, "/metrics", true);
    assert_eq!((r.status, r.body.as_str()), (404, "Not Found"));
}

#[test]
fn landing_links_to_metrics() {
    assert_eq!(
        landing_page("/m"),
        "<html><head><title>Verisure Exporter</title></head><body><h1>Verisure Exporter</h1><p><a href=\"/m\">/m</a></p></body></html>"
    );
    let registry = prometheus_client::registry::Registry::default();
    let r = handle_request(true, "/", &registry, "/m", true);
    assert_eq!(r.status, 200);
    assert_eq!(r.content_type.as_deref(), Some("text/html"));
}

#[test]
fn metrics_are_encoded() {
    let mut registry = prometheus_client::registry::Registry::default();
    let mut m = Metrics::new();
    {
        let sub = registry.sub_registry_with_prefix(metric_prefix());
        let mut held = 0;
        for which in registration_order() {
            if m.register(sub, &which) {
                held += 1;
            }
        }
        assert_eq!(held, 11);
    }
    update_metrics(&sample(), &mut m, "123");
    assert!(m.record_scrape(false, false) == false);
    let r = handle_request(true, "/metrics", &registry, "/metrics", true);
    assert_eq!(r.status, 200);
    assert_eq!(r.content_type.as_deref(), Some("application/openmetrics-text; version=1.0.0; charset=utf-8"));
    assert!(r.body.contains("verisure_alarm_armed_state{installation=\"123\"} 1"));
    assert!(r.body.ends_with("# EOF\n"));
    assert!(r.body.contains("# HELP verisure_alarm_armed_state Arm state: 0=disarmed, 1=armed_home, 2=armed_away.\n"));
    assert!(r.body.contains("# HELP verisure_door_window_open 1=open, 0=closed.\n"));
    assert!(r.body.contains("# TYPE verisure_scrape_errors counter\n"));
    assert!(r.body.contains("verisure_scrape_errors_total 1\n"));
    assert!(r.body.contains("verisure_scrape_success 0\n"));
}

#[test]
fn held_metrics_are_registered_in_catalogue_order() {
    let mut registry = prometheus_client::registry::Registry::default();
    let mut m = Metrics::new();
    {
        let sub = registry.sub_registry_with_prefix(metric_prefix());
        m.register_held(sub, 0, 2);
        m.register_held(sub, 4, 14);
    }
    update_metrics(&sample(), &mut m, "123");
    let r = handle_request(true, "/metrics", &registry, "/metrics", false);
    assert_eq!(r.status, 200);
    let helps: Vec<&str> = r.body.lines().filter(|l| l.starts_with("# HELP ")).collect();
    assert_eq!(helps.len(), 11);
    assert_eq!(helps[0], "# HELP verisure_alarm_armed_state Arm state: 0=disarmed, 1=armed_home, 2=armed_away.");
    assert_eq!(helps[1], "# HELP verisure_alarm_changed_timestamp_seconds Unix timestamp of last arm state change.");
    assert_eq!(helps[2], "# HELP verisure_door_window_open 1=open, 0=closed.");
    assert_eq!(helps[8], "# HELP verisure_broadband_connected 1 if broadband connected.");
    assert_eq!(helps[9], "# HELP verisure_scrape_success 1 if last scrape succeeded.");
    assert_eq!(helps[10], "# HELP verisure_scrape_errors Total number of scrape errors.");
}

#[test]
fn scrape_outcomes_are_counted() {
    let mut m = Metrics::new();
    assert_eq!((m.scrape_success.get(), m.scrape_errors_total.get()), (0, 0));
    let mut ready = false;
    for ok in [false, true, false, false, true] {
        ready = m.record_scrape(ok, ready);
    }
    assert_eq!(m.scrape_errors_total.get(), 3);
    assert_eq!(m.scrape_success.get(), 1);
    assert!(ready);
    ready = m.record_scrape(false, ready);
    assert_eq!((m.scrape_success.get(), m.scrape_errors_total.get()), (0, 4));
    assert!(ready);
    let mut fresh = Metrics::new();
    assert!(!fresh.record_scrape(false, false));
}

#[test]
fn storing_a_scrape_twice_changes_nothing() {
    let mut m = Metrics::new();
    update_metrics(&sample(), &mut m, "123");
    let before: Vec<Option<i64>> = all_values(&m);
    update_metrics(&sample(), &mut m, "123");
    assert_eq!(all_values(&m), before);
}

#[test]
fn storing_a_scrape_keeps_the_scrape_metrics() {
    let mut m = Metrics::new();
    let ready = m.record_scrape(false, false);
    assert!(!ready);
    update_metrics(&sample(), &mut m, "123");
    assert_eq!((m.scrape_success.get(), m.scrape_errors_total.get()), (0, 1));
    assert!(m.record_scrape(true, ready));
    update_metrics(&sample(), &mut m, "123");
    assert_eq!((m.scrape_success.get(), m.scrape_errors_total.get()), (1, 1));
}

fn all_values(m: &Metrics) -> Vec<Option<i64>> {
    let inst = pairs(&[("installation", "123")]);
    let door = pairs(&[("installation", "123"), ("device_label", "IJKL 9012"), ("area", "Front Door")]);
    let lock = pairs(&[("installation", "123"), ("device_label", "MNOP 3456"), ("area", "Front Door")]);
    let plug = pairs(&[("installation", "123"), ("device_label", "PLUG"), ("area", "Kitchen")]);
    vec![
        m.alarm_armed_state.get(&inst),
        m.alarm_changed_timestamp.get(&inst),
        m.door_window_open.get(&door),
        m.door_window_report_timestamp.get(&door),
        m.lock_locked.get(&lock),
        m.lock_motor_jam.get(&lock),
        m.lock_secure_mode.get(&lock),
        m.smartplug_on.get(&plug),
        m.broadband_connected.get(&inst),
    ]
}

#[test]
fn scrape_reports() {
    let r = scrape_report(true, false);
    assert_eq!((r.success, r.count_error, r.ready), (1, false, true));
    let r = scrape_report(false, true);
    assert_eq!((r.success, r.count_error, r.ready), (0, true, true));
    let r = scrape_report(false, false);
    assert_eq!((r.success, r.count_error, r.ready), (0, true, false));
}
