//! Turning what a scrape learned into gauge values.
use vstd::prelude::*;

use crate::metrics::registry::{
    counter_value, gauge_family_values, gauge_value, StateMetric, ClimateLabels, DeviceLabels, InstallationLabels, LabelKey, Metrics,
};
use crate::text::{or_empty, owned, str_equal, string_or_empty};
use crate::verisure::types::{ArmState, Broadband, ClimateValue, Device, DoorLock, DoorWindow, SmartPlug, VerisureData};

verus! {

/// The Unix time, in seconds, that an RFC 3339 date and time denotes, if the
/// text is one.
pub uninterp spec fn rfc3339_seconds(text: Seq<char>) -> Option<i64>;

/// Reads an RFC 3339 date and time (`chrono::DateTime::parse_from_rfc3339`)
/// and gives its Unix time in seconds (`DateTime::timestamp`); `None` when
/// the text does not parse. The contract names the result.
#[verifier::external_body]
fn parse_timestamp(s: &str) -> (r: Option<i64>)
    ensures
        r == rfc3339_seconds(s@),
{
    match chrono::DateTime::parse_from_rfc3339(s) {
        Ok(dt) => Some(dt.timestamp()),
        Err(_) => None,
    }
}

/// Arm state: 0 disarmed, 1 armed home, 2 armed away, -1 unknown.
pub open spec fn spec_arm_value(status: Seq<char>) -> int {
    if status == "DISARMED"@ {
        0
    } else if status == "ARMED_HOME"@ {
        1
    } else if status == "ARMED_AWAY"@ {
        2
    } else {
        -1
    }
}

/// Door or window: 1 open, 0 closed, -1 unknown.
pub open spec fn spec_door_window_value(state: Seq<char>) -> int {
    if state == "OPEN"@ {
        1
    } else if state == "CLOSE"@ || state == "CLOSED"@ {
        0
    } else {
        -1
    }
}

/// Lock: 1 locked, 0 unlocked, -1 unknown or not reported.
pub open spec fn spec_lock_value(status: Option<String>) -> int {
    match status {
        Some(s) => if s@ == "LOCKED"@ {
            1
        } else if s@ == "UNLOCKED"@ {
            0
        } else {
            -1
        },
        None => -1,
    }
}

/// Smart plug: 1 on, 0 off, -1 unknown.
pub open spec fn spec_plug_value(state: Seq<char>) -> int {
    if state == "ON"@ {
        1
    } else if state == "OFF"@ {
        0
    } else {
        -1
    }
}

/// A reported flag: 1 when it is reported true, 0 otherwise.
pub open spec fn spec_flag_value(flag: Option<bool>) -> int {
    if flag == Some(true) { 1 } else { 0 }
}

/// The gauge value of an arm state.
pub fn arm_state_value(status: &str) -> (v: i64)
    ensures
        v == spec_arm_value(status@),
{
    if str_equal(status, "DISARMED") {
        0
    } else if str_equal(status, "ARMED_HOME") {
        1
    } else if str_equal(status, "ARMED_AWAY") {
        2
    } else {
        -1
    }
}

/// The gauge value of a door or window state.
pub fn door_window_value(state: &str) -> (v: i64)
    ensures
        v == spec_door_window_value(state@),
{
    if str_equal(state, "OPEN") {
        1
    } else if str_equal(state, "CLOSE") || str_equal(state, "CLOSED") {
        0
    } else {
        -1
    }
}

/// The gauge value of a lock status.
pub fn lock_value(status: &Option<String>) -> (v: i64)
    ensures
        v == spec_lock_value(*status),
{
    match status {
        Some(s) => if str_equal(s.as_str(), "LOCKED") {
            1
        } else if str_equal(s.as_str(), "UNLOCKED") {
            0
        } else {
            -1
        },
        None => -1,
    }
}

/// The gauge value of a smart plug state.
pub fn plug_value(state: &str) -> (v: i64)
    ensures
        v == spec_plug_value(state@),
{
    if str_equal(state, "ON") {
        1
    } else if str_equal(state, "OFF") {
        0
    } else {
        -1
    }
}

/// The gauge value of a reported flag.
pub fn flag_value(flag: Option<bool>) -> (v: i64)
    ensures
        v == spec_flag_value(flag),
{
    match flag {
        Some(true) => 1,
        _ => 0,
    }
}

/// The label set of a metric about installation `giid`.
pub open spec fn installation_key(giid: Seq<char>) -> LabelKey {
    seq![("installation"@, giid)]
}

/// The label set of a metric about device `d` of installation `giid`.
pub open spec fn device_key(giid: Seq<char>, d: Device) -> LabelKey {
    seq![("installation"@, giid), ("device_label"@, d.device_label@), ("area"@, or_empty(d.area))]
}

/// The label set of a metric about climate sensor `cv` of installation `giid`.
pub open spec fn climate_key(giid: Seq<char>, cv: ClimateValue) -> LabelKey {
    seq![
        ("installation"@, giid),
        ("device_label"@, cv.device.device_label@),
        ("area"@, or_empty(cv.device.area)),
        ("device_type"@, or_empty(cv.device_type)),
    ]
}

/// The labels of a metric about installation `giid`.
pub fn installation_labels(giid: &str) -> (l: InstallationLabels)
    ensures
        l.key() == installation_key(giid@),
{
    InstallationLabels { installation: owned(giid) }
}

/// The labels of a metric about device `d` of installation `giid`; an area
/// that is not reported is the empty text.
pub fn device_labels(giid: &str, d: &Device) -> (l: DeviceLabels)
    ensures
        l.key() == device_key(giid@, *d),
{
    DeviceLabels {
        installation: owned(giid),
        device_label: d.device_label.clone(),
        area: string_or_empty(&d.area),
    }
}

/// The labels of a metric about climate sensor `cv` of installation `giid`;
/// an area or device type that is not reported is the empty text.
pub fn climate_labels(giid: &str, cv: &ClimateValue) -> (l: ClimateLabels)
    ensures
        l.key() == climate_key(giid@, *cv),
{
    ClimateLabels {
        installation: owned(giid),
        device_label: cv.device.device_label.clone(),
        area: string_or_empty(&cv.device.area),
        device_type: string_or_empty(&cv.device_type),
    }
}

/// The arm state gauges after a scrape that reported `arm`.
pub open spec fn armed_after(m: Map<LabelKey, int>, giid: Seq<char>, arm: Option<ArmState>) -> Map<LabelKey, int> {
    match arm {
        Some(a) => m.insert(installation_key(giid), spec_arm_value(a.status_type@)),
        None => m,
    }
}

/// A timestamp gauge after a report at `time`: set when the time parses.
pub open spec fn stamped(m: Map<LabelKey, int>, key: LabelKey, time: Option<String>) -> Map<LabelKey, int> {
    match time {
        Some(t) => match rfc3339_seconds(t@) {
            Some(s) => m.insert(key, s as int),
            None => m,
        },
        None => m,
    }
}

/// The arm change gauges after a scrape that reported `arm`.
pub open spec fn arm_changed_after(m: Map<LabelKey, int>, giid: Seq<char>, arm: Option<ArmState>) -> Map<LabelKey, int> {
    match arm {
        Some(a) => stamped(m, installation_key(giid), a.date),
        None => m,
    }
}

/// The door and window gauges after the sensors `dws`, in order.
pub open spec fn door_open_after(m: Map<LabelKey, int>, giid: Seq<char>, dws: Seq<DoorWindow>) -> Map<LabelKey, int>
    decreases dws.len(),
{
    if dws.len() == 0 {
        m
    } else {
        door_open_after(m, giid, dws.drop_last()).insert(
            device_key(giid, dws.last().device),
            spec_door_window_value(dws.last().state@),
        )
    }
}

/// The door and window report time gauges after the sensors `dws`, in order.
pub open spec fn door_report_after(m: Map<LabelKey, int>, giid: Seq<char>, dws: Seq<DoorWindow>) -> Map<LabelKey, int>
    decreases dws.len(),
{
    if dws.len() == 0 {
        m
    } else {
        stamped(door_report_after(m, giid, dws.drop_last()), device_key(giid, dws.last().device), dws.last().report_time)
    }
}

/// The locked gauges after the locks `ls`, in order.
pub open spec fn locked_after(m: Map<LabelKey, int>, giid: Seq<char>, ls: Seq<DoorLock>) -> Map<LabelKey, int>
    decreases ls.len(),
{
    if ls.len() == 0 {
        m
    } else {
        locked_after(m, giid, ls.drop_last()).insert(device_key(giid, ls.last().device), spec_lock_value(ls.last().lock_status))
    }
}

/// The motor jam gauges after the locks `ls`, in order.
pub open spec fn jammed_after(m: Map<LabelKey, int>, giid: Seq<char>, ls: Seq<DoorLock>) -> Map<LabelKey, int>
    decreases ls.len(),
{
    if ls.len() == 0 {
        m
    } else {
        jammed_after(m, giid, ls.drop_last()).insert(device_key(giid, ls.last().device), spec_flag_value(ls.last().motor_jam))
    }
}

/// The secure mode gauges after the locks `ls`, in order.
pub open spec fn secure_after(m: Map<LabelKey, int>, giid: Seq<char>, ls: Seq<DoorLock>) -> Map<LabelKey, int>
    decreases ls.len(),
{
    if ls.len() == 0 {
        m
    } else {
        secure_after(m, giid, ls.drop_last()).insert(
            device_key(giid, ls.last().device),
            spec_flag_value(ls.last().secure_mode_active),
        )
    }
}

/// The smart plug gauges after the plugs `ps`, in order.
pub open spec fn plug_after(m: Map<LabelKey, int>, giid: Seq<char>, ps: Seq<SmartPlug>) -> Map<LabelKey, int>
    decreases ps.len(),
{
    if ps.len() == 0 {
        m
    } else {
        plug_after(m, giid, ps.drop_last()).insert(device_key(giid, ps.last().device), spec_plug_value(ps.last().current_state@))
    }
}

/// The broadband gauges after a scrape that reported `bb`.
pub open spec fn broadband_after(m: Map<LabelKey, int>, giid: Seq<char>, bb: Option<Broadband>) -> Map<LabelKey, int> {
    match bb {
        Some(b) => m.insert(installation_key(giid), spec_flag_value(b.is_broadband_connected)),
        None => m,
    }
}

/// The families other than `a` and `b`, the success gauge and the error
/// counter are as they were.
pub open spec fn others_unchanged(old: Metrics, new: Metrics, a: StateMetric, b: StateMetric) -> bool {
    &&& forall|w: StateMetric| w != a && w != b ==> #[trigger] new.values(w) == old.values(w)
    &&& new.scrape_metrics_kept(old)
}

/// Records the arm state `arm` of installation `giid`, and the time of its
/// last change when that time is known (`changed`, in Unix seconds).
pub fn record_arm_state(metrics: &mut Metrics, giid: &str, arm: &ArmState, changed: Option<i64>)
    ensures
        final(metrics).values(StateMetric::AlarmArmedState) == old(metrics).values(StateMetric::AlarmArmedState).insert(
            installation_key(giid@),
            spec_arm_value(arm.status_type@),
        ),
        final(metrics).values(StateMetric::AlarmChangedTimestamp) == (match changed {
            Some(t) => old(metrics).values(StateMetric::AlarmChangedTimestamp).insert(installation_key(giid@), t as int),
            None => old(metrics).values(StateMetric::AlarmChangedTimestamp),
        }),
        others_unchanged(*old(metrics), *final(metrics), StateMetric::AlarmArmedState, StateMetric::AlarmChangedTimestamp),
{
    let labels = installation_labels(giid).pairs();
    metrics.alarm_armed_state.set(&labels, arm_state_value(arm.status_type.as_str()));
    if let Some(t) = changed {
        metrics.alarm_changed_timestamp.set(&labels, t);
    }
}

/// Records door or window sensor `dw` of installation `giid`, and the time
/// of its last report when that time is known (`reported`, in Unix seconds).
pub fn record_door_window(metrics: &mut Metrics, giid: &str, dw: &DoorWindow, reported: Option<i64>)
    ensures
        final(metrics).values(StateMetric::DoorWindowOpen) == old(metrics).values(StateMetric::DoorWindowOpen).insert(
            device_key(giid@, dw.device),
            spec_door_window_value(dw.state@),
        ),
        final(metrics).values(StateMetric::DoorWindowReportTimestamp) == (match reported {
            Some(t) => old(metrics).values(StateMetric::DoorWindowReportTimestamp).insert(device_key(giid@, dw.device), t as int),
            None => old(metrics).values(StateMetric::DoorWindowReportTimestamp),
        }),
        others_unchanged(*old(metrics), *final(metrics), StateMetric::DoorWindowOpen, StateMetric::DoorWindowReportTimestamp),
{
    let labels = device_labels(giid, &dw.device).pairs();
    metrics.door_window_open.set(&labels, door_window_value(dw.state.as_str()));
    if let Some(t) = reported {
        metrics.door_window_report_timestamp.set(&labels, t);
    }
}

/// Records smart lock `lock` of installation `giid`: whether it is locked,
/// whether its motor is jammed, whether secure mode is on.
pub fn record_lock(metrics: &mut Metrics, giid: &str, lock: &DoorLock)
    ensures
        final(metrics).values(StateMetric::LockLocked) == old(metrics).values(StateMetric::LockLocked).insert(
            device_key(giid@, lock.device),
            spec_lock_value(lock.lock_status),
        ),
        final(metrics).values(StateMetric::LockMotorJam) == old(metrics).values(StateMetric::LockMotorJam).insert(
            device_key(giid@, lock.device),
            spec_flag_value(lock.motor_jam),
        ),
        final(metrics).values(StateMetric::LockSecureMode) == old(metrics).values(StateMetric::LockSecureMode).insert(
            device_key(giid@, lock.device),
            spec_flag_value(lock.secure_mode_active),
        ),
        forall|w: StateMetric|
            w != StateMetric::LockLocked && w != StateMetric::LockMotorJam && w != StateMetric::LockSecureMode
                ==> #[trigger] final(metrics).values(w) == old(metrics).values(w),
        final(metrics).scrape_metrics_kept(*old(metrics)),
{
    let labels = device_labels(giid, &lock.device).pairs();
    metrics.lock_locked.set(&labels, lock_value(&lock.lock_status));
    metrics.lock_motor_jam.set(&labels, flag_value(lock.motor_jam));
    metrics.lock_secure_mode.set(&labels, flag_value(lock.secure_mode_active));
}

/// Records smart plug `plug` of installation `giid`.
pub fn record_plug(metrics: &mut Metrics, giid: &str, plug: &SmartPlug)
    ensures
        final(metrics).values(StateMetric::SmartplugOn) == old(metrics).values(StateMetric::SmartplugOn).insert(
            device_key(giid@, plug.device),
            spec_plug_value(plug.current_state@),
        ),
        others_unchanged(*old(metrics), *final(metrics), StateMetric::SmartplugOn, StateMetric::SmartplugOn),
{
    let labels = device_labels(giid, &plug.device).pairs();
    metrics.smartplug_on.set(&labels, plug_value(plug.current_state.as_str()));
}

/// Records the broadband status `bb` of installation `giid`.
pub fn record_broadband(metrics: &mut Metrics, giid: &str, bb: &Broadband)
    ensures
        final(metrics).values(StateMetric::BroadbandConnected) == old(metrics).values(StateMetric::BroadbandConnected).insert(
            installation_key(giid@),
            spec_flag_value(bb.is_broadband_connected),
        ),
        others_unchanged(*old(metrics), *final(metrics), StateMetric::BroadbandConnected, StateMetric::BroadbandConnected),
{
    let labels = installation_labels(giid).pairs();
    metrics.broadband_connected.set(&labels, flag_value(bb.is_broadband_connected));
}

/// The Unix time of an optional RFC 3339 text.
fn parse_optional_timestamp(time: &Option<String>) -> (r: Option<i64>)
    ensures
        r == (match *time {
            Some(t) => rfc3339_seconds(t@),
            None => None,
        }),
{
    match time {
        Some(t) => parse_timestamp(t.as_str()),
        None => None,
    }
}

/// What the integer gauges of installation `giid` hold after a scrape that
/// learned `data`, starting from `old`; the success gauge and the error
/// counter are left as they were.
pub open spec fn updated(old: Metrics, new: Metrics, data: VerisureData, giid: Seq<char>) -> bool {
    &&& new.values(StateMetric::AlarmArmedState) == armed_after(old.values(StateMetric::AlarmArmedState), giid, data.arm_state)
    &&& new.values(StateMetric::AlarmChangedTimestamp) == arm_changed_after(old.values(StateMetric::AlarmChangedTimestamp), giid, data.arm_state)
    &&& new.values(StateMetric::DoorWindowOpen) == door_open_after(old.values(StateMetric::DoorWindowOpen), giid, data.door_windows@)
    &&& new.values(StateMetric::DoorWindowReportTimestamp) == door_report_after(old.values(StateMetric::DoorWindowReportTimestamp), giid, data.door_windows@)
    &&& new.values(StateMetric::LockLocked) == locked_after(old.values(StateMetric::LockLocked), giid, data.door_locks@)
    &&& new.values(StateMetric::LockMotorJam) == jammed_after(old.values(StateMetric::LockMotorJam), giid, data.door_locks@)
    &&& new.values(StateMetric::LockSecureMode) == secure_after(old.values(StateMetric::LockSecureMode), giid, data.door_locks@)
    &&& new.values(StateMetric::SmartplugOn) == plug_after(old.values(StateMetric::SmartplugOn), giid, data.smart_plugs@)
    &&& new.values(StateMetric::BroadbandConnected) == broadband_after(old.values(StateMetric::BroadbandConnected), giid, data.broadband)
    &&& new.scrape_metrics_kept(old)
}

/// Sets the integer gauges of installation `giid` from what a scrape
/// learned: the arm state and the time it changed, each door or window
/// sensor and its report time, each lock, each smart plug, the broadband
/// status. Gauges of devices that the scrape did not report keep their
/// values; a time that does not parse leaves its gauge as it was. The
/// success gauge and the error counter are not touched.
pub fn update_metrics(data: &VerisureData, metrics: &mut Metrics, giid: &str)
    ensures
        updated(*old(metrics), *final(metrics), *data, giid@),
        gauge_value(final(metrics).scrape_success) == gauge_value(old(metrics).scrape_success),
        counter_value(final(metrics).scrape_errors_total) == counter_value(old(metrics).scrape_errors_total),
{
    let ghost m0 = *metrics;
    if let Some(arm) = &data.arm_state {
        let changed = parse_optional_timestamp(&arm.date);
        record_arm_state(metrics, giid, arm, changed);
    }
    let ghost m1 = *metrics;
    assert(metrics.values(StateMetric::AlarmArmedState) == armed_after(m0.values(StateMetric::AlarmArmedState), giid@, data.arm_state));
    assert(metrics.values(StateMetric::AlarmChangedTimestamp) == arm_changed_after(m0.values(StateMetric::AlarmChangedTimestamp), giid@, data.arm_state));

    let dws = &data.door_windows;
    let n = dws.len();
    let mut i: usize = 0;
    while i < n
        invariant
            n == dws@.len(),
            i <= n,
            metrics.values(StateMetric::DoorWindowOpen) == door_open_after(m1.values(StateMetric::DoorWindowOpen), giid@, dws@.take(i as int)),
            metrics.values(StateMetric::DoorWindowReportTimestamp) == door_report_after(m1.values(StateMetric::DoorWindowReportTimestamp), giid@, dws@.take(i as int)),
            others_unchanged(m1, *metrics, StateMetric::DoorWindowOpen, StateMetric::DoorWindowReportTimestamp),
        decreases n - i,
    {
        let dw = &dws[i];
        let reported = parse_optional_timestamp(&dw.report_time);
        record_door_window(metrics, giid, dw, reported);
        assert(dws@.take(i + 1).drop_last() =~= dws@.take(i as int));
        assert(dws@.take(i + 1).last() == dws@[i as int]);
        i = i + 1;
    }
    assert(dws@.take(n as int) =~= dws@);
    let ghost m2 = *metrics;

    let ls = &data.door_locks;
    let n = ls.len();
    let mut i: usize = 0;
    while i < n
        invariant
            n == ls@.len(),
            i <= n,
            metrics.values(StateMetric::LockLocked) == locked_after(m2.values(StateMetric::LockLocked), giid@, ls@.take(i as int)),
            metrics.values(StateMetric::LockMotorJam) == jammed_after(m2.values(StateMetric::LockMotorJam), giid@, ls@.take(i as int)),
            metrics.values(StateMetric::LockSecureMode) == secure_after(m2.values(StateMetric::LockSecureMode), giid@, ls@.take(i as int)),
            forall|w: StateMetric|
                w != StateMetric::LockLocked && w != StateMetric::LockMotorJam && w != StateMetric::LockSecureMode
                    ==> #[trigger] metrics.values(w) == m2.values(w),
            metrics.scrape_metrics_kept(m2),
        decreases n - i,
    {
        record_lock(metrics, giid, &ls[i]);
        assert(ls@.take(i + 1).drop_last() =~= ls@.take(i as int));
        assert(ls@.take(i + 1).last() == ls@[i as int]);
        i = i + 1;
    }
    assert(ls@.take(n as int) =~= ls@);
    let ghost m3 = *metrics;

    let ps = &data.smart_plugs;
    let n = ps.len();
    let mut i: usize = 0;
    while i < n
        invariant
            n == ps@.len(),
            i <= n,
            metrics.values(StateMetric::SmartplugOn) == plug_after(m3.values(StateMetric::SmartplugOn), giid@, ps@.take(i as int)),
            others_unchanged(m3, *metrics, StateMetric::SmartplugOn, StateMetric::SmartplugOn),
        decreases n - i,
    {
        record_plug(metrics, giid, &ps[i]);
        assert(ps@.take(i + 1).drop_last() =~= ps@.take(i as int));
        assert(ps@.take(i + 1).last() == ps@[i as int]);
        i = i + 1;
    }
    assert(ps@.take(n as int) =~= ps@);

    if let Some(bb) = &data.broadband {
        record_broadband(metrics, giid, bb);
    }
}

/// The gauges whose values are decimal numbers.
#[derive(Debug, PartialEq, Eq, Structural, Clone, Copy)]
pub enum FloatGauge {
    TemperatureCelsius,
    HumidityPercent,
}

/// One reading to store: the gauge, its label set, and the decimal text of
/// the value.
#[derive(Debug)]
pub struct FloatUpdate {
    pub gauge: FloatGauge,
    pub labels: Vec<(String, String)>,
    pub value: String,
}

pub open spec fn update_view(u: FloatUpdate) -> (FloatGauge, LabelKey, Seq<char>) {
    (u.gauge, u.labels.deep_view(), u.value@)
}

/// The readings of one climate sensor: its temperature, then its humidity,
/// each when reported.
pub open spec fn sensor_readings(giid: Seq<char>, cv: ClimateValue) -> Seq<(FloatGauge, LabelKey, Seq<char>)> {
    (match cv.temperature_value {
        Some(t) => seq![(FloatGauge::TemperatureCelsius, climate_key(giid, cv), t@)],
        None => Seq::empty(),
    }) + (match cv.humidity_value {
        Some(h) => seq![(FloatGauge::HumidityPercent, climate_key(giid, cv), h@)],
        None => Seq::empty(),
    })
}

/// The readings of the climate sensors `cvs`, sensor by sensor.
pub open spec fn climate_readings(giid: Seq<char>, cvs: Seq<ClimateValue>) -> Seq<(FloatGauge, LabelKey, Seq<char>)>
    decreases cvs.len(),
{
    if cvs.len() == 0 {
        Seq::empty()
    } else {
        climate_readings(giid, cvs.drop_last()) + sensor_readings(giid, cvs.last())
    }
}

/// The temperature and humidity readings that a scrape of installation
/// `giid` stores, in the order in which they are stored: sensor by sensor,
/// the temperature before the humidity, each only when reported.
pub fn float_updates(data: &VerisureData, giid: &str) -> (r: Vec<FloatUpdate>)
    ensures
        r@.map_values(|u: FloatUpdate| update_view(u)) == climate_readings(giid@, data.climate_values@),
{
    let cvs = &data.climate_values;
    let n = cvs.len();
    let mut r: Vec<FloatUpdate> = Vec::new();
    let mut i: usize = 0;
    while i < n
        invariant
            n == cvs@.len(),
            i <= n,
            r@.map_values(|u: FloatUpdate| update_view(u)) == climate_readings(giid@, cvs@.take(i as int)),
        decreases n - i,
    {
        let cv = &cvs[i];
        let ghost before = r@.map_values(|u: FloatUpdate| update_view(u));
        if let Some(t) = &cv.temperature_value {
            let labels = climate_labels(giid, cv).pairs();
            r.push(FloatUpdate { gauge: FloatGauge::TemperatureCelsius, labels, value: t.clone() });
        }
        let ghost mid = r@.map_values(|u: FloatUpdate| update_view(u));
        assert(mid =~= before + (match cv.temperature_value {
            Some(t) => seq![(FloatGauge::TemperatureCelsius, climate_key(giid@, *cv), t@)],
            None => Seq::empty(),
        }));
        if let Some(h) = &cv.humidity_value {
            let labels = climate_labels(giid, cv).pairs();
            r.push(FloatUpdate { gauge: FloatGauge::HumidityPercent, labels, value: h.clone() });
        }
        assert(r@.map_values(|u: FloatUpdate| update_view(u)) =~= before + sensor_readings(giid@, *cv));
        assert(cvs@.take(i + 1).drop_last() =~= cvs@.take(i as int));
        assert(cvs@.take(i + 1).last() == cvs@[i as int]);
        i = i + 1;
    }
    assert(cvs@.take(n as int) =~= cvs@);
    r
}

} // verus!
