//! The exporter's metrics: their names, help texts and label sets, and the
//! gauge families that hold the installation's state.
use vstd::prelude::*;

use prometheus_client::metrics::counter::Counter;
use prometheus_client::metrics::family::Family;
use prometheus_client::metrics::gauge::Gauge;
use prometheus_client::registry::Registry;

use crate::server::scrape_report;
use crate::text::owned;

verus! {

/// A label set: label names with their values, in order.
pub type LabelKey = Seq<(Seq<char>, Seq<char>)>;

/// Labels of a metric about the whole installation.
#[derive(Debug)]
pub struct InstallationLabels {
    pub installation: String,
}

/// Labels of a climate sensor metric.
#[derive(Debug)]
pub struct ClimateLabels {
    pub installation: String,
    pub device_label: String,
    pub area: String,
    pub device_type: String,
}

/// Labels of a metric about one device.
#[derive(Debug)]
pub struct DeviceLabels {
    pub installation: String,
    pub device_label: String,
    pub area: String,
}

fn pair(name: &str, value: &String) -> (p: (String, String))
    ensures
        p.0@ == name@,
        p.1@ == value@,
{
    (owned(name), value.clone())
}

impl InstallationLabels {
    pub open spec fn key(self) -> LabelKey {
        seq![("installation"@, self.installation@)]
    }

    /// The label set, as name and value pairs in field order.
    pub fn pairs(&self) -> (r: Vec<(String, String)>)
        ensures
            r.deep_view() == self.key(),
    {
        let mut r = Vec::new();
        r.push(pair("installation", &self.installation));
        assert(r.deep_view() =~= self.key());
        r
    }
}

impl ClimateLabels {
    pub open spec fn key(self) -> LabelKey {
        seq![
            ("installation"@, self.installation@),
            ("device_label"@, self.device_label@),
            ("area"@, self.area@),
            ("device_type"@, self.device_type@),
        ]
    }

    /// The label set, as name and value pairs in field order.
    pub fn pairs(&self) -> (r: Vec<(String, String)>)
        ensures
            r.deep_view() == self.key(),
    {
        let mut r = Vec::new();
        r.push(pair("installation", &self.installation));
        r.push(pair("device_label", &self.device_label));
        r.push(pair("area", &self.area));
        r.push(pair("device_type", &self.device_type));
        assert(r.deep_view() =~= self.key());
        r
    }
}

impl DeviceLabels {
    pub open spec fn key(self) -> LabelKey {
        seq![
            ("installation"@, self.installation@),
            ("device_label"@, self.device_label@),
            ("area"@, self.area@),
        ]
    }

    /// The label set, as name and value pairs in field order.
    pub fn pairs(&self) -> (r: Vec<(String, String)>)
        ensures
            r.deep_view() == self.key(),
    {
        let mut r = Vec::new();
        r.push(pair("installation", &self.installation));
        r.push(pair("device_label", &self.device_label));
        r.push(pair("area", &self.area));
        assert(r.deep_view() =~= self.key());
        r
    }
}

/// A family of integer gauges, one per label set, kept in a
/// `prometheus_client` `Family`.
#[verifier::external_body]
pub struct GaugeFamily {
    inner: Family<Vec<(String, String)>, Gauge>,
}

/// No gauges at all.
pub open spec fn no_gauges() -> Map<LabelKey, int> {
    Map::empty()
}

/// The gauges of a family: each label set that has one, with its value.
pub uninterp spec fn gauge_family_values(family: GaugeFamily) -> Map<LabelKey, int>;

#[verifier::external_type_specification]
#[verifier::external_body]
pub struct ExRegistry(Registry);

/// The descriptors of the metrics registered directly in a registry (not in
/// its sub-registries), in registration order: each metric's name and help
/// text as the registry keeps them.
pub uninterp spec fn registry_descriptors(registry: Registry) -> Seq<(Seq<char>, Seq<char>)>;

/// The descriptor that `Registry::register` keeps for a metric: its name,
/// and its help text followed by a full stop.
pub open spec fn descriptor(name: Seq<char>, help: Seq<char>) -> (Seq<char>, Seq<char>) {
    (name, help + "."@)
}

impl GaugeFamily {
    /// A family without gauges (`Family::default`).
    #[verifier::external_body]
    pub fn new() -> (family: GaugeFamily)
        ensures
            gauge_family_values(family) == no_gauges(),
    {
        GaugeFamily { inner: Family::default() }
    }

    /// Sets the gauge of `labels` to `value`, creating it when the family has
    /// none (`Family::get_or_create`, then `Gauge::set`). The label sets are
    /// compared as `Vec<(String, String)>` values. The family is taken
    /// by `&mut` because the call changes what it holds; the registry's
    /// handle shares the gauges and sees the new value too.
    #[verifier::external_body]
    pub fn set(&mut self, labels: &Vec<(String, String)>, value: i64)
        ensures
            gauge_family_values(*final(self)) == gauge_family_values(*old(self)).insert(labels.deep_view(), value as int),
    {
        self.inner.get_or_create(labels).set(value);
    }

    /// The value of the gauge of `labels`, if the family has one
    /// (`Family::get`, then `Gauge::get`).
    #[verifier::external_body]
    pub fn get(&self, labels: &Vec<(String, String)>) -> (v: Option<i64>)
        ensures
            v matches Some(x) ==> gauge_family_values(*self).contains_key(labels.deep_view())
                && gauge_family_values(*self)[labels.deep_view()] == x as int,
            v is None ==> !gauge_family_values(*self).contains_key(labels.deep_view()),
    {
        match self.inner.get(labels) {
            Some(gauge) => Some(gauge.get()),
            None => None,
        }
    }
}

/// Registers a family under `name` with help text `help`
/// (`Registry::register`), which appends a descriptor of the name and the
/// help text followed by a full stop to the registry's metrics. The registry
/// keeps a handle that shares the family's gauges; that handle is not stated.
#[verifier::external_body]
fn register_family(registry: &mut Registry, name: &str, help: &str, family: &GaugeFamily)
    ensures
        registry_descriptors(*final(registry)) == registry_descriptors(*old(registry)).push(descriptor(name@, help@)),
{
    registry.register(name, help, family.inner.clone());
}

#[verifier::external_type_specification]
#[verifier::external_body]
#[verifier::reject_recursive_types(N)]
#[verifier::reject_recursive_types(A)]
pub struct ExGauge<N, A>(Gauge<N, A>);

#[verifier::external_type_specification]
#[verifier::external_body]
#[verifier::reject_recursive_types(N)]
#[verifier::reject_recursive_types(A)]
pub struct ExCounter<N, A>(Counter<N, A>);

/// The value that an integer gauge holds.
pub uninterp spec fn gauge_value(gauge: Gauge) -> int;

/// The value that a counter holds.
pub uninterp spec fn counter_value(counter: Counter) -> int;

/// A new integer gauge (`Gauge::default`), which holds 0.
#[verifier::external_body]
fn new_gauge() -> (g: Gauge)
    ensures
        gauge_value(g) == 0,
{
    Gauge::default()
}

/// Sets an integer gauge (`Gauge::set`, an atomic swap). The gauge is taken
/// by `&mut` because the call changes its value; the registry's handle
/// shares the value and sees the new one too.
#[verifier::external_body]
fn set_gauge(gauge: &mut Gauge, value: i64)
    ensures
        gauge_value(*final(gauge)) == value as int,
{
    gauge.set(value);
}

/// A new counter (`Counter::default`), which holds 0.
#[verifier::external_body]
fn new_counter() -> (c: Counter)
    ensures
        counter_value(c) == 0,
{
    Counter::default()
}

/// Adds one to a counter (`Counter::inc`, an atomic `fetch_add` on a
/// `u64`, which wraps around at 2^64). Taken by `&mut` as in `set_gauge`.
#[verifier::external_body]
fn inc_counter(counter: &mut Counter)
    ensures
        counter_value(*final(counter)) == (counter_value(*old(counter)) + 1) % 0x1_0000_0000_0000_0000,
{
    counter.inc();
}

/// Registers an integer gauge (`Registry::register`): the registry gains a
/// descriptor of the name and the help text followed by a full stop, and a
/// handle that shares the gauge's value (not stated).
#[verifier::external_body]
fn register_gauge(registry: &mut Registry, name: &str, help: &str, gauge: &Gauge)
    ensures
        registry_descriptors(*final(registry)) == registry_descriptors(*old(registry)).push(descriptor(name@, help@)),
{
    registry.register(name, help, gauge.clone());
}

/// Registers a counter (`Registry::register`), as `register_gauge` does a
/// gauge. The encoder writes a counter's samples under its name followed by
/// `_total`.
#[verifier::external_body]
fn register_counter(registry: &mut Registry, name: &str, help: &str, counter: &Counter)
    ensures
        registry_descriptors(*final(registry)) == registry_descriptors(*old(registry)).push(descriptor(name@, help@)),
{
    registry.register(name, help, counter.clone());
}

/// The integer gauge families that describe the installation.
#[derive(Debug, PartialEq, Eq, Structural)]
pub enum StateMetric {
    AlarmArmedState,
    AlarmChangedTimestamp,
    DoorWindowOpen,
    DoorWindowReportTimestamp,
    LockLocked,
    LockMotorJam,
    LockSecureMode,
    SmartplugOn,
    BroadbandConnected,
}

/// Every metric that the exporter exposes.
#[derive(Debug, PartialEq, Eq, Structural)]
pub enum ExporterMetric {
    State(StateMetric),
    TemperatureCelsius,
    HumidityPercent,
    ScrapeDurationSeconds,
    ScrapeSuccess,
    ScrapeErrorsTotal,
}

/// The name under which a metric is registered, below the `verisure`
/// prefix. The error counter is registered as `scrape_errors`: the encoder
/// adds `_total` to a counter's samples, which so read
/// `verisure_scrape_errors_total`.
pub open spec fn spec_metric_name(m: ExporterMetric) -> Seq<char> {
    match m {
        ExporterMetric::State(s) => match s {
            StateMetric::AlarmArmedState => "alarm_armed_state"@,
            StateMetric::AlarmChangedTimestamp => "alarm_changed_timestamp_seconds"@,
            StateMetric::DoorWindowOpen => "door_window_open"@,
            StateMetric::DoorWindowReportTimestamp => "door_window_report_timestamp_seconds"@,
            StateMetric::LockLocked => "lock_locked"@,
            StateMetric::LockMotorJam => "lock_motor_jam"@,
            StateMetric::LockSecureMode => "lock_secure_mode"@,
            StateMetric::SmartplugOn => "smartplug_on"@,
            StateMetric::BroadbandConnected => "broadband_connected"@,
        },
        ExporterMetric::TemperatureCelsius => "temperature_celsius"@,
        ExporterMetric::HumidityPercent => "humidity_percent"@,
        ExporterMetric::ScrapeDurationSeconds => "scrape_duration_seconds"@,
        ExporterMetric::ScrapeSuccess => "scrape_success"@,
        ExporterMetric::ScrapeErrorsTotal => "scrape_errors"@,
    }
}

/// The help text of a metric.
pub open spec fn spec_metric_help(m: ExporterMetric) -> Seq<char> {
    match m {
        ExporterMetric::State(s) => match s {
            StateMetric::AlarmArmedState => "Arm state: 0=disarmed, 1=armed_home, 2=armed_away"@,
            StateMetric::AlarmChangedTimestamp => "Unix timestamp of last arm state change"@,
            StateMetric::DoorWindowOpen => "1=open, 0=closed"@,
            StateMetric::DoorWindowReportTimestamp => "Unix timestamp of last report"@,
            StateMetric::LockLocked => "1=locked, 0=unlocked"@,
            StateMetric::LockMotorJam => "1 if motor jammed"@,
            StateMetric::LockSecureMode => "1 if secure mode active"@,
            StateMetric::SmartplugOn => "1=on, 0=off"@,
            StateMetric::BroadbandConnected => "1 if broadband connected"@,
        },
        ExporterMetric::TemperatureCelsius => "Temperature in degrees Celsius"@,
        ExporterMetric::HumidityPercent => "Relative humidity percentage"@,
        ExporterMetric::ScrapeDurationSeconds => "Duration of the last scrape"@,
        ExporterMetric::ScrapeSuccess => "1 if last scrape succeeded"@,
        ExporterMetric::ScrapeErrorsTotal => "Total number of scrape errors"@,
    }
}

/// The prefix under which every metric is registered.
pub open spec fn spec_metric_prefix() -> Seq<char> {
    "verisure"@
}

/// The prefix under which every metric is registered.
pub fn metric_prefix() -> (r: String)
    ensures
        r@ == spec_metric_prefix(),
{
    owned("verisure")
}

/// The name of a metric, below the `verisure` prefix.
pub fn metric_name(m: &ExporterMetric) -> (r: String)
    ensures
        r@ == spec_metric_name(*m),
{
    let s = match m {
        ExporterMetric::State(s) => match s {
            StateMetric::AlarmArmedState => "alarm_armed_state",
            StateMetric::AlarmChangedTimestamp => "alarm_changed_timestamp_seconds",
            StateMetric::DoorWindowOpen => "door_window_open",
            StateMetric::DoorWindowReportTimestamp => "door_window_report_timestamp_seconds",
            StateMetric::LockLocked => "lock_locked",
            StateMetric::LockMotorJam => "lock_motor_jam",
            StateMetric::LockSecureMode => "lock_secure_mode",
            StateMetric::SmartplugOn => "smartplug_on",
            StateMetric::BroadbandConnected => "broadband_connected",
        },
        ExporterMetric::TemperatureCelsius => "temperature_celsius",
        ExporterMetric::HumidityPercent => "humidity_percent",
        ExporterMetric::ScrapeDurationSeconds => "scrape_duration_seconds",
        ExporterMetric::ScrapeSuccess => "scrape_success",
        ExporterMetric::ScrapeErrorsTotal => "scrape_errors",
    };
    owned(s)
}

/// The help text of a metric.
pub fn metric_help(m: &ExporterMetric) -> (r: String)
    ensures
        r@ == spec_metric_help(*m),
{
    let s = match m {
        ExporterMetric::State(s) => match s {
            StateMetric::AlarmArmedState => "Arm state: 0=disarmed, 1=armed_home, 2=armed_away",
            StateMetric::AlarmChangedTimestamp => "Unix timestamp of last arm state change",
            StateMetric::DoorWindowOpen => "1=open, 0=closed",
            StateMetric::DoorWindowReportTimestamp => "Unix timestamp of last report",
            StateMetric::LockLocked => "1=locked, 0=unlocked",
            StateMetric::LockMotorJam => "1 if motor jammed",
            StateMetric::LockSecureMode => "1 if secure mode active",
            StateMetric::SmartplugOn => "1=on, 0=off",
            StateMetric::BroadbandConnected => "1 if broadband connected",
        },
        ExporterMetric::TemperatureCelsius => "Temperature in degrees Celsius",
        ExporterMetric::HumidityPercent => "Relative humidity percentage",
        ExporterMetric::ScrapeDurationSeconds => "Duration of the last scrape",
        ExporterMetric::ScrapeSuccess => "1 if last scrape succeeded",
        ExporterMetric::ScrapeErrorsTotal => "Total number of scrape errors",
    };
    owned(s)
}

/// The order in which the metrics are registered, and so exposed.
pub open spec fn spec_registration_order() -> Seq<ExporterMetric> {
    seq![
        ExporterMetric::State(StateMetric::AlarmArmedState),
        ExporterMetric::State(StateMetric::AlarmChangedTimestamp),
        ExporterMetric::TemperatureCelsius,
        ExporterMetric::HumidityPercent,
        ExporterMetric::State(StateMetric::DoorWindowOpen),
        ExporterMetric::State(StateMetric::DoorWindowReportTimestamp),
        ExporterMetric::State(StateMetric::LockLocked),
        ExporterMetric::State(StateMetric::LockMotorJam),
        ExporterMetric::State(StateMetric::LockSecureMode),
        ExporterMetric::State(StateMetric::SmartplugOn),
        ExporterMetric::State(StateMetric::BroadbandConnected),
        ExporterMetric::ScrapeDurationSeconds,
        ExporterMetric::ScrapeSuccess,
        ExporterMetric::ScrapeErrorsTotal,
    ]
}

/// The metrics in the order in which they are registered, and so exposed.
pub fn registration_order() -> (r: Vec<ExporterMetric>)
    ensures
        r@ == spec_registration_order(),
{
    let r = vec![
        ExporterMetric::State(StateMetric::AlarmArmedState),
        ExporterMetric::State(StateMetric::AlarmChangedTimestamp),
        ExporterMetric::TemperatureCelsius,
        ExporterMetric::HumidityPercent,
        ExporterMetric::State(StateMetric::DoorWindowOpen),
        ExporterMetric::State(StateMetric::DoorWindowReportTimestamp),
        ExporterMetric::State(StateMetric::LockLocked),
        ExporterMetric::State(StateMetric::LockMotorJam),
        ExporterMetric::State(StateMetric::LockSecureMode),
        ExporterMetric::State(StateMetric::SmartplugOn),
        ExporterMetric::State(StateMetric::BroadbandConnected),
        ExporterMetric::ScrapeDurationSeconds,
        ExporterMetric::ScrapeSuccess,
        ExporterMetric::ScrapeErrorsTotal,
    ];
    assert(r@ =~= spec_registration_order());
    r
}

/// The metric is held by `Metrics` (every metric but the decimal gauges).
pub open spec fn is_held(m: ExporterMetric) -> bool {
    !(m is TemperatureCelsius || m is HumidityPercent || m is ScrapeDurationSeconds)
}

/// The descriptor under which a metric is registered.
pub open spec fn metric_descriptor(m: ExporterMetric) -> (Seq<char>, Seq<char>) {
    descriptor(spec_metric_name(m), spec_metric_help(m))
}

/// The descriptors of the held metrics among `ms`, in their order.
pub open spec fn held_descriptors(ms: Seq<ExporterMetric>) -> Seq<(Seq<char>, Seq<char>)>
    decreases ms.len(),
{
    if ms.len() == 0 {
        Seq::empty()
    } else if is_held(ms.last()) {
        held_descriptors(ms.drop_last()).push(metric_descriptor(ms.last()))
    } else {
        held_descriptors(ms.drop_last())
    }
}

/// What the metrics of the scrapes themselves hold: the success gauge's
/// value, the error counter's value, and whether the exporter is ready
/// (some scrape has succeeded).
pub struct ScrapeGauges {
    pub success: int,
    pub errors: int,
    pub ready: bool,
}

/// The end of a scrape: a successful one sets the success gauge to 1 and
/// makes the exporter ready; a failed one sets it to 0 and adds one to the
/// error counter, which wraps around at 2^64, leaving readiness as it was.
pub open spec fn scrape_step(s: ScrapeGauges, succeeded: bool) -> ScrapeGauges {
    if succeeded {
        ScrapeGauges { success: 1, errors: s.errors, ready: true }
    } else {
        ScrapeGauges { success: 0, errors: (s.errors + 1) % 0x1_0000_0000_0000_0000, ready: s.ready }
    }
}

/// The gauge families that describe the installation's state, and the
/// metrics of the scrapes that hold integers.
pub struct Metrics {
    pub alarm_armed_state: GaugeFamily,
    pub alarm_changed_timestamp: GaugeFamily,
    pub door_window_open: GaugeFamily,
    pub door_window_report_timestamp: GaugeFamily,
    pub lock_locked: GaugeFamily,
    pub lock_motor_jam: GaugeFamily,
    pub lock_secure_mode: GaugeFamily,
    pub smartplug_on: GaugeFamily,
    pub broadband_connected: GaugeFamily,
    pub scrape_success: Gauge,
    pub scrape_errors_total: Counter,
}

impl Metrics {
    /// The family's gauges.
    pub open spec fn values(self, which: StateMetric) -> Map<LabelKey, int> {
        match which {
            StateMetric::AlarmArmedState => gauge_family_values(self.alarm_armed_state),
            StateMetric::AlarmChangedTimestamp => gauge_family_values(self.alarm_changed_timestamp),
            StateMetric::DoorWindowOpen => gauge_family_values(self.door_window_open),
            StateMetric::DoorWindowReportTimestamp => gauge_family_values(self.door_window_report_timestamp),
            StateMetric::LockLocked => gauge_family_values(self.lock_locked),
            StateMetric::LockMotorJam => gauge_family_values(self.lock_motor_jam),
            StateMetric::LockSecureMode => gauge_family_values(self.lock_secure_mode),
            StateMetric::SmartplugOn => gauge_family_values(self.smartplug_on),
            StateMetric::BroadbandConnected => gauge_family_values(self.broadband_connected),
        }
    }

    /// The scrape metrics, with readiness `ready`.
    pub open spec fn scrape_gauges(self, ready: bool) -> ScrapeGauges {
        ScrapeGauges { success: gauge_value(self.scrape_success), errors: counter_value(self.scrape_errors_total), ready }
    }

    /// The success gauge and the error counter hold what they held in `old`.
    pub open spec fn scrape_metrics_kept(self, old: Metrics) -> bool {
        &&& gauge_value(self.scrape_success) == gauge_value(old.scrape_success)
        &&& counter_value(self.scrape_errors_total) == counter_value(old.scrape_errors_total)
    }

    /// Families without gauges; the success gauge and the error counter at 0.
    pub fn new() -> (m: Metrics)
        ensures
            forall|w: StateMetric| #[trigger] m.values(w) == no_gauges(),
            gauge_value(m.scrape_success) == 0,
            counter_value(m.scrape_errors_total) == 0,
    {
        Metrics {
            alarm_armed_state: GaugeFamily::new(),
            alarm_changed_timestamp: GaugeFamily::new(),
            door_window_open: GaugeFamily::new(),
            door_window_report_timestamp: GaugeFamily::new(),
            lock_locked: GaugeFamily::new(),
            lock_motor_jam: GaugeFamily::new(),
            lock_secure_mode: GaugeFamily::new(),
            smartplug_on: GaugeFamily::new(),
            broadband_connected: GaugeFamily::new(),
            scrape_success: new_gauge(),
            scrape_errors_total: new_counter(),
        }
    }

    /// Records the end of a scrape that `succeeded` or not, when the
    /// exporter was ready (`was_ready`) or not; gives whether it is ready
    /// now. The state families are left as they were.
    pub fn record_scrape(&mut self, succeeded: bool, was_ready: bool) -> (ready: bool)
        ensures
            final(self).scrape_gauges(ready) == scrape_step(old(self).scrape_gauges(was_ready), succeeded),
            forall|w: StateMetric| #[trigger] final(self).values(w) == old(self).values(w),
    {
        let r = scrape_report(succeeded, was_ready);
        set_gauge(&mut self.scrape_success, r.success);
        if r.count_error {
            inc_counter(&mut self.scrape_errors_total);
        }
        r.ready
    }

    /// The family of one metric.
    pub fn family(&self, which: &StateMetric) -> (f: &GaugeFamily)
        ensures
            gauge_family_values(*f) == self.values(*which),
    {
        match which {
            StateMetric::AlarmArmedState => &self.alarm_armed_state,
            StateMetric::AlarmChangedTimestamp => &self.alarm_changed_timestamp,
            StateMetric::DoorWindowOpen => &self.door_window_open,
            StateMetric::DoorWindowReportTimestamp => &self.door_window_report_timestamp,
            StateMetric::LockLocked => &self.lock_locked,
            StateMetric::LockMotorJam => &self.lock_motor_jam,
            StateMetric::LockSecureMode => &self.lock_secure_mode,
            StateMetric::SmartplugOn => &self.smartplug_on,
            StateMetric::BroadbandConnected => &self.broadband_connected,
        }
    }

    /// Registers the metric `which` under its name and help text when this
    /// value holds it (every metric but the decimal gauges): the registry
    /// gains that one descriptor, after those it had. The decimal gauges are
    /// not held here; for them the registry is left as it was.
    pub fn register(&self, registry: &mut Registry, which: &ExporterMetric) -> (held: bool)
        ensures
            held == !(*which is TemperatureCelsius || *which is HumidityPercent || *which is ScrapeDurationSeconds),
            held ==> registry_descriptors(*final(registry)) == registry_descriptors(*old(registry)).push(
                descriptor(spec_metric_name(*which), spec_metric_help(*which)),
            ),
            !held ==> *final(registry) == *old(registry),
    {
        let name = metric_name(which);
        let help = metric_help(which);
        match which {
            ExporterMetric::State(s) => {
                register_family(registry, name.as_str(), help.as_str(), self.family(s));
                true
            },
            ExporterMetric::ScrapeSuccess => {
                register_gauge(registry, name.as_str(), help.as_str(), &self.scrape_success);
                true
            },
            ExporterMetric::ScrapeErrorsTotal => {
                register_counter(registry, name.as_str(), help.as_str(), &self.scrape_errors_total);
                true
            },
            _ => false,
        }
    }

    /// Registers, in the order of the catalogue, the held metrics among
    /// positions `from` to `to` (exclusive) of `registration_order`: the
    /// registry gains their descriptors, in that order, after those it had.
    /// With `from` 0 and `to` 14 every held metric is registered; the
    /// decimal gauges, at positions 2, 3 and 11, are left to the caller.
    pub fn register_held(&self, registry: &mut Registry, from: usize, to: usize)
        requires
            from <= to <= spec_registration_order().len(),
        ensures
            registry_descriptors(*final(registry)) == registry_descriptors(*old(registry))
                + held_descriptors(spec_registration_order().subrange(from as int, to as int)),
    {
        let order = registration_order();
        let mut i = from;
        while i < to
            invariant
                order@ == spec_registration_order(),
                from <= i <= to <= order@.len(),
                registry_descriptors(*registry) == registry_descriptors(*old(registry))
                    + held_descriptors(order@.subrange(from as int, i as int)),
            decreases to - i,
        {
            let ghost before = registry_descriptors(*registry);
            self.register(registry, &order[i]);
            proof {
                let part = order@.subrange(from as int, i + 1);
                assert(part.drop_last() =~= order@.subrange(from as int, i as int));
                assert(part.last() == order@[i as int]);
                assert(registry_descriptors(*registry) =~= registry_descriptors(*old(registry)) + held_descriptors(part));
            }
            i = i + 1;
        }
    }
}

} // verus!
