//! What a scrape yields and stores: how a batch of answers is merged, how the
//! client hands a scrape's answer on, which values and labels the gauges get,
//! and the names under which the metrics are exposed.
use vstd::prelude::*;

use crate::laws::{
    lemma_door_open_overwrites, lemma_locked_overwrites, lemma_motor_jam_overwrites, lemma_plug_overwrites,
    lemma_secure_mode_overwrites, lemma_unavailable_iff_all,
};
use crate::metrics::collector::{climate_readings, rfc3339_seconds, sensor_readings, updated, FloatGauge};
use crate::server::{openmetrics_type, plain_answer, spec_route, HttpResponse, Route};
use crate::verisure::queries::{account_installations_text, GraphQLQuery};
use crate::verisure::client::{are_fetch_queries, fetch_start, graphql_url, init_failed_text, login_url, no_giid_text};
use crate::verisure::json::{json_get, json_get_opt, json_str, JsonValue};
use crate::verisure::reply::{
    fetch_failed_text, installations_failed_text, login_failed_text, mfa_text, reports_unavailable,
    status_line, spec_fetch_body, spec_installations_body, spec_is_success, spec_login_body, BodyWanted,
};
use crate::metrics::registry::{
    descriptor, held_descriptors, metric_descriptor, spec_registration_order, ExporterMetric, LabelKey, Metrics,
    StateMetric,
};
use crate::text::or_empty;
use crate::verisure::client::{after_fetch, ClientModel, Next, PhaseModel};
use crate::verisure::reply::VerisureError;
use crate::verisure::reply::{
    contributes, data_of, decoded, last_arm_state, last_broadband, last_climates, last_door_locks,
    last_door_windows, last_smart_plugs, unavailable_answer, unavailable_count, GraphQLResponse,
};
use crate::verisure::types::{ArmState, Broadband, ClimateValue, Device, DoorLock, DoorWindow, SmartPlug, VerisureData};

verus! {


/// No answer after `i` counts and decodes its arm state.
pub open spec fn no_later_arm_state(rs: Seq<GraphQLResponse>, i: int) -> bool {
    forall|j: int| i < j < rs.len() ==> !(contributes(#[trigger] rs[j]) && decoded(rs[j].sections.arm_state) is Some)
}

proof fn lemma_last_arm_state_at(rs: Seq<GraphQLResponse>, i: int, v: ArmState)
    requires
        0 <= i < rs.len(),
        contributes(rs[i]),
        decoded(rs[i].sections.arm_state) == Some(v),
        no_later_arm_state(rs, i),
    ensures
        last_arm_state(rs) == Some(v),
    decreases rs.len(),
{
    let n = rs.len();
    if i < n - 1 {
        let p = rs.drop_last();
        assert(p[i] == rs[i]);
        assert forall|j: int| i < j < p.len() implies !(contributes(#[trigger] p[j]) && decoded(p[j].sections.arm_state) is Some) by {
            assert(p[j] == rs[j]);
        }
        assert(!(contributes(rs[n - 1]) && decoded(rs[n - 1].sections.arm_state) is Some));
        lemma_last_arm_state_at(p, i, v);
    }
}

proof fn lemma_last_arm_state_none(rs: Seq<GraphQLResponse>)
    requires
        no_later_arm_state(rs, -1),
    ensures
        last_arm_state(rs) is None,
    decreases rs.len(),
{
    if rs.len() > 0 {
        let p = rs.drop_last();
        assert forall|j: int| -1 < j < p.len() implies !(contributes(#[trigger] p[j]) && decoded(p[j].sections.arm_state) is Some) by {
            assert(p[j] == rs[j]);
        }
        assert(!(contributes(rs[rs.len() - 1]) && decoded(rs[rs.len() - 1].sections.arm_state) is Some));
        lemma_last_arm_state_none(p);
    }
}

/// A batch's arm state are those of the last answer that counts (no `errors`
/// member, a `data.installation` member) and whose arm state decode: when
/// answer `i` is that answer, the merged data holds exactly what it decoded,
/// and such a batch is not one that reports unavailability throughout.
pub proof fn lemma_batch_arm_state(rs: Seq<GraphQLResponse>, d: VerisureData, i: int, v: ArmState)
    requires
        data_of(d, rs),
        0 <= i < rs.len(),
        contributes(rs[i]),
        decoded(rs[i].sections.arm_state) == Some(v),
        no_later_arm_state(rs, i),
    ensures
        d.arm_state == Some(v),
        unavailable_count(rs) != rs.len(),
{
    lemma_last_arm_state_at(rs, i, v);
    lemma_unavailable_iff_all(rs);
    assert(!unavailable_answer(rs[i]));
}

/// When no answer of a batch both counts and decodes its arm state, the merged
/// data's arm state is absent.
pub proof fn lemma_batch_no_arm_state(rs: Seq<GraphQLResponse>, d: VerisureData)
    requires
        data_of(d, rs),
        no_later_arm_state(rs, -1),
    ensures
        d.arm_state is None,
{
    lemma_last_arm_state_none(rs);
}

/// No answer after `i` counts and decodes its climate readings.
pub open spec fn no_later_climates(rs: Seq<GraphQLResponse>, i: int) -> bool {
    forall|j: int| i < j < rs.len() ==> !(contributes(#[trigger] rs[j]) && decoded(rs[j].sections.climates) is Some)
}

proof fn lemma_last_climates_at(rs: Seq<GraphQLResponse>, i: int, v: Vec<ClimateValue>)
    requires
        0 <= i < rs.len(),
        contributes(rs[i]),
        decoded(rs[i].sections.climates) == Some(v),
        no_later_climates(rs, i),
    ensures
        last_climates(rs) == Some(v),
    decreases rs.len(),
{
    let n = rs.len();
    if i < n - 1 {
        let p = rs.drop_last();
        assert(p[i] == rs[i]);
        assert forall|j: int| i < j < p.len() implies !(contributes(#[trigger] p[j]) && decoded(p[j].sections.climates) is Some) by {
            assert(p[j] == rs[j]);
        }
        assert(!(contributes(rs[n - 1]) && decoded(rs[n - 1].sections.climates) is Some));
        lemma_last_climates_at(p, i, v);
    }
}

proof fn lemma_last_climates_none(rs: Seq<GraphQLResponse>)
    requires
        no_later_climates(rs, -1),
    ensures
        last_climates(rs) is None,
    decreases rs.len(),
{
    if rs.len() > 0 {
        let p = rs.drop_last();
        assert forall|j: int| -1 < j < p.len() implies !(contributes(#[trigger] p[j]) && decoded(p[j].sections.climates) is Some) by {
            assert(p[j] == rs[j]);
        }
        assert(!(contributes(rs[rs.len() - 1]) && decoded(rs[rs.len() - 1].sections.climates) is Some));
        lemma_last_climates_none(p);
    }
}

/// A batch's climate readings are those of the last answer that counts (no `errors`
/// member, a `data.installation` member) and whose climate readings decode: when
/// answer `i` is that answer, the merged data holds exactly what it decoded,
/// and such a batch is not one that reports unavailability throughout.
pub proof fn lemma_batch_climates(rs: Seq<GraphQLResponse>, d: VerisureData, i: int, v: Vec<ClimateValue>)
    requires
        data_of(d, rs),
        0 <= i < rs.len(),
        contributes(rs[i]),
        decoded(rs[i].sections.climates) == Some(v),
        no_later_climates(rs, i),
    ensures
        d.climate_values == v,
        unavailable_count(rs) != rs.len(),
{
    lemma_last_climates_at(rs, i, v);
    lemma_unavailable_iff_all(rs);
    assert(!unavailable_answer(rs[i]));
}

/// When no answer of a batch both counts and decodes its climate readings, the merged
/// data's climate readings is empty.
pub proof fn lemma_batch_no_climates(rs: Seq<GraphQLResponse>, d: VerisureData)
    requires
        data_of(d, rs),
        no_later_climates(rs, -1),
    ensures
        d.climate_values@.len() == 0,
{
    lemma_last_climates_none(rs);
}

/// No answer after `i` counts and decodes its door and window sensors.
pub open spec fn no_later_door_windows(rs: Seq<GraphQLResponse>, i: int) -> bool {
    forall|j: int| i < j < rs.len() ==> !(contributes(#[trigger] rs[j]) && decoded(rs[j].sections.door_windows) is Some)
}

proof fn lemma_last_door_windows_at(rs: Seq<GraphQLResponse>, i: int, v: Vec<DoorWindow>)
    requires
        0 <= i < rs.len(),
        contributes(rs[i]),
        decoded(rs[i].sections.door_windows) == Some(v),
        no_later_door_windows(rs, i),
    ensures
        last_door_windows(rs) == Some(v),
    decreases rs.len(),
{
    let n = rs.len();
    if i < n - 1 {
        let p = rs.drop_last();
        assert(p[i] == rs[i]);
        assert forall|j: int| i < j < p.len() implies !(contributes(#[trigger] p[j]) && decoded(p[j].sections.door_windows) is Some) by {
            assert(p[j] == rs[j]);
        }
        assert(!(contributes(rs[n - 1]) && decoded(rs[n - 1].sections.door_windows) is Some));
        lemma_last_door_windows_at(p, i, v);
    }
}

proof fn lemma_last_door_windows_none(rs: Seq<GraphQLResponse>)
    requires
        no_later_door_windows(rs, -1),
    ensures
        last_door_windows(rs) is None,
    decreases rs.len(),
{
    if rs.len() > 0 {
        let p = rs.drop_last();
        assert forall|j: int| -1 < j < p.len() implies !(contributes(#[trigger] p[j]) && decoded(p[j].sections.door_windows) is Some) by {
            assert(p[j] == rs[j]);
        }
        assert(!(contributes(rs[rs.len() - 1]) && decoded(rs[rs.len() - 1].sections.door_windows) is Some));
        lemma_last_door_windows_none(p);
    }
}

/// A batch's door and window sensors are those of the last answer that counts (no `errors`
/// member, a `data.installation` member) and whose door and window sensors decode: when
/// answer `i` is that answer, the merged data holds exactly what it decoded,
/// and such a batch is not one that reports unavailability throughout.
pub proof fn lemma_batch_door_windows(rs: Seq<GraphQLResponse>, d: VerisureData, i: int, v: Vec<DoorWindow>)
    requires
        data_of(d, rs),
        0 <= i < rs.len(),
        contributes(rs[i]),
        decoded(rs[i].sections.door_windows) == Some(v),
        no_later_door_windows(rs, i),
    ensures
        d.door_windows == v,
        unavailable_count(rs) != rs.len(),
{
    lemma_last_door_windows_at(rs, i, v);
    lemma_unavailable_iff_all(rs);
    assert(!unavailable_answer(rs[i]));
}

/// When no answer of a batch both counts and decodes its door and window sensors, the merged
/// data's door and window sensors is empty.
pub proof fn lemma_batch_no_door_windows(rs: Seq<GraphQLResponse>, d: VerisureData)
    requires
        data_of(d, rs),
        no_later_door_windows(rs, -1),
    ensures
        d.door_windows@.len() == 0,
{
    lemma_last_door_windows_none(rs);
}

/// No answer after `i` counts and decodes its locks.
pub open spec fn no_later_locks(rs: Seq<GraphQLResponse>, i: int) -> bool {
    forall|j: int| i < j < rs.len() ==> !(contributes(#[trigger] rs[j]) && decoded(rs[j].sections.smart_locks) is Some)
}

proof fn lemma_last_door_locks_at(rs: Seq<GraphQLResponse>, i: int, v: Vec<DoorLock>)
    requires
        0 <= i < rs.len(),
        contributes(rs[i]),
        decoded(rs[i].sections.smart_locks) == Some(v),
        no_later_locks(rs, i),
    ensures
        last_door_locks(rs) == Some(v),
    decreases rs.len(),
{
    let n = rs.len();
    if i < n - 1 {
        let p = rs.drop_last();
        assert(p[i] == rs[i]);
        assert forall|j: int| i < j < p.len() implies !(contributes(#[trigger] p[j]) && decoded(p[j].sections.smart_locks) is Some) by {
            assert(p[j] == rs[j]);
        }
        assert(!(contributes(rs[n - 1]) && decoded(rs[n - 1].sections.smart_locks) is Some));
        lemma_last_door_locks_at(p, i, v);
    }
}

proof fn lemma_last_door_locks_none(rs: Seq<GraphQLResponse>)
    requires
        no_later_locks(rs, -1),
    ensures
        last_door_locks(rs) is None,
    decreases rs.len(),
{
    if rs.len() > 0 {
        let p = rs.drop_last();
        assert forall|j: int| -1 < j < p.len() implies !(contributes(#[trigger] p[j]) && decoded(p[j].sections.smart_locks) is Some) by {
            assert(p[j] == rs[j]);
        }
        assert(!(contributes(rs[rs.len() - 1]) && decoded(rs[rs.len() - 1].sections.smart_locks) is Some));
        lemma_last_door_locks_none(p);
    }
}

/// A batch's locks are those of the last answer that counts (no `errors`
/// member, a `data.installation` member) and whose locks decode: when
/// answer `i` is that answer, the merged data holds exactly what it decoded,
/// and such a batch is not one that reports unavailability throughout.
pub proof fn lemma_batch_locks(rs: Seq<GraphQLResponse>, d: VerisureData, i: int, v: Vec<DoorLock>)
    requires
        data_of(d, rs),
        0 <= i < rs.len(),
        contributes(rs[i]),
        decoded(rs[i].sections.smart_locks) == Some(v),
        no_later_locks(rs, i),
    ensures
        d.door_locks == v,
        unavailable_count(rs) != rs.len(),
{
    lemma_last_door_locks_at(rs, i, v);
    lemma_unavailable_iff_all(rs);
    assert(!unavailable_answer(rs[i]));
}

/// When no answer of a batch both counts and decodes its locks, the merged
/// data's locks is empty.
pub proof fn lemma_batch_no_locks(rs: Seq<GraphQLResponse>, d: VerisureData)
    requires
        data_of(d, rs),
        no_later_locks(rs, -1),
    ensures
        d.door_locks@.len() == 0,
{
    lemma_last_door_locks_none(rs);
}

/// No answer after `i` counts and decodes its smart plugs.
pub open spec fn no_later_plugs(rs: Seq<GraphQLResponse>, i: int) -> bool {
    forall|j: int| i < j < rs.len() ==> !(contributes(#[trigger] rs[j]) && decoded(rs[j].sections.smartplugs) is Some)
}

proof fn lemma_last_smart_plugs_at(rs: Seq<GraphQLResponse>, i: int, v: Vec<SmartPlug>)
    requires
        0 <= i < rs.len(),
        contributes(rs[i]),
        decoded(rs[i].sections.smartplugs) == Some(v),
        no_later_plugs(rs, i),
    ensures
        last_smart_plugs(rs) == Some(v),
    decreases rs.len(),
{
    let n = rs.len();
    if i < n - 1 {
        let p = rs.drop_last();
        assert(p[i] == rs[i]);
        assert forall|j: int| i < j < p.len() implies !(contributes(#[trigger] p[j]) && decoded(p[j].sections.smartplugs) is Some) by {
            assert(p[j] == rs[j]);
        }
        assert(!(contributes(rs[n - 1]) && decoded(rs[n - 1].sections.smartplugs) is Some));
        lemma_last_smart_plugs_at(p, i, v);
    }
}

proof fn lemma_last_smart_plugs_none(rs: Seq<GraphQLResponse>)
    requires
        no_later_plugs(rs, -1),
    ensures
        last_smart_plugs(rs) is None,
    decreases rs.len(),
{
    if rs.len() > 0 {
        let p = rs.drop_last();
        assert forall|j: int| -1 < j < p.len() implies !(contributes(#[trigger] p[j]) && decoded(p[j].sections.smartplugs) is Some) by {
            assert(p[j] == rs[j]);
        }
        assert(!(contributes(rs[rs.len() - 1]) && decoded(rs[rs.len() - 1].sections.smartplugs) is Some));
        lemma_last_smart_plugs_none(p);
    }
}

/// A batch's smart plugs are those of the last answer that counts (no `errors`
/// member, a `data.installation` member) and whose smart plugs decode: when
/// answer `i` is that answer, the merged data holds exactly what it decoded,
/// and such a batch is not one that reports unavailability throughout.
pub proof fn lemma_batch_plugs(rs: Seq<GraphQLResponse>, d: VerisureData, i: int, v: Vec<SmartPlug>)
    requires
        data_of(d, rs),
        0 <= i < rs.len(),
        contributes(rs[i]),
        decoded(rs[i].sections.smartplugs) == Some(v),
        no_later_plugs(rs, i),
    ensures
        d.smart_plugs == v,
        unavailable_count(rs) != rs.len(),
{
    lemma_last_smart_plugs_at(rs, i, v);
    lemma_unavailable_iff_all(rs);
    assert(!unavailable_answer(rs[i]));
}

/// When no answer of a batch both counts and decodes its smart plugs, the merged
/// data's smart plugs is empty.
pub proof fn lemma_batch_no_plugs(rs: Seq<GraphQLResponse>, d: VerisureData)
    requires
        data_of(d, rs),
        no_later_plugs(rs, -1),
    ensures
        d.smart_plugs@.len() == 0,
{
    lemma_last_smart_plugs_none(rs);
}

/// No answer after `i` counts and decodes its broadband status.
pub open spec fn no_later_broadband(rs: Seq<GraphQLResponse>, i: int) -> bool {
    forall|j: int| i < j < rs.len() ==> !(contributes(#[trigger] rs[j]) && decoded(rs[j].sections.broadband) is Some)
}

proof fn lemma_last_broadband_at(rs: Seq<GraphQLResponse>, i: int, v: Broadband)
    requires
        0 <= i < rs.len(),
        contributes(rs[i]),
        decoded(rs[i].sections.broadband) == Some(v),
        no_later_broadband(rs, i),
    ensures
        last_broadband(rs) == Some(v),
    decreases rs.len(),
{
    let n = rs.len();
    if i < n - 1 {
        let p = rs.drop_last();
        assert(p[i] == rs[i]);
        assert forall|j: int| i < j < p.len() implies !(contributes(#[trigger] p[j]) && decoded(p[j].sections.broadband) is Some) by {
            assert(p[j] == rs[j]);
        }
        assert(!(contributes(rs[n - 1]) && decoded(rs[n - 1].sections.broadband) is Some));
        lemma_last_broadband_at(p, i, v);
    }
}

proof fn lemma_last_broadband_none(rs: Seq<GraphQLResponse>)
    requires
        no_later_broadband(rs, -1),
    ensures
        last_broadband(rs) is None,
    decreases rs.len(),
{
    if rs.len() > 0 {
        let p = rs.drop_last();
        assert forall|j: int| -1 < j < p.len() implies !(contributes(#[trigger] p[j]) && decoded(p[j].sections.broadband) is Some) by {
            assert(p[j] == rs[j]);
        }
        assert(!(contributes(rs[rs.len() - 1]) && decoded(rs[rs.len() - 1].sections.broadband) is Some));
        lemma_last_broadband_none(p);
    }
}

/// A batch's broadband status are those of the last answer that counts (no `errors`
/// member, a `data.installation` member) and whose broadband status decode: when
/// answer `i` is that answer, the merged data holds exactly what it decoded,
/// and such a batch is not one that reports unavailability throughout.
pub proof fn lemma_batch_broadband(rs: Seq<GraphQLResponse>, d: VerisureData, i: int, v: Broadband)
    requires
        data_of(d, rs),
        0 <= i < rs.len(),
        contributes(rs[i]),
        decoded(rs[i].sections.broadband) == Some(v),
        no_later_broadband(rs, i),
    ensures
        d.broadband == Some(v),
        unavailable_count(rs) != rs.len(),
{
    lemma_last_broadband_at(rs, i, v);
    lemma_unavailable_iff_all(rs);
    assert(!unavailable_answer(rs[i]));
}

/// When no answer of a batch both counts and decodes its broadband status, the merged
/// data's broadband status is absent.
pub proof fn lemma_batch_no_broadband(rs: Seq<GraphQLResponse>, d: VerisureData)
    requires
        data_of(d, rs),
        no_later_broadband(rs, -1),
    ensures
        d.broadband is None,
{
    lemma_last_broadband_none(rs);
}

/// A scrape's first data answer that is neither a refused session nor a
/// report of unavailability ends the scrape at once: the answer, data or
/// error, is handed on exactly as it came, and the client is idle at the
/// same endpoint with the same installation.
pub proof fn lemma_first_answer_handed_on(m: ClientModel, r: Result<VerisureData, VerisureError>)
    requires
        m.wf(),
        m.phase is Fetch,
        !(r matches Err(VerisureError::Auth(_))),
        !(r matches Err(VerisureError::ServiceUnavailable)),
    ensures
        after_fetch(m, r) == (ClientModel { phase: PhaseModel::Idle, ..m }, Next::FetchResult(r)),
{
}

/// The label set of a metric about the installation `giid`.
pub open spec fn installation_set(giid: Seq<char>) -> LabelKey {
    seq![("installation"@, giid)]
}

/// The label set of a metric about device `d` of installation `giid`: the
/// installation, the device label and the area (empty when not reported).
pub open spec fn device_set(giid: Seq<char>, d: Device) -> LabelKey {
    seq![("installation"@, giid), ("device_label"@, d.device_label@), ("area"@, or_empty(d.area))]
}

/// The label set of a climate sensor's readings: the installation, the
/// device label, the area and the device type (each empty when not
/// reported).
pub open spec fn sensor_set(giid: Seq<char>, cv: ClimateValue) -> LabelKey {
    seq![
        ("installation"@, giid),
        ("device_label"@, cv.device.device_label@),
        ("area"@, or_empty(cv.device.area)),
        ("device_type"@, or_empty(cv.device_type)),
    ]
}

/// The installation's gauges after storing a scrape: the arm state gauge
/// holds 0 for `DISARMED`, 1 for `ARMED_HOME`, 2 for `ARMED_AWAY` and -1 for
/// anything else; the arm change gauge holds the Unix time of the reported
/// change when its text parses; the broadband gauge holds 1 when the link is reported
/// connected and 0 when it is reported down or its state is not reported.
/// What the scrape does not report leaves its gauge as it was.
pub proof fn lemma_installation_values_stored(m0: Metrics, m1: Metrics, data: VerisureData, giid: Seq<char>)
    requires
        updated(m0, m1, data, giid),
    ensures
        data.arm_state matches Some(a) ==> (m1.values(StateMetric::AlarmArmedState).contains_key(installation_set(giid))
            && m1.values(StateMetric::AlarmArmedState)[installation_set(giid)] == (if a.status_type@ == "DISARMED"@ {
                0int
            } else if a.status_type@ == "ARMED_HOME"@ {
                1int
            } else if a.status_type@ == "ARMED_AWAY"@ {
                2int
            } else {
                -1int
            })),
        data.arm_state matches Some(a) ==> (a.date matches Some(t) ==> (rfc3339_seconds(t@) matches Some(secs) ==> (
            m1.values(StateMetric::AlarmChangedTimestamp).contains_key(installation_set(giid))
                && m1.values(StateMetric::AlarmChangedTimestamp)[installation_set(giid)] == secs as int))),
        data.arm_state matches Some(a) ==> (a.date matches Some(t) ==> (rfc3339_seconds(t@) is None
            ==> m1.values(StateMetric::AlarmChangedTimestamp) == m0.values(StateMetric::AlarmChangedTimestamp))),
        data.arm_state matches Some(a) ==> (a.date is None
            ==> m1.values(StateMetric::AlarmChangedTimestamp) == m0.values(StateMetric::AlarmChangedTimestamp)),
        data.arm_state is None ==> m1.values(StateMetric::AlarmArmedState) == m0.values(StateMetric::AlarmArmedState),
        data.arm_state is None ==> m1.values(StateMetric::AlarmChangedTimestamp) == m0.values(StateMetric::AlarmChangedTimestamp),
        data.broadband matches Some(b) ==> (m1.values(StateMetric::BroadbandConnected).contains_key(installation_set(giid))
            && m1.values(StateMetric::BroadbandConnected)[installation_set(giid)] == (if b.is_broadband_connected == Some(true) {
                1int
            } else {
                0int
            })),
        data.broadband is None ==> m1.values(StateMetric::BroadbandConnected) == m0.values(StateMetric::BroadbandConnected),
{
}

/// A lock's gauges after storing a scrape, from the lock's last report in
/// it (`i`): locked is 1 for `LOCKED`, 0 for `UNLOCKED` and -1 otherwise or
/// when not reported; motor jam and secure mode are each 1 exactly when
/// reported true, and 0 when reported false or not reported.
pub proof fn lemma_lock_values_stored(m0: Metrics, m1: Metrics, data: VerisureData, giid: Seq<char>, i: int)
    requires
        updated(m0, m1, data, giid),
        0 <= i < data.door_locks@.len(),
        forall|j: int| i < j < data.door_locks@.len()
            ==> device_set(giid, #[trigger] data.door_locks@[j].device) != device_set(giid, data.door_locks@[i].device),
    ensures
        ({
            let l = data.door_locks@[i];
            let k = device_set(giid, l.device);
            &&& m1.values(StateMetric::LockLocked).contains_key(k)
            &&& m1.values(StateMetric::LockLocked)[k] == (match l.lock_status {
                Some(s) => if s@ == "LOCKED"@ { 1int } else if s@ == "UNLOCKED"@ { 0int } else { -1int },
                None => -1int,
            })
            &&& m1.values(StateMetric::LockMotorJam).contains_key(k)
            &&& m1.values(StateMetric::LockMotorJam)[k] == (if l.motor_jam == Some(true) { 1int } else { 0int })
            &&& m1.values(StateMetric::LockSecureMode).contains_key(k)
            &&& m1.values(StateMetric::LockSecureMode)[k] == (if l.secure_mode_active == Some(true) { 1int } else { 0int })
        }),
{
    let ls = data.door_locks@;
    let k = device_set(giid, ls[i].device);
    lemma_locked_overwrites(m0.values(StateMetric::LockLocked), giid, ls, k, i);
    lemma_motor_jam_overwrites(m0.values(StateMetric::LockMotorJam), giid, ls, k, i);
    lemma_secure_mode_overwrites(m0.values(StateMetric::LockSecureMode), giid, ls, k, i);
}

/// A door or window sensor's open gauge after storing a scrape, from its
/// last report in it (`i`): 1 for `OPEN`, 0 for `CLOSE` or `CLOSED`, -1 for
/// anything else.
pub proof fn lemma_door_value_stored(m0: Metrics, m1: Metrics, data: VerisureData, giid: Seq<char>, i: int)
    requires
        updated(m0, m1, data, giid),
        0 <= i < data.door_windows@.len(),
        forall|j: int| i < j < data.door_windows@.len()
            ==> device_set(giid, #[trigger] data.door_windows@[j].device) != device_set(giid, data.door_windows@[i].device),
    ensures
        ({
            let dw = data.door_windows@[i];
            let k = device_set(giid, dw.device);
            &&& m1.values(StateMetric::DoorWindowOpen).contains_key(k)
            &&& m1.values(StateMetric::DoorWindowOpen)[k] == (if dw.state@ == "OPEN"@ {
                1int
            } else if dw.state@ == "CLOSE"@ || dw.state@ == "CLOSED"@ {
                0int
            } else {
                -1int
            })
        }),
{
    let xs = data.door_windows@;
    lemma_door_open_overwrites(m0.values(StateMetric::DoorWindowOpen), giid, xs, device_set(giid, xs[i].device), i);
}

/// A smart plug's gauge after storing a scrape, from its last report in it
/// (`i`): 1 for `ON`, 0 for `OFF`, -1 for anything else.
pub proof fn lemma_plug_value_stored(m0: Metrics, m1: Metrics, data: VerisureData, giid: Seq<char>, i: int)
    requires
        updated(m0, m1, data, giid),
        0 <= i < data.smart_plugs@.len(),
        forall|j: int| i < j < data.smart_plugs@.len()
            ==> device_set(giid, #[trigger] data.smart_plugs@[j].device) != device_set(giid, data.smart_plugs@[i].device),
    ensures
        ({
            let p = data.smart_plugs@[i];
            let k = device_set(giid, p.device);
            &&& m1.values(StateMetric::SmartplugOn).contains_key(k)
            &&& m1.values(StateMetric::SmartplugOn)[k] == (if p.current_state@ == "ON"@ {
                1int
            } else if p.current_state@ == "OFF"@ {
                0int
            } else {
                -1int
            })
        }),
{
    let xs = data.smart_plugs@;
    lemma_plug_overwrites(m0.values(StateMetric::SmartplugOn), giid, xs, device_set(giid, xs[i].device), i);
}

/// Reading `r` is one of sensor `cv`'s: it carries the sensor's label set,
/// a temperature reading holds the sensor's temperature text and a humidity
/// reading its humidity text.
pub open spec fn reading_of(r: (FloatGauge, LabelKey, Seq<char>), giid: Seq<char>, cv: ClimateValue) -> bool {
    &&& r.1 == sensor_set(giid, cv)
    &&& r.0 == FloatGauge::TemperatureCelsius ==> (cv.temperature_value matches Some(t) && r.2 == t@)
    &&& r.0 == FloatGauge::HumidityPercent ==> (cv.humidity_value matches Some(h) && r.2 == h@)
}

/// Reading `r` is one of the sensors' among `cvs`.
pub open spec fn read_from_some(r: (FloatGauge, LabelKey, Seq<char>), giid: Seq<char>, cvs: Seq<ClimateValue>) -> bool {
    exists|i: int| 0 <= i < cvs.len() && #[trigger] reading_of(r, giid, cvs[i])
}

/// The climate readings of a scrape belong to their sensors: every reading
/// `rs` holds, temperature or humidity, carries the full label set of the
/// sensor it was read from (installation, device label, area, device type)
/// and that sensor's value; and every reported temperature and every
/// reported humidity of every sensor is among the readings. So readings of
/// sensors with different label sets never share a series.
pub proof fn lemma_readings_labelled(giid: Seq<char>, cvs: Seq<ClimateValue>, rs: Seq<(FloatGauge, LabelKey, Seq<char>)>)
    requires
        rs == climate_readings(giid, cvs),
    ensures
        forall|j: int| 0 <= j < rs.len() ==> #[trigger] read_from_some(rs[j], giid, cvs),
        forall|i: int| 0 <= i < cvs.len() && (#[trigger] cvs[i]).temperature_value is Some
            ==> exists|j: int| 0 <= j < rs.len() && (#[trigger] rs[j]).0 == FloatGauge::TemperatureCelsius
                && reading_of(rs[j], giid, cvs[i]),
        forall|i: int| 0 <= i < cvs.len() && (#[trigger] cvs[i]).humidity_value is Some
            ==> exists|j: int| 0 <= j < rs.len() && (#[trigger] rs[j]).0 == FloatGauge::HumidityPercent
                && reading_of(rs[j], giid, cvs[i]),
    decreases cvs.len(),
{
    if cvs.len() > 0 {
        let n = cvs.len() - 1;
        let p = cvs.drop_last();
        let c = cvs[n];
        let rp = climate_readings(giid, p);
        lemma_readings_labelled(giid, p, rp);
        let sr = sensor_readings(giid, c);
        assert(rs == rp + sr);
        let t_len: int = if c.temperature_value is Some { 1 } else { 0 };
        assert(sr.len() == t_len + if c.humidity_value is Some { 1int } else { 0int });
        assert forall|j: int| 0 <= j < sr.len() implies reading_of(sr[j], giid, c)
            && (j < t_len ==> sr[j].0 == FloatGauge::TemperatureCelsius)
            && (j >= t_len ==> sr[j].0 == FloatGauge::HumidityPercent) by {
        }
        assert forall|j: int| 0 <= j < rs.len() implies #[trigger] read_from_some(rs[j], giid, cvs) by {
            if j < rp.len() {
                assert(rs[j] == rp[j]);
                assert(read_from_some(rp[j], giid, p));
                let i = choose|i: int| 0 <= i < p.len() && #[trigger] reading_of(rp[j], giid, p[i]);
                assert(p[i] == cvs[i]);
                assert(reading_of(rs[j], giid, cvs[i]));
            } else {
                assert(rs[j] == sr[j - rp.len()]);
                assert(reading_of(rs[j], giid, cvs[n]));
            }
        }
        assert forall|i: int| 0 <= i < cvs.len() && (#[trigger] cvs[i]).temperature_value is Some implies exists|j: int|
            0 <= j < rs.len() && (#[trigger] rs[j]).0 == FloatGauge::TemperatureCelsius && reading_of(rs[j], giid, cvs[i]) by {
            if i < n {
                assert(p[i] == cvs[i]);
                let j = choose|j: int| 0 <= j < rp.len() && (#[trigger] rp[j]).0 == FloatGauge::TemperatureCelsius && reading_of(rp[j], giid, p[i]);
                assert(rs[j] == rp[j]);
            } else {
                let j = rp.len() as int;
                assert(rs[j] == sr[0]);
                assert(rs[j].0 == FloatGauge::TemperatureCelsius && reading_of(rs[j], giid, cvs[i]));
            }
        }
        assert forall|i: int| 0 <= i < cvs.len() && (#[trigger] cvs[i]).humidity_value is Some implies exists|j: int|
            0 <= j < rs.len() && (#[trigger] rs[j]).0 == FloatGauge::HumidityPercent && reading_of(rs[j], giid, cvs[i]) by {
            if i < n {
                assert(p[i] == cvs[i]);
                let j = choose|j: int| 0 <= j < rp.len() && (#[trigger] rp[j]).0 == FloatGauge::HumidityPercent && reading_of(rp[j], giid, p[i]);
                assert(rs[j] == rp[j]);
            } else {
                let j = rp.len() + t_len;
                assert(rs[j] == sr[t_len]);
                assert(rs[j].0 == FloatGauge::HumidityPercent && reading_of(rs[j], giid, cvs[i]));
            }
        }
    } else {
        assert(rs.len() == 0);
    }
}

/// The metric catalogue, in registration order: each metric's name below
/// the `verisure` prefix and its help text, as documented; and registering
/// every metric that `Metrics` holds (`register_held` from the first to the
/// last position) adds exactly these descriptors, in this order.
pub proof fn lemma_catalogue()
    ensures
        spec_registration_order().len() == 14,
        metric_descriptor(spec_registration_order()[0]) == descriptor("alarm_armed_state"@, "Arm state: 0=disarmed, 1=armed_home, 2=armed_away"@),
        metric_descriptor(spec_registration_order()[1]) == descriptor("alarm_changed_timestamp_seconds"@, "Unix timestamp of last arm state change"@),
        metric_descriptor(spec_registration_order()[2]) == descriptor("temperature_celsius"@, "Temperature in degrees Celsius"@),
        metric_descriptor(spec_registration_order()[3]) == descriptor("humidity_percent"@, "Relative humidity percentage"@),
        metric_descriptor(spec_registration_order()[4]) == descriptor("door_window_open"@, "1=open, 0=closed"@),
        metric_descriptor(spec_registration_order()[5]) == descriptor("door_window_report_timestamp_seconds"@, "Unix timestamp of last report"@),
        metric_descriptor(spec_registration_order()[6]) == descriptor("lock_locked"@, "1=locked, 0=unlocked"@),
        metric_descriptor(spec_registration_order()[7]) == descriptor("lock_motor_jam"@, "1 if motor jammed"@),
        metric_descriptor(spec_registration_order()[8]) == descriptor("lock_secure_mode"@, "1 if secure mode active"@),
        metric_descriptor(spec_registration_order()[9]) == descriptor("smartplug_on"@, "1=on, 0=off"@),
        metric_descriptor(spec_registration_order()[10]) == descriptor("broadband_connected"@, "1 if broadband connected"@),
        metric_descriptor(spec_registration_order()[11]) == descriptor("scrape_duration_seconds"@, "Duration of the last scrape"@),
        metric_descriptor(spec_registration_order()[12]) == descriptor("scrape_success"@, "1 if last scrape succeeded"@),
        metric_descriptor(spec_registration_order()[13]) == descriptor("scrape_errors"@, "Total number of scrape errors"@),
        held_descriptors(spec_registration_order()) == seq![
            descriptor("alarm_armed_state"@, "Arm state: 0=disarmed, 1=armed_home, 2=armed_away"@),
            descriptor("alarm_changed_timestamp_seconds"@, "Unix timestamp of last arm state change"@),
            descriptor("door_window_open"@, "1=open, 0=closed"@),
            descriptor("door_window_report_timestamp_seconds"@, "Unix timestamp of last report"@),
            descriptor("lock_locked"@, "1=locked, 0=unlocked"@),
            descriptor("lock_motor_jam"@, "1 if motor jammed"@),
            descriptor("lock_secure_mode"@, "1 if secure mode active"@),
            descriptor("smartplug_on"@, "1=on, 0=off"@),
            descriptor("broadband_connected"@, "1 if broadband connected"@),
            descriptor("scrape_success"@, "1 if last scrape succeeded"@),
            descriptor("scrape_errors"@, "Total number of scrape errors"@)
        ],
{
    reveal_with_fuel(held_descriptors, 15);
    let o = spec_registration_order();
    assert(held_descriptors(o) =~= seq![
            descriptor("alarm_armed_state"@, "Arm state: 0=disarmed, 1=armed_home, 2=armed_away"@),
            descriptor("alarm_changed_timestamp_seconds"@, "Unix timestamp of last arm state change"@),
            descriptor("door_window_open"@, "1=open, 0=closed"@),
            descriptor("door_window_report_timestamp_seconds"@, "Unix timestamp of last report"@),
            descriptor("lock_locked"@, "1=locked, 0=unlocked"@),
            descriptor("lock_motor_jam"@, "1 if motor jammed"@),
            descriptor("lock_secure_mode"@, "1 if secure mode active"@),
            descriptor("smartplug_on"@, "1=on, 0=off"@),
            descriptor("broadband_connected"@, "1 if broadband connected"@),
            descriptor("scrape_success"@, "1 if last scrape succeeded"@),
            descriptor("scrape_errors"@, "Total number of scrape errors"@)
    ]);
}

/// Routing: only a GET is answered; a GET of the metrics path is the metrics
/// (even when that path is one of the others); otherwise `/healthz` is the
/// health probe, `/readyz` the readiness probe, `/` the landing page, and
/// any other path is not found.
pub proof fn lemma_routes(path: Seq<char>, metrics_path: Seq<char>)
    ensures
        spec_route(false, path, metrics_path) == Route::NotFound,
        path == metrics_path ==> spec_route(true, path, metrics_path) == Route::Metrics,
        path != metrics_path && path == "/healthz"@ ==> spec_route(true, path, metrics_path) == Route::Health,
        path != metrics_path && path == "/readyz"@ ==> spec_route(true, path, metrics_path) == Route::Ready,
        path != metrics_path && path == "/"@ ==> spec_route(true, path, metrics_path) == Route::Landing,
        path != metrics_path && path != "/healthz"@ && path != "/readyz"@ && path != "/"@
            ==> spec_route(true, path, metrics_path) == Route::NotFound,
{
    reveal_strlit("/healthz");
    reveal_strlit("/readyz");
    reveal_strlit("/");
    assert("/healthz"@.len() == 8 && "/readyz"@.len() == 7 && "/"@.len() == 1);
}

/// The answers of the routes other than the metrics: the health probe is
/// 200 `OK`; the readiness probe is 200 `OK` once ready and 503 `Not ready`
/// before; the landing page is 200 HTML linking to the metrics path; any
/// other request is 404 `Not Found`. Only the landing page has a content
/// type; the metrics are served as OpenMetrics text.
pub proof fn lemma_plain_answers(r: HttpResponse, metrics_path: Seq<char>, ready: bool)
    ensures
        plain_answer(r, Route::Health, metrics_path, ready) ==> (r.status == 200 && r.body@ == "OK"@ && r.content_type is None),
        plain_answer(r, Route::Ready, metrics_path, ready) && ready ==> (r.status == 200 && r.body@ == "OK"@ && r.content_type is None),
        plain_answer(r, Route::Ready, metrics_path, ready) && !ready
            ==> (r.status == 503 && r.body@ == "Not ready"@ && r.content_type is None),
        plain_answer(r, Route::Landing, metrics_path, ready) ==> (r.status == 200
            && (r.content_type matches Some(c) && c@ == "text/html"@)
            && r.body@ == "<html><head><title>Verisure Exporter</title></head><body><h1>Verisure Exporter</h1><p><a href=\""@
                + metrics_path + "\">"@ + metrics_path + "</a></p></body></html>"@),
        plain_answer(r, Route::NotFound, metrics_path, ready) ==> (r.status == 404 && r.body@ == "Not Found"@ && r.content_type is None),
        !plain_answer(r, Route::Metrics, metrics_path, ready),
        openmetrics_type() == "application/openmetrics-text; version=1.0.0; charset=utf-8"@,
{
}

/// Which part of an answer the client reads, by status: a success
/// (200 to 299) is read as JSON for a login, an installations query and a
/// data request; otherwise a login's text is read, an installations query's
/// nothing, and a data request's text, except on 401, where nothing is read
/// and the session is renewed.
pub proof fn lemma_bodies_read(status: u16)
    ensures
        spec_is_success(status) <==> 200 <= status <= 299,
        200 <= status <= 299 ==> spec_login_body(status) == BodyWanted::Json,
        200 <= status <= 299 ==> spec_installations_body(status) == BodyWanted::Json,
        200 <= status <= 299 ==> spec_fetch_body(status) == BodyWanted::Json,
        !(200 <= status <= 299) ==> spec_login_body(status) == BodyWanted::Text,
        !(200 <= status <= 299) ==> spec_installations_body(status) == BodyWanted::Nothing,
        status == 401 ==> spec_fetch_body(status) == BodyWanted::Nothing,
        !(200 <= status <= 299) && status != 401 ==> spec_fetch_body(status) == BodyWanted::Text,
{
}

/// A GraphQL error entry reports unavailability exactly when its
/// `data.errorCode` member is the string `SYS_00004`.
pub proof fn lemma_unavailable_entry(e: JsonValue)
    ensures
        reports_unavailable(e) <==> json_str(json_get_opt(json_get(e, "data"@), "errorCode"@)) == Some("SYS_00004"@),
{
}

/// The client's requests go to the endpoint in use: logins to its
/// `/auth/login`, GraphQL queries to its `/graphql`.
pub proof fn lemma_request_urls(m: ClientModel)
    ensures
        login_url(m) == m.active + "/auth/login"@,
        graphql_url(m) == m.active + "/graphql"@,
{
}

/// The texts of the errors the library reports: a refused login names the
/// displayed status and the body text, a refused installations query the
/// status, a refused data request the status and the body text; a login
/// that asks for a second factor, a start-up that finds no working endpoint
/// and a scrape without an installation have fixed texts.
pub proof fn lemma_error_texts(status: u16, text: Option<String>)
    ensures
        login_failed_text(status, text) == "Login failed with status "@ + status_line(status) + ": "@ + or_empty(text),
        installations_failed_text(status) == "Installations query failed with status "@ + status_line(status),
        fetch_failed_text(status, text) == "GraphQL request failed "@ + status_line(status) + ": "@ + or_empty(text),
        mfa_text() == "MFA (stepUpToken) required but not supported"@,
        init_failed_text() == "All API endpoints failed during init"@,
        no_giid_text() == "GIID not set"@,
{
}

/// A scrape needs an installation: without one it ends at once with the
/// `GIID not set` error and the client unchanged; with one the client asks
/// for the data and waits for it.
pub proof fn lemma_fetch_needs_giid(m: ClientModel)
    requires
        m.wf(),
        m.phase is Idle,
    ensures
        m.giid is None ==> fetch_start(m) == (m, Next::NoGiid),
        m.giid is Some ==> fetch_start(m) == (ClientModel { phase: PhaseModel::Fetch, ..m }, Next::SendFetch),
{
}

/// Query `q` is the named operation `op` with the one variable `var` bound
/// to `value`, and query text `text`.
pub open spec fn asks_for(q: GraphQLQuery, op: Seq<char>, var: Seq<char>, value: Seq<char>, text: Seq<char>) -> bool {
    &&& q.operation_name matches Some(n) && n@ == op
    &&& q.variables matches Some(v) && v.0@ == var && v.1@ == value
    &&& q.query@ == text
}

/// A scrape asks for six things about its installation, in this order,
/// each as a named GraphQL operation with the installation's GIID as the
/// variable `giid`: the arm state, the climate sensors, the door and window
/// sensors, the locks, the smart plugs, the broadband status.
pub proof fn lemma_data_batch(qs: Seq<GraphQLQuery>, giid: Seq<char>)
    requires
        are_fetch_queries(qs, giid),
    ensures
        qs.len() == 6,
        asks_for(qs[0], "ArmState"@, "giid"@, giid, "query ArmState($giid: String!) { installation(giid: $giid) { armState { type statusType date name changedVia } } }"@),
        asks_for(qs[1], "Climate"@, "giid"@, giid, "query Climate($giid: String!) { installation(giid: $giid) { climates { device { deviceLabel area } humidityEnabled humidityTimestamp humidityValue temperatureTimestamp temperatureValue } } }"@),
        asks_for(qs[2], "DoorWindow"@, "giid"@, giid, "query DoorWindow($giid: String!) { installation(giid: $giid) { doorWindows { device { deviceLabel area } state wired reportTime } } }"@),
        asks_for(qs[3], "DoorLock"@, "giid"@, giid, "query DoorLock($giid: String!) { installation(giid: $giid) { smartLocks { device { deviceLabel area } lockStatus doorState lockMethod eventTime doorLockType secureMode user { name } } } }"@),
        asks_for(qs[4], "SmartPlug"@, "giid"@, giid, "query SmartPlug($giid: String!) { installation(giid: $giid) { smartplugs { device { deviceLabel area } currentState icon isHazardous } } }"@),
        asks_for(qs[5], "Broadband"@, "giid"@, giid, "query Broadband($giid: String!) { installation(giid: $giid) { broadband { testDate isBroadbandConnected } } }"@),
{
}

/// The installation lookup asks for the account's installations, with the
/// account's e-mail address as the variable `email`.
pub proof fn lemma_installations_request(q: GraphQLQuery, email: Seq<char>)
    requires
        q.is_operation("AccountInstallations"@, "email"@, email, account_installations_text()),
    ensures
        asks_for(q, "AccountInstallations"@, "email"@, email, "query AccountInstallations($email: String!) { account(email: $email) { installations { giid alias } } }"@),
{
}

} // verus!
