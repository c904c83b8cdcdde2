//! Properties of the library that span several functions or every input.
use vstd::prelude::*;

use crate::verisure::client::{
    after_fetch, after_installations, after_login, failover_target, fetch_start, init_start,
    ClientModel, Next, PhaseModel,
};
use crate::verisure::reply::{unavailable_answer, unavailable_count, GraphQLResponse, VerisureError};
use crate::metrics::collector::{
    arm_changed_after, armed_after, broadband_after, device_key, door_open_after, door_report_after,
    jammed_after, locked_after, plug_after, secure_after, spec_door_window_value, spec_flag_value,
    spec_lock_value, spec_plug_value, updated,
};
use crate::metrics::registry::{no_gauges, scrape_step, LabelKey, Metrics, ScrapeGauges, StateMetric};
use crate::verisure::types::{DoorLock, DoorWindow, SmartPlug, VerisureData};

verus! {

/// A bound on the requests that an exchange in state `m` may still send.
pub open spec fn requests_left(m: ClientModel) -> int {
    let n = m.urls.len() as int;
    match m.phase {
        PhaseModel::Idle => 0,
        PhaseModel::InitLogin { index } => 2 * (n - index),
        PhaseModel::InitInstallations { index } => 2 * (n - index) - 1,
        PhaseModel::Fetch => 2 * n + 3,
        PhaseModel::Relogin => 2,
        PhaseModel::Refetch => 1,
        PhaseModel::FailoverLogin { index, .. } => 2 * (n - index),
        PhaseModel::FailoverFetch { index, .. } => 2 * (n - index) - 1,
    }
}

/// The decision sends a request (rather than ending the exchange).
pub open spec fn sends(n: Next) -> bool {
    n is SendLogin || n is SendInstallations || n is SendFetch
}

proof fn lemma_failover_target_after(urls: Seq<Seq<char>>, skipped: Seq<char>, from: int)
    requires
        0 <= from,
    ensures
        failover_target(urls, skipped, from) matches Some(j) ==> from <= j < urls.len() && urls[j] != skipped,
    decreases urls.len() - from,
{
    if from < urls.len() && urls[from] == skipped {
        lemma_failover_target_after(urls, skipped, from + 1);
    }
}

/// Every exchange ends. While the client waits for an answer, fewer than
/// `requests_left` requests remain, and every answer either ends the
/// exchange (the client is idle and sends nothing) or sends one request and
/// lowers that bound. So start-up sends at most two requests per endpoint,
/// and a scrape at most three plus two per endpoint.
pub proof fn lemma_exchange_terminates(
    m: ClientModel,
    login: Result<(), VerisureError>,
    giid: Result<String, VerisureError>,
    data: Result<VerisureData, VerisureError>,
)
    requires
        m.wf(),
    ensures
        m.phase !is Idle ==> requests_left(m) > 0,
        m.awaits_login() ==> ({
            let (m2, n) = after_login(m, login);
            (sends(n) && requests_left(m2) < requests_left(m) && !(m2.phase is Idle))
                || (!sends(n) && m2.phase is Idle)
        }),
        m.phase is InitInstallations ==> ({
            let (m2, n) = after_installations(m, giid);
            (sends(n) && requests_left(m2) < requests_left(m) && !(m2.phase is Idle))
                || (!sends(n) && m2.phase is Idle)
        }),
        m.awaits_fetch() ==> ({
            let (m2, n) = after_fetch(m, data);
            (sends(n) && requests_left(m2) < requests_left(m) && !(m2.phase is Idle))
                || (!sends(n) && m2.phase is Idle)
        }),
        m.phase is Idle ==> ({
            let (m2, n) = init_start(m);
            (sends(n) && requests_left(m2) <= 2 * m.urls.len() && !(m2.phase is Idle)) || (!sends(n) && m2.phase is Idle)
        }),
        m.phase is Idle ==> ({
            let (m2, n) = fetch_start(m);
            (sends(n) && requests_left(m2) == 2 * m.urls.len() + 3) || (!sends(n) && m2.phase is Idle)
        }),
{
    match m.phase {
        PhaseModel::FailoverLogin { index, skipped } => {
            lemma_failover_target_after(m.urls, skipped, index + 1);
        },
        PhaseModel::FailoverFetch { index, skipped } => {
            lemma_failover_target_after(m.urls, skipped, index + 1);
        },
        PhaseModel::Fetch => {
            lemma_failover_target_after(m.urls, m.active, 0);
        },
        _ => {},
    }
}

/// Re-authentication on 401: when a scrape's data request is refused as
/// unauthorized, the client logs in again at the same endpoint with the same
/// credentials; after a successful login it repeats the data request once,
/// at the same endpoint and for the same installation, and whatever that
/// second request yields ends the scrape. A failed login ends the scrape with
/// the login's error.
pub proof fn lemma_reauth_on_unauthorized(
    m: ClientModel,
    msg: String,
    login_error: VerisureError,
    second: Result<VerisureData, VerisureError>,
)
    requires
        m.wf(),
        m.phase is Fetch,
    ensures
        ({
            let (m1, n1) = after_fetch(m, Err(VerisureError::Auth(msg)));
            &&& n1 is SendLogin
            &&& m1.active == m.active && m1.giid == m.giid && m1.phase is Relogin
            &&& after_login(m1, Ok(())).1 is SendFetch
            &&& after_login(m1, Ok(())).0.active == m.active
            &&& after_login(m1, Ok(())).0.giid == m.giid
            &&& after_fetch(after_login(m1, Ok(())).0, second) == (
                ClientModel { phase: PhaseModel::Idle, ..m },
                Next::FetchResult(second),
            )
            &&& after_login(m1, Err(login_error)) == (
                ClientModel { phase: PhaseModel::Idle, ..m },
                Next::FetchResult(Err(login_error)),
            )
        }),
{
}

/// Failover: when a scrape's data request reports the service unavailable,
/// the client logs in at the first configured endpoint other than the one in
/// use, never at the one in use; when there is no other endpoint, the scrape
/// ends with `ServiceUnavailable`.
pub proof fn lemma_failover_skips_unavailable(m: ClientModel)
    requires
        m.wf(),
        m.phase is Fetch,
    ensures
        ({
            let (m1, n1) = after_fetch(m, Err(VerisureError::ServiceUnavailable));
            match failover_target(m.urls, m.active, 0) {
                Some(j) => {
                    &&& n1 is SendLogin
                    &&& m1.active == m.urls[j]
                    &&& m1.active != m.active
                    &&& forall|k: int| 0 <= k < j ==> m.urls[k] == m.active
                },
                None => {
                    &&& n1 == Next::FetchResult(Err(VerisureError::ServiceUnavailable))
                    &&& m1.phase is Idle
                    &&& forall|k: int| 0 <= k < m.urls.len() ==> m.urls[k] == m.active
                },
            }
        }),
{
    lemma_failover_target_after(m.urls, m.active, 0);
    lemma_failover_target_prefix(m.urls, m.active, 0);
}

proof fn lemma_failover_target_prefix(urls: Seq<Seq<char>>, skipped: Seq<char>, from: int)
    requires
        0 <= from,
    ensures
        failover_target(urls, skipped, from) matches Some(j) ==> forall|k: int| from <= k < j ==> urls[k] == skipped,
        failover_target(urls, skipped, from) is None ==> forall|k: int| from <= k < urls.len() ==> urls[k] == skipped,
    decreases urls.len() - from,
{
    if from < urls.len() && urls[from] == skipped {
        lemma_failover_target_prefix(urls, skipped, from + 1);
    }
}

/// The installation: a configured GIID is kept by every step, and the GIID
/// changes only when start-up learns the account's single installation.
/// Whenever start-up ends successfully, an installation is known.
pub proof fn lemma_giid_kept(
    m: ClientModel,
    login: Result<(), VerisureError>,
    found: Result<String, VerisureError>,
    data: Result<VerisureData, VerisureError>,
)
    requires
        m.wf(),
    ensures
        m.awaits_login() ==> after_login(m, login).0.giid == m.giid,
        m.awaits_fetch() ==> after_fetch(m, data).0.giid == m.giid,
        m.phase is InitInstallations ==> after_installations(m, found).0.giid == (match found {
            Ok(g) => Some(g@),
            Err(_) => m.giid,
        }),
        m.awaits_login() && after_login(m, login).1 is InitOk ==> after_login(m, login).0.giid is Some,
        m.phase is InitInstallations && after_installations(m, found).1 is InitOk
            ==> after_installations(m, found).0.giid is Some,
{
}

/// Something that happens to the client: a start-up or a scrape begins, or
/// the answer to a login, an installations query or a data request comes.
pub enum ClientEvent {
    StartInit,
    StartFetch,
    Login(Result<(), VerisureError>),
    Installations(Result<String, VerisureError>),
    Fetch(Result<VerisureData, VerisureError>),
}

/// The client's state after an event. An event that the client does not
/// accept in its state (a start while an exchange is in progress, an answer
/// that it does not wait for) changes nothing: the methods' preconditions
/// rule it out.
pub open spec fn client_step(m: ClientModel, e: ClientEvent) -> ClientModel {
    match e {
        ClientEvent::StartInit => if m.phase is Idle { init_start(m).0 } else { m },
        ClientEvent::StartFetch => if m.phase is Idle { fetch_start(m).0 } else { m },
        ClientEvent::Login(r) => if m.awaits_login() { after_login(m, r).0 } else { m },
        ClientEvent::Installations(r) => if m.phase is InitInstallations { after_installations(m, r).0 } else { m },
        ClientEvent::Fetch(r) => if m.awaits_fetch() { after_fetch(m, r).0 } else { m },
    }
}

/// The client's state after a sequence of events.
pub open spec fn client_run(m: ClientModel, events: Seq<ClientEvent>) -> ClientModel
    decreases events.len(),
{
    if events.len() == 0 {
        m
    } else {
        client_run(client_step(m, events[0]), events.drop_first())
    }
}

/// Every step keeps the client consistent.
pub proof fn lemma_step_keeps_wf(m: ClientModel, e: ClientEvent)
    requires
        m.wf(),
    ensures
        client_step(m, e).wf(),
{
    match m.phase {
        PhaseModel::FailoverLogin { index, skipped } => {
            lemma_failover_target_after(m.urls, skipped, index + 1);
        },
        PhaseModel::FailoverFetch { index, skipped } => {
            lemma_failover_target_after(m.urls, skipped, index + 1);
        },
        PhaseModel::Fetch => {
            lemma_failover_target_after(m.urls, m.active, 0);
        },
        _ => {},
    }
}

/// A configured GIID is never replaced: whatever start-ups and scrapes the
/// client goes through, and whatever the API answers, the installation in
/// use stays the one it had, and the client stays consistent.
pub proof fn lemma_configured_giid_never_replaced(m: ClientModel, events: Seq<ClientEvent>, g: Seq<char>)
    requires
        m.wf(),
        m.giid == Some(g),
    ensures
        client_run(m, events).giid == Some(g),
        client_run(m, events).wf(),
    decreases events.len(),
{
    if events.len() > 0 {
        lemma_step_keeps_wf(m, events[0]);
        lemma_configured_giid_never_replaced(client_step(m, events[0]), events.drop_first(), g);
    }
}

/// Start-up tries the endpoints in order: after a failed login or a failed
/// installation lookup at endpoint `i`, the next request is a login at
/// endpoint `i + 1`; after the last endpoint start-up fails.
pub proof fn lemma_init_in_order(m: ClientModel, e: VerisureError, f: VerisureError)
    requires
        m.wf(),
        m.phase is InitLogin || m.phase is InitInstallations,
    ensures
        ({
            let i = if m.phase is InitLogin { m.phase->InitLogin_index } else { m.phase->InitInstallations_index };
            let (m1, n1) = if m.phase is InitLogin { after_login(m, Err(e)) } else { after_installations(m, Err(f)) };
            &&& i + 1 < m.urls.len() ==> (n1 is SendLogin && m1.active == m.urls[i + 1] && m1.phase == PhaseModel::InitLogin { index: i + 1 })
            &&& i + 1 >= m.urls.len() ==> (n1 is InitFailed && m1.phase is Idle)
        }),
{
}

/// `ServiceUnavailable` comes from a batch exactly when every answer in it
/// reports the service unavailable (so an empty batch does too).
pub proof fn lemma_unavailable_iff_all(rs: Seq<GraphQLResponse>)
    ensures
        (unavailable_count(rs) == rs.len()) <==> (forall|i: int| 0 <= i < rs.len() ==> #[trigger] unavailable_answer(rs[i])),
    decreases rs.len(),
{
    if rs.len() > 0 {
        lemma_unavailable_iff_all(rs.drop_last());
        lemma_count_at_most(rs.drop_last());
        if unavailable_count(rs) == rs.len() {
            assert forall|i: int| 0 <= i < rs.len() implies #[trigger] unavailable_answer(rs[i]) by {
                if i < rs.len() - 1 {
                    assert(rs.drop_last()[i] == rs[i]);
                }
            }
        }
        if forall|i: int| 0 <= i < rs.len() ==> #[trigger] unavailable_answer(rs[i]) {
            assert forall|i: int| 0 <= i < rs.drop_last().len() implies #[trigger] unavailable_answer(rs.drop_last()[i]) by {
                assert(rs.drop_last()[i] == rs[i]);
            }
            assert(unavailable_answer(rs[rs.len() - 1]));
        }
    }
}

proof fn lemma_count_at_most(rs: Seq<GraphQLResponse>)
    ensures
        unavailable_count(rs) <= rs.len(),
    decreases rs.len(),
{
    if rs.len() > 0 {
        lemma_count_at_most(rs.drop_last());
    }
}


/// A scrape sets the open gauge of exactly the door and window sensors it reports: a sensor that it does not report keeps its gauge, and a reported sensor's gauge holds the state of its last report.
pub proof fn lemma_door_open_overwrites(m: Map<LabelKey, int>, giid: Seq<char>, xs: Seq<DoorWindow>, k: LabelKey, i: int)
    ensures
        (forall|j: int| 0 <= j < xs.len() ==> device_key(giid, #[trigger] xs[j].device) != k) ==> (
            door_open_after(m, giid, xs).contains_key(k) == m.contains_key(k)
            && (m.contains_key(k) ==> door_open_after(m, giid, xs)[k] == m[k])),
        0 <= i < xs.len() && device_key(giid, xs[i].device) == k
            && (forall|j: int| i < j < xs.len() ==> device_key(giid, #[trigger] xs[j].device) != k)
            ==> (door_open_after(m, giid, xs).contains_key(k) && door_open_after(m, giid, xs)[k] == spec_door_window_value(xs[i].state@)),
    decreases xs.len(),
{
    if xs.len() > 0 {
        let p = xs.drop_last();
        lemma_door_open_overwrites(m, giid, p, k, i);
        if forall|j: int| 0 <= j < xs.len() ==> device_key(giid, #[trigger] xs[j].device) != k {
            assert forall|j: int| 0 <= j < p.len() implies device_key(giid, #[trigger] p[j].device) != k by {
                assert(p[j] == xs[j]);
            }
            assert(device_key(giid, xs[xs.len() - 1].device) != k);
        }
        if 0 <= i < xs.len() && device_key(giid, xs[i].device) == k
            && (forall|j: int| i < j < xs.len() ==> device_key(giid, #[trigger] xs[j].device) != k) {
            if i < xs.len() - 1 {
                assert(p[i] == xs[i]);
                assert forall|j: int| i < j < p.len() implies device_key(giid, #[trigger] p[j].device) != k by {
                    assert(p[j] == xs[j]);
                }
                assert(device_key(giid, xs[xs.len() - 1].device) != k);
            }
        }
    }
}

/// A scrape sets the locked gauge of exactly the locks it reports: a lock that it does not report keeps its gauge, and a reported lock's gauge holds the status of its last report.
pub proof fn lemma_locked_overwrites(m: Map<LabelKey, int>, giid: Seq<char>, xs: Seq<DoorLock>, k: LabelKey, i: int)
    ensures
        (forall|j: int| 0 <= j < xs.len() ==> device_key(giid, #[trigger] xs[j].device) != k) ==> (
            locked_after(m, giid, xs).contains_key(k) == m.contains_key(k)
            && (m.contains_key(k) ==> locked_after(m, giid, xs)[k] == m[k])),
        0 <= i < xs.len() && device_key(giid, xs[i].device) == k
            && (forall|j: int| i < j < xs.len() ==> device_key(giid, #[trigger] xs[j].device) != k)
            ==> (locked_after(m, giid, xs).contains_key(k) && locked_after(m, giid, xs)[k] == spec_lock_value(xs[i].lock_status)),
    decreases xs.len(),
{
    if xs.len() > 0 {
        let p = xs.drop_last();
        lemma_locked_overwrites(m, giid, p, k, i);
        if forall|j: int| 0 <= j < xs.len() ==> device_key(giid, #[trigger] xs[j].device) != k {
            assert forall|j: int| 0 <= j < p.len() implies device_key(giid, #[trigger] p[j].device) != k by {
                assert(p[j] == xs[j]);
            }
            assert(device_key(giid, xs[xs.len() - 1].device) != k);
        }
        if 0 <= i < xs.len() && device_key(giid, xs[i].device) == k
            && (forall|j: int| i < j < xs.len() ==> device_key(giid, #[trigger] xs[j].device) != k) {
            if i < xs.len() - 1 {
                assert(p[i] == xs[i]);
                assert forall|j: int| i < j < p.len() implies device_key(giid, #[trigger] p[j].device) != k by {
                    assert(p[j] == xs[j]);
                }
                assert(device_key(giid, xs[xs.len() - 1].device) != k);
            }
        }
    }
}

/// A scrape sets the motor jam gauge of exactly the locks it reports: a lock that it does not report keeps its gauge, and a reported lock's gauge holds its last report.
pub proof fn lemma_motor_jam_overwrites(m: Map<LabelKey, int>, giid: Seq<char>, xs: Seq<DoorLock>, k: LabelKey, i: int)
    ensures
        (forall|j: int| 0 <= j < xs.len() ==> device_key(giid, #[trigger] xs[j].device) != k) ==> (
            jammed_after(m, giid, xs).contains_key(k) == m.contains_key(k)
            && (m.contains_key(k) ==> jammed_after(m, giid, xs)[k] == m[k])),
        0 <= i < xs.len() && device_key(giid, xs[i].device) == k
            && (forall|j: int| i < j < xs.len() ==> device_key(giid, #[trigger] xs[j].device) != k)
            ==> (jammed_after(m, giid, xs).contains_key(k) && jammed_after(m, giid, xs)[k] == spec_flag_value(xs[i].motor_jam)),
    decreases xs.len(),
{
    if xs.len() > 0 {
        let p = xs.drop_last();
        lemma_motor_jam_overwrites(m, giid, p, k, i);
        if forall|j: int| 0 <= j < xs.len() ==> device_key(giid, #[trigger] xs[j].device) != k {
            assert forall|j: int| 0 <= j < p.len() implies device_key(giid, #[trigger] p[j].device) != k by {
                assert(p[j] == xs[j]);
            }
            assert(device_key(giid, xs[xs.len() - 1].device) != k);
        }
        if 0 <= i < xs.len() && device_key(giid, xs[i].device) == k
            && (forall|j: int| i < j < xs.len() ==> device_key(giid, #[trigger] xs[j].device) != k) {
            if i < xs.len() - 1 {
                assert(p[i] == xs[i]);
                assert forall|j: int| i < j < p.len() implies device_key(giid, #[trigger] p[j].device) != k by {
                    assert(p[j] == xs[j]);
                }
                assert(device_key(giid, xs[xs.len() - 1].device) != k);
            }
        }
    }
}

/// A scrape sets the secure mode gauge of exactly the locks it reports: a lock that it does not report keeps its gauge, and a reported lock's gauge holds its last report.
pub proof fn lemma_secure_mode_overwrites(m: Map<LabelKey, int>, giid: Seq<char>, xs: Seq<DoorLock>, k: LabelKey, i: int)
    ensures
        (forall|j: int| 0 <= j < xs.len() ==> device_key(giid, #[trigger] xs[j].device) != k) ==> (
            secure_after(m, giid, xs).contains_key(k) == m.contains_key(k)
            && (m.contains_key(k) ==> secure_after(m, giid, xs)[k] == m[k])),
        0 <= i < xs.len() && device_key(giid, xs[i].device) == k
            && (forall|j: int| i < j < xs.len() ==> device_key(giid, #[trigger] xs[j].device) != k)
            ==> (secure_after(m, giid, xs).contains_key(k) && secure_after(m, giid, xs)[k] == spec_flag_value(xs[i].secure_mode_active)),
    decreases xs.len(),
{
    if xs.len() > 0 {
        let p = xs.drop_last();
        lemma_secure_mode_overwrites(m, giid, p, k, i);
        if forall|j: int| 0 <= j < xs.len() ==> device_key(giid, #[trigger] xs[j].device) != k {
            assert forall|j: int| 0 <= j < p.len() implies device_key(giid, #[trigger] p[j].device) != k by {
                assert(p[j] == xs[j]);
            }
            assert(device_key(giid, xs[xs.len() - 1].device) != k);
        }
        if 0 <= i < xs.len() && device_key(giid, xs[i].device) == k
            && (forall|j: int| i < j < xs.len() ==> device_key(giid, #[trigger] xs[j].device) != k) {
            if i < xs.len() - 1 {
                assert(p[i] == xs[i]);
                assert forall|j: int| i < j < p.len() implies device_key(giid, #[trigger] p[j].device) != k by {
                    assert(p[j] == xs[j]);
                }
                assert(device_key(giid, xs[xs.len() - 1].device) != k);
            }
        }
    }
}

/// A scrape sets the gauge of exactly the smart plugs it reports: a plug that it does not report keeps its gauge, and a reported plug's gauge holds the state of its last report.
pub proof fn lemma_plug_overwrites(m: Map<LabelKey, int>, giid: Seq<char>, xs: Seq<SmartPlug>, k: LabelKey, i: int)
    ensures
        (forall|j: int| 0 <= j < xs.len() ==> device_key(giid, #[trigger] xs[j].device) != k) ==> (
            plug_after(m, giid, xs).contains_key(k) == m.contains_key(k)
            && (m.contains_key(k) ==> plug_after(m, giid, xs)[k] == m[k])),
        0 <= i < xs.len() && device_key(giid, xs[i].device) == k
            && (forall|j: int| i < j < xs.len() ==> device_key(giid, #[trigger] xs[j].device) != k)
            ==> (plug_after(m, giid, xs).contains_key(k) && plug_after(m, giid, xs)[k] == spec_plug_value(xs[i].current_state@)),
    decreases xs.len(),
{
    if xs.len() > 0 {
        let p = xs.drop_last();
        lemma_plug_overwrites(m, giid, p, k, i);
        if forall|j: int| 0 <= j < xs.len() ==> device_key(giid, #[trigger] xs[j].device) != k {
            assert forall|j: int| 0 <= j < p.len() implies device_key(giid, #[trigger] p[j].device) != k by {
                assert(p[j] == xs[j]);
            }
            assert(device_key(giid, xs[xs.len() - 1].device) != k);
        }
        if 0 <= i < xs.len() && device_key(giid, xs[i].device) == k
            && (forall|j: int| i < j < xs.len() ==> device_key(giid, #[trigger] xs[j].device) != k) {
            if i < xs.len() - 1 {
                assert(p[i] == xs[i]);
                assert forall|j: int| i < j < p.len() implies device_key(giid, #[trigger] p[j].device) != k by {
                    assert(p[j] == xs[j]);
                }
                assert(device_key(giid, xs[xs.len() - 1].device) != k);
            }
        }
    }
}


/// The decision's request and the state after it agree: a login request
/// leaves the client waiting for a login answer, an installations request
/// for the installations answer, a data request for a data answer; a
/// decision that ends the exchange leaves the client idle.
pub open spec fn consistent(m: ClientModel, n: Next) -> bool {
    &&& n is SendLogin ==> m.awaits_login()
    &&& n is SendInstallations ==> m.phase is InitInstallations
    &&& n is SendFetch ==> m.awaits_fetch()
    &&& !sends(n) ==> m.phase is Idle
}

/// Every step of the client leaves it waiting for exactly the kind of answer
/// that its request asks for, so the caller can always hand the answer back
/// to the matching method.
pub proof fn lemma_request_matches_phase(
    m: ClientModel,
    login: Result<(), VerisureError>,
    found: Result<String, VerisureError>,
    data: Result<VerisureData, VerisureError>,
)
    requires
        m.wf(),
    ensures
        m.phase is Idle ==> consistent(init_start(m).0, init_start(m).1),
        m.phase is Idle ==> consistent(fetch_start(m).0, fetch_start(m).1),
        m.awaits_login() ==> consistent(after_login(m, login).0, after_login(m, login).1),
        m.phase is InitInstallations ==> consistent(after_installations(m, found).0, after_installations(m, found).1),
        m.awaits_fetch() ==> consistent(after_fetch(m, data).0, after_fetch(m, data).1),
{
}


/// A login answer in a start-up run: accepted, or refused.
pub open spec fn login_answer(accepted: bool) -> Result<(), VerisureError> {
    if accepted { Ok(()) } else { Err(VerisureError::ServiceUnavailable) }
}

/// The end of a start-up that is waiting for the login at some endpoint,
/// when endpoint `i` answers the login with `logins[i]` and the
/// installations query with `lookups[i]`.
pub open spec fn run_init(m: ClientModel, logins: Seq<bool>, lookups: Seq<Result<String, VerisureError>>) -> (ClientModel, Next)
    decreases m.urls.len() - (match m.phase {
        PhaseModel::InitLogin { index } => index,
        _ => m.urls.len() as int,
    }),
{
    match m.phase {
        PhaseModel::InitLogin { index } => {
            if 0 <= index < m.urls.len() {
                let (m1, n1) = after_login(m, login_answer(logins[index]));
                match m1.phase {
                    PhaseModel::InitInstallations { .. } => {
                        let (m2, n2) = after_installations(m1, lookups[index]);
                        if m2.phase is InitLogin {
                            run_init(m2, logins, lookups)
                        } else {
                            (m2, n2)
                        }
                    },
                    PhaseModel::InitLogin { .. } => run_init(m1, logins, lookups),
                    _ => (m1, n1),
                }
            } else {
                (m, Next::InitFailed)
            }
        },
        _ => (m, Next::InitFailed),
    }
}

/// Endpoint `k` lets start-up finish: it accepts the login, and the
/// installation is configured or its lookup succeeds.
pub open spec fn endpoint_works(giid: Option<Seq<char>>, logins: Seq<bool>, lookups: Seq<Result<String, VerisureError>>, k: int) -> bool {
    logins[k] && (giid is Some || lookups[k] is Ok)
}

/// The first endpoint at or after `from` that lets start-up finish.
pub open spec fn first_working(n: int, giid: Option<Seq<char>>, logins: Seq<bool>, lookups: Seq<Result<String, VerisureError>>, from: int) -> Option<int>
    decreases n - from,
{
    if from < 0 || from >= n {
        None
    } else if endpoint_works(giid, logins, lookups, from) {
        Some(from)
    } else {
        first_working(n, giid, logins, lookups, from + 1)
    }
}

/// The installation that start-up ends with at endpoint `k`: the configured
/// one, or the one that the lookup found.
pub open spec fn init_giid(giid: Option<Seq<char>>, lookups: Seq<Result<String, VerisureError>>, k: int) -> Option<Seq<char>> {
    match giid {
        Some(g) => Some(g),
        None => Some(lookups[k]->Ok_0@),
    }
}

proof fn lemma_run_init_from(m: ClientModel, logins: Seq<bool>, lookups: Seq<Result<String, VerisureError>>, i: int)
    requires
        m.wf(),
        m.phase == (PhaseModel::InitLogin { index: i }),
        logins.len() == m.urls.len(),
        lookups.len() == m.urls.len(),
    ensures
        ({
            let (mf, nf) = run_init(m, logins, lookups);
            &&& mf.phase is Idle
            &&& mf.urls == m.urls
            &&& match first_working(m.urls.len() as int, m.giid, logins, lookups, i) {
                Some(k) => nf is InitOk && mf.active == m.urls[k] && mf.giid == init_giid(m.giid, lookups, k),
                None => nf is InitFailed && mf.active == m.urls.last(),
            }
        }),
    decreases m.urls.len() - i,
{
    let (m1, n1) = after_login(m, login_answer(logins[i]));
    if logins[i] {
        if m.giid is None {
            let (m2, n2) = after_installations(m1, lookups[i]);
            if m2.phase is InitLogin {
                lemma_run_init_from(m2, logins, lookups, i + 1);
            }
        }
    } else {
        if m1.phase is InitLogin {
            lemma_run_init_from(m1, logins, lookups, i + 1);
        }
    }
}

/// Start-up logs in at the endpoints in their configured order and stops at
/// the first endpoint that accepts the login and whose installation lookup
/// succeeds (the lookup is skipped when the installation is configured): it
/// ends successfully with that endpoint in use and the installation known.
/// When no endpoint does, start-up fails with the last endpoint in use (the
/// one it had, when there is none).
pub proof fn lemma_init_outcome(m: ClientModel, logins: Seq<bool>, lookups: Seq<Result<String, VerisureError>>)
    requires
        m.wf(),
        m.phase is Idle,
        logins.len() == m.urls.len(),
        lookups.len() == m.urls.len(),
    ensures
        ({
            let (m0, n0) = init_start(m);
            let (mf, nf) = if m0.phase is InitLogin { run_init(m0, logins, lookups) } else { (m0, n0) };
            &&& mf.phase is Idle
            &&& match first_working(m.urls.len() as int, m.giid, logins, lookups, 0) {
                Some(k) => nf is InitOk && mf.active == m.urls[k] && mf.giid == init_giid(m.giid, lookups, k),
                None => nf is InitFailed && mf.active == (if m.urls.len() > 0 { m.urls.last() } else { m.active }),
            }
        }),
{
    let (m0, n0) = init_start(m);
    if m0.phase is InitLogin {
        lemma_run_init_from(m0, logins, lookups, 0);
    }
}


/// The end of a failover that is waiting for the login at some endpoint,
/// when endpoint `j` answers the login with `logins[j]` and the data request
/// with `fetches[j]`.
pub open spec fn run_failover(m: ClientModel, logins: Seq<bool>, fetches: Seq<Result<VerisureData, VerisureError>>) -> (ClientModel, Next)
    decreases m.urls.len() - (match m.phase {
        PhaseModel::FailoverLogin { index, .. } => index,
        _ => m.urls.len() as int,
    }),
{
    match m.phase {
        PhaseModel::FailoverLogin { index, .. } => {
            if 0 <= index < m.urls.len() {
                let (m1, n1) = after_login(m, login_answer(logins[index]));
                match m1.phase {
                    PhaseModel::FailoverFetch { .. } => {
                        let (m2, n2) = after_fetch(m1, fetches[index]);
                        if m2.phase is FailoverLogin && index < m2.phase->FailoverLogin_index < m.urls.len() {
                            run_failover(m2, logins, fetches)
                        } else {
                            (m2, n2)
                        }
                    },
                    PhaseModel::FailoverLogin { index: j, .. } => if index < j < m.urls.len() {
                        run_failover(m1, logins, fetches)
                    } else {
                        (m1, n1)
                    },
                    _ => (m1, n1),
                }
            } else {
                (m, Next::FetchResult(Err(VerisureError::ServiceUnavailable)))
            }
        },
        _ => (m, Next::FetchResult(Err(VerisureError::ServiceUnavailable))),
    }
}

/// Endpoint `j` serves a failover: it is not the skipped endpoint, it
/// accepts the login, and its data answer is anything but unavailability.
pub open spec fn endpoint_serves(
    urls: Seq<Seq<char>>,
    skipped: Seq<char>,
    logins: Seq<bool>,
    fetches: Seq<Result<VerisureData, VerisureError>>,
    j: int,
) -> bool {
    urls[j] != skipped && logins[j] && !(fetches[j] matches Err(VerisureError::ServiceUnavailable))
}

/// The first endpoint at or after `from` that serves a failover.
pub open spec fn first_serving(
    urls: Seq<Seq<char>>,
    skipped: Seq<char>,
    logins: Seq<bool>,
    fetches: Seq<Result<VerisureData, VerisureError>>,
    from: int,
) -> Option<int>
    decreases urls.len() - from,
{
    if from < 0 || from >= urls.len() {
        None
    } else if endpoint_serves(urls, skipped, logins, fetches, from) {
        Some(from)
    } else {
        first_serving(urls, skipped, logins, fetches, from + 1)
    }
}

proof fn lemma_first_serving_skip(
    urls: Seq<Seq<char>>,
    skipped: Seq<char>,
    logins: Seq<bool>,
    fetches: Seq<Result<VerisureData, VerisureError>>,
    from: int,
    to: int,
)
    requires
        0 <= from <= to,
        forall|k: int| from <= k < to && k < urls.len() ==> urls[k] == skipped,
    ensures
        first_serving(urls, skipped, logins, fetches, from) == first_serving(urls, skipped, logins, fetches, to),
    decreases to - from,
{
    if from < to {
        lemma_first_serving_skip(urls, skipped, logins, fetches, from + 1, to);
    }
}

/// The last endpoint at or after `from` other than `skipped`.
pub open spec fn last_target(urls: Seq<Seq<char>>, skipped: Seq<char>, from: int) -> Option<int>
    decreases urls.len() - from,
{
    if from < 0 || from >= urls.len() {
        None
    } else {
        match last_target(urls, skipped, from + 1) {
            Some(k) => Some(k),
            None => if urls[from] != skipped { Some(from) } else { None },
        }
    }
}

proof fn lemma_last_target_same(urls: Seq<Seq<char>>, skipped: Seq<char>, from: int, to: int)
    requires
        0 <= from <= to,
        last_target(urls, skipped, to) is Some,
    ensures
        last_target(urls, skipped, from) == last_target(urls, skipped, to),
    decreases to - from,
{
    if from < to {
        lemma_last_target_same(urls, skipped, from + 1, to);
    }
}

proof fn lemma_last_target_none(urls: Seq<Seq<char>>, skipped: Seq<char>, from: int)
    requires
        0 <= from,
        forall|k: int| from <= k < urls.len() ==> urls[k] == skipped,
    ensures
        last_target(urls, skipped, from) is None,
    decreases urls.len() - from,
{
    if from < urls.len() {
        lemma_last_target_none(urls, skipped, from + 1);
    }
}

proof fn lemma_run_failover_from(
    m: ClientModel,
    logins: Seq<bool>,
    fetches: Seq<Result<VerisureData, VerisureError>>,
    j: int,
    skipped: Seq<char>,
)
    requires
        m.wf(),
        m.phase == (PhaseModel::FailoverLogin { index: j, skipped }),
        logins.len() == m.urls.len(),
        fetches.len() == m.urls.len(),
    ensures
        ({
            let (mf, nf) = run_failover(m, logins, fetches);
            &&& mf.phase is Idle
            &&& mf.giid == m.giid
            &&& match first_serving(m.urls, skipped, logins, fetches, j) {
                Some(k) => nf == Next::FetchResult(fetches[k]) && mf.active == m.urls[k],
                None => nf == Next::FetchResult(Err(VerisureError::ServiceUnavailable))
                    && last_target(m.urls, skipped, j) is Some
                    && mf.active == m.urls[last_target(m.urls, skipped, j)->0],
            }
        }),
    decreases m.urls.len() - j,
{
    lemma_failover_target_after(m.urls, skipped, j + 1);
    lemma_failover_target_prefix(m.urls, skipped, j + 1);
    match failover_target(m.urls, skipped, j + 1) {
        Some(t) => {
            lemma_first_serving_skip(m.urls, skipped, logins, fetches, j + 1, t);
            assert(last_target(m.urls, skipped, t) is Some);
            lemma_last_target_same(m.urls, skipped, j, t);
            let (m1, n1) = after_login(m, login_answer(logins[j]));
            if logins[j] {
                let (m2, n2) = after_fetch(m1, fetches[j]);
                if m2.phase is FailoverLogin {
                    lemma_run_failover_from(m2, logins, fetches, t, skipped);
                }
            } else {
                lemma_run_failover_from(m1, logins, fetches, t, skipped);
            }
        },
        None => {
            lemma_first_serving_none(m.urls, skipped, logins, fetches, j + 1);
            lemma_last_target_none(m.urls, skipped, j + 1);
        },
    }
}

proof fn lemma_first_serving_none(
    urls: Seq<Seq<char>>,
    skipped: Seq<char>,
    logins: Seq<bool>,
    fetches: Seq<Result<VerisureData, VerisureError>>,
    from: int,
)
    requires
        0 <= from,
        forall|k: int| from <= k < urls.len() ==> urls[k] == skipped,
    ensures
        first_serving(urls, skipped, logins, fetches, from) is None,
    decreases urls.len() - from,
{
    if from < urls.len() {
        lemma_first_serving_none(urls, skipped, logins, fetches, from + 1);
    }
}

proof fn lemma_first_serving_found(
    urls: Seq<Seq<char>>,
    skipped: Seq<char>,
    logins: Seq<bool>,
    fetches: Seq<Result<VerisureData, VerisureError>>,
    from: int,
)
    requires
        0 <= from,
    ensures
        first_serving(urls, skipped, logins, fetches, from) matches Some(k)
            ==> from <= k < urls.len() && endpoint_serves(urls, skipped, logins, fetches, k),
    decreases urls.len() - from,
{
    if from < urls.len() && !endpoint_serves(urls, skipped, logins, fetches, from) {
        lemma_first_serving_found(urls, skipped, logins, fetches, from + 1);
    }
}

/// Failover, end to end: when a scrape's data request reports the service
/// unavailable, the client tries the other endpoints in their configured
/// order (never the unavailable one), logging in and repeating the data
/// request at each, and ends the scrape with the answer of the first
/// endpoint that accepts the login and does not report unavailability,
/// keeping that endpoint in use. When there is no such endpoint, the scrape
/// ends with `ServiceUnavailable`, with the last endpoint tried in use (the
/// last one other than the unavailable endpoint; that endpoint itself when
/// there is no other).
pub proof fn lemma_failover_outcome(m: ClientModel, logins: Seq<bool>, fetches: Seq<Result<VerisureData, VerisureError>>)
    requires
        m.wf(),
        m.phase is Fetch,
        logins.len() == m.urls.len(),
        fetches.len() == m.urls.len(),
    ensures
        ({
            let (m0, n0) = after_fetch(m, Err(VerisureError::ServiceUnavailable));
            let (mf, nf) = if m0.phase is FailoverLogin { run_failover(m0, logins, fetches) } else { (m0, n0) };
            &&& mf.phase is Idle
            &&& mf.giid == m.giid
            &&& match first_serving(m.urls, m.active, logins, fetches, 0) {
                Some(k) => nf == Next::FetchResult(fetches[k]) && mf.active == m.urls[k] && m.urls[k] != m.active,
                None => nf == Next::FetchResult(Err(VerisureError::ServiceUnavailable)) && mf.active == (match last_target(m.urls, m.active, 0) {
                    Some(k) => m.urls[k],
                    None => m.active,
                }),
            }
        }),
{
    lemma_failover_target_after(m.urls, m.active, 0);
    lemma_failover_target_prefix(m.urls, m.active, 0);
    lemma_first_serving_found(m.urls, m.active, logins, fetches, 0);
    match failover_target(m.urls, m.active, 0) {
        Some(t) => {
            lemma_first_serving_skip(m.urls, m.active, logins, fetches, 0, t);
            assert(last_target(m.urls, m.active, t) is Some);
            lemma_last_target_same(m.urls, m.active, 0, t);
            let (m0, n0) = after_fetch(m, Err(VerisureError::ServiceUnavailable));
            lemma_run_failover_from(m0, logins, fetches, t, m.active);
        },
        None => {
            lemma_first_serving_none(m.urls, m.active, logins, fetches, 0);
            lemma_last_target_none(m.urls, m.active, 0);
        },
    }
}

proof fn lemma_door_open_split(m: Map<LabelKey, int>, giid: Seq<char>, xs: Seq<DoorWindow>)
    ensures
        door_open_after(m, giid, xs) == m.union_prefer_right(door_open_after(no_gauges(), giid, xs)),
    decreases xs.len(),
{
    if xs.len() > 0 {
        lemma_door_open_split(m, giid, xs.drop_last());
    }
    assert(door_open_after(m, giid, xs) =~= m.union_prefer_right(door_open_after(no_gauges(), giid, xs)));
}

proof fn lemma_door_report_split(m: Map<LabelKey, int>, giid: Seq<char>, xs: Seq<DoorWindow>)
    ensures
        door_report_after(m, giid, xs) == m.union_prefer_right(door_report_after(no_gauges(), giid, xs)),
    decreases xs.len(),
{
    if xs.len() > 0 {
        lemma_door_report_split(m, giid, xs.drop_last());
    }
    assert(door_report_after(m, giid, xs) =~= m.union_prefer_right(door_report_after(no_gauges(), giid, xs)));
}

proof fn lemma_locked_split(m: Map<LabelKey, int>, giid: Seq<char>, xs: Seq<DoorLock>)
    ensures
        locked_after(m, giid, xs) == m.union_prefer_right(locked_after(no_gauges(), giid, xs)),
    decreases xs.len(),
{
    if xs.len() > 0 {
        lemma_locked_split(m, giid, xs.drop_last());
    }
    assert(locked_after(m, giid, xs) =~= m.union_prefer_right(locked_after(no_gauges(), giid, xs)));
}

proof fn lemma_jammed_split(m: Map<LabelKey, int>, giid: Seq<char>, xs: Seq<DoorLock>)
    ensures
        jammed_after(m, giid, xs) == m.union_prefer_right(jammed_after(no_gauges(), giid, xs)),
    decreases xs.len(),
{
    if xs.len() > 0 {
        lemma_jammed_split(m, giid, xs.drop_last());
    }
    assert(jammed_after(m, giid, xs) =~= m.union_prefer_right(jammed_after(no_gauges(), giid, xs)));
}

proof fn lemma_secure_split(m: Map<LabelKey, int>, giid: Seq<char>, xs: Seq<DoorLock>)
    ensures
        secure_after(m, giid, xs) == m.union_prefer_right(secure_after(no_gauges(), giid, xs)),
    decreases xs.len(),
{
    if xs.len() > 0 {
        lemma_secure_split(m, giid, xs.drop_last());
    }
    assert(secure_after(m, giid, xs) =~= m.union_prefer_right(secure_after(no_gauges(), giid, xs)));
}

proof fn lemma_plug_split(m: Map<LabelKey, int>, giid: Seq<char>, xs: Seq<SmartPlug>)
    ensures
        plug_after(m, giid, xs) == m.union_prefer_right(plug_after(no_gauges(), giid, xs)),
    decreases xs.len(),
{
    if xs.len() > 0 {
        lemma_plug_split(m, giid, xs.drop_last());
    }
    assert(plug_after(m, giid, xs) =~= m.union_prefer_right(plug_after(no_gauges(), giid, xs)));
}

/// Storing a scrape is idempotent: storing the same data for the same
/// installation a second time leaves every integer gauge, the success gauge
/// and the error counter as the first time left them.
pub proof fn lemma_update_idempotent(m0: Metrics, m1: Metrics, m2: Metrics, data: VerisureData, giid: Seq<char>)
    requires
        updated(m0, m1, data, giid),
        updated(m1, m2, data, giid),
    ensures
        forall|w: StateMetric| #[trigger] m2.values(w) == m1.values(w),
        m2.scrape_metrics_kept(m1),
{
    let dws = data.door_windows@;
    let ls = data.door_locks@;
    let ps = data.smart_plugs@;
    lemma_door_open_split(m0.values(StateMetric::DoorWindowOpen), giid, dws);
    lemma_door_open_split(m1.values(StateMetric::DoorWindowOpen), giid, dws);
    lemma_door_report_split(m0.values(StateMetric::DoorWindowReportTimestamp), giid, dws);
    lemma_door_report_split(m1.values(StateMetric::DoorWindowReportTimestamp), giid, dws);
    lemma_locked_split(m0.values(StateMetric::LockLocked), giid, ls);
    lemma_locked_split(m1.values(StateMetric::LockLocked), giid, ls);
    lemma_jammed_split(m0.values(StateMetric::LockMotorJam), giid, ls);
    lemma_jammed_split(m1.values(StateMetric::LockMotorJam), giid, ls);
    lemma_secure_split(m0.values(StateMetric::LockSecureMode), giid, ls);
    lemma_secure_split(m1.values(StateMetric::LockSecureMode), giid, ls);
    lemma_plug_split(m0.values(StateMetric::SmartplugOn), giid, ps);
    lemma_plug_split(m1.values(StateMetric::SmartplugOn), giid, ps);
    assert forall|w: StateMetric| #[trigger] m2.values(w) == m1.values(w) by {
        let a = m0.values(w);
        match w {
            StateMetric::AlarmArmedState => {
                assert(armed_after(armed_after(a, giid, data.arm_state), giid, data.arm_state) =~= armed_after(a, giid, data.arm_state));
            },
            StateMetric::AlarmChangedTimestamp => {
                assert(arm_changed_after(arm_changed_after(a, giid, data.arm_state), giid, data.arm_state)
                    =~= arm_changed_after(a, giid, data.arm_state));
            },
            StateMetric::BroadbandConnected => {
                assert(broadband_after(broadband_after(a, giid, data.broadband), giid, data.broadband)
                    =~= broadband_after(a, giid, data.broadband));
            },
            StateMetric::DoorWindowOpen => {
                let d = door_open_after(no_gauges(), giid, dws);
                assert(a.union_prefer_right(d).union_prefer_right(d) =~= a.union_prefer_right(d));
            },
            StateMetric::DoorWindowReportTimestamp => {
                let d = door_report_after(no_gauges(), giid, dws);
                assert(a.union_prefer_right(d).union_prefer_right(d) =~= a.union_prefer_right(d));
            },
            StateMetric::LockLocked => {
                let d = locked_after(no_gauges(), giid, ls);
                assert(a.union_prefer_right(d).union_prefer_right(d) =~= a.union_prefer_right(d));
            },
            StateMetric::LockMotorJam => {
                let d = jammed_after(no_gauges(), giid, ls);
                assert(a.union_prefer_right(d).union_prefer_right(d) =~= a.union_prefer_right(d));
            },
            StateMetric::LockSecureMode => {
                let d = secure_after(no_gauges(), giid, ls);
                assert(a.union_prefer_right(d).union_prefer_right(d) =~= a.union_prefer_right(d));
            },
            StateMetric::SmartplugOn => {
                let d = plug_after(no_gauges(), giid, ps);
                assert(a.union_prefer_right(d).union_prefer_right(d) =~= a.union_prefer_right(d));
            },
        }
    }
}

/// The scrape metrics after scrapes with the outcomes `outcomes`, in order.
pub open spec fn scrape_run(s: ScrapeGauges, outcomes: Seq<bool>) -> ScrapeGauges
    decreases outcomes.len(),
{
    if outcomes.len() == 0 {
        s
    } else {
        scrape_step(scrape_run(s, outcomes.drop_last()), outcomes.last())
    }
}

/// How many of the outcomes are failures.
pub open spec fn failures(outcomes: Seq<bool>) -> int
    decreases outcomes.len(),
{
    if outcomes.len() == 0 {
        0
    } else {
        failures(outcomes.drop_last()) + if outcomes.last() { 0int } else { 1int }
    }
}

/// Over any run of scrapes, the error counter grows by the number of failed
/// scrapes (modulo 2^64, where the counter wraps around), the success gauge
/// holds 1 when the last scrape succeeded and 0 when it failed, and the
/// exporter is ready exactly when it was or some scrape succeeded.
pub proof fn lemma_scrape_run(s: ScrapeGauges, outcomes: Seq<bool>)
    requires
        0 <= s.errors < 0x1_0000_0000_0000_0000,
    ensures
        scrape_run(s, outcomes).errors == (s.errors + failures(outcomes)) % 0x1_0000_0000_0000_0000,
        outcomes.len() > 0 ==> scrape_run(s, outcomes).success == (if outcomes.last() { 1int } else { 0int }),
        scrape_run(s, outcomes).ready == (s.ready || outcomes.contains(true)),
    decreases outcomes.len(),
{
    if outcomes.len() > 0 {
        let prefix = outcomes.drop_last();
        lemma_scrape_run(s, prefix);
        let f = failures(prefix);
        vstd::arithmetic::div_mod::lemma_add_mod_noop(s.errors + f, 1, 0x1_0000_0000_0000_0000);
        if prefix.contains(true) {
            let i = choose|i: int| 0 <= i < prefix.len() && prefix[i] == true;
            assert(outcomes[i] == true);
        }
        if outcomes.contains(true) && !outcomes.last() {
            let i = choose|i: int| 0 <= i < outcomes.len() && outcomes[i] == true;
            assert(prefix[i] == true);
        }
        if outcomes.last() {
            assert(outcomes[outcomes.len() - 1] == true);
        }
    } else {
        vstd::arithmetic::div_mod::lemma_small_mod(s.errors as nat, 0x1_0000_0000_0000_0000);
    }
}

} // verus!
