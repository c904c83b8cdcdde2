//! The Verisure client's decisions: which endpoint to talk to, when to log
//! in again, when to fail over, and what to report. The HTTP exchanges
//! themselves are performed by the caller, one request at a time.
use vstd::prelude::*;

use crate::config::Config;
use crate::text::{clone_opt, join2, owned};
use crate::verisure::queries::{
    account_installations_query, account_installations_text, arm_state_text, broadband_text,
    climate_text, door_lock_text, door_window_text, fetch_queries, smart_plug_text, GraphQLQuery,
};
use crate::verisure::reply::{is_api, is_auth, VerisureError};
use crate::verisure::types::VerisureData;

verus! {

/// What the client is waiting for.
#[derive(Debug)]
pub enum Phase {
    /// No exchange in progress.
    Idle,
    /// Start-up: the answer to the login at endpoint `index`.
    InitLogin { index: usize },
    /// Start-up: the answer to the installations query at endpoint `index`.
    InitInstallations { index: usize },
    /// A scrape: the answer to the data request.
    Fetch,
    /// A scrape whose session had expired: the answer to the new login.
    Relogin,
    /// A scrape after the new login: the answer to the second data request.
    Refetch,
    /// Failover: the answer to the login at endpoint `index`; `skipped` is
    /// the endpoint that was unavailable when the failover began.
    FailoverLogin { index: usize, skipped: String },
    /// Failover: the answer to the data request at endpoint `index`.
    FailoverFetch { index: usize, skipped: String },
}

/// The mathematical form of a `Phase`.
pub enum PhaseModel {
    Idle,
    InitLogin { index: int },
    InitInstallations { index: int },
    Fetch,
    Relogin,
    Refetch,
    FailoverLogin { index: int, skipped: Seq<char> },
    FailoverFetch { index: int, skipped: Seq<char> },
}

impl View for Phase {
    type V = PhaseModel;

    open spec fn view(&self) -> PhaseModel {
        match self {
            Phase::Idle => PhaseModel::Idle,
            Phase::InitLogin { index } => PhaseModel::InitLogin { index: *index as int },
            Phase::InitInstallations { index } => PhaseModel::InitInstallations { index: *index as int },
            Phase::Fetch => PhaseModel::Fetch,
            Phase::Relogin => PhaseModel::Relogin,
            Phase::Refetch => PhaseModel::Refetch,
            Phase::FailoverLogin { index, skipped } => PhaseModel::FailoverLogin { index: *index as int, skipped: skipped@ },
            Phase::FailoverFetch { index, skipped } => PhaseModel::FailoverFetch { index: *index as int, skipped: skipped@ },
        }
    }
}

/// An HTTP request for the caller to perform.
#[derive(Debug)]
pub enum Request {
    /// POST to `url` with basic authentication.
    Login { url: String, username: String, password: String },
    /// POST of one GraphQL query to `url`.
    Installations { url: String, query: GraphQLQuery },
    /// POST of a batch of GraphQL queries to `url`.
    Fetch { url: String, queries: Vec<GraphQLQuery> },
}

/// What the caller does next.
#[derive(Debug)]
pub enum Action {
    /// Perform the request and hand its outcome back.
    Send(Request),
    /// Start-up is over, with this result.
    InitDone(Result<(), VerisureError>),
    /// The scrape is over, with this result.
    FetchDone(Result<VerisureData, VerisureError>),
}

/// The client's state: the endpoints, the endpoint in use, the credentials,
/// the installation and the exchange in progress.
#[derive(Debug)]
pub struct VerisureClient {
    api_urls: Vec<String>,
    active_url: String,
    username: String,
    password: String,
    giid: Option<String>,
    phase: Phase,
}

/// The mathematical form of a `VerisureClient`.
pub struct ClientModel {
    pub urls: Seq<Seq<char>>,
    pub active: Seq<char>,
    pub username: Seq<char>,
    pub password: Seq<char>,
    pub giid: Option<Seq<char>>,
    pub phase: PhaseModel,
}

pub open spec fn opt_view(s: Option<String>) -> Option<Seq<char>> {
    match s {
        Some(v) => Some(v@),
        None => None,
    }
}

impl View for VerisureClient {
    type V = ClientModel;

    closed spec fn view(&self) -> ClientModel {
        ClientModel {
            urls: self.api_urls.deep_view(),
            active: self.active_url@,
            username: self.username@,
            password: self.password@,
            giid: opt_view(self.giid),
            phase: self.phase@,
        }
    }
}

impl ClientModel {
    pub open spec fn with_phase(self, p: PhaseModel) -> ClientModel {
        ClientModel { phase: p, ..self }
    }

    pub open spec fn with_endpoint(self, index: int, p: PhaseModel) -> ClientModel {
        ClientModel { active: self.urls[index], phase: p, ..self }
    }

    /// The consistency that every exchange keeps: an endpoint index names
    /// the endpoint in use, failover never targets the skipped endpoint, a
    /// scrape only runs with an installation, and the installation is looked
    /// up only while none is known.
    pub open spec fn wf(self) -> bool {
        match self.phase {
            PhaseModel::Idle => true,
            PhaseModel::InitLogin { index } => 0 <= index < self.urls.len() && self.active == self.urls[index],
            PhaseModel::InitInstallations { index } => {
                &&& 0 <= index < self.urls.len()
                &&& self.active == self.urls[index]
                &&& self.giid is None
            },
            PhaseModel::Fetch => self.giid is Some,
            PhaseModel::Relogin => self.giid is Some,
            PhaseModel::Refetch => self.giid is Some,
            PhaseModel::FailoverLogin { index, skipped } => {
                &&& 0 <= index < self.urls.len()
                &&& self.active == self.urls[index]
                &&& self.urls[index] != skipped
                &&& self.giid is Some
            },
            PhaseModel::FailoverFetch { index, skipped } => {
                &&& 0 <= index < self.urls.len()
                &&& self.active == self.urls[index]
                &&& self.urls[index] != skipped
                &&& self.giid is Some
            },
        }
    }

    /// Waiting for the answer to a login.
    pub open spec fn awaits_login(self) -> bool {
        ||| self.phase is InitLogin
        ||| self.phase is Relogin
        ||| self.phase is FailoverLogin
    }

    /// Waiting for the answer to a data request.
    pub open spec fn awaits_fetch(self) -> bool {
        ||| self.phase is Fetch
        ||| self.phase is Refetch
        ||| self.phase is FailoverFetch
    }
}

/// What the client decided, in mathematical form.
pub enum Next {
    SendLogin,
    SendInstallations,
    SendFetch,
    InitOk,
    InitFailed,
    NoGiid,
    /// The scrape ends with this result, handed on as it came.
    FetchResult(Result<VerisureData, VerisureError>),
}

pub open spec fn login_url(m: ClientModel) -> Seq<char> {
    m.active + "/auth/login"@
}

pub open spec fn graphql_url(m: ClientModel) -> Seq<char> {
    m.active + "/graphql"@
}

/// `qs` are the six data queries for installation `giid`.
pub open spec fn are_fetch_queries(qs: Seq<GraphQLQuery>, giid: Seq<char>) -> bool {
    &&& qs.len() == 6
    &&& qs[0].is_operation("ArmState"@, "giid"@, giid, arm_state_text())
    &&& qs[1].is_operation("Climate"@, "giid"@, giid, climate_text())
    &&& qs[2].is_operation("DoorWindow"@, "giid"@, giid, door_window_text())
    &&& qs[3].is_operation("DoorLock"@, "giid"@, giid, door_lock_text())
    &&& qs[4].is_operation("SmartPlug"@, "giid"@, giid, smart_plug_text())
    &&& qs[5].is_operation("Broadband"@, "giid"@, giid, broadband_text())
}

pub open spec fn init_failed_text() -> Seq<char> {
    "All API endpoints failed during init"@
}

pub open spec fn no_giid_text() -> Seq<char> {
    "GIID not set"@
}

/// Action `a` carries out decision `n`, made in state `m`.
pub open spec fn acts(a: Action, m: ClientModel, n: Next) -> bool {
    match n {
        Next::SendLogin => a matches Action::Send(Request::Login { url, username, password })
            && url@ == login_url(m) && username@ == m.username && password@ == m.password,
        Next::SendInstallations => a matches Action::Send(Request::Installations { url, query })
            && url@ == graphql_url(m)
            && query.is_operation("AccountInstallations"@, "email"@, m.username, account_installations_text()),
        Next::SendFetch => a matches Action::Send(Request::Fetch { url, queries })
            && url@ == graphql_url(m) && m.giid is Some && are_fetch_queries(queries@, m.giid->0),
        Next::InitOk => a == Action::InitDone(Ok(())),
        Next::InitFailed => a matches Action::InitDone(Err(e)) && is_auth(e, init_failed_text()),
        Next::NoGiid => a matches Action::FetchDone(Err(e)) && is_api(e, no_giid_text()),
        Next::FetchResult(r) => a == Action::FetchDone(r),
    }
}

/// Start-up tries endpoint `index`, or gives up when there is none.
pub open spec fn init_attempt(m: ClientModel, index: int) -> (ClientModel, Next) {
    if 0 <= index < m.urls.len() {
        (m.with_endpoint(index, PhaseModel::InitLogin { index }), Next::SendLogin)
    } else {
        (m.with_phase(PhaseModel::Idle), Next::InitFailed)
    }
}

/// The first endpoint at or after `from` other than `skipped`.
pub open spec fn failover_target(urls: Seq<Seq<char>>, skipped: Seq<char>, from: int) -> Option<int>
    decreases urls.len() - from,
{
    if from < 0 || from >= urls.len() {
        None
    } else if urls[from] != skipped {
        Some(from)
    } else {
        failover_target(urls, skipped, from + 1)
    }
}

/// Failover tries the next endpoint other than `skipped`, or reports the
/// service unavailable when none is left.
pub open spec fn failover_attempt(m: ClientModel, skipped: Seq<char>, from: int) -> (ClientModel, Next) {
    match failover_target(m.urls, skipped, from) {
        Some(j) => (m.with_endpoint(j, PhaseModel::FailoverLogin { index: j, skipped }), Next::SendLogin),
        None => (m.with_phase(PhaseModel::Idle), Next::FetchResult(Err(VerisureError::ServiceUnavailable))),
    }
}

/// Start-up: try the endpoints in order.
pub open spec fn init_start(m: ClientModel) -> (ClientModel, Next) {
    init_attempt(m, 0)
}

/// The answer to a login.
pub open spec fn after_login(m: ClientModel, r: Result<(), VerisureError>) -> (ClientModel, Next) {
    match m.phase {
        PhaseModel::InitLogin { index } => match r {
            Ok(_) => if m.giid is Some {
                (m.with_phase(PhaseModel::Idle), Next::InitOk)
            } else {
                (m.with_phase(PhaseModel::InitInstallations { index }), Next::SendInstallations)
            },
            Err(_) => init_attempt(m, index + 1),
        },
        PhaseModel::Relogin => match r {
            Ok(_) => (m.with_phase(PhaseModel::Refetch), Next::SendFetch),
            Err(e) => (m.with_phase(PhaseModel::Idle), Next::FetchResult(Err(e))),
        },
        PhaseModel::FailoverLogin { index, skipped } => match r {
            Ok(_) => (m.with_phase(PhaseModel::FailoverFetch { index, skipped }), Next::SendFetch),
            Err(_) => failover_attempt(m, skipped, index + 1),
        },
        _ => (m, Next::InitFailed),
    }
}

/// The answer to the installations query.
pub open spec fn after_installations(m: ClientModel, r: Result<String, VerisureError>) -> (ClientModel, Next) {
    match m.phase {
        PhaseModel::InitInstallations { index } => match r {
            Ok(g) => (ClientModel { giid: Some(g@), phase: PhaseModel::Idle, ..m }, Next::InitOk),
            Err(_) => init_attempt(m, index + 1),
        },
        _ => (m, Next::InitFailed),
    }
}

/// A scrape begins: it needs an installation.
pub open spec fn fetch_start(m: ClientModel) -> (ClientModel, Next) {
    if m.giid is Some {
        (m.with_phase(PhaseModel::Fetch), Next::SendFetch)
    } else {
        (m, Next::NoGiid)
    }
}

/// The answer to a data request.
pub open spec fn after_fetch(m: ClientModel, r: Result<VerisureData, VerisureError>) -> (ClientModel, Next) {
    match m.phase {
        PhaseModel::Fetch => match r {
            Err(VerisureError::Auth(_)) => (m.with_phase(PhaseModel::Relogin), Next::SendLogin),
            Err(VerisureError::ServiceUnavailable) => failover_attempt(m, m.active, 0),
            _ => (m.with_phase(PhaseModel::Idle), Next::FetchResult(r)),
        },
        PhaseModel::FailoverFetch { index, skipped } => match r {
            Err(VerisureError::ServiceUnavailable) => failover_attempt(m, skipped, index + 1),
            _ => (m.with_phase(PhaseModel::Idle), Next::FetchResult(r)),
        },
        _ => (m.with_phase(PhaseModel::Idle), Next::FetchResult(r)),
    }
}

impl VerisureClient {
    /// A client for the configured endpoints and credentials. The first
    /// endpoint is in use (none: the empty text); the installation is the
    /// configured one, if any.
    pub fn new(config: &Config) -> (c: VerisureClient)
        ensures
            c@.urls == config.api_url.deep_view(),
            c@.active == (if config.api_url@.len() > 0 { config.api_url@[0]@ } else { Seq::<char>::empty() }),
            c@.username == config.username@,
            c@.password == config.password@,
            c@.giid == opt_view(config.giid),
            c@.phase is Idle,
            c@.wf(),
    {
        let first = if config.api_url.len() > 0 { config.api_url[0].clone() } else { String::new() };
        let mut urls: Vec<String> = Vec::new();
        let n = config.api_url.len();
        let mut i: usize = 0;
        while i < n
            invariant
                n == config.api_url@.len(),
                i <= n,
                urls@.len() == i,
                forall|j: int| 0 <= j < i ==> urls@[j] == config.api_url@[j],
            decreases n - i,
        {
            urls.push(config.api_url[i].clone());
            i = i + 1;
        }
        assert(urls.deep_view() =~= config.api_url.deep_view());
        VerisureClient {
            api_urls: urls,
            active_url: first,
            username: config.username.clone(),
            password: config.password.clone(),
            giid: clone_opt(&config.giid),
            phase: Phase::Idle,
        }
    }

    /// The installation in use.
    pub fn get_giid(&self) -> (g: Option<String>)
        ensures
            opt_view(g) == self@.giid,
    {
        clone_opt(&self.giid)
    }

    /// The endpoint in use.
    pub fn active_url(&self) -> (u: String)
        ensures
            u@ == self@.active,
    {
        self.active_url.clone()
    }

    /// Whether no exchange is in progress.
    pub fn is_idle(&self) -> (b: bool)
        ensures
            b == (self@.phase is Idle),
    {
        match self.phase {
            Phase::Idle => true,
            _ => false,
        }
    }

    fn login_request(&self) -> (a: Action)
        ensures
            acts(a, self@, Next::SendLogin),
    {
        Action::Send(Request::Login {
            url: join2(self.active_url.as_str(), "/auth/login"),
            username: self.username.clone(),
            password: self.password.clone(),
        })
    }

    fn installations_request(&self) -> (a: Action)
        ensures
            acts(a, self@, Next::SendInstallations),
    {
        Action::Send(Request::Installations {
            url: join2(self.active_url.as_str(), "/graphql"),
            query: account_installations_query(self.username.as_str()),
        })
    }

    fn fetch_request(&self) -> (a: Action)
        requires
            self@.giid is Some,
        ensures
            acts(a, self@, Next::SendFetch),
    {
        let giid = self.giid.as_ref().unwrap();
        let queries = fetch_queries(giid.as_str());
        Action::Send(Request::Fetch { url: join2(self.active_url.as_str(), "/graphql"), queries })
    }

    /// Start-up tries endpoint `index` or gives up.
    fn init_try(&mut self, index: usize) -> (a: Action)
        requires
            old(self)@.wf(),
        ensures
            final(self)@ == init_attempt(old(self)@, index as int).0,
            acts(a, final(self)@, init_attempt(old(self)@, index as int).1),
            final(self)@.wf(),
    {
        if index < self.api_urls.len() {
            self.active_url = self.api_urls[index].clone();
            self.phase = Phase::InitLogin { index };
            proof {
                assert(self.api_urls.deep_view()[index as int] == self.api_urls@[index as int]@);
            }
            self.login_request()
        } else {
            self.phase = Phase::Idle;
            Action::InitDone(Err(VerisureError::Auth(owned("All API endpoints failed during init"))))
        }
    }

    /// Failover tries the first endpoint at or after `from` other than
    /// `skipped`, or gives up.
    fn failover_try(&mut self, skipped: String, from: usize) -> (a: Action)
        requires
            old(self)@.wf(),
            old(self)@.giid is Some,
        ensures
            final(self)@ == failover_attempt(old(self)@, skipped@, from as int).0,
            acts(a, final(self)@, failover_attempt(old(self)@, skipped@, from as int).1),
            final(self)@.wf(),
    {
        let n = self.api_urls.len();
        let mut j = from;
        while j < n
            invariant
                n == self.api_urls@.len(),
                self@ == old(self)@,
                self@.giid is Some,
                from <= j,
                failover_target(self@.urls, skipped@, from as int) == failover_target(self@.urls, skipped@, j as int),
            decreases n - j,
        {
            proof {
                assert(self.api_urls.deep_view()[j as int] == self.api_urls@[j as int]@);
            }
            if !(self.api_urls[j] == skipped) {
                assert(self@.urls[j as int] != skipped@);
                self.active_url = self.api_urls[j].clone();
                self.phase = Phase::FailoverLogin { index: j, skipped };
                return self.login_request();
            }
            j = j + 1;
        }
        self.phase = Phase::Idle;
        Action::FetchDone(Err(VerisureError::ServiceUnavailable))
    }

    /// Begins start-up: log in at each endpoint in turn, find the
    /// installation when none is configured, and stop at the first endpoint
    /// where both succeed.
    pub fn start_init(&mut self) -> (a: Action)
        requires
            old(self)@.wf(),
            old(self)@.phase is Idle,
        ensures
            final(self)@ == init_start(old(self)@).0,
            acts(a, final(self)@, init_start(old(self)@).1),
            final(self)@.wf(),
    {
        self.init_try(0)
    }

    /// Takes the outcome of the login that the last action asked for.
    pub fn on_login(&mut self, reply: Result<(), VerisureError>) -> (a: Action)
        requires
            old(self)@.wf(),
            old(self)@.awaits_login(),
        ensures
            final(self)@ == after_login(old(self)@, reply).0,
            acts(a, final(self)@, after_login(old(self)@, reply).1),
            final(self)@.wf(),
    {
        let _count = self.api_urls.len();
        proof {
            assert(self@.urls.len() == self.api_urls@.len());
        }
        match &self.phase {
            Phase::InitLogin { index } => {
                let index = *index;
                match reply {
                    Ok(()) => {
                        if self.giid.is_some() {
                            self.phase = Phase::Idle;
                            Action::InitDone(Ok(()))
                        } else {
                            self.phase = Phase::InitInstallations { index };
                            self.installations_request()
                        }
                    },
                    Err(_) => self.init_try(index + 1),
                }
            },
            Phase::Relogin => {
                match reply {
                    Ok(()) => {
                        self.phase = Phase::Refetch;
                        self.fetch_request()
                    },
                    Err(e) => {
                        self.phase = Phase::Idle;
                        Action::FetchDone(Err(e))
                    },
                }
            },
            Phase::FailoverLogin { index, skipped } => {
                let index = *index;
                let skipped = skipped.clone();
                match reply {
                    Ok(()) => {
                        self.phase = Phase::FailoverFetch { index, skipped };
                        self.fetch_request()
                    },
                    Err(_) => self.failover_try(skipped, index + 1),
                }
            },
            _ => Action::InitDone(Err(VerisureError::Auth(owned("All API endpoints failed during init")))),
        }
    }

    /// Takes the outcome of the installations query that the last action
    /// asked for.
    pub fn on_installations(&mut self, reply: Result<String, VerisureError>) -> (a: Action)
        requires
            old(self)@.wf(),
            old(self)@.phase is InitInstallations,
        ensures
            final(self)@ == after_installations(old(self)@, reply).0,
            acts(a, final(self)@, after_installations(old(self)@, reply).1),
            final(self)@.wf(),
    {
        let _count = self.api_urls.len();
        proof {
            assert(self@.urls.len() == self.api_urls@.len());
        }
        let index = match &self.phase {
            Phase::InitInstallations { index } => *index,
            _ => 0,
        };
        match reply {
            Ok(g) => {
                self.giid = Some(g);
                self.phase = Phase::Idle;
                Action::InitDone(Ok(()))
            },
            Err(_) => self.init_try(index + 1),
        }
    }

    /// Begins a scrape of the installation in use.
    pub fn start_fetch(&mut self) -> (a: Action)
        requires
            old(self)@.wf(),
            old(self)@.phase is Idle,
        ensures
            final(self)@ == fetch_start(old(self)@).0,
            acts(a, final(self)@, fetch_start(old(self)@).1),
            final(self)@.wf(),
    {
        if self.giid.is_some() {
            self.phase = Phase::Fetch;
            self.fetch_request()
        } else {
            Action::FetchDone(Err(VerisureError::Api(owned("GIID not set"))))
        }
    }

    /// Takes the outcome of the data request that the last action asked for.
    pub fn on_fetch(&mut self, reply: Result<VerisureData, VerisureError>) -> (a: Action)
        requires
            old(self)@.wf(),
            old(self)@.awaits_fetch(),
        ensures
            final(self)@ == after_fetch(old(self)@, reply).0,
            acts(a, final(self)@, after_fetch(old(self)@, reply).1),
            final(self)@.wf(),
    {
        let _count = self.api_urls.len();
        proof {
            assert(self@.urls.len() == self.api_urls@.len());
        }
        match &self.phase {
            Phase::Fetch => {
                match reply {
                    Err(VerisureError::Auth(_)) => {
                        self.phase = Phase::Relogin;
                        self.login_request()
                    },
                    Err(VerisureError::ServiceUnavailable) => {
                        let skipped = self.active_url.clone();
                        self.failover_try(skipped, 0)
                    },
                    other => {
                        self.phase = Phase::Idle;
                        Action::FetchDone(other)
                    },
                }
            },
            Phase::FailoverFetch { index, skipped } => {
                let index = *index;
                let skipped = skipped.clone();
                match reply {
                    Err(VerisureError::ServiceUnavailable) => self.failover_try(skipped, index + 1),
                    other => {
                        self.phase = Phase::Idle;
                        Action::FetchDone(other)
                    },
                }
            },
            _ => {
                self.phase = Phase::Idle;
                Action::FetchDone(reply)
            },
        }
    }
}

} // verus!
