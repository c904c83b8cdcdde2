//! What the Verisure API answered, and what the client makes of it.
use vstd::prelude::*;

use crate::text::{join2, or_empty};
use crate::verisure::json::{json_get, json_get_opt, json_str, JsonValue};
use crate::verisure::types::{ArmState, Broadband, ClimateValue, DoorLock, DoorWindow, SmartPlug, VerisureData};

verus! {

/// Errors of the Verisure client.
#[derive(Debug)]
pub enum VerisureError {
    /// The HTTP exchange failed; the text describes why.
    Http(String),
    Auth(String),
    Api(String),
    /// A JSON document did not have the expected shape.
    Json(String),
    NoInstallations,
    MultipleInstallations,
    ServiceUnavailable,
}

/// The error is `Auth` with message `m`.
pub open spec fn is_auth(e: VerisureError, m: Seq<char>) -> bool {
    e matches VerisureError::Auth(s) && s@ == m
}

/// The error is `Api` with message `m`.
pub open spec fn is_api(e: VerisureError, m: Seq<char>) -> bool {
    e matches VerisureError::Api(s) && s@ == m
}

/// An HTTP status is a success when it lies in 200..=299.
pub open spec fn spec_is_success(status: u16) -> bool {
    200 <= status <= 299
}

/// Whether an HTTP status code is a success (200..=299).
pub fn is_success(status: u16) -> (r: bool)
    ensures
        r == spec_is_success(status),
{
    200 <= status && status <= 299
}

/// The status 401 Unauthorized.
pub const UNAUTHORIZED: u16 = 401;

/// The text with which an HTTP status code is displayed
/// (`reqwest::StatusCode` as `Display`).
pub uninterp spec fn status_line(status: u16) -> Seq<char>;

/// The decimal digit `d` as a character.
pub open spec fn digit_char(d: int) -> char {
    (48 + d) as char
}

/// The three decimal digits of a status code from 100 to 999.
pub open spec fn status_digits(status: u16) -> Seq<char> {
    let s = status as int;
    seq![digit_char(s / 100), digit_char((s / 10) % 10), digit_char(s % 10)]
}

/// Displays status `status` as `reqwest::StatusCode` does: the code's three
/// digits, a space and its canonical reason phrase (`<unknown status code>`
/// when it has none; never empty). The contract names the text and states
/// how it begins; it does not spell out the reason phrases.
#[verifier::external_body]
fn status_text(status: u16) -> (r: String)
    requires
        100 <= status <= 999,
    ensures
        r@ == status_line(status),
        r@.len() > 4,
        r@.subrange(0, 3) == status_digits(status),
        r@[3] == ' ',
{
    match reqwest::StatusCode::from_u16(status) {
        Ok(code) => code.to_string(),
        Err(_) => String::new(),
    }
}

/// Which part of an HTTP answer the client reads.
#[derive(Debug, PartialEq, Eq, Structural)]
pub enum BodyWanted {
    Nothing,
    Text,
    Json,
}

/// An HTTP answer as the client saw it: the exchange failed (the text says
/// why), the status called for no JSON body (`text` holds the body when it
/// was read), or the JSON body was decoded into `T`.
#[derive(Debug)]
pub enum Reply<T> {
    Transport(String),
    Status { status: u16, text: Option<String> },
    Body(T),
}

/// The reply's status codes are ones that HTTP can carry.
pub open spec fn valid_status<T>(r: Reply<T>) -> bool {
    r matches Reply::Status { status, .. } ==> 100 <= status <= 999
}

pub open spec fn spec_login_body(status: u16) -> BodyWanted {
    if spec_is_success(status) { BodyWanted::Json } else { BodyWanted::Text }
}

/// The part of a login answer that is read: the JSON body on success, the
/// text otherwise.
pub fn login_body(status: u16) -> (r: BodyWanted)
    ensures
        r == spec_login_body(status),
{
    if is_success(status) { BodyWanted::Json } else { BodyWanted::Text }
}

pub open spec fn spec_installations_body(status: u16) -> BodyWanted {
    if spec_is_success(status) { BodyWanted::Json } else { BodyWanted::Nothing }
}

/// The part of an installations answer that is read: the JSON body on
/// success, nothing otherwise.
pub fn installations_body(status: u16) -> (r: BodyWanted)
    ensures
        r == spec_installations_body(status),
{
    if is_success(status) { BodyWanted::Json } else { BodyWanted::Nothing }
}

pub open spec fn spec_fetch_body(status: u16) -> BodyWanted {
    if status == 401 {
        BodyWanted::Nothing
    } else if spec_is_success(status) {
        BodyWanted::Json
    } else {
        BodyWanted::Text
    }
}

/// The part of a data answer that is read: nothing on 401, the JSON body on
/// success, the text otherwise.
pub fn fetch_body(status: u16) -> (r: BodyWanted)
    ensures
        r == spec_fetch_body(status),
{
    if status == UNAUTHORIZED {
        BodyWanted::Nothing
    } else if is_success(status) {
        BodyWanted::Json
    } else {
        BodyWanted::Text
    }
}

pub open spec fn login_failed_text(status: u16, text: Option<String>) -> Seq<char> {
    "Login failed with status "@ + status_line(status) + ": "@ + or_empty(text)
}

/// The error of a refused login, given the displayed status and the body.
pub fn login_rejected(line: &str, text: &Option<String>) -> (e: VerisureError)
    ensures
        is_auth(e, "Login failed with status "@ + line@ + ": "@ + or_empty(*text)),
{
    let head = join2("Login failed with status ", line);
    let head = join2(head.as_str(), ": ");
    let body = crate::text::string_or_empty(text);
    VerisureError::Auth(join2(head.as_str(), body.as_str()))
}

pub open spec fn mfa_text() -> Seq<char> {
    "MFA (stepUpToken) required but not supported"@
}

/// The login body asks for a second factor: it has a `stepUpToken` member
/// that is not `null`.
pub open spec fn asks_step_up(body: JsonValue) -> bool {
    json_get(body, "stepUpToken"@) matches Some(t) && !(t is Null)
}

/// What a login answer means. A failed exchange is `Http`; a status other
/// than success is `Auth` with the status and body text; a body that asks
/// for a second factor is `Auth`; any other body is a successful login.
pub fn login_outcome(reply: Reply<JsonValue>) -> (r: Result<(), VerisureError>)
    requires
        valid_status(reply),
    ensures
        match reply {
            Reply::Transport(m) => r == Err::<(), VerisureError>(VerisureError::Http(m)),
            Reply::Status { status, text } => r matches Err(e) && is_auth(e, login_failed_text(status, text)),
            Reply::Body(body) => if asks_step_up(body) {
                r matches Err(e) && is_auth(e, mfa_text())
            } else {
                r is Ok
            },
        },
{
    match reply {
        Reply::Transport(m) => Err(VerisureError::Http(m)),
        Reply::Status { status, text } => Err(login_rejected(status_text(status).as_str(), &text)),
        Reply::Body(body) => {
            match body.get("stepUpToken") {
                Some(t) => {
                    if !t.is_null() {
                        return Err(VerisureError::Auth(crate::text::owned("MFA (stepUpToken) required but not supported")));
                    }
                    Ok(())
                },
                None => Ok(()),
            }
        },
    }
}

/// An installation of the account.
#[derive(Debug)]
pub struct Installation {
    pub giid: String,
    pub alias: Option<String>,
}

pub open spec fn installations_failed_text(status: u16) -> Seq<char> {
    "Installations query failed with status "@ + status_line(status)
}

/// The error of a refused installations query, given the displayed status.
pub fn installations_rejected(line: &str) -> (e: VerisureError)
    ensures
        is_api(e, "Installations query failed with status "@ + line@),
{
    VerisureError::Api(join2("Installations query failed with status ", line))
}

/// The installations list of an account answer: member
/// `data.account.installations`, if there is one.
pub open spec fn spec_installations_list(body: JsonValue) -> Option<JsonValue> {
    json_get_opt(json_get_opt(json_get(body, "data"@), "account"@), "installations"@)
}

/// Finds `data.account.installations` in an account answer.
pub fn installations_list(body: &JsonValue) -> (r: Option<&JsonValue>)
    ensures
        r matches Some(v) ==> spec_installations_list(*body) == Some(*v),
        r is None ==> spec_installations_list(*body) is None,
{
    match body.get("data") {
        Some(d) => match d.get("account") {
            Some(a) => a.get("installations"),
            None => None,
        },
        None => None,
    }
}

/// What an installations answer means. A failed exchange is `Http`; a status
/// other than success is `Api`. Otherwise the body's installations list (a
/// missing list counts as empty, a list that does not decode is `Json`) must
/// hold exactly one installation, whose GIID is the result; none is
/// `NoInstallations`, more is `MultipleInstallations`.
pub fn installations_outcome(reply: Reply<Option<Result<Vec<Installation>, String>>>) -> (r: Result<String, VerisureError>)
    requires
        valid_status(reply),
    ensures
        match reply {
            Reply::Transport(m) => r == Err::<String, VerisureError>(VerisureError::Http(m)),
            Reply::Status { status, .. } => r matches Err(e) && is_api(e, installations_failed_text(status)),
            Reply::Body(None) => r == Err::<String, VerisureError>(VerisureError::NoInstallations),
            Reply::Body(Some(Err(m))) => r == Err::<String, VerisureError>(VerisureError::Json(m)),
            Reply::Body(Some(Ok(list))) => if list@.len() == 0 {
                r == Err::<String, VerisureError>(VerisureError::NoInstallations)
            } else if list@.len() == 1 {
                r == Ok::<String, VerisureError>(list@[0].giid)
            } else {
                r == Err::<String, VerisureError>(VerisureError::MultipleInstallations)
            },
        },
{
    match reply {
        Reply::Transport(m) => Err(VerisureError::Http(m)),
        Reply::Status { status, text: _ } => Err(installations_rejected(status_text(status).as_str())),
        Reply::Body(None) => Err(VerisureError::NoInstallations),
        Reply::Body(Some(Err(m))) => Err(VerisureError::Json(m)),
        Reply::Body(Some(Ok(mut list))) => {
            if list.len() == 0 {
                Err(VerisureError::NoInstallations)
            } else if list.len() == 1 {
                let inst = list.pop().unwrap();
                Ok(inst.giid)
            } else {
                Err(VerisureError::MultipleInstallations)
            }
        },
    }
}

/// The error code with which the API reports that it is unavailable.
pub open spec fn unavailable_code() -> Seq<char> {
    "SYS_00004"@
}

/// One GraphQL error entry reports unavailability: its `data.errorCode` is
/// the string `SYS_00004`.
pub open spec fn reports_unavailable(e: JsonValue) -> bool {
    json_str(json_get_opt(json_get(e, "data"@), "errorCode"@)) == Some(unavailable_code())
}

/// An `errors` member reports unavailability: it is an array, and some entry
/// of it does.
pub open spec fn spec_service_unavailable(errors: JsonValue) -> bool {
    match errors {
        JsonValue::Array(items) => some_reports_unavailable(items@),
        _ => false,
    }
}

/// Some entry of a list of errors reports unavailability.
pub open spec fn some_reports_unavailable(items: Seq<JsonValue>) -> bool {
    exists|i: int| 0 <= i < items.len() && #[trigger] reports_unavailable(items[i])
}

/// Whether a GraphQL `errors` member says that the service is unavailable.
pub fn is_service_unavailable(errors: &JsonValue) -> (r: bool)
    ensures
        r == spec_service_unavailable(*errors),
{
    match errors {
        JsonValue::Array(items) => {
            let n = items.len();
            let mut i: usize = 0;
            while i < n
                invariant
                    n == items@.len(),
                    *errors == JsonValue::Array(*items),
                    i <= n,
                    forall|j: int| 0 <= j < i ==> !#[trigger] reports_unavailable(items@[j]),
                decreases n - i,
            {
                let e = &items[i];
                assert(*e == items@[i as int]);
                let code = match e.get("data") {
                    Some(d) => match d.get("errorCode") {
                        Some(c) => c.as_str(),
                        None => None,
                    },
                    None => None,
                };
                assert(code matches Some(c) ==> json_str(json_get_opt(json_get(*e, "data"@), "errorCode"@)) == Some(c@));
                assert(code is None ==> json_str(json_get_opt(json_get(*e, "data"@), "errorCode"@)) is None);
                match code {
                    Some(c) => {
                        if crate::text::str_equal(c, "SYS_00004") {
                            assert(reports_unavailable(items@[i as int]));
                            assert(some_reports_unavailable(items@));
                            return true;
                        }
                    },
                    None => {},
                }
                i = i + 1;
            }
            false
        },
        _ => false,
    }
}

/// The sections of `data.installation` in one answer, each decoded by its
/// type: `None` when the member is missing, `Err` with the decoder's message
/// when it does not decode.
#[derive(Debug)]
pub struct InstallationSections {
    pub arm_state: Option<Result<ArmState, String>>,
    pub climates: Option<Result<Vec<ClimateValue>, String>>,
    pub door_windows: Option<Result<Vec<DoorWindow>, String>>,
    pub smart_locks: Option<Result<Vec<DoorLock>, String>>,
    pub smartplugs: Option<Result<Vec<SmartPlug>, String>>,
    pub broadband: Option<Result<Broadband, String>>,
}

/// One answer of a batched GraphQL request: the JSON document, and the
/// sections of its `data.installation` member decoded.
#[derive(Debug)]
pub struct GraphQLResponse {
    pub body: JsonValue,
    pub sections: InstallationSections,
}

/// The `data.installation` member of an answer.
pub open spec fn spec_installation_of(body: JsonValue) -> Option<JsonValue> {
    json_get_opt(json_get(body, "data"@), "installation"@)
}

/// Finds the `data.installation` member of an answer.
pub fn installation_of(body: &JsonValue) -> (r: Option<&JsonValue>)
    ensures
        r matches Some(v) ==> spec_installation_of(*body) == Some(*v),
        r is None ==> spec_installation_of(*body) is None,
{
    match body.get("data") {
        Some(d) => d.get("installation"),
        None => None,
    }
}

/// An answer reports GraphQL errors: it has an `errors` member.
pub open spec fn has_errors(r: GraphQLResponse) -> bool {
    json_get(r.body, "errors"@) is Some
}

/// An answer reports that the service is unavailable.
pub open spec fn unavailable_answer(r: GraphQLResponse) -> bool {
    json_get(r.body, "errors"@) matches Some(e) && spec_service_unavailable(e)
}

/// An answer's data counts: it has no errors and has an installation.
pub open spec fn contributes(r: GraphQLResponse) -> bool {
    !has_errors(r) && spec_installation_of(r.body) is Some
}

/// The number of answers that report unavailability.
pub open spec fn unavailable_count(rs: Seq<GraphQLResponse>) -> nat
    decreases rs.len(),
{
    if rs.len() == 0 {
        0
    } else {
        unavailable_count(rs.drop_last()) + if unavailable_answer(rs.last()) { 1nat } else { 0nat }
    }
}

/// The value of a section that decoded.
pub open spec fn decoded<T>(section: Option<Result<T, String>>) -> Option<T> {
    match section {
        Some(Ok(v)) => Some(v),
        _ => None,
    }
}

/// The arm state of the last answer that counts and decodes one.
pub open spec fn last_arm_state(rs: Seq<GraphQLResponse>) -> Option<ArmState>
    decreases rs.len(),
{
    if rs.len() == 0 {
        None
    } else if contributes(rs.last()) && decoded(rs.last().sections.arm_state) is Some {
        decoded(rs.last().sections.arm_state)
    } else {
        last_arm_state(rs.drop_last())
    }
}

/// The climate list of the last answer that counts and decodes one.
pub open spec fn last_climates(rs: Seq<GraphQLResponse>) -> Option<Vec<ClimateValue>>
    decreases rs.len(),
{
    if rs.len() == 0 {
        None
    } else if contributes(rs.last()) && decoded(rs.last().sections.climates) is Some {
        decoded(rs.last().sections.climates)
    } else {
        last_climates(rs.drop_last())
    }
}

/// The door and window list of the last answer that counts and decodes one.
pub open spec fn last_door_windows(rs: Seq<GraphQLResponse>) -> Option<Vec<DoorWindow>>
    decreases rs.len(),
{
    if rs.len() == 0 {
        None
    } else if contributes(rs.last()) && decoded(rs.last().sections.door_windows) is Some {
        decoded(rs.last().sections.door_windows)
    } else {
        last_door_windows(rs.drop_last())
    }
}

/// The lock list of the last answer that counts and decodes one.
pub open spec fn last_door_locks(rs: Seq<GraphQLResponse>) -> Option<Vec<DoorLock>>
    decreases rs.len(),
{
    if rs.len() == 0 {
        None
    } else if contributes(rs.last()) && decoded(rs.last().sections.smart_locks) is Some {
        decoded(rs.last().sections.smart_locks)
    } else {
        last_door_locks(rs.drop_last())
    }
}

/// The smart plug list of the last answer that counts and decodes one.
pub open spec fn last_smart_plugs(rs: Seq<GraphQLResponse>) -> Option<Vec<SmartPlug>>
    decreases rs.len(),
{
    if rs.len() == 0 {
        None
    } else if contributes(rs.last()) && decoded(rs.last().sections.smartplugs) is Some {
        decoded(rs.last().sections.smartplugs)
    } else {
        last_smart_plugs(rs.drop_last())
    }
}

/// The broadband status of the last answer that counts and decodes one.
pub open spec fn last_broadband(rs: Seq<GraphQLResponse>) -> Option<Broadband>
    decreases rs.len(),
{
    if rs.len() == 0 {
        None
    } else if contributes(rs.last()) && decoded(rs.last().sections.broadband) is Some {
        decoded(rs.last().sections.broadband)
    } else {
        last_broadband(rs.drop_last())
    }
}

/// A list field holds the found list, or is empty when none was found.
pub open spec fn list_is<T>(field: Vec<T>, found: Option<Vec<T>>) -> bool {
    match found {
        Some(v) => field == v,
        None => field@.len() == 0,
    }
}

/// The data that a batch of answers yields: for each kind of information,
/// what the last answer that counts and decodes it says.
pub open spec fn data_of(d: VerisureData, rs: Seq<GraphQLResponse>) -> bool {
    &&& d.arm_state == last_arm_state(rs)
    &&& list_is(d.climate_values, last_climates(rs))
    &&& list_is(d.door_windows, last_door_windows(rs))
    &&& list_is(d.door_locks, last_door_locks(rs))
    &&& list_is(d.smart_plugs, last_smart_plugs(rs))
    &&& d.broadband == last_broadband(rs)
}

fn take_list<T>(found: Option<Vec<T>>) -> (r: Vec<T>)
    ensures
        list_is(r, found),
{
    match found {
        Some(v) => v,
        None => Vec::new(),
    }
}

/// Merges the answers of one batched request. Answers with an `errors`
/// member and answers without `data.installation` are passed over; for each
/// kind of information the last answer that decodes it wins. When every
/// answer reports unavailability (an empty batch too), the result is
/// `ServiceUnavailable`.
pub fn parse_response(responses: Vec<GraphQLResponse>) -> (r: Result<VerisureData, VerisureError>)
    ensures
        unavailable_count(responses@) == responses@.len() ==> r == Err::<VerisureData, VerisureError>(VerisureError::ServiceUnavailable),
        unavailable_count(responses@) != responses@.len() ==> (r matches Ok(d) && data_of(d, responses@)),
{
    let ghost all = responses@;
    let total = responses.len();
    let mut rest = responses;
    let mut unavailable: usize = 0;
    let mut arm: Option<ArmState> = None;
    let mut climates: Option<Vec<ClimateValue>> = None;
    let mut door_windows: Option<Vec<DoorWindow>> = None;
    let mut locks: Option<Vec<DoorLock>> = None;
    let mut plugs: Option<Vec<SmartPlug>> = None;
    let mut broadband: Option<Broadband> = None;
    while rest.len() > 0
        invariant
            total == all.len(),
            rest@.len() <= total,
            unavailable + unavailable_count(rest@) == unavailable_count(all),
            unavailable <= total - rest@.len(),
            last_arm_state(all) == (match arm { Some(a) => Some(a), None => last_arm_state(rest@) }),
            last_climates(all) == (match climates { Some(a) => Some(a), None => last_climates(rest@) }),
            last_door_windows(all) == (match door_windows { Some(a) => Some(a), None => last_door_windows(rest@) }),
            last_door_locks(all) == (match locks { Some(a) => Some(a), None => last_door_locks(rest@) }),
            last_smart_plugs(all) == (match plugs { Some(a) => Some(a), None => last_smart_plugs(rest@) }),
            last_broadband(all) == (match broadband { Some(a) => Some(a), None => last_broadband(rest@) }),
        decreases rest@.len(),
    {
        let ghost before = rest@;
        let resp = rest.pop().unwrap();
        assert(before.drop_last() =~= rest@);
        let GraphQLResponse { body, sections } = resp;
        match body.get("errors") {
            Some(errors) => {
                if is_service_unavailable(errors) {
                    unavailable = unavailable + 1;
                }
            },
            None => {
                if installation_of(&body).is_some() {
                    let InstallationSections { arm_state, climates: c, door_windows: dw, smart_locks, smartplugs, broadband: bb } = sections;
                    if arm.is_none() {
                        if let Some(Ok(a)) = arm_state {
                            arm = Some(a);
                        }
                    }
                    if climates.is_none() {
                        if let Some(Ok(v)) = c {
                            climates = Some(v);
                        }
                    }
                    if door_windows.is_none() {
                        if let Some(Ok(v)) = dw {
                            door_windows = Some(v);
                        }
                    }
                    if locks.is_none() {
                        if let Some(Ok(v)) = smart_locks {
                            locks = Some(v);
                        }
                    }
                    if plugs.is_none() {
                        if let Some(Ok(v)) = smartplugs {
                            plugs = Some(v);
                        }
                    }
                    if broadband.is_none() {
                        if let Some(Ok(v)) = bb {
                            broadband = Some(v);
                        }
                    }
                }
            },
        }
    }
    if unavailable == total {
        return Err(VerisureError::ServiceUnavailable);
    }
    assert(rest@.len() == 0);
    Ok(VerisureData {
        arm_state: arm,
        climate_values: take_list(climates),
        door_windows: take_list(door_windows),
        door_locks: take_list(locks),
        smart_plugs: take_list(plugs),
        broadband: broadband,
    })
}

pub open spec fn fetch_failed_text(status: u16, text: Option<String>) -> Seq<char> {
    "GraphQL request failed "@ + status_line(status) + ": "@ + or_empty(text)
}

/// The error of a refused data request, given the displayed status and the
/// body.
pub fn fetch_rejected(line: &str, text: &Option<String>) -> (e: VerisureError)
    ensures
        is_api(e, "GraphQL request failed "@ + line@ + ": "@ + or_empty(*text)),
{
    let head = join2("GraphQL request failed ", line);
    let head = join2(head.as_str(), ": ");
    let body = crate::text::string_or_empty(text);
    VerisureError::Api(join2(head.as_str(), body.as_str()))
}

/// What the answer to a batched data request means. A failed exchange is
/// `Http`; 401 is `Auth` (the session expired); another status other than
/// success is `Api` with the status and body text; a body is merged by
/// `parse_response`.
pub fn fetch_outcome(reply: Reply<Vec<GraphQLResponse>>) -> (r: Result<VerisureData, VerisureError>)
    requires
        valid_status(reply),
    ensures
        match reply {
            Reply::Transport(m) => r == Err::<VerisureData, VerisureError>(VerisureError::Http(m)),
            Reply::Status { status, text } => if status == 401 {
                r matches Err(e) && is_auth(e, "Unauthorized"@)
            } else {
                r matches Err(e) && is_api(e, fetch_failed_text(status, text))
            },
            Reply::Body(rs) => {
                &&& unavailable_count(rs@) == rs@.len() ==> r == Err::<VerisureData, VerisureError>(VerisureError::ServiceUnavailable)
                &&& unavailable_count(rs@) != rs@.len() ==> (r matches Ok(d) && data_of(d, rs@))
            },
        },
{
    match reply {
        Reply::Transport(m) => Err(VerisureError::Http(m)),
        Reply::Status { status, text } => {
            if status == UNAUTHORIZED {
                return Err(VerisureError::Auth(crate::text::owned("Unauthorized")));
            }
            Err(fetch_rejected(status_text(status).as_str(), &text))
        },
        Reply::Body(rs) => parse_response(rs),
    }
}

} // verus!
