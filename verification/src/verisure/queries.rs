//! The GraphQL requests that the exporter sends.
use vstd::prelude::*;

use crate::text::{join2, owned};

verus! {

/// One GraphQL request: an optional operation name, at most one string
/// variable (name and value) and the query text.
#[derive(Debug)]
pub struct GraphQLQuery {
    pub operation_name: Option<String>,
    pub variables: Option<(String, String)>,
    pub query: String,
}

impl GraphQLQuery {
    /// The request is the named operation `op` with the single variable
    /// `var` bound to `value`, and query text `text`.
    pub open spec fn is_operation(self, op: Seq<char>, var: Seq<char>, value: Seq<char>, text: Seq<char>) -> bool {
        &&& self.operation_name matches Some(n) && n@ == op
        &&& self.variables matches Some(p) && p.0@ == var && p.1@ == value
        &&& self.query@ == text
    }
}

fn operation(op: &str, var: &str, value: &str, text: &str) -> (q: GraphQLQuery)
    ensures
        q.is_operation(op@, var@, value@, text@),
{
    GraphQLQuery {
        operation_name: Some(owned(op)),
        variables: Some((owned(var), owned(value))),
        query: owned(text),
    }
}

pub open spec fn arm_state_text() -> Seq<char> {
    "query ArmState($giid: String!) { installation(giid: $giid) { armState { type statusType date name changedVia } } }"@
}

pub open spec fn climate_text() -> Seq<char> {
    "query Climate($giid: String!) { installation(giid: $giid) { climates { device { deviceLabel area } humidityEnabled humidityTimestamp humidityValue temperatureTimestamp temperatureValue } } }"@
}

pub open spec fn door_window_text() -> Seq<char> {
    "query DoorWindow($giid: String!) { installation(giid: $giid) { doorWindows { device { deviceLabel area } state wired reportTime } } }"@
}

pub open spec fn door_lock_text() -> Seq<char> {
    "query DoorLock($giid: String!) { installation(giid: $giid) { smartLocks { device { deviceLabel area } lockStatus doorState lockMethod eventTime doorLockType secureMode user { name } } } }"@
}

pub open spec fn smart_plug_text() -> Seq<char> {
    "query SmartPlug($giid: String!) { installation(giid: $giid) { smartplugs { device { deviceLabel area } currentState icon isHazardous } } }"@
}

pub open spec fn broadband_text() -> Seq<char> {
    "query Broadband($giid: String!) { installation(giid: $giid) { broadband { testDate isBroadbandConnected } } }"@
}

pub open spec fn account_installations_text() -> Seq<char> {
    "query AccountInstallations($email: String!) { account(email: $email) { installations { giid alias } } }"@
}

/// The arm state of installation `giid`.
pub fn arm_state_query(giid: &str) -> (q: GraphQLQuery)
    ensures
        q.is_operation("ArmState"@, "giid"@, giid@, arm_state_text()),
{
    operation(
        "ArmState",
        "giid",
        giid,
        "query ArmState($giid: String!) { installation(giid: $giid) { armState { type statusType date name changedVia } } }",
    )
}

/// The climate sensors of installation `giid`.
pub fn climate_query(giid: &str) -> (q: GraphQLQuery)
    ensures
        q.is_operation("Climate"@, "giid"@, giid@, climate_text()),
{
    operation(
        "Climate",
        "giid",
        giid,
        "query Climate($giid: String!) { installation(giid: $giid) { climates { device { deviceLabel area } humidityEnabled humidityTimestamp humidityValue temperatureTimestamp temperatureValue } } }",
    )
}

/// The door and window sensors of installation `giid`.
pub fn door_window_query(giid: &str) -> (q: GraphQLQuery)
    ensures
        q.is_operation("DoorWindow"@, "giid"@, giid@, door_window_text()),
{
    operation(
        "DoorWindow",
        "giid",
        giid,
        "query DoorWindow($giid: String!) { installation(giid: $giid) { doorWindows { device { deviceLabel area } state wired reportTime } } }",
    )
}

/// The smart locks of installation `giid`.
pub fn door_lock_query(giid: &str) -> (q: GraphQLQuery)
    ensures
        q.is_operation("DoorLock"@, "giid"@, giid@, door_lock_text()),
{
    operation(
        "DoorLock",
        "giid",
        giid,
        "query DoorLock($giid: String!) { installation(giid: $giid) { smartLocks { device { deviceLabel area } lockStatus doorState lockMethod eventTime doorLockType secureMode user { name } } } }",
    )
}

/// The smart plugs of installation `giid`.
pub fn smart_plug_query(giid: &str) -> (q: GraphQLQuery)
    ensures
        q.is_operation("SmartPlug"@, "giid"@, giid@, smart_plug_text()),
{
    operation(
        "SmartPlug",
        "giid",
        giid,
        "query SmartPlug($giid: String!) { installation(giid: $giid) { smartplugs { device { deviceLabel area } currentState icon isHazardous } } }",
    )
}

/// The broadband status of installation `giid`.
pub fn broadband_query(giid: &str) -> (q: GraphQLQuery)
    ensures
        q.is_operation("Broadband"@, "giid"@, giid@, broadband_text()),
{
    operation(
        "Broadband",
        "giid",
        giid,
        "query Broadband($giid: String!) { installation(giid: $giid) { broadband { testDate isBroadbandConnected } } }",
    )
}

/// The installations of the account with e-mail address `email`.
pub fn account_installations_query(email: &str) -> (q: GraphQLQuery)
    ensures
        q.is_operation("AccountInstallations"@, "email"@, email@, account_installations_text()),
{
    operation(
        "AccountInstallations",
        "email",
        email,
        "query AccountInstallations($email: String!) { account(email: $email) { installations { giid alias } } }",
    )
}

/// The text of the schema query for the fields of GraphQL type `gql_type`.
pub open spec fn introspection_text(gql_type: Seq<char>) -> Seq<char> {
    "{ __type(name: \""@ + gql_type + "\") { fields { name type { name kind ofType { name } } } } }"@
}

/// A schema query, without operation name or variables, that lists the
/// fields of GraphQL type `gql_type`.
pub fn introspection_query(gql_type: &str) -> (q: GraphQLQuery)
    ensures
        q.operation_name is None,
        q.variables is None,
        q.query@ == introspection_text(gql_type@),
{
    let head = join2("{ __type(name: \"", gql_type);
    let text = join2(head.as_str(), "\") { fields { name type { name kind ofType { name } } } } }");
    GraphQLQuery { operation_name: None, variables: None, query: text }
}

/// The six state queries of one scrape, in the order in which they are sent:
/// arm state, climate, doors and windows, locks, smart plugs, broadband.
pub fn fetch_queries(giid: &str) -> (qs: Vec<GraphQLQuery>)
    ensures
        qs@.len() == 6,
        qs@[0].is_operation("ArmState"@, "giid"@, giid@, arm_state_text()),
        qs@[1].is_operation("Climate"@, "giid"@, giid@, climate_text()),
        qs@[2].is_operation("DoorWindow"@, "giid"@, giid@, door_window_text()),
        qs@[3].is_operation("DoorLock"@, "giid"@, giid@, door_lock_text()),
        qs@[4].is_operation("SmartPlug"@, "giid"@, giid@, smart_plug_text()),
        qs@[5].is_operation("Broadband"@, "giid"@, giid@, broadband_text()),
{
    let mut qs = Vec::new();
    qs.push(arm_state_query(giid));
    qs.push(climate_query(giid));
    qs.push(door_window_query(giid));
    qs.push(door_lock_query(giid));
    qs.push(smart_plug_query(giid));
    qs.push(broadband_query(giid));
    qs
}

} // verus!
