//! The HTTP endpoints: routing and the answers.
use vstd::prelude::*;

use prometheus_client::registry::Registry;

use crate::text::{join2, owned, str_equal};

verus! {

/// Where a request is routed.
#[derive(Debug, PartialEq, Eq, Structural)]
pub enum Route {
    Metrics,
    Health,
    Ready,
    Landing,
    NotFound,
}

/// Routing: a GET of the metrics path is the metrics (this comes first), a
/// GET of `/healthz` the health probe, of `/readyz` the readiness probe, of
/// `/` the landing page; anything else is not found.
pub open spec fn spec_route(is_get: bool, path: Seq<char>, metrics_path: Seq<char>) -> Route {
    if !is_get {
        Route::NotFound
    } else if path == metrics_path {
        Route::Metrics
    } else if path == "/healthz"@ {
        Route::Health
    } else if path == "/readyz"@ {
        Route::Ready
    } else if path == "/"@ {
        Route::Landing
    } else {
        Route::NotFound
    }
}

/// Routes a request by its method (GET or not) and path.
pub fn route(is_get: bool, path: &str, metrics_path: &str) -> (r: Route)
    ensures
        r == spec_route(is_get, path@, metrics_path@),
{
    if !is_get {
        Route::NotFound
    } else if str_equal(path, metrics_path) {
        Route::Metrics
    } else if str_equal(path, "/healthz") {
        Route::Health
    } else if str_equal(path, "/readyz") {
        Route::Ready
    } else if str_equal(path, "/") {
        Route::Landing
    } else {
        Route::NotFound
    }
}

/// An HTTP answer: status, optional `Content-Type`, body.
#[derive(Debug)]
pub struct HttpResponse {
    pub status: u16,
    pub content_type: Option<String>,
    pub body: String,
}

impl HttpResponse {
    /// The answer has this status, content type and body.
    pub open spec fn is(self, status: u16, content_type: Option<Seq<char>>, body: Seq<char>) -> bool {
        &&& self.status == status
        &&& match (self.content_type, content_type) {
            (Some(c), Some(d)) => c@ == d,
            (None, None) => true,
            _ => false,
        }
        &&& self.body@ == body
    }
}

pub open spec fn openmetrics_type() -> Seq<char> {
    "application/openmetrics-text; version=1.0.0; charset=utf-8"@
}

/// The landing page, which links to the metrics path.
pub open spec fn spec_landing_page(metrics_path: Seq<char>) -> Seq<char> {
    "<html><head><title>Verisure Exporter</title></head><body><h1>Verisure Exporter</h1><p><a href=\""@
        + metrics_path + "\">"@ + metrics_path + "</a></p></body></html>"@
}

/// The landing page, which links to the metrics path.
pub fn landing_page(metrics_path: &str) -> (r: String)
    ensures
        r@ == spec_landing_page(metrics_path@),
{
    let s = join2(
        "<html><head><title>Verisure Exporter</title></head><body><h1>Verisure Exporter</h1><p><a href=\"",
        metrics_path,
    );
    let s = join2(s.as_str(), "\">");
    let s = join2(s.as_str(), metrics_path);
    join2(s.as_str(), "</a></p></body></html>")
}

fn respond(status: u16, content_type: Option<&str>, body: String) -> (r: HttpResponse)
    ensures
        r.status == status,
        r.body == body,
        match (r.content_type, content_type) {
            (Some(c), Some(d)) => c@ == d@,
            (None, None) => true,
            _ => false,
        },
{
    let content_type = match content_type {
        Some(c) => Some(owned(c)),
        None => None,
    };
    HttpResponse { status, content_type, body }
}

/// The answer to the metrics path, given the encoded metrics, or `None` when
/// encoding failed: 200 with the OpenMetrics text, or 500.
pub fn metrics_response(encoded: Option<String>) -> (r: HttpResponse)
    ensures
        match encoded {
            Some(text) => r.is(200, Some(openmetrics_type()), text@),
            None => r.is(500, None, "Failed to encode metrics"@),
        },
{
    match encoded {
        Some(text) => respond(200, Some("application/openmetrics-text; version=1.0.0; charset=utf-8"), text),
        None => respond(500, None, owned("Failed to encode metrics")),
    }
}

/// The answer of every route but the metrics one.
pub open spec fn plain_answer(r: HttpResponse, route: Route, metrics_path: Seq<char>, ready: bool) -> bool {
    match route {
        Route::Health => r.is(200, None, "OK"@),
        Route::Ready => if ready {
            r.is(200, None, "OK"@)
        } else {
            r.is(503, None, "Not ready"@)
        },
        Route::Landing => r.is(200, Some("text/html"@), spec_landing_page(metrics_path)),
        Route::NotFound => r.is(404, None, "Not Found"@),
        Route::Metrics => false,
    }
}

/// The text ends with the OpenMetrics end marker `# EOF` and a line break.
pub open spec fn ends_with_eof(text: Seq<char>) -> bool {
    text.len() >= 6 && text.subrange(text.len() - 6, text.len() as int) == "# EOF\n"@
}

/// Whether the OpenMetrics text encoder succeeds on `registry`. Writing
/// into a `String` cannot fail, and the encoder of
/// `prometheus_client` 0.25 fails only on a native histogram without
/// buckets, whose buckets are fixed when it is made; so success depends on
/// which metrics the registry holds, not on their current values.
pub uninterp spec fn encodes(registry: Registry) -> bool;

/// The metrics of `registry` in the OpenMetrics text format
/// (`prometheus_client::encoding::text::encode`), or `None` when encoding
/// fails. The registry's gauges change while the exporter runs, so the text
/// is not named; the contract names whether encoding succeeds, and states
/// that a complete text ends with the format's end marker, as `encode`
/// writes it last.
#[verifier::external_body]
fn encode_metrics(registry: &Registry) -> (r: Option<String>)
    ensures
        r is Some <==> encodes(*registry),
        r matches Some(text) ==> ends_with_eof(text@),
{
    let mut buf = String::new();
    match prometheus_client::encoding::text::encode(&mut buf, registry) {
        Ok(()) => Some(buf),
        Err(_) => None,
    }
}

/// Answers a request, by its method (GET or not) and path. A GET of the
/// metrics path encodes `registry` and answers 200 with the text, or 500
/// when encoding fails; `ready` tells whether a scrape has succeeded yet.
pub fn handle_request(is_get: bool, path: &str, registry: &Registry, metrics_path: &str, ready: bool) -> (r: HttpResponse)
    ensures
        spec_route(is_get, path@, metrics_path@) == Route::Metrics && encodes(*registry) ==> {
            &&& r.status == 200
            &&& (r.content_type matches Some(c) && c@ == openmetrics_type())
            &&& ends_with_eof(r.body@)
        },
        spec_route(is_get, path@, metrics_path@) == Route::Metrics && !encodes(*registry) ==> r.is(
            500,
            None,
            "Failed to encode metrics"@,
        ),
        spec_route(is_get, path@, metrics_path@) != Route::Metrics ==> plain_answer(r, spec_route(is_get, path@, metrics_path@), metrics_path@, ready),
{
    match route(is_get, path, metrics_path) {
        Route::Metrics => metrics_response(encode_metrics(registry)),
        Route::Health => respond(200, None, owned("OK")),
        Route::Ready => {
            if ready {
                respond(200, None, owned("OK"))
            } else {
                respond(503, None, owned("Not ready"))
            }
        },
        Route::Landing => respond(200, Some("text/html"), landing_page(metrics_path)),
        Route::NotFound => respond(404, None, owned("Not Found")),
    }
}

/// What a scrape's end changes: the success gauge's value, whether the error
/// counter grows by one, and whether the exporter is ready.
#[derive(Debug)]
pub struct ScrapeReport {
    pub success: i64,
    pub count_error: bool,
    pub ready: bool,
}

/// A successful scrape sets the success gauge to 1 and makes the exporter
/// ready; a failed one sets it to 0, counts an error, and leaves readiness
/// as it was.
pub fn scrape_report(succeeded: bool, was_ready: bool) -> (r: ScrapeReport)
    ensures
        succeeded ==> r.success == 1 && !r.count_error && r.ready,
        !succeeded ==> r.success == 0 && r.count_error && r.ready == was_ready,
{
    if succeeded {
        ScrapeReport { success: 1, count_error: false, ready: true }
    } else {
        ScrapeReport { success: 0, count_error: true, ready: was_ready }
    }
}

} // verus!
