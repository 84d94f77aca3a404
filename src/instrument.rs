//! The instrumentation core: label sets, the per-request tracker and the
//! decision of what to observe when a request completes.

use vstd::prelude::*;

use crate::exclusion::{excluded, ExclusionRules};
use crate::lifecycle::{step_spec, Effect, Event, GaugeChange, Lifecycle, Phase};
use crate::route::{final_label, RouteLabels};

verus! {

/// A list of labels, keys and values as mathematical strings.
pub type LabelSeq = Seq<(Seq<char>, Seq<char>)>;

/// The HTTP protocol version of a request.
#[derive(Debug, Clone, Copy, PartialEq, Eq, Structural)]
pub enum HttpVersion {
    Http09,
    Http10,
    Http11,
    Http2,
    Http3,
    Other,
}

/// The protocol version label value of each known version.
pub open spec fn version_label(version: HttpVersion) -> Option<Seq<char>> {
    match version {
        HttpVersion::Http09 => Some("0.9"@),
        HttpVersion::Http10 => Some("1.0"@),
        HttpVersion::Http11 => Some("1.1"@),
        HttpVersion::Http2 => Some("2"@),
        HttpVersion::Http3 => Some("3"@),
        HttpVersion::Other => None,
    }
}

/// The protocol version label value, none for an unknown version.
pub fn http_version_label(version: HttpVersion) -> (r: Option<&'static str>)
    ensures
        r.deep_view() == version_label(version),
{
    match version {
        HttpVersion::Http09 => Some("0.9"),
        HttpVersion::Http10 => Some("1.0"),
        HttpVersion::Http11 => Some("1.1"),
        HttpVersion::Http2 => Some("2"),
        HttpVersion::Http3 => Some("3"),
        HttpVersion::Other => None,
    }
}

/// The scheme label value: the URI's scheme, `http` when it has none.
pub fn url_scheme(scheme: Option<&str>) -> (r: &str)
    ensures
        r@ == (match scheme {
            Some(s) => s@,
            None => "http"@,
        }),
{
    match scheme {
        Some(s) => s,
        None => "http",
    }
}

/// The character of a decimal digit.
pub open spec fn digit_char(d: nat) -> char {
    seq!['0', '1', '2', '3', '4', '5', '6', '7', '8', '9'][d as int]
}

/// The decimal text of a number, without leading zeros.
pub open spec fn decimal(n: nat) -> Seq<char>
    decreases n,
{
    if n < 10 {
        seq![digit_char(n)]
    } else {
        decimal(n / 10).push(digit_char(n % 10))
    }
}

fn digit_str(d: u16) -> (r: &'static str)
    requires
        d < 10,
    ensures
        r@ == seq![digit_char(d as nat)],
{
    proof {
        reveal_strlit("0");
        reveal_strlit("1");
        reveal_strlit("2");
        reveal_strlit("3");
        reveal_strlit("4");
        reveal_strlit("5");
        reveal_strlit("6");
        reveal_strlit("7");
        reveal_strlit("8");
        reveal_strlit("9");
    }
    let r = if d == 0 {
        "0"
    } else if d == 1 {
        "1"
    } else if d == 2 {
        "2"
    } else if d == 3 {
        "3"
    } else if d == 4 {
        "4"
    } else if d == 5 {
        "5"
    } else if d == 6 {
        "6"
    } else if d == 7 {
        "7"
    } else if d == 8 {
        "8"
    } else {
        "9"
    };
    assert(r@ =~= seq![digit_char(d as nat)]);
    r
}

/// The decimal text of a status code, as the status label carries it.
pub fn status_text(code: u16) -> (r: String)
    ensures
        r@ == decimal(code as nat),
    decreases code,
{
    if code < 10 {
        String::from_str(digit_str(code))
    } else {
        let mut r = status_text(code / 10);
        r.append(digit_str(code % 10));
        r
    }
}

/// Metric and label names, resolved once when the middleware is built, and the
/// constant labels sorted by key.
pub struct MetricNames {
    pub http_server_request_duration: String,
    pub http_server_request_body_size: String,
    pub http_server_response_body_size: String,
    pub http_server_active_requests: String,
    pub http_route: String,
    pub http_request_method: String,
    pub http_response_status_code: String,
    pub network_protocol_name: String,
    pub network_protocol_version: String,
    pub url_scheme: String,
    pub const_labels: Vec<(String, String)>,
}

/// The labels of the active-request gauge: method, scheme, then the constant
/// labels.
pub open spec fn active_labels(names: MetricNames, method: Seq<char>, scheme: Seq<char>) -> LabelSeq {
    seq![(names.http_request_method@, method), (names.url_scheme@, scheme)]
        + names.const_labels.deep_view()
}

/// The labels of the duration and size observations: route, method, status,
/// protocol name, protocol version when known, then the constant labels.
pub open spec fn observation_labels(
    names: MetricNames,
    route: Seq<char>,
    method: Seq<char>,
    status: u16,
    version: HttpVersion,
) -> LabelSeq {
    seq![
        (names.http_route@, route),
        (names.http_request_method@, method),
        (names.http_response_status_code@, decimal(status as nat)),
        (names.network_protocol_name@, "http"@),
    ] + match version_label(version) {
        Some(v) => seq![(names.network_protocol_version@, v)],
        None => Seq::empty(),
    } + names.const_labels.deep_view()
}

/// Appends copies of `extra` to `out`.
fn extend_labels(out: &mut Vec<(String, String)>, extra: &Vec<(String, String)>)
    ensures
        final(out).deep_view() == old(out).deep_view() + extra.deep_view(),
{
    let ghost start = out.deep_view();
    let mut i: usize = 0;
    while i < extra.len()
        invariant
            i <= extra.len(),
            out.deep_view() =~= start + extra.deep_view().take(i as int),
        decreases extra.len() - i,
    {
        let ghost before = out.deep_view();
        out.push((extra[i].0.clone(), extra[i].1.clone()));
        assert(out.deep_view() =~= before.push(extra.deep_view()[i as int]));
        i = i + 1;
    }
    assert(extra.deep_view().take(extra.len() as int) =~= extra.deep_view());
}

/// What the response of a request shows, captured once it is ready.
pub struct ResponseFacts {
    pub version: HttpVersion,
    pub status: u16,
    pub labels: RouteLabels,
    /// The declared request body size.
    pub request_size: usize,
}

/// The response facts as mathematical values.
pub struct FactsView {
    pub version: HttpVersion,
    pub status: u16,
    pub mixed: Seq<char>,
    pub fallback: Seq<char>,
    pub matched: bool,
    pub request_size: usize,
}

impl View for ResponseFacts {
    type V = FactsView;

    open spec fn view(&self) -> FactsView {
        FactsView {
            version: self.version,
            status: self.status,
            mixed: self.labels.mixed@,
            fallback: self.labels.fallback@,
            matched: self.labels.matched,
            request_size: self.request_size,
        }
    }
}

/// The final route label of a request with these facts.
pub open spec fn facts_label(f: FactsView, mask: Option<Seq<char>>) -> Seq<char> {
    final_label(f.mixed, f.fallback, f.matched, f.status, mask)
}

/// The state of one request, owned by its response future and then its body.
pub struct RequestTracker {
    lifecycle: Lifecycle,
    method: String,
    scheme: String,
    response: Option<ResponseFacts>,
}

impl RequestTracker {
    /// A streaming body always has its response facts.
    pub closed spec fn wf(&self) -> bool {
        self.lifecycle.phase == Phase::BodyStreaming ==> self.response is Some
    }

    pub closed spec fn lifecycle_spec(&self) -> Lifecycle {
        self.lifecycle
    }

    pub closed spec fn method_spec(&self) -> Seq<char> {
        self.method@
    }

    pub closed spec fn scheme_spec(&self) -> Seq<char> {
        self.scheme@
    }

    pub closed spec fn facts(&self) -> Option<FactsView> {
        match self.response {
            Some(f) => Some(f.view()),
            None => None,
        }
    }

    /// The lifecycle state.
    pub fn lifecycle(&self) -> (r: Lifecycle)
        ensures
            r == self.lifecycle_spec(),
    {
        self.lifecycle
    }

    /// Records that the inner handler produced a response with these facts.
    /// Only a request waiting for its response takes them.
    pub fn response_ready(&mut self, facts: ResponseFacts)
        requires
            old(self).wf(),
        ensures
            final(self).wf(),
            final(self).lifecycle_spec() == step_spec(old(self).lifecycle_spec(), Event::ResponseReady).0,
            final(self).method_spec() == old(self).method_spec(),
            final(self).scheme_spec() == old(self).scheme_spec(),
            old(self).lifecycle_spec().phase == Phase::ActiveCounted ==> final(self).facts() == Some(facts@),
            old(self).lifecycle_spec().phase != Phase::ActiveCounted ==> final(self).facts() == old(self).facts(),
    {
        if self.lifecycle.phase == Phase::ActiveCounted {
            self.lifecycle.step(Event::ResponseReady);
            self.response = Some(facts);
        }
    }

    /// Counts a chunk of `n` response bytes.
    pub fn chunk(&mut self, n: usize)
        requires
            old(self).wf(),
        ensures
            final(self).wf(),
            final(self).lifecycle_spec() == step_spec(old(self).lifecycle_spec(), Event::Chunk(n)).0,
            final(self).method_spec() == old(self).method_spec(),
            final(self).scheme_spec() == old(self).scheme_spec(),
            final(self).facts() == old(self).facts(),
    {
        self.lifecycle.step(Event::Chunk(n));
    }
}

/// How a request ends.
#[derive(Debug, Clone, Copy, PartialEq, Eq, Structural)]
pub enum Ending {
    /// The inner handler failed before producing a response.
    HandlerFailed,
    /// The response body was read to its end.
    BodyEnded,
    /// The future or the body was dropped.
    Dropped,
}

pub open spec fn ending_event(e: Ending) -> Event {
    match e {
        Ending::HandlerFailed => Event::HandlerFailed,
        Ending::BodyEnded => Event::BodyEnded,
        Ending::Dropped => Event::Dropped,
    }
}

/// The duration and size observations of a completed request.
pub struct Observation {
    pub labels: Vec<(String, String)>,
    pub request_size: usize,
    pub response_size: usize,
}

/// What the host emits when a request completes: the gauge decrement, and the
/// observations unless there is no response or the rules exclude it.
pub struct Completion {
    pub gauge_labels: Vec<(String, String)>,
    pub observation: Option<Observation>,
}

/// The configured instrumentation, shared read-only by all requests.
pub struct ActixWebMetrics {
    pub names: MetricNames,
    pub rules: ExclusionRules,
    pub unmatched_patterns_mask: Option<String>,
}

impl ActixWebMetrics {
    /// The labels of the active-request gauge for a request.
    pub fn active_request_labels(&self, method: &str, scheme: &str) -> (r: Vec<(String, String)>)
        ensures
            r.deep_view() == active_labels(self.names, method@, scheme@),
    {
        let mut r: Vec<(String, String)> = Vec::new();
        r.push((self.names.http_request_method.clone(), String::from_str(method)));
        r.push((self.names.url_scheme.clone(), String::from_str(scheme)));
        let ghost head = r.deep_view();
        assert(head =~= seq![(self.names.http_request_method@, method@), (self.names.url_scheme@, scheme@)]);
        extend_labels(&mut r, &self.names.const_labels);
        r
    }

    /// The labels of the observations of a completed request.
    pub fn observation_labels(&self, route: &str, method: &str, status: u16, version: HttpVersion) -> (r: Vec<
        (String, String),
    >)
        ensures
            r.deep_view() == observation_labels(self.names, route@, method@, status, version),
    {
        let mut r: Vec<(String, String)> = Vec::new();
        r.push((self.names.http_route.clone(), String::from_str(route)));
        r.push((self.names.http_request_method.clone(), String::from_str(method)));
        r.push((self.names.http_response_status_code.clone(), status_text(status)));
        r.push((self.names.network_protocol_name.clone(), String::from_str("http")));
        let ghost head = r.deep_view();
        match http_version_label(version) {
            Some(v) => {
                r.push((self.names.network_protocol_version.clone(), String::from_str(v)));
            },
            None => {},
        }
        let ghost with_version = r.deep_view();
        assert(with_version =~= head + match version_label(version) {
            Some(v) => seq![(self.names.network_protocol_version@, v)],
            None => Seq::empty(),
        });
        extend_labels(&mut r, &self.names.const_labels);
        r
    }

    /// A request arrives: its tracker leaves `Idle` and the active-request
    /// gauge goes up, with the labels returned beside it.
    pub fn start_request(&self, method: &str, scheme: &str) -> (r: (RequestTracker, Vec<(String, String)>))
        ensures
            r.0.wf(),
            (r.0.lifecycle_spec(), Effect { gauge: GaugeChange::Increment, finalize: false })
                == step_spec(Lifecycle { phase: Phase::Idle, response_size: 0 }, Event::RequestReceived),
            r.0.method_spec() == method@,
            r.0.scheme_spec() == scheme@,
            r.0.facts() is None,
            r.1.deep_view() == active_labels(self.names, method@, scheme@),
    {
        let mut lifecycle = Lifecycle::new();
        lifecycle.step(Event::RequestReceived);
        let tracker = RequestTracker {
            lifecycle,
            method: String::from_str(method),
            scheme: String::from_str(scheme),
            response: None,
        };
        (tracker, self.active_request_labels(method, scheme))
    }

    /// The request ends. The first ending of a request in flight gives a
    /// completion: the gauge decrement with the labels of the increment, and
    /// the observations when a response was streamed and the exclusion rules
    /// do not exclude its final label and status. Any later ending gives
    /// nothing.
    pub fn finish(&self, tracker: &mut RequestTracker, ending: Ending) -> (r: Option<Completion>)
        requires
            old(tracker).wf(),
        ensures
            final(tracker).wf(),
            final(tracker).lifecycle_spec() == step_spec(old(tracker).lifecycle_spec(), ending_event(ending)).0,
            final(tracker).method_spec() == old(tracker).method_spec(),
            final(tracker).scheme_spec() == old(tracker).scheme_spec(),
            final(tracker).facts() == old(tracker).facts(),
            r is Some <==> step_spec(old(tracker).lifecycle_spec(), ending_event(ending)).1.gauge
                == GaugeChange::Decrement,
            r is Some ==> r->0.gauge_labels.deep_view() == active_labels(
                self.names,
                old(tracker).method_spec(),
                old(tracker).scheme_spec(),
            ),
            r is Some ==> (r->0.observation is Some <==> {
                &&& step_spec(old(tracker).lifecycle_spec(), ending_event(ending)).1.finalize
                &&& old(tracker).facts() is Some
                &&& !excluded(
                    self.rules@,
                    facts_label(old(tracker).facts()->0, self.unmatched_patterns_mask.deep_view()),
                    old(tracker).facts()->0.status,
                )
            }),
            r is Some && r->0.observation is Some ==> {
                let f = old(tracker).facts()->0;
                let o = r->0.observation->0;
                &&& o.labels.deep_view() == observation_labels(
                    self.names,
                    facts_label(f, self.unmatched_patterns_mask.deep_view()),
                    old(tracker).method_spec(),
                    f.status,
                    f.version,
                )
                &&& o.request_size == f.request_size
                &&& o.response_size == old(tracker).lifecycle_spec().response_size
            },
    {
        let response_size = tracker.lifecycle.response_size;
        let event = match ending {
            Ending::HandlerFailed => Event::HandlerFailed,
            Ending::BodyEnded => Event::BodyEnded,
            Ending::Dropped => Event::Dropped,
        };
        let effect = tracker.lifecycle.step(event);
        if effect.gauge != GaugeChange::Decrement {
            return None;
        }
        let gauge_labels = self.active_request_labels(tracker.method.as_str(), tracker.scheme.as_str());
        if !effect.finalize {
            return Some(Completion { gauge_labels, observation: None });
        }
        match &tracker.response {
            None => Some(Completion { gauge_labels, observation: None }),
            Some(facts) => {
                let route = facts.labels.resolve(facts.status, &self.unmatched_patterns_mask);
                if !self.rules.should_record(&route, facts.status) {
                    return Some(Completion { gauge_labels, observation: None });
                }
                let labels = self.observation_labels(
                    route.as_str(),
                    tracker.method.as_str(),
                    facts.status,
                    facts.version,
                );
                Some(
                    Completion {
                        gauge_labels,
                        observation: Some(
                            Observation { labels, request_size: facts.request_size, response_size },
                        ),
                    },
                )
            },
        }
    }
}

} // verus!
