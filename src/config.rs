//! Names of the emitted metrics and of their labels.

use vstd::prelude::*;

use crate::exclusion::{patterns_compile, ExclusionRules, Exclusions, InvalidExcludePattern};
use crate::instrument::{ActixWebMetrics, MetricNames};
use crate::label_order::{sort_by_key, sorted_by_key};

verus! {

/// The label names, as mathematical strings.
pub struct LabelNames {
    pub http_route: Seq<char>,
    pub http_request_method: Seq<char>,
    pub http_response_status_code: Seq<char>,
    pub network_protocol_name: Seq<char>,
    pub network_protocol_version: Seq<char>,
    pub url_scheme: Seq<char>,
}

/// Configuration for the labels used in metrics.
#[derive(Debug, Clone)]
pub struct LabelsConfig {
    pub(crate) http_route: String,
    pub(crate) http_request_method: String,
    pub(crate) http_response_status_code: String,
    pub(crate) network_protocol_name: String,
    pub(crate) network_protocol_version: String,
    pub(crate) url_scheme: String,
}

impl View for LabelsConfig {
    type V = LabelNames;

    closed spec fn view(&self) -> LabelNames {
        LabelNames {
            http_route: self.http_route@,
            http_request_method: self.http_request_method@,
            http_response_status_code: self.http_response_status_code@,
            network_protocol_name: self.network_protocol_name@,
            network_protocol_version: self.network_protocol_version@,
            url_scheme: self.url_scheme@,
        }
    }
}

impl Default for LabelsConfig {
    fn default() -> (r: Self)
        ensures
            r@.http_route == "http.route"@,
            r@.http_request_method == "http.request.method"@,
            r@.http_response_status_code == "http.response.status_code"@,
            r@.network_protocol_name == "network.protocol.name"@,
            r@.network_protocol_version == "network.protocol.version"@,
            r@.url_scheme == "url.scheme"@,
    {
        LabelsConfig {
            http_route: String::from_str("http.route"),
            http_request_method: String::from_str("http.request.method"),
            http_response_status_code: String::from_str("http.response.status_code"),
            network_protocol_name: String::from_str("network.protocol.name"),
            network_protocol_version: String::from_str("network.protocol.version"),
            url_scheme: String::from_str("url.scheme"),
        }
    }
}

impl LabelsConfig {
    /// Set the name of the request method label.
    pub fn http_request_method(self, name: &str) -> (r: Self)
        ensures
            r@ == (LabelNames { http_request_method: name@, ..self@ }),
    {
        LabelsConfig { http_request_method: String::from_str(name), ..self }
    }

    /// Set the name of the route label.
    pub fn http_route(self, name: &str) -> (r: Self)
        ensures
            r@ == (LabelNames { http_route: name@, ..self@ }),
    {
        LabelsConfig { http_route: String::from_str(name), ..self }
    }

    /// Set the name of the status code label.
    pub fn http_response_status_code(self, name: &str) -> (r: Self)
        ensures
            r@ == (LabelNames { http_response_status_code: name@, ..self@ }),
    {
        LabelsConfig { http_response_status_code: String::from_str(name), ..self }
    }

    /// Set the name of the protocol name label.
    pub fn network_protocol_name(self, name: &str) -> (r: Self)
        ensures
            r@ == (LabelNames { network_protocol_name: name@, ..self@ }),
    {
        LabelsConfig { network_protocol_name: String::from_str(name), ..self }
    }

    /// Set the name of the protocol version label.
    pub fn network_protocol_version(self, name: &str) -> (r: Self)
        ensures
            r@ == (LabelNames { network_protocol_version: name@, ..self@ }),
    {
        LabelsConfig { network_protocol_version: String::from_str(name), ..self }
    }

    /// Set the name of the URL scheme label.
    pub fn url_scheme(self, name: &str) -> (r: Self)
        ensures
            r@ == (LabelNames { url_scheme: name@, ..self@ }),
    {
        LabelsConfig { url_scheme: String::from_str(name), ..self }
    }
}

/// The metric names and label names, as mathematical strings.
pub struct NameSettings {
    pub request_duration: Seq<char>,
    pub request_body_size: Seq<char>,
    pub response_body_size: Seq<char>,
    pub active_requests: Seq<char>,
    pub labels: LabelNames,
}

/// Configuration for the collected metrics: their names and their labels'
/// names.
#[derive(Debug, Clone)]
pub struct ActixWebMetricsConfig {
    pub(crate) http_server_request_duration_name: String,
    pub(crate) http_server_request_body_size_name: String,
    pub(crate) http_server_response_body_size_name: String,
    pub(crate) http_server_active_requests_name: String,
    pub(crate) labels: LabelsConfig,
}

impl View for ActixWebMetricsConfig {
    type V = NameSettings;

    closed spec fn view(&self) -> NameSettings {
        NameSettings {
            request_duration: self.http_server_request_duration_name@,
            request_body_size: self.http_server_request_body_size_name@,
            response_body_size: self.http_server_response_body_size_name@,
            active_requests: self.http_server_active_requests_name@,
            labels: self.labels@,
        }
    }
}

/// The default names, after the OpenTelemetry HTTP semantic conventions.
pub open spec fn default_metrics_names() -> NameSettings {
    NameSettings {
        request_duration: "http.server.request.duration"@,
        request_body_size: "http.server.request.body.size"@,
        response_body_size: "http.server.response.body.size"@,
        active_requests: "http.server.active_requests"@,
        labels: LabelNames {
            http_route: "http.route"@,
            http_request_method: "http.request.method"@,
            http_response_status_code: "http.response.status_code"@,
            network_protocol_name: "network.protocol.name"@,
            network_protocol_version: "network.protocol.version"@,
            url_scheme: "url.scheme"@,
        },
    }
}

impl Default for ActixWebMetricsConfig {
    fn default() -> (r: Self)
        ensures
            r@ == default_metrics_names(),
    {
        ActixWebMetricsConfig {
            http_server_request_duration_name: String::from_str("http.server.request.duration"),
            http_server_request_body_size_name: String::from_str("http.server.request.body.size"),
            http_server_response_body_size_name: String::from_str("http.server.response.body.size"),
            http_server_active_requests_name: String::from_str("http.server.active_requests"),
            labels: LabelsConfig::default(),
        }
    }
}

impl ActixWebMetricsConfig {
    /// Set the names of the labels.
    pub fn labels(self, labels: LabelsConfig) -> (r: Self)
        ensures
            r@ == (NameSettings { labels: labels@, ..self@ }),
    {
        ActixWebMetricsConfig { labels, ..self }
    }

    /// Set the name of the request duration histogram.
    pub fn http_server_request_duration_name(self, name: &str) -> (r: Self)
        ensures
            r@ == (NameSettings { request_duration: name@, ..self@ }),
    {
        ActixWebMetricsConfig { http_server_request_duration_name: String::from_str(name), ..self }
    }

    /// Set the name of the request body size histogram.
    pub fn http_server_request_body_size_name(self, name: &str) -> (r: Self)
        ensures
            r@ == (NameSettings { request_body_size: name@, ..self@ }),
    {
        ActixWebMetricsConfig { http_server_request_body_size_name: String::from_str(name), ..self }
    }

    /// Set the name of the response body size histogram.
    pub fn http_server_response_body_size_name(self, name: &str) -> (r: Self)
        ensures
            r@ == (NameSettings { response_body_size: name@, ..self@ }),
    {
        ActixWebMetricsConfig { http_server_response_body_size_name: String::from_str(name), ..self }
    }

    /// Set the name of the active requests gauge.
    pub fn http_server_active_requests_name(self, name: &str) -> (r: Self)
        ensures
            r@ == (NameSettings { active_requests: name@, ..self@ }),
    {
        ActixWebMetricsConfig { http_server_active_requests_name: String::from_str(name), ..self }
    }
}

/// Per-route settings, attached to a route by its own configuration.
#[derive(Debug, Clone)]
pub struct ActixWebMetricsExtension {
    /// The parameters whose literal values the route label keeps.
    pub cardinality_keep_params: Vec<String>,
}

/// The builder's settings as mathematical values.
pub struct BuilderSettings {
    pub namespace: Option<Seq<char>>,
    pub const_labels: Seq<(Seq<char>, Seq<char>)>,
    pub exclude: Seq<Seq<char>>,
    pub exclude_regex: Seq<Seq<char>>,
    pub exclude_status: Seq<u16>,
    pub unmatched_patterns_mask: Option<Seq<char>>,
    pub metrics_config: NameSettings,
}

/// Builder of the configured instrumentation, [`ActixWebMetrics`].
pub struct ActixWebMetricsBuilder {
    namespace: Option<String>,
    const_labels: Vec<(String, String)>,
    exclude: Vec<String>,
    exclude_regex: Vec<String>,
    exclude_status: Vec<u16>,
    unmatched_patterns_mask: Option<String>,
    metrics_config: ActixWebMetricsConfig,
}

impl View for ActixWebMetricsBuilder {
    type V = BuilderSettings;

    closed spec fn view(&self) -> BuilderSettings {
        BuilderSettings {
            namespace: self.namespace.deep_view(),
            const_labels: self.const_labels.deep_view(),
            exclude: self.exclude.deep_view(),
            exclude_regex: self.exclude_regex.deep_view(),
            exclude_status: self.exclude_status@,
            unmatched_patterns_mask: self.unmatched_patterns_mask.deep_view(),
            metrics_config: self.metrics_config@,
        }
    }
}

/// The prefix of every metric name: the namespace and `_`, or nothing.
pub open spec fn name_prefix(namespace: Option<Seq<char>>) -> Seq<char> {
    match namespace {
        Some(ns) => ns + "_"@,
        None => Seq::empty(),
    }
}

impl ActixWebMetricsBuilder {
    /// A builder with no namespace, no constant labels, no exclusions, the
    /// default names, and unmatched requests masked as `UNKNOWN`.
    pub fn new() -> (r: Self)
        ensures
            r@ == (BuilderSettings {
                namespace: None,
                const_labels: Seq::empty(),
                exclude: Seq::empty(),
                exclude_regex: Seq::empty(),
                exclude_status: Seq::empty(),
                unmatched_patterns_mask: Some("UNKNOWN"@),
                metrics_config: default_metrics_names(),
            }),
    {
        let r = ActixWebMetricsBuilder {
            namespace: None,
            const_labels: Vec::new(),
            exclude: Vec::new(),
            exclude_regex: Vec::new(),
            exclude_status: Vec::new(),
            unmatched_patterns_mask: Some(String::from_str("UNKNOWN")),
            metrics_config: ActixWebMetricsConfig::default(),
        };
        assert(r@.const_labels =~= Seq::empty());
        assert(r@.exclude =~= Seq::empty());
        assert(r@.exclude_regex =~= Seq::empty());
        assert(r@.exclude_status =~= Seq::empty());
        r
    }

    /// Set the labels added to every metric.
    pub fn const_labels(self, value: Vec<(String, String)>) -> (r: Self)
        ensures
            r@ == (BuilderSettings { const_labels: value.deep_view(), ..self@ }),
    {
        ActixWebMetricsBuilder { const_labels: value, ..self }
    }

    /// Set the namespace that prefixes every metric name.
    pub fn namespace(self, value: &str) -> (r: Self)
        ensures
            r@ == (BuilderSettings { namespace: Some(value@), ..self@ }),
    {
        ActixWebMetricsBuilder { namespace: Some(String::from_str(value)), ..self }
    }

    /// Do not record the observations of requests with this route label.
    pub fn exclude(self, path: &str) -> (r: Self)
        ensures
            r@ == (BuilderSettings { exclude: self@.exclude.push(path@), ..self@ }),
    {
        let mut r = self;
        r.exclude.push(String::from_str(path));
        assert(r@.exclude =~= self@.exclude.push(path@));
        r
    }

    /// Do not record the observations of requests whose route label the
    /// pattern matches.
    pub fn exclude_regex(self, path: &str) -> (r: Self)
        ensures
            r@ == (BuilderSettings { exclude_regex: self@.exclude_regex.push(path@), ..self@ }),
    {
        let mut r = self;
        r.exclude_regex.push(String::from_str(path));
        assert(r@.exclude_regex =~= self@.exclude_regex.push(path@));
        r
    }

    /// Do not record the observations of requests answered with this status.
    pub fn exclude_status(self, status: u16) -> (r: Self)
        ensures
            r@ == (BuilderSettings { exclude_status: self@.exclude_status.push(status), ..self@ }),
    {
        let mut r = self;
        r.exclude_status.push(status);
        r
    }

    /// Label the requests that match no route with `mask`.
    pub fn mask_unmatched_patterns(self, mask: &str) -> (r: Self)
        ensures
            r@ == (BuilderSettings { unmatched_patterns_mask: Some(mask@), ..self@ }),
    {
        ActixWebMetricsBuilder { unmatched_patterns_mask: Some(String::from_str(mask)), ..self }
    }

    /// Label the requests that match no route with their raw path. This may
    /// make the route label's cardinality unbounded.
    pub fn disable_unmatched_pattern_masking(self) -> (r: Self)
        ensures
            r@ == (BuilderSettings { unmatched_patterns_mask: None, ..self@ }),
    {
        ActixWebMetricsBuilder { unmatched_patterns_mask: None, ..self }
    }

    /// Set the metric and label names.
    pub fn metrics_config(self, value: ActixWebMetricsConfig) -> (r: Self)
        ensures
            r@ == (BuilderSettings { metrics_config: value@, ..self@ }),
    {
        ActixWebMetricsBuilder { metrics_config: value, ..self }
    }

    /// Builds the instrumentation: names prefixed by the namespace, constant
    /// labels sorted by key, exclusion rules compiled. Fails exactly when the
    /// exclusion patterns do not compile.
    pub fn build(self) -> (r: Result<ActixWebMetrics, InvalidExcludePattern>)
        ensures
            r is Ok <==> patterns_compile(self@.exclude_regex),
            r is Ok ==> {
                let m = r->Ok_0;
                let c = self@.metrics_config;
                let p = name_prefix(self@.namespace);
                &&& m.names.http_server_request_duration@ == p + c.request_duration
                &&& m.names.http_server_request_body_size@ == p + c.request_body_size
                &&& m.names.http_server_response_body_size@ == p + c.response_body_size
                &&& m.names.http_server_active_requests@ == p + c.active_requests
                &&& m.names.http_route@ == c.labels.http_route
                &&& m.names.http_request_method@ == c.labels.http_request_method
                &&& m.names.http_response_status_code@ == c.labels.http_response_status_code
                &&& m.names.network_protocol_name@ == c.labels.network_protocol_name
                &&& m.names.network_protocol_version@ == c.labels.network_protocol_version
                &&& m.names.url_scheme@ == c.labels.url_scheme
                &&& sorted_by_key(m.names.const_labels.deep_view())
                &&& m.names.const_labels.deep_view().to_multiset() == self@.const_labels.to_multiset()
                &&& m.rules@ == (Exclusions {
                    exact: self@.exclude,
                    patterns: self@.exclude_regex,
                    statuses: self@.exclude_status,
                })
                &&& m.unmatched_patterns_mask.deep_view() == self@.unmatched_patterns_mask
            },
    {
        let ghost settings = self@;
        let prefix = match &self.namespace {
            Some(ns) => ns.clone().concat("_"),
            None => String::new(),
        };
        assert(prefix@ =~= name_prefix(settings.namespace));
        let config = self.metrics_config;
        let labels = config.labels;
        let names = MetricNames {
            http_server_request_duration: prefix.clone().concat(
                config.http_server_request_duration_name.as_str(),
            ),
            http_server_request_body_size: prefix.clone().concat(
                config.http_server_request_body_size_name.as_str(),
            ),
            http_server_response_body_size: prefix.clone().concat(
                config.http_server_response_body_size_name.as_str(),
            ),
            http_server_active_requests: prefix.concat(config.http_server_active_requests_name.as_str()),
            http_route: labels.http_route,
            http_request_method: labels.http_request_method,
            http_response_status_code: labels.http_response_status_code,
            network_protocol_name: labels.network_protocol_name,
            network_protocol_version: labels.network_protocol_version,
            url_scheme: labels.url_scheme,
            const_labels: sort_by_key(&self.const_labels),
        };
        match ExclusionRules::new(self.exclude, &self.exclude_regex, self.exclude_status) {
            Ok(rules) => Ok(
                ActixWebMetrics { names, rules, unmatched_patterns_mask: self.unmatched_patterns_mask },
            ),
            Err(e) => Err(e),
        }
    }
}

impl Default for ActixWebMetricsBuilder {
    fn default() -> (r: Self)
        ensures
            r@ == (BuilderSettings {
                namespace: None,
                const_labels: Seq::empty(),
                exclude: Seq::empty(),
                exclude_regex: Seq::empty(),
                exclude_status: Seq::empty(),
                unmatched_patterns_mask: Some("UNKNOWN"@),
                metrics_config: default_metrics_names(),
            }),
    {
        Self::new()
    }
}

} // verus!
