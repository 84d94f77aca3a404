use actix_web_metrics::content_length::content_length;
use actix_web_metrics::exclusion::InvalidExcludePattern;
use actix_web_metrics::instrument::{
    http_version_label, status_text, url_scheme, Completion, Ending, HttpVersion, ResponseFacts,
};
use actix_web_metrics::lifecycle::Phase;
use actix_web_metrics::route::RouteLabels;
use actix_web_metrics::{
    ActixWebMetrics, ActixWebMetricsBuilder, ActixWebMetricsConfig, ActixWebMetricsExtension,
    LabelsConfig,
};

fn pairs(list: &[(&str, &str)]) -> Vec<(String, String)> {
    list.iter().map(|(k, v)| (k.to_string(), v.to_string())).collect()
}

/// Serves one GET request through the instrumentation and returns its
/// completion and the labels of the gauge increment.
fn serve(
    metrics: &ActixWebMetrics,
    path: &str,
    pattern: Option<&str>,
    params: &[(&str, &str)],
    keep: &[&str],
    status: u16,
    chunks: &[usize],
) -> (Vec<(String, String)>, Option<Completion>) {
    let (mut tracker, started) = metrics.start_request("GET", "http");
    let keep: Vec<String> = keep.iter().map(|s| s.to_string()).collect();
    let labels = RouteLabels::new(path, pattern, &pairs(params), &keep);
    tracker.response_ready(ResponseFacts {
        version: HttpVersion::Http11,
        status,
        labels,
        request_size: 0,
    });
    for c in chunks {
        tracker.chunk(*c);
    }
    let done = metrics.finish(&mut tracker, Ending::BodyEnded);
    assert!(metrics.finish(&mut tracker, Ending::Dropped).is_none());
    assert_eq!(tracker.lifecycle().phase, Phase::Completed);
    (started, done)
}

fn route_of(c: &Completion) -> String {
    c.observation.as_ref().unwrap().labels[0].1.clone()
}

#[test]
fn middleware_basic() {
    let metrics = ActixWebMetricsBuilder::new().build().unwrap();
    let (started, done) = serve(&metrics, "/health_check", Some("/health_check"), &[], &[], 200, &[]);
    let done = done.unwrap();
    assert_eq!(started, pairs(&[("http.request.method", "GET"), ("url.scheme", "http")]));
    assert_eq!(done.gauge_labels, started);
    let obs = done.observation.unwrap();
    assert_eq!(
        obs.labels,
        pairs(&[
            ("http.route", "/health_check"),
            ("http.request.method", "GET"),
            ("http.response.status_code", "200"),
            ("network.protocol.name", "http"),
            ("network.protocol.version", "1.1"),
        ])
    );
    assert_eq!(obs.request_size, 0);
    assert_eq!(obs.response_size, 0);
}

#[test]
fn middleware_http_version() {
    assert_eq!(http_version_label(HttpVersion::Http09), Some("0.9"));
    assert_eq!(http_version_label(HttpVersion::Http10), Some("1.0"));
    assert_eq!(http_version_label(HttpVersion::Http11), Some("1.1"));
    assert_eq!(http_version_label(HttpVersion::Http2), Some("2"));
    assert_eq!(http_version_label(HttpVersion::Http3), Some("3"));
    assert_eq!(http_version_label(HttpVersion::Other), None);
    let metrics = ActixWebMetricsBuilder::new()
        .metrics_config(
            ActixWebMetricsConfig::default().labels(LabelsConfig::default().network_protocol_version("version")),
        )
        .build()
        .unwrap();
    let labels = metrics.observation_labels("/health_check", "GET", 200, HttpVersion::Http2);
    assert_eq!(labels[4], ("version".to_string(), "2".to_string()));
    let labels = metrics.observation_labels("/health_check", "GET", 200, HttpVersion::Other);
    assert_eq!(labels.len(), 4);
}

#[test]
fn middleware_const_labels() {
    let metrics = ActixWebMetricsBuilder::new()
        .const_labels(pairs(&[("label2", "value2"), ("label1", "value1")]))
        .build()
        .unwrap();
    let (started, done) = serve(&metrics, "/health_check", Some("/health_check"), &[], &[], 200, &[]);
    assert_eq!(
        started,
        pairs(&[
            ("http.request.method", "GET"),
            ("url.scheme", "http"),
            ("label1", "value1"),
            ("label2", "value2"),
        ])
    );
    let obs = done.unwrap().observation.unwrap();
    assert_eq!(obs.labels.len(), 7);
    assert_eq!(obs.labels[5], ("label1".to_string(), "value1".to_string()));
    assert_eq!(obs.labels[6], ("label2".to_string(), "value2".to_string()));
}

#[test]
fn const_labels_sort_by_byte_order() {
    let metrics = ActixWebMetricsBuilder::new()
        .const_labels(pairs(&[("b", "1"), ("B", "2"), ("ab", "3"), ("a", "4"), ("é", "5")]))
        .build()
        .unwrap();
    let keys: Vec<&str> = metrics.names.const_labels.iter().map(|(k, _)| k.as_str()).collect();
    assert_eq!(keys, vec!["B", "a", "ab", "b", "é"]);
}

#[test]
fn middleware_metrics_config() {
    let config = ActixWebMetricsConfig::default()
        .http_server_request_duration_name("my_http_request_duration")
        .http_server_active_requests_name("my_http_requests_active")
        .http_server_request_body_size_name("my_request_size")
        .http_server_response_body_size_name("my_response_size")
        .labels(LabelsConfig::default().http_route("endpoint").http_request_method("method")
            .http_response_status_code("status").network_protocol_name("proto").url_scheme("scheme"));
    let metrics = ActixWebMetricsBuilder::new().metrics_config(config).namespace("app").build().unwrap();
    assert_eq!(metrics.names.http_server_request_duration, "app_my_http_request_duration");
    assert_eq!(metrics.names.http_server_active_requests, "app_my_http_requests_active");
    assert_eq!(metrics.names.http_server_request_body_size, "app_my_request_size");
    assert_eq!(metrics.names.http_server_response_body_size, "app_my_response_size");
    let (started, done) = serve(&metrics, "/health_check", Some("/health_check"), &[], &[], 200, &[]);
    assert_eq!(started, pairs(&[("method", "GET"), ("scheme", "http")]));
    let obs = done.unwrap().observation.unwrap();
    assert_eq!(obs.labels[0], ("endpoint".to_string(), "/health_check".to_string()));
    assert_eq!(obs.labels[2], ("status".to_string(), "200".to_string()));
    assert_eq!(obs.labels[3], ("proto".to_string(), "http".to_string()));
}

#[test]
fn default_names_follow_the_conventions() {
    let metrics = ActixWebMetricsBuilder::default().build().unwrap();
    assert_eq!(metrics.names.http_server_request_duration, "http.server.request.duration");
    assert_eq!(metrics.names.http_server_request_body_size, "http.server.request.body.size");
    assert_eq!(metrics.names.http_server_response_body_size, "http.server.response.body.size");
    assert_eq!(metrics.names.http_server_active_requests, "http.server.active_requests");
    assert_eq!(metrics.names.network_protocol_version, "network.protocol.version");
    assert_eq!(metrics.unmatched_patterns_mask, Some("UNKNOWN".to_string()));
}

#[test]
fn middleware_excludes() {
    let metrics = ActixWebMetricsBuilder::new()
        .exclude("/ping")
        .exclude_regex("/readyz/.*")
        .exclude_status(404)
        .build()
        .unwrap();
    let (_, health) = serve(&metrics, "/health_check", Some("/health_check"), &[], &[], 200, &[]);
    assert_eq!(route_of(&health.unwrap()), "/health_check");
    let (_, ping) = serve(&metrics, "/ping", Some("/ping"), &[], &[], 200, &[]);
    let ping = ping.unwrap();
    assert!(ping.observation.is_none());
    assert_eq!(ping.gauge_labels.len(), 2);
    let (_, ready) = serve(
        &metrics,
        "/readyz/database",
        Some("/readyz/{subsystem}"),
        &[("subsystem", "database")],
        &[],
        200,
        &[],
    );
    assert!(ready.unwrap().observation.is_none());
    let (_, missing) = serve(&metrics, "/notfound", None, &[], &[], 404, &[]);
    assert!(missing.unwrap().observation.is_none());
}

#[test]
fn exclusion_applies_to_the_final_label() {
    let metrics = ActixWebMetricsBuilder::new().exclude("UNKNOWN").build().unwrap();
    assert!(!metrics.rules.should_record(&"UNKNOWN".to_string(), 200));
    assert!(metrics.rules.should_record(&"/other".to_string(), 200));
    let (_, missing) = serve(&metrics, "/nowhere", None, &[], &[], 404, &[]);
    assert!(missing.unwrap().observation.is_none());
}

#[test]
fn pattern_rule_matches_anywhere_in_the_label() {
    let metrics = ActixWebMetricsBuilder::new().exclude_regex("^/internal").exclude_regex("debug").build().unwrap();
    assert!(!metrics.rules.should_record(&"/internal/x".to_string(), 200));
    assert!(!metrics.rules.should_record(&"/api/debug/x".to_string(), 200));
    assert!(metrics.rules.should_record(&"/api/internal".to_string(), 200));
}

#[test]
fn invalid_exclude_pattern_fails_the_build() {
    let r = ActixWebMetricsBuilder::new().exclude_regex("(unclosed").build();
    assert_eq!(r.err(), Some(InvalidExcludePattern::Invalid));
}

#[test]
fn middleware_with_size_metrics() {
    let metrics = ActixWebMetricsBuilder::new().build().unwrap();
    let body = "test response";
    let (_, done) = serve(&metrics, "/health_check", Some("/health_check"), &[], &[], 200, &[body.len()]);
    assert_eq!(done.unwrap().observation.unwrap().response_size, 13);
    let (_, done) = serve(&metrics, "/health_check", Some("/health_check"), &[], &[], 200, &[4, 0, 9]);
    assert_eq!(done.unwrap().observation.unwrap().response_size, 13);
}

#[test]
fn handler_failure_gives_a_decrement_without_observations() {
    let metrics = ActixWebMetricsBuilder::new().build().unwrap();
    let (mut tracker, started) = metrics.start_request("POST", "https");
    let done = metrics.finish(&mut tracker, Ending::HandlerFailed).unwrap();
    assert_eq!(done.gauge_labels, started);
    assert!(done.observation.is_none());
    assert!(metrics.finish(&mut tracker, Ending::Dropped).is_none());
}

#[test]
fn matched_but_rejected_request_is_not_masked() {
    let metrics = ActixWebMetricsBuilder::new().build().unwrap();
    let (_, done) = serve(
        &metrics,
        "/resource/invalid/92945",
        Some("/resource/{cheap}/{expensive}"),
        &[("cheap", "invalid"), ("expensive", "92945")],
        &["cheap"],
        404,
        &[],
    );
    assert_eq!(route_of(&done.unwrap()), "/resource/{cheap}/{expensive}");
}

#[test]
fn request_size_comes_from_the_header() {
    assert_eq!(content_length(None), 0);
    assert_eq!(content_length(Some(b"123")), 123);
    assert_eq!(content_length(Some(b"+42")), 42);
    assert_eq!(content_length(Some(b"0")), 0);
    assert_eq!(content_length(Some(b"")), 0);
    assert_eq!(content_length(Some(b"+")), 0);
    assert_eq!(content_length(Some(b"12a")), 0);
    assert_eq!(content_length(Some(b" 12")), 0);
    assert_eq!(content_length(Some(b"-1")), 0);
    assert_eq!(content_length(Some(b"99999999999999999999999999")), 0);
    assert_eq!(content_length(Some(usize::MAX.to_string().as_bytes())), usize::MAX);
}

#[test]
fn status_and_scheme_texts() {
    assert_eq!(status_text(200), "200");
    assert_eq!(status_text(404), "404");
    assert_eq!(status_text(7), "7");
    assert_eq!(status_text(65535), "65535");
    assert_eq!(url_scheme(Some("https")), "https");
    assert_eq!(url_scheme(None), "http");
}

#[test]
fn extension_carries_the_allow_list() {
    let ext = ActixWebMetricsExtension { cardinality_keep_params: vec!["cheap".to_string()] };
    let copy = ext.clone();
    assert_eq!(copy.cardinality_keep_params, vec!["cheap".to_string()]);
}
