//! The telemetry publisher: one metric record per answered request, written
//! to a time-series sink in line protocol.

use std::sync::Arc;
use vstd::prelude::*;
use crate::text::{decimal, decimal_string};

verus! {

/// The status is a client error (4xx) or a server error (5xx).
pub open spec fn is_error_status(status: u16) -> bool {
    400 <= status < 600
}

/// The name under which ordinary requests are counted.
pub open spec fn request_metric() -> Seq<char> {
    "http_requests_gateway"@
}

/// The name under which requests that ended in an error status are counted.
pub open spec fn error_metric() -> Seq<char> {
    "error_metric"@
}

/// The metric name for a response status.
pub open spec fn metric_name_of(status: u16) -> Seq<char> {
    if is_error_status(status) {
        error_metric()
    } else {
        request_metric()
    }
}

/// Selects the metric name for a response status: the error metric for 4xx
/// and 5xx, the ordinary one otherwise.
pub fn metric_name(status: u16) -> (name: &'static str)
    ensures
        name@ == metric_name_of(status),
{
    if 400 <= status && status < 600 {
        "error_metric"
    } else {
        "http_requests_gateway"
    }
}

/// A metric record as a mathematical value.
pub struct MetricView {
    pub name: Seq<char>,
    pub method: Seq<char>,
    pub path: Seq<char>,
    pub status: Option<u16>,
    pub duration: u128,
}

/// The measurement of one request: created when the request starts, finalized
/// when its response status is known. The duration is in milliseconds.
#[derive(Debug, PartialEq, Eq)]
pub struct MetricRecord {
    pub name: String,
    pub method: String,
    pub path: String,
    pub status: Option<u16>,
    pub duration: u128,
}

impl View for MetricRecord {
    type V = MetricView;

    open spec fn view(&self) -> MetricView {
        MetricView {
            name: self.name@,
            method: self.method@,
            path: self.path@,
            status: self.status,
            duration: self.duration,
        }
    }
}

/// The record of a request that has started and has no status yet.
pub open spec fn started(method: Seq<char>, path: Seq<char>) -> MetricView {
    MetricView { name: request_metric(), method, path, status: None, duration: 0 }
}

/// A line of the sink's protocol: the metric name, the tags, a space, and the
/// field.
pub open spec fn line_text(
    name: Seq<char>,
    method: Seq<char>,
    path: Seq<char>,
    status: u16,
    duration: u128,
) -> Seq<char> {
    name + ",method="@ + method + ",request_path="@ + path + ",status="@ + decimal(status as nat)
        + " response_time="@ + decimal(duration as nat)
}

impl MetricView {
    /// The record once the response status and the elapsed time are known.
    pub open spec fn finalized(self, status: u16, duration: u128) -> MetricView {
        MetricView {
            name: metric_name_of(status),
            method: self.method,
            path: self.path,
            status: Some(status),
            duration,
        }
    }

    /// The line that publishes the record; a record without a status has none.
    pub open spec fn line(self) -> Option<Seq<char>> {
        match self.status {
            Some(status) => Some(
                line_text(self.name, self.method, self.path, status, self.duration),
            ),
            None => None,
        }
    }
}

/// Builds a line of the sink's protocol.
pub fn format_line(name: &str, method: &str, path: &str, status: u16, duration: u128) -> (line:
    String)
    ensures
        line@ == line_text(name@, method@, path@, status, duration),
{
    let mut line = String::from_str(name);
    line.append(",method=");
    line.append(method);
    line.append(",request_path=");
    line.append(path);
    line.append(",status=");
    line.append(decimal_string(status as u128).as_str());
    line.append(" response_time=");
    line.append(decimal_string(duration).as_str());
    line
}

impl MetricRecord {
    /// Starts the record of a request.
    pub fn start(method: &str, path: &str) -> (record: MetricRecord)
        ensures
            record@ == started(method@, path@),
    {
        MetricRecord {
            name: String::from_str("http_requests_gateway"),
            method: String::from_str(method),
            path: String::from_str(path),
            status: None,
            duration: 0,
        }
    }

    /// Finalizes the record with the response status and the elapsed
    /// milliseconds; the status selects the metric name.
    pub fn finalize(self, status: u16, duration: u128) -> (record: MetricRecord)
        ensures
            record@ == self@.finalized(status, duration),
    {
        MetricRecord {
            name: String::from_str(metric_name(status)),
            method: self.method,
            path: self.path,
            status: Some(status),
            duration,
        }
    }

    /// The line that publishes the record, once it is finalized.
    pub fn line(&self) -> (line: Option<String>)
        ensures
            match line {
                Some(text) => self@.line() == Some(text@),
                None => self@.line() is None,
            },
    {
        match self.status {
            Some(status) => Some(
                format_line(
                    self.name.as_str(),
                    self.method.as_str(),
                    self.path.as_str(),
                    status,
                    self.duration,
                ),
            ),
            None => None,
        }
    }
}

/// The write endpoint of a sink at `url` for an organization and a bucket,
/// with millisecond precision.
pub open spec fn write_url_text(url: Seq<char>, org: Seq<char>, bucket: Seq<char>) -> Seq<char> {
    url + "/api/v2/write?org="@ + org + "&bucket="@ + bucket + "&precision=ms"@
}

/// The value of the `Authorization` header that the sink expects.
pub open spec fn token_header_text(token: Seq<char>) -> Seq<char> {
    "Token "@ + token
}

/// An HTTP POST to the sink as a mathematical value.
pub struct SinkRequestView {
    pub url: Seq<char>,
    pub authorization: Seq<char>,
    pub content_type: Seq<char>,
    pub body: Seq<char>,
}

/// An HTTP POST that writes one line to the sink.
#[derive(Debug, Clone, PartialEq, Eq)]
pub struct SinkRequest {
    pub url: String,
    pub authorization: String,
    pub content_type: String,
    pub body: String,
}

impl View for SinkRequest {
    type V = SinkRequestView;

    open spec fn view(&self) -> SinkRequestView {
        SinkRequestView {
            url: self.url@,
            authorization: self.authorization@,
            content_type: self.content_type@,
            body: self.body@,
        }
    }
}

/// The POST that publishes one measurement.
pub open spec fn publication(
    metric_name: Seq<char>,
    method: Seq<char>,
    path: Seq<char>,
    token: Seq<char>,
    url: Seq<char>,
    org: Seq<char>,
    bucket: Seq<char>,
    status_code: u16,
    duration: u128,
) -> SinkRequestView {
    SinkRequestView {
        url: write_url_text(url, org, bucket),
        authorization: token_header_text(token),
        content_type: "text/plain"@,
        body: line_text(metric_name, method, path, status_code, duration),
    }
}

/// Builds the POST that publishes one measurement to the sink.
pub fn publish_metric(
    metric_name: &str,
    method: &str,
    path: &str,
    token: &str,
    url: &str,
    org: &str,
    bucket: &str,
    status_code: u16,
    duration: u128,
) -> (request: SinkRequest)
    ensures
        request@ == publication(
            metric_name@,
            method@,
            path@,
            token@,
            url@,
            org@,
            bucket@,
            status_code,
            duration,
        ),
{
    let mut write_url = String::from_str(url);
    write_url.append("/api/v2/write?org=");
    write_url.append(org);
    write_url.append("&bucket=");
    write_url.append(bucket);
    write_url.append("&precision=ms");
    SinkRequest {
        url: write_url,
        authorization: String::from_str("Token ").concat(token),
        content_type: String::from_str("text/plain"),
        body: format_line(metric_name, method, path, status_code, duration),
    }
}

/// How a publish attempt ended.
#[derive(Debug, Clone, Copy, PartialEq, Eq, Structural)]
pub enum PublishOutcome {
    /// The sink accepted the line.
    Delivered,
    /// The sink answered with a status outside 2xx.
    Refused { status: u16 },
    /// The sink could not be reached.
    Unreachable,
}

/// The outcome of a publish attempt: the sink's status if it answered.
pub open spec fn outcome_of(answer: Option<u16>) -> PublishOutcome {
    match answer {
        Some(status) => if 200 <= status < 300 {
            PublishOutcome::Delivered
        } else {
            PublishOutcome::Refused { status }
        },
        None => PublishOutcome::Unreachable,
    }
}

/// Classifies the end of a publish attempt by the sink's status, if it
/// answered at all.
pub fn publish_outcome(answer: Option<u16>) -> (outcome: PublishOutcome)
    ensures
        outcome == outcome_of(answer),
{
    match answer {
        Some(status) => if 200 <= status && status < 300 {
            PublishOutcome::Delivered
        } else {
            PublishOutcome::Refused { status }
        },
        None => PublishOutcome::Unreachable,
    }
}

/// The telemetry publisher of a route, configured with the sink's token,
/// address, organization and bucket.
pub struct MetricsMiddleware {
    pub token: Arc<String>,
    pub url: Arc<String>,
    pub org: Arc<String>,
    pub bucket: Arc<String>,
}

/// The sink settings as a mathematical value.
pub struct SinkView {
    pub token: Seq<char>,
    pub url: Seq<char>,
    pub org: Seq<char>,
    pub bucket: Seq<char>,
}

impl View for MetricsMiddleware {
    type V = SinkView;

    open spec fn view(&self) -> SinkView {
        SinkView { token: self.token@, url: self.url@, org: self.org@, bucket: self.bucket@ }
    }
}

impl MetricsMiddleware {
    /// A publisher for the given sink.
    pub fn new(token: Arc<String>, url: Arc<String>, org: Arc<String>, bucket: Arc<String>) -> (publisher:
        Self)
        ensures
            publisher.token == token,
            publisher.url == url,
            publisher.org == org,
            publisher.bucket == bucket,
    {
        MetricsMiddleware { token, url, org, bucket }
    }

    /// Wraps `service`: each call through the result starts a record.
    pub fn new_transform<S>(&self, service: S) -> (meter: MetricsMiddlewareService<S>)
        ensures
            meter.service() == service,
            meter.sink() == self@,
    {
        MetricsMiddlewareService {
            service,
            token: Arc::clone(&self.token),
            url: Arc::clone(&self.url),
            org: Arc::clone(&self.org),
            bucket: Arc::clone(&self.bucket),
        }
    }
}

/// A service behind the telemetry publisher.
pub struct MetricsMiddlewareService<S> {
    service: S,
    token: Arc<String>,
    url: Arc<String>,
    org: Arc<String>,
    bucket: Arc<String>,
}

impl SinkView {
    /// The POST that publishes a finalized record to this sink; a record
    /// without a status has none.
    pub open spec fn publication_of(self, record: MetricView) -> Option<SinkRequestView> {
        match record.status {
            Some(status) => Some(
                publication(
                    record.name,
                    record.method,
                    record.path,
                    self.token,
                    self.url,
                    self.org,
                    self.bucket,
                    status,
                    record.duration,
                ),
            ),
            None => None,
        }
    }
}

impl<S> MetricsMiddlewareService<S> {
    /// The wrapped service.
    pub closed spec fn service(&self) -> S {
        self.service
    }

    /// The sink that records are published to.
    pub closed spec fn sink(&self) -> SinkView {
        SinkView { token: self.token@, url: self.url@, org: self.org@, bucket: self.bucket@ }
    }

    /// Starts the measurement of a request and hands out the wrapped service.
    pub fn call(&self, method: &str, path: &str) -> (r: (&S, MetricRecord))
        ensures
            *r.0 == self.service(),
            r.1@ == started(method@, path@),
    {
        (&self.service, MetricRecord::start(method, path))
    }

    /// Ends the measurement of a request: finalizes its record with the
    /// response status and the elapsed milliseconds, and builds the POST that
    /// publishes it.
    pub fn complete(&self, record: MetricRecord, status: u16, duration: u128) -> (request:
        SinkRequest)
        ensures
            Some(request@) == self.sink().publication_of(record@.finalized(status, duration)),
    {
        let record = record.finalize(status, duration);
        publish_metric(
            record.name.as_str(),
            record.method.as_str(),
            record.path.as_str(),
            self.token.as_str(),
            self.url.as_str(),
            self.org.as_str(),
            self.bucket.as_str(),
            status,
            duration,
        )
    }
}

} // verus!
