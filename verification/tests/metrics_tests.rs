use std::sync::Arc;

use api_gateway::middleware::metrics::{
    format_line, metric_name, publish_metric, publish_outcome, MetricRecord, MetricsMiddleware,
    PublishOutcome, SinkRequest,
};
use api_gateway::text::{decimal_string, signed_decimal_string};

#[test]
fn ordinary_statuses_use_the_request_metric() {
    assert_eq!(metric_name(0), "http_requests_gateway");
    assert_eq!(metric_name(200), "http_requests_gateway");
    assert_eq!(metric_name(302), "http_requests_gateway");
    assert_eq!(metric_name(399), "http_requests_gateway");
    assert_eq!(metric_name(600), "http_requests_gateway");
    assert_eq!(metric_name(u16::MAX), "http_requests_gateway");
}

#[test]
fn client_and_server_errors_use_the_error_metric() {
    assert_eq!(metric_name(400), "error_metric");
    assert_eq!(metric_name(401), "error_metric");
    assert_eq!(metric_name(404), "error_metric");
    assert_eq!(metric_name(499), "error_metric");
    assert_eq!(metric_name(500), "error_metric");
    assert_eq!(metric_name(599), "error_metric");
}

#[test]
fn decimal_rendering_of_unsigned_numbers() {
    assert_eq!(decimal_string(0), "0");
    assert_eq!(decimal_string(7), "7");
    assert_eq!(decimal_string(10), "10");
    assert_eq!(decimal_string(1234567890), "1234567890");
    assert_eq!(decimal_string(u128::MAX), "340282366920938463463374607431768211455");
    assert_eq!(decimal_string(9), "9");
    assert_eq!(decimal_string(100), "100");
}

#[test]
fn decimal_rendering_of_signed_numbers() {
    assert_eq!(signed_decimal_string(0), "0");
    assert_eq!(signed_decimal_string(42), "42");
    assert_eq!(signed_decimal_string(-42), "-42");
    assert_eq!(signed_decimal_string(i64::MAX), "9223372036854775807");
    assert_eq!(signed_decimal_string(i64::MIN), "-9223372036854775808");
}

#[test]
fn line_holds_name_tags_and_field() {
    assert_eq!(
        format_line("http_requests_gateway", "GET", "/products", 200, 12),
        "http_requests_gateway,method=GET,request_path=/products,status=200 response_time=12"
    );
    assert_eq!(format_line("", "", "", 0, 0), ",method=,request_path=,status=0 response_time=0");
}

#[test]
fn publication_addresses_the_write_endpoint() {
    let request = publish_metric(
        "error_metric",
        "POST",
        "/orders",
        "s3cr3t",
        "http://influx:8086",
        "shop",
        "gateway",
        500,
        1500,
    );
    assert_eq!(
        request,
        SinkRequest {
            url: "http://influx:8086/api/v2/write?org=shop&bucket=gateway&precision=ms".to_string(),
            authorization: "Token s3cr3t".to_string(),
            content_type: "text/plain".to_string(),
            body: "error_metric,method=POST,request_path=/orders,status=500 response_time=1500"
                .to_string(),
        }
    );
}

#[test]
fn record_starts_without_status() {
    let record = MetricRecord::start("GET", "/orders");
    assert_eq!(
        record,
        MetricRecord {
            name: "http_requests_gateway".to_string(),
            method: "GET".to_string(),
            path: "/orders".to_string(),
            status: None,
            duration: 0,
        }
    );
    assert_eq!(record.line(), None);
}

#[test]
fn finalized_record_takes_its_name_from_the_status() {
    let ok = MetricRecord::start("GET", "/orders").finalize(200, 31);
    assert_eq!(ok.name, "http_requests_gateway");
    assert_eq!(ok.status, Some(200));
    assert_eq!(ok.duration, 31);
    assert_eq!(
        ok.line(),
        Some("http_requests_gateway,method=GET,request_path=/orders,status=200 response_time=31".to_string())
    );
    let failed = MetricRecord::start("DELETE", "/orders/7").finalize(500, 2);
    assert_eq!(failed.name, "error_metric");
    assert_eq!(failed.method, "DELETE");
    assert_eq!(failed.path, "/orders/7");
    assert_eq!(
        failed.line(),
        Some("error_metric,method=DELETE,request_path=/orders/7,status=500 response_time=2".to_string())
    );
}

#[test]
fn publish_outcome_by_sink_status() {
    assert_eq!(publish_outcome(Some(200)), PublishOutcome::Delivered);
    assert_eq!(publish_outcome(Some(204)), PublishOutcome::Delivered);
    assert_eq!(publish_outcome(Some(299)), PublishOutcome::Delivered);
    assert_eq!(publish_outcome(Some(199)), PublishOutcome::Refused { status: 199 });
    assert_eq!(publish_outcome(Some(300)), PublishOutcome::Refused { status: 300 });
    assert_eq!(publish_outcome(Some(401)), PublishOutcome::Refused { status: 401 });
    assert_eq!(publish_outcome(Some(503)), PublishOutcome::Refused { status: 503 });
    assert_eq!(publish_outcome(None), PublishOutcome::Unreachable);
}

#[test]
fn meter_starts_a_record_and_completes_it_for_the_sink() {
    let publisher = MetricsMiddleware::new(
        Arc::new("tok".to_string()),
        Arc::new("http://sink".to_string()),
        Arc::new("org".to_string()),
        Arc::new("bucket".to_string()),
    );
    assert_eq!(publisher.token.as_str(), "tok");
    assert_eq!(publisher.url.as_str(), "http://sink");
    assert_eq!(publisher.org.as_str(), "org");
    assert_eq!(publisher.bucket.as_str(), "bucket");
    let meter = publisher.new_transform(17u8);
    let (service, record) = meter.call("GET", "/auth/is_admin/7");
    assert_eq!(*service, 17);
    assert_eq!(record.status, None);
    let request = meter.complete(record, 404, 3);
    assert_eq!(
        request,
        SinkRequest {
            url: "http://sink/api/v2/write?org=org&bucket=bucket&precision=ms".to_string(),
            authorization: "Token tok".to_string(),
            content_type: "text/plain".to_string(),
            body: "error_metric,method=GET,request_path=/auth/is_admin/7,status=404 response_time=3"
                .to_string(),
        }
    );
}
