use metrics_core::export::{
    influx_payload, influx_write_url, plan_write, prometheus_payload, pushgateway_write_url,
    sanitize_metric_name, write_outcome, WriteResponse,
};
use metrics_core::model::{DbBackend, Metric};

fn metric(name: &str, value: &str, labels: &[(&str, &str)], ts: i64) -> Metric {
    Metric {
        name: name.to_string(),
        value: value.to_string(),
        labels: labels.iter().map(|(k, v)| (k.to_string(), v.to_string())).collect(),
        timestamp_ms: ts,
    }
}

fn influx() -> DbBackend {
    DbBackend::InfluxDb {
        url: "http://influx:8086//".to_string(),
        token: "secret".to_string(),
        org: "home".to_string(),
        bucket: "metrics".to_string(),
    }
}

fn pushgateway(token: Option<&str>) -> DbBackend {
    DbBackend::PrometheusPushgateway {
        url: "http://pg:9091/".to_string(),
        job: "metrics".to_string(),
        token: token.map(|t| t.to_string()),
    }
}

#[test]
fn influx_line_protocol_with_labels() {
    let ms = vec![
        metric("zfs_pool_size_bytes", "4398046511104", &[("pool", "tank")], 1700000000000),
        metric("system_cpu_usage", "12.5", &[], -5),
    ];
    assert_eq!(
        influx_payload(&ms),
        "zfs_pool_size_bytes,pool=tank value=4398046511104 1700000000000\nsystem_cpu_usage value=12.5 -5\n"
    );
}

#[test]
fn influx_empty_body() {
    assert_eq!(influx_payload(&vec![]), "");
}

#[test]
fn prometheus_text_format() {
    let ms = vec![
        metric("disk.used-bytes", "7", &[("mount_point", "/"), ("dev", "sda")], 0),
        metric("up", "1", &[], 0),
    ];
    assert_eq!(
        prometheus_payload(&ms),
        "# TYPE disk_used_bytes gauge\ndisk_used_bytes{mount_point=\"/\",dev=\"sda\"} 7\n# TYPE up gauge\nup 1\n"
    );
}

#[test]
fn sanitize_replaces_invalid_characters() {
    assert_eq!(sanitize_metric_name("a.b-c d_e9"), "a_b_c_d_e9");
    assert_eq!(sanitize_metric_name("température"), "température");
}

#[test]
fn sanitize_is_idempotent() {
    let once = sanitize_metric_name("x/y:z€");
    assert_eq!(once, "x_y_z_");
    assert_eq!(sanitize_metric_name(&once), once);
}

#[test]
fn endpoints_drop_trailing_slashes() {
    assert_eq!(
        influx_write_url("http://h:8086///", "o", "b"),
        "http://h:8086/api/v2/write?org=o&bucket=b&precision=ms"
    );
    assert_eq!(pushgateway_write_url("http://pg/", "j"), "http://pg/metrics/job/j");
    assert_eq!(pushgateway_write_url("http://pg", "j"), "http://pg/metrics/job/j");
}

#[test]
fn no_request_without_metrics() {
    assert!(plan_write(&influx(), &vec![]).is_none());
    assert!(plan_write(&pushgateway(None), &vec![]).is_none());
}

#[test]
fn influx_request() {
    let ms = vec![metric("m", "1", &[], 2)];
    let r = plan_write(&influx(), &ms).unwrap();
    assert_eq!(r.url, "http://influx:8086/api/v2/write?org=home&bucket=metrics&precision=ms");
    assert_eq!(r.body, "m value=1 2\n");
    assert_eq!(
        r.headers,
        vec![
            ("Authorization".to_string(), "Token secret".to_string()),
            ("Content-Type".to_string(), "text/plain; charset=utf-8".to_string()),
        ]
    );
}

#[test]
fn pushgateway_request_with_and_without_token() {
    let ms = vec![metric("m", "1", &[], 2)];
    let r = plan_write(&pushgateway(Some("tok")), &ms).unwrap();
    assert_eq!(r.url, "http://pg:9091/metrics/job/metrics");
    assert_eq!(r.body, "# TYPE m gauge\nm 1\n");
    assert_eq!(
        r.headers,
        vec![
            ("Content-Type".to_string(), "text/plain; version=0.0.4; charset=utf-8".to_string()),
            ("Authorization".to_string(), "Bearer tok".to_string()),
        ]
    );
    let r = plan_write(&pushgateway(None), &ms).unwrap();
    assert_eq!(r.headers.len(), 1);
}

#[test]
fn write_outcomes() {
    let ok = WriteResponse::Answered { success: true, body: String::new() };
    assert_eq!(write_outcome(&influx(), "u", &ok), Ok(()));
    let refused = WriteResponse::Answered { success: false, body: "bad token".to_string() };
    assert_eq!(
        write_outcome(&influx(), "http://x/api", &refused),
        Err("InfluxDB write failed (http://x/api): bad token".to_string())
    );
    let down = WriteResponse::SendFailed("connection refused".to_string());
    assert_eq!(
        write_outcome(&pushgateway(None), "u", &down),
        Err("Prometheus Pushgateway request failed: connection refused".to_string())
    );
    assert_eq!(
        write_outcome(&pushgateway(None), "http://pg/metrics/job/j", &refused),
        Err("Prometheus Pushgateway write failed (http://pg/metrics/job/j): bad token".to_string())
    );
}
