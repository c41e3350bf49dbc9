use geyser_bridge::config::{MetricsConfigWrapper, YellowstoneGrpc, YellowstoneGrpcConfig};
use geyser_bridge::filter::FilterSpec;
use geyser_bridge::json::JsonValue;
use geyser_bridge::metrics::{metric_payload, Metrics, MetricsConfig, MetricsReporter};

#[test]
fn counters_start_at_zero_and_count_independently() {
    let mut m = Metrics::new();
    assert_eq!(m.transactions(), 0);
    assert_eq!(m.accounts(), 0);
    assert_eq!(m.errors(), 0);
    m.increment_transactions();
    m.increment_transactions();
    m.increment_accounts();
    m.increment_errors();
    m.increment_errors();
    m.increment_errors();
    assert_eq!(m.transactions(), 2);
    assert_eq!(m.accounts(), 1);
    assert_eq!(m.errors(), 3);
}

#[test]
fn reporter_deltas_over_a_counter_sequence() {
    // counter sequence 0 -> 5 -> 5 -> 12 sampled at three ticks
    let mut r = MetricsReporter::new(MetricsConfig::default());
    let (d1, _, _) = r.tick(5, 0, 0);
    let (d2, _, _) = r.tick(5, 0, 0);
    let (d3, _, _) = r.tick(12, 0, 0);
    assert_eq!((d1, d2, d3), (5, 0, 7));
}

#[test]
fn reporter_delta_after_counter_reset() {
    let mut r = MetricsReporter::new(MetricsConfig::default());
    r.tick(12, 12, 12);
    // the counters moved backwards: report the current value, no underflow
    let (dt, da, de) = r.tick(3, 0, 12);
    assert_eq!((dt, da, de), (3, 0, 0));
}

#[test]
fn reporter_interval_is_floor_clamped() {
    let mut c = MetricsConfig::default();
    c.interval = 3;
    assert_eq!(MetricsReporter::new(c).effective_interval(), 10);
    let mut c2 = MetricsConfig::default();
    c2.interval = 60;
    assert_eq!(MetricsReporter::new(c2).effective_interval(), 60);
}

#[test]
fn metric_payload_shape() {
    let v = metric_payload("yellowstone_errors", 7, "2024-01-01 00:00:00 UTC");
    let f = match v {
        JsonValue::Object(f) => f,
        other => panic!("expected an object, got {:?}", other),
    };
    assert_eq!(f.len(), 3);
    assert_eq!(f[0], ("dt".to_string(), JsonValue::Text("2024-01-01 00:00:00 UTC".to_string())));
    assert_eq!(f[1], ("name".to_string(), JsonValue::Text("yellowstone_errors".to_string())));
    assert_eq!(
        f[2],
        (
            "gauge".to_string(),
            JsonValue::Object(vec![("value".to_string(), JsonValue::UInt(7))])
        )
    );
}

fn payload_name(p: &JsonValue) -> String {
    match p {
        JsonValue::Object(f) => match &f[1].1 {
            JsonValue::Text(t) => t.clone(),
            other => panic!("expected text, got {:?}", other),
        },
        other => panic!("expected an object, got {:?}", other),
    }
}

fn payload_value(p: &JsonValue) -> u64 {
    match p {
        JsonValue::Object(f) => match &f[2].1 {
            JsonValue::Object(g) => match g[0].1 {
                JsonValue::UInt(v) => v,
                ref other => panic!("expected a number, got {:?}", other),
            },
            other => panic!("expected a gauge object, got {:?}", other),
        },
        other => panic!("expected an object, got {:?}", other),
    }
}

#[test]
fn tick_payloads_reports_all_three_counters() {
    let mut r = MetricsReporter::new(MetricsConfig::default());
    let v = r.tick_payloads(5, 2, 1, "t0");
    assert_eq!(v.len(), 3);
    assert_eq!(payload_name(&v[0]), "yellowstone_processed_transactions");
    assert_eq!(payload_name(&v[1]), "yellowstone_processed_accounts");
    assert_eq!(payload_name(&v[2]), "yellowstone_errors");
    assert_eq!(payload_value(&v[0]), 5);
    assert_eq!(payload_value(&v[1]), 2);
    assert_eq!(payload_value(&v[2]), 1);
}

fn config_with_metrics(metrics: Option<MetricsConfigWrapper>) -> YellowstoneGrpcConfig {
    YellowstoneGrpcConfig {
        yellowstone_grpc: YellowstoneGrpc {
            endpoint: "http://feed.example".to_string(),
            x_token: None,
            max_decoding_message_size: 1024,
            commitment: None,
            filters: FilterSpec::default(),
            format: "json".to_string(),
            metrics,
            topic_name: "updates".to_string(),
        },
    }
}

#[test]
fn metrics_config_defaults_when_absent() {
    let c = config_with_metrics(None).get_metrics_config();
    assert!(!c.enabled);
    assert_eq!(c.api_token, "");
    assert_eq!(c.endpoint, "https://s1231159.eu-nbg-2.betterstackdata.com/metrics");
    assert_eq!(c.interval, 10);
}

#[test]
fn metrics_config_merges_partial_block() {
    let c = config_with_metrics(Some(MetricsConfigWrapper {
        enabled: Some(true),
        api_token: Some("SECRET-REDACTED".to_string()),
        endpoint: None,
        interval: Some(30),
    }))
    .get_metrics_config();
    assert!(c.enabled);
    assert_eq!(c.api_token, "SECRET-REDACTED");
    assert_eq!(c.endpoint, "https://s1231159.eu-nbg-2.betterstackdata.com/metrics");
    assert_eq!(c.interval, 30);
}
