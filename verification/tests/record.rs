use log_shipper::config::Config;
use log_shipper::record::build_otlp_payload;
use log_shipper::record::build_otlp_payload_from;
use log_shipper::record::build_record;
use log_shipper::record::resolve_host_name;
use log_shipper::record::timestamp_text;
use log_shipper::record::AttributeValue;
use log_shipper::record::KeyValue;
use log_shipper::record::OtlpLogRecord;
use log_shipper::record::HOST_NAME_KEY;
use log_shipper::record::LOG_FILE_KEY;
use log_shipper::record::SERVICE_NAME_KEY;
use log_shipper::record::UNKNOWN_HOST;

fn bare_config() -> Config {
    Config {
        log_files: vec!["/var/log/app.log".to_string()],
        endpoint: "http://localhost:4318/v1/logs".to_string(),
        rate_limit: None,
        service_name: None,
        host_name: None,
    }
}

fn pair(kv: &KeyValue) -> (&str, &str) {
    match &kv.value {
        AttributeValue::StringValue { value } => (kv.key.as_str(), value.as_str()),
    }
}

fn assert_one_of_each(record: &OtlpLogRecord) {
    assert_eq!(record.resource_logs.len(), 1);
    assert_eq!(record.resource_logs[0].resource.attributes.len(), 2);
    assert_eq!(record.resource_logs[0].scope_logs.len(), 1);
    assert_eq!(record.resource_logs[0].scope_logs[0].log_records.len(), 1);
    assert_eq!(record.resource_logs[0].scope_logs[0].log_records[0].attributes.len(), 1);
}

#[test]
fn the_attribute_keys_are_as_on_the_wire() {
    assert_eq!(SERVICE_NAME_KEY, "service.name");
    assert_eq!(HOST_NAME_KEY, "host.name");
    assert_eq!(LOG_FILE_KEY, "log.file");
    assert_eq!(UNKNOWN_HOST, "unknown");
}

#[test]
fn a_record_holds_its_seven_parts() {
    let record = build_record(
        "the line",
        "/var/log/x.log",
        "WARN",
        13,
        "svc".to_string(),
        "box".to_string(),
        "1700000000000000000".to_string(),
    );
    assert_one_of_each(&record);
    let resource = &record.resource_logs[0].resource;
    assert_eq!(pair(&resource.attributes[0]), ("service.name", "svc"));
    assert_eq!(pair(&resource.attributes[1]), ("host.name", "box"));
    let log = &record.resource_logs[0].scope_logs[0].log_records[0];
    assert_eq!(log.time_unix_nano, "1700000000000000000");
    assert_eq!(log.severity_text, "WARN");
    assert_eq!(log.severity_number, 13);
    assert_eq!(log.body.string_value, "the line");
    assert_eq!(pair(&log.attributes[0]), ("log.file", "/var/log/x.log"));
}

#[test]
fn an_error_line_yields_an_error_record() {
    let record = build_otlp_payload_from(
        "2024-01-01 ERROR disk full",
        "/var/log/app.log",
        "ERROR",
        17,
        &bare_config(),
        Some("web-1".to_string()),
        Some(1704067200000000000),
    );
    assert_one_of_each(&record);
    let log = &record.resource_logs[0].scope_logs[0].log_records[0];
    assert_eq!(log.severity_text, "ERROR");
    assert_eq!(log.severity_number, 17);
    assert_eq!(log.body.string_value, "2024-01-01 ERROR disk full");
    assert_eq!(pair(&log.attributes[0]), ("log.file", "/var/log/app.log"));
    assert_eq!(log.time_unix_nano, "1704067200000000000");
    let resource = &record.resource_logs[0].resource;
    assert_eq!(pair(&resource.attributes[0]), ("service.name", "rust-signoz-agent"));
    assert_eq!(pair(&resource.attributes[1]), ("host.name", "web-1"));
}

#[test]
fn configured_names_take_precedence() {
    let mut config = bare_config();
    config.service_name = Some("billing".to_string());
    config.host_name = Some("configured-host".to_string());
    let record = build_otlp_payload_from(
        "x",
        "f",
        "INFO",
        12,
        &config,
        Some("detected-host".to_string()),
        Some(5),
    );
    let resource = &record.resource_logs[0].resource;
    assert_eq!(pair(&resource.attributes[0]), ("service.name", "billing"));
    assert_eq!(pair(&resource.attributes[1]), ("host.name", "configured-host"));
}

#[test]
fn the_host_name_falls_back_to_the_system_and_then_to_unknown() {
    let mut config = bare_config();
    assert_eq!(resolve_host_name(&config, Some("detected".to_string())), "detected");
    assert_eq!(resolve_host_name(&config, None), "unknown");
    config.host_name = Some("fixed".to_string());
    assert_eq!(resolve_host_name(&config, Some("detected".to_string())), "fixed");
    assert_eq!(resolve_host_name(&config, None), "fixed");
}

#[test]
fn a_clock_that_cannot_be_represented_reads_zero() {
    assert_eq!(timestamp_text(None), "0");
    let record = build_otlp_payload_from("x", "f", "INFO", 12, &bare_config(), None, None);
    assert_eq!(record.resource_logs[0].scope_logs[0].log_records[0].time_unix_nano, "0");
    assert_eq!(pair(&record.resource_logs[0].resource.attributes[1]), ("host.name", "unknown"));
}

#[test]
fn the_timestamp_is_written_in_decimal() {
    assert_eq!(timestamp_text(Some(0)), "0");
    assert_eq!(timestamp_text(Some(1)), "1");
    assert_eq!(timestamp_text(Some(1704067200123456789)), "1704067200123456789");
    assert_eq!(timestamp_text(Some(-1)), "-1");
    assert_eq!(timestamp_text(Some(i64::MAX)), "9223372036854775807");
}

fn now() -> Option<i64> {
    chrono::Utc::now().timestamp_nanos_opt()
}

#[test]
fn a_payload_carries_the_clock_reading_it_was_given() {
    let clock = now();
    let record = build_otlp_payload("line", "/var/log/app.log", "DEBUG", 8, &bare_config(), clock);
    assert_one_of_each(&record);
    let log = &record.resource_logs[0].scope_logs[0].log_records[0];
    let nanos: i64 = log.time_unix_nano.parse().expect("a decimal timestamp");
    assert_eq!(Some(nanos), clock);
    assert!(nanos > 1_600_000_000_000_000_000);
    assert_eq!(log.severity_text, "DEBUG");
    assert_eq!(log.severity_number, 8);
    assert_eq!(log.body.string_value, "line");
    assert_eq!(pair(&log.attributes[0]), ("log.file", "/var/log/app.log"));
}

#[test]
fn a_payload_for_a_clock_before_the_epoch_has_a_negative_timestamp() {
    let record = build_otlp_payload("line", "f", "INFO", 12, &bare_config(), Some(-1_500_000_000));
    assert_eq!(
        record.resource_logs[0].scope_logs[0].log_records[0].time_unix_nano,
        "-1500000000"
    );
}

#[test]
fn a_payload_for_a_clock_without_reading_has_the_timestamp_zero() {
    let record = build_otlp_payload("line", "f", "INFO", 12, &bare_config(), None);
    assert_eq!(record.resource_logs[0].scope_logs[0].log_records[0].time_unix_nano, "0");
}

#[test]
fn a_payload_names_the_host_of_this_machine() {
    let record = build_otlp_payload("line", "f", "INFO", 12, &bare_config(), Some(1));
    let resource = &record.resource_logs[0].resource;
    assert_eq!(pair(&resource.attributes[0]), ("service.name", "rust-signoz-agent"));
    let detected = match hostname::get() {
        Ok(name) => name.to_string_lossy().to_string(),
        Err(_) => "unknown".to_string(),
    };
    assert_eq!(pair(&resource.attributes[1]), ("host.name", detected.as_str()));
}

#[test]
fn a_configured_host_is_used_without_asking_the_system() {
    let mut config = bare_config();
    config.host_name = Some("edge-7".to_string());
    let record = build_otlp_payload("line", "f", "INFO", 12, &config, Some(1));
    assert_eq!(pair(&record.resource_logs[0].resource.attributes[1]), ("host.name", "edge-7"));
    let same = build_otlp_payload_from("line", "f", "INFO", 12, &config, None, Some(1));
    assert_eq!(
        pair(&same.resource_logs[0].resource.attributes[1]),
        pair(&record.resource_logs[0].resource.attributes[1])
    );
}
