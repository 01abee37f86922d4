//! The telemetry record sent to the collector: one resource segment, one
//! scope, one log record.

use vstd::prelude::*;
use crate::config::{Config, ConfigView, resolve_service_name, service_name_of};
use crate::platform::os_host_name;
use crate::text::{decimal, decimal_string};

verus! {

/// Host name reported when neither the configuration nor the system gives one.
pub const UNKNOWN_HOST: &'static str = "unknown";

/// Attribute key of the service name.
pub const SERVICE_NAME_KEY: &'static str = "service.name";

/// Attribute key of the host name.
pub const HOST_NAME_KEY: &'static str = "host.name";

/// Attribute key of the source file.
pub const LOG_FILE_KEY: &'static str = "log.file";

/// The value of an attribute. Only strings occur.
pub enum AttributeValue {
    StringValue { value: String },
}

/// A keyed attribute.
pub struct KeyValue {
    pub key: String,
    pub value: AttributeValue,
}

/// The body of a log record.
pub struct LogBody {
    pub string_value: String,
}

/// One log event.
pub struct LogRecord {
    pub time_unix_nano: String,
    pub severity_text: String,
    pub severity_number: u8,
    pub body: LogBody,
    pub attributes: Vec<KeyValue>,
}

/// The log records of one scope.
pub struct ScopeLog {
    pub log_records: Vec<LogRecord>,
}

/// What produced the records.
pub struct Resource {
    pub attributes: Vec<KeyValue>,
}

/// A resource with the records it produced.
pub struct ResourceLog {
    pub resource: Resource,
    pub scope_logs: Vec<ScopeLog>,
}

/// The payload of one delivery.
pub struct OtlpLogRecord {
    pub resource_logs: Vec<ResourceLog>,
}

/// An attribute as a pair of texts.
pub struct AttributeView {
    pub key: Seq<char>,
    pub value: Seq<char>,
}

/// The content of a `LogRecord`.
pub struct LogRecordView {
    pub time_unix_nano: Seq<char>,
    pub severity_text: Seq<char>,
    pub severity_number: u8,
    pub body: Seq<char>,
    pub attributes: Seq<AttributeView>,
}

/// The content of a `ResourceLog`: the resource's attributes, and the
/// records of each scope.
pub struct ResourceLogView {
    pub resource: Seq<AttributeView>,
    pub scope_logs: Seq<Seq<LogRecordView>>,
}

impl View for AttributeValue {
    type V = Seq<char>;

    open spec fn view(&self) -> Seq<char> {
        match self {
            AttributeValue::StringValue { value } => value@,
        }
    }
}

impl View for KeyValue {
    type V = AttributeView;

    open spec fn view(&self) -> AttributeView {
        AttributeView { key: self.key@, value: self.value@ }
    }
}

impl View for LogBody {
    type V = Seq<char>;

    open spec fn view(&self) -> Seq<char> {
        self.string_value@
    }
}

impl View for LogRecord {
    type V = LogRecordView;

    open spec fn view(&self) -> LogRecordView {
        LogRecordView {
            time_unix_nano: self.time_unix_nano@,
            severity_text: self.severity_text@,
            severity_number: self.severity_number,
            body: self.body@,
            attributes: Seq::new(self.attributes@.len(), |i: int| self.attributes@[i]@),
        }
    }
}

impl View for ScopeLog {
    type V = Seq<LogRecordView>;

    open spec fn view(&self) -> Seq<LogRecordView> {
        Seq::new(self.log_records@.len(), |i: int| self.log_records@[i]@)
    }
}

impl View for Resource {
    type V = Seq<AttributeView>;

    open spec fn view(&self) -> Seq<AttributeView> {
        Seq::new(self.attributes@.len(), |i: int| self.attributes@[i]@)
    }
}

impl View for ResourceLog {
    type V = ResourceLogView;

    open spec fn view(&self) -> ResourceLogView {
        ResourceLogView {
            resource: self.resource@,
            scope_logs: Seq::new(self.scope_logs@.len(), |i: int| self.scope_logs@[i]@),
        }
    }
}

impl View for OtlpLogRecord {
    type V = Seq<ResourceLogView>;

    open spec fn view(&self) -> Seq<ResourceLogView> {
        Seq::new(self.resource_logs@.len(), |i: int| self.resource_logs@[i]@)
    }
}

/// The record for one line: the resource names the service and the host, the
/// single log record carries the time, the severity, the line as its body and
/// the source file as its only attribute.
pub open spec fn telemetry_record(
    line: Seq<char>,
    file: Seq<char>,
    severity_text: Seq<char>,
    severity_number: u8,
    service_name: Seq<char>,
    host_name: Seq<char>,
    time_unix_nano: Seq<char>,
) -> Seq<ResourceLogView> {
    seq![
        ResourceLogView {
            resource: seq![
                AttributeView { key: SERVICE_NAME_KEY@, value: service_name },
                AttributeView { key: HOST_NAME_KEY@, value: host_name },
            ],
            scope_logs: seq![
                seq![
                    LogRecordView {
                        time_unix_nano,
                        severity_text,
                        severity_number,
                        body: line,
                        attributes: seq![AttributeView { key: LOG_FILE_KEY@, value: file }],
                    },
                ],
            ],
        },
    ]
}

/// The host name a record carries: the configured one, else the one the
/// system reported, else `UNKNOWN_HOST`.
pub open spec fn host_name_of(config: ConfigView, detected: Option<Seq<char>>) -> Seq<char> {
    match config.host_name {
        Some(name) => name,
        None => match detected {
            Some(name) => name,
            None => UNKNOWN_HOST@,
        },
    }
}

/// The timestamp a record carries for a clock reading: the reading itself,
/// or 0 when the clock gave none.
pub open spec fn timestamp_of(clock: Option<i64>) -> int {
    match clock {
        Some(nanos) => nanos as int,
        None => 0,
    }
}

/// The payload for one line under `config`, given what the system reported
/// as its host name and its clock.
pub open spec fn payload_of(
    line: Seq<char>,
    file: Seq<char>,
    severity_text: Seq<char>,
    severity_number: u8,
    config: ConfigView,
    detected_host: Option<Seq<char>>,
    clock: Option<i64>,
) -> Seq<ResourceLogView> {
    telemetry_record(
        line,
        file,
        severity_text,
        severity_number,
        service_name_of(config),
        host_name_of(config, detected_host),
        decimal(timestamp_of(clock)),
    )
}

fn string_attribute(key: &str, value: String) -> (kv: KeyValue)
    ensures
        kv@ == (AttributeView { key: key@, value: value@ }),
{
    KeyValue { key: key.to_owned(), value: AttributeValue::StringValue { value } }
}

/// Assembles the record from its seven parts.
pub fn build_record(
    line: &str,
    file: &str,
    severity_text: &str,
    severity_number: u8,
    service_name: String,
    host_name: String,
    time_unix_nano: String,
) -> (record: OtlpLogRecord)
    ensures
        record@ == telemetry_record(
            line@,
            file@,
            severity_text@,
            severity_number,
            service_name@,
            host_name@,
            time_unix_nano@,
        ),
{
    let mut resource_attributes: Vec<KeyValue> = Vec::new();
    resource_attributes.push(string_attribute(SERVICE_NAME_KEY, service_name));
    resource_attributes.push(string_attribute(HOST_NAME_KEY, host_name));
    let resource = Resource { attributes: resource_attributes };

    let mut record_attributes: Vec<KeyValue> = Vec::new();
    record_attributes.push(string_attribute(LOG_FILE_KEY, file.to_owned()));
    let log_record = LogRecord {
        time_unix_nano,
        severity_text: severity_text.to_owned(),
        severity_number,
        body: LogBody { string_value: line.to_owned() },
        attributes: record_attributes,
    };
    let mut log_records: Vec<LogRecord> = Vec::new();
    log_records.push(log_record);
    let mut scope_logs: Vec<ScopeLog> = Vec::new();
    scope_logs.push(ScopeLog { log_records });
    let mut resource_logs: Vec<ResourceLog> = Vec::new();
    resource_logs.push(ResourceLog { resource, scope_logs });
    let record = OtlpLogRecord { resource_logs };
    proof {
        let want = telemetry_record(
            line@,
            file@,
            severity_text@,
            severity_number,
            service_name@,
            host_name@,
            time_unix_nano@,
        );
        let got = record@;
        assert(got.len() == 1);
        assert(got[0].resource =~= want[0].resource);
        assert(got[0].scope_logs.len() == 1);
        assert(got[0].scope_logs[0].len() == 1);
        assert(got[0].scope_logs[0][0].attributes =~= want[0].scope_logs[0][0].attributes);
        assert(got[0].scope_logs[0] =~= want[0].scope_logs[0]);
        assert(got[0].scope_logs =~= want[0].scope_logs);
        assert(got =~= want);
    }
    record
}

/// The host name to report: the configured one, else `detected`, else
/// `UNKNOWN_HOST`.
pub fn resolve_host_name(config: &Config, detected: Option<String>) -> (name: String)
    ensures
        name@ == host_name_of(config@, detected.deep_view()),
{
    match &config.host_name {
        Some(name) => name.clone(),
        None => match detected {
            Some(name) => name,
            None => UNKNOWN_HOST.to_owned(),
        },
    }
}

/// The timestamp field for a clock reading, in decimal.
pub fn timestamp_text(clock: Option<i64>) -> (text: String)
    ensures
        text@ == decimal(timestamp_of(clock)),
{
    match clock {
        Some(nanos) => decimal_string(nanos),
        None => decimal_string(0),
    }
}

/// Builds the payload for one line from what the system reported: the
/// detected host name, if it was asked for and answered, and the clock
/// reading in nanoseconds since the Unix epoch, if it can be represented.
pub fn build_otlp_payload_from(
    line: &str,
    file: &str,
    severity_text: &str,
    severity_number: u8,
    config: &Config,
    detected_host: Option<String>,
    clock: Option<i64>,
) -> (record: OtlpLogRecord)
    ensures
        record@ == payload_of(
            line@,
            file@,
            severity_text@,
            severity_number,
            config@,
            detected_host.deep_view(),
            clock,
        ),
{
    let service_name = resolve_service_name(config);
    let host_name = resolve_host_name(config, detected_host);
    let time_unix_nano = timestamp_text(clock);
    build_record(
        line,
        file,
        severity_text,
        severity_number,
        service_name,
        host_name,
        time_unix_nano,
    )
}

/// Builds the payload for one line at the time `clock`, the reading of the
/// wall clock in nanoseconds since the Unix epoch, or `None` when that
/// reading cannot be represented. The system is asked for its host name,
/// and only when the configuration names none; whatever it answers, the
/// record is the one `payload_of` gives for that answer and this clock.
pub fn build_otlp_payload(
    line: &str,
    file: &str,
    severity_text: &str,
    severity_number: u8,
    config: &Config,
    clock: Option<i64>,
) -> (record: OtlpLogRecord)
    ensures
        exists|detected_host: Option<Seq<char>>|
            record@ == #[trigger] payload_of(
                line@,
                file@,
                severity_text@,
                severity_number,
                config@,
                detected_host,
                clock,
            ),
        config@.host_name is Some ==> record@ == payload_of(
            line@,
            file@,
            severity_text@,
            severity_number,
            config@,
            None,
            clock,
        ),
{
    let detected_host = match &config.host_name {
        Some(_) => None,
        None => os_host_name(),
    };
    let ghost host_text = detected_host.deep_view();
    let record = build_otlp_payload_from(
        line,
        file,
        severity_text,
        severity_number,
        config,
        detected_host,
        clock,
    );
    assert(record@ == payload_of(
        line@,
        file@,
        severity_text@,
        severity_number,
        config@,
        host_text,
        clock,
    ));
    record
}

/// A payload holds exactly one resource with its two attributes, one scope
/// and one log record. The record's body is the line, its only attribute is
/// the source file, and it carries the severity it was given.
pub proof fn lemma_one_log_record_per_line(
    line: Seq<char>,
    file: Seq<char>,
    severity_text: Seq<char>,
    severity_number: u8,
    config: ConfigView,
    detected_host: Option<Seq<char>>,
    clock: Option<i64>,
)
    ensures
        ({
            let payload = payload_of(
                line,
                file,
                severity_text,
                severity_number,
                config,
                detected_host,
                clock,
            );
            &&& payload.len() == 1
            &&& payload[0].resource.len() == 2
            &&& payload[0].resource[0].key == SERVICE_NAME_KEY@
            &&& payload[0].resource[1].key == HOST_NAME_KEY@
            &&& payload[0].scope_logs.len() == 1
            &&& payload[0].scope_logs[0].len() == 1
            &&& payload[0].scope_logs[0][0].body == line
            &&& payload[0].scope_logs[0][0].severity_text == severity_text
            &&& payload[0].scope_logs[0][0].severity_number == severity_number
            &&& payload[0].scope_logs[0][0].attributes == seq![
                AttributeView { key: LOG_FILE_KEY@, value: file },
            ]
        }),
{
}

/// A configured host name is reported whatever the system says, and a
/// configured service name whatever else.
pub proof fn lemma_configured_names_win(
    config: ConfigView,
    detected_host: Option<Seq<char>>,
    other_host: Option<Seq<char>>,
)
    ensures
        config.host_name matches Some(name) ==> host_name_of(config, detected_host) == name,
        config.host_name is Some ==> host_name_of(config, detected_host) == host_name_of(
            config,
            other_host,
        ),
        config.service_name matches Some(name) ==> service_name_of(config) == name,
{
}

} // verus!
