//! From a tailer to the collector: the entry that travels through the queue
//! and the record the dispatcher makes of it.

use vstd::prelude::*;
use crate::config::{Config, ConfigView};
use crate::pattern::regex_first_group;
use crate::record::{
    build_otlp_payload, build_otlp_payload_from, OtlpLogRecord, payload_of, ResourceLogView,
};
use crate::severity::{classify, found_severity, severity_of_search, SEVERITY_PATTERN};
use crate::tailer::{
    ends_line, is_log_line, lemma_lines_are_emitted_in_order, lines_emitted, reads_of, TailState,
};
use crate::text::{chars_of, is_blank, lemma_trim_end, trim_end, trimmed_end};

verus! {

/// One line on its way to the collector: the line, which is not blank and
/// does not end in whitespace, the file it came from, and the endpoint it
/// goes to.
#[derive(PartialEq, Eq, Debug)]
pub struct LogEntry {
    line: String,
    file: String,
    endpoint: String,
}

/// The content of a `LogEntry`.
pub struct LogEntryView {
    pub line: Seq<char>,
    pub file: Seq<char>,
    pub endpoint: Seq<char>,
}

impl View for LogEntry {
    type V = LogEntryView;

    closed spec fn view(&self) -> LogEntryView {
        LogEntryView { line: self.line@, file: self.file@, endpoint: self.endpoint@ }
    }
}

impl LogEntry {
    #[verifier::type_invariant]
    spec fn holds_a_log_line(self) -> bool {
        is_log_line(self.line@)
    }

    /// An entry for `line`, read from `file` and bound for `endpoint`; none
    /// if the line is empty or ends in whitespace.
    pub fn new(line: String, file: &str, endpoint: &str) -> (entry: Option<LogEntry>)
        ensures
            entry is Some <==> is_log_line(line@),
            entry matches Some(e) ==> e@ == (LogEntryView {
                line: line@,
                file: file@,
                endpoint: endpoint@,
            }),
    {
        let chars = chars_of(line.as_str());
        let kept = trimmed_end(&chars, 0, chars.len());
        proof {
            assert(chars@.subrange(0, chars.len() as int) == line@);
            lemma_trim_end(line@);
            if kept == chars.len() {
                assert(line@.take(kept as int) == line@);
            }
        }
        if kept == 0 || kept < chars.len() {
            None
        } else {
            Some(LogEntry { line, file: file.to_owned(), endpoint: endpoint.to_owned() })
        }
    }

    /// The line.
    pub fn line(&self) -> (line: &str)
        ensures
            line@ == self@.line,
            is_log_line(line@),
    {
        proof {
            use_type_invariant(self);
        }
        self.line.as_str()
    }

    /// The file the line came from.
    pub fn file(&self) -> (file: &str)
        ensures
            file@ == self@.file,
    {
        self.file.as_str()
    }

    /// The endpoint the line goes to.
    pub fn endpoint(&self) -> (endpoint: &str)
        ensures
            endpoint@ == self@.endpoint,
    {
        self.endpoint.as_str()
    }
}

/// The record for an entry, given what the search for a severity keyword
/// found in its line and what the system reported as host name and clock.
pub open spec fn entry_record(
    entry: LogEntryView,
    config: ConfigView,
    found: Option<Option<Seq<char>>>,
    detected_host: Option<Seq<char>>,
    clock: Option<i64>,
) -> Seq<ResourceLogView> {
    payload_of(
        entry.line,
        entry.file,
        found_severity(found).label(),
        found_severity(found).code(),
        config,
        detected_host,
        clock,
    )
}

/// Makes the record for an entry from the outcome of the keyword search and
/// from what the system reported.
pub fn record_for(
    entry: &LogEntry,
    config: &Config,
    found: &Option<Option<String>>,
    detected_host: Option<String>,
    clock: Option<i64>,
) -> (record: OtlpLogRecord)
    ensures
        record@ == entry_record(
            entry@,
            config@,
            found.deep_view(),
            detected_host.deep_view(),
            clock,
        ),
{
    let severity = severity_of_search(found);
    build_otlp_payload_from(
        entry.line(),
        entry.file(),
        severity.text(),
        severity.number(),
        config,
        detected_host,
        clock,
    )
}

/// Makes the record for an entry at the time `clock`: classifies its line
/// and builds the payload, which asks the system for the host name when the
/// configuration names none. The severity is the one of the keyword that
/// `SEVERITY_PATTERN` finds; the host is whatever the system gave.
pub fn prepare_record(entry: &LogEntry, config: &Config, clock: Option<i64>) -> (record:
    OtlpLogRecord)
    ensures
        exists|detected_host: Option<Seq<char>>|
            record@ == #[trigger] entry_record(
                entry@,
                config@,
                regex_first_group(SEVERITY_PATTERN@, entry@.line),
                detected_host,
                clock,
            ),
        config@.host_name is Some ==> record@ == entry_record(
            entry@,
            config@,
            regex_first_group(SEVERITY_PATTERN@, entry@.line),
            None,
            clock,
        ),
{
    let severity = classify(entry.line());
    let record = build_otlp_payload(
        entry.line(),
        entry.file(),
        severity.text(),
        severity.number(),
        config,
        clock,
    );
    proof {
        let detected_host = choose|detected_host: Option<Seq<char>>|
            record@ == #[trigger] payload_of(
                entry@.line,
                entry@.file,
                severity.label(),
                severity.code(),
                config@,
                detected_host,
                clock,
            );
        assert(record@ == entry_record(
            entry@,
            config@,
            regex_first_group(SEVERITY_PATTERN@, entry@.line),
            detected_host,
            clock,
        ));
    }
    record
}

/// The body of the log record that a payload holds.
pub open spec fn body_of(payload: Seq<ResourceLogView>) -> Seq<char> {
    payload[0].scope_logs[0][0].body
}

/// The entry that a tailer of `file` makes of a line it hands on.
pub open spec fn entry_of(line: Seq<char>, file: Seq<char>, endpoint: Seq<char>) -> LogEntryView {
    LogEntryView { line, file, endpoint }
}

/// The lines that a tailer hands on when it reads `lines` one after the
/// other, starting with nothing held back.
pub open spec fn emitted_from(lines: Seq<Seq<char>>) -> Seq<Seq<char>> {
    lines_emitted(TailState::Reading, Seq::<char>::empty(), reads_of(lines))
}

/// From file to record, lines keep their number and their order: when
/// complete `lines` are read from a file one after the other, none of them
/// blank, the tailer hands on as many lines, each of them fit for an entry,
/// and the record made of the i-th entry has the i-th line, without its
/// trailing whitespace, as its body, whatever the keyword search, the host
/// lookup and the clock gave for it.
pub proof fn lemma_records_keep_the_order_of_the_file(
    lines: Seq<Seq<char>>,
    file: Seq<char>,
    endpoint: Seq<char>,
    config: ConfigView,
    found: spec_fn(int) -> Option<Option<Seq<char>>>,
    detected_host: spec_fn(int) -> Option<Seq<char>>,
    clock: spec_fn(int) -> Option<i64>,
)
    requires
        forall|i: int| 0 <= i < lines.len() ==> ends_line(#[trigger] lines[i]),
        forall|i: int| 0 <= i < lines.len() ==> !is_blank(#[trigger] lines[i]),
    ensures
        emitted_from(lines).len() == lines.len(),
        forall|i: int| 0 <= i < lines.len() ==> is_log_line(#[trigger] emitted_from(lines)[i]),
        forall|i: int|
            0 <= i < lines.len() ==> body_of(
                entry_record(
                    entry_of(#[trigger] emitted_from(lines)[i], file, endpoint),
                    config,
                    found(i),
                    detected_host(i),
                    clock(i),
                ),
            ) == trim_end(lines[i]),
{
    lemma_lines_are_emitted_in_order(lines);
    let emitted = emitted_from(lines);
    assert forall|i: int| 0 <= i < lines.len() implies is_log_line(#[trigger] emitted[i]) by {
        assert(emitted[i] == trim_end(lines[i]));
        lemma_trim_end(lines[i]);
    }
}

} // verus!
