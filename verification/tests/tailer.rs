use log_shipper::tailer::is_complete_line;
use log_shipper::tailer::prepare_line;
use log_shipper::tailer::tail_start;
use log_shipper::tailer::tail_step;
use log_shipper::tailer::TailAction;
use log_shipper::tailer::TailEvent;
use log_shipper::tailer::TailState;
use log_shipper::tailer::POLL_INTERVAL_MS;
use log_shipper::tailer::REOPEN_DELAY_MS;
use log_shipper::tailer::REOPEN_RETRY_DELAY_MS;

fn line(s: &str) -> TailEvent {
    TailEvent::Line(s.to_string())
}

fn emit(s: &str) -> TailAction {
    TailAction::EmitThenRead { line: s.to_string() }
}

fn step(state: TailState, pending: &str, event: TailEvent) -> Option<(TailState, String, TailAction)> {
    tail_step(state, pending.to_string(), event)
}

fn held(state: TailState, pending: &str, action: TailAction) -> Option<(TailState, String, TailAction)> {
    Some((state, pending.to_string(), action))
}

struct Run {
    state: TailState,
    pending: String,
    lines: Vec<String>,
    actions: Vec<TailAction>,
}

fn run(start: TailState, events: Vec<TailEvent>) -> Run {
    let mut state = start;
    let mut pending = String::new();
    let mut lines = Vec::new();
    let mut actions = Vec::new();
    for event in events {
        let (next, kept, action) =
            tail_step(state, pending, event).expect("the event answers the state");
        if let TailAction::EmitThenRead { line } = &action {
            lines.push(line.clone());
        }
        actions.push(action);
        state = next;
        pending = kept;
    }
    Run { state, pending, lines, actions }
}

#[test]
fn the_pauses_have_their_fixed_lengths() {
    assert_eq!(POLL_INTERVAL_MS, 500);
    assert_eq!(REOPEN_DELAY_MS, 5000);
    assert_eq!(REOPEN_RETRY_DELAY_MS, 30000);
}

#[test]
fn a_tailer_begins_by_opening_its_file() {
    assert_eq!(
        tail_start(),
        (TailState::Opening, String::new(), TailAction::OpenAtEnd { wait_ms: 0 })
    );
}

#[test]
fn a_successful_open_leads_to_reading() {
    assert_eq!(
        step(TailState::Opening, "", TailEvent::Opened),
        held(TailState::Reading, "", TailAction::Read { wait_ms: 0 })
    );
}

#[test]
fn a_failed_first_open_stops_the_tailer_for_good() {
    assert_eq!(
        step(TailState::Opening, "", TailEvent::OpenFailed),
        held(TailState::Stopped, "", TailAction::Stop)
    );
    assert_eq!(step(TailState::Stopped, "", TailEvent::Opened), None);
    assert_eq!(step(TailState::Stopped, "", TailEvent::OpenFailed), None);
    assert_eq!(step(TailState::Stopped, "", TailEvent::NoData), None);
    assert_eq!(step(TailState::Stopped, "", TailEvent::ReadFailed), None);
    assert_eq!(step(TailState::Stopped, "", line("x\n")), None);
}

#[test]
fn a_complete_line_is_emitted_without_its_line_end() {
    assert_eq!(
        step(TailState::Reading, "", line("hello world\n")),
        held(TailState::Reading, "", emit("hello world"))
    );
    assert_eq!(
        step(TailState::Reading, "", line("hello\r\n")),
        held(TailState::Reading, "", emit("hello"))
    );
}

#[test]
fn a_text_without_line_end_is_held_back() {
    assert_eq!(
        step(TailState::Reading, "", line("no line end")),
        held(TailState::Reading, "no line end", TailAction::Read { wait_ms: 500 })
    );
    assert_eq!(
        step(TailState::Reading, "", line("ends in a carriage return\r")),
        held(
            TailState::Reading,
            "ends in a carriage return\r",
            TailAction::Read { wait_ms: 500 }
        )
    );
    assert_eq!(
        step(TailState::Reading, "so far ", line("and more")),
        held(TailState::Reading, "so far and more", TailAction::Read { wait_ms: 500 })
    );
}

#[test]
fn a_line_written_in_two_parts_is_emitted_once_and_whole() {
    let r = run(TailState::Reading, vec![line("abc"), TailEvent::NoData, line("def\n")]);
    assert_eq!(r.lines, vec!["abcdef"]);
    assert_eq!(
        r.actions,
        vec![
            TailAction::Read { wait_ms: 500 },
            TailAction::Read { wait_ms: 500 },
            emit("abcdef"),
        ]
    );
    assert_eq!(r.state, TailState::Reading);
    assert_eq!(r.pending, "");
}

#[test]
fn a_line_written_in_many_parts_is_joined_in_order() {
    let r = run(
        TailState::Reading,
        vec![
            line("2024-01-01 "),
            TailEvent::NoData,
            line("ERROR "),
            line("disk"),
            TailEvent::NoData,
            TailEvent::NoData,
            line(" full \n"),
            line("next\n"),
        ],
    );
    assert_eq!(r.lines, vec!["2024-01-01 ERROR disk full", "next"]);
    assert_eq!(r.pending, "");
}

#[test]
fn a_line_end_that_arrives_alone_completes_the_line() {
    let r = run(TailState::Reading, vec![line("abc"), line("\n")]);
    assert_eq!(r.lines, vec!["abc"]);
    let r = run(TailState::Reading, vec![line("abc\r"), line("\n")]);
    assert_eq!(r.lines, vec!["abc"]);
}

#[test]
fn blank_parts_make_a_blank_line_that_is_skipped() {
    let r = run(TailState::Reading, vec![line("  "), line("\t"), line(" \n"), line("x\n")]);
    assert_eq!(r.lines, vec!["x"]);
    assert_eq!(
        r.actions,
        vec![
            TailAction::Read { wait_ms: 500 },
            TailAction::Read { wait_ms: 500 },
            TailAction::Read { wait_ms: 0 },
            emit("x"),
        ]
    );
}

#[test]
fn a_poll_that_finds_nothing_keeps_what_is_held_back() {
    assert_eq!(
        step(TailState::Reading, "half a li", TailEvent::NoData),
        held(TailState::Reading, "half a li", TailAction::Read { wait_ms: 500 })
    );
}

#[test]
fn a_failed_read_gives_up_what_is_held_back() {
    assert_eq!(
        step(TailState::Reading, "half a li", TailEvent::ReadFailed),
        held(TailState::Reopening, "", TailAction::OpenAtEnd { wait_ms: 5000 })
    );
    let r = run(
        TailState::Reading,
        vec![line("lost part"), TailEvent::ReadFailed, TailEvent::Opened, line("fresh\n")],
    );
    assert_eq!(r.lines, vec!["fresh"]);
}

#[test]
fn leading_whitespace_of_a_line_is_kept() {
    assert_eq!(
        step(TailState::Reading, "", line("  indented \t \n")),
        held(TailState::Reading, "", emit("  indented"))
    );
}

#[test]
fn a_blank_line_is_skipped() {
    assert_eq!(
        step(TailState::Reading, "", line("\n")),
        held(TailState::Reading, "", TailAction::Read { wait_ms: 0 })
    );
    assert_eq!(
        step(TailState::Reading, "", line("  \t \r\n")),
        held(TailState::Reading, "", TailAction::Read { wait_ms: 0 })
    );
}

#[test]
fn no_new_data_means_half_a_second_of_sleep() {
    assert_eq!(
        step(TailState::Reading, "", TailEvent::NoData),
        held(TailState::Reading, "", TailAction::Read { wait_ms: 500 })
    );
}

#[test]
fn a_failed_read_leads_to_a_reopen_after_five_seconds() {
    assert_eq!(
        step(TailState::Reading, "", TailEvent::ReadFailed),
        held(TailState::Reopening, "", TailAction::OpenAtEnd { wait_ms: 5000 })
    );
}

#[test]
fn a_failed_reopen_is_tried_again_after_thirty_seconds() {
    assert_eq!(
        step(TailState::Reopening, "", TailEvent::OpenFailed),
        held(TailState::Reopening, "", TailAction::OpenAtEnd { wait_ms: 30000 })
    );
}

#[test]
fn a_successful_reopen_returns_to_reading() {
    assert_eq!(
        step(TailState::Reopening, "", TailEvent::Opened),
        held(TailState::Reading, "", TailAction::Read { wait_ms: 0 })
    );
}

#[test]
fn events_that_answer_nothing_are_refused() {
    assert_eq!(step(TailState::Opening, "", TailEvent::NoData), None);
    assert_eq!(step(TailState::Opening, "", TailEvent::ReadFailed), None);
    assert_eq!(step(TailState::Opening, "", line("x\n")), None);
    assert_eq!(step(TailState::Reading, "", TailEvent::Opened), None);
    assert_eq!(step(TailState::Reading, "", TailEvent::OpenFailed), None);
    assert_eq!(step(TailState::Reopening, "", TailEvent::NoData), None);
    assert_eq!(step(TailState::Reopening, "", TailEvent::ReadFailed), None);
    assert_eq!(step(TailState::Reopening, "", line("x\n")), None);
}

#[test]
fn appended_lines_are_all_emitted_in_their_order() {
    let n = 50;
    let mut events = vec![TailEvent::Opened];
    let mut wanted = Vec::new();
    for i in 0..n {
        events.push(line(&format!("line number {}\n", i)));
        wanted.push(format!("line number {}", i));
    }
    let r = run(TailState::Opening, events);
    assert_eq!(r.state, TailState::Reading);
    assert_eq!(r.lines.len(), n);
    assert_eq!(r.lines, wanted);
}

#[test]
fn idle_polls_and_blank_lines_do_not_disturb_the_order() {
    let events = vec![
        TailEvent::NoData,
        line("first\n"),
        line("\n"),
        TailEvent::NoData,
        TailEvent::NoData,
        line("second  \n"),
        line("   \n"),
        line("third\n"),
    ];
    let r = run(TailState::Reading, events);
    assert_eq!(r.state, TailState::Reading);
    assert_eq!(r.lines, vec!["first", "second", "third"]);
}

#[test]
fn a_last_line_without_line_end_waits_for_it() {
    let r = run(TailState::Reading, vec![line("first\n"), line("unfinished")]);
    assert_eq!(r.lines, vec!["first"]);
    assert_eq!(r.pending, "unfinished");
}

#[test]
fn a_rotated_file_is_reopened_at_its_end_and_tailing_resumes() {
    let r = run(
        TailState::Reading,
        vec![
            line("before rotation\n"),
            TailEvent::ReadFailed,
            TailEvent::OpenFailed,
            TailEvent::OpenFailed,
            TailEvent::Opened,
            TailEvent::NoData,
            line("after rotation\n"),
        ],
    );
    assert_eq!(r.state, TailState::Reading);
    assert_eq!(
        r.actions,
        vec![
            emit("before rotation"),
            TailAction::OpenAtEnd { wait_ms: 5000 },
            TailAction::OpenAtEnd { wait_ms: 30000 },
            TailAction::OpenAtEnd { wait_ms: 30000 },
            TailAction::Read { wait_ms: 0 },
            TailAction::Read { wait_ms: 500 },
            emit("after rotation"),
        ]
    );
}

#[test]
fn nothing_is_emitted_while_a_file_is_being_reopened() {
    let r = run(
        TailState::Reading,
        vec![TailEvent::ReadFailed, TailEvent::OpenFailed, TailEvent::Opened],
    );
    assert_eq!(r.state, TailState::Reading);
    assert!(r.lines.is_empty());
}

#[test]
fn a_complete_line_ends_in_a_line_feed() {
    assert!(is_complete_line("x\n"));
    assert!(is_complete_line("x\r\n"));
    assert!(is_complete_line("\n"));
    assert!(!is_complete_line(""));
    assert!(!is_complete_line("x"));
    assert!(!is_complete_line("x\r"));
    assert!(!is_complete_line("x\n "));
    assert!(!is_complete_line("x\u{2028}"));
}

#[test]
fn prepare_line_drops_trailing_whitespace_only() {
    assert_eq!(prepare_line("abc\n"), Some("abc".to_string()));
    assert_eq!(prepare_line(" abc \t\r\n"), Some(" abc".to_string()));
    assert_eq!(prepare_line("abc"), Some("abc".to_string()));
    assert_eq!(prepare_line("a\u{e9}\u{a0}\n"), Some("a\u{e9}".to_string()));
}

#[test]
fn prepare_line_refuses_blank_texts() {
    assert_eq!(prepare_line(""), None);
    assert_eq!(prepare_line("\n"), None);
    assert_eq!(prepare_line(" \t \r\n"), None);
    assert_eq!(prepare_line("\u{3000}"), None);
}

#[test]
fn prepare_line_agrees_with_the_standard_trim() {
    for raw in ["x\n", "  x  ", "\t", "", "a b c \n\n", "\u{2003}k\u{2003}"] {
        let wanted = if raw.trim().is_empty() { None } else { Some(raw.trim_end().to_string()) };
        assert_eq!(prepare_line(raw), wanted);
    }
}
