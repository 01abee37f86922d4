use log_shipper::severity::classify;
use log_shipper::severity::detect_severity_generic;
use log_shipper::severity::severity_of_search;
use log_shipper::severity::severity_of_token;
use log_shipper::severity::Severity;

#[test]
fn every_keyword_maps_to_its_pair() {
    assert_eq!(detect_severity_generic("TRACE"), ("TRACE", 4));
    assert_eq!(detect_severity_generic("DEBUG"), ("DEBUG", 8));
    assert_eq!(detect_severity_generic("INFO"), ("INFO", 12));
    assert_eq!(detect_severity_generic("NOTICE"), ("INFO", 12));
    assert_eq!(detect_severity_generic("WARN"), ("WARN", 13));
    assert_eq!(detect_severity_generic("WARNING"), ("WARN", 13));
    assert_eq!(detect_severity_generic("ERROR"), ("ERROR", 17));
    assert_eq!(detect_severity_generic("CRITICAL"), ("FATAL", 21));
    assert_eq!(detect_severity_generic("FATAL"), ("FATAL", 21));
}

#[test]
fn keywords_are_found_in_any_letter_case() {
    assert_eq!(detect_severity_generic("trace"), ("TRACE", 4));
    assert_eq!(detect_severity_generic("Debug"), ("DEBUG", 8));
    assert_eq!(detect_severity_generic("iNfO"), ("INFO", 12));
    assert_eq!(detect_severity_generic("notice"), ("INFO", 12));
    assert_eq!(detect_severity_generic("Warn"), ("WARN", 13));
    assert_eq!(detect_severity_generic("wArNiNg"), ("WARN", 13));
    assert_eq!(detect_severity_generic("error"), ("ERROR", 17));
    assert_eq!(detect_severity_generic("Critical"), ("FATAL", 21));
    assert_eq!(detect_severity_generic("fatal"), ("FATAL", 21));
}

#[test]
fn keywords_are_found_inside_a_line() {
    assert_eq!(detect_severity_generic("2024-01-01 ERROR disk full"), ("ERROR", 17));
    assert_eq!(detect_severity_generic("[warn] low memory"), ("WARN", 13));
    assert_eq!(detect_severity_generic("level=debug msg=\"x\""), ("DEBUG", 8));
    assert_eq!(detect_severity_generic("app: fatal: out of handles"), ("FATAL", 21));
    assert_eq!(detect_severity_generic("<TRACE>"), ("TRACE", 4));
}

#[test]
fn a_line_without_keyword_is_info() {
    assert_eq!(detect_severity_generic("nothing to see here"), ("INFO", 12));
    assert_eq!(detect_severity_generic(""), ("INFO", 12));
    assert_eq!(detect_severity_generic("   "), ("INFO", 12));
}

#[test]
fn a_keyword_inside_a_longer_word_does_not_count() {
    assert_eq!(detect_severity_generic("errors were found"), ("INFO", 12));
    assert_eq!(detect_severity_generic("debugging session"), ("INFO", 12));
    assert_eq!(detect_severity_generic("xERROR"), ("INFO", 12));
    assert_eq!(detect_severity_generic("ERROR_CODE 7"), ("INFO", 12));
    assert_eq!(detect_severity_generic("warned twice"), ("INFO", 12));
    assert_eq!(detect_severity_generic("error5"), ("INFO", 12));
}

#[test]
fn the_first_keyword_from_the_left_wins() {
    assert_eq!(detect_severity_generic("ERROR then WARN"), ("ERROR", 17));
    assert_eq!(detect_severity_generic("warn then error"), ("WARN", 13));
    assert_eq!(detect_severity_generic("infos: debug before fatal"), ("DEBUG", 8));
    assert_eq!(detect_severity_generic("notice: CRITICAL"), ("INFO", 12));
}

#[test]
fn warning_is_not_cut_short_to_warn() {
    assert_eq!(detect_severity_generic("WARNING: x"), ("WARN", 13));
    assert_eq!(detect_severity_generic("warnings: x"), ("INFO", 12));
}

#[test]
fn punctuation_bounds_a_keyword() {
    assert_eq!(detect_severity_generic("error: x"), ("ERROR", 17));
    assert_eq!(detect_severity_generic("(critical)"), ("FATAL", 21));
    assert_eq!(detect_severity_generic("a-trace-b"), ("TRACE", 4));
    assert_eq!(detect_severity_generic("x.fatal"), ("FATAL", 21));
}

#[test]
fn classify_gives_the_severity_itself() {
    assert_eq!(classify("disk ERROR"), Severity::Error);
    assert_eq!(classify("all quiet"), Severity::Info);
    assert_eq!(classify("Notice me"), Severity::Info);
    assert_eq!(classify("critical mass"), Severity::Fatal);
}

#[test]
fn severities_carry_their_label_and_number() {
    assert_eq!((Severity::Trace.text(), Severity::Trace.number()), ("TRACE", 4));
    assert_eq!((Severity::Debug.text(), Severity::Debug.number()), ("DEBUG", 8));
    assert_eq!((Severity::Info.text(), Severity::Info.number()), ("INFO", 12));
    assert_eq!((Severity::Warn.text(), Severity::Warn.number()), ("WARN", 13));
    assert_eq!((Severity::Error.text(), Severity::Error.number()), ("ERROR", 17));
    assert_eq!((Severity::Fatal.text(), Severity::Fatal.number()), ("FATAL", 21));
}

#[test]
fn tokens_map_by_the_table() {
    assert_eq!(severity_of_token("TRACE"), Severity::Trace);
    assert_eq!(severity_of_token("debug"), Severity::Debug);
    assert_eq!(severity_of_token("Info"), Severity::Info);
    assert_eq!(severity_of_token("NoTiCe"), Severity::Info);
    assert_eq!(severity_of_token("warn"), Severity::Warn);
    assert_eq!(severity_of_token("Warning"), Severity::Warn);
    assert_eq!(severity_of_token("eRRor"), Severity::Error);
    assert_eq!(severity_of_token("critical"), Severity::Fatal);
    assert_eq!(severity_of_token("FATAL"), Severity::Fatal);
}

#[test]
fn tokens_that_spell_no_keyword_are_info() {
    assert_eq!(severity_of_token(""), Severity::Info);
    assert_eq!(severity_of_token("ERR"), Severity::Info);
    assert_eq!(severity_of_token("ERRORS"), Severity::Info);
    assert_eq!(severity_of_token(" ERROR"), Severity::Info);
    assert_eq!(severity_of_token("FATAL\n"), Severity::Info);
    assert_eq!(severity_of_token("WARN1NG"), Severity::Info);
    assert_eq!(severity_of_token("\u{c9}RROR"), Severity::Info);
}

#[test]
fn a_search_without_token_is_info() {
    assert_eq!(severity_of_search(&None), Severity::Info);
    assert_eq!(severity_of_search(&Some(None)), Severity::Info);
    assert_eq!(severity_of_search(&Some(Some("error".to_string()))), Severity::Error);
    assert_eq!(severity_of_search(&Some(Some("other".to_string()))), Severity::Info);
}

fn searched_directly(line: &str) -> (&'static str, u8) {
    let pattern = "(?i)\\b(INFO|ERROR|WARN|WARNING|DEBUG|CRITICAL|FATAL|NOTICE|TRACE)\\b";
    let keyword = regex::Regex::new(pattern)
        .expect("a valid pattern")
        .captures(line)
        .and_then(|groups| groups.get(1))
        .map(|group| group.as_str().to_uppercase());
    match keyword.as_deref() {
        Some("TRACE") => ("TRACE", 4),
        Some("DEBUG") => ("DEBUG", 8),
        Some("WARN") | Some("WARNING") => ("WARN", 13),
        Some("ERROR") => ("ERROR", 17),
        Some("CRITICAL") | Some("FATAL") => ("FATAL", 21),
        _ => ("INFO", 12),
    }
}

#[test]
fn classification_agrees_with_a_direct_search() {
    let lines = [
        "",
        "plain text",
        "2024-01-01T00:00:00Z ERROR disk full",
        "Jan  1 00:00:00 host app[1]: warning: low space",
        "TRACE|DEBUG|INFO",
        "error,warn",
        "fatal\tcritical",
        "no-tice notice",
        "INFORMATION INFO",
        "\u{e9}rror error",
        "warn\u{131}ng",
        "WARN\u{130}NG fatal",
        "crit\u{131}cal",
        "\u{17f}evere \u{212a}ernel debug",
        "tr\u{e1}ce TRACE trace",
        "ERROR\u{301}",
        "\u{3000}FATAL\u{3000}",
        "x\u{200b}error",
        "debug_mode DEBUG",
        "e\u{2060}rror",
    ];
    for line in lines {
        assert_eq!(detect_severity_generic(line), searched_directly(line), "line {:?}", line);
    }
}
