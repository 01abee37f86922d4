//! Severity classification: the keyword found in a line decides the label
//! and number that its record carries.

use vstd::prelude::*;
use crate::pattern::{first_group, regex_first_group};
use crate::text::chars_of;

verus! {

/// The pattern that finds a severity keyword: any of the nine keywords, in
/// any letter case, standing as a whole word.
pub const SEVERITY_PATTERN: &'static str =
    "(?i)\\b(INFO|ERROR|WARN|WARNING|DEBUG|CRITICAL|FATAL|NOTICE|TRACE)\\b";

/// The severities a record can carry.
#[derive(Clone, Copy, PartialEq, Eq, Structural, Debug)]
pub enum Severity {
    Trace,
    Debug,
    Info,
    Warn,
    Error,
    Fatal,
}

impl Severity {
    /// The label of a severity.
    pub open spec fn label(self) -> Seq<char> {
        match self {
            Severity::Trace => "TRACE"@,
            Severity::Debug => "DEBUG"@,
            Severity::Info => "INFO"@,
            Severity::Warn => "WARN"@,
            Severity::Error => "ERROR"@,
            Severity::Fatal => "FATAL"@,
        }
    }

    /// The number of a severity.
    pub open spec fn code(self) -> u8 {
        match self {
            Severity::Trace => 4,
            Severity::Debug => 8,
            Severity::Info => 12,
            Severity::Warn => 13,
            Severity::Error => 17,
            Severity::Fatal => 21,
        }
    }

    /// The label to put in a record.
    pub fn text(self) -> (text: &'static str)
        ensures
            text@ == self.label(),
    {
        match self {
            Severity::Trace => "TRACE",
            Severity::Debug => "DEBUG",
            Severity::Info => "INFO",
            Severity::Warn => "WARN",
            Severity::Error => "ERROR",
            Severity::Fatal => "FATAL",
        }
    }

    /// The number to put in a record.
    pub fn number(self) -> (number: u8)
        ensures
            number == self.code(),
    {
        match self {
            Severity::Trace => 4,
            Severity::Debug => 8,
            Severity::Info => 12,
            Severity::Warn => 13,
            Severity::Error => 17,
            Severity::Fatal => 21,
        }
    }
}

/// The upper-case form of an ASCII letter; any other character is itself.
pub open spec fn ascii_upper(c: char) -> char {
    if 'a' as u32 <= c as u32 <= 'z' as u32 {
        ((c as u32 - 32) as u32) as char
    } else {
        c
    }
}

/// A text with its ASCII letters in upper case.
pub open spec fn upper(s: Seq<char>) -> Seq<char> {
    s.map_values(|c: char| ascii_upper(c))
}

/// The severity that an upper-case keyword stands for. NOTICE counts as
/// INFO, WARNING as WARN, CRITICAL as FATAL.
pub open spec fn keyword_severity(word: Seq<char>) -> Option<Severity> {
    if word == "TRACE"@ {
        Some(Severity::Trace)
    } else if word == "DEBUG"@ {
        Some(Severity::Debug)
    } else if word == "INFO"@ || word == "NOTICE"@ {
        Some(Severity::Info)
    } else if word == "WARN"@ || word == "WARNING"@ {
        Some(Severity::Warn)
    } else if word == "ERROR"@ {
        Some(Severity::Error)
    } else if word == "CRITICAL"@ || word == "FATAL"@ {
        Some(Severity::Fatal)
    } else {
        None
    }
}

/// The severity of a token: that of the keyword it spells, whatever the case
/// of its letters, and `Info` when it spells none.
pub open spec fn token_severity(token: Seq<char>) -> Severity {
    match keyword_severity(upper(token)) {
        Some(severity) => severity,
        None => Severity::Info,
    }
}

/// The severity for what a search found: that of the token, and `Info` when
/// there is none.
pub open spec fn found_severity(found: Option<Option<Seq<char>>>) -> Severity {
    match found {
        Some(Some(token)) => token_severity(token),
        _ => Severity::Info,
    }
}

/// The severity of a line: that of the first keyword that `SEVERITY_PATTERN`
/// finds in it.
pub open spec fn line_severity(line: Seq<char>) -> Severity {
    found_severity(regex_first_group(SEVERITY_PATTERN@, line))
}

fn code_of(c: char) -> (code: u32)
    ensures
        code == c as u32,
        code as char == c,
{
    c as u32
}

fn upper_code(c: char) -> (code: u32)
    ensures
        code == ascii_upper(c) as u32,
        code as char == ascii_upper(c),
{
    let code = c as u32;
    if 97 <= code && code <= 122 {
        code - 32
    } else {
        code
    }
}

/// Whether `token` spells `keyword` once its ASCII letters are in upper case.
fn spells(token: &Vec<char>, keyword: &str) -> (same: bool)
    ensures
        same == (upper(token@) == keyword@),
{
    let wanted = chars_of(keyword);
    if token.len() != wanted.len() {
        return false;
    }
    let mut i: usize = 0;
    while i < token.len()
        invariant
            i <= token.len(),
            token.len() == wanted.len(),
            wanted@ == keyword@,
            forall|j: int| 0 <= j < i ==> upper(token@)[j] == wanted@[j],
        decreases token.len() - i,
    {
        let code = upper_code(token[i]);
        let wanted_code = code_of(wanted[i]);
        proof {
            let letter = ascii_upper(token@[i as int]);
            assert(upper(token@)[i as int] == letter);
            assert((code as char) == letter);
        }
        if code != wanted_code {
            return false;
        }
        i = i + 1;
    }
    assert(upper(token@) =~= keyword@);
    true
}

/// The severity of a token that a search found.
pub fn severity_of_token(token: &str) -> (severity: Severity)
    ensures
        severity == token_severity(token@),
{
    let chars = chars_of(token);
    if spells(&chars, "TRACE") {
        Severity::Trace
    } else if spells(&chars, "DEBUG") {
        Severity::Debug
    } else if spells(&chars, "INFO") || spells(&chars, "NOTICE") {
        Severity::Info
    } else if spells(&chars, "WARN") || spells(&chars, "WARNING") {
        Severity::Warn
    } else if spells(&chars, "ERROR") {
        Severity::Error
    } else if spells(&chars, "CRITICAL") || spells(&chars, "FATAL") {
        Severity::Fatal
    } else {
        Severity::Info
    }
}

/// The severity for what a search found: `found` is the outcome of the
/// search for `SEVERITY_PATTERN`, `None` if the pattern was rejected,
/// `Some(None)` if no keyword was found.
pub fn severity_of_search(found: &Option<Option<String>>) -> (severity: Severity)
    ensures
        severity == found_severity(found.deep_view()),
{
    match found {
        Some(Some(token)) => severity_of_token(token.as_str()),
        _ => Severity::Info,
    }
}

/// The severity of a line.
pub fn classify(line: &str) -> (severity: Severity)
    ensures
        severity == line_severity(line@),
{
    let found = first_group(SEVERITY_PATTERN, line);
    severity_of_search(&found)
}

/// The severity label and number of a line.
pub fn detect_severity_generic(line: &str) -> (severity: (&'static str, u8))
    ensures
        severity.0@ == line_severity(line@).label(),
        severity.1 == line_severity(line@).code(),
{
    let severity = classify(line);
    (severity.text(), severity.number())
}

/// The mapping table. A token that spells a keyword, in whatever letter
/// case, gets that keyword's label and number: TRACE 4, DEBUG 8, INFO and
/// NOTICE 12 under the label INFO, WARN and WARNING 13 under the label WARN,
/// ERROR 17, CRITICAL and FATAL 21 under the label FATAL. A token that spells
/// none of them gets INFO and 12.
pub proof fn lemma_keyword_table(token: Seq<char>)
    ensures
        upper(token) == "TRACE"@ ==> token_severity(token) == Severity::Trace,
        upper(token) == "DEBUG"@ ==> token_severity(token) == Severity::Debug,
        upper(token) == "INFO"@ ==> token_severity(token) == Severity::Info,
        upper(token) == "NOTICE"@ ==> token_severity(token) == Severity::Info,
        upper(token) == "WARN"@ ==> token_severity(token) == Severity::Warn,
        upper(token) == "WARNING"@ ==> token_severity(token) == Severity::Warn,
        upper(token) == "ERROR"@ ==> token_severity(token) == Severity::Error,
        upper(token) == "CRITICAL"@ ==> token_severity(token) == Severity::Fatal,
        upper(token) == "FATAL"@ ==> token_severity(token) == Severity::Fatal,
        keyword_severity(upper(token)) is None ==> token_severity(token) == Severity::Info,
        Severity::Trace.label() == "TRACE"@ && Severity::Trace.code() == 4,
        Severity::Debug.label() == "DEBUG"@ && Severity::Debug.code() == 8,
        Severity::Info.label() == "INFO"@ && Severity::Info.code() == 12,
        Severity::Warn.label() == "WARN"@ && Severity::Warn.code() == 13,
        Severity::Error.label() == "ERROR"@ && Severity::Error.code() == 17,
        Severity::Fatal.label() == "FATAL"@ && Severity::Fatal.code() == 21,
{
    lemma_keywords_start_apart();
}

/// The keywords start with different letters, but for WARN and WARNING,
/// which stand for the same severity.
proof fn lemma_keywords_start_apart()
    ensures
        "TRACE"@[0] == 'T',
        "DEBUG"@[0] == 'D',
        "INFO"@[0] == 'I',
        "NOTICE"@[0] == 'N',
        "WARN"@[0] == 'W',
        "WARNING"@[0] == 'W',
        "ERROR"@[0] == 'E',
        "CRITICAL"@[0] == 'C',
        "FATAL"@[0] == 'F',
{
    reveal_strlit("TRACE");
    reveal_strlit("DEBUG");
    reveal_strlit("INFO");
    reveal_strlit("NOTICE");
    reveal_strlit("WARN");
    reveal_strlit("WARNING");
    reveal_strlit("ERROR");
    reveal_strlit("CRITICAL");
    reveal_strlit("FATAL");
}

/// The letter case of a token does not matter: two tokens that differ only
/// in the case of their ASCII letters get the same severity.
pub proof fn lemma_letter_case_is_ignored(a: Seq<char>, b: Seq<char>)
    requires
        upper(a) == upper(b),
    ensures
        token_severity(a) == token_severity(b),
{
}

/// A line in which the search finds a token is classified as that token.
pub proof fn lemma_found_token_decides(line: Seq<char>, token: Seq<char>)
    ensures
        regex_first_group(SEVERITY_PATTERN@, line) == Some(Some(token)) ==> line_severity(line)
            == token_severity(token),
{
}

/// A line in which the search finds no keyword is classified INFO, 12.
pub proof fn lemma_no_keyword_is_info(line: Seq<char>)
    ensures
        !(regex_first_group(SEVERITY_PATTERN@, line) matches Some(Some(_))) ==> {
            &&& line_severity(line) == Severity::Info
            &&& line_severity(line).label() == "INFO"@
            &&& line_severity(line).code() == 12
        },
{
}

} // verus!
