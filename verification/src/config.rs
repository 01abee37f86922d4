//! The agent's configuration: what it holds, how the answers of a first-run
//! dialogue become one, and the checks it must pass before any worker starts.

use vstd::prelude::*;
use crate::pattern::{is_match, regex_is_match};
use crate::text::{chars_of, is_blank, is_blank_text, starts_with, trim, trimmed};

verus! {

/// Service name reported when the configuration names none.
pub const DEFAULT_SERVICE_NAME: &'static str = "rust-signoz-agent";

/// Endpoint offered when the dialogue asks for one.
pub const DEFAULT_ENDPOINT: &'static str = "http://localhost:4318/v1/logs";

/// Rate limit offered when the dialogue asks for one, in records per second.
pub const DEFAULT_RATE_LIMIT: u32 = 100;

/// The shape an endpoint must have beyond its scheme.
pub const ENDPOINT_PATTERN: &'static str = "^https?://[^\\s/$.?#].[^\\s]*$";

/// What the agent is told to do: which files to follow and where to send
/// their lines. Loaded once and never changed afterwards.
#[derive(Debug)]
pub struct Config {
    pub log_files: Vec<String>,
    pub endpoint: String,
    pub rate_limit: Option<u32>,
    pub service_name: Option<String>,
    pub host_name: Option<String>,
}

/// The mathematical content of a `Config`.
pub struct ConfigView {
    pub log_files: Seq<Seq<char>>,
    pub endpoint: Seq<char>,
    pub rate_limit: Option<u32>,
    pub service_name: Option<Seq<char>>,
    pub host_name: Option<Seq<char>>,
}

impl View for Config {
    type V = ConfigView;

    open spec fn view(&self) -> ConfigView {
        ConfigView {
            log_files: self.log_files.deep_view(),
            endpoint: self.endpoint@,
            rate_limit: self.rate_limit,
            service_name: self.service_name.deep_view(),
            host_name: self.host_name.deep_view(),
        }
    }
}

/// The service name a record carries: the configured one, else the default.
pub open spec fn service_name_of(config: ConfigView) -> Seq<char> {
    match config.service_name {
        Some(name) => name,
        None => DEFAULT_SERVICE_NAME@,
    }
}

/// The service name to report for `config`.
pub fn resolve_service_name(config: &Config) -> (name: String)
    ensures
        name@ == service_name_of(config@),
{
    match &config.service_name {
        Some(name) => name.clone(),
        None => DEFAULT_SERVICE_NAME.to_owned(),
    }
}

/// The send-rate ceiling in records per second: a configured limit of 0
/// means the same as none, which is no ceiling.
pub open spec fn rate_ceiling(limit: Option<u32>) -> Option<u32> {
    match limit {
        Some(n) => if n > 0 {
            Some(n)
        } else {
            None
        },
        None => None,
    }
}

/// The send-rate ceiling that `config` asks for, if any.
pub fn effective_rate_limit(config: &Config) -> (ceiling: Option<u32>)
    ensures
        ceiling == rate_ceiling(config@.rate_limit),
        ceiling matches Some(n) ==> n > 0,
{
    match config.rate_limit {
        Some(n) => if n > 0 {
            Some(n)
        } else {
            None
        },
        None => None,
    }
}

/// The fields of a text: a separator ends one field and opens the next, any
/// other character extends the field that is open. A text without separator
/// is a single field, even when it is empty.
pub open spec fn fields(s: Seq<char>, separator: char) -> Seq<Seq<char>>
    decreases s.len(),
{
    if s.len() == 0 {
        seq![Seq::<char>::empty()]
    } else {
        let before = fields(s.drop_last(), separator);
        if s.last() == separator {
            before.push(Seq::<char>::empty())
        } else {
            before.drop_last().push(before.last().push(s.last()))
        }
    }
}

/// The path that a field of the file list names: the field without the
/// whitespace around it, unless nothing is left.
pub open spec fn listed_path(field: Seq<char>) -> Option<Seq<char>> {
    let path = trim(field);
    if path.len() == 0 {
        None
    } else {
        Some(path)
    }
}

/// The paths that a comma-separated list names, in order.
pub open spec fn listed_paths(answer: Seq<char>) -> Seq<Seq<char>> {
    fields(answer, ',').filter_map(|field: Seq<char>| listed_path(field))
}

/// An answer that may be left blank: a blank one counts as not given, any
/// other is kept as it was typed.
pub open spec fn optional_answer(answer: Seq<char>) -> Option<Seq<char>> {
    if is_blank(answer) {
        None
    } else {
        Some(answer)
    }
}

/// The configuration that the answers of the dialogue make.
pub open spec fn answered_config(
    log_files: Seq<char>,
    endpoint: Seq<char>,
    rate_limit: u32,
    service_name: Seq<char>,
    host_name: Seq<char>,
) -> ConfigView {
    ConfigView {
        log_files: listed_paths(log_files),
        endpoint,
        rate_limit: rate_ceiling(Some(rate_limit)),
        service_name: optional_answer(service_name),
        host_name: optional_answer(host_name),
    }
}

/// Adds to `paths` the path, if any, that the field between `lo` and `hi`
/// names.
fn push_listed_path(paths: &mut Vec<String>, answer: &str, chars: &Vec<char>, lo: usize, hi: usize)
    requires
        chars@ == answer@,
        lo <= hi <= chars.len(),
    ensures
        final(paths).deep_view() == match listed_path(chars@.subrange(lo as int, hi as int)) {
            Some(path) => old(paths).deep_view().push(path),
            None => old(paths).deep_view(),
        },
{
    let ghost before = paths.deep_view();
    let (from, to) = trimmed(chars, lo, hi);
    if from < to {
        paths.push(answer.substring_char(from, to).to_owned());
        assert(paths.deep_view() =~= before.push(chars@.subrange(from as int, to as int)));
    }
}

/// The paths named by a comma-separated list: each field without the
/// whitespace around it, fields with nothing left being skipped.
pub fn parse_log_files(answer: &str) -> (paths: Vec<String>)
    ensures
        paths.deep_view() == listed_paths(answer@),
{
    let chars = chars_of(answer);
    let mut paths: Vec<String> = Vec::new();
    let mut start: usize = 0;
    let mut i: usize = 0;
    let ghost pick = |field: Seq<char>| listed_path(field);
    proof {
        assert(chars@.take(0) =~= Seq::<char>::empty());
        assert(fields(chars@.take(0), ',') =~= seq![chars@.subrange(0, 0)]);
        assert(fields(chars@.take(0), ',').drop_last() =~= Seq::<Seq<char>>::empty());
        assert(paths.deep_view() =~= Seq::<Seq<char>>::empty().filter_map(pick));
    }
    while i < chars.len()
        invariant
            start <= i <= chars.len(),
            chars@ == answer@,
            pick == |field: Seq<char>| listed_path(field),
            fields(chars@.take(i as int), ',').len() >= 1,
            fields(chars@.take(i as int), ',').last() == chars@.subrange(start as int, i as int),
            paths.deep_view() == fields(chars@.take(i as int), ',').drop_last().filter_map(pick),
        decreases chars.len() - i,
    {
        let ghost before = fields(chars@.take(i as int), ',');
        let ghost after = fields(chars@.take(i + 1), ',');
        proof {
            let t = chars@.take(i + 1);
            assert(t.drop_last() =~= chars@.take(i as int));
            assert(t.last() == chars@[i as int]);
        }
        if chars[i] == ',' {
            push_listed_path(&mut paths, answer, &chars, start, i);
            proof {
                assert(after == before.push(Seq::<char>::empty()));
                assert(after.drop_last() =~= before);
                assert(before.drop_last().push(before.last()) =~= before);
                assert(after.last() =~= chars@.subrange(i + 1, i + 1));
            }
            start = i + 1;
        } else {
            proof {
                assert(after == before.drop_last().push(before.last().push(chars@[i as int])));
                assert(after.drop_last() =~= before.drop_last());
                assert(after.last() =~= chars@.subrange(start as int, i + 1));
            }
        }
        i = i + 1;
    }
    let ghost all = fields(chars@, ',');
    proof {
        assert(chars@.take(chars.len() as int) =~= chars@);
        assert(all.drop_last().push(all.last()) =~= all);
    }
    push_listed_path(&mut paths, answer, &chars, start, chars.len());
    paths
}

/// An answer that may be left blank, as an optional value.
pub fn optional_text(answer: String) -> (value: Option<String>)
    ensures
        value.deep_view() == optional_answer(answer@),
{
    if is_blank_text(answer.as_str()) {
        None
    } else {
        Some(answer)
    }
}

impl Config {
    /// The configuration made of the answers of the first-run dialogue: the
    /// list of files, the endpoint, the rate limit (0 for none), the service
    /// name and the host name (blank for none).
    pub fn from_answers(
        log_files: &str,
        endpoint: String,
        rate_limit: u32,
        service_name: String,
        host_name: String,
    ) -> (config: Config)
        ensures
            config@ == answered_config(
                log_files@,
                endpoint@,
                rate_limit,
                service_name@,
                host_name@,
            ),
    {
        Config {
            log_files: parse_log_files(log_files),
            endpoint,
            rate_limit: if rate_limit > 0 {
                Some(rate_limit)
            } else {
                None
            },
            service_name: optional_text(service_name),
            host_name: optional_text(host_name),
        }
    }
}

/// What the caller found when it looked for a configured log file.
#[derive(PartialEq, Eq, Debug)]
pub enum FileProbe {
    /// The file exists and can be examined.
    Present,
    /// There is no such file.
    Missing,
    /// The file exists but the system refused to describe it, for this
    /// reason.
    Inaccessible(String),
}

/// Why a configuration is refused.
#[derive(PartialEq, Eq, Debug)]
pub enum ConfigError {
    /// A configured log file does not exist.
    MissingLogFile { path: String },
    /// A configured log file cannot be examined.
    InaccessibleLogFile { path: String, reason: String },
    /// The endpoint starts with neither `http://` nor `https://`.
    EndpointScheme,
    /// The endpoint has a scheme but not the shape of a URL.
    EndpointFormat { endpoint: String },
}

/// The content of a `FileProbe`.
pub enum FileProbeView {
    Present,
    Missing,
    Inaccessible(Seq<char>),
}

/// The content of a `ConfigError`.
pub enum ConfigErrorView {
    MissingLogFile { path: Seq<char> },
    InaccessibleLogFile { path: Seq<char>, reason: Seq<char> },
    EndpointScheme,
    EndpointFormat { endpoint: Seq<char> },
}

impl View for FileProbe {
    type V = FileProbeView;

    open spec fn view(&self) -> FileProbeView {
        match self {
            FileProbe::Present => FileProbeView::Present,
            FileProbe::Missing => FileProbeView::Missing,
            FileProbe::Inaccessible(reason) => FileProbeView::Inaccessible(reason@),
        }
    }
}

impl View for ConfigError {
    type V = ConfigErrorView;

    open spec fn view(&self) -> ConfigErrorView {
        match self {
            ConfigError::MissingLogFile { path } => ConfigErrorView::MissingLogFile { path: path@ },
            ConfigError::InaccessibleLogFile { path, reason } => {
                ConfigErrorView::InaccessibleLogFile { path: path@, reason: reason@ }
            },
            ConfigError::EndpointScheme => ConfigErrorView::EndpointScheme,
            ConfigError::EndpointFormat { endpoint } => ConfigErrorView::EndpointFormat {
                endpoint: endpoint@,
            },
        }
    }
}

/// The contents of a list of probes.
pub open spec fn probes_of(probes: Seq<FileProbe>) -> Seq<FileProbeView> {
    Seq::new(probes.len(), |i: int| probes[i]@)
}

/// The content of the outcome of a check.
pub open spec fn verdict_of(outcome: Result<(), ConfigError>) -> Result<(), ConfigErrorView> {
    match outcome {
        Ok(()) => Ok(()),
        Err(error) => Err(error@),
    }
}

/// What is wrong with one log file, given what was found of it.
pub open spec fn file_fault(path: Seq<char>, probe: FileProbeView) -> Option<ConfigErrorView> {
    match probe {
        FileProbeView::Present => None,
        FileProbeView::Missing => Some(ConfigErrorView::MissingLogFile { path }),
        FileProbeView::Inaccessible(reason) => Some(
            ConfigErrorView::InaccessibleLogFile { path, reason },
        ),
    }
}

/// What was found of the file at position `i`: the probe at that position,
/// and `Missing` when no probe was given for it.
pub open spec fn probe_at(probes: Seq<FileProbeView>, i: int) -> FileProbeView {
    if 0 <= i < probes.len() {
        probes[i]
    } else {
        FileProbeView::Missing
    }
}

/// The fault of the first log file that has one among those from position
/// `from` on.
pub open spec fn files_fault_from(
    files: Seq<Seq<char>>,
    probes: Seq<FileProbeView>,
    from: int,
) -> Option<ConfigErrorView>
    decreases files.len() - from,
{
    if from < 0 || from >= files.len() {
        None
    } else {
        match file_fault(files[from], probe_at(probes, from)) {
            Some(fault) => Some(fault),
            None => files_fault_from(files, probes, from + 1),
        }
    }
}

/// The fault of the first log file that has one, in the order of the
/// configuration.
pub open spec fn files_fault(files: Seq<Seq<char>>, probes: Seq<FileProbeView>) -> Option<
    ConfigErrorView,
> {
    files_fault_from(files, probes, 0)
}

/// Whether an endpoint names one of the two schemes.
pub open spec fn has_scheme(endpoint: Seq<char>) -> bool {
    "http://"@.is_prefix_of(endpoint) || "https://"@.is_prefix_of(endpoint)
}

/// What is wrong with an endpoint, where `shape` is the outcome of the
/// search for `ENDPOINT_PATTERN` in it: the scheme is looked at first, and
/// an endpoint whose shape is not confirmed is refused.
pub open spec fn endpoint_fault(endpoint: Seq<char>, shape: Option<bool>) -> Option<
    ConfigErrorView,
> {
    if !has_scheme(endpoint) {
        Some(ConfigErrorView::EndpointScheme)
    } else if shape != Some(true) {
        Some(ConfigErrorView::EndpointFormat { endpoint })
    } else {
        None
    }
}

/// The outcome of a check that found this fault, or none.
pub open spec fn refusal(fault: Option<ConfigErrorView>) -> Result<(), ConfigErrorView> {
    match fault {
        Some(error) => Err(error),
        None => Ok(()),
    }
}

/// What is wrong with a configuration: the fault of the first faulty log
/// file, else the fault of the endpoint.
pub open spec fn config_fault(
    config: ConfigView,
    probes: Seq<FileProbeView>,
    shape: Option<bool>,
) -> Option<ConfigErrorView> {
    match files_fault(config.log_files, probes) {
        Some(fault) => Some(fault),
        None => endpoint_fault(config.endpoint, shape),
    }
}

/// Checks the log files against what was found of them: `probes[i]` tells
/// of `files[i]`, and a file without probe counts as missing. The first file
/// that is missing or inaccessible decides.
pub fn check_log_files(files: &Vec<String>, probes: &Vec<FileProbe>) -> (outcome: Result<
    (),
    ConfigError,
>)
    ensures
        verdict_of(outcome) == refusal(files_fault(files.deep_view(), probes_of(probes@))),
{
    let ghost all_files = files.deep_view();
    let ghost all_probes = probes_of(probes@);
    let mut i: usize = 0;
    while i < files.len()
        invariant
            i <= files.len(),
            all_files == files.deep_view(),
            all_probes == probes_of(probes@),
            files_fault(all_files, all_probes) == files_fault_from(all_files, all_probes, i as int),
        decreases files.len() - i,
    {
        if i >= probes.len() {
            return Err(ConfigError::MissingLogFile { path: files[i].clone() });
        }
        match &probes[i] {
            FileProbe::Present => {},
            FileProbe::Missing => {
                return Err(ConfigError::MissingLogFile { path: files[i].clone() });
            },
            FileProbe::Inaccessible(reason) => {
                return Err(
                    ConfigError::InaccessibleLogFile {
                        path: files[i].clone(),
                        reason: reason.clone(),
                    },
                );
            },
        }
        i = i + 1;
    }
    Ok(())
}

/// Checks an endpoint, given the outcome of the search for
/// `ENDPOINT_PATTERN` in it.
pub fn check_endpoint(endpoint: &str, shape: Option<bool>) -> (outcome: Result<(), ConfigError>)
    ensures
        verdict_of(outcome) == refusal(endpoint_fault(endpoint@, shape)),
{
    let chars = chars_of(endpoint);
    if !starts_with(&chars, "http://") && !starts_with(&chars, "https://") {
        Err(ConfigError::EndpointScheme)
    } else {
        match shape {
            Some(true) => Ok(()),
            _ => Err(ConfigError::EndpointFormat { endpoint: endpoint.to_owned() }),
        }
    }
}

/// Checks an endpoint: it must start with `http://` or `https://` and match
/// `ENDPOINT_PATTERN`.
pub fn validate_endpoint(endpoint: &str) -> (outcome: Result<(), ConfigError>)
    ensures
        verdict_of(outcome) == refusal(
            endpoint_fault(endpoint@, regex_is_match(ENDPOINT_PATTERN@, endpoint@)),
        ),
{
    let shape = is_match(ENDPOINT_PATTERN, endpoint);
    check_endpoint(endpoint, shape)
}

/// Checks a configuration before any worker starts, given what was found of
/// each log file: `probes[i]` tells of `config.log_files[i]`, and a file
/// without probe counts as missing.
pub fn validate_config(config: &Config, probes: &Vec<FileProbe>) -> (outcome: Result<
    (),
    ConfigError,
>)
    ensures
        verdict_of(outcome) == refusal(
            config_fault(
                config@,
                probes_of(probes@),
                regex_is_match(ENDPOINT_PATTERN@, config@.endpoint),
            ),
        ),
{
    match check_log_files(&config.log_files, probes) {
        Err(error) => Err(error),
        Ok(()) => validate_endpoint(config.endpoint.as_str()),
    }
}

impl ConfigError {
    /// The sentence that tells of an error.
    pub open spec fn sentence(error: ConfigErrorView) -> Seq<char> {
        match error {
            ConfigErrorView::MissingLogFile { path } => "Log file does not exist: "@ + path,
            ConfigErrorView::InaccessibleLogFile { path, reason } => "Cannot access log file "@
                + path + ": "@ + reason,
            ConfigErrorView::EndpointScheme => "Endpoint URL must start with http:// or https://"@,
            ConfigErrorView::EndpointFormat { endpoint } => "Invalid endpoint URL format: "@
                + endpoint,
        }
    }

    /// The sentence that tells of this error.
    pub fn message(&self) -> (text: String)
        ensures
            text@ == Self::sentence(self@),
    {
        match self {
            ConfigError::MissingLogFile { path } => {
                let mut text = "Log file does not exist: ".to_owned();
                text.append(path.as_str());
                text
            },
            ConfigError::InaccessibleLogFile { path, reason } => {
                let mut text = "Cannot access log file ".to_owned();
                text.append(path.as_str());
                text.append(": ");
                text.append(reason.as_str());
                text
            },
            ConfigError::EndpointScheme => {
                "Endpoint URL must start with http:// or https://".to_owned()
            },
            ConfigError::EndpointFormat { endpoint } => {
                let mut text = "Invalid endpoint URL format: ".to_owned();
                text.append(endpoint.as_str());
                text
            },
        }
    }
}

/// From any position on, the files pass exactly when each of them is
/// present, and otherwise the first one that is not decides.
proof fn lemma_first_faulty_file_from(files: Seq<Seq<char>>, probes: Seq<FileProbeView>, from: int)
    requires
        0 <= from <= files.len(),
    ensures
        files_fault_from(files, probes, from) is None <==> forall|i: int|
            from <= i < files.len() ==> #[trigger] probe_at(probes, i) == FileProbeView::Present,
        files_fault_from(files, probes, from) matches Some(fault) ==> exists|i: int|
            from <= i < files.len() && file_fault(files[i], #[trigger] probe_at(probes, i))
                == Some(fault) && forall|j: int|
                from <= j < i ==> #[trigger] probe_at(probes, j) == FileProbeView::Present,
    decreases files.len() - from,
{
    if from < files.len() {
        lemma_first_faulty_file_from(files, probes, from + 1);
        match file_fault(files[from], probe_at(probes, from)) {
            Some(fault) => {
                assert(probe_at(probes, from) != FileProbeView::Present);
            },
            None => {
                assert(probe_at(probes, from) == FileProbeView::Present);
                if files_fault_from(files, probes, from + 1) is Some {
                    let fault = files_fault_from(files, probes, from + 1)->0;
                    let k = choose|i: int|
                        from + 1 <= i < files.len() && file_fault(
                            files[i],
                            #[trigger] probe_at(probes, i),
                        ) == Some(fault) && forall|j: int|
                            from + 1 <= j < i ==> #[trigger] probe_at(probes, j)
                                == FileProbeView::Present;
                    assert forall|j: int| from <= j < k implies #[trigger] probe_at(probes, j)
                        == FileProbeView::Present by {}
                    assert(probe_at(probes, k) != FileProbeView::Present);
                }
            },
        }
    }
}

/// A configuration whose files are faulty is refused for the first faulty
/// file in the order of the configuration, and files pass only when every
/// one of them is present.
pub proof fn lemma_first_faulty_file_decides(files: Seq<Seq<char>>, probes: Seq<FileProbeView>)
    ensures
        files_fault(files, probes) is None <==> forall|i: int|
            0 <= i < files.len() ==> #[trigger] probe_at(probes, i) == FileProbeView::Present,
        files_fault(files, probes) matches Some(fault) ==> exists|i: int|
            0 <= i < files.len() && file_fault(files[i], #[trigger] probe_at(probes, i)) == Some(
                fault,
            ) && forall|j: int|
                0 <= j < i ==> #[trigger] probe_at(probes, j) == FileProbeView::Present,
{
    lemma_first_faulty_file_from(files, probes, 0);
}

/// A configuration passes exactly when every log file is present, the
/// endpoint has a scheme, and the search confirms its shape.
pub proof fn lemma_accepted_configurations(
    config: ConfigView,
    probes: Seq<FileProbeView>,
    shape: Option<bool>,
)
    ensures
        config_fault(config, probes, shape) is None <==> ((forall|i: int|
            0 <= i < config.log_files.len() ==> #[trigger] probe_at(probes, i)
                == FileProbeView::Present) && has_scheme(config.endpoint) && shape == Some(true)),
{
    lemma_first_faulty_file_decides(config.log_files, probes);
}

} // verus!
