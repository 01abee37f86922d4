//! Following one file: what to do after each attempt to open it or to read
//! from it. The caller opens, reads and sleeps; this module decides, and
//! keeps the text of a line that has not been read to its end.

use vstd::prelude::*;
use crate::text::{
    chars_of, is_blank, lemma_trim_end, trim_end, trimmed_end, white_space,
};

verus! {

/// Pause before reading again when the file held nothing new.
pub const POLL_INTERVAL_MS: u64 = 500;

/// Pause between a failed read and the attempt to open the file again.
pub const REOPEN_DELAY_MS: u64 = 5000;

/// Pause between one failed attempt to reopen the file and the next.
pub const REOPEN_RETRY_DELAY_MS: u64 = 30000;

/// Where a tailer stands.
#[derive(Clone, Copy, PartialEq, Eq, Structural, Debug)]
pub enum TailState {
    /// The first attempt to open the file is under way.
    Opening,
    /// The file is open and a read is under way.
    Reading,
    /// A read failed and an attempt to open the file again is under way.
    Reopening,
    /// The first open failed: the file is not followed any more.
    Stopped,
}

/// What came of the step a tailer asked for.
#[derive(PartialEq, Eq, Debug)]
pub enum TailEvent {
    /// The file was opened and positioned at its end.
    Opened,
    /// The file could not be opened.
    OpenFailed,
    /// A read returned this text: a line with its line end, or, at the end
    /// of the file, the part of a line that has been written so far.
    Line(String),
    /// A read returned nothing: no new data.
    NoData,
    /// A read failed.
    ReadFailed,
}

/// What a tailer asks for next.
#[derive(PartialEq, Eq, Debug)]
pub enum TailAction {
    /// Wait, then open the file and move to its end, so that what it already
    /// holds is never read.
    OpenAtEnd { wait_ms: u64 },
    /// Wait, then read the next line.
    Read { wait_ms: u64 },
    /// Hand this complete line on, then read the next line at once.
    EmitThenRead { line: String },
    /// Do nothing more.
    Stop,
}

/// The content of a `TailEvent`.
pub enum TailEventView {
    Opened,
    OpenFailed,
    Line(Seq<char>),
    NoData,
    ReadFailed,
}

/// The content of a `TailAction`.
pub enum TailActionView {
    OpenAtEnd { wait_ms: u64 },
    Read { wait_ms: u64 },
    EmitThenRead { line: Seq<char> },
    Stop,
}

impl View for TailEvent {
    type V = TailEventView;

    open spec fn view(&self) -> TailEventView {
        match self {
            TailEvent::Opened => TailEventView::Opened,
            TailEvent::OpenFailed => TailEventView::OpenFailed,
            TailEvent::Line(raw) => TailEventView::Line(raw@),
            TailEvent::NoData => TailEventView::NoData,
            TailEvent::ReadFailed => TailEventView::ReadFailed,
        }
    }
}

impl View for TailAction {
    type V = TailActionView;

    open spec fn view(&self) -> TailActionView {
        match self {
            TailAction::OpenAtEnd { wait_ms } => TailActionView::OpenAtEnd { wait_ms: *wait_ms },
            TailAction::Read { wait_ms } => TailActionView::Read { wait_ms: *wait_ms },
            TailAction::EmitThenRead { line } => TailActionView::EmitThenRead { line: line@ },
            TailAction::Stop => TailActionView::Stop,
        }
    }
}

/// A text that may enter the queue: not empty, and not ending in whitespace.
pub open spec fn is_log_line(s: Seq<char>) -> bool {
    s.len() > 0 && !white_space(s.last())
}

/// A text that was read is a complete line when it ends in a line feed.
pub open spec fn ends_line(raw: Seq<char>) -> bool {
    raw.len() > 0 && raw.last() == '\n'
}

/// What becomes of a complete line: nothing if it is blank, otherwise the
/// line without its trailing whitespace, line end included.
pub open spec fn prepared(raw: Seq<char>) -> Option<Seq<char>> {
    if is_blank(raw) {
        None
    } else {
        Some(trim_end(raw))
    }
}

/// Turns a complete line into the line to hand on, if any.
pub fn prepare_line(raw: &str) -> (line: Option<String>)
    ensures
        line.deep_view() == prepared(raw@),
        line matches Some(l) ==> is_log_line(l@),
{
    let chars = chars_of(raw);
    let kept = trimmed_end(&chars, 0, chars.len());
    proof {
        assert(chars@.subrange(0, chars.len() as int) == raw@);
        lemma_trim_end(raw@);
    }
    if kept == 0 {
        None
    } else {
        Some(raw.substring_char(0, kept).to_owned())
    }
}

/// Whether a text that was read ends in a line feed.
pub fn is_complete_line(raw: &str) -> (complete: bool)
    ensures
        complete == ends_line(raw@),
{
    let chars = chars_of(raw);
    chars.len() > 0 && chars[chars.len() - 1] == '\n'
}

/// The step of the tailer: where it goes, what text it holds back and what
/// it asks for when `event` answers what it asked for in `state` while it
/// held back `pending`; `None` when `event` cannot be an answer in that
/// state.
///
/// While reading, a text that ends in a line feed completes a line: the
/// line is what was held back followed by that text, it is handed on unless
/// it is blank, and nothing is held back any more. A text without line feed
/// is the part of a line written so far: it is added to what is held back,
/// nothing is handed on, and the next read waits for the poll interval.
/// A failed read gives up what is held back, since the file is then opened
/// again at its end and the rest of that line will never be read; the same
/// holds for every open.
pub open spec fn tail_step_spec(
    state: TailState,
    pending: Seq<char>,
    event: TailEventView,
) -> Option<(TailState, Seq<char>, TailActionView)> {
    match (state, event) {
        (TailState::Opening, TailEventView::Opened) => Some(
            (TailState::Reading, Seq::<char>::empty(), TailActionView::Read { wait_ms: 0 }),
        ),
        (TailState::Opening, TailEventView::OpenFailed) => Some(
            (TailState::Stopped, Seq::<char>::empty(), TailActionView::Stop),
        ),
        (TailState::Reading, TailEventView::Line(raw)) => if ends_line(raw) {
            Some(
                (
                    TailState::Reading,
                    Seq::<char>::empty(),
                    match prepared(pending + raw) {
                        Some(line) => TailActionView::EmitThenRead { line },
                        None => TailActionView::Read { wait_ms: 0 },
                    },
                ),
            )
        } else {
            Some(
                (
                    TailState::Reading,
                    pending + raw,
                    TailActionView::Read { wait_ms: POLL_INTERVAL_MS },
                ),
            )
        },
        (TailState::Reading, TailEventView::NoData) => Some(
            (TailState::Reading, pending, TailActionView::Read { wait_ms: POLL_INTERVAL_MS }),
        ),
        (TailState::Reading, TailEventView::ReadFailed) => Some(
            (
                TailState::Reopening,
                Seq::<char>::empty(),
                TailActionView::OpenAtEnd { wait_ms: REOPEN_DELAY_MS },
            ),
        ),
        (TailState::Reopening, TailEventView::Opened) => Some(
            (TailState::Reading, Seq::<char>::empty(), TailActionView::Read { wait_ms: 0 }),
        ),
        (TailState::Reopening, TailEventView::OpenFailed) => Some(
            (
                TailState::Reopening,
                Seq::<char>::empty(),
                TailActionView::OpenAtEnd { wait_ms: REOPEN_RETRY_DELAY_MS },
            ),
        ),
        _ => None,
    }
}

/// The content of an optional step.
pub open spec fn step_view(step: Option<(TailState, String, TailAction)>) -> Option<
    (TailState, Seq<char>, TailActionView),
> {
    match step {
        Some((state, pending, action)) => Some((state, pending@, action@)),
        None => None,
    }
}

/// How a tailer begins: by opening its file at the end, without waiting and
/// with nothing held back.
pub fn tail_start() -> (start: (TailState, String, TailAction))
    ensures
        start.0 == TailState::Opening,
        start.1@ == Seq::<char>::empty(),
        start.2@ == (TailActionView::OpenAtEnd { wait_ms: 0 }),
{
    (TailState::Opening, String::new(), TailAction::OpenAtEnd { wait_ms: 0 })
}

/// One step of a tailer: `event` is what came of the action asked for in
/// `state`, and `pending` is the text held back so far. `None` exactly when
/// `event` cannot answer that action.
pub fn tail_step(state: TailState, pending: String, event: TailEvent) -> (step: Option<
    (TailState, String, TailAction),
>)
    ensures
        step_view(step) == tail_step_spec(state, pending@, event@),
{
    match state {
        TailState::Opening => match event {
            TailEvent::Opened => Some(
                (TailState::Reading, String::new(), TailAction::Read { wait_ms: 0 }),
            ),
            TailEvent::OpenFailed => Some((TailState::Stopped, String::new(), TailAction::Stop)),
            _ => None,
        },
        TailState::Reading => match event {
            TailEvent::Line(raw) => {
                let complete = is_complete_line(raw.as_str());
                let mut text = pending;
                text.append(raw.as_str());
                if complete {
                    match prepare_line(text.as_str()) {
                        Some(line) => Some(
                            (
                                TailState::Reading,
                                String::new(),
                                TailAction::EmitThenRead { line },
                            ),
                        ),
                        None => Some(
                            (TailState::Reading, String::new(), TailAction::Read { wait_ms: 0 }),
                        ),
                    }
                } else {
                    Some(
                        (TailState::Reading, text, TailAction::Read { wait_ms: POLL_INTERVAL_MS }),
                    )
                }
            },
            TailEvent::NoData => Some(
                (TailState::Reading, pending, TailAction::Read { wait_ms: POLL_INTERVAL_MS }),
            ),
            TailEvent::ReadFailed => Some(
                (
                    TailState::Reopening,
                    String::new(),
                    TailAction::OpenAtEnd { wait_ms: REOPEN_DELAY_MS },
                ),
            ),
            _ => None,
        },
        TailState::Reopening => match event {
            TailEvent::Opened => Some(
                (TailState::Reading, String::new(), TailAction::Read { wait_ms: 0 }),
            ),
            TailEvent::OpenFailed => Some(
                (
                    TailState::Reopening,
                    String::new(),
                    TailAction::OpenAtEnd { wait_ms: REOPEN_RETRY_DELAY_MS },
                ),
            ),
            _ => None,
        },
        TailState::Stopped => None,
    }
}

/// The lines handed on while a tailer that stands in `state` and holds back
/// `pending` receives `events` one after the other. An event that cannot
/// answer ends the run.
pub open spec fn lines_emitted(
    state: TailState,
    pending: Seq<char>,
    events: Seq<TailEventView>,
) -> Seq<Seq<char>>
    decreases events.len(),
{
    if events.len() == 0 {
        seq![]
    } else {
        match tail_step_spec(state, pending, events.first()) {
            Some((next, held, action)) => {
                let rest = lines_emitted(next, held, events.drop_first());
                match action {
                    TailActionView::EmitThenRead { line } => seq![line] + rest,
                    _ => rest,
                }
            },
            None => seq![],
        }
    }
}

/// Where a tailer that stands in `state` and holds back `pending` ends
/// after `events`, and what it then holds back. An event that cannot answer
/// ends the run where it stands.
pub open spec fn run_after(
    state: TailState,
    pending: Seq<char>,
    events: Seq<TailEventView>,
) -> (TailState, Seq<char>)
    decreases events.len(),
{
    if events.len() == 0 {
        (state, pending)
    } else {
        match tail_step_spec(state, pending, events.first()) {
            Some((next, held, _)) => run_after(next, held, events.drop_first()),
            None => (state, pending),
        }
    }
}

/// Whether each of `events` in turn answers the tailer that starts in
/// `state`.
pub open spec fn all_answered(
    state: TailState,
    pending: Seq<char>,
    events: Seq<TailEventView>,
) -> bool
    decreases events.len(),
{
    if events.len() == 0 {
        true
    } else {
        match tail_step_spec(state, pending, events.first()) {
            Some((next, held, _)) => all_answered(next, held, events.drop_first()),
            None => false,
        }
    }
}

/// The tailer that reads and holds nothing back.
pub open spec fn reading() -> (TailState, Seq<char>) {
    (TailState::Reading, Seq::<char>::empty())
}

/// The events of reading `lines` one after the other.
pub open spec fn reads_of(lines: Seq<Seq<char>>) -> Seq<TailEventView> {
    Seq::new(lines.len(), |i: int| TailEventView::Line(lines[i]))
}

/// Each of `lines` without its trailing whitespace.
pub open spec fn without_line_ends(lines: Seq<Seq<char>>) -> Seq<Seq<char>> {
    Seq::new(lines.len(), |i: int| trim_end(lines[i]))
}

/// An event that completes no line: no new data, or a text without line
/// feed.
pub open spec fn is_partial(event: TailEventView) -> bool {
    match event {
        TailEventView::NoData => true,
        TailEventView::Line(raw) => !ends_line(raw),
        _ => false,
    }
}

/// What is held back after `events`, none of which completes a line, when
/// `pending` was held back before: `pending` followed by the texts that
/// were read, in order.
pub open spec fn gathered(pending: Seq<char>, events: Seq<TailEventView>) -> Seq<char>
    decreases events.len(),
{
    if events.len() == 0 {
        pending
    } else {
        match events.first() {
            TailEventView::Line(raw) => gathered(pending + raw, events.drop_first()),
            _ => gathered(pending, events.drop_first()),
        }
    }
}

/// `failed_attempts` failures to open the file, then a success.
pub open spec fn reopen_attempts(failed_attempts: nat) -> Seq<TailEventView>
    decreases failed_attempts,
{
    if failed_attempts == 0 {
        seq![TailEventView::Opened]
    } else {
        seq![TailEventView::OpenFailed] + reopen_attempts((failed_attempts - 1) as nat)
    }
}

/// The events of a recovery: a failed read, `failed_attempts` failures to
/// reopen the file, and a success.
pub open spec fn recovery(failed_attempts: nat) -> Seq<TailEventView> {
    seq![TailEventView::ReadFailed] + reopen_attempts(failed_attempts)
}

/// Every line handed on is fit for the queue: it is not empty and does not
/// end in whitespace. A line is handed on only when a text with a line feed
/// was read.
pub proof fn lemma_emitted_lines_are_log_lines(
    state: TailState,
    pending: Seq<char>,
    event: TailEventView,
)
    ensures
        tail_step_spec(state, pending, event) matches Some(
            (_, _, TailActionView::EmitThenRead { line }),
        ) ==> is_log_line(line) && (event matches TailEventView::Line(raw) && ends_line(raw)),
{
    if let TailEventView::Line(raw) = event {
        lemma_trim_end(pending + raw);
    }
}

/// Complete lines that are read one after the other, none of them blank,
/// are all handed on, each without its trailing whitespace, in the order in
/// which they were read, and the tailer goes on reading with nothing held
/// back.
pub proof fn lemma_lines_are_emitted_in_order(lines: Seq<Seq<char>>)
    requires
        forall|i: int| 0 <= i < lines.len() ==> ends_line(#[trigger] lines[i]),
        forall|i: int| 0 <= i < lines.len() ==> !is_blank(#[trigger] lines[i]),
    ensures
        lines_emitted(TailState::Reading, Seq::<char>::empty(), reads_of(lines))
            == without_line_ends(lines),
        lines_emitted(TailState::Reading, Seq::<char>::empty(), reads_of(lines)).len()
            == lines.len(),
        run_after(TailState::Reading, Seq::<char>::empty(), reads_of(lines)) == reading(),
        all_answered(TailState::Reading, Seq::<char>::empty(), reads_of(lines)),
    decreases lines.len(),
{
    let nothing = Seq::<char>::empty();
    let events = reads_of(lines);
    if lines.len() == 0 {
        assert(lines_emitted(TailState::Reading, nothing, events) =~= without_line_ends(lines));
    } else {
        let rest = lines.drop_first();
        assert forall|i: int| 0 <= i < rest.len() implies ends_line(#[trigger] rest[i]) by {
            assert(rest[i] == lines[i + 1]);
        }
        assert forall|i: int| 0 <= i < rest.len() implies !is_blank(#[trigger] rest[i]) by {
            assert(rest[i] == lines[i + 1]);
        }
        lemma_lines_are_emitted_in_order(rest);
        assert(events.first() == TailEventView::Line(lines[0]));
        assert(ends_line(lines[0]) && !is_blank(lines[0]));
        assert(nothing + lines[0] =~= lines[0]);
        assert(events.drop_first() =~= reads_of(rest));
        assert(seq![trim_end(lines[0])] + without_line_ends(rest) =~= without_line_ends(lines));
    }
}

/// Events that complete no line hand nothing on: the tailer goes on
/// reading and holds back what it held before followed by the texts that
/// were read.
pub proof fn lemma_partial_reads_are_held_back(pending: Seq<char>, events: Seq<TailEventView>)
    requires
        forall|i: int| 0 <= i < events.len() ==> is_partial(#[trigger] events[i]),
    ensures
        lines_emitted(TailState::Reading, pending, events) == Seq::<Seq<char>>::empty(),
        run_after(TailState::Reading, pending, events) == (
            TailState::Reading,
            gathered(pending, events),
        ),
        all_answered(TailState::Reading, pending, events),
    decreases events.len(),
{
    if events.len() > 0 {
        let rest = events.drop_first();
        assert forall|i: int| 0 <= i < rest.len() implies is_partial(#[trigger] rest[i]) by {
            assert(rest[i] == events[i + 1]);
        }
        assert(is_partial(events[0]));
        match events.first() {
            TailEventView::Line(raw) => {
                lemma_partial_reads_are_held_back(pending + raw, rest);
            },
            _ => {
                lemma_partial_reads_are_held_back(pending, rest);
            },
        }
    }
}

/// A run over two stretches of events is the run over the first followed by
/// the run over the second from where the first ended, provided every event
/// of the first stretch was an answer.
pub proof fn lemma_runs_compose(
    state: TailState,
    pending: Seq<char>,
    first: Seq<TailEventView>,
    second: Seq<TailEventView>,
)
    requires
        all_answered(state, pending, first),
    ensures
        lines_emitted(state, pending, first + second) == lines_emitted(state, pending, first)
            + lines_emitted(
            run_after(state, pending, first).0,
            run_after(state, pending, first).1,
            second,
        ),
        run_after(state, pending, first + second) == run_after(
            run_after(state, pending, first).0,
            run_after(state, pending, first).1,
            second,
        ),
        all_answered(state, pending, first + second) == all_answered(
            run_after(state, pending, first).0,
            run_after(state, pending, first).1,
            second,
        ),
    decreases first.len(),
{
    if first.len() == 0 {
        assert(first + second =~= second);
        assert(lines_emitted(state, pending, first) + lines_emitted(state, pending, second)
            =~= lines_emitted(state, pending, second));
    } else {
        let whole = first + second;
        assert(whole.first() == first.first());
        assert(whole.drop_first() =~= first.drop_first() + second);
        let (next, held, action) = tail_step_spec(state, pending, first.first())->0;
        lemma_runs_compose(next, held, first.drop_first(), second);
        let end = run_after(next, held, first.drop_first());
        let tail_a = lines_emitted(next, held, first.drop_first());
        let tail_b = lines_emitted(end.0, end.1, second);
        match action {
            TailActionView::EmitThenRead { line } => {
                assert(seq![line] + (tail_a + tail_b) =~= (seq![line] + tail_a) + tail_b);
            },
            _ => {},
        }
    }
}

/// A line that is written in parts is handed on once, whole, and only when
/// its line end has been read: after any reads that complete no line, a
/// text with a line feed hands on what was read since the last line end,
/// joined in order, without its trailing whitespace, or nothing if that is
/// blank.
pub proof fn lemma_a_line_in_parts_is_emitted_whole(
    parts: Seq<TailEventView>,
    last: Seq<char>,
)
    requires
        forall|i: int| 0 <= i < parts.len() ==> is_partial(#[trigger] parts[i]),
        ends_line(last),
    ensures
        lines_emitted(
            TailState::Reading,
            Seq::<char>::empty(),
            parts + seq![TailEventView::Line(last)],
        ) == match prepared(gathered(Seq::<char>::empty(), parts) + last) {
            Some(line) => seq![line],
            None => Seq::<Seq<char>>::empty(),
        },
        run_after(
            TailState::Reading,
            Seq::<char>::empty(),
            parts + seq![TailEventView::Line(last)],
        ) == reading(),
{
    let nothing = Seq::<char>::empty();
    let end = seq![TailEventView::Line(last)];
    lemma_partial_reads_are_held_back(nothing, parts);
    lemma_runs_compose(TailState::Reading, nothing, parts, end);
    let held = gathered(nothing, parts);
    let none = Seq::<TailEventView>::empty();
    assert(end.first() == TailEventView::Line(last));
    assert(end.drop_first() =~= none);
    assert(lines_emitted(TailState::Reading, nothing, none) =~= Seq::<Seq<char>>::empty());
    assert(run_after(TailState::Reading, nothing, none) == reading());
    let emitted = lines_emitted(TailState::Reading, held, end);
    match prepared(held + last) {
        Some(line) => {
            assert(emitted =~= seq![line]);
        },
        None => {
            assert(emitted =~= Seq::<Seq<char>>::empty());
        },
    }
    assert(Seq::<Seq<char>>::empty() + emitted =~= emitted);
}

/// The text "abc" read without line end, a poll that finds nothing, and
/// then "def" with its line feed hand on the one line "abcdef".
pub proof fn lemma_two_parts_make_one_line()
    ensures
        lines_emitted(
            TailState::Reading,
            Seq::<char>::empty(),
            seq![
                TailEventView::Line(seq!['a', 'b', 'c']),
                TailEventView::NoData,
                TailEventView::Line(seq!['d', 'e', 'f', '\n']),
            ],
        ) == seq![seq!['a', 'b', 'c', 'd', 'e', 'f']],
{
    let nothing = Seq::<char>::empty();
    let first = seq!['a', 'b', 'c'];
    let second = seq!['d', 'e', 'f', '\n'];
    let whole = seq!['a', 'b', 'c', 'd', 'e', 'f', '\n'];
    let line = seq!['a', 'b', 'c', 'd', 'e', 'f'];
    let parts = seq![TailEventView::Line(first), TailEventView::NoData];
    assert forall|i: int| 0 <= i < parts.len() implies is_partial(#[trigger] parts[i]) by {
        assert(first.last() == 'c');
    }
    assert(second.last() == '\n');
    lemma_a_line_in_parts_is_emitted_whole(parts, second);
    assert(parts.drop_first() =~= seq![TailEventView::NoData]);
    assert(parts.drop_first().drop_first() =~= Seq::<TailEventView>::empty());
    assert(nothing + first =~= first);
    assert(gathered(nothing, parts) == first) by {
        assert(gathered(first, parts.drop_first().drop_first()) == first);
        assert(gathered(first, parts.drop_first()) == first);
    }
    assert(first + second =~= whole);
    assert(whole.last() == '\n');
    assert(white_space('\n'));
    assert(whole.drop_last() =~= line);
    assert(line.last() == 'f');
    assert(!white_space('f'));
    assert(trim_end(line) == line);
    assert(trim_end(whole) == line);
    assert(!is_blank(whole)) by {
        assert(whole[0] == 'a');
        assert(!white_space('a'));
    }
    assert(parts + seq![TailEventView::Line(second)] =~= seq![
        TailEventView::Line(first),
        TailEventView::NoData,
        TailEventView::Line(second),
    ]);
}

/// While the file is being reopened nothing is handed on, and the first
/// successful open leads back to reading with nothing held back.
proof fn lemma_reopening(failed_attempts: nat)
    ensures
        lines_emitted(
            TailState::Reopening,
            Seq::<char>::empty(),
            reopen_attempts(failed_attempts),
        ) == Seq::<Seq<char>>::empty(),
        run_after(TailState::Reopening, Seq::<char>::empty(), reopen_attempts(failed_attempts))
            == reading(),
        all_answered(
            TailState::Reopening,
            Seq::<char>::empty(),
            reopen_attempts(failed_attempts),
        ),
    decreases failed_attempts,
{
    let nothing = Seq::<char>::empty();
    let events = reopen_attempts(failed_attempts);
    if failed_attempts == 0 {
        assert(events.first() == TailEventView::Opened);
        assert(events.drop_first() =~= Seq::<TailEventView>::empty());
        assert(lines_emitted(TailState::Reading, nothing, events.drop_first()) =~= Seq::<
            Seq<char>,
        >::empty());
        assert(all_answered(TailState::Reading, nothing, events.drop_first()));
        assert(run_after(TailState::Reading, nothing, events.drop_first()) == reading());
    } else {
        lemma_reopening((failed_attempts - 1) as nat);
        assert(events.first() == TailEventView::OpenFailed);
        assert(events.drop_first() =~= reopen_attempts((failed_attempts - 1) as nat));
    }
}

/// After a failed read the tailer hands nothing on until the file has been
/// opened again: whatever it held back is given up, and however many
/// attempts to reopen the file fail, the run ends in `Reading` with nothing
/// held back once one succeeds, and no line was emitted on the way.
pub proof fn lemma_recovery_emits_nothing(pending: Seq<char>, failed_attempts: nat)
    ensures
        lines_emitted(TailState::Reading, pending, recovery(failed_attempts)) == Seq::<
            Seq<char>,
        >::empty(),
        run_after(TailState::Reading, pending, recovery(failed_attempts)) == reading(),
        all_answered(TailState::Reading, pending, recovery(failed_attempts)),
{
    lemma_reopening(failed_attempts);
    let events = recovery(failed_attempts);
    assert(events.first() == TailEventView::ReadFailed);
    assert(events.drop_first() =~= reopen_attempts(failed_attempts));
}

/// Lines appended after a recovery are handed on as if nothing had
/// happened: a failed read, any number of failed reopens and a successful
/// one, followed by reads of complete lines that are not blank, emit
/// exactly those lines, in order.
pub proof fn lemma_tailing_resumes_after_recovery(
    pending: Seq<char>,
    failed_attempts: nat,
    lines: Seq<Seq<char>>,
)
    requires
        forall|i: int| 0 <= i < lines.len() ==> ends_line(#[trigger] lines[i]),
        forall|i: int| 0 <= i < lines.len() ==> !is_blank(#[trigger] lines[i]),
    ensures
        lines_emitted(TailState::Reading, pending, recovery(failed_attempts) + reads_of(lines))
            == without_line_ends(lines),
        run_after(TailState::Reading, pending, recovery(failed_attempts) + reads_of(lines))
            == reading(),
{
    lemma_recovery_emits_nothing(pending, failed_attempts);
    lemma_lines_are_emitted_in_order(lines);
    lemma_runs_compose(TailState::Reading, pending, recovery(failed_attempts), reads_of(lines));
    assert(Seq::<Seq<char>>::empty() + without_line_ends(lines) =~= without_line_ends(lines));
}

/// Every wait a tailer asks for is one of the three fixed pauses, or
/// none.
pub proof fn lemma_waits_are_the_fixed_pauses(
    state: TailState,
    pending: Seq<char>,
    event: TailEventView,
)
    ensures
        tail_step_spec(state, pending, event) matches Some(
            (_, _, TailActionView::Read { wait_ms }),
        ) ==> wait_ms == 0 || wait_ms == POLL_INTERVAL_MS,
        tail_step_spec(state, pending, event) matches Some(
            (_, _, TailActionView::OpenAtEnd { wait_ms }),
        ) ==> wait_ms == REOPEN_DELAY_MS || wait_ms == REOPEN_RETRY_DELAY_MS,
{
}

/// A tailer whose first open failed stays stopped: no event is an answer.
pub proof fn lemma_stopped_is_final(pending: Seq<char>, event: TailEventView)
    ensures
        tail_step_spec(TailState::Stopped, pending, event) is None,
        tail_step_spec(TailState::Opening, pending, TailEventView::OpenFailed) == Some(
            (TailState::Stopped, Seq::<char>::empty(), TailActionView::Stop),
        ),
{
}

} // verus!
