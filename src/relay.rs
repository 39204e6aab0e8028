//! The output relay: each line read from the process's output streams becomes
//! a stamped event, and the error stream is watched for a failed port bind.

use vstd::prelude::*;
use crate::clock::{is_stamp, stamp_now};
use crate::model::{OutputView, ServerOutput};
use crate::text::{contains_seq, lemma_contains_trans, occurs_at, text_contains};

verus! {

/// The content of the extra output line emitted when the bind failed.
pub const STARTUP_FAILURE_MESSAGE: &'static str = "Server startup failed: Port already in use";

/// Whether a line of the error stream says that the port could not be bound.
///
/// The signatures are the plain phrase, the errno-48 spelling, the "Port
/// already in use" spelling and a refused bind. The longer spellings
/// `OSError: [Errno 48]` and "bind on address ... address already in use"
/// hold one of these (`lemma_longer_spellings_covered`).
pub open spec fn signals_port_conflict(line: Seq<char>) -> bool {
    ||| contains_seq(line, "address already in use"@)
    ||| contains_seq(line, "Errno 48"@)
    ||| contains_seq(line, "Port already in use"@)
    ||| contains_seq(line, "Cannot bind to address"@)
}

/// Checks a line of the error stream against the port-conflict signatures.
pub fn is_port_conflict(line: &str) -> (r: bool)
    ensures
        r == signals_port_conflict(line@),
{
    text_contains(line, "address already in use") || text_contains(line, "Errno 48")
        || text_contains(line, "Port already in use") || text_contains(
        line,
        "Cannot bind to address",
    )
}

/// The longer spellings of a failed bind are all recognised: the
/// `OSError: [Errno 48]` form, and a line naming the bind address that says
/// the address is already in use.
pub proof fn lemma_longer_spellings_covered(line: Seq<char>)
    ensures
        contains_seq(line, "OSError: [Errno 48]"@) ==> signals_port_conflict(line),
        contains_seq(line, "bind on address"@) && contains_seq(line, "address already in use"@)
            ==> signals_port_conflict(line),
{
    if contains_seq(line, "OSError: [Errno 48]"@) {
        reveal_strlit("OSError: [Errno 48]");
        reveal_strlit("Errno 48");
        assert("OSError: [Errno 48]"@.subrange(10, 18) =~= "Errno 48"@);
        assert(occurs_at("OSError: [Errno 48]"@, "Errno 48"@, 10));
        lemma_contains_trans(line, "OSError: [Errno 48]"@, "Errno 48"@);
    }
}

/// Which output stream a line came from; `Error` tags lines that the
/// supervisor itself adds.
#[derive(Clone, Copy, Debug, PartialEq, Eq, Structural)]
pub enum Stream {
    Stdout,
    Stderr,
    Error,
}

pub open spec fn stream_name(s: Stream) -> Seq<char> {
    match s {
        Stream::Stdout => "stdout"@,
        Stream::Stderr => "stderr"@,
        Stream::Error => "error"@,
    }
}

impl Stream {
    /// The tag carried in the `stream` field of a relayed line.
    pub fn name(&self) -> (r: &'static str)
        ensures
            r@ == stream_name(*self),
    {
        match self {
            Stream::Stdout => "stdout",
            Stream::Stderr => "stderr",
            Stream::Error => "error",
        }
    }
}

/// A relayed line as values.
pub open spec fn output_view(timestamp: Seq<char>, stream: Stream, content: Seq<char>) -> OutputView {
    OutputView { timestamp, stream: stream_name(stream), content }
}

/// Builds the relayed form of one line.
pub fn make_output(timestamp: String, stream: Stream, content: String) -> (r: ServerOutput)
    ensures
        r@ == output_view(timestamp@, stream, content@),
{
    ServerOutput { timestamp, stream: String::from_str(stream.name()), content }
}

/// Stamps one line with the current time.
pub fn stamped_output(stream: Stream, content: String) -> (r: ServerOutput)
    ensures
        is_stamp(r.timestamp@),
        r.stream@ == stream_name(stream),
        r.content@ == content@,
{
    make_output(stamp_now(), stream, content)
}

/// What an event reports: a relayed line, or the failed start.
#[derive(Clone, Copy, Debug, PartialEq, Eq, Structural)]
pub enum EventKind {
    Output,
    StartupFailed,
}

/// One event for the event sink.
#[derive(Clone, Debug)]
pub struct RelayEvent {
    pub kind: EventKind,
    pub payload: ServerOutput,
}

impl RelayEvent {
    /// The channel the event is published on.
    pub fn channel(&self) -> (r: &'static str)
        ensures
            r@ == (match self.kind {
                EventKind::Output => "server-output"@,
                EventKind::StartupFailed => "server-startup-failed"@,
            }),
    {
        match self.kind {
            EventKind::Output => "server-output",
            EventKind::StartupFailed => "server-startup-failed",
        }
    }
}

/// An event as its kind and its payload's values.
pub open spec fn event_view(e: RelayEvent) -> (EventKind, OutputView) {
    (e.kind, e.payload@)
}

pub open spec fn event_views(events: Seq<RelayEvent>) -> Seq<(EventKind, OutputView)> {
    events.map_values(|e: RelayEvent| event_view(e))
}

/// The events of one line of the error stream, stamped `ts`, for a reader in
/// state `finished`: the forwarded line, followed on a port conflict by an
/// output line on the error stream and a startup-failure event that both
/// carry the failure message.
pub open spec fn stderr_line_events(finished: bool, ts: Seq<char>, line: Seq<char>) -> Seq<
    (EventKind, OutputView),
> {
    if finished {
        seq![]
    } else if signals_port_conflict(line) {
        seq![
            (EventKind::Output, output_view(ts, Stream::Stderr, line)),
            (EventKind::Output, output_view(ts, Stream::Error, STARTUP_FAILURE_MESSAGE@)),
            (EventKind::StartupFailed, output_view(ts, Stream::Error, STARTUP_FAILURE_MESSAGE@)),
        ]
    } else {
        seq![(EventKind::Output, output_view(ts, Stream::Stderr, line))]
    }
}

/// The number of startup-failure events in `events`.
pub open spec fn failure_count(events: Seq<RelayEvent>) -> nat
    decreases events.len(),
{
    if events.len() == 0 {
        0
    } else {
        (if events.last().kind == EventKind::StartupFailed {
            1nat
        } else {
            0nat
        }) + failure_count(events.drop_last())
    }
}

/// Whether the error-stream reader stops scanning after this line.
pub open spec fn ends_scan(finished: bool, line: Seq<char>) -> bool {
    finished || signals_port_conflict(line)
}

/// How many startup-failure events one line of the error stream produces.
pub open spec fn step_failures(finished: bool, line: Seq<char>) -> nat {
    if !finished && signals_port_conflict(line) {
        1
    } else {
        0
    }
}

/// The startup-failure events that a reader in state `finished` produces
/// over the lines `lines`, fed one by one.
pub open spec fn run_failures(finished: bool, lines: Seq<Seq<char>>) -> nat
    decreases lines.len(),
{
    if lines.len() == 0 {
        0
    } else {
        step_failures(finished, lines[0]) + run_failures(
            ends_scan(finished, lines[0]),
            lines.drop_first(),
        )
    }
}

/// Forwards every line of the standard output stream.
pub fn relay_stdout_line_at(timestamp: String, line: String) -> (r: RelayEvent)
    ensures
        r.kind == EventKind::Output,
        r.payload@ == output_view(timestamp@, Stream::Stdout, line@),
{
    RelayEvent { kind: EventKind::Output, payload: make_output(timestamp, Stream::Stdout, line) }
}

/// Forwards a line of the standard output stream, stamped now.
pub fn relay_stdout_line(line: String) -> (r: RelayEvent)
    ensures
        r.kind == EventKind::Output,
        is_stamp(r.payload.timestamp@),
        r.payload@ == output_view(r.payload.timestamp@, Stream::Stdout, line@),
{
    relay_stdout_line_at(stamp_now(), line)
}

/// The reader of the error stream. Once it has seen a port conflict it has
/// finished: it reports the failure once and forwards nothing more.
pub struct StderrRelay {
    finished: bool,
}

impl StderrRelay {
    pub closed spec fn spec_finished(&self) -> bool {
        self.finished
    }

    pub fn new() -> (r: StderrRelay)
        ensures
            !r.spec_finished(),
    {
        StderrRelay { finished: false }
    }

    /// Whether the port conflict has been seen, so that reading can stop.
    pub fn is_finished(&self) -> (r: bool)
        ensures
            r == self.spec_finished(),
    {
        self.finished
    }

    /// Handles one line of the error stream, stamped with `timestamp`: it is
    /// forwarded, and if it shows a port conflict an output line on the error
    /// stream and a startup-failure event describe the failure. A finished
    /// reader emits nothing.
    pub fn on_line_at(&mut self, timestamp: String, line: String) -> (events: Vec<RelayEvent>)
        ensures
            final(self).spec_finished() == ends_scan(old(self).spec_finished(), line@),
            failure_count(events@) == step_failures(old(self).spec_finished(), line@),
            event_views(events@) == stderr_line_events(
                old(self).spec_finished(),
                timestamp@,
                line@,
            ),
    {
        let mut events: Vec<RelayEvent> = Vec::new();
        if self.finished {
            assert(event_views(events@) =~= Seq::<(EventKind, OutputView)>::empty());
            return events;
        }
        let conflict = is_port_conflict(line.as_str());
        let stamp = timestamp.clone();
        events.push(
            RelayEvent { kind: EventKind::Output, payload: make_output(timestamp, Stream::Stderr, line) },
        );
        proof {
            assert(events@.drop_last() =~= Seq::<RelayEvent>::empty());
            assert(failure_count(events@.drop_last()) == 0);
            assert(failure_count(events@) == 0);
        }
        if conflict {
            let ghost one = events@;
            let stamp2 = stamp.clone();
            let described = make_output(stamp, Stream::Error, String::from_str(STARTUP_FAILURE_MESSAGE));
            events.push(RelayEvent { kind: EventKind::Output, payload: described });
            let ghost two = events@;
            let failure = make_output(stamp2, Stream::Error, String::from_str(STARTUP_FAILURE_MESSAGE));
            events.push(RelayEvent { kind: EventKind::StartupFailed, payload: failure });
            self.finished = true;
            proof {
                assert(two.drop_last() =~= one);
                assert(failure_count(two) == 0);
                assert(events@.drop_last() =~= two);
                assert(failure_count(events@) == 1);
            }
        }
        assert(event_views(events@) =~= stderr_line_events(false, timestamp@, line@));
        events
    }

    /// Handles one line of the error stream, stamped now; all the events of
    /// the line carry the same stamp.
    pub fn on_line(&mut self, line: String) -> (events: Vec<RelayEvent>)
        ensures
            final(self).spec_finished() == ends_scan(old(self).spec_finished(), line@),
            failure_count(events@) == step_failures(old(self).spec_finished(), line@),
            old(self).spec_finished() ==> events@.len() == 0,
            !old(self).spec_finished() ==> {
                &&& events@.len() >= 1
                &&& is_stamp(events@[0].payload.timestamp@)
                &&& event_views(events@) == stderr_line_events(
                    false,
                    events@[0].payload.timestamp@,
                    line@,
                )
            },
    {
        let stamp = stamp_now();
        let ghost text = line@;
        let events = self.on_line_at(stamp.clone(), line);
        proof {
            assert(event_views(events@).len() == events@.len());
            if !old(self).spec_finished() {
                assert(stderr_line_events(false, stamp@, text).len() >= 1);
                assert(event_views(events@)[0] == event_view(events@[0]));
                assert(events@[0].payload.timestamp@ == stamp@);
            }
        }
        events
    }
}

/// Fed any sequence of error-stream lines from the start, the reader emits
/// exactly one startup-failure event if some line shows a port conflict, and
/// none otherwise.
pub proof fn lemma_one_startup_failure(lines: Seq<Seq<char>>)
    ensures
        run_failures(false, lines) == (if exists|i: int|
            0 <= i < lines.len() && #[trigger] signals_port_conflict(lines[i]) {
            1nat
        } else {
            0nat
        }),
    decreases lines.len(),
{
    if lines.len() > 0 {
        let rest = lines.drop_first();
        lemma_one_startup_failure(rest);
        lemma_finished_emits_nothing(rest);
        if signals_port_conflict(lines[0]) {
        } else {
            if exists|i: int| 0 <= i < lines.len() && #[trigger] signals_port_conflict(lines[i]) {
                let i = choose|i: int| 0 <= i < lines.len() && #[trigger] signals_port_conflict(lines[i]);
                assert(signals_port_conflict(rest[i - 1]));
            }
            if exists|i: int| 0 <= i < rest.len() && #[trigger] signals_port_conflict(rest[i]) {
                let i = choose|i: int| 0 <= i < rest.len() && #[trigger] signals_port_conflict(rest[i]);
                assert(signals_port_conflict(lines[i + 1]));
            }
        }
    }
}

/// A finished reader emits no further startup-failure event.
pub proof fn lemma_finished_emits_nothing(lines: Seq<Seq<char>>)
    ensures
        run_failures(true, lines) == 0,
    decreases lines.len(),
{
    if lines.len() > 0 {
        lemma_finished_emits_nothing(lines.drop_first());
    }
}

} // verus!
