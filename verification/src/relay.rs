//! The output relay: each event of the child goes to the sink it belongs to,
//! in the order it came, until the child is reported terminated.

use vstd::prelude::*;

verus! {

/// One event from the child's event stream.
#[derive(Clone, Debug, PartialEq, Eq)]
pub enum ProcessEvent {
    /// A line the child wrote to standard output, as raw bytes.
    Stdout(Vec<u8>),
    /// A line the child wrote to standard error, as raw bytes.
    Stderr(Vec<u8>),
    /// The event source failed to read; the child itself is not affected.
    Error(String),
    /// The child is gone, with its exit code and signal where there is one.
    Terminated { code: Option<i32>, signal: Option<i32> },
    /// An event of a kind the relay has no use for.
    Other,
}

/// What the relay does with one event.
#[derive(Clone, Debug, PartialEq, Eq)]
pub enum RelayAction {
    /// Write this line to the informational log.
    Info(String),
    /// Write this line to the error log.
    Error(String),
    /// Log this message as fatal for the relay; the child is left alone.
    Fatal(String),
    /// Note the child's end in the informational log and stop relaying.
    Exited { code: Option<i32>, signal: Option<i32> },
    /// Nothing to log.
    Skip,
}

/// The text that `String::from_utf8_lossy` makes of these bytes.
pub uninterp spec fn utf8_lossy(bytes: Seq<u8>) -> Seq<char>;

/// Decodes with `String::from_utf8_lossy` and takes the result as an owned
/// string. Trusted: the text is a function of the bytes alone; nothing more
/// is claimed of it here.
#[verifier::external_body]
fn decode_lossy(bytes: &Vec<u8>) -> (text: String)
    ensures
        text@ == utf8_lossy(bytes@),
{
    String::from_utf8_lossy(bytes).into_owned()
}

/// Whether the relay stops after this event.
pub open spec fn is_terminated(event: ProcessEvent) -> bool {
    event is Terminated
}

/// The line this event puts on the informational sink, if any.
pub open spec fn info_line(event: ProcessEvent) -> Option<Seq<char>> {
    match event {
        ProcessEvent::Stdout(bytes) => Some(utf8_lossy(bytes@)),
        _ => None,
    }
}

/// The line this event puts on the error sink, if any.
pub open spec fn error_line(event: ProcessEvent) -> Option<Seq<char>> {
    match event {
        ProcessEvent::Stderr(bytes) => Some(utf8_lossy(bytes@)),
        _ => None,
    }
}

/// The message this event has logged as fatal, if any.
pub open spec fn fatal_line(event: ProcessEvent) -> Option<Seq<char>> {
    match event {
        ProcessEvent::Error(message) => Some(message@),
        _ => None,
    }
}

/// Whether `action` is what the relay does with `event`.
pub open spec fn action_matches(event: ProcessEvent, action: RelayAction) -> bool {
    match event {
        ProcessEvent::Stdout(bytes) => action is Info && action->Info_0@ == utf8_lossy(bytes@),
        ProcessEvent::Stderr(bytes) => action is Error && action->Error_0@ == utf8_lossy(bytes@),
        ProcessEvent::Error(message) => action is Fatal && action->Fatal_0@ == message@,
        ProcessEvent::Terminated { code, signal } => action == (RelayAction::Exited {
            code,
            signal,
        }),
        ProcessEvent::Other => action is Skip,
    }
}

/// Decides what to do with one event. Standard output goes to the
/// informational log and standard error to the error log, both decoded
/// leniently; a read failure is fatal for the relay only; termination ends
/// the relay.
pub fn relay_event(event: &ProcessEvent) -> (action: RelayAction)
    ensures
        action_matches(*event, action),
{
    match event {
        ProcessEvent::Stdout(bytes) => RelayAction::Info(decode_lossy(bytes)),
        ProcessEvent::Stderr(bytes) => RelayAction::Error(decode_lossy(bytes)),
        ProcessEvent::Error(message) => RelayAction::Fatal(message.clone()),
        ProcessEvent::Terminated { code, signal } => RelayAction::Exited {
            code: *code,
            signal: *signal,
        },
        ProcessEvent::Other => RelayAction::Skip,
    }
}

impl RelayAction {
    /// Whether the relay loop ends after this action.
    pub fn stops(&self) -> (stop: bool)
        ensures
            stop == (self is Exited),
    {
        match self {
            RelayAction::Exited { .. } => true,
            _ => false,
        }
    }
}

/// How many events the relay consumes: all of them up to and including the
/// first termination, or all of them if there is none.
pub open spec fn consumed_count(events: Seq<ProcessEvent>, n: int) -> bool {
    &&& 0 <= n <= events.len()
    &&& forall|i: int| 0 <= i < n - 1 ==> !is_terminated(#[trigger] events[i])
    &&& n < events.len() ==> n >= 1 && is_terminated(events[n - 1])
}

/// The lines that these events put on the informational sink, in order.
pub open spec fn info_lines(events: Seq<ProcessEvent>) -> Seq<Seq<char>>
    decreases events.len(),
{
    if events.len() == 0 {
        Seq::empty()
    } else {
        match info_line(events.last()) {
            Some(line) => info_lines(events.drop_last()).push(line),
            None => info_lines(events.drop_last()),
        }
    }
}

/// The lines that these events put on the error sink, in order.
pub open spec fn error_lines(events: Seq<ProcessEvent>) -> Seq<Seq<char>>
    decreases events.len(),
{
    if events.len() == 0 {
        Seq::empty()
    } else {
        match error_line(events.last()) {
            Some(line) => error_lines(events.drop_last()).push(line),
            None => error_lines(events.drop_last()),
        }
    }
}

/// The messages that these events have logged as fatal, in order.
pub open spec fn fatal_lines(events: Seq<ProcessEvent>) -> Seq<Seq<char>>
    decreases events.len(),
{
    if events.len() == 0 {
        Seq::empty()
    } else {
        match fatal_line(events.last()) {
            Some(line) => fatal_lines(events.drop_last()).push(line),
            None => fatal_lines(events.drop_last()),
        }
    }
}

/// Whether the strings of `lines` are, one by one, the texts of `texts`.
pub open spec fn same_lines(lines: Seq<String>, texts: Seq<Seq<char>>) -> bool {
    &&& lines.len() == texts.len()
    &&& forall|i: int| 0 <= i < lines.len() ==> (#[trigger] lines[i])@ == texts[i]
}

/// Exit code and signal of a terminated child.
#[derive(Clone, Copy, Debug, PartialEq, Eq, Structural)]
pub struct ExitStatus {
    pub code: Option<i32>,
    pub signal: Option<i32>,
}

/// What a relay did over a sequence of events.
#[derive(Clone, Debug, PartialEq, Eq)]
pub struct RelayLog {
    /// Lines written to the informational sink, in order.
    pub info: Vec<String>,
    /// Lines written to the error sink, in order.
    pub error: Vec<String>,
    /// Read failures of the event source, logged as fatal, in order.
    pub fatal: Vec<String>,
    /// The child's end, if the relay saw it.
    pub exit: Option<ExitStatus>,
    /// Number of events taken from the source.
    pub consumed: usize,
}

/// The child's end as the last consumed event tells it.
pub open spec fn exit_seen(events: Seq<ProcessEvent>, n: int) -> Option<ExitStatus> {
    if 1 <= n <= events.len() {
        match events[n - 1] {
            ProcessEvent::Terminated { code, signal } => Some(ExitStatus { code, signal }),
            _ => None,
        }
    } else {
        None
    }
}

/// Relays a sequence of events. Events are taken in order until one reports
/// termination or the sequence ends; whatever is queued after a termination
/// is never looked at. Each sink receives its lines in the order the events
/// came; a read failure is logged and the relay goes on.
pub fn relay(events: &Vec<ProcessEvent>) -> (log: RelayLog)
    ensures
        consumed_count(events@, log.consumed as int),
        same_lines(log.info@, info_lines(events@.take(log.consumed as int))),
        same_lines(log.error@, error_lines(events@.take(log.consumed as int))),
        same_lines(log.fatal@, fatal_lines(events@.take(log.consumed as int))),
        log.exit == exit_seen(events@, log.consumed as int),
{
    let mut info: Vec<String> = Vec::new();
    let mut error: Vec<String> = Vec::new();
    let mut fatal: Vec<String> = Vec::new();
    let mut exit: Option<ExitStatus> = None;
    let mut i: usize = 0;
    assert(events@.take(0) =~= Seq::empty());
    while i < events.len() && exit.is_none()
        invariant
            i <= events.len(),
            forall|j: int| 0 <= j < i - 1 ==> !is_terminated(#[trigger] events@[j]),
            exit is None ==> forall|j: int| 0 <= j < i ==> !is_terminated(#[trigger] events@[j]),
            exit is Some ==> i >= 1 && is_terminated(events@[i - 1]),
            exit == exit_seen(events@, i as int),
            same_lines(info@, info_lines(events@.take(i as int))),
            same_lines(error@, error_lines(events@.take(i as int))),
            same_lines(fatal@, fatal_lines(events@.take(i as int))),
        decreases events.len() - i,
    {
        proof {
            assert(events@.take(i + 1).drop_last() =~= events@.take(i as int));
            assert(events@.take(i + 1).last() == events@[i as int]);
        }
        match relay_event(&events[i]) {
            RelayAction::Info(line) => {
                info.push(line);
            },
            RelayAction::Error(line) => {
                error.push(line);
            },
            RelayAction::Fatal(message) => {
                fatal.push(message);
            },
            RelayAction::Exited { code, signal } => {
                exit = Some(ExitStatus { code, signal });
            },
            RelayAction::Skip => {},
        }
        i = i + 1;
    }
    RelayLog { info, error, fatal, exit, consumed: i }
}

/// Whatever is queued after the first termination has no effect on what the
/// relay writes: two sequences that agree up to and including it give the
/// same lines on every sink and the same exit.
pub proof fn lemma_events_after_termination_are_ignored(
    a: Seq<ProcessEvent>,
    b: Seq<ProcessEvent>,
    n: int,
)
    requires
        1 <= n <= a.len(),
        n <= b.len(),
        a.take(n) == b.take(n),
        consumed_count(a, n),
        is_terminated(a[n - 1]),
    ensures
        consumed_count(b, n),
        info_lines(a.take(n)) == info_lines(b.take(n)),
        error_lines(a.take(n)) == error_lines(b.take(n)),
        fatal_lines(a.take(n)) == fatal_lines(b.take(n)),
        exit_seen(a, n) == exit_seen(b, n),
{
    assert forall|i: int| 0 <= i < n implies a[i] == b[i] by {
        assert(a.take(n)[i] == a[i]);
        assert(b.take(n)[i] == b[i]);
    }
}

/// The number of events consumed is determined by the events: there is only
/// one count that `consumed_count` accepts.
pub proof fn lemma_consumed_count_is_unique(events: Seq<ProcessEvent>, n: int, m: int)
    requires
        consumed_count(events, n),
        consumed_count(events, m),
    ensures
        n == m,
{
    if n < m {
        assert(!is_terminated(events[n - 1]));
    }
    if m < n {
        assert(!is_terminated(events[m - 1]));
    }
}

/// Within one sink the order of the source is kept: what a longer run of
/// events writes begins with what the shorter run wrote.
pub proof fn lemma_lines_extend_in_order(events: Seq<ProcessEvent>, n: int)
    requires
        0 <= n <= events.len(),
    ensures
        info_lines(events.take(n)).is_prefix_of(info_lines(events)),
        error_lines(events.take(n)).is_prefix_of(error_lines(events)),
        fatal_lines(events.take(n)).is_prefix_of(fatal_lines(events)),
    decreases events.len(),
{
    if n == events.len() {
        assert(events.take(n) =~= events);
    } else {
        let front = events.drop_last();
        assert(front.take(n) =~= events.take(n));
        lemma_lines_extend_in_order(front, n);
    }
}

} // verus!
