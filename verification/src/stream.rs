//! Running a job interactively over a socket: the decisions of the loop that
//! forwards the program's output to the client and the client's text to the
//! program, until either side ends.
use vstd::prelude::*;
use vstd::string::*;
use crate::text::{decimal, decimal_text, join2, lossy_text, utf8_lossy};

verus! {

/// Where an interactive session stands.
#[derive(Debug, Clone, Copy, PartialEq, Eq, Structural)]
pub enum StreamPhase {
    /// The program runs; output and client text are forwarded.
    Running,
    /// The program ended with this exit code; output still pending is
    /// forwarded before the exit is reported.
    Draining(i32),
    /// The session is over.
    Closed,
}

/// What happened next in a session.
pub enum StreamEvent {
    /// The program wrote these bytes to its output or error stream.
    Output(Vec<u8>),
    /// Sending to the client failed.
    SendFailed,
    /// The client sent text.
    ClientText(String),
    /// Writing to the program's input failed.
    StdinFailed,
    /// The client closed the connection, or it broke.
    ClientClosed,
    /// The client sent something other than text.
    ClientOther,
    /// The program ended; its exit code, where waiting gave one.
    ProcessExited(Option<i32>),
    /// No output of the ended program is left to forward.
    Drained,
}

/// What the session asks to be done.
pub enum StreamAction {
    SendToClient(String),
    WriteToProcess(String),
    Nothing,
    /// Stop serving the session.
    Close,
}

/// An action, with its text as a value.
pub enum ActionSpec {
    SendToClient(Seq<char>),
    WriteToProcess(Seq<char>),
    Nothing,
    Close,
}

impl StreamAction {
    pub open spec fn view(&self) -> ActionSpec {
        match self {
            StreamAction::SendToClient(t) => ActionSpec::SendToClient(t@),
            StreamAction::WriteToProcess(t) => ActionSpec::WriteToProcess(t@),
            StreamAction::Nothing => ActionSpec::Nothing,
            StreamAction::Close => ActionSpec::Close,
        }
    }
}

/// An event, with its contents as values.
pub enum EventSpec {
    Output(Seq<u8>),
    SendFailed,
    ClientText(Seq<char>),
    StdinFailed,
    ClientClosed,
    ClientOther,
    ProcessExited(Option<i32>),
    Drained,
}

impl StreamEvent {
    pub open spec fn view(&self) -> EventSpec {
        match self {
            StreamEvent::Output(b) => EventSpec::Output(b@),
            StreamEvent::SendFailed => EventSpec::SendFailed,
            StreamEvent::ClientText(t) => EventSpec::ClientText(t@),
            StreamEvent::StdinFailed => EventSpec::StdinFailed,
            StreamEvent::ClientClosed => EventSpec::ClientClosed,
            StreamEvent::ClientOther => EventSpec::ClientOther,
            StreamEvent::ProcessExited(c) => EventSpec::ProcessExited(*c),
            StreamEvent::Drained => EventSpec::Drained,
        }
    }
}

/// The message that reports how the program ended.
pub open spec fn exit_message_of(code: i32) -> Seq<char> {
    "\r\n[Process exited with code "@ + decimal(code as int) + "]\r\n"@
}

/// The next phase of a session and what to do, after an event.
pub open spec fn step_of(phase: StreamPhase, event: EventSpec) -> (StreamPhase, ActionSpec) {
    match phase {
        StreamPhase::Running => match event {
            EventSpec::Output(b) => (phase, ActionSpec::SendToClient(lossy_text(b))),
            EventSpec::ClientText(t) => (phase, ActionSpec::WriteToProcess(t)),
            EventSpec::SendFailed | EventSpec::StdinFailed | EventSpec::ClientClosed => (
                StreamPhase::Closed,
                ActionSpec::Close,
            ),
            EventSpec::ProcessExited(c) => (
                StreamPhase::Draining(
                    match c {
                        Some(v) => v,
                        None => -1i32,
                    },
                ),
                ActionSpec::Nothing,
            ),
            _ => (phase, ActionSpec::Nothing),
        },
        StreamPhase::Draining(code) => match event {
            EventSpec::Output(b) => (phase, ActionSpec::SendToClient(lossy_text(b))),
            EventSpec::Drained => (
                StreamPhase::Closed,
                ActionSpec::SendToClient(exit_message_of(code)),
            ),
            _ => (phase, ActionSpec::Nothing),
        },
        StreamPhase::Closed => (phase, ActionSpec::Nothing),
    }
}

/// The state of one interactive session.
pub struct StreamSession {
    pub phase: StreamPhase,
}

/// The message that reports how the program ended.
pub fn exit_message(code: i32) -> (m: String)
    ensures
        m@ == exit_message_of(code),
{
    let digits = decimal_text(code as i64);
    let mut m = join2("\r\n[Process exited with code ", digits.as_str());
    m.append("]\r\n");
    m
}

/// The message sent to the client when a C++ job does not compile: a heading
/// and the compiler's error output.
pub fn compile_error_message(compiler_stderr: &[u8]) -> (m: String)
    ensures
        m@ == "Compilation Error:\r\n"@ + lossy_text(compiler_stderr@),
{
    let text = utf8_lossy(compiler_stderr);
    join2("Compilation Error:\r\n", text.as_str())
}

impl StreamSession {
    /// A session whose program has just started.
    pub fn new() -> (s: StreamSession)
        ensures
            s.phase == StreamPhase::Running,
    {
        StreamSession { phase: StreamPhase::Running }
    }

    /// Whether the session is over.
    pub fn is_closed(&self) -> (b: bool)
        ensures
            b <==> self.phase == StreamPhase::Closed,
    {
        match self.phase {
            StreamPhase::Closed => true,
            _ => false,
        }
    }

    /// Takes an event and says what to do about it.
    pub fn step(&mut self, event: StreamEvent) -> (action: StreamAction)
        ensures
            (final(self).phase, action@) == step_of(old(self).phase, event@),
    {
        match self.phase {
            StreamPhase::Running => match event {
                StreamEvent::Output(b) => StreamAction::SendToClient(utf8_lossy(b.as_slice())),
                StreamEvent::ClientText(t) => StreamAction::WriteToProcess(t),
                StreamEvent::SendFailed | StreamEvent::StdinFailed | StreamEvent::ClientClosed => {
                    self.phase = StreamPhase::Closed;
                    StreamAction::Close
                },
                StreamEvent::ProcessExited(c) => {
                    let code = match c {
                        Some(v) => v,
                        None => -1i32,
                    };
                    self.phase = StreamPhase::Draining(code);
                    StreamAction::Nothing
                },
                _ => StreamAction::Nothing,
            },
            StreamPhase::Draining(code) => match event {
                StreamEvent::Output(b) => StreamAction::SendToClient(utf8_lossy(b.as_slice())),
                StreamEvent::Drained => {
                    self.phase = StreamPhase::Closed;
                    StreamAction::SendToClient(exit_message(code))
                },
                _ => StreamAction::Nothing,
            },
            StreamPhase::Closed => StreamAction::Nothing,
        }
    }
}

/// The phases and actions of a session that takes a sequence of events.
pub open spec fn run_of(phase: StreamPhase, events: Seq<EventSpec>) -> (StreamPhase, Seq<ActionSpec>)
    decreases events.len(),
{
    if events.len() == 0 {
        (phase, Seq::empty())
    } else {
        let (p1, a1) = step_of(phase, events[0]);
        let (p2, rest) = run_of(p1, events.drop_first());
        (p2, seq![a1] + rest)
    }
}

/// Law: while the program runs and neither side has failed or closed, every
/// text the client sends is written to the program unchanged and every piece
/// of the program's output is sent to the client decoded, one action per
/// event and in order, and the session keeps running.
pub proof fn lemma_running_session_forwards(events: Seq<EventSpec>)
    requires
        forall|i: int|
            0 <= i < events.len() ==> (#[trigger] events[i] is Output || events[i] is ClientText
                || events[i] is ClientOther),
    ensures
        run_of(StreamPhase::Running, events).0 == StreamPhase::Running,
        run_of(StreamPhase::Running, events).1.len() == events.len(),
        forall|i: int|
            0 <= i < events.len() && #[trigger] events[i] is ClientText ==> run_of(
                StreamPhase::Running,
                events,
            ).1[i] == ActionSpec::WriteToProcess(events[i]->ClientText_0),
        forall|i: int|
            0 <= i < events.len() && #[trigger] events[i] is Output ==> run_of(
                StreamPhase::Running,
                events,
            ).1[i] == ActionSpec::SendToClient(lossy_text(events[i]->Output_0)),
        forall|i: int|
            0 <= i < events.len() && #[trigger] events[i] is ClientOther ==> run_of(
                StreamPhase::Running,
                events,
            ).1[i] == ActionSpec::Nothing,
    decreases events.len(),
{
    if events.len() > 0 {
        let tail = events.drop_first();
        assert forall|i: int| 0 <= i < tail.len() implies (#[trigger] tail[i] is Output
            || tail[i] is ClientText || tail[i] is ClientOther) by {
            assert(tail[i] == events[i + 1]);
        }
        lemma_running_session_forwards(tail);
        let acts = run_of(StreamPhase::Running, events).1;
        let rest = run_of(StreamPhase::Running, tail).1;
        assert(events[0] is Output || events[0] is ClientText || events[0] is ClientOther);
        assert forall|i: int| 0 < i < events.len() implies acts[i] == rest[i - 1] && events[i]
            == tail[i - 1] by {}
    }
}

/// Law: a closed session stays closed and does nothing, whatever follows.
pub proof fn lemma_closed_session_is_inert(events: Seq<EventSpec>)
    ensures
        run_of(StreamPhase::Closed, events).0 == StreamPhase::Closed,
        forall|i: int|
            0 <= i < events.len() ==> #[trigger] run_of(StreamPhase::Closed, events).1[i]
                == ActionSpec::Nothing,
        run_of(StreamPhase::Closed, events).1.len() == events.len(),
    decreases events.len(),
{
    if events.len() > 0 {
        lemma_closed_session_is_inert(events.drop_first());
        let rest = run_of(StreamPhase::Closed, events.drop_first()).1;
        assert forall|i: int| 0 <= i < events.len() implies #[trigger] run_of(
            StreamPhase::Closed,
            events,
        ).1[i] == ActionSpec::Nothing by {
            if i > 0 {
                assert(run_of(StreamPhase::Closed, events).1[i] == rest[i - 1]);
            }
        }
    }
}

/// Law: once the program has ended, nothing more is written to its input, and
/// the exit is reported at most once.
pub proof fn lemma_no_input_after_exit(code: i32, events: Seq<EventSpec>)
    ensures
        forall|i: int|
            0 <= i < events.len() ==> !(#[trigger] run_of(StreamPhase::Draining(code), events).1[i] is WriteToProcess),
        run_of(StreamPhase::Draining(code), events).1.len() == events.len(),
        forall|i: int, j: int|
            #![trigger events[i], run_of(StreamPhase::Draining(code), events).1[j]]
            0 <= i < j < events.len() && events[i] is Drained ==> !(run_of(
                StreamPhase::Draining(code),
                events,
            ).1[j] is SendToClient),
    decreases events.len(),
{
    if events.len() > 0 {
        let (p1, a1) = step_of(StreamPhase::Draining(code), events[0]);
        let tail = events.drop_first();
        let acts = run_of(StreamPhase::Draining(code), events).1;
        if p1 == StreamPhase::Closed {
            lemma_closed_session_is_inert(tail);
            assert forall|i: int| 0 <= i < events.len() implies !(#[trigger] acts[i] is WriteToProcess) by {
                if i > 0 {
                    assert(acts[i] == run_of(StreamPhase::Closed, tail).1[i - 1]);
                }
            }
            assert forall|i: int, j: int|
                #![trigger events[i], acts[j]]
                0 <= i < j < events.len() && events[i] is Drained implies !(acts[j] is SendToClient) by {
                assert(acts[j] == run_of(StreamPhase::Closed, tail).1[j - 1]);
            }
        } else {
            assert(p1 == StreamPhase::Draining(code));
            lemma_no_input_after_exit(code, tail);
            let rest = run_of(StreamPhase::Draining(code), tail).1;
            assert forall|i: int| 0 <= i < events.len() implies !(#[trigger] acts[i] is WriteToProcess) by {
                if i > 0 {
                    assert(acts[i] == rest[i - 1]);
                }
            }
            assert forall|i: int, j: int|
                #![trigger events[i], acts[j]]
                0 <= i < j < events.len() && events[i] is Drained implies !(acts[j] is SendToClient) by {
                assert(i > 0);
                assert(tail[i - 1] == events[i]);
                assert(acts[j] == rest[j - 1]);
            }
        }
    }
}

} // verus!
