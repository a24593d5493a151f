//! The order in which a child's two streams are handed on to the parent's.
//!
//! The relay reads one line at a time from one of the child's streams and
//! writes it to the parent's stream of the same kind. Which stream to read
//! next, where a line goes and when the work is done is decided here; the
//! reading and writing is the caller's. The policy is to drain the error
//! stream to its end first and the output stream after it, so a child that
//! fills its output pipe while the relay still waits on the error stream
//! stalls: the order of the lines is the policy's, not the child's.

use vstd::prelude::*;

verus! {

/// One of the two streams of a process.
#[derive(Debug, Clone, Copy, PartialEq, Eq, Structural)]
pub enum Stream {
    Error,
    Output,
}

/// Where the relay stands.
#[derive(Debug, Clone, Copy, PartialEq, Eq, Structural)]
pub enum RelayState {
    /// The child's error stream has not ended.
    DrainingError,
    /// The child's error stream has ended and its output stream has not.
    DrainingOutput,
    /// Both streams have ended.
    Done,
}

/// The stream of the child that the relay reads next; `None` once both have
/// ended.
pub open spec fn source_of(state: RelayState) -> Option<Stream> {
    match state {
        RelayState::DrainingError => Some(Stream::Error),
        RelayState::DrainingOutput => Some(Stream::Output),
        RelayState::Done => None,
    }
}

/// What follows a read of `bytes_read` bytes from the stream read next: the
/// new state, and the stream of the parent that the line is written to. A
/// read of no bytes is the stream's end: nothing is written and the relay
/// moves on. Any other read is a line for the parent's stream of the same
/// kind, and the relay stays.
pub open spec fn step_of(state: RelayState, bytes_read: nat) -> (RelayState, Option<Stream>) {
    match state {
        RelayState::DrainingError => if bytes_read == 0 {
            (RelayState::DrainingOutput, None)
        } else {
            (RelayState::DrainingError, Some(Stream::Error))
        },
        RelayState::DrainingOutput => if bytes_read == 0 {
            (RelayState::Done, None)
        } else {
            (RelayState::DrainingOutput, Some(Stream::Output))
        },
        RelayState::Done => (RelayState::Done, None),
    }
}

impl RelayState {
    /// The state before anything is read.
    pub fn start() -> (state: RelayState)
        ensures
            state == RelayState::DrainingError,
    {
        RelayState::DrainingError
    }

    /// The stream of the child to read the next line from.
    pub fn source(&self) -> (stream: Option<Stream>)
        ensures
            stream == source_of(*self),
    {
        match self {
            RelayState::DrainingError => Some(Stream::Error),
            RelayState::DrainingOutput => Some(Stream::Output),
            RelayState::Done => None,
        }
    }

    /// Takes the outcome of reading a line from `self.source()`: the number
    /// of bytes read, 0 at the stream's end or where the child has no such
    /// stream. Gives the next state and the parent's stream to write the
    /// line to.
    pub fn step(self, bytes_read: usize) -> (r: (RelayState, Option<Stream>))
        ensures
            r == step_of(self, bytes_read as nat),
    {
        match self {
            RelayState::DrainingError => if bytes_read == 0 {
                (RelayState::DrainingOutput, None)
            } else {
                (RelayState::DrainingError, Some(Stream::Error))
            },
            RelayState::DrainingOutput => if bytes_read == 0 {
                (RelayState::Done, None)
            } else {
                (RelayState::DrainingOutput, Some(Stream::Output))
            },
            RelayState::Done => (RelayState::Done, None),
        }
    }
}

/// A line that the relay wrote, and where.
pub struct Written {
    pub sink: Stream,
    pub line: Seq<u8>,
}

/// How many of the two streams have not ended.
pub open spec fn open_streams(state: RelayState) -> nat {
    match state {
        RelayState::DrainingError => 2,
        RelayState::DrainingOutput => 1,
        RelayState::Done => 0,
    }
}

/// The rest of `lines` behind the line that a read takes.
pub open spec fn unread(lines: Seq<Seq<u8>>) -> Seq<Seq<u8>> {
    if lines.len() > 0 {
        lines.skip(1)
    } else {
        lines
    }
}

/// What one read from `lines` and the step that follows it write.
pub open spec fn written_by_read(state: RelayState, lines: Seq<Seq<u8>>) -> Seq<Written> {
    if lines.len() > 0 {
        match step_of(state, lines[0].len()).1 {
            Some(sink) => seq![Written { sink, line: lines[0] }],
            None => Seq::empty(),
        }
    } else {
        Seq::empty()
    }
}

/// The state after one read from `lines`.
pub open spec fn state_after_read(state: RelayState, lines: Seq<Seq<u8>>) -> RelayState {
    step_of(state, if lines.len() > 0 { lines[0].len() } else { 0 }).0
}

/// Everything the relay writes, in order, from `state` on, when the child's
/// error stream still holds the lines `err` and its output stream the lines
/// `out`: the relay reads from the stream that `source_of` names, takes the
/// step that `step_of` names, and goes on until the state is `Done`.
pub open spec fn relay_trace(state: RelayState, err: Seq<Seq<u8>>, out: Seq<Seq<u8>>) -> Seq<
    Written,
>
    decreases open_streams(state), err.len() + out.len(),
{
    match source_of(state) {
        None => Seq::empty(),
        Some(Stream::Error) => written_by_read(state, err) + relay_trace(
            state_after_read(state, err),
            unread(err),
            out,
        ),
        Some(Stream::Output) => written_by_read(state, out) + relay_trace(
            state_after_read(state, out),
            err,
            unread(out),
        ),
    }
}

/// The lines `lines`, each written to `sink`.
pub open spec fn all_to(sink: Stream, lines: Seq<Seq<u8>>) -> Seq<Written> {
    Seq::new(lines.len(), |i: int| Written { sink, line: lines[i] })
}

/// Once the error stream has ended, the relay writes the output lines, in
/// their order, to the parent's output stream, and nothing else.
pub proof fn lemma_output_phase(err: Seq<Seq<u8>>, out: Seq<Seq<u8>>)
    requires
        forall|i: int| 0 <= i < out.len() ==> out[i].len() > 0,
    ensures
        relay_trace(RelayState::DrainingOutput, err, out) == all_to(Stream::Output, out),
    decreases out.len(),
{
    let state = RelayState::DrainingOutput;
    if out.len() > 0 {
        let rest = out.skip(1);
        assert forall|i: int| 0 <= i < rest.len() implies rest[i].len() > 0 by {
            assert(rest[i] == out[i + 1]);
        }
        lemma_output_phase(err, rest);
        assert(seq![Written { sink: Stream::Output, line: out[0] }] + all_to(Stream::Output, rest)
            =~= all_to(Stream::Output, out));
    } else {
        assert(relay_trace(RelayState::Done, err, out) =~= Seq::empty());
        assert(relay_trace(state, err, out) =~= all_to(Stream::Output, out));
    }
}

/// Whatever the child wrote and in whatever order its writes fell, the
/// relay hands on every line of the error stream, in order, to the parent's
/// error stream before it hands on any line of the output stream, and then
/// every line of the output stream, in order, to the parent's output stream.
/// No line is dropped and none is written twice. (A line holds at least its
/// line end, so no line is empty.)
pub proof fn law_error_lines_first(err: Seq<Seq<u8>>, out: Seq<Seq<u8>>)
    requires
        forall|i: int| 0 <= i < err.len() ==> err[i].len() > 0,
        forall|i: int| 0 <= i < out.len() ==> out[i].len() > 0,
    ensures
        relay_trace(RelayState::DrainingError, err, out) == all_to(Stream::Error, err) + all_to(
            Stream::Output,
            out,
        ),
    decreases err.len(),
{
    let state = RelayState::DrainingError;
    if err.len() > 0 {
        let rest = err.skip(1);
        assert forall|i: int| 0 <= i < rest.len() implies rest[i].len() > 0 by {
            assert(rest[i] == err[i + 1]);
        }
        law_error_lines_first(rest, out);
        assert(seq![Written { sink: Stream::Error, line: err[0] }] + (all_to(Stream::Error, rest)
            + all_to(Stream::Output, out)) =~= all_to(Stream::Error, err) + all_to(
            Stream::Output,
            out,
        ));
    } else {
        lemma_output_phase(err, out);
        assert(all_to(Stream::Error, err) + all_to(Stream::Output, out) =~= all_to(
            Stream::Output,
            out,
        ));
        assert(written_by_read(state, err) + relay_trace(RelayState::DrainingOutput, err, out)
            =~= relay_trace(RelayState::DrainingOutput, err, out));
    }
}

/// No step leads back: the number of streams that have not ended never
/// grows, and a line is only ever written to the stream that the state
/// before the step named.
pub proof fn law_relay_moves_forward(state: RelayState, bytes_read: nat)
    ensures
        open_streams(step_of(state, bytes_read).0) <= open_streams(state),
        step_of(state, bytes_read).1 is Some ==> step_of(state, bytes_read).1 == source_of(state)
            && step_of(state, bytes_read).0 == state,
        step_of(state, bytes_read).0 == RelayState::DrainingError ==> state
            == RelayState::DrainingError,
{
}

} // verus!
