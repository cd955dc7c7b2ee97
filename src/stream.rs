//! The stream engine: the decisions of the drive loop.
//!
//! On every reactor event the driver runs a loop: it asks `step` what to do,
//! performs that (a write, a read, a handler callback) and hands the outcome
//! back (`wrote`, `was_read`, `resume`). The engine drains writes before it
//! looks at the expectation, reads at most once per check, and suspends when
//! nothing can advance without another event.
use vstd::prelude::*;
use crate::buffer::{buf_bytes, buf_clear, buf_contents, buf_len, buf_new};
use crate::errors::ProtocolStop;
use crate::intention::Intent;
use crate::protocol::{write_zero_error, Exception, Expectation, IoOp};
use crate::substr::{find_substr, first_occurrence_from, occurs_at};
use crate::time::{deadline_reached, reached, Time};

verus! {

/// Where the drive loop stands.
#[derive(Clone, Copy, Debug, PartialEq, Eq, Structural)]
pub enum Phase {
    /// The output buffer is drained before anything else.
    Writing,
    /// The expectation is checked.
    Checking,
    /// A read was asked for; its outcome goes to `was_read`.
    Reading,
    /// A handler callback was asked for; its intent goes to `resume`.
    Calling,
    /// Nothing advances until the next reactor event.
    Suspended,
    /// The stream has terminated.
    Finished,
}

/// What the driver does next.
#[derive(Clone, Copy, Debug, PartialEq, Eq, Structural)]
pub enum Step {
    /// Write the output buffer to the socket once; the outcome goes to `wrote`.
    Write,
    /// Read from the socket into the input buffer once; the outcome goes to
    /// `was_read`.
    Read,
    /// Call the handler's `bytes_read` with this number.
    BytesRead(usize),
    /// Call the handler's `bytes_flushed`.
    BytesFlushed,
    /// Call the handler's `exception` with `LimitReached`.
    LimitReached,
    /// Return to the reactor, with the timer set to `deadline`.
    Suspend,
}

/// Why a stream could not start.
#[derive(Debug)]
pub enum StartError<E> {
    /// The handler stopped cleanly right away.
    Stop(ProtocolStop),
    /// The handler stopped with this error right away.
    Protocol(E),
}

/// The state of a stream that the engine decides on.
///
/// `deadline` is the one timer of the stream: setting it replaces the one
/// armed before, and termination clears it.
pub struct StreamCore {
    pub expectation: Expectation,
    pub deadline: Option<Time>,
    /// False until the first writable event finds no pending socket error.
    pub connected: bool,
    /// The last drain of the output buffer did not block.
    pub can_write: bool,
    pub phase: Phase,
    pub inbuf: netbuf::Buf,
    pub outbuf: netbuf::Buf,
}

/// The delimiter expectation `(min, d, _)` is met on `input` at `k`.
pub open spec fn delimiter_at(input: Seq<u8>, min: usize, d: Seq<u8>, k: int) -> bool {
    input.len() > min && first_occurrence_from(input, d, min as int, k)
}

/// The step that the expectation calls for, given the buffers.
pub open spec fn expect_step(exp: Expectation, input: Seq<u8>, out_len: nat, connected: bool) -> Step {
    match exp {
        Expectation::Bytes(n) => {
            if input.len() >= n {
                Step::BytesRead(n)
            } else if connected {
                Step::Read
            } else {
                Step::Suspend
            }
        },
        Expectation::Delimiter(min, d, max) => {
            if exists|k: int| delimiter_at(input, min, d@, k) {
                Step::BytesRead((choose|k: int| delimiter_at(input, min, d@, k)) as usize)
            } else if input.len() > max {
                Step::LimitReached
            } else if connected {
                Step::Read
            } else {
                Step::Suspend
            }
        },
        Expectation::Flush(n) => {
            if out_len <= n {
                Step::BytesFlushed
            } else {
                Step::Suspend
            }
        },
        Expectation::Sleep => Step::Suspend,
    }
}

/// The phase that follows a step.
pub open spec fn phase_after(s: Step) -> Phase {
    match s {
        Step::Write => Phase::Writing,
        Step::Read => Phase::Reading,
        Step::Suspend => Phase::Suspended,
        _ => Phase::Calling,
    }
}

impl StreamCore {
    /// The bytes in the input buffer.
    pub open spec fn input(&self) -> Seq<u8> {
        buf_contents(self.inbuf)
    }

    /// The bytes in the output buffer.
    pub open spec fn output(&self) -> Seq<u8> {
        buf_contents(self.outbuf)
    }

    /// The step that `step` returns in this state.
    pub open spec fn next_step(&self) -> Step {
        if self.phase is Writing && self.output().len() > 0 {
            Step::Write
        } else {
            expect_step(self.expectation, self.input(), self.output().len(), self.connected)
        }
    }

    /// Everything but the phase and the write flag is as in `other`.
    pub open spec fn same_stream(&self, other: &StreamCore) -> bool {
        &&& self.expectation == other.expectation
        &&& self.deadline == other.deadline
        &&& self.connected == other.connected
        &&& self.input() == other.input()
        &&& self.output() == other.output()
    }

    /// Takes the handler's first intent. A handler that stops at once is
    /// an error: a clean stop gives `ProtocolStop`.
    pub fn start<M, E>(intent: Intent<M, E>) -> (r: Result<(M, StreamCore), StartError<E>>)
        ensures
            intent.0 == Err::<M, Option<E>>(None) <==> r == Err::<(M, StreamCore), StartError<E>>(
                StartError::Stop(ProtocolStop),
            ),
            intent.0 matches Err(Some(e)) ==> r == Err::<(M, StreamCore), StartError<E>>(
                StartError::Protocol(e),
            ),
            intent.0 matches Ok(m) ==> r matches Ok((m2, core)) && m2 == m && core.expectation
                == intent.1 && core.deadline == intent.2 && !core.connected && core.phase
                is Suspended && core.input().len() == 0 && core.output().len() == 0,
    {
        match intent.0 {
            Err(None) => Err(StartError::Stop(ProtocolStop)),
            Err(Some(e)) => Err(StartError::Protocol(e)),
            Ok(m) => Ok(
                (
                    m,
                    StreamCore {
                        expectation: intent.1,
                        deadline: intent.2,
                        connected: false,
                        can_write: true,
                        phase: Phase::Suspended,
                        inbuf: buf_new(),
                        outbuf: buf_new(),
                    },
                ),
            ),
        }
    }

    /// Whether a ready event must first check the socket for a deferred
    /// connect error: only on a writable event before the stream connected.
    pub fn needs_connect_check(&self, writable: bool) -> (r: bool)
        ensures
            r == (!self.connected && writable),
    {
        !self.connected && writable
    }

    /// Takes the result of the socket-error query. No error marks the stream
    /// connected; an error is fatal and terminates the stream.
    pub fn connect_checked(&mut self, res: Result<(), std::io::Error>) -> (fatal: Option<Exception>)
        ensures
            res is Ok ==> fatal is None && final(self).connected,
            res is Ok ==> final(self).phase == old(self).phase && final(self).deadline == old(self).deadline,
            res matches Err(e) ==> fatal == Some(Exception::ConnectError(e)),
            res is Err ==> final(self).phase is Finished && final(self).deadline is None,
            final(self).expectation == old(self).expectation,
            final(self).input() == old(self).input(),
            final(self).output() == old(self).output(),
    {
        match res {
            Ok(()) => {
                self.connected = true;
                None
            },
            Err(e) => {
                self.phase = Phase::Finished;
                self.deadline = None;
                Some(Exception::ConnectError(e))
            },
        }
    }

    /// Whether a timer event is due: the deadline is set and `now` has
    /// reached it. An early or stray event is not.
    pub fn timeout_due(&self, now: Time) -> (r: bool)
        ensures
            r == deadline_reached(now, self.deadline),
    {
        reached(now, self.deadline)
    }

    /// A reactor event arrived: the loop starts by draining writes.
    pub fn begin(&mut self)
        ensures
            final(self).phase is Writing,
            final(self).can_write,
            final(self).same_stream(old(self)),
    {
        self.can_write = true;
        self.phase = Phase::Writing;
    }

    /// Decides the next step of the drive loop.
    ///
    /// While writes are due and output is left, the step is a write. Else
    /// the expectation decides: `Bytes(n)` reports exactly `n` once `n`
    /// bytes are in; `Delimiter(min, d, max)` reports the first position
    /// at or after `min` where `d` occurs, or `LimitReached` once more than
    /// `max` bytes are in; `Flush(n)` fires once at most `n` bytes are left
    /// to send; otherwise a read is due, or, before the stream connected,
    /// nothing.
    pub fn step(&mut self) -> (r: Step)
        requires
            old(self).phase is Writing || old(self).phase is Checking,
        ensures
            r == old(self).next_step(),
            final(self).phase == phase_after(r),
            old(self).phase is Writing && r != Step::Write ==> final(self).can_write,
            old(self).phase is Checking || r == Step::Write ==> final(self).can_write == old(self).can_write,
            final(self).same_stream(old(self)),
            // A byte count is reported exactly as asked for.
            r matches Step::BytesRead(k) ==> (old(self).expectation matches Expectation::Bytes(n)
                ==> k == n && old(self).input().len() >= n),
            // A delimiter is reported where it first occurs at or after the offset.
            r matches Step::BytesRead(k) ==> (old(self).expectation matches Expectation::Delimiter(
                min,
                d,
                max,
            ) ==> k >= min && occurs_at(old(self).input(), d@, k as int) && forall|j: int|
                min <= j < k ==> !occurs_at(old(self).input(), d@, j)),
            // A flush is reported once the output has drained far enough.
            r is BytesFlushed ==> (old(self).expectation matches Expectation::Flush(n)
                && old(self).output().len() <= n),
            !old(self).connected ==> r != Step::Read,
    {
        let out_len = buf_len(&self.outbuf);
        if self.phase == Phase::Writing {
            if out_len > 0 {
                return Step::Write;
            }
            self.can_write = true;
        }
        let r = self.check(out_len);
        proof {
            if let Expectation::Delimiter(min, d, max) = self.expectation {
                let input = self.input();
                if exists|k: int| delimiter_at(input, min, d@, k) {
                    let c = choose|k: int| delimiter_at(input, min, d@, k);
                    assert(delimiter_at(input, min, d@, c));
                    assert(c as usize as int == c);
                }
            }
        }
        self.phase = match r {
            Step::Write => Phase::Writing,
            Step::Read => Phase::Reading,
            Step::Suspend => Phase::Suspended,
            _ => Phase::Calling,
        };
        r
    }

    /// The step that the expectation calls for.
    fn check(&self, out_len: usize) -> (r: Step)
        requires
            out_len == self.output().len(),
        ensures
            r == expect_step(self.expectation, self.input(), self.output().len(), self.connected),
            r != Step::Write,
            self.input().len() <= usize::MAX,
    {
        let in_len = buf_len(&self.inbuf);
        match self.expectation {
            Expectation::Bytes(n) => {
                if in_len >= n {
                    Step::BytesRead(n)
                } else if self.connected {
                    Step::Read
                } else {
                    Step::Suspend
                }
            },
            Expectation::Delimiter(min, d, max) => {
                let ghost input = self.input();
                if in_len > min {
                    let bytes = buf_bytes(&self.inbuf);
                    let rest = vstd::slice::slice_subrange(bytes, min, in_len);
                    let found = find_substr(rest, d);
                    proof {
                        lemma_shifted_occurrence(input, rest@, d@, min as int);
                    }
                    match found {
                        Some(rel) => {
                            let k = min + rel;
                            proof {
                                assert(occurs_at(rest@, d@, rel as int));
                                assert(occurs_at(input, d@, k as int));
                                assert forall|j: int| min <= j < k implies !occurs_at(input, d@, j) by {
                                    assert(!occurs_at(rest@, d@, j - min));
                                }
                                assert(delimiter_at(input, min, d@, k as int));
                                lemma_delimiter_unique(input, min, d@, k as int);
                            }
                            return Step::BytesRead(k);
                        },
                        None => {
                            assert forall|k: int| !delimiter_at(input, min, d@, k) by {
                                if delimiter_at(input, min, d@, k) {
                                    assert(occurs_at(rest@, d@, k - min));
                                }
                            }
                        },
                    }
                } else {
                    assert forall|k: int| !delimiter_at(input, min, d@, k) by {}
                }
                if in_len > max {
                    Step::LimitReached
                } else if self.connected {
                    Step::Read
                } else {
                    Step::Suspend
                }
            },
            Expectation::Flush(n) => {
                if out_len <= n {
                    Step::BytesFlushed
                } else {
                    Step::Suspend
                }
            },
            Expectation::Sleep => Step::Suspend,
        }
    }

    /// Takes the outcome of one write of the output buffer.
    ///
    /// Progress keeps the loop writing; "would block" moves on to the
    /// expectation. A socket that takes no bytes is fatal with a
    /// `WriteZero` write error, and the output is dropped; any other
    /// failure is a fatal write error. A fatal outcome terminates the stream.
    pub fn wrote(&mut self, op: IoOp) -> (fatal: Option<Exception>)
        requires
            old(self).phase is Writing,
        ensures
            op is Done ==> fatal is None && final(self).phase is Writing,
            op is Done ==> final(self).same_stream(old(self)),
            op is NoOp ==> fatal is None && final(self).phase is Checking && !final(self).can_write,
            op is NoOp ==> final(self).same_stream(old(self)),
            op is Eos ==> fatal matches Some(Exception::WriteError(_)),
            op is Eos ==> final(self).output().len() == 0,
            op matches IoOp::Error(e) ==> fatal == Some(Exception::WriteError(e)),
            op is Error ==> final(self).output() == old(self).output(),
            op is Eos || op is Error ==> final(self).phase is Finished && final(self).deadline is None,
            final(self).input() == old(self).input(),
            final(self).expectation == old(self).expectation,
    {
        match op {
            IoOp::Done => None,
            IoOp::NoOp => {
                self.can_write = false;
                self.phase = Phase::Checking;
                None
            },
            IoOp::Eos => {
                buf_clear(&mut self.outbuf);
                self.phase = Phase::Finished;
                self.deadline = None;
                Some(Exception::WriteError(write_zero_error()))
            },
            IoOp::Error(e) => {
                self.phase = Phase::Finished;
                self.deadline = None;
                Some(Exception::WriteError(e))
            },
        }
    }

    /// Takes the outcome of one read into the input buffer.
    ///
    /// Progress checks the expectation again; "would block" suspends; end
    /// of stream and failures are reported to the handler's `exception`,
    /// which may recover.
    pub fn was_read(&mut self, op: IoOp) -> (exception: Option<Exception>)
        requires
            old(self).phase is Reading,
        ensures
            op is Done ==> exception is None && final(self).phase is Checking,
            op is NoOp ==> exception is None && final(self).phase is Suspended,
            op is Eos ==> exception == Some(Exception::EndOfStream) && final(self).phase is Calling,
            op matches IoOp::Error(e) ==> exception == Some(Exception::ReadError(e)),
            op is Error ==> final(self).phase is Calling,
            final(self).can_write == old(self).can_write,
            final(self).same_stream(old(self)),
    {
        match op {
            IoOp::Done => {
                self.phase = Phase::Checking;
                None
            },
            IoOp::NoOp => {
                self.phase = Phase::Suspended;
                None
            },
            IoOp::Eos => {
                self.phase = Phase::Calling;
                Some(Exception::EndOfStream)
            },
            IoOp::Error(e) => {
                self.phase = Phase::Calling;
                Some(Exception::ReadError(e))
            },
        }
    }

    /// Takes the intent a handler callback returned.
    ///
    /// Going on sets the new expectation and deadline (the deadline replaces
    /// the armed one; none disarms it) and writes first if the last drain
    /// did not block. Stopping terminates the stream and clears its timer;
    /// the reason to stop is returned.
    pub fn resume<M, E>(&mut self, intent: Intent<M, E>) -> (r: Result<M, Option<E>>)
        ensures
            intent.0 matches Ok(m) ==> r == Ok::<M, Option<E>>(m),
            intent.0 is Ok ==> final(self).expectation == intent.1 && final(self).deadline == intent.2,
            intent.0 is Ok && old(self).can_write ==> final(self).phase is Writing,
            intent.0 is Ok && !old(self).can_write ==> final(self).phase is Checking,
            intent.0 matches Err(e) ==> r == Err::<M, Option<E>>(e),
            intent.0 is Err ==> final(self).phase is Finished && final(self).deadline is None,
            intent.0 is Err ==> final(self).expectation == old(self).expectation,
            final(self).connected == old(self).connected,
            final(self).can_write == old(self).can_write,
            final(self).input() == old(self).input(),
            final(self).output() == old(self).output(),
    {
        match intent.0 {
            Ok(m) => {
                self.expectation = intent.1;
                self.deadline = intent.2;
                self.phase = if self.can_write {
                    Phase::Writing
                } else {
                    Phase::Checking
                };
                Ok(m)
            },
            Err(e) => {
                self.phase = Phase::Finished;
                self.deadline = None;
                Err(e)
            },
        }
    }
}

/// Occurrences in `input[min..]` are occurrences in `input` shifted by `min`.
proof fn lemma_shifted_occurrence(input: Seq<u8>, rest: Seq<u8>, d: Seq<u8>, min: int)
    requires
        0 <= min <= input.len(),
        rest == input.subrange(min, input.len() as int),
    ensures
        forall|j: int| #![auto] 0 <= j ==> (occurs_at(rest, d, j) <==> occurs_at(input, d, min + j)),
{
    assert forall|j: int| #![auto] 0 <= j implies (occurs_at(rest, d, j) <==> occurs_at(
        input,
        d,
        min + j,
    )) by {
        if j + d.len() <= rest.len() {
            assert(rest.subrange(j, j + d.len()) =~= input.subrange(min + j, min + j + d.len()));
        }
    }
}

/// The first occurrence at or after `min` is unique, so `choose` finds `k`.
proof fn lemma_delimiter_unique(input: Seq<u8>, min: usize, d: Seq<u8>, k: int)
    requires
        delimiter_at(input, min, d, k),
    ensures
        (choose|j: int| delimiter_at(input, min, d, j)) == k,
{
    let c = choose|j: int| delimiter_at(input, min, d, j);
    assert(delimiter_at(input, min, d, c));
    if c < k {
        assert(!occurs_at(input, d, c));
    } else if k < c {
        assert(!occurs_at(input, d, k));
    }
}

} // verus!
