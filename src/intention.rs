//! The value a handler returns from each callback, and its builder.
use vstd::prelude::*;
use crate::protocol::Expectation;
use crate::time::Time;

verus! {

/// A handler's next state, what it waits for, and an optional deadline.
///
/// The first field is `Ok(state)` to go on, `Err(None)` to stop cleanly and
/// `Err(Some(e))` to stop with the error `e`. Without a deadline no timer is
/// armed, and the stream may wait forever unless it is woken.
///
/// Built with `Intent::of(state)` followed by an expectation, then
/// optionally a deadline.
#[derive(Debug)]
pub struct Intent<M, E>(pub Result<M, Option<E>>, pub Expectation, pub Option<Time>);

/// Returned by `Intent::of`; choosing an expectation turns it into an
/// `Intent`.
#[derive(Debug)]
pub struct IntentBuilder<M>(pub M);

impl<M, E> Intent<M, E> {
    /// Starts building the intent for the next state `machine`.
    pub fn of(machine: M) -> (r: IntentBuilder<M>)
        ensures
            r.0 == machine,
    {
        IntentBuilder(machine)
    }

    /// The handler has done its work: the stream stops cleanly.
    pub fn done() -> (r: Self)
        ensures
            r.0 == Err::<M, Option<E>>(None),
            r.1 is Sleep,
            r.2 is None,
    {
        Intent(Err(None), Expectation::Sleep, None)
    }

    /// A protocol error: the stream stops and `e` is surfaced.
    pub fn error(e: E) -> (r: Self)
        ensures
            r.0 == Err::<M, Option<E>>(Some(e)),
            r.1 is Sleep,
            r.2 is None,
    {
        Intent(Err(Some(e)), Expectation::Sleep, None)
    }

    /// Sets the deadline; an intent returned without one disarms the timer.
    pub fn deadline(self, deadline: Time) -> (r: Self)
        ensures
            r.0 == self.0,
            r.1 == self.1,
            r.2 == Some(deadline),
    {
        Intent(self.0, self.1, Some(deadline))
    }

    /// Sets the deadline from an optional value; `None` disarms the timer.
    pub fn deadline_opt(self, deadline: Option<Time>) -> (r: Self)
        ensures
            r.0 == self.0,
            r.1 == self.1,
            r.2 == deadline,
    {
        Intent(self.0, self.1, deadline)
    }
}

impl<M> IntentBuilder<M> {
    /// Waits until at least `min_bytes` are buffered.
    pub fn expect_bytes<E>(self, min_bytes: usize) -> (r: Intent<M, E>)
        ensures
            r.0 == Ok::<M, Option<E>>(self.0),
            r.1 == Expectation::Bytes(min_bytes),
            r.2 is None,
    {
        Intent(Ok(self.0), Expectation::Bytes(min_bytes), None)
    }

    /// Waits for `delim`, searching from the start of the input.
    pub fn expect_delimiter<E>(self, delim: &'static [u8], max_bytes: usize) -> (r: Intent<M, E>)
        ensures
            r.0 == Ok::<M, Option<E>>(self.0),
            r.1 == Expectation::Delimiter(0, delim, max_bytes),
            r.2 is None,
    {
        Intent(Ok(self.0), Expectation::Delimiter(0, delim, max_bytes), None)
    }

    /// Waits for `delim`, searching from `offset` on.
    pub fn expect_delimiter_after<E>(self, offset: usize, delim: &'static [u8], max_bytes: usize) -> (r: Intent<M, E>)
        ensures
            r.0 == Ok::<M, Option<E>>(self.0),
            r.1 == Expectation::Delimiter(offset, delim, max_bytes),
            r.2 is None,
    {
        Intent(Ok(self.0), Expectation::Delimiter(offset, delim, max_bytes), None)
    }

    /// Waits until the output buffer is empty.
    pub fn expect_flush<E>(self) -> (r: Intent<M, E>)
        ensures
            r.0 == Ok::<M, Option<E>>(self.0),
            r.1 == Expectation::Flush(0),
            r.2 is None,
    {
        Intent(Ok(self.0), Expectation::Flush(0), None)
    }

    /// Waits for the deadline or a wakeup.
    pub fn sleep<E>(self) -> (r: Intent<M, E>)
        ensures
            r.0 == Ok::<M, Option<E>>(self.0),
            r.1 is Sleep,
            r.2 is None,
    {
        Intent(Ok(self.0), Expectation::Sleep, None)
    }
}

/// Splits an intent into the state, expectation and deadline to go on with,
/// or the reason to stop.
pub fn to_result<M, E>(intent: Intent<M, E>) -> (r: Result<(M, Expectation, Option<Time>), Option<E>>)
    ensures
        intent.0 matches Ok(m) ==> r == Ok::<(M, Expectation, Option<Time>), Option<E>>((m, intent.1, intent.2)),
        intent.0 matches Err(e) ==> r == Err::<(M, Expectation, Option<Time>), Option<E>>(e),
{
    match intent.0 {
        Ok(m) => Ok((m, intent.1, intent.2)),
        Err(e) => Err(e),
    }
}

} // verus!
