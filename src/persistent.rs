//! The reconnecting client: Idle, Connecting, Established, Sleeping.
//!
//! Any end of a connection (a stopped stream, a failed or timed-out
//! connect, a hang-up) leads to `Sleeping`, and the next connect attempt is
//! made once the back-off has passed. Stray events leave the state as it is.
use vstd::prelude::*;
use crate::time::Time;

verus! {

/// Back-off before connecting again, in milliseconds.
pub const RECONNECT_TIMEOUT: u64 = 200;

/// Time allowed for establishing a connection, in milliseconds.
pub const CONNECT_TIMEOUT: u64 = 1000;

/// The state of a reconnecting client, over its socket type `S` and its
/// established stream type `T`.
#[derive(Debug)]
pub enum Fsm<S, T> {
    /// No socket and no timer.
    Idle,
    /// Waiting for the socket to connect, until the deadline.
    Connecting(S, Time),
    /// Connected: events go to the stream.
    Established(T),
    /// Waiting until the deadline to connect again.
    Sleeping(Time),
}

/// A reactor event, as the client sees it.
#[derive(Clone, Copy, Debug, PartialEq, Eq, Structural)]
pub enum Event {
    Ready { writable: bool, hup: bool },
    Timeout,
    Wakeup,
}

/// What the driver does with an event.
#[derive(Debug)]
pub enum Action<S, T> {
    /// Go on in this state, with its deadline.
    Stay(Fsm<S, T>),
    /// Open a new connection.
    Connect,
    /// The socket connected: start a stream on it.
    Establish(S),
    /// Pass the event to the established stream.
    Deliver(T),
}

/// The state entered when a connection ends at `now`.
pub open spec fn sleeping_after<S, T>(now: Time) -> Fsm<S, T> {
    Fsm::Sleeping(Time { millis: (now.millis + RECONNECT_TIMEOUT) as u64 })
}

/// The state entered after a connect attempt at `now`.
pub open spec fn connecting_after<S, T, E>(res: Result<S, E>, now: Time) -> Fsm<S, T> {
    match res {
        Ok(sock) => Fsm::Connecting(sock, Time { millis: (now.millis + CONNECT_TIMEOUT) as u64 }),
        Err(_) => sleeping_after(now),
    }
}

/// What an event in a state leads to.
pub open spec fn next_action<S, T>(state: Fsm<S, T>, event: Event, now: Time) -> Action<S, T> {
    match state {
        Fsm::Idle => Action::Stay(Fsm::Idle),
        Fsm::Connecting(sock, deadline) => match event {
            Event::Ready { writable, hup } => {
                if writable {
                    Action::Establish(sock)
                } else if hup {
                    Action::Stay(sleeping_after(now))
                } else {
                    Action::Stay(Fsm::Connecting(sock, deadline))
                }
            },
            Event::Timeout => {
                if now.millis >= deadline.millis {
                    Action::Stay(sleeping_after(now))
                } else {
                    Action::Stay(Fsm::Connecting(sock, deadline))
                }
            },
            Event::Wakeup => Action::Stay(Fsm::Connecting(sock, deadline)),
        },
        Fsm::Established(stream) => Action::Deliver(stream),
        Fsm::Sleeping(deadline) => match event {
            Event::Timeout => {
                if now.millis >= deadline.millis {
                    Action::Connect
                } else {
                    Action::Stay(Fsm::Sleeping(deadline))
                }
            },
            _ => Action::Stay(Fsm::Sleeping(deadline)),
        },
    }
}

/// The timer a state keeps; an established stream keeps its own.
pub open spec fn state_deadline<S, T>(state: Fsm<S, T>) -> Option<Time> {
    match state {
        Fsm::Connecting(_, d) => Some(d),
        Fsm::Sleeping(d) => Some(d),
        _ => None,
    }
}

impl<S, T> Fsm<S, T> {
    /// Decides what an event leads to.
    ///
    /// Connecting: a writable event hands the socket to a new stream, a
    /// hang-up or the connect deadline leads to sleeping. Established: the
    /// stream gets the event. Sleeping: the deadline leads to a new connect
    /// attempt. Anything else leaves the state as it is.
    pub fn decide(self, event: Event, now: Time) -> (r: Action<S, T>)
        requires
            now.millis + CONNECT_TIMEOUT <= u64::MAX,
        ensures
            r == next_action(self, event, now),
    {
        match self {
            Fsm::Idle => Action::Stay(Fsm::Idle),
            Fsm::Connecting(sock, deadline) => match event {
                Event::Ready { writable, hup } => {
                    if writable {
                        Action::Establish(sock)
                    } else if hup {
                        Action::Stay(Fsm::stopped(now))
                    } else {
                        Action::Stay(Fsm::Connecting(sock, deadline))
                    }
                },
                Event::Timeout => {
                    if now.millis >= deadline.millis {
                        Action::Stay(Fsm::stopped(now))
                    } else {
                        Action::Stay(Fsm::Connecting(sock, deadline))
                    }
                },
                Event::Wakeup => Action::Stay(Fsm::Connecting(sock, deadline)),
            },
            Fsm::Established(stream) => Action::Deliver(stream),
            Fsm::Sleeping(deadline) => match event {
                Event::Timeout => {
                    if now.millis >= deadline.millis {
                        Action::Connect
                    } else {
                        Action::Stay(Fsm::Sleeping(deadline))
                    }
                },
                _ => Action::Stay(Fsm::Sleeping(deadline)),
            },
        }
    }

    /// The state after a connection ended at `now`: sleeping for the
    /// back-off.
    pub fn stopped(now: Time) -> (r: Fsm<S, T>)
        requires
            now.millis + RECONNECT_TIMEOUT <= u64::MAX,
        ensures
            r == sleeping_after::<S, T>(now),
    {
        Fsm::Sleeping(now.after(RECONNECT_TIMEOUT))
    }

    /// The state after a connect attempt at `now`: connecting until the
    /// connect deadline, or sleeping if the attempt failed at once.
    pub fn after_connect<E>(res: Result<S, E>, now: Time) -> (r: Fsm<S, T>)
        requires
            now.millis + CONNECT_TIMEOUT <= u64::MAX,
        ensures
            r == connecting_after::<S, T, E>(res, now),
    {
        match res {
            Ok(sock) => Fsm::Connecting(sock, now.after(CONNECT_TIMEOUT)),
            Err(_) => Fsm::stopped(now),
        }
    }

    /// The deadline to set for this state.
    pub fn deadline(&self) -> (r: Option<Time>)
        ensures
            r == state_deadline(*self),
    {
        match self {
            Fsm::Connecting(_, d) => Some(*d),
            Fsm::Sleeping(d) => Some(*d),
            _ => None,
        }
    }

    /// Whether a stream is established.
    pub fn is_established(&self) -> (r: bool)
        ensures
            r == (*self is Established),
    {
        match self {
            Fsm::Established(_) => true,
            _ => false,
        }
    }
}

/// Whatever ended a connection at `stopped`, the client sleeps with its
/// timer at `stopped + RECONNECT_TIMEOUT`, and a timer event at `later`
/// starts a new connect attempt exactly when that much time has passed;
/// before that the client keeps sleeping.
pub proof fn lemma_reconnect_after_backoff<S, T>(stopped: Time, later: Time)
    requires
        stopped.millis + RECONNECT_TIMEOUT <= u64::MAX,
    ensures
        sleeping_after::<S, T>(stopped) is Sleeping,
        state_deadline(sleeping_after::<S, T>(stopped)) == Some(
            Time { millis: (stopped.millis + RECONNECT_TIMEOUT) as u64 },
        ),
        next_action(sleeping_after::<S, T>(stopped), Event::Timeout, later) is Connect
            <==> later.millis >= stopped.millis + RECONNECT_TIMEOUT,
        later.millis < stopped.millis + RECONNECT_TIMEOUT ==> next_action(
            sleeping_after::<S, T>(stopped),
            Event::Timeout,
            later,
        ) == Action::Stay(sleeping_after::<S, T>(stopped)),
{
}

/// A connect attempt that fails at once also leads to sleeping for the
/// back-off, and a connect that does not finish before its deadline does
/// too.
pub proof fn lemma_failed_connect_sleeps<S, T, E>(res: Result<S, E>, now: Time, later: Time)
    requires
        now.millis + CONNECT_TIMEOUT <= u64::MAX,
        later.millis + RECONNECT_TIMEOUT <= u64::MAX,
    ensures
        res is Err ==> connecting_after::<S, T, E>(res, now) == sleeping_after::<S, T>(now),
        res is Ok && later.millis >= now.millis + CONNECT_TIMEOUT ==> next_action(
            connecting_after::<S, T, E>(res, now),
            Event::Timeout,
            later,
        ) == Action::<S, T>::Stay(sleeping_after::<S, T>(later)),
{
}

} // verus!
