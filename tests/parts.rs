use rotor_stream::accept::accepted_socket;
use rotor_stream::persistent::{Action, Event, Fsm, CONNECT_TIMEOUT, RECONNECT_TIMEOUT};
use rotor_stream::substr::find_substr;
use rotor_stream::{Expectation, Intent, ProtocolStop, Time};

type State = Fsm<&'static str, u32>;
type Plain = Intent<u8, ()>;

fn t(ms: u64) -> Time {
    Time::from_millis(ms)
}

#[test]
fn find_substr_first_occurrence() {
    assert_eq!(find_substr(b"hello world", b"o"), Some(4));
    assert_eq!(find_substr(b"hello world", b"wor"), Some(6));
    assert_eq!(find_substr(b"aaab", b"ab"), Some(2));
    assert_eq!(find_substr(b"abcabc", b"cab"), Some(2));
    assert_eq!(find_substr(b"hello", b"xyz"), None);
    assert_eq!(find_substr(b"hell", b"llo"), None);
    assert_eq!(find_substr(b"", b"a"), None);
    assert_eq!(find_substr(b"abc", b""), Some(0));
    assert_eq!(find_substr(b"a\r\nb\r\n\r\nc", b"\r\n\r\n"), Some(4));
}

#[test]
fn builders_set_expectation() {
    let i: Intent<u8, ()> = Plain::of(1u8).expect_bytes(7);
    assert!(matches!(i, Intent(Ok(1), Expectation::Bytes(7), None)));
    let i: Intent<u8, ()> = Plain::of(1u8).expect_delimiter(b"\n", 10);
    assert!(matches!(i, Intent(Ok(1), Expectation::Delimiter(0, d, 10), None) if d == b"\n"));
    let i: Intent<u8, ()> = Plain::of(1u8).expect_delimiter_after(3, b"--", 10);
    assert!(matches!(i, Intent(Ok(1), Expectation::Delimiter(3, d, 10), None) if d == b"--"));
    let i: Intent<u8, ()> = Plain::of(1u8).expect_flush();
    assert!(matches!(i, Intent(Ok(1), Expectation::Flush(0), None)));
    let i: Intent<u8, ()> = Plain::of(1u8).sleep();
    assert!(matches!(i, Intent(Ok(1), Expectation::Sleep, None)));
}

#[test]
fn deadlines_on_intents() {
    let i: Intent<u8, ()> = Plain::of(1u8).sleep().deadline(t(40));
    assert!(matches!(i, Intent(Ok(1), Expectation::Sleep, Some(d)) if d == t(40)));
    let i = i.deadline_opt(None);
    assert!(matches!(i, Intent(Ok(1), Expectation::Sleep, None)));
    let i = i.deadline_opt(Some(t(9)));
    assert!(matches!(i, Intent(Ok(1), Expectation::Sleep, Some(d)) if d == t(9)));
}

#[test]
fn done_and_error_intents() {
    let i: Intent<u8, &str> = Intent::done();
    assert!(matches!(i, Intent(Err(None), Expectation::Sleep, None)));
    let i: Intent<u8, &str> = Intent::error("bad");
    assert!(matches!(i, Intent(Err(Some("bad")), Expectation::Sleep, None)));
}

#[test]
fn protocol_stop_text() {
    assert_eq!(ProtocolStop.name(), "ProtocolStop");
    assert_eq!(ProtocolStop.description(), "Protocol returned None (which means \"stop\") at start");
}

#[test]
fn accept_spawns_only_new_connections() {
    assert_eq!(accepted_socket::<u8, ()>(Ok(Some(4))), Some(4));
    assert_eq!(accepted_socket::<u8, ()>(Ok(None)), None);
    assert_eq!(accepted_socket::<u8, &str>(Err("transient")), None);
}

#[test]
fn constants() {
    assert_eq!(RECONNECT_TIMEOUT, 200);
    assert_eq!(CONNECT_TIMEOUT, 1000);
}

#[test]
fn connect_attempt_outcomes() {
    let s: State = Fsm::after_connect::<()>(Ok("sock"), t(10));
    assert!(matches!(s, Fsm::Connecting("sock", d) if d == t(1010)));
    assert_eq!(s.deadline(), Some(t(1010)));
    let s: State = Fsm::after_connect(Err(()), t(10));
    assert!(matches!(s, Fsm::Sleeping(d) if d == t(210)));
}

#[test]
fn unreachable_address_times_out_then_retries() {
    let s: State = Fsm::after_connect::<()>(Ok("sock"), t(0));
    let s = match s.decide(Event::Timeout, t(999)) {
        Action::Stay(s) => s,
        _ => panic!("early timeout must be absorbed"),
    };
    assert!(matches!(s, Fsm::Connecting("sock", d) if d == t(1000)));
    let s = match s.decide(Event::Timeout, t(1000)) {
        Action::Stay(s) => s,
        _ => panic!("connect timeout must lead to sleeping"),
    };
    assert!(matches!(s, Fsm::Sleeping(d) if d == t(1200)));
    let s = match s.decide(Event::Timeout, t(1199)) {
        Action::Stay(s) => s,
        _ => panic!("early timeout must be absorbed"),
    };
    assert!(matches!(s.decide(Event::Timeout, t(1200)), Action::Connect));
}

#[test]
fn writable_socket_establishes() {
    let s: State = Fsm::Connecting("sock", t(1000));
    assert!(matches!(s.decide(Event::Ready { writable: true, hup: false }, t(5)), Action::Establish("sock")));
    let s: State = Fsm::Connecting("sock", t(1000));
    assert!(matches!(s.decide(Event::Ready { writable: false, hup: true }, t(5)), Action::Stay(Fsm::Sleeping(d)) if d == t(205)));
    let s: State = Fsm::Connecting("sock", t(1000));
    assert!(matches!(s.decide(Event::Ready { writable: false, hup: false }, t(5)), Action::Stay(Fsm::Connecting("sock", d)) if d == t(1000)));
    let s: State = Fsm::Connecting("sock", t(1000));
    assert!(matches!(s.decide(Event::Wakeup, t(5)), Action::Stay(Fsm::Connecting("sock", _))));
}

#[test]
fn established_gets_every_event() {
    let s: State = Fsm::Established(3);
    assert!(matches!(s.decide(Event::Wakeup, t(5)), Action::Deliver(3)));
    let s: State = Fsm::Established(3);
    assert!(matches!(s.decide(Event::Timeout, t(5)), Action::Deliver(3)));
    let s: State = Fsm::Established(3);
    assert!(s.is_established());
    assert_eq!(s.deadline(), None);
}

#[test]
fn stream_end_leads_to_sleeping() {
    let s: State = Fsm::stopped(t(50));
    assert!(matches!(s, Fsm::Sleeping(d) if d == t(250)));
}

#[test]
fn idle_and_sleeping_absorb_events() {
    let s: State = Fsm::Idle;
    assert!(matches!(s.decide(Event::Timeout, t(5)), Action::Stay(Fsm::Idle)));
    let s: State = Fsm::Idle;
    assert_eq!(s.deadline(), None);
    let s: State = Fsm::Sleeping(t(100));
    assert!(matches!(s.decide(Event::Ready { writable: true, hup: false }, t(500)), Action::Stay(Fsm::Sleeping(_))));
    let s: State = Fsm::Sleeping(t(100));
    assert!(matches!(s.decide(Event::Wakeup, t(500)), Action::Stay(Fsm::Sleeping(_))));
}
