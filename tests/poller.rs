use tcp_bridge::cell::LatestCell;
use tcp_bridge::poller::{
    Action, Event, Phase, Poller, ReadOutcome, BACKOFF_MILLIS, READ_DEADLINE_MILLIS, REQUEST,
    TICK_MILLIS,
};

fn connected() -> Poller {
    let mut p = Poller::start();
    let a = p.on_event(Event::ConnectOk);
    assert_eq!(a, Action::Poll { deadline_millis: 50 });
    p
}

fn line(s: &str) -> Event {
    Event::Reply(ReadOutcome::Line(s.to_string()))
}

#[test]
fn constants_of_the_protocol() {
    assert_eq!(TICK_MILLIS, 20);
    assert_eq!(READ_DEADLINE_MILLIS, 50);
    assert_eq!(BACKOFF_MILLIS, 2000);
    assert_eq!(REQUEST.as_bytes(), b"GET\n");
}

#[test]
fn placeholder_before_any_successful_poll() {
    let mut p = Poller::start();
    assert_eq!(p.phase(), Phase::Disconnected);
    assert_eq!(p.action(), Action::Connect);
    assert_eq!(p.snapshot().latest, "<no data>");
    p.on_event(Event::ConnectFailed);
    p.on_event(Event::BackoffElapsed);
    p.on_event(Event::ConnectOk);
    p.on_event(Event::Reply(ReadOutcome::TimedOut));
    p.on_event(Event::RequestFailed);
    assert_eq!(p.snapshot().latest, "<no data>");
}

#[test]
fn reply_42_is_published_trimmed() {
    let mut p = connected();
    let a = p.on_event(line("42\n"));
    assert_eq!(a, Action::Poll { deadline_millis: 50 });
    assert_eq!(p.snapshot().latest, "42");
    assert_eq!(p.phase(), Phase::Connected);
}

#[test]
fn trailing_whitespace_only_is_trimmed() {
    let mut p = connected();
    p.on_event(line("  a b \t\r\n"));
    assert_eq!(p.snapshot().latest, "  a b");
    p.on_event(line("last"));
    assert_eq!(p.snapshot().latest, "last");
    p.on_event(line(" \n"));
    assert_eq!(p.snapshot().latest, "");
}

#[test]
fn timeouts_keep_previous_value() {
    let mut p = connected();
    p.on_event(line("7\n"));
    for _ in 0..100 {
        let a = p.on_event(Event::Reply(ReadOutcome::TimedOut));
        assert_eq!(a, Action::Poll { deadline_millis: 50 });
    }
    assert_eq!(p.snapshot().latest, "7");
    assert_eq!(p.phase(), Phase::Connected);
}

#[test]
fn closed_connection_backs_off_then_reconnects() {
    let mut p = connected();
    let a = p.on_event(Event::Reply(ReadOutcome::Closed));
    assert_eq!(a, Action::Sleep { millis: 2000 });
    assert_eq!(p.phase(), Phase::Backoff);
    let a = p.on_event(Event::BackoffElapsed);
    assert_eq!(a, Action::Connect);
    let a = p.on_event(Event::ConnectOk);
    assert_eq!(a, Action::Poll { deadline_millis: 50 });
    for _ in 0..5 {
        p.on_event(Event::Reply(ReadOutcome::Closed));
        p.on_event(Event::BackoffElapsed);
        p.on_event(Event::ConnectOk);
    }
    assert_eq!(p.phase(), Phase::Connected);
}

#[test]
fn connect_failure_backs_off() {
    let mut p = Poller::start();
    assert_eq!(p.on_event(Event::ConnectFailed), Action::Sleep { millis: 2000 });
    assert_eq!(p.on_event(Event::BackoffElapsed), Action::Connect);
}

#[test]
fn request_and_read_failures_drop_the_connection() {
    let mut p = connected();
    p.on_event(line("v\n"));
    assert_eq!(p.on_event(Event::RequestFailed), Action::Sleep { millis: 2000 });
    p.on_event(Event::BackoffElapsed);
    p.on_event(Event::ConnectOk);
    assert_eq!(p.on_event(Event::Reply(ReadOutcome::Failed)), Action::Sleep { millis: 2000 });
    assert_eq!(p.snapshot().latest, "v");
}

#[test]
fn events_out_of_phase_change_nothing() {
    let mut p = Poller::start();
    assert_eq!(p.on_event(line("ignored\n")), Action::Connect);
    assert_eq!(p.on_event(Event::BackoffElapsed), Action::Connect);
    assert_eq!(p.snapshot().latest, "<no data>");
    p.on_event(Event::ConnectFailed);
    assert_eq!(p.on_event(Event::ConnectOk), Action::Sleep { millis: 2000 });
    assert_eq!(p.on_event(line("x\n")), Action::Sleep { millis: 2000 });
    assert_eq!(p.phase(), Phase::Backoff);
    assert_eq!(p.snapshot().latest, "<no data>");
    let mut q = connected();
    assert_eq!(q.on_event(Event::ConnectOk), Action::Poll { deadline_millis: 50 });
    assert_eq!(q.on_event(Event::BackoffElapsed), Action::Poll { deadline_millis: 50 });
}

#[test]
fn viewers_see_what_the_poller_publishes() {
    let mut p = Poller::new(LatestCell::new("init".to_string()));
    let rx = p.subscribe();
    assert_eq!(*rx.borrow(), "init");
    p.on_event(Event::ConnectOk);
    p.on_event(line("hello\r\n"));
    assert_eq!(*rx.borrow(), "hello");
}
