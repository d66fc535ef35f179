use termion::event::{InputEvent, Key, KeyEvent, Mods};
use termion::raw::{enter_raw_mode, ModeSnapshot};
use termion::reader::ReadOutcome;
use termion::session::{SessionPoll, TerminalSession};

fn sample_mode() -> ModeSnapshot {
    ModeSnapshot {
        input_flags: 0x4500,
        output_flags: 0x0001,
        control_flags: 0x00bf,
        local_flags: 0x8a3b,
        min_read: 0,
        timeout_tenths: 2,
    }
}

fn key(k: Key) -> InputEvent {
    InputEvent::Key(KeyEvent { key: k, mods: Mods { shift: false, alt: false, ctrl: false } })
}

fn expect_events(r: SessionPoll, expected: Vec<InputEvent>) {
    match r {
        SessionPoll::Events(evs) => assert_eq!(evs, expected),
        SessionPoll::NotReady => panic!("expected events, got not-ready"),
        SessionPoll::Closed(_) => panic!("expected events, got closed"),
    }
}

#[test]
fn events_flow_through_the_facade() {
    let guard = enter_raw_mode(Some(sample_mode())).unwrap();
    let mut s = TerminalSession::new(guard);
    assert!(matches!(s.next_events(), SessionPoll::NotReady));
    // An escape sequence split across two reads decodes across polls.
    assert!(s.deliver(ReadOutcome::Data(vec![0x1b])));
    expect_events(s.next_events(), vec![]);
    assert!(s.deliver(ReadOutcome::Data(vec![0x5b, 0x41, 0x7a])));
    expect_events(s.next_events(), vec![key(Key::Up), key(Key::Char('z'))]);
    assert!(matches!(s.next_events(), SessionPoll::NotReady));
    let restored = s.shutdown();
    assert_eq!(restored, sample_mode());
}

#[test]
fn closure_resolves_a_pending_escape() {
    let guard = enter_raw_mode(Some(sample_mode())).unwrap();
    let mut s = TerminalSession::new(guard);
    assert!(s.deliver(ReadOutcome::Data(vec![0x1b])));
    expect_events(s.next_events(), vec![]);
    assert!(!s.deliver(ReadOutcome::EndOfStream));
    match s.next_events() {
        SessionPoll::Closed(evs) => assert_eq!(evs, vec![key(Key::Esc)]),
        SessionPoll::Events(_) => panic!("expected closure"),
        SessionPoll::NotReady => panic!("expected closure"),
    }
}

#[test]
fn stop_then_shutdown_restores_mode() {
    let guard = enter_raw_mode(Some(sample_mode())).unwrap();
    let mut s = TerminalSession::new(guard);
    assert!(s.deliver(ReadOutcome::Data(vec![0x61])));
    s.request_stop();
    // The in-flight read still delivers, then the channel closes.
    assert!(!s.deliver(ReadOutcome::Data(vec![0x62])));
    expect_events(s.next_events(), vec![key(Key::Char('a'))]);
    expect_events(s.next_events(), vec![key(Key::Char('b'))]);
    assert!(matches!(s.next_events(), SessionPoll::Closed(_)));
    // Shutdown discards anything left and hands back the entry snapshot.
    let restored = s.shutdown();
    assert_eq!(restored, sample_mode());
}
