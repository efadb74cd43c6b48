use iplookup::engine::backoff_timeout_ms;
use iplookup::engine::Action;
use iplookup::engine::EngineError;
use iplookup::engine::Event;
use iplookup::engine::Transaction;
use iplookup::engine::DEFAULT_MAX_ATTEMPTS;

const DEST: &str = "198.51.100.7:3478";

#[test]
fn backoff_sequence_doubles_from_one_second() {
    let want: [u64; 5] = [1000, 2000, 4000, 8000, 16000];
    for (k, w) in want.iter().enumerate() {
        assert_eq!(backoff_timeout_ms(k as u32), *w);
    }
}

#[test]
fn foreign_sender_is_discarded_whatever_it_sends() {
    let mut t = Transaction::new(vec![1, 2, 3], DEST.to_string(), DEFAULT_MAX_ATTEMPTS);
    assert_eq!(t.current_timeout_ms(), 1000);
    let a = t.step(Event::Datagram {
        sender: "192.0.2.99:3478".to_string(),
        data: vec![0xde, 0xad],
    });
    assert!(matches!(a, Action::KeepWaiting));
    assert!(!t.is_finished());
    // The same payload from the destination itself is delivered: only the
    // sender decides.
    let a = t.step(Event::Datagram { sender: DEST.to_string(), data: vec![0xde, 0xad] });
    match a {
        Action::Deliver { data } => assert_eq!(data, vec![0xde, 0xad]),
        other => panic!("expected delivery, got {:?}", other),
    }
    assert!(t.is_finished());
}

#[test]
fn exhausted_attempts_fail_with_timeout() {
    let mut t = Transaction::new(vec![0], DEST.to_string(), DEFAULT_MAX_ATTEMPTS);
    let mut resends: u32 = 0;
    for k in 0..DEFAULT_MAX_ATTEMPTS {
        match t.step(Event::WindowElapsed) {
            Action::Resend { timeout_ms } => {
                resends += 1;
                assert_eq!(timeout_ms, backoff_timeout_ms(k + 1));
            }
            Action::Fail { error } => {
                assert_eq!(error, EngineError::TimedOut);
                assert_eq!(k, DEFAULT_MAX_ATTEMPTS - 1);
            }
            other => panic!("unexpected action {:?}", other),
        }
    }
    assert_eq!(resends, DEFAULT_MAX_ATTEMPTS - 1);
    assert!(t.is_finished());
}

#[test]
fn request_bytes_identical_across_attempts() {
    let bytes = vec![0x21, 0x12, 0xa4, 0x42, 7, 7, 7];
    let mut t = Transaction::new(bytes.clone(), DEST.to_string(), DEFAULT_MAX_ATTEMPTS);
    assert_eq!(t.request(), &bytes);
    t.step(Event::Datagram { sender: "192.0.2.99:9".to_string(), data: vec![1] });
    assert_eq!(t.request(), &bytes);
    t.step(Event::WindowElapsed);
    assert_eq!(t.request(), &bytes);
    t.step(Event::WindowElapsed);
    assert_eq!(t.request(), &bytes);
}

#[test]
fn transport_failure_is_fatal() {
    let mut t = Transaction::new(vec![0], DEST.to_string(), DEFAULT_MAX_ATTEMPTS);
    match t.step(Event::TransportFailed) {
        Action::Fail { error } => assert_eq!(error, EngineError::Transport),
        other => panic!("expected failure, got {:?}", other),
    }
    assert!(t.is_finished());
}

#[test]
fn smallest_ceiling_fails_after_one_window() {
    let mut t = Transaction::new(vec![0], DEST.to_string(), 1);
    assert_eq!(t.current_timeout_ms(), 1000);
    match t.step(Event::WindowElapsed) {
        Action::Fail { error } => assert_eq!(error, EngineError::TimedOut),
        other => panic!("expected failure, got {:?}", other),
    }
}
