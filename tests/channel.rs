use soundboard::channel::{Channel, StartError};

#[test]
fn new_channel_is_idle() {
    let ch: Channel<u32> = Channel::new();
    assert!(!ch.is_active());
    assert_eq!(ch.generation(), 0);
    assert!(ch.session().is_none());
    assert!(ch.can_toggle());
}

#[test]
fn start_then_stop_returns_to_idle() {
    let mut ch: Channel<u32> = Channel::new();
    assert_eq!(ch.settle(Ok(7)), Ok(1));
    assert!(ch.is_active());
    assert_eq!(ch.session(), Some(&7));
    assert_eq!(ch.stop(), Some(7));
    assert!(!ch.is_active());
    assert_eq!(ch.generation(), 2);
}

#[test]
fn repeated_start_stop_pairs_end_idle() {
    let mut ch: Channel<u32> = Channel::new();
    for round in 0..5u32 {
        let ticket = ch.settle(Ok(round)).unwrap();
        assert_eq!(ticket, 2 * round as u64 + 1);
        assert!(ch.is_active());
        assert_eq!(ch.stop(), Some(round));
        assert!(!ch.is_active());
    }
    assert_eq!(ch.generation(), 10);
}

#[test]
fn generation_advances_on_every_toggle_and_never_on_finish() {
    let mut ch: Channel<u32> = Channel::new();
    let mut last = ch.generation();
    let ticket = ch.settle(Ok(1)).unwrap();
    assert!(ch.generation() > last);
    last = ch.generation();
    assert!(ch.finish(ticket));
    assert_eq!(ch.generation(), last);
    let _ = ch.settle(Err(StartError::DecodeFailed));
    assert_eq!(ch.generation(), last + 1);
    last = ch.generation();
    let _ = ch.stop();
    assert_eq!(ch.generation(), last + 1);
}

#[test]
fn stale_watcher_after_stop_is_noop() {
    let mut ch: Channel<u32> = Channel::new();
    let ticket = ch.settle(Ok(3)).unwrap();
    assert_eq!(ch.stop(), Some(3));
    let before = ch.generation();
    assert!(!ch.finish(ticket));
    assert!(!ch.is_active());
    assert_eq!(ch.generation(), before);
}

#[test]
fn stale_watcher_after_restart_keeps_new_session() {
    let mut ch: Channel<u32> = Channel::new();
    let first = ch.settle(Ok(1)).unwrap();
    assert_eq!(ch.stop(), Some(1));
    let second = ch.settle(Ok(2)).unwrap();
    assert!(!ch.finish(first));
    assert_eq!(ch.session(), Some(&2));
    assert!(ch.finish(second));
    assert!(!ch.is_active());
}

#[test]
fn natural_completion_clears_session() {
    let mut ch: Channel<u32> = Channel::new();
    let ticket = ch.settle(Ok(9)).unwrap();
    assert!(ch.finish(ticket));
    assert!(!ch.is_active());
    assert_eq!(ch.generation(), 1);
}

#[test]
fn failed_start_leaves_idle_for_every_error() {
    for e in [
        StartError::SourceUnavailable,
        StartError::DecodeFailed,
        StartError::DeviceAllocationFailed,
    ] {
        let mut ch: Channel<u32> = Channel::new();
        assert_eq!(ch.settle(Err(e)), Err(e));
        assert!(!ch.is_active());
        assert_eq!(ch.generation(), 1);
    }
}

#[test]
fn failed_start_drops_stale_session() {
    let mut ch: Channel<u32> = Channel::new();
    let _ = ch.settle(Ok(4)).unwrap();
    assert_eq!(ch.settle(Err(StartError::SourceUnavailable)), Err(StartError::SourceUnavailable));
    assert!(ch.session().is_none());
    assert_eq!(ch.generation(), 2);
}
