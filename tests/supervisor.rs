use watchdog_device::keepalive::{KEEPALIVE_INTERVAL_SECS, MAX_CONSECUTIVE_KEEPALIVE_ERRORS};
use watchdog_device::{KeepAliveAction, KeepAliveEvent, KeepAliveSupervisor};

#[test]
fn supervisor_limits() {
    assert_eq!(MAX_CONSECUTIVE_KEEPALIVE_ERRORS, 10);
    assert_eq!(KEEPALIVE_INTERVAL_SECS, 1);
}

#[test]
fn supervisor_pings_each_interval() {
    let mut s = KeepAliveSupervisor::new();
    assert_eq!(s.consecutive_failures(), 0);
    assert!(!s.is_finished());
    for _ in 0..100 {
        assert_eq!(s.step(KeepAliveEvent::PingSucceeded), KeepAliveAction::Wait);
        assert_eq!(s.step(KeepAliveEvent::WaitTimedOut), KeepAliveAction::Ping);
    }
    assert!(!s.is_finished());
}

#[test]
fn supervisor_gives_up_after_ten_failed_pings() {
    let mut s = KeepAliveSupervisor::new();
    let mut pings = 1;
    let mut action = KeepAliveAction::Ping;
    while action != KeepAliveAction::Exit {
        let event = match action {
            KeepAliveAction::Ping => KeepAliveEvent::PingFailed,
            _ => KeepAliveEvent::WaitTimedOut,
        };
        action = s.step(event);
        if action == KeepAliveAction::Ping {
            pings += 1;
        }
        assert!(pings <= 10);
    }
    assert_eq!(pings, 10);
    assert_eq!(s.consecutive_failures(), 10);
    assert!(s.is_finished());
    assert_eq!(s.step(KeepAliveEvent::WaitTimedOut), KeepAliveAction::Exit);
    assert_eq!(s.step(KeepAliveEvent::PingSucceeded), KeepAliveAction::Exit);
}

#[test]
fn supervisor_failures_must_be_consecutive() {
    let mut s = KeepAliveSupervisor::new();
    for _ in 0..9 {
        assert_eq!(s.step(KeepAliveEvent::PingFailed), KeepAliveAction::Wait);
        assert_eq!(s.step(KeepAliveEvent::WaitTimedOut), KeepAliveAction::Ping);
    }
    assert_eq!(s.consecutive_failures(), 9);
    assert_eq!(s.step(KeepAliveEvent::PingSucceeded), KeepAliveAction::Wait);
    assert_eq!(s.consecutive_failures(), 0);
    assert_eq!(s.step(KeepAliveEvent::WaitTimedOut), KeepAliveAction::Ping);
    for _ in 0..9 {
        assert_eq!(s.step(KeepAliveEvent::PingFailed), KeepAliveAction::Wait);
        assert_eq!(s.step(KeepAliveEvent::WaitTimedOut), KeepAliveAction::Ping);
    }
    assert!(!s.is_finished());
    assert_eq!(s.step(KeepAliveEvent::PingFailed), KeepAliveAction::Exit);
}

#[test]
fn supervisor_stops_when_sender_dropped() {
    let mut s = KeepAliveSupervisor::new();
    assert_eq!(s.step(KeepAliveEvent::PingSucceeded), KeepAliveAction::Wait);
    assert_eq!(s.step(KeepAliveEvent::SenderDropped), KeepAliveAction::Exit);
    assert!(s.is_finished());
    assert_eq!(s.step(KeepAliveEvent::WaitTimedOut), KeepAliveAction::Exit);
}

#[test]
fn supervisor_stops_on_signal() {
    let mut s = KeepAliveSupervisor::new();
    assert_eq!(s.step(KeepAliveEvent::PingFailed), KeepAliveAction::Wait);
    assert_eq!(s.step(KeepAliveEvent::StopSignalled), KeepAliveAction::Exit);
    assert!(s.is_finished());
    assert_eq!(s.consecutive_failures(), 1);
    assert_eq!(s.step(KeepAliveEvent::PingSucceeded), KeepAliveAction::Exit);
}
