use std::time::Duration;

use lmu_dualsense_bridge::telemetry::{
    connect_action, ConnectAction, ConnectionChange, LinkStatus, VehicleChange,
};
use lmu_dualsense_bridge::util::RateLimiter;

#[test]
fn rate_limiter_lets_the_first_action_through_then_waits() {
    let mut limiter = RateLimiter::per_second();
    assert!(limiter.ready());
    assert!(!limiter.ready());

    let mut immediate = RateLimiter::new(Duration::ZERO);
    assert!(immediate.ready());
    assert!(immediate.ready());
}

#[test]
fn link_status_reports_each_change_once() {
    let mut status = LinkStatus::new();
    let changes = status.observe(true, false);
    assert_eq!(changes.connection, Some(ConnectionChange::Active));
    assert_eq!(changes.vehicle, None);
    let changes = status.observe(true, true);
    assert_eq!(changes.connection, None);
    assert_eq!(changes.vehicle, Some(VehicleChange::Acquired));
    let changes = status.observe(true, true);
    assert_eq!((changes.connection, changes.vehicle), (None, None));
    let changes = status.connection_lost();
    assert_eq!(changes.connection, Some(ConnectionChange::Disconnected));
    assert_eq!(changes.vehicle, Some(VehicleChange::Released));
}

#[test]
fn waiting_notice_is_shown_once_per_outage() {
    let mut status = LinkStatus::new();
    assert!(!status.connection_failed());
    status.connection_opened();
    status.connection_lost();
    assert!(status.connection_failed());
    assert!(!status.connection_failed());
}

#[test]
fn reconnects_only_when_disconnected_and_due() {
    assert_eq!(connect_action(true, true), ConnectAction::UseOpen);
    assert_eq!(connect_action(true, false), ConnectAction::UseOpen);
    assert_eq!(connect_action(false, true), ConnectAction::Attempt);
    assert_eq!(connect_action(false, false), ConnectAction::Wait);
}

#[test]
fn long_interval_limiter_refuses_after_the_first_run() {
    let mut limiter = RateLimiter::new(Duration::from_secs(3600));
    assert!(limiter.ready());
    assert!(!limiter.ready());
    assert!(!limiter.ready());
}
