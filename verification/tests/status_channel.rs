use ruukh::channel::WakeChannel;
use ruukh::component::Status;
use ruukh::record::{FieldValue, Record};

#[test]
fn new_channel_has_nothing_pending() {
    let mut channel = WakeChannel::new();
    assert!(!channel.consume());
}

#[test]
fn fire_then_consume_observes_one_wake() {
    let mut channel = WakeChannel::new();
    channel.fire();
    assert!(channel.consume());
    assert!(!channel.consume());
}

#[test]
fn fires_coalesce_into_one_wake() {
    let mut channel = WakeChannel::new();
    channel.fire();
    channel.fire();
    channel.fire();
    assert!(channel.consume());
    assert!(!channel.consume());
}

#[test]
fn fire_after_disconnect_is_dropped() {
    let mut channel = WakeChannel::new();
    channel.fire();
    channel.disconnect();
    channel.fire();
    assert!(!channel.consume());
}

#[test]
fn new_status_is_clean() {
    let mut status = Status::new(0i64);
    assert!(!status.is_state_dirty());
    assert!(!status.is_props_dirty());
}

#[test]
fn state_dirty_read_is_destructive() {
    let mut status = Status::new(0i64);
    status.mark_state_dirty();
    assert!(status.is_state_dirty());
    assert!(!status.is_state_dirty());
}

#[test]
fn props_dirty_read_is_destructive() {
    let mut status = Status::new(0i64);
    status.mark_props_dirty();
    assert!(status.is_props_dirty());
    assert!(!status.is_props_dirty());
}

#[test]
fn marking_twice_reads_true_once() {
    let mut status = Status::new(0i64);
    status.mark_state_dirty();
    status.mark_state_dirty();
    assert!(status.is_state_dirty());
    assert!(!status.is_state_dirty());
}

#[test]
fn the_two_flags_are_independent() {
    let mut status = Status::new(0i64);
    status.mark_state_dirty();
    assert!(!status.is_props_dirty());
    assert!(status.is_state_dirty());
}

#[test]
fn state_as_mut_writes_through() {
    let mut status = Status::new(10i64);
    *status.state_as_mut() = 42;
    assert_eq!(*status.state_as_ref(), 42);
}

#[test]
fn replace_state_hands_back_the_previous_state() {
    let mut status = Status::new(10i64);
    let prev = status.replace_state(11);
    assert_eq!(prev, 10);
    assert_eq!(*status.state_as_ref(), 11);
}

#[test]
fn do_react_fires_the_channel() {
    let status = Status::new(Record::from_fields(vec![FieldValue::Int(1)]));
    let mut channel = WakeChannel::new();
    status.do_react(&mut channel);
    assert!(channel.consume());
    assert!(!channel.consume());
}

#[test]
fn reading_a_flag_keeps_the_state() {
    let mut status = Status::new(7i64);
    status.mark_state_dirty();
    let _ = status.is_state_dirty();
    assert_eq!(*status.state_as_ref(), 7);
}
