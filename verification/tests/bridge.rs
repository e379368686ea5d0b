use eye_in_desk::binary64::Binary64;
use eye_in_desk::bridge::{
    answer_state, count_reached, report_delivery, BridgeError, ControlBridge, Intake, Polled,
    CHANNEL_CAPACITY, POLL_BUDGET,
};
use eye_in_desk::data::{RobotState, TargetCommand};
use eye_in_desk::mode::Mode;

fn num(x: f64) -> Binary64 {
    Binary64::from_bits(x.to_bits())
}

fn target(x: f64) -> TargetCommand {
    let mut t = [0.0; 16];
    t[0] = 1.0;
    t[5] = 1.0;
    t[10] = 1.0;
    t[15] = 1.0;
    t[12] = x;
    TargetCommand::new(t.map(num))
}

fn state(q: f64) -> RobotState {
    RobotState::new([q; 7].map(num), target(q).transform)
}

#[test]
fn publish_with_no_subscriber_returns_at_once() {
    let (bridge, _handle) = ControlBridge::open();
    assert_eq!(bridge.publish_state(state(0.1)), 0);
    assert_eq!(bridge.publish_state(state(0.2)), 0);
}

#[test]
fn publish_reaches_every_subscriber() {
    let (bridge, handle) = ControlBridge::open();
    let mut first = handle.subscribe();
    let mut second = handle.subscribe();
    assert_eq!(bridge.publish_state(state(0.3)), 2);
    assert_eq!(first.latest(), Ok(state(0.3)));
    assert_eq!(second.latest(), Ok(state(0.3)));
}

#[test]
fn publish_never_blocks_on_a_full_subscriber() {
    let (bridge, handle) = ControlBridge::open();
    let mut slow = handle.subscribe();
    for i in 0..1000 {
        assert_eq!(bridge.publish_state(state(i as f64)), 1);
    }
    let seen = slow.latest().unwrap();
    assert!(f64::from_bits(seen.joints[0].to_bits()) >= 900.0);
}

#[test]
fn subscriber_without_state_is_told_so() {
    let (_bridge, handle) = ControlBridge::open();
    let mut subscription = handle.subscribe();
    assert_eq!(subscription.latest(), Err(BridgeError::NoState));
}

#[test]
fn subscriber_sees_only_what_was_published_after_it_subscribed() {
    let (bridge, handle) = ControlBridge::open();
    let _early = handle.subscribe();
    bridge.publish_state(state(1.0));
    let mut late = handle.subscribe();
    assert_eq!(late.latest(), Err(BridgeError::NoState));
    bridge.publish_state(state(2.0));
    assert_eq!(late.latest(), Ok(state(2.0)));
}

#[test]
fn subscriber_gets_the_newest_state_and_remembers_it() {
    let (bridge, handle) = ControlBridge::open();
    let mut subscription = handle.subscribe();
    bridge.publish_state(state(1.0));
    bridge.publish_state(state(2.0));
    bridge.publish_state(state(3.0));
    assert_eq!(subscription.latest(), Ok(state(3.0)));
    assert_eq!(subscription.latest(), Ok(state(3.0)));
}

#[test]
fn subscriber_learns_that_the_publisher_is_gone() {
    let (bridge, handle) = ControlBridge::open();
    let mut subscription = handle.subscribe();
    drop(bridge);
    drop(handle);
    assert_eq!(subscription.latest(), Err(BridgeError::Disconnected));
}

#[test]
fn take_command_is_none_when_nothing_arrived() {
    let (mut bridge, _handle) = ControlBridge::open();
    assert_eq!(bridge.try_take_command(), None);
    assert!(!bridge.is_commanders_gone());
}

#[test]
fn take_command_returns_the_newest_target() {
    let (mut bridge, handle) = ControlBridge::open();
    assert_eq!(handle.send_target(target(0.1)), Ok(1));
    assert_eq!(handle.send_target(target(0.2)), Ok(1));
    assert_eq!(handle.send_target(target(0.3)), Ok(1));
    assert_eq!(bridge.try_take_command(), Some(target(0.3)));
    assert_eq!(bridge.try_take_command(), None);
}

#[test]
fn take_command_catches_up_after_lagging() {
    let (mut bridge, handle) = ControlBridge::open();
    assert!(4 * CHANNEL_CAPACITY > POLL_BUDGET);
    for i in 0..4 * CHANNEL_CAPACITY {
        handle.send_target(target(i as f64)).unwrap();
    }
    let newest = (4 * CHANNEL_CAPACITY - 1) as f64;
    assert_eq!(bridge.try_take_command(), Some(target(newest)));
    assert_eq!(bridge.try_take_command(), None);
}

#[test]
fn take_command_reports_that_commanders_are_gone() {
    let (mut bridge, handle) = ControlBridge::open();
    let other = handle.clone();
    drop(handle);
    assert_eq!(bridge.try_take_command(), None);
    assert!(!bridge.is_commanders_gone());
    drop(other);
    assert_eq!(bridge.try_take_command(), None);
    assert!(bridge.is_commanders_gone());
    assert_eq!(bridge.try_take_command(), None);
    assert!(bridge.is_commanders_gone());
}

#[test]
fn take_command_delivers_what_was_sent_before_the_commanders_left() {
    let (mut bridge, handle) = ControlBridge::open();
    handle.send_target(target(0.7)).unwrap();
    drop(handle);
    assert_eq!(bridge.try_take_command(), Some(target(0.7)));
    assert!(bridge.is_commanders_gone());
}

#[test]
fn take_mode_returns_the_newest_mode() {
    let (mut bridge, handle) = ControlBridge::open();
    assert_eq!(bridge.try_take_mode(), None);
    assert_eq!(handle.send_mode(Mode::Drag), Ok(1));
    assert_eq!(handle.send_mode(Mode::Target), Ok(1));
    assert_eq!(handle.send_mode(Mode::Drag), Ok(1));
    assert_eq!(bridge.try_take_mode(), Some(Mode::Drag));
    assert_eq!(bridge.try_take_mode(), None);
}

#[test]
fn take_mode_does_not_report_commanders_gone() {
    let (mut bridge, handle) = ControlBridge::open();
    drop(handle);
    assert_eq!(bridge.try_take_mode(), None);
    assert!(!bridge.is_commanders_gone());
}

#[test]
fn send_fails_once_the_control_cycle_is_gone() {
    let (bridge, handle) = ControlBridge::open();
    drop(bridge);
    assert_eq!(handle.send_target(target(0.1)), Err(BridgeError::Disconnected));
    assert_eq!(handle.send_mode(Mode::Drag), Err(BridgeError::Disconnected));
    assert_eq!(handle.set_robot_mode(0), Err(BridgeError::Disconnected));
    assert_eq!(
        handle.set_robot_target(&target(0.1).to_flat()),
        Err(BridgeError::Disconnected)
    );
}

#[test]
fn set_robot_target_refuses_a_matrix_of_the_wrong_size() {
    let (mut bridge, handle) = ControlBridge::open();
    let mut flat = target(0.1).to_flat();
    flat.pop();
    assert_eq!(handle.set_robot_target(&flat), Err(BridgeError::MalformedTarget));
    flat.push(num(1.0));
    flat.push(num(1.0));
    assert_eq!(handle.set_robot_target(&flat), Err(BridgeError::MalformedTarget));
    assert_eq!(handle.set_robot_target(&Vec::new()), Err(BridgeError::MalformedTarget));
    assert_eq!(bridge.try_take_command(), None);
}

#[test]
fn set_robot_target_delivers_the_transform() {
    let (mut bridge, handle) = ControlBridge::open();
    assert_eq!(handle.set_robot_target(&target(0.4).to_flat()), Ok(1));
    assert_eq!(bridge.try_take_command(), Some(target(0.4)));
}

#[test]
fn set_robot_mode_decodes_the_wire_code() {
    let (mut bridge, handle) = ControlBridge::open();
    assert_eq!(handle.set_robot_mode(0), Ok(1));
    assert_eq!(bridge.try_take_mode(), Some(Mode::Target));
    assert_eq!(handle.set_robot_mode(1), Ok(1));
    assert_eq!(bridge.try_take_mode(), Some(Mode::Drag));
    assert_eq!(handle.set_robot_mode(42), Ok(1));
    assert_eq!(bridge.try_take_mode(), Some(Mode::Drag));
    assert_eq!(handle.set_robot_mode(-1), Ok(1));
    assert_eq!(bridge.try_take_mode(), Some(Mode::Drag));
}

#[test]
fn intake_keeps_the_last_value() {
    let intake = Intake::new()
        .absorb(Polled::Value(1))
        .absorb(Polled::Lagged(3))
        .absorb(Polled::Value(2))
        .absorb(Polled::Empty);
    assert_eq!(intake.newest, Some(2));
    assert!(intake.drained);
    assert!(!intake.closed);
}

#[test]
fn intake_starts_empty() {
    let intake: Intake<u8> = Intake::new();
    assert_eq!(intake.newest, None);
    assert!(!intake.drained);
    assert!(!intake.closed);
}

#[test]
fn intake_records_a_closed_channel() {
    let intake = Intake::new().absorb(Polled::Value(9)).absorb(Polled::Closed);
    assert_eq!(intake.newest, Some(9));
    assert!(intake.drained);
    assert!(intake.closed);
}

#[test]
fn intake_ignores_lag() {
    let intake: Intake<u8> = Intake::new().absorb(Polled::Lagged(5));
    assert_eq!(intake.newest, None);
    assert!(!intake.drained);
    assert!(!intake.closed);
}

#[test]
fn report_delivery_maps_a_refused_send() {
    assert_eq!(report_delivery::<u8>(Ok(3)), Ok(3));
    assert_eq!(report_delivery(Err(7u8)), Err(BridgeError::Disconnected));
}

#[test]
fn answer_state_prefers_the_newest() {
    let fresh = Intake::new().absorb(Polled::Value(state(2.0))).absorb(Polled::Empty);
    assert_eq!(answer_state(Some(state(1.0)), fresh), Ok(state(2.0)));
    let nothing = Intake::new().absorb(Polled::Empty);
    assert_eq!(answer_state(Some(state(1.0)), nothing), Ok(state(1.0)));
    let nothing = Intake::new().absorb(Polled::Empty);
    assert_eq!(answer_state(None, nothing), Err(BridgeError::NoState));
    let closed = Intake::new().absorb(Polled::Closed);
    assert_eq!(answer_state(None, closed), Err(BridgeError::Disconnected));
    let closed = Intake::new().absorb(Polled::Closed);
    assert_eq!(answer_state(Some(state(1.0)), closed), Ok(state(1.0)));
}

#[test]
fn count_reached_is_zero_for_a_state_handed_back() {
    assert_eq!(count_reached(Ok(1)), 1);
    assert_eq!(count_reached(Ok(5)), 5);
    assert_eq!(count_reached(Err(state(0.5))), 0);
}

#[test]
fn publish_counts_the_subscribers_of_the_moment() {
    let (bridge, handle) = ControlBridge::open();
    assert_eq!(bridge.publish_state(state(0.1)), 0);
    let first = handle.subscribe();
    assert_eq!(bridge.publish_state(state(0.2)), 1);
    let second = handle.subscribe();
    assert_eq!(bridge.publish_state(state(0.3)), 2);
    drop(first);
    assert_eq!(bridge.publish_state(state(0.4)), 1);
    drop(second);
    assert_eq!(bridge.publish_state(state(0.5)), 0);
}

#[test]
fn send_reports_the_receiver_of_the_control_cycle() {
    let (mut bridge, handle) = ControlBridge::open();
    let other = handle.clone();
    assert_eq!(handle.send_mode(Mode::Drag), Ok(1));
    assert_eq!(other.send_target(target(0.9)), Ok(1));
    assert_eq!(bridge.try_take_mode(), Some(Mode::Drag));
    assert_eq!(bridge.try_take_command(), Some(target(0.9)));
}
