use eye_in_desk::binary64::Binary64;
use eye_in_desk::bridge::ControlBridge;
use eye_in_desk::controller::{Delivery, RobotController};
use eye_in_desk::data::{RobotState, TargetCommand};
use eye_in_desk::gains::GainProfile;
use eye_in_desk::governor::TorqueCommand;
use eye_in_desk::mode::Mode;

fn num(x: f64) -> Binary64 {
    Binary64::from_bits(x.to_bits())
}

fn val(x: Binary64) -> f64 {
    f64::from_bits(x.to_bits())
}

fn target(x: f64) -> TargetCommand {
    let mut t = [0.0; 16];
    t[0] = 1.0;
    t[5] = 1.0;
    t[10] = 1.0;
    t[15] = 1.0;
    t[12] = x;
    TargetCommand::new(t.map(num))
}

fn state(q: f64) -> RobotState {
    RobotState::new([q; 7].map(num), target(q).transform)
}

fn gains() -> GainProfile {
    GainProfile::new(num(150.0), num(20.0), num(150.0_f64.sqrt()), num(20.0_f64.sqrt()))
}

/// A stand-in for the impedance law: stiffness times the X offset of the
/// target on every joint.
fn spring(target: TargetCommand, gains: GainProfile) -> [Binary64; 7] {
    let x = val(target.transform[12]);
    let k = val(gains.translational_stiffness);
    [num(-k * x); 7]
}

fn nothing() -> Delivery {
    Delivery { command: None, mode: None, commanders_gone: false }
}

#[test]
fn new_controller_tracks_the_initial_pose() {
    let controller = RobotController::new(gains(), target(0.25));
    assert_eq!(controller.current_mode(), Mode::Target);
    assert_eq!(controller.current_set_point(), target(0.25));
    assert_eq!(controller.current_gains(), gains());
}

#[test]
fn step_in_target_mode_clamps_the_law() {
    let mut controller = RobotController::new(gains(), target(0.01));
    let out = controller.step(nothing(), spring);
    assert!(!out.motion_finished);
    assert_eq!(out.torques.map(val), [-1.5; 7]);
    let mut controller = RobotController::new(gains(), target(1.0));
    let out = controller.step(nothing(), spring);
    assert!(!out.motion_finished);
    assert_eq!(out.torques.map(val), [-12.0; 7]);
}

#[test]
fn step_in_drag_mode_is_zero_whatever_the_error() {
    let mut controller = RobotController::new(gains(), target(1000.0));
    let delivery = Delivery { command: None, mode: Some(Mode::Drag), commanders_gone: false };
    let out = controller.step(delivery, spring);
    assert_eq!(out, TorqueCommand::idle());
    assert_eq!(controller.current_mode(), Mode::Drag);
    let delivery = Delivery { command: Some(target(-1e9)), mode: None, commanders_gone: false };
    let out = controller.step(delivery, spring);
    assert_eq!(out, TorqueCommand::idle());
    assert_eq!(controller.current_set_point(), target(-1e9));
}

#[test]
fn step_in_drag_mode_does_not_ask_the_law() {
    let mut controller = RobotController::new(gains(), target(0.0));
    let delivery = Delivery { command: None, mode: Some(Mode::Drag), commanders_gone: false };
    let out = controller.step(delivery, |_, _| panic!("the law was asked"));
    assert_eq!(out, TorqueCommand::idle());
}

#[test]
fn step_applies_the_target_before_the_mode_decides() {
    let mut controller = RobotController::new(gains(), target(0.0));
    let to_drag = Delivery { command: None, mode: Some(Mode::Drag), commanders_gone: false };
    controller.step(to_drag, spring);
    let both = Delivery {
        command: Some(target(0.02)),
        mode: Some(Mode::Target),
        commanders_gone: false,
    };
    let out = controller.step(both, spring);
    assert_eq!(out.torques.map(val), [-3.0; 7]);
    assert_eq!(controller.current_mode(), Mode::Target);
    assert_eq!(controller.current_set_point(), target(0.02));
}

#[test]
fn step_keeps_the_target_until_another_arrives() {
    let mut controller = RobotController::new(gains(), target(0.0));
    let delivery = Delivery { command: Some(target(0.02)), mode: None, commanders_gone: false };
    assert_eq!(controller.step(delivery, spring).torques.map(val), [-3.0; 7]);
    assert_eq!(controller.step(nothing(), spring).torques.map(val), [-3.0; 7]);
    assert_eq!(controller.step(nothing(), spring).torques.map(val), [-3.0; 7]);
}

#[test]
fn step_stops_once_commanders_are_gone() {
    let mut controller = RobotController::new(gains(), target(1.0));
    let delivery = Delivery { command: None, mode: None, commanders_gone: true };
    let out = controller.step(delivery, |_, _| panic!("the law was asked"));
    assert_eq!(out, TorqueCommand::stop());
    assert!(out.motion_finished);
    assert_eq!(out.torques.map(|t| t.to_bits()), [0; 7]);
}

#[test]
fn step_keeps_the_gains() {
    let mut controller = RobotController::new(gains(), target(1.0));
    let delivery = Delivery {
        command: Some(target(2.0)),
        mode: Some(Mode::Drag),
        commanders_gone: false,
    };
    controller.step(delivery, spring);
    assert_eq!(controller.current_gains(), gains());
}

#[test]
fn step_turns_a_law_that_yields_no_number_into_zero_torque() {
    let mut controller = RobotController::new(gains(), target(1.0));
    let out = controller.step(nothing(), |_, _| [num(f64::NAN); 7]);
    assert_eq!(out.torques.map(val), [0.0; 7]);
}

#[test]
fn cycle_closing_all_commanders_finishes_the_motion() {
    let (mut bridge, handle) = ControlBridge::open();
    let mut controller = RobotController::new(gains(), target(0.01));
    let out = controller.cycle(&mut bridge, state(0.0), spring);
    assert!(!out.motion_finished);
    assert_eq!(out.torques.map(val), [-1.5; 7]);
    drop(handle);
    let out = controller.cycle(&mut bridge, state(0.0), spring);
    assert!(out.motion_finished);
    assert_eq!(out.torques.map(|t| t.to_bits()), [0; 7]);
}

#[test]
fn cycle_uses_the_newest_target_and_mode() {
    let (mut bridge, handle) = ControlBridge::open();
    let mut controller = RobotController::new(gains(), target(0.0));
    handle.send_mode(Mode::Drag).unwrap();
    assert_eq!(controller.cycle(&mut bridge, state(0.0), spring), TorqueCommand::idle());
    handle.send_target(target(0.5)).unwrap();
    handle.send_target(target(0.04)).unwrap();
    handle.send_mode(Mode::Drag).unwrap();
    handle.send_mode(Mode::Target).unwrap();
    let out = controller.cycle(&mut bridge, state(0.0), spring);
    assert_eq!(out.torques.map(val), [-6.0; 7]);
    assert!(!out.motion_finished);
}

#[test]
fn cycle_publishes_the_state_of_the_cycle() {
    let (mut bridge, handle) = ControlBridge::open();
    let mut subscription = handle.subscribe();
    let mut controller = RobotController::new(gains(), target(0.0));
    controller.cycle(&mut bridge, state(0.5), spring);
    controller.cycle(&mut bridge, state(0.6), spring);
    assert_eq!(subscription.latest(), Ok(state(0.6)));
}

#[test]
fn cycle_output_is_always_within_the_bound() {
    let (mut bridge, handle) = ControlBridge::open();
    let mut controller = RobotController::new(gains(), target(0.0));
    for i in 0..50 {
        let x = (i as f64 - 25.0) * 0.01;
        handle.send_target(target(x)).unwrap();
        if i % 7 == 0 {
            handle.set_robot_mode(i % 2).unwrap();
        }
        let out = controller.cycle(&mut bridge, state(x), spring);
        for t in out.torques.map(val) {
            assert!((-12.0..=12.0).contains(&t));
        }
        if controller.current_mode() == Mode::Drag {
            assert_eq!(out.torques.map(val), [0.0; 7]);
        }
    }
}
