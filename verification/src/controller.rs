//! The controller: the state that lives across control cycles and the
//! decision that each cycle makes.

use vstd::prelude::*;
use crate::binary64::Binary64;
use crate::bridge::{is_take, ControlBridge, Intake, Polled};
use crate::data::{RobotState, TargetCommand};
use crate::gains::GainProfile;
use crate::governor::{
    all_within_limit, clamped, govern, lemma_clamped_zero, zero_torques, TorqueCommand,
};
use crate::mode::{Mode, ModeStateMachine};

verus! {

/// What the bridge delivered to one cycle.
#[derive(Clone, Copy, Debug, PartialEq, Eq)]
pub struct Delivery {
    /// The newest target, if one arrived.
    pub command: Option<TargetCommand>,
    /// The newest mode, if one arrived.
    pub mode: Option<Mode>,
    /// Every sender of targets is gone.
    pub commanders_gone: bool,
}

/// The delivery is what takes with these polls gather from the two inbound
/// channels of a bridge that had, or had not, seen the senders of targets go.
pub open spec fn delivered(
    gone_before: bool,
    target_polls: Seq<Polled<TargetCommand>>,
    mode_polls: Seq<Polled<Mode>>,
) -> Delivery {
    Delivery {
        command: Intake::of(target_polls).newest,
        mode: Intake::of(mode_polls).newest,
        commanders_gone: gone_before || Intake::of(target_polls).closed,
    }
}

impl Delivery {
    /// Takes from the bridge what arrived since the last cycle, without
    /// waiting: first the target, then the mode.
    pub fn take(bridge: &mut ControlBridge) -> (delivery: Delivery)
        ensures
            exists|target_polls: Seq<Polled<TargetCommand>>, mode_polls: Seq<Polled<Mode>>|
                is_take(target_polls) && is_take(mode_polls) && delivery == delivered(
                    old(bridge).commanders_gone(),
                    target_polls,
                    mode_polls,
                ),
            delivery.commanders_gone == final(bridge).commanders_gone(),
    {
        let command = bridge.try_take_command();
        let ghost target_polls = choose|polls: Seq<Polled<TargetCommand>>|
            is_take(polls) && command == Intake::of(polls).newest && bridge.commanders_gone() == (
            old(bridge).commanders_gone() || Intake::of(polls).closed);
        let mode = bridge.try_take_mode();
        let ghost mode_polls = choose|polls: Seq<Polled<Mode>>|
            is_take(polls) && mode == Intake::of(polls).newest;
        let delivery = Delivery { command, mode, commanders_gone: bridge.is_commanders_gone() };
        assert(is_take(target_polls) && is_take(mode_polls) && delivery == delivered(
            old(bridge).commanders_gone(),
            target_polls,
            mode_polls,
        ));
        delivery
    }
}

/// The controller between two cycles: the gains it was made with, the
/// target it tracks and the mode it is in.
pub struct RobotController {
    gains: GainProfile,
    set_point: TargetCommand,
    machine: ModeStateMachine,
}

impl RobotController {
    /// The gains of the impedance law.
    pub closed spec fn gains(&self) -> GainProfile {
        self.gains
    }

    /// The target that the impedance law tracks.
    pub closed spec fn set_point(&self) -> TargetCommand {
        self.set_point
    }

    /// The mode of the controller.
    pub closed spec fn mode(&self) -> Mode {
        self.machine.state()
    }

    /// The target after a delivery: the delivered one replaces the one
    /// before.
    pub open spec fn set_point_after(&self, delivery: Delivery) -> TargetCommand {
        match delivery.command {
            Some(target) => target,
            None => self.set_point(),
        }
    }

    /// The mode after a delivery.
    pub open spec fn mode_after(&self, delivery: Delivery) -> Mode {
        ModeStateMachine::after(self.mode(), delivery.mode)
    }

    /// The cycle asks the impedance law for torques: somebody can still send
    /// targets and the mode is target tracking.
    pub open spec fn tracks(&self, delivery: Delivery) -> bool {
        !delivery.commanders_gone && self.mode_after(delivery) == Mode::Target
    }

    /// What one cycle does, given what the bridge delivered and the law that
    /// maps a target and the gains to raw joint torques.
    ///
    /// The gains stay as they are.
    /// The target is applied before the mode decides whether it is used. The
    /// stop command goes out once every sender of targets is gone; zero
    /// torque in the compliant mode, without asking the law; in target
    /// tracking the law's torques for the target just applied, saturated.
    pub open spec fn cycle_outcome<F: FnOnce(TargetCommand, GainProfile) -> [Binary64; 7]>(
        before: Self,
        delivery: Delivery,
        law: F,
        after: Self,
        out: TorqueCommand,
    ) -> bool {
        &&& after.gains() == before.gains()
        &&& after.set_point() == before.set_point_after(delivery)
        &&& after.mode() == before.mode_after(delivery)
        &&& out.motion_finished == delivery.commanders_gone
        &&& if before.tracks(delivery) {
            exists|raw: [Binary64; 7]|
                call_ensures(law, (before.set_point_after(delivery), before.gains()), raw)
                    && out.torques@ == clamped(raw@)
        } else {
            out.torques@ == zero_torques()
        }
    }

    /// A controller with the given gains that holds the given pose and
    /// tracks targets.
    pub fn new(gains: GainProfile, initial: TargetCommand) -> (controller: Self)
        ensures
            controller.gains() == gains,
            controller.set_point() == initial,
            controller.mode() == Mode::Target,
    {
        RobotController { gains, set_point: initial, machine: ModeStateMachine::new() }
    }

    /// The gains of the impedance law.
    pub fn current_gains(&self) -> (gains: GainProfile)
        ensures
            gains == self.gains(),
    {
        self.gains
    }

    /// The target that the impedance law tracks.
    pub fn current_set_point(&self) -> (target: TargetCommand)
        ensures
            target == self.set_point(),
    {
        self.set_point
    }

    /// The mode of the controller.
    pub fn current_mode(&self) -> (mode: Mode)
        ensures
            mode == self.mode(),
    {
        self.machine.current()
    }

    /// Makes the decision of one cycle from what the bridge delivered.
    pub fn step<F: FnOnce(TargetCommand, GainProfile) -> [Binary64; 7]>(
        &mut self,
        delivery: Delivery,
        law: F,
    ) -> (out: TorqueCommand)
        requires
            old(self).tracks(delivery) ==> call_requires(
                law,
                (old(self).set_point_after(delivery), old(self).gains()),
            ),
        ensures
            Self::cycle_outcome(*old(self), delivery, law, *final(self), out),
            all_within_limit(out.torques@),
            final(self).mode() == Mode::Drag ==> out.torques@ == zero_torques(),
            delivery.commanders_gone ==> out.motion_finished && out.torques@ == zero_torques(),
    {
        match delivery.command {
            Some(target) => {
                self.set_point = target;
            },
            None => {},
        }
        self.machine.deliver(delivery.mode);
        proof {
            lemma_clamped_zero();
        }
        let raw: [Binary64; 7] = if !delivery.commanders_gone {
            match self.machine.current() {
                Mode::Target => law(self.set_point, self.gains),
                Mode::Drag => [Binary64 { bits: 0 };7],
            }
        } else {
            [Binary64 { bits: 0 };7]
        };
        assert(!old(self).tracks(delivery) ==> raw@ =~= zero_torques());
        govern(raw, delivery.commanders_gone)
    }

    /// Runs one control cycle: takes what the bridge delivered, decides,
    /// publishes the state of the cycle, and returns the command for the
    /// device. Nothing in it waits.
    pub fn cycle<F: FnOnce(TargetCommand, GainProfile) -> [Binary64; 7]>(
        &mut self,
        bridge: &mut ControlBridge,
        state: RobotState,
        law: F,
    ) -> (out: TorqueCommand)
        requires
            forall|target: TargetCommand| call_requires(law, (target, old(self).gains())),
        ensures
            exists|target_polls: Seq<Polled<TargetCommand>>, mode_polls: Seq<Polled<Mode>>|
                is_take(target_polls) && is_take(mode_polls) && Self::cycle_outcome(
                    *old(self),
                    delivered(old(bridge).commanders_gone(), target_polls, mode_polls),
                    law,
                    *final(self),
                    out,
                ),
            all_within_limit(out.torques@),
            final(self).mode() == Mode::Drag ==> out.torques@ == zero_torques(),
            out.motion_finished == final(bridge).commanders_gone(),
            out.motion_finished ==> out.torques@ == zero_torques(),
    {
        let delivery = Delivery::take(bridge);
        let out = self.step(delivery, law);
        bridge.publish_state(state);
        out
    }
}

} // verus!
