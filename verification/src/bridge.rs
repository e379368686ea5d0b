//! The bridge between the control cycle and the services around it.

use vstd::prelude::*;
use tokio::sync::broadcast::{Receiver, Sender};
use tokio::sync::broadcast::error::TryRecvError;
use crate::binary64::Binary64;
use crate::data::{RobotState, TargetCommand, TRANSFORM_LEN};
use crate::mode::Mode;

verus! {

/// The sending half of a broadcast channel of `tokio`. Opaque: nothing is
/// known of what it holds.
#[verifier::external_type_specification]
#[verifier::external_body]
#[verifier::reject_recursive_types(T)]
pub struct ExSender<T>(Sender<T>);

/// The receiving half of a broadcast channel of `tokio`. Opaque: nothing is
/// known of what it holds.
#[verifier::external_type_specification]
#[verifier::external_body]
#[verifier::reject_recursive_types(T)]
pub struct ExReceiver<T>(Receiver<T>);

/// What one poll of a channel found.
pub enum Polled<T> {
    /// The oldest value that was not read yet.
    Value(T),
    /// Nothing is pending; a sender is still there.
    Empty,
    /// Nothing is pending and every sender is gone.
    Closed,
    /// Values were overwritten before they were read; the count is how many.
    Lagged(u64),
}

/// Calls `tokio::sync::broadcast::channel`. The call panics on a capacity of
/// zero or above `usize::MAX / 2`, which `requires` leaves out. Nothing is
/// claimed of the two halves.
#[verifier::external_body]
fn open_channel<T: Clone>(capacity: usize) -> (halves: (Sender<T>, Receiver<T>))
    requires
        0 < capacity <= usize::MAX / 2,
{
    tokio::sync::broadcast::channel(capacity)
}

/// Calls `Receiver::try_recv`, which never waits, and tells the outcomes
/// apart. What it finds depends on the other holders of the channel, so
/// nothing is claimed of the result.
#[verifier::external_body]
fn poll<T: Clone>(receiver: &mut Receiver<T>) -> (found: Polled<T>) {
    match receiver.try_recv() {
        Ok(value) => Polled::Value(value),
        Err(TryRecvError::Empty) => Polled::Empty,
        Err(TryRecvError::Closed) => Polled::Closed,
        Err(TryRecvError::Lagged(missed)) => Polled::Lagged(missed),
    }
}

/// What a channel can answer to a value that is offered to it: the number
/// of receivers that it went to, which is at least one, or the value itself,
/// handed back because no receiver was there.
pub open spec fn is_answer<T>(value: T, sent: Result<usize, T>) -> bool {
    match sent {
        Ok(receivers) => receivers >= 1,
        Err(back) => back == value,
    }
}

/// Calls `Sender::send`, which never waits. It fails exactly when the
/// channel has no receiver at the moment of the call, and then hands the
/// value back; on success it returns the number of receivers at that moment,
/// which is at least one. Which of the two happens depends on the other
/// holders of the channel, and is not claimed.
#[verifier::external_body]
fn offer<T>(sender: &Sender<T>, value: T) -> (sent: Result<usize, T>)
    ensures
        is_answer(value, sent),
{
    match sender.send(value) {
        Ok(receivers) => Ok(receivers),
        Err(refused) => Err(refused.0),
    }
}

/// Calls `Sender::receiver_count`: the number of receivers at the moment of
/// the call, which depends on the other holders of the channel.
#[verifier::external_body]
fn receivers<T>(sender: &Sender<T>) -> (count: usize) {
    sender.receiver_count()
}

/// Calls `Sender::subscribe`: a new receiver that sees what is sent after
/// the call. Nothing is claimed of it. The call panics only when the channel
/// already has `usize::MAX / 4` receivers, more than a process can hold.
#[verifier::external_body]
fn subscribe<T>(sender: &Sender<T>) -> (receiver: Receiver<T>) {
    sender.subscribe()
}

/// `Sender::clone` gives one more sender of the same channel. Nothing is
/// claimed of it.
pub assume_specification<T>[ <Sender<T> as Clone>::clone ](sender: &Sender<T>) -> (other: Sender<
    T,
>)
;

/// Number of values that each channel of the bridge retains for a receiver
/// that does not keep up.
pub const CHANNEL_CAPACITY: usize = 10;

/// Number of polls that one take makes at most, so that a take is bounded
/// whatever the senders do.
pub const POLL_BUDGET: usize = 32;

/// What a receiver has gathered from the polls of one take.
pub struct Intake<T> {
    /// The value that was read last, if any was read.
    pub newest: Option<T>,
    /// The channel reported that every sender is gone.
    pub closed: bool,
    /// The channel reported that nothing more is pending.
    pub drained: bool,
}

impl<T> Intake<T> {
    /// Before the first poll.
    pub open spec fn start() -> Self {
        Intake { newest: None, closed: false, drained: false }
    }

    /// After one more poll. A value replaces the one before it: the last
    /// write wins and nothing is queued.
    pub open spec fn absorbed(self, found: Polled<T>) -> Self {
        match found {
            Polled::Value(value) => Intake {
                newest: Some(value),
                closed: self.closed,
                drained: self.drained,
            },
            Polled::Lagged(_) => self,
            Polled::Empty => Intake { newest: self.newest, closed: self.closed, drained: true },
            Polled::Closed => Intake { newest: self.newest, closed: true, drained: true },
        }
    }

    /// After a sequence of polls, the first made first.
    pub open spec fn of(polls: Seq<Polled<T>>) -> Self
        decreases polls.len(),
    {
        if polls.len() == 0 {
            Self::start()
        } else {
            Self::of(polls.drop_last()).absorbed(polls.last())
        }
    }

    /// Before the first poll.
    pub fn new() -> (intake: Self)
        ensures
            intake == Self::start(),
    {
        Intake { newest: None, closed: false, drained: false }
    }

    /// Takes in what one more poll found.
    pub fn absorb(self, found: Polled<T>) -> (intake: Self)
        ensures
            intake == self.absorbed(found),
    {
        match found {
            Polled::Value(value) => Intake {
                newest: Some(value),
                closed: self.closed,
                drained: self.drained,
            },
            Polled::Lagged(_) => self,
            Polled::Empty => Intake { newest: self.newest, closed: self.closed, drained: true },
            Polled::Closed => Intake { newest: self.newest, closed: true, drained: true },
        }
    }
}

/// The polls are those of one take: it goes on while it finds values or
/// learns that it lagged, and it ends with the poll that finds nothing
/// pending, or when the budget is spent.
pub open spec fn is_take<T>(polls: Seq<Polled<T>>) -> bool {
    &&& polls.len() <= POLL_BUDGET
    &&& forall|i: int|
        0 <= i < polls.len() - 1 ==> (#[trigger] polls[i] is Value || polls[i] is Lagged)
    &&& (polls.len() == POLL_BUDGET || (polls.len() > 0 && (polls.last() is Empty
        || polls.last() is Closed)))
}

/// The newest value of a take is the last value that any of its polls found.
pub proof fn lemma_newest_is_last_value<T>(polls: Seq<Polled<T>>)
    ensures
        Intake::of(polls).newest is None <==> forall|i: int|
            0 <= i < polls.len() ==> !(#[trigger] polls[i] is Value),
        Intake::of(polls).newest matches Some(value) ==> exists|i: int|
            0 <= i < polls.len() && #[trigger] polls[i] == Polled::Value(value) && forall|j: int|
                i < j < polls.len() ==> !(#[trigger] polls[j] is Value),
    decreases polls.len(),
{
    if polls.len() > 0 {
        let front = polls.drop_last();
        lemma_newest_is_last_value(front);
        assert forall|i: int| 0 <= i < front.len() implies front[i] == polls[i] by {}
        match polls.last() {
            Polled::Value(value) => {
                assert(polls[polls.len() - 1] == Polled::Value(value));
            },
            _ => {
                if Intake::of(polls).newest is None {
                    assert forall|i: int| 0 <= i < polls.len() implies !(#[trigger] polls[i]
                        is Value) by {
                        if i < front.len() {
                            assert(front[i] == polls[i]);
                        }
                    }
                } else {
                    let value = Intake::of(polls).newest->0;
                    let i = choose|i: int|
                        0 <= i < front.len() && #[trigger] front[i] == Polled::Value(value)
                            && forall|j: int|
                            i < j < front.len() ==> !(#[trigger] front[j] is Value);
                    assert(polls[i] == Polled::Value(value));
                    assert forall|j: int| i < j < polls.len() implies !(#[trigger] polls[j]
                        is Value) by {
                        if j < front.len() {
                            assert(front[j] == polls[j]);
                        }
                    }
                }
            },
        }
    }
}

/// Polls the receiver until nothing is pending or the budget is spent, and
/// keeps the newest value.
fn take_newest<T: Clone>(receiver: &mut Receiver<T>) -> (intake: Intake<T>)
    ensures
        exists|polls: Seq<Polled<T>>| is_take(polls) && intake == Intake::of(polls),
{
    let mut intake: Intake<T> = Intake::new();
    let ghost mut polls: Seq<Polled<T>> = Seq::empty();
    let mut made: usize = 0;
    while made < POLL_BUDGET && !intake.drained
        invariant
            made <= POLL_BUDGET,
            polls.len() == made,
            intake == Intake::of(polls),
            forall|i: int|
                0 <= i < polls.len() ==> (#[trigger] polls[i] is Value || polls[i] is Lagged)
                    || (i == polls.len() - 1 && intake.drained),
            intake.drained ==> polls.len() > 0 && (polls.last() is Empty || polls.last()
                is Closed),
        decreases POLL_BUDGET - made,
    {
        let found = poll(receiver);
        proof {
            let longer = polls.push(found);
            assert(longer.drop_last() =~= polls);
            assert(longer.last() == found);
            assert forall|i: int| 0 <= i < longer.len() - 1 implies (#[trigger] longer[i]
                is Value || longer[i] is Lagged) by {
                assert(longer[i] == polls[i]);
            }
            polls = longer;
        }
        intake = intake.absorb(found);
        made = made + 1;
    }
    proof {
        assert(is_take(polls));
    }
    intake
}

/// Why a request to the bridge failed.
#[derive(Clone, Copy, Debug, PartialEq, Eq, Structural)]
pub enum BridgeError {
    /// Nobody is left at the other end: the control session is over.
    Disconnected,
    /// No state was published yet since the subscription was made.
    NoState,
    /// The flattened transform does not have sixteen entries.
    MalformedTarget,
}

/// What a send reports upward: the number of receivers that were reached, or
/// that nobody was there.
pub open spec fn delivery<T>(sent: Result<usize, T>) -> Result<usize, BridgeError> {
    match sent {
        Ok(reached) => Ok(reached),
        Err(_) => Err(BridgeError::Disconnected),
    }
}

/// Turns the outcome of a send into what is reported upward.
pub fn report_delivery<T>(sent: Result<usize, T>) -> (report: Result<usize, BridgeError>)
    ensures
        report == delivery(sent),
{
    match sent {
        Ok(reached) => Ok(reached),
        Err(_) => Err(BridgeError::Disconnected),
    }
}

/// How many subscribers a state reached, from what the channel answered to
/// it: as many as the channel says, and none where it handed the state back.
pub open spec fn reach(sent: Result<usize, RobotState>) -> usize {
    match sent {
        Ok(reached) => reached,
        Err(_) => 0,
    }
}

/// Turns what the channel answered to a state into the number of
/// subscribers that the state reached.
pub fn count_reached(sent: Result<usize, RobotState>) -> (reached: usize)
    ensures
        reached == reach(sent),
{
    match sent {
        Ok(reached) => reached,
        Err(_) => 0,
    }
}

/// The state that a subscriber is answered with: the newest state of this
/// take, else the one remembered from an earlier take; with neither, the
/// failure says whether the publisher is gone or has not published yet.
pub open spec fn state_answer(
    remembered: Option<RobotState>,
    intake: Intake<RobotState>,
) -> Result<RobotState, BridgeError> {
    match intake.newest {
        Some(state) => Ok(state),
        None => match remembered {
            Some(state) => Ok(state),
            None => if intake.closed {
                Err(BridgeError::Disconnected)
            } else {
                Err(BridgeError::NoState)
            },
        },
    }
}

/// Answers a subscriber from what it remembered and what a take gathered.
pub fn answer_state(remembered: Option<RobotState>, intake: Intake<RobotState>) -> (answer: Result<
    RobotState,
    BridgeError,
>)
    ensures
        answer == state_answer(remembered, intake),
{
    match intake.newest {
        Some(state) => Ok(state),
        None => match remembered {
            Some(state) => Ok(state),
            None => if intake.closed {
                Err(BridgeError::Disconnected)
            } else {
                Err(BridgeError::NoState)
            },
        },
    }
}

/// The end of the bridge that the control cycle holds. None of its
/// operations waits.
pub struct ControlBridge {
    states: Sender<RobotState>,
    targets: Receiver<TargetCommand>,
    modes: Receiver<Mode>,
    commanders_gone: bool,
}

/// The end of the bridge that the services hold. It can be cloned; the
/// control cycle learns that it should stop when the last clone is dropped.
pub struct BridgeHandle {
    states: Sender<RobotState>,
    targets: Sender<TargetCommand>,
    modes: Sender<Mode>,
}

impl Clone for BridgeHandle {
    /// One more handle of the same bridge.
    fn clone(&self) -> (other: Self) {
        BridgeHandle {
            states: self.states.clone(),
            targets: self.targets.clone(),
            modes: self.modes.clone(),
        }
    }
}

/// A read-only view of the states that the control cycle publishes.
pub struct StateSubscription {
    receiver: Receiver<RobotState>,
    remembered: Option<RobotState>,
}

impl ControlBridge {
    /// A take found that every sender of targets is gone.
    pub closed spec fn commanders_gone(&self) -> bool {
        self.commanders_gone
    }

    /// Opens a bridge and returns its two ends.
    pub fn open() -> (ends: (ControlBridge, BridgeHandle))
        ensures
            !ends.0.commanders_gone(),
    {
        let (state_sender, _) = open_channel::<RobotState>(CHANNEL_CAPACITY);
        let (target_sender, targets) = open_channel::<TargetCommand>(CHANNEL_CAPACITY);
        let (mode_sender, modes) = open_channel::<Mode>(CHANNEL_CAPACITY);
        let states = state_sender.clone();
        (
            ControlBridge { states, targets, modes, commanders_gone: false },
            BridgeHandle { states: state_sender, targets: target_sender, modes: mode_sender },
        )
    }

    /// Whether a take found that every sender of targets is gone.
    pub fn is_commanders_gone(&self) -> (gone: bool)
        ensures
            gone == self.commanders_gone(),
    {
        self.commanders_gone
    }

    /// The newest target that arrived since the last take, if any. Targets
    /// that arrived before it are dropped. It also records whether every
    /// sender of targets is gone.
    pub fn try_take_command(&mut self) -> (command: Option<TargetCommand>)
        ensures
            exists|polls: Seq<Polled<TargetCommand>>|
                is_take(polls) && command == Intake::of(polls).newest
                    && final(self).commanders_gone() == (old(self).commanders_gone()
                    || Intake::of(polls).closed),
    {
        let intake = take_newest(&mut self.targets);
        self.commanders_gone = self.commanders_gone || intake.closed;
        intake.newest
    }

    /// The newest mode that arrived since the last take, if any. Modes that
    /// arrived before it are dropped.
    pub fn try_take_mode(&mut self) -> (mode: Option<Mode>)
        ensures
            exists|polls: Seq<Polled<Mode>>| is_take(polls) && mode == Intake::of(polls).newest,
            final(self).commanders_gone() == old(self).commanders_gone(),
    {
        let intake = take_newest(&mut self.modes);
        intake.newest
    }

    /// Hands the state to every subscriber there is at this moment and
    /// returns how many there were. What is offered to the channel is the
    /// state as it was given. With no subscriber the state is not offered at
    /// all, which counts like a state that the channel hands back. How many
    /// subscribers there are depends on the services.
    pub fn publish_state(&self, state: RobotState) -> (reached: usize)
        ensures
            exists|sent: Result<usize, RobotState>|
                is_answer(state, sent) && reached == #[trigger] reach(sent),
    {
        if receivers(&self.states) == 0 {
            assert(is_answer(state, Err::<usize, RobotState>(state)) && 0 == reach(
                Err::<usize, RobotState>(state),
            ));
            return 0;
        }
        let sent = offer(&self.states, state);
        let reached = count_reached(sent);
        assert(is_answer(state, sent) && reached == reach(sent));
        reached
    }
}

impl BridgeHandle {
    /// Subscribes to the states that the control cycle publishes from now
    /// on.
    pub fn subscribe(&self) -> (subscription: StateSubscription)
        ensures
            subscription.remembered() is None,
    {
        StateSubscription { receiver: subscribe(&self.states), remembered: None }
    }

    /// Sends a target to the control cycle. It fails, with the session
    /// reported as over, when no control cycle is there to receive it. What
    /// is offered to the channel is the target as it was given.
    pub fn send_target(&self, target: TargetCommand) -> (report: Result<usize, BridgeError>)
        ensures
            exists|sent: Result<usize, TargetCommand>|
                is_answer(target, sent) && report == #[trigger] delivery(sent),
            report matches Ok(reached) ==> reached >= 1,
            report matches Err(error) ==> error == BridgeError::Disconnected,
    {
        let sent = offer(&self.targets, target);
        let report = report_delivery(sent);
        assert(is_answer(target, sent) && report == delivery(sent));
        report
    }

    /// Sends a mode to the control cycle. It fails, with the session
    /// reported as over, when no control cycle is there to receive it. What
    /// is offered to the channel is the mode as it was given.
    pub fn send_mode(&self, mode: Mode) -> (report: Result<usize, BridgeError>)
        ensures
            exists|sent: Result<usize, Mode>|
                is_answer(mode, sent) && report == #[trigger] delivery(sent),
            report matches Ok(reached) ==> reached >= 1,
            report matches Err(error) ==> error == BridgeError::Disconnected,
    {
        let sent = offer(&self.modes, mode);
        let report = report_delivery(sent);
        assert(is_answer(mode, sent) && report == delivery(sent));
        report
    }

    /// Serves a request to set the target from a flattened transform. A
    /// transform that does not have sixteen entries is refused here, at the
    /// boundary, and nothing is sent.
    pub fn set_robot_target(&self, flat: &Vec<Binary64>) -> (report: Result<usize, BridgeError>)
        ensures
            report == Err::<usize, BridgeError>(BridgeError::MalformedTarget) <==> flat@.len()
                != TRANSFORM_LEN,
            report matches Ok(reached) ==> reached >= 1,
            report matches Err(error) ==> error == BridgeError::MalformedTarget || error
                == BridgeError::Disconnected,
    {
        match TargetCommand::from_flat(flat) {
            Some(target) => self.send_target(target),
            None => Err(BridgeError::MalformedTarget),
        }
    }

    /// Serves a request to set the mode from its wire code. What is offered
    /// to the channel is the mode that the code selects: target tracking for
    /// zero, the compliant mode for every other code.
    pub fn set_robot_mode(&self, code: i32) -> (report: Result<usize, BridgeError>)
        ensures
            exists|sent: Result<usize, Mode>|
                is_answer(Mode::of_code(code as int), sent) && report == #[trigger] delivery(
                    sent,
                ),
            report matches Ok(reached) ==> reached >= 1,
            report matches Err(error) ==> error == BridgeError::Disconnected,
    {
        self.send_mode(Mode::from_code(code))
    }
}

impl StateSubscription {
    /// The newest state that an earlier take has seen.
    pub closed spec fn remembered(&self) -> Option<RobotState> {
        self.remembered
    }

    /// The newest state that was published since the subscription was made.
    /// It fails while no state was published yet, and says so; once the
    /// publisher is gone it says that instead.
    pub fn latest(&mut self) -> (answer: Result<RobotState, BridgeError>)
        ensures
            exists|polls: Seq<Polled<RobotState>>|
                is_take(polls) && answer == state_answer(
                    old(self).remembered(),
                    Intake::of(polls),
                ),
            final(self).remembered() == match answer {
                Ok(state) => Some(state),
                Err(_) => None,
            },
    {
        let intake = take_newest(&mut self.receiver);
        let answer = answer_state(self.remembered, intake);
        match answer {
            Ok(state) => {
                self.remembered = Some(state);
            },
            Err(_) => {},
        }
        answer
    }
}

} // verus!
