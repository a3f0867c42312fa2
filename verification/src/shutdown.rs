//! The shutdown protocol: a one-shot latch that carries a deadline from
//! the admin server to the serving driver, and the states the process goes
//! through once it has fired.

use futures::sync::oneshot::{channel, Receiver, Sender};
use vstd::prelude::*;

verus! {

/// A point in time, by what has elapsed since the process's clock started.
#[derive(Clone, Copy, Debug, PartialEq, Eq, Structural)]
pub struct Moment {
    /// Whole seconds elapsed.
    pub secs: u64,
    /// The fraction of the next second, in nanoseconds.
    pub nanos: u32,
}

impl Moment {
    /// Whether this moment is no earlier than the other.
    pub open spec fn spec_reached(self, other: Moment) -> bool {
        self.secs > other.secs || (self.secs == other.secs && self.nanos >= other.nanos)
    }

    /// Whether this moment is no earlier than the other.
    pub fn reached(self, other: Moment) -> (b: bool)
        ensures
            b == self.spec_reached(other),
    {
        self.secs > other.secs || (self.secs == other.secs && self.nanos >= other.nanos)
    }
}

/// The deadline of a shutdown requested at `now` with this grace period:
/// `now` plus the grace period, where that is representable.
pub open spec fn deadline_after(now: Moment, grace_secs: u64) -> Option<Moment> {
    if now.secs + grace_secs <= u64::MAX {
        Some(Moment { secs: (now.secs + grace_secs) as u64, nanos: now.nanos })
    } else {
        None
    }
}

/// Computes the deadline of a shutdown requested at `now`.
pub fn deadline(now: Moment, grace_secs: u64) -> (r: Option<Moment>)
    ensures
        r == deadline_after(now, grace_secs),
{
    match now.secs.checked_add(grace_secs) {
        Some(secs) => Some(Moment { secs, nanos: now.nanos }),
        None => None,
    }
}

/// `futures::sync::oneshot::Sender`: the sending half of a one-shot channel.
#[verifier::external_type_specification]
#[verifier::external_body]
#[verifier::reject_recursive_types(T)]
pub struct ExSender<T>(Sender<T>);

/// `futures::sync::oneshot::Receiver`: the receiving half of a one-shot
/// channel.
#[verifier::external_type_specification]
#[verifier::external_body]
#[verifier::reject_recursive_types(T)]
pub struct ExReceiver<T>(Receiver<T>);

/// Signals a receiver to shut down by the provided deadline.
pub type Closer = Sender<Moment>;

/// Signals that the receiver should release its resources by the provided
/// deadline.
pub type Closed = Receiver<Moment>;

/// The latch that a sending half belongs to.
pub uninterp spec fn latch_of_sender(sender: Sender<Moment>) -> int;

/// The latch that a receiving half belongs to.
pub uninterp spec fn latch_of_receiver(receiver: Receiver<Moment>) -> int;

/// Calls `oneshot::channel`, which builds both halves around one inner
/// value: the two belong to the same latch.
#[verifier::external_body]
fn new_latch() -> (halves: (Closer, Closed))
    ensures
        latch_of_sender(halves.0) == latch_of_receiver(halves.1),
{
    channel()
}

/// `Sender::send` consumes the sender. Whether the value is enqueued
/// depends on whether the receiver is still there; where it is not, the
/// value comes back in the error.
pub assume_specification<T>[ Sender::<T>::send ](sender: Sender<T>, t: T) -> (r: Result<(), T>)
    ensures
        r matches Err(back) ==> back == t,
;

/// Creates a thread-safe shutdown latch: the two halves of one latch that
/// has not fired, the first to send the deadline on and the second to
/// receive it from.
pub fn closer() -> (halves: (Closer, Closed))
    ensures
        latch_of_sender(halves.0) == latch_of_receiver(halves.1),
{
    new_latch()
}

/// Why a shutdown request did not fire the latch.
#[derive(Clone, Copy, Debug, PartialEq, Eq, Structural)]
pub enum LatchError {
    /// The latch has fired before: it is single-use.
    AlreadyFired,
    /// The latch fired, but the receiving half is gone.
    ReceiverGone,
}

/// The sending half of the shutdown latch, held so that it fires at most
/// once.
pub struct ShutdownLatch {
    sender: Option<Closer>,
}

impl ShutdownLatch {
    /// The latch that a deadline would be sent on, while none was.
    pub closed spec fn latch(&self) -> Option<int> {
        match self.sender {
            Some(sender) => Some(latch_of_sender(sender)),
            None => None,
        }
    }

    /// Whether the latch can still fire.
    pub open spec fn armed(&self) -> bool {
        self.latch() is Some
    }

    /// A latch that has not fired, and will fire on the given half's latch.
    pub fn new(closer: Closer) -> (latch: Self)
        ensures
            latch.latch() == Some(latch_of_sender(closer)),
    {
        ShutdownLatch { sender: Some(closer) }
    }

    /// Whether the latch can still fire.
    pub fn is_armed(&self) -> (b: bool)
        ensures
            b == self.armed(),
    {
        self.sender.is_some()
    }

    /// Fires the latch with a deadline.
    ///
    /// The latch cannot fire again afterwards. A latch that has fired
    /// before is left as it is and the deadline is not sent. Whether a
    /// deadline that is sent arrives depends on the receiving half.
    pub fn fire(&mut self, deadline: Moment) -> (r: Result<(), LatchError>)
        ensures
            !final(self).armed(),
            !old(self).armed() ==> r == Err::<(), LatchError>(LatchError::AlreadyFired),
            old(self).armed() ==> r is Ok || r == Err::<(), LatchError>(LatchError::ReceiverGone),
    {
        match self.sender.take() {
            None => Err(LatchError::AlreadyFired),
            Some(sender) => match sender.send(deadline) {
                Ok(()) => Ok(()),
                Err(_) => Err(LatchError::ReceiverGone),
            },
        }
    }
}

/// Where the process is in its life.
#[derive(Clone, Copy, Debug, PartialEq, Eq, Structural)]
pub enum Lifecycle {
    /// Serving; no shutdown was requested.
    Running,
    /// A shutdown was requested; the deadline is on its way to the driver.
    ShutdownRequested(Moment),
    /// The driver accepts no new connections and waits for those in
    /// flight, until the deadline.
    Draining(Moment),
    /// Every server has finished or the deadline has passed.
    Terminated,
}

/// What moves the process on.
#[derive(Clone, Copy, Debug, PartialEq, Eq, Structural)]
pub enum Signal {
    /// The shutdown endpoint was triggered; the latch carries this deadline.
    Requested(Moment),
    /// The serving driver received the deadline.
    Received,
    /// Every server has finished.
    Drained,
    /// The clock shows this moment.
    Clock(Moment),
}

impl Lifecycle {
    /// How far along the process is: 0 while running, 3 once terminated.
    pub open spec fn rank(self) -> nat {
        match self {
            Lifecycle::Running => 0,
            Lifecycle::ShutdownRequested(_) => 1,
            Lifecycle::Draining(_) => 2,
            Lifecycle::Terminated => 3,
        }
    }

    /// The state after a signal. A request counts only while running; the
    /// deadline is received only once requested; draining ends when every
    /// server has finished or the clock reaches the deadline. Any other
    /// signal leaves the state as it is.
    pub open spec fn spec_advance(self, signal: Signal) -> Lifecycle {
        match (self, signal) {
            (Lifecycle::Running, Signal::Requested(deadline)) => Lifecycle::ShutdownRequested(
                deadline,
            ),
            (Lifecycle::ShutdownRequested(deadline), Signal::Received) => Lifecycle::Draining(
                deadline,
            ),
            (Lifecycle::Draining(_), Signal::Drained) => Lifecycle::Terminated,
            (Lifecycle::Draining(deadline), Signal::Clock(now)) => if now.spec_reached(deadline) {
                Lifecycle::Terminated
            } else {
                self
            },
            _ => self,
        }
    }

    /// The deadline that the process is bound by, once one was requested.
    pub open spec fn spec_deadline(self) -> Option<Moment> {
        match self {
            Lifecycle::ShutdownRequested(deadline) => Some(deadline),
            Lifecycle::Draining(deadline) => Some(deadline),
            _ => None,
        }
    }

    /// Moves the process on by one signal.
    pub fn advance(self, signal: Signal) -> (next: Lifecycle)
        ensures
            next == self.spec_advance(signal),
    {
        match (self, signal) {
            (Lifecycle::Running, Signal::Requested(deadline)) => Lifecycle::ShutdownRequested(
                deadline,
            ),
            (Lifecycle::ShutdownRequested(deadline), Signal::Received) => Lifecycle::Draining(
                deadline,
            ),
            (Lifecycle::Draining(_), Signal::Drained) => Lifecycle::Terminated,
            (Lifecycle::Draining(deadline), Signal::Clock(now)) => if now.reached(deadline) {
                Lifecycle::Terminated
            } else {
                self
            },
            _ => self,
        }
    }

    /// The deadline that the process is bound by, once one was requested.
    pub fn deadline(self) -> (r: Option<Moment>)
        ensures
            r == self.spec_deadline(),
    {
        match self {
            Lifecycle::ShutdownRequested(deadline) => Some(deadline),
            Lifecycle::Draining(deadline) => Some(deadline),
            _ => None,
        }
    }
}

/// The process never goes back: a signal leaves it where it is or moves it
/// one state on.
pub proof fn lifecycle_only_advances(state: Lifecycle, signal: Signal)
    ensures
        state.rank() <= state.spec_advance(signal).rank() <= state.rank() + 1,
{
}

/// The protocol is not re-entrant: once a shutdown was requested, another
/// request changes nothing, and the deadline stays the one first requested.
pub proof fn lifecycle_second_request_is_ignored(state: Lifecycle, first: Moment, second: Moment)
    ensures
        state.spec_advance(Signal::Requested(first)).spec_advance(Signal::Requested(second))
            == state.spec_advance(Signal::Requested(first)),
        state == Lifecycle::Running ==> state.spec_advance(Signal::Requested(first)).spec_advance(
            Signal::Requested(second),
        ).spec_deadline() == Some(first),
{
}

/// Draining is bounded by the deadline: once the clock reaches it, the
/// process is terminated whether or not its servers have finished.
pub proof fn lifecycle_deadline_ends_draining(deadline: Moment, now: Moment)
    requires
        now.spec_reached(deadline),
    ensures
        Lifecycle::Draining(deadline).spec_advance(Signal::Clock(now)) == Lifecycle::Terminated,
{
}

/// Once terminated, the process stays terminated.
pub proof fn lifecycle_terminated_is_final(signal: Signal)
    ensures
        Lifecycle::Terminated.spec_advance(signal) == Lifecycle::Terminated,
{
}

} // verus!
