//! A one-shot channel: a connected `Sender`/`Receiver` pair that hands
//! exactly one value from one thread to exactly one other thread.
//!
//! Both handles share one reference-counted cell. The cell's logical content
//! is a [`ChannelCore`]: a tri-state flag together with a slot holding at
//! most one value. The core progresses through at most one of two terminal
//! transitions, `NotReady -> Finished` (a value was stored) or
//! `NotReady -> Disconnected` (the sender was dropped without sending), and
//! once terminal it never changes state again.
//!
//! Every transition of the core is a verified function with an exact
//! contract; the lemmas at the end of this module state the laws that follow
//! from those contracts. The core lives behind a mutual-exclusion lock with
//! an associated condition variable, so each step below runs as one critical
//! section: a receiver's check of the state flag and its extraction of the
//! value are a single atomic step with respect to the sender.

use vstd::prelude::*;

use crate::sync::condvar_new;
use crate::sync::condvar_notify_all;
use crate::sync::duration_is_zero;
use crate::sync::guard_replace;
use crate::sync::instant_after;
use crate::sync::instant_now;
use crate::sync::instant_since;
use crate::sync::mutex_lock;
use crate::sync::mutex_new;

verus! {

/// The tri-state flag of a channel cell.
///
/// `NotReady` is the initial state; `Finished` means a value was stored;
/// `Disconnected` means the sender was retired without storing one.
#[derive(Clone, Copy, Debug, PartialEq, Eq, Structural)]
pub enum ChannelState {
    NotReady,
    Finished,
    Disconnected,
}

/// The error taxonomy of the blocking receive: an unbounded wait can end
/// only once the channel is terminal, so "not ready" cannot escape it and
/// is excluded by this type.
#[derive(Clone, Copy, Debug, PartialEq, Eq, Structural)]
pub enum ReceiveError {
    /// The sender was dropped without ever supplying a value.
    Disconnected,
    /// The single deliverable value was already consumed by a prior receive.
    AlreadyRetrieved,
}

impl ReceiveError {
    /// A human-readable description of the condition.
    pub fn message(&self) -> (s: &'static str)
        ensures
            (match self {
                ReceiveError::Disconnected => s@
                    == "the sender of the oneshot channel was dropped without setting a value"@,
                ReceiveError::AlreadyRetrieved => s@
                    == "the value of the oneshot channel has already been retrieved"@,
            }),
    {
        match self {
            ReceiveError::Disconnected => {
                "the sender of the oneshot channel was dropped without setting a value"
            },
            ReceiveError::AlreadyRetrieved => {
                "the value of the oneshot channel has already been retrieved"
            },
        }
    }
}

/// The error taxonomy of the polling and bounded receives, which can also
/// miss: `NotReady` reports that no value was available within the wait.
#[derive(Clone, Copy, Debug, PartialEq, Eq, Structural)]
pub enum TryReceiveError {
    /// The sender was dropped without ever supplying a value.
    Disconnected,
    /// The single deliverable value was already consumed by a prior receive.
    AlreadyRetrieved,
    /// No value was available yet; the channel stays usable.
    NotReady,
}

impl TryReceiveError {
    /// A human-readable description of the condition; the terminal
    /// conditions read as in [`ReceiveError::message`].
    pub fn message(&self) -> (s: &'static str)
        ensures
            (match self {
                TryReceiveError::Disconnected => s@
                    == "the sender of the oneshot channel was dropped without setting a value"@,
                TryReceiveError::AlreadyRetrieved => s@
                    == "the value of the oneshot channel has already been retrieved"@,
                TryReceiveError::NotReady => s@
                    == "the value of the oneshot channel is not available yet"@,
            }),
    {
        match self {
            TryReceiveError::Disconnected => ReceiveError::Disconnected.message(),
            TryReceiveError::AlreadyRetrieved => ReceiveError::AlreadyRetrieved.message(),
            TryReceiveError::NotReady => {
                "the value of the oneshot channel is not available yet"
            },
        }
    }
}

/// The logical content of the shared cell: the state flag and the slot
/// holding at most one value.
///
/// A well-formed core keeps the slot non-empty only in the `Finished` state
/// ([`Self::wf`]); every transition below preserves that.
pub struct ChannelCore<T> {
    /// Where the channel stands in its state machine.
    pub state: ChannelState,
    /// The one deliverable value, present exactly between the send and the
    /// receive that extracts it.
    pub slot: Option<T>,
}

impl<T> ChannelCore<T> {
    /// The content of a freshly created channel.
    pub open spec fn init() -> ChannelCore<T> {
        ChannelCore { state: ChannelState::NotReady, slot: None }
    }

    /// Well-formedness: the slot is non-empty only once a value was stored.
    pub open spec fn wf(self) -> bool {
        self.slot is Some ==> self.state is Finished
    }

    /// What one receive attempt returns when it finds the core in this
    /// content: the value if one is present, otherwise the condition that
    /// tells the caller why none came out.
    pub open spec fn recv_outcome(self) -> Result<T, TryReceiveError> {
        match self.state {
            ChannelState::Finished => match self.slot {
                Some(value) => Ok(value),
                None => Err(TryReceiveError::AlreadyRetrieved),
            },
            ChannelState::Disconnected => Err(TryReceiveError::Disconnected),
            ChannelState::NotReady => Err(TryReceiveError::NotReady),
        }
    }

    /// The core after one receive attempt: only a successful extraction
    /// changes it, by emptying the slot; the state flag never moves.
    pub open spec fn after_recv(self) -> ChannelCore<T> {
        ChannelCore { state: self.state, slot: None }
    }

    /// The core after a send stored `value`.
    pub open spec fn after_send(self, value: T) -> ChannelCore<T> {
        ChannelCore { state: ChannelState::Finished, slot: Some(value) }
    }

    /// The core after the sender was retired without sending: the
    /// transition to `Disconnected` happens only from `NotReady`, so a
    /// completed send is never clobbered.
    pub open spec fn after_disconnect(self) -> ChannelCore<T> {
        if self.state is NotReady {
            ChannelCore { state: ChannelState::Disconnected, slot: self.slot }
        } else {
            self
        }
    }

    /// A fresh core: state `NotReady`, empty slot.
    pub fn new() -> (core: ChannelCore<T>)
        ensures
            core == Self::init(),
        opens_invariants none
        no_unwind
    {
        ChannelCore { state: ChannelState::NotReady, slot: None }
    }

    /// One receive attempt: extracts the value exactly when the core is
    /// `Finished` with a non-empty slot, and otherwise reports why not,
    /// without blocking and without touching the state flag.
    pub fn take_step(&mut self) -> (r: Result<T, TryReceiveError>)
        ensures
            r == old(self).recv_outcome(),
            *final(self) == old(self).after_recv(),
    {
        let slot = self.slot.take();
        match self.state {
            ChannelState::Finished => match slot {
                Some(value) => Ok(value),
                None => Err(TryReceiveError::AlreadyRetrieved),
            },
            ChannelState::Disconnected => Err(TryReceiveError::Disconnected),
            ChannelState::NotReady => Err(TryReceiveError::NotReady),
        }
    }

    /// The send transition: stores `value` and marks the core `Finished`.
    pub fn store_step(&mut self, value: T)
        ensures
            *final(self) == old(self).after_send(value),
        no_unwind
    {
        self.state = ChannelState::Finished;
        self.slot = Some(value);
    }

    /// The disconnect transition: moves `NotReady` to `Disconnected` and
    /// leaves a terminal core untouched.
    pub fn disconnect_step(&mut self)
        ensures
            *final(self) == old(self).after_disconnect(),
        opens_invariants none
        no_unwind
    {
        match self.state {
            ChannelState::NotReady => {
                self.state = ChannelState::Disconnected;
            },
            _ => {},
        }
    }

    /// True while the channel still waits for the sender to act; the
    /// condition the blocking receives wait on.
    pub fn is_waiting(&self) -> (waiting: bool)
        ensures
            waiting == (self.state is NotReady),
    {
        match self.state {
            ChannelState::NotReady => true,
            _ => false,
        }
    }
}

/// Relies on `Condvar::wait_while`: releases the lock and blocks, absorbing
/// spurious wakeups, until the core reports through the verified
/// [`ChannelCore::is_waiting`] that it has left the waiting state; then
/// re-acquires the lock. A poisoned lock is recovered with
/// `PoisonError::into_inner` rather than unwinding.
#[verifier::external_body]
fn condvar_wait_while_waiting<'a, T>(
    condvar: &std::sync::Condvar,
    guard: std::sync::MutexGuard<'a, ChannelCore<T>>,
) -> std::sync::MutexGuard<'a, ChannelCore<T>> {
    match condvar.wait_while(guard, |core| core.is_waiting()) {
        Ok(new_guard) => new_guard,
        Err(poisoned) => poisoned.into_inner(),
    }
}

/// Relies on `Condvar::wait_timeout_while`: as `wait_while`, but gives up
/// once `timeout` has elapsed, adjusting the wait across spurious wakeups
/// so the bound never stretches. The second part of the result is true when
/// the wait ended because the timeout elapsed. A poisoned lock is recovered
/// with `PoisonError::into_inner` rather than unwinding.
#[verifier::external_body]
fn condvar_wait_timeout_while_waiting<'a, T>(
    condvar: &std::sync::Condvar,
    guard: std::sync::MutexGuard<'a, ChannelCore<T>>,
    timeout: &core::time::Duration,
) -> (std::sync::MutexGuard<'a, ChannelCore<T>>, bool) {
    match condvar.wait_timeout_while(guard, *timeout, |core| core.is_waiting()) {
        Ok((new_guard, result)) => (new_guard, result.timed_out()),
        Err(poisoned) => {
            let (new_guard, result) = poisoned.into_inner();
            (new_guard, result.timed_out())
        },
    }
}

/// The shared cell: the core behind a lock, and the condition variable that
/// wakes a blocked receiver when the state leaves `NotReady`.
#[verifier::reject_recursive_types(T)]
struct Inner<T> {
    mutex: std::sync::Mutex<ChannelCore<T>>,
    condvar: std::sync::Condvar,
}

impl<T> Inner<T> {
    fn new() -> Inner<T> {
        Inner { mutex: mutex_new(ChannelCore::new()), condvar: condvar_new() }
    }

    /// Runs one receive attempt on the core while `guard` holds the lock.
    ///
    /// The core is briefly swapped out against a fresh one so that the
    /// verified [`ChannelCore::take_step`] can run on it by value, then
    /// swapped back; the lock is held throughout, so the exchange is
    /// invisible to the other side.
    fn try_recv_locked<'a>(guard: &mut std::sync::MutexGuard<'a, ChannelCore<T>>) -> Result<
        T,
        TryReceiveError,
    > {
        let mut core = guard_replace(guard, ChannelCore::new());
        let r = core.take_step();
        let _ = guard_replace(guard, core);
        r
    }

    /// One non-blocking receive attempt: lock, step, unlock.
    fn try_recv_once(&self) -> Result<T, TryReceiveError> {
        let mut guard = mutex_lock(&self.mutex);
        Self::try_recv_locked(&mut guard)
    }

    /// One unbounded receive attempt: waits until the core leaves the
    /// waiting state, then steps. While the wait meets its contract the
    /// step finds a terminal core, so the outcome is a value,
    /// `Disconnected` or `AlreadyRetrieved`.
    fn recv_waiting(&self) -> Result<T, TryReceiveError> {
        let guard = mutex_lock(&self.mutex);
        let mut guard = condvar_wait_while_waiting(&self.condvar, guard);
        Self::try_recv_locked(&mut guard)
    }

    /// One bounded receive attempt against an absolute deadline: a fast
    /// non-blocking step first, then — with the time remaining until the
    /// deadline — a bounded wait and one more step.
    fn recv_until(&self, deadline: &std::time::Instant) -> Result<T, TryReceiveError> {
        let mut guard = mutex_lock(&self.mutex);
        match Self::try_recv_locked(&mut guard) {
            Ok(value) => Ok(value),
            Err(TryReceiveError::Disconnected) => Err(TryReceiveError::Disconnected),
            Err(TryReceiveError::AlreadyRetrieved) => Err(TryReceiveError::AlreadyRetrieved),
            Err(TryReceiveError::NotReady) => {
                let now = instant_now();
                match instant_since(deadline, &now) {
                    None => Err(TryReceiveError::NotReady),
                    Some(remaining) => {
                        if duration_is_zero(&remaining) {
                            Err(TryReceiveError::NotReady)
                        } else {
                            let (mut new_guard, timed_out) = condvar_wait_timeout_while_waiting(
                                &self.condvar,
                                guard,
                                &remaining,
                            );
                            if timed_out {
                                Err(TryReceiveError::NotReady)
                            } else {
                                Self::try_recv_locked(&mut new_guard)
                            }
                        }
                    },
                }
            },
        }
    }
}

/// Creates a connected channel pair: one single-use [`Sender`] and one
/// [`Receiver`], sharing a fresh cell whose core starts as
/// [`ChannelCore::init`]. The receiver starts with no settled fact.
pub fn channel<T: Send>() -> (pair: (Sender<T>, Receiver<T>))
    ensures
        pair.1.settled() is Undetermined,
{
    let inner = std::sync::Arc::new(Inner::new());
    let inner2 = inner.clone();
    (Sender::new(inner2), Receiver::new(inner))
}

/// The producing handle. Consuming it through [`Sender::send`] or dropping
/// it without sending are the only two ways it is retired; both are
/// terminal, and it cannot be cloned.
#[verifier::reject_recursive_types(T)]
pub struct Sender<T> {
    inner: std::sync::Arc<Inner<T>>,
}

/// The consuming handle. It may attempt to receive any number of times,
/// but only one attempt across its lifetime can yield a value; later
/// attempts report [`TryReceiveError::AlreadyRetrieved`].
///
/// The receiver remembers the stable facts it has observed ([`Self::settled`]):
/// the two terminal states never change, so once the value was taken every
/// later attempt answers `AlreadyRetrieved`, and once a disconnect was seen
/// every later attempt answers `Disconnected`, both without consulting the
/// shared cell and both stated in the receive contracts.
#[verifier::reject_recursive_types(T)]
pub struct Receiver<T> {
    inner: std::sync::Arc<Inner<T>>,
    memory: ReceiverMemory,
}

/// The stable fact a receiver has learnt about its channel, if any.
#[derive(Clone, Copy, Debug, PartialEq, Eq, Structural)]
pub enum ReceiverMemory {
    /// No terminal fact is known yet; the shared cell must be consulted.
    Undetermined,
    /// A receive already consumed the value, or found it consumed.
    ValueTaken,
    /// The sender is known to have disconnected without sending.
    SenderGone,
}

/// The fact a receive outcome settles: a value coming out (or being found
/// already taken) settles `ValueTaken`, a disconnect settles `SenderGone`,
/// and a miss settles nothing beyond what was known.
pub open spec fn settled_by<T>(r: Result<T, TryReceiveError>, before: ReceiverMemory) -> ReceiverMemory {
    match r {
        Ok(_) => ReceiverMemory::ValueTaken,
        Err(TryReceiveError::AlreadyRetrieved) => ReceiverMemory::ValueTaken,
        Err(TryReceiveError::Disconnected) => ReceiverMemory::SenderGone,
        Err(TryReceiveError::NotReady) => before,
    }
}

impl<T> Sender<T> {
    fn new(inner: std::sync::Arc<Inner<T>>) -> Sender<T> {
        Sender { inner }
    }

    /// Stores `value` into the shared cell, marks it `Finished` as one
    /// critical section ([`ChannelCore::after_send`]), and wakes every
    /// waiting receiver. Consuming `self` makes a second send impossible;
    /// the send itself cannot fail.
    pub fn send(self, value: T) {
        let mut guard = mutex_lock(&self.inner.mutex);
        let mut core = guard_replace(&mut guard, ChannelCore::new());
        core.store_step(value);
        let _ = guard_replace(&mut guard, core);
        condvar_notify_all(&self.inner.condvar);
    }
}

impl<T> Drop for Sender<T> {
    /// Retiring the sender without a send runs the disconnect transition
    /// ([`ChannelCore::after_disconnect`]): `NotReady` becomes
    /// `Disconnected`, while a completed send is left untouched, and every
    /// waiting receiver is woken. This is how a receiver learns that no
    /// value will ever come.
    fn drop(&mut self)
        opens_invariants none
        no_unwind
    {
        let mut guard = mutex_lock(&self.inner.mutex);
        let mut core = guard_replace(&mut guard, ChannelCore::new());
        core.disconnect_step();
        let _ = guard_replace(&mut guard, core);
        condvar_notify_all(&self.inner.condvar);
    }
}

impl<T> Receiver<T> {
    fn new(inner: std::sync::Arc<Inner<T>>) -> (rx: Receiver<T>)
        ensures
            rx.settled() is Undetermined,
    {
        Receiver { inner, memory: ReceiverMemory::Undetermined }
    }

    /// The stable fact this receiver has observed about the channel.
    pub closed spec fn settled(self) -> ReceiverMemory {
        self.memory
    }

    /// Records the fact settled by the outcome of a receive attempt.
    fn observe(&mut self, r: &Result<T, TryReceiveError>)
        ensures
            final(self).settled() == settled_by(*r, old(self).settled()),
    {
        match r {
            Ok(_) => {
                self.memory = ReceiverMemory::ValueTaken;
            },
            Err(TryReceiveError::AlreadyRetrieved) => {
                self.memory = ReceiverMemory::ValueTaken;
            },
            Err(TryReceiveError::Disconnected) => {
                self.memory = ReceiverMemory::SenderGone;
            },
            Err(TryReceiveError::NotReady) => {},
        }
    }

    /// Blocks until the channel is terminal and returns the value, or the
    /// reason none will come. The result type itself excludes "not ready":
    /// an unbounded wait ends only once [`ChannelCore::recv_outcome`] gives
    /// a value, `Disconnected` or `AlreadyRetrieved`. The wait suspends on
    /// the condition variable; it never busy-polls, and it can block
    /// forever if the sender is leaked without being used or dropped.
    pub fn recv(self) -> (r: Result<T, ReceiveError>)
        ensures
            self.settled() is ValueTaken ==> r == Err::<T, ReceiveError>(
                ReceiveError::AlreadyRetrieved,
            ),
            self.settled() is SenderGone ==> r == Err::<T, ReceiveError>(
                ReceiveError::Disconnected,
            ),
    {
        let mut this = self;
        match this.recv_unbounded() {
            Ok(value) => Ok(value),
            Err(TryReceiveError::Disconnected) => Err(ReceiveError::Disconnected),
            Err(TryReceiveError::AlreadyRetrieved) => Err(ReceiveError::AlreadyRetrieved),
            // The wait returns only once the core has left the waiting
            // state, so this arm is never taken while Condvar::wait_while
            // meets its contract; Disconnected is the conservative terminal
            // reading should it ever be.
            Err(TryReceiveError::NotReady) => Err(ReceiveError::Disconnected),
        }
    }

    /// Inspects the channel without blocking: either answers from the
    /// settled fact, or runs one locked [`ChannelCore::take_step`], whose
    /// contract pins the result for every content the cell can be found
    /// in, and records what the outcome settles.
    pub fn try_recv(&mut self) -> (r: Result<T, TryReceiveError>)
        ensures
            old(self).settled() is ValueTaken ==> r == Err::<T, TryReceiveError>(
                TryReceiveError::AlreadyRetrieved,
            ),
            old(self).settled() is SenderGone ==> r == Err::<T, TryReceiveError>(
                TryReceiveError::Disconnected,
            ),
            final(self).settled() == settled_by(r, old(self).settled()),
    {
        match self.memory {
            ReceiverMemory::ValueTaken => Err(TryReceiveError::AlreadyRetrieved),
            ReceiverMemory::SenderGone => Err(TryReceiveError::Disconnected),
            ReceiverMemory::Undetermined => {
                let r = self.inner.try_recv_once();
                self.observe(&r);
                r
            },
        }
    }

    /// As [`Receiver::recv`], but each wait is bounded: gives up with
    /// [`TryReceiveError::NotReady`] once `timeout` has elapsed. The
    /// timeout is converted to an absolute deadline at call time; a timeout
    /// so large that its deadline cannot be represented is treated as
    /// unbounded. A miss does not consume the channel: a later attempt can
    /// still succeed.
    pub fn recv_timeout(&mut self, timeout: core::time::Duration) -> (r: Result<
        T,
        TryReceiveError,
    >)
        ensures
            old(self).settled() is ValueTaken ==> r == Err::<T, TryReceiveError>(
                TryReceiveError::AlreadyRetrieved,
            ),
            old(self).settled() is SenderGone ==> r == Err::<T, TryReceiveError>(
                TryReceiveError::Disconnected,
            ),
            final(self).settled() == settled_by(r, old(self).settled()),
    {
        let now = instant_now();
        match instant_after(&now, &timeout) {
            Some(deadline) => self.recv_deadline(deadline),
            None => self.recv_unbounded(),
        }
    }

    /// As [`Receiver::recv`], but gives up with
    /// [`TryReceiveError::NotReady`] once the absolute `deadline` passes.
    /// The time remaining is computed from the absolute deadline when the
    /// wait begins, and the wait itself keeps adjusting across spurious
    /// wakeups, so they never stretch the effective bound. A miss does not
    /// consume the channel: a later attempt can still succeed.
    pub fn recv_deadline(&mut self, deadline: std::time::Instant) -> (r: Result<
        T,
        TryReceiveError,
    >)
        ensures
            old(self).settled() is ValueTaken ==> r == Err::<T, TryReceiveError>(
                TryReceiveError::AlreadyRetrieved,
            ),
            old(self).settled() is SenderGone ==> r == Err::<T, TryReceiveError>(
                TryReceiveError::Disconnected,
            ),
            final(self).settled() == settled_by(r, old(self).settled()),
    {
        match self.memory {
            ReceiverMemory::ValueTaken => Err(TryReceiveError::AlreadyRetrieved),
            ReceiverMemory::SenderGone => Err(TryReceiveError::Disconnected),
            ReceiverMemory::Undetermined => {
                let r = self.inner.recv_until(&deadline);
                self.observe(&r);
                r
            },
        }
    }

    /// The unbounded receive: either answers from the settled fact, or
    /// waits for the core to leave the waiting state and records what the
    /// outcome settles.
    fn recv_unbounded(&mut self) -> (r: Result<T, TryReceiveError>)
        ensures
            old(self).settled() is ValueTaken ==> r == Err::<T, TryReceiveError>(
                TryReceiveError::AlreadyRetrieved,
            ),
            old(self).settled() is SenderGone ==> r == Err::<T, TryReceiveError>(
                TryReceiveError::Disconnected,
            ),
            final(self).settled() == settled_by(r, old(self).settled()),
    {
        match self.memory {
            ReceiverMemory::ValueTaken => Err(TryReceiveError::AlreadyRetrieved),
            ReceiverMemory::SenderGone => Err(TryReceiveError::Disconnected),
            ReceiverMemory::Undetermined => {
                let r = self.inner.recv_waiting();
                self.observe(&r);
                r
            },
        }
    }
}

/// Exactly-once delivery: after a send of `value`, the first receive
/// attempt returns `value`, and any attempt after it reports that the value
/// was already retrieved.
pub proof fn lemma_exactly_once<T>(core: ChannelCore<T>, value: T)
    ensures
        core.after_send(value).recv_outcome() == Ok::<T, TryReceiveError>(value),
        core.after_send(value).after_recv().recv_outcome() == Err::<T, TryReceiveError>(
            TryReceiveError::AlreadyRetrieved,
        ),
{
}

/// Disconnect visibility: once the sender is retired without sending, every
/// receive attempt reports `Disconnected`, and further receive attempts
/// change nothing about that.
pub proof fn lemma_disconnect_visible<T>(core: ChannelCore<T>)
    requires
        core.state is NotReady,
        core.wf(),
    ensures
        core.after_disconnect().recv_outcome() == Err::<T, TryReceiveError>(
            TryReceiveError::Disconnected,
        ),
        core.after_disconnect().after_recv().recv_outcome() == Err::<T, TryReceiveError>(
            TryReceiveError::Disconnected,
        ),
{
}

/// Timeout non-consumption: a receive attempt that finds the channel not
/// ready reports so and leaves the core exactly as it was, and a send that
/// happens afterwards still delivers its value to the next attempt.
pub proof fn lemma_timeout_leaves_channel<T>(core: ChannelCore<T>, value: T)
    requires
        core.state is NotReady,
        core.wf(),
    ensures
        core.recv_outcome() == Err::<T, TryReceiveError>(TryReceiveError::NotReady),
        core.after_recv() == core,
        core.after_recv().after_send(value).recv_outcome() == Ok::<T, TryReceiveError>(value),
{
}

/// Mutual exclusivity of the terminal transitions: from `NotReady` a send
/// reaches `Finished` and a disconnect reaches `Disconnected`, exactly one
/// of the two can win, and the disconnect that runs after a completed send
/// is a no-op, so a stored value is never clobbered.
pub proof fn lemma_terminal_states_exclusive<T>(core: ChannelCore<T>, value: T)
    requires
        core.state is NotReady,
    ensures
        core.after_send(value).state is Finished,
        core.after_disconnect().state is Disconnected,
        core.after_send(value).after_disconnect() == core.after_send(value),
        !(core.after_send(value).state is Disconnected),
        !(core.after_disconnect().state is Finished),
{
}

/// Terminal states are stable: no receive attempt ever moves the state
/// flag, and the disconnect transition leaves every terminal core exactly
/// as it was.
pub proof fn lemma_terminal_state_stable<T>(core: ChannelCore<T>)
    ensures
        core.after_recv().state == core.state,
        !(core.state is NotReady) ==> core.after_disconnect() == core,
{
}

/// Every transition preserves well-formedness, and a fresh core is
/// well-formed: the slot can be non-empty only in the `Finished` state.
pub proof fn lemma_transitions_preserve_wf<T>(core: ChannelCore<T>, value: T)
    requires
        core.wf(),
    ensures
        ChannelCore::<T>::init().wf(),
        core.after_send(value).wf(),
        core.after_disconnect().wf(),
        core.after_recv().wf(),
{
}

} // verus!
