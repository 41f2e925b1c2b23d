//! Concrete channel capabilities backed by tokio's bounded multi-producer
//! queue: a point-to-point shape whose two halves are both exclusive, and a
//! fan-in shape whose sender clones freely while the receiver stays exclusive.
//! Sends and receives never block: a full queue is an observable backpressure
//! signal handed back to the sender.

use vstd::prelude::*;

use crate::bus::{Channel, Storage};

verus! {

/// The greatest queue capacity these capabilities accept: comfortably below
/// the bound of tokio's internal semaphore on every architecture.
pub const MAX_QUEUE_CAPACITY: usize = 0x1000_0000;

#[verifier::external_type_specification]
#[verifier::external_body]
#[verifier::reject_recursive_types(T)]
pub struct ExMpscSender<T>(tokio::sync::mpsc::Sender<T>);

#[verifier::external_type_specification]
#[verifier::external_body]
#[verifier::reject_recursive_types(T)]
pub struct ExMpscReceiver<T>(tokio::sync::mpsc::Receiver<T>);

/// Why a non-blocking send was rejected; either way the message is handed
/// back to the caller.
pub enum SendFault<T> {
    /// The queue already holds as many messages as its capacity: the
    /// backpressure signal.
    Full(T),
    /// The receiver is gone.
    Closed(T),
}

/// Why a non-blocking receive yielded no message.
#[derive(Debug, Clone, Copy, PartialEq, Eq, Structural)]
pub enum RecvFault {
    /// The queue is currently empty.
    Empty,
    /// Every sender is gone and the queue is drained.
    Closed,
}

/// Relies on tokio::sync::mpsc::channel: a fresh connected pair bounded by
/// `capacity`. It panics on a zero capacity and on one above the semaphore
/// bound, so those are excluded here.
#[verifier::external_body]
fn mpsc_channel<T>(capacity: usize) -> (tokio::sync::mpsc::Sender<T>, tokio::sync::mpsc::Receiver<
    T,
>)
    requires
        1 <= capacity <= MAX_QUEUE_CAPACITY,
{
    tokio::sync::mpsc::channel(capacity)
}

/// Relies on tokio::sync::mpsc::Sender::try_send: it delivers the message
/// without waiting when the queue has room and the receiver is alive, and
/// otherwise hands the message back inside the error, a full queue and a
/// closed channel reported apart.
#[verifier::external_body]
fn mpsc_try_send<T>(sender: &tokio::sync::mpsc::Sender<T>, message: T) -> (r: Result<
    (),
    SendFault<T>,
>)
    ensures
        r is Err ==> (r->Err_0 is Full ==> r->Err_0->Full_0 == message),
        r is Err ==> (r->Err_0 is Closed ==> r->Err_0->Closed_0 == message),
{
    match sender.try_send(message) {
        Ok(()) => Ok(()),
        Err(tokio::sync::mpsc::error::TrySendError::Full(m)) => Err(SendFault::Full(m)),
        Err(tokio::sync::mpsc::error::TrySendError::Closed(m)) => Err(SendFault::Closed(m)),
    }
}

/// Relies on tokio::sync::mpsc::Receiver::try_recv: a queued message when one
/// is ready, without waiting, an empty queue and a closed channel reported
/// apart.
#[verifier::external_body]
fn mpsc_try_recv<T>(receiver: &mut tokio::sync::mpsc::Receiver<T>) -> Result<T, RecvFault> {
    match receiver.try_recv() {
        Ok(m) => Ok(m),
        Err(tokio::sync::mpsc::error::TryRecvError::Empty) => Err(RecvFault::Empty),
        Err(tokio::sync::mpsc::error::TryRecvError::Disconnected) => Err(RecvFault::Closed),
    }
}

/// Relies on tokio::sync::mpsc::Sender::clone: another handle delivering into
/// the same queue.
#[verifier::external_body]
fn mpsc_clone_sender<T>(sender: &tokio::sync::mpsc::Sender<T>) -> tokio::sync::mpsc::Sender<T> {
    sender.clone()
}

/// The exclusive sender half of a bounded queue: handed out once.
#[verifier::reject_recursive_types(T)]
pub struct QueueSender<T> {
    inner: tokio::sync::mpsc::Sender<T>,
}

impl<T> QueueSender<T> {
    /// Deliver `message` without waiting; a full queue or a closed channel
    /// hands it back.
    pub fn try_send(&self, message: T) -> (r: Result<(), SendFault<T>>)
        ensures
            r is Err ==> (r->Err_0 is Full ==> r->Err_0->Full_0 == message),
            r is Err ==> (r->Err_0 is Closed ==> r->Err_0->Closed_0 == message),
    {
        mpsc_try_send(&self.inner, message)
    }
}

impl<T> Storage for QueueSender<T> {
    open spec fn cloneable() -> bool {
        false
    }

    fn take_or_clone(slot: &mut Option<Self>) -> (r: Option<Self>) {
        slot.take()
    }
}

/// A shareable sender half: every claim hands out another handle, and all
/// handles deliver into the same queue.
#[verifier::reject_recursive_types(T)]
pub struct SharedSender<T> {
    inner: tokio::sync::mpsc::Sender<T>,
}

impl<T> SharedSender<T> {
    /// Deliver `message` without waiting; a full queue or a closed channel
    /// hands it back.
    pub fn try_send(&self, message: T) -> (r: Result<(), SendFault<T>>)
        ensures
            r is Err ==> (r->Err_0 is Full ==> r->Err_0->Full_0 == message),
            r is Err ==> (r->Err_0 is Closed ==> r->Err_0->Closed_0 == message),
    {
        mpsc_try_send(&self.inner, message)
    }
}

impl<T> Storage for SharedSender<T> {
    open spec fn cloneable() -> bool {
        true
    }

    fn take_or_clone(slot: &mut Option<Self>) -> (r: Option<Self>) {
        match slot.as_ref() {
            Some(s) => Some(SharedSender { inner: mpsc_clone_sender(&s.inner) }),
            None => None,
        }
    }
}

/// The exclusive receiver half of a bounded queue: handed out once.
#[verifier::reject_recursive_types(T)]
pub struct QueueReceiver<T> {
    inner: tokio::sync::mpsc::Receiver<T>,
}

impl<T> QueueReceiver<T> {
    /// Take the next queued message without waiting, if one is ready.
    pub fn try_recv(&mut self) -> Result<T, RecvFault> {
        mpsc_try_recv(&mut self.inner)
    }
}

impl<T> Storage for QueueReceiver<T> {
    open spec fn cloneable() -> bool {
        false
    }

    fn take_or_clone(slot: &mut Option<Self>) -> (r: Option<Self>) {
        slot.take()
    }
}

/// A bounded point-to-point queue: one exclusive sender, one exclusive
/// receiver.
pub struct QueueChannel<T> {
    _marker: core::marker::PhantomData<T>,
}

impl<T: Send + 'static> Channel for QueueChannel<T> {
    type Tx = QueueSender<T>;

    type Rx = QueueReceiver<T>;

    open spec fn capacity_ok(capacity: usize) -> bool {
        1 <= capacity <= MAX_QUEUE_CAPACITY
    }

    open spec fn spec_default_capacity() -> usize {
        8
    }

    fn channel(capacity: usize) -> (Self::Tx, Self::Rx) {
        let (tx, rx) = mpsc_channel(capacity);
        (QueueSender { inner: tx }, QueueReceiver { inner: rx })
    }

    fn default_capacity() -> usize {
        8
    }

    fn check_capacity(capacity: usize) -> bool {
        1 <= capacity && capacity <= MAX_QUEUE_CAPACITY
    }
}

/// A bounded fan-in queue: the sender may be claimed and cloned without bound,
/// all handles delivering to the one exclusive receiver.
pub struct FanInChannel<T> {
    _marker: core::marker::PhantomData<T>,
}

impl<T: Send + 'static> Channel for FanInChannel<T> {
    type Tx = SharedSender<T>;

    type Rx = QueueReceiver<T>;

    open spec fn capacity_ok(capacity: usize) -> bool {
        1 <= capacity <= MAX_QUEUE_CAPACITY
    }

    open spec fn spec_default_capacity() -> usize {
        8
    }

    fn channel(capacity: usize) -> (Self::Tx, Self::Rx) {
        let (tx, rx) = mpsc_channel(capacity);
        (SharedSender { inner: tx }, QueueReceiver { inner: rx })
    }

    fn default_capacity() -> usize {
        8
    }

    fn check_capacity(capacity: usize) -> bool {
        1 <= capacity && capacity <= MAX_QUEUE_CAPACITY
    }
}

} // verus!
