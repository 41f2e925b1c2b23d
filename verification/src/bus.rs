//! The capability traits of the bus: take-or-clone storage, channel
//! construction, the compile-time bindings of message and resource types to a
//! bus, and the bus interface itself.

use vstd::prelude::*;

use crate::errors::{AlreadyLinkedError, LinkTakenError, TakeResourceError};

verus! {

/// Take-or-clone semantics on an optional slot: claiming a populated slot
/// yields a usable value, and either empties the slot (move-only types) or
/// leaves it populated (cloneable types). Which of the two a type does is
/// fixed by `cloneable()`.
pub trait Storage: Sized {
    /// Whether a claim leaves the slot populated for further claims.
    spec fn cloneable() -> bool;

    /// Claim the slot: a populated slot always yields a value; an empty slot
    /// never does. A move-only type hands out exactly the stored value and
    /// empties the slot; a cloneable type leaves the slot untouched.
    fn take_or_clone(slot: &mut Option<Self>) -> (r: Option<Self>)
        ensures
            r is Some <==> (*old(slot)) is Some,
            *final(slot) == (if Self::cloneable() { *old(slot) } else { Option::<Self>::None }),
            !Self::cloneable() ==> r == *old(slot),
    ;
}

/// Describes, for one message type, the concrete sender and receiver types,
/// how to construct a fresh pair with a given capacity, the capacity used when
/// none was configured, and how to derive additional handles from an existing
/// pair.
pub trait Channel: Sized {
    type Tx: Storage + Send + 'static;

    type Rx: Storage + Send + 'static;

    /// Which capacities `channel` accepts; a transport may bound them.
    spec fn capacity_ok(capacity: usize) -> bool;

    /// The capacity used when none was configured.
    spec fn spec_default_capacity() -> usize;

    /// Construct a fresh connected (sender, receiver) pair bounded by
    /// `capacity`.
    fn channel(capacity: usize) -> (Self::Tx, Self::Rx)
        requires
            Self::capacity_ok(capacity),
    ;

    fn default_capacity() -> (r: usize)
        ensures
            r == Self::spec_default_capacity(),
            Self::capacity_ok(r),
    ;

    /// Decide `capacity_ok` at run time, for callers outside the verifier.
    fn check_capacity(capacity: usize) -> (r: bool)
        ensures
            r == Self::capacity_ok(capacity),
    ;

    /// Derive a sender from the sender slot, by take-or-clone.
    fn clone_tx(tx: &mut Option<Self::Tx>) -> (r: Option<Self::Tx>)
        ensures
            r is Some <==> (*old(tx)) is Some,
            *final(tx) == (if <Self::Tx as Storage>::cloneable() {
                *old(tx)
            } else {
                Option::<Self::Tx>::None
            }),
            !<Self::Tx as Storage>::cloneable() ==> r == *old(tx),
    {
        Self::Tx::take_or_clone(tx)
    }

    /// Derive a receiver from the receiver slot, by take-or-clone. A
    /// derivation strategy may consult the paired sender slot `_tx` when
    /// building the new handle.
    fn clone_rx(rx: &mut Option<Self::Rx>, _tx: Option<&Self::Tx>) -> (r: Option<Self::Rx>)
        ensures
            r is Some <==> (*old(rx)) is Some,
            *final(rx) == (if <Self::Rx as Storage>::cloneable() {
                *old(rx)
            } else {
                Option::<Self::Rx>::None
            }),
            !<Self::Rx as Storage>::cloneable() ==> r == *old(rx),
    {
        Self::Rx::take_or_clone(rx)
    }
}

/// A take-once wrapper: the first claim moves the value out and the slot
/// stays empty for every later claim.
pub struct Exclusive<T>(pub T);

impl<T> Storage for Exclusive<T> {
    open spec fn cloneable() -> bool {
        false
    }

    fn take_or_clone(slot: &mut Option<Self>) -> (r: Option<Self>) {
        slot.take()
    }
}

/// A shareable wrapper: every claim of a populated slot hands out a clone and
/// leaves the slot populated.
pub struct Shared<T: Clone>(pub T);

impl<T: Clone> Storage for Shared<T> {
    open spec fn cloneable() -> bool {
        true
    }

    fn take_or_clone(slot: &mut Option<Self>) -> (r: Option<Self>) {
        match slot.as_ref() {
            Some(v) => Some(Shared(v.0.clone())),
            None => None,
        }
    }
}

/// Binds a message type to a bus type, naming the channel capability that
/// governs the pairing.
pub trait Message<Bus> {
    type Channel: Channel;
}

/// A bus carries a message type: a capability marker with no runtime state,
/// for bounded-generic code over (bus, message) pairs.
pub trait Carries<Type> {

}

impl<B, T> Carries<T> for B where T: Message<B> {

}

/// Binds a resource type to a bus type, making it a take-once (or, for
/// cloneable types, shareable) singleton on that bus.
pub trait Resource<Bus>: Storage + Send {

}

/// A bus stores a resource type: a capability marker with no runtime state,
/// for bounded-generic code over (bus, resource) pairs.
pub trait Stores<Type> {

}

impl<B, R> Stores<R> for B where R: Resource<B> {

}

/// The bus interface: mediates creation and one-time handout of the channel
/// endpoints and resource values associated with each bound type.
pub trait Bus: Sized {
    /// Set the capacity override for the channel of `Msg`; legal only while
    /// the pair has not yet been created.
    fn capacity<Msg>(&mut self, capacity: usize) -> Result<(), AlreadyLinkedError> where
        Msg: Message<Self> + 'static,
        Msg::Channel: 'static,
    ;

    /// Claim the receiver half of the channel of `Msg`, creating the pair on
    /// first use.
    fn rx<Msg>(&mut self) -> Result<<Msg::Channel as Channel>::Rx, LinkTakenError> where
        Msg: Message<Self> + 'static,
        Msg::Channel: 'static,
    ;

    /// Claim the sender half of the channel of `Msg`, creating the pair on
    /// first use.
    fn tx<Msg>(&mut self) -> Result<<Msg::Channel as Channel>::Tx, LinkTakenError> where
        Msg: Message<Self> + 'static,
        Msg::Channel: 'static,
    ;

    /// Claim the resource value of `Res`, provisioned beforehand.
    fn resource<Res>(&mut self) -> Result<Res, TakeResourceError> where Res: Resource<Self> + 'static;
}

} // verus!
