//! The error taxonomy of the bus: every way a claim can go wrong, each error
//! carrying the names of the bus type and of the message or resource type so
//! that a mis-wired dependency can be pinpointed from the diagnostic alone.

use vstd::prelude::*;

verus! {

/// Names which half of a channel a diagnostic refers to.
#[derive(Debug, Clone, Copy, PartialEq, Eq, Structural)]
pub enum Link {
    Tx,
    Rx,
    Both,
}

impl Link {
    /// The text diagnostics print for this link half.
    pub open spec fn spec_label(self) -> Seq<char> {
        match self {
            Link::Tx => "Tx"@,
            Link::Rx => "Rx"@,
            Link::Both => "Both"@,
        }
    }

    /// The text diagnostics print for this link half.
    pub fn label(&self) -> (r: &'static str)
        ensures
            r@ == self.spec_label(),
    {
        match self {
            Link::Tx => "Tx",
            Link::Rx => "Rx",
            Link::Both => "Both",
        }
    }
}

/// A channel endpoint was claimed after the exclusive handle had already been
/// handed out.
#[derive(Debug)]
pub struct LinkTakenError {
    pub bus: String,
    pub message: String,
    pub link: Link,
}

impl LinkTakenError {
    pub fn new(bus: String, message: String, link: Link) -> (r: Self)
        ensures
            r.bus == bus,
            r.message == message,
            r.link == link,
    {
        LinkTakenError { bus, message, link }
    }
}

/// A capacity was configured after the channel pair had already been created,
/// so the pair's capacity was already fixed.
#[derive(Debug)]
pub struct AlreadyLinkedError {
    pub bus: String,
    pub message: String,
}

impl AlreadyLinkedError {
    pub fn new(bus: String, message: String) -> (r: Self)
        ensures
            r.bus == bus,
            r.message == message,
    {
        AlreadyLinkedError { bus, message }
    }
}

/// A claim of a channel endpoint failed.
#[derive(Debug)]
pub enum TakeChannelError {
    AlreadyLinked(AlreadyLinkedError),
    AlreadyTaken(LinkTakenError),
}

impl TakeChannelError {
    pub fn already_linked(bus: String, message: String) -> (r: Self)
        ensures
            r is AlreadyLinked,
            r->AlreadyLinked_0.bus == bus,
            r->AlreadyLinked_0.message == message,
    {
        TakeChannelError::AlreadyLinked(AlreadyLinkedError::new(bus, message))
    }

    pub fn already_taken(bus: String, message: String, link: Link) -> (r: Self)
        ensures
            r is AlreadyTaken,
            r->AlreadyTaken_0.bus == bus,
            r->AlreadyTaken_0.message == message,
            r->AlreadyTaken_0.link == link,
    {
        TakeChannelError::AlreadyTaken(LinkTakenError::new(bus, message, link))
    }
}

/// A resource was claimed twice although its type forbids sharing.
#[derive(Debug)]
pub struct ResourceTakenError {
    pub bus: String,
    pub resource: String,
}

impl ResourceTakenError {
    pub fn new(bus: String, resource: String) -> (r: Self)
        ensures
            r.bus == bus,
            r.resource == resource,
    {
        ResourceTakenError { bus, resource }
    }
}

/// A resource was claimed before the provisioning step populated it.
#[derive(Debug)]
pub struct ResourceUninitializedError {
    pub bus: String,
    pub resource: String,
}

impl ResourceUninitializedError {
    pub fn new(bus: String, resource: String) -> (r: Self)
        ensures
            r.bus == bus,
            r.resource == resource,
    {
        ResourceUninitializedError { bus, resource }
    }
}

/// A resource was provisioned twice; a slot is populated at most once.
#[derive(Debug)]
pub struct ResourceInitializedError {
    pub bus: String,
    pub resource: String,
}

impl ResourceInitializedError {
    pub fn new(bus: String, resource: String) -> (r: Self)
        ensures
            r.bus == bus,
            r.resource == resource,
    {
        ResourceInitializedError { bus, resource }
    }
}

/// A claim of a resource failed.
#[derive(Debug)]
pub enum TakeResourceError {
    Uninitialized(ResourceUninitializedError),
    Taken(ResourceTakenError),
}

impl TakeResourceError {
    pub fn uninitialized(bus: String, resource: String) -> (r: Self)
        ensures
            r is Uninitialized,
            r->Uninitialized_0.bus == bus,
            r->Uninitialized_0.resource == resource,
    {
        TakeResourceError::Uninitialized(ResourceUninitializedError::new(bus, resource))
    }

    pub fn taken(bus: String, resource: String) -> (r: Self)
        ensures
            r is Taken,
            r->Taken_0.bus == bus,
            r->Taken_0.resource == resource,
    {
        TakeResourceError::Taken(ResourceTakenError::new(bus, resource))
    }
}

} // verus!
