//! The registry rows and their claim algorithm: per message type, a channel
//! pair is lazily created with a configurable capacity and its two halves are
//! claimed at most once each (unless the half is cloneable); per resource
//! type, a provisioned value is claimed at most once (unless the type is
//! cloneable). Every claim either completes immediately with a value or fails
//! immediately with a typed error; nothing blocks or retries.

use vstd::prelude::*;

use crate::bus::{Channel, Storage};
use crate::errors::{
    AlreadyLinkedError, Link, LinkTakenError, ResourceInitializedError, TakeResourceError,
};

verus! {

/// The registry row for one message type on one bus: an optional capacity
/// override, set at most once before the pair is created, and the two slots of
/// the lazily created channel pair. The `bus` and `message` fields carry the
/// type names used in diagnostics.
pub struct ChannelRow<C: Channel> {
    bus: String,
    message: String,
    capacity_override: Option<usize>,
    linked_capacity: Option<usize>,
    tx_slot: Option<C::Tx>,
    rx_slot: Option<C::Rx>,
}

impl<C: Channel> ChannelRow<C> {
    /// The bus name every diagnostic of this row carries.
    pub closed spec fn bus_name(self) -> Seq<char> {
        self.bus@
    }

    /// The message type name every diagnostic of this row carries.
    pub closed spec fn message_name(self) -> Seq<char> {
        self.message@
    }

    /// The configured capacity override, if one was set.
    pub closed spec fn config(self) -> Option<usize> {
        self.capacity_override
    }

    /// The capacity the pair was created with, once it exists.
    pub closed spec fn linked_capacity(self) -> Option<usize> {
        self.linked_capacity
    }

    /// Whether the channel pair has been created.
    pub open spec fn is_linked(self) -> bool {
        self.linked_capacity() is Some
    }

    /// Whether the sender slot is populated.
    pub closed spec fn tx_present(self) -> bool {
        self.tx_slot is Some
    }

    /// Whether the receiver slot is populated.
    pub closed spec fn rx_present(self) -> bool {
        self.rx_slot is Some
    }

    /// The capacity a pair created now would use: the override if one was set,
    /// else the channel capability's default.
    pub open spec fn effective_capacity(self) -> usize {
        if self.config() is Some {
            self.config().unwrap()
        } else {
            C::spec_default_capacity()
        }
    }

    #[verifier::type_invariant]
    spec fn well_formed(self) -> bool {
        &&& self.linked_capacity is None ==> self.tx_slot is None && self.rx_slot is None
        &&& self.capacity_override is Some ==> C::capacity_ok(self.capacity_override.unwrap())
    }

    /// What one `capacity` call does: it succeeds exactly while the pair does
    /// not yet exist, and then only records the override; afterward it is
    /// rejected and changes nothing.
    pub open spec fn capacity_transition(
        pre: Self,
        post: Self,
        capacity: usize,
        r: Result<(), AlreadyLinkedError>,
    ) -> bool {
        &&& post.bus_name() == pre.bus_name()
        &&& post.message_name() == pre.message_name()
        &&& (r is Ok <==> !pre.is_linked())
        &&& post.config() == (if r is Ok {
            Some(capacity)
        } else {
            pre.config()
        })
        &&& post.linked_capacity() == pre.linked_capacity()
        &&& post.tx_present() == pre.tx_present()
        &&& post.rx_present() == pre.rx_present()
        &&& (r is Err ==> r->Err_0.bus@ == pre.bus_name() && r->Err_0.message@
            == pre.message_name())
    }

    /// What one `tx` claim does: the pair exists afterward, created with the
    /// effective capacity if it did not exist before; the claim succeeds
    /// exactly when the sender slot is populated at claim time (always, on the
    /// call that creates the pair); the slot stays populated only for a
    /// cloneable sender; the receiver slot is untouched beyond pair creation.
    pub open spec fn tx_transition(pre: Self, post: Self, r: Result<C::Tx, LinkTakenError>) -> bool {
        &&& post.bus_name() == pre.bus_name()
        &&& post.message_name() == pre.message_name()
        &&& post.is_linked()
        &&& post.config() == pre.config()
        &&& post.linked_capacity() == (if pre.is_linked() {
            pre.linked_capacity()
        } else {
            Some(pre.effective_capacity())
        })
        &&& (r is Ok <==> (!pre.is_linked() || pre.tx_present()))
        &&& post.tx_present() == (r is Ok && <C::Tx as Storage>::cloneable())
        &&& post.rx_present() == (if pre.is_linked() {
            pre.rx_present()
        } else {
            true
        })
        &&& (r is Err ==> r->Err_0.link is Tx && r->Err_0.bus@ == pre.bus_name()
            && r->Err_0.message@ == pre.message_name())
    }

    /// What one `rx` claim does: symmetric to `tx_transition`, on the receiver
    /// slot.
    pub open spec fn rx_transition(pre: Self, post: Self, r: Result<C::Rx, LinkTakenError>) -> bool {
        &&& post.bus_name() == pre.bus_name()
        &&& post.message_name() == pre.message_name()
        &&& post.is_linked()
        &&& post.config() == pre.config()
        &&& post.linked_capacity() == (if pre.is_linked() {
            pre.linked_capacity()
        } else {
            Some(pre.effective_capacity())
        })
        &&& (r is Ok <==> (!pre.is_linked() || pre.rx_present()))
        &&& post.rx_present() == (r is Ok && <C::Rx as Storage>::cloneable())
        &&& post.tx_present() == (if pre.is_linked() {
            pre.tx_present()
        } else {
            true
        })
        &&& (r is Err ==> r->Err_0.link is Rx && r->Err_0.bus@ == pre.bus_name()
            && r->Err_0.message@ == pre.message_name())
    }

    /// A fresh row: nothing configured, pair not yet created.
    pub fn new(bus: String, message: String) -> (r: Self)
        ensures
            r.bus_name() == bus@,
            r.message_name() == message@,
            r.config() is None,
            !r.is_linked(),
            !r.tx_present(),
            !r.rx_present(),
    {
        ChannelRow {
            bus,
            message,
            capacity_override: None,
            linked_capacity: None,
            tx_slot: None,
            rx_slot: None,
        }
    }

    /// Set the capacity override. Succeeds only while the channel pair has not
    /// yet been created; afterward the pair's capacity is already fixed and
    /// the call fails.
    pub fn capacity(&mut self, capacity: usize) -> (r: Result<(), AlreadyLinkedError>)
        requires
            C::capacity_ok(capacity),
        ensures
            Self::capacity_transition(*old(self), *final(self), capacity, r),
    {
        proof {
            use_type_invariant(&*self);
        }
        if self.linked_capacity.is_some() {
            Err(AlreadyLinkedError::new(self.bus.clone(), self.message.clone()))
        } else {
            self.capacity_override = Some(capacity);
            Ok(())
        }
    }

    /// Create the channel pair, populating both slots, with the configured or
    /// default capacity.
    fn link(&mut self)
        requires
            !old(self).is_linked(),
        ensures
            final(self).bus_name() == old(self).bus_name(),
            final(self).message_name() == old(self).message_name(),
            final(self).config() == old(self).config(),
            final(self).linked_capacity() == Some(old(self).effective_capacity()),
            final(self).tx_present(),
            final(self).rx_present(),
    {
        proof {
            use_type_invariant(&*self);
        }
        let cap: usize = match self.capacity_override {
            Some(n) => n,
            None => C::default_capacity(),
        };
        self.linked_capacity = Some(cap);
        let (tx, rx) = C::channel(cap);
        self.tx_slot = Some(tx);
        self.rx_slot = Some(rx);
    }

    /// Claim the sender half, creating the pair first if this is the first
    /// claim of either half.
    pub fn tx(&mut self) -> (r: Result<C::Tx, LinkTakenError>)
        ensures
            Self::tx_transition(*old(self), *final(self), r),
    {
        proof {
            use_type_invariant(&*self);
        }
        if self.linked_capacity.is_none() {
            self.link();
        }
        let mut slot: Option<C::Tx> = None;
        core::mem::swap(&mut slot, &mut self.tx_slot);
        let claimed = C::clone_tx(&mut slot);
        core::mem::swap(&mut slot, &mut self.tx_slot);
        match claimed {
            Some(tx) => Ok(tx),
            None => Err(LinkTakenError::new(self.bus.clone(), self.message.clone(), Link::Tx)),
        }
    }

    /// Claim the receiver half, creating the pair first if this is the first
    /// claim of either half. The current sender slot is passed to the
    /// capability as the sibling of the derivation.
    pub fn rx(&mut self) -> (r: Result<C::Rx, LinkTakenError>)
        ensures
            Self::rx_transition(*old(self), *final(self), r),
    {
        proof {
            use_type_invariant(&*self);
        }
        if self.linked_capacity.is_none() {
            self.link();
        }
        let mut slot: Option<C::Rx> = None;
        core::mem::swap(&mut slot, &mut self.rx_slot);
        let claimed = C::clone_rx(&mut slot, self.tx_slot.as_ref());
        core::mem::swap(&mut slot, &mut self.rx_slot);
        match claimed {
            Some(rx) => Ok(rx),
            None => Err(LinkTakenError::new(self.bus.clone(), self.message.clone(), Link::Rx)),
        }
    }
}

/// The registry row for one resource type on one bus: an optional value slot,
/// populated by an explicit provisioning step and claimed by take-or-clone.
/// The `bus` and `resource` fields carry the type names used in diagnostics.
pub struct ResourceRow<R: Storage> {
    bus: String,
    resource: String,
    provisioned: bool,
    slot: Option<R>,
}

impl<R: Storage> ResourceRow<R> {
    /// The bus name every diagnostic of this row carries.
    pub closed spec fn bus_name(self) -> Seq<char> {
        self.bus@
    }

    /// The resource type name every diagnostic of this row carries.
    pub closed spec fn resource_name(self) -> Seq<char> {
        self.resource@
    }

    /// Whether the provisioning step has populated this row.
    pub closed spec fn provisioned(self) -> bool {
        self.provisioned
    }

    /// The value currently held by the slot.
    pub closed spec fn stored(self) -> Option<R> {
        self.slot
    }

    #[verifier::type_invariant]
    spec fn well_formed(self) -> bool {
        self.slot is Some ==> self.provisioned
    }

    /// What one provisioning call does: it succeeds exactly while the row was
    /// never provisioned, and then stores exactly the offered value; a second
    /// provisioning is rejected and changes nothing.
    pub open spec fn provide_transition(
        pre: Self,
        post: Self,
        value: R,
        r: Result<(), ResourceInitializedError>,
    ) -> bool {
        &&& post.bus_name() == pre.bus_name()
        &&& post.resource_name() == pre.resource_name()
        &&& (r is Ok <==> !pre.provisioned())
        &&& post.provisioned()
        &&& post.stored() == (if r is Ok {
            Some(value)
        } else {
            pre.stored()
        })
        &&& (r is Err ==> r->Err_0.bus@ == pre.bus_name() && r->Err_0.resource@
            == pre.resource_name())
    }

    /// What one resource claim does: it fails with `Uninitialized` exactly
    /// when the row was never provisioned, succeeds exactly when the slot is
    /// populated, hands out exactly the stored value for a non-cloneable type
    /// and empties the slot, and fails with `Taken` once a non-cloneable slot
    /// is drained.
    pub open spec fn take_transition(pre: Self, post: Self, r: Result<R, TakeResourceError>) -> bool {
        &&& post.bus_name() == pre.bus_name()
        &&& post.resource_name() == pre.resource_name()
        &&& post.provisioned() == pre.provisioned()
        &&& (r is Ok <==> pre.stored() is Some)
        &&& post.stored() == (if r is Ok && !R::cloneable() {
            Option::<R>::None
        } else {
            pre.stored()
        })
        &&& (r is Ok && !R::cloneable() ==> r->Ok_0 == pre.stored().unwrap())
        &&& (r is Err ==> (r->Err_0 is Uninitialized <==> !pre.provisioned()))
        &&& (r is Err && r->Err_0 is Uninitialized ==> r->Err_0->Uninitialized_0.bus@
            == pre.bus_name() && r->Err_0->Uninitialized_0.resource@ == pre.resource_name())
        &&& (r is Err && r->Err_0 is Taken ==> r->Err_0->Taken_0.bus@ == pre.bus_name()
            && r->Err_0->Taken_0.resource@ == pre.resource_name())
    }

    /// A fresh row: never provisioned, slot empty.
    pub fn new(bus: String, resource: String) -> (r: Self)
        ensures
            r.bus_name() == bus@,
            r.resource_name() == resource@,
            !r.provisioned(),
            r.stored() is None,
    {
        ResourceRow { bus, resource, provisioned: false, slot: None }
    }

    /// Provision the row with `value`. A row is provisioned at most once; a
    /// second call is rejected and the offered value is dropped.
    pub fn provide(&mut self, value: R) -> (r: Result<(), ResourceInitializedError>)
        ensures
            Self::provide_transition(*old(self), *final(self), value, r),
    {
        proof {
            use_type_invariant(&*self);
        }
        if self.provisioned {
            Err(ResourceInitializedError::new(self.bus.clone(), self.resource.clone()))
        } else {
            self.provisioned = true;
            self.slot = Some(value);
            Ok(())
        }
    }

    /// Claim the resource: take-or-clone on the slot, `Uninitialized` before
    /// provisioning, `Taken` once a non-cloneable slot is drained.
    pub fn take(&mut self) -> (r: Result<R, TakeResourceError>)
        ensures
            Self::take_transition(*old(self), *final(self), r),
    {
        proof {
            use_type_invariant(&*self);
        }
        if !self.provisioned {
            return Err(
                TakeResourceError::uninitialized(self.bus.clone(), self.resource.clone()),
            );
        }
        let mut slot: Option<R> = None;
        core::mem::swap(&mut slot, &mut self.slot);
        let claimed = R::take_or_clone(&mut slot);
        core::mem::swap(&mut slot, &mut self.slot);
        match claimed {
            Some(value) => Ok(value),
            None => Err(TakeResourceError::taken(self.bus.clone(), self.resource.clone())),
        }
    }
}

/// Law: for any message type whose sender does not clone, two successive
/// sender claims starting from a fresh row hand the sender out exactly once:
/// the first claim returns it and the second fails with `link == Tx`.
pub proof fn lemma_exclusive_sender_taken_once<C: Channel>(
    s0: ChannelRow<C>,
    s1: ChannelRow<C>,
    s2: ChannelRow<C>,
    r1: Result<C::Tx, LinkTakenError>,
    r2: Result<C::Tx, LinkTakenError>,
)
    requires
        !<C::Tx as Storage>::cloneable(),
        !s0.is_linked(),
        ChannelRow::tx_transition(s0, s1, r1),
        ChannelRow::tx_transition(s1, s2, r2),
    ensures
        r1 is Ok,
        r2 is Err,
        r2->Err_0.link is Tx,
{
}

/// Helper for the law below: along any run of sender claims that starts with
/// the sender available, a cloneable sender is still available after any
/// number of claims.
proof fn lemma_cloneable_sender_available<C: Channel>(
    rows: Seq<ChannelRow<C>>,
    claims: Seq<Result<C::Tx, LinkTakenError>>,
    n: int,
)
    requires
        <C::Tx as Storage>::cloneable(),
        rows.len() == claims.len() + 1,
        !rows[0].is_linked() || rows[0].tx_present(),
        forall|i: int|
            0 <= i < claims.len() ==> #[trigger] ChannelRow::tx_transition(
                rows[i],
                rows[i + 1],
                claims[i],
            ),
        0 <= n <= claims.len(),
    ensures
        !rows[n].is_linked() || rows[n].tx_present(),
    decreases n,
{
    if n > 0 {
        lemma_cloneable_sender_available(rows, claims, n - 1);
        assert(ChannelRow::tx_transition(rows[n - 1], rows[(n - 1) + 1], claims[n - 1]));
        assert(rows[(n - 1) + 1] == rows[n]);
    }
}

/// Law: for any message type whose channel capability declares sender cloning,
/// every claim in any run of sender claims starting from a fresh row succeeds:
/// arbitrarily many senders are handed out.
pub proof fn lemma_cloneable_sender_unbounded<C: Channel>(
    rows: Seq<ChannelRow<C>>,
    claims: Seq<Result<C::Tx, LinkTakenError>>,
)
    requires
        <C::Tx as Storage>::cloneable(),
        rows.len() == claims.len() + 1,
        !rows[0].is_linked(),
        forall|i: int|
            0 <= i < claims.len() ==> #[trigger] ChannelRow::tx_transition(
                rows[i],
                rows[i + 1],
                claims[i],
            ),
    ensures
        forall|i: int| 0 <= i < claims.len() ==> (#[trigger] claims[i]) is Ok,
{
    assert forall|i: int| 0 <= i < claims.len() implies (#[trigger] claims[i]) is Ok by {
        lemma_cloneable_sender_available(rows, claims, i);
        assert(ChannelRow::tx_transition(rows[i], rows[i + 1], claims[i]));
    }
}

/// Law: once a sender claim has created the channel pair, its capacity is
/// fixed: any later capacity configuration is rejected with the
/// already-linked error.
pub proof fn lemma_capacity_fixed_after_claim<C: Channel>(
    s0: ChannelRow<C>,
    s1: ChannelRow<C>,
    s2: ChannelRow<C>,
    r1: Result<C::Tx, LinkTakenError>,
    capacity: usize,
    r2: Result<(), AlreadyLinkedError>,
)
    requires
        ChannelRow::tx_transition(s0, s1, r1),
        ChannelRow::capacity_transition(s1, s2, capacity, r2),
    ensures
        r2 is Err,
{
}

/// Law: for any non-cloneable resource type, a claim before provisioning
/// fails with `Uninitialized`; provisioning a fresh row succeeds; the claim
/// after it hands out exactly the provisioned value; and a further claim
/// fails with `Taken`.
pub proof fn lemma_exclusive_resource_taken_once<R: Storage>(
    s0: ResourceRow<R>,
    s1: ResourceRow<R>,
    s2: ResourceRow<R>,
    s3: ResourceRow<R>,
    s4: ResourceRow<R>,
    r1: Result<R, TakeResourceError>,
    value: R,
    rp: Result<(), ResourceInitializedError>,
    r2: Result<R, TakeResourceError>,
    r3: Result<R, TakeResourceError>,
)
    requires
        !R::cloneable(),
        !s0.provisioned(),
        s0.stored() is None,
        ResourceRow::take_transition(s0, s1, r1),
        ResourceRow::provide_transition(s1, s2, value, rp),
        ResourceRow::take_transition(s2, s3, r2),
        ResourceRow::take_transition(s3, s4, r3),
    ensures
        r1 is Err,
        r1->Err_0 is Uninitialized,
        rp is Ok,
        r2 is Ok,
        r2->Ok_0 == value,
        r3 is Err,
        r3->Err_0 is Taken,
{
}

} // verus!

