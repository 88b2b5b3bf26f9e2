//! The event bus: a one-way channel from the host to the listeners of the interface.

use vstd::prelude::*;
use crate::event::Event;
use crate::text::{same_text, Text};

verus! {

/// What `subscribe` hands out, and `unsubscribe` takes back.
#[derive(Clone, Copy, Debug, PartialEq, Eq, Structural)]
pub struct SubscriptionHandle {
    pub id: u64,
}

/// One listener and the name of the events it listens to.
#[derive(Debug, PartialEq, Eq)]
pub struct Subscription<L> {
    pub handle: SubscriptionHandle,
    pub name: String,
    pub listener: L,
}

/// A subscription as a value.
pub struct SubscriptionView<L> {
    pub handle: SubscriptionHandle,
    pub name: Text,
    pub listener: L,
}

impl<L> View for Subscription<L> {
    type V = SubscriptionView<L>;

    open spec fn view(&self) -> SubscriptionView<L> {
        SubscriptionView { handle: self.handle, name: self.name@, listener: self.listener }
    }
}

/// One listener that an event is to be handed to.
#[derive(Debug, PartialEq, Eq)]
pub struct Delivery<L> {
    pub handle: SubscriptionHandle,
    pub listener: L,
}

/// A bus as a value: its subscriptions in the order in which they were made, and the number
/// of the next handle.
pub struct BusView<L> {
    pub subscriptions: Seq<SubscriptionView<L>>,
    pub next: nat,
}

/// Whether handles are numbered in the order of subscription, all of them below `next`.
pub open spec fn spec_numbered<L>(subscriptions: Seq<SubscriptionView<L>>, next: nat) -> bool {
    &&& forall|i: int|
        0 <= i < subscriptions.len() ==> (#[trigger] subscriptions[i]).handle.id < next
    &&& forall|i: int, j: int|
        0 <= i < j < subscriptions.len() ==> (#[trigger] subscriptions[i]).handle.id < (
        #[trigger] subscriptions[j]).handle.id
}

impl<L> BusView<L> {
    /// Handles are numbered in the order of subscription, and the next one is still unused.
    pub open spec fn wf(self) -> bool {
        spec_numbered(self.subscriptions, self.next)
    }
}

/// Whether a handle belongs to one of the subscriptions.
pub open spec fn spec_subscribed<L>(
    subscriptions: Seq<SubscriptionView<L>>,
    handle: SubscriptionHandle,
) -> bool {
    exists|i: int|
        0 <= i < subscriptions.len() && (#[trigger] subscriptions[i]).handle == handle
}

/// The subscriptions without the first one that has a handle.
pub open spec fn spec_without<L>(
    subscriptions: Seq<SubscriptionView<L>>,
    handle: SubscriptionHandle,
) -> Seq<SubscriptionView<L>>
    decreases subscriptions.len(),
{
    if subscriptions.len() == 0 {
        subscriptions
    } else if subscriptions[0].handle == handle {
        subscriptions.drop_first()
    } else {
        seq![subscriptions[0]] + spec_without(subscriptions.drop_first(), handle)
    }
}

/// The listeners of the events of a name, in the order in which they subscribed.
pub open spec fn spec_deliveries<L>(
    subscriptions: Seq<SubscriptionView<L>>,
    name: Text,
) -> Seq<Delivery<L>>
    decreases subscriptions.len(),
{
    if subscriptions.len() == 0 {
        Seq::empty()
    } else {
        let earlier = spec_deliveries(subscriptions.drop_last(), name);
        let last = subscriptions.last();
        if last.name == name {
            earlier.push(Delivery { handle: last.handle, listener: last.listener })
        } else {
            earlier
        }
    }
}

/// The event bus. The host emits; listeners subscribe by name and are served in the order in
/// which they subscribed.
#[derive(Debug, PartialEq, Eq)]
pub struct EventBus<L> {
    subscriptions: Vec<Subscription<L>>,
    next: u64,
}

impl<L> View for EventBus<L> {
    type V = BusView<L>;

    closed spec fn view(&self) -> BusView<L> {
        BusView {
            subscriptions: self.subscriptions@.map_values(|s: Subscription<L>| s@),
            next: self.next as nat,
        }
    }
}

impl<L> EventBus<L> {
    /// A bus without listeners.
    pub fn new() -> (bus: EventBus<L>)
        ensures
            bus@ == (BusView::<L> { subscriptions: Seq::empty(), next: 0 }),
            bus@.wf(),
    {
        let bus = EventBus { subscriptions: Vec::new(), next: 0 };
        assert(bus@.subscriptions =~= Seq::empty());
        bus
    }

    /// Adds a listener for the events of a name, behind those that are there, and hands out
    /// its handle. There is no handle left, and nothing changes, once `u64::MAX` of them
    /// have been handed out.
    pub fn subscribe(&mut self, name: &str, listener: L) -> (handle: Option<SubscriptionHandle>)
        ensures
            handle is Some <==> old(self)@.next < u64::MAX,
            match handle {
                Some(handle) => {
                    &&& handle.id == old(self)@.next
                    &&& final(self)@.subscriptions == old(self)@.subscriptions.push(
                        SubscriptionView { handle, name: name@, listener },
                    )
                    &&& final(self)@.next == old(self)@.next + 1
                },
                None => final(self)@ == old(self)@,
            },
            old(self)@.wf() ==> final(self)@.wf(),
            old(self)@.wf() && handle is Some ==> !spec_subscribed(
                old(self)@.subscriptions,
                handle.unwrap(),
            ),
    {
        if self.next == u64::MAX {
            return None;
        }
        let handle = SubscriptionHandle { id: self.next };
        self.subscriptions.push(Subscription { handle, name: name.to_owned(), listener });
        self.next = self.next + 1;
        assert(self@.subscriptions =~= old(self)@.subscriptions.push(
            SubscriptionView { handle, name: name@, listener },
        ));
        Some(handle)
    }

    /// Removes the listener that has a handle, and says whether there was one.
    pub fn unsubscribe(&mut self, handle: SubscriptionHandle) -> (removed: bool)
        ensures
            removed == spec_subscribed(old(self)@.subscriptions, handle),
            final(self)@.subscriptions == spec_without(old(self)@.subscriptions, handle),
            final(self)@.next == old(self)@.next,
            old(self)@.wf() ==> final(self)@.wf(),
    {
        let mut i: usize = 0;
        while i < self.subscriptions.len()
            invariant
                i <= self.subscriptions.len(),
                *self == *old(self),
                forall|j: int| 0 <= j < i ==> (#[trigger] self@.subscriptions[j]).handle != handle,
            decreases self.subscriptions.len() - i,
        {
            assert(self@.subscriptions[i as int] == self.subscriptions@[i as int]@);
            if self.subscriptions[i].handle.id == handle.id {
                proof {
                    lemma_without_at(self@.subscriptions, handle, i as int);
                }
                self.subscriptions.remove(i);
                assert(self@.subscriptions =~= old(self)@.subscriptions.remove(i as int));
                return true;
            }
            i += 1;
        }
        proof {
            lemma_without_none(self@.subscriptions, handle);
        }
        false
    }

    /// The number of listeners.
    pub fn len(&self) -> (n: usize)
        ensures
            n == self@.subscriptions.len(),
    {
        self.subscriptions.len()
    }
}

impl<L: Copy> EventBus<L> {
    /// Takes an event from the host and says whom it is for: the listeners of its name, in
    /// the order in which they subscribed. With no such listener the event is dropped, which
    /// is no error. What is returned is the caller's own: subscribing or unsubscribing while
    /// the event is handed round does not change whom it goes to.
    pub fn emit(&self, event: &Event) -> (deliveries: Vec<Delivery<L>>)
        ensures
            deliveries@ == spec_deliveries(self@.subscriptions, event@.name),
    {
        let mut deliveries: Vec<Delivery<L>> = Vec::new();
        let mut i: usize = 0;
        while i < self.subscriptions.len()
            invariant
                i <= self.subscriptions.len(),
                deliveries@ == spec_deliveries(self@.subscriptions.take(i as int), event@.name),
            decreases self.subscriptions.len() - i,
        {
            let subscription = &self.subscriptions[i];
            assert(self@.subscriptions.take(i + 1).drop_last() =~= self@.subscriptions.take(
                i as int,
            ));
            assert(self@.subscriptions.take(i + 1).last() == subscription@);
            if same_text(subscription.name.as_str(), event.name.as_str()) {
                deliveries.push(
                    Delivery { handle: subscription.handle, listener: subscription.listener },
                );
            }
            i += 1;
        }
        assert(self@.subscriptions.take(i as int) =~= self@.subscriptions);
        deliveries
    }
}

/// Where the first subscription with a handle stands at `at`, the subscriptions without that
/// handle are the subscriptions with the one at `at` taken out.
proof fn lemma_without_at<L>(
    subscriptions: Seq<SubscriptionView<L>>,
    handle: SubscriptionHandle,
    at: int,
)
    requires
        0 <= at < subscriptions.len(),
        subscriptions[at].handle == handle,
        forall|j: int| 0 <= j < at ==> (#[trigger] subscriptions[j]).handle != handle,
    ensures
        spec_without(subscriptions, handle) == subscriptions.remove(at),
        spec_subscribed(subscriptions, handle),
    decreases at,
{
    if at == 0 {
        assert(subscriptions.remove(0) =~= subscriptions.drop_first());
    } else {
        let rest = subscriptions.drop_first();
        assert forall|j: int| 0 <= j < at - 1 implies (#[trigger] rest[j]).handle != handle by {
            assert(rest[j] == subscriptions[j + 1]);
        }
        lemma_without_at(rest, handle, at - 1);
        assert(seq![subscriptions[0]] + rest.remove(at - 1) =~= subscriptions.remove(at));
    }
}

/// Where no subscription has a handle, taking it out changes nothing.
proof fn lemma_without_none<L>(subscriptions: Seq<SubscriptionView<L>>, handle: SubscriptionHandle)
    requires
        forall|j: int|
            0 <= j < subscriptions.len() ==> (#[trigger] subscriptions[j]).handle != handle,
    ensures
        spec_without(subscriptions, handle) == subscriptions,
        !spec_subscribed(subscriptions, handle),
    decreases subscriptions.len(),
{
    if subscriptions.len() > 0 {
        let rest = subscriptions.drop_first();
        assert forall|j: int| 0 <= j < rest.len() implies (#[trigger] rest[j]).handle
            != handle by {
            assert(rest[j] == subscriptions[j + 1]);
        }
        lemma_without_none(rest, handle);
        assert(seq![subscriptions[0]] + rest =~= subscriptions);
    }
}

/// Whether a delivery is for one of the subscriptions of a name.
pub open spec fn spec_serves<L>(
    subscriptions: Seq<SubscriptionView<L>>,
    name: Text,
    delivery: Delivery<L>,
) -> bool {
    exists|i: int|
        #![trigger subscriptions[i]]
        {
            &&& 0 <= i < subscriptions.len()
            &&& subscriptions[i].name == name
            &&& subscriptions[i].handle == delivery.handle
            &&& subscriptions[i].listener == delivery.listener
        }
}

/// Nobody is served who did not subscribe: every delivery of a name is for a subscription of
/// that name.
pub proof fn lemma_deliveries_are_subscriptions<L>(
    subscriptions: Seq<SubscriptionView<L>>,
    name: Text,
)
    ensures
        forall|k: int|
            0 <= k < spec_deliveries(subscriptions, name).len() ==> spec_serves(
                subscriptions,
                name,
                #[trigger] spec_deliveries(subscriptions, name)[k],
            ),
    decreases subscriptions.len(),
{
    if subscriptions.len() > 0 {
        let earlier = subscriptions.drop_last();
        lemma_deliveries_are_subscriptions(earlier, name);
        let deliveries = spec_deliveries(subscriptions, name);
        assert forall|k: int| 0 <= k < deliveries.len() implies spec_serves(
            subscriptions,
            name,
            #[trigger] deliveries[k],
        ) by {
            if k < spec_deliveries(earlier, name).len() {
                let delivery = spec_deliveries(earlier, name)[k];
                let i = choose|i: int|
                    #![trigger earlier[i]]
                    {
                        &&& 0 <= i < earlier.len()
                        &&& earlier[i].name == name
                        &&& earlier[i].handle == delivery.handle
                        &&& earlier[i].listener == delivery.listener
                    };
                assert(subscriptions[i] == earlier[i]);
            } else {
                assert(subscriptions[subscriptions.len() - 1] == subscriptions.last());
            }
        }
    }
}

/// Listeners are served in the order in which they subscribed: on a well-formed bus the
/// handles of the deliveries of an event go up, so no listener is served twice.
pub proof fn lemma_served_in_order<L>(bus: BusView<L>, name: Text)
    requires
        bus.wf(),
    ensures
        forall|i: int, j: int|
            0 <= i < j < spec_deliveries(bus.subscriptions, name).len() ==> (
            #[trigger] spec_deliveries(bus.subscriptions, name)[i]).handle.id < (
            #[trigger] spec_deliveries(bus.subscriptions, name)[j]).handle.id,
{
    lemma_deliveries_go_up(bus.subscriptions, bus.next, name);
}

/// On numbered subscriptions the handles of the deliveries go up, and stay below `next`.
proof fn lemma_deliveries_go_up<L>(subscriptions: Seq<SubscriptionView<L>>, next: nat, name: Text)
    requires
        spec_numbered(subscriptions, next),
    ensures
        forall|i: int, j: int|
            0 <= i < j < spec_deliveries(subscriptions, name).len() ==> (
            #[trigger] spec_deliveries(subscriptions, name)[i]).handle.id < (
            #[trigger] spec_deliveries(subscriptions, name)[j]).handle.id,
        forall|k: int|
            0 <= k < spec_deliveries(subscriptions, name).len() ==> (
            #[trigger] spec_deliveries(subscriptions, name)[k]).handle.id < next,
    decreases subscriptions.len(),
{
    if subscriptions.len() > 0 {
        // The subscriptions before the last are numbered too, all of them below the last.
        let earlier = subscriptions.drop_last();
        let last = subscriptions.last();
        assert(last == subscriptions[subscriptions.len() - 1]);
        assert forall|i: int| 0 <= i < earlier.len() implies (#[trigger] earlier[i]).handle.id
            < last.handle.id by {
            assert(earlier[i] == subscriptions[i]);
        }
        assert forall|i: int, j: int| 0 <= i < j < earlier.len() implies (
        #[trigger] earlier[i]).handle.id < (#[trigger] earlier[j]).handle.id by {
            assert(earlier[i] == subscriptions[i]);
            assert(earlier[j] == subscriptions[j]);
        }
        lemma_deliveries_go_up(earlier, last.handle.id as nat, name);
        // The deliveries are those of the earlier subscriptions, and then perhaps the last.
        let served = spec_deliveries(subscriptions, name);
        let before = spec_deliveries(earlier, name);
        assert forall|k: int| 0 <= k < served.len() implies (#[trigger] served[k]).handle.id
            < next by {
            if k < before.len() {
                assert(served[k] == before[k]);
            }
        }
        assert forall|i: int, j: int| 0 <= i < j < served.len() implies (
        #[trigger] served[i]).handle.id < (#[trigger] served[j]).handle.id by {
            assert(served[i] == before[i]);
            if j < before.len() {
                assert(served[j] == before[j]);
            }
        }
    }
}

/// An event without a listener is dropped, and only such an event: the deliveries of a name
/// are empty exactly where no subscription has the name.
pub proof fn lemma_dropped_without_listener<L>(subscriptions: Seq<SubscriptionView<L>>, name: Text)
    ensures
        spec_deliveries(subscriptions, name).len() == 0 <==> forall|i: int|
            0 <= i < subscriptions.len() ==> (#[trigger] subscriptions[i]).name != name,
    decreases subscriptions.len(),
{
    if subscriptions.len() > 0 {
        let earlier = subscriptions.drop_last();
        lemma_dropped_without_listener(earlier, name);
        assert(subscriptions.last() == subscriptions[subscriptions.len() - 1]);
        if forall|i: int| 0 <= i < subscriptions.len() ==> (#[trigger] subscriptions[i]).name
            != name {
            assert forall|i: int| 0 <= i < earlier.len() implies (#[trigger] earlier[i]).name
                != name by {
                assert(earlier[i] == subscriptions[i]);
            }
        }
        if spec_deliveries(subscriptions, name).len() == 0 {
            assert forall|i: int| 0 <= i < subscriptions.len() implies (
            #[trigger] subscriptions[i]).name != name by {
                if i < earlier.len() {
                    assert(earlier[i] == subscriptions[i]);
                }
            }
        }
    }
}

/// A new listener is served last, and once. After it subscribed, the deliveries of its name
/// are those from before and then its own; on a well-formed bus none of those from before
/// has its handle.
pub proof fn lemma_subscriber_is_served<L>(bus: BusView<L>, subscription: SubscriptionView<L>)
    requires
        bus.wf(),
        subscription.handle.id == bus.next,
    ensures
        spec_deliveries(bus.subscriptions.push(subscription), subscription.name)
            == spec_deliveries(bus.subscriptions, subscription.name).push(
            Delivery { handle: subscription.handle, listener: subscription.listener },
        ),
        forall|k: int|
            0 <= k < spec_deliveries(bus.subscriptions, subscription.name).len() ==> (
            #[trigger] spec_deliveries(bus.subscriptions, subscription.name)[k]).handle
                != subscription.handle,
{
    assert(bus.subscriptions.push(subscription).drop_last() =~= bus.subscriptions);
    lemma_deliveries_are_subscriptions(bus.subscriptions, subscription.name);
}

/// A listener that unsubscribed is not served again: on a well-formed bus, no delivery of
/// any name has a handle that was taken out.
pub proof fn lemma_unsubscribed_is_not_served<L>(
    bus: BusView<L>,
    handle: SubscriptionHandle,
    name: Text,
)
    requires
        bus.wf(),
    ensures
        forall|k: int|
            0 <= k < spec_deliveries(spec_without(bus.subscriptions, handle), name).len() ==> (
            #[trigger] spec_deliveries(spec_without(bus.subscriptions, handle), name)[k]).handle
                != handle,
{
    let rest = spec_without(bus.subscriptions, handle);
    lemma_without_has_no(bus.subscriptions, handle, bus.next);
    lemma_deliveries_are_subscriptions(rest, name);
}

/// On a well-formed list of subscriptions, taking a handle out leaves none with that handle.
proof fn lemma_without_has_no<L>(
    subscriptions: Seq<SubscriptionView<L>>,
    handle: SubscriptionHandle,
    next: nat,
)
    requires
        spec_numbered(subscriptions, next),
    ensures
        forall|i: int|
            0 <= i < spec_without(subscriptions, handle).len() ==> (#[trigger] spec_without(
                subscriptions,
                handle,
            )[i]).handle != handle,
    decreases subscriptions.len(),
{
    if subscriptions.len() > 0 {
        // The subscriptions after the first are numbered too.
        let rest = subscriptions.drop_first();
        assert forall|i: int| 0 <= i < rest.len() implies (#[trigger] rest[i]).handle.id
            < next by {
            assert(rest[i] == subscriptions[i + 1]);
        }
        assert forall|i: int, j: int| 0 <= i < j < rest.len() implies (
        #[trigger] rest[i]).handle.id < (#[trigger] rest[j]).handle.id by {
            assert(rest[i] == subscriptions[i + 1]);
            assert(rest[j] == subscriptions[j + 1]);
        }
        if subscriptions[0].handle == handle {
            // Every later handle has a greater number than the one taken out.
            assert forall|i: int| 0 <= i < rest.len() implies (#[trigger] rest[i]).handle
                != handle by {
                assert(rest[i] == subscriptions[i + 1]);
                assert(subscriptions[0].handle.id < subscriptions[i + 1].handle.id);
            }
        } else {
            lemma_without_has_no(rest, handle, next);
            let kept = spec_without(rest, handle);
            let all = spec_without(subscriptions, handle);
            assert forall|i: int| 0 <= i < all.len() implies (#[trigger] all[i]).handle
                != handle by {
                if i > 0 {
                    assert(all[i] == kept[i - 1]);
                }
            }
        }
    }
}

} // verus!
