//! The subscription manager: registration, delivery, suspend and resume.
//!
//! Each subscription is registered under a process-unique handle and delivers
//! push-channel events to its sink in arrival order. `suspend` notifies every
//! sink once with `NetworkModuleSuspended` and then withholds all real events;
//! `resume` notifies every sink once with `NetworkModuleResumed` before any
//! further event is delivered. The sinks themselves live outside the library:
//! the manager decides, callers perform the deliveries it returns.

use vstd::prelude::*;

use crate::errors::ClientError;
use crate::errors::ErrorKind;

verus! {

/// The lifecycle state of one subscription.
#[derive(Debug, Clone, Copy, PartialEq, Eq, Structural)]
pub enum SubState {
    /// Events are delivered to the sink.
    Active,
    /// Event delivery is suppressed; the subscription is not torn down.
    Suspended,
}

/// One registered subscription.
#[derive(Debug)]
pub struct Subscription {
    /// Process-unique 64-bit id; never reused within the manager's lifetime.
    pub handle: u64,
    /// The collection the subscription watches.
    pub collection: String,
    /// Opaque filter payload, transmitted unchanged.
    pub filter: String,
    /// Projection applied by the server to matching documents.
    pub result_projection: String,
    /// Whether events are currently delivered or withheld.
    pub state: SubState,
}

/// A delivery the caller owes to a subscription's sink.
#[derive(Debug)]
pub enum Delivery {
    /// The synthetic `NetworkModuleSuspended` notification.
    Suspended(u64),
    /// The synthetic `NetworkModuleResumed` notification.
    Resumed(u64),
    /// A real event from the push channel, in arrival order.
    Event(u64, String),
}

/// The subscription table plus the link-wide suspend flag.
#[derive(Debug)]
pub struct SubManager {
    /// The registered subscriptions, in registration order.
    pub subs: Vec<Subscription>,
    /// The suspend flag: while set, incoming frames are discarded.
    pub suspended: bool,
    /// The next handle to hand out.
    pub next_handle: u64,
}

impl SubManager {
    /// Well-formedness: handles are unique and below the next one to be
    /// issued, and every subscription's state mirrors the suspend flag.
    pub open spec fn wf(self) -> bool {
        &&& forall|i: int, j: int|
            0 <= i < j < self.subs@.len() ==> self.subs@[i].handle != self.subs@[j].handle
        &&& forall|i: int| 0 <= i < self.subs@.len() ==> self.subs@[i].handle < self.next_handle
        &&& forall|i: int|
            0 <= i < self.subs@.len() ==> ((self.subs@[i].state is Suspended) == self.suspended)
    }

    /// Whether some subscription is registered under `handle`.
    pub open spec fn spec_has_handle(self, handle: u64) -> bool {
        exists|i: int| 0 <= i < self.subs@.len() && self.subs@[i].handle == handle
    }

    /// Whether a real event for `handle` would be delivered right now:
    /// only when the manager is not suspended and the handle is registered.
    pub open spec fn spec_deliverable(self, handle: u64) -> bool {
        !self.suspended && self.spec_has_handle(handle)
    }

    /// An empty manager: no subscriptions, not suspended.
    pub fn new() -> (r: SubManager)
        ensures
            r.wf(),
            r.subs@.len() == 0,
            !r.suspended,
    {
        SubManager { subs: Vec::new(), suspended: false, next_handle: 1 }
    }

    /// Registers a subscription and returns its fresh handle immediately,
    /// before any event arrives. A subscription created while the manager is
    /// suspended starts suspended and owes its sink the suspension
    /// notification at once.
    pub fn subscribe(&mut self, collection: String, filter: String, result_projection: String) -> (
        r: (u64, Option<Delivery>))
        requires
            old(self).wf(),
            old(self).next_handle < u64::MAX,
        ensures
            final(self).wf(),
            r.0 == old(self).next_handle,
            final(self).next_handle == old(self).next_handle + 1,
            final(self).suspended == old(self).suspended,
            final(self).subs@.len() == old(self).subs@.len() + 1,
            forall|i: int| 0 <= i < old(self).subs@.len() ==> final(self).subs@[i] == old(self).subs@[i],
            final(self).subs@.last().handle == r.0,
            final(self).subs@.last().collection == collection,
            final(self).subs@.last().filter == filter,
            final(self).subs@.last().result_projection == result_projection,
            final(self).subs@.last().state == (if old(self).suspended {
                SubState::Suspended
            } else {
                SubState::Active
            }),
            r.1 == (if old(self).suspended {
                Option::Some(Delivery::Suspended(old(self).next_handle))
            } else {
                Option::None::<Delivery>
            }),
    {
        let handle = self.next_handle;
        self.next_handle = handle + 1;
        let state = if self.suspended {
            SubState::Suspended
        } else {
            SubState::Active
        };
        self.subs.push(Subscription { handle, collection, filter, result_projection, state });
        let notice = if self.suspended {
            Some(Delivery::Suspended(handle))
        } else {
            None
        };
        (handle, notice)
    }

    /// Issues the push protocol's unsubscribe verb for `handle` and removes
    /// the entry. Idempotent: unknown handles leave the table unchanged.
    pub fn unsubscribe(&mut self, handle: u64)
        requires
            old(self).wf(),
        ensures
            final(self).wf(),
            final(self).suspended == old(self).suspended,
            final(self).next_handle == old(self).next_handle,
            !final(self).spec_has_handle(handle),
            !old(self).spec_has_handle(handle) ==> final(self).subs@ == old(self).subs@,
            old(self).spec_has_handle(handle) ==> exists|i: int|
                0 <= i < old(self).subs@.len() && old(self).subs@[i].handle == handle
                    && final(self).subs@ == old(self).subs@.remove(i),
    {
        let n = self.subs.len();
        let mut i: usize = 0;
        while i < n
            invariant
                old(self).wf(),
                *self == *old(self),
                i <= n == self.subs@.len(),
                forall|k: int| 0 <= k < i ==> self.subs@[k].handle != handle,
            decreases n - i,
        {
            if self.subs[i].handle == handle {
                self.subs.remove(i);
                assert forall|k: int|
                    0 <= k < self.subs@.len() implies self.subs@[k].handle != handle by {
                    if k >= i {
                        assert(self.subs@[k] == old(self).subs@[k + 1]);
                    }
                }
                return ;
            }
            i += 1;
        }
    }

    /// Sets the suspend flag, marks every subscription `Suspended`, and
    /// returns the `NetworkModuleSuspended` notification each sink is owed:
    /// exactly one per registered subscription, in registration order.
    /// While already suspended it does nothing, so each suspend/resume cycle
    /// notifies every sink exactly once.
    pub fn suspend(&mut self) -> (ns: Vec<Delivery>)
        requires
            old(self).wf(),
        ensures
            final(self).wf(),
            final(self).suspended,
            final(self).next_handle == old(self).next_handle,
            final(self).subs@.len() == old(self).subs@.len(),
            forall|i: int|
                0 <= i < final(self).subs@.len() ==> final(self).subs@[i].handle == old(self).subs@[i].handle
                    && final(self).subs@[i].collection == old(self).subs@[i].collection
                    && final(self).subs@[i].filter == old(self).subs@[i].filter
                    && final(self).subs@[i].result_projection == old(self).subs@[i].result_projection
                    && final(self).subs@[i].state is Suspended,
            old(self).suspended ==> ns@.len() == 0 && final(self).subs@ == old(self).subs@,
            !old(self).suspended ==> ns@.len() == final(self).subs@.len() && forall|i: int|
                0 <= i < ns@.len() ==> ns@[i] == Delivery::Suspended(old(self).subs@[i].handle),
    {
        let mut ns: Vec<Delivery> = Vec::new();
        if self.suspended {
            return ns;
        }
        self.suspended = true;
        let n = self.subs.len();
        let mut i: usize = 0;
        while i < n
            invariant
                i <= n == self.subs@.len() == old(self).subs@.len(),
                ns@.len() == i,
                forall|k: int|
                    0 <= k < n ==> self.subs@[k].handle == old(self).subs@[k].handle
                        && self.subs@[k].collection == old(self).subs@[k].collection
                        && self.subs@[k].filter == old(self).subs@[k].filter
                        && self.subs@[k].result_projection == old(self).subs@[k].result_projection,
                forall|k: int| 0 <= k < i ==> self.subs@[k].state is Suspended,
                forall|k: int| i <= k < n ==> self.subs@[k].state == old(self).subs@[k].state,
                forall|k: int|
                    0 <= k < i ==> ns@[k] == Delivery::Suspended(old(self).subs@[k].handle),
                self.suspended,
                self.next_handle == old(self).next_handle,
            decreases n - i,
        {
            let h = self.subs[i].handle;
            self.subs[i].state = SubState::Suspended;
            ns.push(Delivery::Suspended(h));
            i += 1;
        }
        ns
    }

    /// Clears the suspend flag, re-subscribes every suspended entry with the
    /// same parameters, and returns the `NetworkModuleResumed` notification
    /// each sink is owed — exactly one per registered subscription, before
    /// any subsequent real event. While not suspended it does nothing.
    pub fn resume(&mut self) -> (ns: Vec<Delivery>)
        requires
            old(self).wf(),
        ensures
            final(self).wf(),
            !final(self).suspended,
            final(self).next_handle == old(self).next_handle,
            final(self).subs@.len() == old(self).subs@.len(),
            forall|i: int|
                0 <= i < final(self).subs@.len() ==> final(self).subs@[i].handle == old(self).subs@[i].handle
                    && final(self).subs@[i].collection == old(self).subs@[i].collection
                    && final(self).subs@[i].filter == old(self).subs@[i].filter
                    && final(self).subs@[i].result_projection == old(self).subs@[i].result_projection
                    && final(self).subs@[i].state is Active,
            !old(self).suspended ==> ns@.len() == 0 && final(self).subs@ == old(self).subs@,
            old(self).suspended ==> ns@.len() == final(self).subs@.len() && forall|i: int|
                0 <= i < ns@.len() ==> ns@[i] == Delivery::Resumed(old(self).subs@[i].handle),
    {
        let mut ns: Vec<Delivery> = Vec::new();
        if !self.suspended {
            return ns;
        }
        self.suspended = false;
        let n = self.subs.len();
        let mut i: usize = 0;
        while i < n
            invariant
                i <= n == self.subs@.len() == old(self).subs@.len(),
                ns@.len() == i,
                forall|k: int|
                    0 <= k < n ==> self.subs@[k].handle == old(self).subs@[k].handle
                        && self.subs@[k].collection == old(self).subs@[k].collection
                        && self.subs@[k].filter == old(self).subs@[k].filter
                        && self.subs@[k].result_projection == old(self).subs@[k].result_projection,
                forall|k: int| 0 <= k < i ==> self.subs@[k].state is Active,
                forall|k: int| i <= k < n ==> self.subs@[k].state == old(self).subs@[k].state,
                forall|k: int|
                    0 <= k < i ==> ns@[k] == Delivery::Resumed(old(self).subs@[k].handle),
                !self.suspended,
                self.next_handle == old(self).next_handle,
            decreases n - i,
        {
            let h = self.subs[i].handle;
            self.subs[i].state = SubState::Active;
            ns.push(Delivery::Resumed(h));
            i += 1;
        }
        ns
    }

    /// Handles one inbound push frame addressed to `handle`: the event is
    /// delivered exactly when the manager is not suspended and the handle is
    /// registered; while suspended every frame is discarded.
    pub fn on_frame(&self, handle: u64, payload: String) -> (d: Option<Delivery>)
        requires
            self.wf(),
        ensures
            d is Some <==> self.spec_deliverable(handle),
            d is Some ==> d == Option::Some(Delivery::Event(handle, payload)),
    {
        if self.suspended {
            return None;
        }
        let n = self.subs.len();
        let mut i: usize = 0;
        while i < n
            invariant
                !self.suspended,
                i <= n == self.subs@.len(),
                forall|k: int| 0 <= k < i ==> self.subs@[k].handle != handle,
            decreases n - i,
        {
            if self.subs[i].handle == handle {
                assert(self.spec_has_handle(handle)) by {
                    assert(self.subs@[i as int].handle == handle);
                }
                return Some(Delivery::Event(handle, payload));
            }
            i += 1;
        }
        None
    }
}

/// The deliveries a batch of inbound frames produces, in arrival order:
/// each frame whose handle is deliverable becomes one event, every other
/// frame is discarded.
pub open spec fn spec_deliveries(m: SubManager, frames: Seq<(u64, String)>) -> Seq<Delivery>
    decreases frames.len(),
{
    if frames.len() == 0 {
        Seq::empty()
    } else {
        let rest = spec_deliveries(m, frames.drop_last());
        let f = frames.last();
        if m.spec_deliverable(f.0) {
            rest.push(Delivery::Event(f.0, f.1))
        } else {
            rest
        }
    }
}

impl SubManager {
    /// Handles a batch of inbound push frames, each a handle and a payload,
    /// in arrival order. Per subscription the deliveries keep that order:
    /// the result is exactly the deliverable frames, as events, in the
    /// order they arrived.
    pub fn process_frames(&self, frames: &Vec<(u64, String)>) -> (ds: Vec<Delivery>)
        requires
            self.wf(),
        ensures
            ds@ == spec_deliveries(*self, frames@),
    {
        let n = frames.len();
        let mut ds: Vec<Delivery> = Vec::new();
        let mut i: usize = 0;
        while i < n
            invariant
                self.wf(),
                i <= n == frames@.len(),
                ds@ == spec_deliveries(*self, frames@.take(i as int)),
            decreases n - i,
        {
            let (handle, payload) = (frames[i].0, frames[i].1.clone());
            match self.on_frame(handle, payload) {
                Some(d) => {
                    ds.push(d);
                },
                None => {},
            }
            proof {
                assert(frames@.take(i + 1).drop_last() =~= frames@.take(i as int));
                assert(frames@.take(i + 1).last() == frames@[i as int]);
            }
            i += 1;
        }
        proof {
            assert(frames@.take(n as int) =~= frames@);
        }
        ds
    }
}

/// The error value a lifecycle notification delivers to its sink: the
/// synthetic `NetworkModuleSuspended` or `NetworkModuleResumed` error; a
/// real event delivers no error.
pub fn delivery_error(d: &Delivery) -> (r: Option<ClientError>)
    ensures
        d is Suspended ==> (r matches Option::Some(e) && e.kind == ErrorKind::NetworkModuleSuspended
            && e.message@ == "Network module is suspended"@),
        d is Resumed ==> (r matches Option::Some(e) && e.kind == ErrorKind::NetworkModuleResumed
            && e.message@ == "Network module is resumed"@),
        d is Event ==> r is None,
{
    match d {
        Delivery::Suspended(_) => Some(
            ClientError::new(
                ErrorKind::NetworkModuleSuspended,
                String::from_str("Network module is suspended"),
            ),
        ),
        Delivery::Resumed(_) => Some(
            ClientError::new(
                ErrorKind::NetworkModuleResumed,
                String::from_str("Network module is resumed"),
            ),
        ),
        Delivery::Event(_, _) => None,
    }
}

/// Suspend safety: while the suspend flag is set, no real event is delivered
/// to any subscription.
pub proof fn lemma_suspend_safety(m: SubManager, handle: u64)
    requires
        m.wf(),
        m.suspended,
    ensures
        !m.spec_deliverable(handle),
{
}

/// One notification per sink and cycle: a suspend call on a non-suspended
/// manager yields exactly one `Suspended` notification per registered
/// subscription — the list has one entry per subscription and no handle
/// appears twice; a matching resume yields exactly one `Resumed` each, and
/// afterwards every subscription is deliverable again.
pub proof fn lemma_suspend_resume_cycle(
    m0: SubManager,
    m1: SubManager,
    ns1: Seq<Delivery>,
    m2: SubManager,
    ns2: Seq<Delivery>,
)
    requires
        m0.wf(),
        !m0.suspended,
        // what `suspend` ensures of m0 -> m1 with notifications ns1:
        m1.wf(),
        m1.suspended,
        m1.subs@.len() == m0.subs@.len(),
        forall|i: int| 0 <= i < m1.subs@.len() ==> m1.subs@[i].handle == m0.subs@[i].handle,
        ns1.len() == m0.subs@.len(),
        forall|i: int| 0 <= i < ns1.len() ==> ns1[i] == Delivery::Suspended(m0.subs@[i].handle),
        // what `resume` ensures of m1 -> m2 with notifications ns2:
        m2.wf(),
        !m2.suspended,
        m2.subs@.len() == m1.subs@.len(),
        forall|i: int| 0 <= i < m2.subs@.len() ==> m2.subs@[i].handle == m1.subs@[i].handle,
        ns2.len() == m1.subs@.len(),
        forall|i: int| 0 <= i < ns2.len() ==> ns2[i] == Delivery::Resumed(m1.subs@[i].handle),
    ensures
        ns1.len() == m0.subs@.len() && ns2.len() == m0.subs@.len(),
        forall|i: int| 0 <= i < m0.subs@.len() ==> ns1[i] == Delivery::Suspended(m0.subs@[i].handle),
        forall|i: int| 0 <= i < m0.subs@.len() ==> ns2[i] == Delivery::Resumed(m0.subs@[i].handle),
        forall|i: int, j: int| 0 <= i < j < ns1.len() ==> ns1[i] != ns1[j],
        forall|i: int, j: int| 0 <= i < j < ns2.len() ==> ns2[i] != ns2[j],
        forall|i: int|
            0 <= i < m0.subs@.len() ==> m2.spec_deliverable(m0.subs@[i].handle),
{
    assert forall|i: int|
        0 <= i < m0.subs@.len() implies m2.spec_deliverable(m0.subs@[i].handle) by {
        assert(m2.subs@[i].handle == m0.subs@[i].handle);
    }
}

} // verus!
