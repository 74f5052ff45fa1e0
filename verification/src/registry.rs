//! The rendezvous between the file watcher (one producer) and any number of
//! suspended long-poll requests (consumers).
//!
//! A waiter is represented by a single-use wake handle; the registry keeps
//! the handles of every request currently suspended. A broadcast drains the
//! whole collection in one swap and then signals every captured handle, so
//! that the caller can release its lock before any signaling happens.

use vstd::prelude::*;
use futures_channel::oneshot::Receiver;
use futures_channel::oneshot::Sender;

verus! {

/// futures_channel::oneshot::Sender, the wake half of a single-use signal;
/// opaque here, carried through the registry and consumed by one send.
#[verifier::external_type_specification]
#[verifier::external_body]
#[verifier::reject_recursive_types(T)]
pub struct ExSender<T>(Sender<T>);

/// futures_channel::oneshot::Receiver, the wait half; handed back to the
/// caller, which suspends on it outside this library.
#[verifier::external_type_specification]
#[verifier::external_body]
#[verifier::reject_recursive_types(T)]
pub struct ExReceiver<T>(Receiver<T>);

/// futures_channel::oneshot::Canceled, the error a receiver reports when
/// its sender was dropped unused.
#[verifier::external_type_specification]
#[verifier::external_body]
pub struct ExCanceled(futures_channel::oneshot::Canceled);

/// Relies on futures_channel::oneshot::channel: creates a fresh single-use
/// wait/wake pair; the sender delivers at most one signal, to this receiver
/// alone.
#[verifier::external_body]
fn oneshot_pair() -> (r: (Sender<()>, Receiver<()>)) {
    futures_channel::oneshot::channel()
}

/// Relies on futures_channel::oneshot::Sender::send: it consumes the sender,
/// so a wake handle cannot be signaled twice; the error returned when the
/// waiter has already disconnected is discarded, since signaling an
/// abandoned handle is a harmless no-op.
#[verifier::external_body]
fn send_wake(tx: Sender<()>) {
    let _ = tx.send(());
}

/// What a registration does to the collection of pending wake handles.
pub open spec fn register_one(pending: Seq<Sender<()>>, handle: Sender<()>) -> Seq<Sender<()>> {
    pending.push(handle)
}

/// The handles a drain captures: all of them.
pub open spec fn drain_captures(pending: Seq<Sender<()>>) -> Seq<Sender<()>> {
    pending
}

/// What a drain leaves behind: nothing.
pub open spec fn drain_leaves(pending: Seq<Sender<()>>) -> Seq<Sender<()>> {
    Seq::<Sender<()>>::empty()
}

/// The ordered collection of wake handles of every currently suspended
/// long-poll request. The caller guards it with a single lock; nothing here
/// performs any waiting itself.
pub struct WaiterRegistry {
    waiters: Vec<Sender<()>>,
}

impl View for WaiterRegistry {
    type V = Seq<Sender<()>>;

    closed spec fn view(&self) -> Seq<Sender<()>> {
        self.waiters@
    }
}

impl WaiterRegistry {
    /// A registry with no pending waiters.
    pub fn new() -> (r: WaiterRegistry)
        ensures
            r@ == Seq::<Sender<()>>::empty(),
    {
        WaiterRegistry { waiters: Vec::new() }
    }

    /// How many waiters are currently pending.
    pub fn pending(&self) -> (n: usize)
        ensures
            n == self@.len(),
    {
        self.waiters.len()
    }

    /// Appends one wake handle to the pending collection.
    pub fn register_sender(&mut self, handle: Sender<()>)
        ensures
            final(self)@ == register_one(old(self)@, handle),
    {
        self.waiters.push(handle);
    }

    /// Creates a fresh wait/wake pair, keeps the wake handle pending, and
    /// hands the wait handle back for the caller to suspend on.
    pub fn register(&mut self) -> (rx: Receiver<()>)
        ensures
            exists|tx: Sender<()>| final(self)@ == register_one(old(self)@, tx),
            final(self)@.len() == old(self)@.len() + 1,
            final(self)@.drop_last() == old(self)@,
    {
        let (tx, rx) = oneshot_pair();
        self.register_sender(tx);
        rx
    }

    /// Takes the whole pending collection in one swap, leaving the registry
    /// empty; the caller signals the captured handles after releasing its
    /// lock.
    pub fn drain_waiters(&mut self) -> (drained: Vec<Sender<()>>)
        ensures
            drained@ == drain_captures(old(self)@),
            final(self)@ == drain_leaves(old(self)@),
    {
        let mut taken: Vec<Sender<()>> = Vec::new();
        core::mem::swap(&mut self.waiters, &mut taken);
        taken
    }

    /// Drains the collection and signals every captured handle, outside of
    /// any lock the caller may hold around the registry itself. Returns how
    /// many waiters were woken.
    pub fn broadcast(&mut self) -> (n: usize)
        ensures
            n == old(self)@.len(),
            final(self)@ == drain_leaves(old(self)@),
    {
        let drained = self.drain_waiters();
        let n = drained.len();
        signal_all(drained);
        n
    }
}

/// Signals every captured wake handle exactly once: each sender is moved
/// into its single consuming send, so no handle can be signaled twice.
pub fn signal_all(drained: Vec<Sender<()>>) {
    let mut rest = drained;
    while rest.len() > 0
        decreases rest@.len(),
    {
        if let Some(tx) = rest.pop() {
            send_wake(tx);
        }
    }
}

/// Registering a sequence of handles, one at a time, in order.
pub open spec fn register_all(pending: Seq<Sender<()>>, handles: Seq<Sender<()>>) -> Seq<Sender<()>>
    decreases handles.len(),
{
    if handles.len() == 0 {
        pending
    } else {
        register_all(register_one(pending, handles[0]), handles.drop_first())
    }
}

pub proof fn lemma_register_all_appends(pending: Seq<Sender<()>>, handles: Seq<Sender<()>>)
    ensures
        register_all(pending, handles) == pending + handles,
    decreases handles.len(),
{
    if handles.len() == 0 {
        assert(register_all(pending, handles) =~= pending + handles);
    } else {
        lemma_register_all_appends(register_one(pending, handles[0]), handles.drop_first());
        assert(register_one(pending, handles[0]) + handles.drop_first() =~= pending + handles);
    }
}

/// Any number of registrations followed by one broadcast: the drain captures
/// every registered handle, and — the handles being distinct single-use
/// senders — captures each of them exactly once, so every waiter is woken
/// and none is woken twice.
pub proof fn lemma_broadcast_wakes_each_exactly_once(
    pending: Seq<Sender<()>>,
    handles: Seq<Sender<()>>,
)
    requires
        (pending + handles).no_duplicates(),
    ensures
        drain_captures(register_all(pending, handles)) == pending + handles,
        forall|i: int|
            0 <= i < handles.len() ==> drain_captures(register_all(pending, handles)).to_multiset()
                .count(handles[i]) == 1,
        drain_leaves(register_all(pending, handles)) == Seq::<Sender<()>>::empty(),
{
    lemma_register_all_appends(pending, handles);
    let all = pending + handles;
    all.lemma_multiset_has_no_duplicates();
    all.to_multiset_ensures();

    assert forall|i: int| 0 <= i < handles.len() implies all.to_multiset().count(handles[i])
        == 1 by {
        assert(all[pending.len() + i] == handles[i]);
        assert(all.contains(handles[i]));
        assert(all.to_multiset().count(handles[i]) > 0);
        assert(all.to_multiset().contains(handles[i]));
    }
}

/// A wake handle is in the collection from its registration on: a
/// registration adds the new handle and disturbs none already pending, so
/// only a drain — which captures all of them — ever removes one.
pub proof fn lemma_registration_keeps_handles(pending: Seq<Sender<()>>, handle: Sender<()>)
    ensures
        register_one(pending, handle).contains(handle),
        register_one(pending, handle).len() == pending.len() + 1,
        forall|i: int| 0 <= i < pending.len() ==> register_one(pending, handle)[i] == pending[i],
{
    assert(register_one(pending, handle)[pending.len() as int] == handle);
}

/// A registration that happens only after a broadcast's drain is not among
/// the handles that drain captured: it stays pending, for the next
/// broadcast alone.
pub proof fn lemma_late_registration_stays_pending(
    registered: Seq<Sender<()>>,
    late: Sender<()>,
)
    requires
        !registered.contains(late),
    ensures
        !drain_captures(registered).contains(late),
        register_one(drain_leaves(registered), late) =~= seq![late],
{
}

} // verus!
