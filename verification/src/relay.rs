//! The event relay bridge: fans connection-state events out to registered
//! observer callbacks.
//!
//! The bridge is the decision core of the relay worker.  A driver owns the
//! actual thread and channel; it feeds every received message to
//! `on_message` and performs the returned invocations.  Callbacks are held
//! as opaque tokens in registration order.  The life cycle is
//! `NotStarted -> Running -> Terminated`: the first registration starts the
//! bridge, and the stop sentinel — the `Terminated` event pushed ahead of
//! handle destruction — stops it without invoking anyone.

use vstd::prelude::*;

use crate::client::NetworkEvent;

verus! {

/// Life-cycle state of the relay worker.
#[derive(Clone, Copy, Debug, PartialEq, Eq, Structural)]
pub enum RelayState {
    /// No worker exists yet.
    NotStarted,
    /// The worker drains the event channel.
    Running,
    /// The worker has been told to stop and will never invoke a callback
    /// again.
    Terminated,
}

/// The relay bridge: its life-cycle state and the registered callback
/// tokens, in registration order.
pub struct RelayBridge {
    /// Where the worker stands in its life cycle.
    pub state: RelayState,
    /// Registered callback tokens, oldest first.
    pub observers: Vec<u64>,
}

/// One invocation of every callback, in registration order, with one code.
pub open spec fn spec_fan_out(observers: Seq<u64>, code: int) -> Seq<(u64, int)> {
    observers.map(|i: int, cb: u64| (cb, code))
}

/// The invocations one message causes: every registered callback in order
/// for an ordinary event while running; none for the stop sentinel, and
/// none outside the running state.
pub open spec fn spec_invocations(b: RelayBridge, event: NetworkEvent) -> Seq<(u64, int)> {
    if b.state is Running && !(event is Terminated) {
        spec_fan_out(b.observers@, event.spec_ffi_code())
    } else {
        Seq::empty()
    }
}

/// The life-cycle state after one message: the sentinel stops a running
/// bridge; nothing else moves it.
pub open spec fn spec_next_state(b: RelayBridge, event: NetworkEvent) -> RelayState {
    if b.state is Running && event is Terminated {
        RelayState::Terminated
    } else {
        b.state
    }
}

impl RelayBridge {
    /// A fresh bridge: no worker, no observers.
    pub fn new() -> (r: RelayBridge)
        ensures
            r.state is NotStarted,
            r.observers@.len() == 0,
    {
        RelayBridge { state: RelayState::NotStarted, observers: Vec::new() }
    }

    /// Registers one more callback; the first registration starts the
    /// worker.  Registration happens only before the handle is destroyed,
    /// so never on a terminated bridge.
    pub fn register(&mut self, callback: u64)
        requires
            !(old(self).state is Terminated),
        ensures
            final(self).observers@ == old(self).observers@.push(callback),
            final(self).state is Running,
    {
        self.observers.push(callback);
        self.state = RelayState::Running;
    }

    /// Handles one message from the event channel: returns the callback
    /// invocations to perform, in registration order, and moves the life
    /// cycle along.  The stop sentinel, and any message outside the running
    /// state, invokes nothing.
    pub fn on_message(&mut self, event: &NetworkEvent) -> (r: Vec<(u64, i32)>)
        ensures
            final(self).observers@ == old(self).observers@,
            final(self).state == spec_next_state(*old(self), *event),
            r@.len() == spec_invocations(*old(self), *event).len(),
            forall|i: int|
                0 <= i < r@.len() ==> (#[trigger] r@[i]).0 == spec_invocations(
                    *old(self),
                    *event,
                )[i].0 && r@[i].1 as int == spec_invocations(*old(self), *event)[i].1,
    {
        match self.state {
            RelayState::Running => {
                if let NetworkEvent::Terminated = event {
                    self.state = RelayState::Terminated;
                    Vec::new()
                } else {
                    let code = event.to_ffi_code();
                    let n = self.observers.len();
                    let mut out: Vec<(u64, i32)> = Vec::new();
                    let mut i: usize = 0;
                    while i < n
                        invariant
                            n == self.observers@.len(),
                            i <= n,
                            code as int == event.spec_ffi_code(),
                            out@.len() == i,
                            forall|j: int|
                                0 <= j < i ==> (#[trigger] out@[j]).0 == self.observers@[j]
                                    && out@[j].1 == code,
                        decreases n - i,
                    {
                        out.push((self.observers[i], code));
                        i += 1;
                    }
                    out
                }
            },
            _ => Vec::new(),
        }
    }

    /// Pushes the stop sentinel through a running bridge, as handle
    /// destruction does; a bridge that never started needs no stopping and
    /// is stopped directly.
    pub fn terminate(&mut self)
        ensures
            final(self).observers@ == old(self).observers@,
            final(self).state is Terminated,
            spec_invocations(*old(self), NetworkEvent::Terminated).len() == 0,
    {
        if let RelayState::Running = self.state {
            let sentinel = NetworkEvent::Terminated;
            let invocations = self.on_message(&sentinel);
            proof {
                assert(invocations@.len() == 0);
            }
        } else {
            self.state = RelayState::Terminated;
        }
    }
}

/// Callbacks registered before any event is delivered are all invoked, in
/// registration order, for each event delivered while the relay runs: the
/// i-th invocation is of the i-th registered callback, carrying the event's
/// code.
pub proof fn lemma_callbacks_invoked_in_order(b: RelayBridge, event: NetworkEvent)
    requires
        b.state is Running,
        !(event is Terminated),
    ensures
        spec_invocations(b, event).len() == b.observers@.len(),
        forall|i: int|
            0 <= i < b.observers@.len() ==> spec_invocations(b, event)[i] == (
                b.observers@[i],
                event.spec_ffi_code(),
            ),
{
}

/// Destroying a handle invokes no callback: the stop sentinel itself causes
/// no invocation and stops a running relay for good, and a stopped relay
/// never invokes anything, whatever else arrives.
pub proof fn lemma_destruction_invokes_no_callback(b: RelayBridge, event: NetworkEvent)
    ensures
        spec_invocations(b, NetworkEvent::Terminated).len() == 0,
        b.state is Running ==> spec_next_state(b, NetworkEvent::Terminated) is Terminated,
        b.state is Terminated ==> spec_invocations(b, event).len() == 0 && spec_next_state(
            b,
            event,
        ) == RelayState::Terminated,
{
}

} // verus!
