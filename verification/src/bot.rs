//! The bounded event dispatcher.
//!
//! The dispatcher pulls events from an inbound queue and runs a handler for
//! each, with at most `capacity` handlers in flight. [`Dispatcher`] holds the
//! decisions of that loop: the caller waits for whatever the current phase
//! allows, reports what happened as a [`DispatchEvent`], and carries out the
//! [`DispatchAction`] it gets back.

pub mod friend_command;

use vstd::prelude::*;

verus! {

/// Where the dispatch loop stands.
#[derive(Debug, Clone, Copy, PartialEq, Eq, Structural)]
pub enum DispatchPhase {
    /// Pulling events; a shutdown signal or the end of the queue is awaited
    /// too.
    Accepting,
    /// One received event is held back until a handler finishes; nothing is
    /// pulled meanwhile.
    Blocked,
    /// No event is pulled any more; the handlers in flight run to their end.
    Draining,
    /// Every admitted handler has finished: the loop returns.
    Finished,
}

/// What the caller observed.
#[derive(Debug, Clone, Copy, PartialEq, Eq, Structural)]
pub enum DispatchEvent {
    /// An event was pulled from the inbound queue.
    Received,
    /// The inbound queue was closed.
    Closed,
    /// Shutdown was signalled.
    Shutdown,
    /// A handler in flight finished, with or without an error.
    HandlerDone { failed: bool },
    /// Waiting for a free slot failed; the held event cannot be admitted.
    SlotRefused,
}

/// What the caller has to do next.
#[derive(Debug, Clone, Copy, PartialEq, Eq, Structural)]
pub enum DispatchAction {
    /// Start a handler for the event just received, or for the held one.
    Spawn,
    /// Keep the event just received and wait for a handler to finish.
    Hold,
    /// Nothing to start; go on waiting.
    Continue,
    /// Give up the held event.
    DropHeld,
    /// Pull nothing any more and wait for the handlers in flight.
    Drain,
    /// Leave the loop.
    Return,
    /// The event does not fit the phase and changed nothing.
    Ignored,
}

/// The dispatcher as mathematical values.
pub struct DispatcherView {
    pub capacity: nat,
    pub in_flight: nat,
    pub phase: DispatchPhase,
    /// Shutdown, or the end of the queue, was seen while an event was held.
    pub stop_requested: bool,
}

impl DispatcherView {
    /// The state before any event.
    pub open spec fn initial(capacity: nat) -> DispatcherView {
        DispatcherView {
            capacity,
            in_flight: 0,
            phase: DispatchPhase::Accepting,
            stop_requested: false,
        }
    }

    /// What holds of every state that the dispatcher reaches.
    pub open spec fn wf(self) -> bool {
        &&& self.in_flight <= self.capacity
        &&& self.phase == DispatchPhase::Finished ==> self.in_flight == 0
        &&& self.phase == DispatchPhase::Draining ==> self.in_flight > 0
        &&& self.phase == DispatchPhase::Blocked ==> self.in_flight == self.capacity
        &&& self.stop_requested ==> self.phase == DispatchPhase::Blocked
    }

    /// The phase after the held event is gone: back to pulling, or to the
    /// shutdown that was asked for meanwhile.
    pub open spec fn after_held(self, in_flight: nat) -> DispatcherView {
        if !self.stop_requested {
            DispatcherView { in_flight, phase: DispatchPhase::Accepting, ..self }
        } else if in_flight == 0 {
            DispatcherView {
                in_flight,
                phase: DispatchPhase::Finished,
                stop_requested: false,
                ..self
            }
        } else {
            DispatcherView {
                in_flight,
                phase: DispatchPhase::Draining,
                stop_requested: false,
                ..self
            }
        }
    }

    /// The state after `event`, and what the caller does then.
    pub open spec fn next(self, event: DispatchEvent) -> (DispatcherView, DispatchAction) {
        match self.phase {
            DispatchPhase::Accepting => match event {
                DispatchEvent::Received => if self.in_flight < self.capacity {
                    (
                        DispatcherView { in_flight: self.in_flight + 1, ..self },
                        DispatchAction::Spawn,
                    )
                } else {
                    (DispatcherView { phase: DispatchPhase::Blocked, ..self }, DispatchAction::Hold)
                },
                DispatchEvent::Closed | DispatchEvent::Shutdown => if self.in_flight == 0 {
                    (
                        DispatcherView { phase: DispatchPhase::Finished, ..self },
                        DispatchAction::Return,
                    )
                } else {
                    (
                        DispatcherView { phase: DispatchPhase::Draining, ..self },
                        DispatchAction::Drain,
                    )
                },
                DispatchEvent::HandlerDone { .. } => if self.in_flight > 0 {
                    (
                        DispatcherView { in_flight: (self.in_flight - 1) as nat, ..self },
                        DispatchAction::Continue,
                    )
                } else {
                    (self, DispatchAction::Ignored)
                },
                DispatchEvent::SlotRefused => (self, DispatchAction::Ignored),
            },
            DispatchPhase::Blocked => match event {
                DispatchEvent::HandlerDone { .. } => if self.in_flight > 0 {
                    // The slot that came free goes to the held event at once.
                    (self.after_held(self.in_flight), DispatchAction::Spawn)
                } else {
                    (self, DispatchAction::Ignored)
                },
                DispatchEvent::Closed | DispatchEvent::Shutdown => (
                    DispatcherView { stop_requested: true, ..self },
                    DispatchAction::Hold,
                ),
                DispatchEvent::SlotRefused => (
                    self.after_held(self.in_flight),
                    DispatchAction::DropHeld,
                ),
                DispatchEvent::Received => (self, DispatchAction::Ignored),
            },
            DispatchPhase::Draining => match event {
                DispatchEvent::HandlerDone { .. } => if self.in_flight <= 1 {
                    (
                        DispatcherView { in_flight: 0, phase: DispatchPhase::Finished, ..self },
                        DispatchAction::Return,
                    )
                } else {
                    (
                        DispatcherView { in_flight: (self.in_flight - 1) as nat, ..self },
                        DispatchAction::Drain,
                    )
                },
                _ => (self, DispatchAction::Ignored),
            },
            DispatchPhase::Finished => (self, DispatchAction::Ignored),
        }
    }

    /// The state after all of `events`, taken in order.
    pub open spec fn run(self, events: Seq<DispatchEvent>) -> DispatcherView
        decreases events.len(),
    {
        if events.len() == 0 {
            self
        } else {
            self.run(events.drop_last()).next(events.last()).0
        }
    }

    /// How many handlers were started over `events`.
    pub open spec fn started(self, events: Seq<DispatchEvent>) -> nat
        decreases events.len(),
    {
        if events.len() == 0 {
            0
        } else {
            let before = self.run(events.drop_last());
            let more: nat = if before.next(events.last()).1 == DispatchAction::Spawn {
                1
            } else {
                0
            };
            self.started(events.drop_last()) + more
        }
    }

    /// How many completions of handlers were taken in over `events`.
    pub open spec fn completed(self, events: Seq<DispatchEvent>) -> nat
        decreases events.len(),
    {
        if events.len() == 0 {
            0
        } else {
            let before = self.run(events.drop_last());
            let more: nat = if events.last() is HandlerDone && before.in_flight > 0
                && before.phase != DispatchPhase::Finished {
                1
            } else {
                0
            };
            self.completed(events.drop_last()) + more
        }
    }
}

/// The decisions of the dispatch loop.
#[derive(Debug)]
pub struct Dispatcher {
    capacity: usize,
    in_flight: usize,
    phase: DispatchPhase,
    stop_requested: bool,
}

impl View for Dispatcher {
    type V = DispatcherView;

    closed spec fn view(&self) -> DispatcherView {
        DispatcherView {
            capacity: self.capacity as nat,
            in_flight: self.in_flight as nat,
            phase: self.phase,
            stop_requested: self.stop_requested,
        }
    }
}

impl Dispatcher {
    #[verifier::type_invariant]
    closed spec fn inv(self) -> bool {
        self@.wf()
    }

    /// A dispatcher that admits at most `capacity` handlers at a time.
    pub fn new(capacity: usize) -> (d: Dispatcher)
        ensures
            d@ == DispatcherView::initial(capacity as nat),
    {
        Dispatcher {
            capacity,
            in_flight: 0,
            phase: DispatchPhase::Accepting,
            stop_requested: false,
        }
    }

    /// Most handlers that may be in flight.
    pub fn capacity(&self) -> (n: usize)
        ensures
            n == self@.capacity,
    {
        self.capacity
    }

    /// Handlers in flight now; never more than the capacity.
    pub fn in_flight(&self) -> (n: usize)
        ensures
            n == self@.in_flight,
            n <= self@.capacity,
            self@.wf(),
    {
        proof {
            use_type_invariant(self);
        }
        self.in_flight
    }

    /// Where the loop stands.
    pub fn phase(&self) -> (p: DispatchPhase)
        ensures
            p == self@.phase,
    {
        self.phase
    }

    /// Whether the caller may pull the next event from the inbound queue.
    pub fn may_pull(&self) -> (b: bool)
        ensures
            b == (self@.phase == DispatchPhase::Accepting),
    {
        self.phase == DispatchPhase::Accepting
    }

    /// Whether the loop has returned.
    pub fn is_finished(&self) -> (b: bool)
        ensures
            b == (self@.phase == DispatchPhase::Finished),
            b ==> self@.in_flight == 0,
    {
        proof {
            use_type_invariant(self);
        }
        self.phase == DispatchPhase::Finished
    }

    /// Takes in `event` and says what to do next.
    pub fn step(&mut self, event: DispatchEvent) -> (action: DispatchAction)
        ensures
            (final(self)@, action) == old(self)@.next(event),
            final(self)@.wf(),
    {
        proof {
            use_type_invariant(&*self);
        }
        let capacity = self.capacity;
        let in_flight = self.in_flight;
        let stop_requested = self.stop_requested;
        match self.phase {
            DispatchPhase::Accepting => match event {
                DispatchEvent::Received => {
                    if in_flight < capacity {
                        *self = Dispatcher {
                            capacity,
                            in_flight: in_flight + 1,
                            phase: DispatchPhase::Accepting,
                            stop_requested,
                        };
                        DispatchAction::Spawn
                    } else {
                        *self = Dispatcher {
                            capacity,
                            in_flight,
                            phase: DispatchPhase::Blocked,
                            stop_requested,
                        };
                        DispatchAction::Hold
                    }
                },
                DispatchEvent::Closed | DispatchEvent::Shutdown => {
                    if in_flight == 0 {
                        *self = Dispatcher {
                            capacity,
                            in_flight,
                            phase: DispatchPhase::Finished,
                            stop_requested,
                        };
                        DispatchAction::Return
                    } else {
                        *self = Dispatcher {
                            capacity,
                            in_flight,
                            phase: DispatchPhase::Draining,
                            stop_requested,
                        };
                        DispatchAction::Drain
                    }
                },
                DispatchEvent::HandlerDone { .. } => {
                    if in_flight > 0 {
                        *self = Dispatcher {
                            capacity,
                            in_flight: in_flight - 1,
                            phase: DispatchPhase::Accepting,
                            stop_requested,
                        };
                        DispatchAction::Continue
                    } else {
                        DispatchAction::Ignored
                    }
                },
                DispatchEvent::SlotRefused => DispatchAction::Ignored,
            },
            DispatchPhase::Blocked => match event {
                DispatchEvent::HandlerDone { .. } => {
                    if in_flight > 0 {
                        self.release_held();
                        DispatchAction::Spawn
                    } else {
                        DispatchAction::Ignored
                    }
                },
                DispatchEvent::Closed | DispatchEvent::Shutdown => {
                    *self = Dispatcher {
                        capacity,
                        in_flight,
                        phase: DispatchPhase::Blocked,
                        stop_requested: true,
                    };
                    DispatchAction::Hold
                },
                DispatchEvent::SlotRefused => {
                    self.release_held();
                    DispatchAction::DropHeld
                },
                DispatchEvent::Received => DispatchAction::Ignored,
            },
            DispatchPhase::Draining => match event {
                DispatchEvent::HandlerDone { .. } => {
                    if in_flight <= 1 {
                        *self = Dispatcher {
                            capacity,
                            in_flight: 0,
                            phase: DispatchPhase::Finished,
                            stop_requested,
                        };
                        DispatchAction::Return
                    } else {
                        *self = Dispatcher {
                            capacity,
                            in_flight: in_flight - 1,
                            phase: DispatchPhase::Draining,
                            stop_requested,
                        };
                        DispatchAction::Drain
                    }
                },
                _ => DispatchAction::Ignored,
            },
            DispatchPhase::Finished => DispatchAction::Ignored,
        }
    }

    /// Leaves the blocked phase once the held event is started or given up.
    fn release_held(&mut self)
        requires
            old(self)@.phase == DispatchPhase::Blocked,
        ensures
            final(self)@ == old(self)@.after_held(old(self)@.in_flight),
    {
        proof {
            use_type_invariant(&*self);
        }
        let capacity = self.capacity;
        let in_flight = self.in_flight;
        if !self.stop_requested {
            *self = Dispatcher {
                capacity,
                in_flight,
                phase: DispatchPhase::Accepting,
                stop_requested: false,
            };
        } else if in_flight == 0 {
            *self = Dispatcher {
                capacity,
                in_flight,
                phase: DispatchPhase::Finished,
                stop_requested: false,
            };
        } else {
            *self = Dispatcher {
                capacity,
                in_flight,
                phase: DispatchPhase::Draining,
                stop_requested: false,
            };
        }
    }
}

/// One step keeps the handlers in flight within the capacity, and keeps the
/// rest of what holds of a reachable state.
pub proof fn lemma_step_keeps_bound(s: DispatcherView, event: DispatchEvent)
    requires
        s.wf(),
    ensures
        s.next(event).0.wf(),
        s.next(event).0.in_flight <= s.next(event).0.capacity,
        s.next(event).0.capacity == s.capacity,
{
}

/// Whatever events arrive, and however many, a dispatcher of capacity `n`
/// never has more than `n` handlers in flight.
pub proof fn lemma_never_over_capacity(n: nat, events: Seq<DispatchEvent>)
    ensures
        DispatcherView::initial(n).run(events).wf(),
        DispatcherView::initial(n).run(events).capacity == n,
        DispatcherView::initial(n).run(events).in_flight <= n,
    decreases events.len(),
{
    if events.len() > 0 {
        lemma_never_over_capacity(n, events.drop_last());
        lemma_step_keeps_bound(DispatcherView::initial(n).run(events.drop_last()), events.last());
    }
}

/// The handlers in flight are those started and not yet completed: no
/// completion is lost. So when the loop has returned, every handler that was
/// started has finished.
pub proof fn lemma_returns_after_all_finish(n: nat, events: Seq<DispatchEvent>)
    ensures
        DispatcherView::initial(n).started(events) == DispatcherView::initial(n).completed(events)
            + DispatcherView::initial(n).run(events).in_flight,
        DispatcherView::initial(n).run(events).phase == DispatchPhase::Finished
            ==> DispatcherView::initial(n).started(events) == DispatcherView::initial(
            n,
        ).completed(events),
    decreases events.len(),
{
    lemma_never_over_capacity(n, events);
    if events.len() > 0 {
        lemma_returns_after_all_finish(n, events.drop_last());
        lemma_never_over_capacity(n, events.drop_last());
    }
}

/// Once shutdown is signalled or the queue is closed, no event that arrives
/// later is admitted: the handlers in flight only become fewer.
pub proof fn lemma_no_admission_after_stop(s: DispatcherView, event: DispatchEvent)
    requires
        s.wf(),
        s.phase == DispatchPhase::Draining || s.phase == DispatchPhase::Finished,
    ensures
        s.next(event).1 != DispatchAction::Spawn,
        s.next(event).0.in_flight <= s.in_flight,
        s.next(event).0.phase == DispatchPhase::Draining || s.next(event).0.phase
            == DispatchPhase::Finished,
{
}

/// An event that was received is never given up for want of a slot: it is
/// started at once or held until a slot is free.
pub proof fn lemma_received_is_kept(s: DispatcherView)
    requires
        s.wf(),
        s.phase == DispatchPhase::Accepting,
    ensures
        s.next(DispatchEvent::Received).1 == DispatchAction::Spawn || s.next(
            DispatchEvent::Received,
        ).1 == DispatchAction::Hold,
        s.next(DispatchEvent::Received).1 == DispatchAction::Spawn <==> s.in_flight < s.capacity,
{
}

/// A handler that fails frees its slot as one that succeeds does, and
/// changes nothing else.
pub proof fn lemma_failure_is_isolated(s: DispatcherView)
    ensures
        s.next(DispatchEvent::HandlerDone { failed: true }) == s.next(
            DispatchEvent::HandlerDone { failed: false },
        ),
{
}

/// Slots are taken in the order of arrival: while an event is held nothing
/// else is pulled, and the next handler that starts is the held event's.
pub proof fn lemma_held_event_is_next(s: DispatcherView, event: DispatchEvent)
    requires
        s.wf(),
        s.phase == DispatchPhase::Blocked,
    ensures
        s.next(DispatchEvent::Received) == (s, DispatchAction::Ignored),
        s.next(event).1 == DispatchAction::Spawn ==> event is HandlerDone && s.next(event).0.phase
            != DispatchPhase::Blocked,
        s.next(event).0.phase == DispatchPhase::Blocked ==> s.next(event).0.in_flight
            == s.in_flight,
{
}

/// `n` handlers that finish, one after the other.
pub open spec fn completions(n: nat) -> Seq<DispatchEvent> {
    Seq::new(n, |i: int| DispatchEvent::HandlerDone { failed: false })
}

/// While the loop drains, each handler that finishes brings the return
/// nearer by one: after `k` of them, so many fewer are in flight.
pub proof fn lemma_drain_counts_down(s: DispatcherView, k: nat)
    requires
        s.wf(),
        s.phase == DispatchPhase::Draining,
        k <= s.in_flight,
    ensures
        s.run(completions(k)).wf(),
        s.run(completions(k)).in_flight == s.in_flight - k,
        s.run(completions(k)).phase == if k == s.in_flight {
            DispatchPhase::Finished
        } else {
            DispatchPhase::Draining
        },
    decreases k,
{
    if k > 0 {
        lemma_drain_counts_down(s, (k - 1) as nat);
        assert(completions(k).drop_last() =~= completions((k - 1) as nat));
    }
}

/// The loop returns as soon as the handlers in flight have finished: no
/// more is needed after shutdown than their completions.
pub proof fn lemma_drain_returns(s: DispatcherView)
    requires
        s.wf(),
        s.phase == DispatchPhase::Draining,
    ensures
        s.run(completions(s.in_flight)).phase == DispatchPhase::Finished,
{
    lemma_drain_counts_down(s, s.in_flight);
}

} // verus!
