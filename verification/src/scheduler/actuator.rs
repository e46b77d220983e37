//! The actuator: the one consumer of the trigger queue.
//!
//! For each directive that a fired job put on the queue, the actuator looks
//! up the user it is meant for and hands both to the agent. It takes the
//! next directive only when the agent is done with the one before.
//! [`Actuator`] holds these decisions; its caller owns the queue, the user
//! directory and the agent.

use crate::agent::AgentTask;
use crate::agent::AgentTaskView;
use crate::db::model::User;
use crate::db::model::UserView;
use vstd::prelude::*;
use vstd::string::*;

verus! {

/// Where the actuator's loop stands.
#[derive(Debug, Clone, Copy, PartialEq, Eq, Structural)]
pub enum ActuatorPhase {
    /// Waiting for a directive on the queue.
    Idle,
    /// A directive is taken; its user is being looked up.
    Resolving,
    /// The agent works on a directive.
    Invoking,
    /// The queue was closed: the loop has ended.
    Stopped,
}

/// What the caller observed.
#[derive(Debug, Clone)]
pub enum ActuatorEvent {
    /// A directive came off the queue.
    Trigger(AgentTask),
    /// The queue was closed.
    Closed,
    /// The lookup found the user.
    UserFound(User),
    /// The lookup found no such user.
    UserMissing,
    /// The lookup itself failed.
    LookupFailed,
    /// The agent is done, with or without an error.
    DealDone { failed: bool },
}

/// What the caller has to do next.
#[derive(Debug, Clone)]
pub enum ActuatorAction {
    /// Wait for the next directive.
    Receive,
    /// Look up the user `user_id`.
    Resolve { user_id: i64 },
    /// Hand `content` to the agent, on behalf of `user`.
    Invoke { user: User, content: String },
    /// Leave the loop.
    Stop,
    /// The event does not fit the phase and changed nothing.
    Ignored,
}

/// An [`ActuatorEvent`] as mathematical values.
pub enum ActuatorEventView {
    Trigger(AgentTaskView),
    Closed,
    UserFound(UserView),
    UserMissing,
    LookupFailed,
    DealDone { failed: bool },
}

/// An [`ActuatorAction`] as mathematical values.
pub enum ActuatorActionView {
    Receive,
    Resolve { user_id: i64 },
    Invoke { user: UserView, content: Seq<char> },
    Stop,
    Ignored,
}

impl View for ActuatorEvent {
    type V = ActuatorEventView;

    open spec fn view(&self) -> ActuatorEventView {
        match *self {
            ActuatorEvent::Trigger(task) => ActuatorEventView::Trigger(task@),
            ActuatorEvent::Closed => ActuatorEventView::Closed,
            ActuatorEvent::UserFound(user) => ActuatorEventView::UserFound(user@),
            ActuatorEvent::UserMissing => ActuatorEventView::UserMissing,
            ActuatorEvent::LookupFailed => ActuatorEventView::LookupFailed,
            ActuatorEvent::DealDone { failed } => ActuatorEventView::DealDone { failed },
        }
    }
}

impl View for ActuatorAction {
    type V = ActuatorActionView;

    open spec fn view(&self) -> ActuatorActionView {
        match *self {
            ActuatorAction::Receive => ActuatorActionView::Receive,
            ActuatorAction::Resolve { user_id } => ActuatorActionView::Resolve { user_id },
            ActuatorAction::Invoke { user, content } => ActuatorActionView::Invoke {
                user: user@,
                content: content@,
            },
            ActuatorAction::Stop => ActuatorActionView::Stop,
            ActuatorAction::Ignored => ActuatorActionView::Ignored,
        }
    }
}

/// The actuator as mathematical values.
pub struct ActuatorView {
    /// How many directives the trigger queue holds at most.
    pub channel_capacity: nat,
    pub phase: ActuatorPhase,
    /// The directive whose user is being looked up.
    pub pending: Option<AgentTaskView>,
}

impl ActuatorView {
    /// The state before any event.
    pub open spec fn initial(channel_capacity: nat) -> ActuatorView {
        ActuatorView { channel_capacity, phase: ActuatorPhase::Idle, pending: None }
    }

    /// What holds of every state that the actuator reaches.
    pub open spec fn wf(self) -> bool {
        self.pending is Some <==> self.phase == ActuatorPhase::Resolving
    }

    /// How many calls of the agent are under way: one or none.
    pub open spec fn deals_in_flight(self) -> nat {
        if self.phase == ActuatorPhase::Invoking {
            1
        } else {
            0
        }
    }

    /// The state after `event`, and what the caller does then.
    pub open spec fn next(self, event: ActuatorEventView) -> (ActuatorView, ActuatorActionView) {
        match self.phase {
            ActuatorPhase::Idle => match event {
                ActuatorEventView::Trigger(task) => (
                    ActuatorView { phase: ActuatorPhase::Resolving, pending: Some(task), ..self },
                    ActuatorActionView::Resolve { user_id: task.target_user_id },
                ),
                ActuatorEventView::Closed => (
                    ActuatorView { phase: ActuatorPhase::Stopped, ..self },
                    ActuatorActionView::Stop,
                ),
                _ => (self, ActuatorActionView::Ignored),
            },
            ActuatorPhase::Resolving => match event {
                ActuatorEventView::UserFound(user) => match self.pending {
                    Some(task) => (
                        ActuatorView { phase: ActuatorPhase::Invoking, pending: None, ..self },
                        ActuatorActionView::Invoke { user, content: task.content },
                    ),
                    None => (self, ActuatorActionView::Ignored),
                },
                ActuatorEventView::UserMissing | ActuatorEventView::LookupFailed => (
                    ActuatorView { phase: ActuatorPhase::Idle, pending: None, ..self },
                    ActuatorActionView::Receive,
                ),
                _ => (self, ActuatorActionView::Ignored),
            },
            ActuatorPhase::Invoking => match event {
                ActuatorEventView::DealDone { .. } => (
                    ActuatorView { phase: ActuatorPhase::Idle, ..self },
                    ActuatorActionView::Receive,
                ),
                _ => (self, ActuatorActionView::Ignored),
            },
            ActuatorPhase::Stopped => (self, ActuatorActionView::Ignored),
        }
    }

    /// The state after all of `events`, taken in order.
    pub open spec fn run(self, events: Seq<ActuatorEventView>) -> ActuatorView
        decreases events.len(),
    {
        if events.len() == 0 {
            self
        } else {
            self.run(events.drop_last()).next(events.last()).0
        }
    }

    /// How many calls of the agent were begun over `events`.
    pub open spec fn invoked(self, events: Seq<ActuatorEventView>) -> nat
        decreases events.len(),
    {
        if events.len() == 0 {
            0
        } else {
            let before = self.run(events.drop_last());
            let more: nat = if before.next(events.last()).1 is Invoke {
                1
            } else {
                0
            };
            self.invoked(events.drop_last()) + more
        }
    }

    /// How many calls of the agent were seen to end over `events`.
    pub open spec fn finished(self, events: Seq<ActuatorEventView>) -> nat
        decreases events.len(),
    {
        if events.len() == 0 {
            0
        } else {
            let before = self.run(events.drop_last());
            let more: nat = if events.last() is DealDone && before.phase
                == ActuatorPhase::Invoking {
                1
            } else {
                0
            };
            self.finished(events.drop_last()) + more
        }
    }
}

/// The decisions of the actuator's loop.
#[derive(Debug)]
pub struct Actuator {
    channel_capacity: usize,
    phase: ActuatorPhase,
    pending: Option<AgentTask>,
}

impl View for Actuator {
    type V = ActuatorView;

    closed spec fn view(&self) -> ActuatorView {
        ActuatorView {
            channel_capacity: self.channel_capacity as nat,
            phase: self.phase,
            pending: match self.pending {
                Some(task) => Some(task@),
                None => None,
            },
        }
    }
}

impl Actuator {
    #[verifier::type_invariant]
    closed spec fn inv(self) -> bool {
        self@.wf()
    }

    /// An actuator for a trigger queue of `channel_capacity` places.
    pub fn new(channel_capacity: usize) -> (a: Actuator)
        ensures
            a@ == ActuatorView::initial(channel_capacity as nat),
    {
        Actuator { channel_capacity, phase: ActuatorPhase::Idle, pending: None }
    }

    /// How many directives the trigger queue holds at most.
    pub fn channel_capacity(&self) -> (n: usize)
        ensures
            n == self@.channel_capacity,
    {
        self.channel_capacity
    }

    /// Where the loop stands.
    pub fn phase(&self) -> (p: ActuatorPhase)
        ensures
            p == self@.phase,
            self@.wf(),
    {
        proof {
            use_type_invariant(self);
        }
        self.phase
    }

    /// Whether the agent works on a directive.
    pub fn is_invoking(&self) -> (b: bool)
        ensures
            b == (self@.deals_in_flight() == 1),
            self@.deals_in_flight() <= 1,
    {
        self.phase == ActuatorPhase::Invoking
    }

    /// Takes in `event` and says what to do next.
    pub fn step(&mut self, event: ActuatorEvent) -> (action: ActuatorAction)
        ensures
            (final(self)@, action@) == old(self)@.next(event@),
            final(self)@.wf(),
    {
        proof {
            use_type_invariant(&*self);
        }
        let channel_capacity = self.channel_capacity;
        match self.phase {
            ActuatorPhase::Idle => match event {
                ActuatorEvent::Trigger(task) => {
                    let user_id = task.target_user_id;
                    *self = Actuator {
                        channel_capacity,
                        phase: ActuatorPhase::Resolving,
                        pending: Some(task),
                    };
                    ActuatorAction::Resolve { user_id }
                },
                ActuatorEvent::Closed => {
                    *self = Actuator {
                        channel_capacity,
                        phase: ActuatorPhase::Stopped,
                        pending: None,
                    };
                    ActuatorAction::Stop
                },
                _ => ActuatorAction::Ignored,
            },
            ActuatorPhase::Resolving => match event {
                ActuatorEvent::UserFound(user) => {
                    let mut before = Actuator {
                        channel_capacity,
                        phase: ActuatorPhase::Invoking,
                        pending: None,
                    };
                    core::mem::swap(self, &mut before);
                    match before.pending {
                        Some(task) => ActuatorAction::Invoke { user, content: task.content },
                        None => {
                            proof {
                                use_type_invariant(&before);
                            }
                            ActuatorAction::Ignored
                        },
                    }
                },
                ActuatorEvent::UserMissing | ActuatorEvent::LookupFailed => {
                    *self = Actuator {
                        channel_capacity,
                        phase: ActuatorPhase::Idle,
                        pending: None,
                    };
                    ActuatorAction::Receive
                },
                _ => ActuatorAction::Ignored,
            },
            ActuatorPhase::Invoking => match event {
                ActuatorEvent::DealDone { .. } => {
                    *self = Actuator {
                        channel_capacity,
                        phase: ActuatorPhase::Idle,
                        pending: None,
                    };
                    ActuatorAction::Receive
                },
                _ => ActuatorAction::Ignored,
            },
            ActuatorPhase::Stopped => ActuatorAction::Ignored,
        }
    }
}

/// A call of the agent begins only when none is under way, and a directive
/// is taken from the queue only then too.
pub proof fn lemma_deal_starts_when_none_runs(s: ActuatorView, event: ActuatorEventView)
    requires
        s.wf(),
    ensures
        s.next(event).0.wf(),
        s.next(event).1 is Invoke ==> s.deals_in_flight() == 0,
        s.next(event).1 is Resolve ==> s.deals_in_flight() == 0,
        s.deals_in_flight() == 1 && !(event is DealDone) ==> s.next(event) == (
            s,
            ActuatorActionView::Ignored,
        ),
{
}

/// Calls of the agent never overlap: whatever events arrive, the calls
/// begun are the calls ended and, at most, one more.
pub proof fn lemma_deals_are_serialised(capacity: nat, events: Seq<ActuatorEventView>)
    ensures
        ActuatorView::initial(capacity).run(events).wf(),
        ActuatorView::initial(capacity).invoked(events) == ActuatorView::initial(capacity).finished(
            events,
        ) + ActuatorView::initial(capacity).run(events).deals_in_flight(),
        ActuatorView::initial(capacity).run(events).deals_in_flight() <= 1,
    decreases events.len(),
{
    if events.len() > 0 {
        lemma_deals_are_serialised(capacity, events.drop_last());
    }
}

/// A directive whose user is missing, or cannot be looked up, is given up:
/// the actuator waits for the next one and holds nothing back.
pub proof fn lemma_unresolved_directive_is_dropped(s: ActuatorView, failed_lookup: bool)
    requires
        s.wf(),
        s.phase == ActuatorPhase::Resolving,
    ensures
        ({
            let event = if failed_lookup {
                ActuatorEventView::LookupFailed
            } else {
                ActuatorEventView::UserMissing
            };
            &&& s.next(event).1 == ActuatorActionView::Receive
            &&& s.next(event).0 == ActuatorView::initial(s.channel_capacity)
        }),
{
}

/// A call of the agent that fails ends as one that succeeds: the actuator
/// goes on with the next directive.
pub proof fn lemma_agent_failure_is_isolated(s: ActuatorView)
    ensures
        s.next(ActuatorEventView::DealDone { failed: true }) == s.next(
            ActuatorEventView::DealDone { failed: false },
        ),
{
}

} // verus!
