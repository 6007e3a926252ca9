//! Handing domain events to the handlers that subscribed to them.
use vstd::prelude::*;
use crate::models::domain_event::DomainEvent;
use crate::shared::error::EventError;

verus! {

/// Something that reacts to domain events. Each implementation decides
/// what it does with an event; nothing is assumed of that here.
pub trait DomainEventHandler {
    /// The name the handler is known by.
    fn name(&self) -> &'static str;

    fn handle(&mut self, event: &DomainEvent) -> Result<(), EventError>;
}

/// Something that events can be published to.
pub trait EventPublisher {
    fn publish(&mut self, event: DomainEvent);

    /// Publishes each event in turn.
    fn publish_all(&mut self, events: &[DomainEvent]) {
        let mut i: usize = 0;
        while i < events.len()
            invariant
                i <= events@.len(),
            decreases events@.len() - i,
        {
            self.publish(events[i].clone());
            i = i + 1;
        }
    }
}

/// The errors among handler outcomes, in order.
pub open spec fn errors_in(outcomes: Seq<Result<(), EventError>>) -> Seq<EventError>
    decreases outcomes.len(),
{
    if outcomes.len() == 0 {
        Seq::<EventError>::empty()
    } else {
        let rest = errors_in(outcomes.drop_last());
        match outcomes.last() {
            Ok(_) => rest,
            Err(e) => rest.push(e),
        }
    }
}

/// The errors among handler outcomes, in order.
pub fn collect_errors(outcomes: Vec<Result<(), EventError>>) -> (r: Vec<EventError>)
    ensures
        r@ == errors_in(outcomes@),
{
    let mut errors: Vec<EventError> = Vec::new();
    let mut i: usize = 0;
    while i < outcomes.len()
        invariant
            i <= outcomes@.len(),
            errors@ == errors_in(outcomes@.take(i as int)),
        decreases outcomes@.len() - i,
    {
        proof {
            assert(outcomes@.take(i + 1).drop_last() =~= outcomes@.take(i as int));
        }
        match &outcomes[i] {
            Ok(_) => {},
            Err(e) => errors.push(e.clone()),
        }
        i = i + 1;
    }
    proof {
        assert(outcomes@.take(i as int) =~= outcomes@);
    }
    errors
}

/// One subscribed handler.
struct Subscriber {
    handler: Box<dyn DomainEventHandler>,
}

impl Subscriber {
    fn new<H: DomainEventHandler + 'static>(handler: H) -> Subscriber {
        Subscriber { handler: Box::new(handler) }
    }
}

/// Handlers, each given every event published.
pub struct EventBus {
    handlers: Vec<Subscriber>,
}

impl EventBus {
    /// How many handlers subscribed.
    pub closed spec fn handler_count(&self) -> nat {
        self.handlers@.len()
    }

    pub fn new() -> (r: Self)
        ensures
            r.handler_count() == 0,
    {
        EventBus { handlers: Vec::new() }
    }

    /// The bus with one more handler, given events after those before it.
    pub fn subscribe<H: DomainEventHandler + 'static>(self, handler: H) -> (r: Self)
        ensures
            r.handler_count() == self.handler_count() + 1,
    {
        let mut handlers = self.handlers;
        handlers.push(Subscriber::new(handler));
        EventBus { handlers }
    }

    /// Gives the event to every handler, in the order they subscribed, and
    /// returns the errors they reported, in that order.
    pub fn publish(&mut self, event: &DomainEvent) -> (r: Vec<EventError>)
        ensures
            final(self).handler_count() == old(self).handler_count(),
            exists|outcomes: Seq<Result<(), EventError>>|
                outcomes.len() == old(self).handler_count() && r@ == errors_in(outcomes),
    {
        let mut outcomes: Vec<Result<(), EventError>> = Vec::new();
        let n = self.handlers.len();
        let mut i: usize = 0;
        while i < n
            invariant
                i <= n,
                n == self.handlers@.len(),
                outcomes@.len() == i,
            decreases n - i,
        {
            let outcome = self.handlers[i].handler.handle(event);
            outcomes.push(outcome);
            i = i + 1;
        }
        let ghost all = outcomes@;
        let errors = collect_errors(outcomes);
        proof {
            assert(all.len() == old(self).handler_count() && errors@ == errors_in(all));
        }
        errors
    }

    /// Publishes each event in turn and returns all errors, in order: those
    /// of the first event first.
    pub fn publish_all(&mut self, events: &[DomainEvent]) -> (r: Vec<EventError>)
        ensures
            final(self).handler_count() == old(self).handler_count(),
            exists|rounds: Seq<Seq<Result<(), EventError>>>|
                rounds.len() == events@.len() && (forall|i: int|
                    0 <= i < rounds.len() ==> (#[trigger] rounds[i]).len()
                        == old(self).handler_count()) && r@ == errors_in_rounds(rounds),
    {
        let mut errors: Vec<EventError> = Vec::new();
        let ghost mut rounds: Seq<Seq<Result<(), EventError>>> = Seq::empty();
        let mut i: usize = 0;
        while i < events.len()
            invariant
                i <= events@.len(),
                self.handler_count() == old(self).handler_count(),
                rounds.len() == i,
                forall|k: int|
                    0 <= k < rounds.len() ==> (#[trigger] rounds[k]).len()
                        == old(self).handler_count(),
                errors@ == errors_in_rounds(rounds),
            decreases events@.len() - i,
        {
            let mut found = self.publish(&events[i]);
            let ghost outcomes = choose|outcomes: Seq<Result<(), EventError>>|
                outcomes.len() == old(self).handler_count() && found@ == errors_in(outcomes);
            let ghost before = errors@;
            errors.append(&mut found);
            proof {
                let next = rounds.push(outcomes);
                assert(next.drop_last() =~= rounds);
                rounds = next;
            }
            i = i + 1;
        }
        errors
    }
}

/// The errors of several rounds of handler outcomes, round after round.
pub open spec fn errors_in_rounds(rounds: Seq<Seq<Result<(), EventError>>>) -> Seq<EventError>
    decreases rounds.len(),
{
    if rounds.len() == 0 {
        Seq::<EventError>::empty()
    } else {
        errors_in_rounds(rounds.drop_last()) + errors_in(rounds.last())
    }
}

impl Default for EventBus {
    fn default() -> (r: Self)
        ensures
            r.handler_count() == 0,
    {
        EventBus::new()
    }
}

} // verus!
