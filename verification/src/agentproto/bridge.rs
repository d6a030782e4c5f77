//! The bridge of agent events onto the bus. The bus is a best-effort hint, never
//! the source of truth, so the bridge fails only where the bus itself does.
use crate::agentproto::event::EventView;
use crate::agentproto::event::event_message;
use crate::agentproto::event::AgentEvent;
use crate::bus::channel::BusError;
use crate::bus::inproc::BusView;
use crate::bus::inproc::InProcBus;
use crate::bus::inproc::a_publish_reaches_exactly_the_open_listeners;
use crate::bus::message::Message;
use crate::bus::topic::covering;
use crate::text::labelled;
use vstd::prelude::*;
use vstd::string::to_string_from_display_ensures;

verus! {

/// A failure publishing an agent event.
#[derive(Debug)]
#[non_exhaustive]
pub enum BridgeError {
    /// The event could not be serialized.
    Serialize(serde_json::Error),
    /// The bus failed.
    Bus(BusError),
}

impl BridgeError {
    /// Whether a text is what the failure says of itself.
    pub open spec fn is_shown_as(self, text: Seq<char>) -> bool {
        match self {
            BridgeError::Serialize(e) => exists|inner: String| #[trigger]
                to_string_from_display_ensures(&e, inner) && text
                    == "serialize agent event: "@ + inner@,
            BridgeError::Bus(e) => text == "bus: "@ + e.message(),
        }
    }

    /// What the failure says of itself.
    pub fn to_string(&self) -> (s: String)
        ensures
            self.is_shown_as(s@),
    {
        match self {
            BridgeError::Serialize(e) => {
                let inner = e.to_string();
                labelled("serialize agent event: ", inner.as_str())
            },
            BridgeError::Bus(e) => labelled("bus: ", e.to_string().as_str()),
        }
    }
}

/// The bus message of an event.
///
/// # Errors
/// [`BridgeError::Serialize`] if the event cannot be rendered, which is not
/// expected.
pub fn to_bus(event: &AgentEvent) -> (r: Result<Message, BridgeError>)
    ensures
        r is Ok,
        r->Ok_0@ == event_message(event@),
{
    match event.to_message() {
        Ok(message) => Ok(message),
        Err(e) => Err(BridgeError::Serialize(e)),
    }
}

/// A bus after an event was published on it.
pub open spec fn announced(bus: BusView, event: EventView) -> BusView {
    bus.published(event_message(event))
}

/// Publishes an event on its `agent.<subject>` topic of an in-process bus.
///
/// # Errors
/// [`BridgeError::Serialize`] if the event cannot be rendered, which is not
/// expected.
pub fn publish(bus: &mut InProcBus, event: &AgentEvent) -> (r: Result<(), BridgeError>)
    ensures
        r is Ok,
        final(bus)@ == announced(old(bus)@, event@),
        final(bus)@.wf(),
{
    match to_bus(event) {
        Ok(message) => match bus.publish(message) {
            Ok(_) => Ok(()),
            Err(e) => Err(BridgeError::Bus(e)),
        },
        Err(e) => Err(e),
    }
}

/// An event reaches whoever listens to it, once: an open subscription that covers the
/// event's subject has exactly that one message more, last in its queue, under the agent's
/// family and with a key; every other open one is as it was.
pub proof fn an_event_reaches_its_listeners(bus: BusView, event: EventView, id: u64)
    requires
        bus.wf(),
        bus.listener(id) is Some,
        (bus.listener(id)->0).open,
    ensures
        ({
            let was = (bus.listener(id)->0).queue;
            let now = (announced(bus, event).listener(id)->0).queue;
            let subject = "agent."@ + event.kind.leaf();
            &&& announced(bus, event).listener(id) is Some
            &&& covering((bus.listener(id)->0).topic, subject) ==> now.len() == was.len() + 1
                && now.drop_last() == was && now.last().topic == subject && now.last().dedup_key
                is Some
            &&& !covering((bus.listener(id)->0).topic, subject) ==> now == was
        }),
{
    a_publish_reaches_exactly_the_open_listeners(bus, event_message(event), id);
    let was = (bus.listener(id)->0).queue;
    assert(was.push(event_message(event)).drop_last() =~= was);
}

/// The bridge never refuses an event, and publishes the very message that the event makes
/// of itself.
pub proof fn the_bridge_publishes_the_events_own_message(
    event: AgentEvent,
    r: Result<Message, BridgeError>,
    own: Result<Message, serde_json::Error>,
)
    requires
        call_ensures(to_bus, (&event,), r),
        call_ensures(AgentEvent::to_message, (&event,), own),
    ensures
        r is Ok,
        own is Ok,
        (r->Ok_0)@ == (own->Ok_0)@,
{
}

} // verus!
