//! The sinks: independent readers of the hub, each with one effect.
//!
//! A sink is handed what its reader received, one outcome at a time, acts on
//! it and says how to go on. The reader itself, and the waiting for the next
//! event, belong to the program around the library.

use crate::clients::{Clients, Delivery, Outbound};
use crate::console::{is_console_line, Figures};
use crate::event::{entry, event_text, event_time_text, EventView, SalvageEvent};
use crate::hub::Received;
use crate::json::{text_of, Json, JsonView, Member, MemberView};
use crate::state::{shift_after, LedgerState};
use crate::time::Precision;
use vstd::prelude::*;

verus! {

/// How a sink goes on after an outcome.
#[derive(Clone, Copy, Debug, PartialEq, Eq, Structural)]
pub enum SinkFlow {
    /// Receive again.
    Continue,
    /// The sink lost this many events because it had fallen behind; receive
    /// again.
    Lagged(u64),
    /// The hub is closed: the sink is done.
    Stop,
}

/// How a sink goes on after an outcome, whatever it does with an event.
pub open spec fn flow_after<T>(received: Received<T>) -> SinkFlow {
    match received {
        Received::Event(_) => SinkFlow::Continue,
        Received::Lagged(missed) => SinkFlow::Lagged(missed),
        Received::Closed => SinkFlow::Stop,
        Received::Empty => SinkFlow::Continue,
    }
}

/// Keeps the state of the world up to date: the start of a shift sets the
/// flag, the end of a shift clears it, every other event is passed over.
pub fn state_updater_sink(received: &Received<SalvageEvent>, state: &mut LedgerState) -> (flow:
    SinkFlow)
    ensures
        flow == flow_after(*received),
        final(state)@ == (match *received {
            Received::Event(event) => shift_after(old(state)@, event@),
            _ => old(state)@,
        }),
{
    match received {
        Received::Event(event) => {
            state.apply(event);
            SinkFlow::Continue
        },
        Received::Lagged(missed) => SinkFlow::Lagged(*missed),
        Received::Closed => SinkFlow::Stop,
        Received::Empty => SinkFlow::Continue,
    }
}

/// Whether the console shows an event: a time tick only where ticks are
/// wanted, and no event whose instant cannot be written.
pub open spec fn is_shown(event: EventView, log_time_tick: bool) -> bool {
    (log_time_tick || !(event is TimeTickEvent)) && event_time_text(event, Precision::Seconds)
        is Some
}

/// What the console sink has for the console after an outcome.
#[derive(Clone, Debug, PartialEq, Eq)]
pub struct ConsoleStep {
    /// The line to print, if the outcome was an event that is shown.
    pub line: Option<String>,
    /// How the sink goes on.
    pub flow: SinkFlow,
}

/// Renders an event for the console, with the quantities as they are to be
/// shown. Time ticks are left out unless `log_time_tick` asks for them. The
/// outcome word of a salvage entry comes plain where colouring is off and
/// painted where it is on.
pub fn console_sink(received: &Received<SalvageEvent>, log_time_tick: bool, shown: &Figures) -> (step:
    ConsoleStep)
    ensures
        step.flow == flow_after(*received),
        match *received {
            Received::Event(event) => if is_shown(event@, log_time_tick) {
                let time = event_time_text(event@, Precision::Seconds)->0;
                step.line matches Some(text) && is_console_line(text@, event@, time, shown@)
            } else {
                step.line is None
            },
            _ => step.line is None,
        },
{
    match received {
        Received::Event(event) => {
            let wanted = match event {
                SalvageEvent::TimeTickEvent { .. } => log_time_tick,
                _ => true,
            };
            let line = if wanted {
                event.console_line(shown)
            } else {
                None
            };
            ConsoleStep { line, flow: SinkFlow::Continue }
        },
        Received::Lagged(missed) => ConsoleStep { line: None, flow: SinkFlow::Lagged(*missed) },
        Received::Closed => ConsoleStep { line: None, flow: SinkFlow::Stop },
        Received::Empty => ConsoleStep { line: None, flow: SinkFlow::Continue },
    }
}

/// The members of the document that subscribers get in place of an event that
/// cannot be written.
pub open spec fn error_members() -> Seq<MemberView> {
    seq![
        entry("type"@, JsonView::Text("error"@)),
        entry("message"@, JsonView::Text("could not serialize salvage event :("@)),
    ]
}

/// The payload that subscribers get for an event: the event's frame, or the
/// error document where the event cannot be written.
pub open spec fn payload_text(event: EventView) -> Seq<char> {
    match event_text(event) {
        Some(text) => text,
        None => text_of(JsonView::Object(error_members())),
    }
}

/// The payload that subscribers get for an event.
pub fn payload_for(event: &SalvageEvent) -> (payload: String)
    ensures
        payload@ == payload_text(event@),
{
    match event.encode() {
        Some(text) => text,
        None => {
            let mut members: Vec<Member> = Vec::new();
            members.push(
                Member { key: String::from_str("type"), value: Json::Text(String::from_str("error")) },
            );
            members.push(
                Member {
                    key: String::from_str("message"),
                    value: Json::Text(String::from_str("could not serialize salvage event :(")),
                },
            );
            let json = Json::object(members);
            assert(json@->Object_0 =~= error_members());
            json.to_text()
        },
    }
}

/// What the re-broadcast sink did with an outcome.
#[derive(Clone, Debug, PartialEq, Eq)]
pub struct RelayStep {
    /// The payload handed to the subscribers, if the outcome was an event.
    pub payload: Option<String>,
    /// The attempts to hand the payload over: one for every subscriber
    /// registered at that moment; none without a payload.
    pub deliveries: Vec<Delivery>,
    /// How the sink goes on.
    pub flow: SinkFlow,
}

/// Tells the subscribers about an event: the event is written as a text
/// frame and handed once to every subscriber registered at that moment. An
/// event that cannot be written is replaced by an error document, so that
/// one bad payload never stops the sink. A subscriber that does not take the
/// payload is passed over; the others still get theirs.
pub fn websocket_client_updater_sink(received: &Received<SalvageEvent>, clients: &Clients) -> (step:
    RelayStep)
    ensures
        step.flow == flow_after(*received),
        match *received {
            Received::Event(event) => {
                &&& step.payload matches Some(payload) && payload@ == payload_text(event@)
                &&& clients@.is_round(step.deliveries@)
            },
            _ => step.payload is None && step.deliveries@.len() == 0,
        },
{
    match received {
        Received::Event(event) => {
            let payload = payload_for(event);
            let deliveries = clients.broadcast(&Outbound::Text(payload.clone()));
            RelayStep { payload: Some(payload), deliveries, flow: SinkFlow::Continue }
        },
        Received::Lagged(missed) => RelayStep {
            payload: None,
            deliveries: Vec::new(),
            flow: SinkFlow::Lagged(*missed),
        },
        Received::Closed => RelayStep { payload: None, deliveries: Vec::new(), flow: SinkFlow::Stop },
        Received::Empty => RelayStep {
            payload: None,
            deliveries: Vec::new(),
            flow: SinkFlow::Continue,
        },
    }
}

} // verus!
