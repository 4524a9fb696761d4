//! The upstream side: what the relay does with each frame it is sent.
//!
//! The ingestor goes through four phases. It starts `Connecting`; once the
//! connection stands it is `Connected` and takes frames; a close frame makes
//! it `Closing`, in which it has told the subscribers and the serving side is
//! to be shut down; after that it is `Terminated` and the hub is closed.

use crate::clients::{Clients, Delivery, Outbound};
use crate::event::{frame_event, DecodeError, SalvageEvent};
use crate::hub::{Hub, PublishError};
use crate::json::{natural_text, write_natural};
use vstd::prelude::*;

verus! {

/// The close code that subscribers are sent when the upstream closes: the
/// code of a normal closure.
pub const CLOSE_CODE: u16 = 1000;

/// One frame from the upstream connection.
#[derive(Clone, Debug, PartialEq, Eq)]
pub enum Frame {
    Text(String),
    Binary(Vec<u8>),
    Ping(Vec<u8>),
    Pong(Vec<u8>),
    Close,
}

/// Where the ingestor stands.
#[derive(Clone, Copy, Debug, PartialEq, Eq, Structural)]
pub enum Phase {
    Connecting,
    Connected,
    Closing,
    Terminated,
}

/// What a frame led to.
#[derive(Clone, Copy, Debug, PartialEq, Eq, Structural)]
pub enum Effect {
    /// The frame carried an event, which the hub took.
    Published,
    /// The frame's text was no event; nothing was published.
    Dropped(DecodeError),
    /// The frame carried an event, which the hub did not take.
    Refused(PublishError),
    /// The frame was passed over.
    Ignored,
    /// The upstream closed: the subscribers were told and the serving side is
    /// to be shut down.
    Shutdown,
}

/// What a frame led to.
#[derive(Clone, Debug, PartialEq, Eq)]
pub struct FrameOutcome {
    pub effect: Effect,
    /// The notice sent to the subscribers, if the frame was a close frame.
    pub notice: Option<Outbound>,
    /// The attempts to send the notice: one for every subscriber registered
    /// at that moment; none without a notice.
    pub notices: Vec<Delivery>,
}

/// Whether a message is the notice that subscribers are sent when the
/// upstream closes.
pub open spec fn is_close_notice(message: Outbound) -> bool {
    message matches Outbound::Close { code, reason } && code == CLOSE_CODE && reason@
        == close_reason()
}

/// The address of the upstream source on this machine.
pub open spec fn upstream_text(port: u16) -> Seq<char> {
    "ws://localhost:"@ + natural_text(port as nat) + "/racers-ledger/"@
}

/// The address of the upstream source on this machine, for the given port.
pub fn upstream_address(port: u16) -> (address: String)
    ensures
        address@ == upstream_text(port),
{
    let mut address = String::from_str("ws://localhost:");
    write_natural(port as u64, &mut address);
    address.append("/racers-ledger/");
    assert(address@ =~= upstream_text(port));
    address
}

/// The reason that subscribers are given when the upstream closes.
pub open spec fn close_reason() -> Seq<char> {
    "game closed! (probably)"@
}

/// The notice that subscribers are sent when the upstream closes.
pub fn close_notice() -> (notice: Outbound)
    ensures
        is_close_notice(notice),
{
    Outbound::Close { code: CLOSE_CODE, reason: String::from_str("game closed! (probably)") }
}

/// The upstream side of the relay.
pub struct Ingestor {
    phase: Phase,
}

impl View for Ingestor {
    type V = Phase;

    closed spec fn view(&self) -> Phase {
        self.phase
    }
}

impl Ingestor {
    /// An ingestor that has yet to connect.
    pub fn new() -> (ingestor: Ingestor)
        ensures
            ingestor@ == Phase::Connecting,
    {
        Ingestor { phase: Phase::Connecting }
    }

    /// Where the ingestor stands.
    pub fn phase(&self) -> (phase: Phase)
        ensures
            phase == self@,
    {
        self.phase
    }

    /// The connection to the upstream stands: a connecting ingestor is
    /// connected from now on. In any other phase nothing changes.
    pub fn connected(&mut self)
        ensures
            final(self)@ == (if old(self)@ == Phase::Connecting {
                Phase::Connected
            } else {
                old(self)@
            }),
    {
        match self.phase {
            Phase::Connecting => {
                self.phase = Phase::Connected;
            },
            _ => {},
        }
    }

    /// Takes one frame. Only a connected ingestor acts on frames.
    ///
    /// A text frame is read as an event and handed to the hub; a text that
    /// is no event is dropped. Binary, ping and pong frames are passed over.
    /// A close frame sends every registered subscriber the close notice,
    /// once, and makes the ingestor `Closing`.
    pub fn on_frame(&mut self, frame: &Frame, hub: &Hub, clients: &Clients) -> (outcome:
        FrameOutcome)
        ensures
            outcome.notice is None ==> outcome.notices@.len() == 0,
            old(self)@ != Phase::Connected ==> outcome.effect == Effect::Ignored && final(self)@
                == old(self)@ && outcome.notice is None,
            old(self)@ == Phase::Connected ==> match *frame {
                Frame::Text(text) => {
                    &&& final(self)@ == Phase::Connected
                    &&& outcome.notice is None
                    &&& match frame_event(text@) {
                        Ok(event) => if hub.closed() {
                            outcome.effect == Effect::Refused(PublishError::Closed)
                        } else {
                            outcome.effect == Effect::Published || outcome.effect
                                == Effect::Refused(PublishError::NoReaders)
                        },
                        Err(error) => outcome.effect == Effect::Dropped(error),
                    }
                },
                Frame::Close => {
                    &&& outcome.effect == Effect::Shutdown
                    &&& final(self)@ == Phase::Closing
                    &&& outcome.notice matches Some(notice) && is_close_notice(notice)
                    &&& clients@.is_round(outcome.notices@)
                },
                _ => outcome.effect == Effect::Ignored && final(self)@ == Phase::Connected
                    && outcome.notice is None,
            },
    {
        match self.phase {
            Phase::Connected => {},
            _ => {
                return FrameOutcome { effect: Effect::Ignored, notice: None, notices: Vec::new() };
            },
        }
        match frame {
            Frame::Text(text) => {
                let effect = match SalvageEvent::decode(text.as_str()) {
                    Ok(event) => effect_of(hub.publish(event)),
                    Err(error) => Effect::Dropped(error),
                };
                FrameOutcome { effect, notice: None, notices: Vec::new() }
            },
            Frame::Close => {
                let notice = close_notice();
                let notices = clients.broadcast(&notice);
                self.phase = Phase::Closing;
                FrameOutcome { effect: Effect::Shutdown, notice: Some(notice), notices }
            },
            _ => FrameOutcome { effect: Effect::Ignored, notice: None, notices: Vec::new() },
        }
    }

    /// The serving side was told to shut down: a closing ingestor closes the
    /// hub and is terminated. In any other phase nothing changes.
    pub fn terminate(&mut self, hub: &mut Hub)
        ensures
            old(self)@ == Phase::Closing ==> final(self)@ == Phase::Terminated && final(hub).closed(),
            old(self)@ != Phase::Closing ==> final(self)@ == old(self)@ && *final(hub) == *old(
                hub,
            ),
    {
        match self.phase {
            Phase::Closing => {
                hub.close();
                self.phase = Phase::Terminated;
            },
            _ => {},
        }
    }
}

/// What a frame with an event led to, given what the hub said to the event.
pub fn effect_of(published: Result<(), PublishError>) -> (effect: Effect)
    ensures
        effect == (match published {
            Ok(_) => Effect::Published,
            Err(error) => Effect::Refused(error),
        }),
{
    match published {
        Ok(_) => Effect::Published,
        Err(error) => Effect::Refused(error),
    }
}

} // verus!
