//! A relay for game-telemetry events: one upstream source, any number of
//! downstream subscribers, and a small view of the current world state.
//!
//! Frames from the upstream are read as events ([`event`]) and published to
//! the hub ([`hub`]) by the ingestor ([`ingest`]). Three sinks ([`sinks`])
//! read the hub independently: one renders the events for the console
//! ([`console`]), one keeps the state of the world ([`state`]), one hands
//! every event to the registered subscribers ([`clients`]).
//!
//! Nothing in this library waits or performs input or output. A program
//! around it owns the connections, awaits what each reader receives next,
//! renders the floating-point quantities for the console, and prints what
//! the console sink hands back.

pub mod clients;
pub mod clients_laws;
pub mod console;
pub mod decimal;
pub mod event;
pub mod event_laws;
pub mod hub;
pub mod hub_laws;
pub mod ingest;
pub mod json;
pub mod sinks;
pub mod state;
pub mod time;
