//! The telemetry events and their JSON form.
//!
//! An event travels as one JSON object. Its member `type` names the variant;
//! the other members are the variant's fields under camel-case keys. Members
//! that a variant does not know are passed over.

use crate::decimal::{is_number, Decimal};
use crate::json::{lookup, Json, JsonView, Member, MemberView};
use crate::time::{instant_of, instant_text, Precision, Timestamp};
use vstd::prelude::*;

verus! {

/// One telemetry record.
#[derive(Clone, Debug, PartialEq, Eq)]
pub enum SalvageEvent {
    WelcomeEvent { msg: String },
    ShiftSalvageLogEntry {
        /// Localized object name.
        object_name: String,
        /// Mass reported at salvage time.
        mass: Decimal,
        /// Categories the game thinks this object is in.
        categories: Vec<String>,
        /// What salvaged this (a furnace, a processor, a pick-up).
        salvaged_by: String,
        /// How much the object was worth.
        value: Decimal,
        /// Whether the value of the object is determined by its mass.
        mass_based_value: bool,
        /// Whether the object was destroyed, so that its value was lost.
        destroyed: bool,
        /// Seconds into the shift at which the object was salvaged.
        game_time: Decimal,
        system_time: Timestamp,
    },
    GameStateChangedEvent {
        current_game_state: String,
        previous_game_state: String,
        system_time: Timestamp,
    },
    StartShiftEvent { system_time: Timestamp },
    EndShiftEvent { system_time: Timestamp },
    SetRACEInfoEvent {
        seed: i64,
        version: i64,
        start_date_utc: String,
        max_total_value: i64,
        max_salvage_mass: i64,
        system_time: Timestamp,
    },
    TimeTickEvent {
        /// The in-game time displayed.
        current_time: Decimal,
        /// The length of the current shift.
        max_time: Decimal,
        system_time: Timestamp,
    },
}

/// An event as a mathematical value.
pub enum EventView {
    WelcomeEvent { msg: Seq<char> },
    ShiftSalvageLogEntry {
        object_name: Seq<char>,
        mass: Seq<char>,
        categories: Seq<Seq<char>>,
        salvaged_by: Seq<char>,
        value: Seq<char>,
        mass_based_value: bool,
        destroyed: bool,
        game_time: Seq<char>,
        system_time: Timestamp,
    },
    GameStateChangedEvent {
        current_game_state: Seq<char>,
        previous_game_state: Seq<char>,
        system_time: Timestamp,
    },
    StartShiftEvent { system_time: Timestamp },
    EndShiftEvent { system_time: Timestamp },
    SetRACEInfoEvent {
        seed: int,
        version: int,
        start_date_utc: Seq<char>,
        max_total_value: int,
        max_salvage_mass: int,
        system_time: Timestamp,
    },
    TimeTickEvent { current_time: Seq<char>, max_time: Seq<char>, system_time: Timestamp },
}

impl View for SalvageEvent {
    type V = EventView;

    open spec fn view(&self) -> EventView {
        match self {
            SalvageEvent::WelcomeEvent { msg } => EventView::WelcomeEvent { msg: msg@ },
            SalvageEvent::ShiftSalvageLogEntry {
                object_name,
                mass,
                categories,
                salvaged_by,
                value,
                mass_based_value,
                destroyed,
                game_time,
                system_time,
            } => EventView::ShiftSalvageLogEntry {
                object_name: object_name@,
                mass: mass@,
                categories: categories@.map_values(|c: String| c@),
                salvaged_by: salvaged_by@,
                value: value@,
                mass_based_value: *mass_based_value,
                destroyed: *destroyed,
                game_time: game_time@,
                system_time: *system_time,
            },
            SalvageEvent::GameStateChangedEvent {
                current_game_state,
                previous_game_state,
                system_time,
            } => EventView::GameStateChangedEvent {
                current_game_state: current_game_state@,
                previous_game_state: previous_game_state@,
                system_time: *system_time,
            },
            SalvageEvent::StartShiftEvent { system_time } => EventView::StartShiftEvent {
                system_time: *system_time,
            },
            SalvageEvent::EndShiftEvent { system_time } => EventView::EndShiftEvent {
                system_time: *system_time,
            },
            SalvageEvent::SetRACEInfoEvent {
                seed,
                version,
                start_date_utc,
                max_total_value,
                max_salvage_mass,
                system_time,
            } => EventView::SetRACEInfoEvent {
                seed: *seed as int,
                version: *version as int,
                start_date_utc: start_date_utc@,
                max_total_value: *max_total_value as int,
                max_salvage_mass: *max_salvage_mass as int,
                system_time: *system_time,
            },
            SalvageEvent::TimeTickEvent {
                current_time,
                max_time,
                system_time,
            } => EventView::TimeTickEvent {
                current_time: current_time@,
                max_time: max_time@,
                system_time: *system_time,
            },
        }
    }
}

/// Whether the quantities of an event are number literals, as those of every
/// [`SalvageEvent`] are.
pub open spec fn quantities_are_numbers(event: EventView) -> bool {
    match event {
        EventView::ShiftSalvageLogEntry { mass, value, game_time, .. } => is_number(mass)
            && is_number(value) && is_number(game_time),
        EventView::TimeTickEvent { current_time, max_time, .. } => is_number(current_time)
            && is_number(max_time),
        _ => true,
    }
}

/// Whether the instant of an event, if it has one, can be written.
pub open spec fn is_writable(event: EventView) -> bool {
    match event_instant(event) {
        Some(instant) => instant.is_writable(),
        None => true,
    }
}

/// Whether a decoding gave an event whose instant cannot be written.
pub open spec fn gave_unwritable(result: Result<SalvageEvent, DecodeError>) -> bool {
    result matches Ok(event) && !is_writable(event@)
}

/// Why a frame is no event.
#[derive(Clone, Copy, Debug, PartialEq, Eq, Structural)]
pub enum DecodeError {
    /// The text is no JSON document.
    Malformed,
    /// The document is no object, or has no string under `type`.
    NotAnEvent,
    /// The `type` names no variant.
    UnknownType,
    /// A field of the variant is missing or is of the wrong kind.
    BadField,
}

/// The string under `key`.
pub open spec fn text_in(members: Seq<MemberView>, key: Seq<char>) -> Option<Seq<char>> {
    match lookup(members, key) {
        Some(value) => value.as_text(),
        None => None,
    }
}

/// The number literal under `key`.
pub open spec fn decimal_in(members: Seq<MemberView>, key: Seq<char>) -> Option<Seq<char>> {
    match lookup(members, key) {
        Some(value) => match value.as_decimal() {
            Some(literal) => if is_number(literal) {
                Some(literal)
            } else {
                None
            },
            None => None,
        },
        None => None,
    }
}

/// The integer under `key`.
pub open spec fn integer_in(members: Seq<MemberView>, key: Seq<char>) -> Option<int> {
    match lookup(members, key) {
        Some(value) => value.as_integer(),
        None => None,
    }
}

/// The truth value under `key`.
pub open spec fn bool_in(members: Seq<MemberView>, key: Seq<char>) -> Option<bool> {
    match lookup(members, key) {
        Some(value) => value.as_bool(),
        None => None,
    }
}

/// The list of strings under `key`.
pub open spec fn texts_in(members: Seq<MemberView>, key: Seq<char>) -> Option<Seq<Seq<char>>> {
    match lookup(members, key) {
        Some(value) => value.as_text_list(),
        None => None,
    }
}

/// The instant whose RFC 3339 text stands under `key`.
pub open spec fn instant_in(members: Seq<MemberView>, key: Seq<char>) -> Option<Timestamp> {
    match text_in(members, key) {
        Some(text) => instant_of(text),
        None => None,
    }
}

pub open spec fn welcome_of(m: Seq<MemberView>) -> Result<EventView, DecodeError> {
    match text_in(m, "msg"@) {
        Some(msg) => Ok(EventView::WelcomeEvent { msg }),
        None => Err(DecodeError::BadField),
    }
}

pub open spec fn salvage_of(m: Seq<MemberView>) -> Result<EventView, DecodeError> {
    if text_in(m, "objectName"@) is Some && decimal_in(m, "mass"@) is Some && texts_in(
        m,
        "categories"@,
    ) is Some && text_in(m, "salvagedBy"@) is Some && decimal_in(m, "value"@) is Some && bool_in(
        m,
        "massBasedValue"@,
    ) is Some && bool_in(m, "destroyed"@) is Some && decimal_in(m, "gameTime"@) is Some
        && instant_in(m, "systemTime"@) is Some {
        Ok(
            EventView::ShiftSalvageLogEntry {
                object_name: text_in(m, "objectName"@)->0,
                mass: decimal_in(m, "mass"@)->0,
                categories: texts_in(m, "categories"@)->0,
                salvaged_by: text_in(m, "salvagedBy"@)->0,
                value: decimal_in(m, "value"@)->0,
                mass_based_value: bool_in(m, "massBasedValue"@)->0,
                destroyed: bool_in(m, "destroyed"@)->0,
                game_time: decimal_in(m, "gameTime"@)->0,
                system_time: instant_in(m, "systemTime"@)->0,
            },
        )
    } else {
        Err(DecodeError::BadField)
    }
}

pub open spec fn state_change_of(m: Seq<MemberView>) -> Result<EventView, DecodeError> {
    if text_in(m, "currentGameState"@) is Some && text_in(m, "previousGameState"@) is Some
        && instant_in(m, "systemTime"@) is Some {
        Ok(
            EventView::GameStateChangedEvent {
                current_game_state: text_in(m, "currentGameState"@)->0,
                previous_game_state: text_in(m, "previousGameState"@)->0,
                system_time: instant_in(m, "systemTime"@)->0,
            },
        )
    } else {
        Err(DecodeError::BadField)
    }
}

pub open spec fn start_shift_of(m: Seq<MemberView>) -> Result<EventView, DecodeError> {
    match instant_in(m, "systemTime"@) {
        Some(system_time) => Ok(EventView::StartShiftEvent { system_time }),
        None => Err(DecodeError::BadField),
    }
}

pub open spec fn end_shift_of(m: Seq<MemberView>) -> Result<EventView, DecodeError> {
    match instant_in(m, "systemTime"@) {
        Some(system_time) => Ok(EventView::EndShiftEvent { system_time }),
        None => Err(DecodeError::BadField),
    }
}

pub open spec fn race_info_of(m: Seq<MemberView>) -> Result<EventView, DecodeError> {
    if integer_in(m, "seed"@) is Some && integer_in(m, "version"@) is Some && text_in(
        m,
        "startDateUTC"@,
    ) is Some && integer_in(m, "maxTotalValue"@) is Some && integer_in(m, "maxSalvageMass"@)
        is Some && instant_in(m, "systemTime"@) is Some {
        Ok(
            EventView::SetRACEInfoEvent {
                seed: integer_in(m, "seed"@)->0,
                version: integer_in(m, "version"@)->0,
                start_date_utc: text_in(m, "startDateUTC"@)->0,
                max_total_value: integer_in(m, "maxTotalValue"@)->0,
                max_salvage_mass: integer_in(m, "maxSalvageMass"@)->0,
                system_time: instant_in(m, "systemTime"@)->0,
            },
        )
    } else {
        Err(DecodeError::BadField)
    }
}

pub open spec fn time_tick_of(m: Seq<MemberView>) -> Result<EventView, DecodeError> {
    if decimal_in(m, "currentTime"@) is Some && decimal_in(m, "maxTime"@) is Some && instant_in(
        m,
        "systemTime"@,
    ) is Some {
        Ok(
            EventView::TimeTickEvent {
                current_time: decimal_in(m, "currentTime"@)->0,
                max_time: decimal_in(m, "maxTime"@)->0,
                system_time: instant_in(m, "systemTime"@)->0,
            },
        )
    } else {
        Err(DecodeError::BadField)
    }
}

/// The event that an object's members describe under the tag `tag`.
pub open spec fn tagged_event(tag: Seq<char>, m: Seq<MemberView>) -> Result<
    EventView,
    DecodeError,
> {
    if tag == "welcomeEvent"@ {
        welcome_of(m)
    } else if tag == "shiftSalvageLogEntry"@ {
        salvage_of(m)
    } else if tag == "gameStateChangedEvent"@ {
        state_change_of(m)
    } else if tag == "startShiftEvent"@ {
        start_shift_of(m)
    } else if tag == "endShiftEvent"@ {
        end_shift_of(m)
    } else if tag == "setRACEInfoEvent"@ {
        race_info_of(m)
    } else if tag == "timeTickEvent"@ {
        time_tick_of(m)
    } else {
        Err(DecodeError::UnknownType)
    }
}

/// The event that a JSON document describes.
pub open spec fn json_event(json: JsonView) -> Result<EventView, DecodeError> {
    match json {
        JsonView::Object(m) => match text_in(m, "type"@) {
            Some(tag) => tagged_event(tag, m),
            None => Err(DecodeError::NotAnEvent),
        },
        _ => Err(DecodeError::NotAnEvent),
    }
}

/// The event that a frame's text carries.
pub open spec fn frame_event(text: Seq<char>) -> Result<EventView, DecodeError> {
    match crate::json::parsed(text) {
        Some(json) => json_event(json),
        None => Err(DecodeError::Malformed),
    }
}

/// A member with the given key and value.
pub open spec fn entry(key: Seq<char>, value: JsonView) -> MemberView {
    MemberView { key, value }
}

/// The members under which a variant's fields travel, the tag first, given
/// the text of the event's instant.
pub open spec fn event_members(event: EventView, time: Seq<char>) -> Seq<MemberView> {
    match event {
        EventView::WelcomeEvent { msg } => seq![
            entry("type"@, JsonView::Text("welcomeEvent"@)),
            entry("msg"@, JsonView::Text(msg)),
        ],
        EventView::ShiftSalvageLogEntry {
            object_name,
            mass,
            categories,
            salvaged_by,
            value,
            mass_based_value,
            destroyed,
            game_time,
            system_time,
        } => seq![
            entry("type"@, JsonView::Text("shiftSalvageLogEntry"@)),
            entry("objectName"@, JsonView::Text(object_name)),
            entry("mass"@, JsonView::Decimal(mass)),
            entry(
                "categories"@,
                JsonView::List(categories.map_values(|c: Seq<char>| JsonView::Text(c))),
            ),
            entry("salvagedBy"@, JsonView::Text(salvaged_by)),
            entry("value"@, JsonView::Decimal(value)),
            entry("massBasedValue"@, JsonView::Bool(mass_based_value)),
            entry("destroyed"@, JsonView::Bool(destroyed)),
            entry("gameTime"@, JsonView::Decimal(game_time)),
            entry("systemTime"@, JsonView::Text(time)),
        ],
        EventView::GameStateChangedEvent {
            current_game_state,
            previous_game_state,
            system_time,
        } => seq![
            entry("type"@, JsonView::Text("gameStateChangedEvent"@)),
            entry("currentGameState"@, JsonView::Text(current_game_state)),
            entry("previousGameState"@, JsonView::Text(previous_game_state)),
            entry("systemTime"@, JsonView::Text(time)),
        ],
        EventView::StartShiftEvent { system_time } => seq![
            entry("type"@, JsonView::Text("startShiftEvent"@)),
            entry("systemTime"@, JsonView::Text(time)),
        ],
        EventView::EndShiftEvent { system_time } => seq![
            entry("type"@, JsonView::Text("endShiftEvent"@)),
            entry("systemTime"@, JsonView::Text(time)),
        ],
        EventView::SetRACEInfoEvent {
            seed,
            version,
            start_date_utc,
            max_total_value,
            max_salvage_mass,
            system_time,
        } => seq![
            entry("type"@, JsonView::Text("setRACEInfoEvent"@)),
            entry("seed"@, JsonView::Integer(seed)),
            entry("version"@, JsonView::Integer(version)),
            entry("startDateUTC"@, JsonView::Text(start_date_utc)),
            entry("maxTotalValue"@, JsonView::Integer(max_total_value)),
            entry("maxSalvageMass"@, JsonView::Integer(max_salvage_mass)),
            entry("systemTime"@, JsonView::Text(time)),
        ],
        EventView::TimeTickEvent { current_time, max_time, system_time } => seq![
            entry("type"@, JsonView::Text("timeTickEvent"@)),
            entry("currentTime"@, JsonView::Decimal(current_time)),
            entry("maxTime"@, JsonView::Decimal(max_time)),
            entry("systemTime"@, JsonView::Text(time)),
        ],
    }
}

/// The instant that an event carries, if it carries one.
pub open spec fn event_instant(event: EventView) -> Option<Timestamp> {
    match event {
        EventView::WelcomeEvent { .. } => None,
        EventView::ShiftSalvageLogEntry { system_time, .. } => Some(system_time),
        EventView::GameStateChangedEvent { system_time, .. } => Some(system_time),
        EventView::StartShiftEvent { system_time } => Some(system_time),
        EventView::EndShiftEvent { system_time } => Some(system_time),
        EventView::SetRACEInfoEvent { system_time, .. } => Some(system_time),
        EventView::TimeTickEvent { system_time, .. } => Some(system_time),
    }
}

/// The text of an event's instant at the given precision: empty for an event
/// without an instant, nothing where the instant cannot be written.
pub open spec fn event_time_text(event: EventView, precision: Precision) -> Option<Seq<char>> {
    match event_instant(event) {
        Some(instant) => instant_text(instant.secs, instant.nanos, precision),
        None => Some(Seq::empty()),
    }
}

/// The JSON document that describes an event, or nothing where the event's
/// instant cannot be written.
pub open spec fn event_json(event: EventView) -> Option<JsonView> {
    match event_time_text(event, Precision::Shortest) {
        Some(time) => Some(JsonView::Object(event_members(event, time))),
        None => None,
    }
}

/// The text of the frame that carries an event.
pub open spec fn event_text(event: EventView) -> Option<Seq<char>> {
    match event_json(event) {
        Some(json) => Some(crate::json::text_of(json)),
        None => None,
    }
}

/// Whether a string is the given literal.
fn same(text: &String, literal: &str) -> (equal: bool)
    ensures
        equal == (text@ == literal@),
{
    let other = String::from_str(literal);
    *text == other
}

fn text_under(json: &Json, key: &str) -> (found: Option<String>)
    requires
        json@ is Object,
    ensures
        match found {
            Some(text) => text_in(json@->Object_0, key@) == Some(text@),
            None => text_in(json@->Object_0, key@) is None,
        },
{
    match json.member(key) {
        Some(value) => value.as_text(),
        None => None,
    }
}

fn decimal_under(json: &Json, key: &str) -> (found: Option<Decimal>)
    requires
        json@ is Object,
    ensures
        match found {
            Some(number) => decimal_in(json@->Object_0, key@) == Some(number@),
            None => decimal_in(json@->Object_0, key@) is None,
        },
{
    match json.member(key) {
        Some(value) => match value.as_decimal() {
            Some(literal) => Decimal::new(literal.as_str()),
            None => None,
        },
        None => None,
    }
}

fn integer_under(json: &Json, key: &str) -> (found: Option<i64>)
    requires
        json@ is Object,
    ensures
        match found {
            Some(i) => integer_in(json@->Object_0, key@) == Some(i as int),
            None => integer_in(json@->Object_0, key@) is None,
        },
{
    match json.member(key) {
        Some(value) => value.as_integer(),
        None => None,
    }
}

fn bool_under(json: &Json, key: &str) -> (found: Option<bool>)
    requires
        json@ is Object,
    ensures
        found == bool_in(json@->Object_0, key@),
{
    match json.member(key) {
        Some(value) => value.as_bool(),
        None => None,
    }
}

fn texts_under(json: &Json, key: &str) -> (found: Option<Vec<String>>)
    requires
        json@ is Object,
    ensures
        match found {
            Some(texts) => texts_in(json@->Object_0, key@) == Some(
                texts@.map_values(|t: String| t@),
            ),
            None => texts_in(json@->Object_0, key@) is None,
        },
{
    match json.member(key) {
        Some(value) => value.as_text_list(),
        None => None,
    }
}

fn instant_under(json: &Json, key: &str) -> (found: Option<Timestamp>)
    requires
        json@ is Object,
    ensures
        found == instant_in(json@->Object_0, key@),
        found matches Some(instant) ==> instant.is_writable(),
{
    match text_under(json, key) {
        Some(text) => Timestamp::parse(text.as_str()),
        None => None,
    }
}

fn decode_welcome(json: &Json) -> (result: Result<SalvageEvent, DecodeError>)
    requires
        json@ is Object,
    ensures
        decoded(result) == welcome_of(json@->Object_0),
        !gave_unwritable(result),
{
    match text_under(json, "msg") {
        Some(msg) => Ok(SalvageEvent::WelcomeEvent { msg }),
        None => Err(DecodeError::BadField),
    }
}

fn decode_salvage(json: &Json) -> (result: Result<SalvageEvent, DecodeError>)
    requires
        json@ is Object,
    ensures
        decoded(result) == salvage_of(json@->Object_0),
        !gave_unwritable(result),
{
    let object_name = match text_under(json, "objectName") {
        Some(v) => v,
        None => { return Err(DecodeError::BadField); },
    };
    let mass = match decimal_under(json, "mass") {
        Some(v) => v,
        None => { return Err(DecodeError::BadField); },
    };
    let categories = match texts_under(json, "categories") {
        Some(v) => v,
        None => { return Err(DecodeError::BadField); },
    };
    let salvaged_by = match text_under(json, "salvagedBy") {
        Some(v) => v,
        None => { return Err(DecodeError::BadField); },
    };
    let value = match decimal_under(json, "value") {
        Some(v) => v,
        None => { return Err(DecodeError::BadField); },
    };
    let mass_based_value = match bool_under(json, "massBasedValue") {
        Some(v) => v,
        None => { return Err(DecodeError::BadField); },
    };
    let destroyed = match bool_under(json, "destroyed") {
        Some(v) => v,
        None => { return Err(DecodeError::BadField); },
    };
    let game_time = match decimal_under(json, "gameTime") {
        Some(v) => v,
        None => { return Err(DecodeError::BadField); },
    };
    let system_time = match instant_under(json, "systemTime") {
        Some(v) => v,
        None => { return Err(DecodeError::BadField); },
    };
    Ok(
        SalvageEvent::ShiftSalvageLogEntry {
            object_name,
            mass,
            categories,
            salvaged_by,
            value,
            mass_based_value,
            destroyed,
            game_time,
            system_time,
        },
    )
}

fn decode_state_change(json: &Json) -> (result: Result<SalvageEvent, DecodeError>)
    requires
        json@ is Object,
    ensures
        decoded(result) == state_change_of(json@->Object_0),
        !gave_unwritable(result),
{
    let current_game_state = match text_under(json, "currentGameState") {
        Some(v) => v,
        None => { return Err(DecodeError::BadField); },
    };
    let previous_game_state = match text_under(json, "previousGameState") {
        Some(v) => v,
        None => { return Err(DecodeError::BadField); },
    };
    let system_time = match instant_under(json, "systemTime") {
        Some(v) => v,
        None => { return Err(DecodeError::BadField); },
    };
    Ok(SalvageEvent::GameStateChangedEvent { current_game_state, previous_game_state, system_time })
}

fn decode_start_shift(json: &Json) -> (result: Result<SalvageEvent, DecodeError>)
    requires
        json@ is Object,
    ensures
        decoded(result) == start_shift_of(json@->Object_0),
        !gave_unwritable(result),
{
    match instant_under(json, "systemTime") {
        Some(system_time) => Ok(SalvageEvent::StartShiftEvent { system_time }),
        None => Err(DecodeError::BadField),
    }
}

fn decode_end_shift(json: &Json) -> (result: Result<SalvageEvent, DecodeError>)
    requires
        json@ is Object,
    ensures
        decoded(result) == end_shift_of(json@->Object_0),
        !gave_unwritable(result),
{
    match instant_under(json, "systemTime") {
        Some(system_time) => Ok(SalvageEvent::EndShiftEvent { system_time }),
        None => Err(DecodeError::BadField),
    }
}

fn decode_race_info(json: &Json) -> (result: Result<SalvageEvent, DecodeError>)
    requires
        json@ is Object,
    ensures
        decoded(result) == race_info_of(json@->Object_0),
        !gave_unwritable(result),
{
    let seed = match integer_under(json, "seed") {
        Some(v) => v,
        None => { return Err(DecodeError::BadField); },
    };
    let version = match integer_under(json, "version") {
        Some(v) => v,
        None => { return Err(DecodeError::BadField); },
    };
    let start_date_utc = match text_under(json, "startDateUTC") {
        Some(v) => v,
        None => { return Err(DecodeError::BadField); },
    };
    let max_total_value = match integer_under(json, "maxTotalValue") {
        Some(v) => v,
        None => { return Err(DecodeError::BadField); },
    };
    let max_salvage_mass = match integer_under(json, "maxSalvageMass") {
        Some(v) => v,
        None => { return Err(DecodeError::BadField); },
    };
    let system_time = match instant_under(json, "systemTime") {
        Some(v) => v,
        None => { return Err(DecodeError::BadField); },
    };
    Ok(
        SalvageEvent::SetRACEInfoEvent {
            seed,
            version,
            start_date_utc,
            max_total_value,
            max_salvage_mass,
            system_time,
        },
    )
}

fn decode_time_tick(json: &Json) -> (result: Result<SalvageEvent, DecodeError>)
    requires
        json@ is Object,
    ensures
        decoded(result) == time_tick_of(json@->Object_0),
        !gave_unwritable(result),
{
    let current_time = match decimal_under(json, "currentTime") {
        Some(v) => v,
        None => { return Err(DecodeError::BadField); },
    };
    let max_time = match decimal_under(json, "maxTime") {
        Some(v) => v,
        None => { return Err(DecodeError::BadField); },
    };
    let system_time = match instant_under(json, "systemTime") {
        Some(v) => v,
        None => { return Err(DecodeError::BadField); },
    };
    Ok(SalvageEvent::TimeTickEvent { current_time, max_time, system_time })
}

fn text_member(key: &str, value: &String) -> (member: Member)
    ensures
        member.key@ == key@,
        member.value@ == JsonView::Text(value@),
{
    Member { key: String::from_str(key), value: Json::Text(value.clone()) }
}

fn literal_member(key: &str, value: &str) -> (member: Member)
    ensures
        member.key@ == key@,
        member.value@ == JsonView::Text(value@),
{
    Member { key: String::from_str(key), value: Json::Text(String::from_str(value)) }
}

fn decimal_member(key: &str, value: &Decimal) -> (member: Member)
    ensures
        member.key@ == key@,
        member.value@ == JsonView::Decimal(value@),
{
    Member { key: String::from_str(key), value: Json::Decimal(String::from_str(value.as_str())) }
}

fn integer_member(key: &str, value: i64) -> (member: Member)
    ensures
        member.key@ == key@,
        member.value@ == JsonView::Integer(value as int),
{
    Member { key: String::from_str(key), value: Json::Integer(value) }
}

fn bool_member(key: &str, value: bool) -> (member: Member)
    ensures
        member.key@ == key@,
        member.value@ == JsonView::Bool(value),
{
    Member { key: String::from_str(key), value: Json::Bool(value) }
}

fn texts_member(key: &str, values: &Vec<String>) -> (member: Member)
    ensures
        member.key@ == key@,
        member.value@ == JsonView::List(
            values@.map_values(|c: String| c@).map_values(|c: Seq<char>| JsonView::Text(c)),
        ),
{
    let mut items: Vec<Json> = Vec::new();
    let mut index: usize = 0;
    while index < values.len()
        invariant
            0 <= index <= values.len(),
            items@.len() == index,
            forall|i: int| 0 <= i < index ==> (#[trigger] items@[i])@ == JsonView::Text(values@[i]@),
        decreases values.len() - index,
    {
        items.push(Json::Text(values[index].clone()));
        index = index + 1;
    }
    let value = Json::List(items);
    assert(value@->List_0 =~= values@.map_values(|c: String| c@).map_values(
        |c: Seq<char>| JsonView::Text(c),
    ));
    Member { key: String::from_str(key), value }
}

/// The outcome of a decoding as a mathematical value.
pub open spec fn decoded(result: Result<SalvageEvent, DecodeError>) -> Result<
    EventView,
    DecodeError,
> {
    match result {
        Ok(event) => Ok(event@),
        Err(error) => Err(error),
    }
}

impl SalvageEvent {
    /// The instant that this event carries, if it carries one.
    pub fn instant(&self) -> (instant: Option<Timestamp>)
        ensures
            instant == event_instant(self@),
    {
        match self {
            SalvageEvent::WelcomeEvent { .. } => None,
            SalvageEvent::ShiftSalvageLogEntry { system_time, .. } => Some(*system_time),
            SalvageEvent::GameStateChangedEvent { system_time, .. } => Some(*system_time),
            SalvageEvent::StartShiftEvent { system_time } => Some(*system_time),
            SalvageEvent::EndShiftEvent { system_time } => Some(*system_time),
            SalvageEvent::SetRACEInfoEvent { system_time, .. } => Some(*system_time),
            SalvageEvent::TimeTickEvent { system_time, .. } => Some(*system_time),
        }
    }

    /// The text of this event's instant: empty for an event without one,
    /// `None` where the instant cannot be written.
    pub fn time_text(&self, precision: Precision) -> (text: Option<String>)
        ensures
            match text {
                Some(text) => event_time_text(self@, precision) == Some(text@),
                None => event_time_text(self@, precision) is None,
            },
    {
        match self.instant() {
            Some(instant) => instant.to_text(precision),
            None => Some(String::new()),
        }
    }

    /// The JSON document that describes this event, given the text of its
    /// instant.
    pub fn json_with_time(&self, time: &String) -> (json: Json)
        ensures
            json@ == JsonView::Object(event_members(self@, time@)),
    {
        let mut members: Vec<Member> = Vec::new();
        match self {
            SalvageEvent::WelcomeEvent { msg } => {
                members.push(literal_member("type", "welcomeEvent"));
                members.push(text_member("msg", msg));
            },
            SalvageEvent::ShiftSalvageLogEntry {
                object_name,
                mass,
                categories,
                salvaged_by,
                value,
                mass_based_value,
                destroyed,
                game_time,
                system_time,
            } => {
                members.push(literal_member("type", "shiftSalvageLogEntry"));
                members.push(text_member("objectName", object_name));
                members.push(decimal_member("mass", mass));
                members.push(texts_member("categories", categories));
                members.push(text_member("salvagedBy", salvaged_by));
                members.push(decimal_member("value", value));
                members.push(bool_member("massBasedValue", *mass_based_value));
                members.push(bool_member("destroyed", *destroyed));
                members.push(decimal_member("gameTime", game_time));
                members.push(text_member("systemTime", time));
            },
            SalvageEvent::GameStateChangedEvent {
                current_game_state,
                previous_game_state,
                system_time,
            } => {
                members.push(literal_member("type", "gameStateChangedEvent"));
                members.push(text_member("currentGameState", current_game_state));
                members.push(text_member("previousGameState", previous_game_state));
                members.push(text_member("systemTime", time));
            },
            SalvageEvent::StartShiftEvent { system_time } => {
                members.push(literal_member("type", "startShiftEvent"));
                members.push(text_member("systemTime", time));
            },
            SalvageEvent::EndShiftEvent { system_time } => {
                members.push(literal_member("type", "endShiftEvent"));
                members.push(text_member("systemTime", time));
            },
            SalvageEvent::SetRACEInfoEvent {
                seed,
                version,
                start_date_utc,
                max_total_value,
                max_salvage_mass,
                system_time,
            } => {
                members.push(literal_member("type", "setRACEInfoEvent"));
                members.push(integer_member("seed", *seed));
                members.push(integer_member("version", *version));
                members.push(text_member("startDateUTC", start_date_utc));
                members.push(integer_member("maxTotalValue", *max_total_value));
                members.push(integer_member("maxSalvageMass", *max_salvage_mass));
                members.push(text_member("systemTime", time));
            },
            SalvageEvent::TimeTickEvent { current_time, max_time, system_time } => {
                members.push(literal_member("type", "timeTickEvent"));
                members.push(decimal_member("currentTime", current_time));
                members.push(decimal_member("maxTime", max_time));
                members.push(text_member("systemTime", time));
            },
        }
        let json = Json::object(members);
        assert(json@->Object_0 =~= event_members(self@, time@));
        json
    }

    /// The JSON document that describes this event, or `None` where the
    /// event's instant cannot be written.
    pub fn to_json(&self) -> (json: Option<Json>)
        ensures
            match json {
                Some(json) => event_json(self@) == Some(json@),
                None => event_json(self@) is None,
            },
            quantities_are_numbers(self@),
    {
        proof {
            match self {
                SalvageEvent::ShiftSalvageLogEntry { mass, value, game_time, .. } => {
                    use_type_invariant(mass);
                    use_type_invariant(value);
                    use_type_invariant(game_time);
                },
                SalvageEvent::TimeTickEvent { current_time, max_time, .. } => {
                    use_type_invariant(current_time);
                    use_type_invariant(max_time);
                },
                _ => {},
            }
        }
        match self.time_text(Precision::Shortest) {
            Some(time) => Some(self.json_with_time(&time)),
            None => None,
        }
    }

    /// The text of the frame that carries this event, or `None` where the
    /// event's instant cannot be written.
    pub fn encode(&self) -> (text: Option<String>)
        ensures
            match text {
                Some(text) => event_text(self@) == Some(text@),
                None => event_text(self@) is None,
            },
    {
        match self.to_json() {
            Some(json) => Some(json.to_text()),
            None => None,
        }
    }

    /// Reads an event from a JSON document.
    pub fn from_json(json: &Json) -> (result: Result<SalvageEvent, DecodeError>)
        ensures
            decoded(result) == json_event(json@),
            result matches Ok(event) ==> is_writable(event@),
    {
        match json {
            Json::Object(_) => {},
            _ => {
                return Err(DecodeError::NotAnEvent);
            },
        }
        let tag = match text_under(json, "type") {
            Some(tag) => tag,
            None => {
                return Err(DecodeError::NotAnEvent);
            },
        };
        if same(&tag, "welcomeEvent") {
            decode_welcome(json)
        } else if same(&tag, "shiftSalvageLogEntry") {
            decode_salvage(json)
        } else if same(&tag, "gameStateChangedEvent") {
            decode_state_change(json)
        } else if same(&tag, "startShiftEvent") {
            decode_start_shift(json)
        } else if same(&tag, "endShiftEvent") {
            decode_end_shift(json)
        } else if same(&tag, "setRACEInfoEvent") {
            decode_race_info(json)
        } else if same(&tag, "timeTickEvent") {
            decode_time_tick(json)
        } else {
            Err(DecodeError::UnknownType)
        }
    }

    /// Reads an event from the text of a frame.
    pub fn decode(text: &str) -> (result: Result<SalvageEvent, DecodeError>)
        ensures
            decoded(result) == frame_event(text@),
            result matches Ok(event) ==> is_writable(event@),
    {
        match Json::parse(text) {
            Some(json) => SalvageEvent::from_json(&json),
            None => Err(DecodeError::Malformed),
        }
    }
}

} // verus!
