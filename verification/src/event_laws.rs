//! Reading an event back from the document that was written for it.

use crate::event::{
    event_instant, event_json, event_members, event_text, event_time_text, frame_event, json_event,
    quantities_are_numbers, salvage_of, texts_in, DecodeError, EventView,
};
use crate::json::{lookup, parsed, text_of, JsonView, MemberView};
use vstd::prelude::*;

verus! {

/// The member at `index` is the one that `lookup` finds under its key when no
/// member before it has that key.
pub proof fn lemma_lookup_finds(members: Seq<MemberView>, key: Seq<char>, index: int)
    requires
        0 <= index < members.len(),
        members[index].key == key,
        forall|j: int| 0 <= j < index ==> members[j].key != key,
    ensures
        lookup(members, key) == Some(members[index].value),
    decreases index,
{
    if index > 0 {
        let rest = members.drop_first();
        assert(rest[index - 1] == members[index]);
        assert forall|j: int| 0 <= j < index - 1 implies rest[j].key != key by {
            assert(rest[j] == members[j + 1]);
        }
        lemma_lookup_finds(rest, key, index - 1);
    }
}

/// The keys and tags of the wire format, letter by letter.
proof fn reveal_names()
    ensures
        "type"@ == seq!['t', 'y', 'p', 'e'],
        "msg"@ == seq!['m', 's', 'g'],
        "objectName"@.len() == 10 && "objectName"@[0] == 'o',
        "mass"@ == seq!['m', 'a', 's', 's'],
        "categories"@.len() == 10 && "categories"@[0] == 'c',
        "salvagedBy"@.len() == 10 && "salvagedBy"@[0] == 's' && "salvagedBy"@[1] == 'a',
        "value"@.len() == 5,
        "massBasedValue"@.len() == 14,
        "destroyed"@.len() == 9,
        "gameTime"@.len() == 8,
        "systemTime"@.len() == 10 && "systemTime"@[0] == 's' && "systemTime"@[1] == 'y',
        "currentGameState"@.len() == 16,
        "previousGameState"@.len() == 17,
        "seed"@ == seq!['s', 'e', 'e', 'd'],
        "version"@.len() == 7,
        "startDateUTC"@.len() == 12,
        "maxTotalValue"@.len() == 13,
        "maxSalvageMass"@.len() == 14,
        "currentTime"@.len() == 11,
        "maxTime"@.len() == 7,
        "welcomeEvent"@.len() == 12,
        "shiftSalvageLogEntry"@.len() == 20,
        "gameStateChangedEvent"@.len() == 21,
        "startShiftEvent"@.len() == 15,
        "endShiftEvent"@.len() == 13 && "endShiftEvent"@[0] == 'e',
        "setRACEInfoEvent"@.len() == 16,
        "timeTickEvent"@.len() == 13 && "timeTickEvent"@[0] == 't',
{
    reveal_strlit("type");
    reveal_strlit("msg");
    reveal_strlit("objectName");
    reveal_strlit("mass");
    reveal_strlit("categories");
    reveal_strlit("salvagedBy");
    reveal_strlit("value");
    reveal_strlit("massBasedValue");
    reveal_strlit("destroyed");
    reveal_strlit("gameTime");
    reveal_strlit("systemTime");
    reveal_strlit("currentGameState");
    reveal_strlit("previousGameState");
    reveal_strlit("seed");
    reveal_strlit("version");
    reveal_strlit("startDateUTC");
    reveal_strlit("maxTotalValue");
    reveal_strlit("maxSalvageMass");
    reveal_strlit("currentTime");
    reveal_strlit("maxTime");
    reveal_strlit("welcomeEvent");
    reveal_strlit("shiftSalvageLogEntry");
    reveal_strlit("gameStateChangedEvent");
    reveal_strlit("startShiftEvent");
    reveal_strlit("endShiftEvent");
    reveal_strlit("setRACEInfoEvent");
    reveal_strlit("timeTickEvent");
    assert("type"@ =~= seq!['t', 'y', 'p', 'e']);
    assert("msg"@ =~= seq!['m', 's', 'g']);
    assert("mass"@ =~= seq!['m', 'a', 's', 's']);
    assert("seed"@ =~= seq!['s', 'e', 'e', 'd']);
}

/// Every member of the document written for an event is found under its key.
proof fn lemma_members_found(event: EventView, time: Seq<char>)
    ensures
        forall|i: int|
            #![trigger event_members(event, time)[i]]
            0 <= i < event_members(event, time).len() ==> lookup(
                event_members(event, time),
                event_members(event, time)[i].key,
            ) == Some(event_members(event, time)[i].value),
{
    reveal_names();
    let members = event_members(event, time);
    assert forall|i: int| #![trigger members[i]] 0 <= i < members.len() implies lookup(
        members,
        members[i].key,
    ) == Some(members[i].value) by {
        assert forall|j: int| 0 <= j < i implies members[j].key != members[i].key by {
            let a = members[j].key;
            let b = members[i].key;
            if a.len() == b.len() {
                assert(a[0] != b[0] || a[1] != b[1]);
            }
        }
        lemma_lookup_finds(members, members[i].key, i);
    }
}

/// An event is read back from the document that was written for it, whenever
/// its quantities are number literals and its instant is read back from the
/// text that was written for it.
pub proof fn lemma_from_json_inverts_to_json(event: EventView)
    requires
        quantities_are_numbers(event),
        event_instant(event) matches Some(instant) ==> instant.round_trips(),
    ensures
        event_json(event) matches Some(json) && json_event(json) == Ok::<EventView, DecodeError>(
            event,
        ),
{
    reveal_names();
    let time = event_time_text(event, crate::time::Precision::Shortest)->0;
    let members = event_members(event, time);
    lemma_members_found(event, time);
    assert(lookup(members, members[0].key) == Some(members[0].value));
    assert(members[0].key == "type"@);
    match event {
        EventView::WelcomeEvent { msg } => {
            assert(members[1].key == "msg"@);
        },
        EventView::ShiftSalvageLogEntry {
            object_name,
            mass,
            categories,
            salvaged_by,
            value,
            mass_based_value,
            destroyed,
            game_time,
            system_time,
        } => {
            assert(members[1].key == "objectName"@);
            assert(members[2].key == "mass"@);
            assert(members[3].key == "categories"@);
            assert(members[4].key == "salvagedBy"@);
            assert(members[5].key == "value"@);
            assert(members[6].key == "massBasedValue"@);
            assert(members[7].key == "destroyed"@);
            assert(members[8].key == "gameTime"@);
            assert(members[9].key == "systemTime"@);
            let items = categories.map_values(|c: Seq<char>| JsonView::Text(c));
            assert(members[3].value == JsonView::List(items));
            assert(forall|i: int| 0 <= i < items.len() ==> (#[trigger] items[i]) is Text);
            assert(Seq::new(items.len(), |i: int| items[i]->Text_0) =~= categories);
            assert(texts_in(members, "categories"@) == Some(categories));
            assert(salvage_of(members) == Ok::<EventView, DecodeError>(event));
        },
        EventView::GameStateChangedEvent { .. } => {
            assert(members[1].key == "currentGameState"@);
            assert(members[2].key == "previousGameState"@);
            assert(members[3].key == "systemTime"@);
        },
        EventView::StartShiftEvent { .. } => {
            assert(members[1].key == "systemTime"@);
        },
        EventView::EndShiftEvent { .. } => {
            assert(members[1].key == "systemTime"@);
        },
        EventView::SetRACEInfoEvent { .. } => {
            assert(members[1].key == "seed"@);
            assert(members[2].key == "version"@);
            assert(members[3].key == "startDateUTC"@);
            assert(members[4].key == "maxTotalValue"@);
            assert(members[5].key == "maxSalvageMass"@);
            assert(members[6].key == "systemTime"@);
        },
        EventView::TimeTickEvent { .. } => {
            assert(members[1].key == "currentTime"@);
            assert(members[2].key == "maxTime"@);
            assert(members[3].key == "systemTime"@);
        },
    }
}

/// What a document describes depends only on what stands under each key,
/// not on the order of the members.
pub proof fn lemma_event_by_lookup(written: Seq<MemberView>, read: Seq<MemberView>)
    requires
        forall|key: Seq<char>| #[trigger] lookup(read, key) == lookup(written, key),
    ensures
        json_event(JsonView::Object(read)) == json_event(JsonView::Object(written)),
{
    assert(lookup(read, "type"@) == lookup(written, "type"@));
    assert(lookup(read, "msg"@) == lookup(written, "msg"@));
    assert(lookup(read, "objectName"@) == lookup(written, "objectName"@));
    assert(lookup(read, "mass"@) == lookup(written, "mass"@));
    assert(lookup(read, "categories"@) == lookup(written, "categories"@));
    assert(lookup(read, "salvagedBy"@) == lookup(written, "salvagedBy"@));
    assert(lookup(read, "value"@) == lookup(written, "value"@));
    assert(lookup(read, "massBasedValue"@) == lookup(written, "massBasedValue"@));
    assert(lookup(read, "destroyed"@) == lookup(written, "destroyed"@));
    assert(lookup(read, "gameTime"@) == lookup(written, "gameTime"@));
    assert(lookup(read, "systemTime"@) == lookup(written, "systemTime"@));
    assert(lookup(read, "currentGameState"@) == lookup(written, "currentGameState"@));
    assert(lookup(read, "previousGameState"@) == lookup(written, "previousGameState"@));
    assert(lookup(read, "seed"@) == lookup(written, "seed"@));
    assert(lookup(read, "version"@) == lookup(written, "version"@));
    assert(lookup(read, "startDateUTC"@) == lookup(written, "startDateUTC"@));
    assert(lookup(read, "maxTotalValue"@) == lookup(written, "maxTotalValue"@));
    assert(lookup(read, "maxSalvageMass"@) == lookup(written, "maxSalvageMass"@));
    assert(lookup(read, "currentTime"@) == lookup(written, "currentTime"@));
    assert(lookup(read, "maxTime"@) == lookup(written, "maxTime"@));
}

/// Whether the text written for a document is read as an object that holds,
/// under every key, what the document holds under it. The reader may hand
/// the members back in another order.
pub open spec fn is_read_back(json: JsonView) -> bool {
    json matches JsonView::Object(written) && parsed(text_of(json)) matches Some(
        JsonView::Object(read),
    ) && forall|key: Seq<char>| #[trigger] lookup(read, key) == lookup(written, key)
}

/// An event is read back from the frame that was written for it, whenever
/// its quantities are number literals, its instant is read back from the text
/// that was written for it, and the document that was written for it is read
/// back, member for member, from that document's text.
pub proof fn lemma_decode_inverts_encode(event: EventView)
    requires
        quantities_are_numbers(event),
        event_instant(event) matches Some(instant) ==> instant.round_trips(),
        event_json(event) matches Some(json) ==> is_read_back(json),
    ensures
        event_text(event) matches Some(text) && frame_event(text) == Ok::<EventView, DecodeError>(
            event,
        ),
{
    lemma_from_json_inverts_to_json(event);
    let json = event_json(event)->0;
    let written = json->Object_0;
    let read = parsed(text_of(json))->0->Object_0;
    lemma_event_by_lookup(written, read);
}

} // verus!
