use lamprey::console::Figures;
use lamprey::decimal::{is_number_literal, Decimal};
use lamprey::event::{DecodeError, SalvageEvent};
use lamprey::json::{write_integer, Json, Member};
use lamprey::time::{Precision, Timestamp};

fn assert_send<T: Send>() {}

fn assert_sync<T: Sync>() {}

fn decimal(text: &str) -> Decimal {
    Decimal::new(text).unwrap()
}

fn new_year() -> Timestamp {
    Timestamp { secs: 1704067200, nanos: 0 }
}

fn salvage_entry() -> SalvageEvent {
    SalvageEvent::ShiftSalvageLogEntry {
        object_name: "Crate".to_string(),
        mass: decimal("12.5"),
        categories: vec!["Metal".to_string(), "Nano".to_string()],
        salvaged_by: "Furnace".to_string(),
        value: decimal("100.0"),
        mass_based_value: true,
        destroyed: false,
        game_time: decimal("63.25"),
        system_time: new_year(),
    }
}

fn every_variant() -> Vec<SalvageEvent> {
    vec![
        SalvageEvent::WelcomeEvent { msg: "hello \"cutter\"\n".to_string() },
        salvage_entry(),
        SalvageEvent::GameStateChangedEvent {
            current_game_state: "InShift".to_string(),
            previous_game_state: "Hab".to_string(),
            system_time: Timestamp { secs: 1704067200, nanos: 500_000_000 },
        },
        SalvageEvent::StartShiftEvent { system_time: new_year() },
        SalvageEvent::EndShiftEvent { system_time: new_year() },
        SalvageEvent::SetRACEInfoEvent {
            seed: -42,
            version: 7,
            start_date_utc: "2024-01-01".to_string(),
            max_total_value: i64::MAX,
            max_salvage_mass: i64::MIN,
            system_time: new_year(),
        },
        SalvageEvent::TimeTickEvent {
            current_time: decimal("1.5"),
            max_time: decimal("900.0"),
            system_time: new_year(),
        },
    ]
}

#[test]
fn test_send() {
    assert_send::<SalvageEvent>();
}

#[test]
fn test_sync() {
    assert_sync::<SalvageEvent>();
}

#[test]
fn start_shift_frame_is_decoded() {
    let event =
        SalvageEvent::decode("{\"type\":\"startShiftEvent\",\"systemTime\":\"2024-01-01T00:00:00Z\"}");
    assert_eq!(event, Ok(SalvageEvent::StartShiftEvent { system_time: new_year() }));
}

#[test]
fn unknown_type_is_rejected() {
    assert_eq!(SalvageEvent::decode("{\"type\":\"bogus\"}"), Err(DecodeError::UnknownType));
}

#[test]
fn text_that_is_no_json_is_rejected() {
    assert_eq!(SalvageEvent::decode("{\"type\":"), Err(DecodeError::Malformed));
    assert_eq!(SalvageEvent::decode(""), Err(DecodeError::Malformed));
}

#[test]
fn document_without_tag_is_rejected() {
    assert_eq!(SalvageEvent::decode("[1,2]"), Err(DecodeError::NotAnEvent));
    assert_eq!(SalvageEvent::decode("{\"systemTime\":\"2024-01-01T00:00:00Z\"}"), Err(DecodeError::NotAnEvent));
    assert_eq!(SalvageEvent::decode("{\"type\":5}"), Err(DecodeError::NotAnEvent));
}

#[test]
fn missing_or_mistyped_field_is_rejected() {
    assert_eq!(SalvageEvent::decode("{\"type\":\"startShiftEvent\"}"), Err(DecodeError::BadField));
    assert_eq!(
        SalvageEvent::decode("{\"type\":\"startShiftEvent\",\"systemTime\":\"yesterday\"}"),
        Err(DecodeError::BadField)
    );
    assert_eq!(
        SalvageEvent::decode("{\"type\":\"welcomeEvent\",\"msg\":null}"),
        Err(DecodeError::BadField)
    );
    assert_eq!(
        SalvageEvent::decode(
            "{\"type\":\"timeTickEvent\",\"currentTime\":\"1.5\",\"maxTime\":2.0,\"systemTime\":\"2024-01-01T00:00:00Z\"}"
        ),
        Err(DecodeError::BadField)
    );
}

#[test]
fn integer_field_takes_no_fraction() {
    let frame = "{\"type\":\"setRACEInfoEvent\",\"seed\":1.5,\"version\":7,\"startDateUTC\":\"x\",\"maxTotalValue\":1,\"maxSalvageMass\":2,\"systemTime\":\"2024-01-01T00:00:00Z\"}";
    assert_eq!(SalvageEvent::decode(frame), Err(DecodeError::BadField));
    let frame = "{\"type\":\"setRACEInfoEvent\",\"seed\":18446744073709551615,\"version\":7,\"startDateUTC\":\"x\",\"maxTotalValue\":1,\"maxSalvageMass\":2,\"systemTime\":\"2024-01-01T00:00:00Z\"}";
    assert_eq!(SalvageEvent::decode(frame), Err(DecodeError::BadField));
}

#[test]
fn unknown_members_are_passed_over() {
    let frame = "{\"extra\":{\"nested\":[1,{\"a\":null}]},\"systemTime\":\"2024-01-01T00:00:00Z\",\"type\":\"endShiftEvent\"}";
    assert_eq!(SalvageEvent::decode(frame), Ok(SalvageEvent::EndShiftEvent { system_time: new_year() }));
}

#[test]
fn salvage_entry_is_decoded_field_by_field() {
    let frame = "{\"type\":\"shiftSalvageLogEntry\",\"objectName\":\"Crate\",\"mass\":12.5,\"categories\":[\"Metal\",\"Nano\"],\"salvagedBy\":\"Furnace\",\"value\":100.0,\"massBasedValue\":true,\"destroyed\":false,\"gameTime\":63.25,\"systemTime\":\"2024-01-01T00:00:00+00:00\"}";
    assert_eq!(SalvageEvent::decode(frame), Ok(salvage_entry()));
}

#[test]
fn whole_number_is_taken_for_a_quantity() {
    let frame = "{\"type\":\"timeTickEvent\",\"currentTime\":3,\"maxTime\":1e3,\"systemTime\":\"2024-01-01T00:00:00Z\"}";
    assert_eq!(
        SalvageEvent::decode(frame),
        Ok(SalvageEvent::TimeTickEvent {
            current_time: decimal("3"),
            max_time: decimal("1000.0"),
            system_time: new_year(),
        })
    );
}

#[test]
fn categories_take_strings_only() {
    let frame = "{\"type\":\"shiftSalvageLogEntry\",\"objectName\":\"Crate\",\"mass\":12.5,\"categories\":[\"Metal\",4],\"salvagedBy\":\"Furnace\",\"value\":100.0,\"massBasedValue\":true,\"destroyed\":false,\"gameTime\":63.25,\"systemTime\":\"2024-01-01T00:00:00Z\"}";
    assert_eq!(SalvageEvent::decode(frame), Err(DecodeError::BadField));
}

#[test]
fn start_shift_is_encoded() {
    let event = SalvageEvent::StartShiftEvent { system_time: new_year() };
    assert_eq!(
        event.encode(),
        Some("{\"type\":\"startShiftEvent\",\"systemTime\":\"2024-01-01T00:00:00Z\"}".to_string())
    );
}

#[test]
fn salvage_entry_is_encoded_in_field_order() {
    assert_eq!(
        salvage_entry().encode(),
        Some("{\"type\":\"shiftSalvageLogEntry\",\"objectName\":\"Crate\",\"mass\":12.5,\"categories\":[\"Metal\",\"Nano\"],\"salvagedBy\":\"Furnace\",\"value\":100.0,\"massBasedValue\":true,\"destroyed\":false,\"gameTime\":63.25,\"systemTime\":\"2024-01-01T00:00:00Z\"}".to_string())
    );
}

#[test]
fn race_info_spells_its_start_date_key_in_capitals() {
    let event = SalvageEvent::SetRACEInfoEvent {
        seed: -42,
        version: 7,
        start_date_utc: "2024-01-01".to_string(),
        max_total_value: i64::MAX,
        max_salvage_mass: i64::MIN,
        system_time: new_year(),
    };
    assert_eq!(
        event.encode(),
        Some("{\"type\":\"setRACEInfoEvent\",\"seed\":-42,\"version\":7,\"startDateUTC\":\"2024-01-01\",\"maxTotalValue\":9223372036854775807,\"maxSalvageMass\":-9223372036854775808,\"systemTime\":\"2024-01-01T00:00:00Z\"}".to_string())
    );
}

#[test]
fn other_variants_are_encoded() {
    let events = every_variant();
    assert_eq!(
        events[0].encode(),
        Some("{\"type\":\"welcomeEvent\",\"msg\":\"hello \\\"cutter\\\"\\n\"}".to_string())
    );
    assert_eq!(
        events[2].encode(),
        Some("{\"type\":\"gameStateChangedEvent\",\"currentGameState\":\"InShift\",\"previousGameState\":\"Hab\",\"systemTime\":\"2024-01-01T00:00:00.500Z\"}".to_string())
    );
    assert_eq!(
        events[4].encode(),
        Some("{\"type\":\"endShiftEvent\",\"systemTime\":\"2024-01-01T00:00:00Z\"}".to_string())
    );
    assert_eq!(
        events[6].encode(),
        Some("{\"type\":\"timeTickEvent\",\"currentTime\":1.5,\"maxTime\":900.0,\"systemTime\":\"2024-01-01T00:00:00Z\"}".to_string())
    );
}

#[test]
fn every_variant_survives_encoding_and_decoding() {
    for event in every_variant() {
        let text = event.encode().unwrap();
        assert_eq!(SalvageEvent::decode(&text), Ok(event.clone()));
        let json = event.to_json().unwrap();
        assert_eq!(SalvageEvent::from_json(&json), Ok(event));
    }
}

#[test]
fn event_with_unwritable_instant_is_not_encoded() {
    let event = SalvageEvent::StartShiftEvent { system_time: Timestamp { secs: i64::MAX, nanos: 0 } };
    assert_eq!(event.encode(), None);
    assert!(event.to_json().is_none());
    assert_eq!(event.console_line(&Figures::default()), None);
}

#[test]
fn instant_is_read_and_written() {
    assert_eq!(Timestamp::parse("2024-01-01T00:00:00Z"), Some(new_year()));
    assert_eq!(Timestamp::parse("2024-01-01 02:00:00+02:00"), Some(new_year()));
    assert_eq!(
        Timestamp::parse("2024-01-01T00:00:00.25Z"),
        Some(Timestamp { secs: 1704067200, nanos: 250_000_000 })
    );
    assert_eq!(Timestamp::parse("2024-01-01"), None);
    let instant = Timestamp { secs: 1704067200, nanos: 250_000_000 };
    assert_eq!(instant.to_text(Precision::Seconds), Some("2024-01-01T00:00:00Z".to_string()));
    assert_eq!(instant.to_text(Precision::Shortest), Some("2024-01-01T00:00:00.250Z".to_string()));
    assert_eq!(Timestamp { secs: 0, nanos: 2_000_000_000 }.to_text(Precision::Seconds), None);
}

#[test]
fn integers_are_written_in_decimal() {
    for (value, text) in [
        (0i64, "0"),
        (7, "7"),
        (10, "10"),
        (-1, "-1"),
        (1234567890, "1234567890"),
        (i64::MAX, "9223372036854775807"),
        (i64::MIN, "-9223372036854775808"),
    ] {
        let mut out = String::from("n=");
        write_integer(value, &mut out);
        assert_eq!(out, format!("n={}", text));
    }
}

#[test]
fn document_is_written_compactly() {
    let json = Json::Object(vec![
        Member { key: "a b".to_string(), value: Json::List(vec![Json::Null, Json::Bool(true), Json::Bool(false)]) },
        Member { key: "n".to_string(), value: Json::Integer(-5) },
        Member { key: "d".to_string(), value: Json::Decimal("1e-7".to_string()) },
        Member { key: "t".to_string(), value: Json::Text("tab\there \\ \u{1}".to_string()) },
        Member { key: "o".to_string(), value: Json::Object(vec![]) },
        Member { key: "l".to_string(), value: Json::List(vec![]) },
    ]);
    assert_eq!(
        json.to_text(),
        "{\"a b\":[null,true,false],\"n\":-5,\"d\":1e-7,\"t\":\"tab\\there \\\\ \\u0001\",\"o\":{},\"l\":[]}"
    );
}

#[test]
fn document_is_read() {
    let json = Json::parse(" { \"b\" : [ 1 , -2.50 , \"x\" ] , \"c\" : null , \"big\" : 18446744073709551615 } ").unwrap();
    assert_eq!(json.to_text(), "{\"b\":[1,-2.5,\"x\"],\"big\":18446744073709551615,\"c\":null}");
    assert!(json.member("c").is_some());
    assert!(json.member("d").is_none());
    assert_eq!(json.member("b").unwrap().as_text_list(), None);
    assert_eq!(json.member("big").unwrap().as_integer(), None);
    assert_eq!(json.member("big").unwrap().as_decimal(), Some("18446744073709551615".to_string()));
    assert!(Json::parse("{\"a\":}").is_none());
    assert!(Json::parse("1 2").is_none());
}

#[test]
fn first_member_under_a_key_is_found() {
    let json = Json::Object(vec![
        Member { key: "k".to_string(), value: Json::Integer(1) },
        Member { key: "k".to_string(), value: Json::Integer(2) },
    ]);
    assert_eq!(json.member("k").unwrap().as_integer(), Some(1));
    assert!(Json::Integer(3).member("k").is_none());
}

fn shown(literal: &Decimal) -> String {
    format!("{}", literal.as_str().parse::<f64>().unwrap())
}

fn figures(event: &SalvageEvent) -> Figures {
    match event {
        SalvageEvent::ShiftSalvageLogEntry { mass, value, game_time, .. } => Figures {
            game_time: format!("{:.2}", game_time.as_str().parse::<f64>().unwrap() as f32),
            mass: shown(mass),
            value: shown(value),
            ..Figures::default()
        },
        SalvageEvent::TimeTickEvent { current_time, max_time, .. } => Figures {
            current_time: shown(current_time),
            max_time: shown(max_time),
            ..Figures::default()
        },
        _ => Figures::default(),
    }
}

fn line(event: &SalvageEvent) -> Option<String> {
    let word = match event {
        SalvageEvent::ShiftSalvageLogEntry { destroyed: true, .. } => "Destroyed ",
        SalvageEvent::ShiftSalvageLogEntry { destroyed: false, .. } => "Salvaged ",
        _ => "",
    };
    let time = event.time_text(Precision::Seconds)?;
    Some(event.line_with(&time, word, &figures(event)))
}

fn entry(name: &str, mass: &str, categories: &[&str], by: &str, value: &str, mass_based: bool, destroyed: bool, game_time: &str) -> SalvageEvent {
    SalvageEvent::ShiftSalvageLogEntry {
        object_name: name.to_string(),
        mass: decimal(mass),
        categories: categories.iter().map(|c| c.to_string()).collect(),
        salvaged_by: by.to_string(),
        value: decimal(value),
        mass_based_value: mass_based,
        destroyed,
        game_time: decimal(game_time),
        system_time: new_year(),
    }
}

#[test]
fn lines_for_the_console() {
    let events = every_variant();
    assert_eq!(line(&events[0]), Some("hello \"cutter\"\n".to_string()));
    assert_eq!(
        line(&events[1]),
        Some("63.25 (2024-01-01T00:00:00Z) Salvaged 12.5 kg of Crate worth 100 via Furnace (item categories: [Metal,Nano])".to_string())
    );
    assert_eq!(
        line(&events[2]),
        Some("(2024-01-01T00:00:00Z) game state changed from Hab to InShift".to_string())
    );
    assert_eq!(line(&events[3]), Some("(2024-01-01T00:00:00Z) started new shift".to_string()));
    assert_eq!(line(&events[4]), Some("(2024-01-01T00:00:00Z) ended shift".to_string()));
    assert_eq!(
        line(&events[5]),
        Some("(2024-01-01T00:00:00Z) current shift is a RACE: seed=-42 version=7 start_date_utc=2024-01-01 max_total_value=9223372036854775807 max_salvage_mass=-9223372036854775808".to_string())
    );
    assert_eq!(
        line(&events[6]),
        Some("(2024-01-01T00:00:00Z) registered time tick to 1.5s, shift will end at 900s".to_string())
    );
}

#[test]
fn game_time_is_shown_with_two_decimals() {
    assert_eq!(
        line(&entry("Widget", "7.0", &["a", "b"], "Processor", "100.0", false, false, "1.5")),
        Some("1.50 (2024-01-01T00:00:00Z) Salvaged Widget worth 100 via Processor (item categories: [a,b])".to_string())
    );
    assert_eq!(
        line(&entry("Hull", "2.5", &["metal"], "Furnace", "10.25", true, true, "3.14159")),
        Some("3.14 (2024-01-01T00:00:00Z) Destroyed 2.5 kg of Hull worth 10.25 via Furnace (item categories: [metal])".to_string())
    );
    assert_eq!(
        line(&entry("Reactor", "5000.0", &[], "Processor", "0.0", false, true, "7.0")),
        Some("7.00 (2024-01-01T00:00:00Z) Destroyed Reactor worth 0 via Processor (item categories: [])".to_string())
    );
}

#[test]
fn line_is_put_together_from_what_it_is_given() {
    let event = entry("Reactor", "5000.0", &["x", "y", "z"], "Processor", "0.0", true, true, "7.0");
    let given = Figures {
        game_time: "<t>".to_string(),
        mass: "<m>".to_string(),
        value: "<v>".to_string(),
        ..Figures::default()
    };
    assert_eq!(
        event.line_with("<when>", "<gone> ", &given),
        "<t> (<when>) <gone> <m> kg of Reactor worth <v> via Processor (item categories: [x,y,z])"
    );
    let given = Figures { current_time: "<c>".to_string(), max_time: "<x>".to_string(), ..Figures::default() };
    assert_eq!(
        every_variant()[6].line_with("<when>", "unused", &given),
        "(<when>) registered time tick to <c>s, shift will end at <x>s"
    );
}

#[test]
fn outcome_word_is_painted_where_colouring_is_on() {
    let salvaged = salvage_entry();
    let destroyed = entry("Hull", "2.5", &[], "Furnace", "10.25", false, true, "3.0");
    let welcome = SalvageEvent::WelcomeEvent { msg: "hi".to_string() };
    colored::control::set_override(false);
    assert_eq!(salvaged.console_line(&figures(&salvaged)), line(&salvaged));
    assert_eq!(destroyed.console_line(&figures(&destroyed)), line(&destroyed));
    assert_eq!(welcome.console_line(&Figures::default()), Some("hi".to_string()));
    colored::control::set_override(true);
    assert_eq!(
        salvaged.console_line(&figures(&salvaged)),
        Some("63.25 (2024-01-01T00:00:00Z) \u{1b}[1;32mSalvaged \u{1b}[0m12.5 kg of Crate worth 100 via Furnace (item categories: [Metal,Nano])".to_string())
    );
    assert_eq!(
        destroyed.console_line(&figures(&destroyed)),
        Some("3.00 (2024-01-01T00:00:00Z) \u{1b}[1;31mDestroyed \u{1b}[0mHull worth 10.25 via Furnace (item categories: [])".to_string())
    );
    assert_eq!(welcome.console_line(&Figures::default()), Some("hi".to_string()));
    colored::control::unset_override();
}

#[test]
fn decoded_event_can_be_written() {
    let event = SalvageEvent::decode("{\"type\":\"endShiftEvent\",\"systemTime\":\"+262142-12-31T23:59:59Z\"}");
    if let Ok(event) = event {
        assert!(event.encode().is_some());
        assert!(event.console_line(&Figures::default()).is_some());
    }
    let json = SalvageEvent::StartShiftEvent { system_time: new_year() }
        .json_with_time(&"now".to_string());
    assert_eq!(json.to_text(), "{\"type\":\"startShiftEvent\",\"systemTime\":\"now\"}");
}

#[test]
fn number_literals_are_told_from_other_texts() {
    for text in ["0", "-0", "7", "10", "-12.5", "0.001", "1e21", "1E-7", "123.456e+78", "1.0", "900.0"] {
        assert!(is_number_literal(text), "{}", text);
        assert_eq!(Decimal::new(text).unwrap().as_str(), text);
    }
    for text in [
        "", "-", "+1", "01", "-01", "1.", ".5", "1e", "1e+", "1.5.2", "1e5e5", "0x10", "1 ", " 1",
        "NaN", "1,\"destroyed\":true", "1f", "--1", "1.e5",
    ] {
        assert!(!is_number_literal(text), "{}", text);
        assert!(Decimal::new(text).is_none(), "{}", text);
    }
}

#[test]
fn quantity_keeps_its_literal_through_a_copy() {
    let quantity = decimal("63.25");
    assert_eq!(quantity.clone(), quantity);
    assert_eq!(quantity.clone().as_str(), "63.25");
}

fn escaped_as_stated(c: char) -> String {
    match c {
        '"' => "\\\"".to_string(),
        '\\' => "\\\\".to_string(),
        '\u{8}' => "\\b".to_string(),
        '\t' => "\\t".to_string(),
        '\n' => "\\n".to_string(),
        '\u{c}' => "\\f".to_string(),
        '\r' => "\\r".to_string(),
        c if (c as u32) < 32 => format!("\\u00{:x}{:x}", (c as u32) / 16, (c as u32) % 16),
        c => c.to_string(),
    }
}

#[test]
fn string_literal_escapes_what_it_must() {
    let mut text = String::new();
    let mut expected = String::from("\"");
    for code in (0u32..300).chain([0x2028, 0xfeff, 0x1f600]) {
        let c = char::from_u32(code).unwrap();
        text.push(c);
        expected.push_str(&escaped_as_stated(c));
    }
    expected.push('"');
    assert_eq!(Json::Text(text).to_text(), expected);
    assert_eq!(Json::Text(String::new()).to_text(), "\"\"");
    assert_eq!(Json::Text("\u{1f}".to_string()).to_text(), "\"\\u001f\"");
}
