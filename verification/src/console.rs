//! The line that the console shows for an event.

use crate::event::{event_time_text, EventView, SalvageEvent};
use crate::json::{integer_text, write_integer};
use crate::time::Precision;
use colored::Colorize;
use vstd::prelude::*;

verus! {

/// `parts` one after the other with a comma between neighbours.
pub open spec fn comma_joined(parts: Seq<Seq<char>>) -> Seq<char>
    decreases parts.len(),
{
    if parts.len() == 0 {
        Seq::empty()
    } else if parts.len() == 1 {
        parts[0]
    } else {
        comma_joined(parts.drop_last()) + ","@ + parts.last()
    }
}

/// The quantities of an event as the console shows them: the game time with
/// two decimals, the others as a float is displayed. A caller that holds the
/// floats renders them; an event that lacks a quantity leaves its text unused.
#[derive(Clone, Debug, Default, PartialEq, Eq)]
pub struct Figures {
    pub game_time: String,
    pub mass: String,
    pub value: String,
    pub current_time: String,
    pub max_time: String,
}

/// The shown quantities as mathematical values.
pub struct FiguresView {
    pub game_time: Seq<char>,
    pub mass: Seq<char>,
    pub value: Seq<char>,
    pub current_time: Seq<char>,
    pub max_time: Seq<char>,
}

impl View for Figures {
    type V = FiguresView;

    open spec fn view(&self) -> FiguresView {
        FiguresView {
            game_time: self.game_time@,
            mass: self.mass@,
            value: self.value@,
            current_time: self.current_time@,
            max_time: self.max_time@,
        }
    }
}

/// The console line of an event, given the text of its instant, the badge
/// (the outcome word of a salvage entry as the terminal is to show it) and
/// the quantities as they are to be shown.
pub open spec fn line_of(event: EventView, time: Seq<char>, badge: Seq<char>, shown: FiguresView) -> Seq<
    char,
> {
    match event {
        EventView::WelcomeEvent { msg } => msg,
        EventView::ShiftSalvageLogEntry {
            object_name,
            mass,
            categories,
            salvaged_by,
            value,
            mass_based_value,
            destroyed,
            game_time,
            system_time,
        } => shown.game_time + " ("@ + time + ") "@ + badge + (if mass_based_value {
            shown.mass + " kg of "@
        } else {
            Seq::empty()
        }) + object_name + " worth "@ + shown.value + " via "@ + salvaged_by
            + " (item categories: ["@ + comma_joined(categories) + "])"@,
        EventView::GameStateChangedEvent {
            current_game_state,
            previous_game_state,
            system_time,
        } => "("@ + time + ") game state changed from "@ + previous_game_state + " to "@
            + current_game_state,
        EventView::StartShiftEvent { system_time } => "("@ + time + ") started new shift"@,
        EventView::EndShiftEvent { system_time } => "("@ + time + ") ended shift"@,
        EventView::SetRACEInfoEvent {
            seed,
            version,
            start_date_utc,
            max_total_value,
            max_salvage_mass,
            system_time,
        } => "("@ + time + ") current shift is a RACE: seed="@ + integer_text(seed) + " version="@
            + integer_text(version) + " start_date_utc="@ + start_date_utc + " max_total_value="@
            + integer_text(max_total_value) + " max_salvage_mass="@ + integer_text(
            max_salvage_mass,
        ),
        EventView::TimeTickEvent { current_time, max_time, system_time } => "("@ + time
            + ") registered time tick to "@ + shown.current_time + "s, shift will end at "@
            + shown.max_time + "s"@,
    }
}

/// The outcome word of a salvage entry; empty for any other event.
pub open spec fn outcome_word(event: EventView) -> Seq<char> {
    match event {
        EventView::ShiftSalvageLogEntry { destroyed, .. } => if destroyed {
            "Destroyed "@
        } else {
            "Salvaged "@
        },
        _ => Seq::empty(),
    }
}

/// The outcome word of a salvage entry between the terminal's sequences for
/// its colour (bold red for a destroyed object, bold green for a salvaged
/// one) and for the reset; empty for any other event.
pub open spec fn painted_word(event: EventView) -> Seq<char> {
    match event {
        EventView::ShiftSalvageLogEntry { destroyed, .. } => if destroyed {
            "\u{1b}[1;31m"@ + "Destroyed "@ + "\u{1b}[0m"@
        } else {
            "\u{1b}[1;32m"@ + "Salvaged "@ + "\u{1b}[0m"@
        },
        _ => Seq::empty(),
    }
}

/// The outcome word of a salvage entry followed by the terminal's reset
/// sequence alone, as it comes out when colouring is switched off while the
/// word is being painted; empty for any other event.
pub open spec fn reset_word(event: EventView) -> Seq<char> {
    match event {
        EventView::ShiftSalvageLogEntry { destroyed, .. } => if destroyed {
            "Destroyed "@ + "\u{1b}[0m"@
        } else {
            "Salvaged "@ + "\u{1b}[0m"@
        },
        _ => Seq::empty(),
    }
}

/// Whether `text` is the console line of an event with its outcome word
/// plain, painted, or followed by the reset sequence alone.
pub open spec fn is_console_line(
    text: Seq<char>,
    event: EventView,
    time: Seq<char>,
    shown: FiguresView,
) -> bool {
    ||| text == line_of(event, time, outcome_word(event), shown)
    ||| text == line_of(event, time, painted_word(event), shown)
    ||| text == line_of(event, time, reset_word(event), shown)
}

/// Whether a text holds no escape character.
pub open spec fn is_plain(text: Seq<char>) -> bool {
    forall|i: int| 0 <= i < text.len() ==> text[i] != '\u{1b}'
}

/// The text in bold red as `colored` renders it: the text alone where
/// colouring is off, else the text between the sequence for bold red and the
/// reset sequence. `colored` reads its process-wide switch again while it
/// writes, so where the switch goes off in between, the text comes with the
/// reset sequence and without the sequence for the colour. Which of the three
/// it is depends on the process and its environment. A text with an escape
/// character in it is left out, because `colored` rewrites reset sequences
/// inside the text.
#[verifier::external_body]
fn bold_red(text: &str) -> (painted: String)
    requires
        is_plain(text@),
    ensures
        painted@ == text@ || painted@ == "\u{1b}[1;31m"@ + text@ + "\u{1b}[0m"@ || painted@
            == text@ + "\u{1b}[0m"@,
{
    format!("{}", text.red().bold())
}

/// The text in bold green as `colored` renders it; see [`bold_red`].
#[verifier::external_body]
fn bold_green(text: &str) -> (painted: String)
    requires
        is_plain(text@),
    ensures
        painted@ == text@ || painted@ == "\u{1b}[1;32m"@ + text@ + "\u{1b}[0m"@ || painted@
            == text@ + "\u{1b}[0m"@,
{
    format!("{}", text.green().bold())
}

fn append_joined(parts: &Vec<String>, out: &mut String)
    ensures
        final(out)@ == old(out)@ + comma_joined(parts@.map_values(|c: String| c@)),
{
    let ghost views = parts@.map_values(|c: String| c@);
    let mut index: usize = 0;
    assert(views.take(0) =~= Seq::<Seq<char>>::empty());
    while index < parts.len()
        invariant
            0 <= index <= parts.len(),
            views == parts@.map_values(|c: String| c@),
            out@ == old(out)@ + comma_joined(views.take(index as int)),
        decreases parts.len() - index,
    {
        if index > 0 {
            out.append(",");
        }
        out.append(parts[index].as_str());
        proof {
            let taken = views.take(index as int + 1);
            assert(taken.drop_last() =~= views.take(index as int));
            assert(taken.last() == parts@[index as int]@);
            assert(out@ =~= old(out)@ + comma_joined(taken));
        }
        index = index + 1;
    }
    assert(views.take(parts@.len() as int) =~= views);
}

impl SalvageEvent {
    /// The console line of this event, given the text of its instant, the
    /// badge and the quantities as they are to be shown.
    pub fn line_with(&self, time: &str, badge: &str, shown: &Figures) -> (line: String)
        ensures
            line@ == line_of(self@, time@, badge@, shown@),
    {
        let mut out = String::new();
        match self {
            SalvageEvent::WelcomeEvent { msg } => {
                out.append(msg.as_str());
            },
            SalvageEvent::ShiftSalvageLogEntry {
                object_name,
                mass,
                categories,
                salvaged_by,
                value,
                mass_based_value,
                destroyed,
                game_time,
                system_time,
            } => {
                out.append(shown.game_time.as_str());
                out.append(" (");
                out.append(time);
                out.append(") ");
                out.append(badge);
                if *mass_based_value {
                    out.append(shown.mass.as_str());
                    out.append(" kg of ");
                }
                out.append(object_name.as_str());
                out.append(" worth ");
                out.append(shown.value.as_str());
                out.append(" via ");
                out.append(salvaged_by.as_str());
                out.append(" (item categories: [");
                append_joined(categories, &mut out);
                out.append("])");
            },
            SalvageEvent::GameStateChangedEvent {
                current_game_state,
                previous_game_state,
                system_time,
            } => {
                out.append("(");
                out.append(time);
                out.append(") game state changed from ");
                out.append(previous_game_state.as_str());
                out.append(" to ");
                out.append(current_game_state.as_str());
            },
            SalvageEvent::StartShiftEvent { system_time } => {
                out.append("(");
                out.append(time);
                out.append(") started new shift");
            },
            SalvageEvent::EndShiftEvent { system_time } => {
                out.append("(");
                out.append(time);
                out.append(") ended shift");
            },
            SalvageEvent::SetRACEInfoEvent {
                seed,
                version,
                start_date_utc,
                max_total_value,
                max_salvage_mass,
                system_time,
            } => {
                out.append("(");
                out.append(time);
                out.append(") current shift is a RACE: seed=");
                write_integer(*seed, &mut out);
                out.append(" version=");
                write_integer(*version, &mut out);
                out.append(" start_date_utc=");
                out.append(start_date_utc.as_str());
                out.append(" max_total_value=");
                write_integer(*max_total_value, &mut out);
                out.append(" max_salvage_mass=");
                write_integer(*max_salvage_mass, &mut out);
            },
            SalvageEvent::TimeTickEvent { current_time, max_time, system_time } => {
                out.append("(");
                out.append(time);
                out.append(") registered time tick to ");
                out.append(shown.current_time.as_str());
                out.append("s, shift will end at ");
                out.append(shown.max_time.as_str());
                out.append("s");
            },
        }
        assert(out@ =~= line_of(self@, time@, badge@, shown@));
        out
    }

    /// The console line of this event with the quantities as they are to be
    /// shown; `None` where the event's instant cannot be written. The outcome
    /// word of a salvage entry comes plain where colouring is off and painted
    /// where it is on.
    pub fn console_line(&self, shown: &Figures) -> (line: Option<String>)
        ensures
            match event_time_text(self@, Precision::Seconds) {
                Some(time) => line matches Some(text) && is_console_line(
                    text@,
                    self@,
                    time,
                    shown@,
                ),
                None => line is None,
            },
    {
        let time = match self.time_text(Precision::Seconds) {
            Some(time) => time,
            None => {
                return None;
            },
        };
        match self {
            SalvageEvent::ShiftSalvageLogEntry { destroyed, .. } => {
                let badge = if *destroyed {
                    proof {
                        reveal_strlit("Destroyed ");
                    }
                    bold_red("Destroyed ")
                } else {
                    proof {
                        reveal_strlit("Salvaged ");
                    }
                    bold_green("Salvaged ")
                };
                Some(self.line_with(time.as_str(), badge.as_str(), shown))
            },
            _ => Some(self.line_with(time.as_str(), "", shown)),
        }
    }
}

} // verus!
