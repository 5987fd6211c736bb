//! The setup form and the free-play page of the analogue clock exercise.

use crate::markup::{choice, choice_markup, fieldset, fieldset_markup, numeric_field, numeric_field_markup};
use vstd::prelude::*;

verus! {

/// The opt-in switch for seconds.
pub open spec fn include_seconds_toggle() -> Seq<char> {
    "<label><input type=\"checkbox\" id=\"include-seconds\" name=\"include-seconds\" value=\"1\"> oefen ook met seconden</label>"@
}

/// The seconds fieldset: an opt-in switch, and, hidden until it is on,
/// the step of the second hand (five seconds by default, or every second).
pub open spec fn seconds_markup() -> Seq<char> {
    fieldset_markup(
        "Seconden (gevorderd)"@,
        include_seconds_toggle() + "<div id=\"second-options\" hidden>"@ + choice_markup(
            "radio"@,
            "second-step"@,
            "5"@,
            "per vijf seconden"@,
            true,
        ) + choice_markup("radio"@, "second-step"@, "1"@, "elke seconde (moeilijk)"@, false)
            + "</div>"@,
    )
}

/// The seconds fieldset shared by the analogue and the digital clock.
pub fn seconds_fieldset() -> (r: String)
    ensures
        r@ == seconds_markup(),
{
    let mut inner = String::from_str(
        "<label><input type=\"checkbox\" id=\"include-seconds\" name=\"include-seconds\" value=\"1\"> oefen ook met seconden</label>",
    );
    inner.append("<div id=\"second-options\" hidden>");
    let five = choice("radio", "second-step", "5", "per vijf seconden", true);
    inner.append(five.as_str());
    let one = choice("radio", "second-step", "1", "elke seconde (moeilijk)", false);
    inner.append(one.as_str());
    inner.append("</div>");
    fieldset("Seconden (gevorderd)", inner.as_str())
}

/// How precise the clock times are: full hours by default.
pub open spec fn granularity_markup() -> Seq<char> {
    fieldset_markup(
        "Hoe nauwkeurig?"@,
        choice_markup("radio"@, "granularity"@, "hour"@, "volle uren (12:00)"@, true)
            + choice_markup("radio"@, "granularity"@, "half"@, "half uur (12:30)"@, false)
            + choice_markup(
            "radio"@,
            "granularity"@,
            "quarter"@,
            "kwartier (12:15, 12:30, 12:45)"@,
            false,
        ) + choice_markup("radio"@, "granularity"@, "five"@, "vijf minuten"@, false)
            + choice_markup("radio"@, "granularity"@, "one"@, "elke minuut (moeilijk)"@, false),
    )
}

/// Which kinds of question: reading the clock, setting it from a digital
/// time, setting it from a Dutch phrase; all on by default.
pub open spec fn question_kinds_markup() -> Seq<char> {
    fieldset_markup(
        "Welke oefeningen?"@,
        choice_markup("checkbox"@, "ck"@, "lees"@, "lees de klok 🕐"@, true) + choice_markup(
            "checkbox"@,
            "ck"@,
            "zet"@,
            "zet de klok vanuit een digitale tijd ⏰"@,
            true,
        ) + choice_markup(
            "checkbox"@,
            "ck"@,
            "zet-woorden"@,
            "zet de klok vanuit woorden (\"kwart voor vier\") 💬"@,
            true,
        ),
    )
}

/// How a read-the-clock question is answered: multiple choice by default,
/// or by typing the time.
pub open spec fn answer_mode_markup() -> Seq<char> {
    fieldset_markup(
        "Hoe antwoord je bij \"lees de klok\"?"@,
        choice_markup("radio"@, "answer"@, "multiple"@, "kies uit meerdere antwoorden"@, true)
            + choice_markup("radio"@, "answer"@, "fill"@, "typ de tijd zelf in"@, false),
    )
}

/// The advanced option to hide the numbers on the dial.
pub open spec fn dial_options_markup() -> Seq<char> {
    fieldset_markup(
        "Extra opties (gevorderd)"@,
        choice_markup(
            "checkbox"@,
            "hide-numbers"@,
            "1"@,
            "verberg de getallen op de wijzerplaat"@,
            false,
        ),
    )
}

/// The setup form of the analogue clock: how many questions (1 to 60, 10
/// by default), the precision, the kinds of question, the answer mode, the
/// opt-in seconds and the dial option.
pub open spec fn clock_config_markup() -> Seq<char> {
    numeric_field_markup("num-exercises"@, "Hoeveel oefeningen?"@, "1"@, "60"@, "10"@, true)
        + granularity_markup() + question_kinds_markup() + answer_mode_markup() + seconds_markup()
        + dial_options_markup()
}

/// The setup form fields of the analogue clock exercise.
pub fn clock_config_fields() -> (r: String)
    ensures
        r@ == clock_config_markup(),
{
    let mut r = numeric_field("num-exercises", "Hoeveel oefeningen?", "1", "60", "10", true);

    let mut granularity = choice("radio", "granularity", "hour", "volle uren (12:00)", true);
    let half = choice("radio", "granularity", "half", "half uur (12:30)", false);
    granularity.append(half.as_str());
    let quarter = choice("radio", "granularity", "quarter", "kwartier (12:15, 12:30, 12:45)", false);
    granularity.append(quarter.as_str());
    let five = choice("radio", "granularity", "five", "vijf minuten", false);
    granularity.append(five.as_str());
    let one = choice("radio", "granularity", "one", "elke minuut (moeilijk)", false);
    granularity.append(one.as_str());
    let granularity_set = fieldset("Hoe nauwkeurig?", granularity.as_str());
    r.append(granularity_set.as_str());

    let mut kinds = choice("checkbox", "ck", "lees", "lees de klok 🕐", true);
    let set_digital = choice("checkbox", "ck", "zet", "zet de klok vanuit een digitale tijd ⏰", true);
    kinds.append(set_digital.as_str());
    let set_words = choice(
        "checkbox",
        "ck",
        "zet-woorden",
        "zet de klok vanuit woorden (\"kwart voor vier\") 💬",
        true,
    );
    kinds.append(set_words.as_str());
    let kinds_set = fieldset("Welke oefeningen?", kinds.as_str());
    r.append(kinds_set.as_str());

    let mut answer = choice("radio", "answer", "multiple", "kies uit meerdere antwoorden", true);
    let fill = choice("radio", "answer", "fill", "typ de tijd zelf in", false);
    answer.append(fill.as_str());
    let answer_set = fieldset("Hoe antwoord je bij \"lees de klok\"?", answer.as_str());
    r.append(answer_set.as_str());

    let seconds = seconds_fieldset();
    r.append(seconds.as_str());

    let hide = choice("checkbox", "hide-numbers", "1", "verberg de getallen op de wijzerplaat", false);
    let dial_set = fieldset("Extra opties (gevorderd)", hide.as_str());
    r.append(dial_set.as_str());
    r
}

/// The invitation under the setup form to explore the clock freely.
pub open spec fn clock_freeplay_entry_markup() -> Seq<char> {
    "<div class=\"freeplay-entry\"><p class=\"freeplay-entry-hint\">Wil je de klok verkennen zonder oefeningen? Gebruik de vrije modus — handig om de klok samen uit te leggen.</p><button type=\"button\" id=\"freeplay-open\" class=\"btn-lift\">🕐 vrij verkennen</button></div>"@
}

/// The invitation to the free-play page, shown under the setup form.
pub fn clock_freeplay_entry() -> (r: String)
    ensures
        r@ == clock_freeplay_entry_markup(),
{
    String::from_str(
        "<div class=\"freeplay-entry\"><p class=\"freeplay-entry-hint\">Wil je de klok verkennen zonder oefeningen? Gebruik de vrije modus — handig om de klok samen uit te leggen.</p><button type=\"button\" id=\"freeplay-open\" class=\"btn-lift\">🕐 vrij verkennen</button></div>",
    )
}

/// The free-play page, hidden until opened: a way back to the menu, the
/// interactive clock starting at 06:00 ("zes uur"), its digital reading
/// and Dutch phrase, a switch that shows the seconds, and step buttons
/// for the hour, the minute and (once seconds are shown) the second.
pub open spec fn clock_freeplay_markup() -> Seq<char> {
    "<section id=\"page-freeplay\" hidden><div class=\"exercise-meta\"><button type=\"button\" id=\"freeplay-back\" class=\"button-reset btn-lift\">terug naar menu ↩️</button><p id=\"freeplay-title\">vrij verkennen 🕐</p></div><div id=\"freeplay-clock\"></div><div class=\"freeplay-time\"><p class=\"time-readout\" id=\"freeplay-digital\">06:00</p><p class=\"freeplay-phrase\" id=\"freeplay-phrase\">zes uur</p></div><label class=\"freeplay-seconds-toggle\"><input type=\"checkbox\" id=\"freeplay-seconds\" name=\"freeplay-seconds\"> toon de seconden</label><div class=\"clock-controls\"><div class=\"clock-control-row\"><span class=\"label\">uur</span><div class=\"button-pair\"><button type=\"button\" id=\"freeplay-hour-dec\">➖</button><button type=\"button\" id=\"freeplay-hour-inc\">➕</button></div></div><div class=\"clock-control-row\"><span class=\"label\">minuut</span><div class=\"button-pair\"><button type=\"button\" id=\"freeplay-min-dec\">➖</button><button type=\"button\" id=\"freeplay-min-inc\">➕</button></div></div><div id=\"freeplay-second-controls\" class=\"clock-control-row\" hidden><span class=\"label\">seconde</span><div class=\"button-pair\"><button type=\"button\" id=\"freeplay-sec-dec\">➖</button><button type=\"button\" id=\"freeplay-sec-inc\">➕</button></div></div></div></section>"@
}

/// The free-play page of the analogue clock.
pub fn clock_freeplay_section() -> (r: String)
    ensures
        r@ == clock_freeplay_markup(),
{
    String::from_str(
        "<section id=\"page-freeplay\" hidden><div class=\"exercise-meta\"><button type=\"button\" id=\"freeplay-back\" class=\"button-reset btn-lift\">terug naar menu ↩️</button><p id=\"freeplay-title\">vrij verkennen 🕐</p></div><div id=\"freeplay-clock\"></div><div class=\"freeplay-time\"><p class=\"time-readout\" id=\"freeplay-digital\">06:00</p><p class=\"freeplay-phrase\" id=\"freeplay-phrase\">zes uur</p></div><label class=\"freeplay-seconds-toggle\"><input type=\"checkbox\" id=\"freeplay-seconds\" name=\"freeplay-seconds\"> toon de seconden</label><div class=\"clock-controls\"><div class=\"clock-control-row\"><span class=\"label\">uur</span><div class=\"button-pair\"><button type=\"button\" id=\"freeplay-hour-dec\">➖</button><button type=\"button\" id=\"freeplay-hour-inc\">➕</button></div></div><div class=\"clock-control-row\"><span class=\"label\">minuut</span><div class=\"button-pair\"><button type=\"button\" id=\"freeplay-min-dec\">➖</button><button type=\"button\" id=\"freeplay-min-inc\">➕</button></div></div><div id=\"freeplay-second-controls\" class=\"clock-control-row\" hidden><span class=\"label\">seconde</span><div class=\"button-pair\"><button type=\"button\" id=\"freeplay-sec-dec\">➖</button><button type=\"button\" id=\"freeplay-sec-inc\">➕</button></div></div></div></section>",
    )
}

} // verus!
