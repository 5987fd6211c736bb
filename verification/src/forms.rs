//! The setup forms of the exercise pages: which questions a session asks,
//! how many, and how they are answered. The script reads the controls by
//! name and id.

use crate::clock::{seconds_fieldset, seconds_markup};
use crate::markup::{
    choice, choice_markup, fieldset, fieldset_markup, numeric_field, numeric_field_markup,
    time_mode_fieldset, time_mode_markup,
};
use crate::text::{decimal, push_decimal};
use vstd::prelude::*;

verus! {

/// A row of options laid out side by side.
pub open spec fn kinds_markup(inner: Seq<char>) -> Seq<char> {
    "<div class=\"kinds\">"@ + inner + "</div>"@
}

/// A row of options laid out side by side.
pub fn kinds(inner: &str) -> (r: String)
    ensures
        r@ == kinds_markup(inner@),
{
    let mut r = String::from_str("<div class=\"kinds\">");
    r.append(inner);
    r.append("</div>");
    r
}

/// The number of questions in a session: 1 up to `max`, 10 by default.
pub open spec fn num_exercises_markup(max: Seq<char>) -> Seq<char> {
    numeric_field_markup("num-exercises"@, "Hoeveel oefeningen?"@, "1"@, max, "10"@, true)
}

/// The number of questions in a session: 1 up to `max`, 10 by default.
pub fn num_exercises_field(max: &str) -> (r: String)
    ensures
        r@ == num_exercises_markup(max@),
{
    numeric_field("num-exercises", "Hoeveel oefeningen?", "1", max, "10", true)
}

/// One denominator chip of the fractions form.
pub open spec fn den_chip_markup(n: u8, checked: bool) -> Seq<char> {
    "<label class=\"den-chip\"><input type=\"checkbox\" name=\"denominators\" value=\""@ + decimal(
        n as nat,
    ) + "\""@ + (if checked {
        " checked"@
    } else {
        ""@
    }) + ">"@ + decimal(n as nat) + "</label>"@
}

/// One denominator chip of the fractions form.
pub fn den_chip(n: u8, checked: bool) -> (r: String)
    ensures
        r@ == den_chip_markup(n, checked),
{
    let mut r = String::from_str(
        "<label class=\"den-chip\"><input type=\"checkbox\" name=\"denominators\" value=\"",
    );
    push_decimal(&mut r, n);
    let ghost before = r@;
    if checked {
        r.append("\" checked");
        assert(r@ =~= before + "\""@ + " checked"@) by {
            reveal_strlit("\" checked");
            reveal_strlit("\"");
            reveal_strlit(" checked");
        }
    } else {
        r.append("\"");
        assert(r@ =~= before + "\""@ + ""@) by {
            reveal_strlit("");
        }
    }
    r.append(">");
    push_decimal(&mut r, n);
    r.append("</label>");
    r
}

/// One times table to choose, `tafel <t>`.
pub open spec fn table_choice_markup(t: u8) -> Seq<char> {
    "<label><input type=\"checkbox\" id=\"table-"@ + decimal(t as nat) + "\" data-table=\""@
        + decimal(t as nat) + "\"> tafel "@ + decimal(t as nat) + "</label>"@
}

/// The choices for the tables 1 up to `n`, in order.
pub open spec fn table_choices_markup(n: u8) -> Seq<char>
    decreases n,
{
    if n == 0 {
        Seq::<char>::empty()
    } else {
        table_choices_markup((n - 1) as u8) + table_choice_markup(n)
    }
}

/// The setup form of maaltafels: how many questions (up to 200), the
/// tables 1 to 10 to choose from (none chosen; the script preselects) with
/// a switch that selects them all, and the time mode.
pub open spec fn multiplications_config_markup() -> Seq<char> {
    num_exercises_markup("200"@)
        + fieldset_markup(
        "Welke maaltafels?"@,
        "<div id=\"tables\">"@ + table_choices_markup(10)
            + "</div><label><input type=\"checkbox\" id=\"select-all\"> selecteer alle tafels van 1 tot en met 10</label>"@,
    ) + time_mode_markup()
}

/// The setup form fields of maaltafels.
pub fn multiplications_config_fields() -> (r: String)
    ensures
        r@ == multiplications_config_markup(),
{
    let mut tables = String::from_str("<div id=\"tables\">");
    let ghost start = tables@;
    let mut t: u8 = 1;
    while t <= 10
        invariant
            1 <= t <= 11,
            tables@ == start + table_choices_markup((t - 1) as u8),
        decreases 11 - t,
    {
        tables.append("<label><input type=\"checkbox\" id=\"table-");
        push_decimal(&mut tables, t);
        tables.append("\" data-table=\"");
        push_decimal(&mut tables, t);
        tables.append("\"> tafel ");
        push_decimal(&mut tables, t);
        tables.append("</label>");
        assert(table_choices_markup(t) == table_choices_markup((t - 1) as u8) + table_choice_markup(t));
        t = t + 1;
    }
    tables.append(
        "</div><label><input type=\"checkbox\" id=\"select-all\"> selecteer alle tafels van 1 tot en met 10</label>",
    );
    let mut fields = num_exercises_field("200");
    fields.append(fieldset("Welke maaltafels?", tables.as_str()).as_str());
    fields.append(time_mode_fieldset().as_str());
    fields
}

/// The setup form of rekendoos: how far the child can count (3 to 1000, 10 by default), how many questions (up to 200), which operations (addition, subtraction and splitting on by default; multiplication and division off) and the time mode.
pub open spec fn mathbox_config_markup() -> Seq<char> {
    numeric_field_markup("count-until"@, "Tot hoeveel kan het kind al tellen?"@, "3"@, "1000"@, "10"@, true)
        + num_exercises_markup("200"@)
        + fieldset_markup("Wat wil je oefenen?"@, kinds_markup(choice_markup("checkbox"@, "practice"@, "som"@, "optellen ➕"@, true) + choice_markup("checkbox"@, "practice"@, "verschil"@, "aftrekken ➖"@, true) + choice_markup("checkbox"@, "practice"@, "splitsen"@, "splitsen 🔼"@, true) + choice_markup("checkbox"@, "practice"@, "vermenigvuldigen"@, "vermenigvuldigen ✖️"@, false) + choice_markup("checkbox"@, "practice"@, "delen"@, "delen ➗"@, false)))
        + time_mode_markup()
}

/// The setup form fields of rekendoos.
pub fn mathbox_config_fields() -> (r: String)
    ensures
        r@ == mathbox_config_markup(),
{
    let mut fields = numeric_field("count-until", "Tot hoeveel kan het kind al tellen?", "3", "1000", "10", true);
    fields.append(num_exercises_field("200").as_str());
    let mut part2 = choice("checkbox", "practice", "som", "optellen ➕", true);
    part2.append(choice("checkbox", "practice", "verschil", "aftrekken ➖", true).as_str());
    part2.append(choice("checkbox", "practice", "splitsen", "splitsen 🔼", true).as_str());
    part2.append(choice("checkbox", "practice", "vermenigvuldigen", "vermenigvuldigen ✖️", false).as_str());
    part2.append(choice("checkbox", "practice", "delen", "delen ➗", false).as_str());
    let part3 = kinds(part2.as_str());
    let part4 = fieldset("Wat wil je oefenen?", part3.as_str());
    fields.append(part4.as_str());
    fields.append(time_mode_fieldset().as_str());
    fields
}

/// The setup form of thermometer: the upper bound (3 to 100, 20 by default), the opt-in negative temperatures with their depth (hidden until chosen), how many questions (up to 100) and the kinds of question (colouring and reading, both on).
pub open spec fn thermometer_config_markup() -> Seq<char> {
    numeric_field_markup("vmax"@, "Bovengrens (hoogste temperatuur)"@, "3"@, "100"@, "20"@, true)
        + fieldset_markup("Negatieve temperaturen"@, "<label><input type=\"checkbox\" id=\"allow-negative\" name=\"allow-negative\"> ook onder 0 °C oefenen ❄️</label><div id=\"vmin-neg-field\" class=\"field\" hidden><label for=\"vmin-neg\">Hoe diep onder 0 mag de thermometer gaan?</label><input inputmode=\"numeric\" pattern=\"[0-9]+\" id=\"vmin-neg\" name=\"vmin-neg\" min=\"1\" max=\"50\" value=\"10\"></div>"@)
        + num_exercises_markup("100"@)
        + fieldset_markup("Welke types?"@, choice_markup("checkbox"@, "tk"@, "teken"@, "kleur de thermometer 🎨"@, true) + choice_markup("checkbox"@, "tk"@, "schrijf"@, "lees de temperatuur ✏️"@, true))
}

/// The setup form fields of thermometer.
pub fn thermometer_config_fields() -> (r: String)
    ensures
        r@ == thermometer_config_markup(),
{
    let mut fields = numeric_field("vmax", "Bovengrens (hoogste temperatuur)", "3", "100", "20", true);
    let part2 = String::from_str("<label><input type=\"checkbox\" id=\"allow-negative\" name=\"allow-negative\"> ook onder 0 °C oefenen ❄️</label><div id=\"vmin-neg-field\" class=\"field\" hidden><label for=\"vmin-neg\">Hoe diep onder 0 mag de thermometer gaan?</label><input inputmode=\"numeric\" pattern=\"[0-9]+\" id=\"vmin-neg\" name=\"vmin-neg\" min=\"1\" max=\"50\" value=\"10\"></div>");
    let part3 = fieldset("Negatieve temperaturen", part2.as_str());
    fields.append(part3.as_str());
    fields.append(num_exercises_field("100").as_str());
    let mut part4 = choice("checkbox", "tk", "teken", "kleur de thermometer 🎨", true);
    part4.append(choice("checkbox", "tk", "schrijf", "lees de temperatuur ✏️", true).as_str());
    let part5 = fieldset("Welke types?", part4.as_str());
    fields.append(part5.as_str());
    fields
}

/// The setup form of digital clock: how many questions (up to 60), which times (full, half and quarter hours, all on), which directions (both on), the answer mode for words to digital time (multiple choice by default) and the opt-in seconds.
pub open spec fn digital_clock_config_markup() -> Seq<char> {
    num_exercises_markup("60"@)
        + fieldset_markup("Welke tijden oefen je?"@, choice_markup("checkbox"@, "kind"@, "uur"@, "volle uren (5 uur)"@, true) + choice_markup("checkbox"@, "kind"@, "half"@, "halve uren (half 6)"@, true) + choice_markup("checkbox"@, "kind"@, "kwart"@, "kwartieren (kwart over / kwart voor)"@, true))
        + fieldset_markup("Wat oefen je?"@, choice_markup("checkbox"@, "dir"@, "digital-to-words"@, "digitale tijd → in woorden"@, true) + choice_markup("checkbox"@, "dir"@, "words-to-digital"@, "in woorden → digitale tijd"@, true))
        + fieldset_markup("Bij \"in woorden → digitale tijd\""@, choice_markup("radio"@, "answer"@, "multiple"@, "kies uit meerdere antwoorden"@, true) + choice_markup("radio"@, "answer"@, "fill"@, "typ de tijd zelf in op de klok"@, false) + "<p class=\"field-hint\">Bij \"digitale tijd → in woorden\" wordt altijd uit meerdere keuzes geantwoord — typen van zinnen zoals \"half drie\" zou anders te vaak een typo geven.</p>"@)
        + seconds_markup()
}

/// The setup form fields of digital clock.
pub fn digital_clock_config_fields() -> (r: String)
    ensures
        r@ == digital_clock_config_markup(),
{
    let mut fields = num_exercises_field("60");
    let mut part2 = choice("checkbox", "kind", "uur", "volle uren (5 uur)", true);
    part2.append(choice("checkbox", "kind", "half", "halve uren (half 6)", true).as_str());
    part2.append(choice("checkbox", "kind", "kwart", "kwartieren (kwart over / kwart voor)", true).as_str());
    let part3 = fieldset("Welke tijden oefen je?", part2.as_str());
    fields.append(part3.as_str());
    let mut part4 = choice("checkbox", "dir", "digital-to-words", "digitale tijd → in woorden", true);
    part4.append(choice("checkbox", "dir", "words-to-digital", "in woorden → digitale tijd", true).as_str());
    let part5 = fieldset("Wat oefen je?", part4.as_str());
    fields.append(part5.as_str());
    let mut part6 = choice("radio", "answer", "multiple", "kies uit meerdere antwoorden", true);
    part6.append(choice("radio", "answer", "fill", "typ de tijd zelf in op de klok", false).as_str());
    part6.append("<p class=\"field-hint\">Bij \"digitale tijd → in woorden\" wordt altijd uit meerdere keuzes geantwoord — typen van zinnen zoals \"half drie\" zou anders te vaak een typo geven.</p>");
    let part7 = fieldset("Bij \"in woorden → digitale tijd\"", part6.as_str());
    fields.append(part7.as_str());
    fields.append(seconds_fieldset().as_str());
    fields
}

/// The setup form of breukendoos: the denominators (2, 3, 4 and 6 on by default; 5, 7 to 12 and 15, 20, 25, 50, 100 off), how many questions (up to 200), the operations (fraction of a number, addition and subtraction on; multiplication and division off), unlike denominators as an extra option and the time mode.
pub open spec fn fractions_config_markup() -> Seq<char> {
    fieldset_markup("Noemers"@, "<div class=\"denominator-chips\">"@ + den_chip_markup(2u8, true) + den_chip_markup(3u8, true) + den_chip_markup(4u8, true) + den_chip_markup(5u8, false) + den_chip_markup(6u8, true) + den_chip_markup(7u8, false) + den_chip_markup(8u8, false) + den_chip_markup(9u8, false) + den_chip_markup(10u8, false) + den_chip_markup(11u8, false) + den_chip_markup(12u8, false) + "<span class=\"den-chip-sep\"></span>"@ + den_chip_markup(15u8, false) + den_chip_markup(20u8, false) + den_chip_markup(25u8, false) + den_chip_markup(50u8, false) + den_chip_markup(100u8, false) + "</div>"@)
        + num_exercises_markup("200"@)
        + fieldset_markup("Wat wil je oefenen?"@, kinds_markup(choice_markup("checkbox"@, "practice"@, "breuk-van-getal"@, "breuk van getal"@, true) + choice_markup("checkbox"@, "practice"@, "optellen"@, "optellen ➕"@, true) + choice_markup("checkbox"@, "practice"@, "aftrekken"@, "aftrekken ➖"@, true) + choice_markup("checkbox"@, "practice"@, "vermenigvuldigen"@, "vermenigvuldigen ✖️"@, false) + choice_markup("checkbox"@, "practice"@, "delen"@, "delen ➗"@, false)))
        + "<fieldset id=\"extra-opties\"><legend>Extra opties</legend><label><input type=\"checkbox\" id=\"mixed-denominators\" name=\"mixed-denominators\"> ongelijke noemers bij optellen/aftrekken</label></fieldset>"@
        + time_mode_markup()
}

/// The setup form fields of breukendoos.
pub fn fractions_config_fields() -> (r: String)
    ensures
        r@ == fractions_config_markup(),
{
    let mut part2 = String::from_str("<div class=\"denominator-chips\">");
    part2.append(den_chip(2u8, true).as_str());
    part2.append(den_chip(3u8, true).as_str());
    part2.append(den_chip(4u8, true).as_str());
    part2.append(den_chip(5u8, false).as_str());
    part2.append(den_chip(6u8, true).as_str());
    part2.append(den_chip(7u8, false).as_str());
    part2.append(den_chip(8u8, false).as_str());
    part2.append(den_chip(9u8, false).as_str());
    part2.append(den_chip(10u8, false).as_str());
    part2.append(den_chip(11u8, false).as_str());
    part2.append(den_chip(12u8, false).as_str());
    part2.append("<span class=\"den-chip-sep\"></span>");
    part2.append(den_chip(15u8, false).as_str());
    part2.append(den_chip(20u8, false).as_str());
    part2.append(den_chip(25u8, false).as_str());
    part2.append(den_chip(50u8, false).as_str());
    part2.append(den_chip(100u8, false).as_str());
    part2.append("</div>");
    let mut fields = fieldset("Noemers", part2.as_str());
    fields.append(num_exercises_field("200").as_str());
    let mut part3 = choice("checkbox", "practice", "breuk-van-getal", "breuk van getal", true);
    part3.append(choice("checkbox", "practice", "optellen", "optellen ➕", true).as_str());
    part3.append(choice("checkbox", "practice", "aftrekken", "aftrekken ➖", true).as_str());
    part3.append(choice("checkbox", "practice", "vermenigvuldigen", "vermenigvuldigen ✖️", false).as_str());
    part3.append(choice("checkbox", "practice", "delen", "delen ➗", false).as_str());
    let part4 = kinds(part3.as_str());
    let part5 = fieldset("Wat wil je oefenen?", part4.as_str());
    fields.append(part5.as_str());
    fields.append("<fieldset id=\"extra-opties\"><legend>Extra opties</legend><label><input type=\"checkbox\" id=\"mixed-denominators\" name=\"mixed-denominators\"> ongelijke noemers bij optellen/aftrekken</label></fieldset>");
    fields.append(time_mode_fieldset().as_str());
    fields
}

/// The setup form of procenten: the difficulty (easy by default), how many questions (up to 200), what to practise (the first three on, how-many-percent off), the largest number and simplified fractions as extra options, and the time mode.
pub open spec fn percentages_config_markup() -> Seq<char> {
    fieldset_markup("Moeilijkheidsgraad"@, kinds_markup(choice_markup("radio"@, "difficulty"@, "makkelijk"@, "makkelijk (10%, 20%, 25%, 50%)"@, true) + choice_markup("radio"@, "difficulty"@, "gemiddeld"@, "gemiddeld (ook 30%, 60%, 75%, 90%…)"@, false) + choice_markup("radio"@, "difficulty"@, "moeilijk"@, "moeilijk (ook 5%, 15%, 35%…)"@, false)))
        + num_exercises_markup("200"@)
        + fieldset_markup("Wat wil je oefenen?"@, kinds_markup(choice_markup("checkbox"@, "practice"@, "breuk-naar-procent"@, "breuk → procent 📊"@, true) + choice_markup("checkbox"@, "practice"@, "procent-naar-breuk"@, "procent → breuk 🔣"@, true) + choice_markup("checkbox"@, "practice"@, "procent-van-getal"@, "procent van een getal 🔢"@, true) + choice_markup("checkbox"@, "practice"@, "wat-procent"@, "hoeveel procent?"@, false)))
        + "<fieldset><legend>Extra opties</legend><div class=\"field\"><label for=\"max-whole\">Grootste getal (laat leeg voor automatisch)</label><input inputmode=\"numeric\" pattern=\"[0-9]*\" id=\"max-whole\" name=\"max-whole\" min=\"10\" max=\"1000\" placeholder=\"automatisch\"></div><div id=\"simplified-section\"><label><input type=\"checkbox\" id=\"require-simplified\" name=\"require-simplified\"> geef breuk altijd in vereenvoudigde vorm</label></div></fieldset>"@
        + time_mode_markup()
}

/// The setup form fields of procenten.
pub fn percentages_config_fields() -> (r: String)
    ensures
        r@ == percentages_config_markup(),
{
    let mut part2 = choice("radio", "difficulty", "makkelijk", "makkelijk (10%, 20%, 25%, 50%)", true);
    part2.append(choice("radio", "difficulty", "gemiddeld", "gemiddeld (ook 30%, 60%, 75%, 90%…)", false).as_str());
    part2.append(choice("radio", "difficulty", "moeilijk", "moeilijk (ook 5%, 15%, 35%…)", false).as_str());
    let part3 = kinds(part2.as_str());
    let mut fields = fieldset("Moeilijkheidsgraad", part3.as_str());
    fields.append(num_exercises_field("200").as_str());
    let mut part4 = choice("checkbox", "practice", "breuk-naar-procent", "breuk → procent 📊", true);
    part4.append(choice("checkbox", "practice", "procent-naar-breuk", "procent → breuk 🔣", true).as_str());
    part4.append(choice("checkbox", "practice", "procent-van-getal", "procent van een getal 🔢", true).as_str());
    part4.append(choice("checkbox", "practice", "wat-procent", "hoeveel procent?", false).as_str());
    let part5 = kinds(part4.as_str());
    let part6 = fieldset("Wat wil je oefenen?", part5.as_str());
    fields.append(part6.as_str());
    fields.append("<fieldset><legend>Extra opties</legend><div class=\"field\"><label for=\"max-whole\">Grootste getal (laat leeg voor automatisch)</label><input inputmode=\"numeric\" pattern=\"[0-9]*\" id=\"max-whole\" name=\"max-whole\" min=\"10\" max=\"1000\" placeholder=\"automatisch\"></div><div id=\"simplified-section\"><label><input type=\"checkbox\" id=\"require-simplified\" name=\"require-simplified\"> geef breuk altijd in vereenvoudigde vorm</label></div></fieldset>");
    fields.append(time_mode_fieldset().as_str());
    fields
}

/// The setup form of flitskaarten: the selected deck (hidden) and the deck manager filled in by the script, and the time mode.
pub open spec fn flashcards_config_markup() -> Seq<char> {
    "<input type=\"hidden\" id=\"selected-deck-id\" name=\"selected-deck-id\"><div id=\"deck-manager\"></div>"@
        + time_mode_markup()
}

/// The setup form fields of flitskaarten.
pub fn flashcards_config_fields() -> (r: String)
    ensures
        r@ == flashcards_config_markup(),
{
    let mut fields = String::from_str("<input type=\"hidden\" id=\"selected-deck-id\" name=\"selected-deck-id\"><div id=\"deck-manager\"></div>");
    fields.append(time_mode_fieldset().as_str());
    fields
}

/// The setup form of cijfertrainer: the largest number (1 000 by default, or 10 000, 100 000), addition and subtraction (both on), the difficulty (mixed by default, or with or without carrying and borrowing) and how many questions (up to 100).
pub open spec fn written_arithmetic_config_markup() -> Seq<char> {
    fieldset_markup("Tot welk getal?"@, kinds_markup(choice_markup("radio"@, "maximum"@, "1000"@, "tot 1 000"@, true) + choice_markup("radio"@, "maximum"@, "10000"@, "tot 10 000"@, false) + choice_markup("radio"@, "maximum"@, "100000"@, "tot 100 000"@, false)))
        + fieldset_markup("Wat wil je oefenen?"@, kinds_markup(choice_markup("checkbox"@, "practice"@, "som"@, "optellen ➕"@, true) + choice_markup("checkbox"@, "practice"@, "verschil"@, "aftrekken ➖"@, true)))
        + fieldset_markup("Moeilijkheid"@, kinds_markup(choice_markup("radio"@, "difficulty"@, "mixed"@, "gemengd"@, true) + choice_markup("radio"@, "difficulty"@, "without-transfer"@, "zonder onthouden of lenen"@, false) + choice_markup("radio"@, "difficulty"@, "with-transfer"@, "met onthouden of lenen"@, false)))
        + num_exercises_markup("100"@)
}

/// The setup form fields of cijfertrainer.
pub fn written_arithmetic_config_fields() -> (r: String)
    ensures
        r@ == written_arithmetic_config_markup(),
{
    let mut part2 = choice("radio", "maximum", "1000", "tot 1 000", true);
    part2.append(choice("radio", "maximum", "10000", "tot 10 000", false).as_str());
    part2.append(choice("radio", "maximum", "100000", "tot 100 000", false).as_str());
    let part3 = kinds(part2.as_str());
    let mut fields = fieldset("Tot welk getal?", part3.as_str());
    let mut part4 = choice("checkbox", "practice", "som", "optellen ➕", true);
    part4.append(choice("checkbox", "practice", "verschil", "aftrekken ➖", true).as_str());
    let part5 = kinds(part4.as_str());
    let part6 = fieldset("Wat wil je oefenen?", part5.as_str());
    fields.append(part6.as_str());
    let mut part7 = choice("radio", "difficulty", "mixed", "gemengd", true);
    part7.append(choice("radio", "difficulty", "without-transfer", "zonder onthouden of lenen", false).as_str());
    part7.append(choice("radio", "difficulty", "with-transfer", "met onthouden of lenen", false).as_str());
    let part8 = kinds(part7.as_str());
    let part9 = fieldset("Moeilijkheid", part8.as_str());
    fields.append(part9.as_str());
    fields.append(num_exercises_field("100").as_str());
    fields
}

/// The setup form of kommatrainer: how many digits after the decimal comma (tenths by default, or hundredths, thousandths; a higher level mixes in the lower ones) and how many questions (up to 100).
pub open spec fn decimals_config_markup() -> Seq<char> {
    fieldset_markup("Tot hoeveel cijfers na de komma?"@, kinds_markup(choice_markup("radio"@, "precision"@, "1"@, "tienden (0,1)"@, true) + choice_markup("radio"@, "precision"@, "2"@, "honderdsten (0,01)"@, false) + choice_markup("radio"@, "precision"@, "3"@, "duizendsten (0,001)"@, false)) + "<p class=\"field-hint\">Een hoger niveau mengt ook de eerdere stappen.</p>"@)
        + num_exercises_markup("100"@)
}

/// The setup form fields of kommatrainer.
pub fn decimals_config_fields() -> (r: String)
    ensures
        r@ == decimals_config_markup(),
{
    let mut part3 = choice("radio", "precision", "1", "tienden (0,1)", true);
    part3.append(choice("radio", "precision", "2", "honderdsten (0,01)", false).as_str());
    part3.append(choice("radio", "precision", "3", "duizendsten (0,001)", false).as_str());
    let mut part2 = kinds(part3.as_str());
    part2.append("<p class=\"field-hint\">Een hoger niveau mengt ook de eerdere stappen.</p>");
    let mut fields = fieldset("Tot hoeveel cijfers na de komma?", part2.as_str());
    fields.append(num_exercises_field("100").as_str());
    fields
}

/// The setup form of grote rekendoos: the largest number (10 000 by default, or 100 000), how many questions (up to 200), the operations (addition and subtraction on; multiplication and division, by one digit, off), remainders for division (hidden until division is chosen) and the time mode.
pub open spec fn advanced_mathbox_config_markup() -> Seq<char> {
    fieldset_markup("Tot welk getal?"@, kinds_markup(choice_markup("radio"@, "maximum"@, "10000"@, "tot 10 000"@, true) + choice_markup("radio"@, "maximum"@, "100000"@, "tot 100 000"@, false)))
        + num_exercises_markup("200"@)
        + fieldset_markup("Wat wil je oefenen?"@, kinds_markup(choice_markup("checkbox"@, "practice"@, "som"@, "optellen ➕"@, true) + choice_markup("checkbox"@, "practice"@, "verschil"@, "aftrekken ➖"@, true) + choice_markup("checkbox"@, "practice"@, "vermenigvuldigen"@, "vermenigvuldigen ✖️"@, false) + choice_markup("checkbox"@, "practice"@, "delen"@, "delen ➗"@, false)) + "<p class=\"field-hint\">Vermenigvuldigen en delen gebeurt met één cijfer.</p>"@)
        + "<fieldset id=\"division-options\" hidden><legend>Bij delen</legend><label><input type=\"checkbox\" id=\"include-remainders\" name=\"include-remainders\"> ook delingen met rest</label></fieldset>"@
        + time_mode_markup()
}

/// The setup form fields of grote rekendoos.
pub fn advanced_mathbox_config_fields() -> (r: String)
    ensures
        r@ == advanced_mathbox_config_markup(),
{
    let mut part2 = choice("radio", "maximum", "10000", "tot 10 000", true);
    part2.append(choice("radio", "maximum", "100000", "tot 100 000", false).as_str());
    let part3 = kinds(part2.as_str());
    let mut fields = fieldset("Tot welk getal?", part3.as_str());
    fields.append(num_exercises_field("200").as_str());
    let mut part5 = choice("checkbox", "practice", "som", "optellen ➕", true);
    part5.append(choice("checkbox", "practice", "verschil", "aftrekken ➖", true).as_str());
    part5.append(choice("checkbox", "practice", "vermenigvuldigen", "vermenigvuldigen ✖️", false).as_str());
    part5.append(choice("checkbox", "practice", "delen", "delen ➗", false).as_str());
    let mut part4 = kinds(part5.as_str());
    part4.append("<p class=\"field-hint\">Vermenigvuldigen en delen gebeurt met één cijfer.</p>");
    let part6 = fieldset("Wat wil je oefenen?", part4.as_str());
    fields.append(part6.as_str());
    fields.append("<fieldset id=\"division-options\" hidden><legend>Bij delen</legend><label><input type=\"checkbox\" id=\"include-remainders\" name=\"include-remainders\"> ook delingen met rest</label></fieldset>");
    fields.append(time_mode_fieldset().as_str());
    fields
}

/// The setup form of breukenwijzer: the four concepts as independent checkboxes (the first three on), the denominator set (the standard one by default; each includes the smaller), converting between fractions and decimals as an extra, how many questions (up to 100) and the time mode.
pub open spec fn fraction_sense_config_markup() -> Seq<char> {
    fieldset_markup("Wat wil je oefenen?"@, kinds_markup(choice_markup("checkbox"@, "practice"@, "recognize"@, "breuken herkennen"@, true) + choice_markup("checkbox"@, "practice"@, "compare"@, "vergelijken en ordenen"@, true) + choice_markup("checkbox"@, "practice"@, "equivalent"@, "gelijkwaardig maken en vereenvoudigen"@, true) + choice_markup("checkbox"@, "practice"@, "improper"@, "breuken groter dan één"@, false)))
        + fieldset_markup("Welke noemers?"@, "<div class=\"denominator-levels\"><label><input type=\"radio\" name=\"denominator-set\" value=\"small\"><span>2, 3, 4, 5 en 6</span></label><label><input type=\"radio\" name=\"denominator-set\" value=\"standard\" checked><span>ook 8, 9, 10 en 12</span></label><label><input type=\"radio\" name=\"denominator-set\" value=\"large\"><span>ook 15, 20, 25, 50 en 100</span></label></div><p class=\"field-hint\">Elke volgende keuze bevat ook de vorige noemers.</p>"@)
        + "<fieldset><legend>Extra oefening</legend><label><input type=\"checkbox\" id=\"include-decimals\" name=\"include-decimals\"> breuken en kommagetallen omzetten (bijv. 3/4 = 0,75)</label></fieldset>"@
        + num_exercises_markup("100"@)
        + time_mode_markup()
}

/// The setup form fields of breukenwijzer.
pub fn fraction_sense_config_fields() -> (r: String)
    ensures
        r@ == fraction_sense_config_markup(),
{
    let mut part2 = choice("checkbox", "practice", "recognize", "breuken herkennen", true);
    part2.append(choice("checkbox", "practice", "compare", "vergelijken en ordenen", true).as_str());
    part2.append(choice("checkbox", "practice", "equivalent", "gelijkwaardig maken en vereenvoudigen", true).as_str());
    part2.append(choice("checkbox", "practice", "improper", "breuken groter dan één", false).as_str());
    let part3 = kinds(part2.as_str());
    let mut fields = fieldset("Wat wil je oefenen?", part3.as_str());
    let part4 = String::from_str("<div class=\"denominator-levels\"><label><input type=\"radio\" name=\"denominator-set\" value=\"small\"><span>2, 3, 4, 5 en 6</span></label><label><input type=\"radio\" name=\"denominator-set\" value=\"standard\" checked><span>ook 8, 9, 10 en 12</span></label><label><input type=\"radio\" name=\"denominator-set\" value=\"large\"><span>ook 15, 20, 25, 50 en 100</span></label></div><p class=\"field-hint\">Elke volgende keuze bevat ook de vorige noemers.</p>");
    let part5 = fieldset("Welke noemers?", part4.as_str());
    fields.append(part5.as_str());
    fields.append("<fieldset><legend>Extra oefening</legend><label><input type=\"checkbox\" id=\"include-decimals\" name=\"include-decimals\"> breuken en kommagetallen omzetten (bijv. 3/4 = 0,75)</label></fieldset>");
    fields.append(num_exercises_field("100").as_str());
    fields.append(time_mode_fieldset().as_str());
    fields
}

} // verus!
