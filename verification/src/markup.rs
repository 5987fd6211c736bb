//! The markup shared by every exercise page: the breadcrumb, the form
//! controls, the time-mode fieldset and the configure → play → results
//! scaffold that `homework.js` drives.
//!
//! Every value that comes from outside the fixed markup is HTML-escaped;
//! the fragments handed in as markup (`config_fields`, `setup_extra`) are
//! placed as they are.

use crate::exercises::{
    anchor_text, breadcrumb_level_label, breadcrumb_text, catalogue, home_levels, level_anchor, niveau_text,
    of_level, shown_levels, ExerciseInfo,
};
use crate::language_banner::{escape_html, html_escape, is_html_special, lemma_escape_html_identity};
use crate::text::decimal;
use vstd::prelude::*;

verus! {

/// The ` required` attribute, when asked for.
pub open spec fn required_attr(required: bool) -> &'static str {
    if required {
        " required"
    } else {
        ""
    }
}

/// The ` checked` attribute, when asked for.
pub open spec fn checked_attr(checked: bool) -> &'static str {
    if checked {
        " checked"
    } else {
        ""
    }
}

/// A labelled numeric `<input>` inside a `.field` block.
pub open spec fn numeric_field_markup(
    id: Seq<char>,
    label: Seq<char>,
    min: Seq<char>,
    max: Seq<char>,
    value: Seq<char>,
    required: bool,
) -> Seq<char> {
    "<div class=\"field\"><label for=\""@ + escape_html(id) + "\">"@ + escape_html(label)
        + "</label><input inputmode=\"numeric\" pattern=\"[0-9]+\" id=\""@ + escape_html(id)
        + "\" name=\""@ + escape_html(id) + "\" min=\""@ + escape_html(min) + "\" max=\""@
        + escape_html(max) + "\" value=\""@ + escape_html(value) + "\""@ + required_attr(
        required,
    )@ + "></div>"@
}

/// A labelled numeric `<input>` inside a `.field` block; the input's id
/// is also its form name.
pub fn numeric_field(
    id: &str,
    label: &str,
    min: &str,
    max: &str,
    value: &str,
    required: bool,
) -> (r: String)
    ensures
        r@ == numeric_field_markup(id@, label@, min@, max@, value@, required),
{
    let id_e = html_escape(id);
    let label_e = html_escape(label);
    let min_e = html_escape(min);
    let max_e = html_escape(max);
    let value_e = html_escape(value);
    let req: &'static str = if required {
        " required"
    } else {
        ""
    };
    assert(req == required_attr(required));
    let mut r = String::from_str("<div class=\"field\"><label for=\"");
    r.append(id_e.as_str());
    r.append("\">");
    r.append(label_e.as_str());
    r.append("</label><input inputmode=\"numeric\" pattern=\"[0-9]+\" id=\"");
    r.append(id_e.as_str());
    r.append("\" name=\"");
    r.append(id_e.as_str());
    r.append("\" min=\"");
    r.append(min_e.as_str());
    r.append("\" max=\"");
    r.append(max_e.as_str());
    r.append("\" value=\"");
    r.append(value_e.as_str());
    r.append("\"");
    r.append(req);
    r.append("></div>");
    r
}

/// A checkbox or radio button followed by its text, inside a `<label>`.
pub open spec fn choice_markup(
    kind: Seq<char>,
    name: Seq<char>,
    value: Seq<char>,
    text: Seq<char>,
    checked: bool,
) -> Seq<char> {
    "<label><input type=\""@ + escape_html(kind) + "\" name=\""@ + escape_html(name)
        + "\" value=\""@ + escape_html(value) + "\""@ + checked_attr(checked)@ + "> "@
        + escape_html(text) + "</label>"@
}

/// A checkbox or radio button followed by its text, inside a `<label>`.
pub fn choice(kind: &str, name: &str, value: &str, text: &str, checked: bool) -> (r: String)
    ensures
        r@ == choice_markup(kind@, name@, value@, text@, checked),
{
    let kind_e = html_escape(kind);
    let name_e = html_escape(name);
    let value_e = html_escape(value);
    let text_e = html_escape(text);
    let chk: &'static str = if checked {
        " checked"
    } else {
        ""
    };
    assert(chk == checked_attr(checked));
    let mut r = String::from_str("<label><input type=\"");
    r.append(kind_e.as_str());
    r.append("\" name=\"");
    r.append(name_e.as_str());
    r.append("\" value=\"");
    r.append(value_e.as_str());
    r.append("\"");
    r.append(chk);
    r.append("> ");
    r.append(text_e.as_str());
    r.append("</label>");
    r
}

/// A `<fieldset>` with its (escaped) legend around the given markup.
pub open spec fn fieldset_markup(legend: Seq<char>, inner: Seq<char>) -> Seq<char> {
    "<fieldset><legend>"@ + escape_html(legend) + "</legend>"@ + inner + "</fieldset>"@
}

/// A `<fieldset>` with its legend around the given markup.
pub fn fieldset(legend: &str, inner: &str) -> (r: String)
    ensures
        r@ == fieldset_markup(legend@, inner@),
{
    let legend_e = html_escape(legend);
    let mut r = String::from_str("<fieldset><legend>");
    r.append(legend_e.as_str());
    r.append("</legend>");
    r.append(inner);
    r.append("</fieldset>");
    r
}

/// The breadcrumb above an exercise's heading: home › level › exercise.
/// The middle item links to the level's section of the home page; the
/// leaf is the current page.
pub open spec fn breadcrumb_markup(info: ExerciseInfo) -> Seq<char> {
    "<nav class=\"breadcrumb\" aria-label=\"kruimelpad\"><ol>"@ + "<li><a href=\"/\"><span class=\"icon\" aria-hidden=\"true\">🏠 </span>home</a></li>"@ + "<li><a href=\"/#"@
        + escape_html(anchor_text(info.level)) + "\">"@ + escape_html(breadcrumb_text(info.level)@)
        + "</a></li>"@ + "<li aria-current=\"page\">"@ + escape_html(info.label@) + "</li>"@
        + "</ol></nav>"@
}

/// Visible breadcrumb shown on every exercise page, above the `<h1>`:
/// 🏠 home › Niveau 2 › analoge klok.
pub fn exercise_breadcrumb(info: ExerciseInfo) -> (r: String)
    ensures
        r@ == breadcrumb_markup(info),
{
    let anchor = level_anchor(info.level);
    let anchor_e = html_escape(anchor.as_str());
    let level_e = html_escape(breadcrumb_level_label(info.level));
    let label_e = html_escape(info.label);
    let mut r = String::from_str("<nav class=\"breadcrumb\" aria-label=\"kruimelpad\"><ol>");
    r.append("<li><a href=\"/\"><span class=\"icon\" aria-hidden=\"true\">🏠 </span>home</a></li>");
    r.append("<li><a href=\"/#");
    r.append(anchor_e.as_str());
    r.append("\">");
    r.append(level_e.as_str());
    r.append("</a></li>");
    r.append("<li aria-current=\"page\">");
    r.append(label_e.as_str());
    r.append("</li>");
    r.append("</ol></nav>");
    r
}

/// The shared "time mode" fieldset: a switch for the session timer, and,
/// revealed by it, an optional per-question deadline (10 s by default).
pub open spec fn time_mode_markup() -> Seq<char> {
    "<fieldset><legend>Tijdsmodus</legend><label><input type=\"checkbox\" id=\"time-mode\" name=\"time-mode\"> toon een timer en hoe lang elke oefening duurde</label><div id=\"deadline-section\" hidden><label><input type=\"checkbox\" id=\"deadline-on\" name=\"deadline-on\"> ⏰ ook een maximumtijd per oefening</label><div id=\"deadline-field\" class=\"field\" hidden><label for=\"deadline-seconds\">Hoeveel seconden per oefening?</label><input inputmode=\"numeric\" pattern=\"[0-9]+\" id=\"deadline-seconds\" name=\"deadline-seconds\" min=\"1\" max=\"600\" value=\"10\"></div></div></fieldset>"@
}

/// Shared "time mode" fieldset. When enabled, the framework shows a session
/// timer during play and per-question elapsed time on the finish page; an
/// optional per-question deadline can also be set. The framework picks
/// these up by id.
pub fn time_mode_fieldset() -> (r: String)
    ensures
        r@ == time_mode_markup(),
{
    String::from_str(
        "<fieldset><legend>Tijdsmodus</legend><label><input type=\"checkbox\" id=\"time-mode\" name=\"time-mode\"> toon een timer en hoe lang elke oefening duurde</label><div id=\"deadline-section\" hidden><label><input type=\"checkbox\" id=\"deadline-on\" name=\"deadline-on\"> ⏰ ook een maximumtijd per oefening</label><div id=\"deadline-field\" class=\"field\" hidden><label for=\"deadline-seconds\">Hoeveel seconden per oefening?</label><input inputmode=\"numeric\" pattern=\"[0-9]+\" id=\"deadline-seconds\" name=\"deadline-seconds\" min=\"1\" max=\"600\" value=\"10\"></div></div></fieldset>",
    )
}

/// The history block for parents under the setup form: the recent
/// sessions of this exercise (filled in by the script) and the buttons to
/// practise recent mistakes and to clear the history, disabled until
/// there is a history.
pub open spec fn history_markup(info: ExerciseInfo) -> Seq<char> {
    "<section id=\"history\" class=\"history\" data-exercise-id=\""@ + escape_html(info.id@)
        + "\"><div class=\"history-content\"><p class=\"history-intro\">Hieronder staan de laatste oefensessies voor "@
        + escape_html(info.label@)
        + ". Open een sessie om te zien welke vragen moeilijk waren.</p><div class=\"button-row\">"@
        + "<button type=\"button\" class=\"default-button btn-lift\" data-action=\"practice-mistakes\" disabled>🔁 oefen recente fouten</button>"@
        + "<button type=\"button\" class=\"default-button btn-lift\" data-action=\"clear-history\" disabled>🗑️ geschiedenis wissen</button>"@
        + "</div></div></section>"@
}

/// The history block of an exercise.
fn history_block(info: ExerciseInfo) -> (r: String)
    ensures
        r@ == history_markup(info),
{
    let id_e = html_escape(info.id);
    let label_e = html_escape(info.label);
    let mut r = String::from_str("<section id=\"history\" class=\"history\" data-exercise-id=\"");
    r.append(id_e.as_str());
    r.append(
        "\"><div class=\"history-content\"><p class=\"history-intro\">Hieronder staan de laatste oefensessies voor ",
    );
    r.append(label_e.as_str());
    r.append(". Open een sessie om te zien welke vragen moeilijk waren.</p><div class=\"button-row\">");
    r.append(
        "<button type=\"button\" class=\"default-button btn-lift\" data-action=\"practice-mistakes\" disabled>🔁 oefen recente fouten</button>",
    );
    r.append(
        "<button type=\"button\" class=\"default-button btn-lift\" data-action=\"clear-history\" disabled>🗑️ geschiedenis wissen</button>",
    );
    r.append("</div></div></section>");
    r
}

/// The configure section: the intro (already escaped), the setup form
/// around `config` with its hidden error notice and start button, the
/// extra setup markup and the history block.
pub open spec fn setup_section_markup(
    info: ExerciseInfo,
    intro: Seq<char>,
    config: Seq<char>,
    extra: Seq<char>,
) -> Seq<char> {
    "<section id=\"page-setup\">"@ + "<p class=\"page-intro\">"@ + intro + "</p>"@ + "<form id=\"form-setup\" autocomplete=\"off\">"@ + config + "<p id=\"config-error\" class=\"notice\" role=\"alert\" aria-live=\"assertive\" hidden></p>"@ + "<div class=\"button-row\"><button type=\"submit\" class=\"default-button primary btn-lift\">🟢 start met oefenen</button></div>"@
        + "</form>"@
        + extra + history_markup(info) + "</section>"@
}

/// The play and result sections, hidden until the script starts a
/// session: the question area with its answer and skip buttons, and the
/// result area, each with a way back to the menu.
pub open spec fn play_and_result_markup() -> Seq<char> {
    "<section id=\"page-exercises\" hidden>"@ + "<div class=\"exercise-meta\"><button type=\"button\" class=\"default-button button-reset btn-lift\">terug naar menu ↩️</button><p id=\"exercise-title\"></p><p id=\"exercise-clock\" class=\"exercise-clock\" hidden></p></div><div id=\"exercise\" class=\"box\"><p id=\"exercise-feedback\" role=\"status\" aria-live=\"polite\"> </p><form id=\"form-exercise\" autocomplete=\"off\"><div id=\"exercise-content\"></div><div class=\"exercise-actions\"><button type=\"submit\" id=\"button-check\" class=\"default-button primary btn-lift\">👉 antwoord</button><button type=\"reset\" id=\"button-skip\" class=\"default-button btn-lift\" hidden>🤷 weet het niet</button></div></form></div></section>"@ + "<section id=\"page-result\" hidden>"@
        + "<div class=\"exercise-meta\"><button type=\"button\" class=\"default-button button-reset btn-lift\">terug naar menu ↩️</button></div><div id=\"result\"></div></section>"@
}

/// The whole scaffold of an exercise page: configure, then play, then
/// results.
pub open spec fn scaffold_markup(
    info: ExerciseInfo,
    intro: Seq<char>,
    config: Seq<char>,
    extra: Seq<char>,
) -> Seq<char> {
    setup_section_markup(info, intro, config, extra) + play_and_result_markup()
}

/// Render the shared exercise scaffold: the configure section with the
/// given form fields, the empty play and result sections (filled in by
/// `homework.js`) and the history block for parents. The intro is text
/// and is escaped; `config_fields` and `setup_extra` are markup.
pub fn exercise_scaffold(info: ExerciseInfo, intro: &str, config_fields: &str, setup_extra: &str) -> (r:
    String)
    ensures
        r@ == scaffold_markup(info, escape_html(intro@), config_fields@, setup_extra@),
{
    let intro_e = html_escape(intro);
    let history = history_block(info);
    let mut r = String::from_str("<section id=\"page-setup\">");
    r.append("<p class=\"page-intro\">");
    r.append(intro_e.as_str());
    r.append("</p>");
    r.append("<form id=\"form-setup\" autocomplete=\"off\">");
    r.append(config_fields);
    r.append("<p id=\"config-error\" class=\"notice\" role=\"alert\" aria-live=\"assertive\" hidden></p>");
    r.append(
        "<div class=\"button-row\"><button type=\"submit\" class=\"default-button primary btn-lift\">🟢 start met oefenen</button></div>",
    );
    r.append("</form>");
    r.append(setup_extra);
    r.append(history.as_str());
    r.append("</section>");
    r.append("<section id=\"page-exercises\" hidden>");
    r.append(
        "<div class=\"exercise-meta\"><button type=\"button\" class=\"default-button button-reset btn-lift\">terug naar menu ↩️</button><p id=\"exercise-title\"></p><p id=\"exercise-clock\" class=\"exercise-clock\" hidden></p></div><div id=\"exercise\" class=\"box\"><p id=\"exercise-feedback\" role=\"status\" aria-live=\"polite\"> </p><form id=\"form-exercise\" autocomplete=\"off\"><div id=\"exercise-content\"></div><div class=\"exercise-actions\"><button type=\"submit\" id=\"button-check\" class=\"default-button primary btn-lift\">👉 antwoord</button><button type=\"reset\" id=\"button-skip\" class=\"default-button btn-lift\" hidden>🤷 weet het niet</button></div></form></div></section>",
    );
    r.append("<section id=\"page-result\" hidden>");
    r.append(
        "<div class=\"exercise-meta\"><button type=\"button\" class=\"default-button button-reset btn-lift\">terug naar menu ↩️</button></div><div id=\"result\"></div></section>",
    );
    assert(r@ =~= scaffold_markup(info, escape_html(intro@), config_fields@, setup_extra@));
    r
}

/// The link to one exercise in a level section of the home page; the
/// statistics slot is filled in by the script.
pub open spec fn exercise_link_markup(e: ExerciseInfo) -> Seq<char> {
    "<li><a href=\""@ + escape_html(e.path@) + "\" data-exercise-id=\""@ + escape_html(e.id@)
        + "\">"@ + "<span class=\"icon\" aria-hidden=\"true\">"@ + escape_html(e.icon@)
        + "</span><span class=\"exercise-meta\"><span class=\"exercise-label\">"@ + escape_html(
        e.label@,
    ) + "</span><small class=\"exercise-stats\" data-stats-for=\""@ + escape_html(e.id@)
        + "\"> </small></span></a></li>"@
}

/// The links to these exercises, in order.
pub open spec fn exercise_links_markup(es: Seq<ExerciseInfo>) -> Seq<char>
    decreases es.len(),
{
    if es.len() == 0 {
        Seq::<char>::empty()
    } else {
        exercise_links_markup(es.drop_last()) + exercise_link_markup(es.last())
    }
}

/// One level section of the home page: its heading, whose id is the
/// anchor the breadcrumbs link to, and the list of its exercises in
/// catalogue order.
pub open spec fn level_section_markup(level: u8) -> Seq<char> {
    "<h2 id=\""@ + escape_html(anchor_text(level)) + "\">"@ + escape_html(niveau_text(level)@)
        + "</h2>"@ + "<ul class=\"exercise-list\">"@ + exercise_links_markup(of_level(catalogue(), level))
        + "</ul>"@
}

/// The level sections for these levels, in order.
pub open spec fn level_sections_markup(levels: Seq<u8>) -> Seq<char>
    decreases levels.len(),
{
    if levels.len() == 0 {
        Seq::<char>::empty()
    } else {
        level_sections_markup(levels.drop_last()) + level_section_markup(levels.last())
    }
}

/// The links of one level section.
#[verifier::spinoff_prover]
fn exercise_links(es: &Vec<ExerciseInfo>) -> (r: String)
    ensures
        r@ == exercise_links_markup(es@),
{
    let mut r = String::new();
    let mut k: usize = 0;
    while k < es.len()
        invariant
            k <= es@.len(),
            r@ == exercise_links_markup(es@.take(k as int)),
        decreases es@.len() - k,
    {
        let e = es[k];
        let path_e = html_escape(e.path);
        let id_e = html_escape(e.id);
        let icon_e = html_escape(e.icon);
        let label_e = html_escape(e.label);
        let ghost before = r@;
        r.append("<li><a href=\"");
        r.append(path_e.as_str());
        r.append("\" data-exercise-id=\"");
        r.append(id_e.as_str());
        r.append("\">");
        r.append("<span class=\"icon\" aria-hidden=\"true\">");
        r.append(icon_e.as_str());
        r.append("</span><span class=\"exercise-meta\"><span class=\"exercise-label\">");
        r.append(label_e.as_str());
        r.append("</span><small class=\"exercise-stats\" data-stats-for=\"");
        r.append(id_e.as_str());
        r.append("\"> </small></span></a></li>");
        proof {
            assert(es@.take(k + 1).drop_last() =~= es@.take(k as int));
            assert(es@.take(k + 1).last() == e);
            assert(r@ =~= before + exercise_link_markup(e));
        }
        k = k + 1;
    }
    assert(es@.take(es@.len() as int) =~= es@);
    r
}

/// The level sections of the home page: for each level in display order
/// that has exercises, its heading and the links to its exercises.
pub fn home_level_sections() -> (r: String)
    ensures
        r@ == level_sections_markup(shown_levels()),
{
    let groups = home_levels();
    let ghost shown = shown_levels();
    let mut r = String::new();
    let mut k: usize = 0;
    while k < groups.len()
        invariant
            groups@.len() == shown.len(),
            shown == shown_levels(),
            forall|g: int|
                0 <= g < groups@.len() ==> {
                    let group = #[trigger] groups@[g];
                    &&& group.level == shown[g]
                    &&& group.anchor@ == anchor_text(group.level)
                    &&& group.heading == niveau_text(group.level)
                    &&& group.exercises@ == of_level(catalogue(), group.level)
                },
            k <= groups@.len(),
            r@ == level_sections_markup(shown.take(k as int)),
        decreases groups@.len() - k,
    {
        let group = &groups[k];
        assert(group.level == shown[k as int]);
        let anchor_e = html_escape(group.anchor.as_str());
        let heading_e = html_escape(group.heading);
        let links = exercise_links(&group.exercises);
        let ghost before = r@;
        r.append("<h2 id=\"");
        r.append(anchor_e.as_str());
        r.append("\">");
        r.append(heading_e.as_str());
        r.append("</h2>");
        r.append("<ul class=\"exercise-list\">");
        r.append(links.as_str());
        r.append("</ul>");
        proof {
            assert(shown.take(k + 1).drop_last() =~= shown.take(k as int));
            assert(shown.take(k + 1).last() == group.level);
            assert(r@ =~= before + level_section_markup(group.level));
        }
        k = k + 1;
    }
    assert(shown.take(shown.len() as int) =~= shown);
    r
}

/// `t` stands somewhere inside `s`.
pub open spec fn is_infix(t: Seq<char>, s: Seq<char>) -> bool {
    exists|p: Seq<char>, q: Seq<char>| s == p + t + q
}

/// A text stands inside any text that has it between two others.
pub(crate) proof fn lemma_infix_between(t: Seq<char>, p: Seq<char>, q: Seq<char>)
    ensures
        is_infix(t, p + t + q),
{
    assert(p + t + q == p + t + q);
}

/// An infix of an infix is an infix.
pub(crate) proof fn lemma_infix_transitive(t: Seq<char>, s: Seq<char>, u: Seq<char>)
    requires
        is_infix(t, s),
        is_infix(s, u),
    ensures
        is_infix(t, u),
{
    let (p, q) = choose|p: Seq<char>, q: Seq<char>| u == p + s + q;
    lemma_infix_extends(t, s, p, q);
}

/// An infix of a part is an infix of the whole.
pub(crate) proof fn lemma_infix_extends(t: Seq<char>, s: Seq<char>, before: Seq<char>, after: Seq<char>)
    requires
        is_infix(t, s),
    ensures
        is_infix(t, before + s + after),
{
    let (p, q) = choose|p: Seq<char>, q: Seq<char>| s == p + t + q;
    assert(before + s + after =~= (before + p) + t + (q + after));
}

/// The link of every listed exercise stands in the links markup.
proof fn lemma_links_hold_each(es: Seq<ExerciseInfo>, e: ExerciseInfo)
    requires
        es.contains(e),
    ensures
        is_infix(exercise_link_markup(e), exercise_links_markup(es)),
    decreases es.len(),
{
    let empty = Seq::<char>::empty();
    if es.last() == e {
        let prev = exercise_links_markup(es.drop_last());
        assert(exercise_links_markup(es) =~= prev + exercise_link_markup(e) + empty);
    } else {
        let i = choose|i: int| 0 <= i < es.len() && es[i] == e;
        assert(es.drop_last()[i] == e);
        lemma_links_hold_each(es.drop_last(), e);
        lemma_infix_extends(
            exercise_link_markup(e),
            exercise_links_markup(es.drop_last()),
            empty,
            exercise_link_markup(es.last()),
        );
        assert(empty + exercise_links_markup(es.drop_last()) + exercise_link_markup(es.last())
            =~= exercise_links_markup(es));
    }
}

/// The section of every listed level stands in the sections markup.
proof fn lemma_sections_hold_each(levels: Seq<u8>, level: u8)
    requires
        levels.contains(level),
    ensures
        is_infix(level_section_markup(level), level_sections_markup(levels)),
    decreases levels.len(),
{
    let empty = Seq::<char>::empty();
    if levels.last() == level {
        let prev = level_sections_markup(levels.drop_last());
        assert(level_sections_markup(levels) =~= prev + level_section_markup(level) + empty);
    } else {
        let i = choose|i: int| 0 <= i < levels.len() && levels[i] == level;
        assert(levels.drop_last()[i] == level);
        lemma_sections_hold_each(levels.drop_last(), level);
        lemma_infix_extends(
            level_section_markup(level),
            level_sections_markup(levels.drop_last()),
            empty,
            level_section_markup(levels.last()),
        );
        assert(empty + level_sections_markup(levels.drop_last()) + level_section_markup(
            levels.last(),
        ) =~= level_sections_markup(levels));
    }
}

/// The home page links every exercise of the catalogue, inside the
/// section of its own level.
pub proof fn lemma_home_page_links_every_exercise(i: int)
    requires
        0 <= i < catalogue().len(),
    ensures
        is_infix(level_section_markup(catalogue()[i].level), level_sections_markup(shown_levels())),
        is_infix(exercise_link_markup(catalogue()[i]), level_section_markup(catalogue()[i].level)),
{
    let e = catalogue()[i];
    crate::exercises::lemma_every_exercise_on_home_page(i);
    lemma_sections_hold_each(shown_levels(), e.level);
    let links = exercise_links_markup(of_level(catalogue(), e.level));
    lemma_links_hold_each(of_level(catalogue(), e.level), e);
    let head = "<h2 id=\""@ + escape_html(anchor_text(e.level)) + "\">"@ + escape_html(
        niveau_text(e.level)@,
    ) + "</h2>"@ + "<ul class=\"exercise-list\">"@;
    lemma_infix_extends(exercise_link_markup(e), links, head, "</ul>"@);
    assert(head + links + "</ul>"@ == level_section_markup(e.level));
}

/// Every exercise page offers parents both history actions: under the
/// setup form, whatever the exercise, intro, form and extra markup, the
/// scaffold holds the history section of this exercise, whose button row
/// has the button to practise recent mistakes followed by the button to
/// clear the history, both disabled until the script finds a history.
pub proof fn lemma_scaffold_offers_history_actions(
    info: ExerciseInfo,
    intro: Seq<char>,
    config: Seq<char>,
    extra: Seq<char>,
)
    ensures
        is_infix(
            "<section id=\"history\" class=\"history\" data-exercise-id=\""@ + escape_html(info.id@),
            scaffold_markup(info, intro, config, extra),
        ),
        is_infix(
            "<div class=\"button-row\">"@
                + "<button type=\"button\" class=\"default-button btn-lift\" data-action=\"practice-mistakes\" disabled>🔁 oefen recente fouten</button>"@
                + "<button type=\"button\" class=\"default-button btn-lift\" data-action=\"clear-history\" disabled>🗑️ geschiedenis wissen</button>"@
                + "</div></div></section>"@,
            scaffold_markup(info, intro, config, extra),
        ),
{
    let s = scaffold_markup(info, intro, config, extra);
    let open = "<section id=\"history\" class=\"history\" data-exercise-id=\""@ + escape_html(info.id@);
    let head = "<section id=\"page-setup\">"@ + "<p class=\"page-intro\">"@ + intro + "</p>"@ + "<form id=\"form-setup\" autocomplete=\"off\">"@ + config + "<p id=\"config-error\" class=\"notice\" role=\"alert\" aria-live=\"assertive\" hidden></p>"@ + "<div class=\"button-row\"><button type=\"submit\" class=\"default-button primary btn-lift\">🟢 start met oefenen</button></div>"@
        + "</form>"@ + extra;
    let middle = "\"><div class=\"history-content\"><p class=\"history-intro\">Hieronder staan de laatste oefensessies voor "@
        + escape_html(info.label@) + ". Open een sessie om te zien welke vragen moeilijk waren.</p><div class=\"button-row\">"@;
    let buttons = "<button type=\"button\" class=\"default-button btn-lift\" data-action=\"practice-mistakes\" disabled>🔁 oefen recente fouten</button>"@
        + "<button type=\"button\" class=\"default-button btn-lift\" data-action=\"clear-history\" disabled>🗑️ geschiedenis wissen</button>"@
        + "</div></div></section>"@;
    let tail = "</section>"@ + play_and_result_markup();
    assert(s =~= head + open + (middle + buttons + tail));
    assert(is_infix(open, s)) by {
        assert(s == head + open + (middle + buttons + tail));
    }
    reveal_strlit(". Open een sessie om te zien welke vragen moeilijk waren.</p><div class=\"button-row\">");
    reveal_strlit("<div class=\"button-row\">");
    let row = "<div class=\"button-row\">"@;
    let a_lead = ". Open een sessie om te zien welke vragen moeilijk waren.</p><div class=\"button-row\">"@.subrange(0, ". Open een sessie om te zien welke vragen moeilijk waren.</p><div class=\"button-row\">"@.len() - row.len());
    assert(". Open een sessie om te zien welke vragen moeilijk waren.</p><div class=\"button-row\">"@ =~= a_lead + row);
    let wanted = row + "<button type=\"button\" class=\"default-button btn-lift\" data-action=\"practice-mistakes\" disabled>🔁 oefen recente fouten</button>"@ + "<button type=\"button\" class=\"default-button btn-lift\" data-action=\"clear-history\" disabled>🗑️ geschiedenis wissen</button>"@ + "</div></div></section>"@;
    assert(s =~= (head + open + "\"><div class=\"history-content\"><p class=\"history-intro\">Hieronder staan de laatste oefensessies voor "@
        + escape_html(info.label@) + a_lead) + wanted + tail);
}

/// The decimal digits of a number are plain text: escaping leaves them.
proof fn lemma_decimal_is_plain(n: nat)
    ensures
        forall|i: int| 0 <= i < decimal(n).len() ==> !is_html_special(#[trigger] decimal(n)[i]),
    decreases n,
{
    if n >= 10 {
        lemma_decimal_is_plain(n / 10);
        assert forall|i: int| 0 <= i < decimal(n).len() implies !is_html_special(
            #[trigger] decimal(n)[i],
        ) by {
            if i < decimal(n / 10).len() {
                assert(decimal(n)[i] == decimal(n / 10)[i]);
            }
        }
    }
}

/// The breadcrumb of every exercise is a navigation list of exactly three
/// items: the home link, the link to the exercise's level section on the
/// home page (`/#niveau-<level>`, named with the level's plain label), and
/// the exercise's own label, marked as the current page and not linked.
pub proof fn lemma_breadcrumb_has_three_steps(info: ExerciseInfo)
    ensures
        breadcrumb_markup(info) == "<nav class=\"breadcrumb\" aria-label=\"kruimelpad\">"@
            + "<ol>"@ + "<li><a href=\"/\"><span class=\"icon\" aria-hidden=\"true\">🏠 </span>home</a></li>"@
            + "<li><a href=\"/#niveau-"@ + decimal(info.level as nat) + "\">"@ + escape_html(
            breadcrumb_text(info.level)@,
        ) + "</a></li>"@ + "<li aria-current=\"page\">"@ + escape_html(info.label@) + "</li>"@
            + "</ol>"@ + "</nav>"@,
{
    reveal_strlit("niveau-");
    reveal_strlit("<nav class=\"breadcrumb\" aria-label=\"kruimelpad\"><ol>");
    reveal_strlit("<nav class=\"breadcrumb\" aria-label=\"kruimelpad\">");
    reveal_strlit("<ol>");
    reveal_strlit("<li><a href=\"/#");
    reveal_strlit("<li><a href=\"/#niveau-");
    reveal_strlit("</ol></nav>");
    reveal_strlit("</ol>");
    reveal_strlit("</nav>");
    let anchor = anchor_text(info.level);
    lemma_decimal_is_plain(info.level as nat);
    assert forall|i: int| 0 <= i < anchor.len() implies !is_html_special(#[trigger] anchor[i]) by {
        if i >= 7 {
            assert(anchor[i] == decimal(info.level as nat)[i - 7]);
        }
    }
    lemma_escape_html_identity(anchor);
    assert("<nav class=\"breadcrumb\" aria-label=\"kruimelpad\"><ol>"@ =~= "<nav class=\"breadcrumb\" aria-label=\"kruimelpad\">"@ + "<ol>"@);
    assert("</ol></nav>"@ =~= "</ol>"@ + "</nav>"@);
    assert("<li><a href=\"/#"@ + anchor =~= "<li><a href=\"/#niveau-"@ + decimal(info.level as nat));
    assert(breadcrumb_markup(info) =~= "<nav class=\"breadcrumb\" aria-label=\"kruimelpad\">"@
        + "<ol>"@ + "<li><a href=\"/\"><span class=\"icon\" aria-hidden=\"true\">🏠 </span>home</a></li>"@
        + "<li><a href=\"/#niveau-"@ + decimal(info.level as nat) + "\">"@ + escape_html(
        breadcrumb_text(info.level)@,
    ) + "</a></li>"@ + "<li aria-current=\"page\">"@ + escape_html(info.label@) + "</li>"@
        + "</ol>"@ + "</nav>"@);
}

/// The scaffold of every exercise page opens with the setup section: the
/// intro in its paragraph, then the setup form holding the exercise's own
/// fields, the (hidden) error notice and the start button, then the extra
/// setup markup; the play section and the result section follow, both
/// hidden until a session starts.
pub proof fn lemma_scaffold_layout(info: ExerciseInfo, intro: Seq<char>, config: Seq<char>, extra: Seq<char>)
    ensures
        ({
            let s = scaffold_markup(info, intro, config, extra);
            let setup = "<section id=\"page-setup\">"@ + "<p class=\"page-intro\">"@ + intro + "</p>"@ + "<form id=\"form-setup\" autocomplete=\"off\">"@ + config + "<p id=\"config-error\" class=\"notice\" role=\"alert\" aria-live=\"assertive\" hidden></p>"@
                + "<div class=\"button-row\"><button type=\"submit\" class=\"default-button primary btn-lift\">🟢 start met oefenen</button></div>"@ + "</form>"@ + extra;
            &&& s.len() >= setup.len()
            &&& s.take(setup.len() as int) == setup
            &&& is_infix("<section id=\"page-exercises\" hidden>"@, s)
            &&& is_infix("<section id=\"page-result\" hidden>"@, s)
        }),
{
    let s = scaffold_markup(info, intro, config, extra);
    let setup = "<section id=\"page-setup\">"@ + "<p class=\"page-intro\">"@ + intro + "</p>"@ + "<form id=\"form-setup\" autocomplete=\"off\">"@ + config + "<p id=\"config-error\" class=\"notice\" role=\"alert\" aria-live=\"assertive\" hidden></p>"@ + "<div class=\"button-row\"><button type=\"submit\" class=\"default-button primary btn-lift\">🟢 start met oefenen</button></div>"@
        + "</form>"@ + extra;
    let after = history_markup(info) + "</section>"@;
    assert(s =~= setup + after + "<section id=\"page-exercises\" hidden>"@ + "<div class=\"exercise-meta\"><button type=\"button\" class=\"default-button button-reset btn-lift\">terug naar menu ↩️</button><p id=\"exercise-title\"></p><p id=\"exercise-clock\" class=\"exercise-clock\" hidden></p></div><div id=\"exercise\" class=\"box\"><p id=\"exercise-feedback\" role=\"status\" aria-live=\"polite\"> </p><form id=\"form-exercise\" autocomplete=\"off\"><div id=\"exercise-content\"></div><div class=\"exercise-actions\"><button type=\"submit\" id=\"button-check\" class=\"default-button primary btn-lift\">👉 antwoord</button><button type=\"reset\" id=\"button-skip\" class=\"default-button btn-lift\" hidden>🤷 weet het niet</button></div></form></div></section>"@ + "<section id=\"page-result\" hidden>"@ + "<div class=\"exercise-meta\"><button type=\"button\" class=\"default-button button-reset btn-lift\">terug naar menu ↩️</button></div><div id=\"result\"></div></section>"@);
    assert(s.take(setup.len() as int) =~= setup);
    lemma_infix_between("<section id=\"page-exercises\" hidden>"@, setup + after, "<div class=\"exercise-meta\"><button type=\"button\" class=\"default-button button-reset btn-lift\">terug naar menu ↩️</button><p id=\"exercise-title\"></p><p id=\"exercise-clock\" class=\"exercise-clock\" hidden></p></div><div id=\"exercise\" class=\"box\"><p id=\"exercise-feedback\" role=\"status\" aria-live=\"polite\"> </p><form id=\"form-exercise\" autocomplete=\"off\"><div id=\"exercise-content\"></div><div class=\"exercise-actions\"><button type=\"submit\" id=\"button-check\" class=\"default-button primary btn-lift\">👉 antwoord</button><button type=\"reset\" id=\"button-skip\" class=\"default-button btn-lift\" hidden>🤷 weet het niet</button></div></form></div></section>"@ + "<section id=\"page-result\" hidden>"@ + "<div class=\"exercise-meta\"><button type=\"button\" class=\"default-button button-reset btn-lift\">terug naar menu ↩️</button></div><div id=\"result\"></div></section>"@);
    assert(s =~= (setup + after) + "<section id=\"page-exercises\" hidden>"@ + ("<div class=\"exercise-meta\"><button type=\"button\" class=\"default-button button-reset btn-lift\">terug naar menu ↩️</button><p id=\"exercise-title\"></p><p id=\"exercise-clock\" class=\"exercise-clock\" hidden></p></div><div id=\"exercise\" class=\"box\"><p id=\"exercise-feedback\" role=\"status\" aria-live=\"polite\"> </p><form id=\"form-exercise\" autocomplete=\"off\"><div id=\"exercise-content\"></div><div class=\"exercise-actions\"><button type=\"submit\" id=\"button-check\" class=\"default-button primary btn-lift\">👉 antwoord</button><button type=\"reset\" id=\"button-skip\" class=\"default-button btn-lift\" hidden>🤷 weet het niet</button></div></form></div></section>"@ + "<section id=\"page-result\" hidden>"@ + "<div class=\"exercise-meta\"><button type=\"button\" class=\"default-button button-reset btn-lift\">terug naar menu ↩️</button></div><div id=\"result\"></div></section>"@));
    lemma_infix_between("<section id=\"page-result\" hidden>"@, setup + after + "<section id=\"page-exercises\" hidden>"@ + "<div class=\"exercise-meta\"><button type=\"button\" class=\"default-button button-reset btn-lift\">terug naar menu ↩️</button><p id=\"exercise-title\"></p><p id=\"exercise-clock\" class=\"exercise-clock\" hidden></p></div><div id=\"exercise\" class=\"box\"><p id=\"exercise-feedback\" role=\"status\" aria-live=\"polite\"> </p><form id=\"form-exercise\" autocomplete=\"off\"><div id=\"exercise-content\"></div><div class=\"exercise-actions\"><button type=\"submit\" id=\"button-check\" class=\"default-button primary btn-lift\">👉 antwoord</button><button type=\"reset\" id=\"button-skip\" class=\"default-button btn-lift\" hidden>🤷 weet het niet</button></div></form></div></section>"@, "<div class=\"exercise-meta\"><button type=\"button\" class=\"default-button button-reset btn-lift\">terug naar menu ↩️</button></div><div id=\"result\"></div></section>"@);
}

/// Every exercise link points at the exercise's page and carries its id
/// (by which the script finds the link and its statistics) and shows its
/// label.
pub proof fn lemma_exercise_link_targets_its_page(e: ExerciseInfo)
    ensures
        ({
            let link = exercise_link_markup(e);
            let open = "<li><a href=\""@ + escape_html(e.path@) + "\" data-exercise-id=\""@
                + escape_html(e.id@) + "\">"@;
            &&& link.len() >= open.len()
            &&& link.take(open.len() as int) == open
            &&& is_infix(
                "<span class=\"exercise-label\">"@ + escape_html(e.label@) + "</span>"@,
                link,
            )
        }),
{
    reveal_strlit("</span><span class=\"exercise-meta\"><span class=\"exercise-label\">");
    reveal_strlit("</span><span class=\"exercise-meta\">");
    reveal_strlit("<span class=\"exercise-label\">");
    reveal_strlit("</span><small class=\"exercise-stats\" data-stats-for=\"");
    reveal_strlit("</span>");
    reveal_strlit("<small class=\"exercise-stats\" data-stats-for=\"");
    let link = exercise_link_markup(e);
    let open = "<li><a href=\""@ + escape_html(e.path@) + "\" data-exercise-id=\""@ + escape_html(
        e.id@,
    ) + "\">"@;
    let icon = "<span class=\"icon\" aria-hidden=\"true\">"@ + escape_html(e.icon@);
    let label = "<span class=\"exercise-label\">"@ + escape_html(e.label@) + "</span>"@;
    let tail = "<small class=\"exercise-stats\" data-stats-for=\""@ + escape_html(e.id@)
        + "\"> </small></span></a></li>"@;
    assert("</span><span class=\"exercise-meta\"><span class=\"exercise-label\">"@ =~= "</span><span class=\"exercise-meta\">"@
        + "<span class=\"exercise-label\">"@);
    assert("</span><small class=\"exercise-stats\" data-stats-for=\""@ =~= "</span>"@
        + "<small class=\"exercise-stats\" data-stats-for=\""@);
    assert(link =~= (open + icon + "</span><span class=\"exercise-meta\">"@) + label + tail);
    assert(link.take(open.len() as int) =~= open);
    lemma_infix_between(label, open + icon + "</span><span class=\"exercise-meta\">"@, tail);
}

/// Every level section opens with its heading, whose id is the anchor
/// `niveau-<level>` that the breadcrumbs link to and whose text is the
/// level's heading, followed by the list of that level's exercises in
/// catalogue order.
pub proof fn lemma_level_section_heading(level: u8)
    ensures
        level_section_markup(level) == "<h2 id=\"niveau-"@ + decimal(level as nat) + "\">"@
            + escape_html(niveau_text(level)@) + "</h2>"@ + "<ul class=\"exercise-list\">"@
            + exercise_links_markup(of_level(catalogue(), level)) + "</ul>"@,
{
    reveal_strlit("niveau-");
    reveal_strlit("<h2 id=\"");
    reveal_strlit("<h2 id=\"niveau-");
    let anchor = anchor_text(level);
    lemma_decimal_is_plain(level as nat);
    assert forall|i: int| 0 <= i < anchor.len() implies !is_html_special(#[trigger] anchor[i]) by {
        if i >= 7 {
            assert(anchor[i] == decimal(level as nat)[i - 7]);
        }
    }
    lemma_escape_html_identity(anchor);
    assert("<h2 id=\""@ + anchor =~= "<h2 id=\"niveau-"@ + decimal(level as nat));
    assert(level_section_markup(level) =~= "<h2 id=\"niveau-"@ + decimal(level as nat) + "\">"@
        + escape_html(niveau_text(level)@) + "</h2>"@ + "<ul class=\"exercise-list\">"@
        + exercise_links_markup(of_level(catalogue(), level)) + "</ul>"@);
}

} // verus!
