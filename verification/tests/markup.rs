use homework::redirect::{host_without_www, https_location, starts_with_www, www_redirect};
use homework::about::about_contact_section;
use homework::clock::{clock_config_fields, clock_freeplay_entry, clock_freeplay_section, seconds_fieldset};
use homework::exercises::{all_exercises, exercise_index};
use homework::language_banner::html_escape;
use homework::markup::{choice, exercise_breadcrumb, exercise_scaffold, fieldset, numeric_field, time_mode_fieldset};

#[test]
fn escaping_replaces_the_five_specials() {
    assert_eq!(html_escape("a<b & 'c' \"d\">"), "a&lt;b &amp; &#39;c&#39; &quot;d&quot;&gt;");
    assert_eq!(html_escape("&amp;"), "&amp;amp;");
    assert_eq!(html_escape("gewoon tekst ✨"), "gewoon tekst ✨");
    assert_eq!(html_escape(""), "");
}

#[test]
fn form_controls_escape_their_values() {
    assert_eq!(
        numeric_field("n", "Hoeveel?", "1", "60", "10", true),
        r#"<div class="field"><label for="n">Hoeveel?</label><input inputmode="numeric" pattern="[0-9]+" id="n" name="n" min="1" max="60" value="10" required></div>"#
    );
    assert_eq!(
        numeric_field("n", "a<b", "1", "2", "1", false),
        r#"<div class="field"><label for="n">a&lt;b</label><input inputmode="numeric" pattern="[0-9]+" id="n" name="n" min="1" max="2" value="1"></div>"#
    );
    assert_eq!(
        choice("radio", "answer", "fill", "typ \"zelf\"", true),
        r#"<label><input type="radio" name="answer" value="fill" checked> typ &quot;zelf&quot;</label>"#
    );
    assert_eq!(
        choice("checkbox", "ck", "lees", "lees", false),
        r#"<label><input type="checkbox" name="ck" value="lees"> lees</label>"#
    );
    assert_eq!(fieldset("A & B", "<i></i>"), "<fieldset><legend>A &amp; B</legend><i></i></fieldset>");
}

#[test]
fn breadcrumb_links_to_the_level_section() {
    let clock = all_exercises()[exercise_index("clock").unwrap()];
    assert_eq!(
        exercise_breadcrumb(clock),
        r#"<nav class="breadcrumb" aria-label="kruimelpad"><ol><li><a href="/"><span class="icon" aria-hidden="true">🏠 </span>home</a></li><li><a href="/#niveau-2">Niveau 2</a></li><li aria-current="page">analoge klok</li></ol></nav>"#
    );
    let decimals = all_exercises()[exercise_index("decimals").unwrap()];
    assert!(exercise_breadcrumb(decimals).contains(r#"<a href="/#niveau-3">Niveau 3</a>"#));
}

#[test]
fn time_mode_fieldset_hides_the_deadline() {
    let t = time_mode_fieldset();
    assert!(t.starts_with("<fieldset><legend>Tijdsmodus</legend>"));
    assert!(t.contains(r#"<div id="deadline-section" hidden>"#));
    assert!(t.contains(r#"id="deadline-seconds" name="deadline-seconds" min="1" max="600" value="10""#));
}

#[test]
fn scaffold_has_setup_play_and_result() {
    let info = all_exercises()[exercise_index("mathbox").unwrap()];
    let s = exercise_scaffold(info, "Reken <mee>", "<CONFIG>", "<EXTRA>");
    assert!(s.starts_with(r#"<section id="page-setup"><p class="page-intro">Reken &lt;mee&gt;</p><form id="form-setup" autocomplete="off"><CONFIG><p id="config-error""#));
    assert!(s.contains(r#"🟢 start met oefenen</button></div></form><EXTRA><section id="history" class="history" data-exercise-id="mathbox">"#));
    assert!(s.contains("laatste oefensessies voor rekendoos."));
    assert!(s.contains(r#"data-action="practice-mistakes" disabled>🔁 oefen recente fouten</button>"#));
    assert!(s.contains(r#"<section id="page-exercises" hidden>"#));
    assert!(s.ends_with(r#"<div id="result"></div></section>"#));
    let setup = s.find("page-setup").unwrap();
    let play = s.find("page-exercises").unwrap();
    let result = s.find("page-result").unwrap();
    assert!(setup < play && play < result);
}

#[test]
fn clock_setup_offers_seconds_as_opt_in() {
    let c = clock_config_fields();
    assert!(c.starts_with(r#"<div class="field"><label for="num-exercises">Hoeveel oefeningen?</label>"#));
    assert!(c.contains(r#"max="60" value="10" required>"#));
    assert!(c.contains(r#"<label><input type="radio" name="granularity" value="hour" checked> volle uren (12:00)</label>"#));
    assert!(c.contains(r#"<input type="checkbox" name="ck" value="zet-woorden" checked> zet de klok vanuit woorden (&quot;kwart voor vier&quot;) 💬"#));
    assert!(c.contains(r#"<input type="radio" name="answer" value="multiple" checked>"#));
    assert!(c.contains(r#"id="include-seconds""#));
    assert!(!c.contains(r#"id="include-seconds" name="include-seconds" value="1" checked"#));
    assert!(c.contains(r#"<div id="second-options" hidden><label><input type="radio" name="second-step" value="5" checked>"#));
    assert!(c.contains(&seconds_fieldset()));
    assert!(c.ends_with(r#"verberg de getallen op de wijzerplaat</label></fieldset>"#));
}

#[test]
fn clock_freeplay_page() {
    let f = clock_freeplay_section();
    assert!(f.starts_with(r#"<section id="page-freeplay" hidden>"#));
    assert!(f.contains(r#"<p class="time-readout" id="freeplay-digital">06:00</p>"#));
    assert!(f.contains(r#"id="freeplay-phrase">zes uur</p>"#));
    assert!(f.contains(r#"id="freeplay-seconds""#));
    assert!(f.contains(r#"<div id="freeplay-second-controls" class="clock-control-row" hidden>"#));
    for id in ["freeplay-hour-dec", "freeplay-hour-inc", "freeplay-min-dec", "freeplay-min-inc", "freeplay-sec-dec", "freeplay-sec-inc"] {
        assert!(f.contains(&format!(r#"id="{id}""#)));
    }
    assert!(clock_freeplay_entry().contains(r#"id="freeplay-open""#));
}

#[test]
fn about_contact_links() {
    let a = about_contact_section();
    assert!(a.starts_with(r#"<section class="about-section"><h2>Bijdragen en contact</h2>"#));
    assert!(a.contains(r#"<a href="mailto:hello@plabayo.tech">hello@plabayo.tech ✉️</a>"#));
    assert!(a.contains("https://github.com/plabayo/homework/issues"));
    assert!(a.contains("CONTRIBUTING.md"));
    assert!(a.contains("https://github.com/sponsors/plabayo"));
    assert!(a.ends_with("</section>"));
}

#[test]
fn home_sections_list_each_level_in_catalogue_order() {
    let h = homework::markup::home_level_sections();
    let level3 = h.find(r#"<h2 id="niveau-3">Niveau 3️⃣</h2><ul class="exercise-list">"#).unwrap();
    let written = h.find(r#"data-exercise-id="written-arithmetic""#).unwrap();
    let decimals = h.find(r#"data-exercise-id="decimals""#).unwrap();
    let big = h.find(r#"data-exercise-id="advanced-mathbox""#).unwrap();
    assert!(level3 < written && written < decimals && decimals < big);
    let level2 = h.find(r#"<h2 id="niveau-2">"#).unwrap();
    let sense = h.find(r#"data-exercise-id="fraction-sense""#).unwrap();
    let fractions = h.find(r#"data-exercise-id="fractions""#).unwrap();
    assert!(level2 < sense && sense < fractions && fractions < level3);
    assert!(h.starts_with(r#"<h2 id="niveau-1">Niveau 1️⃣</h2><ul class="exercise-list"><li><a href="/1/mathbox" data-exercise-id="mathbox"><span class="icon" aria-hidden="true">🔢</span><span class="exercise-meta"><span class="exercise-label">rekendoos</span><small class="exercise-stats" data-stats-for="mathbox"> </small></span></a></li>"#));
    assert!(h.ends_with(r#"data-stats-for="flashcards"> </small></span></a></li></ul>"#));
    assert_eq!(h.matches("<h2 ").count(), 4);
    assert_eq!(h.matches("<li>").count(), 12);
}

#[test]
fn redirects_go_to_the_bare_https_host() {
    assert_eq!(https_location("www.elementary.training", "/2/clock?x=1"), "https://elementary.training/2/clock?x=1");
    assert_eq!(https_location("elementary.training", "/"), "https://elementary.training/");
    assert_eq!(www_redirect("www.elementary.training", "/about"), Some("https://elementary.training/about".to_string()));
    assert_eq!(www_redirect("elementary.training", "/about"), None);
    assert_eq!(www_redirect("wwwx.example", "/"), None);
    assert_eq!(host_without_www("www."), "");
    assert_eq!(host_without_www("www"), "www");
    assert_eq!(host_without_www("www.www.a"), "www.a");
    assert!(starts_with_www("www.a"));
    assert!(!starts_with_www("ww.a"));
}

#[test]
fn escaping_round_trips_through_the_replacement_decoder() {
    let decode = |s: &str| {
        s.replace("&lt;", "<")
            .replace("&gt;", ">")
            .replace("&quot;", "\"")
            .replace("&#39;", "'")
            .replace("&amp;", "&")
    };
    for s in ["&lt;", "a < b && c > \"d\" 'e'", "&amp;amp;", "&#39;&quot;", "plain", ""] {
        assert_eq!(decode(&html_escape(s)), s);
    }
}
