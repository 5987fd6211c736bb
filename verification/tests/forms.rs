use homework::forms::{
    advanced_mathbox_config_fields, decimals_config_fields, den_chip, digital_clock_config_fields,
    flashcards_config_fields, fraction_sense_config_fields, fractions_config_fields, kinds,
    mathbox_config_fields, multiplications_config_fields, num_exercises_field,
    percentages_config_fields, thermometer_config_fields, written_arithmetic_config_fields,
};
use homework::markup::time_mode_fieldset;

#[test]
fn small_form_parts() {
    assert_eq!(kinds("x"), r#"<div class="kinds">x</div>"#);
    assert_eq!(
        num_exercises_field("200"),
        r#"<div class="field"><label for="num-exercises">Hoeveel oefeningen?</label><input inputmode="numeric" pattern="[0-9]+" id="num-exercises" name="num-exercises" min="1" max="200" value="10" required></div>"#
    );
    assert_eq!(
        den_chip(12, false),
        r#"<label class="den-chip"><input type="checkbox" name="denominators" value="12">12</label>"#
    );
    assert_eq!(
        den_chip(2, true),
        r#"<label class="den-chip"><input type="checkbox" name="denominators" value="2" checked>2</label>"#
    );
}

#[test]
fn multiplication_tables_one_to_ten() {
    let f = multiplications_config_fields();
    for t in 1..=10 {
        assert!(f.contains(&format!(
            r#"<label><input type="checkbox" id="table-{t}" data-table="{t}"> tafel {t}</label>"#
        )));
    }
    assert!(!f.contains("table-11"));
    assert!(f.contains(r#"id="select-all""#));
    assert!(f.ends_with(&time_mode_fieldset()));
    let first = f.find("table-1\"").unwrap();
    let tenth = f.find("table-10\"").unwrap();
    assert!(first < tenth);
}

#[test]
fn fractions_denominator_chips() {
    let f = fractions_config_fields();
    for (n, on) in [(2, true), (3, true), (4, true), (5, false), (6, true), (12, false), (100, false)] {
        assert!(f.contains(&den_chip(n, on)));
    }
    assert!(f.contains(r#"<span class="den-chip-sep"></span>"#));
    assert!(f.contains(r#"id="mixed-denominators""#));
}

#[test]
fn forms_name_their_controls() {
    assert!(mathbox_config_fields().contains(r#"id="count-until" name="count-until" min="3" max="1000" value="10" required"#));
    assert!(thermometer_config_fields().contains(r#"<div id="vmin-neg-field" class="field" hidden>"#));
    let d = digital_clock_config_fields();
    assert!(d.contains(r#"<input type="checkbox" name="dir" value="words-to-digital" checked>"#));
    assert!(d.contains(r#"<div id="second-options" hidden>"#));
    assert!(percentages_config_fields().contains(r#"name="difficulty" value="makkelijk" checked"#));
    assert!(flashcards_config_fields().starts_with(r#"<input type="hidden" id="selected-deck-id""#));
    let w = written_arithmetic_config_fields();
    assert!(w.contains(r#"<input type="radio" name="maximum" value="1000" checked> tot 1 000</label>"#));
    assert!(w.contains(r#"name="difficulty" value="with-transfer"> met onthouden of lenen"#));
    assert!(decimals_config_fields().contains(r#"<input type="radio" name="precision" value="3"> duizendsten (0,001)</label>"#));
    let a = advanced_mathbox_config_fields();
    assert!(a.contains(r#"<fieldset id="division-options" hidden>"#));
    assert!(a.contains(r#"max="200" value="10" required"#));
    let s = fraction_sense_config_fields();
    assert_eq!(s.matches(r#"name="practice""#).count(), 4);
    assert!(s.contains("breuken en kommagetallen omzetten (bijv. 3/4 = 0,75)"));
    assert!(s.contains(r#"value="standard" checked><span>ook 8, 9, 10 en 12</span>"#));
}
