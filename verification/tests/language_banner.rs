use homework::language_banner::{
    accepts_nl, banner_langs, find_translation, html_escape, lang_banner, lang_ok_cookie_set,
    render_banner,
};
use rama::http::HeaderMap;

fn make_headers(accept_lang: &str) -> HeaderMap {
    let mut h = HeaderMap::new();
    h.insert("accept-language", accept_lang.parse().unwrap());
    h
}

#[test]
fn nl_be_is_accepted() {
    assert!(accepts_nl("nl-BE,nl;q=0.9,fr;q=0.8"));
}

#[test]
fn nl_bare_is_accepted() {
    assert!(accepts_nl("nl"));
}

#[test]
fn nl_nl_is_accepted() {
    assert!(accepts_nl("nl-NL"));
}

#[test]
fn en_us_is_not_nl() {
    assert!(!accepts_nl("en-US,en;q=0.9"));
}

#[test]
fn empty_accept_lang_is_not_nl() {
    assert!(!accepts_nl(""));
}

#[test]
fn find_translation_returns_english_for_unknown_lang() {
    let t = find_translation("xx-YY");
    assert_eq!(t.tag, "en");
}

#[test]
fn find_translation_matches_french() {
    let t = find_translation("fr-FR,fr;q=0.9");
    assert_eq!(t.tag, "fr");
}

#[test]
fn dutch_tag_is_found_after_trimming_and_lowercasing() {
    assert!(accepts_nl("en-US;q=0.9, NL-be ;q=0.5"));
    assert!(!accepts_nl("nld, en"));
}

#[test]
fn first_listed_range_wins_over_table_order() {
    assert_eq!(find_translation("de-DE,fr;q=0.9").tag, "de");
    assert_eq!(find_translation("xx, ar;q=0.5").tag, "ar");
    assert_eq!(find_translation("frx").tag, "en");
}

#[test]
fn cookie_pair_is_found_among_others() {
    assert!(lang_ok_cookie_set("lang_ok=1"));
    assert!(lang_ok_cookie_set("session=abc; lang_ok=1; theme=dark"));
    assert!(!lang_ok_cookie_set("lang_ok=0; theme=dark"));
    assert!(!lang_ok_cookie_set(""));
}

#[test]
fn lang_banner_empty_for_nl_be() {
    let headers = make_headers("nl-BE,nl;q=0.9");
    assert!(lang_banner(&headers).is_empty());
}

#[test]
fn lang_banner_present_for_en() {
    let headers = make_headers("en-US,en;q=0.9");
    assert!(!lang_banner(&headers).is_empty());
}

#[test]
fn lang_banner_empty_when_cookie_set() {
    let mut headers = make_headers("en-US");
    headers.insert("cookie", "lang_ok=1".parse().unwrap());
    assert!(lang_banner(&headers).is_empty());
}

#[test]
fn lang_banner_empty_when_cookie_among_others() {
    let mut headers = make_headers("en-US");
    headers.insert(
        "cookie",
        "session=abc; lang_ok=1; theme=dark".parse().unwrap(),
    );
    assert!(lang_banner(&headers).is_empty());
}

#[test]
fn rendered_banner_contains_email_link() {
    let headers = make_headers("en-US");
    let banner = lang_banner(&headers);
    assert!(banner.contains("hello@plabayo.tech"));
    assert!(banner.contains("lang-banner-dismiss"));
}

#[test]
fn rtl_banner_has_dir_attribute() {
    let headers = make_headers("ar");
    let banner = lang_banner(&headers);
    assert!(banner.contains(r#"dir="rtl""#));
}

#[test]
fn ltr_banner_has_no_dir_attribute() {
    let headers = make_headers("en");
    let banner = lang_banner(&headers);
    assert!(!banner.contains("dir="));
}

#[test]
fn banner_without_headers_is_english() {
    let headers = HeaderMap::new();
    let banner = lang_banner(&headers);
    assert!(banner.contains("This open learning platform"));
    assert!(banner.contains(">Got it</button>"));
}

#[test]
fn banner_for_non_ascii_accept_language_is_english() {
    let mut headers = HeaderMap::new();
    headers.insert(
        "accept-language",
        rama::http::HeaderValue::from_bytes(b"fr\xe9").unwrap(),
    );
    let banner = lang_banner(&headers);
    assert!(banner.contains(">Got it</button>"));
}

#[test]
fn dismissed_cookie_wins_over_language() {
    let mut headers = make_headers("fr");
    headers.insert("cookie", "lang_ok=1".parse().unwrap());
    assert_eq!(lang_banner(&headers), "");
}

#[test]
fn html_escape_replaces_the_five_metacharacters() {
    assert_eq!(
        html_escape(r#"a<b>&"c'd"#),
        "a&lt;b&gt;&amp;&quot;c&#39;d"
    );
    assert_eq!(html_escape("plain text é"), "plain text é");
    assert_eq!(html_escape("&amp;"), "&amp;amp;");
}

#[test]
fn render_banner_exact_markup() {
    let langs = banner_langs();
    let zh = langs.iter().find(|l| l.tag == "zh").unwrap();
    let html = render_banner(zh);
    assert_eq!(
        html,
        format!(
            r#"<div id="lang-banner" class="lang-banner" role="alert"><p>{}<a href="mailto:hello@plabayo.tech">hello@plabayo.tech</a></p><button type="button" class="btn" id="lang-banner-dismiss">知道了</button></div>"#,
            zh.prefix
        )
    );
}

#[test]
fn table_starts_with_english_and_has_unique_tags() {
    let langs = banner_langs();
    assert_eq!(langs[0].tag, "en");
    assert_eq!(langs.len(), 24);
    for (i, a) in langs.iter().enumerate() {
        for b in &langs[i + 1..] {
            assert_ne!(a.tag, b.tag);
        }
    }
}
