use homework::assets::{build_sitemap_xml, versioned_manifest};
use homework::text::replace_str;
use homework::exercises::all_exercises;
use homework::json_ld::{
    build_exercise_document, site_document, EducationalRole, LearningResourceType, SchemaType,
};
use homework::csp::{InlineImportmap, InlineLdJson, InlineModuleScript, InlineScript, InlineStyle};
use homework::layout::{importmap_body, page_urls, versioned_asset_url, PageInlines, PageMeta, SiteInlines};
use homework::page::{page_parts, render_page};

fn leak<T>(t: T) -> &'static T {
    Box::leak(Box::new(t))
}

#[test]
fn versioned_urls_append_the_asset_version() {
    assert_eq!(versioned_asset_url("/theme.css", "abc123"), "/theme.css?v=abc123");
    assert_eq!(versioned_asset_url("", ""), "?v=");
}

#[test]
fn page_meta_default() {
    let m = PageMeta::default();
    assert_eq!(m.title, "Oefeningen Basisschool");
    assert_eq!(m.description, "Gratis huiswerk middel voor de basisschool.");
    assert_eq!(m.og_path, "/");
    assert_eq!(m.favicon_emoji, "🏫");
}

#[test]
fn page_urls_for_a_page() {
    let mut meta = PageMeta::default();
    meta.og_path = "/2/clock".to_string();
    meta.favicon_emoji = "🕐";
    let urls = page_urls(&meta, "v1");
    assert_eq!(urls.canonical, "https://elementary.training/2/clock");
    assert_eq!(urls.theme_css, "/theme.css?v=v1");
    assert_eq!(urls.manifest, "/manifest.webmanifest?v=v1");
    assert_eq!(urls.apple_touch_icon, "/apple-touch-icon.png?v=v1");
    assert_eq!(urls.shared_js, "/homework.js?v=v1");
    assert_eq!(
        urls.favicon_data,
        "data:image/svg+xml,<svg xmlns=%22http://www.w3.org/2000/svg%22 viewBox=%2210 0 100 100%22><text y=%22.90em%22 font-size=%2290%22>🕐</text></svg>"
    );
}

#[test]
fn sitemap_lists_static_pages_and_exercises() {
    let xml = build_sitemap_xml();
    let mut expected = String::from(
        "<?xml version=\"1.0\" encoding=\"UTF-8\"?>\n<urlset xmlns=\"http://www.sitemaps.org/schemas/sitemap/0.9\">\n",
    );
    for p in ["/", "/about", "/privacy"]
        .into_iter()
        .chain(all_exercises().iter().map(|e| e.path))
    {
        expected.push_str(&format!(
            "  <url><loc>https://elementary.training{p}</loc></url>\n"
        ));
    }
    expected.push_str("</urlset>\n");
    assert_eq!(xml, expected);
    assert!(xml.contains("<loc>https://elementary.training/2/percentages</loc>"));
    assert!(!xml.contains("/offline"));
}

#[test]
fn site_document_has_typed_graph() {
    let doc = site_document();
    assert_eq!(doc.website.schema_type, SchemaType::WebSite);
    assert_eq!(doc.organization.schema_type, SchemaType::EducationalOrganization);
    assert_eq!(doc.context, "https://schema.org");
    assert_eq!(doc.website.publisher, doc.organization.id);
}

#[test]
fn exercise_document_uses_catalogue_metadata() {
    const DESCRIPTION: &str = "Oefen de maaltafels van 1 tot en met 10.";
    let info = all_exercises()[1];
    assert_eq!(info.id, "multiplications");
    let doc = build_exercise_document(info, DESCRIPTION);
    let resource = &doc.resource;
    let level = &doc.breadcrumb.item_list_element[1];

    assert_eq!(resource.schema_type, SchemaType::LearningResource);
    assert_eq!(resource.name, info.label);
    assert_eq!(resource.description, DESCRIPTION);
    assert_eq!(level.name, "Niveau 1");
    assert_eq!(level.item.as_deref(), Some("https://elementary.training/#niveau-1"));
}

#[test]
fn exercise_document_urls_and_trail() {
    let info = all_exercises()[11];
    let doc = build_exercise_document(info, "d");
    assert_eq!(doc.resource.url, "https://elementary.training/extra/flashcards");
    assert_eq!(doc.resource.id, "https://elementary.training/extra/flashcards#resource");
    assert_eq!(doc.resource.educational_level, "Extra");
    assert_eq!(doc.resource.learning_resource_type, LearningResourceType::Exercise);
    assert_eq!(doc.resource.audience.educational_role, EducationalRole::Student);
    let trail = &doc.breadcrumb.item_list_element;
    assert_eq!(trail.len(), 3);
    assert_eq!(trail[0].item.as_deref(), Some("https://elementary.training/"));
    assert_eq!(trail[1].item.as_deref(), Some("https://elementary.training/#niveau-10"));
    assert_eq!(trail[2].name, "flitskaarten");
    assert_eq!(trail[2].item, None);
    assert_eq!(trail[2].position, 3);
}

#[test]
fn manifest_icon_urls_get_the_asset_version() {
    let manifest = r#"{"icons":[{"src":"/favicon.svg"},{"src":"/icon-192.png"},{"src":"/icon-512.png"},{"src":"/icon-192.png"}],"start_url":"/","note":"/favicon.svg-x"}"#;
    assert_eq!(
        versioned_manifest(manifest, "abc"),
        r#"{"icons":[{"src":"/favicon.svg?v=abc"},{"src":"/icon-192.png?v=abc"},{"src":"/icon-512.png?v=abc"},{"src":"/icon-192.png?v=abc"}],"start_url":"/","note":"/favicon.svg-x"}"#
    );
}

#[test]
fn replace_is_left_to_right_and_non_overlapping() {
    assert_eq!(replace_str("aaa", "aa", "b"), "ba");
    assert_eq!(replace_str("xyz", "q", "r"), "xyz");
    assert_eq!(replace_str("", "q", "r"), "");
    assert_eq!(replace_str("abab", "ab", ""), "");
    assert_eq!(replace_str("héllo wörld", "ö", "oe"), "héllo woerld");
}

#[test]
fn page_document_renders_its_blocks_and_escapes_metadata() {
    let site = SiteInlines {
        theme_init: leak(InlineScript::new("theme();")),
        importmap: leak(InlineImportmap::new("{\"imports\":{}}")),
        site_ld_json: leak(InlineLdJson::new("{\"@type\":\"WebSite\"}")),
    };
    let inlines = PageInlines {
        style: Some(leak(InlineStyle::new("a{}"))),
        module_script: Some(leak(InlineModuleScript::new("m"))),
        ld_json: None,
        speculation_rules: None,
    };
    let meta = PageMeta {
        title: "A & B",
        description: "<d>",
        og_path: "/2/clock".to_string(),
        favicon_emoji: "🕐",
    };
    let doc = render_page(&site, "v1", &meta, &inlines, "<p>inhoud</p>", "");
    assert!(doc.starts_with(r#"<!DOCTYPE html><html lang="nl-BE" data-asset-version="v1"><head>"#));
    assert!(doc.contains("<title>A &amp; B</title>"));
    assert!(doc.contains(r#"<meta name="description" content="&lt;d&gt;">"#));
    assert!(doc.contains(r#"<link rel="canonical" href="https://elementary.training/2/clock">"#));
    assert!(doc.contains(r#"<script type="importmap">{"imports":{}}</script>"#));
    assert!(doc.contains("<style>a{}</style>"));
    assert!(doc.contains("<script>theme();</script>"));
    assert!(doc.contains(r#"<script type="module">m</script>"#));
    assert!(!doc.contains("speculationrules"));
    assert!(doc.contains(r#"<main id="main-content"><p>inhoud</p></main>"#));
    assert!(doc.contains(r#"<script type="module" src="/homework.js?v=v1"></script>"#));
    assert!(doc.ends_with("</body></html>"));
}

#[test]
fn page_parts_pair_the_document_with_its_policy() {
    let site = SiteInlines {
        theme_init: leak(InlineScript::new("theme();")),
        importmap: leak(InlineImportmap::new("{}")),
        site_ld_json: leak(InlineLdJson::new("{\"@type\":\"WebSite\"}")),
    };
    let style = leak(InlineStyle::new("a{}"));
    let inlines = PageInlines {
        style: Some(style),
        module_script: None,
        ld_json: None,
        speculation_rules: None,
    };
    let parts = page_parts(&site, "v1", &PageMeta::default(), &inlines, "<p>x</p>", "");
    assert_eq!(parts.cache_control, "no-cache");
    assert!(parts.html.contains(&style.render()));
    let header = parts.csp.header_value();
    assert!(header.contains(&format!("style-src 'self' 'sha256-{}';", style.hash_b64())));
    assert!(header.contains(&format!("'sha256-{}'", site.theme_init.hash_b64())));
    assert!(parts.html.contains(&site.theme_init.render()));
    assert_eq!(parts.html, render_page(&site, "v1", &PageMeta::default(), &inlines, "<p>x</p>", ""));
}

#[test]
fn importmap_names_the_versioned_shared_script() {
    assert_eq!(
        importmap_body("abc123").as_deref(),
        Some(r#"{"imports":{"@homework":"/homework.js?v=abc123"}}"#)
    );
    assert_eq!(importmap_body("v1.2-rc_3").as_deref(), Some(r#"{"imports":{"@homework":"/homework.js?v=v1.2-rc_3"}}"#));
    assert_eq!(importmap_body(""), None);
    assert_eq!(importmap_body("a\"b"), None);
    assert_eq!(importmap_body("a b"), None);
}
