use homework::csp::{
    fallback_csp, service_worker_csp, CspDirective, CspEntry, CspPolicy, CspSource,
    InlineImportmap, InlineLdJson, InlineModuleScript, InlineScript, InlineSpeculationRules,
    InlineStyle,
};
use homework::digest::body_sha256_b64;
use homework::layout::{build_csp, PageInlines, SiteInlines};


fn leak<T>(t: T) -> &'static T {
    Box::leak(Box::new(t))
}

fn site() -> SiteInlines {
    SiteInlines {
        theme_init: leak(InlineScript::new("theme();")),
        importmap: leak(InlineImportmap::new("{\"imports\":{}}")),
        site_ld_json: leak(InlineLdJson::new("{\"@type\":\"WebSite\"}")),
    }
}

#[test]
fn inline_blocks_keep_body_and_hash() {
    let s = InlineStyle::new("body{}");
    assert_eq!(s.body(), "body{}");
    assert_eq!(s.hash_b64(), "fJgEClQWV1hGkK4qHMO0KotTsVnMYMXTq7/suurGyUo=");
    let m = InlineModuleScript::new("import x;");
    assert_eq!(m.body(), "import x;");
    assert_eq!(m.hash_b64(), "u40hfzEZ5SoEBve0goZ57wnBTAhM9OhJ7Q3qL4iXSIc=");
    let r = InlineSpeculationRules::new("{\"prefetch\":[]}");
    assert_eq!(r.body(), "{\"prefetch\":[]}");
}

#[test]
fn header_value_joins_directives() {
    let policy = CspPolicy {
        entries: vec![
            CspEntry {
                directive: CspDirective::DefaultSrc,
                sources: vec![CspSource::SelfOrigin],
            },
            CspEntry {
                directive: CspDirective::ImgSrc,
                sources: vec![CspSource::SelfOrigin, CspSource::Data, CspSource::Sha256("x")],
            },
        ],
    };
    assert_eq!(policy.header_value(), "default-src 'self'; img-src 'self' data: 'sha256-x'");
    assert_eq!(CspPolicy { entries: vec![] }.header_value(), "");
}

#[test]
fn page_policy_without_page_inlines() {
    let policy = build_csp(&site(), &PageInlines::default());
    assert_eq!(
        policy.header_value(),
        "default-src 'self'; script-src 'self' 'sha256-CzHvFNhLvXK4TfIMNWD3vTOcY6SiqnWiqQTttD8arGk=' 'sha256-URrTy+Il/Nz0lHojVUx275hWqAWhkSF0VsHbUM4/6Hw=' 'sha256-BVeyZNsytCIY5RQxOnir+X2Em963nP1HFMSTUS5CIBA=' 'inline-speculation-rules'; style-src 'self'; img-src 'self' https: data: blob:; connect-src 'self' https:; font-src 'self'; object-src 'none'; base-uri 'self'; form-action 'self'; frame-ancestors 'none'"
    );
}

#[test]
fn page_policy_lists_the_page_inlines() {
    let inlines = PageInlines {
        style: Some(leak(InlineStyle::new("a{}"))),
        module_script: Some(leak(InlineModuleScript::new("m"))),
        ld_json: Some(leak(InlineLdJson::new("{\"@type\":\"Quiz\"}"))),
        speculation_rules: Some(leak(InlineSpeculationRules::new("{}"))),
    };
    let header = build_csp(&site(), &inlines).header_value();
    assert!(header.contains(
        "script-src 'self' 'sha256-CzHvFNhLvXK4TfIMNWD3vTOcY6SiqnWiqQTttD8arGk=' 'sha256-URrTy+Il/Nz0lHojVUx275hWqAWhkSF0VsHbUM4/6Hw=' 'sha256-BVeyZNsytCIY5RQxOnir+X2Em963nP1HFMSTUS5CIBA=' 'inline-speculation-rules' 'sha256-YsZqel3XDDFGYYBjw0TlMebUtZ43mAhEPOlis6vWPFo=' 'sha256-Ybvre5KwJ7ZjRQfLwDJYTeF4AFn6GWuFPabyPvg1sM8=';"
    ));
    assert!(header.contains("style-src 'self' 'sha256-X1RutGBrXCt9KkSaXMK7tHftWiRscFHOhxsS8tv8hBk=';"));
    assert!(!header.contains("unsafe-inline"));
}

#[test]
fn service_worker_and_fallback_policies() {
    assert_eq!(
        service_worker_csp().header_value(),
        "default-src 'self'; script-src 'self'; connect-src 'self'; object-src 'none'; frame-ancestors 'none'"
    );
    assert_eq!(
        fallback_csp().header_value(),
        "default-src 'none'; frame-ancestors 'none'"
    );
}

#[test]
fn fingerprint_is_base64_sha256_of_the_body() {
    assert_eq!(body_sha256_b64(""), "47DEQpj8HBSa+/TImW+5JCeuQeRkm5NMpJWZG3hSuFU=");
    assert_eq!(body_sha256_b64("{}"), "RBNvo1WzZ4oRRq0W9+hknpT7T8If536DEMBg9hyq/4o=");
    assert_eq!(
        InlineStyle::new("").hash_b64(),
        "47DEQpj8HBSa+/TImW+5JCeuQeRkm5NMpJWZG3hSuFU="
    );
    assert_eq!(
        InlineImportmap::new("{}").hash_b64(),
        "RBNvo1WzZ4oRRq0W9+hknpT7T8If536DEMBg9hyq/4o="
    );
    let a = InlineScript::new("theme();");
    let b = InlineLdJson::new("theme();");
    assert_eq!(a.hash_b64(), b.hash_b64());
    assert_ne!(a.hash_b64(), InlineScript::new("theme(); ").hash_b64());
}

#[test]
fn fingerprints_are_44_characters_and_blocks_render_as_elements() {
    for body in ["", "a", "{}", "body { color: red; }", "ünïcödé ✨"] {
        assert_eq!(InlineStyle::new(body).hash_b64().len(), 44);
        assert_eq!(InlineScript::new(body).hash_b64().len(), 44);
        assert!(InlineLdJson::new(body).hash_b64().ends_with('='));
    }
    assert_eq!(InlineStyle::new("a{}").render(), "<style>a{}</style>");
    assert_eq!(InlineScript::new("x();").render(), "<script>x();</script>");
    assert_eq!(InlineModuleScript::new("m").render(), r#"<script type="module">m</script>"#);
    assert_eq!(InlineImportmap::new("{}").render(), r#"<script type="importmap">{}</script>"#);
    assert_eq!(
        InlineSpeculationRules::new("{}").render(),
        r#"<script type="speculationrules">{}</script>"#
    );
    assert_eq!(
        InlineLdJson::new("{}").render(),
        r#"<script type="application/ld+json">{}</script>"#
    );
}
