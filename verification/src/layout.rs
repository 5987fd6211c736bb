//! The shared page chrome: page metadata, the inline blocks a page emits,
//! the URLs its head links to, and the policy that whitelists its inlines.

use crate::csp::{
    admitted_hash, entry_text, policy_text, sources_text, CspDirective, CspEntry, CspPolicy,
    CspSource, InlineImportmap, InlineLdJson,
    InlineModuleScript, InlineScript, InlineSpeculationRules, InlineStyle,
};
use vstd::prelude::*;

verus! {

/// The origin every canonical URL of the site starts with.
pub open spec fn origin() -> Seq<char> {
    "https://elementary.training"@
}

/// All the optional inline-asset slots a page can fill.
#[derive(Default)]
pub struct PageInlines {
    pub style: Option<&'static InlineStyle>,
    pub module_script: Option<&'static InlineModuleScript>,
    pub speculation_rules: Option<&'static InlineSpeculationRules>,
    /// Per-page JSON-LD (`LearningResource`, `BreadcrumbList`, …).
    pub ld_json: Option<&'static InlineLdJson>,
}

/// The inline blocks every page emits: the theme-flash prevention script,
/// the import map and the site-wide JSON-LD.
pub struct SiteInlines {
    pub theme_init: &'static InlineScript,
    pub importmap: &'static InlineImportmap,
    pub site_ld_json: &'static InlineLdJson,
}

/// Title, description, share path and favicon of a page.
#[derive(Debug, Clone)]
pub struct PageMeta {
    pub title: &'static str,
    pub description: &'static str,
    /// Path (and optional query string) used to build the canonical og:url.
    pub og_path: String,
    pub favicon_emoji: &'static str,
}

impl Default for PageMeta {
    fn default() -> (r: Self)
        ensures
            r.title == "Oefeningen Basisschool",
            r.description == "Gratis huiswerk middel voor de basisschool.",
            r.og_path@ == "/"@,
            r.favicon_emoji == "🏫",
    {
        PageMeta {
            title: "Oefeningen Basisschool",
            description: "Gratis huiswerk middel voor de basisschool.",
            og_path: String::from_str("/"),
            favicon_emoji: "🏫",
        }
    }
}

/// `path` with the asset-version query string that busts caches.
pub open spec fn versioned(path: Seq<char>, version: Seq<char>) -> Seq<char> {
    path + "?v="@ + version
}

/// `path` with the asset-version query string, e.g. `/theme.css?v=<sha>`.
pub fn versioned_asset_url(path: &str, asset_version: &str) -> (r: String)
    ensures
        r@ == versioned(path@, asset_version@),
{
    let mut r = String::from_str(path);
    r.append("?v=");
    r.append(asset_version);
    r
}

/// A version token that can stand in a URL query and a JSON string as it
/// is: ASCII letters, digits, `-`, `.` and `_`, at least one.
pub open spec fn is_plain_token(v: Seq<char>) -> bool {
    v.len() > 0 && forall|i: int| 0 <= i < v.len() ==> is_token_char(#[trigger] v[i])
}

pub open spec fn is_token_char(c: char) -> bool {
    ('a' <= c && c <= 'z') || ('A' <= c && c <= 'Z') || ('0' <= c && c <= '9') || c == '-' || c
        == '.' || c == '_'
}

/// The site's import map: the bare specifier `@homework` resolves to the
/// shared script at this asset version, the URL the page preloads and
/// loads.
pub open spec fn importmap_text(version: Seq<char>) -> Seq<char> {
    "{\"imports\":{\"@homework\":\""@ + versioned("/homework.js"@, version) + "\"}}"@
}

/// The import map for this asset version, if the version is a plain token
/// (anything else could break out of the JSON string); `None` otherwise.
pub fn importmap_body(asset_version: &str) -> (r: Option<String>)
    ensures
        r is Some <==> is_plain_token(asset_version@),
        r matches Some(b) ==> b@ == importmap_text(asset_version@),
{
    let chars = crate::text::str_chars(asset_version);
    if chars.len() == 0 {
        return None;
    }
    let mut k: usize = 0;
    while k < chars.len()
        invariant
            chars@ == asset_version@,
            k <= chars@.len(),
            forall|i: int| 0 <= i < k ==> is_token_char(#[trigger] asset_version@[i]),
        decreases chars@.len() - k,
    {
        let c = chars[k];
        let ok = ('a' <= c && c <= 'z') || ('A' <= c && c <= 'Z') || ('0' <= c && c <= '9') || c
            == '-' || c == '.' || c == '_';
        if !ok {
            assert(!is_token_char(asset_version@[k as int]));
            return None;
        }
        k = k + 1;
    }
    let shared = versioned_asset_url("/homework.js", asset_version);
    let mut r = String::from_str("{\"imports\":{\"@homework\":\"");
    r.append(shared.as_str());
    r.append("\"}}");
    Some(r)
}

/// The URLs the head of a page links to.
pub struct PageUrls {
    /// The emoji favicon as an inline SVG data URL.
    pub favicon_data: String,
    /// The canonical (and og:) URL of the page.
    pub canonical: String,
    pub theme_css: String,
    pub manifest: String,
    pub apple_touch_icon: String,
    pub shared_js: String,
}

pub open spec fn favicon_data_url(emoji: Seq<char>) -> Seq<char> {
    "data:image/svg+xml,<svg xmlns=%22http://www.w3.org/2000/svg%22 viewBox=%2210 0 100 100%22><text y=%22.90em%22 font-size=%2290%22>"@
        + emoji + "</text></svg>"@
}

/// The head URLs of a page with metadata `meta`, assets at `version`.
pub fn page_urls(meta: &PageMeta, asset_version: &str) -> (r: PageUrls)
    ensures
        r.favicon_data@ == favicon_data_url(meta.favicon_emoji@),
        r.canonical@ == origin() + meta.og_path@,
        r.theme_css@ == versioned("/theme.css"@, asset_version@),
        r.manifest@ == versioned("/manifest.webmanifest"@, asset_version@),
        r.apple_touch_icon@ == versioned("/apple-touch-icon.png"@, asset_version@),
        r.shared_js@ == versioned("/homework.js"@, asset_version@),
{
    let mut favicon_data = String::from_str(
        "data:image/svg+xml,<svg xmlns=%22http://www.w3.org/2000/svg%22 viewBox=%2210 0 100 100%22><text y=%22.90em%22 font-size=%2290%22>",
    );
    favicon_data.append(meta.favicon_emoji);
    favicon_data.append("</text></svg>");
    let mut canonical = String::from_str("https://elementary.training");
    canonical.append(meta.og_path.as_str());
    PageUrls {
        favicon_data,
        canonical,
        theme_css: versioned_asset_url("/theme.css", asset_version),
        manifest: versioned_asset_url("/manifest.webmanifest", asset_version),
        apple_touch_icon: versioned_asset_url("/apple-touch-icon.png", asset_version),
        shared_js: versioned_asset_url("/homework.js", asset_version),
    }
}

/// The `script-src` list of a page: its own origin, the hashes of the
/// always-present inlines and of the page's module script and JSON-LD,
/// and the speculation-rules keyword.
pub open spec fn page_script_sources(site: SiteInlines, inlines: PageInlines) -> Seq<CspSource> {
    seq![
        CspSource::SelfOrigin,
        CspSource::Sha256(site.theme_init.hash_text()),
        CspSource::Sha256(site.importmap.hash_text()),
        CspSource::Sha256(site.site_ld_json.hash_text()),
        CspSource::InlineSpeculationRules,
    ] + match inlines.module_script {
        Some(m) => seq![CspSource::Sha256(m.hash_text())],
        None => Seq::<CspSource>::empty(),
    } + match inlines.ld_json {
        Some(l) => seq![CspSource::Sha256(l.hash_text())],
        None => Seq::<CspSource>::empty(),
    }
}

/// The `style-src` list of a page: its own origin and its style's hash.
pub open spec fn page_style_sources(inlines: PageInlines) -> Seq<CspSource> {
    seq![CspSource::SelfOrigin] + match inlines.style {
        Some(s) => seq![CspSource::Sha256(s.hash_text())],
        None => Seq::<CspSource>::empty(),
    }
}

/// The policy of an HTML page: script and style sources as above, every
/// other directive locked to the own origin (images and connections also
/// over any HTTPS origin) or to nothing.
pub open spec fn page_policy(site: SiteInlines, inlines: PageInlines) -> Seq<
    (CspDirective, Seq<CspSource>),
> {
    seq![
        (CspDirective::DefaultSrc, seq![CspSource::SelfOrigin]),
        (CspDirective::ScriptSrc, page_script_sources(site, inlines)),
        (CspDirective::StyleSrc, page_style_sources(inlines)),
        (
            CspDirective::ImgSrc,
            seq![CspSource::SelfOrigin, CspSource::HttpsScheme, CspSource::Data, CspSource::Blob],
        ),
        (CspDirective::ConnectSrc, seq![CspSource::SelfOrigin, CspSource::HttpsScheme]),
        (CspDirective::FontSrc, seq![CspSource::SelfOrigin]),
        (CspDirective::ObjectSrc, seq![CspSource::NoSource]),
        (CspDirective::BaseUri, seq![CspSource::SelfOrigin]),
        (CspDirective::FormAction, seq![CspSource::SelfOrigin]),
        (CspDirective::FrameAncestors, seq![CspSource::NoSource]),
    ]
}

fn entry_of(directive: CspDirective, sources: Vec<CspSource>) -> (r: CspEntry)
    ensures
        r@ == (directive, sources@),
{
    CspEntry { directive, sources }
}

/// Build the Content-Security-Policy of a page whose `script-src` /
/// `style-src` whitelist precisely the inline blocks the page renders.
pub fn build_csp(site: &SiteInlines, inlines: &PageInlines) -> (r: CspPolicy)
    ensures
        r@ == page_policy(*site, *inlines),
{
    let mut script_src: Vec<CspSource> = Vec::new();
    script_src.push(CspSource::SelfOrigin);
    script_src.push(CspSource::Sha256(site.theme_init.hash_b64()));
    script_src.push(CspSource::Sha256(site.importmap.hash_b64()));
    script_src.push(CspSource::Sha256(site.site_ld_json.hash_b64()));
    script_src.push(CspSource::InlineSpeculationRules);
    if let Some(s) = inlines.module_script {
        script_src.push(CspSource::Sha256(s.hash_b64()));
    }
    if let Some(s) = inlines.ld_json {
        script_src.push(CspSource::Sha256(s.hash_b64()));
    }
    assert(script_src@ =~= page_script_sources(*site, *inlines));
    let mut style_src: Vec<CspSource> = Vec::new();
    style_src.push(CspSource::SelfOrigin);
    if let Some(s) = inlines.style {
        style_src.push(CspSource::Sha256(s.hash_b64()));
    }
    assert(style_src@ =~= page_style_sources(*inlines));
    let default_src = vec![CspSource::SelfOrigin];
    assert(default_src@ =~= seq![CspSource::SelfOrigin]);
    let img_src = vec![
        CspSource::SelfOrigin,
        CspSource::HttpsScheme,
        CspSource::Data,
        CspSource::Blob,
    ];
    assert(img_src@ =~= seq![
        CspSource::SelfOrigin,
        CspSource::HttpsScheme,
        CspSource::Data,
        CspSource::Blob,
    ]);
    let connect_src = vec![CspSource::SelfOrigin, CspSource::HttpsScheme];
    assert(connect_src@ =~= seq![CspSource::SelfOrigin, CspSource::HttpsScheme]);
    let font_src = vec![CspSource::SelfOrigin];
    assert(font_src@ =~= seq![CspSource::SelfOrigin]);
    let object_src = vec![CspSource::NoSource];
    assert(object_src@ =~= seq![CspSource::NoSource]);
    let base_uri = vec![CspSource::SelfOrigin];
    assert(base_uri@ =~= seq![CspSource::SelfOrigin]);
    let form_action = vec![CspSource::SelfOrigin];
    assert(form_action@ =~= seq![CspSource::SelfOrigin]);
    let frame_ancestors = vec![CspSource::NoSource];
    assert(frame_ancestors@ =~= seq![CspSource::NoSource]);
    let entries = vec![
        entry_of(CspDirective::DefaultSrc, default_src),
        entry_of(CspDirective::ScriptSrc, script_src),
        entry_of(CspDirective::StyleSrc, style_src),
        entry_of(CspDirective::ImgSrc, img_src),
        entry_of(CspDirective::ConnectSrc, connect_src),
        entry_of(CspDirective::FontSrc, font_src),
        entry_of(CspDirective::ObjectSrc, object_src),
        entry_of(CspDirective::BaseUri, base_uri),
        entry_of(CspDirective::FormAction, form_action),
        entry_of(CspDirective::FrameAncestors, frame_ancestors),
    ];
    let r = CspPolicy { entries };
    assert(r@ =~= page_policy(*site, *inlines));
    r
}


/// A page's policy admits exactly the inline blocks the page renders,
/// nothing more, nothing less: `script-src` the hashes of the
/// theme-init script, the import map, the site JSON-LD and the page's
/// module script and JSON-LD; `style-src` the hash of the page's style;
/// no other directive admits any hash.
pub proof fn lemma_page_policy_admits_exactly_rendered_inlines(
    site: SiteInlines,
    inlines: PageInlines,
    h: &'static str,
)
    ensures
        page_policy(site, inlines)[1].0 == CspDirective::ScriptSrc,
        admitted_hash(page_policy(site, inlines)[1].1, h) <==> {
            ||| h == site.theme_init.hash_text()
            ||| h == site.importmap.hash_text()
            ||| h == site.site_ld_json.hash_text()
            ||| (inlines.module_script matches Some(m) && h == m.hash_text())
            ||| (inlines.ld_json matches Some(l) && h == l.hash_text())
        },
        page_policy(site, inlines)[2].0 == CspDirective::StyleSrc,
        admitted_hash(page_policy(site, inlines)[2].1, h) <==> (inlines.style matches Some(st)
            && h == st.hash_text()),
        forall|k: int|
            0 <= k < page_policy(site, inlines).len() && k != 1 && k != 2 ==> !admitted_hash(
                #[trigger] page_policy(site, inlines)[k].1,
                h,
            ),
{
    let script = page_script_sources(site, inlines);
    let style = page_style_sources(inlines);
    let x = CspSource::Sha256(h);
    let head = seq![
        CspSource::SelfOrigin,
        CspSource::Sha256(site.theme_init.hash_text()),
        CspSource::Sha256(site.importmap.hash_text()),
        CspSource::Sha256(site.site_ld_json.hash_text()),
        CspSource::InlineSpeculationRules,
    ];
    let m = match inlines.module_script {
        Some(m) => seq![CspSource::Sha256(m.hash_text())],
        None => Seq::<CspSource>::empty(),
    };
    let l = match inlines.ld_json {
        Some(l) => seq![CspSource::Sha256(l.hash_text())],
        None => Seq::<CspSource>::empty(),
    };
    assert(script == head + m + l);
    if script.contains(x) {
        let i = choose|i: int| 0 <= i < script.len() && script[i] == x;
        if i < head.len() {
            assert(head[i] == x);
        } else if i < head.len() + m.len() {
            assert(m[i - head.len()] == x);
        } else {
            assert(l[i - head.len() - m.len()] == x);
        }
    }
    if h == site.theme_init.hash_text() {
        assert(script[1] == x);
    }
    if h == site.importmap.hash_text() {
        assert(script[2] == x);
    }
    if h == site.site_ld_json.hash_text() {
        assert(script[3] == x);
    }
    if inlines.module_script matches Some(mm) && h == mm.hash_text() {
        assert(script[5] == x);
    }
    if inlines.ld_json matches Some(ll) && h == ll.hash_text() {
        assert(script[(head.len() + m.len()) as int] == x);
    }
    if style.contains(x) {
        let i = choose|i: int| 0 <= i < style.len() && style[i] == x;
        assert(i == 1);
    }
    if inlines.style matches Some(st) && h == st.hash_text() {
        assert(style[1] == x);
    }
    let p = page_policy(site, inlines);
    assert forall|k: int| 0 <= k < p.len() && k != 1 && k != 2 implies !admitted_hash(
        #[trigger] p[k].1,
        h,
    ) by {
        if p[k].1.contains(x) {
            let i = choose|i: int| 0 <= i < p[k].1.len() && p[k].1[i] == x;
        }
    }
}

/// Only `script-src` and `style-src` depend on a page's inline blocks:
/// every page's policy has the same ten directives in the same order, and
/// all others are fixed: everything from the own origin by default,
/// images also over any HTTPS origin and from `data:` and `blob:` URLs,
/// connections also to any HTTPS origin, fonts from the own origin, no
/// plugins, base URI and form targets on the own origin, and no framing.
pub proof fn lemma_page_policy_fixed_directives(
    site: SiteInlines,
    inlines: PageInlines,
    other_site: SiteInlines,
    other_inlines: PageInlines,
)
    ensures
        page_policy(site, inlines).len() == 10,
        page_policy(site, inlines)[0] == (CspDirective::DefaultSrc, seq![CspSource::SelfOrigin]),
        page_policy(site, inlines)[1].0 == CspDirective::ScriptSrc,
        page_policy(site, inlines)[2].0 == CspDirective::StyleSrc,
        page_policy(site, inlines)[3] == (
            CspDirective::ImgSrc,
            seq![CspSource::SelfOrigin, CspSource::HttpsScheme, CspSource::Data, CspSource::Blob],
        ),
        page_policy(site, inlines)[4] == (
            CspDirective::ConnectSrc,
            seq![CspSource::SelfOrigin, CspSource::HttpsScheme],
        ),
        page_policy(site, inlines)[5] == (CspDirective::FontSrc, seq![CspSource::SelfOrigin]),
        page_policy(site, inlines)[6] == (CspDirective::ObjectSrc, seq![CspSource::NoSource]),
        page_policy(site, inlines)[7] == (CspDirective::BaseUri, seq![CspSource::SelfOrigin]),
        page_policy(site, inlines)[8] == (CspDirective::FormAction, seq![CspSource::SelfOrigin]),
        page_policy(site, inlines)[9] == (CspDirective::FrameAncestors, seq![CspSource::NoSource]),
        forall|k: int|
            0 <= k < 10 && k != 1 && k != 2 ==> #[trigger] page_policy(site, inlines)[k]
                == page_policy(other_site, other_inlines)[k],
{
    let p = page_policy(site, inlines);
    let q = page_policy(other_site, other_inlines);
    assert forall|k: int| 0 <= k < 10 && k != 1 && k != 2 implies #[trigger] p[k] == q[k] by {
        if k == 0 {
        } else if k == 3 {
        } else if k == 4 {
        } else if k == 5 {
        } else if k == 6 {
        } else if k == 7 {
        } else if k == 8 {
        } else {
            assert(k == 9);
        }
    }
}

/// The header text of the first `k` directives of a policy is that of the
/// first `k - 1`, then `; ` and the `k`-th.
proof fn lemma_policy_text_take(p: Seq<(CspDirective, Seq<CspSource>)>, k: int)
    requires
        2 <= k <= p.len(),
    ensures
        policy_text(p.take(k)) == policy_text(p.take(k - 1)) + "; "@ + entry_text(p[k - 1]),
{
    assert(p.take(k).drop_last() =~= p.take(k - 1));
    assert(p.take(k).last() == p[k - 1]);
}

/// In the header text of every page's policy, the part after `style-src`
/// is always the same: images also over HTTPS and from `data:` and `blob:`
/// URLs, connections also over HTTPS, fonts from the own origin, no
/// plugins, base URI and form targets on the own origin, no framing.
pub proof fn lemma_page_policy_header_tail(site: SiteInlines, inlines: PageInlines)
    ensures
        policy_text(page_policy(site, inlines)) == policy_text(page_policy(site, inlines).take(3))
            + "; img-src 'self' https: data: blob:; connect-src 'self' https:; font-src 'self'; object-src 'none'; base-uri 'self'; form-action 'self'; frame-ancestors 'none'"@,
{
    let p = page_policy(site, inlines);
    assert(p.take(10) =~= p);
    lemma_policy_text_take(p, 10);
    lemma_policy_text_take(p, 9);
    lemma_policy_text_take(p, 8);
    lemma_policy_text_take(p, 7);
    lemma_policy_text_take(p, 6);
    lemma_policy_text_take(p, 5);
    lemma_policy_text_take(p, 4);
    reveal_with_fuel(sources_text, 5);
    let img = seq![CspSource::SelfOrigin, CspSource::HttpsScheme, CspSource::Data, CspSource::Blob];
    assert(img.drop_last() =~= seq![CspSource::SelfOrigin, CspSource::HttpsScheme, CspSource::Data]);
    assert(img.drop_last().drop_last() =~= seq![CspSource::SelfOrigin, CspSource::HttpsScheme]);
    assert(img.drop_last().drop_last().drop_last() =~= seq![CspSource::SelfOrigin]);
    assert(seq![CspSource::SelfOrigin].drop_last() =~= Seq::<CspSource>::empty());
    assert(seq![CspSource::NoSource].drop_last() =~= Seq::<CspSource>::empty());
    assert(seq![CspSource::SelfOrigin, CspSource::HttpsScheme].drop_last() =~= seq![
        CspSource::SelfOrigin,
    ]);
    reveal_strlit("; img-src 'self' https: data: blob:; connect-src 'self' https:; font-src 'self'; object-src 'none'; base-uri 'self'; form-action 'self'; frame-ancestors 'none'");
    reveal_strlit("; ");
    reveal_strlit(" ");
    reveal_strlit("img-src");
    reveal_strlit("connect-src");
    reveal_strlit("font-src");
    reveal_strlit("object-src");
    reveal_strlit("base-uri");
    reveal_strlit("form-action");
    reveal_strlit("frame-ancestors");
    reveal_strlit("'self'");
    reveal_strlit("'none'");
    reveal_strlit("https:");
    reveal_strlit("data:");
    reveal_strlit("blob:");
    assert(policy_text(p) =~= policy_text(p.take(3))
        + "; img-src 'self' https: data: blob:; connect-src 'self' https:; font-src 'self'; object-src 'none'; base-uri 'self'; form-action 'self'; frame-ancestors 'none'"@);
}

} // verus!
