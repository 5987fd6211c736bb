//! The HTML document of a page: the shared head and chrome around the
//! page's body, with the inline blocks the page uses.

use crate::language_banner::{escape_html, html_escape};
use crate::layout::{
    build_csp, versioned_asset_url, favicon_data_url, lemma_page_policy_admits_exactly_rendered_inlines, origin, page_policy,
    page_urls, versioned, PageInlines, PageMeta, SiteInlines,
};
use crate::csp::{admitted_hash, CspDirective, CspPolicy};
use crate::markup::{is_infix, lemma_infix_between, lemma_infix_extends, lemma_infix_transitive};
use vstd::prelude::*;

verus! {

/// The `<style>…` element of the page's style block, or nothing.
pub open spec fn style_block(inlines: PageInlines) -> Seq<char> {
    match inlines.style {
        Some(b) => b.element(),
        None => Seq::<char>::empty(),
    }
}

fn append_style_block(r: &mut String, inlines: &PageInlines)
    ensures
        final(r)@ == old(r)@ + style_block(*inlines),
{
    match inlines.style {
        Some(b) => {
            r.append(b.render().as_str());
        },
        None => {
            assert(old(r)@ + Seq::<char>::empty() =~= old(r)@);
        },
    }
}


/// The `<script type="application/ld+json">…` element of the page's ld_json block, or nothing.
pub open spec fn ld_json_block(inlines: PageInlines) -> Seq<char> {
    match inlines.ld_json {
        Some(b) => b.element(),
        None => Seq::<char>::empty(),
    }
}

fn append_ld_json_block(r: &mut String, inlines: &PageInlines)
    ensures
        final(r)@ == old(r)@ + ld_json_block(*inlines),
{
    match inlines.ld_json {
        Some(b) => {
            r.append(b.render().as_str());
        },
        None => {
            assert(old(r)@ + Seq::<char>::empty() =~= old(r)@);
        },
    }
}


/// The `<script type="module">…` element of the page's module_script block, or nothing.
pub open spec fn module_script_block(inlines: PageInlines) -> Seq<char> {
    match inlines.module_script {
        Some(b) => b.element(),
        None => Seq::<char>::empty(),
    }
}

fn append_module_script_block(r: &mut String, inlines: &PageInlines)
    ensures
        final(r)@ == old(r)@ + module_script_block(*inlines),
{
    match inlines.module_script {
        Some(b) => {
            r.append(b.render().as_str());
        },
        None => {
            assert(old(r)@ + Seq::<char>::empty() =~= old(r)@);
        },
    }
}


/// The `<script type="speculationrules">…` element of the page's speculation_rules block, or nothing.
pub open spec fn speculation_block(inlines: PageInlines) -> Seq<char> {
    match inlines.speculation_rules {
        Some(b) => b.element(),
        None => Seq::<char>::empty(),
    }
}

fn append_speculation_block(r: &mut String, inlines: &PageInlines)
    ensures
        final(r)@ == old(r)@ + speculation_block(*inlines),
{
    match inlines.speculation_rules {
        Some(b) => {
            r.append(b.render().as_str());
        },
        None => {
            assert(old(r)@ + Seq::<char>::empty() =~= old(r)@);
        },
    }
}


/// The site-wide JSON-LD element.
pub open spec fn site_ld_block(site: SiteInlines) -> Seq<char> {
    site.site_ld_json.element()
}

/// The theme-flash prevention script element.
pub open spec fn theme_init_block(site: SiteInlines) -> Seq<char> {
    site.theme_init.element()
}

/// The part of the head that names the page: its description, its title
/// and its canonical URL on the site's origin.
#[verifier::opaque]
pub open spec fn head_names_markup(meta: PageMeta) -> Seq<char> {
    "<meta name=\"description\" content=\""@
        + escape_html(meta.description@)
        + "\">"@
        + "<title>"@
        + escape_html(meta.title@)
        + "</title>"@
        + "<link rel=\"canonical\" href=\""@
        + escape_html(origin() + meta.og_path@)
        + "\">"@
}

/// The head up to the inline blocks: the document's language and asset
/// version, the metadata, the canonical URL, the favicon, the home-screen
/// metadata, the import map, the links to the versioned assets and the
/// share previews.
#[verifier::opaque]
pub open spec fn head_markup(site: SiteInlines, version: Seq<char>, meta: PageMeta) -> Seq<char> {
    "<!DOCTYPE html><html lang=\"nl-BE\" data-asset-version=\""@
        + escape_html(version)
        + "\"><head><!-- Copyright (C) 2024-2026 Plabayo. License: https://github.com/plabayo/homework/blob/main/LICENSE Source-available; non-commercial use only. --><meta charset=\"UTF-8\"><meta name=\"viewport\" content=\"width=device-width, initial-scale=1.0\"><meta name=\"color-scheme\" content=\"light dark\"><meta name=\"theme-color\" content=\"#2d6cdf\" media=\"(prefers-color-scheme: light)\"><meta name=\"theme-color\" content=\"#14171c\" media=\"(prefers-color-scheme: dark)\"><meta name=\"robots\" content=\"index, follow\">"@
        + head_names_markup(meta)
        + "<link rel=\"icon\" href=\""@
        + escape_html(favicon_data_url(meta.favicon_emoji@))
        + "\"><link rel=\"apple-touch-icon\" href=\""@
        + escape_html(versioned("/apple-touch-icon.png"@, version))
        + "\"><meta name=\"apple-mobile-web-app-capable\" content=\"yes\"><meta name=\"mobile-web-app-capable\" content=\"yes\"><meta name=\"apple-mobile-web-app-status-bar-style\" content=\"default\"><meta name=\"apple-mobile-web-app-title\" content=\"Oefeningen\">"@
        + site.importmap.element()
        + "<link rel=\"preload\" href=\""@
        + escape_html(versioned("/theme.css"@, version))
        + "\" as=\"style\"><link rel=\"modulepreload\" href=\""@
        + escape_html(versioned("/homework.js"@, version))
        + "\"><link rel=\"stylesheet\" href=\""@
        + escape_html(versioned("/theme.css"@, version))
        + "\"><link rel=\"manifest\" href=\""@
        + escape_html(versioned("/manifest.webmanifest"@, version))
        + "\"><meta property=\"og:title\" content=\""@
        + escape_html(meta.title@)
        + "\"><meta property=\"og:locale\" content=\"nl_BE\"><meta property=\"og:type\" content=\"website\"><meta property=\"og:description\" content=\""@
        + escape_html(meta.description@)
        + "\"><meta property=\"og:site_name\" content=\"Oefeningen Basisschool\"><meta property=\"og:url\" content=\""@
        + escape_html(origin() + meta.og_path@)
        + "\"><meta property=\"og:image\" content=\"https://elementary.training/img/social_preview.jpeg\"><meta name=\"twitter:card\" content=\"summary_large_image\"><meta name=\"twitter:title\" content=\""@
        + escape_html(meta.title@)
        + "\"><meta name=\"twitter:description\" content=\""@
        + escape_html(meta.description@)
        + "\"><meta name=\"twitter:image\" content=\"https://elementary.training/img/social_preview.jpeg\">"@
}

/// From the end of the head to the banner: the confetti canvas, the link
/// that skips to the content and the start of the page frame.
pub open spec fn body_open_markup() -> Seq<char> {
    "</head><body><canvas id=\"confetti\" aria-hidden=\"true\"></canvas><a class=\"skip-link\" href=\"#main-content\">spring naar inhoud</a>"@ + "<div class=\"page\">"@
}

/// Between the banner and the content: the offline notice and the start
/// of the main region.
pub open spec fn main_open_markup() -> Seq<char> {
    "<div class=\"offline-banner\">"@ + "📴 Offline modus — je gebruikt een opgeslagen versie.</div>"@ + "<main id=\"main-content\">"@
}

/// After the content: the end of the frame, the notice for browsers
/// without JavaScript and the shared module script at this asset version.
pub open spec fn main_close_markup(version: Seq<char>) -> Seq<char> {
    "</main></div>"@ + "<noscript><p class=\"box bad\">Deze website heeft JavaScript nodig om de oefeningen te doen.</p></noscript><script type=\"module\" src=\""@ + escape_html(versioned("/homework.js"@, version)) + "\"></script>"@
}

/// The HTML document of a page: the head with its metadata, share
/// previews, links to the versioned assets, the import map and the inline
/// blocks; then the body with the banner, the page's content, the shared
/// script and the page's module script and speculation rules. Every value
/// from the metadata and every URL is escaped; the banner, the body and
/// the inline blocks are markup.
pub open spec fn page_markup(
    site: SiteInlines,
    version: Seq<char>,
    meta: PageMeta,
    inlines: PageInlines,
    body: Seq<char>,
    banner: Seq<char>,
) -> Seq<char> {
    head_markup(site, version, meta)
        + style_block(inlines)
        + site_ld_block(site)
        + ld_json_block(inlines)
        + theme_init_block(site)
        + body_open_markup()
        + banner
        + main_open_markup()
        + body
        + main_close_markup(version)
        + module_script_block(inlines)
        + speculation_block(inlines)
        + "</body></html>"@
}

/// The part of the head that names the page, from its escaped parts.
fn head_names(meta: &PageMeta, description_e: &str, title_e: &str, canonical_e: &str) -> (r: String)
    requires
        description_e@ == escape_html(meta.description@),
        title_e@ == escape_html(meta.title@),
        canonical_e@ == escape_html(origin() + meta.og_path@),
    ensures
        r@ == head_names_markup(*meta),
{
    proof {
        reveal(head_names_markup);
    }
    let mut r = String::from_str("<meta name=\"description\" content=\"");
    r.append(description_e);
    r.append("\">");
    r.append("<title>");
    r.append(title_e);
    r.append("</title>");
    r.append("<link rel=\"canonical\" href=\"");
    r.append(canonical_e);
    r.append("\">");
    r
}

/// The head of a page, up to its inline blocks.
fn render_head(site: &SiteInlines, asset_version: &str, meta: &PageMeta) -> (r: String)
    ensures
        r@ == head_markup(*site, asset_version@, *meta),
{
    proof {
        reveal(head_markup);
    }
    let urls = page_urls(meta, asset_version);
    let version_e = html_escape(asset_version);
    let description_e = html_escape(meta.description);
    let title_e = html_escape(meta.title);
    let canonical_e = html_escape(urls.canonical.as_str());
    let favicon_e = html_escape(urls.favicon_data.as_str());
    let apple_e = html_escape(urls.apple_touch_icon.as_str());
    let theme_css_e = html_escape(urls.theme_css.as_str());
    let shared_js_e = html_escape(urls.shared_js.as_str());
    let manifest_e = html_escape(urls.manifest.as_str());
    let mut r = String::new();
    r.append("<!DOCTYPE html><html lang=\"nl-BE\" data-asset-version=\"");
    r.append(version_e.as_str());
    r.append("\"><head><!-- Copyright (C) 2024-2026 Plabayo. License: https://github.com/plabayo/homework/blob/main/LICENSE Source-available; non-commercial use only. --><meta charset=\"UTF-8\"><meta name=\"viewport\" content=\"width=device-width, initial-scale=1.0\"><meta name=\"color-scheme\" content=\"light dark\"><meta name=\"theme-color\" content=\"#2d6cdf\" media=\"(prefers-color-scheme: light)\"><meta name=\"theme-color\" content=\"#14171c\" media=\"(prefers-color-scheme: dark)\"><meta name=\"robots\" content=\"index, follow\">");
    r.append(head_names(meta, description_e.as_str(), title_e.as_str(), canonical_e.as_str()).as_str());
    r.append("<link rel=\"icon\" href=\"");
    r.append(favicon_e.as_str());
    r.append("\"><link rel=\"apple-touch-icon\" href=\"");
    r.append(apple_e.as_str());
    r.append("\"><meta name=\"apple-mobile-web-app-capable\" content=\"yes\"><meta name=\"mobile-web-app-capable\" content=\"yes\"><meta name=\"apple-mobile-web-app-status-bar-style\" content=\"default\"><meta name=\"apple-mobile-web-app-title\" content=\"Oefeningen\">");
    r.append(site.importmap.render().as_str());
    r.append("<link rel=\"preload\" href=\"");
    r.append(theme_css_e.as_str());
    r.append("\" as=\"style\"><link rel=\"modulepreload\" href=\"");
    r.append(shared_js_e.as_str());
    r.append("\"><link rel=\"stylesheet\" href=\"");
    r.append(theme_css_e.as_str());
    r.append("\"><link rel=\"manifest\" href=\"");
    r.append(manifest_e.as_str());
    r.append("\"><meta property=\"og:title\" content=\"");
    r.append(title_e.as_str());
    r.append("\"><meta property=\"og:locale\" content=\"nl_BE\"><meta property=\"og:type\" content=\"website\"><meta property=\"og:description\" content=\"");
    r.append(description_e.as_str());
    r.append("\"><meta property=\"og:site_name\" content=\"Oefeningen Basisschool\"><meta property=\"og:url\" content=\"");
    r.append(canonical_e.as_str());
    r.append("\"><meta property=\"og:image\" content=\"https://elementary.training/img/social_preview.jpeg\"><meta name=\"twitter:card\" content=\"summary_large_image\"><meta name=\"twitter:title\" content=\"");
    r.append(title_e.as_str());
    r.append("\"><meta name=\"twitter:description\" content=\"");
    r.append(description_e.as_str());
    r.append("\"><meta name=\"twitter:image\" content=\"https://elementary.training/img/social_preview.jpeg\">");
    r
}

/// Render the HTML document of a page.
pub fn render_page(
    site: &SiteInlines,
    asset_version: &str,
    meta: &PageMeta,
    inlines: &PageInlines,
    body: &str,
    banner: &str,
) -> (r: String)
    ensures
        r@ == page_markup(*site, asset_version@, *meta, *inlines, body@, banner@),
{
    let mut r = render_head(site, asset_version, meta);
    let shared_js = versioned_asset_url("/homework.js", asset_version);
    let shared_js_e = html_escape(shared_js.as_str());
    append_style_block(&mut r, inlines);
    r.append(site.site_ld_json.render().as_str());
    append_ld_json_block(&mut r, inlines);
    r.append(site.theme_init.render().as_str());
    r.append("</head><body><canvas id=\"confetti\" aria-hidden=\"true\"></canvas><a class=\"skip-link\" href=\"#main-content\">spring naar inhoud</a>");
    r.append("<div class=\"page\">");
    r.append(banner);
    r.append("<div class=\"offline-banner\">");
    r.append("📴 Offline modus — je gebruikt een opgeslagen versie.</div>");
    r.append("<main id=\"main-content\">");
    r.append(body);
    r.append("</main></div>");
    r.append("<noscript><p class=\"box bad\">Deze website heeft JavaScript nodig om de oefeningen te doen.</p></noscript><script type=\"module\" src=\"");
    r.append(shared_js_e.as_str());
    r.append("\"></script>");
    append_module_script_block(&mut r, inlines);
    append_speculation_block(&mut r, inlines);
    r.append("</body></html>");
    assert(r@ =~= page_markup(*site, asset_version@, *meta, *inlines, body@, banner@));
    r
}


/// The import map stands in the head.
#[verifier::spinoff_prover]
proof fn lemma_head_renders_importmap(site: SiteInlines, version: Seq<char>, meta: PageMeta)
    ensures
        is_infix(site.importmap.element(), head_markup(site, version, meta)),
{
    reveal(head_markup);
    let before = "<!DOCTYPE html><html lang=\"nl-BE\" data-asset-version=\""@ + escape_html(version) + "\"><head><!-- Copyright (C) 2024-2026 Plabayo. License: https://github.com/plabayo/homework/blob/main/LICENSE Source-available; non-commercial use only. --><meta charset=\"UTF-8\"><meta name=\"viewport\" content=\"width=device-width, initial-scale=1.0\"><meta name=\"color-scheme\" content=\"light dark\"><meta name=\"theme-color\" content=\"#2d6cdf\" media=\"(prefers-color-scheme: light)\"><meta name=\"theme-color\" content=\"#14171c\" media=\"(prefers-color-scheme: dark)\"><meta name=\"robots\" content=\"index, follow\">"@ + head_names_markup(meta) + "<link rel=\"icon\" href=\""@ + escape_html(favicon_data_url(meta.favicon_emoji@)) + "\"><link rel=\"apple-touch-icon\" href=\""@ + escape_html(versioned("/apple-touch-icon.png"@, version)) + "\"><meta name=\"apple-mobile-web-app-capable\" content=\"yes\"><meta name=\"mobile-web-app-capable\" content=\"yes\"><meta name=\"apple-mobile-web-app-status-bar-style\" content=\"default\"><meta name=\"apple-mobile-web-app-title\" content=\"Oefeningen\">"@;
    let after = "<link rel=\"preload\" href=\""@ + escape_html(versioned("/theme.css"@, version)) + "\" as=\"style\"><link rel=\"modulepreload\" href=\""@ + escape_html(versioned("/homework.js"@, version)) + "\"><link rel=\"stylesheet\" href=\""@ + escape_html(versioned("/theme.css"@, version)) + "\"><link rel=\"manifest\" href=\""@ + escape_html(versioned("/manifest.webmanifest"@, version)) + "\"><meta property=\"og:title\" content=\""@ + escape_html(meta.title@) + "\"><meta property=\"og:locale\" content=\"nl_BE\"><meta property=\"og:type\" content=\"website\"><meta property=\"og:description\" content=\""@ + escape_html(meta.description@) + "\"><meta property=\"og:site_name\" content=\"Oefeningen Basisschool\"><meta property=\"og:url\" content=\""@ + escape_html(origin() + meta.og_path@) + "\"><meta property=\"og:image\" content=\"https://elementary.training/img/social_preview.jpeg\"><meta name=\"twitter:card\" content=\"summary_large_image\"><meta name=\"twitter:title\" content=\""@ + escape_html(meta.title@) + "\"><meta name=\"twitter:description\" content=\""@ + escape_html(meta.description@) + "\"><meta name=\"twitter:image\" content=\"https://elementary.training/img/social_preview.jpeg\">"@;
    lemma_infix_between(site.importmap.element(), before, after);
    assert(head_markup(site, version, meta) =~= before + site.importmap.element() + after);
}

/// The style block stands in the document.
proof fn lemma_page_renders_style(
    site: SiteInlines,
    version: Seq<char>,
    meta: PageMeta,
    inlines: PageInlines,
    body: Seq<char>,
    banner: Seq<char>,
)
    ensures
        is_infix(style_block(inlines), page_markup(site, version, meta, inlines, body, banner)),
{
    let page = page_markup(site, version, meta, inlines, body, banner);
    let before = head_markup(site, version, meta);
    let after = site_ld_block(site) + ld_json_block(inlines) + theme_init_block(site) + body_open_markup() + banner + main_open_markup() + body + main_close_markup(version) + module_script_block(inlines) + speculation_block(inlines) + "</body></html>"@;
    lemma_infix_between(style_block(inlines), before, after);
    assert(page =~= before + style_block(inlines) + after);
}

/// The site ld json block stands in the document.
proof fn lemma_page_renders_site_ld_json(
    site: SiteInlines,
    version: Seq<char>,
    meta: PageMeta,
    inlines: PageInlines,
    body: Seq<char>,
    banner: Seq<char>,
)
    ensures
        is_infix(site_ld_block(site), page_markup(site, version, meta, inlines, body, banner)),
{
    let page = page_markup(site, version, meta, inlines, body, banner);
    let before = head_markup(site, version, meta) + style_block(inlines);
    let after = ld_json_block(inlines) + theme_init_block(site) + body_open_markup() + banner + main_open_markup() + body + main_close_markup(version) + module_script_block(inlines) + speculation_block(inlines) + "</body></html>"@;
    lemma_infix_between(site_ld_block(site), before, after);
    assert(page =~= before + site_ld_block(site) + after);
}

/// The ld json block stands in the document.
proof fn lemma_page_renders_ld_json(
    site: SiteInlines,
    version: Seq<char>,
    meta: PageMeta,
    inlines: PageInlines,
    body: Seq<char>,
    banner: Seq<char>,
)
    ensures
        is_infix(ld_json_block(inlines), page_markup(site, version, meta, inlines, body, banner)),
{
    let page = page_markup(site, version, meta, inlines, body, banner);
    let before = head_markup(site, version, meta) + style_block(inlines) + site_ld_block(site);
    let after = theme_init_block(site) + body_open_markup() + banner + main_open_markup() + body + main_close_markup(version) + module_script_block(inlines) + speculation_block(inlines) + "</body></html>"@;
    lemma_infix_between(ld_json_block(inlines), before, after);
    assert(page =~= before + ld_json_block(inlines) + after);
}

/// The theme init block stands in the document.
proof fn lemma_page_renders_theme_init(
    site: SiteInlines,
    version: Seq<char>,
    meta: PageMeta,
    inlines: PageInlines,
    body: Seq<char>,
    banner: Seq<char>,
)
    ensures
        is_infix(theme_init_block(site), page_markup(site, version, meta, inlines, body, banner)),
{
    let page = page_markup(site, version, meta, inlines, body, banner);
    let before = head_markup(site, version, meta) + style_block(inlines) + site_ld_block(site) + ld_json_block(inlines);
    let after = body_open_markup() + banner + main_open_markup() + body + main_close_markup(version) + module_script_block(inlines) + speculation_block(inlines) + "</body></html>"@;
    lemma_infix_between(theme_init_block(site), before, after);
    assert(page =~= before + theme_init_block(site) + after);
}

/// The module script block stands in the document.
proof fn lemma_page_renders_module_script(
    site: SiteInlines,
    version: Seq<char>,
    meta: PageMeta,
    inlines: PageInlines,
    body: Seq<char>,
    banner: Seq<char>,
)
    ensures
        is_infix(module_script_block(inlines), page_markup(site, version, meta, inlines, body, banner)),
{
    let page = page_markup(site, version, meta, inlines, body, banner);
    let before = head_markup(site, version, meta) + style_block(inlines) + site_ld_block(site) + ld_json_block(inlines) + theme_init_block(site) + body_open_markup() + banner + main_open_markup() + body + main_close_markup(version);
    let after = speculation_block(inlines) + "</body></html>"@;
    lemma_infix_between(module_script_block(inlines), before, after);
    assert(page =~= before + module_script_block(inlines) + after);
}

/// The speculation rules block stands in the document.
proof fn lemma_page_renders_speculation_rules(
    site: SiteInlines,
    version: Seq<char>,
    meta: PageMeta,
    inlines: PageInlines,
    body: Seq<char>,
    banner: Seq<char>,
)
    ensures
        is_infix(speculation_block(inlines), page_markup(site, version, meta, inlines, body, banner)),
{
    let page = page_markup(site, version, meta, inlines, body, banner);
    let before = head_markup(site, version, meta) + style_block(inlines) + site_ld_block(site) + ld_json_block(inlines) + theme_init_block(site) + body_open_markup() + banner + main_open_markup() + body + main_close_markup(version) + module_script_block(inlines);
    let after = "</body></html>"@;
    lemma_infix_between(speculation_block(inlines), before, after);
    assert(page =~= before + speculation_block(inlines) + after);
}

/// The import map stands in the document.
proof fn lemma_page_renders_importmap(
    site: SiteInlines,
    version: Seq<char>,
    meta: PageMeta,
    inlines: PageInlines,
    body: Seq<char>,
    banner: Seq<char>,
)
    ensures
        is_infix(site.importmap.element(), page_markup(site, version, meta, inlines, body, banner)),
{
    let page = page_markup(site, version, meta, inlines, body, banner);
    let head = head_markup(site, version, meta);
    let rest = style_block(inlines) + site_ld_block(site) + ld_json_block(inlines) + theme_init_block(site)
        + body_open_markup() + banner + main_open_markup() + body + main_close_markup(version)
        + module_script_block(inlines) + speculation_block(inlines) + "</body></html>"@;
    lemma_head_renders_importmap(site, version, meta);
    lemma_infix_extends(site.importmap.element(), head, Seq::<char>::empty(), rest);
    assert(page =~= Seq::<char>::empty() + head + rest);
}

/// Every inline block of a page is rendered in its document: the theme
/// script, the import map, the site-wide JSON-LD, and the page's own style, JSON-LD,
/// module script and speculation rules each stand in it as an element
/// (an absent block renders as nothing). With
/// `lemma_page_policy_admits_exactly_rendered_inlines`, the policy sent
/// with the document admits the fingerprints of exactly these blocks.
pub proof fn lemma_page_renders_its_blocks(
    site: SiteInlines,
    version: Seq<char>,
    meta: PageMeta,
    inlines: PageInlines,
    body: Seq<char>,
    banner: Seq<char>,
)
    ensures
        is_infix(style_block(inlines), page_markup(site, version, meta, inlines, body, banner)),
        is_infix(site_ld_block(site), page_markup(site, version, meta, inlines, body, banner)),
        is_infix(ld_json_block(inlines), page_markup(site, version, meta, inlines, body, banner)),
        is_infix(theme_init_block(site), page_markup(site, version, meta, inlines, body, banner)),
        is_infix(module_script_block(inlines), page_markup(site, version, meta, inlines, body, banner)),
        is_infix(speculation_block(inlines), page_markup(site, version, meta, inlines, body, banner)),
        is_infix(site.importmap.element(), page_markup(site, version, meta, inlines, body, banner)),
{
    lemma_page_renders_style(site, version, meta, inlines, body, banner);
    lemma_page_renders_site_ld_json(site, version, meta, inlines, body, banner);
    lemma_page_renders_ld_json(site, version, meta, inlines, body, banner);
    lemma_page_renders_theme_init(site, version, meta, inlines, body, banner);
    lemma_page_renders_module_script(site, version, meta, inlines, body, banner);
    lemma_page_renders_speculation_rules(site, version, meta, inlines, body, banner);
    lemma_page_renders_importmap(site, version, meta, inlines, body, banner);
}

/// What a page response is made of: the document, the policy sent with
/// it, and its caching policy.
pub struct PageParts {
    /// The HTML document.
    pub html: String,
    /// The Content-Security-Policy of the document.
    pub csp: CspPolicy,
    /// The `Cache-Control` value: the document embeds versioned asset
    /// URLs, so it is always revalidated.
    pub cache_control: &'static str,
}

/// The parts of a page response, made from one set of inline blocks: the
/// document renders them and the policy admits exactly their
/// fingerprints (`lemma_page_whitelists_exactly_its_blocks`).
pub fn page_parts(
    site: &SiteInlines,
    asset_version: &str,
    meta: &PageMeta,
    inlines: &PageInlines,
    body: &str,
    banner: &str,
) -> (r: PageParts)
    ensures
        r.html@ == page_markup(*site, asset_version@, *meta, *inlines, body@, banner@),
        r.csp@ == page_policy(*site, *inlines),
        r.cache_control == "no-cache",
{
    PageParts {
        html: render_page(site, asset_version, meta, inlines, body, banner),
        csp: build_csp(site, inlines),
        cache_control: "no-cache",
    }
}

/// The policy of a page whitelists exactly the inline blocks its document
/// renders: a fingerprint is admitted by `script-src` exactly when it is
/// that of the theme script, the import map, the site-wide JSON-LD or the
/// page's module script or JSON-LD, and by `style-src` exactly when it is
/// that of the page's style, each of whose elements stands in the
/// document; no other directive admits a fingerprint.
pub proof fn lemma_page_whitelists_exactly_its_blocks(
    site: SiteInlines,
    version: Seq<char>,
    meta: PageMeta,
    inlines: PageInlines,
    body: Seq<char>,
    banner: Seq<char>,
    h: &'static str,
)
    ensures
        ({
            let page = page_markup(site, version, meta, inlines, body, banner);
            let policy = page_policy(site, inlines);
            &&& policy[1].0 == CspDirective::ScriptSrc
            &&& admitted_hash(policy[1].1, h) <==> {
                ||| h == site.theme_init.hash_text() && is_infix(site.theme_init.element(), page)
                ||| h == site.importmap.hash_text() && is_infix(site.importmap.element(), page)
                ||| h == site.site_ld_json.hash_text() && is_infix(site.site_ld_json.element(), page)
                ||| (inlines.module_script matches Some(m) && h == m.hash_text() && is_infix(
                    m.element(),
                    page,
                ))
                ||| (inlines.ld_json matches Some(l) && h == l.hash_text() && is_infix(
                    l.element(),
                    page,
                ))
            }
            &&& policy[2].0 == CspDirective::StyleSrc
            &&& admitted_hash(policy[2].1, h) <==> (inlines.style matches Some(st) && h
                == st.hash_text() && is_infix(st.element(), page))
            &&& forall|k: int|
                0 <= k < policy.len() && k != 1 && k != 2 ==> !admitted_hash(
                    #[trigger] policy[k].1,
                    h,
                )
        }),
{
    lemma_page_policy_admits_exactly_rendered_inlines(site, inlines, h);
    lemma_page_renders_its_blocks(site, version, meta, inlines, body, banner);
}

/// The banner stands right inside the page frame.
proof fn lemma_page_places_banner(
    site: SiteInlines,
    version: Seq<char>,
    meta: PageMeta,
    inlines: PageInlines,
    body: Seq<char>,
    banner: Seq<char>,
)
    ensures
        is_infix(
            "<div class=\"page\">"@ + banner + "<div class=\"offline-banner\">"@,
            page_markup(site, version, meta, inlines, body, banner),
        ),
{
    let page = page_markup(site, version, meta, inlines, body, banner);
    let head = head_markup(site, version, meta) + style_block(inlines) + site_ld_block(site)
        + ld_json_block(inlines) + theme_init_block(site);
    let shared = escape_html(versioned("/homework.js"@, version));
    let scripts = "<noscript><p class=\"box bad\">Deze website heeft JavaScript nodig om de oefeningen te doen.</p></noscript><script type=\"module\" src=\""@ + shared + "\"></script>"@ + module_script_block(inlines)
        + speculation_block(inlines) + "</body></html>"@;
    let framed = "<div class=\"page\">"@ + banner + "<div class=\"offline-banner\">"@;
    assert(page =~= (head + "</head><body><canvas id=\"confetti\" aria-hidden=\"true\"></canvas><a class=\"skip-link\" href=\"#main-content\">spring naar inhoud</a>"@) + framed + ("📴 Offline modus — je gebruikt een opgeslagen versie.</div>"@ + "<main id=\"main-content\">"@ + body
        + "</main></div>"@ + scripts));
    lemma_infix_between(framed, head + "</head><body><canvas id=\"confetti\" aria-hidden=\"true\"></canvas><a class=\"skip-link\" href=\"#main-content\">spring naar inhoud</a>"@, "📴 Offline modus — je gebruikt een opgeslagen versie.</div>"@ + "<main id=\"main-content\">"@ + body + "</main></div>"@
        + scripts);
}

/// The content fills the main region.
proof fn lemma_page_places_body(
    site: SiteInlines,
    version: Seq<char>,
    meta: PageMeta,
    inlines: PageInlines,
    body: Seq<char>,
    banner: Seq<char>,
)
    ensures
        is_infix(
            "<main id=\"main-content\">"@ + body + "</main></div>"@,
            page_markup(site, version, meta, inlines, body, banner),
        ),
{
    let page = page_markup(site, version, meta, inlines, body, banner);
    let head = head_markup(site, version, meta) + style_block(inlines) + site_ld_block(site)
        + ld_json_block(inlines) + theme_init_block(site);
    let shared = escape_html(versioned("/homework.js"@, version));
    let scripts = "<noscript><p class=\"box bad\">Deze website heeft JavaScript nodig om de oefeningen te doen.</p></noscript><script type=\"module\" src=\""@ + shared + "\"></script>"@ + module_script_block(inlines)
        + speculation_block(inlines) + "</body></html>"@;
    let main = "<main id=\"main-content\">"@ + body + "</main></div>"@;
    assert(page =~= (head + "</head><body><canvas id=\"confetti\" aria-hidden=\"true\"></canvas><a class=\"skip-link\" href=\"#main-content\">spring naar inhoud</a>"@ + "<div class=\"page\">"@ + banner + "<div class=\"offline-banner\">"@ + "📴 Offline modus — je gebruikt een opgeslagen versie.</div>"@) + main
        + scripts);
    lemma_infix_between(main, head + "</head><body><canvas id=\"confetti\" aria-hidden=\"true\"></canvas><a class=\"skip-link\" href=\"#main-content\">spring naar inhoud</a>"@ + "<div class=\"page\">"@ + banner + "<div class=\"offline-banner\">"@ + "📴 Offline modus — je gebruikt een opgeslagen versie.</div>"@,
        scripts);
}

/// The document shows the language banner and the page's content where
/// they belong, whatever they are: the banner opens the page frame, right
/// before the offline notice, and the content fills the main region.
pub proof fn lemma_page_places_banner_and_body(
    site: SiteInlines,
    version: Seq<char>,
    meta: PageMeta,
    inlines: PageInlines,
    body: Seq<char>,
    banner: Seq<char>,
)
    ensures
        is_infix(
            "<div class=\"page\">"@ + banner + "<div class=\"offline-banner\">"@,
            page_markup(site, version, meta, inlines, body, banner),
        ),
        is_infix(
            "<main id=\"main-content\">"@ + body + "</main></div>"@,
            page_markup(site, version, meta, inlines, body, banner),
        ),
{
    lemma_page_places_banner(site, version, meta, inlines, body, banner);
    lemma_page_places_body(site, version, meta, inlines, body, banner);
}

/// The names of the page stand in the head.
#[verifier::spinoff_prover]
proof fn lemma_head_holds_names(site: SiteInlines, version: Seq<char>, meta: PageMeta)
    ensures
        is_infix(head_names_markup(meta), head_markup(site, version, meta)),
{
    reveal(head_markup);
    let before = "<!DOCTYPE html><html lang=\"nl-BE\" data-asset-version=\""@ + escape_html(version) + "\"><head><!-- Copyright (C) 2024-2026 Plabayo. License: https://github.com/plabayo/homework/blob/main/LICENSE Source-available; non-commercial use only. --><meta charset=\"UTF-8\"><meta name=\"viewport\" content=\"width=device-width, initial-scale=1.0\"><meta name=\"color-scheme\" content=\"light dark\"><meta name=\"theme-color\" content=\"#2d6cdf\" media=\"(prefers-color-scheme: light)\"><meta name=\"theme-color\" content=\"#14171c\" media=\"(prefers-color-scheme: dark)\"><meta name=\"robots\" content=\"index, follow\">"@;
    let after = "<link rel=\"icon\" href=\""@ + escape_html(favicon_data_url(meta.favicon_emoji@)) + "\"><link rel=\"apple-touch-icon\" href=\""@ + escape_html(versioned("/apple-touch-icon.png"@, version)) + "\"><meta name=\"apple-mobile-web-app-capable\" content=\"yes\"><meta name=\"mobile-web-app-capable\" content=\"yes\"><meta name=\"apple-mobile-web-app-status-bar-style\" content=\"default\"><meta name=\"apple-mobile-web-app-title\" content=\"Oefeningen\">"@ + site.importmap.element() + "<link rel=\"preload\" href=\""@ + escape_html(versioned("/theme.css"@, version)) + "\" as=\"style\"><link rel=\"modulepreload\" href=\""@ + escape_html(versioned("/homework.js"@, version)) + "\"><link rel=\"stylesheet\" href=\""@ + escape_html(versioned("/theme.css"@, version)) + "\"><link rel=\"manifest\" href=\""@ + escape_html(versioned("/manifest.webmanifest"@, version)) + "\"><meta property=\"og:title\" content=\""@ + escape_html(meta.title@) + "\"><meta property=\"og:locale\" content=\"nl_BE\"><meta property=\"og:type\" content=\"website\"><meta property=\"og:description\" content=\""@ + escape_html(meta.description@) + "\"><meta property=\"og:site_name\" content=\"Oefeningen Basisschool\"><meta property=\"og:url\" content=\""@ + escape_html(origin() + meta.og_path@) + "\"><meta property=\"og:image\" content=\"https://elementary.training/img/social_preview.jpeg\"><meta name=\"twitter:card\" content=\"summary_large_image\"><meta name=\"twitter:title\" content=\""@ + escape_html(meta.title@) + "\"><meta name=\"twitter:description\" content=\""@ + escape_html(meta.description@) + "\"><meta name=\"twitter:image\" content=\"https://elementary.training/img/social_preview.jpeg\">"@;
    lemma_infix_between(head_names_markup(meta), before, after);
    assert(head_markup(site, version, meta) =~= before + head_names_markup(meta) + after);
}

/// Every document names its page: the description in the description
/// meta tag, the title in the `<title>` element and the canonical URL (the
/// page's path on https://elementary.training) in the canonical link, each
/// escaped.
pub proof fn lemma_page_names_itself(
    site: SiteInlines,
    version: Seq<char>,
    meta: PageMeta,
    inlines: PageInlines,
    body: Seq<char>,
    banner: Seq<char>,
)
    ensures
        is_infix("<meta name=\"description\" content=\""@ + escape_html(meta.description@) + "\">"@, page_markup(site, version, meta, inlines, body, banner)),
        is_infix("<title>"@ + escape_html(meta.title@) + "</title>"@, page_markup(site, version, meta, inlines, body, banner)),
        is_infix("<link rel=\"canonical\" href=\""@ + escape_html("https://elementary.training"@ + meta.og_path@) + "\">"@, page_markup(site, version, meta, inlines, body, banner)),
{
    let page = page_markup(site, version, meta, inlines, body, banner);
    let head = head_markup(site, version, meta);
    let names = head_names_markup(meta);
    reveal(head_names_markup);
    let rest = style_block(inlines) + site_ld_block(site) + ld_json_block(inlines) + theme_init_block(site)
        + body_open_markup() + banner + main_open_markup() + body + main_close_markup(version)
        + module_script_block(inlines) + speculation_block(inlines) + "</body></html>"@;
    assert(page =~= Seq::<char>::empty() + head + rest);
    lemma_infix_between(head, Seq::<char>::empty(), rest);
    lemma_head_holds_names(site, version, meta);
    lemma_infix_transitive(names, head, page);
    let e = Seq::<char>::empty();
    let tc = "<title>"@ + escape_html(meta.title@) + "</title>"@ + "<link rel=\"canonical\" href=\""@ + escape_html("https://elementary.training"@ + meta.og_path@) + "\">"@;
    assert(names =~= e + ("<meta name=\"description\" content=\""@ + escape_html(meta.description@) + "\">"@) + tc);
    lemma_infix_between("<meta name=\"description\" content=\""@ + escape_html(meta.description@) + "\">"@, e, tc);
    lemma_infix_transitive("<meta name=\"description\" content=\""@ + escape_html(meta.description@) + "\">"@, names, page);
    assert(names =~= ("<meta name=\"description\" content=\""@ + escape_html(meta.description@) + "\">"@) + ("<title>"@ + escape_html(meta.title@) + "</title>"@) + ("<link rel=\"canonical\" href=\""@ + escape_html("https://elementary.training"@ + meta.og_path@) + "\">"@));
    lemma_infix_between("<title>"@ + escape_html(meta.title@) + "</title>"@, "<meta name=\"description\" content=\""@ + escape_html(meta.description@) + "\">"@, "<link rel=\"canonical\" href=\""@ + escape_html("https://elementary.training"@ + meta.og_path@) + "\">"@);
    lemma_infix_transitive("<title>"@ + escape_html(meta.title@) + "</title>"@, names, page);
    assert(names =~= ("<meta name=\"description\" content=\""@ + escape_html(meta.description@) + "\">"@ + "<title>"@ + escape_html(meta.title@) + "</title>"@) + ("<link rel=\"canonical\" href=\""@ + escape_html("https://elementary.training"@ + meta.og_path@) + "\">"@) + e);
    lemma_infix_between("<link rel=\"canonical\" href=\""@ + escape_html("https://elementary.training"@ + meta.og_path@) + "\">"@, "<meta name=\"description\" content=\""@ + escape_html(meta.description@) + "\">"@ + "<title>"@ + escape_html(meta.title@) + "</title>"@, e);
    lemma_infix_transitive("<link rel=\"canonical\" href=\""@ + escape_html("https://elementary.training"@ + meta.og_path@) + "\">"@, names, page);
}

} // verus!
