//! The sitemap, built from the static pages and the exercise catalogue.

use crate::exercises::{all_exercises, catalogue, ExerciseInfo};
use crate::layout::{origin, versioned};
use crate::text::{replace_all, replace_str};
use vstd::prelude::*;

verus! {

/// The static, indexable HTML routes (`/offline` is a fallback page and
/// is left out).
pub open spec fn static_paths() -> Seq<&'static str> {
    seq!["/", "/about", "/privacy"]
}

/// One `<url>` line of the sitemap.
pub open spec fn url_line(path: Seq<char>) -> Seq<char> {
    "  <url><loc>"@ + origin() + path + "</loc></url>\n"@
}

/// The `<url>` lines of `paths`, in order.
pub open spec fn url_lines(paths: Seq<&'static str>) -> Seq<char>
    decreases paths.len(),
{
    if paths.len() == 0 {
        Seq::<char>::empty()
    } else {
        url_lines(paths.drop_last()) + url_line(paths.last()@)
    }
}

/// The paths of the catalogue, in catalogue order.
pub open spec fn exercise_paths() -> Seq<&'static str> {
    catalogue().map_values(|e: ExerciseInfo| e.path)
}

/// The sitemap document.
pub open spec fn sitemap_text() -> Seq<char> {
    "<?xml version=\"1.0\" encoding=\"UTF-8\"?>\n<urlset xmlns=\"http://www.sitemaps.org/schemas/sitemap/0.9\">\n"@
        + url_lines(static_paths()) + url_lines(exercise_paths()) + "</urlset>\n"@
}

fn push_url_line(xml: &mut String, path: &str)
    ensures
        final(xml)@ == old(xml)@ + url_line(path@),
{
    xml.append("  <url><loc>");
    xml.append("https://elementary.training");
    xml.append(path);
    xml.append("</loc></url>\n");
}

fn push_url_lines(xml: &mut String, paths: &Vec<&'static str>)
    ensures
        final(xml)@ == old(xml)@ + url_lines(paths@),
{
    let ghost start = xml@;
    let mut k: usize = 0;
    assert(paths@.take(0) =~= Seq::<&'static str>::empty());
    while k < paths.len()
        invariant
            k <= paths@.len(),
            xml@ == start + url_lines(paths@.take(k as int)),
        decreases paths@.len() - k,
    {
        push_url_line(xml, paths[k]);
        assert(paths@.take(k + 1).drop_last() =~= paths@.take(k as int));
        k = k + 1;
    }
    assert(paths@.take(paths@.len() as int) =~= paths@);
}

/// Build the sitemap XML from the static page list plus the exercise
/// catalogue. `<lastmod>` is omitted deliberately.
pub fn build_sitemap_xml() -> (r: String)
    ensures
        r@ == sitemap_text(),
{
    let statics: Vec<&'static str> = vec!["/", "/about", "/privacy"];
    assert(statics@ =~= static_paths());
    let all = all_exercises();
    let mut paths: Vec<&'static str> = Vec::new();
    let mut k: usize = 0;
    while k < all.len()
        invariant
            all@ == catalogue(),
            k <= all@.len(),
            paths@ == exercise_paths().take(k as int),
        decreases all@.len() - k,
    {
        paths.push(all[k].path);
        assert(paths@ =~= exercise_paths().take(k + 1));
        k = k + 1;
    }
    assert(paths@ =~= exercise_paths());
    let mut xml = String::from_str(
        "<?xml version=\"1.0\" encoding=\"UTF-8\"?>\n<urlset xmlns=\"http://www.sitemaps.org/schemas/sitemap/0.9\">\n",
    );
    push_url_lines(&mut xml, &statics);
    push_url_lines(&mut xml, &paths);
    xml.append("</urlset>\n");
    xml
}


/// `part` occurs in `whole` as a contiguous run.
pub open spec fn occurs_in(part: Seq<char>, whole: Seq<char>) -> bool {
    exists|a: Seq<char>, b: Seq<char>| whole == a + part + b
}

proof fn lemma_url_lines_hold_each(paths: Seq<&'static str>, i: int)
    requires
        0 <= i < paths.len(),
    ensures
        occurs_in(url_line(paths[i]@), url_lines(paths)),
    decreases paths.len(),
{
    let line = url_line(paths[i]@);
    if i == paths.len() - 1 {
        let a = url_lines(paths.drop_last());
        let b = Seq::<char>::empty();
        assert(url_lines(paths) =~= a + line + b);
    } else {
        lemma_url_lines_hold_each(paths.drop_last(), i);
        assert(paths.drop_last()[i] == paths[i]);
        let (a, b) = choose|a: Seq<char>, b: Seq<char>| url_lines(paths.drop_last()) == a + line + b;
        let b2 = b + url_line(paths.last()@);
        assert(url_lines(paths) =~= a + line + b2);
    }
}

/// The sitemap lists every page of the exercise catalogue, and each of
/// the static pages.
pub proof fn lemma_sitemap_lists_every_page()
    ensures
        forall|i: int|
            0 <= i < catalogue().len() ==> occurs_in(
                url_line((#[trigger] catalogue()[i]).path@),
                sitemap_text(),
            ),
        forall|i: int|
            0 <= i < static_paths().len() ==> occurs_in(
                url_line((#[trigger] static_paths()[i])@),
                sitemap_text(),
            ),
{
    let head = "<?xml version=\"1.0\" encoding=\"UTF-8\"?>\n<urlset xmlns=\"http://www.sitemaps.org/schemas/sitemap/0.9\">\n"@;
    let tail = "</urlset>\n"@;
    let st = url_lines(static_paths());
    let ex = url_lines(exercise_paths());
    assert(sitemap_text() == head + st + ex + tail);
    assert forall|i: int| 0 <= i < catalogue().len() implies occurs_in(
        url_line((#[trigger] catalogue()[i]).path@),
        sitemap_text(),
    ) by {
        assert(exercise_paths()[i] == catalogue()[i].path);
        lemma_url_lines_hold_each(exercise_paths(), i);
        let line = url_line(catalogue()[i].path@);
        let (a, b) = choose|a: Seq<char>, b: Seq<char>| ex == a + line + b;
        assert(sitemap_text() =~= (head + st + a) + line + (b + tail));
    }
    assert forall|i: int| 0 <= i < static_paths().len() implies occurs_in(
        url_line((#[trigger] static_paths()[i])@),
        sitemap_text(),
    ) by {
        lemma_url_lines_hold_each(static_paths(), i);
        let line = url_line(static_paths()[i]@);
        let (a, b) = choose|a: Seq<char>, b: Seq<char>| st == a + line + b;
        assert(sitemap_text() =~= (head + a) + line + (b + ex + tail));
    }
}


/// `"<text>"`: the JSON string literal of `text` (no escaping needed for
/// the icon paths).
pub open spec fn quoted(text: Seq<char>) -> Seq<char> {
    "\""@ + text + "\""@
}

/// Every icon URL the web-app manifest references, with the asset
/// version appended.
pub open spec fn manifest_versioned(manifest: Seq<char>, version: Seq<char>) -> Seq<char> {
    let favicon = replace_all(
        manifest,
        quoted("/favicon.svg"@),
        quoted(versioned("/favicon.svg"@, version)),
    );
    let icon_192 = replace_all(
        favicon,
        quoted("/icon-192.png"@),
        quoted(versioned("/icon-192.png"@, version)),
    );
    replace_all(icon_192, quoted("/icon-512.png"@), quoted(versioned("/icon-512.png"@, version)))
}

fn quoted_versioned(path: &str, version: &str) -> (r: String)
    ensures
        r@ == quoted(versioned(path@, version@)),
{
    let mut r = String::from_str("\"");
    r.append(path);
    r.append("?v=");
    r.append(version);
    r.append("\"");
    r
}

/// The web-app manifest with the asset-version query string injected
/// into the favicon and home-screen icon URLs, so a new deployment's
/// icons are fetched fresh while the URLs stay cacheable forever.
pub fn versioned_manifest(manifest: &str, asset_version: &str) -> (r: String)
    ensures
        r@ == manifest_versioned(manifest@, asset_version@),
{
    proof {
        reveal_strlit("\"/favicon.svg\"");
        reveal_strlit("\"/icon-192.png\"");
        reveal_strlit("\"/icon-512.png\"");
        reveal_strlit("\"");
        reveal_strlit("/favicon.svg");
        reveal_strlit("/icon-192.png");
        reveal_strlit("/icon-512.png");
        assert("\"/favicon.svg\""@ =~= quoted("/favicon.svg"@));
        assert("\"/icon-192.png\""@ =~= quoted("/icon-192.png"@));
        assert("\"/icon-512.png\""@ =~= quoted("/icon-512.png"@));
    }
    let favicon = replace_str(
        manifest,
        "\"/favicon.svg\"",
        quoted_versioned("/favicon.svg", asset_version).as_str(),
    );
    let icon_192 = replace_str(
        favicon.as_str(),
        "\"/icon-192.png\"",
        quoted_versioned("/icon-192.png", asset_version).as_str(),
    );
    replace_str(
        icon_192.as_str(),
        "\"/icon-512.png\"",
        quoted_versioned("/icon-512.png", asset_version).as_str(),
    )
}

} // verus!
