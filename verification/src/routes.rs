//! The route table of the application: which page or asset each path serves.

use crate::exercises::catalogue;
use vstd::prelude::*;

verus! {

/// What a route serves.
#[derive(Debug, Clone, Copy, PartialEq, Eq)]
pub enum Route {
    Home,
    About,
    Privacy,
    Offline,
    ThemeCss,
    HomeworkJs,
    ServiceWorkerJs,
    Manifest,
    FaviconSvg,
    IconSvg,
    AppleTouchIconPng,
    Icon192Png,
    Icon512Png,
    RobotsTxt,
    SitemapXml,
    SecurityTxt,
    /// The page of the exercise with this id.
    Exercise(&'static str),
}

/// The GET routes of the application, in registration order.
pub open spec fn route_table() -> Seq<(&'static str, Route)> {
    seq![
        ("/", Route::Home),
        ("/about", Route::About),
        ("/privacy", Route::Privacy),
        ("/offline", Route::Offline),
        ("/theme.css", Route::ThemeCss),
        ("/homework.js", Route::HomeworkJs),
        ("/service-worker.js", Route::ServiceWorkerJs),
        ("/manifest.webmanifest", Route::Manifest),
        ("/favicon.svg", Route::FaviconSvg),
        ("/icon.svg", Route::IconSvg),
        ("/apple-touch-icon.png", Route::AppleTouchIconPng),
        ("/icon-192.png", Route::Icon192Png),
        ("/icon-512.png", Route::Icon512Png),
        ("/robots.txt", Route::RobotsTxt),
        ("/sitemap.xml", Route::SitemapXml),
        ("/.well-known/security.txt", Route::SecurityTxt),
        ("/1/mathbox", Route::Exercise("mathbox")),
        ("/1/multiplications", Route::Exercise("multiplications")),
        ("/1/thermometer", Route::Exercise("thermometer")),
        ("/2/clock", Route::Exercise("clock")),
        ("/2/digital-clock", Route::Exercise("digital-clock")),
        ("/2/fraction-sense", Route::Exercise("fraction-sense")),
        ("/2/fractions", Route::Exercise("fractions")),
        ("/2/percentages", Route::Exercise("percentages")),
        ("/3/written-arithmetic", Route::Exercise("written-arithmetic")),
        ("/3/decimals", Route::Exercise("decimals")),
        ("/3/advanced-mathbox", Route::Exercise("advanced-mathbox")),
        ("/extra/flashcards", Route::Exercise("flashcards")),
    ]
}

/// The GET routes of the application; every other path is answered by
/// the not-found page.
pub fn app_routes() -> (r: Vec<(&'static str, Route)>)
    ensures
        r@ == route_table(),
{
    let r = vec![
        ("/", Route::Home),
        ("/about", Route::About),
        ("/privacy", Route::Privacy),
        ("/offline", Route::Offline),
        ("/theme.css", Route::ThemeCss),
        ("/homework.js", Route::HomeworkJs),
        ("/service-worker.js", Route::ServiceWorkerJs),
        ("/manifest.webmanifest", Route::Manifest),
        ("/favicon.svg", Route::FaviconSvg),
        ("/icon.svg", Route::IconSvg),
        ("/apple-touch-icon.png", Route::AppleTouchIconPng),
        ("/icon-192.png", Route::Icon192Png),
        ("/icon-512.png", Route::Icon512Png),
        ("/robots.txt", Route::RobotsTxt),
        ("/sitemap.xml", Route::SitemapXml),
        ("/.well-known/security.txt", Route::SecurityTxt),
        ("/1/mathbox", Route::Exercise("mathbox")),
        ("/1/multiplications", Route::Exercise("multiplications")),
        ("/1/thermometer", Route::Exercise("thermometer")),
        ("/2/clock", Route::Exercise("clock")),
        ("/2/digital-clock", Route::Exercise("digital-clock")),
        ("/2/fraction-sense", Route::Exercise("fraction-sense")),
        ("/2/fractions", Route::Exercise("fractions")),
        ("/2/percentages", Route::Exercise("percentages")),
        ("/3/written-arithmetic", Route::Exercise("written-arithmetic")),
        ("/3/decimals", Route::Exercise("decimals")),
        ("/3/advanced-mathbox", Route::Exercise("advanced-mathbox")),
        ("/extra/flashcards", Route::Exercise("flashcards")),
    ];
    assert(r@ =~= route_table());
    r
}

/// Every exercise of the catalogue is routed: its path serves its page.
pub proof fn lemma_every_exercise_is_routed(i: int)
    requires
        0 <= i < catalogue().len(),
    ensures
        route_table().contains((catalogue()[i].path, Route::Exercise(catalogue()[i].id))),
{
    let e = catalogue()[i];
    let t = route_table();
    assert(t[16 + i] == (e.path, Route::Exercise(e.id)));
}

/// Every page the sitemap lists (the static pages and the exercises) is
/// served by some route.
pub proof fn lemma_sitemap_pages_are_routed()
    ensures
        forall|i: int|
            0 <= i < crate::assets::static_paths().len() ==> exists|j: int|
                0 <= j < route_table().len() && (#[trigger] route_table()[j]).0
                    == #[trigger] crate::assets::static_paths()[i],
        forall|i: int|
            0 <= i < catalogue().len() ==> exists|j: int|
                0 <= j < route_table().len() && (#[trigger] route_table()[j]).0 == (
                #[trigger] catalogue()[i]).path,
{
    let t = route_table();
    assert(t[0].0 == crate::assets::static_paths()[0]);
    assert(t[1].0 == crate::assets::static_paths()[1]);
    assert(t[2].0 == crate::assets::static_paths()[2]);
    assert forall|i: int| 0 <= i < catalogue().len() implies exists|j: int|
        0 <= j < t.len() && (#[trigger] t[j]).0 == (#[trigger] catalogue()[i]).path by {
        assert(t[16 + i].0 == catalogue()[i].path);
    }
}

} // verus!
