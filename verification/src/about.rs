//! Fixed sections of the about page.

use vstd::prelude::*;

verus! {

/// The contact section of the about page: how to send feedback (mail),
/// report bugs or propose exercises (GitHub issues), contribute code
/// (CONTRIBUTING.md) and support the project (Buy Me a Coffee, GitHub
/// Sponsors).
pub open spec fn about_contact_markup() -> Seq<char> {
    "<section class=\"about-section\"><h2>Bijdragen en contact</h2><p>Heb je een idee, een fout gevonden, of wil je gewoon iets kwijt? We horen het graag!</p><ul><li>Stuur een mail naar <a href=\"mailto:hello@plabayo.tech\">hello@plabayo.tech ✉️</a> voor feedback, suggesties of vragen.</li><li>Open een issue op <a href=\"https://github.com/plabayo/homework/issues\">GitHub</a> voor bugs of ideeën voor nieuwe oefeningen.</li><li>Codebijdragen zijn welkom — lees eerst even <a href=\"https://github.com/plabayo/homework/blob/main/CONTRIBUTING.md\">CONTRIBUTING.md</a>.</li></ul><p>Wil je het project financieel steunen? Trakteer ons op <a href=\"https://www.buymeacoffee.com/plabayo\">een koffie ☕</a> of word <a href=\"https://github.com/sponsors/plabayo\">GitHub Sponsor 😻</a>.</p></section>"@
}

/// The "Bijdragen en contact" section of the about page.
pub fn about_contact_section() -> (r: String)
    ensures
        r@ == about_contact_markup(),
{
    String::from_str(
        "<section class=\"about-section\"><h2>Bijdragen en contact</h2><p>Heb je een idee, een fout gevonden, of wil je gewoon iets kwijt? We horen het graag!</p><ul><li>Stuur een mail naar <a href=\"mailto:hello@plabayo.tech\">hello@plabayo.tech ✉️</a> voor feedback, suggesties of vragen.</li><li>Open een issue op <a href=\"https://github.com/plabayo/homework/issues\">GitHub</a> voor bugs of ideeën voor nieuwe oefeningen.</li><li>Codebijdragen zijn welkom — lees eerst even <a href=\"https://github.com/plabayo/homework/blob/main/CONTRIBUTING.md\">CONTRIBUTING.md</a>.</li></ul><p>Wil je het project financieel steunen? Trakteer ons op <a href=\"https://www.buymeacoffee.com/plabayo\">een koffie ☕</a> of word <a href=\"https://github.com/sponsors/plabayo\">GitHub Sponsor 😻</a>.</p></section>",
    )
}

} // verus!
