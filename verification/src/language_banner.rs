//! The banner shown to visitors whose browser does not ask for Dutch.
//!
//! The site is Dutch only on purpose; a visitor whose `Accept-Language`
//! names no Dutch tag, and who has not dismissed the banner before (the
//! `lang_ok=1` cookie), gets a short note in the first language of theirs
//! that the site has a translation for, English otherwise.

use crate::text::{
    ascii_lower_chars, ascii_lower_seq, chars_eq, push_char, split_chars, split_on, str_chars,
    replace_all, trim, trim_chars, views,
};
use crate::headers::{header_str, header_text};
use crate::markup::{is_infix, lemma_infix_between};
use rama::http::HeaderMap;
use vstd::prelude::*;

verus! {

/// One translation of the banner.
#[derive(Debug, Clone, Copy)]
pub struct BannerLang {
    /// BCP-47 primary language subtag (e.g. "fr", "de", "zh").
    pub tag: &'static str,
    /// True for right-to-left scripts.
    pub rtl: bool,
    /// Banner text shown immediately before the mailto link.
    pub prefix: &'static str,
    /// Banner text shown immediately after the mailto link.
    pub suffix: &'static str,
    /// Label for the dismiss button.
    pub dismiss: &'static str,
}

/// The translations, in the order they are tried. English comes first.
pub open spec fn banner_table() -> Seq<BannerLang> {
    seq![
        BannerLang {
            tag: "en",
            rtl: false,
            prefix: "This open learning platform is built for the Flemish educational system and is intentionally only available in Dutch. For other languages or educational systems, please reach out to us at\u{a0}",
            suffix: ".",
            dismiss: "Got it",
        },
        BannerLang {
            tag: "fr",
            rtl: false,
            prefix: "Cette plateforme d’apprentissage ouverte est conçue pour le système éducatif flamand et est intentionnellement disponible uniquement en néerlandais. Pour d’autres langues ou systèmes éducatifs, contactez-nous à\u{a0}",
            suffix: ".",
            dismiss: "Compris",
        },
        BannerLang {
            tag: "de",
            rtl: false,
            prefix: "Diese offene Lernplattform ist für das flämische Bildungssystem konzipiert und absichtlich nur auf Niederländisch verfügbar. Für andere Sprachen oder Bildungssysteme wenden Sie sich bitte an\u{a0}",
            suffix: ".",
            dismiss: "Verstanden",
        },
        BannerLang {
            tag: "es",
            rtl: false,
            prefix: "Esta plataforma de aprendizaje abierta está diseñada para el sistema educativo flamenco y está disponible intencionalmente solo en neerlandés. Para otros idiomas o sistemas educativos, contáctenos en\u{a0}",
            suffix: ".",
            dismiss: "Entendido",
        },
        BannerLang {
            tag: "it",
            rtl: false,
            prefix: "Questa piattaforma di apprendimento aperta è progettata per il sistema educativo fiammingo ed è disponibile intenzionalmente solo in olandese. Per altre lingue o sistemi educativi, contattaci all’indirizzo\u{a0}",
            suffix: ".",
            dismiss: "Capito",
        },
        BannerLang {
            tag: "pt",
            rtl: false,
            prefix: "Esta plataforma de aprendizagem aberta foi desenvolvida para o sistema educativo flamengo e está disponível intencionalmente apenas em neerlandês. Para outros idiomas ou sistemas educativos, contacte-nos em\u{a0}",
            suffix: ".",
            dismiss: "Entendido",
        },
        BannerLang {
            tag: "ar",
            rtl: true,
            prefix: "هذه المنصة التعليمية المفتوحة مصممة للنظام التعليمي الفلمنكي ومتاحة عن قصد باللغة الهولندية فقط. للغات أو أنظمة تعليمية أخرى، تواصل معنا عبر\u{a0}",
            suffix: ".",
            dismiss: "حسناً",
        },
        BannerLang {
            tag: "ru",
            rtl: false,
            prefix: "Эта открытая образовательная платформа создана для фламандской системы образования и намеренно доступна только на нидерландском. Для других языков или систем образования свяжитесь с нами:\u{a0}",
            suffix: ".",
            dismiss: "Понятно",
        },
        BannerLang {
            tag: "zh",
            rtl: false,
            prefix: "这个开放式学习平台为弗拉芒教育体系而设计，特意仅提供荷兰语版本。如需其他语言或教育体系支持，请联系我们：",
            suffix: "",
            dismiss: "知道了",
        },
        BannerLang {
            tag: "ja",
            rtl: false,
            prefix: "このオープン学習プラットフォームはフランドルの教育制度向けに設計され、意図的にオランダ語のみで提供されています。他の言語や教育制度が必要な場合はご連絡ください：",
            suffix: "",
            dismiss: "了解",
        },
        BannerLang {
            tag: "ko",
            rtl: false,
            prefix: "이 오픈 학습 플랫폼은 플랑드르 교육 시스템을 위해 제작되었으며 의도적으로 네덜란드어로만 제공됩니다. 다른 언어나 교육 시스템이 필요하시면 문의하세요：",
            suffix: "",
            dismiss: "알겠습니다",
        },
        BannerLang {
            tag: "tr",
            rtl: false,
            prefix: "Bu açık öğrenme platformu Flamanca eğitim sistemi için tasarlanmış olup kasıtlı olarak yalnızca Hollandaca sunulmaktadır. Diğer dil veya eğitim sistemleri için bize ulaşın:\u{a0}",
            suffix: "",
            dismiss: "Anladım",
        },
        BannerLang {
            tag: "pl",
            rtl: false,
            prefix: "Ta otwarta platforma edukacyjna jest stworzona dla flamandzkiego systemu edukacji i celowo dostępna tylko w języku niderlandzkim. W przypadku innych języków lub systemów edukacyjnych prosimy o kontakt:\u{a0}",
            suffix: "",
            dismiss: "Rozumiem",
        },
        BannerLang {
            tag: "ro",
            rtl: false,
            prefix: "Această platformă deschisă de învățare este concepută pentru sistemul educațional flamand și este disponibilă în mod intențional numai în olandeză. Pentru alte limbi sau sisteme educaționale, contactați-ne la\u{a0}",
            suffix: ".",
            dismiss: "Am înțeles",
        },
        BannerLang {
            tag: "uk",
            rtl: false,
            prefix: "Ця відкрита навчальна платформа створена для фламандської системи освіти та навмисно доступна лише нідерландською. Для інших мов чи систем освіти зв’яжіться з нами:\u{a0}",
            suffix: "",
            dismiss: "Зрозуміло",
        },
        BannerLang {
            tag: "fa",
            rtl: true,
            prefix: "این پلتفرم آموزشی آزاد برای سیستم آموزشی فلامندر طراحی شده و عمداً فقط به زبان هلندی ارائه می‌شود. برای زبان‌ها یا سیستم‌های آموزشی دیگر با ما تماس بگیرید:\u{a0}",
            suffix: "",
            dismiss: "متوجه شدم",
        },
        BannerLang {
            tag: "hi",
            rtl: false,
            prefix: "यह खुला शिक्षण मंच फ्लेमिश शिक्षा प्रणाली के लिए बनाया गया है और जानबूझकर केवल डच में उपलब्ध है. अन्य भाषाओं या शिक्षा प्रणालियों के लिए हमसे संपर्क करें:\u{a0}",
            suffix: "",
            dismiss: "समझ गया",
        },
        BannerLang {
            tag: "sv",
            rtl: false,
            prefix: "Denna öppna lärplattform är byggd för det flamländska utbildningssystemet och är avsiktligt bara tillgänglig på nederländska. För andra språk eller utbildningssystem, kontakta oss på\u{a0}",
            suffix: ".",
            dismiss: "Uppfattat",
        },
        BannerLang {
            tag: "el",
            rtl: false,
            prefix: "Αυτή η ανοιχτή πλατφόρμα μάθησης είναι σχεδιασμένη για το φλαμανδικό εκπαιδευτικό σύστημα και είναι σκόπιμα διαθέσιμη μόνο στα ολλανδικά. Για άλλες γλώσσες ή εκπαιδευτικά συστήματα, επικοινωνήστε μαζί μας στο\u{a0}",
            suffix: ".",
            dismiss: "Κατανοητό",
        },
        BannerLang {
            tag: "vi",
            rtl: false,
            prefix: "Nền tảng học tập mở này được xây dựng cho hệ thống giáo dục Flemish và chỉ có sẵn bằng tiếng Hà Lan. Với các ngôn ngữ hoặc hệ thống giáo dục khác, hãy liên hệ với chúng tôi tại\u{a0}",
            suffix: ".",
            dismiss: "Đã hiểu",
        },
        BannerLang {
            tag: "id",
            rtl: false,
            prefix: "Platform pembelajaran terbuka ini dirancang untuk sistem pendidikan Flemish dan sengaja hanya tersedia dalam bahasa Belanda. Untuk bahasa atau sistem pendidikan lain, hubungi kami di\u{a0}",
            suffix: ".",
            dismiss: "Mengerti",
        },
        BannerLang {
            tag: "hu",
            rtl: false,
            prefix: "Ez a nyílt tanulási platform a flamand oktatási rendszerre épül, és szándékosan csak hollandul érhető el. Más nyelvekért vagy oktatási rendszerekért vegye fel velünk a kapcsolatot:\u{a0}",
            suffix: "",
            dismiss: "Értem",
        },
        BannerLang {
            tag: "cs",
            rtl: false,
            prefix: "Tato otevřená vzdělávací platforma je vytvořena pro flámský vzdělávací systém a je záměrně dostupná pouze v nizozemštině. Pro jiné jazyky nebo vzdělávací systémy nás kontaktujte na\u{a0}",
            suffix: ".",
            dismiss: "Rozumím",
        },
        BannerLang {
            tag: "bn",
            rtl: false,
            prefix: "এই উন্মুক্ত শিক্ষা প্ল্যাটফর্মটি ফ্লেমিশ শিক্ষাব্যবস্থার জন্য তৈরি এবং ইচ্ছাকৃতভাবে শুধুমাত্র ডাচ ভাষায় পাওয়া যায়। অন্য ভাষা বা শিক্ষাব্যবস্থার জন্য আমাদের সাথে যোগাযোগ করুন:\u{a0}",
            suffix: "",
            dismiss: "বুঝেছি",
        },
    ]
}

/// The translations, in the order they are tried.
pub fn banner_langs() -> (r: Vec<BannerLang>)
    ensures
        r@ == banner_table(),
{
    let r = vec![
        BannerLang {
            tag: "en",
            rtl: false,
            prefix: "This open learning platform is built for the Flemish educational system and is intentionally only available in Dutch. For other languages or educational systems, please reach out to us at\u{a0}",
            suffix: ".",
            dismiss: "Got it",
        },
        BannerLang {
            tag: "fr",
            rtl: false,
            prefix: "Cette plateforme d’apprentissage ouverte est conçue pour le système éducatif flamand et est intentionnellement disponible uniquement en néerlandais. Pour d’autres langues ou systèmes éducatifs, contactez-nous à\u{a0}",
            suffix: ".",
            dismiss: "Compris",
        },
        BannerLang {
            tag: "de",
            rtl: false,
            prefix: "Diese offene Lernplattform ist für das flämische Bildungssystem konzipiert und absichtlich nur auf Niederländisch verfügbar. Für andere Sprachen oder Bildungssysteme wenden Sie sich bitte an\u{a0}",
            suffix: ".",
            dismiss: "Verstanden",
        },
        BannerLang {
            tag: "es",
            rtl: false,
            prefix: "Esta plataforma de aprendizaje abierta está diseñada para el sistema educativo flamenco y está disponible intencionalmente solo en neerlandés. Para otros idiomas o sistemas educativos, contáctenos en\u{a0}",
            suffix: ".",
            dismiss: "Entendido",
        },
        BannerLang {
            tag: "it",
            rtl: false,
            prefix: "Questa piattaforma di apprendimento aperta è progettata per il sistema educativo fiammingo ed è disponibile intenzionalmente solo in olandese. Per altre lingue o sistemi educativi, contattaci all’indirizzo\u{a0}",
            suffix: ".",
            dismiss: "Capito",
        },
        BannerLang {
            tag: "pt",
            rtl: false,
            prefix: "Esta plataforma de aprendizagem aberta foi desenvolvida para o sistema educativo flamengo e está disponível intencionalmente apenas em neerlandês. Para outros idiomas ou sistemas educativos, contacte-nos em\u{a0}",
            suffix: ".",
            dismiss: "Entendido",
        },
        BannerLang {
            tag: "ar",
            rtl: true,
            prefix: "هذه المنصة التعليمية المفتوحة مصممة للنظام التعليمي الفلمنكي ومتاحة عن قصد باللغة الهولندية فقط. للغات أو أنظمة تعليمية أخرى، تواصل معنا عبر\u{a0}",
            suffix: ".",
            dismiss: "حسناً",
        },
        BannerLang {
            tag: "ru",
            rtl: false,
            prefix: "Эта открытая образовательная платформа создана для фламандской системы образования и намеренно доступна только на нидерландском. Для других языков или систем образования свяжитесь с нами:\u{a0}",
            suffix: ".",
            dismiss: "Понятно",
        },
        BannerLang {
            tag: "zh",
            rtl: false,
            prefix: "这个开放式学习平台为弗拉芒教育体系而设计，特意仅提供荷兰语版本。如需其他语言或教育体系支持，请联系我们：",
            suffix: "",
            dismiss: "知道了",
        },
        BannerLang {
            tag: "ja",
            rtl: false,
            prefix: "このオープン学習プラットフォームはフランドルの教育制度向けに設計され、意図的にオランダ語のみで提供されています。他の言語や教育制度が必要な場合はご連絡ください：",
            suffix: "",
            dismiss: "了解",
        },
        BannerLang {
            tag: "ko",
            rtl: false,
            prefix: "이 오픈 학습 플랫폼은 플랑드르 교육 시스템을 위해 제작되었으며 의도적으로 네덜란드어로만 제공됩니다. 다른 언어나 교육 시스템이 필요하시면 문의하세요：",
            suffix: "",
            dismiss: "알겠습니다",
        },
        BannerLang {
            tag: "tr",
            rtl: false,
            prefix: "Bu açık öğrenme platformu Flamanca eğitim sistemi için tasarlanmış olup kasıtlı olarak yalnızca Hollandaca sunulmaktadır. Diğer dil veya eğitim sistemleri için bize ulaşın:\u{a0}",
            suffix: "",
            dismiss: "Anladım",
        },
        BannerLang {
            tag: "pl",
            rtl: false,
            prefix: "Ta otwarta platforma edukacyjna jest stworzona dla flamandzkiego systemu edukacji i celowo dostępna tylko w języku niderlandzkim. W przypadku innych języków lub systemów edukacyjnych prosimy o kontakt:\u{a0}",
            suffix: "",
            dismiss: "Rozumiem",
        },
        BannerLang {
            tag: "ro",
            rtl: false,
            prefix: "Această platformă deschisă de învățare este concepută pentru sistemul educațional flamand și este disponibilă în mod intențional numai în olandeză. Pentru alte limbi sau sisteme educaționale, contactați-ne la\u{a0}",
            suffix: ".",
            dismiss: "Am înțeles",
        },
        BannerLang {
            tag: "uk",
            rtl: false,
            prefix: "Ця відкрита навчальна платформа створена для фламандської системи освіти та навмисно доступна лише нідерландською. Для інших мов чи систем освіти зв’яжіться з нами:\u{a0}",
            suffix: "",
            dismiss: "Зрозуміло",
        },
        BannerLang {
            tag: "fa",
            rtl: true,
            prefix: "این پلتفرم آموزشی آزاد برای سیستم آموزشی فلامندر طراحی شده و عمداً فقط به زبان هلندی ارائه می‌شود. برای زبان‌ها یا سیستم‌های آموزشی دیگر با ما تماس بگیرید:\u{a0}",
            suffix: "",
            dismiss: "متوجه شدم",
        },
        BannerLang {
            tag: "hi",
            rtl: false,
            prefix: "यह खुला शिक्षण मंच फ्लेमिश शिक्षा प्रणाली के लिए बनाया गया है और जानबूझकर केवल डच में उपलब्ध है. अन्य भाषाओं या शिक्षा प्रणालियों के लिए हमसे संपर्क करें:\u{a0}",
            suffix: "",
            dismiss: "समझ गया",
        },
        BannerLang {
            tag: "sv",
            rtl: false,
            prefix: "Denna öppna lärplattform är byggd för det flamländska utbildningssystemet och är avsiktligt bara tillgänglig på nederländska. För andra språk eller utbildningssystem, kontakta oss på\u{a0}",
            suffix: ".",
            dismiss: "Uppfattat",
        },
        BannerLang {
            tag: "el",
            rtl: false,
            prefix: "Αυτή η ανοιχτή πλατφόρμα μάθησης είναι σχεδιασμένη για το φλαμανδικό εκπαιδευτικό σύστημα και είναι σκόπιμα διαθέσιμη μόνο στα ολλανδικά. Για άλλες γλώσσες ή εκπαιδευτικά συστήματα, επικοινωνήστε μαζί μας στο\u{a0}",
            suffix: ".",
            dismiss: "Κατανοητό",
        },
        BannerLang {
            tag: "vi",
            rtl: false,
            prefix: "Nền tảng học tập mở này được xây dựng cho hệ thống giáo dục Flemish và chỉ có sẵn bằng tiếng Hà Lan. Với các ngôn ngữ hoặc hệ thống giáo dục khác, hãy liên hệ với chúng tôi tại\u{a0}",
            suffix: ".",
            dismiss: "Đã hiểu",
        },
        BannerLang {
            tag: "id",
            rtl: false,
            prefix: "Platform pembelajaran terbuka ini dirancang untuk sistem pendidikan Flemish dan sengaja hanya tersedia dalam bahasa Belanda. Untuk bahasa atau sistem pendidikan lain, hubungi kami di\u{a0}",
            suffix: ".",
            dismiss: "Mengerti",
        },
        BannerLang {
            tag: "hu",
            rtl: false,
            prefix: "Ez a nyílt tanulási platform a flamand oktatási rendszerre épül, és szándékosan csak hollandul érhető el. Más nyelvekért vagy oktatási rendszerekért vegye fel velünk a kapcsolatot:\u{a0}",
            suffix: "",
            dismiss: "Értem",
        },
        BannerLang {
            tag: "cs",
            rtl: false,
            prefix: "Tato otevřená vzdělávací platforma je vytvořena pro flámský vzdělávací systém a je záměrně dostupná pouze v nizozemštině. Pro jiné jazyky nebo vzdělávací systémy nás kontaktujte na\u{a0}",
            suffix: ".",
            dismiss: "Rozumím",
        },
        BannerLang {
            tag: "bn",
            rtl: false,
            prefix: "এই উন্মুক্ত শিক্ষা প্ল্যাটফর্মটি ফ্লেমিশ শিক্ষাব্যবস্থার জন্য তৈরি এবং ইচ্ছাকৃতভাবে শুধুমাত্র ডাচ ভাষায় পাওয়া যায়। অন্য ভাষা বা শিক্ষাব্যবস্থার জন্য আমাদের সাথে যোগাযোগ করুন:\u{a0}",
            suffix: "",
            dismiss: "বুঝেছি",
        },
    ];
    assert(r@ =~= banner_table());
    r
}


/// The language tag of one `Accept-Language` range: the part before any
/// `;q=` parameter, trimmed and lower-cased.
pub open spec fn range_tag(range: Seq<char>) -> Seq<char> {
    ascii_lower_seq(trim(split_on(range, ';')[0]))
}

/// The language tags of an `Accept-Language` value, in the order listed.
pub open spec fn accept_tags(accept: Seq<char>) -> Seq<Seq<char>> {
    split_on(accept, ',').map_values(|range: Seq<char>| range_tag(range))
}

/// `nl` itself or any `nl-…` regional variant.
pub open spec fn is_dutch_tag(tag: Seq<char>) -> bool {
    ||| tag == seq!['n', 'l']
    ||| (tag.len() >= 3 && tag[0] == 'n' && tag[1] == 'l' && tag[2] == '-')
}

/// Some range of the `Accept-Language` value asks for Dutch.
pub open spec fn accepts_dutch(accept: Seq<char>) -> bool {
    exists|i: int| 0 <= i < accept_tags(accept).len() && is_dutch_tag(#[trigger] accept_tags(accept)[i])
}

/// A range tag selects a translation when it is the translation's tag or
/// a regional variant of it (`fr` or `fr-…`).
pub open spec fn tag_selects(tag: Seq<char>, lang_tag: Seq<char>) -> bool {
    ||| tag == lang_tag
    ||| (lang_tag.len() < tag.len() && tag.subrange(0, lang_tag.len() as int) == lang_tag
        && tag[lang_tag.len() as int] == '-')
}

/// Range `i` selects translation `j`, and no earlier range, nor an earlier
/// translation for range `i`, selects anything.
pub open spec fn first_selection(tags: Seq<Seq<char>>, i: int, j: int) -> bool {
    &&& 0 <= i < tags.len()
    &&& 0 <= j < banner_table().len()
    &&& tag_selects(tags[i], banner_table()[j].tag@)
    &&& forall|i2: int, j2: int|
        #![trigger tag_selects(tags[i2], banner_table()[j2].tag@)]
        0 <= i2 < tags.len() && 0 <= j2 < banner_table().len() && (i2 < i || (i2 == i && j2 < j))
            ==> !tag_selects(tags[i2], banner_table()[j2].tag@)
}

/// The translation an `Accept-Language` value asks for: the first listed
/// range that selects one, trying the translations in table order;
/// English when none does.
pub open spec fn translation_for(accept: Seq<char>) -> BannerLang {
    let tags = accept_tags(accept);
    if exists|i: int, j: int| first_selection(tags, i, j) {
        let (i, j) = choose|i: int, j: int| first_selection(tags, i, j);
        banner_table()[j]
    } else {
        banner_table()[0]
    }
}

/// The cookie header holds a `lang_ok=1` pair: the visitor dismissed the banner.
pub open spec fn cookie_dismissed(cookie: Seq<char>) -> bool {
    exists|i: int|
        0 <= i < split_on(cookie, ';').len() && trim(#[trigger] split_on(cookie, ';')[i])
            == "lang_ok=1"@
}

proof fn lemma_first_selection_unique(tags: Seq<Seq<char>>, i1: int, j1: int, i2: int, j2: int)
    requires
        first_selection(tags, i1, j1),
        first_selection(tags, i2, j2),
    ensures
        i1 == i2 && j1 == j2,
{
    if i1 < i2 || (i1 == i2 && j1 < j2) {
        assert(tag_selects(tags[i1], banner_table()[j1].tag@));
    } else if i2 < i1 || (i1 == i2 && j2 < j1) {
        assert(tag_selects(tags[i2], banner_table()[j2].tag@));
    }
}

/// The tag of one `Accept-Language` range.
fn range_tag_chars(range: &Vec<char>) -> (r: Vec<char>)
    ensures
        r@ == range_tag(range@),
{
    let parts = split_chars(range, ';');
    proof {
        crate::text::lemma_split_on_nonempty(range@, ';');
    }
    assert(parts@[0]@ == views(parts@)[0]);
    let trimmed = trim_chars(&parts[0]);
    ascii_lower_chars(&trimmed)
}

/// The tags of all ranges of an `Accept-Language` value.
fn accept_tag_list(accept_lang: &str) -> (r: Vec<Vec<char>>)
    ensures
        views(r@) == accept_tags(accept_lang@),
{
    let chars = str_chars(accept_lang);
    let ranges = split_chars(&chars, ',');
    let mut tags: Vec<Vec<char>> = Vec::new();
    let mut k: usize = 0;
    while k < ranges.len()
        invariant
            k <= ranges@.len(),
            views(ranges@) == split_on(accept_lang@, ','),
            views(tags@) == views(ranges@).take(k as int).map_values(
                |range: Seq<char>| range_tag(range),
            ),
        decreases ranges@.len() - k,
    {
        assert(ranges@[k as int]@ == views(ranges@)[k as int]);
        let t = range_tag_chars(&ranges[k]);
        let ghost prev = views(tags@);
        let ghost tv = t@;
        tags.push(t);
        assert(views(tags@) =~= prev.push(tv));
        assert(views(ranges@).take(k + 1) =~= views(ranges@).take(k as int).push(
            views(ranges@)[k as int],
        ));
        assert(views(tags@) =~= views(ranges@).take(k + 1).map_values(
            |range: Seq<char>| range_tag(range),
        ));
        k = k + 1;
    }
    assert(views(ranges@).take(ranges@.len() as int) =~= views(ranges@));
    tags
}

fn is_dutch_tag_chars(tag: &Vec<char>) -> (r: bool)
    ensures
        r == is_dutch_tag(tag@),
{
    if tag.len() == 2 && tag[0] == 'n' && tag[1] == 'l' {
        assert(tag@ =~= seq!['n', 'l']);
        true
    } else {
        tag.len() >= 3 && tag[0] == 'n' && tag[1] == 'l' && tag[2] == '-'
    }
}

/// Whether the `Accept-Language` value lists Dutch (`nl` or `nl-…`) in any range.
pub fn accepts_nl(accept_lang: &str) -> (r: bool)
    ensures
        r == accepts_dutch(accept_lang@),
{
    let tags = accept_tag_list(accept_lang);
    let mut k: usize = 0;
    while k < tags.len()
        invariant
            k <= tags@.len(),
            views(tags@) == accept_tags(accept_lang@),
            forall|i: int| 0 <= i < k ==> !is_dutch_tag(#[trigger] accept_tags(accept_lang@)[i]),
        decreases tags@.len() - k,
    {
        assert(tags@[k as int]@ == accept_tags(accept_lang@)[k as int]);
        if is_dutch_tag_chars(&tags[k]) {
            return true;
        }
        k = k + 1;
    }
    false
}

fn tag_selects_chars(tag: &Vec<char>, lang_tag: &Vec<char>) -> (r: bool)
    ensures
        r == tag_selects(tag@, lang_tag@),
{
    if chars_eq(tag, lang_tag) {
        return true;
    }
    if lang_tag.len() >= tag.len() {
        return false;
    }
    let mut k: usize = 0;
    while k < lang_tag.len()
        invariant
            lang_tag@.len() < tag@.len(),
            k <= lang_tag@.len(),
            forall|m: int| 0 <= m < k ==> tag@[m] == lang_tag@[m],
        decreases lang_tag@.len() - k,
    {
        if tag[k] != lang_tag[k] {
            assert(tag@.subrange(0, lang_tag@.len() as int)[k as int] != lang_tag@[k as int]);
            return false;
        }
        k = k + 1;
    }
    assert(tag@.subrange(0, lang_tag@.len() as int) =~= lang_tag@);
    tag[lang_tag.len()] == '-'
}

/// The translation for an `Accept-Language` value: the first listed range
/// that names one of the translations (or a regional variant of it),
/// English when none does.
pub fn find_translation(accept_lang: &str) -> (r: BannerLang)
    ensures
        r == translation_for(accept_lang@),
{
    let tags = accept_tag_list(accept_lang);
    let langs = banner_langs();
    let ghost gtags = accept_tags(accept_lang@);
    let mut i: usize = 0;
    while i < tags.len()
        invariant
            i <= tags@.len(),
            views(tags@) == gtags,
            gtags == accept_tags(accept_lang@),
            langs@ == banner_table(),
            forall|i2: int, j2: int|
                #![trigger tag_selects(gtags[i2], banner_table()[j2].tag@)]
                0 <= i2 < i && 0 <= j2 < banner_table().len() ==> !tag_selects(
                    gtags[i2],
                    banner_table()[j2].tag@,
                ),
        decreases tags@.len() - i,
    {
        assert(tags@[i as int]@ == gtags[i as int]);
        let mut j: usize = 0;
        while j < langs.len()
            invariant
                i < tags@.len(),
                j <= langs@.len(),
                views(tags@) == gtags,
                gtags == accept_tags(accept_lang@),
                tags@[i as int]@ == gtags[i as int],
                langs@ == banner_table(),
                forall|i2: int, j2: int|
                    #![trigger tag_selects(gtags[i2], banner_table()[j2].tag@)]
                    0 <= i2 < gtags.len() && 0 <= j2 < banner_table().len() && (i2 < i || (i2
                        == i && j2 < j)) ==> !tag_selects(gtags[i2], banner_table()[j2].tag@),
            decreases langs@.len() - j,
        {
            let lang_tag = str_chars(langs[j].tag);
            if tag_selects_chars(&tags[i], &lang_tag) {
                proof {
                    assert(first_selection(gtags, i as int, j as int));
                    assert forall|a: int, b: int| first_selection(gtags, a, b) implies a == i && b
                        == j by {
                        lemma_first_selection_unique(gtags, a, b, i as int, j as int);
                    }
                }
                return langs[j];
            }
            j = j + 1;
        }
        i = i + 1;
    }
    proof {
        assert forall|a: int, b: int| !first_selection(gtags, a, b) by {
            if first_selection(gtags, a, b) {
                assert(tag_selects(gtags[a], banner_table()[b].tag@));
            }
        }
    }
    langs[0]
}

/// Whether a `Cookie` header value holds the `lang_ok=1` pair.
pub fn lang_ok_cookie_set(cookie: &str) -> (r: bool)
    ensures
        r == cookie_dismissed(cookie@),
{
    let chars = str_chars(cookie);
    let pieces = split_chars(&chars, ';');
    let wanted = str_chars("lang_ok=1");
    let mut k: usize = 0;
    while k < pieces.len()
        invariant
            k <= pieces@.len(),
            views(pieces@) == split_on(cookie@, ';'),
            wanted@ == "lang_ok=1"@,
            forall|i: int| 0 <= i < k ==> trim(#[trigger] split_on(cookie@, ';')[i]) != "lang_ok=1"@,
        decreases pieces@.len() - k,
    {
        assert(pieces@[k as int]@ == split_on(cookie@, ';')[k as int]);
        let t = trim_chars(&pieces[k]);
        if chars_eq(&t, &wanted) {
            return true;
        }
        k = k + 1;
    }
    false
}


/// The HTML escape of one char: the five metacharacters become entities.
pub open spec fn escape_char(c: char) -> Seq<char> {
    if c == '&' {
        "&amp;"@
    } else if c == '<' {
        "&lt;"@
    } else if c == '>' {
        "&gt;"@
    } else if c == '"' {
        "&quot;"@
    } else if c == '\'' {
        "&#39;"@
    } else {
        seq![c]
    }
}

/// `s` with each char replaced by its escape.
pub open spec fn escape_html(s: Seq<char>) -> Seq<char>
    decreases s.len(),
{
    if s.len() == 0 {
        Seq::<char>::empty()
    } else {
        escape_html(s.drop_last()) + escape_char(s.last())
    }
}

/// One of the five chars that `html_escape` replaces.
pub open spec fn is_html_special(c: char) -> bool {
    c == '&' || c == '<' || c == '>' || c == '"' || c == '\''
}

/// Escape the five HTML special characters (`&`, `<`, `>`, `"`, `'`).
pub fn html_escape(s: &str) -> (r: String)
    ensures
        r@ == escape_html(s@),
{
    let chars = str_chars(s);
    let mut out = String::new();
    let mut k: usize = 0;
    while k < chars.len()
        invariant
            chars@ == s@,
            k <= chars@.len(),
            out@ == escape_html(s@.take(k as int)),
        decreases chars@.len() - k,
    {
        let c = chars[k];
        proof {
            assert(s@.take(k + 1).drop_last() =~= s@.take(k as int));
            assert(s@.take(k + 1).last() == c);
        }
        if c == '&' {
            out.append("&amp;");
        } else if c == '<' {
            out.append("&lt;");
        } else if c == '>' {
            out.append("&gt;");
        } else if c == '"' {
            out.append("&quot;");
        } else if c == '\'' {
            out.append("&#39;");
        } else {
            push_char(&mut out, c);
        }
        k = k + 1;
    }
    assert(s@.take(s@.len() as int) =~= s@);
    out
}

/// The `dir` attribute of the banner: set for right-to-left scripts only.
pub open spec fn dir_attribute(t: BannerLang) -> Seq<char> {
    if t.rtl {
        " dir=\"rtl\""@
    } else {
        ""@
    }
}

/// The banner markup for translation `t`.
pub open spec fn banner_markup(t: BannerLang) -> Seq<char> {
    "<div id=\"lang-banner\" class=\"lang-banner\" role=\"alert\""@ + dir_attribute(t) + "><p>"@
        + escape_html(t.prefix@) + "<a href=\"mailto:hello@plabayo.tech\">hello@plabayo.tech</a>"@
        + escape_html(t.suffix@)
        + "</p>"@ + "<button type=\"button\" class=\"btn\" id=\"lang-banner-dismiss\">"@
        + escape_html(t.dismiss@) + "</button>"@ + "</div>"@
}

/// Render the banner for translation `t`.
pub fn render_banner(t: &BannerLang) -> (r: String)
    ensures
        r@ == banner_markup(*t),
{
    let mut out = String::new();
    out.append("<div id=\"lang-banner\" class=\"lang-banner\" role=\"alert\"");
    if t.rtl {
        out.append(" dir=\"rtl\"");
    } else {
        out.append("");
    }
    out.append("><p>");
    let prefix = html_escape(t.prefix);
    out.append(prefix.as_str());
    out.append("<a href=\"mailto:hello@plabayo.tech\">hello@plabayo.tech</a>");
    let suffix = html_escape(t.suffix);
    out.append(suffix.as_str());
    out.append("</p>");
    out.append("<button type=\"button\" class=\"btn\" id=\"lang-banner-dismiss\">");
    let dismiss = html_escape(t.dismiss);
    out.append(dismiss.as_str());
    out.append("</button>");
    out.append("</div>");
    out
}

/// The banner for a request whose `Cookie` and `Accept-Language` headers
/// read as given: nothing when the banner was dismissed or Dutch is
/// accepted, the banner in the requested translation otherwise.
pub open spec fn banner_for(cookie: Option<Seq<char>>, accept: Option<Seq<char>>) -> Seq<char> {
    let accept_text = match accept {
        Some(a) => a,
        None => Seq::<char>::empty(),
    };
    if cookie matches Some(c) && cookie_dismissed(c) {
        Seq::<char>::empty()
    } else if accepts_dutch(accept_text) {
        Seq::<char>::empty()
    } else {
        banner_markup(translation_for(accept_text))
    }
}

/// Returns rendered banner HTML when the request headers indicate that the
/// user does not prefer Dutch *and* has not previously dismissed the banner
/// (cookie absent). Returns an empty string when no banner is needed.
pub fn lang_banner(headers: &HeaderMap) -> (r: String)
    ensures
        r@ == banner_for(header_text(*headers, "cookie"@), header_text(*headers, "accept-language"@)),
{
    proof {
        reveal_strlit("cookie");
        reveal_strlit("accept-language");
    }
    if let Some(cookie) = header_str(headers, "cookie") {
        if lang_ok_cookie_set(cookie) {
            return String::new();
        }
    }
    let accept_lang = match header_str(headers, "accept-language") {
        Some(a) => a,
        None => {
            proof {
                reveal_strlit("");
                assert(""@ =~= Seq::<char>::empty());
            }
            ""
        },
    };
    assert(accept_lang@ == match header_text(*headers, "accept-language"@) {
        Some(a) => a,
        None => Seq::<char>::empty(),
    });
    if accepts_nl(accept_lang) {
        return String::new();
    }
    let t = find_translation(accept_lang);
    render_banner(&t)
}


/// HTML escaping leaves no raw `<`, `>`, `"` or `'` in its output, so the
/// escaped text can neither open a tag nor close an attribute value.
pub proof fn lemma_escape_html_has_no_markup(s: Seq<char>)
    ensures
        forall|i: int|
            0 <= i < escape_html(s).len() ==> {
                let c = #[trigger] escape_html(s)[i];
                c != '<' && c != '>' && c != '"' && c != '\''
            },
    decreases s.len(),
{
    reveal_strlit("&amp;");
    reveal_strlit("&lt;");
    reveal_strlit("&gt;");
    reveal_strlit("&quot;");
    reveal_strlit("&#39;");
    if s.len() > 0 {
        lemma_escape_html_has_no_markup(s.drop_last());
        let prev = escape_html(s.drop_last());
        let tail = escape_char(s.last());
        assert(escape_html(s) == prev + tail);
        assert forall|i: int| 0 <= i < escape_html(s).len() implies {
            let c = #[trigger] escape_html(s)[i];
            c != '<' && c != '>' && c != '"' && c != '\''
        } by {
            if i < prev.len() {
                assert(escape_html(s)[i] == prev[i]);
            } else {
                assert(escape_html(s)[i] == tail[i - prev.len()]);
            }
        }
    }
}

/// Text without any of the five metacharacters is left as it is.
pub proof fn lemma_escape_html_identity(s: Seq<char>)
    requires
        forall|i: int| 0 <= i < s.len() ==> !is_html_special(#[trigger] s[i]),
    ensures
        escape_html(s) == s,
    decreases s.len(),
{
    if s.len() > 0 {
        lemma_escape_html_identity(s.drop_last());
        assert(!is_html_special(s[s.len() - 1]));
        assert(s.drop_last().push(s.last()) =~= s);
    }
}

/// `p` occurs in `s` starting at position `i`.
pub open spec fn occurs_at(s: Seq<char>, i: int, p: Seq<char>) -> bool {
    0 <= i && i + p.len() <= s.len() && s.subrange(i, i + p.len()) == p
}

/// One of the five entities that `html_escape` writes starts at position `i`.
pub open spec fn entity_at(s: Seq<char>, i: int) -> bool {
    ||| occurs_at(s, i, "&amp;"@)
    ||| occurs_at(s, i, "&lt;"@)
    ||| occurs_at(s, i, "&gt;"@)
    ||| occurs_at(s, i, "&quot;"@)
    ||| occurs_at(s, i, "&#39;"@)
}

/// Decoding of the five entities, read left to right: each entity becomes
/// its char, every other char stays.
pub open spec fn unescape_html(s: Seq<char>) -> Seq<char>
    decreases s.len(),
{
    proof {
        reveal_strlit("&amp;");
        reveal_strlit("&lt;");
        reveal_strlit("&gt;");
        reveal_strlit("&quot;");
        reveal_strlit("&#39;");
    }
    if s.len() == 0 {
        Seq::<char>::empty()
    } else if occurs_at(s, 0, "&amp;"@) {
        seq!['&'] + unescape_html(s.skip(5))
    } else if occurs_at(s, 0, "&lt;"@) {
        seq!['<'] + unescape_html(s.skip(4))
    } else if occurs_at(s, 0, "&gt;"@) {
        seq!['>'] + unescape_html(s.skip(4))
    } else if occurs_at(s, 0, "&quot;"@) {
        seq!['"'] + unescape_html(s.skip(6))
    } else if occurs_at(s, 0, "&#39;"@) {
        seq!['\''] + unescape_html(s.skip(5))
    } else {
        seq![s[0]] + unescape_html(s.skip(1))
    }
}

/// Escaping a concatenation escapes each part.
proof fn lemma_escape_html_concat(a: Seq<char>, b: Seq<char>)
    ensures
        escape_html(a + b) == escape_html(a) + escape_html(b),
    decreases b.len(),
{
    if b.len() == 0 {
        assert(a + b =~= a);
        assert(escape_html(a) + escape_html(b) =~= escape_html(a));
    } else {
        lemma_escape_html_concat(a, b.drop_last());
        assert((a + b).drop_last() =~= a + b.drop_last());
        assert((a + b).last() == b.last());
        assert(escape_html(a + b) =~= escape_html(a) + escape_html(b.drop_last()) + escape_char(
            b.last(),
        ));
    }
}

/// Decoding the escape of one char followed by more text gives that char
/// back, then the decoding of the rest.
proof fn lemma_unescape_escaped_char(c: char, t: Seq<char>)
    ensures
        unescape_html(escape_char(c) + t) == seq![c] + unescape_html(t),
{
    reveal_strlit("&amp;");
    reveal_strlit("&lt;");
    reveal_strlit("&gt;");
    reveal_strlit("&quot;");
    reveal_strlit("&#39;");
    let e = escape_char(c);
    let s = e + t;
    assert(s.len() > 0);
    assert(s.skip(e.len() as int) =~= t);
    if is_html_special(c) {
        assert(s.subrange(0, e.len() as int) =~= e);
        assert(s[1] == e[1]);
        assert(s[2] == e[2]);
    } else {
        assert(e == seq![c]);
        assert(s[0] == c);
        if s.len() >= 4 {
            assert(s.subrange(0, 4)[0] == c);
        }
        if s.len() >= 5 {
            assert(s.subrange(0, 5)[0] == c);
        }
        if s.len() >= 6 {
            assert(s.subrange(0, 6)[0] == c);
        }
        assert(!occurs_at(s, 0, "&amp;"@));
        assert(!occurs_at(s, 0, "&lt;"@));
        assert(!occurs_at(s, 0, "&gt;"@));
        assert(!occurs_at(s, 0, "&quot;"@));
        assert(!occurs_at(s, 0, "&#39;"@));
    }
}

/// Decoding the escaped text gives the text back: escaping loses nothing.
pub proof fn lemma_unescape_of_escape(s: Seq<char>)
    ensures
        unescape_html(escape_html(s)) == s,
    decreases s.len(),
{
    if s.len() > 0 {
        let rest = s.drop_first();
        assert(s =~= seq![s[0]] + rest);
        lemma_escape_html_concat(seq![s[0]], rest);
        assert(seq![s[0]].drop_last() =~= Seq::<char>::empty());
        assert(escape_html(Seq::<char>::empty()) =~= Seq::<char>::empty());
        assert(Seq::<char>::empty() + escape_char(s[0]) =~= escape_char(s[0]));
        assert(escape_html(seq![s[0]]) =~= escape_char(s[0]));
        lemma_unescape_escaped_char(s[0], escape_html(rest));
        lemma_unescape_of_escape(rest);
    }
}

/// Every `&` of the escaped text starts one of the five entities, so the
/// output never holds a bare ampersand.
pub proof fn lemma_escape_html_ampersands_start_entities(s: Seq<char>)
    ensures
        forall|i: int|
            0 <= i < escape_html(s).len() && #[trigger] escape_html(s)[i] == '&' ==> entity_at(
                escape_html(s),
                i,
            ),
    decreases s.len(),
{
    reveal_strlit("&amp;");
    reveal_strlit("&lt;");
    reveal_strlit("&gt;");
    reveal_strlit("&quot;");
    reveal_strlit("&#39;");
    if s.len() > 0 {
        lemma_escape_html_ampersands_start_entities(s.drop_last());
        let prev = escape_html(s.drop_last());
        let tail = escape_char(s.last());
        let all = escape_html(s);
        assert(all == prev + tail);
        assert forall|i: int| 0 <= i < all.len() && #[trigger] all[i] == '&' implies entity_at(
            all,
            i,
        ) by {
            if i < prev.len() {
                assert(all[i] == prev[i]);
                assert(entity_at(prev, i));
                let q = if occurs_at(prev, i, "&amp;"@) {
                    "&amp;"@
                } else if occurs_at(prev, i, "&lt;"@) {
                    "&lt;"@
                } else if occurs_at(prev, i, "&gt;"@) {
                    "&gt;"@
                } else if occurs_at(prev, i, "&quot;"@) {
                    "&quot;"@
                } else {
                    "&#39;"@
                };
                assert(occurs_at(prev, i, q));
                assert(all.subrange(i, i + q.len()) =~= prev.subrange(i, i + q.len()));
                assert(occurs_at(all, i, q));
            } else {
                let j = i - prev.len();
                assert(all[i] == tail[j]);
                if !is_html_special(s.last()) {
                    assert(tail == seq![s.last()]);
                    assert(false);
                }
                assert(j == 0);
                assert(all.subrange(i, i + tail.len()) =~= tail);
                assert(occurs_at(all, i, tail));
            }
        }
    }
}

/// Decoding as a chain of replacements: `&lt;`, `&gt;`, `&quot;` and
/// `&#39;` become `<`, `>`, `"` and `'`, and then `&amp;` becomes `&`
/// (the ampersand last, so that `&amp;lt;` decodes to `&lt;`).
pub open spec fn decode_by_replacing(s: Seq<char>) -> Seq<char> {
    replace_all(
        replace_all(
            replace_all(
                replace_all(replace_all(s, "&lt;"@, "<"@), "&gt;"@, ">"@),
                "&quot;"@,
                "\""@,
            ),
            "&#39;"@,
            "'"@,
        ),
        "&amp;"@,
        "&"@,
    )
}

/// `s` with each char replaced by its image under `f`, read left to right.
pub open spec fn map_chars(s: Seq<char>, f: spec_fn(char) -> Seq<char>) -> Seq<char>
    decreases s.len(),
{
    if s.len() == 0 {
        Seq::<char>::empty()
    } else {
        f(s[0]) + map_chars(s.drop_first(), f)
    }
}

/// No `&` in the text.
pub open spec fn no_ampersand(a: Seq<char>) -> bool {
    forall|i: int| 0 <= i < a.len() ==> a[i] != '&'
}

/// One replacement step of the decoding, for one char `c` of the text:
/// either its image under `f` is the pattern and becomes the replacement,
/// or it stays, and then the pattern cannot start inside it.
pub open spec fn replaces_as(
    f: spec_fn(char) -> Seq<char>,
    g: spec_fn(char) -> Seq<char>,
    pat: Seq<char>,
    rep: Seq<char>,
    c: char,
) -> bool {
    ||| (f(c) == pat && g(c) == rep)
    ||| (g(c) == f(c) && f(c).len() >= 2 && f(c)[0] == '&' && f(c)[1] != pat[1] && no_ampersand(
        f(c).drop_first(),
    ))
    ||| (g(c) == f(c) && f(c).len() >= 1 && f(c)[0] != '&' && no_ampersand(f(c)))
}

/// Replacing a pattern that starts with `&` leaves text without `&` as it is.
proof fn lemma_replace_skips_plain(a: Seq<char>, t: Seq<char>, pat: Seq<char>, rep: Seq<char>)
    requires
        no_ampersand(a),
        pat.len() > 0,
        pat[0] == '&',
    ensures
        replace_all(a + t, pat, rep) == a + replace_all(t, pat, rep),
    decreases a.len(),
{
    if a.len() == 0 {
        assert(a + t =~= t);
        assert(a + replace_all(t, pat, rep) =~= replace_all(t, pat, rep));
    } else {
        let s = a + t;
        assert(s[0] == a[0]);
        if pat.len() <= s.len() {
            assert(s.subrange(0, pat.len() as int)[0] == s[0]);
        }
        assert(s.drop_first() =~= a.drop_first() + t);
        lemma_replace_skips_plain(a.drop_first(), t, pat, rep);
        assert(seq![a[0]] + (a.drop_first() + replace_all(t, pat, rep)) =~= a + replace_all(
            t,
            pat,
            rep,
        ));
    }
}

/// One replacement over the image of a text under `f` gives its image
/// under `g`, when each char is replaced as `replaces_as` says.
proof fn lemma_replace_over_map(
    s: Seq<char>,
    f: spec_fn(char) -> Seq<char>,
    g: spec_fn(char) -> Seq<char>,
    pat: Seq<char>,
    rep: Seq<char>,
)
    requires
        pat.len() >= 2,
        pat[0] == '&',
        forall|c: char| #[trigger] replaces_as(f, g, pat, rep, c),
    ensures
        replace_all(map_chars(s, f), pat, rep) == map_chars(s, g),
    decreases s.len(),
{
    if s.len() > 0 {
        let c = s[0];
        let t = map_chars(s.drop_first(), f);
        lemma_replace_over_map(s.drop_first(), f, g, pat, rep);
        assert(replaces_as(f, g, pat, rep, c));
        let x = f(c) + t;
        assert(map_chars(s, f) == x);
        if f(c) == pat {
            assert(x.subrange(0, pat.len() as int) =~= pat);
            assert(x.skip(pat.len() as int) =~= t);
        } else if f(c)[0] == '&' {
            if pat.len() <= x.len() {
                assert(x.subrange(0, pat.len() as int)[1] == x[1]);
            }
            assert(x.drop_first() =~= f(c).drop_first() + t);
            lemma_replace_skips_plain(f(c).drop_first(), t, pat, rep);
            assert(seq![x[0]] + (f(c).drop_first() + replace_all(t, pat, rep)) =~= f(c)
                + replace_all(t, pat, rep));
        } else {
            lemma_replace_skips_plain(f(c), t, pat, rep);
        }
    }
}

/// Escaping is the char-by-char image under `escape_char`.
proof fn lemma_escape_html_is_map(s: Seq<char>)
    ensures
        escape_html(s) == map_chars(s, |c: char| escape_char(c)),
    decreases s.len(),
{
    if s.len() > 0 {
        let rest = s.drop_first();
        assert(s =~= seq![s[0]] + rest);
        lemma_escape_html_concat(seq![s[0]], rest);
        assert(seq![s[0]].drop_last() =~= Seq::<char>::empty());
        assert(escape_html(Seq::<char>::empty()) =~= Seq::<char>::empty());
        assert(Seq::<char>::empty() + escape_char(s[0]) =~= escape_char(s[0]));
        lemma_escape_html_is_map(rest);
    }
}

/// The image of a text under the identity is the text.
proof fn lemma_map_identity(s: Seq<char>)
    ensures
        map_chars(s, |c: char| seq![c]) == s,
    decreases s.len(),
{
    if s.len() > 0 {
        lemma_map_identity(s.drop_first());
        assert(seq![s[0]] + s.drop_first() =~= s);
    }
}

/// Decoding the escaped text by the chain of replacements, with the
/// ampersand last, also gives the text back.
pub proof fn lemma_decode_by_replacing_of_escape(s: Seq<char>)
    ensures
        decode_by_replacing(escape_html(s)) == s,
{
    reveal_strlit("&amp;");
    reveal_strlit("&lt;");
    reveal_strlit("&gt;");
    reveal_strlit("&quot;");
    reveal_strlit("&#39;");
    reveal_strlit("<");
    reveal_strlit(">");
    reveal_strlit("\"");
    reveal_strlit("'");
    reveal_strlit("&");
    let f0 = |c: char| escape_char(c);
    let f1 = |c: char|
        if c == '<' {
            seq![c]
        } else {
            escape_char(c)
        };
    let f2 = |c: char|
        if c == '<' || c == '>' {
            seq![c]
        } else {
            escape_char(c)
        };
    let f3 = |c: char|
        if c == '<' || c == '>' || c == '"' {
            seq![c]
        } else {
            escape_char(c)
        };
    let f4 = |c: char|
        if c == '&' {
            escape_char(c)
        } else {
            seq![c]
        };
    let f5 = |c: char| seq![c];
    assert forall|c: char| #[trigger] replaces_as(f0, f1, "&lt;"@, "<"@, c) by {
        assert("<"@ =~= seq!['<']);
    }
    assert forall|c: char| #[trigger] replaces_as(f1, f2, "&gt;"@, ">"@, c) by {
        assert(">"@ =~= seq!['>']);
    }
    assert forall|c: char| #[trigger] replaces_as(f2, f3, "&quot;"@, "\""@, c) by {
        assert("\""@ =~= seq!['"']);
    }
    assert forall|c: char| #[trigger] replaces_as(f3, f4, "&#39;"@, "'"@, c) by {
        assert("'"@ =~= seq!['\'']);
    }
    assert forall|c: char| #[trigger] replaces_as(f4, f5, "&amp;"@, "&"@, c) by {
        assert("&"@ =~= seq!['&']);
    }
    lemma_escape_html_is_map(s);
    lemma_replace_over_map(s, f0, f1, "&lt;"@, "<"@);
    lemma_replace_over_map(s, f1, f2, "&gt;"@, ">"@);
    lemma_replace_over_map(s, f2, f3, "&quot;"@, "\""@);
    lemma_replace_over_map(s, f3, f4, "&#39;"@, "'"@);
    lemma_replace_over_map(s, f4, f5, "&amp;"@, "&"@);
    lemma_map_identity(s);
}

/// Whatever the `Accept-Language` value, the banner speaks one of the
/// site's translations; with no range naming one of them it is English.
pub proof fn lemma_translation_is_listed(accept: Seq<char>)
    ensures
        banner_table().contains(translation_for(accept)),
        banner_table()[0].tag == "en",
        (forall|i: int, j: int|
            0 <= i < accept_tags(accept).len() && 0 <= j < banner_table().len() ==> !tag_selects(
                #[trigger] accept_tags(accept)[i],
                #[trigger] banner_table()[j].tag@,
            )) ==> translation_for(accept) == banner_table()[0],
{
    let tags = accept_tags(accept);
    if exists|i: int, j: int| first_selection(tags, i, j) {
        let (i, j) = choose|i: int, j: int| first_selection(tags, i, j);
        assert(banner_table()[j] == translation_for(accept));
    } else {
        assert(banner_table()[0] == translation_for(accept));
    }
}

/// The banner is empty exactly when the visitor dismissed it or the
/// browser lists Dutch; without an `Accept-Language` header it is shown
/// unless dismissed.
pub proof fn lemma_banner_shown_iff(cookie: Option<Seq<char>>, accept: Option<Seq<char>>)
    ensures
        (banner_for(cookie, accept).len() == 0) <==> ((cookie matches Some(c) && cookie_dismissed(c))
            || (accept matches Some(a) && accepts_dutch(a))),
{
    reveal_strlit("<div id=\"lang-banner\" class=\"lang-banner\" role=\"alert\"");
    let empty = Seq::<char>::empty();
    assert(split_on(empty, ',') =~= seq![empty]);
    assert(split_on(empty, ';') =~= seq![empty]);
    assert(trim(empty) =~= empty);
    assert(ascii_lower_seq(empty) =~= empty);
    assert(accept_tags(empty) =~= seq![empty]);
    assert(!is_dutch_tag(accept_tags(empty)[0]));
    assert(!accepts_dutch(empty));
    let accept_text = match accept {
        Some(a) => a,
        None => empty,
    };
    let t = translation_for(accept_text);
    assert(banner_markup(t).len() > 0);
}

/// Every banner, whatever its language and script direction, gives the
/// contact address: its paragraph is the translation's text before the
/// address, a mail link to hello@plabayo.tech, and the text after it; and
/// it ends with the dismiss button carrying the translation's label.
pub proof fn lemma_banner_gives_the_address(t: BannerLang)
    ensures
        is_infix(
            "<p>"@ + escape_html(t.prefix@) + "<a href=\"mailto:hello@plabayo.tech\">hello@plabayo.tech</a>"@ + escape_html(t.suffix@) + "</p>"@,
            banner_markup(t),
        ),
        is_infix("<button type=\"button\" class=\"btn\" id=\"lang-banner-dismiss\">"@ + escape_html(t.dismiss@) + "</button>"@, banner_markup(t)),
{
    let b = banner_markup(t);
    let open = "<div id=\"lang-banner\" class=\"lang-banner\" role=\"alert\""@ + dir_attribute(t) + ">"@;
    let para = "<p>"@ + escape_html(t.prefix@) + "<a href=\"mailto:hello@plabayo.tech\">hello@plabayo.tech</a>"@ + escape_html(t.suffix@) + "</p>"@;
    let button = "<button type=\"button\" class=\"btn\" id=\"lang-banner-dismiss\">"@ + escape_html(t.dismiss@) + "</button>"@;
    reveal_strlit("><p>");
    reveal_strlit("<p>");
    reveal_strlit(">");
    assert("><p>"@ =~= ">"@ + "<p>"@);
    assert(b =~= open + para + (button + "</div>"@));
    lemma_infix_between(para, open, button + "</div>"@);
    assert(b =~= (open + para) + button + "</div>"@);
    lemma_infix_between(button, open + para, "</div>"@);
}

/// The script direction changes only the `dir` attribute of the banner's
/// opening tag: two translations with the same texts differ in nothing
/// else.
pub proof fn lemma_banner_direction_changes_only_dir(t: BannerLang, u: BannerLang)
    ensures
        banner_markup(t).take(("<div id=\"lang-banner\" class=\"lang-banner\" role=\"alert\""@.len() + (if t.rtl {
            " dir=\"rtl\""@
        } else {
            ""@
        }).len()) as int) == "<div id=\"lang-banner\" class=\"lang-banner\" role=\"alert\""@ + (if t.rtl {
            " dir=\"rtl\""@
        } else {
            ""@
        }),
        t.prefix@ == u.prefix@ && t.suffix@ == u.suffix@ && t.dismiss@ == u.dismiss@ ==> banner_markup(
            t,
        ).skip(("<div id=\"lang-banner\" class=\"lang-banner\" role=\"alert\""@.len() + (if t.rtl {
            " dir=\"rtl\""@
        } else {
            ""@
        }).len()) as int) == banner_markup(u).skip(
            ("<div id=\"lang-banner\" class=\"lang-banner\" role=\"alert\""@.len() + (if u.rtl {
            " dir=\"rtl\""@
        } else {
            ""@
        }).len()) as int,
        ),
{
    let b = banner_markup(t);
    let rest = "><p>"@ + escape_html(t.prefix@) + "<a href=\"mailto:hello@plabayo.tech\">hello@plabayo.tech</a>"@ + escape_html(t.suffix@) + "</p>"@ + "<button type=\"button\" class=\"btn\" id=\"lang-banner-dismiss\">"@
        + escape_html(t.dismiss@) + "</button>"@ + "</div>"@;
    let head_t = "<div id=\"lang-banner\" class=\"lang-banner\" role=\"alert\""@ + dir_attribute(t);
    assert(b =~= head_t + rest);
    assert(b.take(head_t.len() as int) =~= head_t);
    assert(b.skip(head_t.len() as int) =~= rest);
    if t.prefix@ == u.prefix@ && t.suffix@ == u.suffix@ && t.dismiss@ == u.dismiss@ {
        let head_u = "<div id=\"lang-banner\" class=\"lang-banner\" role=\"alert\""@ + dir_attribute(u);
        assert(banner_markup(u) =~= head_u + rest);
        assert(banner_markup(u).skip(head_u.len() as int) =~= rest);
    }
}

/// A banner that is shown always gives the contact address.
pub proof fn lemma_shown_banner_gives_the_address(
    cookie: Option<Seq<char>>,
    accept: Option<Seq<char>>,
)
    ensures
        banner_for(cookie, accept).len() > 0 ==> is_infix("<a href=\"mailto:hello@plabayo.tech\">hello@plabayo.tech</a>"@, banner_for(cookie, accept)),
{
    let b = banner_for(cookie, accept);
    if b.len() > 0 {
        let accept_text = match accept {
            Some(a) => a,
            None => Seq::<char>::empty(),
        };
        let t = translation_for(accept_text);
        assert(b == banner_markup(t));
        lemma_banner_gives_the_address(t);
        let para = "<p>"@ + escape_html(t.prefix@) + "<a href=\"mailto:hello@plabayo.tech\">hello@plabayo.tech</a>"@ + escape_html(t.suffix@) + "</p>"@;
        let (p, q) = choose|p: Seq<char>, q: Seq<char>| b == p + para + q;
        let left = p + "<p>"@ + escape_html(t.prefix@);
        let right = escape_html(t.suffix@) + "</p>"@ + q;
        assert(b =~= left + "<a href=\"mailto:hello@plabayo.tech\">hello@plabayo.tech</a>"@ + right);
        lemma_infix_between("<a href=\"mailto:hello@plabayo.tech\">hello@plabayo.tech</a>"@, left, right);
    }
}

} // verus!
