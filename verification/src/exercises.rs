//! The exercise catalogue and the level labels shown around it.

use crate::layout::PageMeta;
use crate::text::{chars_eq, decimal, push_decimal, split_chars, split_on, str_chars, views};
use vstd::prelude::*;

verus! {

/// One exercise page of the site.
#[derive(Debug, Clone, Copy)]
pub struct ExerciseInfo {
    pub id: &'static str,
    pub path: &'static str,
    pub label: &'static str,
    pub icon: &'static str,
    /// Short emoji sequence used as a compact visual code for the exercise,
    /// e.g. displayed in share links or notifications. May equal `icon`.
    pub code_label: &'static str,
    pub level: u8,
}

/// The catalogue, in the order the home page lists it.
pub open spec fn catalogue() -> Seq<ExerciseInfo> {
    seq![
        ExerciseInfo {
            id: "mathbox",
            path: "/1/mathbox",
            label: "rekendoos",
            icon: "🔢",
            code_label: "➕➖✖️➗🟰",
            level: 1,
        },
        ExerciseInfo {
            id: "multiplications",
            path: "/1/multiplications",
            label: "maaltafels",
            icon: "✖️",
            code_label: "✖️",
            level: 1,
        },
        ExerciseInfo {
            id: "thermometer",
            path: "/1/thermometer",
            label: "thermometer",
            icon: "🌡️",
            code_label: "🌡️",
            level: 1,
        },
        ExerciseInfo {
            id: "clock",
            path: "/2/clock",
            label: "analoge klok",
            icon: "🕐",
            code_label: "🕐",
            level: 2,
        },
        ExerciseInfo {
            id: "digital-clock",
            path: "/2/digital-clock",
            label: "digitale klok",
            icon: "⏰",
            code_label: "⏰",
            level: 2,
        },
        ExerciseInfo {
            id: "fraction-sense",
            path: "/2/fraction-sense",
            label: "breukenwijzer",
            icon: "🧭",
            code_label: "🧭",
            level: 2,
        },
        ExerciseInfo {
            id: "fractions",
            path: "/2/fractions",
            label: "breukendoos",
            icon: "🔣",
            code_label: "➕➖✖️➗",
            level: 2,
        },
        ExerciseInfo {
            id: "percentages",
            path: "/2/percentages",
            label: "procenten",
            icon: "💯",
            code_label: "💯",
            level: 2,
        },
        ExerciseInfo {
            id: "written-arithmetic",
            path: "/3/written-arithmetic",
            label: "cijfertrainer",
            icon: "✍️",
            code_label: "✍️",
            level: 3,
        },
        ExerciseInfo {
            id: "decimals",
            path: "/3/decimals",
            label: "kommatrainer",
            icon: "🔍",
            code_label: "🔍",
            level: 3,
        },
        ExerciseInfo {
            id: "advanced-mathbox",
            path: "/3/advanced-mathbox",
            label: "grote rekendoos",
            icon: "🧮",
            code_label: "🧮",
            level: 3,
        },
        ExerciseInfo {
            id: "flashcards",
            path: "/extra/flashcards",
            label: "flitskaarten",
            icon: "🃏",
            code_label: "🃏",
            level: 10,
        },
    ]
}

/// All exercises in catalogue order.
pub fn all_exercises() -> (r: Vec<ExerciseInfo>)
    ensures
        r@ == catalogue(),
{
    let r = vec![
        ExerciseInfo {
            id: "mathbox",
            path: "/1/mathbox",
            label: "rekendoos",
            icon: "🔢",
            code_label: "➕➖✖️➗🟰",
            level: 1,
        },
        ExerciseInfo {
            id: "multiplications",
            path: "/1/multiplications",
            label: "maaltafels",
            icon: "✖️",
            code_label: "✖️",
            level: 1,
        },
        ExerciseInfo {
            id: "thermometer",
            path: "/1/thermometer",
            label: "thermometer",
            icon: "🌡️",
            code_label: "🌡️",
            level: 1,
        },
        ExerciseInfo {
            id: "clock",
            path: "/2/clock",
            label: "analoge klok",
            icon: "🕐",
            code_label: "🕐",
            level: 2,
        },
        ExerciseInfo {
            id: "digital-clock",
            path: "/2/digital-clock",
            label: "digitale klok",
            icon: "⏰",
            code_label: "⏰",
            level: 2,
        },
        ExerciseInfo {
            id: "fraction-sense",
            path: "/2/fraction-sense",
            label: "breukenwijzer",
            icon: "🧭",
            code_label: "🧭",
            level: 2,
        },
        ExerciseInfo {
            id: "fractions",
            path: "/2/fractions",
            label: "breukendoos",
            icon: "🔣",
            code_label: "➕➖✖️➗",
            level: 2,
        },
        ExerciseInfo {
            id: "percentages",
            path: "/2/percentages",
            label: "procenten",
            icon: "💯",
            code_label: "💯",
            level: 2,
        },
        ExerciseInfo {
            id: "written-arithmetic",
            path: "/3/written-arithmetic",
            label: "cijfertrainer",
            icon: "✍️",
            code_label: "✍️",
            level: 3,
        },
        ExerciseInfo {
            id: "decimals",
            path: "/3/decimals",
            label: "kommatrainer",
            icon: "🔍",
            code_label: "🔍",
            level: 3,
        },
        ExerciseInfo {
            id: "advanced-mathbox",
            path: "/3/advanced-mathbox",
            label: "grote rekendoos",
            icon: "🧮",
            code_label: "🧮",
            level: 3,
        },
        ExerciseInfo {
            id: "flashcards",
            path: "/extra/flashcards",
            label: "flitskaarten",
            icon: "🃏",
            code_label: "🃏",
            level: 10,
        },
    ];
    assert(r@ =~= catalogue());
    r
}

/// Level values in the order they are displayed on the home page.
pub open spec fn level_order() -> Seq<u8> {
    seq![1u8, 2u8, 3u8, 10u8]
}

/// Level values in the order they are displayed on the home page.
pub fn exercise_levels() -> (r: Vec<u8>)
    ensures
        r@ == level_order(),
{
    let r = vec![1u8, 2u8, 3u8, 10u8];
    assert(r@ =~= level_order());
    r
}

/// Heading of a level section on the home page.
pub open spec fn niveau_text(level: u8) -> &'static str {
    if level == 1 {
        "Niveau 1️⃣"
    } else if level == 2 {
        "Niveau 2️⃣"
    } else if level == 3 {
        "Niveau 3️⃣"
    } else if level == 10 {
        "Extra ✨"
    } else {
        "Niveau"
    }
}

/// Plain-text level name used by the breadcrumbs.
pub open spec fn breadcrumb_text(level: u8) -> &'static str {
    if level == 1 {
        "Niveau 1"
    } else if level == 2 {
        "Niveau 2"
    } else if level == 3 {
        "Niveau 3"
    } else if level == 10 {
        "Extra"
    } else {
        "Niveau"
    }
}

pub fn niveau_label(level: u8) -> (r: &'static str)
    ensures
        r == niveau_text(level),
{
    match level {
        1 => "Niveau 1️⃣",
        2 => "Niveau 2️⃣",
        3 => "Niveau 3️⃣",
        10 => "Extra ✨",
        _ => "Niveau",
    }
}

/// Plain-text breadcrumb label for the middle item ("Niveau 1" / "Niveau 2"
/// / "Extra"): `niveau_label()` minus the trailing emoji.
pub fn breadcrumb_level_label(level: u8) -> (r: &'static str)
    ensures
        r == breadcrumb_text(level),
{
    match level {
        1 => "Niveau 1",
        2 => "Niveau 2",
        3 => "Niveau 3",
        10 => "Extra",
        _ => "Niveau",
    }
}


/// The anchor of a level's section on the home page, `niveau-<level>`.
pub open spec fn anchor_text(level: u8) -> Seq<char> {
    "niveau-"@ + decimal(level as nat)
}

/// The anchor of a level's section on the home page (`niveau-2`). The
/// exercise breadcrumbs and their JSON-LD link to `/#niveau-<level>`.
pub fn level_anchor(level: u8) -> (r: String)
    ensures
        r@ == anchor_text(level),
{
    let mut r = String::from_str("niveau-");
    push_decimal(&mut r, level);
    r
}

/// Position in the catalogue of the exercise with id `id`, if registered.
pub fn exercise_index(id: &str) -> (r: Option<usize>)
    ensures
        match r {
            Some(i) => i < catalogue().len() && catalogue()[i as int].id@ == id@ && forall|j: int|
                0 <= j < i ==> (#[trigger] catalogue()[j]).id@ != id@,
            None => forall|j: int| 0 <= j < catalogue().len() ==> (#[trigger] catalogue()[j]).id@ != id@,
        },
{
    let all = all_exercises();
    let wanted = str_chars(id);
    let mut k: usize = 0;
    while k < all.len()
        invariant
            all@ == catalogue(),
            wanted@ == id@,
            k <= all@.len(),
            forall|j: int| 0 <= j < k ==> (#[trigger] catalogue()[j]).id@ != id@,
        decreases all@.len() - k,
    {
        let candidate = str_chars(all[k].id);
        if chars_eq(&candidate, &wanted) {
            return Some(k);
        }
        k = k + 1;
    }
    None
}

/// The exercises of one level, in catalogue order.
pub open spec fn of_level(exercises: Seq<ExerciseInfo>, level: u8) -> Seq<ExerciseInfo> {
    exercises.filter(|e: ExerciseInfo| e.level == level)
}

/// The levels the home page shows a section for: those of `level_order()`
/// that have an exercise, in that order.
pub open spec fn shown_levels() -> Seq<u8> {
    level_order().filter(|l: u8| has_exercises(l))
}

/// Some exercise of the catalogue has this level.
pub open spec fn has_exercises(level: u8) -> bool {
    of_level(catalogue(), level).len() > 0
}

/// One level section of the home page.
pub struct LevelGroup {
    pub level: u8,
    /// `id` of the section heading, `niveau-<level>`.
    pub anchor: String,
    /// Text of the section heading.
    pub heading: &'static str,
    pub exercises: Vec<ExerciseInfo>,
}

fn exercises_of_level(all: &Vec<ExerciseInfo>, level: u8) -> (r: Vec<ExerciseInfo>)
    ensures
        r@ == of_level(all@, level),
{
    let mut r: Vec<ExerciseInfo> = Vec::new();
    let mut k: usize = 0;
    while k < all.len()
        invariant
            k <= all@.len(),
            r@ == of_level(all@.take(k as int), level),
        decreases all@.len() - k,
    {
        proof {
            reveal_with_fuel(Seq::<_>::filter, 1);
            assert(all@.take(k + 1).drop_last() =~= all@.take(k as int));
        }
        if all[k].level == level {
            r.push(all[k]);
        }
        k = k + 1;
    }
    assert(all@.take(all@.len() as int) =~= all@);
    r
}

/// The level sections of the home page: for each level in display order
/// that has exercises, its anchor, heading and exercises.
pub fn home_levels() -> (r: Vec<LevelGroup>)
    ensures
        r@.len() == shown_levels().len(),
        forall|g: int|
            0 <= g < r@.len() ==> {
                let group = #[trigger] r@[g];
                &&& group.level == shown_levels()[g]
                &&& group.anchor@ == anchor_text(group.level)
                &&& group.heading == niveau_text(group.level)
                &&& group.exercises@ == of_level(catalogue(), group.level)
            },
{
    let all = all_exercises();
    let levels = exercise_levels();
    let mut r: Vec<LevelGroup> = Vec::new();
    let mut k: usize = 0;
    let ghost pred = |l: u8| has_exercises(l);
    while k < levels.len()
        invariant
            all@ == catalogue(),
            levels@ == level_order(),
            pred == (|l: u8| has_exercises(l)),
            k <= levels@.len(),
            r@.len() == levels@.take(k as int).filter(pred).len(),
            forall|g: int|
                0 <= g < r@.len() ==> {
                    let group = #[trigger] r@[g];
                    &&& group.level == levels@.take(k as int).filter(pred)[g]
                    &&& group.anchor@ == anchor_text(group.level)
                    &&& group.heading == niveau_text(group.level)
                    &&& group.exercises@ == of_level(catalogue(), group.level)
                },
        decreases levels@.len() - k,
    {
        let level = levels[k];
        let exercises = exercises_of_level(&all, level);
        let ghost prev = levels@.take(k as int).filter(pred);
        proof {
            reveal_with_fuel(Seq::<_>::filter, 1);
            assert(levels@.take(k + 1).drop_last() =~= levels@.take(k as int));
            assert(levels@.take(k + 1).last() == level);
            assert(levels@.take(k + 1).filter(pred) == if pred(level) {
                prev.push(level)
            } else {
                prev
            });
        }
        assert(pred(level) == has_exercises(level));
        assert(has_exercises(level) == (exercises@.len() > 0));
        let ghost old_r = r@;
        if exercises.len() > 0 {
            let group = LevelGroup {
                level,
                anchor: level_anchor(level),
                heading: niveau_label(level),
                exercises,
            };
            r.push(group);
            assert(r@ == old_r.push(group));
        }
        k = k + 1;
    }
    assert(levels@.take(levels@.len() as int) =~= levels@);
    r
}

/// The raw name of a query-string pair: the text before its first `=`.
pub open spec fn pair_name(pair: Seq<char>) -> Seq<char> {
    split_on(pair, '=')[0]
}

/// The query string holds a (non-empty) pair named `key`, comparing raw
/// names as `application/x-www-form-urlencoded` splits them on `&`.
pub open spec fn query_has_key(query: Seq<char>, key: Seq<char>) -> bool {
    exists|i: int|
        0 <= i < split_on(query, '&').len() && (#[trigger] split_on(query, '&')[i]).len() > 0
            && pair_name(split_on(query, '&')[i]) == key
}

/// Whether the query string has a pair named `key`.
pub fn query_has_pair(query: &str, key: &str) -> (r: bool)
    ensures
        r == query_has_key(query@, key@),
{
    let chars = str_chars(query);
    let wanted = str_chars(key);
    let pairs = split_chars(&chars, '&');
    let mut k: usize = 0;
    while k < pairs.len()
        invariant
            k <= pairs@.len(),
            views(pairs@) == split_on(query@, '&'),
            wanted@ == key@,
            forall|i: int|
                0 <= i < k ==> !((#[trigger] split_on(query@, '&')[i]).len() > 0 && pair_name(
                    split_on(query@, '&')[i],
                ) == key@),
        decreases pairs@.len() - k,
    {
        assert(pairs@[k as int]@ == split_on(query@, '&')[k as int]);
        if pairs[k].len() > 0 {
            let parts = split_chars(&pairs[k], '=');
            proof {
                crate::text::lemma_split_on_nonempty(pairs@[k as int]@, '=');
            }
            assert(parts@[0]@ == views(parts@)[0]);
            if chars_eq(&parts[0], &wanted) {
                return true;
            }
        }
        k = k + 1;
    }
    false
}

/// The text of an optional string.
pub open spec fn text_of(s: Option<&str>) -> Option<Seq<char>> {
    match s {
        Some(t) => Some(t@),
        None => None,
    }
}

/// The flashcards page opened from a share link (query with an `import` pair).
pub open spec fn is_import_link(query: Option<Seq<char>>) -> bool {
    query matches Some(q) && query_has_key(q, "import"@)
}

/// The share path of the flashcards page: the request's path and query on
/// an import link, the exercise path otherwise.
pub open spec fn flashcards_og_path(path: Seq<char>, query: Option<Seq<char>>) -> Seq<char> {
    if is_import_link(query) && query.unwrap().len() > 0 {
        path + "?"@ + query.unwrap()
    } else {
        "/extra/flashcards"@
    }
}

/// Metadata of the flashcards page for a request with this path and query.
pub fn flashcards_page_meta(path: &str, query: Option<&str>) -> (r: PageMeta)
    ensures
        is_import_link(text_of(query)) ==> r.title
            == "Importeer flitskaartjes deck — Oefeningen Basisschool" && r.description
            == "Klik om een gedeeld flitskaartjes deck te importeren in jouw oefeningen app.",
        !is_import_link(text_of(query)) ==> r.title
            == "flitskaarten — Oefeningen Basisschool" && r.description
            == "Maak je eigen flitskaartjes en oefen ze.",
        r.og_path@ == flashcards_og_path(path@, text_of(query)),
        r.favicon_emoji == "🃏",
{
    let is_import = match query {
        Some(q) => query_has_pair(q, "import"),
        None => false,
    };
    let (title, description) = if is_import {
        (
            "Importeer flitskaartjes deck — Oefeningen Basisschool",
            "Klik om een gedeeld flitskaartjes deck te importeren in jouw oefeningen app.",
        )
    } else {
        ("flitskaarten — Oefeningen Basisschool", "Maak je eigen flitskaartjes en oefen ze.")
    };
    let og_path = match query {
        Some(q) => {
            if is_import && !q.is_empty() {
                let mut p = String::from_str(path);
                p.append("?");
                p.append(q);
                p
            } else {
                String::from_str("/extra/flashcards")
            }
        },
        None => String::from_str("/extra/flashcards"),
    };
    PageMeta { title, description, og_path, favicon_emoji: "🃏" }
}


/// No two exercises share an id or a path: an id finds one exercise, and
/// each page has one route.
pub proof fn lemma_catalogue_ids_and_paths_distinct()
    ensures
        forall|i: int, j: int|
            0 <= i < catalogue().len() && 0 <= j < catalogue().len() && i != j ==> (
            #[trigger] catalogue()[i]).id@ != (#[trigger] catalogue()[j]).id@
                && catalogue()[i].path@ != catalogue()[j].path@,
{
    reveal_strlit("mathbox");
    reveal_strlit("multiplications");
    reveal_strlit("thermometer");
    reveal_strlit("clock");
    reveal_strlit("digital-clock");
    reveal_strlit("fraction-sense");
    reveal_strlit("fractions");
    reveal_strlit("percentages");
    reveal_strlit("written-arithmetic");
    reveal_strlit("decimals");
    reveal_strlit("advanced-mathbox");
    reveal_strlit("flashcards");
    reveal_strlit("/1/mathbox");
    reveal_strlit("/1/multiplications");
    reveal_strlit("/1/thermometer");
    reveal_strlit("/2/clock");
    reveal_strlit("/2/digital-clock");
    reveal_strlit("/2/fraction-sense");
    reveal_strlit("/2/fractions");
    reveal_strlit("/2/percentages");
    reveal_strlit("/3/written-arithmetic");
    reveal_strlit("/3/decimals");
    reveal_strlit("/3/advanced-mathbox");
    reveal_strlit("/extra/flashcards");
    let c = catalogue();
    assert forall|i: int, j: int|
        0 <= i < c.len() && 0 <= j < c.len() && i != j implies (#[trigger] c[i]).id@ != (
        #[trigger] c[j]).id@ && c[i].path@ != c[j].path@ by {
        if c[i].id@ == c[j].id@ {
            assert(c[i].id@.len() == c[j].id@.len());
            assert(c[i].id@[c[i].id@.len() - 1] == c[j].id@[c[j].id@.len() - 1]);
            assert(c[i].id@[0] == c[j].id@[0]);
        }
        if c[i].path@ == c[j].path@ {
            assert(c[i].path@.len() == c[j].path@.len());
            assert(c[i].path@[1] == c[j].path@[1]);
            assert(c[i].path@[3] == c[j].path@[3]);
            assert(c[i].path@[c[i].path@.len() - 1] == c[j].path@[c[j].path@.len() - 1]);
        }
    }
}

/// Looking an exercise up by its id finds its own catalogue position.
pub proof fn lemma_index_of_own_id(i: int)
    requires
        0 <= i < catalogue().len(),
    ensures
        forall|j: int|
            0 <= j < catalogue().len() && (#[trigger] catalogue()[j]).id@ == catalogue()[i].id@
                ==> j == i,
{
    lemma_catalogue_ids_and_paths_distinct();
}

/// Every exercise of the catalogue is listed on the home page, in the
/// section of its own level.
pub proof fn lemma_every_exercise_on_home_page(i: int)
    requires
        0 <= i < catalogue().len(),
    ensures
        shown_levels().contains(catalogue()[i].level),
        of_level(catalogue(), catalogue()[i].level).contains(catalogue()[i]),
{
    let c = catalogue();
    let e = c[i];
    let pe = |x: ExerciseInfo| x.level == e.level;
    c.lemma_filter_contains(pe, i);
    assert(of_level(c, e.level) == c.filter(pe));
    assert(has_exercises(e.level));
    let order = level_order();
    let k: int = if e.level == 1 {
        0
    } else if e.level == 2 {
        1
    } else if e.level == 3 {
        2
    } else {
        3
    };
    assert(order[k] == e.level);
    order.lemma_filter_contains(|l: u8| has_exercises(l), k);
}

/// The breadcrumb names a level as the home-page heading does, without
/// the trailing emoji: for every level the breadcrumb text starts the
/// heading text.
pub proof fn lemma_breadcrumb_label_prefixes_heading(level: u8)
    ensures
        breadcrumb_text(level)@.len() <= niveau_text(level)@.len(),
        niveau_text(level)@.subrange(0, breadcrumb_text(level)@.len() as int) == breadcrumb_text(
            level,
        )@,
{
    reveal_strlit("Niveau 1️⃣");
    reveal_strlit("Niveau 2️⃣");
    reveal_strlit("Niveau 3️⃣");
    reveal_strlit("Extra ✨");
    reveal_strlit("Niveau");
    reveal_strlit("Niveau 1");
    reveal_strlit("Niveau 2");
    reveal_strlit("Niveau 3");
    reveal_strlit("Extra");
    assert(niveau_text(level)@.subrange(0, breadcrumb_text(level)@.len() as int) =~= breadcrumb_text(
        level,
    )@);
}

} // verus!
