use homework::routes::{app_routes, Route};
use homework::exercises::{
    all_exercises, breadcrumb_level_label, exercise_index, exercise_levels, flashcards_page_meta,
    home_levels, level_anchor, niveau_label, query_has_pair,
};

#[test]
fn catalogue_order_and_ids() {
    let ids: Vec<&str> = all_exercises().iter().map(|e| e.id).collect();
    assert_eq!(
        ids,
        vec![
            "mathbox",
            "multiplications",
            "thermometer",
            "clock",
            "digital-clock",
            "fraction-sense",
            "fractions",
            "percentages",
            "written-arithmetic",
            "decimals",
            "advanced-mathbox",
            "flashcards"
        ]
    );
    let flash = all_exercises()[11];
    assert_eq!(flash.path, "/extra/flashcards");
    assert_eq!(flash.level, 10);
    assert_eq!(flash.code_label, "🃏");
}

#[test]
fn levels_and_labels() {
    assert_eq!(exercise_levels(), vec![1, 2, 3, 10]);
    assert_eq!(niveau_label(1), "Niveau 1️⃣");
    assert_eq!(niveau_label(10), "Extra ✨");
    assert_eq!(niveau_label(7), "Niveau");
    assert_eq!(breadcrumb_level_label(2), "Niveau 2");
    assert_eq!(breadcrumb_level_label(3), "Niveau 3");
    assert_eq!(breadcrumb_level_label(10), "Extra");
    assert_eq!(breadcrumb_level_label(0), "Niveau");
    for level in 0..=255u8 {
        assert!(niveau_label(level).starts_with(breadcrumb_level_label(level)));
    }
}

#[test]
fn level_anchor_is_decimal() {
    assert_eq!(level_anchor(2), "niveau-2");
    assert_eq!(level_anchor(10), "niveau-10");
    assert_eq!(level_anchor(0), "niveau-0");
    assert_eq!(level_anchor(255), "niveau-255");
    assert_eq!(level_anchor(100), "niveau-100");
}

#[test]
fn exercise_index_finds_registered_ids() {
    assert_eq!(exercise_index("mathbox"), Some(0));
    assert_eq!(exercise_index("flashcards"), Some(11));
    assert_eq!(exercise_index("clock"), Some(3));
    assert_eq!(exercise_index("written-arithmetic"), Some(8));
    assert_eq!(exercise_index("fraction"), None);
    assert_eq!(exercise_index(""), None);
    for (i, e) in all_exercises().iter().enumerate() {
        assert_eq!(exercise_index(e.id), Some(i));
    }
}

#[test]
fn home_levels_group_the_catalogue() {
    let groups = home_levels();
    assert_eq!(groups.len(), 4);
    assert_eq!(groups[0].level, 1);
    assert_eq!(groups[0].anchor, "niveau-1");
    assert_eq!(groups[0].heading, "Niveau 1️⃣");
    let ids: Vec<&str> = groups[1].exercises.iter().map(|e| e.id).collect();
    assert_eq!(
        ids,
        vec!["clock", "digital-clock", "fraction-sense", "fractions", "percentages"]
    );
    assert_eq!(groups[2].level, 3);
    assert_eq!(groups[2].anchor, "niveau-3");
    assert_eq!(groups[2].heading, "Niveau 3️⃣");
    let ids: Vec<&str> = groups[2].exercises.iter().map(|e| e.id).collect();
    assert_eq!(ids, vec!["written-arithmetic", "decimals", "advanced-mathbox"]);
    assert_eq!(groups[3].anchor, "niveau-10");
    assert_eq!(groups[3].exercises.len(), 1);
    let total: usize = groups.iter().map(|g| g.exercises.len()).sum();
    assert_eq!(total, all_exercises().len());
}

#[test]
fn query_pairs_are_matched_by_raw_name() {
    assert!(query_has_pair("import=abc", "import"));
    assert!(query_has_pair("a=1&import", "import"));
    assert!(query_has_pair("&&import=", "import"));
    assert!(!query_has_pair("importx=1", "import"));
    assert!(!query_has_pair("x=import", "import"));
    assert!(!query_has_pair("", "import"));
}

#[test]
fn flashcards_meta_for_import_links() {
    let m = flashcards_page_meta("/extra/flashcards", Some("import=deck123"));
    assert_eq!(m.title, "Importeer flitskaartjes deck — Oefeningen Basisschool");
    assert_eq!(m.og_path, "/extra/flashcards?import=deck123");
    assert_eq!(m.favicon_emoji, "🃏");

    let m = flashcards_page_meta("/extra/flashcards", Some("other=1"));
    assert_eq!(m.title, "flitskaarten — Oefeningen Basisschool");
    assert_eq!(m.description, "Maak je eigen flitskaartjes en oefen ze.");
    assert_eq!(m.og_path, "/extra/flashcards");

    let m = flashcards_page_meta("/extra/flashcards", None);
    assert_eq!(m.og_path, "/extra/flashcards");
}

#[test]
fn every_exercise_and_sitemap_page_is_routed() {
    let routes = app_routes();
    assert_eq!(routes.len(), 28);
    for e in all_exercises() {
        assert!(routes.contains(&(e.path, Route::Exercise(e.id))));
    }
    for p in ["/", "/about", "/privacy"] {
        assert!(routes.iter().any(|(path, _)| *path == p));
    }
    assert!(routes.contains(&("/.well-known/security.txt", Route::SecurityTxt)));
    for (i, (a, _)) in routes.iter().enumerate() {
        for (b, _) in &routes[i + 1..] {
            assert_ne!(a, b);
        }
    }
}

#[test]
fn new_exercises_have_their_level_and_path() {
    let all = all_exercises();
    let decimals = all[exercise_index("decimals").unwrap()];
    assert_eq!(decimals.path, "/3/decimals");
    assert_eq!(decimals.label, "kommatrainer");
    assert_eq!(decimals.icon, "🔍");
    assert_eq!(decimals.level, 3);
    let big = all[exercise_index("advanced-mathbox").unwrap()];
    assert_eq!(big.path, "/3/advanced-mathbox");
    assert_eq!(big.label, "grote rekendoos");
    assert_eq!(big.icon, "🧮");
    let sense = all[exercise_index("fraction-sense").unwrap()];
    assert_eq!(sense.path, "/2/fraction-sense");
    assert_eq!(sense.label, "breukenwijzer");
    assert_eq!(sense.level, 2);
    let written = all[exercise_index("written-arithmetic").unwrap()];
    assert_eq!(written.path, "/3/written-arithmetic");
    assert_eq!(written.label, "cijfertrainer");
    assert_eq!(written.level, 3);
}
