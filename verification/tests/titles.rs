use jimaku::tmdb::AlternativeTitle;
use jimaku::tmdb::AlternativeTitles;
use jimaku::tmdb::Id;
use jimaku::tmdb::Info;
use jimaku::tmdb::LangCode;
use jimaku::tmdb::SearchResult;

fn alt(lang: LangCode, title: &str, info: &str) -> AlternativeTitle {
    AlternativeTitle {
        lang,
        title: title.to_string(),
        info: info.to_string(),
    }
}

fn info_with(
    original_language: LangCode,
    original_title: &str,
    title: &str,
    alts: Vec<AlternativeTitle>,
) -> Info {
    Info {
        id: Id::Tv { id: 1 },
        adult: false,
        original_language,
        original_title: original_title.to_string(),
        title: title.to_string(),
        alternative_titles: AlternativeTitles { titles: alts },
    }
}

#[test]
fn lang_codes() {
    assert_eq!(LangCode::from_code("JP"), LangCode::Japanese);
    assert_eq!(LangCode::from_code("ja"), LangCode::Japanese);
    assert_eq!(LangCode::from_code("US"), LangCode::English);
    assert_eq!(LangCode::from_code("GB"), LangCode::English);
    assert_eq!(LangCode::from_code("en"), LangCode::English);
    assert_eq!(LangCode::from_code("fr"), LangCode::Other);
    assert_eq!(LangCode::from_code("jp"), LangCode::Other);
}

#[test]
fn romaji_detection_lowercases_the_annotation() {
    // Would fail if the annotation were not lowercased before the search.
    assert!(alt(LangCode::Japanese, "Jujutsu Kaisen", "Romaji").is_romaji());
    assert!(alt(LangCode::Japanese, "Jujutsu Kaisen", "Hepburn Romanization").is_romaji());
    assert!(!alt(LangCode::Japanese, "Jujutsu Kaisen", "kanji").is_romaji());
}

#[test]
fn romaji_detection_edge_cases() {
    assert!(alt(LangCode::Japanese, "Plain Ascii", "").is_romaji());
    assert!(!alt(LangCode::Japanese, "呪術廻戦", "").is_romaji());
    assert!(!alt(LangCode::English, "Whatever", "Romaji").is_romaji());
    assert!(!alt(LangCode::Other, "Whatever", "romaji").is_romaji());
}

#[test]
fn romaji_picks_the_first_match() {
    let list = AlternativeTitles {
        titles: vec![
            alt(LangCode::English, "English Title", "Romaji"),
            alt(LangCode::Japanese, "Dai-ichi", "romanji"),
            alt(LangCode::Japanese, "Dai-ni", "Romaji"),
        ],
    };
    assert_eq!(list.romaji(), Some("Dai-ichi".to_string()));
    let none = AlternativeTitles {
        titles: vec![alt(LangCode::Japanese, "呪術廻戦", "kanji")],
    };
    assert_eq!(none.romaji(), None);
}

#[test]
fn titles_for_an_english_original() {
    let info = info_with(LangCode::English, "Breaking Bad", "Breaking Bad", vec![]);
    let t = info.titles();
    assert_eq!(t.english, Some("Breaking Bad".to_string()));
    assert_eq!(t.native, None);
    // No romanization and no Japanese: romaji falls back to the English title.
    assert_eq!(t.romaji, "Breaking Bad");
}

#[test]
fn titles_for_a_japanese_original() {
    let info = info_with(
        LangCode::Japanese,
        "呪術廻戦",
        "Jujutsu Kaisen",
        vec![alt(LangCode::Japanese, "Jujutsu Kaisen", "Romaji")],
    );
    let t = info.titles();
    assert_eq!(t.romaji, "Jujutsu Kaisen");
    // The localized title holds no Japanese script, so it is the English one.
    assert_eq!(t.english, Some("Jujutsu Kaisen".to_string()));
    assert_eq!(t.native, Some("呪術廻戦".to_string()));
}

#[test]
fn titles_native_from_alternatives() {
    let info = info_with(
        LangCode::Other,
        "Originaltitel",
        "Localized 呪術",
        vec![alt(LangCode::Japanese, "日本語題", "kanji")],
    );
    let t = info.titles();
    // The localized title holds Japanese script, so no English title.
    assert_eq!(t.english, None);
    assert_eq!(t.native, Some("日本語題".to_string()));
    // No romanization and no English: romaji falls back to the original title.
    assert_eq!(t.romaji, "Originaltitel");
}

#[test]
fn adult_flag_is_reported() {
    let mut info = info_with(LangCode::English, "T", "T", vec![]);
    assert!(!info.is_adult());
    info.adult = true;
    assert!(info.is_adult());
}

#[test]
fn search_results_map_to_ids() {
    let tv = SearchResult {
        id: 9,
        media_type: "tv".to_string(),
    };
    assert_eq!(tv.to_id(), Some(Id::Tv { id: 9 }));
    let movie = SearchResult {
        id: 10,
        media_type: "movie".to_string(),
    };
    assert_eq!(movie.to_id(), Some(Id::Movie { id: 10 }));
    let person = SearchResult {
        id: 11,
        media_type: "person".to_string(),
    };
    assert_eq!(person.to_id(), None);
}
