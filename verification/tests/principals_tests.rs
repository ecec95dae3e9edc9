use movies_api::models::principals::{
    characters_can_unwrap, unwrap_characters, PrincipalParser, TitlePrincipals,
};
use movies_api::registry::IdTable;

fn strings(v: &[&str]) -> Vec<String> {
    v.iter().map(|s| s.to_string()).collect()
}

#[test]
fn unwrap_characters_examples() {
    assert_eq!(
        unwrap_characters("[\"Hal \\\"Chopper' Donovan, aka Hal Smith\"]"),
        "Hal \"Chopper' Donovan, aka Hal Smith"
    );
    assert_eq!(unwrap_characters("\\N"), "\\N");
    assert_eq!(unwrap_characters("abc"), "abc");
    assert_eq!(unwrap_characters("[\"\"]"), "");
    assert_eq!(unwrap_characters("[\"Amélie\"]"), "Amélie");
}

#[test]
fn characters_cut_check() {
    assert!(characters_can_unwrap("[\"x\"]"));
    assert!(characters_can_unwrap("\\N"));
    assert!(!characters_can_unwrap("aéb"));
    assert!(characters_can_unwrap("ab"));
    assert!(characters_can_unwrap("éé"));
}

fn table<V: Copy>(pairs: &[(&str, V)]) -> IdTable<V> {
    let mut t = IdTable::new();
    for (k, v) in pairs {
        t.insert(k.to_string(), *v);
    }
    t
}

fn principal(tconst: &str, nconst: &str, category: &str, job: &str, characters: &str) -> TitlePrincipals {
    TitlePrincipals {
        tconst: tconst.to_string(),
        ordering: 1,
        nconst: nconst.to_string(),
        category: category.to_string(),
        job: job.to_string(),
        characters: characters.to_string(),
    }
}

#[test]
fn principal_rows_and_unknowns() {
    let movies = table(&[("tt0030143", 29611u64)]);
    let persons = table(&[("nm0071636", 68337u64)]);
    let professions = table(&[("actor", 2u16)]);
    let mut p = PrincipalParser::new();
    let rec = principal(
        "tt0030143",
        "nm0071636",
        "actor",
        "\\N",
        "[\"Hal \\\"Chopper' Donovan, aka Hal Smith\"]",
    );
    assert!(p.can_parse(&rec, &movies, &persons, &professions));
    let rows = p.parse(&rec, &movies, &persons, &professions).unwrap();
    assert_eq!(rows.principal.movie_id, 29611);
    assert_eq!(rows.principal.ordering, 1);
    assert_eq!(rows.principal.person_id, 68337);
    assert_eq!(rows.principal.profession_id, 2);
    assert_eq!(rows.principal.job, "\\N");
    assert_eq!(rows.principal.characters, "Hal \"Chopper' Donovan, aka Hal Smith");

    assert!(p.parse(&principal("tt1", "nm0071636", "actor", "\\N", "\\N"), &movies, &persons, &professions).is_none());
    assert!(p.parse(&principal("tt0030143", "nm1", "actor", "\\N", "\\N"), &movies, &persons, &professions).is_none());
    assert!(p.parse(&principal("tt0030143", "nm0071636", "writer", "\\N", "\\N"), &movies, &persons, &professions).is_none());
    assert_eq!(p.index(), 2);

    let s = p.finish();
    assert_eq!(s.jobs, strings(&["uniqueJob", "\\N"]));
    assert_eq!(s.characters, strings(&["uniqueCharacters", "Hal \"Chopper' Donovan, aka Hal Smith"]));
    assert_eq!(s.unknown_tconsts, strings(&["tt1"]));
    assert_eq!(s.unknown_nconsts, strings(&["nm1"]));
    assert_eq!(s.unknown_professions, strings(&["writer"]));
}

#[test]
fn principal_that_would_cut_a_character_is_refused_up_front() {
    let movies = table(&[("tt1", 1u64)]);
    let persons = table(&[("nm1", 1u64)]);
    let professions = table(&[("actor", 1u16)]);
    let p = PrincipalParser::new();
    assert!(!p.can_parse(&principal("tt1", "nm1", "actor", "\\N", "aéb"), &movies, &persons, &professions));
    assert!(p.can_parse(&principal("tt2", "nm1", "actor", "\\N", "aéb"), &movies, &persons, &professions));
}
