use movies_api::models::movies::{movie_ids, ImdbIdString};
use movies_api::models::names::{
    person_ids, profession_ids, ImdbNameIdSized, NameBasic, NameBasicParser, PersonProfession,
    PersoinKnowForMovie, ProfessionIdSized,
};

fn name(nconst: &str, professions: &str, known_for: &str) -> NameBasic {
    NameBasic {
        nconst: nconst.to_string(),
        primary_name: "Fred Astaire".to_string(),
        birth_year: "1899".to_string(),
        death_year: "1987".to_string(),
        primary_profession: professions.to_string(),
        known_for_titles: known_for.to_string(),
    }
}

#[test]
fn name_basic_rows() {
    let movies = movie_ids(&vec![
        ImdbIdString { imdb_id: 11, tconst: "tt0050419".to_string() },
        ImdbIdString { imdb_id: 12, tconst: "tt0053137".to_string() },
    ]);
    let mut p = NameBasicParser::new();
    let r = name("nm0000001", "actor,soundtrack,self", "tt0050419,tt9999999,tt0053137");
    assert!(p.can_parse(&r));
    let rows = p.parse(&r, &movies);
    assert_eq!(rows.person.id, 1);
    assert_eq!(rows.person.primary_name, "Fred Astaire");
    assert_eq!(rows.nconst.person_id, 1);
    assert_eq!(rows.nconst.nconst, "nm0000001");
    assert_eq!(
        rows.professions,
        vec![
            PersonProfession { person_id: 1, profession_id: 2 },
            PersonProfession { person_id: 1, profession_id: 3 },
            PersonProfession { person_id: 1, profession_id: 1 },
        ]
    );
    assert_eq!(
        rows.known_for,
        vec![
            PersoinKnowForMovie { person_id: 1, movie_id: 11 },
            PersoinKnowForMovie { person_id: 1, movie_id: 12 },
        ]
    );
    let rows = p.parse(&name("nm0000002", "\\N", "\\N,tt9999999"), &movies);
    assert_eq!(rows.person.id, 2);
    assert!(rows.professions.is_empty());
    assert!(rows.known_for.is_empty());
    assert_eq!(p.next_person_id(), 3);
    let s = p.finish();
    let professions: Vec<(u16, String)> =
        s.professions.iter().map(|x| (x.profession_id, x.profession.clone())).collect();
    assert_eq!(
        professions,
        vec![(1, "self".to_string()), (2, "actor".to_string()), (3, "soundtrack".to_string())]
    );
    assert_eq!(s.unknown_tconsts, vec!["tt9999999".to_string()]);
}

#[test]
fn person_and_profession_tables() {
    let p = person_ids(&vec![
        ImdbNameIdSized { person_id: 1, nconst: "nm1".to_string() },
        ImdbNameIdSized { person_id: 2, nconst: "nm1".to_string() },
    ]);
    assert_eq!(p.get("nm1"), Some(2));
    let q = profession_ids(&vec![ProfessionIdSized { profession_id: 4, profession: "actor".to_string() }]);
    assert_eq!(q.get("actor"), Some(4));
    assert_eq!(q.get("actress"), None);
}
