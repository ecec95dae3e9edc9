use movies_api::models::crews::{CrewParser, CrewsDirectors, CrewsWriters, TitleCrew};
use movies_api::models::episodes::{EpisodeParser, TitleEpisode};
use movies_api::models::ratings::RatingParser;
use movies_api::registry::IdTable;

fn table(pairs: &[(&str, u64)]) -> IdTable<u64> {
    let mut t = IdTable::new();
    for (k, v) in pairs {
        t.insert(k.to_string(), *v);
    }
    t
}

#[test]
fn crew_rows_and_unknowns() {
    let movies = table(&[("tt1", 100)]);
    let persons = table(&[("nm1", 1), ("nm2", 2)]);
    let mut p = CrewParser::new();
    let rec = TitleCrew {
        tconst: "tt1".to_string(),
        directors: "nm1,nm7".to_string(),
        writers: "\\N".to_string(),
    };
    let rows = p.parse(&rec, &movies, &persons).unwrap();
    assert_eq!(rows.directors, vec![CrewsDirectors { movie_id: 100, person_id: 1 }]);
    assert!(rows.writers.is_empty());
    assert!(!rows.flush);
    let rec = TitleCrew {
        tconst: "tt1".to_string(),
        directors: "\\N".to_string(),
        writers: "nm2,nm1,nm8,nm7".to_string(),
    };
    let rows = p.parse(&rec, &movies, &persons).unwrap();
    assert_eq!(
        rows.writers,
        vec![CrewsWriters { movie_id: 100, person_id: 2 }, CrewsWriters { movie_id: 100, person_id: 1 }]
    );
    let rec = TitleCrew {
        tconst: "tt5".to_string(),
        directors: "nm1".to_string(),
        writers: "nm9".to_string(),
    };
    assert!(p.parse(&rec, &movies, &persons).is_none());
    assert_eq!(p.index(), 3);
    let s = p.finish();
    assert_eq!(s.unknown_tconsts, vec!["tt5".to_string()]);
    assert_eq!(s.unknown_nconsts, vec!["nm7".to_string(), "nm8".to_string()]);
}

#[test]
fn episode_rows_take_the_show_from_the_parent() {
    let ids = table(&[("tt100", 1), ("tt200", 2)]);
    let mut p = EpisodeParser::new();
    let rec = TitleEpisode {
        tconst: "tt200".to_string(),
        parent_tconst: "tt100".to_string(),
        season_number: "1".to_string(),
        episode_number: "3".to_string(),
    };
    let rows = p.parse(&rec, &ids).unwrap();
    assert_eq!(rows.show.show_imdb_id, 1);
    assert_eq!(rows.show.episode_imdb_id, 2);
    assert_eq!(rows.show.season_number, "1");
    assert_eq!(rows.show.episode_number, "3");
    assert_eq!(p.index(), 3);
    assert!(p.finish().unknown_tconsts.is_empty());
}

#[test]
fn episode_rows_with_unknown_keys_give_nothing() {
    let ids = table(&[("tt1", 1)]);
    let mut p = EpisodeParser::new();
    let ep = |tconst: &str, parent: &str| TitleEpisode {
        tconst: tconst.to_string(),
        parent_tconst: parent.to_string(),
        season_number: "1".to_string(),
        episode_number: "2".to_string(),
    };
    assert!(p.parse(&ep("tt3", "tt1"), &ids).is_none());
    assert!(p.parse(&ep("tt1", "tt9"), &ids).is_none());
    assert!(p.parse(&ep("tt4", "tt5"), &ids).is_none());
    assert!(p.parse(&ep("tt3", "tt5"), &ids).is_none());
    assert_eq!(p.index(), 1);
    assert_eq!(
        p.finish().unknown_tconsts,
        vec!["tt3".to_string(), "tt9".to_string(), "tt5".to_string(), "tt4".to_string()]
    );
}

#[test]
fn episode_flush_points() {
    let ids = table(&[("tt1", 1)]);
    let mut p = EpisodeParser::new();
    let rec = TitleEpisode {
        tconst: "tt1".to_string(),
        parent_tconst: "tt1".to_string(),
        season_number: "1".to_string(),
        episode_number: "1".to_string(),
    };
    let mut flushes = 0;
    for _ in 0..10000 {
        if p.parse(&rec, &ids).unwrap().flush {
            flushes += 1;
        }
    }
    assert_eq!(flushes, 2);
}

#[test]
fn rating_decisions() {
    let movies = table(&[("tt1", 9)]);
    let mut p = RatingParser::new();
    let d = p.parse("tt1", &movies);
    assert_eq!(d.movie_id, Some(9));
    assert!(!d.flush);
    let d = p.parse("tt2", &movies);
    assert_eq!(d.movie_id, None);
    p.parse("tt2", &movies);
    assert_eq!(p.index(), 4);
    assert_eq!(p.finish().unknown_tconsts, vec!["tt2".to_string()]);
}
