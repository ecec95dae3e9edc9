use movies_api::models::movies::{
    akas_list, comma_lists, flag_is_set, imdb_movie, movie_ids, with_header, AkasParser,
    ImdbIdString, ImdbMovieToGenre, TitleAkas, TitleBasic, TitleBasicParser,
};

fn strings(v: &[&str]) -> Vec<String> {
    v.iter().map(|s| s.to_string()).collect()
}

fn basic(tconst: &str, title_type: &str, is_adult: &str, runtime: &str, genres: &str) -> TitleBasic {
    TitleBasic {
        tconst: tconst.to_string(),
        title_type: title_type.to_string(),
        primary_title: "Carmencita".to_string(),
        original_title: "Carmencita".to_string(),
        is_adult: is_adult.to_string(),
        start_year: "1894".to_string(),
        end_year: "\\N".to_string(),
        runtime_minutes: runtime.to_string(),
        genres: genres.to_string(),
    }
}

#[test]
fn title_basic_rows_and_genres() {
    let mut p = TitleBasicParser::new();
    let r1 = basic("tt0000001", "short", "0", "1", "Documentary,Short");
    assert!(p.can_parse(&r1));
    let rows = p.parse(&r1);
    assert_eq!(rows.movie.imdb_id, 1);
    assert_eq!(rows.movie.title_type, "short");
    assert!(!rows.movie.is_adult);
    assert_eq!(rows.movie.runtime_minutes, 1);
    assert_eq!(rows.movie.end_year, "\\N");
    assert_eq!(rows.id.imdb_id, 1);
    assert_eq!(rows.id.tconst, "tt0000001");
    assert_eq!(
        rows.genres,
        vec![
            ImdbMovieToGenre { imdb_id: 1, genre_id: 1 },
            ImdbMovieToGenre { imdb_id: 1, genre_id: 2 },
        ]
    );
    assert!(!rows.flush);

    let r2 = basic("tt0000002", "movie", "1", "\\N", "Short,Animation");
    let rows = p.parse(&r2);
    assert_eq!(rows.movie.imdb_id, 2);
    assert!(rows.movie.is_adult);
    assert_eq!(rows.movie.runtime_minutes, 0);
    assert_eq!(
        rows.genres,
        vec![
            ImdbMovieToGenre { imdb_id: 2, genre_id: 2 },
            ImdbMovieToGenre { imdb_id: 2, genre_id: 3 },
        ]
    );

    let r3 = basic("tt0000003", "short", "0", "5", "\\N");
    let rows = p.parse(&r3);
    assert!(rows.genres.is_empty());
    assert_eq!(p.next_imdb_id(), 4);

    let summary = p.finish();
    assert_eq!(summary.title_types, strings(&["title_type", "short", "movie"]));
    let genres: Vec<(u16, String)> =
        summary.genre_ids.iter().map(|g| (g.genre_id, g.genre.clone())).collect();
    assert_eq!(
        genres,
        vec![
            (1, "Documentary".to_string()),
            (2, "Short".to_string()),
            (3, "Animation".to_string()),
        ]
    );
}

#[test]
fn title_basic_flushes_every_ten_thousand_rows() {
    let mut p = TitleBasicParser::new();
    let r = basic("tt", "short", "0", "1", "\\N");
    let mut flushed = Vec::new();
    for _ in 0..20000 {
        let rows = p.parse(&r);
        if rows.flush {
            flushed.push(rows.id.imdb_id);
        }
    }
    assert_eq!(flushed, vec![10000, 20000]);
}

#[test]
fn repeated_genre_in_one_row_repeats_its_link() {
    let mut p = TitleBasicParser::new();
    let rows = p.parse(&basic("tt1", "movie", "0", "90", "Drama,Drama"));
    let ids: Vec<u16> = rows.genres.iter().map(|g| g.genre_id).collect();
    assert_eq!(ids, vec![1, 1]);
    assert_eq!(p.finish().genre_ids.len(), 1);
}

#[test]
fn empty_genre_field_is_a_genre() {
    let mut p = TitleBasicParser::new();
    let rows = p.parse(&basic("tt1", "movie", "0", "90", ""));
    assert_eq!(rows.genres.len(), 1);
    assert_eq!(p.finish().genre_ids[0].genre, "");
}

#[test]
fn imdb_movie_runtime_and_flag() {
    let m = imdb_movie(&basic("tt9", "movie", "1", "+45", "Drama"), 42);
    assert_eq!(m.imdb_id, 42);
    assert!(m.is_adult);
    assert_eq!(m.runtime_minutes, 45);
    let m = imdb_movie(&basic("tt9", "movie", "true", "70000", "Drama"), 1);
    assert!(!m.is_adult);
    assert_eq!(m.runtime_minutes, 0);
}

#[test]
fn flag_is_set_only_for_one() {
    assert!(flag_is_set("1"));
    assert!(!flag_is_set("0"));
    assert!(!flag_is_set("01"));
    assert!(!flag_is_set(""));
}

#[test]
fn movie_ids_last_row_wins() {
    let rows = vec![
        ImdbIdString { imdb_id: 1, tconst: "tt1".to_string() },
        ImdbIdString { imdb_id: 2, tconst: "tt2".to_string() },
        ImdbIdString { imdb_id: 3, tconst: "tt1".to_string() },
    ];
    let t = movie_ids(&rows);
    assert_eq!(t.get("tt1"), Some(3));
    assert_eq!(t.get("tt2"), Some(2));
    assert_eq!(t.get("tt3"), None);
}

fn akas(title_id: &str, region: &str, types: &str, attributes: &str, original: &str) -> TitleAkas {
    TitleAkas {
        title_id: title_id.to_string(),
        ordering: 1,
        title: "Carmencita".to_string(),
        region: region.to_string(),
        language: "\\N".to_string(),
        types: types.to_string(),
        attributes: attributes.to_string(),
        is_original_title: original.to_string(),
    }
}

#[test]
fn akas_rows_and_lists() {
    let ids = movie_ids(&vec![ImdbIdString { imdb_id: 7, tconst: "tt0000001".to_string() }]);
    let mut p = AkasParser::new();
    let rows = p.parse(&akas("tt0000001", "US", "imdbDisplay\u{2}dvd", "\\N", "0"), &ids);
    assert_eq!(rows.akas.imdb_id, 7);
    assert_eq!(rows.akas.ordering, 1);
    assert_eq!(rows.akas.types, "imdbDisplay,dvd");
    assert_eq!(rows.akas.attributes, "\\N");
    assert!(!rows.akas.is_original_title);
    assert!(!rows.flush);
    let rows = p.parse(&akas("tt0000001", "\\N", "original", "literal title", "1"), &ids);
    assert!(rows.akas.is_original_title);
    p.parse(&akas("tt0000001", "US", "imdbDisplay\u{2}dvd", "\\N", "0"), &ids);
    assert_eq!(p.index(), 4);
    let s = p.finish();
    assert_eq!(s.regions, strings(&["unique_region", "US", "\\N"]));
    assert_eq!(s.languages, strings(&["unique_language", "\\N"]));
    assert_eq!(s.types, strings(&["unique_types", "imdbDisplay,dvd", "original"]));
    assert_eq!(s.attributes, strings(&["unique_attributes", "\\N", "literal title"]));
}

#[test]
fn akas_list_and_helpers() {
    assert_eq!(akas_list("a\u{2}b\u{2}c"), "a,b,c");
    assert_eq!(comma_lists(&strings(&["x\u{2}y", "z"])), strings(&["x,y", "z"]));
    assert_eq!(with_header("h", &strings(&["a"])), strings(&["h", "a"]));
}
