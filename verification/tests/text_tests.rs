use movies_api::text::{
    clone_all, is_null_marker, join, parse_u16, remove_char, split_fields, split_join, str_eq,
};

fn strings(v: &[&str]) -> Vec<String> {
    v.iter().map(|s| s.to_string()).collect()
}

#[test]
fn split_fields_matches_str_split() {
    for s in ["", ",", "a", "a,b", "Drama,Comedy,Short", ",a,", "a,,b", "\\N"] {
        let expected: Vec<String> = s.split(',').map(|x| x.to_string()).collect();
        assert_eq!(split_fields(s, ','), expected, "input {:?}", s);
    }
}

#[test]
fn split_fields_empty_gives_one_empty_field() {
    assert_eq!(split_fields("", ','), strings(&[""]));
}

#[test]
fn join_puts_separator_between_parts() {
    assert_eq!(join(&strings(&["a", "b", "c"]), ", "), "a, b, c");
    assert_eq!(join(&strings(&["only"]), "\n"), "only");
    assert_eq!(join(&Vec::new(), ","), "");
}

#[test]
fn split_join_replaces_separator() {
    assert_eq!(split_join("alternative\u{2}dvd", '\u{2}', ","), "alternative,dvd");
    assert_eq!(split_join("imdbDisplay", '\u{2}', ","), "imdbDisplay");
    assert_eq!(split_join("\u{2}", '\u{2}', ","), ",");
}

#[test]
fn join_of_split_gives_text_back() {
    let s = "nm0005690,nm0374658";
    assert_eq!(join(&split_fields(s, ','), ","), s);
}

#[test]
fn remove_char_drops_every_occurrence() {
    assert_eq!(remove_char("Hal \\\"Chopper\\\"", '\\'), "Hal \"Chopper\"");
    assert_eq!(remove_char("", '\\'), "");
    assert_eq!(remove_char("\\\\", '\\'), "");
}

#[test]
fn str_eq_compares_characters() {
    assert!(str_eq("movie", "movie"));
    assert!(!str_eq("movie", "movies"));
    assert!(!str_eq("é", "e"));
    assert!(str_eq("", ""));
}

#[test]
fn null_marker_is_backslash_n() {
    assert!(is_null_marker("\\N"));
    assert!(!is_null_marker("N"));
    assert!(!is_null_marker("\\N "));
}

#[test]
fn parse_u16_agrees_with_std() {
    for s in [
        "0", "1", "90", "065535", "65535", "65536", "+12", "+", "", "-1", "-0", "1 ", " 1", "\\N",
        "12a", "99999999999999999999", "++1", "٣",
    ] {
        assert_eq!(parse_u16(s), s.parse::<u16>().ok(), "input {:?}", s);
    }
}

#[test]
fn parse_u16_exact_values() {
    assert_eq!(parse_u16("120"), Some(120));
    assert_eq!(parse_u16("+7"), Some(7));
    assert_eq!(parse_u16("65536"), None);
}

#[test]
fn clone_all_copies() {
    let v = strings(&["x", "y"]);
    assert_eq!(clone_all(&v), v);
}
