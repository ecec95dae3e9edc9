//! Reference tables: languages and countries with their IMDb codes.
use vstd::prelude::*;

verus! {

/// A language with its ISO and IMDb codes.
#[derive(Clone, Debug, PartialEq, Eq)]
pub struct Language {
    pub id: u16,
    pub iso_639_1: String,
    pub iso_639_2: String,
    pub language_name_iso_639_2: String,
    pub imdb_language_code: String,
}

/// A country with its ISO codes, regions and IMDb code.
#[derive(Clone, Debug, PartialEq, Eq)]
pub struct Country {
    pub id: u16,
    pub name: String,
    pub alpha_3: String,
    pub country_code: String,
    pub iso_3166_2: String,
    pub region: String,
    pub sub_region: String,
    pub intermediate_region: String,
    pub imdb_country_code: String,
}

} // verus!
