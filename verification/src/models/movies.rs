//! Titles: the `title.basics` dump (movies, their IMDb ids and genres) and
//! the `title.akas` dump (localized titles).
use vstd::prelude::*;

use crate::registry::{
    field_ids, fresh_names, insert_unique, IdRegistry, IdTable, UniqueStrings, map_from_pairs,
    MAX_REGISTERED,
};
use crate::text::{
    join_with, lemma_join_split_is_replace, parse_u16, parse_u16_spec, replace_char,
    split_fields, split_join, split_on, str_eq, views,
};

verus! {

/// How often the writers of a parse are flushed: after every this many rows.
pub const FLUSH_EVERY: u64 = 10000;

/// The list separator inside IMDb array fields.
pub open spec fn comma() -> char {
    ','
}

/// The separator that `title.akas` uses inside its `types` and `attributes`
/// arrays.
pub open spec fn akas_separator() -> char {
    '\u{2}'
}

/// Whether a flag field reads `1`.
pub open spec fn is_one(s: Seq<char>) -> bool {
    s == seq!['1']
}

/// Whether `s` is the text `1`.
pub fn flag_is_set(s: &str) -> (r: bool)
    ensures
        r == is_one(s@),
{
    proof {
        reveal_strlit("1");
        assert("1"@ =~= seq!['1']);
    }
    str_eq(s, "1")
}

/// A row of `title.basics`.
#[derive(Clone, Debug, PartialEq, Eq)]
pub struct TitleBasic {
    /// tconst (string) - alphanumeric unique identifier of the title
    pub tconst: String,
    /// titleType (string) – the type/format of the title (e.g. movie, short, tvseries, tvepisode, video, etc)
    pub title_type: String,
    /// primaryTitle (string) – the more popular title / the title used by the filmmakers on promotional materials at the point of release
    pub primary_title: String,
    /// originalTitle (string) - original title, in the original language
    pub original_title: String,
    /// isAdult (boolean) - 0: non-adult title; 1: adult title
    pub is_adult: String,
    /// startYear (YYYY) – represents the release year of a title. In the case of TV Series, it is the series start year
    pub start_year: String,
    /// endYear (YYYY) – TV Series end year. '\N' for all other title types
    pub end_year: String,
    /// runtimeMinutes – primary runtime of the title, in minutes
    pub runtime_minutes: String,
    /// genres (string array) – includes up to three genres associated with the title
    pub genres: String,
}

/// A movie with its numeric IMDb id.
#[derive(Clone, Debug, PartialEq, Eq)]
pub struct ImdbMovie {
    pub imdb_id: u64,
    /// titleType – the type/format of the title (e.g. movie, short, tvseries, tvepisode, video, etc)
    pub title_type: String,
    /// primaryTitle – the more popular title / the title used by the filmmakers on promotional materials at the point of release
    pub primary_title: String,
    /// originalTitle - original title, in the original language
    pub original_title: String,
    /// isAdult (boolean) - 0: non-adult title; 1: adult title
    pub is_adult: bool,
    /// startYear (YYYY) – represents the release year of a title. In the case of TV Series, it is the series start year
    pub start_year: String,
    /// endYear (YYYY) – TV Series end year. '\N' for all other title types
    pub end_year: String,
    /// runtimeMinutes – primary runtime of the title, in minutes
    pub runtime_minutes: u16,
}

/// A genre and its id.
#[derive(Clone, Debug, PartialEq, Eq)]
pub struct GenreId {
    pub genre_id: u16,
    pub genre: String,
}

/// The numeric IMDb id given to a `tconst`.
#[derive(Clone, Debug, PartialEq, Eq)]
pub struct ImdbId {
    pub imdb_id: u64,
    /// tconst (string) - alphanumeric unique identifier of the title
    pub tconst: String,
}

/// A link from a movie to one of its genres.
#[derive(Clone, Debug, PartialEq, Eq)]
pub struct ImdbMovieToGenre {
    pub imdb_id: u64,
    pub genre_id: u16,
}

/// A row of the id file that parsing `title.basics` writes.
#[derive(Clone, Debug, PartialEq, Eq)]
pub struct ImdbIdString {
    pub imdb_id: u64,
    pub tconst: String,
}

/// The runtime that a movie row records: the parsed minutes, or 0 where the
/// field is not a `u16`.
pub open spec fn runtime_of(s: Seq<char>) -> u16 {
    match parse_u16_spec(s) {
        Some(v) => v,
        None => 0,
    }
}

/// `m` is the movie row of `record` under the id `id`.
pub open spec fn is_movie_of(m: ImdbMovie, record: TitleBasic, id: u64) -> bool {
    &&& m.imdb_id == id
    &&& m.title_type@ == record.title_type@
    &&& m.primary_title@ == record.primary_title@
    &&& m.original_title@ == record.original_title@
    &&& m.is_adult == is_one(record.is_adult@)
    &&& m.start_year@ == record.start_year@
    &&& m.end_year@ == record.end_year@
    &&& m.runtime_minutes == runtime_of(record.runtime_minutes@)
}

/// The genre links of a movie: its id with each of the given genre ids.
pub open spec fn genre_links(id: u64, ids: Seq<u16>) -> Seq<ImdbMovieToGenre> {
    ids.map_values(|g: u16| ImdbMovieToGenre { imdb_id: id, genre_id: g })
}

/// The entries of the `genres` field of a row.
pub open spec fn genre_fields(record: TitleBasic) -> Seq<Seq<char>> {
    split_on(record.genres@, comma())
}

/// The movie row of a `title.basics` row.
pub fn imdb_movie(record: &TitleBasic, imdb_id: u64) -> (m: ImdbMovie)
    ensures
        is_movie_of(m, *record, imdb_id),
            m.imdb_id == imdb_id,
            m.title_type@ == record.title_type@,
            m.primary_title@ == record.primary_title@,
            m.original_title@ == record.original_title@,
            m.is_adult == (record.is_adult@ == seq!['1']),
            m.start_year@ == record.start_year@,
            m.end_year@ == record.end_year@,
            m.runtime_minutes == (match parse_u16_spec(record.runtime_minutes@) {
                Some(v) => v,
                None => 0u16,
            }),
{
    let runtime = match parse_u16(record.runtime_minutes.as_str()) {
        Some(v) => v,
        None => 0,
    };
    ImdbMovie {
        imdb_id,
        title_type: record.title_type.clone(),
        primary_title: record.primary_title.clone(),
        original_title: record.original_title.clone(),
        is_adult: flag_is_set(record.is_adult.as_str()),
        start_year: record.start_year.clone(),
        end_year: record.end_year.clone(),
        runtime_minutes: runtime,
    }
}

/// What one `title.basics` row gives.
pub struct TitleBasicRows {
    /// The movie row.
    pub movie: ImdbMovie,
    /// The id row.
    pub id: ImdbId,
    /// The genre links, one per genre entry that is not `\N`.
    pub genres: Vec<ImdbMovieToGenre>,
    /// Whether the writers are flushed after this row.
    pub flush: bool,
}

/// What a finished `title.basics` parse gives besides its rows.
pub struct TitleBasicSummary {
    /// The header `title_type`, then each distinct title type in order of
    /// first appearance.
    pub title_types: Vec<String>,
    /// The genres in id order.
    pub genre_ids: Vec<GenreId>,
}

/// The state of a parse of `title.basics`: the next IMDb id (ids are handed
/// out 1, 2, 3, ... to the rows in order), the genres numbered so far, and
/// the title types seen so far.
pub struct TitleBasicParser {
    next_imdb_id: u64,
    genres: IdRegistry,
    title_types: UniqueStrings,
}

impl TitleBasicParser {
    pub closed spec fn wf(&self) -> bool {
        &&& self.genres.wf()
        &&& self.title_types.wf()
        &&& self.next_imdb_id >= 1
    }

    /// The id that the next row gets.
    pub closed spec fn spec_next_id(&self) -> u64 {
        self.next_imdb_id
    }

    /// The genres numbered so far; the genre at position `k` has id `k + 1`.
    pub closed spec fn spec_genres(&self) -> Seq<Seq<char>> {
        self.genres@
    }

    /// The distinct title types seen so far, in order of first appearance.
    pub closed spec fn spec_title_types(&self) -> Seq<Seq<char>> {
        self.title_types@
    }

    /// Whether `record` can be parsed: the id counter and the genre counter
    /// both have room for it.
    pub open spec fn has_room(&self, record: TitleBasic) -> bool {
        &&& self.spec_next_id() < u64::MAX
        &&& self.spec_genres().len() + fresh_names(self.spec_genres(), genre_fields(record)).len()
            <= MAX_REGISTERED
    }

    /// A parse that has read nothing yet.
    pub fn new() -> (r: Self)
        ensures
            r.wf(),
            r.spec_next_id() == 1,
            r.spec_genres() == Seq::<Seq<char>>::empty(),
            r.spec_title_types() == Seq::<Seq<char>>::empty(),
    {
        TitleBasicParser {
            next_imdb_id: 1,
            genres: IdRegistry::new(),
            title_types: UniqueStrings::new(),
        }
    }

    /// The id that the next row gets (also the index in error messages).
    pub fn next_imdb_id(&self) -> (r: u64)
        ensures
            r == self.spec_next_id(),
    {
        self.next_imdb_id
    }

    /// Whether `record` can be parsed without running out of ids.
    pub fn can_parse(&self, record: &TitleBasic) -> (r: bool)
        requires
            self.wf(),
        ensures
            r == self.has_room(*record),
    {
        if self.next_imdb_id == u64::MAX {
            return false;
        }
        let fields = split_fields(record.genres.as_str(), ',');
        let fresh = self.genres.count_fresh(&fields);
        fresh <= MAX_REGISTERED && self.genres.len() <= MAX_REGISTERED - fresh
    }

    /// Parses one row: it gets the next IMDb id, its new genres are numbered,
    /// its title type is remembered, and its movie, id and genre rows are
    /// returned.
    pub fn parse(&mut self, record: &TitleBasic) -> (rows: TitleBasicRows)
        requires
            old(self).wf(),
            old(self).has_room(*record),
        ensures
            final(self).wf(),
            final(self).spec_next_id() == old(self).spec_next_id() + 1,
            final(self).spec_genres() == old(self).spec_genres() + fresh_names(
                old(self).spec_genres(),
                genre_fields(*record),
            ),
            final(self).spec_title_types() == insert_unique(
                old(self).spec_title_types(),
                record.title_type@,
            ),
            is_movie_of(rows.movie, *record, old(self).spec_next_id()),
            rows.movie.imdb_id == old(self).spec_next_id(),
            rows.movie.title_type@ == record.title_type@,
            rows.movie.primary_title@ == record.primary_title@,
            rows.movie.original_title@ == record.original_title@,
            rows.movie.is_adult == (record.is_adult@ == seq!['1']),
            rows.movie.start_year@ == record.start_year@,
            rows.movie.end_year@ == record.end_year@,
            rows.movie.runtime_minutes == (match parse_u16_spec(record.runtime_minutes@) {
                Some(v) => v,
                None => 0u16,
            }),
            rows.id.imdb_id == old(self).spec_next_id(),
            rows.id.tconst@ == record.tconst@,
            rows.genres@ == genre_links(
                old(self).spec_next_id(),
                field_ids(final(self).spec_genres(), genre_fields(*record)),
            ),
            rows.flush == (old(self).spec_next_id() % FLUSH_EVERY == 0),
    {
        let imdb_id = self.next_imdb_id;
        self.title_types.insert(record.title_type.clone());
        let movie = imdb_movie(record, imdb_id);
        let id = ImdbId { imdb_id, tconst: record.tconst.clone() };
        let fields = split_fields(record.genres.as_str(), ',');
        let genre_ids = self.genres.assign_ids(&fields);
        let mut genres: Vec<ImdbMovieToGenre> = Vec::new();
        let n = genre_ids.len();
        let mut i: usize = 0;
        while i < n
            invariant
                n == genre_ids@.len(),
                i <= n,
                genres@ == genre_links(imdb_id, genre_ids@.take(i as int)),
            decreases n - i,
        {
            genres.push(ImdbMovieToGenre { imdb_id, genre_id: genre_ids[i] });
            assert(genres@ =~= genre_links(imdb_id, genre_ids@.take(i + 1)));
            i = i + 1;
        }
        assert(genre_ids@.take(n as int) =~= genre_ids@);
        self.next_imdb_id = imdb_id + 1;
        TitleBasicRows { movie, id, genres, flush: imdb_id % FLUSH_EVERY == 0 }
    }

    /// The title types (under their header) and the numbered genres.
    pub fn finish(&self) -> (r: TitleBasicSummary)
        requires
            self.wf(),
        ensures
            views(r.title_types@) == seq!["title_type"@] + self.spec_title_types(),
            r.genre_ids@.len() == self.spec_genres().len(),
            forall|k: int|
                0 <= k < r.genre_ids@.len() ==> #[trigger] r.genre_ids@[k].genre_id == k + 1
                    && r.genre_ids@[k].genre@ == self.spec_genres()[k],
    {
        let title_types = with_header("title_type", self.title_types.items());
        let names = self.genres.names();
        proof {
            self.genres.lemma_wf();
        }
        let mut genre_ids: Vec<GenreId> = Vec::new();
        let n = names.len();
        let mut i: usize = 0;
        while i < n
            invariant
                n == names@.len(),
                views(names@) == self.spec_genres(),
                self.spec_genres().len() <= MAX_REGISTERED,
                i <= n,
                genre_ids@.len() == i,
                forall|k: int|
                    0 <= k < i ==> #[trigger] genre_ids@[k].genre_id == k + 1
                        && genre_ids@[k].genre@ == self.spec_genres()[k],
            decreases n - i,
        {
            assert(views(names@)[i as int] == names@[i as int]@);
            let genre = names[i].clone();
            genre_ids.push(GenreId { genre_id: (i + 1) as u16, genre });
            assert(genre_ids@[i as int].genre@ == self.spec_genres()[i as int]);
            i = i + 1;
        }
        TitleBasicSummary { title_types, genre_ids }
    }
}

/// A list of values under a header line: `header`, then the values.
pub fn with_header(header: &str, values: &Vec<String>) -> (r: Vec<String>)
    ensures
        views(r@) == seq![header@] + views(values@),
{
    let mut out: Vec<String> = Vec::new();
    out.push(header.to_owned());
    let n = values.len();
    let mut i: usize = 0;
    while i < n
        invariant
            n == values@.len(),
            i <= n,
            views(out@) == seq![header@] + views(values@).take(i as int),
        decreases n - i,
    {
        let v = values[i].clone();
        let ghost before = out@;
        out.push(v);
        assert(views(out@) =~= views(before).push(values@[i as int]@));
        assert(views(values@).take(i + 1) =~= views(values@).take(i as int).push(values@[i as int]@));
        assert(views(out@) =~= seq![header@] + views(values@).take(i + 1));
        i = i + 1;
    }
    assert(views(values@).take(n as int) =~= views(values@));
    out
}

/// The table from `tconst` to IMDb id that the id rows give; where a
/// `tconst` occurs more than once, its last row counts.
pub fn movie_ids(rows: &Vec<ImdbIdString>) -> (t: IdTable<u64>)
    ensures
        t@ == map_from_pairs(rows@.map_values(|r: ImdbIdString| (r.tconst@, r.imdb_id))),
{
    let ghost pairs = rows@.map_values(|r: ImdbIdString| (r.tconst@, r.imdb_id));
    let mut t: IdTable<u64> = IdTable::new();
    let n = rows.len();
    let mut i: usize = 0;
    while i < n
        invariant
            n == rows@.len(),
            pairs == rows@.map_values(|r: ImdbIdString| (r.tconst@, r.imdb_id)),
            i <= n,
            t@ == map_from_pairs(pairs.take(i as int)),
        decreases n - i,
    {
        assert(pairs.take(i + 1).drop_last() =~= pairs.take(i as int));
        t.insert(rows[i].tconst.clone(), rows[i].imdb_id);
        i = i + 1;
    }
    assert(pairs.take(n as int) =~= pairs);
    t
}

/// A row of `title.akas`.
#[derive(Clone, Debug, PartialEq, Eq)]
pub struct TitleAkas {
    /// titleId (string) - a tconst, an alphanumeric unique identifier of the title (i.e imdb id: eg:tt0000001)
    pub title_id: String,
    /// ordering (integer) – a number to uniquely identify rows for a given titleId
    pub ordering: u16,
    /// title (string) – the localized title
    pub title: String,
    /// region (string) - the region for this version of the title
    pub region: String,
    /// language (string) - the language of the title
    pub language: String,
    /// types (array) - Enumerated set of attributes for this alternative title. One or more of the following: "alternative", "dvd", "festival", "tv", "video", "working", "original", "imdbDisplay". New values may be added in the future without warning
    pub types: String,
    /// attributes (array) - Additional terms to describe this alternative title, not enumerated
    pub attributes: String,
    /// isOriginalTitle (boolean) – 0: not original title; 1: original title
    pub is_original_title: String,
}

/// A localized title of a movie, under the movie's IMDb id.
#[derive(Clone, Debug, PartialEq, Eq)]
pub struct ImdbMovieAkas {
    pub imdb_id: u64,
    /// ordering (integer) – a number to uniquely identify rows for a given titleId
    pub ordering: u16,
    /// title – the localized title
    pub title: String,
    /// region - the region for this version of the title
    pub region: String,
    /// language - the language of the title
    pub language: String,
    /// types - the entries of the `types` array, separated by commas
    pub types: String,
    /// attributes - the entries of the `attributes` array, separated by commas
    pub attributes: String,
    pub is_original_title: bool,
}

/// An akas array with its entries separated by commas.
pub open spec fn comma_list(s: Seq<char>) -> Seq<char> {
    join_with(split_on(s, akas_separator()), seq![comma()])
}

/// The entries of an akas array separated by commas in place of the
/// control character that separates them in the dump.
pub fn akas_list(s: &str) -> (r: String)
    ensures
        r@ == comma_list(s@),
        r@ == replace_char(s@, akas_separator(), comma()),
{
    proof {
        reveal_strlit(",");
        assert(","@ =~= seq![comma()]);
        lemma_join_split_is_replace(s@, akas_separator(), comma());
    }
    split_join(s, '\u{2}', ",")
}

/// `a` is the localized-title row of `record` under the id `id`.
pub open spec fn is_akas_of(a: ImdbMovieAkas, record: TitleAkas, id: u64) -> bool {
    &&& a.imdb_id == id
    &&& a.ordering == record.ordering
    &&& a.title@ == record.title@
    &&& a.region@ == record.region@
    &&& a.language@ == record.language@
    &&& a.types@ == comma_list(record.types@)
    &&& a.attributes@ == comma_list(record.attributes@)
    &&& a.is_original_title == is_one(record.is_original_title@)
}

/// What one `title.akas` row gives.
pub struct AkasRows {
    /// The localized-title row.
    pub akas: ImdbMovieAkas,
    /// Whether the writers are flushed after this row.
    pub flush: bool,
}

/// What a finished `title.akas` parse gives besides its rows: each list
/// starts with its header.
pub struct AkasSummary {
    pub regions: Vec<String>,
    pub languages: Vec<String>,
    pub types: Vec<String>,
    pub attributes: Vec<String>,
}

/// The state of a parse of `title.akas`: the row counter and the distinct
/// regions, languages, types and attributes seen so far.
pub struct AkasParser {
    index: u32,
    regions: UniqueStrings,
    languages: UniqueStrings,
    types: UniqueStrings,
    attributes: UniqueStrings,
}

impl AkasParser {
    pub closed spec fn wf(&self) -> bool {
        &&& self.regions.wf()
        &&& self.languages.wf()
        &&& self.types.wf()
        &&& self.attributes.wf()
    }

    /// The number of the next row, counted from 1.
    pub closed spec fn spec_index(&self) -> u32 {
        self.index
    }

    pub closed spec fn spec_regions(&self) -> Seq<Seq<char>> {
        self.regions@
    }

    pub closed spec fn spec_languages(&self) -> Seq<Seq<char>> {
        self.languages@
    }

    /// The distinct raw `types` fields seen so far.
    pub closed spec fn spec_types(&self) -> Seq<Seq<char>> {
        self.types@
    }

    /// The distinct raw `attributes` fields seen so far.
    pub closed spec fn spec_attributes(&self) -> Seq<Seq<char>> {
        self.attributes@
    }

    /// A parse that has read nothing yet.
    pub fn new() -> (r: Self)
        ensures
            r.wf(),
            r.spec_index() == 1,
            r.spec_regions() == Seq::<Seq<char>>::empty(),
            r.spec_languages() == Seq::<Seq<char>>::empty(),
            r.spec_types() == Seq::<Seq<char>>::empty(),
            r.spec_attributes() == Seq::<Seq<char>>::empty(),
    {
        AkasParser {
            index: 1,
            regions: UniqueStrings::new(),
            languages: UniqueStrings::new(),
            types: UniqueStrings::new(),
            attributes: UniqueStrings::new(),
        }
    }

    /// The number of the next row (the index in error messages).
    pub fn index(&self) -> (r: u32)
        ensures
            r == self.spec_index(),
    {
        self.index
    }

    /// Parses one row whose title has an IMDb id: the row is given that id,
    /// its arrays are separated by commas, and its region, language, types and
    /// attributes are remembered.
    pub fn parse(&mut self, record: &TitleAkas, ids: &IdTable<u64>) -> (rows: AkasRows)
        requires
            old(self).wf(),
            old(self).spec_index() < u32::MAX,
            ids@.contains_key(record.title_id@),
        ensures
            final(self).wf(),
            final(self).spec_index() == old(self).spec_index() + 1,
            final(self).spec_regions() == insert_unique(old(self).spec_regions(), record.region@),
            final(self).spec_languages() == insert_unique(
                old(self).spec_languages(),
                record.language@,
            ),
            final(self).spec_types() == insert_unique(old(self).spec_types(), record.types@),
            final(self).spec_attributes() == insert_unique(
                old(self).spec_attributes(),
                record.attributes@,
            ),
            is_akas_of(rows.akas, *record, ids@[record.title_id@]),
            rows.akas.imdb_id == ids@[record.title_id@],
            rows.akas.ordering == record.ordering,
            rows.akas.title@ == record.title@,
            rows.akas.region@ == record.region@,
            rows.akas.language@ == record.language@,
            rows.akas.types@ == replace_char(record.types@, '\u{2}', ','),
            rows.akas.attributes@ == replace_char(record.attributes@, '\u{2}', ','),
            rows.akas.is_original_title == (record.is_original_title@ == seq!['1']),
            rows.flush == (old(self).spec_index() as u64 % FLUSH_EVERY == 0),
    {
        let imdb_id = match ids.get(record.title_id.as_str()) {
            Some(id) => id,
            None => 0,
        };
        let akas = ImdbMovieAkas {
            imdb_id,
            ordering: record.ordering,
            title: record.title.clone(),
            region: record.region.clone(),
            language: record.language.clone(),
            types: akas_list(record.types.as_str()),
            attributes: akas_list(record.attributes.as_str()),
            is_original_title: flag_is_set(record.is_original_title.as_str()),
        };
        self.regions.insert(record.region.clone());
        self.languages.insert(record.language.clone());
        self.types.insert(record.types.clone());
        self.attributes.insert(record.attributes.clone());
        let index = self.index;
        self.index = index + 1;
        AkasRows { akas, flush: index as u64 % FLUSH_EVERY == 0 }
    }

    /// The distinct regions, languages, types and attributes under their
    /// headers; the types and attributes with their entries separated by
    /// commas.
    pub fn finish(&self) -> (r: AkasSummary)
        requires
            self.wf(),
        ensures
            views(r.regions@) == seq!["unique_region"@] + self.spec_regions(),
            views(r.languages@) == seq!["unique_language"@] + self.spec_languages(),
            views(r.types@) == seq!["unique_types"@] + self.spec_types().map_values(
                |t: Seq<char>| comma_list(t),
            ),
            views(r.attributes@) == seq!["unique_attributes"@] + self.spec_attributes().map_values(
                |t: Seq<char>| comma_list(t),
            ),
    {
        let regions = with_header("unique_region", self.regions.items());
        let languages = with_header("unique_language", self.languages.items());
        let types = with_header("unique_types", &comma_lists(self.types.items()));
        let attributes = with_header("unique_attributes", &comma_lists(self.attributes.items()));
        AkasSummary { regions, languages, types, attributes }
    }
}

/// Each akas array with its entries separated by commas.
pub fn comma_lists(values: &Vec<String>) -> (r: Vec<String>)
    ensures
        views(r@) == views(values@).map_values(|t: Seq<char>| comma_list(t)),
{
    let mut out: Vec<String> = Vec::new();
    let n = values.len();
    let mut i: usize = 0;
    while i < n
        invariant
            n == values@.len(),
            i <= n,
            views(out@) == views(values@).take(i as int).map_values(|t: Seq<char>| comma_list(t)),
        decreases n - i,
    {
        let v = akas_list(values[i].as_str());
        let ghost before = out@;
        out.push(v);
        assert(views(out@) =~= views(before).push(comma_list(values@[i as int]@)));
        assert(views(values@).take(i + 1).map_values(|t: Seq<char>| comma_list(t))
            =~= views(values@).take(i as int).map_values(|t: Seq<char>| comma_list(t)).push(
            comma_list(values@[i as int]@),
        ));
        i = i + 1;
    }
    assert(views(values@).take(n as int) =~= views(values@));
    out
}

/// A movie row copies each title field of its row to the field of the same
/// name, reads the adult flag as `1` and the runtime as a `u16` (0 when it is
/// not one).
pub proof fn lemma_movie_row_fields(m: ImdbMovie, record: TitleBasic, id: u64)
    requires
        is_movie_of(m, record, id),
    ensures
        m.imdb_id == id,
        m.title_type@ == record.title_type@,
        m.primary_title@ == record.primary_title@,
        m.original_title@ == record.original_title@,
        m.is_adult <==> record.is_adult@ == seq!['1'],
        m.start_year@ == record.start_year@,
        m.end_year@ == record.end_year@,
        parse_u16_spec(record.runtime_minutes@) matches Some(v) ==> m.runtime_minutes == v,
        parse_u16_spec(record.runtime_minutes@) is None ==> m.runtime_minutes == 0,
{
}

/// A localized-title row copies each field of its row to the field of the
/// same name, with the arrays' control-character separators turned into
/// commas and the original-title flag read as `1`.
pub proof fn lemma_akas_row_fields(a: ImdbMovieAkas, record: TitleAkas, id: u64)
    requires
        is_akas_of(a, record, id),
    ensures
        a.imdb_id == id,
        a.ordering == record.ordering,
        a.title@ == record.title@,
        a.region@ == record.region@,
        a.language@ == record.language@,
        a.types@ == replace_char(record.types@, '\u{2}', ','),
        a.attributes@ == replace_char(record.attributes@, '\u{2}', ','),
        a.is_original_title <==> record.is_original_title@ == seq!['1'],
{
    lemma_join_split_is_replace(record.types@, '\u{2}', ',');
    lemma_join_split_is_replace(record.attributes@, '\u{2}', ',');
}

/// A movie gets one genre link per id, in order, each with the movie's id.
pub proof fn lemma_genre_links(id: u64, ids: Seq<u16>)
    ensures
        genre_links(id, ids).len() == ids.len(),
        forall|k: int|
            0 <= k < ids.len() ==> #[trigger] genre_links(id, ids)[k].imdb_id == id
                && genre_links(id, ids)[k].genre_id == ids[k],
{
}

} // verus!
