//! Crews: the `title.crew` dump (the directors and writers of each title).
use vstd::prelude::*;

use crate::models::movies::{comma, FLUSH_EVERY};
use crate::registry::{
    insert_all_unique, insert_unique, known_ids, resolve_ids, unknown_keys, IdTable,
    UniqueStrings,
};
use crate::text::{clone_all, split_fields, split_on, views};

verus! {

/// A row of `title.crew`.
#[derive(Clone, Debug, PartialEq, Eq)]
pub struct TitleCrew {
    /// tconst (string) - alphanumeric unique identifier of the title
    pub tconst: String,
    /// directors (array of nconsts) - director(s) of the given title
    pub directors: String,
    /// writers (array of nconsts) – writer(s) of the given title
    pub writers: String,
}

/// A director of a movie.
#[derive(Clone, Debug, PartialEq, Eq)]
pub struct CrewsDirectors {
    pub movie_id: u64,
    pub person_id: u64,
}

/// A writer of a movie.
#[derive(Clone, Debug, PartialEq, Eq)]
pub struct CrewsWriters {
    pub movie_id: u64,
    pub person_id: u64,
}

/// The director rows of a movie: the movie id with each person id.
pub open spec fn director_rows(movie_id: u64, ids: Seq<u64>) -> Seq<CrewsDirectors> {
    ids.map_values(|p: u64| CrewsDirectors { movie_id, person_id: p })
}

/// The writer rows of a movie: the movie id with each person id.
pub open spec fn writer_rows(movie_id: u64, ids: Seq<u64>) -> Seq<CrewsWriters> {
    ids.map_values(|p: u64| CrewsWriters { movie_id, person_id: p })
}

/// The entries of the `directors` field of a row.
pub open spec fn director_fields(record: TitleCrew) -> Seq<Seq<char>> {
    split_on(record.directors@, comma())
}

/// The entries of the `writers` field of a row.
pub open spec fn writer_fields(record: TitleCrew) -> Seq<Seq<char>> {
    split_on(record.writers@, comma())
}

/// What one `title.crew` row of a known movie gives.
pub struct CrewRows {
    /// One row per director with a person id.
    pub directors: Vec<CrewsDirectors>,
    /// One row per writer with a person id.
    pub writers: Vec<CrewsWriters>,
    /// Whether the writers are flushed after this row.
    pub flush: bool,
}

/// What a finished `title.crew` parse gives besides its rows.
pub struct CrewSummary {
    /// The titles without a movie id, each once.
    pub unknown_tconsts: Vec<String>,
    /// The directors and writers without a person id, each once.
    pub unknown_nconsts: Vec<String>,
}

/// The state of a parse of `title.crew`: the counter of rows of known
/// movies, and the titles and persons that had no id.
pub struct CrewParser {
    index: u64,
    unknown_tconsts: UniqueStrings,
    unknown_nconsts: UniqueStrings,
}

impl CrewParser {
    pub closed spec fn wf(&self) -> bool {
        &&& self.unknown_tconsts.wf()
        &&& self.unknown_nconsts.wf()
    }

    /// The number of the next row of a known movie, counted from 1.
    pub closed spec fn spec_index(&self) -> u64 {
        self.index
    }

    pub closed spec fn spec_unknown_tconsts(&self) -> Seq<Seq<char>> {
        self.unknown_tconsts@
    }

    pub closed spec fn spec_unknown_nconsts(&self) -> Seq<Seq<char>> {
        self.unknown_nconsts@
    }

    /// A parse that has read nothing yet.
    pub fn new() -> (r: Self)
        ensures
            r.wf(),
            r.spec_index() == 1,
            r.spec_unknown_tconsts() == Seq::<Seq<char>>::empty(),
            r.spec_unknown_nconsts() == Seq::<Seq<char>>::empty(),
    {
        CrewParser {
            index: 1,
            unknown_tconsts: UniqueStrings::new(),
            unknown_nconsts: UniqueStrings::new(),
        }
    }

    /// The number of the next row of a known movie (the index in error
    /// messages).
    pub fn index(&self) -> (r: u64)
        ensures
            r == self.spec_index(),
    {
        self.index
    }

    /// Parses one row. A title without a movie id is remembered and gives
    /// nothing; otherwise its directors and writers are looked up in
    /// `person_ids`, those without a person id are remembered, and the row
    /// counter advances.
    pub fn parse(
        &mut self,
        record: &TitleCrew,
        movie_ids: &IdTable<u64>,
        person_ids: &IdTable<u64>,
    ) -> (rows: Option<CrewRows>)
        requires
            old(self).wf(),
            old(self).spec_index() < u64::MAX,
        ensures
            final(self).wf(),
            !movie_ids@.contains_key(record.tconst@) ==> {
                &&& rows is None
                &&& final(self).spec_index() == old(self).spec_index()
                &&& final(self).spec_unknown_tconsts() == insert_unique(
                    old(self).spec_unknown_tconsts(),
                    record.tconst@,
                )
                &&& final(self).spec_unknown_nconsts() == old(self).spec_unknown_nconsts()
            },
            movie_ids@.contains_key(record.tconst@) ==> {
                let movie_id = movie_ids@[record.tconst@];
                &&& rows matches Some(r) && {
                    &&& r.directors@ == director_rows(
                        movie_id,
                        known_ids(person_ids@, director_fields(*record)),
                    )
                    &&& r.writers@ == writer_rows(
                        movie_id,
                        known_ids(person_ids@, writer_fields(*record)),
                    )
                    &&& r.flush == (old(self).spec_index() % FLUSH_EVERY == 0)
                }
                &&& final(self).spec_index() == old(self).spec_index() + 1
                &&& final(self).spec_unknown_tconsts() == old(self).spec_unknown_tconsts()
                &&& final(self).spec_unknown_nconsts() == insert_all_unique(
                    insert_all_unique(
                        old(self).spec_unknown_nconsts(),
                        unknown_keys(person_ids@, director_fields(*record)),
                    ),
                    unknown_keys(person_ids@, writer_fields(*record)),
                )
            },
    {
        let movie_id = match movie_ids.get(record.tconst.as_str()) {
            Some(id) => id,
            None => {
                self.unknown_tconsts.insert(record.tconst.clone());
                return None;
            },
        };
        let director_names = split_fields(record.directors.as_str(), ',');
        let director_ids = resolve_ids(person_ids, &director_names, &mut self.unknown_nconsts);
        let writer_names = split_fields(record.writers.as_str(), ',');
        let writer_ids = resolve_ids(person_ids, &writer_names, &mut self.unknown_nconsts);

        let mut directors: Vec<CrewsDirectors> = Vec::new();
        let n = director_ids.len();
        let mut i: usize = 0;
        while i < n
            invariant
                n == director_ids@.len(),
                i <= n,
                directors@ == director_rows(movie_id, director_ids@.take(i as int)),
            decreases n - i,
        {
            directors.push(CrewsDirectors { movie_id, person_id: director_ids[i] });
            assert(directors@ =~= director_rows(movie_id, director_ids@.take(i + 1)));
            i = i + 1;
        }
        assert(director_ids@.take(n as int) =~= director_ids@);

        let mut writers: Vec<CrewsWriters> = Vec::new();
        let m = writer_ids.len();
        let mut j: usize = 0;
        while j < m
            invariant
                m == writer_ids@.len(),
                j <= m,
                writers@ == writer_rows(movie_id, writer_ids@.take(j as int)),
            decreases m - j,
        {
            writers.push(CrewsWriters { movie_id, person_id: writer_ids[j] });
            assert(writers@ =~= writer_rows(movie_id, writer_ids@.take(j + 1)));
            j = j + 1;
        }
        assert(writer_ids@.take(m as int) =~= writer_ids@);

        let index = self.index;
        self.index = index + 1;
        Some(CrewRows { directors, writers, flush: index % FLUSH_EVERY == 0 })
    }

    /// The titles and the persons that had no id.
    pub fn finish(&self) -> (r: CrewSummary)
        requires
            self.wf(),
        ensures
            views(r.unknown_tconsts@) == self.spec_unknown_tconsts(),
            views(r.unknown_nconsts@) == self.spec_unknown_nconsts(),
    {
        CrewSummary {
            unknown_tconsts: clone_all(self.unknown_tconsts.items()),
            unknown_nconsts: clone_all(self.unknown_nconsts.items()),
        }
    }
}

/// A movie gets one director row and one writer row per person id, in
/// order, each with the movie's id.
pub proof fn lemma_crew_rows(movie_id: u64, directors: Seq<u64>, writers: Seq<u64>)
    ensures
        director_rows(movie_id, directors).len() == directors.len(),
        forall|k: int|
            0 <= k < directors.len() ==> #[trigger] director_rows(movie_id, directors)[k].movie_id
                == movie_id && director_rows(movie_id, directors)[k].person_id == directors[k],
        writer_rows(movie_id, writers).len() == writers.len(),
        forall|k: int|
            0 <= k < writers.len() ==> #[trigger] writer_rows(movie_id, writers)[k].movie_id
                == movie_id && writer_rows(movie_id, writers)[k].person_id == writers[k],
{
}

} // verus!
