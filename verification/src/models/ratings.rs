//! Ratings: the `title.ratings` dump. The rating itself is a float and is
//! carried by the caller; the library decides which movie each row belongs
//! to.
use vstd::prelude::*;

use crate::models::movies::FLUSH_EVERY;
use crate::registry::{insert_unique, IdTable, UniqueStrings};
use crate::text::{clone_all, views};

verus! {

/// The decision for one `title.ratings` row.
pub struct RatingDecision {
    /// The movie id of the row's title, if it has one; the row is written
    /// only then.
    pub movie_id: Option<u64>,
    /// Whether the writer is flushed after this row.
    pub flush: bool,
}

/// What a finished `title.ratings` parse gives besides its rows.
pub struct RatingSummary {
    /// The titles without a movie id, each once.
    pub unknown_tconsts: Vec<String>,
}

/// The state of a parse of `title.ratings`: the row counter and the titles
/// without a movie id.
pub struct RatingParser {
    index: u64,
    unknown_tconsts: UniqueStrings,
}

impl RatingParser {
    pub closed spec fn wf(&self) -> bool {
        self.unknown_tconsts.wf()
    }

    pub closed spec fn spec_index(&self) -> u64 {
        self.index
    }

    pub closed spec fn spec_unknown_tconsts(&self) -> Seq<Seq<char>> {
        self.unknown_tconsts@
    }

    /// A parse that has read nothing yet.
    pub fn new() -> (r: Self)
        ensures
            r.wf(),
            r.spec_index() == 1,
            r.spec_unknown_tconsts() == Seq::<Seq<char>>::empty(),
    {
        RatingParser { index: 1, unknown_tconsts: UniqueStrings::new() }
    }

    /// The row counter (the index in error messages).
    pub fn index(&self) -> (r: u64)
        ensures
            r == self.spec_index(),
    {
        self.index
    }

    /// Decides one row by its `tconst`: the movie id if the title has one,
    /// otherwise the title is remembered. The counter advances either way.
    pub fn parse(&mut self, tconst: &str, movie_ids: &IdTable<u64>) -> (d: RatingDecision)
        requires
            old(self).wf(),
            old(self).spec_index() < u64::MAX,
        ensures
            final(self).wf(),
            final(self).spec_index() == old(self).spec_index() + 1,
            d.flush == (old(self).spec_index() % FLUSH_EVERY == 0),
            movie_ids@.contains_key(tconst@) ==> {
                &&& d.movie_id == Some(movie_ids@[tconst@])
                &&& final(self).spec_unknown_tconsts() == old(self).spec_unknown_tconsts()
            },
            !movie_ids@.contains_key(tconst@) ==> {
                &&& d.movie_id is None
                &&& final(self).spec_unknown_tconsts() == insert_unique(
                    old(self).spec_unknown_tconsts(),
                    tconst@,
                )
            },
    {
        let movie_id = movie_ids.get(tconst);
        if movie_id.is_none() {
            self.unknown_tconsts.insert(tconst.to_owned());
        }
        let index = self.index;
        self.index = index + 1;
        RatingDecision { movie_id, flush: index % FLUSH_EVERY == 0 }
    }

    /// The titles without a movie id.
    pub fn finish(&self) -> (r: RatingSummary)
        requires
            self.wf(),
        ensures
            views(r.unknown_tconsts@) == self.spec_unknown_tconsts(),
    {
        RatingSummary { unknown_tconsts: clone_all(self.unknown_tconsts.items()) }
    }
}

} // verus!
