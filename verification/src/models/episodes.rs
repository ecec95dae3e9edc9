//! Episodes: the `title.episode` dump (which show each episode belongs to).
use vstd::prelude::*;

use crate::models::movies::FLUSH_EVERY;
use crate::registry::{insert_all_unique, IdTable, UniqueStrings};
use crate::text::{clone_all, views};

verus! {

/// A row of `title.episode`.
#[derive(Clone, Debug, PartialEq, Eq)]
pub struct TitleEpisode {
    ///tconst (string) - alphanumeric identifier of episode
    pub tconst: String,
    ///parentTconst (string) - alphanumeric identifier of the parent TV Series
    pub parent_tconst: String,
    ///seasonNumber (integer) – season number the episode belongs to
    pub season_number: String,
    ///episodeNumber (integer) – episode number of the tconst in the TV series
    pub episode_number: String,
}

/// An episode of a show, by IMDb ids.
#[derive(Clone, Debug, PartialEq, Eq)]
pub struct Shows {
    pub show_imdb_id: u64,
    pub episode_imdb_id: u64,
    pub season_number: String,
    pub episode_number: String,
}

/// What one `title.episode` row with a known title gives.
pub struct EpisodeRows {
    pub show: Shows,
    /// Whether the writer is flushed after this row.
    pub flush: bool,
}

/// What a finished `title.episode` parse gives besides its rows.
pub struct EpisodeSummary {
    /// The shows and episodes without an IMDb id, each once.
    pub unknown_tconsts: Vec<String>,
}

/// The keys of a row without an IMDb id: its parent's first, then its own.
pub open spec fn missing_keys(ids: Map<Seq<char>, u64>, record: TitleEpisode) -> Seq<Seq<char>> {
    (if ids.contains_key(record.parent_tconst@) {
        Seq::<Seq<char>>::empty()
    } else {
        seq![record.parent_tconst@]
    }) + (if ids.contains_key(record.tconst@) {
        Seq::<Seq<char>>::empty()
    } else {
        seq![record.tconst@]
    })
}

/// The state of a parse of `title.episode`: the row counter (it advances by
/// two for every row written) and the shows and episodes without an IMDb id.
pub struct EpisodeParser {
    index: u64,
    unknown_tconsts: UniqueStrings,
}

impl EpisodeParser {
    pub closed spec fn wf(&self) -> bool {
        self.unknown_tconsts.wf()
    }

    pub closed spec fn spec_index(&self) -> u64 {
        self.index
    }

    pub closed spec fn spec_unknown_tconsts(&self) -> Seq<Seq<char>> {
        self.unknown_tconsts@
    }

    /// A parse that has read nothing yet.
    pub fn new() -> (r: Self)
        ensures
            r.wf(),
            r.spec_index() == 1,
            r.spec_unknown_tconsts() == Seq::<Seq<char>>::empty(),
    {
        EpisodeParser { index: 1, unknown_tconsts: UniqueStrings::new() }
    }

    /// The row counter (the index in error messages).
    pub fn index(&self) -> (r: u64)
        ensures
            r == self.spec_index(),
    {
        self.index
    }

    /// Parses one row. The show is looked up by `parentTconst` and the
    /// episode by `tconst`. If either has no IMDb id, the row gives nothing
    /// and each missing key is remembered (the parent's first). Otherwise the
    /// row is written with both ids and the counter advances by two; the
    /// writer is flushed when either counter value passed is a multiple of
    /// the flush interval.
    pub fn parse(&mut self, record: &TitleEpisode, ids: &IdTable<u64>) -> (rows: Option<
        EpisodeRows,
    >)
        requires
            old(self).wf(),
            old(self).spec_index() < u64::MAX - 1,
        ensures
            final(self).wf(),
            !(ids@.contains_key(record.parent_tconst@) && ids@.contains_key(record.tconst@)) ==> {
                &&& rows is None
                &&& final(self).spec_index() == old(self).spec_index()
                &&& final(self).spec_unknown_tconsts() == insert_all_unique(
                    old(self).spec_unknown_tconsts(),
                    missing_keys(ids@, *record),
                )
            },
            ids@.contains_key(record.parent_tconst@) && ids@.contains_key(record.tconst@) ==> {
                &&& rows matches Some(r) && {
                    &&& r.show.show_imdb_id == ids@[record.parent_tconst@]
                    &&& r.show.episode_imdb_id == ids@[record.tconst@]
                    &&& r.show.season_number@ == record.season_number@
                    &&& r.show.episode_number@ == record.episode_number@
                    &&& r.flush == (old(self).spec_index() % FLUSH_EVERY == 0 || (old(
                        self,
                    ).spec_index() + 1) % FLUSH_EVERY as int == 0)
                }
                &&& final(self).spec_index() == old(self).spec_index() + 2
                &&& final(self).spec_unknown_tconsts() == old(self).spec_unknown_tconsts()
            },
    {
        let show = ids.get(record.parent_tconst.as_str());
        let episode = ids.get(record.tconst.as_str());
        match (show, episode) {
            (Some(show_imdb_id), Some(episode_imdb_id)) => {
                let show = Shows {
                    show_imdb_id,
                    episode_imdb_id,
                    season_number: record.season_number.clone(),
                    episode_number: record.episode_number.clone(),
                };
                let index = self.index;
                let flush = index % FLUSH_EVERY == 0 || (index + 1) % FLUSH_EVERY == 0;
                self.index = index + 2;
                Some(EpisodeRows { show, flush })
            },
            _ => {
                let ghost before = self.unknown_tconsts@;
                if show.is_none() {
                    self.unknown_tconsts.insert(record.parent_tconst.clone());
                }
                let ghost mid = self.unknown_tconsts@;
                if episode.is_none() {
                    self.unknown_tconsts.insert(record.tconst.clone());
                }
                proof {
                    let m = missing_keys(ids@, *record);
                    let e = Seq::<Seq<char>>::empty();
                    if show.is_none() && episode.is_none() {
                        assert(m =~= seq![record.parent_tconst@, record.tconst@]);
                        assert(m.drop_last() =~= seq![record.parent_tconst@]);
                        assert(m.drop_last().drop_last() =~= e);
                        assert(insert_all_unique(before, m.drop_last().drop_last()) == before);
                        assert(m.drop_last().last() == record.parent_tconst@);
                        assert(insert_all_unique(before, m.drop_last()) == mid);
                        assert(m.last() == record.tconst@);
                    } else if show.is_none() {
                        assert(m =~= seq![record.parent_tconst@]);
                        assert(m.drop_last() =~= e);
                        assert(insert_all_unique(before, m.drop_last()) == before);
                        assert(m.last() == record.parent_tconst@);
                    } else {
                        assert(m =~= seq![record.tconst@]);
                        assert(m.drop_last() =~= e);
                        assert(insert_all_unique(before, m.drop_last()) == before);
                        assert(m.last() == record.tconst@);
                        assert(mid == before);
                    }
                }
                None
            },
        }
    }

    /// The titles without an IMDb id.
    pub fn finish(&self) -> (r: EpisodeSummary)
        requires
            self.wf(),
        ensures
            views(r.unknown_tconsts@) == self.spec_unknown_tconsts(),
    {
        EpisodeSummary { unknown_tconsts: clone_all(self.unknown_tconsts.items()) }
    }
}

} // verus!
