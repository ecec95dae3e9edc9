//! Principals: the `title.principals` dump (who worked on each title, in
//! which category and as which character).
use vstd::prelude::*;
use vstd::string::StringSliceAdditionalSpecFns;
use vstd::utf8::{
    decode_utf8, encode_utf8, encode_utf8_decode_utf8, encode_utf8_valid_utf8, is_char_boundary,
    decode_utf8_encode_utf8, is_char_boundary_iff_not_is_continuation_byte, valid_utf8_split,
};

use crate::models::movies::{with_header, FLUSH_EVERY};
use crate::registry::{insert_unique, IdTable, UniqueStrings};
use crate::text::{
    clone_all, is_null_marker, lemma_without_char_is_filter, null_marker, remove_char, views,
    without_char,
};

verus! {

/// A row of `title.principals`.
#[derive(Clone, Debug, PartialEq, Eq)]
pub struct TitlePrincipals {
    /// tconst (string) - alphanumeric unique identifier of the title
    pub tconst: String,
    /// ordering (integer) – a number to uniquely identify rows for a given titleId
    pub ordering: u16,
    /// nconst (string) - alphanumeric unique identifier of the name/person
    pub nconst: String,
    /// category (string) - the category of job that person was in
    pub category: String,
    /// job (string) - the specific job title if applicable, else '\N'
    pub job: String,
    /// characters (string) - the name of the character played if applicable, else '\N'
    pub characters: String,
}

/// A principal of a movie, by ids.
#[derive(Clone, Debug, PartialEq, Eq)]
pub struct Principals {
    pub movie_id: u64,
    pub ordering: u16,
    pub person_id: u64,
    /// The id of the row's category, as a profession.
    pub profession_id: u16,
    pub job: String,
    pub characters: String,
}

// ---------------------------------------------------------------------------
// The characters field
// ---------------------------------------------------------------------------

/// Whether a characters field is unwrapped: it is not `\N` and its UTF-8
/// encoding has at least four bytes.
pub open spec fn is_unwrapped(s: Seq<char>) -> bool {
    s != null_marker() && encode_utf8(s).len() >= 4
}

/// Whether unwrapping can cut a characters field: its bytes 2 and
/// `len - 2` start characters. (Cutting elsewhere panics.)
pub open spec fn can_unwrap(s: Seq<char>) -> bool {
    is_unwrapped(s) ==> {
        let b = encode_utf8(s);
        &&& is_char_boundary(b, 2)
        &&& is_char_boundary(b, b.len() - 2)
    }
}

/// A characters field as a row records it: a field such as `["Hal"]` loses
/// its first two and last two bytes and then every backslash; `\N` and
/// fields shorter than four bytes stay as they are.
pub open spec fn unwrapped_characters(s: Seq<char>) -> Seq<char> {
    if is_unwrapped(s) {
        let b = encode_utf8(s);
        without_char(decode_utf8(b.subrange(2, b.len() - 2)), '\\')
    } else {
        s
    }
}

/// Unwrapping keeps a short field or `\N` as it is; otherwise it gives the
/// text between the first two and the last two bytes with every backslash
/// dropped and every other character kept in order, so the result holds no
/// backslash.
pub proof fn lemma_unwrapped_characters(s: Seq<char>)
    requires
        can_unwrap(s),
    ensures
        !is_unwrapped(s) ==> unwrapped_characters(s) == s,
        is_unwrapped(s) ==> exists|inner: Seq<char>|
            {
                let b = encode_utf8(s);
                &&& #[trigger] encode_utf8(inner) == b.subrange(2, b.len() - 2)
                &&& unwrapped_characters(s) == inner.filter(|c: char| c != '\\')
            },
        is_unwrapped(s) ==> !unwrapped_characters(s).contains('\\'),
{
    if is_unwrapped(s) {
        let b = encode_utf8(s);
        let n = b.len() as int;
        encode_utf8_valid_utf8(s);
        valid_utf8_split(b, 2);
        let rb = b.subrange(2, n);
        if n - 4 > 0 {
            is_char_boundary_iff_not_is_continuation_byte(rb, n - 4);
            is_char_boundary_iff_not_is_continuation_byte(b, n - 2);
            assert(rb[n - 4] == b[n - 2]);
        }
        valid_utf8_split(rb, n - 4);
        let mid = b.subrange(2, n - 2);
        assert(rb.subrange(0, n - 4) =~= mid);
        decode_utf8_encode_utf8(mid);
        let inner = decode_utf8(mid);
        lemma_without_char_is_filter(inner, '\\');
        assert(encode_utf8(inner) == b.subrange(2, b.len() - 2));
    }
}

/// Whether `characters` can be unwrapped without cutting a character.
pub fn characters_can_unwrap(characters: &str) -> (r: bool)
    ensures
        r == can_unwrap(characters@),
{
    let n = characters.as_bytes().len();
    if is_null_marker(characters) || n < 4 {
        true
    } else {
        characters.is_char_boundary(2) && characters.is_char_boundary(n - 2)
    }
}

/// The characters field as a row records it.
pub fn unwrap_characters(characters: &str) -> (r: String)
    requires
        can_unwrap(characters@),
    ensures
        r@ == unwrapped_characters(characters@),
{
    let n = characters.as_bytes().len();
    let ghost b = encode_utf8(characters@);
    if !is_null_marker(characters) && n >= 4 {
        proof {
            encode_utf8_valid_utf8(characters@);
        }
        let (_, rest) = characters.split_at(2);
        let ghost rb = b.subrange(2, b.len() as int);
        proof {
            valid_utf8_split(b, 2);
            assert(rest.spec_bytes() == rb);
            if n - 4 > 0 {
                is_char_boundary_iff_not_is_continuation_byte(rb, n - 4);
                is_char_boundary_iff_not_is_continuation_byte(b, n - 2);
                assert(rb[n - 4] == b[n - 2]);
            }
        }
        let (mid, _) = rest.split_at(n - 4);
        proof {
            assert(mid.spec_bytes() =~= b.subrange(2, b.len() - 2));
            encode_utf8_decode_utf8(mid@);
        }
        remove_char(mid, '\\')
    } else {
        characters.to_owned()
    }
}

// ---------------------------------------------------------------------------
// The parse
// ---------------------------------------------------------------------------

/// What one `title.principals` row with known ids gives.
pub struct PrincipalRows {
    pub principal: Principals,
    /// Whether the writer is flushed after this row.
    pub flush: bool,
}

/// What a finished `title.principals` parse gives besides its rows.
pub struct PrincipalSummary {
    /// The header `uniqueJob`, then the distinct jobs.
    pub jobs: Vec<String>,
    /// The header `uniqueCharacters`, then the distinct unwrapped characters.
    pub characters: Vec<String>,
    /// The titles without a movie id, each once.
    pub unknown_tconsts: Vec<String>,
    /// The persons without a person id, each once.
    pub unknown_nconsts: Vec<String>,
    /// The categories without a profession id, each once.
    pub unknown_professions: Vec<String>,
}

/// The state of a parse of `title.principals`: the counter of rows written,
/// the jobs and characters seen, and the titles, persons and categories that
/// had no id.
pub struct PrincipalParser {
    index: u64,
    jobs: UniqueStrings,
    characters: UniqueStrings,
    unknown_tconsts: UniqueStrings,
    unknown_nconsts: UniqueStrings,
    unknown_professions: UniqueStrings,
}

/// The ids a row needs: its title, its person and its category are known.
pub open spec fn has_ids(
    record: TitlePrincipals,
    movie_ids: Map<Seq<char>, u64>,
    person_ids: Map<Seq<char>, u64>,
    profession_ids: Map<Seq<char>, u16>,
) -> bool {
    &&& movie_ids.contains_key(record.tconst@)
    &&& person_ids.contains_key(record.nconst@)
    &&& profession_ids.contains_key(record.category@)
}

impl PrincipalParser {
    pub closed spec fn wf(&self) -> bool {
        &&& self.jobs.wf()
        &&& self.characters.wf()
        &&& self.unknown_tconsts.wf()
        &&& self.unknown_nconsts.wf()
        &&& self.unknown_professions.wf()
    }

    pub closed spec fn spec_index(&self) -> u64 {
        self.index
    }

    pub closed spec fn spec_jobs(&self) -> Seq<Seq<char>> {
        self.jobs@
    }

    pub closed spec fn spec_characters(&self) -> Seq<Seq<char>> {
        self.characters@
    }

    pub closed spec fn spec_unknown_tconsts(&self) -> Seq<Seq<char>> {
        self.unknown_tconsts@
    }

    pub closed spec fn spec_unknown_nconsts(&self) -> Seq<Seq<char>> {
        self.unknown_nconsts@
    }

    pub closed spec fn spec_unknown_professions(&self) -> Seq<Seq<char>> {
        self.unknown_professions@
    }

    /// Whether `record` can be parsed: the counter has room, and a row that
    /// is written can have its characters unwrapped.
    pub open spec fn can_take(
        &self,
        record: TitlePrincipals,
        movie_ids: Map<Seq<char>, u64>,
        person_ids: Map<Seq<char>, u64>,
        profession_ids: Map<Seq<char>, u16>,
    ) -> bool {
        &&& self.spec_index() < u64::MAX
        &&& has_ids(record, movie_ids, person_ids, profession_ids) ==> can_unwrap(
            record.characters@,
        )
    }

    /// A parse that has read nothing yet.
    pub fn new() -> (r: Self)
        ensures
            r.wf(),
            r.spec_index() == 1,
            r.spec_jobs() == Seq::<Seq<char>>::empty(),
            r.spec_characters() == Seq::<Seq<char>>::empty(),
            r.spec_unknown_tconsts() == Seq::<Seq<char>>::empty(),
            r.spec_unknown_nconsts() == Seq::<Seq<char>>::empty(),
            r.spec_unknown_professions() == Seq::<Seq<char>>::empty(),
    {
        PrincipalParser {
            index: 1,
            jobs: UniqueStrings::new(),
            characters: UniqueStrings::new(),
            unknown_tconsts: UniqueStrings::new(),
            unknown_nconsts: UniqueStrings::new(),
            unknown_professions: UniqueStrings::new(),
        }
    }

    /// The row counter (the index in error messages).
    pub fn index(&self) -> (r: u64)
        ensures
            r == self.spec_index(),
    {
        self.index
    }

    /// Whether `record` can be parsed without overflow or a cut character.
    pub fn can_parse(
        &self,
        record: &TitlePrincipals,
        movie_ids: &IdTable<u64>,
        person_ids: &IdTable<u64>,
        profession_ids: &IdTable<u16>,
    ) -> (r: bool)
        ensures
            r == self.can_take(*record, movie_ids@, person_ids@, profession_ids@),
    {
        if self.index == u64::MAX {
            return false;
        }
        let known = movie_ids.get(record.tconst.as_str()).is_some() && person_ids.get(
            record.nconst.as_str(),
        ).is_some() && profession_ids.get(record.category.as_str()).is_some();
        !known || characters_can_unwrap(record.characters.as_str())
    }

    /// Parses one row. Its title, person and category are looked up in turn;
    /// the first that has no id is remembered and the row gives nothing.
    /// Otherwise the row is written with the three ids and its characters
    /// unwrapped, its job and characters are remembered, and the counter
    /// advances.
    pub fn parse(
        &mut self,
        record: &TitlePrincipals,
        movie_ids: &IdTable<u64>,
        person_ids: &IdTable<u64>,
        profession_ids: &IdTable<u16>,
    ) -> (rows: Option<PrincipalRows>)
        requires
            old(self).wf(),
            old(self).can_take(*record, movie_ids@, person_ids@, profession_ids@),
        ensures
            final(self).wf(),
            !movie_ids@.contains_key(record.tconst@) ==> {
                &&& rows is None
                &&& final(self).spec_unknown_tconsts() == insert_unique(
                    old(self).spec_unknown_tconsts(),
                    record.tconst@,
                )
                &&& final(self).spec_unknown_nconsts() == old(self).spec_unknown_nconsts()
                &&& final(self).spec_unknown_professions() == old(
                    self,
                ).spec_unknown_professions()
            },
            movie_ids@.contains_key(record.tconst@) && !person_ids@.contains_key(record.nconst@)
                ==> {
                &&& rows is None
                &&& final(self).spec_unknown_tconsts() == old(self).spec_unknown_tconsts()
                &&& final(self).spec_unknown_nconsts() == insert_unique(
                    old(self).spec_unknown_nconsts(),
                    record.nconst@,
                )
                &&& final(self).spec_unknown_professions() == old(
                    self,
                ).spec_unknown_professions()
            },
            movie_ids@.contains_key(record.tconst@) && person_ids@.contains_key(record.nconst@)
                && !profession_ids@.contains_key(record.category@) ==> {
                &&& rows is None
                &&& final(self).spec_unknown_tconsts() == old(self).spec_unknown_tconsts()
                &&& final(self).spec_unknown_nconsts() == old(self).spec_unknown_nconsts()
                &&& final(self).spec_unknown_professions() == insert_unique(
                    old(self).spec_unknown_professions(),
                    record.category@,
                )
            },
            !has_ids(*record, movie_ids@, person_ids@, profession_ids@) ==> {
                &&& final(self).spec_index() == old(self).spec_index()
                &&& final(self).spec_jobs() == old(self).spec_jobs()
                &&& final(self).spec_characters() == old(self).spec_characters()
            },
            has_ids(*record, movie_ids@, person_ids@, profession_ids@) ==> {
                &&& rows matches Some(r) && {
                    &&& r.principal.movie_id == movie_ids@[record.tconst@]
                    &&& r.principal.ordering == record.ordering
                    &&& r.principal.person_id == person_ids@[record.nconst@]
                    &&& r.principal.profession_id == profession_ids@[record.category@]
                    &&& r.principal.job@ == record.job@
                    &&& r.principal.characters@ == unwrapped_characters(record.characters@)
                    &&& r.flush == (old(self).spec_index() % FLUSH_EVERY == 0)
                }
                &&& final(self).spec_index() == old(self).spec_index() + 1
                &&& final(self).spec_jobs() == insert_unique(old(self).spec_jobs(), record.job@)
                &&& final(self).spec_characters() == insert_unique(
                    old(self).spec_characters(),
                    unwrapped_characters(record.characters@),
                )
                &&& final(self).spec_unknown_tconsts() == old(self).spec_unknown_tconsts()
                &&& final(self).spec_unknown_nconsts() == old(self).spec_unknown_nconsts()
                &&& final(self).spec_unknown_professions() == old(
                    self,
                ).spec_unknown_professions()
            },
    {
        let movie_id = match movie_ids.get(record.tconst.as_str()) {
            Some(id) => id,
            None => {
                self.unknown_tconsts.insert(record.tconst.clone());
                return None;
            },
        };
        let person_id = match person_ids.get(record.nconst.as_str()) {
            Some(id) => id,
            None => {
                self.unknown_nconsts.insert(record.nconst.clone());
                return None;
            },
        };
        let profession_id = match profession_ids.get(record.category.as_str()) {
            Some(id) => id,
            None => {
                self.unknown_professions.insert(record.category.clone());
                return None;
            },
        };
        let characters = unwrap_characters(record.characters.as_str());
        self.jobs.insert(record.job.clone());
        self.characters.insert(characters.clone());
        let principal = Principals {
            movie_id,
            ordering: record.ordering,
            person_id,
            profession_id,
            job: record.job.clone(),
            characters,
        };
        let index = self.index;
        self.index = index + 1;
        Some(PrincipalRows { principal, flush: index % FLUSH_EVERY == 0 })
    }

    /// The jobs and characters under their headers, and the titles, persons
    /// and categories that had no id.
    pub fn finish(&self) -> (r: PrincipalSummary)
        requires
            self.wf(),
        ensures
            views(r.jobs@) == seq!["uniqueJob"@] + self.spec_jobs(),
            views(r.characters@) == seq!["uniqueCharacters"@] + self.spec_characters(),
            views(r.unknown_tconsts@) == self.spec_unknown_tconsts(),
            views(r.unknown_nconsts@) == self.spec_unknown_nconsts(),
            views(r.unknown_professions@) == self.spec_unknown_professions(),
    {
        let jobs = with_header("uniqueJob", self.jobs.items());
        let characters = with_header("uniqueCharacters", self.characters.items());
        PrincipalSummary {
            jobs,
            characters,
            unknown_tconsts: clone_all(self.unknown_tconsts.items()),
            unknown_nconsts: clone_all(self.unknown_nconsts.items()),
            unknown_professions: clone_all(self.unknown_professions.items()),
        }
    }
}

} // verus!
