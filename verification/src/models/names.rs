//! People: the `name.basics` dump (persons, their ids, professions and the
//! titles they are known for).
use vstd::prelude::*;

use crate::models::movies::{comma, FLUSH_EVERY};
use crate::registry::{
    field_ids, fresh_names, insert_all_unique, known_ids, map_from_pairs, resolve_ids,
    unknown_keys, IdRegistry, IdTable, UniqueStrings, MAX_REGISTERED,
};
use crate::text::{clone_all, split_fields, split_on, views};

verus! {

/// A row of `name.basics`.
#[derive(Clone, Debug, PartialEq, Eq)]
pub struct NameBasic {
    /// nconst (string) - alphanumeric unique identifier of the name/person
    pub nconst: String,
    /// primaryName (string)– name by which the person is most often credited
    pub primary_name: String,
    /// birthYear – in YYYY format
    pub birth_year: String,
    /// deathYear – in YYYY format if applicable, else '\N'
    pub death_year: String,
    /// primaryProfession (array of strings)– the top-3 professions of the person
    pub primary_profession: String,
    /// knownForTitles (array of tconsts) – titles the person is known for
    pub known_for_titles: String,
}

/// A person with a numeric id.
#[derive(Clone, Debug, PartialEq, Eq)]
pub struct Person {
    pub id: u64,
    /// primaryName (string)– name by which the person is most often credited
    pub primary_name: String,
    /// birthYear – in YYYY format
    pub birth_year: String,
    /// deathYear – in YYYY format if applicable, else '\N'
    pub death_year: String,
}

/// The numeric id given to an `nconst`.
#[derive(Clone, Debug, PartialEq, Eq)]
pub struct PersonNconst {
    pub person_id: u64,
    /// nconst (string) - alphanumeric unique identifier of the name/person
    pub nconst: String,
}

/// A profession and its id.
#[derive(Clone, Debug, PartialEq, Eq)]
pub struct Profession {
    pub profession_id: u16,
    pub profession: String,
}

/// A link from a person to one of their professions.
#[derive(Clone, Debug, PartialEq, Eq)]
pub struct PersonProfession {
    pub person_id: u64,
    pub profession_id: u16,
}

/// A link from a person to a movie they are known for.
#[derive(Clone, Debug, PartialEq, Eq)]
pub struct PersoinKnowForMovie {
    pub person_id: u64,
    pub movie_id: u64,
}

/// A row of the person id file that parsing `name.basics` writes.
#[derive(Clone, Debug, PartialEq, Eq)]
pub struct ImdbNameIdSized {
    pub person_id: u64,
    /// nconst (string) - alphanumeric unique identifier of the name/person
    pub nconst: String,
}

/// A row of the profession file that parsing `name.basics` writes.
#[derive(Clone, Debug, PartialEq, Eq)]
pub struct ProfessionIdSized {
    pub profession_id: u16,
    pub profession: String,
}

/// The profession that every parse numbers first, with id 1.
pub open spec fn self_profession() -> Seq<char> {
    seq!['s', 'e', 'l', 'f']
}

/// The entries of the `primaryProfession` field of a row.
pub open spec fn profession_fields(record: NameBasic) -> Seq<Seq<char>> {
    split_on(record.primary_profession@, comma())
}

/// The entries of the `knownForTitles` field of a row.
pub open spec fn known_for_fields(record: NameBasic) -> Seq<Seq<char>> {
    split_on(record.known_for_titles@, comma())
}

/// What one `name.basics` row gives.
pub struct NameBasicRows {
    pub person: Person,
    pub nconst: PersonNconst,
    /// One link per profession entry that is not `\N`.
    pub professions: Vec<PersonProfession>,
    /// One link per known-for title that has a movie id.
    pub known_for: Vec<PersoinKnowForMovie>,
    /// Whether the writers are flushed after this row.
    pub flush: bool,
}

/// What a finished `name.basics` parse gives besides its rows.
pub struct NameBasicSummary {
    /// The professions in id order.
    pub professions: Vec<Profession>,
    /// The known-for titles that had no movie id, each once.
    pub unknown_tconsts: Vec<String>,
}

/// The state of a parse of `name.basics`: the next person id, the
/// professions numbered so far (`self` first), and the known-for titles that
/// had no movie id.
pub struct NameBasicParser {
    next_person_id: u64,
    professions: IdRegistry,
    unknown_tconsts: UniqueStrings,
}

/// The person links of a row: the person id with each profession id.
pub open spec fn profession_links(id: u64, ids: Seq<u16>) -> Seq<PersonProfession> {
    ids.map_values(|p: u16| PersonProfession { person_id: id, profession_id: p })
}

/// The known-for links of a row: the person id with each movie id.
pub open spec fn known_for_links(id: u64, ids: Seq<u64>) -> Seq<PersoinKnowForMovie> {
    ids.map_values(|m: u64| PersoinKnowForMovie { person_id: id, movie_id: m })
}

impl NameBasicParser {
    pub closed spec fn wf(&self) -> bool {
        &&& self.professions.wf()
        &&& self.unknown_tconsts.wf()
        &&& self.next_person_id >= 1
    }

    /// The id that the next row gets.
    pub closed spec fn spec_next_id(&self) -> u64 {
        self.next_person_id
    }

    /// The professions numbered so far; the one at position `k` has id
    /// `k + 1`.
    pub closed spec fn spec_professions(&self) -> Seq<Seq<char>> {
        self.professions@
    }

    /// The known-for titles without a movie id seen so far.
    pub closed spec fn spec_unknown_tconsts(&self) -> Seq<Seq<char>> {
        self.unknown_tconsts@
    }

    /// Whether `record` can be parsed: the id counter and the profession
    /// counter both have room for it.
    pub open spec fn has_room(&self, record: NameBasic) -> bool {
        &&& self.spec_next_id() < u64::MAX
        &&& self.spec_professions().len() + fresh_names(
            self.spec_professions(),
            profession_fields(record),
        ).len() <= MAX_REGISTERED
    }

    /// A parse that has read nothing yet; `self` is profession 1.
    pub fn new() -> (r: Self)
        ensures
            r.wf(),
            r.spec_next_id() == 1,
            r.spec_professions() == seq![self_profession()],
            r.spec_unknown_tconsts() == Seq::<Seq<char>>::empty(),
    {
        let mut professions = IdRegistry::new();
        proof {
            reveal_strlit("self");
            assert("self"@ =~= self_profession());
        }
        professions.register("self".to_owned());
        assert(professions@ =~= seq![self_profession()]);
        NameBasicParser {
            next_person_id: 1,
            professions,
            unknown_tconsts: UniqueStrings::new(),
        }
    }

    /// The id that the next row gets (also the index in error messages).
    pub fn next_person_id(&self) -> (r: u64)
        ensures
            r == self.spec_next_id(),
    {
        self.next_person_id
    }

    /// Whether `record` can be parsed without running out of ids.
    pub fn can_parse(&self, record: &NameBasic) -> (r: bool)
        requires
            self.wf(),
        ensures
            r == self.has_room(*record),
    {
        if self.next_person_id == u64::MAX {
            return false;
        }
        let fields = split_fields(record.primary_profession.as_str(), ',');
        let fresh = self.professions.count_fresh(&fields);
        fresh <= MAX_REGISTERED && self.professions.len() <= MAX_REGISTERED - fresh
    }

    /// Parses one row: the person gets the next id, their new professions
    /// are numbered, and their known-for titles are looked up in
    /// `movie_ids`; titles without a movie id are remembered.
    pub fn parse(&mut self, record: &NameBasic, movie_ids: &IdTable<u64>) -> (rows:
        NameBasicRows)
        requires
            old(self).wf(),
            old(self).has_room(*record),
        ensures
            final(self).wf(),
            final(self).spec_next_id() == old(self).spec_next_id() + 1,
            final(self).spec_professions() == old(self).spec_professions() + fresh_names(
                old(self).spec_professions(),
                profession_fields(*record),
            ),
            final(self).spec_unknown_tconsts() == insert_all_unique(
                old(self).spec_unknown_tconsts(),
                unknown_keys(movie_ids@, known_for_fields(*record)),
            ),
            rows.person.id == old(self).spec_next_id(),
            rows.person.primary_name@ == record.primary_name@,
            rows.person.birth_year@ == record.birth_year@,
            rows.person.death_year@ == record.death_year@,
            rows.nconst.person_id == old(self).spec_next_id(),
            rows.nconst.nconst@ == record.nconst@,
            rows.professions@ == profession_links(
                old(self).spec_next_id(),
                field_ids(final(self).spec_professions(), profession_fields(*record)),
            ),
            rows.known_for@ == known_for_links(
                old(self).spec_next_id(),
                known_ids(movie_ids@, known_for_fields(*record)),
            ),
            rows.flush == (old(self).spec_next_id() % FLUSH_EVERY == 0),
    {
        let person_id = self.next_person_id;
        let person = Person {
            id: person_id,
            primary_name: record.primary_name.clone(),
            birth_year: record.birth_year.clone(),
            death_year: record.death_year.clone(),
        };
        let nconst = PersonNconst { person_id, nconst: record.nconst.clone() };
        let fields = split_fields(record.primary_profession.as_str(), ',');
        let profession_ids = self.professions.assign_ids(&fields);
        let mut professions: Vec<PersonProfession> = Vec::new();
        let n = profession_ids.len();
        let mut i: usize = 0;
        while i < n
            invariant
                n == profession_ids@.len(),
                i <= n,
                professions@ == profession_links(person_id, profession_ids@.take(i as int)),
            decreases n - i,
        {
            professions.push(PersonProfession { person_id, profession_id: profession_ids[i] });
            assert(professions@ =~= profession_links(person_id, profession_ids@.take(i + 1)));
            i = i + 1;
        }
        assert(profession_ids@.take(n as int) =~= profession_ids@);
        let titles = split_fields(record.known_for_titles.as_str(), ',');
        let movie_list = resolve_ids(movie_ids, &titles, &mut self.unknown_tconsts);
        let mut known_for: Vec<PersoinKnowForMovie> = Vec::new();
        let m = movie_list.len();
        let mut j: usize = 0;
        while j < m
            invariant
                m == movie_list@.len(),
                j <= m,
                known_for@ == known_for_links(person_id, movie_list@.take(j as int)),
            decreases m - j,
        {
            known_for.push(PersoinKnowForMovie { person_id, movie_id: movie_list[j] });
            assert(known_for@ =~= known_for_links(person_id, movie_list@.take(j + 1)));
            j = j + 1;
        }
        assert(movie_list@.take(m as int) =~= movie_list@);
        self.next_person_id = person_id + 1;
        NameBasicRows {
            person,
            nconst,
            professions,
            known_for,
            flush: person_id % FLUSH_EVERY == 0,
        }
    }

    /// The numbered professions and the known-for titles without a movie
    /// id.
    pub fn finish(&self) -> (r: NameBasicSummary)
        requires
            self.wf(),
        ensures
            r.professions@.len() == self.spec_professions().len(),
            forall|k: int|
                0 <= k < r.professions@.len() ==> #[trigger] r.professions@[k].profession_id == k
                    + 1 && r.professions@[k].profession@ == self.spec_professions()[k],
            views(r.unknown_tconsts@) == self.spec_unknown_tconsts(),
    {
        let names = self.professions.names();
        proof {
            self.professions.lemma_wf();
        }
        let mut professions: Vec<Profession> = Vec::new();
        let n = names.len();
        let mut i: usize = 0;
        while i < n
            invariant
                n == names@.len(),
                views(names@) == self.spec_professions(),
                self.spec_professions().len() <= MAX_REGISTERED,
                i <= n,
                professions@.len() == i,
                forall|k: int|
                    0 <= k < i ==> #[trigger] professions@[k].profession_id == k + 1
                        && professions@[k].profession@ == self.spec_professions()[k],
            decreases n - i,
        {
            assert(views(names@)[i as int] == names@[i as int]@);
            let profession = names[i].clone();
            professions.push(Profession { profession_id: (i + 1) as u16, profession });
            assert(professions@[i as int].profession@ == self.spec_professions()[i as int]);
            i = i + 1;
        }
        let unknown_tconsts = clone_all(self.unknown_tconsts.items());
        NameBasicSummary { professions, unknown_tconsts }
    }
}

/// The table from `nconst` to person id that the person id rows give; where
/// an `nconst` occurs more than once, its last row counts.
pub fn person_ids(rows: &Vec<ImdbNameIdSized>) -> (t: IdTable<u64>)
    ensures
        t@ == map_from_pairs(rows@.map_values(|r: ImdbNameIdSized| (r.nconst@, r.person_id))),
{
    let ghost pairs = rows@.map_values(|r: ImdbNameIdSized| (r.nconst@, r.person_id));
    let mut t: IdTable<u64> = IdTable::new();
    let n = rows.len();
    let mut i: usize = 0;
    while i < n
        invariant
            n == rows@.len(),
            pairs == rows@.map_values(|r: ImdbNameIdSized| (r.nconst@, r.person_id)),
            i <= n,
            t@ == map_from_pairs(pairs.take(i as int)),
        decreases n - i,
    {
        assert(pairs.take(i + 1).drop_last() =~= pairs.take(i as int));
        t.insert(rows[i].nconst.clone(), rows[i].person_id);
        i = i + 1;
    }
    assert(pairs.take(n as int) =~= pairs);
    t
}

/// The table from profession name to profession id that the profession rows
/// give; where a name occurs more than once, its last row counts.
pub fn profession_ids(rows: &Vec<ProfessionIdSized>) -> (t: IdTable<u16>)
    ensures
        t@ == map_from_pairs(
            rows@.map_values(|r: ProfessionIdSized| (r.profession@, r.profession_id)),
        ),
{
    let ghost pairs = rows@.map_values(|r: ProfessionIdSized| (r.profession@, r.profession_id));
    let mut t: IdTable<u16> = IdTable::new();
    let n = rows.len();
    let mut i: usize = 0;
    while i < n
        invariant
            n == rows@.len(),
            pairs == rows@.map_values(|r: ProfessionIdSized| (r.profession@, r.profession_id)),
            i <= n,
            t@ == map_from_pairs(pairs.take(i as int)),
        decreases n - i,
    {
        assert(pairs.take(i + 1).drop_last() =~= pairs.take(i as int));
        t.insert(rows[i].profession.clone(), rows[i].profession_id);
        i = i + 1;
    }
    assert(pairs.take(n as int) =~= pairs);
    t
}

/// A person gets one profession link per id and one known-for link per
/// movie id, in order, each with the person's id.
pub proof fn lemma_person_links(id: u64, professions: Seq<u16>, movies: Seq<u64>)
    ensures
        profession_links(id, professions).len() == professions.len(),
        forall|k: int|
            0 <= k < professions.len() ==> #[trigger] profession_links(id, professions)[k].person_id
                == id && profession_links(id, professions)[k].profession_id == professions[k],
        known_for_links(id, movies).len() == movies.len(),
        forall|k: int|
            0 <= k < movies.len() ==> #[trigger] known_for_links(id, movies)[k].person_id == id
                && known_for_links(id, movies)[k].movie_id == movies[k],
{
}

} // verus!
