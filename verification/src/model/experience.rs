use vstd::prelude::*;
use crate::cache::strings_view;
use crate::text::{
    count_char, is_white_space, lemma_split_len, lemma_split_pieces_free_of_sep, lemma_trim,
    split_commas, split_on, str_trim, trim,
};

verus! {

pub struct Experience {
    pub id: i32,
    pub title: String,
    pub company: String,
    pub description: String,
    pub tags: Vec<String>,
    pub date: String,
}

impl Experience {
    pub fn new(
        id: i32,
        title: String,
        company: String,
        description: String,
        tags: Vec<String>,
        date: String,
    ) -> (e: Self)
        ensures
            e.id == id,
            e.title == title,
            e.company == company,
            e.description == description,
            e.tags == tags,
            e.date == date,
    {
        Experience { id, title, company, description, tags, date }
    }
}

/// An experience as the database stores it, its tags one comma-separated string.
pub struct ExperienceModel {
    pub id: i32,
    pub title: String,
    pub company: String,
    pub description: String,
    pub tags: String,
    pub date: String,
}

/// The tags of a comma-separated list, each trimmed of surrounding white space.
pub open spec fn experience_tags(tags: Seq<char>) -> Seq<Seq<char>> {
    split_on(tags, ',').map_values(|p: Seq<char>| trim(p))
}

/// The experience that a stored row shows.
pub open spec fn shows_experience(e: Experience, m: ExperienceModel) -> bool {
    &&& e.id == m.id
    &&& e.title@ == m.title@
    &&& e.company@ == m.company@
    &&& e.description@ == m.description@
    &&& strings_view(e.tags@) == experience_tags(m.tags@)
    &&& e.date@ == m.date@
}

/// The trimmed pieces of a comma-separated list.
pub fn trimmed_tags(tags: &str) -> (r: Vec<String>)
    ensures
        strings_view(r@) == experience_tags(tags@),
{
    let pieces = split_commas(tags);
    let mut r: Vec<String> = Vec::new();
    let n = pieces.len();
    for i in 0..n
        invariant
            n == pieces@.len(),
            strings_view(pieces@) == split_on(tags@, ','),
            strings_view(r@) == strings_view(pieces@).take(i as int).map_values(
                |p: Seq<char>| trim(p),
            ),
    {
        let t = str_trim(pieces[i].as_str());
        let ghost before = strings_view(r@);
        r.push(String::from_str(t));
        assert(strings_view(r@) =~= before.push(trim(pieces@[i as int]@)));
        assert(strings_view(pieces@).take(i + 1) =~= strings_view(pieces@).take(i as int).push(
            pieces@[i as int]@,
        ));
        assert(strings_view(r@) =~= strings_view(pieces@).take(i + 1).map_values(
            |p: Seq<char>| trim(p),
        ));
    }
    assert(strings_view(pieces@).take(n as int) =~= strings_view(pieces@));
    r
}

pub trait ToExperiences: Sized {
    fn to_experiences(self) -> Vec<Experience>;
}

impl ToExperiences for Vec<ExperienceModel> {
    fn to_experiences(self) -> (r: Vec<Experience>)
        ensures
            r.len() == self.len(),
            forall|i: int| 0 <= i < r.len() ==> shows_experience(#[trigger] r@[i], self@[i]),
            forall|i: int|
                0 <= i < r.len() ==> {
                    &&& (#[trigger] r@[i]).id == self@[i].id
                    &&& r@[i].title@ == self@[i].title@
                    &&& r@[i].company@ == self@[i].company@
                    &&& r@[i].description@ == self@[i].description@
                    &&& r@[i].date@ == self@[i].date@
                },
    {
        let mut r: Vec<Experience> = Vec::new();
        let n = self.len();
        for i in 0..n
            invariant
                n == self.len(),
                r.len() == i,
                forall|j: int| 0 <= j < i ==> shows_experience(#[trigger] r@[j], self@[j]),
        {
            let m = &self[i];
            let e = Experience::new(
                m.id,
                m.title.clone(),
                m.company.clone(),
                m.description.clone(),
                trimmed_tags(m.tags.as_str()),
                m.date.clone(),
            );
            r.push(e);
        }
        r
    }
}

/// A list of tags holds one tag more than it has commas; no tag holds a comma,
/// and none starts or ends with white space.
pub proof fn lemma_experience_tags(tags: Seq<char>)
    ensures
        experience_tags(tags).len() == count_char(tags, ',') + 1,
        forall|i: int, j: int|
            0 <= i < experience_tags(tags).len() && 0 <= j < experience_tags(tags)[i].len()
                ==> #[trigger] experience_tags(tags)[i][j] != ',',
        forall|i: int|
            0 <= i < experience_tags(tags).len() && #[trigger] experience_tags(tags)[i].len() > 0
                ==> !is_white_space(experience_tags(tags)[i][0]) && !is_white_space(
                experience_tags(tags)[i].last(),
            ),
{
    lemma_split_len(tags, ',');
    lemma_split_pieces_free_of_sep(tags, ',');
    let pieces = split_on(tags, ',');
    assert forall|i: int, j: int|
        0 <= i < experience_tags(tags).len() && 0 <= j < experience_tags(tags)[i].len()
        implies #[trigger] experience_tags(tags)[i][j] != ',' by {
        lemma_trim(pieces[i]);
        assert(experience_tags(tags)[i] == trim(pieces[i]));
        let k = choose|k: int| 0 <= k < pieces[i].len() && pieces[i][k] == experience_tags(tags)[i][j];
        assert(pieces[i][k] != ',');
    }
    assert forall|i: int|
        0 <= i < experience_tags(tags).len() && #[trigger] experience_tags(tags)[i].len() > 0
        implies !is_white_space(experience_tags(tags)[i][0]) && !is_white_space(
        experience_tags(tags)[i].last(),
    ) by {
        lemma_trim(pieces[i]);
    }
}

} // verus!
