use vstd::prelude::*;
use crate::cache::strings_view;
use crate::model::post::{compact_tags, compacted_tags};

verus! {

pub struct Project {
    pub id: i32,
    pub title: String,
    pub description: String,
    pub url: String,
    pub tags: Vec<String>,
    pub date: String,
}

impl Project {
    pub fn new(
        id: i32,
        title: String,
        description: String,
        url: String,
        tags: Vec<String>,
        date: String,
    ) -> (p: Self)
        ensures
            p.id == id,
            p.title == title,
            p.description == description,
            p.url == url,
            p.tags == tags,
            p.date == date,
    {
        Project { id, title, description, url, tags, date }
    }
}

/// A project as the database stores it, its tags one comma-separated string.
pub struct ProjectModel {
    pub id: i32,
    pub title: String,
    pub description: String,
    pub tags: String,
    pub url: String,
    pub date: String,
}

/// The project that a stored row shows, its tags compacted.
pub open spec fn shows_project(p: Project, m: ProjectModel) -> bool {
    &&& p.id == m.id
    &&& p.title@ == m.title@
    &&& p.description@ == m.description@
    &&& p.url@ == m.url@
    &&& strings_view(p.tags@) == compact_tags(m.tags@)
    &&& p.date@ == m.date@
}

pub trait ToProjects: Sized {
    fn to_projects(self) -> Vec<Project>;
}

impl ToProjects for Vec<ProjectModel> {
    fn to_projects(self) -> (r: Vec<Project>)
        ensures
            r.len() == self.len(),
            forall|i: int| 0 <= i < r.len() ==> shows_project(#[trigger] r@[i], self@[i]),
            forall|i: int|
                0 <= i < r.len() ==> {
                    &&& (#[trigger] r@[i]).id == self@[i].id
                    &&& r@[i].title@ == self@[i].title@
                    &&& r@[i].description@ == self@[i].description@
                    &&& r@[i].url@ == self@[i].url@
                    &&& r@[i].date@ == self@[i].date@
                },
    {
        let mut r: Vec<Project> = Vec::new();
        let n = self.len();
        for i in 0..n
            invariant
                n == self.len(),
                r.len() == i,
                forall|j: int| 0 <= j < i ==> shows_project(#[trigger] r@[j], self@[j]),
        {
            let m = &self[i];
            let p = Project::new(
                m.id,
                m.title.clone(),
                m.description.clone(),
                m.url.clone(),
                compacted_tags(m.tags.as_str()),
                m.date.clone(),
            );
            r.push(p);
        }
        r
    }
}

} // verus!
