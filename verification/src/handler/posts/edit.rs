//! Editing a post.
use vstd::prelude::*;
use crate::model::post::{EditPost, PostModel};

verus! {

pub fn form_id() -> (s: &'static str)
    ensures
        s@ == "edit-post-form"@,
{
    "edit-post-form"
}

/// The reply after a post was edited.
pub fn edited() -> (r: (&'static str, &'static str))
    ensures
        r.0@ == "Edited"@,
        r.1@ == "Your post has been successfully edited. It will be visible to others shortly."@,
{
    ("Edited", "Your post has been successfully edited. It will be visible to others shortly.")
}

impl EditPost {
    /// The stored post that the edit writes; its date must fit the stored `i32`.
    pub fn into_model(self) -> (m: PostModel)
        requires
            self.date <= i32::MAX,
        ensures
            m.id == self.id,
            m.title == self.title,
            m.seo_title == self.seo_title,
            m.slug == self.slug,
            m.photo_url == self.photo_url,
            m.content == self.content,
            m.tags == self.tags,
            m.summary == self.summary,
            m.date == self.date,
    {
        PostModel {
            id: self.id,
            title: self.title,
            seo_title: self.seo_title,
            slug: self.slug,
            photo_url: self.photo_url,
            content: self.content,
            tags: self.tags,
            summary: self.summary,
            date: self.date as i32,
        }
    }
}

} // verus!
