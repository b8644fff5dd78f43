//! Articles as the site lists and creates them.
use vstd::prelude::*;

verus! {

/// An article as the listing shows it.
#[derive(Debug, Clone, PartialEq, Eq)]
pub struct Article {
    pub title: String,
}

impl Article {
    /// The article's title.
    pub fn title(&self) -> (r: &str)
        ensures
            r@ == self.title@,
    {
        self.title.as_str()
    }
}

/// What an author submits to create an article.
#[derive(Debug, Clone, PartialEq, Eq)]
pub struct CreateArticleInput {
    pub title: String,
    pub body: String,
    pub publish: bool,
}

impl CreateArticleInput {
    /// The status stored for the new article: 1 when it is published, 0 for a draft.
    pub fn status(&self) -> (r: i32)
        ensures
            r == (if self.publish { 1i32 } else { 0i32 }),
    {
        if self.publish {
            1
        } else {
            0
        }
    }
}

/// The answer to an article's creation: the key it was stored under.
#[derive(Debug, Clone, PartialEq, Eq)]
pub struct CreateBody {
    pub pk: String,
}

impl CreateBody {
    /// The key of the new article.
    pub fn pk(&self) -> (r: String)
        ensures
            r@ == self.pk@,
    {
        self.pk.clone()
    }
}

} // verus!
