//! Data shapes for the resources the service exposes.
//!
//! `Article` is the only resource with working operations; `Category`,
//! `User` and `Image` are dormant schema declarations with no operations.
//! Identifiers are server-assigned integers; timestamps are kept as
//! seconds since the epoch.

use vstd::prelude::*;

verus! {

/// A persisted article row: the resource the CRUD contract operates on.
#[derive(Debug)]
pub struct Article {
    /// Server-generated unique identifier, immutable after creation.
    pub id: u64,
    /// Optional reference to an owning user.
    pub user_id: Option<i64>,
    /// Display string; the layer enforces no length constraint.
    pub title: String,
    /// Arbitrary text content.
    pub body: String,
}

/// The mathematical value of an [`Article`]: the same fields with the
/// strings abstracted to character sequences.
pub struct ArticleView {
    pub id: u64,
    pub user_id: Option<i64>,
    pub title: Seq<char>,
    pub body: Seq<char>,
}

impl View for Article {
    type V = ArticleView;

    open spec fn view(&self) -> ArticleView {
        ArticleView {
            id: self.id,
            user_id: self.user_id,
            title: self.title@,
            body: self.body@,
        }
    }
}

impl Article {
    /// A deep copy; the result carries exactly the same value.
    pub fn duplicate(&self) -> (r: Article)
        ensures
            r@ == self@,
    {
        Article {
            id: self.id,
            user_id: self.user_id,
            title: self.title.clone(),
            body: self.body.clone(),
        }
    }
}

/// The mutable fields of an article, as supplied by a create or a
/// full-replace update request.
#[derive(Debug)]
pub struct ArticleDraft {
    pub title: String,
    pub body: String,
    pub user_id: Option<i64>,
}

/// The mathematical value of an [`ArticleDraft`].
pub struct DraftView {
    pub title: Seq<char>,
    pub body: Seq<char>,
    pub user_id: Option<i64>,
}

impl View for ArticleDraft {
    type V = DraftView;

    open spec fn view(&self) -> DraftView {
        DraftView { title: self.title@, body: self.body@, user_id: self.user_id }
    }
}

impl DraftView {
    /// The article value that persisting this draft under `id` yields.
    pub open spec fn as_article(self, id: u64) -> ArticleView {
        ArticleView { id, user_id: self.user_id, title: self.title, body: self.body }
    }
}

/// A dormant schema declaration: categories have no operations yet.
#[derive(Debug)]
pub struct Category {
    pub id: u64,
    pub name: String,
    pub description: Option<String>,
    /// Seconds since the epoch.
    pub created_at: i64,
}

/// A dormant schema declaration: users have no operations yet.
#[derive(Debug)]
pub struct User {
    pub id: u64,
    pub name: String,
    pub email: String,
    pub password: String,
    /// Seconds since the epoch.
    pub created_at: i64,
    /// Seconds since the epoch.
    pub updated_at: i64,
}

/// A dormant schema declaration: images have no operations yet.
#[derive(Debug)]
pub struct Image {
    pub id: u64,
    pub url: String,
    pub alt: Option<String>,
}

} // verus!
