//! Documents as the store keeps them. Instants are milliseconds since the
//! Unix epoch, the store's own unit.

use vstd::prelude::*;

use crate::object_id::ObjectId;

verus! {

/// A text in Japanese and in English.
#[derive(Debug, Clone, PartialEq, Eq)]
pub struct Name {
    pub ja: String,
    pub en: String,
}

/// A body in Japanese and in English.
#[derive(Debug, Clone, PartialEq, Eq)]
pub struct Content {
    pub ja: String,
    pub en: String,
}

/// A post category: the slug used in URLs and its names.
#[derive(Debug, Clone, PartialEq, Eq)]
pub struct Category {
    pub slug: String,
    pub name: Name,
}

/// A tag: the slug used in URLs and its names.
#[derive(Debug, Clone, PartialEq, Eq)]
pub struct Tag {
    pub slug: String,
    pub name: Name,
}

/// A tag together with the number of public posts that carry it.
#[derive(Debug, Clone, PartialEq, Eq)]
pub struct TagWithCount {
    pub slug: String,
    pub name: Name,
    pub count: i64,
}

/// A category together with the number of public posts in it.
#[derive(Debug, Clone, PartialEq, Eq)]
pub struct CategoryWithCount {
    pub slug: String,
    pub name: Name,
    pub count: i64,
}

/// The number of posts that a list query matched.
#[derive(Debug, Clone, PartialEq, Eq)]
pub struct Total {
    pub count: i64,
}

/// A registered user. `password_hash` is a PHC string, never the password.
#[derive(Debug, Clone, PartialEq, Eq)]
pub struct User {
    pub id: Option<ObjectId>,
    pub name: Name,
    pub email: String,
    pub password_hash: String,
    pub role: String,
    pub created_at: i64,
    pub updated_at: i64,
}

/// A post as stored: both languages, the author by identifier.
#[derive(Debug, Clone, PartialEq, Eq)]
pub struct Post {
    pub id: Option<ObjectId>,
    pub title: Name,
    pub slug: String,
    pub is_draft: bool,
    pub has_english: bool,
    pub category: Category,
    pub tags: Option<Vec<Tag>>,
    pub content: Content,
    pub published_at: Option<i64>,
    pub updated_at: i64,
    pub created_at: i64,
    pub image: Option<String>,
    pub author_id: ObjectId,
}

/// A post joined with its author.
#[derive(Debug, Clone, PartialEq, Eq)]
pub struct PostDetail {
    pub id: Option<ObjectId>,
    pub title: Name,
    pub slug: String,
    pub is_draft: bool,
    pub has_english: bool,
    pub category: Category,
    pub tags: Option<Vec<Tag>>,
    pub content: Content,
    pub published_at: Option<i64>,
    pub updated_at: i64,
    pub created_at: i64,
    pub image: Option<String>,
    pub author: Option<Author>,
}

/// The author data that a post detail carries.
#[derive(Debug, Clone, PartialEq, Eq)]
pub struct Author {
    pub id: ObjectId,
    pub name: Name,
    pub email: String,
}

/// One page of posts with the count of all posts that matched.
#[derive(Debug, Clone, PartialEq, Eq)]
pub struct PostWithTotal {
    pub data: Vec<Post>,
    pub total: Vec<Total>,
}

/// A static page.
#[derive(Debug, Clone, PartialEq, Eq)]
pub struct Page {
    pub id: Option<ObjectId>,
    pub title: Name,
    pub slug: String,
    pub content: Content,
    pub created_at: i64,
    pub updated_at: i64,
}

} // verus!
