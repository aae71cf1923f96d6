//! View models: the request and response shapes of the routing layer.
//! Timestamps are whole seconds since the Unix epoch.

use vstd::prelude::*;

verus! {

/// A post as shown to clients.
#[derive(Debug, Clone)]
pub struct Post {
    pub id: i32,
    pub created_at: i64,
    pub user_id: i32,
    pub user_name: String,
    pub title: Option<String>,
    pub description: Option<String>,
    pub source: Option<String>,
    pub filename: String,
    pub size: i32,
    pub width: i32,
    pub height: i32,
    pub hash: String,
    pub ext: String,
    pub tn_ext: String,
    pub tags: Vec<String>,
}

/// An edit request against a post.
#[derive(Debug, Clone)]
pub struct UpdatePost {
    pub title: Option<String>,
    pub description: Option<String>,
    pub source: Option<String>,
    pub add_tags: Vec<String>,
    pub remove_tags: Vec<String>,
}

/// A tag with its aliases and implications.
#[derive(Debug, Clone)]
pub struct Tag {
    pub id: i32,
    pub tag: String,
    pub alias_of_tag: Option<String>,
    pub aliases: Vec<String>,
    pub implied_tags: Vec<String>,
}

/// An edit request against a tag.
#[derive(Debug, Clone)]
pub struct UpdateTag {
    pub add_aliases: Vec<String>,
    pub remove_aliases: Vec<String>,
    pub add_implied_tags: Vec<String>,
    pub remove_implied_tags: Vec<String>,
}

/// A comment as shown to clients.
#[derive(Debug, Clone)]
pub struct Comment {
    pub id: i32,
    pub created_at: i64,
    pub updated_at: i64,
    pub user_id: Option<i32>,
    pub user_name: Option<String>,
    pub comment: String,
}

/// A new comment on a post.
#[derive(Debug, Clone)]
pub struct NewPostComment {
    pub comment: String,
}

/// A user's own profile.
#[derive(Debug, Clone)]
pub struct User {
    pub id: i32,
    pub created_at: i64,
    pub name: String,
    pub rank: i16,
    pub biography: Option<String>,
    pub css: Option<String>,
}

/// A user profile as shown to others.
#[derive(Debug, Clone)]
pub struct PublicUser {
    pub id: i32,
    pub created_at: i64,
    pub name: String,
    pub rank: i16,
    pub biography: Option<String>,
}

/// An edit request against a user.
#[derive(Debug, Clone)]
pub struct UpdateUser {
    pub name: Option<String>,
    pub rank: Option<i16>,
    pub biography: Option<String>,
    pub css: Option<String>,
}

/// A page cursor.
#[derive(Debug, Clone, Copy, PartialEq, Eq, Structural)]
pub struct PageInfo {
    pub no: i32,
    pub start_id: i32,
}

/// Server configuration shown to clients.
#[derive(Debug, Clone)]
pub struct Config {
    pub max_image_size: usize,
    pub require_login: bool,
    pub allow_registration: bool,
}

/// A wiki page as shown to clients.
#[derive(Debug, Clone)]
pub struct WikiPage {
    pub id: i32,
    pub creator_id: i32,
    pub creator_name: String,
    pub title: String,
    pub body: String,
    pub locked: bool,
    pub created_at: i64,
    pub revision: i32,
    pub updated_at: i64,
    pub updater_id: Option<i32>,
    pub updater_name: Option<String>,
}

/// A request to create a wiki page.
#[derive(Debug, Clone)]
pub struct NewWikiPage {
    pub user_id: i32,
    pub title: String,
    pub body: String,
    pub locked: bool,
    pub reason: String,
}

/// A request to edit a wiki page.
#[derive(Debug, Clone)]
pub struct UpdateWikiPage {
    pub id: i32,
    pub title: String,
    pub body: String,
    pub locked: bool,
    pub deleted: bool,
    pub reason: String,
}

} // verus!
