//! Store-side data models: the row and procedure-argument shapes of
//! the persistent store.  Timestamps are whole seconds since the Unix
//! epoch; token identifiers are the 128-bit value of their UUID.

use vstd::prelude::*;

use crate::ip::IpAddress;

verus! {

/// A user row.
#[derive(Debug, Clone)]
pub struct User {
    pub id: i32,
    pub created_at: i64,
    pub updated_at: i64,
    pub name: String,
    pub password_hash: String,
    pub rank: i16,
    pub biography: Option<String>,
    pub css: Option<String>,
}

/// A post row.
#[derive(Debug, Clone)]
pub struct Post {
    pub id: i32,
    pub created_at: i64,
    pub updated_at: i64,
    pub user_id: i32,
    pub title: Option<String>,
    pub description: Option<String>,
    pub source: Option<String>,
    pub filename: String,
    pub size: i32,
    pub width: i32,
    pub height: i32,
    pub hash: String,
    pub ext: String,
    pub tn_ext: String,
    pub tags: Vec<String>,
    pub is_deleted: bool,
}

/// A row of the post view, joined with its author.
#[derive(Debug, Clone)]
pub struct ViewPost {
    pub id: Option<i32>,
    pub created_at: Option<i64>,
    pub user_id: Option<i32>,
    pub user_name: Option<String>,
    pub title: Option<String>,
    pub description: Option<String>,
    pub source: Option<String>,
    pub filename: Option<String>,
    pub size: Option<i32>,
    pub width: Option<i32>,
    pub height: Option<i32>,
    pub hash: Option<String>,
    pub ext: Option<String>,
    pub tn_ext: Option<String>,
    pub tags: Option<Vec<String>>,
}

/// A row of the wiki view.
#[derive(Debug, Clone)]
pub struct WikiPage {
    pub id: Option<i32>,
    pub creator_id: Option<i32>,
    pub creator_name: Option<String>,
    pub title: Option<String>,
    pub body: Option<String>,
    pub locked: Option<bool>,
    pub created_at: Option<i64>,
    pub revision: Option<i32>,
    pub updated_at: Option<i64>,
    pub updater_id: Option<i32>,
    pub updater_name: Option<String>,
    pub updater_ip: Option<IpAddress>,
    pub deleted: Option<bool>,
    pub reason: Option<String>,
}

/// A comment row, joined with its author.
#[derive(Debug, Clone)]
pub struct PostComment {
    pub id: i32,
    pub created_at: i64,
    pub updated_at: i64,
    pub user_id: Option<i32>,
    pub user_name: Option<String>,
    pub post_id: i32,
    pub comment: String,
}

/// A row of the tag view.
#[derive(Debug, Clone)]
pub struct ViewTag {
    pub id: Option<i32>,
    pub tag: Option<String>,
    pub alias_of_tag: Option<String>,
    pub aliases: Option<Vec<String>>,
    pub implied_tags: Option<Vec<String>>,
}

/// Arguments of post creation.
#[derive(Debug, Clone)]
pub struct NewPost {
    pub user_id: Option<i32>,
    pub title: Option<String>,
    pub description: Option<String>,
    pub source: Option<String>,
    pub filename: Option<String>,
    pub size: Option<i32>,
    pub width: Option<i32>,
    pub height: Option<i32>,
    pub hash: Option<String>,
    pub ext: Option<String>,
    pub tn_ext: Option<String>,
}

/// Arguments of a post edit.
#[derive(Debug, Clone)]
pub struct UpdatePost {
    pub id: Option<i32>,
    pub title: Option<String>,
    pub description: Option<String>,
    pub source: Option<String>,
    pub add_tags: Vec<String>,
    pub remove_tags: Vec<String>,
}

/// Arguments of a tag edit.
#[derive(Debug, Clone)]
pub struct UpdateTag {
    pub add_aliases: Vec<String>,
    pub remove_aliases: Vec<String>,
    pub add_implied_tags: Vec<String>,
    pub remove_implied_tags: Vec<String>,
}

/// Arguments of user creation.
#[derive(Debug, Clone)]
pub struct NewUser {
    pub name: Option<String>,
    pub password_hash: Option<String>,
}

/// Arguments of a user edit.
#[derive(Debug, Clone)]
pub struct UpdateUser {
    pub id: Option<i32>,
    pub name: Option<String>,
    pub rank: Option<i16>,
    pub biography: Option<String>,
    pub css: Option<String>,
}

/// Arguments of comment creation.
#[derive(Debug, Clone)]
pub struct NewPostComment {
    pub post_id: i32,
    pub comment: String,
}

/// A page cursor, as the store takes it.
#[derive(Debug, Clone, Copy, PartialEq, Eq, Structural)]
pub struct PageInfo {
    pub no: Option<i32>,
    pub start_id: Option<i32>,
}

/// What the store's session-creation step hands back.
#[derive(Debug, Clone, Copy, PartialEq, Eq, Structural)]
pub struct CreateRefreshTokenResult {
    pub token: Option<u128>,
    pub session: Option<i64>,
}

/// What the store's rotation step hands back.
#[derive(Debug, Clone, Copy, PartialEq, Eq, Structural)]
pub struct RefreshRefreshTokenResult {
    pub token: Option<u128>,
    pub session: Option<i64>,
    pub user_id: Option<i32>,
}

/// Arguments of wiki-page creation.
#[derive(Debug, Clone)]
pub struct NewWikiPage {
    pub title: String,
    pub body: String,
    pub locked: bool,
    pub reason: String,
}

/// Arguments of a wiki-page edit.
#[derive(Debug, Clone)]
pub struct UpdateWikiPage {
    pub id: i32,
    pub title: String,
    pub body: String,
    pub locked: bool,
    pub deleted: bool,
    pub reason: String,
}

} // verus!
