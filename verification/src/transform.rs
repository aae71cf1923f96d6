//! Conversions between the store-side models and the view models.
//!
//! The store's view rows carry every column as an `Option`; a row read
//! back from a well-formed view has them all set, and the conversions
//! out of such rows require exactly that instead of failing at run
//! time.

use vstd::prelude::*;

use crate::models;
use crate::store;
use crate::vm;

verus! {

/// `None`, and an empty string, become `None`; any other value is
/// kept.
pub open spec fn spec_nonempty(o: Option<String>) -> Option<String> {
    match o {
        Some(t) => if t@.len() == 0 {
            None
        } else {
            Some(t)
        },
        None => None,
    }
}

/// Drop an optional string when it is empty.
fn nonempty(o: Option<String>) -> (r: Option<String>)
    ensures
        r == spec_nonempty(o),
{
    match o {
        Some(t) => if t.as_str().is_empty() {
            None
        } else {
            Some(t)
        },
        None => None,
    }
}

/// The session-creation row, unwrapped into plain identifiers.
pub fn create_refresh_token_result_from_db(r: models::CreateRefreshTokenResult) -> (out:
    store::CreateRefreshTokenResult)
    requires
        r.token is Some,
        r.session is Some,
    ensures
        out.token == r.token.unwrap(),
        out.session == r.session.unwrap(),
{
    store::CreateRefreshTokenResult { token: r.token.unwrap(), session: r.session.unwrap() }
}

/// A user row as the user's own profile.
pub fn vm_user_from_db(u: models::User) -> (out: vm::User)
    ensures
        out.id == u.id,
        out.created_at == u.created_at,
        out.name == u.name,
        out.rank == u.rank,
        out.biography == u.biography,
        out.css == u.css,
{
    vm::User {
        id: u.id,
        created_at: u.created_at,
        name: u.name,
        rank: u.rank,
        biography: u.biography,
        css: u.css,
    }
}

/// A user row as a public profile: everything but the stylesheet.
pub fn vm_public_user_from_db(u: models::User) -> (out: vm::PublicUser)
    ensures
        out.id == u.id,
        out.created_at == u.created_at,
        out.name == u.name,
        out.rank == u.rank,
        out.biography == u.biography,
{
    vm::PublicUser {
        id: u.id,
        created_at: u.created_at,
        name: u.name,
        rank: u.rank,
        biography: u.biography,
    }
}

/// A post-view row as a client post.
pub fn vm_post_from_db(p: models::ViewPost) -> (out: vm::Post)
    requires
        p.id is Some,
        p.created_at is Some,
        p.user_id is Some,
        p.user_name is Some,
        p.filename is Some,
        p.size is Some,
        p.width is Some,
        p.height is Some,
        p.hash is Some,
        p.ext is Some,
        p.tn_ext is Some,
        p.tags is Some,
    ensures
        out.id == p.id.unwrap(),
        out.created_at == p.created_at.unwrap(),
        out.user_id == p.user_id.unwrap(),
        out.user_name == p.user_name.unwrap(),
        out.title == p.title,
        out.description == p.description,
        out.source == p.source,
        out.filename == p.filename.unwrap(),
        out.size == p.size.unwrap(),
        out.width == p.width.unwrap(),
        out.height == p.height.unwrap(),
        out.hash == p.hash.unwrap(),
        out.ext == p.ext.unwrap(),
        out.tn_ext == p.tn_ext.unwrap(),
        out.tags == p.tags.unwrap(),
{
    vm::Post {
        id: p.id.unwrap(),
        created_at: p.created_at.unwrap(),
        user_id: p.user_id.unwrap(),
        user_name: p.user_name.unwrap(),
        title: p.title,
        description: p.description,
        source: p.source,
        filename: p.filename.unwrap(),
        size: p.size.unwrap(),
        width: p.width.unwrap(),
        height: p.height.unwrap(),
        hash: p.hash.unwrap(),
        ext: p.ext.unwrap(),
        tn_ext: p.tn_ext.unwrap(),
        tags: p.tags.unwrap(),
    }
}

/// A comment row as a client comment.
pub fn vm_comment_from_db(c: models::PostComment) -> (out: vm::Comment)
    ensures
        out.id == c.id,
        out.created_at == c.created_at,
        out.updated_at == c.updated_at,
        out.user_id == c.user_id,
        out.user_name == c.user_name,
        out.comment == c.comment,
{
    vm::Comment {
        id: c.id,
        created_at: c.created_at,
        updated_at: c.updated_at,
        user_id: c.user_id,
        user_name: c.user_name,
        comment: c.comment,
    }
}

/// A store page cursor as a client page cursor.
pub fn vm_page_info_from_db(p: models::PageInfo) -> (out: vm::PageInfo)
    requires
        p.no is Some,
        p.start_id is Some,
    ensures
        out.no == p.no.unwrap(),
        out.start_id == p.start_id.unwrap(),
{
    vm::PageInfo { no: p.no.unwrap(), start_id: p.start_id.unwrap() }
}

/// A client page cursor as the store takes it.
pub fn db_page_info_from_vm(p: vm::PageInfo) -> (out: models::PageInfo)
    ensures
        out.no == Some(p.no),
        out.start_id == Some(p.start_id),
{
    models::PageInfo { no: Some(p.no), start_id: Some(p.start_id) }
}

/// A tag-view row as a client tag.
pub fn vm_tag_from_db(t: models::ViewTag) -> (out: vm::Tag)
    requires
        t.id is Some,
        t.tag is Some,
        t.aliases is Some,
        t.implied_tags is Some,
    ensures
        out.id == t.id.unwrap(),
        out.tag == t.tag.unwrap(),
        out.alias_of_tag == t.alias_of_tag,
        out.aliases == t.aliases.unwrap(),
        out.implied_tags == t.implied_tags.unwrap(),
{
    vm::Tag {
        id: t.id.unwrap(),
        tag: t.tag.unwrap(),
        alias_of_tag: t.alias_of_tag,
        aliases: t.aliases.unwrap(),
        implied_tags: t.implied_tags.unwrap(),
    }
}

/// A client tag edit as the store takes it.
pub fn db_update_tag_from_vm(t: vm::UpdateTag) -> (out: models::UpdateTag)
    ensures
        out.add_aliases == t.add_aliases,
        out.remove_aliases == t.remove_aliases,
        out.add_implied_tags == t.add_implied_tags,
        out.remove_implied_tags == t.remove_implied_tags,
{
    models::UpdateTag {
        add_aliases: t.add_aliases,
        remove_aliases: t.remove_aliases,
        add_implied_tags: t.add_implied_tags,
        remove_implied_tags: t.remove_implied_tags,
    }
}

/// A wiki-view row as a client wiki page.
pub fn vm_wiki_page_from_db(w: models::WikiPage) -> (out: vm::WikiPage)
    requires
        w.id is Some,
        w.creator_id is Some,
        w.creator_name is Some,
        w.title is Some,
        w.body is Some,
        w.locked is Some,
        w.created_at is Some,
        w.revision is Some,
        w.updated_at is Some,
    ensures
        out.id == w.id.unwrap(),
        out.creator_id == w.creator_id.unwrap(),
        out.creator_name == w.creator_name.unwrap(),
        out.title == w.title.unwrap(),
        out.body == w.body.unwrap(),
        out.locked == w.locked.unwrap(),
        out.created_at == w.created_at.unwrap(),
        out.revision == w.revision.unwrap(),
        out.updated_at == w.updated_at.unwrap(),
        out.updater_id == w.updater_id,
        out.updater_name == w.updater_name,
{
    vm::WikiPage {
        id: w.id.unwrap(),
        creator_id: w.creator_id.unwrap(),
        creator_name: w.creator_name.unwrap(),
        title: w.title.unwrap(),
        body: w.body.unwrap(),
        locked: w.locked.unwrap(),
        created_at: w.created_at.unwrap(),
        revision: w.revision.unwrap(),
        updated_at: w.updated_at.unwrap(),
        updater_id: w.updater_id,
        updater_name: w.updater_name,
    }
}

/// A client wiki-creation request as the store takes it.
pub fn db_new_wiki_page_from_vm(w: vm::NewWikiPage) -> (out: models::NewWikiPage)
    ensures
        out.title == w.title,
        out.body == w.body,
        out.locked == w.locked,
        out.reason == w.reason,
{
    models::NewWikiPage { title: w.title, body: w.body, locked: w.locked, reason: w.reason }
}

/// A client wiki edit as the store takes it.
pub fn db_update_wiki_page_from_vm(w: vm::UpdateWikiPage) -> (out: models::UpdateWikiPage)
    ensures
        out.id == w.id,
        out.title == w.title,
        out.body == w.body,
        out.locked == w.locked,
        out.deleted == w.deleted,
        out.reason == w.reason,
{
    models::UpdateWikiPage {
        id: w.id,
        title: w.title,
        body: w.body,
        locked: w.locked,
        deleted: w.deleted,
        reason: w.reason,
    }
}

/// A client post edit as the store takes it: empty optional strings
/// are dropped rather than written.
pub fn dbm_update_post_from_vm(id: i32, p: vm::UpdatePost) -> (out: models::UpdatePost)
    ensures
        out.id == Some(id),
        out.title == spec_nonempty(p.title),
        out.description == spec_nonempty(p.description),
        out.source == spec_nonempty(p.source),
        out.add_tags == p.add_tags,
        out.remove_tags == p.remove_tags,
{
    models::UpdatePost {
        id: Some(id),
        title: nonempty(p.title),
        description: nonempty(p.description),
        source: nonempty(p.source),
        add_tags: p.add_tags,
        remove_tags: p.remove_tags,
    }
}

/// A client user edit as the store takes it.
pub fn dbm_update_user_from_vm(id: i32, p: vm::UpdateUser) -> (out: models::UpdateUser)
    ensures
        out.id == Some(id),
        out.name == p.name,
        out.rank == p.rank,
        out.biography == p.biography,
        out.css == p.css,
{
    models::UpdateUser {
        id: Some(id),
        name: p.name,
        rank: p.rank,
        biography: p.biography,
        css: p.css,
    }
}

} // verus!
