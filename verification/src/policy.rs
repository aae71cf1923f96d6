//! Decision rules of the request handlers: who may edit or delete
//! what, and which requests are accepted at all.  The routing layer
//! performs the surrounding I/O and acts on the verdicts.

use vstd::prelude::*;

use crate::errors::ApiError;
use crate::vm;

verus! {

/// A user may edit their own profile; editing someone else's takes a
/// positive rank.  A rank field in the request is honored only for
/// editors of positive rank; for everyone else it is silently dropped.
pub fn screen_update_user(editor: &vm::User, target_id: i32, req: vm::UpdateUser) -> (r: Result<
    vm::UpdateUser,
    ApiError,
>)
    ensures
        target_id != editor.id && editor.rank <= 0 ==> r == Err::<vm::UpdateUser, ApiError>(
            ApiError::Unauthorized,
        ),
        !(target_id != editor.id && editor.rank <= 0) ==> (r matches Ok(out) && out.name == req.name
            && out.biography == req.biography && out.css == req.css && out.rank == (
        if editor.rank <= 0 {
            None::<i16>
        } else {
            req.rank
        })),
{
    if target_id != editor.id && editor.rank <= 0 {
        return Err(ApiError::Unauthorized);
    }
    let rank: Option<i16> = if editor.rank <= 0 {
        None
    } else {
        req.rank
    };
    Ok(vm::UpdateUser { name: req.name, rank, biography: req.biography, css: req.css })
}

/// Deleting a user or a wiki page takes a positive rank.
pub fn authorize_privileged(user: &vm::User) -> (r: Result<(), ApiError>)
    ensures
        r == (if user.rank <= 0 {
            Err::<(), ApiError>(ApiError::Unauthorized)
        } else {
            Ok::<(), ApiError>(())
        }),
{
    if user.rank <= 0 {
        Err(ApiError::Unauthorized)
    } else {
        Ok(())
    }
}

/// Registration is accepted only where the server allows it.
pub fn screen_registration(config: &vm::Config) -> (r: Result<(), ApiError>)
    ensures
        r == (if config.allow_registration {
            Ok::<(), ApiError>(())
        } else {
            Err::<(), ApiError>(ApiError::Forbidden)
        }),
{
    if config.allow_registration {
        Ok(())
    } else {
        Err(ApiError::Forbidden)
    }
}

/// An update that touched no row means the target does not exist.
pub fn require_found(found: bool) -> (r: Result<(), ApiError>)
    ensures
        r == (if found {
            Ok::<(), ApiError>(())
        } else {
            Err::<(), ApiError>(ApiError::NotFound)
        }),
{
    if found {
        Ok(())
    } else {
        Err(ApiError::NotFound)
    }
}

/// A lookup that came back empty means the target does not exist.
pub fn require_present<T>(value: Option<T>) -> (r: Result<T, ApiError>)
    ensures
        match value {
            Some(v) => r == Ok::<T, ApiError>(v),
            None => r == Err::<T, ApiError>(ApiError::NotFound),
        },
{
    match value {
        Some(v) => Ok(v),
        None => Err(ApiError::NotFound),
    }
}

/// A wiki page must have a title.
pub fn validate_new_wiki_page(page: &vm::NewWikiPage) -> (r: Result<(), ApiError>)
    ensures
        r == (if page.title@.len() == 0 {
            Err::<(), ApiError>(ApiError::BadRequest)
        } else {
            Ok::<(), ApiError>(())
        }),
{
    if page.title.as_str().is_empty() {
        Err(ApiError::BadRequest)
    } else {
        Ok(())
    }
}

} // verus!
