//! Wiki-page screening: pages marked deleted stay hidden.

use vstd::prelude::*;

use crate::errors::ApiError;
use crate::models;

verus! {

/// A page row is hidden when its deleted flag is set.
pub open spec fn spec_page_hidden(page: Option<models::WikiPage>) -> bool {
    page matches Some(p) && p.deleted == Some(true)
}

/// Screen a page read back from the store: a row marked deleted is
/// withheld (the routing layer answers `Forbidden`); an absent row and
/// a visible row pass through unchanged.
pub fn screen_wiki_page(page: Option<models::WikiPage>) -> (r: Result<
    Option<models::WikiPage>,
    ApiError,
>)
    ensures
        spec_page_hidden(page) ==> r == Err::<Option<models::WikiPage>, ApiError>(
            ApiError::Forbidden,
        ),
        !spec_page_hidden(page) ==> r == Ok::<Option<models::WikiPage>, ApiError>(page),
{
    match page {
        Some(p) => {
            let hidden = match p.deleted {
                Some(d) => d,
                None => false,
            };
            if hidden {
                Err(ApiError::Forbidden)
            } else {
                Ok(Some(p))
            }
        },
        None => Ok(None),
    }
}

} // verus!
