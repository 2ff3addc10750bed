//! Shared data models: credentials submitted at login, the stored account
//! record, and the pagination options of listing endpoints.

use vstd::prelude::*;

use crate::ids::is_uuid_text;
use crate::text::fold_lower;

verus! {

/// Credentials submitted to the login endpoint.
#[derive(Debug, Clone)]
pub struct LoginModel {
    pub username: String,
    pub password: String,
}

/// A stored account record.
///
/// The username is kept case-folded, the password field holds the encoded
/// hash and never the plaintext, and the identifier is hyphenated UUID
/// text. Timestamps are seconds since the Unix epoch.
#[derive(Debug, Clone)]
pub struct SignupModel {
    pub id: String,
    pub full_name: String,
    pub username: String,
    pub password: String,
    pub created_at: i64,
    pub updated_at: i64,
}

impl SignupModel {
    /// Well-formedness of a stored account: the identifier is hyphenated
    /// UUID text and the username is already case-folded, so looking it
    /// up under a folded name can find it.
    pub open spec fn wf(&self) -> bool {
        &&& is_uuid_text(self.id@)
        &&& self.username@ == fold_lower(self.username@)
    }
}

/// Pagination options of the listing endpoints: `offset` is a 1-based page
/// number, `limit` the page size.
#[derive(Debug, Clone)]
pub struct FilterOptionsModel {
    pub offset: Option<i64>,
    pub limit: Option<i64>,
}

/// The page size chosen by `opts`, given the endpoint's default.
pub open spec fn spec_page_limit(opts: FilterOptionsModel, default_limit: i64) -> i64 {
    match opts.limit {
        Some(l) => l,
        None => default_limit,
    }
}

/// The 1-based page number chosen by `opts`.
pub open spec fn spec_page_number(opts: FilterOptionsModel) -> i64 {
    match opts.offset {
        Some(p) => p,
        None => 1,
    }
}

/// The row window `(offset, limit)` a listing query uses: `limit` rows
/// starting after `(page - 1) * limit` rows.
///
/// The caller keeps the product in the `i64` range; options that large
/// could never name a real page.
pub fn page_window(opts: &FilterOptionsModel, default_limit: i64) -> (r: (i64, i64))
    requires
        i64::MIN <= (spec_page_number(*opts) - 1) * spec_page_limit(*opts, default_limit)
            <= i64::MAX,
        i64::MIN <= spec_page_number(*opts) - 1,
    ensures
        r.1 == spec_page_limit(*opts, default_limit),
        r.0 == (spec_page_number(*opts) - 1) * r.1,
{
    let limit = match opts.limit {
        Some(l) => l,
        None => default_limit,
    };
    let page = match opts.offset {
        Some(p) => p,
        None => 1,
    };
    ((page - 1) * limit, limit)
}

} // verus!
