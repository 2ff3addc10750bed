//! Upload pipeline: derive the storage key for an uploaded file.
//!
//! A multipart file field arrives with a declared file name; the pipeline
//! recovers the extension from it (no content sniffing), draws a fresh
//! random identifier, and builds the key `uploads/<uuid>.<extension>`
//! under which the caller stores the bytes. The key — not a URL — is what
//! comes back, so read links can be presigned freshly at read time.

use vstd::prelude::*;

use crate::errors::ApiError;
use crate::ids::is_uuid_text;
use crate::ids::new_uuid;

verus! {

/// What remains of `s` after its last `'.'`: the extension of a file
/// name. A name without a dot yields the whole name, a name ending in a
/// dot yields the empty sequence.
pub open spec fn suffix_after_last_dot(s: Seq<char>) -> Seq<char>
    decreases s.len(),
{
    if s.len() == 0 {
        s
    } else if s.last() == '.' {
        Seq::empty()
    } else {
        suffix_after_last_dot(s.drop_last()).push(s.last())
    }
}

proof fn lemma_suffix_no_dot(s: Seq<char>)
    requires
        forall|j: int| 0 <= j < s.len() ==> s[j] != '.',
    ensures
        suffix_after_last_dot(s) == s,
    decreases s.len(),
{
    if s.len() > 0 {
        lemma_suffix_no_dot(s.drop_last());
        assert(s.drop_last().push(s.last()) =~= s);
    } else {
        assert(suffix_after_last_dot(s) =~= s);
    }
}

proof fn lemma_suffix_dot_at(s: Seq<char>, k: int)
    requires
        0 <= k < s.len(),
        s[k] == '.',
        forall|j: int| k < j < s.len() ==> s[j] != '.',
    ensures
        suffix_after_last_dot(s) == s.subrange(k + 1, s.len() as int),
    decreases s.len(),
{
    if k == s.len() - 1 {
        assert(suffix_after_last_dot(s) =~= s.subrange(k + 1, s.len() as int));
    } else {
        lemma_suffix_dot_at(s.drop_last(), k);
        assert(s.drop_last().subrange(k + 1, s.len() - 1) =~= s.subrange(k + 1, s.len() - 1));
        assert(s.subrange(k + 1, s.len() - 1).push(s.last()) =~= s.subrange(
            k + 1,
            s.len() as int,
        ));
    }
}

/// The extension of a declared file name: everything after the last dot,
/// the whole name when it has no dot, empty when it ends in a dot.
pub fn file_extension(name: &str) -> (r: String)
    ensures
        r@ == suffix_after_last_dot(name@),
{
    let n = name.unicode_len();
    let mut i: usize = n;
    while i > 0
        invariant
            n == name@.len(),
            i <= n,
            forall|j: int| i <= j < n ==> name@[j] != '.',
        decreases i,
    {
        if name.get_char(i - 1) == '.' {
            let ext = name.substring_char(i, n);
            proof {
                lemma_suffix_dot_at(name@, i - 1);
            }
            return ext.to_owned();
        }
        i = i - 1;
    }
    proof {
        lemma_suffix_no_dot(name@);
    }
    name.to_owned()
}

/// Derive the storage key for one uploaded file from its declared name:
/// `uploads/<uuid>.<extension>` with a fresh random identifier. A missing
/// declared name is the caller's error; reading the bytes and storing
/// them under the key is the caller's edge.
pub fn upload_image(file_name: Option<&str>) -> (r: Result<String, ApiError>)
    ensures
        file_name is None ==> r == Err::<String, ApiError>(ApiError::MissingFileName),
        file_name matches Some(n) ==> r matches Ok(k) && exists|id: Seq<char>|
            is_uuid_text(id) && k@ == "uploads/"@ + id + "."@ + suffix_after_last_dot(n@),
{
    let name = match file_name {
        Some(n) => n,
        None => {
            return Err(ApiError::MissingFileName);
        },
    };
    let id = new_uuid();
    let ext = file_extension(name);
    let mut key = String::from_str("uploads/");
    key.append(id.as_str());
    key.append(".");
    key.append(ext.as_str());
    proof {
        assert(is_uuid_text(id@) && key@ == "uploads/"@ + id@ + "."@ + suffix_after_last_dot(
            name@,
        ));
    }
    Ok(key)
}

} // verus!
