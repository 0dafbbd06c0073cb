//! Decisions for serving the single-page UI: which asset a path names and the
//! headers it is sent with.

use vstd::prelude::*;

use crate::text::{find_char, index_of, same_text};

verus! {

/// The page served for the UI root and for unknown paths.
pub const INDEX_PAGE: &'static str = "index.html";

/// Cache policy of every asset but the index page.
pub const IMMUTABLE: &'static str = "public, max-age=31536000, immutable";

/// The MIME type `mime_guess` gives for `path` from its extension, or
/// `application/octet-stream` when it knows none.
pub uninterp spec fn mime_of(path: Seq<char>) -> Seq<char>;

/// Relies on `mime_guess::from_path(..).first_or_octet_stream()`, named by
/// `mime_of`.
#[verifier::external_body]
fn guess_mime(path: &str) -> (r: String)
    ensures
        r@ == mime_of(path@),
{
    mime_guess::from_path(path).first_or_octet_stream().to_string()
}

/// Headers of an asset response.
pub struct AssetHeaders {
    pub content_type: String,
    pub cache_control: Option<String>,
}

/// The asset a UI path names: the index page for the empty path.
pub open spec fn asset_name(path: Seq<char>) -> Seq<char> {
    if path.len() == 0 {
        INDEX_PAGE@
    } else {
        path
    }
}

/// A path that stays inside the asset directory: relative, and with no `..`
/// and no backslash in it.
pub open spec fn confined(path: Seq<char>) -> bool {
    &&& !(path.len() > 0 && path[0] == '/')
    &&& index_of(path, '\\') == path.len()
    &&& forall|i: int| 0 <= i < path.len() - 1 ==> !(#[trigger] path[i] == '.' && path[i + 1] == '.')
}

/// The asset a UI path names.
pub fn asset_name_of(path: &str) -> (r: String)
    ensures
        r@ == asset_name(path@),
{
    if path.unicode_len() == 0 {
        String::from_str(INDEX_PAGE)
    } else {
        path.to_owned()
    }
}

/// Whether `path` stays inside the asset directory.
pub fn is_confined(path: &str) -> (r: bool)
    ensures
        r == confined(path@),
{
    let n = path.unicode_len();
    if n > 0 && path.get_char(0) == '/' {
        return false;
    }
    if find_char(path, '\\') != n {
        return false;
    }
    let mut i: usize = 0;
    while i < n && i + 1 < n
        invariant
            n == path@.len(),
            i <= n,
            forall|j: int| 0 <= j < i && j < n - 1 ==> !(#[trigger] path@[j] == '.' && path@[j + 1] == '.'),
        decreases n - i,
    {
        if path.get_char(i) == '.' && path.get_char(i + 1) == '.' {
            assert(path@[i as int] == '.' && path@[i + 1] == '.');
            return false;
        }
        i = i + 1;
    }
    true
}

/// The headers `path` is served with: its guessed MIME type, and a year of
/// immutable caching for everything but the index page.
pub fn asset_headers(path: &str) -> (h: AssetHeaders)
    ensures
        h.content_type@ == mime_of(path@),
        path@ == INDEX_PAGE@ ==> h.cache_control is None,
        path@ != INDEX_PAGE@ ==> (h.cache_control matches Some(c) && c@ == IMMUTABLE@),
{
    let cache_control = if same_text(path, INDEX_PAGE) {
        None
    } else {
        Some(String::from_str(IMMUTABLE))
    };
    AssetHeaders { content_type: guess_mime(path), cache_control }
}

} // verus!
