//! Which embedded frontend file answers a request path, and with what content type.
use vstd::prelude::*;
use crate::text::{strip_leading_slashes, trim_leading_slashes};

verus! {

/// The content type that `mime_guess` gives a path: the first MIME type
/// registered for its extension, or `application/octet-stream`.
pub uninterp spec fn guessed_content_type(path: Seq<char>) -> Seq<char>;

/// Calls `mime_guess::from_path(path).first_or_octet_stream()` and gives the
/// MIME type's text. Trusted: the result is the named guess for `path`, and a
/// path without a `.` has no extension and so gets `application/octet-stream`.
/// The extension table itself is not stated.
#[verifier::external_body]
fn content_type_of(path: &str) -> (r: String)
    ensures
        r@ == guessed_content_type(path@),
        !path@.contains('.') ==> r@ == "application/octet-stream"@,
{
    let mime = mime_guess::from_path(path).first_or_octet_stream();
    let text: &str = mime.as_ref();
    text.to_string()
}

/// The file that answers a request, or none.
#[derive(Debug, PartialEq, Eq)]
pub enum AssetReply {
    Found { path: String, content_type: String },
    Missing,
}

/// The embedded path that request path `uri_path` names: the path without
/// its leading slashes.
pub fn asset_path(uri_path: &str) -> (r: String)
    ensures
        r@ == strip_leading_slashes(uri_path@),
{
    trim_leading_slashes(uri_path)
}

/// The file that answers request path `uri_path`: the embedded file it names,
/// else `index.html` (client-side routing), else none. `requested_found` is
/// whether the embedded files answer the path that `uri_path` names, and
/// `index_found` whether they hold `index.html`.
pub open spec fn asset_for(uri_path: Seq<char>, requested_found: bool, index_found: bool) -> Option<
    Seq<char>,
> {
    if requested_found {
        Some(strip_leading_slashes(uri_path))
    } else if index_found {
        Some("index.html"@)
    } else {
        None
    }
}

/// Chooses the file that answers request path `uri_path`, given whether the
/// embedded files answer the path it names (`requested_found`) and whether
/// they hold `index.html` (`index_found`).
pub fn serve_asset(uri_path: &str, requested_found: bool, index_found: bool) -> (r: AssetReply)
    ensures
        match asset_for(uri_path@, requested_found, index_found) {
            Some(p) => r matches AssetReply::Found { path, content_type } && path@ == p
                && content_type@ == guessed_content_type(p),
            None => r == AssetReply::Missing,
        },
{
    if requested_found {
        let path = asset_path(uri_path);
        let content_type = content_type_of(path.as_str());
        AssetReply::Found { path, content_type }
    } else if index_found {
        let index = String::from_str("index.html");
        let content_type = content_type_of(index.as_str());
        AssetReply::Found { path: index, content_type }
    } else {
        AssetReply::Missing
    }
}

/// A request path names the same embedded file, and is answered alike,
/// whether or not it starts with a slash.
pub proof fn law_leading_slash_ignored(p: Seq<char>, requested_found: bool, index_found: bool)
    ensures
        strip_leading_slashes(seq!['/'] + p) == strip_leading_slashes(p),
        asset_for(seq!['/'] + p, requested_found, index_found) == asset_for(
            p,
            requested_found,
            index_found,
        ),
{
    assert((seq!['/'] + p).drop_first() =~= p);
    assert((seq!['/'] + p)[0] == '/');
}

/// The file chosen for a request: the path it names, without leading
/// slashes, when that file is embedded; else `index.html` when it is
/// embedded; else none.
pub proof fn law_asset_choice(uri_path: Seq<char>, requested_found: bool, index_found: bool)
    ensures
        requested_found ==> asset_for(uri_path, requested_found, index_found) == Some(
            strip_leading_slashes(uri_path),
        ),
        !requested_found && index_found ==> asset_for(uri_path, requested_found, index_found) == Some(
            "index.html"@,
        ),
        !requested_found && !index_found ==> asset_for(uri_path, requested_found, index_found) is None,
{
}

} // verus!
