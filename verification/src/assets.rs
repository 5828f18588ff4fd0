//! Resolution of image asset paths: absolute URLs (by a deliberately
//! permissive prefix test) pass through unchanged, anything else is
//! served from the site's image directory.

use vstd::prelude::*;
use vstd::string::*;

use crate::text::{spec_starts_with, str_starts_with};

verus! {

/// The prefix that marks a link as an absolute URL.
pub open spec fn spec_absolute_prefix() -> Seq<char> {
    "https?://"@
}

/// The URL an image link resolves to: absolute links pass through,
/// relative ones are prefixed with the image directory.
pub open spec fn spec_image_url(link: Seq<char>) -> Seq<char> {
    if spec_starts_with(link, spec_absolute_prefix()) {
        link
    } else {
        "/img/"@ + link
    }
}

/// Resolves an image link to the URL the page should request.
pub fn image_url(link: &str) -> (r: String)
    ensures
        r@ == spec_image_url(link@),
{
    if str_starts_with(link, "https?://") {
        link.to_owned()
    } else {
        let mut s = String::from_str("/img/");
        s.append(link);
        s
    }
}

} // verus!
