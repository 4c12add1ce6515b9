//! Feed URL normalization: trim surrounding whitespace, reject empty input,
//! and default to the `https` scheme when none is given.

use crate::rss_service::SyncError;
use crate::text::{spec_starts_with, spec_trim, starts_with_str, trim_str};
use vstd::prelude::*;

verus! {

/// The URL carries an explicit scheme already.
pub open spec fn has_scheme(s: Seq<char>) -> bool {
    spec_starts_with(s, "http://"@) || spec_starts_with(s, "https://"@)
}

/// The normalized form of a feed URL: its trimmed text, given the default
/// scheme when it has none.
pub open spec fn spec_normalize_url(s: Seq<char>) -> Seq<char> {
    if has_scheme(spec_trim(s)) {
        spec_trim(s)
    } else {
        "https://"@ + spec_trim(s)
    }
}

/// Normalizes a feed URL, failing exactly when the trimmed URL is empty.
pub fn normalize_feed_url(url: &str) -> (r: Result<String, SyncError>)
    ensures
        match r {
            Ok(u) => spec_trim(url@).len() > 0 && u@ == spec_normalize_url(url@),
            Err(e) => e is EmptyUrl && spec_trim(url@).len() == 0,
        },
{
    let trimmed = trim_str(url);
    if trimmed.as_str().unicode_len() == 0 {
        return Err(SyncError::EmptyUrl);
    }
    if starts_with_str(trimmed.as_str(), "http://") || starts_with_str(
        trimmed.as_str(),
        "https://",
    ) {
        Ok(trimmed)
    } else {
        let mut out = String::from_str("https://");
        out.append(trimmed.as_str());
        Ok(out)
    }
}

} // verus!
