//! Reading a text as a URL.
//!
//! The reading is left to the URL parser that the host platform uses, so
//! that a redirect carries the location exactly as the platform would write
//! it. Nothing is proved of the parser: what it gives goes by a name.

use vstd::prelude::*;

verus! {

/// What the URL parser makes of `text`: the URL in its normal form, or, where
/// the text is no absolute URL, the parser's description of the error.
pub uninterp spec fn parsed_url(text: Seq<char>) -> Result<Seq<char>, Seq<char>>;

/// A parser's verdict as contracts see it.
pub open spec fn parsed_view(parsed: Result<String, String>) -> Result<Seq<char>, Seq<char>> {
    match parsed {
        Ok(url) => Ok(url@),
        Err(error) => Err(error@),
    }
}

/// Calls `worker::Url::parse`, which is `url::Url::parse`, and gives the
/// parsed URL's serialization, or the parse error's display text. The
/// contract claims one thing only: that the outcome depends on the text
/// alone, which is what naming it `parsed_url(text@)` means. It does not say
/// which texts are URLs, nor what a URL's normal form looks like.
#[verifier::external_body]
pub(crate) fn parse_url(text: &str) -> (parsed: Result<String, String>)
    ensures
        parsed_view(parsed) == parsed_url(text@),
{
    match worker::Url::parse(text) {
        Ok(url) => Ok(String::from(url)),
        Err(error) => Err(error.to_string()),
    }
}

} // verus!
