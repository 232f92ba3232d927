use vstd::prelude::*;

verus! {

#[verifier::external_type_specification]
#[verifier::external_body]
pub struct ExUrl(url::Url);

/// What parsing `s` as an absolute URL yields: `None` where it parses, and
/// otherwise the text that describes why it does not.
pub uninterp spec fn url_parse_failure(s: Seq<char>) -> Option<Seq<char>>;

/// Relies on url::Url::parse, which reads an absolute URL or fails with a
/// url::ParseError, and on that error's Display text. Without a ':' the input
/// has no scheme, and the parser fails with `RelativeUrlWithoutBase`.
#[verifier::external_body]
pub(crate) fn parse_url(s: &str) -> (r: Result<url::Url, String>)
    ensures
        match r {
            Ok(_) => url_parse_failure(s@) is None,
            Err(m) => url_parse_failure(s@) == Some(m@),
        },
        !s@.contains(':') ==> r is Err,
{
    match url::Url::parse(s) {
        Ok(u) => Ok(u),
        Err(e) => Err(e.to_string()),
    }
}

} // verus!
