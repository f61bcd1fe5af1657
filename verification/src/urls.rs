use vstd::prelude::*;

verus! {

/// What `url::Url::parse` makes of a text: `None` where it refuses the text,
/// otherwise the serialization of the parsed URL.
pub uninterp spec fn url_serialization(input: Seq<char>) -> Option<Seq<char>>;

/// Calls `url::Url::parse` and hands back the parsed URL's serialization
/// (`String::from(url)`). Claimed: the outcome is a function of the text alone,
/// named `url_serialization`.
#[verifier::external_body]
pub(crate) fn parse_url(input: &str) -> (r: Result<String, url::ParseError>)
    ensures
        r is Ok <==> url_serialization(input@) is Some,
        r matches Ok(s) ==> url_serialization(input@) == Some(s@),
{
    url::Url::parse(input).map(String::from)
}

} // verus!
