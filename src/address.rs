use vstd::prelude::*;

use url::ParseError;
use url::Url;

verus! {

#[verifier::external_type_specification]
#[verifier::external_body]
pub struct ExParseError(ParseError);

/// The serialisation of the URL that `s` parses to, or `None` where `s` is
/// not an absolute URL.
pub uninterp spec fn parsed_url(s: Seq<char>) -> Option<Seq<char>>;

/// The serialisation of the URL that `base` parses to, with the pair
/// `key=value` appended to its query.
pub uninterp spec fn url_with_query(base: Seq<char>, key: Seq<char>, value: Seq<char>) -> Seq<
    char,
>;

/// Relies on url::Url::parse: it succeeds exactly on absolute URLs; the URL is
/// handed on as its serialisation.
#[verifier::external_body]
pub(crate) fn parse_url(s: &str) -> (r: Result<String, ParseError>)
    ensures
        r is Ok <==> parsed_url(s@) is Some,
        r matches Ok(t) ==> parsed_url(s@) == Some(t@),
{
    Url::parse(s).map(String::from)
}

/// Relies on url::Url::parse_with_params: it parses `base` as Url::parse does
/// and, on success, appends `key=value` to the query.
#[verifier::external_body]
pub(crate) fn parse_url_with_param(base: &str, key: &str, value: &str) -> (r: Result<
    String,
    ParseError,
>)
    ensures
        r is Ok <==> parsed_url(base@) is Some,
        r matches Ok(t) ==> t@ == url_with_query(base@, key@, value@),
{
    Url::parse_with_params(base, &[(key, value)]).map(String::from)
}

/// `prefix`, then `host`, then `suffix`.
pub fn join3(prefix: &str, host: &str, suffix: &str) -> (r: String)
    ensures
        r@ == prefix@ + host@ + suffix@,
{
    let mut s = String::from_str(prefix);
    s.append(host);
    s.append(suffix);
    s
}

} // verus!
