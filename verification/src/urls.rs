use vstd::prelude::*;

verus! {

#[verifier::external_type_specification]
#[verifier::external_body]
pub struct ExUrl(url::Url);

/// The result of `url::Url::parse` on a text: a function of the text alone.
pub uninterp spec fn url_parsed(s: Seq<char>) -> Option<url::Url>;

/// The result of `url::Url::join` on a base and a path: a function of the
/// two alone.
pub uninterp spec fn url_joined(base: url::Url, path: Seq<char>) -> Option<url::Url>;

/// The serialization of a URL, as `url::Url::as_str` returns it.
pub uninterp spec fn url_str(u: url::Url) -> Seq<char>;

/// Relies on `url::Url::parse`: `Some` exactly when the text parses as an
/// absolute URL, and then the parsed URL, a function of the text alone.
#[verifier::external_body]
pub(crate) fn parse_url(s: &str) -> (r: Option<url::Url>)
    ensures
        r == url_parsed(s@),
{
    url::Url::parse(s).ok()
}

/// Relies on `url::Url::join`: `Some` exactly when `path` resolves against
/// `base` under the WHATWG URL rules, and then the resolved URL, a function
/// of the two arguments alone.
#[verifier::external_body]
pub(crate) fn join_url(base: &url::Url, path: &str) -> (r: Option<url::Url>)
    ensures
        r == url_joined(*base, path@),
{
    base.join(path).ok()
}

/// Relies on `url::Url::as_str`: the serialization of the URL, a function of
/// the URL alone.
#[verifier::external_body]
pub(crate) fn url_to_string(u: &url::Url) -> (r: String)
    ensures
        r@ == url_str(*u),
{
    u.as_str().to_owned()
}

} // verus!
