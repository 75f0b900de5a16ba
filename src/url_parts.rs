//! The components of a generic URL, as the `url` crate reads them.

use url::ParseError as UrlError;
use vstd::prelude::*;

verus! {

#[verifier::external_type_specification]
#[verifier::external_body]
pub struct ExUrlError(UrlError);

/// Whether `url::Url::parse` accepts `s`.
pub uninterp spec fn url_parses(s: Seq<char>) -> bool;

/// The scheme `url::Url::scheme` gives for the URL parsed from `s`.
pub uninterp spec fn url_scheme_of(s: Seq<char>) -> Seq<char>;

/// The host `url::Url::host_str` gives for the URL parsed from `s`.
pub uninterp spec fn url_host_of(s: Seq<char>) -> Option<Seq<char>>;

/// The user name `url::Url::username` gives for the URL parsed from `s`.
pub uninterp spec fn url_username_of(s: Seq<char>) -> Seq<char>;

/// The password `url::Url::password` gives for the URL parsed from `s`.
pub uninterp spec fn url_password_of(s: Seq<char>) -> Option<Seq<char>>;

/// The path `url::Url::path` gives for the URL parsed from `s`.
pub uninterp spec fn url_path_of(s: Seq<char>) -> Seq<char>;

/// The query, without its `?`, that `url::Url::query` gives for the URL parsed from `s`.
pub uninterp spec fn url_query_of(s: Seq<char>) -> Option<Seq<char>>;

/// The components of a generic URL that a locator is built from.
pub struct UrlParts {
    pub scheme: String,
    pub host: Option<String>,
    pub username: String,
    pub password: Option<String>,
    pub path: String,
    pub query: Option<String>,
}

/// Relies on `url::Url::parse` to accept or reject `s`, and on `Url::scheme`,
/// `Url::host_str`, `Url::username`, `Url::password`, `Url::path` and
/// `Url::query` for the components; each is a function of `s` alone.
#[verifier::external_body]
pub(crate) fn parse_url(s: &str) -> (r: Result<UrlParts, UrlError>)
    ensures
        r is Ok <==> url_parses(s@),
        r matches Ok(p) ==> {
            &&& p.scheme@ == url_scheme_of(s@)
            &&& p.host.deep_view() == url_host_of(s@)
            &&& p.username@ == url_username_of(s@)
            &&& p.password.deep_view() == url_password_of(s@)
            &&& p.path@ == url_path_of(s@)
            &&& p.query.deep_view() == url_query_of(s@)
        },
{
    url::Url::parse(s).map(|u| UrlParts {
        scheme: u.scheme().to_string(),
        host: u.host_str().map(|h| h.to_string()),
        username: u.username().to_string(),
        password: u.password().map(|p| p.to_string()),
        path: u.path().to_string(),
        query: u.query().map(|q| q.to_string()),
    })
}

} // verus!
