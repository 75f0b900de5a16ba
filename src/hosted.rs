//! The assembled locator record and its single entry point.

use vstd::prelude::*;

use crate::normalize::{
    ends_with_git,
    lemma_committish_drops_delimiter,
    lemma_project_is_clean,
    path_to_project,
    project_of,
    tidy_path,
};
use crate::scp::{
    is_scp_form,
    parse_git_url,
    scp_fragment,
    scp_path,
    scp_path_end,
    scp_path_start,
    scp_result,
};
use crate::text::lemma_index_from;
use crate::url_parts::{
    parse_url,
    url_host_of,
    url_parses,
    url_password_of,
    url_path_of,
    url_query_of,
    url_scheme_of,
    url_username_of,
    UrlParts,
};
use crate::vocab::{
    get_shortcut_host,
    host_from_domain,
    protocol_display,
    protocol_from_token,
    shortcut_host,
    Host,
    ParseError,
    Protocol,
};

verus! {

/// A recognized git remote locator.
#[derive(Debug, PartialEq, Eq)]
pub struct HostedGit {
    pub host: Host,
    pub user: String,
    pub password: Option<String>,
    pub project: String,
    pub committish: Option<String>,
    pub protocol: Protocol,
}

/// The mathematical content of a `HostedGit`.
pub struct HostedGitView {
    pub host: Host,
    pub user: Seq<char>,
    pub password: Option<Seq<char>>,
    pub project: Seq<char>,
    pub committish: Option<Seq<char>>,
    pub protocol: Protocol,
}

impl View for HostedGit {
    type V = HostedGitView;

    open spec fn view(&self) -> HostedGitView {
        HostedGitView {
            host: self.host,
            user: self.user@,
            password: self.password.deep_view(),
            project: self.project@,
            committish: self.committish.deep_view(),
            protocol: self.protocol,
        }
    }
}

/// The view of a parse outcome.
pub open spec fn outcome(r: Result<HostedGit, ParseError>) -> Result<HostedGitView, ParseError> {
    match r {
        Ok(g) => Ok(g@),
        Err(e) => Err(e),
    }
}

/// The record that generic URL components stand for: the scheme gives the
/// transport, and the host comes from the scheme when it is a shortcut, else
/// from the domain. The committish is the query, which the URL reader already
/// gives without its `?`.
pub open spec fn url_result(
    scheme: Seq<char>,
    host: Option<Seq<char>>,
    username: Seq<char>,
    password: Option<Seq<char>>,
    path: Seq<char>,
    query: Option<Seq<char>>,
) -> Result<HostedGitView, ParseError> {
    match protocol_from_token(scheme) {
        None => Err(ParseError::UnknownProtocol),
        Some(protocol) => {
            let h = if protocol == Protocol::Shortcut {
                shortcut_host(scheme)
            } else {
                match host {
                    Some(d) => host_from_domain(d),
                    None => None,
                }
            };
            match h {
                None => Err(ParseError::UnknownHost),
                Some(h) => Ok(
                    HostedGitView {
                        host: h,
                        user: username,
                        password,
                        project: project_of(path),
                        committish: query,
                        protocol,
                    },
                ),
            }
        },
    }
}

/// The record for an input that is not in the scp-like form.
pub open spec fn regular_url_result(s: Seq<char>) -> Result<HostedGitView, ParseError> {
    if url_parses(s) {
        url_result(
            url_scheme_of(s),
            url_host_of(s),
            url_username_of(s),
            url_password_of(s),
            url_path_of(s),
            url_query_of(s),
        )
    } else {
        Err(ParseError::UnparseableUrl)
    }
}

/// The outcome of parsing the locator `s`.
pub open spec fn parse_result(s: Seq<char>) -> Result<HostedGitView, ParseError> {
    if is_scp_form(s) {
        scp_result(s)
    } else {
        regular_url_result(s)
    }
}

/// The path that a locator's project is taken from.
pub open spec fn raw_path(s: Seq<char>) -> Seq<char> {
    if is_scp_form(s) {
        scp_path(s)
    } else {
        url_path_of(s)
    }
}

/// The project of an accepted locator neither begins with `/` nor ends in
/// `.git`, provided its raw path is tidy.
pub proof fn lemma_accepted_project_is_clean(s: Seq<char>)
    requires
        parse_result(s) is Ok,
        tidy_path(raw_path(s)),
    ensures
        ({
            let p = parse_result(s)->Ok_0.project;
            !(p.len() > 0 && p[0] == '/') && !ends_with_git(p)
        }),
{
    lemma_project_is_clean(raw_path(s));
}

/// The committish of an accepted locator in the scp-like form is its fragment
/// without the leading `#`, and holds no `#` unless the fragment holds another.
pub proof fn lemma_scp_committish_drops_hash(s: Seq<char>)
    requires
        is_scp_form(s),
        parse_result(s) is Ok,
    ensures
        ({
            let c = parse_result(s)->Ok_0.committish;
            match scp_fragment(s) {
                None => c is None,
                Some(f) => {
                    &&& f[0] == '#'
                    &&& c == Some(f.drop_first())
                    &&& (forall|i: int| 1 <= i < f.len() ==> #[trigger] f[i] != '#') ==> !c->0.contains(
                        '#',
                    )
                },
            }
        }),
{
    lemma_index_from(s, '#', scp_path_start(s));
    if let Some(f) = scp_fragment(s) {
        assert(f[0] == s[scp_path_end(s)]);
        if forall|i: int| 1 <= i < f.len() ==> #[trigger] f[i] != '#' {
            lemma_committish_drops_delimiter(f);
        }
    }
}

/// Parsing is a function of the input: equal inputs give equal outcomes.
pub proof fn lemma_parse_deterministic(a: Seq<char>, b: Seq<char>)
    requires
        a == b,
    ensures
        parse_result(a) == parse_result(b),
{
}

fn clone_opt(o: &Option<String>) -> (r: Option<String>)
    ensures
        r.deep_view() == o.deep_view(),
{
    match o {
        Some(x) => Some(x.clone()),
        None => None,
    }
}

/// Parses `url` with the generic URL reader and assembles the record.
fn parse_regular_url(url: &str) -> (r: Result<HostedGit, ParseError>)
    ensures
        outcome(r) == regular_url_result(url@),
{
    match parse_url(url) {
        Ok(parts) => HostedGit::from_url_parts(&parts),
        Err(_) => Err(ParseError::UnparseableUrl),
    }
}

impl HostedGit {
    /// Parses a git remote locator: the scp-like form when it matches, else a generic URL.
    pub fn new(url: &str) -> (r: Result<HostedGit, ParseError>)
        ensures
            outcome(r) == parse_result(url@),
    {
        match parse_git_url(url) {
            Some(r) => r,
            None => parse_regular_url(url),
        }
    }

    /// Assembles the record from the components of a generic URL.
    pub fn from_url_parts(parts: &UrlParts) -> (r: Result<HostedGit, ParseError>)
        ensures
            outcome(r) == url_result(
                parts.scheme@,
                parts.host.deep_view(),
                parts.username@,
                parts.password.deep_view(),
                parts.path@,
                parts.query.deep_view(),
            ),
    {
        let protocol = match Protocol::from_str(parts.scheme.as_str()) {
            Ok(p) => p,
            Err(e) => {
                return Err(e);
            },
        };
        let host = if protocol == Protocol::Shortcut {
            match get_shortcut_host(parts.scheme.as_str()) {
                Some(h) => h,
                None => {
                    return Err(ParseError::UnknownHost);
                },
            }
        } else {
            match &parts.host {
                Some(d) => match Host::from_domain(d.as_str()) {
                    Ok(h) => h,
                    Err(e) => {
                        return Err(e);
                    },
                },
                None => {
                    return Err(ParseError::UnknownHost);
                },
            }
        };
        Ok(
            HostedGit {
                host,
                user: parts.username.clone(),
                password: clone_opt(&parts.password),
                project: path_to_project(parts.path.as_str()),
                committish: clone_opt(&parts.query),
                protocol,
            },
        )
    }

    /// The canonical display form of the locator's transport.
    pub fn get_default_representation(&self) -> (r: &'static str)
        ensures
            r@ == protocol_display(self.protocol),
    {
        self.protocol.to_str()
    }
}

} // verus!
