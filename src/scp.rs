//! The scp-like shorthand `user[:password]@host:[/]path[.git][#ref]`.

use vstd::prelude::*;

use crate::hosted::{outcome, HostedGit, HostedGitView};
use crate::normalize::{
    committish_of,
    hash_to_committish,
    parse_auth,
    path_to_project,
    project_of,
    split_auth,
};
use crate::text::{find_char, index_from};
use crate::vocab::{host_from_domain, Host, ParseError, Protocol};

verus! {

/// Position of the `@` that ends the credentials.
pub open spec fn scp_at(s: Seq<char>) -> int {
    index_from(s, '@', 0)
}

/// Position of the `:` that ends the host.
pub open spec fn scp_colon(s: Seq<char>) -> int {
    index_from(s, ':', scp_at(s) + 1)
}

/// Where the path begins: after the colon and one optional `/`.
pub open spec fn scp_path_start(s: Seq<char>) -> int {
    let r = scp_colon(s) + 1;
    if r < s.len() && s[r] == '/' {
        r + 1
    } else {
        r
    }
}

/// Where the path ends: at the first `#` after its start, or at the end.
pub open spec fn scp_path_end(s: Seq<char>) -> int {
    index_from(s, '#', scp_path_start(s))
}

/// Whether `s[ps..pe]` holds no `/`, or exactly one with text on both sides.
pub open spec fn at_most_one_inner_slash(s: Seq<char>, ps: int, pe: int) -> bool {
    let k = index_from(s, '/', ps);
    k >= pe || (ps < k && k + 1 < pe && index_from(s, '/', k + 1) >= pe)
}

/// Whether `s` is in the scp-like form: non-empty credentials without `@`, a
/// non-empty host without `:`, and a non-empty path of one or two segments.
pub open spec fn is_scp_form(s: Seq<char>) -> bool {
    &&& 0 < scp_at(s) < s.len()
    &&& scp_at(s) + 1 < scp_colon(s) < s.len()
    &&& scp_path_start(s) < scp_path_end(s)
    &&& at_most_one_inner_slash(s, scp_path_start(s), scp_path_end(s))
}

/// The raw credentials of the scp-like form.
pub open spec fn scp_auth(s: Seq<char>) -> Seq<char> {
    s.subrange(0, scp_at(s))
}

/// The raw host of the scp-like form.
pub open spec fn scp_host(s: Seq<char>) -> Seq<char> {
    s.subrange(scp_at(s) + 1, scp_colon(s))
}

/// The raw path of the scp-like form.
pub open spec fn scp_path(s: Seq<char>) -> Seq<char> {
    s.subrange(scp_path_start(s), scp_path_end(s))
}

/// The raw fragment of the scp-like form, with its `#`.
pub open spec fn scp_fragment(s: Seq<char>) -> Option<Seq<char>> {
    if scp_path_end(s) < s.len() {
        Some(s.subrange(scp_path_end(s), s.len() as int))
    } else {
        None
    }
}

/// The record that an input in the scp-like form stands for.
pub open spec fn scp_result(s: Seq<char>) -> Result<HostedGitView, ParseError> {
    match host_from_domain(scp_host(s)) {
        None => Err(ParseError::UnknownHost),
        Some(h) => Ok(
            HostedGitView {
                host: h,
                user: split_auth(scp_auth(s)).0,
                password: split_auth(scp_auth(s)).1,
                project: project_of(scp_path(s)),
                committish: committish_of(scp_fragment(s)),
                protocol: Protocol::GitSsh,
            },
        ),
    }
}

/// The separator positions `(at, colon, path start, path end)` of the scp-like
/// form, or `None` when `url` is not in that form.
fn scp_layout(url: &str) -> (r: Option<(usize, usize, usize, usize)>)
    ensures
        r is Some <==> is_scp_form(url@),
        r matches Some(l) ==> {
            &&& l.0 == scp_at(url@)
            &&& l.1 == scp_colon(url@)
            &&& l.2 == scp_path_start(url@)
            &&& l.3 == scp_path_end(url@)
            &&& l.3 <= url@.len()
        },
{
    let n = url.unicode_len();
    let at = find_char(url, n, '@', 0);
    if at == 0 || at >= n {
        return None;
    }
    let colon = find_char(url, n, ':', at + 1);
    if colon >= n || colon < at + 2 {
        return None;
    }
    let ps: usize = if colon + 1 < n && url.get_char(colon + 1) == '/' {
        colon + 2
    } else {
        colon + 1
    };
    let pe = find_char(url, n, '#', ps);
    if pe <= ps {
        return None;
    }
    let k = find_char(url, n, '/', ps);
    if k >= pe {
        return Some((at, colon, ps, pe));
    }
    if k > ps && k + 1 < pe && find_char(url, n, '/', k + 1) >= pe {
        return Some((at, colon, ps, pe));
    }
    None
}

/// Whether `url` is in the scp-like form.
pub fn is_git_url(url: &str) -> (r: bool)
    ensures
        r == is_scp_form(url@),
{
    scp_layout(url).is_some()
}

/// Decomposes an input in the scp-like form; `None` when it is not in that form.
pub fn parse_git_url(url: &str) -> (r: Option<Result<HostedGit, ParseError>>)
    ensures
        r is Some <==> is_scp_form(url@),
        r matches Some(x) ==> outcome(x) == scp_result(url@),
{
    let (at, colon, ps, pe) = match scp_layout(url) {
        Some(l) => l,
        None => {
            return None;
        },
    };
    let n = url.unicode_len();
    let host = match Host::from_domain(url.substring_char(at + 1, colon)) {
        Ok(h) => h,
        Err(e) => {
            return Some(Err(e));
        },
    };
    let (user, password) = parse_auth(url.substring_char(0, at));
    let fragment = if pe < n {
        Some(url.substring_char(pe, n))
    } else {
        None
    };
    let password = match password {
        Some(p) => Some(p.to_owned()),
        None => None,
    };
    let g = HostedGit {
        host,
        user: user.to_owned(),
        password,
        project: path_to_project(url.substring_char(ps, pe)),
        committish: hash_to_committish(fragment),
        protocol: Protocol::GitSsh,
    };
    Some(Ok(g))
}

} // verus!
