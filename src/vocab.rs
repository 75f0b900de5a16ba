//! The closed vocabularies of transports and hosting providers.

use vstd::prelude::*;

use crate::text::str_eq;

verus! {

/// Why a locator was not recognized.
#[derive(Clone, Copy, Debug, PartialEq, Eq, Structural)]
pub enum ParseError {
    /// The scheme is neither a known transport nor a host shortcut.
    UnknownProtocol,
    /// The host domain or shortcut is not a supported provider.
    UnknownHost,
    /// The input is neither scp-like shorthand nor a well-formed URL.
    UnparseableUrl,
}

/// The transport a locator names.
#[derive(Clone, Copy, Debug, PartialEq, Eq, Structural)]
pub enum Protocol {
    GitSsh,
    GitHttps,
    GitHttp,
    Ssh,
    Https,
    Http,
    Git,
    Shortcut,
}

/// A supported hosting provider.
#[derive(Clone, Copy, Debug, PartialEq, Eq, Structural)]
pub enum Host {
    Github,
    Bitbucket,
    Gitlab,
    Gist,
}

/// The canonical name of a provider, which is also its shortcut scheme.
pub open spec fn host_name(h: Host) -> Seq<char> {
    match h {
        Host::Github => "github"@,
        Host::Bitbucket => "bitbucket"@,
        Host::Gitlab => "gitlab"@,
        Host::Gist => "gist"@,
    }
}

/// The one domain recognized for a provider.
pub open spec fn host_domain(h: Host) -> Seq<char> {
    match h {
        Host::Github => "github.com"@,
        Host::Bitbucket => "bitbucket.org"@,
        Host::Gitlab => "gitlab.com"@,
        Host::Gist => "gist.github.com"@,
    }
}

/// The provider whose canonical name is `t`.
pub open spec fn host_from_name(t: Seq<char>) -> Option<Host> {
    if t == "github"@ {
        Some(Host::Github)
    } else if t == "bitbucket"@ {
        Some(Host::Bitbucket)
    } else if t == "gitlab"@ {
        Some(Host::Gitlab)
    } else if t == "gist"@ {
        Some(Host::Gist)
    } else {
        None
    }
}

/// The provider whose domain is exactly `d`.
pub open spec fn host_from_domain(d: Seq<char>) -> Option<Host> {
    if d == "github.com"@ {
        Some(Host::Github)
    } else if d == "bitbucket.org"@ {
        Some(Host::Bitbucket)
    } else if d == "gitlab.com"@ {
        Some(Host::Gitlab)
    } else if d == "gist.github.com"@ {
        Some(Host::Gist)
    } else {
        None
    }
}

/// The provider a shortcut scheme stands for.
pub open spec fn shortcut_host(t: Seq<char>) -> Option<Host> {
    host_from_name(t)
}

/// The transport a scheme token denotes; a provider name denotes `Shortcut`.
pub open spec fn protocol_from_token(t: Seq<char>) -> Option<Protocol> {
    if shortcut_host(t) is Some {
        Some(Protocol::Shortcut)
    } else if t == "git+ssh"@ {
        Some(Protocol::GitSsh)
    } else if t == "git+https"@ {
        Some(Protocol::GitHttps)
    } else if t == "git+http"@ {
        Some(Protocol::GitHttp)
    } else if t == "ssh"@ {
        Some(Protocol::Ssh)
    } else if t == "https"@ {
        Some(Protocol::Https)
    } else if t == "http"@ {
        Some(Protocol::Http)
    } else if t == "git"@ {
        Some(Protocol::Git)
    } else {
        None
    }
}

/// The display form of a transport.
pub open spec fn protocol_display(p: Protocol) -> Seq<char> {
    match p {
        Protocol::GitSsh => "sshurl"@,
        Protocol::GitHttps => "https"@,
        Protocol::GitHttp => "git+http"@,
        Protocol::Ssh => "sshurl"@,
        Protocol::Https => "https"@,
        Protocol::Http => "http"@,
        Protocol::Git => "git"@,
        Protocol::Shortcut => "shortcut"@,
    }
}

impl Protocol {
    /// The transport named by a scheme token; a provider name gives `Shortcut`.
    pub fn from_str(proto: &str) -> (r: Result<Protocol, ParseError>)
        ensures
            r == (match protocol_from_token(proto@) {
                Some(p) => Ok(p),
                None => Err(ParseError::UnknownProtocol),
            }),
    {
        if is_shortcut(proto) {
            Ok(Protocol::Shortcut)
        } else if str_eq(proto, "git+ssh") {
            Ok(Protocol::GitSsh)
        } else if str_eq(proto, "git+https") {
            Ok(Protocol::GitHttps)
        } else if str_eq(proto, "git+http") {
            Ok(Protocol::GitHttp)
        } else if str_eq(proto, "ssh") {
            Ok(Protocol::Ssh)
        } else if str_eq(proto, "https") {
            Ok(Protocol::Https)
        } else if str_eq(proto, "http") {
            Ok(Protocol::Http)
        } else if str_eq(proto, "git") {
            Ok(Protocol::Git)
        } else {
            Err(ParseError::UnknownProtocol)
        }
    }

    /// The display form of this transport.
    pub fn to_str(&self) -> (r: &'static str)
        ensures
            r@ == protocol_display(*self),
    {
        match *self {
            Protocol::GitSsh => "sshurl",
            Protocol::GitHttps => "https",
            Protocol::GitHttp => "git+http",
            Protocol::Ssh => "sshurl",
            Protocol::Https => "https",
            Protocol::Http => "http",
            Protocol::Git => "git",
            Protocol::Shortcut => "shortcut",
        }
    }
}

impl Host {
    /// Every supported provider, in a fixed order.
    pub fn into_iter() -> (r: Vec<Host>)
        ensures
            r@ == seq![Host::Github, Host::Bitbucket, Host::Gitlab, Host::Gist],
    {
        vec![Host::Github, Host::Bitbucket, Host::Gitlab, Host::Gist]
    }

    /// The canonical name of this provider.
    pub fn to_str(&self) -> (r: &'static str)
        ensures
            r@ == host_name(*self),
    {
        match *self {
            Host::Github => "github",
            Host::Bitbucket => "bitbucket",
            Host::Gitlab => "gitlab",
            Host::Gist => "gist",
        }
    }

    /// The canonical name of this provider, owned.
    pub fn to_string(&self) -> (r: String)
        ensures
            r@ == host_name(*self),
    {
        self.to_str().to_owned()
    }

    /// The provider whose canonical name is exactly `host`.
    pub fn from_str(host: &str) -> (r: Result<Host, ParseError>)
        ensures
            r == (match host_from_name(host@) {
                Some(h) => Ok(h),
                None => Err(ParseError::UnknownHost),
            }),
    {
        if str_eq(host, "github") {
            Ok(Host::Github)
        } else if str_eq(host, "bitbucket") {
            Ok(Host::Bitbucket)
        } else if str_eq(host, "gitlab") {
            Ok(Host::Gitlab)
        } else if str_eq(host, "gist") {
            Ok(Host::Gist)
        } else {
            Err(ParseError::UnknownHost)
        }
    }

    /// The provider whose domain is exactly `domain`.
    pub fn from_domain(domain: &str) -> (r: Result<Host, ParseError>)
        ensures
            r == (match host_from_domain(domain@) {
                Some(h) => Ok(h),
                None => Err(ParseError::UnknownHost),
            }),
    {
        if str_eq(domain, "github.com") {
            Ok(Host::Github)
        } else if str_eq(domain, "bitbucket.org") {
            Ok(Host::Bitbucket)
        } else if str_eq(domain, "gitlab.com") {
            Ok(Host::Gitlab)
        } else if str_eq(domain, "gist.github.com") {
            Ok(Host::Gist)
        } else {
            Err(ParseError::UnknownHost)
        }
    }
}

/// The provider whose name equals a shortcut scheme, found by walking all providers.
pub fn get_shortcut_host(protocol: &str) -> (r: Option<Host>)
    ensures
        r == shortcut_host(protocol@),
{
    let hosts = Host::into_iter();
    let mut i: usize = 0;
    while i < hosts.len()
        invariant
            hosts@ == seq![Host::Github, Host::Bitbucket, Host::Gitlab, Host::Gist],
            i <= hosts@.len(),
            forall|j: int| 0 <= j < i ==> host_name(#[trigger] hosts@[j]) != protocol@,
        decreases hosts.len() - i,
    {
        let h = hosts[i];
        if str_eq(h.to_str(), protocol) {
            return Some(h);
        }
        i = i + 1;
    }
    assert(host_name(hosts@[0]) != protocol@);
    assert(host_name(hosts@[1]) != protocol@);
    assert(host_name(hosts@[2]) != protocol@);
    assert(host_name(hosts@[3]) != protocol@);
    None
}

/// Whether a scheme token is a provider shortcut.
pub fn is_shortcut(protocol: &str) -> (r: bool)
    ensures
        r == (shortcut_host(protocol@) is Some),
{
    get_shortcut_host(protocol).is_some()
}

} // verus!
