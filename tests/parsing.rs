use hosted_git_info::normalize::{hash_to_committish, parse_auth, path_to_project};
use hosted_git_info::scp::{is_git_url, parse_git_url};
use hosted_git_info::vocab::{get_shortcut_host, is_shortcut};
use hosted_git_info::{Host, HostedGit, ParseError, Protocol, UrlParts};

fn parts(scheme: &str, host: Option<&str>, path: &str) -> UrlParts {
    UrlParts {
        scheme: scheme.to_string(),
        host: host.map(|h| h.to_string()),
        username: String::new(),
        password: None,
        path: path.to_string(),
        query: None,
    }
}

#[test]
fn unknown_host_is_rejected() {
    assert_eq!(
        HostedGit::new("https://unknown-host.example/abc/def"),
        Err(ParseError::UnknownHost)
    );
}

#[test]
fn garbage_is_unparseable() {
    assert_eq!(HostedGit::new("not a url"), Err(ParseError::UnparseableUrl));
    assert_eq!(HostedGit::new(""), Err(ParseError::UnparseableUrl));
}

#[test]
fn unknown_scheme_is_rejected() {
    assert_eq!(
        HostedGit::new("ftp://github.com/abc/def"),
        Err(ParseError::UnknownProtocol)
    );
}

#[test]
fn scp_unknown_host_is_rejected() {
    assert_eq!(HostedGit::new("git@example.com:abc/def"), Err(ParseError::UnknownHost));
}

#[test]
fn scp_full_record() {
    let g = HostedGit::new("user:pw@github.com:abc/def.git#v1.0").unwrap();
    assert_eq!(
        g,
        HostedGit {
            host: Host::Github,
            user: "user".to_string(),
            password: Some("pw".to_string()),
            project: "abc/def".to_string(),
            committish: Some("v1.0".to_string()),
            protocol: Protocol::GitSsh,
        }
    );
}

#[test]
fn scp_leading_slash_path() {
    let g = HostedGit::new("git@gitlab.com:/org/repo.git").unwrap();
    assert_eq!(g.host, Host::Gitlab);
    assert_eq!(g.user, "git");
    assert_eq!(g.password, None);
    assert_eq!(g.project, "org/repo");
    assert_eq!(g.committish, None);
}

#[test]
fn scp_form_detection() {
    assert!(is_git_url("git@github.com:abc/def"));
    assert!(is_git_url("git@github.com:abc"));
    assert!(is_git_url("git@github.com:abc#x/y"));
    assert!(!is_git_url("git@github.com:a/b/c"));
    assert!(!is_git_url("git@github.com:"));
    assert!(!is_git_url("@github.com:abc"));
    assert!(!is_git_url("git@:abc"));
    assert!(!is_git_url("github:abc/def"));
    assert!(!is_git_url("ssh://git@github.com/abc/def"));
    assert!(parse_git_url("https://github.com/abc/def").is_none());
}

#[test]
fn scp_committish_keeps_later_hashes() {
    let g = HostedGit::new("git@github.com:abc/def#a#b").unwrap();
    assert_eq!(g.project, "abc/def");
    assert_eq!(g.committish, Some("a#b".to_string()));
}

#[test]
fn url_record_with_credentials_and_query() {
    let g = HostedGit::new("https://u:p@bitbucket.org/a/b.git?ref").unwrap();
    assert_eq!(
        g,
        HostedGit {
            host: Host::Bitbucket,
            user: "u".to_string(),
            password: Some("p".to_string()),
            project: "a/b".to_string(),
            committish: Some("ref".to_string()),
            protocol: Protocol::Https,
        }
    );
}

#[test]
fn shortcut_record() {
    let g = HostedGit::new("gist:abc").unwrap();
    assert_eq!(g.host, Host::Gist);
    assert_eq!(g.protocol, Protocol::Shortcut);
    assert_eq!(g.project, "abc");
    assert_eq!(g.user, "");
}

#[test]
fn url_path_reaches_project() {
    let g = HostedGit::new("http://gitlab.com/group/project.git").unwrap();
    assert_eq!(g.project, "group/project");
    assert_eq!(g.protocol, Protocol::Http);
    assert_eq!(g.get_default_representation(), "http");
    let g = HostedGit::new("git+http://gist.github.com/abc").unwrap();
    assert_eq!(g.host, Host::Gist);
    assert_eq!(g.get_default_representation(), "git+http");
}

#[test]
fn parse_is_deterministic() {
    for s in ["git@github.com:abc/def", "https://github.com/abc/def", "nope", "ftp://x/y"] {
        assert_eq!(HostedGit::new(s), HostedGit::new(s));
    }
}

#[test]
fn from_parts_exact() {
    let g = HostedGit::from_url_parts(&parts("https", Some("github.com"), "/abc/def.git")).unwrap();
    assert_eq!(g.project, "abc/def");
    assert_eq!(g.host, Host::Github);
    assert_eq!(g.protocol, Protocol::Https);
    assert_eq!(g.committish, None);
}

#[test]
fn from_parts_errors() {
    assert_eq!(
        HostedGit::from_url_parts(&parts("https", None, "/abc")),
        Err(ParseError::UnknownHost)
    );
    assert_eq!(
        HostedGit::from_url_parts(&parts("HTTPS", Some("github.com"), "/abc")),
        Err(ParseError::UnknownProtocol)
    );
    assert_eq!(
        HostedGit::from_url_parts(&parts("https", Some("GitHub.com"), "/abc")),
        Err(ParseError::UnknownHost)
    );
}

#[test]
fn from_parts_shortcut_ignores_host() {
    let g = HostedGit::from_url_parts(&parts("gitlab", Some("github.com"), "a/b")).unwrap();
    assert_eq!(g.host, Host::Gitlab);
    assert_eq!(g.protocol, Protocol::Shortcut);
}

#[test]
fn auth_splitting() {
    assert_eq!(parse_auth("user:pw"), ("user", Some("pw")));
    assert_eq!(parse_auth("user:pw:more"), ("user", Some("pw:more")));
    assert_eq!(parse_auth("user"), ("user", None));
    assert_eq!(parse_auth(""), ("", None));
    assert_eq!(parse_auth(":pw"), ("", Some("pw")));
}

#[test]
fn project_normalizing() {
    assert_eq!(path_to_project("/abc/def.git"), "abc/def");
    assert_eq!(path_to_project("/abc/def"), "abc/def");
    assert_eq!(path_to_project("abc.git"), "abc");
    assert_eq!(path_to_project("/"), "");
    assert_eq!(path_to_project(""), "");
    assert_eq!(path_to_project("/.git"), "");
    assert_eq!(path_to_project("/a.git.git"), "a.git");
    assert_eq!(path_to_project("//a"), "/a");
}

#[test]
fn project_normalizing_is_idempotent() {
    for p in ["/abc/def.git", "/x", "abc/def", "/.git", "/a/b/c.git"] {
        let once = path_to_project(p);
        assert_eq!(path_to_project(&once), once);
        assert_eq!(path_to_project(&format!("/{}", once)), once);
        assert!(!once.starts_with('/'));
        assert!(!once.ends_with(".git"));
    }
}

#[test]
fn committish_normalizing() {
    assert_eq!(hash_to_committish(None), None);
    assert_eq!(hash_to_committish(Some("#v1")), Some("v1".to_string()));
    assert_eq!(hash_to_committish(Some("#")), Some(String::new()));
    assert_eq!(hash_to_committish(Some("")), Some(String::new()));
    assert_eq!(hash_to_committish(Some("#é#x")), Some("é#x".to_string()));
}

#[test]
fn vocabularies() {
    assert_eq!(Protocol::from_str("github"), Ok(Protocol::Shortcut));
    assert_eq!(Protocol::from_str("git+ssh"), Ok(Protocol::GitSsh));
    assert_eq!(Protocol::from_str("git+https"), Ok(Protocol::GitHttps));
    assert_eq!(Protocol::from_str("ssh"), Ok(Protocol::Ssh));
    assert_eq!(Protocol::from_str("Git"), Err(ParseError::UnknownProtocol));
    assert_eq!(Protocol::GitHttps.to_str(), "https");
    assert_eq!(Protocol::Ssh.to_str(), "sshurl");
    assert_eq!(Host::from_str("bitbucket"), Ok(Host::Bitbucket));
    assert_eq!(Host::from_str("bitbucket.org"), Err(ParseError::UnknownHost));
    assert_eq!(Host::from_domain("gist.github.com"), Ok(Host::Gist));
    assert_eq!(Host::from_domain("www.github.com"), Err(ParseError::UnknownHost));
    assert_eq!(Host::Gitlab.to_string(), "gitlab");
    assert_eq!(Host::Gist.to_str(), "gist");
    assert_eq!(
        Host::into_iter(),
        vec![Host::Github, Host::Bitbucket, Host::Gitlab, Host::Gist]
    );
    assert_eq!(get_shortcut_host("gist"), Some(Host::Gist));
    assert_eq!(get_shortcut_host("gist.github.com"), None);
    assert!(is_shortcut("github"));
    assert!(!is_shortcut("https"));
}
