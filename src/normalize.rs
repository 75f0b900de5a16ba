//! Small pure transforms on the fields of a locator.

use vstd::prelude::*;

use crate::text::{find_char, index_from};

verus! {

/// Whether `q` ends in `.git`.
pub open spec fn ends_with_git(q: Seq<char>) -> bool {
    &&& q.len() >= 4
    &&& q[q.len() - 4] == '.'
    &&& q[q.len() - 3] == 'g'
    &&& q[q.len() - 2] == 'i'
    &&& q[q.len() - 1] == 't'
}

/// `p` without one leading `/`, if it has one.
pub open spec fn strip_leading_slash(p: Seq<char>) -> Seq<char> {
    if p.len() > 0 && p[0] == '/' {
        p.drop_first()
    } else {
        p
    }
}

/// `q` without one trailing `.git`, if it has one.
pub open spec fn strip_git_suffix(q: Seq<char>) -> Seq<char> {
    if ends_with_git(q) {
        q.subrange(0, q.len() - 4)
    } else {
        q
    }
}

/// The project a path names: the path without its leading `/` and trailing `.git`.
pub open spec fn project_of(p: Seq<char>) -> Seq<char> {
    strip_git_suffix(strip_leading_slash(p))
}

/// A raw fragment or query without its leading delimiter.
pub open spec fn committish_of(h: Option<Seq<char>>) -> Option<Seq<char>> {
    match h {
        None => None,
        Some(c) => Some(
            if c.len() == 0 {
                c
            } else {
                c.drop_first()
            },
        ),
    }
}

/// The user and password of a raw `user[:password]` string, split at the first colon.
pub open spec fn split_auth(raw: Seq<char>) -> (Seq<char>, Option<Seq<char>>) {
    let c = index_from(raw, ':', 0);
    if c < raw.len() {
        (raw.subrange(0, c), Some(raw.subrange(c + 1, raw.len() as int)))
    } else {
        (raw, None)
    }
}

/// Whether a path normalizes cleanly: it does not begin with two slashes and
/// does not end in `.git` twice.
pub open spec fn tidy_path(p: Seq<char>) -> bool {
    &&& !(p.len() >= 2 && p[0] == '/' && p[1] == '/')
    &&& !(ends_with_git(p) && ends_with_git(p.subrange(0, p.len() - 4)))
}

/// The project of a tidy path neither begins with `/` nor ends in `.git`.
pub proof fn lemma_project_is_clean(p: Seq<char>)
    requires
        tidy_path(p),
    ensures
        !(project_of(p).len() > 0 && project_of(p)[0] == '/'),
        !ends_with_git(project_of(p)),
{
    let q = strip_leading_slash(p);
    let k = p.len() - q.len();
    assert(q == p.subrange(k, p.len() as int));
    if ends_with_git(q) {
        let t = q.subrange(0, q.len() - 4);
        assert(p.subrange(0, p.len() - 4).len() == p.len() - 4);
        if ends_with_git(t) {
            assert(t[t.len() - 4] == p.subrange(0, p.len() - 4)[p.len() - 8]);
            assert(t[t.len() - 3] == p.subrange(0, p.len() - 4)[p.len() - 7]);
            assert(t[t.len() - 2] == p.subrange(0, p.len() - 4)[p.len() - 6]);
            assert(t[t.len() - 1] == p.subrange(0, p.len() - 4)[p.len() - 5]);
        }
        if t.len() > 0 {
            assert(t[0] == q[0]);
        }
    }
}

/// Normalizing the project of a tidy path again changes nothing, whether or not
/// a leading `/` is put back first.
pub proof fn lemma_project_idempotent(p: Seq<char>)
    requires
        tidy_path(p),
    ensures
        project_of(project_of(p)) == project_of(p),
        project_of(seq!['/'] + project_of(p)) == project_of(p),
{
    lemma_project_is_clean(p);
    let r = project_of(p);
    let u = seq!['/'] + r;
    assert(strip_leading_slash(u) == r);
    if ends_with_git(u) {
        assert(r.len() >= 4 ==> u[u.len() - 4] == r[r.len() - 4]);
        assert(r.len() == 3 ==> u[u.len() - 4] == '/');
    }
}

/// A raw fragment whose delimiter does not recur yields a committish without it.
pub proof fn lemma_committish_drops_delimiter(h: Seq<char>)
    requires
        h.len() > 0,
        forall|i: int| 1 <= i < h.len() ==> #[trigger] h[i] != h[0],
    ensures
        committish_of(Some(h)) == Some(h.drop_first()),
        !h.drop_first().contains(h[0]),
{
    if h.drop_first().contains(h[0]) {
        let j = choose|j: int| 0 <= j < h.drop_first().len() && h.drop_first()[j] == h[0];
        assert(h[j + 1] == h[0]);
    }
}

/// Splits `user[:password]` at its first colon.
pub fn parse_auth<'a>(raw: &'a str) -> (r: (&'a str, Option<&'a str>))
    ensures
        (r.0@, r.1.deep_view()) == split_auth(raw@),
{
    let n = raw.unicode_len();
    let c = find_char(raw, n, ':', 0);
    if c < n {
        (raw.substring_char(0, c), Some(raw.substring_char(c + 1, n)))
    } else {
        (raw, None)
    }
}

/// The project a path names: strips one leading `/` and one trailing `.git`.
pub fn path_to_project(path: &str) -> (r: String)
    ensures
        r@ == project_of(path@),
{
    let n = path.unicode_len();
    let start: usize = if n > 0 && path.get_char(0) == '/' {
        1
    } else {
        0
    };
    let end: usize = if n - start >= 4 && path.get_char(n - 4) == '.' && path.get_char(n - 3)
        == 'g' && path.get_char(n - 2) == 'i' && path.get_char(n - 1) == 't' {
        n - 4
    } else {
        n
    };
    let ghost q = strip_leading_slash(path@);
    assert(q == path@.subrange(start as int, n as int));
    assert(ends_with_git(q) ==> end == n - 4);
    path.substring_char(start, end).to_owned()
}

/// Strips the leading delimiter of a raw fragment or query.
pub fn hash_to_committish(hash: Option<&str>) -> (r: Option<String>)
    ensures
        r.deep_view() == committish_of(hash.deep_view()),
{
    match hash {
        None => None,
        Some(c) => {
            let n = c.unicode_len();
            if n == 0 {
                Some(c.to_owned())
            } else {
                Some(c.substring_char(1, n).to_owned())
            }
        },
    }
}

} // verus!
