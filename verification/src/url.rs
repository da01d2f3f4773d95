//! Translation of a remote URL into a browsable page.
//!
//! A remote URL is cut by the fixed pattern `<anything>@<host>:<path>.git`:
//! the greedy reading takes the last `".git"`, the last `':'` before it and
//! the last `'@'` before that. When the pattern does not occur, the host
//! falls back to `github.com` and the path to the empty string, so a
//! malformed URL still yields a page.

use vstd::prelude::*;
use vstd::string::StrSliceExecFns;
use vstd::string::StringExecFns;

verus! {

/// `".git"` begins at position `k` of `s`.
pub open spec fn git_at(s: Seq<char>, k: int) -> bool {
    &&& 0 <= k
    &&& k + 4 <= s.len()
    &&& s[k] == '.'
    &&& s[k + 1] == 'g'
    &&& s[k + 2] == 'i'
    &&& s[k + 3] == 't'
}

/// Positions `i < j < k` cut `s` as `…@<host>:<path>.git…`.
pub open spec fn cut_at(s: Seq<char>, i: int, j: int, k: int) -> bool {
    &&& 0 <= i < j < k
    &&& s[i] == '@'
    &&& s[j] == ':'
    &&& git_at(s, k)
}

/// The pattern `<anything>@<host>:<path>.git` occurs somewhere in `s`.
pub open spec fn matches_remote(s: Seq<char>) -> bool {
    exists|i: int, j: int, k: int| cut_at(s, i, j, k)
}

/// The cut the greedy reading selects: the last `".git"` of `s`, the last
/// `':'` before it, and the last `'@'` before that.
pub open spec fn greedy_cut(s: Seq<char>, i: int, j: int, k: int) -> bool {
    &&& cut_at(s, i, j, k)
    &&& forall|k2: int| #[trigger] git_at(s, k2) ==> k2 <= k
    &&& forall|j2: int| j < j2 < k ==> s[j2] != ':'
    &&& forall|i2: int| i < i2 < j ==> s[i2] != '@'
}

/// The host cut from `s`, `github.com` when the pattern does not occur.
pub open spec fn spec_host(s: Seq<char>) -> Seq<char> {
    if matches_remote(s) {
        let (i, j, k) = choose|i: int, j: int, k: int| greedy_cut(s, i, j, k);
        s.subrange(i + 1, j)
    } else {
        "github.com"@
    }
}

/// The path cut from `s`, empty when the pattern does not occur.
pub open spec fn spec_path(s: Seq<char>) -> Seq<char> {
    if matches_remote(s) {
        let (i, j, k) = choose|i: int, j: int, k: int| greedy_cut(s, i, j, k);
        s.subrange(j + 1, k)
    } else {
        Seq::<char>::empty()
    }
}

/// The browsable page for a remote URL and a branch:
/// `https://<host>/<path>/tree/<branch>`.
pub open spec fn spec_target_url(s: Seq<char>, branch: Seq<char>) -> Seq<char> {
    "https://"@ + spec_host(s) + "/"@ + spec_path(s) + "/tree/"@ + branch
}

/// At most one cut is greedy.
proof fn lemma_greedy_cut_unique(s: Seq<char>, i1: int, j1: int, k1: int, i2: int, j2: int, k2: int)
    requires
        greedy_cut(s, i1, j1, k1),
        greedy_cut(s, i2, j2, k2),
    ensures
        i1 == i2,
        j1 == j2,
        k1 == k2,
{
    assert(git_at(s, k1));
    assert(git_at(s, k2));
    assert(k1 == k2);
    if j1 < j2 {
        assert(s[j2] == ':');
        assert(false);
    }
    if j2 < j1 {
        assert(s[j1] == ':');
        assert(false);
    }
    if i1 < i2 {
        assert(s[i2] == '@');
        assert(false);
    }
    if i2 < i1 {
        assert(s[i1] == '@');
        assert(false);
    }
}

/// Law: a remote URL of the exact shape `<user>@<host>:<path>.git` — the
/// host free of `'@'` and `':'`, the path free of `':'` — translates to
/// `https://<host>/<path>/tree/<branch>` for every branch.
pub proof fn lemma_ssh_remote_translates(
    user: Seq<char>,
    host: Seq<char>,
    path: Seq<char>,
    branch: Seq<char>,
)
    requires
        !host.contains('@'),
        !host.contains(':'),
        !path.contains(':'),
    ensures
        spec_target_url(user + seq!['@'] + host + seq![':'] + path + ".git"@, branch)
            == "https://"@ + host + "/"@ + path + "/tree/"@ + branch,
{
    reveal_strlit(".git");
    let s = user + seq!['@'] + host + seq![':'] + path + ".git"@;
    let i = user.len() as int;
    let j = i + 1 + host.len();
    let k = j + 1 + path.len();
    assert(s.len() == k + 4);
    assert(s[i] == '@');
    assert(s[j] == ':');
    assert(s[k] == '.' && s[k + 1] == 'g' && s[k + 2] == 'i' && s[k + 3] == 't');
    assert(cut_at(s, i, j, k));
    assert forall|k2: int| #[trigger] git_at(s, k2) implies k2 <= k by {
        assert(k2 + 4 <= s.len());
    }
    assert forall|j2: int| j < j2 < k implies s[j2] != ':' by {
        assert(s[j2] == path[j2 - (j + 1)]);
        if s[j2] == ':' {
            assert(path.contains(':'));
        }
    }
    assert forall|i2: int| i < i2 < j implies s[i2] != '@' by {
        assert(s[i2] == host[i2 - (i + 1)]);
        if s[i2] == '@' {
            assert(host.contains('@'));
        }
    }
    assert(greedy_cut(s, i, j, k));
    assert(matches_remote(s));
    let (ci, cj, ck) = choose|ci: int, cj: int, ck: int| greedy_cut(s, ci, cj, ck);
    lemma_greedy_cut_unique(s, ci, cj, ck, i, j, k);
    assert(spec_host(s) =~= host);
    assert(spec_path(s) =~= path);
}

/// Law: when the pattern does not occur in the remote URL, every branch
/// yields the fallback page `https://github.com//tree/<branch>`.
pub proof fn lemma_unmatched_remote_falls_back(s: Seq<char>, branch: Seq<char>)
    requires
        !matches_remote(s),
    ensures
        spec_target_url(s, branch) == "https://github.com//tree/"@ + branch,
{
    reveal_strlit("https://");
    reveal_strlit("github.com");
    reveal_strlit("/");
    reveal_strlit("/tree/");
    reveal_strlit("https://github.com//tree/");
    assert(spec_target_url(s, branch) =~= "https://github.com//tree/"@ + branch);
}

/// Position of the last `".git"` in `url`, when there is one.
fn find_last_git(url: &str) -> (r: Option<usize>)
    ensures
        r matches Some(k) ==> git_at(url@, k as int) && (forall|k2: int| #[trigger] git_at(url@, k2)
            ==> k2 <= k as int),
        r is None ==> forall|k2: int| !(#[trigger] git_at(url@, k2)),
{
    let n = url.unicode_len();
    if n < 4 {
        return None;
    }
    let mut b: usize = n - 3;
    while b > 0
        invariant
            n == url@.len(),
            4 <= n,
            b <= n - 3,
            forall|k2: int| b <= k2 ==> !(#[trigger] git_at(url@, k2)),
        decreases b,
    {
        let c = b - 1;
        if url.get_char(c) == '.' && url.get_char(c + 1) == 'g' && url.get_char(c + 2) == 'i'
            && url.get_char(c + 3) == 't' {
            return Some(c);
        }
        b = b - 1;
    }
    None
}

/// Position of the last occurrence of `target` strictly before `bound`,
/// when there is one.
fn find_last_before(url: &str, bound: usize, target: char) -> (r: Option<usize>)
    requires
        bound <= url@.len(),
    ensures
        r matches Some(i) ==> i < bound && url@[i as int] == target && (forall|i2: int|
            i < i2 < bound ==> url@[i2] != target),
        r is None ==> forall|i2: int| 0 <= i2 < bound ==> url@[i2] != target,
{
    let mut b: usize = bound;
    while b > 0
        invariant
            bound <= url@.len(),
            b <= bound,
            forall|i2: int| b <= i2 < bound ==> url@[i2] != target,
        decreases b,
    {
        let i = b - 1;
        if url.get_char(i) == target {
            return Some(i);
        }
        b = b - 1;
    }
    None
}

/// The host and the path cut from a remote URL, with the fallback values
/// when the pattern does not occur.
pub fn parse_remote_url(url: &str) -> (r: (String, String))
    ensures
        r.0@ == spec_host(url@),
        r.1@ == spec_path(url@),
{
    let found = match find_last_git(url) {
        None => {
            proof {
                if matches_remote(url@) {
                    let (i, j, k) = choose|i: int, j: int, k: int| cut_at(url@, i, j, k);
                    assert(git_at(url@, k));
                }
            }
            None
        },
        Some(k) => match find_last_before(url, k, ':') {
            None => {
                proof {
                    if matches_remote(url@) {
                        let (i0, j0, k0) = choose|i: int, j: int, k: int| cut_at(url@, i, j, k);
                        assert(git_at(url@, k0));
                        assert(url@[j0] == ':');
                    }
                }
                None
            },
            Some(j) => match find_last_before(url, j, '@') {
                None => {
                    proof {
                        if matches_remote(url@) {
                            let (i0, j0, k0) = choose|i: int, j: int, k: int| cut_at(url@, i, j, k);
                            assert(git_at(url@, k0));
                            assert(j0 <= j);
                            assert(url@[i0] == '@');
                        }
                    }
                    None
                },
                Some(i) => Some((i, j, k)),
            },
        },
    };
    match found {
        Some((i, j, k)) => {
            proof {
                assert(cut_at(url@, i as int, j as int, k as int));
                assert(greedy_cut(url@, i as int, j as int, k as int));
                assert(matches_remote(url@));
                let (ci, cj, ck) = choose|ci: int, cj: int, ck: int| greedy_cut(url@, ci, cj, ck);
                lemma_greedy_cut_unique(url@, ci, cj, ck, i as int, j as int, k as int);
            }
            let host = String::from_str(url.substring_char(i + 1, j));
            let path = String::from_str(url.substring_char(j + 1, k));
            (host, path)
        },
        None => {
            assert(!matches_remote(url@));
            (String::from_str("github.com"), String::new())
        },
    }
}

/// The page opened for `remote_url` and `branch`:
/// `https://<host>/<path>/tree/<branch>`.
pub fn target_url(remote_url: &str, branch: &str) -> (r: String)
    ensures
        r@ == spec_target_url(remote_url@, branch@),
{
    let cut = parse_remote_url(remote_url);
    let mut page = String::from_str("https://");
    page.append(cut.0.as_str());
    page.append("/");
    page.append(cut.1.as_str());
    page.append("/tree/");
    page.append(branch);
    proof {
        assert(page@ =~= spec_target_url(remote_url@, branch@));
    }
    page
}

} // verus!
