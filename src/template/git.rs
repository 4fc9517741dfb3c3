//! Templates from git repositories: the shorthand forms of repository
//! addresses. Cloning is the caller's part.

use vstd::prelude::*;
use crate::text::{has_prefix, owned, starts_with};

verus! {

/// The hosts that have a shorthand, as (prefix, host URL) pairs, in the
/// order they are tried.
pub open spec fn shorthand(i: int) -> (Seq<char>, Seq<char>) {
    if i == 0 {
        ("gh:"@, "https://github.com/"@)
    } else if i == 1 {
        ("github:"@, "https://github.com/"@)
    } else if i == 2 {
        ("gl:"@, "https://gitlab.com/"@)
    } else if i == 3 {
        ("gitlab:"@, "https://gitlab.com/"@)
    } else if i == 4 {
        ("bb:"@, "https://bitbucket.org/"@)
    } else {
        ("bitbucket:"@, "https://bitbucket.org/"@)
    }
}

/// The number of shorthand prefixes.
pub open spec fn shorthand_count() -> int {
    6
}

/// The address a repository reference stands for: `gh:owner/repo` and the
/// like become the host's `.git` address; anything else is kept as it is.
pub open spec fn expanded_url(url: Seq<char>) -> Seq<char> {
    if exists|i: int| 0 <= i < shorthand_count() && has_prefix(url, #[trigger] shorthand(i).0) {
        let i = choose|i: int|
            0 <= i < shorthand_count() && has_prefix(url, #[trigger] shorthand(i).0) && forall|j: int|
                0 <= j < i ==> !has_prefix(url, #[trigger] shorthand(j).0);
        shorthand(i).1 + url.subrange(shorthand(i).0.len() as int, url.len() as int) + ".git"@
    } else {
        url
    }
}

fn expand_with(url: &str, prefix: &str, host: &str) -> (r: String)
    requires
        has_prefix(url@, prefix@),
    ensures
        r@ == host@ + url@.subrange(prefix@.len() as int, url@.len() as int) + ".git"@,
{
    let n = url.unicode_len();
    let p = prefix.unicode_len();
    let mut r = owned(host);
    r.append(url.substring_char(p, n));
    r.append(".git");
    r
}

/// Expands a shorthand repository reference.
pub fn expand_url(url: &str) -> (r: String)
    ensures
        r@ == expanded_url(url@),
{
    if starts_with(url, "gh:") {
        proof { pick(url@, 0); }
        expand_with(url, "gh:", "https://github.com/")
    } else if starts_with(url, "github:") {
        proof { pick(url@, 1); }
        expand_with(url, "github:", "https://github.com/")
    } else if starts_with(url, "gl:") {
        proof { pick(url@, 2); }
        expand_with(url, "gl:", "https://gitlab.com/")
    } else if starts_with(url, "gitlab:") {
        proof { pick(url@, 3); }
        expand_with(url, "gitlab:", "https://gitlab.com/")
    } else if starts_with(url, "bb:") {
        proof { pick(url@, 4); }
        expand_with(url, "bb:", "https://bitbucket.org/")
    } else if starts_with(url, "bitbucket:") {
        proof { pick(url@, 5); }
        expand_with(url, "bitbucket:", "https://bitbucket.org/")
    } else {
        proof {
            assert forall|i: int| 0 <= i < shorthand_count() implies !has_prefix(url@, #[trigger] shorthand(i).0) by {
                if i == 0 {} else if i == 1 {} else if i == 2 {} else if i == 3 {} else if i == 4 {} else {}
            }
        }
        owned(url)
    }
}

/// When `i` is the first shorthand whose prefix `url` carries, the expansion
/// uses it.
proof fn pick(url: Seq<char>, i: int)
    requires
        0 <= i < shorthand_count(),
        has_prefix(url, shorthand(i).0),
        forall|j: int| 0 <= j < i ==> !has_prefix(url, #[trigger] shorthand(j).0),
    ensures
        expanded_url(url) == shorthand(i).1 + url.subrange(shorthand(i).0.len() as int, url.len() as int)
            + ".git"@,
{
    let k = choose|k: int|
        0 <= k < shorthand_count() && has_prefix(url, #[trigger] shorthand(k).0) && forall|j: int|
            0 <= j < k ==> !has_prefix(url, #[trigger] shorthand(j).0);
    assert(k == i) by {
        if k < i {
            assert(!has_prefix(url, shorthand(k).0));
        }
        if k > i {
            assert(!has_prefix(url, shorthand(i).0));
        }
    }
}

} // verus!
