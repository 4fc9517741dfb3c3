//! Glob-style path patterns, as used by a manifest's `includes` and `ignore`
//! lists.
//!
//! A pattern without `*` names a path, or a directory whose contents it then
//! covers. A pattern with `*` is turned into a regular expression (`**` spans
//! separators, `*` does not) that must match the whole path; a pattern whose
//! expression does not compile matches nothing.

use vstd::prelude::*;
use vstd::string::*;
use crate::text::{has_char, has_prefix, contains_char, same_text, starts_with, chars_of, owned};

verus! {

/// Whether the regex crate accepts `pattern` as a regular expression.
pub uninterp spec fn regex_compiles(pattern: Seq<char>) -> bool;

/// Whether the regular expression `pattern` matches somewhere in `text`, as
/// the regex crate decides it.
pub uninterp spec fn regex_matches(pattern: Seq<char>, text: Seq<char>) -> bool;

/// Relies on `regex::Regex::new`, which fails on a malformed expression, and on
/// `regex::Regex::is_match`, which reports whether the compiled expression
/// matches anywhere in the text. `None` when the expression does not compile.
#[verifier::external_body]
pub(crate) fn regex_search(pattern: &str, text: &str) -> (r: Option<bool>)
    ensures
        r == (if regex_compiles(pattern@) {
            Some(regex_matches(pattern@, text@))
        } else {
            None::<bool>
        }),
{
    match regex::Regex::new(pattern) {
        Ok(re) => Some(re.is_match(text)),
        Err(_) => None,
    }
}

/// The regular expression written for the body of a glob: `**` becomes `.*`,
/// a lone `*` becomes `[^/]*`, and every other character stands for itself.
pub open spec fn glob_regex_body(p: Seq<char>) -> Seq<char>
    decreases p.len(),
{
    if p.len() == 0 {
        Seq::<char>::empty()
    } else if p[0] == '*' && p.len() >= 2 && p[1] == '*' {
        seq!['.', '*'] + glob_regex_body(p.subrange(2, p.len() as int))
    } else if p[0] == '*' {
        seq!['[', '^', '/', ']', '*'] + glob_regex_body(p.subrange(1, p.len() as int))
    } else {
        seq![p[0]] + glob_regex_body(p.subrange(1, p.len() as int))
    }
}

/// The anchored regular expression of a glob.
pub open spec fn glob_regex(p: Seq<char>) -> Seq<char> {
    seq!['^'] + glob_regex_body(p) + seq!['$']
}

/// A pattern without wildcards matches the path it names, and every path
/// below it.
pub open spec fn literal_match(p: Seq<char>, path: Seq<char>) -> bool {
    path == p || has_prefix(path, p + seq!['/'])
}

/// Whether `pattern` matches the relative path `path`.
pub open spec fn glob_matches(pattern: Seq<char>, path: Seq<char>) -> bool {
    if has_char(pattern, '*') {
        regex_compiles(glob_regex(pattern)) && regex_matches(glob_regex(pattern), path)
    } else {
        literal_match(pattern, path)
    }
}

/// Whether some pattern of `patterns` matches `path`.
pub open spec fn any_glob_matches(patterns: Seq<String>, path: Seq<char>) -> bool {
    exists|i: int| 0 <= i < patterns.len() && #[trigger] glob_matches(patterns[i]@, path)
}

/// The anchored regular expression that stands for a glob.
pub fn glob_to_regex(pattern: &str) -> (r: String)
    ensures
        r@ == glob_regex(pattern@),
{
    let pv = chars_of(pattern);
    let n = pv.len();
    proof {
        reveal_strlit("^");
    }
    let mut out = owned("^");
    let mut i: usize = 0;
    assert(pv@.subrange(0, n as int) =~= pv@);
    while i < n
        invariant
            n == pv@.len(),
            pv@ == pattern@,
            i <= n,
            out@ + glob_regex_body(pv@.subrange(i as int, n as int)) == seq!['^'] + glob_regex_body(pv@),
        decreases n - i,
    {
        let rest = Ghost(pv@.subrange(i as int, n as int));
        let prev = Ghost(out@);
        assert(rest@[0] == pv@[i as int]);
        if pv[i] == '*' && i + 1 < n && pv[i + 1] == '*' {
            assert(rest@[1] == pv@[i + 1]);
            assert(rest@.subrange(2, rest@.len() as int) =~= pv@.subrange(i + 2, n as int));
            assert(glob_regex_body(rest@) == seq!['.', '*'] + glob_regex_body(pv@.subrange(i + 2, n as int)));
            proof {
                reveal_strlit(".*");
            }
            out.append(".*");
            i = i + 2;
            assert(out@ + glob_regex_body(pv@.subrange(i as int, n as int)) =~= prev@ + glob_regex_body(rest@));
        } else if pv[i] == '*' {
            assert(rest@.subrange(1, rest@.len() as int) =~= pv@.subrange(i + 1, n as int));
            assert(glob_regex_body(rest@) == seq!['[', '^', '/', ']', '*'] + glob_regex_body(pv@.subrange(i + 1, n as int)));
            proof {
                reveal_strlit("[^/]*");
            }
            out.append("[^/]*");
            i = i + 1;
            assert(out@ + glob_regex_body(pv@.subrange(i as int, n as int)) =~= prev@ + glob_regex_body(rest@));
        } else {
            assert(rest@.subrange(1, rest@.len() as int) =~= pv@.subrange(i + 1, n as int));
            assert(glob_regex_body(rest@) == seq![pv@[i as int]] + glob_regex_body(pv@.subrange(i + 1, n as int)));
            let c = pattern.substring_char(i, i + 1);
            assert(c@ =~= seq![pv@[i as int]]);
            out.append(c);
            i = i + 1;
            assert(out@ + glob_regex_body(pv@.subrange(i as int, n as int)) =~= prev@ + glob_regex_body(rest@));
        }
    }
    assert(pv@.subrange(n as int, n as int) =~= Seq::<char>::empty());
    assert(out@ =~= seq!['^'] + glob_regex_body(pv@));
    proof {
        reveal_strlit("$");
    }
    out.append("$");
    out
}

/// Whether the glob `pattern` matches the relative path `path`.
pub fn glob_match(pattern: &str, path: &str) -> (r: bool)
    ensures
        r == glob_matches(pattern@, path@),
{
    if contains_char(pattern, '*') {
        let re = glob_to_regex(pattern);
        assert(has_char(pattern@, '*'));
        match regex_search(re.as_str(), path) {
            Some(found) => found,
            None => false,
        }
    } else {
        if same_text(path, pattern) {
            return true;
        }
        let mut dir = owned(pattern);
        proof {
            reveal_strlit("/");
        }
        dir.append("/");
        assert(dir@ == pattern@ + seq!['/']);
        let r = starts_with(path, dir.as_str());
        assert(!has_char(pattern@, '*'));
        r
    }
}

} // verus!
