//! The rules a project name must follow to serve as a crate name.

use vstd::prelude::*;
use crate::error::CargoJamError;
use crate::template::pattern::{regex_compiles, regex_matches, regex_search};
use crate::text::{owned, same_text};

verus! {

/// The shape of a valid name: a lowercase letter, then lowercase letters,
/// digits, `_` and `-`.
pub const NAME_PATTERN: &'static str = "^[a-z][a-z0-9_-]*$";

/// The longest name accepted, in characters.
pub const MAX_NAME_LEN: usize = 64;

/// Whether the name has the shape of `NAME_PATTERN`.
pub open spec fn name_shape_ok(name: Seq<char>) -> bool {
    regex_compiles(NAME_PATTERN@) && regex_matches(NAME_PATTERN@, name)
}

/// The names that Rust reserves.
pub open spec fn reserved_name(name: Seq<char>) -> bool {
    name == "self"@ || name == "super"@ || name == "crate"@ || name == "Self"@ || name == "test"@
        || name == "std"@ || name == "core"@ || name == "alloc"@
}

/// Why a name is refused, by the first rule it breaks; `None` for a valid
/// name.
pub open spec fn rejection_reason(name: Seq<char>) -> Option<Seq<char>> {
    if name.len() == 0 {
        Some("Project name cannot be empty"@)
    } else if !name_shape_ok(name) {
        Some(
            "Must start with a lowercase letter and contain only lowercase letters, numbers, underscores, and hyphens"@,
        )
    } else if reserved_name(name) {
        Some(seq!['\''] + name + "' is a reserved Rust keyword"@)
    } else if name.len() > MAX_NAME_LEN {
        Some("Project name must be 64 characters or less"@)
    } else {
        None
    }
}

/// Whether the name is one that Rust reserves.
pub fn is_reserved(name: &str) -> (r: bool)
    ensures
        r == reserved_name(name@),
{
    same_text(name, "self") || same_text(name, "super") || same_text(name, "crate")
        || same_text(name, "Self") || same_text(name, "test") || same_text(name, "std")
        || same_text(name, "core") || same_text(name, "alloc")
}

fn refuse(name: &str, reason: String) -> (r: Result<(), CargoJamError>)
    ensures
        r matches Err(CargoJamError::InvalidProjectName { name: n, reason: m }) && n@ == name@
            && m@ == reason@,
{
    Err(CargoJamError::InvalidProjectName { name: owned(name), reason })
}

/// Checks a project name: it is refused when empty, when it does not have
/// the shape of `NAME_PATTERN`, when Rust reserves it, or when it is longer
/// than `MAX_NAME_LEN`.
pub fn validate_project_name(name: &str) -> (r: Result<(), CargoJamError>)
    ensures
        match rejection_reason(name@) {
            None => r is Ok,
            Some(reason) => r matches Err(CargoJamError::InvalidProjectName { name: n, reason: m })
                && n@ == name@ && m@ == reason,
        },
{
    let n = name.unicode_len();
    if n == 0 {
        return refuse(name, owned("Project name cannot be empty"));
    }
    let shape_ok = match regex_search(NAME_PATTERN, name) {
        Some(found) => found,
        None => false,
    };
    if !shape_ok {
        return refuse(
            name,
            owned(
                "Must start with a lowercase letter and contain only lowercase letters, numbers, underscores, and hyphens",
            ),
        );
    }
    if is_reserved(name) {
        let q = "'";
        proof {
            reveal_strlit("'");
        }
        let mut reason = owned(q);
        reason.append(name);
        reason.append("' is a reserved Rust keyword");
        return refuse(name, reason);
    }
    if n > MAX_NAME_LEN {
        return refuse(name, owned("Project name must be 64 characters or less"));
    }
    Ok(())
}

} // verus!
