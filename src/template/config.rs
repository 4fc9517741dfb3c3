//! The manifest of a template: its metadata, its placeholders and the pattern
//! lists that select which files are rendered and which are left out.

use vstd::prelude::*;
use crate::template::pattern::{any_glob_matches, glob_match};
use crate::text::{owned, same_text};
use crate::prompt::values::keys_unique;

verus! {

/// The name of the manifest file at the root of every template. It is never
/// copied into a generated project.
pub const MANIFEST_FILE: &'static str = "cargo-polkajam.toml";

/// The characters of a list of strings.
pub open spec fn views(v: Seq<String>) -> Seq<Seq<char>> {
    v.map_values(|s: String| s@)
}

/// The characters of an optional string.
pub open spec fn opt_view(o: Option<String>) -> Option<Seq<char>> {
    match o {
        Some(s) => Some(s@),
        None => None,
    }
}

/// The text a boolean is written as: `true` or `false`.
pub open spec fn bool_text(b: bool) -> Seq<char> {
    if b {
        seq!['t', 'r', 'u', 'e']
    } else {
        seq!['f', 'a', 'l', 's', 'e']
    }
}

/// The `[template]` table of a manifest.
#[derive(Debug)]
pub struct TemplateMetadata {
    pub name: String,
    pub description: Option<String>,
    pub version: Option<String>,
    pub includes: Vec<String>,
    pub exclude: Vec<String>,
    pub ignore: Vec<String>,
}

/// A variable that a template asks for.
#[derive(Debug)]
pub enum Placeholder {
    String {
        prompt: String,
        default: Option<String>,
        regex: Option<String>,
        choices: Option<Vec<String>>,
    },
    Bool { prompt: String, default: Option<bool> },
}

/// A named set of pattern lists. Manifests may carry these; generation does
/// not consult them.
#[derive(Debug)]
pub struct ConditionalConfig {
    pub includes: Vec<String>,
    pub exclude: Vec<String>,
    pub ignore: Vec<String>,
}

/// A whole manifest. Placeholders and conditional sections are keyed by name,
/// each name at most once.
#[derive(Debug)]
pub struct TemplateConfig {
    pub template: TemplateMetadata,
    pub placeholders: Vec<(String, Placeholder)>,
    pub conditional: Vec<(String, ConditionalConfig)>,
}

impl Placeholder {
    /// The prompt text.
    pub open spec fn prompt_text(&self) -> Seq<char> {
        match self {
            Placeholder::String { prompt, .. } => prompt@,
            Placeholder::Bool { prompt, .. } => prompt@,
        }
    }

    /// The declared default as text; a boolean default is written `true` or
    /// `false`.
    pub open spec fn default_text(&self) -> Option<Seq<char>> {
        match self {
            Placeholder::String { default, .. } => opt_view(*default),
            Placeholder::Bool { default, .. } => match default {
                Some(b) => Some(bool_text(*b)),
                None => None,
            },
        }
    }

    /// The declared choices of a string placeholder.
    pub open spec fn choice_list(&self) -> Option<Vec<String>> {
        match self {
            Placeholder::String { choices, .. } => *choices,
            Placeholder::Bool { .. } => None,
        }
    }

    /// The declared validation expression of a string placeholder.
    pub open spec fn regex_text(&self) -> Option<Seq<char>> {
        match self {
            Placeholder::String { regex, .. } => opt_view(*regex),
            Placeholder::Bool { .. } => None,
        }
    }

    pub fn prompt(&self) -> (r: &str)
        ensures
            r@ == self.prompt_text(),
    {
        match self {
            Placeholder::String { prompt, .. } => prompt.as_str(),
            Placeholder::Bool { prompt, .. } => prompt.as_str(),
        }
    }

    pub fn default_value(&self) -> (r: Option<String>)
        ensures
            opt_view(r) == self.default_text(),
    {
        match self {
            Placeholder::String { default, .. } => match default {
                Some(d) => Some(d.clone()),
                None => None,
            },
            Placeholder::Bool { default, .. } => match default {
                Some(b) => Some(bool_string(*b)),
                None => None,
            },
        }
    }

    pub fn choices(&self) -> (r: Option<&Vec<String>>)
        ensures
            match r {
                Some(c) => self.choice_list() == Some(*c),
                None => self.choice_list() is None,
            },
    {
        match self {
            Placeholder::String { choices, .. } => match choices {
                Some(c) => Some(c),
                None => None,
            },
            Placeholder::Bool { .. } => None,
        }
    }

    pub fn regex(&self) -> (r: Option<&str>)
        ensures
            match r {
                Some(p) => self.regex_text() == Some(p@),
                None => self.regex_text() is None,
            },
    {
        match self {
            Placeholder::String { regex, .. } => match regex {
                Some(p) => Some(p.as_str()),
                None => None,
            },
            Placeholder::Bool { .. } => None,
        }
    }

    pub fn is_bool(&self) -> (r: bool)
        ensures
            r == self is Bool,
    {
        match self {
            Placeholder::Bool { .. } => true,
            Placeholder::String { .. } => false,
        }
    }
}

/// `true` or `false`, as text.
pub fn bool_string(b: bool) -> (r: String)
    ensures
        r@ == bool_text(b),
{
    if b {
        let t = "true";
        proof {
            reveal_strlit("true");
        }
        owned(t)
    } else {
        let f = "false";
        proof {
            reveal_strlit("false");
        }
        owned(f)
    }
}

/// Whether some pattern of `patterns` matches `path`.
pub fn matches_any(patterns: &Vec<String>, path: &str) -> (r: bool)
    ensures
        r == any_glob_matches(patterns@, path@),
{
    let mut i: usize = 0;
    while i < patterns.len()
        invariant
            i <= patterns@.len(),
            forall|k: int| 0 <= k < i ==> !#[trigger] crate::template::pattern::glob_matches(patterns@[k]@, path@),
        decreases patterns.len() - i,
    {
        if glob_match(patterns[i].as_str(), path) {
            return true;
        }
        i = i + 1;
    }
    false
}

impl TemplateConfig {
    /// Placeholder names are unique.
    pub open spec fn well_formed(&self) -> bool {
        keys_unique(self.placeholders@)
    }

    /// A path is left out of the generated project when an `ignore` pattern
    /// matches it, and the manifest itself is always left out.
    pub open spec fn ignores(&self, path: Seq<char>) -> bool {
        any_glob_matches(self.template.ignore@, path) || path == MANIFEST_FILE@
    }

    /// A file's contents go through the renderer when an `includes` pattern
    /// matches it; without `includes` patterns, every file that is not ignored
    /// is rendered.
    pub open spec fn selects_for_render(&self, path: Seq<char>) -> bool {
        if self.template.includes@.len() == 0 {
            !self.ignores(path)
        } else {
            any_glob_matches(self.template.includes@, path)
        }
    }

    pub fn should_process_file(&self, path: &str) -> (r: bool)
        ensures
            r == self.selects_for_render(path@),
    {
        if self.template.includes.len() == 0 {
            return !self.should_ignore_file(path);
        }
        matches_any(&self.template.includes, path)
    }

    pub fn should_ignore_file(&self, path: &str) -> (r: bool)
        ensures
            r == self.ignores(path@),
    {
        if matches_any(&self.template.ignore, path) {
            return true;
        }
        same_text(path, MANIFEST_FILE)
    }
}

} // verus!
