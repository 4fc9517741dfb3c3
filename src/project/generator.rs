//! Turning a template tree into the entries of a new project.
//!
//! The caller walks the template directory and hands over its entries, each
//! with its path relative to the template root (components joined by `/`).
//! For each entry the generator decides what the project receives: nothing
//! (the root itself, ignored paths and the manifest), a directory, a rendered
//! file or a byte-for-byte copy. Names are rendered too, after a trailing
//! `.liquid` is taken off. The caller then creates what was decided, in
//! order, under the output root.
//!
//! Each entry is handled in verified steps around the renderer, which the
//! caller runs:
//! [`ProjectGenerator::render_requests`] fixes what is handed to it, and
//! [`ProjectGenerator::finish_entry`] and [`ProjectGenerator::generate`] fix
//! what is made of its answers.

use vstd::prelude::*;
use vstd::utf8::{decode_utf8, valid_utf8};
use crate::error::CargoJamError;
use crate::template::config::{opt_view, TemplateConfig};
use crate::template::pattern::any_glob_matches;
use crate::template::engine::has_marker;
use crate::text::{contains, ends_with, has_suffix, owned};

verus! {

/// Relies on `String::from_utf8`, which accepts exactly the byte strings that
/// are valid UTF-8 and then holds the characters they encode.
#[verifier::external_body]
fn utf8_text(bytes: &Vec<u8>) -> (r: Option<String>)
    ensures
        r is Some <==> valid_utf8(bytes@),
        r matches Some(s) ==> s@ == decode_utf8(bytes@),
{
    String::from_utf8(bytes.clone()).ok()
}

/// An entry of the template tree.
#[derive(Debug)]
pub struct TemplateEntry {
    /// The path relative to the template root; empty for the root itself.
    pub path: String,
    pub is_dir: bool,
    /// The bytes of a file; empty for a directory.
    pub contents: Vec<u8>,
}

/// What a generated file holds.
#[derive(Debug)]
pub enum FileContents {
    Rendered(String),
    Copied(Vec<u8>),
}

/// What the project receives for one template entry. Paths are relative to
/// the output root.
#[derive(Debug)]
pub enum OutputEntry {
    Skipped,
    Dir { path: String },
    File { path: String, contents: FileContents },
}

/// The renderer's answers for one entry: for its name and for its text,
/// each present exactly when that was asked for.
#[derive(Debug)]
pub struct RenderAnswers {
    pub name: Option<Result<String, CargoJamError>>,
    pub text: Option<Result<String, CargoJamError>>,
}

/// The suffix that marks a template file.
pub open spec fn template_suffix() -> Seq<char> {
    seq!['.', 'l', 'i', 'q', 'u', 'i', 'd']
}

/// A path with its trailing `.liquid` taken off.
pub open spec fn strip_template_suffix(p: Seq<char>) -> Seq<char> {
    if has_suffix(p, template_suffix()) {
        p.subrange(0, p.len() - 7)
    } else {
        p
    }
}

/// The last component of the path carries the extension `liquid`: it ends
/// with `.liquid` and has something before that dot.
pub open spec fn has_template_extension(p: Seq<char>) -> bool {
    p.len() > 7 && has_suffix(p, template_suffix()) && p[p.len() - 8] != '/'
}

/// Generates projects from one template.
#[derive(Debug)]
pub struct ProjectGenerator {
    pub config: TemplateConfig,
}

/// The message of a file that must be rendered but is not text.
pub open spec fn not_text_message(path: Seq<char>) -> Seq<char> {
    path + ": stream did not contain valid UTF-8"@
}

impl ProjectGenerator {
    /// Nothing is generated for the root itself or for an ignored path.
    pub open spec fn skips(&self, path: Seq<char>) -> bool {
        path.len() == 0 || self.config.ignores(path)
    }

    /// A file's contents are rendered when it carries the template extension
    /// or the manifest selects it.
    pub open spec fn renders_contents(&self, path: Seq<char>) -> bool {
        has_template_extension(path) || self.config.selects_for_render(path)
    }

    /// The entry cannot be handled without the renderer: its name holds a
    /// marker, or it is a file whose contents are rendered.
    pub open spec fn uses_renderer(&self, e: TemplateEntry) -> bool {
        !self.skips(e.path@) && (has_marker(strip_template_suffix(e.path@)) || (!e.is_dir
            && self.renders_contents(e.path@)))
    }

    /// The name handed to the renderer: the path without its `.liquid`, when
    /// that holds a marker.
    pub open spec fn name_request(&self, e: TemplateEntry) -> Option<Seq<char>> {
        if !self.skips(e.path@) && has_marker(strip_template_suffix(e.path@)) {
            Some(strip_template_suffix(e.path@))
        } else {
            None
        }
    }

    /// The text handed to the renderer: the contents of a file that is
    /// rendered, when they are valid UTF-8.
    pub open spec fn text_request(&self, e: TemplateEntry) -> Option<Seq<char>> {
        if !self.skips(e.path@) && !e.is_dir && self.renders_contents(e.path@) && valid_utf8(
            e.contents@,
        ) {
            Some(decode_utf8(e.contents@))
        } else {
            None
        }
    }

    /// The renderer's answers fit the requests: one answer for each request,
    /// except that the contents are not rendered once the name has failed.
    pub open spec fn answers_fit(
        &self,
        e: TemplateEntry,
        name: Option<Result<String, CargoJamError>>,
        text: Option<Result<String, CargoJamError>>,
    ) -> bool {
        &&& name.is_some() == self.name_request(e).is_some()
        &&& if name matches Some(Err(_)) {
            text is None
        } else {
            text.is_some() == self.text_request(e).is_some()
        }
    }

    /// `r` is what the project receives for `e` when the renderer answered
    /// `name` for its name and `text` for its contents. The name is rendered
    /// first, and its failure is the entry's failure. A directory is created
    /// under the output name. A file that is not rendered is copied byte for
    /// byte; one that is rendered must be text, and then holds exactly what
    /// the renderer returned, or fails as the renderer did.
    pub open spec fn finishes(
        &self,
        e: TemplateEntry,
        name: Option<Result<String, CargoJamError>>,
        text: Option<Result<String, CargoJamError>>,
        r: Result<OutputEntry, CargoJamError>,
    ) -> bool {
        if self.skips(e.path@) {
            r matches Ok(OutputEntry::Skipped)
        } else {
            match name {
                Some(Err(err)) => r == Err::<OutputEntry, CargoJamError>(err),
                _ => self.finishes_named(e, name, text, r),
            }
        }
    }

    /// The entry succeeds with these answers.
    pub open spec fn finishes_ok(&self, e: TemplateEntry, a: RenderAnswers) -> bool {
        exists|out: OutputEntry| #[trigger] self.finishes(e, a.name, a.text, Ok::<OutputEntry, CargoJamError>(out))
    }

    /// The part of [`Self::finishes`] after the name has been rendered
    /// without failing.
    pub open spec fn finishes_named(
        &self,
        e: TemplateEntry,
        name: Option<Result<String, CargoJamError>>,
        text: Option<Result<String, CargoJamError>>,
        r: Result<OutputEntry, CargoJamError>,
    ) -> bool {
        let out_name = match name {
            Some(Ok(s)) => s@,
            _ => strip_template_suffix(e.path@),
        };
        if e.is_dir {
            r matches Ok(OutputEntry::Dir { path }) && path@ == out_name
        } else if !self.renders_contents(e.path@) {
            r matches Ok(OutputEntry::File { path, contents: FileContents::Copied(b) }) && path@
                == out_name && b@ == e.contents@
        } else if !valid_utf8(e.contents@) {
            r matches Err(CargoJamError::Io(m)) && m@ == not_text_message(e.path@)
        } else {
            match text {
                Some(Ok(s)) => r matches Ok(
                    OutputEntry::File { path, contents: FileContents::Rendered(x) },
                ) && path@ == out_name && x@ == s@,
                Some(Err(err)) => r == Err::<OutputEntry, CargoJamError>(err),
                None => false,
            }
        }
    }
}

impl ProjectGenerator {
    pub fn new(config: TemplateConfig) -> (r: Self)
        ensures
            r.config == config,
    {
        ProjectGenerator { config }
    }

    /// A path with its trailing `.liquid` taken off.
    pub fn stripped_name(path: &str) -> (r: String)
        ensures
            r@ == strip_template_suffix(path@),
    {
        let suffix = ".liquid";
        proof {
            reveal_strlit(".liquid");
            assert(suffix@ =~= template_suffix());
        }
        if ends_with(path, suffix) {
            let n = path.unicode_len();
            owned(path.substring_char(0, n - 7))
        } else {
            owned(path)
        }
    }

    /// Whether a file's contents are rendered.
    pub fn should_render(&self, path: &str) -> (r: bool)
        ensures
            r == self.renders_contents(path@),
    {
        let suffix = ".liquid";
        proof {
            reveal_strlit(".liquid");
            assert(suffix@ =~= template_suffix());
        }
        let n = path.unicode_len();
        let marked = n > 7 && ends_with(path, suffix) && path.get_char(n - 8) != '/';
        marked || self.config.should_process_file(path)
    }

    /// What an entry hands to the renderer: its output name, when that holds
    /// a marker, and its text, when it is a file whose contents are rendered.
    pub fn render_requests(&self, entry: &TemplateEntry) -> (r: (Option<String>, Option<String>))
        ensures
            opt_view(r.0) == self.name_request(*entry),
            opt_view(r.1) == self.text_request(*entry),
    {
        let path = entry.path.as_str();
        if path.unicode_len() == 0 || self.config.should_ignore_file(path) {
            return (None, None);
        }
        let stem = Self::stripped_name(path);
        let m = "{{";
        proof {
            reveal_strlit("{{");
            assert(m@ =~= crate::template::engine::marker());
        }
        let name = if contains(stem.as_str(), m) {
            Some(stem)
        } else {
            None
        };
        let text = if !entry.is_dir && self.should_render(path) {
            utf8_text(&entry.contents)
        } else {
            None
        };
        (name, text)
    }

    /// What the project receives for an entry, given the renderer's answers
    /// to the requests of [`Self::render_requests`].
    pub fn finish_entry(
        &self,
        entry: &TemplateEntry,
        name: Option<Result<String, CargoJamError>>,
        text: Option<Result<String, CargoJamError>>,
    ) -> (r: Result<OutputEntry, CargoJamError>)
        requires
            self.answers_fit(*entry, name, text),
        ensures
            self.finishes(*entry, name, text, r),
    {
        let path = entry.path.as_str();
        if path.unicode_len() == 0 || self.config.should_ignore_file(path) {
            return Ok(OutputEntry::Skipped);
        }
        let out_name = match name {
            Some(Ok(s)) => s,
            Some(Err(e)) => return Err(e),
            None => Self::stripped_name(path),
        };
        if entry.is_dir {
            return Ok(OutputEntry::Dir { path: out_name });
        }
        if !self.should_render(path) {
            let bytes = entry.contents.clone();
            return Ok(OutputEntry::File { path: out_name, contents: FileContents::Copied(bytes) });
        }
        if utf8_text(&entry.contents).is_none() {
            let mut msg = owned(path);
            msg.append(": stream did not contain valid UTF-8");
            return Err(CargoJamError::Io(msg));
        }
        match text {
            Some(Ok(s)) => Ok(OutputEntry::File { path: out_name, contents: FileContents::Rendered(s) }),
            Some(Err(e)) => Err(e),
            None => {
                proof {
                    assert(self.text_request(*entry).is_some());
                }
                Err(CargoJamError::Io(owned(path)))
            },
        }
    }

    /// What the project receives for each entry of the template, in order,
    /// given the renderer's answers to each entry's requests. The first
    /// failure, in the order of the entries, is the result.
    pub fn generate(&self, entries: &Vec<TemplateEntry>, answers: Vec<RenderAnswers>) -> (r: Result<
        Vec<OutputEntry>,
        CargoJamError,
    >)
        requires
            answers@.len() == entries@.len(),
            forall|i: int|
                0 <= i < entries@.len() ==> #[trigger] self.answers_fit(
                    entries@[i],
                    answers@[i].name,
                    answers@[i].text,
                ),
        ensures
            r matches Ok(outs) ==> outs@.len() == entries@.len() && forall|i: int|
                0 <= i < entries@.len() ==> #[trigger] self.finishes(
                    entries@[i],
                    answers@[i].name,
                    answers@[i].text,
                    Ok::<OutputEntry, CargoJamError>(outs@[i]),
                ),
            r matches Err(err) ==> exists|i: int|
                0 <= i < entries@.len() && #[trigger] self.finishes(
                    entries@[i],
                    answers@[i].name,
                    answers@[i].text,
                    Err::<OutputEntry, CargoJamError>(err),
                ) && forall|j: int|
                    0 <= j < i ==> self.finishes_ok(entries@[j], #[trigger] answers@[j]),
    {
        let ghost given = answers@;
        let mut rest = answers;
        let mut outs: Vec<OutputEntry> = Vec::new();
        let mut i: usize = 0;
        while i < entries.len()
            invariant
                given == answers@,
                given.len() == entries@.len(),
                forall|k: int|
                    0 <= k < entries@.len() ==> #[trigger] self.answers_fit(
                        entries@[k],
                        given[k].name,
                        given[k].text,
                    ),
                i <= entries@.len(),
                rest@ == given.subrange(i as int, given.len() as int),
                outs@.len() == i,
                forall|k: int|
                    0 <= k < i ==> #[trigger] self.finishes(
                        entries@[k],
                        given[k].name,
                        given[k].text,
                        Ok::<OutputEntry, CargoJamError>(outs@[k]),
                    ),
            decreases entries.len() - i,
        {
            let a = rest.remove(0);
            assert(a == given[i as int]);
            let ghost (an, at) = (a.name, a.text);
            assert(self.answers_fit(entries@[i as int], an, at));
            let r = self.finish_entry(&entries[i], a.name, a.text);
            match r {
                Ok(out) => outs.push(out),
                Err(e) => {
                    assert forall|j: int| 0 <= j < i implies self.finishes_ok(
                        entries@[j],
                        #[trigger] given[j],
                    ) by {
                        assert(self.finishes(
                            entries@[j],
                            given[j].name,
                            given[j].text,
                            Ok::<OutputEntry, CargoJamError>(outs@[j]),
                        ));
                    }
                    assert(self.finishes(
                        entries@[i as int],
                        given[i as int].name,
                        given[i as int].text,
                        Err::<OutputEntry, CargoJamError>(e),
                    ));
                    assert(exists|k: int|
                        0 <= k < entries@.len() && #[trigger] self.finishes(
                            entries@[k],
                            given[k].name,
                            given[k].text,
                            Err::<OutputEntry, CargoJamError>(e),
                        ) && forall|j: int|
                            0 <= j < k ==> self.finishes_ok(entries@[j], #[trigger] given[j]));
                    return Err(e);
                },
            }
            assert(rest@ =~= given.subrange(i + 1, given.len() as int));
            i = i + 1;
        }
        Ok(outs)
    }
}

/// Without `includes` patterns, an ignored path is never materialized, and
/// every other file is rendered: its text goes to the renderer, and what the
/// renderer returns is what the file holds.
pub proof fn lemma_no_includes_renders_unignored(
    g: ProjectGenerator,
    e: TemplateEntry,
    name: Option<Result<String, CargoJamError>>,
    text: Option<Result<String, CargoJamError>>,
    r: Result<OutputEntry, CargoJamError>,
)
    requires
        g.config.template.includes@.len() == 0,
        g.answers_fit(e, name, text),
        g.finishes(e, name, text, r),
    ensures
        g.config.ignores(e.path@) ==> (r matches Ok(OutputEntry::Skipped)),
        !g.skips(e.path@) && !e.is_dir ==> g.renders_contents(e.path@),
        !g.skips(e.path@) && !e.is_dir && valid_utf8(e.contents@) ==> g.text_request(e) == Some(
            decode_utf8(e.contents@),
        ),
        !g.skips(e.path@) && !e.is_dir && !(name matches Some(Err(_))) ==> (text matches Some(Ok(s))
            ==> (r matches Ok(OutputEntry::File { contents: FileContents::Rendered(x), .. }) && x@
            == s@)),
{
}

/// A path that an `ignore` pattern matches is never materialized, whatever
/// the renderer answers and whatever the `includes` patterns say.
pub proof fn lemma_ignored_never_materialized(
    g: ProjectGenerator,
    e: TemplateEntry,
    a: RenderAnswers,
    r: Result<OutputEntry, CargoJamError>,
)
    requires
        g.finishes(e, a.name, a.text, r),
        any_glob_matches(g.config.template.ignore@, e.path@),
    ensures
        r matches Ok(OutputEntry::Skipped),
{
}

/// The entry needs no rendering of its name: no marker, no `.liquid`.
pub open spec fn is_literal_name(e: TemplateEntry) -> bool {
    !has_marker(e.path@) && !has_suffix(e.path@, template_suffix())
}

/// What the project receives reproduces the entry: a directory under the
/// same path, or a file under the same path with the same contents, copied
/// byte for byte or rendered to the same text.
pub open spec fn reproduces(e: TemplateEntry, out: OutputEntry) -> bool {
    if e.is_dir {
        out matches OutputEntry::Dir { path } && path@ == e.path@
    } else {
        match out {
            OutputEntry::File { path, contents: FileContents::Copied(b) } => path@ == e.path@ && b@
                == e.contents@,
            OutputEntry::File { path, contents: FileContents::Rendered(x) } => path@ == e.path@
                && valid_utf8(e.contents@) && x@ == decode_utf8(e.contents@),
            _ => false,
        }
    }
}

/// The renderer hands back unchanged the text of a file that is rendered, as
/// it does for text without markup.
pub open spec fn text_kept(g: ProjectGenerator, e: TemplateEntry, a: RenderAnswers) -> bool {
    !e.is_dir && g.renders_contents(e.path@) ==> (a.text matches Some(Ok(s)) && s@ == decode_utf8(
        e.contents@,
    ))
}

/// Generating from a template whose names hold no markup, and whose rendered
/// files the renderer hands back unchanged, succeeds and reproduces every
/// entry other than the root, the manifest and the ignored ones: the same
/// tree, and files with the same contents.
pub proof fn lemma_literal_template_reproduced(
    g: ProjectGenerator,
    entries: Seq<TemplateEntry>,
    answers: Seq<RenderAnswers>,
    r: Result<Vec<OutputEntry>, CargoJamError>,
)
    requires
        answers.len() == entries.len(),
        forall|i: int| 0 <= i < entries.len() ==> #[trigger] is_literal_name(entries[i]),
        forall|i: int|
            0 <= i < entries.len() ==> #[trigger] g.answers_fit(entries[i], answers[i].name, answers[i].text),
        forall|i: int| 0 <= i < entries.len() ==> #[trigger] text_kept(g, entries[i], answers[i]),
        r matches Ok(outs) ==> outs@.len() == entries.len() && forall|i: int|
            0 <= i < entries.len() ==> #[trigger] g.finishes(
                entries[i],
                answers[i].name,
                answers[i].text,
                Ok::<OutputEntry, CargoJamError>(outs@[i]),
            ),
        r matches Err(err) ==> exists|i: int|
            0 <= i < entries.len() && #[trigger] g.finishes(
                entries[i],
                answers[i].name,
                answers[i].text,
                Err::<OutputEntry, CargoJamError>(err),
            ),
    ensures
        r matches Ok(outs) && forall|i: int|
            0 <= i < entries.len() && !g.skips(entries[i].path@) ==> #[trigger] reproduces(
                entries[i],
                outs@[i],
            ),
{
    if let Err(err) = r {
        let i = choose|i: int|
            0 <= i < entries.len() && #[trigger] g.finishes(
                entries[i],
                answers[i].name,
                answers[i].text,
                Err::<OutputEntry, CargoJamError>(err),
            );
        assert(is_literal_name(entries[i]));
        assert(g.answers_fit(entries[i], answers[i].name, answers[i].text));
        assert(text_kept(g, entries[i], answers[i]));
        assert(false);
    }
    if let Ok(outs) = r {
        assert forall|i: int| 0 <= i < entries.len() && !g.skips(entries[i].path@) implies #[trigger] reproduces(
            entries[i],
            outs@[i],
        ) by {
            assert(is_literal_name(entries[i]));
            assert(g.answers_fit(entries[i], answers[i].name, answers[i].text));
            assert(text_kept(g, entries[i], answers[i]));
            assert(g.finishes(
                entries[i],
                answers[i].name,
                answers[i].text,
                Ok::<OutputEntry, CargoJamError>(outs@[i]),
            ));
        }
    }
}

} // verus!
