use vstd::prelude::*;

verus! {

/// The failures of every operation in the crate.
///
/// Payloads are messages (or the offending name), so that the type stays a
/// plain value; the caller renders them for the user.
#[derive(Debug, Clone, PartialEq, Eq)]
pub enum CargoJamError {
    TemplateNotFound(String),
    InvalidProjectName { name: String, reason: String },
    TemplateConfig(String),
    TemplateRender(String),
    Git(String),
    Build(String),
    ToolchainMissing { tool: String, install_hint: String },
    ProjectExists(String),
    NotJamProject(String),
    Io(String),
    TomlParse(String),
}

} // verus!
