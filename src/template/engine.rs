//! Rendering: the case-conversion filters that templates may apply to a
//! value, and the handling of interpolation markers in file names.
//!
//! Template text itself is rendered by the caller (a Liquid parser with the
//! filters below registered); the library says what is handed to it and what
//! is made of its answers.

use vstd::prelude::*;
use crate::error::CargoJamError;
use crate::text::{contains, occurs_in, owned};

verus! {

/// What heck's `to_upper_camel_case` makes of a string.
pub uninterp spec fn upper_camel_of(s: Seq<char>) -> Seq<char>;

/// What heck's `to_snake_case` makes of a string.
pub uninterp spec fn snake_of(s: Seq<char>) -> Seq<char>;

/// What heck's `to_kebab_case` makes of a string.
pub uninterp spec fn kebab_of(s: Seq<char>) -> Seq<char>;

/// What heck's `to_lower_camel_case` makes of a string.
pub uninterp spec fn lower_camel_of(s: Seq<char>) -> Seq<char>;

/// Relies on heck's `ToPascalCase::to_pascal_case`, which heck defines as
/// `to_upper_camel_case`.
#[verifier::external_body]
fn heck_pascal(s: &str) -> (r: String)
    ensures
        r@ == upper_camel_of(s@),
{
    heck::ToPascalCase::to_pascal_case(s)
}

/// Relies on heck's `ToUpperCamelCase::to_upper_camel_case`.
#[verifier::external_body]
fn heck_upper_camel(s: &str) -> (r: String)
    ensures
        r@ == upper_camel_of(s@),
{
    heck::ToUpperCamelCase::to_upper_camel_case(s)
}

/// Relies on heck's `ToSnakeCase::to_snake_case`.
#[verifier::external_body]
fn heck_snake(s: &str) -> (r: String)
    ensures
        r@ == snake_of(s@),
{
    heck::ToSnakeCase::to_snake_case(s)
}

/// Relies on heck's `ToKebabCase::to_kebab_case`.
#[verifier::external_body]
fn heck_kebab(s: &str) -> (r: String)
    ensures
        r@ == kebab_of(s@),
{
    heck::ToKebabCase::to_kebab_case(s)
}

/// Relies on heck's `ToLowerCamelCase::to_lower_camel_case`.
#[verifier::external_body]
fn heck_lower_camel(s: &str) -> (r: String)
    ensures
        r@ == lower_camel_of(s@),
{
    heck::ToLowerCamelCase::to_lower_camel_case(s)
}

/// The `pascal_case` filter.
pub struct PascalCaseFilter;

/// The `snake_case` filter.
pub struct SnakeCaseFilter;

/// The `kebab_case` filter.
pub struct KebabCaseFilter;

/// The `camel_case` filter: lower camel case.
pub struct CamelCaseFilter;

/// The `upper_camel_case` filter.
pub struct UpperCamelCaseFilter;

impl PascalCaseFilter {
    pub fn name(&self) -> (r: &'static str)
        ensures
            r@ == "pascal_case"@,
    {
        "pascal_case"
    }

    pub fn evaluate(&self, input: &str) -> (r: String)
        ensures
            r@ == upper_camel_of(input@),
    {
        heck_pascal(input)
    }
}

impl SnakeCaseFilter {
    pub fn name(&self) -> (r: &'static str)
        ensures
            r@ == "snake_case"@,
    {
        "snake_case"
    }

    pub fn evaluate(&self, input: &str) -> (r: String)
        ensures
            r@ == snake_of(input@),
    {
        heck_snake(input)
    }
}

impl KebabCaseFilter {
    pub fn name(&self) -> (r: &'static str)
        ensures
            r@ == "kebab_case"@,
    {
        "kebab_case"
    }

    pub fn evaluate(&self, input: &str) -> (r: String)
        ensures
            r@ == kebab_of(input@),
    {
        heck_kebab(input)
    }
}

impl CamelCaseFilter {
    pub fn name(&self) -> (r: &'static str)
        ensures
            r@ == "camel_case"@,
    {
        "camel_case"
    }

    pub fn evaluate(&self, input: &str) -> (r: String)
        ensures
            r@ == lower_camel_of(input@),
    {
        heck_lower_camel(input)
    }
}

impl UpperCamelCaseFilter {
    pub fn name(&self) -> (r: &'static str)
        ensures
            r@ == "upper_camel_case"@,
    {
        "upper_camel_case"
    }

    pub fn evaluate(&self, input: &str) -> (r: String)
        ensures
            r@ == upper_camel_of(input@),
    {
        heck_upper_camel(input)
    }
}

/// The interpolation marker `{{`.
pub open spec fn marker() -> Seq<char> {
    seq!['{', '{']
}

/// Whether a name holds an interpolation marker.
pub open spec fn has_marker(s: Seq<char>) -> bool {
    occurs_in(s, marker())
}

/// The name to hand to the renderer: the file name itself, when it holds an
/// interpolation marker. A name without one never goes to the renderer.
pub fn filename_request(filename: &str) -> (r: Option<String>)
    ensures
        match r {
            Some(n) => has_marker(filename@) && n@ == filename@,
            None => !has_marker(filename@),
        },
{
    let m = "{{";
    proof {
        reveal_strlit("{{");
        assert(m@ =~= marker());
    }
    if contains(filename, m) {
        Some(owned(filename))
    } else {
        None
    }
}

/// The rendered file name, given the renderer's answer for the name when
/// [`filename_request`] asked for one: that answer as it came, success or
/// failure; otherwise the name unchanged.
pub fn finish_filename(filename: &str, answer: Option<Result<String, CargoJamError>>) -> (r: Result<
    String,
    CargoJamError,
>)
    requires
        answer.is_some() == has_marker(filename@),
    ensures
        match answer {
            Some(a) => r == a,
            None => r matches Ok(s) && s@ == filename@,
        },
{
    match answer {
        Some(a) => a,
        None => Ok(owned(filename)),
    }
}

} // verus!
