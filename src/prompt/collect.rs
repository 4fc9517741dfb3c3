//! Collecting the variables of a generation run.
//!
//! Preset values come first: `key=value` definitions, then the pairs of a
//! values file, which override definitions of the same key. The project name
//! and the crate name derived from it are bound next. What is still unbound is
//! then either asked for (the caller runs the prompts that
//! [`prompt_request`] describes) or taken from the manifest's defaults.

use vstd::prelude::*;
use crate::error::CargoJamError;
use crate::prompt::values::{keys_unique, pairs_map, TemplateValues};
use crate::template::config::{opt_view, Placeholder, TemplateConfig};
use crate::template::pattern::{regex_compiles, regex_matches, regex_search};
use crate::text::{has_char, owned, same_text};

verus! {

/// The variable that holds the project name.
pub const PROJECT_NAME_VAR: &'static str = "project_name";

/// The variable that holds the crate name derived from the project name.
pub const CRATE_NAME_VAR: &'static str = "crate_name";

/// `i` is the first position of `c` in `s`.
pub open spec fn first_at(s: Seq<char>, c: char, i: int) -> bool {
    0 <= i < s.len() && s[i] == c && forall|j: int| 0 <= j < i ==> s[j] != c
}

/// The key and value of a `key=value` definition, split at the first `=`;
/// `None` without `=`.
pub open spec fn define_pair(s: Seq<char>) -> Option<(Seq<char>, Seq<char>)> {
    if has_char(s, '=') {
        let i = choose|i: int| first_at(s, '=', i);
        Some((s.subrange(0, i), s.subrange(i + 1, s.len() as int)))
    } else {
        None
    }
}

/// The bindings of a list of definitions, a later definition of a key
/// overriding an earlier one; definitions without `=` are skipped.
pub open spec fn defines_map(defs: Seq<String>) -> Map<Seq<char>, Seq<char>>
    decreases defs.len(),
{
    if defs.len() == 0 {
        Map::empty()
    } else {
        match define_pair(defs.last()@) {
            Some(kv) => defines_map(defs.drop_last()).insert(kv.0, kv.1),
            None => defines_map(defs.drop_last()),
        }
    }
}

/// The preset bindings: definitions first, then the values file, whose pairs
/// win over definitions of the same key.
pub open spec fn preset_map(defs: Seq<String>, file: Seq<(String, String)>) -> Map<
    Seq<char>,
    Seq<char>,
> {
    defines_map(defs).union_prefer_right(pairs_map(file))
}

/// The crate name for a project name: every `-` becomes `_`.
pub open spec fn crate_ident(name: Seq<char>) -> Seq<char> {
    name.map_values(|c: char| if c == '-' { '_' } else { c })
}

/// The defaults that a manifest declares, by placeholder name.
pub open spec fn defaults_map(s: Seq<(String, Placeholder)>) -> Map<Seq<char>, Seq<char>>
    decreases s.len(),
{
    if s.len() == 0 {
        Map::empty()
    } else {
        match s.last().1.default_text() {
            Some(d) => defaults_map(s.drop_last()).insert(s.last().0@, d),
            None => defaults_map(s.drop_last()),
        }
    }
}

/// A name has a default only if some placeholder carries that name.
pub proof fn lemma_defaults_map_keys(s: Seq<(String, Placeholder)>, k: Seq<char>)
    ensures
        defaults_map(s).contains_key(k) ==> exists|i: int| 0 <= i < s.len() && #[trigger] s[i].0@ == k,
    decreases s.len(),
{
    if s.len() > 0 {
        lemma_defaults_map_keys(s.drop_last(), k);
        if defaults_map(s.drop_last()).contains_key(k) {
            let i = choose|i: int| 0 <= i < s.drop_last().len() && #[trigger] s.drop_last()[i].0@ == k;
            assert(s[i].0@ == k);
        }
    }
}

/// Splits a `key=value` definition at its first `=`.
pub fn parse_define(define: &str) -> (r: Option<(String, String)>)
    ensures
        match r {
            Some(kv) => define_pair(define@) == Some((kv.0@, kv.1@)),
            None => define_pair(define@) is None,
        },
{
    let n = define.unicode_len();
    let mut i: usize = 0;
    while i < n
        invariant
            n == define@.len(),
            i <= n,
            forall|j: int| 0 <= j < i ==> define@[j] != '=',
        decreases n - i,
    {
        if define.get_char(i) == '=' {
            proof {
                assert(first_at(define@, '=', i as int));
                let k = choose|k: int| first_at(define@, '=', k);
                assert(k == i) by {
                    if k < i {
                        assert(define@[k] != '=');
                    }
                    if k > i {
                        assert(define@[i as int] != '=');
                    }
                }
            }
            let key = owned(define.substring_char(0, i));
            let value = owned(define.substring_char(i + 1, n));
            return Some((key, value));
        }
        i = i + 1;
    }
    None
}

/// The preset bindings of a run: the definitions in order, then the pairs
/// read from a values file.
pub fn collect_predefined_variables(defines: &Vec<String>, file_values: Vec<(String, String)>) -> (r:
    TemplateValues)
    ensures
        r.well_formed(),
        r@ == preset_map(defines@, file_values@),
{
    let mut values = TemplateValues::new();
    let mut i: usize = 0;
    assert(defines@.subrange(0, 0) =~= Seq::<String>::empty());
    while i < defines.len()
        invariant
            i <= defines@.len(),
            values.well_formed(),
            values@ == defines_map(defines@.subrange(0, i as int)),
        decreases defines.len() - i,
    {
        assert(defines@.subrange(0, i + 1).drop_last() =~= defines@.subrange(0, i as int));
        if let Some(kv) = parse_define(defines[i].as_str()) {
            values.set(kv.0.as_str(), kv.1.as_str());
        }
        i = i + 1;
    }
    assert(defines@.subrange(0, defines@.len() as int) =~= defines@);
    values.extend(file_values);
    values
}

/// Whether toml accepts `text` as a document whose top-level values are all
/// strings.
pub uninterp spec fn toml_string_table_ok(text: Seq<char>) -> bool;

/// The key/value pairs of such a document.
pub uninterp spec fn toml_string_table(text: Seq<char>) -> Map<Seq<char>, Seq<char>>;

/// Relies on `toml::from_str` into a `HashMap<String, String>`, which fails
/// unless the document's top-level values are all strings; a map holds each
/// key once.
#[verifier::external_body]
fn parse_string_table(text: &str) -> (r: Result<Vec<(String, String)>, String>)
    ensures
        r is Ok <==> toml_string_table_ok(text@),
        r matches Ok(pairs) ==> keys_unique(pairs@) && pairs_map(pairs@) == toml_string_table(text@),
{
    match toml::from_str::<std::collections::HashMap<String, String>>(text) {
        Ok(map) => Ok(map.into_iter().collect()),
        Err(e) => Err(e.to_string()),
    }
}

/// The preset bindings of a run, given the text of the values file if there
/// is one: the definitions in order, then the file's pairs.
pub fn collect_preset_variables(defines: &Vec<String>, values_file: Option<&str>) -> (r: Result<
    TemplateValues,
    CargoJamError,
>)
    ensures
        match values_file {
            None => r matches Ok(v) && v.well_formed() && v@ == defines_map(defines@),
            Some(text) => (r is Ok <==> toml_string_table_ok(text@)) && (r matches Ok(v) ==> v.well_formed()
                && v@ == defines_map(defines@).union_prefer_right(toml_string_table(text@))) && (r is Err
                ==> r matches Err(CargoJamError::TomlParse(_))),
        },
{
    match values_file {
        None => {
            let v = collect_predefined_variables(defines, Vec::new());
            assert(pairs_map(Seq::<(String, String)>::empty()) =~= Map::empty());
            assert(v@ =~= defines_map(defines@));
            Ok(v)
        },
        Some(text) => match parse_string_table(text) {
            Ok(pairs) => Ok(collect_predefined_variables(defines, pairs)),
            Err(msg) => Err(CargoJamError::TomlParse(msg)),
        },
    }
}

/// The crate name for a project name.
pub fn crate_name_of(name: &str) -> (r: String)
    ensures
        r@ == crate_ident(name@),
{
    let n = name.unicode_len();
    let mut r = String::new();
    let mut i: usize = 0;
    while i < n
        invariant
            n == name@.len(),
            i <= n,
            r@ == crate_ident(name@.subrange(0, i as int)),
        decreases n - i,
    {
        if name.get_char(i) == '-' {
            let u = "_";
            proof {
                reveal_strlit("_");
            }
            r.append(u);
        } else {
            r.append(name.substring_char(i, i + 1));
        }
        assert(r@ =~= crate_ident(name@.subrange(0, i + 1)));
        i = i + 1;
    }
    assert(name@.subrange(0, n as int) =~= name@);
    r
}

/// Binds the project name and the crate name derived from it.
pub fn bind_project_name(values: &mut TemplateValues, project_name: &str)
    requires
        old(values).well_formed(),
    ensures
        final(values).well_formed(),
        final(values)@ == old(values)@.insert(PROJECT_NAME_VAR@, project_name@).insert(
            CRATE_NAME_VAR@,
            crate_ident(project_name@),
        ),
{
    values.set(PROJECT_NAME_VAR, project_name);
    let crate_name = crate_name_of(project_name);
    values.set(CRATE_NAME_VAR, crate_name.as_str());
}

/// Binds each unbound placeholder that declares a default to that default;
/// bound variables keep their values.
pub fn apply_defaults(config: &TemplateConfig, values: &mut TemplateValues)
    requires
        config.well_formed(),
        old(values).well_formed(),
    ensures
        final(values).well_formed(),
        final(values)@ == defaults_map(config.placeholders@).union_prefer_right(old(values)@),
{
    let ghost ps = config.placeholders@;
    let ghost start = values@;
    let mut i: usize = 0;
    assert(ps.subrange(0, 0) =~= Seq::<(String, Placeholder)>::empty());
    assert(Map::<Seq<char>, Seq<char>>::empty().union_prefer_right(start) =~= start);
    while i < config.placeholders.len()
        invariant
            ps == config.placeholders@,
            keys_unique(ps),
            i <= ps.len(),
            values.well_formed(),
            values@ == defaults_map(ps.subrange(0, i as int)).union_prefer_right(start),
        decreases config.placeholders.len() - i,
    {
        let key = config.placeholders[i].0.as_str();
        let placeholder = &config.placeholders[i].1;
        let ghost prefix = ps.subrange(0, i as int);
        assert(ps.subrange(0, i + 1).drop_last() =~= prefix);
        proof {
            lemma_defaults_map_keys(prefix, key@);
            if defaults_map(prefix).contains_key(key@) {
                let j = choose|j: int| 0 <= j < prefix.len() && #[trigger] prefix[j].0@ == key@;
                assert(ps[j].0@ == ps[i as int].0@);
            }
        }
        if !values.contains(key) {
            match placeholder.default_value() {
                Some(d) => {
                    values.set(key, d.as_str());
                    assert(values@ =~= defaults_map(ps.subrange(0, i + 1)).union_prefer_right(start));
                },
                None => {
                    assert(values@ =~= defaults_map(ps.subrange(0, i + 1)).union_prefer_right(start));
                },
            }
        } else {
            assert(values@ =~= defaults_map(ps.subrange(0, i + 1)).union_prefer_right(start));
        }
        i = i + 1;
    }
    assert(ps.subrange(0, ps.len() as int) =~= ps);
}

/// All variables of a run that asks nothing: the preset values, the project
/// and crate names, then the manifest's defaults for what is still unbound.
pub fn collect_with_defaults(
    config: &TemplateConfig,
    defines: &Vec<String>,
    file_values: Vec<(String, String)>,
    project_name: &str,
) -> (r: TemplateValues)
    requires
        config.well_formed(),
    ensures
        r.well_formed(),
        r@ == defaults_map(config.placeholders@).union_prefer_right(
            preset_map(defines@, file_values@).insert(PROJECT_NAME_VAR@, project_name@).insert(
                CRATE_NAME_VAR@,
                crate_ident(project_name@),
            ),
        ),
{
    let mut values = collect_predefined_variables(defines, file_values);
    bind_project_name(&mut values, project_name);
    apply_defaults(config, &mut values);
    values
}

/// A pair of the values file wins over a definition of the same key.
pub proof fn lemma_values_file_overrides_defines(
    defs: Seq<String>,
    file: Seq<(String, String)>,
    k: Seq<char>,
)
    requires
        pairs_map(file).contains_key(k),
    ensures
        preset_map(defs, file).contains_key(k),
        preset_map(defs, file)[k] == pairs_map(file)[k],
{
}

/// A copy of a list of strings.
pub fn clone_strings(v: &Vec<String>) -> (r: Vec<String>)
    ensures
        r@ == v@,
{
    let mut r: Vec<String> = Vec::new();
    let mut i: usize = 0;
    while i < v.len()
        invariant
            i <= v@.len(),
            r@ == v@.subrange(0, i as int),
        decreases v.len() - i,
    {
        r.push(v[i].clone());
        i = i + 1;
    }
    assert(r@ =~= v@);
    r
}

/// A copy of an optional string.
pub fn clone_opt(o: &Option<String>) -> (r: Option<String>)
    ensures
        r == *o,
{
    match o {
        Some(s) => Some(s.clone()),
        None => None,
    }
}

/// A prompt that the caller shows for one placeholder.
#[derive(Debug)]
pub enum PromptRequest {
    /// Pick one of `choices`; `default_index` is preselected.
    Select { prompt: String, choices: Vec<String>, default_index: usize },
    /// Free text, checked against `regex` when there is one.
    Text { prompt: String, default: Option<String>, regex: Option<String> },
    /// Yes or no.
    Confirm { prompt: String, default: bool },
}

/// `i` is the first position of `d` among `choices`.
pub open spec fn first_choice(choices: Seq<String>, d: Seq<char>, i: int) -> bool {
    0 <= i < choices.len() && choices[i]@ == d && forall|j: int| 0 <= j < i ==> #[trigger] choices[j]@ != d
}

/// `idx` is the position of `default` among `choices` (its first
/// occurrence), or the first position when there is no default or it is not
/// among the choices.
pub open spec fn is_default_index(choices: Seq<String>, default: Option<Seq<char>>, idx: int) -> bool {
    match default {
        Some(d) => first_choice(choices, d, idx) || (idx == 0 && forall|k: int|
            !#[trigger] first_choice(choices, d, k)),
        None => idx == 0,
    }
}

/// The preselected position of a list of choices: where the default stands
/// (its first occurrence), else the first.
pub fn default_choice_index(choices: &Vec<String>, default: Option<&str>) -> (r: usize)
    ensures
        is_default_index(
            choices@,
            match default {
                Some(d) => Some(d@),
                None => None,
            },
            r as int,
        ),
{
    match default {
        None => 0,
        Some(d) => {
            let mut i: usize = 0;
            while i < choices.len()
                invariant
                    default == Some(d),
                    i <= choices@.len(),
                    forall|j: int| 0 <= j < i ==> #[trigger] choices@[j]@ != d@,
                decreases choices.len() - i,
            {
                if same_text(choices[i].as_str(), d) {
                    assert(first_choice(choices@, d@, i as int));
                    return i;
                }
                i = i + 1;
            }
            assert(forall|k: int| !#[trigger] first_choice(choices@, d@, k));
            0
        },
    }
}

impl PromptRequest {
    /// This is the prompt for `placeholder`.
    pub open spec fn asks_for(&self, placeholder: &Placeholder) -> bool {
        match placeholder {
            Placeholder::String { prompt, default, regex, choices } => match choices {
                Some(c) => match self {
                    PromptRequest::Select { prompt: p, choices: cs, default_index } => p@ == prompt@
                        && cs@ == c@ && is_default_index(c@, opt_view(*default), *default_index as int),
                    _ => false,
                },
                None => *self == PromptRequest::Text { prompt: *prompt, default: *default, regex: *regex },
            },
            Placeholder::Bool { prompt, default } => *self == PromptRequest::Confirm {
                prompt: *prompt,
                default: match default {
                    Some(b) => *b,
                    None => false,
                },
            },
        }
    }
}

/// The prompt for a placeholder: a selection when it lists choices, free text
/// for other string placeholders, a confirmation (default no) for booleans.
pub fn prompt_request(placeholder: &Placeholder) -> (r: PromptRequest)
    ensures
        r.asks_for(placeholder),
{
    match placeholder {
        Placeholder::String { prompt, default, regex, choices } => match choices {
            Some(c) => {
                let d = match default {
                    Some(d) => Some(d.as_str()),
                    None => None,
                };
                let default_index = default_choice_index(c, d);
                PromptRequest::Select { prompt: prompt.clone(), choices: clone_strings(c), default_index }
            },
            None => PromptRequest::Text {
                prompt: prompt.clone(),
                default: clone_opt(default),
                regex: clone_opt(regex),
            },
        },
        Placeholder::Bool { prompt, default } => PromptRequest::Confirm {
            prompt: prompt.clone(),
            default: match default {
                Some(b) => *b,
                None => false,
            },
        },
    }
}

/// Whether an answer passes a placeholder's validation expression, which
/// must match somewhere in it; an expression that does not compile is a
/// manifest error.
pub fn validate_answer(pattern: &str, answer: &str) -> (r: Result<bool, CargoJamError>)
    ensures
        match r {
            Ok(ok) => regex_compiles(pattern@) && ok == regex_matches(pattern@, answer@),
            Err(e) => !regex_compiles(pattern@) && e is TemplateConfig,
        },
{
    match regex_search(pattern, answer) {
        Some(ok) => Ok(ok),
        None => {
            let mut msg = owned("Invalid regex '");
            msg.append(pattern);
            msg.append("'");
            Err(CargoJamError::TemplateConfig(msg))
        },
    }
}

/// The placeholders still to be asked for, in manifest order: those not yet
/// bound, other than the project name.
pub fn placeholders_to_prompt(config: &TemplateConfig, existing: &TemplateValues) -> (r: Vec<usize>)
    requires
        existing.well_formed(),
    ensures
        forall|j: int| 0 <= j < r@.len() ==> r@[j] < config.placeholders@.len(),
        forall|i: int|
            0 <= i < config.placeholders@.len() ==> (r@.contains(i as usize) <==> (
            !existing@.contains_key(#[trigger] config.placeholders@[i].0@)
                && config.placeholders@[i].0@ != PROJECT_NAME_VAR@)),
{
    let mut r: Vec<usize> = Vec::new();
    let mut i: usize = 0;
    while i < config.placeholders.len()
        invariant
            existing.well_formed(),
            i <= config.placeholders@.len(),
            forall|j: int| 0 <= j < r@.len() ==> r@[j] < i,
            forall|k: int|
                0 <= k < i ==> (r@.contains(k as usize) <==> (!existing@.contains_key(
                    #[trigger] config.placeholders@[k].0@,
                ) && config.placeholders@[k].0@ != PROJECT_NAME_VAR@)),
        decreases config.placeholders.len() - i,
    {
        let key = config.placeholders[i].0.as_str();
        let ghost before = r@;
        if !existing.contains(key) && !same_text(key, PROJECT_NAME_VAR) {
            r.push(i);
            assert(r@[r@.len() - 1] == i);
        }
        assert forall|k: int| 0 <= k < i + 1 implies (r@.contains(k as usize) <==> (
        !existing@.contains_key(#[trigger] config.placeholders@[k].0@)
            && config.placeholders@[k].0@ != PROJECT_NAME_VAR@)) by {
            if k < i {
                if before.contains(k as usize) {
                    let w = choose|w: int| 0 <= w < before.len() && before[w] == k as usize;
                    assert(r@[w] == k as usize);
                }
                if r@.contains(k as usize) {
                    let w = choose|w: int| 0 <= w < r@.len() && r@[w] == k as usize;
                    if w < before.len() {
                        assert(before[w] == k as usize);
                    }
                }
            }
        }
        i = i + 1;
    }
    r
}

} // verus!
