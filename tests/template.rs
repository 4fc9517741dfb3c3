use cargo_polkajam::prompt::values::TemplateValues;
use cargo_polkajam::template::config::{Placeholder, TemplateConfig, TemplateMetadata};
use cargo_polkajam::template::engine::{
    filename_request, finish_filename, CamelCaseFilter, KebabCaseFilter, PascalCaseFilter, SnakeCaseFilter,
    UpperCamelCaseFilter,
};
use cargo_polkajam::template::git::expand_url;
use cargo_polkajam::template::pattern::{glob_match, glob_to_regex};
use cargo_polkajam::CargoJamError;

struct Liquid(liquid::Parser);

impl Liquid {
    fn new() -> Liquid {
        Liquid(liquid::ParserBuilder::with_stdlib().build().unwrap())
    }
}

impl Liquid {
    fn render(&self, template: &str, variables: &TemplateValues) -> Result<String, CargoJamError> {
        let parsed = self
            .0
            .parse(template)
            .map_err(|e| CargoJamError::TemplateRender(e.to_string()))?;
        let mut globals = liquid::Object::new();
        for (k, v) in variables.entries() {
            globals.insert(k.clone().into(), liquid::model::Value::scalar(v.clone()));
        }
        parsed
            .render(&globals)
            .map_err(|e| CargoJamError::TemplateRender(e.to_string()))
    }
}

fn render_name(engine: &Liquid, name: &str, vars: &TemplateValues) -> Result<String, CargoJamError> {
    let answer = filename_request(name).map(|n| engine.render(&n, vars));
    finish_filename(name, answer)
}

fn metadata(includes: &[&str], ignore: &[&str]) -> TemplateMetadata {
    TemplateMetadata {
        name: "t".to_string(),
        description: None,
        version: None,
        includes: includes.iter().map(|s| s.to_string()).collect(),
        exclude: vec![],
        ignore: ignore.iter().map(|s| s.to_string()).collect(),
    }
}

fn config(includes: &[&str], ignore: &[&str]) -> TemplateConfig {
    TemplateConfig { template: metadata(includes, ignore), placeholders: vec![], conditional: vec![] }
}

#[test]
fn test_render_simple() {
    let mut vars = TemplateValues::new();
    vars.set("name", "my-service");
    let result = Liquid::new().render("Hello {{ name }}", &vars).unwrap();
    assert_eq!(result, "Hello my-service");
}

#[test]
fn pascal_case_of_service_name() {
    assert_eq!(PascalCaseFilter.evaluate("my-service"), "MyService");
    assert_eq!(PascalCaseFilter.name(), "pascal_case");
}

#[test]
fn snake_case_of_service_name() {
    assert_eq!(SnakeCaseFilter.evaluate("my-service"), "my_service");
    assert_eq!(SnakeCaseFilter.name(), "snake_case");
}

#[test]
fn other_case_filters() {
    assert_eq!(KebabCaseFilter.evaluate("MyService"), "my-service");
    assert_eq!(CamelCaseFilter.evaluate("my-service"), "myService");
    assert_eq!(UpperCamelCaseFilter.evaluate("my_service"), "MyService");
    assert_eq!(KebabCaseFilter.name(), "kebab_case");
    assert_eq!(CamelCaseFilter.name(), "camel_case");
    assert_eq!(UpperCamelCaseFilter.name(), "upper_camel_case");
}

#[test]
fn case_filters_keep_conforming_input() {
    for s in ["MyService", "A", "HttpServer2"] {
        assert_eq!(PascalCaseFilter.evaluate(s), s);
        assert_eq!(UpperCamelCaseFilter.evaluate(s), s);
    }
    for s in ["my_service", "a", "http_server2"] {
        assert_eq!(SnakeCaseFilter.evaluate(s), s);
    }
    for s in ["my-service", "a", "http-server2"] {
        assert_eq!(KebabCaseFilter.evaluate(s), s);
    }
    for s in ["myService", "a", "httpServer2"] {
        assert_eq!(CamelCaseFilter.evaluate(s), s);
    }
}

#[test]
fn case_filters_are_idempotent() {
    for s in ["my-service", "Hello World", "some_mixed-Input here"] {
        let p = PascalCaseFilter.evaluate(s);
        assert_eq!(PascalCaseFilter.evaluate(&p), p);
        let k = KebabCaseFilter.evaluate(s);
        assert_eq!(KebabCaseFilter.evaluate(&k), k);
        let n = SnakeCaseFilter.evaluate(s);
        assert_eq!(SnakeCaseFilter.evaluate(&n), n);
        let c = CamelCaseFilter.evaluate(s);
        assert_eq!(CamelCaseFilter.evaluate(&c), c);
    }
}

#[test]
fn filename_without_marker_is_kept() {
    let vars = TemplateValues::new();
    for name in ["src/lib.rs", "Cargo.toml", "a {b} c", ""] {
        assert_eq!(filename_request(name), None);
        assert_eq!(finish_filename(name, None).unwrap(), name);
    }
    let _ = vars;
}

#[test]
fn filename_with_marker_is_rendered() {
    let mut vars = TemplateValues::new();
    vars.set("project_name", "demo");
    assert_eq!(filename_request("src/{{ project_name }}.rs"), Some("src/{{ project_name }}.rs".to_string()));
    let r = render_name(&Liquid::new(), "src/{{ project_name }}.rs", &vars).unwrap();
    assert_eq!(r, "src/demo.rs");
}

#[test]
fn malformed_template_is_a_render_error() {
    let vars = TemplateValues::new();
    let r = render_name(&Liquid::new(), "{{ oops", &vars);
    assert!(matches!(r, Err(CargoJamError::TemplateRender(_))));
}

#[test]
fn glob_regex_of_patterns() {
    assert_eq!(glob_to_regex("*.rs"), "^[^/]*.rs$");
    assert_eq!(glob_to_regex("src/**"), "^src/.*$");
    assert_eq!(glob_to_regex("a/***"), "^a/.*[^/]*$");
    assert_eq!(glob_to_regex("plain"), "^plain$");
}

#[test]
fn glob_single_star_stays_in_one_component() {
    assert!(glob_match("*.secret", "config.secret"));
    assert!(!glob_match("*.secret", "dir/config.secret"));
    assert!(glob_match("*.rs", "lib.rs"));
}

#[test]
fn glob_double_star_spans_components() {
    assert!(glob_match("src/**", "src/a/b/c.rs"));
    assert!(glob_match("**/*.md", "docs/x/readme.md"));
    assert!(!glob_match("src/**", "tests/a.rs"));
}

#[test]
fn glob_literal_matches_path_and_below() {
    assert!(glob_match("target", "target"));
    assert!(glob_match("target", "target/debug/x"));
    assert!(!glob_match("target", "targets"));
    assert!(!glob_match("target", "my/target"));
}

#[test]
fn glob_malformed_pattern_matches_nothing() {
    assert!(!glob_match("*(", "a("));
    assert!(!glob_match("*(", "*("));
}

#[test]
fn ignore_and_render_selection_without_includes() {
    let c = config(&[], &["*.secret", "target"]);
    assert!(c.should_ignore_file("config.secret"));
    assert!(c.should_ignore_file("target/x"));
    assert!(c.should_ignore_file("cargo-polkajam.toml"));
    assert!(!c.should_ignore_file("src/lib.rs"));
    assert!(c.should_process_file("src/lib.rs"));
    assert!(!c.should_process_file("config.secret"));
    assert!(!c.should_process_file("cargo-polkajam.toml"));
}

#[test]
fn render_selection_with_includes() {
    let c = config(&["src/**", "Cargo.toml"], &["*.secret"]);
    assert!(c.should_process_file("src/lib.rs"));
    assert!(c.should_process_file("Cargo.toml"));
    assert!(!c.should_process_file("README.md"));
}

#[test]
fn placeholder_accessors() {
    let s = Placeholder::String {
        prompt: "Pick".to_string(),
        default: Some("b".to_string()),
        regex: Some("^[a-z]+$".to_string()),
        choices: Some(vec!["a".to_string(), "b".to_string()]),
    };
    assert_eq!(s.prompt(), "Pick");
    assert_eq!(s.default_value(), Some("b".to_string()));
    assert_eq!(s.choices().unwrap().len(), 2);
    assert_eq!(s.regex(), Some("^[a-z]+$"));
    assert!(!s.is_bool());
    let b = Placeholder::Bool { prompt: "Ok?".to_string(), default: Some(true) };
    assert_eq!(b.prompt(), "Ok?");
    assert_eq!(b.default_value(), Some("true".to_string()));
    assert!(b.choices().is_none());
    assert!(b.regex().is_none());
    assert!(b.is_bool());
    let f = Placeholder::Bool { prompt: "No?".to_string(), default: Some(false) };
    assert_eq!(f.default_value(), Some("false".to_string()));
    let n = Placeholder::Bool { prompt: "?".to_string(), default: None };
    assert_eq!(n.default_value(), None);
}

#[test]
fn shorthand_urls_expand() {
    assert_eq!(expand_url("gh:owner/repo"), "https://github.com/owner/repo.git");
    assert_eq!(expand_url("github:owner/repo"), "https://github.com/owner/repo.git");
    assert_eq!(expand_url("gl:o/r"), "https://gitlab.com/o/r.git");
    assert_eq!(expand_url("gitlab:o/r"), "https://gitlab.com/o/r.git");
    assert_eq!(expand_url("bb:o/r"), "https://bitbucket.org/o/r.git");
    assert_eq!(expand_url("bitbucket:o/r"), "https://bitbucket.org/o/r.git");
    assert_eq!(expand_url("https://x.org/r.git"), "https://x.org/r.git");
}

#[test]
fn filename_answer_is_returned_as_it_came() {
    let ok = finish_filename("{{ x }}", Some(Ok("rendered".to_string())));
    assert_eq!(ok.unwrap(), "rendered");
    let err = finish_filename("{{ x }}", Some(Err(CargoJamError::TemplateRender("bad".to_string()))));
    assert!(matches!(err, Err(CargoJamError::TemplateRender(m)) if m == "bad"));
}
