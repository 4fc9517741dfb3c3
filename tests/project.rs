use cargo_polkajam::project::generator::{FileContents, OutputEntry, ProjectGenerator, RenderAnswers, TemplateEntry};
use cargo_polkajam::project::validation::validate_project_name;
use cargo_polkajam::prompt::collect::{collect_with_defaults, crate_name_of};
use cargo_polkajam::prompt::values::TemplateValues;
use cargo_polkajam::template::config::{Placeholder, TemplateConfig, TemplateMetadata};
use cargo_polkajam::CargoJamError;

struct Liquid(liquid::Parser);

impl Liquid {
    fn render(&self, template: &str, variables: &TemplateValues) -> Result<String, CargoJamError> {
        let parsed = self
            .0
            .parse(template)
            .map_err(|e| CargoJamError::TemplateRender(e.to_string()))?;
        let mut globals = liquid::Object::new();
        for (k, v) in variables.entries() {
            globals.insert(k.clone().into(), liquid::model::Value::scalar(v.clone()));
        }
        parsed
            .render(&globals)
            .map_err(|e| CargoJamError::TemplateRender(e.to_string()))
    }
}

fn liquid() -> Liquid {
    Liquid(liquid::ParserBuilder::with_stdlib().build().unwrap())
}

fn refuses(_t: &str, _v: &TemplateValues) -> Result<String, CargoJamError> {
    panic!("the renderer must not be called")
}

fn fails(_t: &str, _v: &TemplateValues) -> Result<String, CargoJamError> {
    Err(CargoJamError::TemplateRender("nope".to_string()))
}

// Hands each entry's requests to `render`, the name first, then generates.
fn run(
    g: &ProjectGenerator,
    render: &dyn Fn(&str, &TemplateValues) -> Result<String, CargoJamError>,
    entries: &Vec<TemplateEntry>,
    vars: &TemplateValues,
) -> Result<Vec<OutputEntry>, CargoJamError> {
    let answers = entries
        .iter()
        .map(|e| {
            let (n, t) = g.render_requests(e);
            let name = n.map(|n| render(&n, vars));
            let text = if matches!(name, Some(Err(_))) { None } else { t.map(|t| render(&t, vars)) };
            RenderAnswers { name, text }
        })
        .collect();
    g.generate(entries, answers)
}

fn config(includes: &[&str], ignore: &[&str]) -> TemplateConfig {
    TemplateConfig {
        template: TemplateMetadata {
            name: "t".to_string(),
            description: None,
            version: None,
            includes: includes.iter().map(|s| s.to_string()).collect(),
            exclude: vec![],
            ignore: ignore.iter().map(|s| s.to_string()).collect(),
        },
        placeholders: vec![],
        conditional: vec![],
    }
}

fn file(path: &str, contents: &[u8]) -> TemplateEntry {
    TemplateEntry { path: path.to_string(), is_dir: false, contents: contents.to_vec() }
}

fn dir(path: &str) -> TemplateEntry {
    TemplateEntry { path: path.to_string(), is_dir: true, contents: vec![] }
}

fn out_paths(outs: &[OutputEntry]) -> Vec<String> {
    outs.iter()
        .filter_map(|o| match o {
            OutputEntry::Skipped => None,
            OutputEntry::Dir { path } => Some(path.clone()),
            OutputEntry::File { path, .. } => Some(path.clone()),
        })
        .collect()
}

#[test]
fn test_valid_names() {
    assert!(validate_project_name("my-service").is_ok());
    assert!(validate_project_name("my_service").is_ok());
    assert!(validate_project_name("myservice").is_ok());
    assert!(validate_project_name("my-service-123").is_ok());
}

#[test]
fn test_invalid_names() {
    assert!(validate_project_name("").is_err());
    assert!(validate_project_name("My-Service").is_err());
    assert!(validate_project_name("123service").is_err());
    assert!(validate_project_name("-service").is_err());
    assert!(validate_project_name("self").is_err());
}

#[test]
fn name_rejection_reasons() {
    let reason = |n: &str| match validate_project_name(n) {
        Err(CargoJamError::InvalidProjectName { name, reason }) => {
            assert_eq!(name, n);
            reason
        }
        other => panic!("unexpected {:?}", other),
    };
    assert_eq!(reason(""), "Project name cannot be empty");
    assert!(reason("My-Service").starts_with("Must start with a lowercase letter"));
    assert_eq!(reason("crate"), "'crate' is a reserved Rust keyword");
    let long = "a".repeat(65);
    assert_eq!(reason(&long), "Project name must be 64 characters or less");
    assert!(validate_project_name(&"a".repeat(64)).is_ok());
}

#[test]
fn service_name_and_crate_name() {
    assert!(validate_project_name("My-Service").is_err());
    assert!(validate_project_name("my-service").is_ok());
    assert_eq!(crate_name_of("my-service"), "my_service");
    assert_eq!(crate_name_of("a-b-c_d"), "a_b_c_d");
}

#[test]
fn ignored_secret_is_not_generated() {
    let g = ProjectGenerator::new(config(&[], &["*.secret"]));
    let entries = vec![
        dir(""),
        file("cargo-polkajam.toml", b"[template]\nname = \"t\"\n"),
        file("config.secret", b"token"),
        file("README.md", b"hello"),
    ];
    let outs = run(&g, &|t, v| liquid().render(t, v), &entries, &TemplateValues::new()).unwrap();
    assert_eq!(outs.len(), entries.len());
    assert_eq!(out_paths(&outs), vec!["README.md".to_string()]);
}

#[test]
fn unignored_files_are_rendered_without_includes() {
    let g = ProjectGenerator::new(config(&[], &[]));
    let mut vars = TemplateValues::new();
    vars.set("who", "world");
    let entries = vec![file("hello.txt", b"hi {{ who }}")];
    let outs = run(&g, &|t, v| liquid().render(t, v), &entries, &vars).unwrap();
    match &outs[0] {
        OutputEntry::File { path, contents: FileContents::Rendered(text) } => {
            assert_eq!(path, "hello.txt");
            assert_eq!(text, "hi world");
        }
        other => panic!("unexpected {:?}", other),
    }
}

#[test]
fn literal_copies_are_byte_identical() {
    let g = ProjectGenerator::new(config(&["templates/**"], &[]));
    let bytes: Vec<u8> = vec![0, 159, 146, 150, 255, b'{', b'{'];
    let entries = vec![dir(""), dir("assets"), file("assets/logo.bin", &bytes), file("notes.txt", b"plain")];
    let outs = run(&g, &refuses, &entries, &TemplateValues::new()).unwrap();
    assert!(matches!(outs[0], OutputEntry::Skipped));
    match &outs[1] {
        OutputEntry::Dir { path } => assert_eq!(path, "assets"),
        other => panic!("unexpected {:?}", other),
    }
    match &outs[2] {
        OutputEntry::File { path, contents: FileContents::Copied(b) } => {
            assert_eq!(path, "assets/logo.bin");
            assert_eq!(b, &bytes);
        }
        other => panic!("unexpected {:?}", other),
    }
    match &outs[3] {
        OutputEntry::File { path, contents: FileContents::Copied(b) } => {
            assert_eq!(path, "notes.txt");
            assert_eq!(b, b"plain");
        }
        other => panic!("unexpected {:?}", other),
    }
}

#[test]
fn liquid_suffix_is_stripped_and_rendered() {
    let g = ProjectGenerator::new(config(&["none"], &[]));
    let mut vars = TemplateValues::new();
    vars.set("crate_name", "demo");
    let entries = vec![file("src/{{ crate_name }}.rs.liquid", b"// {{ crate_name }}")];
    let outs = run(&g, &|t, v| liquid().render(t, v), &entries, &vars).unwrap();
    match &outs[0] {
        OutputEntry::File { path, contents: FileContents::Rendered(text) } => {
            assert_eq!(path, "src/demo.rs");
            assert_eq!(text, "// demo");
        }
        other => panic!("unexpected {:?}", other),
    }
}

#[test]
fn rendered_file_must_be_text() {
    let g = ProjectGenerator::new(config(&[], &[]));
    let entries = vec![file("blob.bin", &[0xff, 0xfe, 0x00])];
    let r = run(&g, &|t, v| liquid().render(t, v), &entries, &TemplateValues::new());
    assert!(matches!(r, Err(CargoJamError::Io(_))));
}

#[test]
fn render_failure_aborts_generation() {
    let g = ProjectGenerator::new(config(&[], &[]));
    let entries = vec![file("a.txt", b"ok"), file("b.txt", b"{% if %}")];
    let r = run(&g, &|t, v| liquid().render(t, v), &entries, &TemplateValues::new());
    assert!(matches!(r, Err(CargoJamError::TemplateRender(_))));
}

#[test]
fn default_greeting_is_rendered() {
    let mut c = config(&[], &[]);
    c.placeholders.push((
        "greeting".to_string(),
        Placeholder::String { prompt: "Greeting".to_string(), default: Some("hi".to_string()), regex: None, choices: None },
    ));
    let vars = collect_with_defaults(&c, &vec![], vec![], "demo");
    let g = ProjectGenerator::new(c);
    let entries = vec![dir(""), file("greet.txt", b"{{ greeting }}!")];
    let outs = run(&g, &|t, v| liquid().render(t, v), &entries, &vars).unwrap();
    match &outs[1] {
        OutputEntry::File { contents: FileContents::Rendered(text), .. } => assert_eq!(text, "hi!"),
        other => panic!("unexpected {:?}", other),
    }
}


#[test]
fn requests_hand_the_stripped_name_and_the_text() {
    let g = ProjectGenerator::new(config(&["none"], &["*.secret"]));
    let e = file("src/{{ crate_name }}.rs.liquid", b"// {{ crate_name }}");
    let (name, text) = g.render_requests(&e);
    assert_eq!(name, Some("src/{{ crate_name }}.rs".to_string()));
    assert_eq!(text, Some("// {{ crate_name }}".to_string()));
    let (name, text) = g.render_requests(&file("plain.txt", b"x"));
    assert_eq!((name, text), (None, None));
    let (name, text) = g.render_requests(&file("a.secret", b"x"));
    assert_eq!((name, text), (None, None));
    let (name, text) = g.render_requests(&file("t.liquid", &[0xff]));
    assert_eq!((name, text), (None, None));
}

#[test]
fn finishing_uses_the_answers() {
    let g = ProjectGenerator::new(config(&[], &[]));
    let e = file("{{ n }}.txt", b"hello {{ n }}");
    let out = g
        .finish_entry(&e, Some(Ok("demo.txt".to_string())), Some(Ok("hello demo".to_string())))
        .unwrap();
    match out {
        OutputEntry::File { path, contents: FileContents::Rendered(text) } => {
            assert_eq!(path, "demo.txt");
            assert_eq!(text, "hello demo");
        }
        other => panic!("unexpected {:?}", other),
    }
    let r = g.finish_entry(&e, Some(Err(CargoJamError::TemplateRender("name".to_string()))), None);
    assert!(matches!(r, Err(CargoJamError::TemplateRender(m)) if m == "name"));
    let r = g.finish_entry(&e, Some(Ok("d.txt".to_string())), Some(Err(CargoJamError::TemplateRender("text".to_string()))));
    assert!(matches!(r, Err(CargoJamError::TemplateRender(m)) if m == "text"));
    let d = dir("{{ n }}");
    match g.finish_entry(&d, Some(Ok("demo".to_string())), None).unwrap() {
        OutputEntry::Dir { path } => assert_eq!(path, "demo"),
        other => panic!("unexpected {:?}", other),
    }
}

#[test]
fn not_text_message_names_the_path() {
    let g = ProjectGenerator::new(config(&[], &[]));
    match g.finish_entry(&file("b.bin", &[0xff]), None, None) {
        Err(CargoJamError::Io(m)) => assert_eq!(m, "b.bin: stream did not contain valid UTF-8"),
        other => panic!("unexpected {:?}", other),
    }
}

#[test]
fn renderer_failure_fails_generation() {
    let g = ProjectGenerator::new(config(&[], &[]));
    let entries = vec![dir(""), file("a.txt", b"x")];
    assert!(matches!(run(&g, &fails, &entries, &TemplateValues::new()), Err(CargoJamError::TemplateRender(_))));
    let named = vec![dir("{{ x }}")];
    assert!(matches!(run(&g, &fails, &named, &TemplateValues::new()), Err(CargoJamError::TemplateRender(_))));
}

#[test]
fn marked_directory_gets_rendered_name() {
    let g = ProjectGenerator::new(config(&[], &[]));
    let mut vars = TemplateValues::new();
    vars.set("x", "pkg");
    let outs = run(&g, &|t, v| liquid().render(t, v), &vec![dir("src/{{ x }}")], &vars).unwrap();
    match &outs[0] {
        OutputEntry::Dir { path } => assert_eq!(path, "src/pkg"),
        other => panic!("unexpected {:?}", other),
    }
}

#[test]
fn generate_takes_the_answers_as_given() {
    let g = ProjectGenerator::new(config(&[], &["*.secret"]));
    let entries = vec![dir(""), dir("{{ x }}"), file("a.txt", b"{{ y }}"), file("k.secret", b"s")];
    let answers = vec![
        RenderAnswers { name: None, text: None },
        RenderAnswers { name: Some(Ok("pkg".to_string())), text: None },
        RenderAnswers { name: None, text: Some(Ok("Y".to_string())) },
        RenderAnswers { name: None, text: None },
    ];
    let outs = g.generate(&entries, answers).unwrap();
    assert!(matches!(outs[0], OutputEntry::Skipped));
    assert!(matches!(&outs[1], OutputEntry::Dir { path } if path == "pkg"));
    assert!(matches!(&outs[2], OutputEntry::File { path, contents: FileContents::Rendered(t) } if path == "a.txt" && t == "Y"));
    assert!(matches!(outs[3], OutputEntry::Skipped));
    let answers = vec![
        RenderAnswers { name: None, text: None },
        RenderAnswers { name: Some(Err(CargoJamError::TemplateRender("first".to_string()))), text: None },
        RenderAnswers { name: None, text: Some(Err(CargoJamError::TemplateRender("second".to_string()))) },
        RenderAnswers { name: None, text: None },
    ];
    assert!(matches!(g.generate(&entries, answers), Err(CargoJamError::TemplateRender(m)) if m == "first"));
}
