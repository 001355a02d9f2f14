use ezpz::formatter::{commands_for_extension, parse_ignoring_case, FileExtension};

const ALL: [FileExtension; 14] = [
    FileExtension::Py,
    FileExtension::Pyi,
    FileExtension::Toml,
    FileExtension::JS,
    FileExtension::Jsx,
    FileExtension::Ts,
    FileExtension::Tsx,
    FileExtension::Css,
    FileExtension::Scss,
    FileExtension::Json,
    FileExtension::Md,
    FileExtension::Yml,
    FileExtension::Yaml,
    FileExtension::Rs,
];

fn commands(e: FileExtension) -> Vec<(String, Vec<String>)> {
    e.get_cmd_strings()
        .into_iter()
        .map(|c| (c.program.to_string(), c.args.iter().map(|a| a.to_string()).collect()))
        .collect()
}

#[test]
fn text_of_each_kind() {
    assert_eq!(FileExtension::Py.as_str(), ".py");
    assert_eq!(FileExtension::Pyi.as_str(), ".pyi");
    assert_eq!(FileExtension::Yaml.as_str(), ".yaml");
    assert_eq!(FileExtension::Rs.as_str(), ".rs");
}

#[test]
fn parse_reads_back_every_text() {
    for e in ALL {
        assert_eq!(FileExtension::parse(e.as_str()), Some(e));
    }
}

#[test]
fn parse_is_exact() {
    assert_eq!(FileExtension::parse("py"), None);
    assert_eq!(FileExtension::parse(".PY"), None);
    assert_eq!(FileExtension::parse(".py "), None);
    assert_eq!(parse_ignoring_case(".PY"), Some(FileExtension::Py));
    assert_eq!(parse_ignoring_case(".Yaml"), Some(FileExtension::Yaml));
}

#[test]
fn python_commands() {
    let expected = vec![
        ("rye".to_string(), vec!["run".to_string(), "ruff".to_string(), "check".to_string(), "--fix".to_string()]),
        ("rye".to_string(), vec!["run".to_string(), "ruff".to_string(), "format".to_string()]),
    ];
    assert_eq!(commands(FileExtension::Py), expected);
    assert_eq!(commands(FileExtension::Pyi), expected);
}

#[test]
fn web_commands() {
    for e in [FileExtension::JS, FileExtension::Css, FileExtension::Json, FileExtension::Md, FileExtension::Yml] {
        assert_eq!(commands(e), vec![("pnpm".to_string(), vec!["prettier".to_string(), "-w".to_string()])]);
    }
}

#[test]
fn rust_and_toml_commands() {
    assert_eq!(
        commands(FileExtension::Rs),
        vec![("rustfmt".to_string(), vec!["run".to_string(), "ruff".to_string(), "check".to_string(), "--fix".to_string()])]
    );
    assert_eq!(commands(FileExtension::Toml), vec![("taplo".to_string(), vec!["format".to_string()])]);
}

#[test]
fn commands_for_an_extension() {
    // A path's extension has no leading dot, so it names no file kind.
    assert!(commands_for_extension("py").is_none());
    assert!(commands_for_extension("rs").is_none());
    let found = commands_for_extension(".TOML").unwrap();
    assert_eq!(found.len(), 1);
    assert_eq!(found[0].program, "taplo");
}
