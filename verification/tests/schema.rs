use anza_ci::config::Args;
use anza_ci::resolver::Toml;
use anza_ci::schema::{EntryFault, Field, ParseError, Section};
use toml::{Table, Value};

fn failure(text: &str) -> ParseError {
    match Toml::parse(text) {
        Ok(_) => panic!("the text was taken for a configuration"),
        Err(error) => error,
    }
}

fn string(s: &str) -> Value {
    Value::String(s.to_string())
}

fn entry(pairs: &[(&str, Value)]) -> Value {
    let mut table = Table::new();
    for (key, value) in pairs {
        table.insert(key.to_string(), value.clone());
    }
    Value::Table(table)
}

fn document(templates: Vec<Value>, aliases: Vec<Value>) -> Table {
    let mut doc = Table::new();
    doc.insert("template".to_string(), Value::Array(templates));
    doc.insert("alias".to_string(), Value::Array(aliases));
    doc
}

fn document_failure(doc: &Table) -> ParseError {
    match Toml::from_document(doc) {
        Ok(_) => panic!("the document was taken for a configuration"),
        Err(error) => error,
    }
}

#[test]
fn malformed_text_is_a_syntax_error() {
    assert!(matches!(failure("[[template]\nname = "), ParseError::Syntax(_)));
    assert!(matches!(failure("name = \"a\"\nname = \"b\""), ParseError::Syntax(_)));
    match failure("= 1") {
        ParseError::Syntax(error) => assert!(!error.message().is_empty()),
        other => panic!("unexpected error: {:?}", other),
    }
}

#[test]
fn empty_sections_give_an_empty_configuration() {
    let config = Toml::parse("template = []\nalias = []\n").unwrap();
    assert_eq!(config.template_count(), 0);
    assert_eq!(config.alias_count(), 0);
    assert_eq!(config.compile_alias_command("anything"), None);
}

#[test]
fn both_sections_are_required() {
    assert_eq!(failure(""), ParseError::MissingSection(Section::Template));
    assert_eq!(
        failure("[[alias]]\nname = \"a\"\n"),
        ParseError::MissingSection(Section::Template)
    );
    assert_eq!(
        failure("[[template]]\nname = \"t\"\n"),
        ParseError::MissingSection(Section::Alias)
    );
}

#[test]
fn unknown_top_level_key_is_rejected_first() {
    assert_eq!(failure("other = 1\n"), ParseError::UnknownSection);
    assert_eq!(
        failure("title = \"x\"\n[[template]]\nname = \"t\"\n[[alias]]\nname = \"a\"\n"),
        ParseError::UnknownSection
    );
    assert_eq!(failure("[[templates]]\nname = \"t\"\n"), ParseError::UnknownSection);
}

#[test]
fn section_must_be_an_array() {
    assert_eq!(
        failure("alias = []\n[template]\nname = \"t\"\n"),
        ParseError::SectionNotArray(Section::Template)
    );
    assert_eq!(
        failure("template = []\nalias = \"a\"\n"),
        ParseError::SectionNotArray(Section::Alias)
    );
}

#[test]
fn templates_are_read_before_aliases() {
    assert_eq!(
        failure("template = 1\nalias = 2\n"),
        ParseError::SectionNotArray(Section::Template)
    );
    assert_eq!(
        failure("alias = [1]\ntemplate = [2]\n"),
        ParseError::Entry(Section::Template, 0, EntryFault::NotTable)
    );
}

#[test]
fn entry_must_be_a_table() {
    assert_eq!(
        failure("template = [{ name = \"t\" }, \"u\"]\nalias = []\n"),
        ParseError::Entry(Section::Template, 1, EntryFault::NotTable)
    );
    assert_eq!(
        failure("template = []\nalias = [[\"a\"]]\n"),
        ParseError::Entry(Section::Alias, 0, EntryFault::NotTable)
    );
}

#[test]
fn unknown_key_in_an_entry_is_rejected() {
    assert_eq!(
        failure("alias = []\n[[template]]\nname = \"t\"\nextra_args = []\n"),
        ParseError::Entry(Section::Template, 0, EntryFault::UnknownKey)
    );
    assert_eq!(
        failure("template = []\n[[alias]]\nname = \"a\"\n[[alias]]\nname = \"b\"\ncolour = 1\n"),
        ParseError::Entry(Section::Alias, 1, EntryFault::UnknownKey)
    );
}

#[test]
fn template_has_neither_manifest_nor_template() {
    assert_eq!(
        failure("alias = []\n[[template]]\nname = \"t\"\nmanifest = \"Cargo.toml\"\n"),
        ParseError::Entry(Section::Template, 0, EntryFault::UnknownKey)
    );
    assert_eq!(
        failure("alias = []\n[[template]]\nname = \"t\"\ntemplate = \"u\"\n"),
        ParseError::Entry(Section::Template, 0, EntryFault::UnknownKey)
    );
    let config = Toml::parse(
        "template = []\n[[alias]]\nname = \"a\"\nmanifest = \"Cargo.toml\"\ntemplate = \"u\"\n",
    )
    .unwrap();
    let alias = config.alias("a").unwrap();
    assert_eq!(alias.manifest, Some("Cargo.toml".to_string()));
    assert_eq!(alias.template, Some("u".to_string()));
}

#[test]
fn name_is_required() {
    assert_eq!(
        failure("alias = []\n[[template]]\ncommand = \"cargo\"\n"),
        ParseError::Entry(Section::Template, 0, EntryFault::MissingName)
    );
    assert_eq!(
        failure("template = []\nalias = [{}]\n"),
        ParseError::Entry(Section::Alias, 0, EntryFault::MissingName)
    );
}

#[test]
fn unknown_key_comes_before_missing_name_and_wrong_type() {
    assert_eq!(
        failure("template = []\n[[alias]]\nother = 1\ncommand = 2\n"),
        ParseError::Entry(Section::Alias, 0, EntryFault::UnknownKey)
    );
    assert_eq!(
        failure("template = []\n[[alias]]\ncommand = 2\n"),
        ParseError::Entry(Section::Alias, 0, EntryFault::MissingName)
    );
}

#[test]
fn value_of_the_wrong_kind_is_rejected_for_each_field() {
    let cases = [
        ("name = 1", Field::Name),
        ("name = \"a\"\nargs = \"--x\"", Field::Args),
        ("name = \"a\"\nargs = [\"--x\", 2]", Field::Args),
        ("name = \"a\"\ncommand = true", Field::Command),
        ("name = \"a\"\nextra-args = [[\"--x\"]]", Field::ExtraArgs),
        ("name = \"a\"\nmanifest = 1.5", Field::Manifest),
        ("name = \"a\"\nsubcommand = [\"fmt\"]", Field::Subcommand),
        ("name = \"a\"\ntemplate = 1979-05-27", Field::Template),
        ("name = \"a\"\ntoolchain = { channel = \"stable\" }", Field::Toolchain),
    ];
    for (body, field) in cases {
        let text = format!("template = []\n[[alias]]\n{}\n", body);
        assert_eq!(
            failure(&text),
            ParseError::Entry(Section::Alias, 0, EntryFault::WrongType(field))
        );
    }
}

#[test]
fn first_field_of_the_wrong_kind_is_named() {
    assert_eq!(
        failure("template = []\n[[alias]]\nname = \"a\"\ntoolchain = 1\ncommand = 2\nargs = 3\n"),
        ParseError::Entry(Section::Alias, 0, EntryFault::WrongType(Field::Args))
    );
    assert_eq!(
        failure("alias = []\n[[template]]\nname = \"t\"\ntoolchain = 1\nsubcommand = 2\n"),
        ParseError::Entry(Section::Template, 0, EntryFault::WrongType(Field::Subcommand))
    );
}

#[test]
fn first_entry_at_fault_is_named() {
    let text = "alias = []\n[[template]]\nname = \"t\"\n[[template]]\nname = 2\n[[template]]\n";
    assert_eq!(
        failure(text),
        ParseError::Entry(Section::Template, 1, EntryFault::WrongType(Field::Name))
    );
}

#[test]
fn empty_blocks_and_empty_strings_are_read_as_present() {
    let config = Toml::parse(
        "alias = []\n[[template]]\nname = \"\"\nargs = []\nextra-args = []\ncommand = \"\"\n",
    )
    .unwrap();
    let template = config.template("").unwrap();
    assert_eq!(template.name, "");
    assert_eq!(template.args, Some(Args(vec![])));
    assert_eq!(template.extra_args, Some(Args(vec![])));
    assert_eq!(template.command, Some(String::new()));
    assert_eq!(template.subcommand, None);
}

#[test]
fn duplicate_names_in_a_section_keep_the_later_entry() {
    let config = Toml::parse(
        r#"
        [[template]]
        name = "t"
        command = "first"
        subcommand = "only-in-first"

        [[template]]
        name = "t"
        command = "second"

        [[alias]]
        name = "a"
        template = "t"
        toolchain = "stable"

        [[alias]]
        name = "a"
        template = "t"
        "#,
    )
    .unwrap();
    assert_eq!(config.template_count(), 1);
    assert_eq!(config.alias_count(), 1);
    let template = config.template("t").unwrap();
    assert_eq!(template.command, Some("second".to_string()));
    assert_eq!(template.subcommand, None);
    assert_eq!(config.alias("a").unwrap().toolchain, None);
    let resolved = config.compile_alias_command("a").unwrap();
    assert_eq!(resolved.program, "second");
    assert_eq!(resolved.args, vec!["--".to_string()]);
}

#[test]
fn document_built_by_hand_is_read_like_a_parsed_one() {
    let doc = document(
        vec![entry(&[
            ("name", string("lint")),
            ("args", Value::Array(vec![string("--all-features"), string("--all-targets")])),
            ("toolchain", string("nightly")),
        ])],
        vec![entry(&[("name", string("lint-program")), ("template", string("lint"))])],
    );
    let config = Toml::from_document(&doc).unwrap();
    assert_eq!(config.template_count(), 1);
    assert_eq!(config.alias_count(), 1);
    let template = config.template("lint").unwrap();
    assert_eq!(
        template.args,
        Some(Args(vec!["--all-features".to_string(), "--all-targets".to_string()]))
    );
    assert_eq!(template.toolchain, Some("nightly".to_string()));
    let resolved = config.compile_alias_command("lint-program").unwrap();
    assert_eq!(resolved.program, "cargo");
    assert_eq!(resolved.args, vec!["+nightly", "--all-features", "--all-targets", "--"]);
}

#[test]
fn document_faults_are_found_without_a_text() {
    assert_eq!(document_failure(&Table::new()), ParseError::MissingSection(Section::Template));
    let mut doc = document(vec![], vec![]);
    doc.insert("other".to_string(), Value::Boolean(true));
    assert_eq!(document_failure(&doc), ParseError::UnknownSection);
    let doc = document(vec![entry(&[("name", string("t"))]), Value::Integer(3)], vec![]);
    assert_eq!(
        document_failure(&doc),
        ParseError::Entry(Section::Template, 1, EntryFault::NotTable)
    );
    let doc = document(vec![], vec![entry(&[("name", string("a")), ("args", Value::Float(1.0))])]);
    assert_eq!(
        document_failure(&doc),
        ParseError::Entry(Section::Alias, 0, EntryFault::WrongType(Field::Args))
    );
    let mut doc = Table::new();
    doc.insert("template".to_string(), Value::Array(vec![]));
    doc.insert("alias".to_string(), entry(&[]));
    assert_eq!(document_failure(&doc), ParseError::SectionNotArray(Section::Alias));
}
