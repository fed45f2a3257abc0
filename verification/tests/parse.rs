use anza_ci::config::Args;
use anza_ci::resolver::Toml;

const TEST_TOML: &str = r#"
        [[template]]
        name = "format:rust"
        command = "cargo"
        extra-args = ["--check"]
        subcommand = "fmt"
        toolchain = "nightly-2024-11-22"

        [[template]]
        name = "format:js"
        command = "pnpm"
        subcommand = "prettier"

        [[template]]
        name = "lint:rust"
        args = [
            "-Zunstable-options",
            "--all-features",
            "--all-targets",
        ]
        command = "cargo"
        extra-args = [
            "--deny=warnings",
            "--deny=clippy::arithmetic_side_effects",
        ]
        subcommand = "clippy"
        toolchain = "nightly-2024-11-22"

        
        [[alias]]
        name = "fmt-program"
        manifest = "program/Cargo.toml"
        template = "format:rust"
        
        [[alias]]
        name = "fmt-client-js"
        manifest = "clients/js/package.json"
        template = "format:js"

        [[alias]]
        name = "lint-program"
        manifest = "program/Cargo.toml"
        template = "lint:rust"
    "#;

#[test]
fn test_parse_toml() {
    let parsed_toml: Toml = Toml::parse(TEST_TOML).unwrap();
    assert_eq!(parsed_toml.alias_count(), 3);
    assert_eq!(parsed_toml.template_count(), 3);

    let format_rust_template = &parsed_toml.template("format:rust").unwrap();
    assert_eq!(format_rust_template.name, "format:rust");
    assert_eq!(format_rust_template.args, None);
    assert_eq!(format_rust_template.command, Some("cargo".to_string()));
    assert_eq!(
        format_rust_template.extra_args,
        Some(Args(vec!["--check".to_string()]))
    );
    assert_eq!(format_rust_template.subcommand, Some("fmt".to_string()));
    assert_eq!(
        format_rust_template.toolchain,
        Some("nightly-2024-11-22".to_string())
    );

    let format_js_template = &parsed_toml.template("format:js").unwrap();
    assert_eq!(format_js_template.name, "format:js");
    assert_eq!(format_js_template.args, None);
    assert_eq!(format_js_template.command, Some("pnpm".to_string()));
    assert_eq!(format_js_template.extra_args, None);
    assert_eq!(format_js_template.subcommand, Some("prettier".to_string()));
    assert_eq!(format_js_template.toolchain, None);

    let lint_rust_template = &parsed_toml.template("lint:rust").unwrap();
    assert_eq!(lint_rust_template.name, "lint:rust");
    assert_eq!(
        lint_rust_template.args,
        Some(Args(vec![
            "-Zunstable-options".to_string(),
            "--all-features".to_string(),
            "--all-targets".to_string(),
        ]))
    );
    assert_eq!(lint_rust_template.command, Some("cargo".to_string()));
    assert_eq!(
        lint_rust_template.extra_args,
        Some(Args(vec![
            "--deny=warnings".to_string(),
            "--deny=clippy::arithmetic_side_effects".to_string(),
        ]))
    );
    assert_eq!(lint_rust_template.subcommand, Some("clippy".to_string()));
    assert_eq!(
        lint_rust_template.toolchain,
        Some("nightly-2024-11-22".to_string())
    );

    let format_program_alias = &parsed_toml.alias("fmt-program").unwrap();
    assert_eq!(format_program_alias.name, "fmt-program");
    assert_eq!(
        format_program_alias.manifest,
        Some("program/Cargo.toml".to_string())
    );
    assert_eq!(
        format_program_alias.template,
        Some("format:rust".to_string())
    );

    let format_client_js_alias = &parsed_toml.alias("fmt-client-js").unwrap();
    assert_eq!(format_client_js_alias.name, "fmt-client-js");
    assert_eq!(
        format_client_js_alias.manifest,
        Some("clients/js/package.json".to_string())
    );
    assert_eq!(
        format_client_js_alias.template,
        Some("format:js".to_string())
    );

    let lint_program_alias = &parsed_toml.alias("lint-program").unwrap();
    assert_eq!(lint_program_alias.name, "lint-program");
    assert_eq!(
        lint_program_alias.manifest,
        Some("program/Cargo.toml".to_string())
    );
    assert_eq!(lint_program_alias.template, Some("lint:rust".to_string()));
}
