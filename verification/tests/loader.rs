use anza_ci::config::{Alias, Template};
use anza_ci::parser::{map_of_keyed_elements, TomlNamedElement};
use anza_ci::resolver::Toml;

fn template(name: &str, command: Option<&str>, subcommand: Option<&str>) -> Template {
    Template {
        name: name.to_string(),
        args: None,
        command: command.map(|s| s.to_string()),
        extra_args: None,
        subcommand: subcommand.map(|s| s.to_string()),
        toolchain: None,
    }
}

fn alias(name: &str, toolchain: Option<&str>) -> Alias {
    Alias {
        name: name.to_string(),
        args: None,
        command: None,
        extra_args: None,
        manifest: None,
        subcommand: None,
        template: None,
        toolchain: toolchain.map(|s| s.to_string()),
    }
}

#[test]
fn record_names_are_read_through_the_trait() {
    assert_eq!(template("t", None, None).name(), "t");
    assert_eq!(alias("a", None).name(), "a");
}

#[test]
fn every_name_of_the_sequence_is_a_key() {
    let names = ["one", "two", "three", "two", ""];
    let map = map_of_keyed_elements(names.iter().map(|n| template(n, None, None)).collect());
    assert_eq!(map.len(), 4);
    for name in names {
        assert!(map.contains_key(name));
        assert_eq!(map.get(name).unwrap().name, name);
    }
    assert!(!map.contains_key("four"));
}

#[test]
fn empty_sequence_gives_empty_mapping() {
    let map = map_of_keyed_elements(Vec::<Alias>::new());
    assert_eq!(map.len(), 0);
    assert!(map.is_empty());
    assert!(map.get("a").is_none());
}

#[test]
fn later_record_replaces_earlier_one_of_the_same_name() {
    let map = map_of_keyed_elements(vec![
        template("t", Some("first"), Some("only-in-first")),
        template("u", Some("other"), None),
        template("t", Some("second"), None),
    ]);
    assert_eq!(map.len(), 2);
    let kept = map.get("t").unwrap();
    assert_eq!(kept.command, Some("second".to_string()));
    assert_eq!(kept.subcommand, None);
    assert_eq!(map.get("u").unwrap().command, Some("other".to_string()));
}

#[test]
fn configuration_keeps_the_later_of_two_records() {
    let config = Toml::new(
        vec![template("t", Some("first"), None), template("t", Some("second"), None)],
        vec![alias("a", Some("stable")), alias("a", None), alias("b", None)],
    );
    assert_eq!(config.template_count(), 1);
    assert_eq!(config.alias_count(), 2);
    assert_eq!(config.template("t").unwrap().command, Some("second".to_string()));
    assert_eq!(config.alias("a").unwrap().toolchain, None);
    assert!(config.alias("b").is_some());
    assert!(config.alias("t").is_none());
    assert!(config.template("a").is_none());
}
