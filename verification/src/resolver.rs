//! The alias resolver: a configuration of templates and aliases by name, and
//! the command that each alias resolves to.

use vstd::prelude::*;
use vstd::hash_map::StringHashMap;
use crate::command::{
    assemble, merged_fields, own_fields, resolve, resolve_alias, CommandView, ResolvedCommand,
};
use crate::config::{
    alias_views, aliases_by_name, template_views, templates_by_name, Alias, AliasView, Template,
    TemplateView,
};
use crate::document::{document_of, parse_document, table_nodes, Node};
use crate::parser::{keyed, lemma_every_name_is_a_key, map_of_keyed_elements, names_of};
use crate::reader::{has_only_sections, read_aliases, read_templates, section_values};
use crate::schema::{records_of, ParseError, Section};

verus! {

/// A configuration: templates and aliases, each found by name.
pub struct Toml {
    templates: StringHashMap<Template>,
    aliases: StringHashMap<Alias>,
}

/// What a [`Toml`] holds: two mappings from name to record.
pub struct TomlView {
    pub templates: Map<Seq<char>, TemplateView>,
    pub aliases: Map<Seq<char>, AliasView>,
}

impl TomlView {
    /// The template that an alias refers to, where it names one and the
    /// configuration has it.
    pub open spec fn referenced_template(self, alias: AliasView) -> Option<TemplateView> {
        match alias.template {
            Some(name) => if self.templates.contains_key(name) {
                Some(self.templates[name])
            } else {
                None
            },
            None => None,
        }
    }

    /// The command that the alias of this name resolves to; nothing where the
    /// configuration has no such alias.
    pub open spec fn resolution(self, alias_name: Seq<char>) -> Option<CommandView> {
        if self.aliases.contains_key(alias_name) {
            let alias = self.aliases[alias_name];
            Some(resolve(alias, self.referenced_template(alias)))
        } else {
            None
        }
    }
}

/// An alias that names no template resolves from its own fields alone: the
/// templates of the configuration have no part in its command.
pub proof fn lemma_no_template_no_inheritance(config: TomlView, other: TomlView, name: Seq<char>)
    requires
        config.aliases.contains_key(name),
        config.aliases[name].template is None,
        other.aliases == config.aliases,
    ensures
        config.resolution(name) == Some(assemble(own_fields(config.aliases[name]))),
        other.resolution(name) == config.resolution(name),
{
}

/// An alias that names a template of the configuration resolves over it,
/// field by field.
pub proof fn lemma_resolution_over_template(config: TomlView, name: Seq<char>, template: Seq<char>)
    requires
        config.aliases.contains_key(name),
        config.aliases[name].template == Some(template),
        config.templates.contains_key(template),
    ensures
        config.resolution(name) == Some(
            assemble(merged_fields(config.aliases[name], config.templates[template])),
        ),
{
}

/// An alias that names a template which the configuration lacks resolves as
/// if it named none.
pub proof fn lemma_missing_template_stands_alone(
    config: TomlView,
    name: Seq<char>,
    template: Seq<char>,
)
    requires
        config.aliases.contains_key(name),
        config.aliases[name].template == Some(template),
        !config.templates.contains_key(template),
    ensures
        config.resolution(name) == Some(assemble(own_fields(config.aliases[name]))),
{
}

/// The configuration that a document describes, or the first reason why it
/// describes none.
pub open spec fn configuration_in(doc: Map<Seq<char>, Node>) -> Result<TomlView, ParseError> {
    match records_of(doc) {
        Ok((templates, aliases)) => Ok(
            TomlView {
                templates: templates_by_name(templates),
                aliases: aliases_by_name(aliases),
            },
        ),
        Err(error) => Err(error),
    }
}

/// The configuration that a text describes: that of the document it parses
/// to, or the parser's error.
pub open spec fn configuration_of(text: Seq<char>) -> Result<TomlView, ParseError> {
    match document_of(text) {
        Ok(doc) => configuration_in(doc),
        Err(error) => Err(ParseError::Syntax(error)),
    }
}

/// Taking views commutes with building the mapping by name.
proof fn lemma_keyed_views<T, W>(names: Seq<Seq<char>>, records: Seq<T>, f: spec_fn(T) -> W)
    requires
        names.len() == records.len(),
    ensures
        keyed(names, records).map_values(f) == keyed(names, records.map_values(f)),
    decreases records.len(),
{
    if records.len() == 0 {
        assert(keyed(names, records).map_values(f) =~= keyed(names, records.map_values(f)));
    } else {
        lemma_keyed_views(names.drop_last(), records.drop_last(), f);
        assert(records.map_values(f).drop_last() =~= records.drop_last().map_values(f));
        assert(keyed(names, records).map_values(f) =~= keyed(names, records.map_values(f)));
    }
}

impl View for Toml {
    type V = TomlView;

    closed spec fn view(&self) -> TomlView {
        TomlView {
            templates: self.templates@.map_values(|t: Template| t@),
            aliases: self.aliases@.map_values(|a: Alias| a@),
        }
    }
}

impl Toml {
    /// Builds a configuration from its records. Of two templates, or two
    /// aliases, with one name the later stays.
    pub fn new(templates: Vec<Template>, aliases: Vec<Alias>) -> (r: Toml)
        ensures
            r@.templates == templates_by_name(template_views(templates@)),
            r@.aliases == aliases_by_name(alias_views(aliases@)),
            forall|i: int|
                0 <= i < templates@.len() ==> r@.templates.contains_key(
                    (#[trigger] templates@[i]).name@,
                ),
            forall|i: int|
                0 <= i < aliases@.len() ==> r@.aliases.contains_key((#[trigger] aliases@[i]).name@),
    {
        proof {
            assert forall|i: int| 0 <= i < templates@.len() implies templates_by_name(
                template_views(templates@),
            ).contains_key((#[trigger] templates@[i]).name@) by {
                lemma_every_name_is_a_key(
                    template_views(templates@).map_values(|t: TemplateView| t.name),
                    template_views(templates@),
                    i,
                );
            }
            assert forall|i: int| 0 <= i < aliases@.len() implies aliases_by_name(
                alias_views(aliases@),
            ).contains_key((#[trigger] aliases@[i]).name@) by {
                lemma_every_name_is_a_key(
                    alias_views(aliases@).map_values(|a: AliasView| a.name),
                    alias_views(aliases@),
                    i,
                );
            }
            lemma_keyed_views(names_of(templates@), templates@, |t: Template| t@);
            lemma_keyed_views(names_of(aliases@), aliases@, |a: Alias| a@);
            assert(names_of(templates@) =~= template_views(templates@).map_values(
                |t: TemplateView| t.name,
            ));
            assert(names_of(aliases@) =~= alias_views(aliases@).map_values(|a: AliasView| a.name));
        }
        Toml {
            templates: map_of_keyed_elements(templates),
            aliases: map_of_keyed_elements(aliases),
        }
    }

    /// Reads a configuration from a parsed document.
    pub fn from_document(doc: &toml::Table) -> (r: Result<Toml, ParseError>)
        ensures
            match r {
                Ok(config) => configuration_in(table_nodes(*doc)) == Ok::<TomlView, ParseError>(
                    config@,
                ),
                Err(error) => configuration_in(table_nodes(*doc)) == Err::<TomlView, ParseError>(
                    error,
                ),
            },
    {
        if !has_only_sections(doc) {
            return Err(ParseError::UnknownSection);
        }
        let templates = match section_values(doc, Section::Template) {
            Ok(entries) => match read_templates(entries) {
                Ok(templates) => templates,
                Err(error) => {
                    return Err(error);
                },
            },
            Err(error) => {
                return Err(error);
            },
        };
        let aliases = match section_values(doc, Section::Alias) {
            Ok(entries) => match read_aliases(entries) {
                Ok(aliases) => aliases,
                Err(error) => {
                    return Err(error);
                },
            },
            Err(error) => {
                return Err(error);
            },
        };
        Ok(Toml::new(templates, aliases))
    }

    /// Reads a configuration from its text.
    pub fn parse(file_contents: &str) -> (r: Result<Toml, ParseError>)
        ensures
            match r {
                Ok(config) => configuration_of(file_contents@) == Ok::<TomlView, ParseError>(
                    config@,
                ),
                Err(error) => configuration_of(file_contents@) == Err::<TomlView, ParseError>(
                    error,
                ),
            },
    {
        match parse_document(file_contents) {
            Ok(doc) => Toml::from_document(&doc),
            Err(error) => Err(ParseError::Syntax(error)),
        }
    }

    /// The template of this name.
    pub fn template(&self, name: &str) -> (r: Option<&Template>)
        ensures
            match r {
                Some(t) => self@.templates.contains_key(name@) && t@ == self@.templates[name@],
                None => !self@.templates.contains_key(name@),
            },
    {
        self.templates.get(name)
    }

    /// The alias of this name.
    pub fn alias(&self, name: &str) -> (r: Option<&Alias>)
        ensures
            match r {
                Some(a) => self@.aliases.contains_key(name@) && a@ == self@.aliases[name@],
                None => !self@.aliases.contains_key(name@),
            },
    {
        self.aliases.get(name)
    }

    /// How many templates the configuration holds.
    pub fn template_count(&self) -> (r: usize)
        ensures
            r == self@.templates.len(),
    {
        assert(self@.templates.dom() =~= self.templates@.dom());
        self.templates.len()
    }

    /// How many aliases the configuration holds.
    pub fn alias_count(&self) -> (r: usize)
        ensures
            r == self@.aliases.len(),
    {
        assert(self@.aliases.dom() =~= self.aliases@.dom());
        self.aliases.len()
    }

    /// Resolves the alias of this name to its command. The alias's template is
    /// used where the alias names one that the configuration has; an alias
    /// that names none, or one that is missing, stands alone. Nothing is
    /// returned where the configuration has no such alias.
    pub fn compile_alias_command(&self, alias_name: &str) -> (r: Option<ResolvedCommand>)
        ensures
            r is Some <==> self@.aliases.contains_key(alias_name@),
            match r {
                Some(command) => self@.resolution(alias_name@) == Some(command@),
                None => self@.resolution(alias_name@) is None,
            },
    {
        let alias = match self.aliases.get(alias_name) {
            Some(alias) => alias,
            None => {
                return None;
            },
        };
        let template = match &alias.template {
            Some(name) => self.templates.get(name.as_str()),
            None => None,
        };
        Some(resolve_alias(alias, template))
    }
}

} // verus!
