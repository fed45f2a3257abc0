//! The configuration records: templates and aliases, and their mathematical views.

use vstd::prelude::*;
use crate::parser::{keyed, TomlNamedElement};

verus! {

/// An ordered block of command-line tokens.
#[derive(Clone, Debug, Default, PartialEq)]
pub struct Args(pub Vec<String>);

impl View for Args {
    type V = Seq<Seq<char>>;

    open spec fn view(&self) -> Seq<Seq<char>> {
        self.0@.map_values(|s: String| s@)
    }
}

/// The text of an optional string.
pub open spec fn text_of(s: Option<String>) -> Option<Seq<char>> {
    match s {
        Some(s) => Some(s@),
        None => None,
    }
}

/// The tokens of an optional block.
pub open spec fn tokens_of(a: Option<Args>) -> Option<Seq<Seq<char>>> {
    match a {
        Some(a) => Some(a@),
        None => None,
    }
}

/// A reusable fragment of a command line, shared by the aliases that refer to it.
#[derive(Clone, Debug)]
pub struct Template {
    pub name: String,
    pub args: Option<Args>,
    pub command: Option<String>,
    pub extra_args: Option<Args>,
    pub subcommand: Option<String>,
    pub toolchain: Option<String>,
}

/// What a [`Template`] holds, as plain sequences.
pub struct TemplateView {
    pub name: Seq<char>,
    pub args: Option<Seq<Seq<char>>>,
    pub command: Option<Seq<char>>,
    pub extra_args: Option<Seq<Seq<char>>>,
    pub subcommand: Option<Seq<char>>,
    pub toolchain: Option<Seq<char>>,
}

impl View for Template {
    type V = TemplateView;

    open spec fn view(&self) -> TemplateView {
        TemplateView {
            name: self.name@,
            args: tokens_of(self.args),
            command: text_of(self.command),
            extra_args: tokens_of(self.extra_args),
            subcommand: text_of(self.subcommand),
            toolchain: text_of(self.toolchain),
        }
    }
}

/// A named entry point that resolves to a command, optionally inheriting from a template.
#[derive(Clone, Debug)]
pub struct Alias {
    pub name: String,
    pub args: Option<Args>,
    pub command: Option<String>,
    pub extra_args: Option<Args>,
    pub manifest: Option<String>,
    pub subcommand: Option<String>,
    pub template: Option<String>,
    pub toolchain: Option<String>,
}

/// What an [`Alias`] holds, as plain sequences.
pub struct AliasView {
    pub name: Seq<char>,
    pub args: Option<Seq<Seq<char>>>,
    pub command: Option<Seq<char>>,
    pub extra_args: Option<Seq<Seq<char>>>,
    pub manifest: Option<Seq<char>>,
    pub subcommand: Option<Seq<char>>,
    pub template: Option<Seq<char>>,
    pub toolchain: Option<Seq<char>>,
}

impl View for Alias {
    type V = AliasView;

    open spec fn view(&self) -> AliasView {
        AliasView {
            name: self.name@,
            args: tokens_of(self.args),
            command: text_of(self.command),
            extra_args: tokens_of(self.extra_args),
            manifest: text_of(self.manifest),
            subcommand: text_of(self.subcommand),
            template: text_of(self.template),
            toolchain: text_of(self.toolchain),
        }
    }
}

impl TomlNamedElement for Template {
    open spec fn name_text(&self) -> Seq<char> {
        self.name@
    }

    fn name(&self) -> (r: &String) {
        &self.name
    }
}

impl TomlNamedElement for Alias {
    open spec fn name_text(&self) -> Seq<char> {
        self.name@
    }

    fn name(&self) -> (r: &String) {
        &self.name
    }
}

/// The views of a sequence of templates, in order.
pub open spec fn template_views(templates: Seq<Template>) -> Seq<TemplateView> {
    templates.map_values(|t: Template| t@)
}

/// The views of a sequence of aliases, in order.
pub open spec fn alias_views(aliases: Seq<Alias>) -> Seq<AliasView> {
    aliases.map_values(|a: Alias| a@)
}

/// The templates of a sequence by name, the later of two with one name staying.
pub open spec fn templates_by_name(templates: Seq<TemplateView>) -> Map<Seq<char>, TemplateView> {
    keyed(templates.map_values(|t: TemplateView| t.name), templates)
}

/// The aliases of a sequence by name, the later of two with one name staying.
pub open spec fn aliases_by_name(aliases: Seq<AliasView>) -> Map<Seq<char>, AliasView> {
    keyed(aliases.map_values(|a: AliasView| a.name), aliases)
}

} // verus!
