//! The shape that a document must have to be a configuration.
//!
//! A configuration has two sections, `template` and `alias`, each an array of
//! tables. Every table has a `name` and may have the other keys of its
//! section; a string where a string is read, an array of strings where a
//! block of arguments is read. Anything else is a fault, and the first one
//! found is the error.

use vstd::prelude::*;
use crate::config::{AliasView, TemplateView};
use crate::document::Node;

verus! {

/// One of the two sections of a configuration.
#[derive(Clone, Copy, Debug, PartialEq, Eq)]
pub enum Section {
    Template,
    Alias,
}

/// A key of an entry.
#[derive(Clone, Copy, Debug, PartialEq, Eq)]
pub enum Field {
    Name,
    Args,
    Command,
    ExtraArgs,
    Manifest,
    Subcommand,
    Template,
    Toolchain,
}

/// What is wrong with one entry of a section.
#[derive(Clone, Copy, Debug, PartialEq, Eq)]
pub enum EntryFault {
    /// The entry is not a table.
    NotTable,
    /// The entry has a key that its section does not know.
    UnknownKey,
    /// The entry has no `name`.
    MissingName,
    /// The value under this key is of the wrong kind.
    WrongType(Field),
}

/// Why a text is not a configuration.
#[derive(Debug, PartialEq, Eq)]
pub enum ParseError {
    /// The text is not a well-formed document.
    Syntax(toml::de::Error),
    /// The document has a top-level key other than the two sections.
    UnknownSection,
    /// The document lacks this section.
    MissingSection(Section),
    /// This section is not an array.
    SectionNotArray(Section),
    /// The entry at this index of this section is at fault, and no entry before it.
    Entry(Section, usize, EntryFault),
}

/// The key under which a section stands in the document.
pub open spec fn section_key(section: Section) -> Seq<char> {
    match section {
        Section::Template => "template"@,
        Section::Alias => "alias"@,
    }
}

/// The key under which a field stands in an entry.
pub open spec fn key_of(field: Field) -> Seq<char> {
    match field {
        Field::Name => "name"@,
        Field::Args => "args"@,
        Field::Command => "command"@,
        Field::ExtraArgs => "extra-args"@,
        Field::Manifest => "manifest"@,
        Field::Subcommand => "subcommand"@,
        Field::Template => "template"@,
        Field::Toolchain => "toolchain"@,
    }
}

/// Whether the entries of a section may have this field: an alias may have
/// all, a template all but a manifest and a template.
pub open spec fn belongs(section: Section, field: Field) -> bool {
    match field {
        Field::Manifest | Field::Template => section is Alias,
        _ => true,
    }
}

/// Whether a key is that of a field of the section.
pub open spec fn known_key(section: Section, key: Seq<char>) -> bool {
    exists|field: Field| belongs(section, field) && key_of(field) == key
}

/// Whether a field holds a block of arguments rather than one string.
pub open spec fn holds_block(field: Field) -> bool {
    field is Args || field is ExtraArgs
}

/// Whether every item is a string.
pub open spec fn all_text(items: Seq<Node>) -> bool {
    forall|i: int| 0 <= i < items.len() ==> (#[trigger] items[i]) is Text
}

/// The texts of items that are strings.
pub open spec fn text_items(items: Seq<Node>) -> Seq<Seq<char>> {
    items.map_values(|n: Node| n->Text_0)
}

/// Whether a value is of the kind that a field reads.
pub open spec fn fits(field: Field, node: Node) -> bool {
    if holds_block(field) {
        node matches Node::List(items) && all_text(items)
    } else {
        node is Text
    }
}

/// Whether the value under a field's key, where there is one, is of the
/// field's kind.
pub open spec fn well_typed(fields: Map<Seq<char>, Node>, field: Field) -> bool {
    fields.contains_key(key_of(field)) ==> fits(field, fields[key_of(field)])
}

/// The string under a field's key, where there is one.
pub open spec fn text_at(fields: Map<Seq<char>, Node>, field: Field) -> Option<Seq<char>> {
    if fields.contains_key(key_of(field)) {
        match fields[key_of(field)] {
            Node::Text(text) => Some(text),
            _ => None,
        }
    } else {
        None
    }
}

/// The block of strings under a field's key, where there is one.
pub open spec fn block_at(fields: Map<Seq<char>, Node>, field: Field) -> Option<Seq<Seq<char>>> {
    if fields.contains_key(key_of(field)) {
        match fields[key_of(field)] {
            Node::List(items) => if all_text(items) {
                Some(text_items(items))
            } else {
                None
            },
            _ => None,
        }
    } else {
        None
    }
}

/// Whether a table has a key that the section does not know.
pub open spec fn has_unknown_key(section: Section, fields: Map<Seq<char>, Node>) -> bool {
    exists|key: Seq<char>| fields.contains_key(key) && !known_key(section, key)
}

/// The first field, in the order of [`Field`], whose value is of the wrong kind.
pub open spec fn first_ill_typed(fields: Map<Seq<char>, Node>) -> Option<Field> {
    if !well_typed(fields, Field::Name) {
        Some(Field::Name)
    } else if !well_typed(fields, Field::Args) {
        Some(Field::Args)
    } else if !well_typed(fields, Field::Command) {
        Some(Field::Command)
    } else if !well_typed(fields, Field::ExtraArgs) {
        Some(Field::ExtraArgs)
    } else if !well_typed(fields, Field::Manifest) {
        Some(Field::Manifest)
    } else if !well_typed(fields, Field::Subcommand) {
        Some(Field::Subcommand)
    } else if !well_typed(fields, Field::Template) {
        Some(Field::Template)
    } else if !well_typed(fields, Field::Toolchain) {
        Some(Field::Toolchain)
    } else {
        None
    }
}

/// What is wrong with a table as an entry of a section, if anything: an
/// unknown key first, then a missing name, then the first value of the wrong
/// kind.
pub open spec fn table_fault(section: Section, fields: Map<Seq<char>, Node>) -> Option<EntryFault> {
    if has_unknown_key(section, fields) {
        Some(EntryFault::UnknownKey)
    } else if !fields.contains_key(key_of(Field::Name)) {
        Some(EntryFault::MissingName)
    } else {
        match first_ill_typed(fields) {
            Some(field) => Some(EntryFault::WrongType(field)),
            None => None,
        }
    }
}

/// What is wrong with a value as an entry of a section, if anything.
pub open spec fn entry_fault(section: Section, node: Node) -> Option<EntryFault> {
    match node {
        Node::Fields(fields) => table_fault(section, fields),
        _ => Some(EntryFault::NotTable),
    }
}

/// The name that a table gives, empty where it gives none.
pub open spec fn name_at(fields: Map<Seq<char>, Node>) -> Seq<char> {
    match text_at(fields, Field::Name) {
        Some(name) => name,
        None => Seq::empty(),
    }
}

/// The template that a table without fault describes.
pub open spec fn template_of(fields: Map<Seq<char>, Node>) -> TemplateView {
    TemplateView {
        name: name_at(fields),
        args: block_at(fields, Field::Args),
        command: text_at(fields, Field::Command),
        extra_args: block_at(fields, Field::ExtraArgs),
        subcommand: text_at(fields, Field::Subcommand),
        toolchain: text_at(fields, Field::Toolchain),
    }
}

/// The alias that a table without fault describes.
pub open spec fn alias_of(fields: Map<Seq<char>, Node>) -> AliasView {
    AliasView {
        name: name_at(fields),
        args: block_at(fields, Field::Args),
        command: text_at(fields, Field::Command),
        extra_args: block_at(fields, Field::ExtraArgs),
        manifest: text_at(fields, Field::Manifest),
        subcommand: text_at(fields, Field::Subcommand),
        template: text_at(fields, Field::Template),
        toolchain: text_at(fields, Field::Toolchain),
    }
}

/// The templates that entries without fault describe, in order.
pub open spec fn templates_of(entries: Seq<Node>) -> Seq<TemplateView> {
    entries.map_values(|n: Node| template_of(n->Fields_0))
}

/// The aliases that entries without fault describe, in order.
pub open spec fn aliases_of(entries: Seq<Node>) -> Seq<AliasView> {
    entries.map_values(|n: Node| alias_of(n->Fields_0))
}

/// Whether the entry at `i` is at fault.
pub open spec fn faulty_at(section: Section, entries: Seq<Node>, i: int) -> bool {
    0 <= i < entries.len() && entry_fault(section, entries[i]) is Some
}

/// Whether the entry at `i` is at fault and none before it.
pub open spec fn first_faulty(section: Section, entries: Seq<Node>, i: int) -> bool {
    faulty_at(section, entries, i) && forall|j: int| 0 <= j < i ==> !faulty_at(section, entries, j)
}

/// The first entry at fault, with its fault; nothing where every entry is sound.
pub open spec fn section_fault(section: Section, entries: Seq<Node>) -> Option<(int, EntryFault)> {
    if exists|i: int| first_faulty(section, entries, i) {
        let i = choose|i: int| first_faulty(section, entries, i);
        Some((i, entry_fault(section, entries[i])->Some_0))
    } else {
        None
    }
}

/// The entries of a section of a document, or why it has none to give.
pub open spec fn section_entries(doc: Map<Seq<char>, Node>, section: Section) -> Result<
    Seq<Node>,
    ParseError,
> {
    if !doc.contains_key(section_key(section)) {
        Err(ParseError::MissingSection(section))
    } else {
        match doc[section_key(section)] {
            Node::List(entries) => match section_fault(section, entries) {
                Some((i, fault)) => Err(ParseError::Entry(section, i as usize, fault)),
                None => Ok(entries),
            },
            _ => Err(ParseError::SectionNotArray(section)),
        }
    }
}

/// Whether a document has a top-level key that is not a section.
pub open spec fn has_unknown_section(doc: Map<Seq<char>, Node>) -> bool {
    exists|key: Seq<char>|
        doc.contains_key(key) && key != section_key(Section::Template) && key != section_key(
            Section::Alias,
        )
}

/// The records of a document, templates and aliases in the order of their
/// entries, or the first reason why it is no configuration: a key that is no
/// section, then what is wrong with the templates, then with the aliases.
pub open spec fn records_of(doc: Map<Seq<char>, Node>) -> Result<
    (Seq<TemplateView>, Seq<AliasView>),
    ParseError,
> {
    if has_unknown_section(doc) {
        Err(ParseError::UnknownSection)
    } else {
        match section_entries(doc, Section::Template) {
            Err(error) => Err(error),
            Ok(templates) => match section_entries(doc, Section::Alias) {
                Err(error) => Err(error),
                Ok(aliases) => Ok((templates_of(templates), aliases_of(aliases))),
            },
        }
    }
}

} // verus!
