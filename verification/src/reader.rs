//! Reading a parsed document against the schema.

use vstd::prelude::*;
use vstd::string::StringExecFns;
use crate::command::texts;
use crate::config::{alias_views, template_views, text_of, tokens_of, Alias, Args, Template};
use crate::document::{
    nodes_of, table_get, table_keys, table_nodes, value_fields, value_items, value_node,
    value_text, Node,
};
use crate::schema::{
    alias_of, aliases_of, all_text, belongs, block_at, entry_fault, faulty_at, first_faulty,
    first_ill_typed, has_unknown_key, has_unknown_section, key_of, known_key, name_at,
    section_entries, section_fault, section_key, template_of, templates_of, text_at, text_items,
    well_typed, EntryFault, Field, ParseError, Section,
};

verus! {

fn field_key(field: Field) -> (r: &'static str)
    ensures
        r@ == key_of(field),
{
    match field {
        Field::Name => "name",
        Field::Args => "args",
        Field::Command => "command",
        Field::ExtraArgs => "extra-args",
        Field::Manifest => "manifest",
        Field::Subcommand => "subcommand",
        Field::Template => "template",
        Field::Toolchain => "toolchain",
    }
}

fn section_name(section: Section) -> (r: &'static str)
    ensures
        r@ == section_key(section),
{
    match section {
        Section::Template => "template",
        Section::Alias => "alias",
    }
}

fn same_text(a: &str, b: &str) -> (r: bool)
    ensures
        r == (a@ == b@),
{
    let left = String::from_str(a);
    let right = String::from_str(b);
    left == right
}

fn is_known_key(section: Section, key: &str) -> (r: bool)
    ensures
        r == known_key(section, key@),
{
    let in_both = same_text(key, field_key(Field::Name)) || same_text(key, field_key(Field::Args))
        || same_text(key, field_key(Field::Command)) || same_text(
        key,
        field_key(Field::ExtraArgs),
    ) || same_text(key, field_key(Field::Subcommand)) || same_text(
        key,
        field_key(Field::Toolchain),
    );
    let in_alias = same_text(key, field_key(Field::Manifest)) || same_text(
        key,
        field_key(Field::Template),
    );
    proof {
        if in_both {
            assert(belongs(section, Field::Name) && belongs(section, Field::Args) && belongs(
                section,
                Field::Command,
            ) && belongs(section, Field::ExtraArgs) && belongs(section, Field::Subcommand)
                && belongs(section, Field::Toolchain));
        }
        if in_alias {
            assert(belongs(Section::Alias, Field::Manifest) && belongs(
                Section::Alias,
                Field::Template,
            ));
        }
    }
    match section {
        Section::Template => in_both,
        Section::Alias => in_both || in_alias,
    }
}

fn all_keys_known(section: Section, table: &toml::Table) -> (r: bool)
    ensures
        r == !has_unknown_key(section, table_nodes(*table)),
{
    let keys = table_keys(table);
    let ghost fields = table_nodes(*table);
    let mut i: usize = 0;
    while i < keys.len()
        invariant
            i <= keys.len(),
            fields == table_nodes(*table),
            texts(keys@).to_set() == fields.dom(),
            forall|j: int| 0 <= j < i ==> known_key(section, #[trigger] texts(keys@)[j]),
        decreases keys.len() - i,
    {
        if !is_known_key(section, keys[i].as_str()) {
            proof {
                let key = texts(keys@)[i as int];
                assert(texts(keys@).contains(key));
                assert(texts(keys@).to_set().contains(key));
                assert(fields.contains_key(key));
            }
            return false;
        }
        i += 1;
    }
    proof {
        assert forall|key: Seq<char>| fields.contains_key(key) implies known_key(section, key) by {
            assert(texts(keys@).to_set().contains(key));
            assert(texts(keys@).contains(key));
            let j = choose|j: int| 0 <= j < texts(keys@).len() && texts(keys@)[j] == key;
            assert(known_key(section, texts(keys@)[j]));
        }
    }
    true
}

fn read_text(table: &toml::Table, field: Field) -> (r: Option<String>)
    ensures
        text_of(r) == text_at(table_nodes(*table), field),
{
    match table_get(table, field_key(field)) {
        Some(value) => match value_text(value) {
            Some(text) => Some(String::from_str(text)),
            None => None,
        },
        None => None,
    }
}

fn item_texts(value: &toml::Value) -> (r: Option<Args>)
    ensures
        match r {
            Some(block) => value_node(*value) matches Node::List(items) && all_text(items)
                && block@ == text_items(items),
            None => !(value_node(*value) matches Node::List(items) && all_text(items)),
        },
{
    let items = match value_items(value) {
        Some(items) => items,
        None => {
            return None;
        },
    };
    let ghost nodes = nodes_of(items@);
    let mut tokens: Vec<String> = Vec::new();
    let mut i: usize = 0;
    while i < items.len()
        invariant
            i <= items.len(),
            nodes == nodes_of(items@),
            value_node(*value) == Node::List(nodes),
            tokens@.len() == i,
            forall|j: int| 0 <= j < i ==> (#[trigger] nodes[j]) is Text,
            forall|j: int| 0 <= j < i ==> (#[trigger] tokens@[j])@ == nodes[j]->Text_0,
        decreases items.len() - i,
    {
        match value_text(&items[i]) {
            Some(text) => {
                assert(nodes[i as int] == value_node(items@[i as int]));
                tokens.push(String::from_str(text));
            },
            None => {
                assert(nodes[i as int] == value_node(items@[i as int]));
                assert(!all_text(nodes));
                return None;
            },
        }
        i += 1;
    }
    let block = Args(tokens);
    assert(block@ =~= text_items(nodes));
    Some(block)
}

fn read_block(table: &toml::Table, field: Field) -> (r: Option<Args>)
    ensures
        tokens_of(r) == block_at(table_nodes(*table), field),
{
    match table_get(table, field_key(field)) {
        Some(value) => item_texts(value),
        None => None,
    }
}

fn is_well_typed(table: &toml::Table, field: Field) -> (r: bool)
    ensures
        r == well_typed(table_nodes(*table), field),
{
    match table_get(table, field_key(field)) {
        Some(value) => match field {
            Field::Args | Field::ExtraArgs => item_texts(value).is_some(),
            _ => value_text(value).is_some(),
        },
        None => true,
    }
}

fn find_ill_typed(table: &toml::Table) -> (r: Option<Field>)
    ensures
        r == first_ill_typed(table_nodes(*table)),
{
    if !is_well_typed(table, Field::Name) {
        Some(Field::Name)
    } else if !is_well_typed(table, Field::Args) {
        Some(Field::Args)
    } else if !is_well_typed(table, Field::Command) {
        Some(Field::Command)
    } else if !is_well_typed(table, Field::ExtraArgs) {
        Some(Field::ExtraArgs)
    } else if !is_well_typed(table, Field::Manifest) {
        Some(Field::Manifest)
    } else if !is_well_typed(table, Field::Subcommand) {
        Some(Field::Subcommand)
    } else if !is_well_typed(table, Field::Template) {
        Some(Field::Template)
    } else if !is_well_typed(table, Field::Toolchain) {
        Some(Field::Toolchain)
    } else {
        None
    }
}

/// Holds an entry against its section: the entry's table where nothing is
/// wrong with it, else its fault.
fn check_entry<'a>(section: Section, value: &'a toml::Value) -> (r: Result<
    &'a toml::Table,
    EntryFault,
>)
    ensures
        match r {
            Ok(table) => entry_fault(section, value_node(*value)) is None && value_node(*value)
                == Node::Fields(table_nodes(*table)),
            Err(fault) => entry_fault(section, value_node(*value)) == Some(fault),
        },
{
    let table = match value_fields(value) {
        Some(table) => table,
        None => {
            return Err(EntryFault::NotTable);
        },
    };
    if !all_keys_known(section, table) {
        return Err(EntryFault::UnknownKey);
    }
    if table_get(table, field_key(Field::Name)).is_none() {
        return Err(EntryFault::MissingName);
    }
    match find_ill_typed(table) {
        Some(field) => Err(EntryFault::WrongType(field)),
        None => Ok(table),
    }
}

fn read_name(table: &toml::Table) -> (r: String)
    ensures
        r@ == name_at(table_nodes(*table)),
{
    match read_text(table, Field::Name) {
        Some(name) => name,
        None => String::new(),
    }
}

fn template_from(table: &toml::Table) -> (r: Template)
    ensures
        r@ == template_of(table_nodes(*table)),
{
    Template {
        name: read_name(table),
        args: read_block(table, Field::Args),
        command: read_text(table, Field::Command),
        extra_args: read_block(table, Field::ExtraArgs),
        subcommand: read_text(table, Field::Subcommand),
        toolchain: read_text(table, Field::Toolchain),
    }
}

fn alias_from(table: &toml::Table) -> (r: Alias)
    ensures
        r@ == alias_of(table_nodes(*table)),
{
    Alias {
        name: read_name(table),
        args: read_block(table, Field::Args),
        command: read_text(table, Field::Command),
        extra_args: read_block(table, Field::ExtraArgs),
        manifest: read_text(table, Field::Manifest),
        subcommand: read_text(table, Field::Subcommand),
        template: read_text(table, Field::Template),
        toolchain: read_text(table, Field::Toolchain),
    }
}

/// An entry found at fault, with none before it, is the section's fault.
proof fn lemma_first_fault(section: Section, entries: Seq<Node>, i: int)
    requires
        first_faulty(section, entries, i),
    ensures
        section_fault(section, entries) == Some((i, entry_fault(section, entries[i])->Some_0)),
{
    let k = choose|k: int| first_faulty(section, entries, k);
    if k < i {
        assert(!faulty_at(section, entries, k));
    } else if i < k {
        assert(!faulty_at(section, entries, i));
    }
}

/// Where no entry is at fault the section has no fault.
proof fn lemma_no_fault(section: Section, entries: Seq<Node>)
    requires
        forall|j: int| 0 <= j < entries.len() ==> !faulty_at(section, entries, j),
    ensures
        section_fault(section, entries) is None,
{
    if exists|i: int| first_faulty(section, entries, i) {
        let k = choose|k: int| first_faulty(section, entries, k);
        assert(faulty_at(section, entries, k));
    }
}

pub(crate) fn read_templates(entries: &Vec<toml::Value>) -> (r: Result<Vec<Template>, ParseError>)
    ensures
        match r {
            Ok(templates) => section_fault(Section::Template, nodes_of(entries@)) is None
                && template_views(templates@) == templates_of(nodes_of(entries@)),
            Err(error) => section_fault(Section::Template, nodes_of(entries@)) matches Some(
                (i, fault),
            ) && error == ParseError::Entry(Section::Template, i as usize, fault),
        },
{
    let ghost nodes = nodes_of(entries@);
    let mut templates: Vec<Template> = Vec::new();
    let mut i: usize = 0;
    while i < entries.len()
        invariant
            i <= entries.len(),
            nodes == nodes_of(entries@),
            templates@.len() == i,
            forall|j: int| 0 <= j < i ==> !faulty_at(Section::Template, nodes, j),
            forall|j: int|
                0 <= j < i ==> (#[trigger] templates@[j])@ == template_of(nodes[j]->Fields_0),
        decreases entries.len() - i,
    {
        assert(nodes[i as int] == value_node(entries@[i as int]));
        match check_entry(Section::Template, &entries[i]) {
            Ok(table) => {
                templates.push(template_from(table));
            },
            Err(fault) => {
                proof {
                    lemma_first_fault(Section::Template, nodes, i as int);
                }
                return Err(ParseError::Entry(Section::Template, i, fault));
            },
        }
        i += 1;
    }
    proof {
        lemma_no_fault(Section::Template, nodes);
        assert(template_views(templates@) =~= templates_of(nodes));
    }
    Ok(templates)
}

pub(crate) fn read_aliases(entries: &Vec<toml::Value>) -> (r: Result<Vec<Alias>, ParseError>)
    ensures
        match r {
            Ok(aliases) => section_fault(Section::Alias, nodes_of(entries@)) is None
                && alias_views(aliases@) == aliases_of(nodes_of(entries@)),
            Err(error) => section_fault(Section::Alias, nodes_of(entries@)) matches Some(
                (i, fault),
            ) && error == ParseError::Entry(Section::Alias, i as usize, fault),
        },
{
    let ghost nodes = nodes_of(entries@);
    let mut aliases: Vec<Alias> = Vec::new();
    let mut i: usize = 0;
    while i < entries.len()
        invariant
            i <= entries.len(),
            nodes == nodes_of(entries@),
            aliases@.len() == i,
            forall|j: int| 0 <= j < i ==> !faulty_at(Section::Alias, nodes, j),
            forall|j: int| 0 <= j < i ==> (#[trigger] aliases@[j])@ == alias_of(nodes[j]->Fields_0),
        decreases entries.len() - i,
    {
        assert(nodes[i as int] == value_node(entries@[i as int]));
        match check_entry(Section::Alias, &entries[i]) {
            Ok(table) => {
                aliases.push(alias_from(table));
            },
            Err(fault) => {
                proof {
                    lemma_first_fault(Section::Alias, nodes, i as int);
                }
                return Err(ParseError::Entry(Section::Alias, i, fault));
            },
        }
        i += 1;
    }
    proof {
        lemma_no_fault(Section::Alias, nodes);
        assert(alias_views(aliases@) =~= aliases_of(nodes));
    }
    Ok(aliases)
}

/// The array under a section's key.
pub(crate) fn section_values<'a>(doc: &'a toml::Table, section: Section) -> (r: Result<
    &'a Vec<toml::Value>,
    ParseError,
>)
    ensures
        match r {
            Ok(entries) => table_nodes(*doc).contains_key(section_key(section)) && table_nodes(
                *doc,
            )[section_key(section)] == Node::List(nodes_of(entries@)),
            Err(error) => section_entries(table_nodes(*doc), section) == Err::<
                Seq<Node>,
                ParseError,
            >(error) && (error == ParseError::MissingSection(section) || error
                == ParseError::SectionNotArray(section)),
        },
{
    match table_get(doc, section_name(section)) {
        Some(value) => match value_items(value) {
            Some(entries) => Ok(entries),
            None => Err(ParseError::SectionNotArray(section)),
        },
        None => Err(ParseError::MissingSection(section)),
    }
}

/// Whether every top-level key of a document is that of a section.
pub(crate) fn has_only_sections(doc: &toml::Table) -> (r: bool)
    ensures
        r == !has_unknown_section(table_nodes(*doc)),
{
    let keys = table_keys(doc);
    let ghost fields = table_nodes(*doc);
    let mut i: usize = 0;
    while i < keys.len()
        invariant
            i <= keys.len(),
            fields == table_nodes(*doc),
            texts(keys@).to_set() == fields.dom(),
            forall|j: int|
                0 <= j < i ==> (#[trigger] texts(keys@)[j]) == section_key(Section::Template)
                    || texts(keys@)[j] == section_key(Section::Alias),
        decreases keys.len() - i,
    {
        let key = keys[i].as_str();
        if !same_text(key, section_name(Section::Template)) && !same_text(
            key,
            section_name(Section::Alias),
        ) {
            proof {
                let key = texts(keys@)[i as int];
                assert(texts(keys@).contains(key));
                assert(texts(keys@).to_set().contains(key));
                assert(fields.contains_key(key));
            }
            return false;
        }
        i += 1;
    }
    proof {
        assert forall|key: Seq<char>| fields.contains_key(key) implies key == section_key(
            Section::Template,
        ) || key == section_key(Section::Alias) by {
            assert(texts(keys@).to_set().contains(key));
            assert(texts(keys@).contains(key));
            let j = choose|j: int| 0 <= j < texts(keys@).len() && texts(keys@)[j] == key;
            assert(texts(keys@)[j] == key);
        }
    }
    true
}

} // verus!
