//! Resolution of an alias into a concrete command line.
//!
//! Every field is settled on its own: the alias's value where it has one, else
//! the template's, else nothing. The tokens then follow in a fixed order, with
//! one separator between what comes first and the extra arguments.

use vstd::prelude::*;
use vstd::string::StringExecFns;
use crate::config::{Alias, AliasView, Args, Template, TemplateView};

verus! {

/// A program name and the tokens handed to it.
#[derive(Clone, Debug, PartialEq, Eq)]
pub struct ResolvedCommand {
    pub program: String,
    pub args: Vec<String>,
}

/// What a [`ResolvedCommand`] holds, as plain sequences.
pub struct CommandView {
    pub program: Seq<char>,
    pub args: Seq<Seq<char>>,
}

/// The texts of a sequence of strings, in order.
pub open spec fn texts(tokens: Seq<String>) -> Seq<Seq<char>> {
    tokens.map_values(|s: String| s@)
}

impl View for ResolvedCommand {
    type V = CommandView;

    open spec fn view(&self) -> CommandView {
        CommandView { program: self.program@, args: texts(self.args@) }
    }
}

/// The program that runs where neither alias nor template names one.
pub open spec fn default_command() -> Seq<char> {
    "cargo"@
}

/// The token that parts the leading tokens from the extra arguments.
pub open spec fn separator() -> Seq<char> {
    "--"@
}

/// The flag that selects a toolchain.
pub open spec fn toolchain_flag(toolchain: Seq<char>) -> Seq<char> {
    "+"@ + toolchain
}

/// The flag that points at a manifest.
pub open spec fn manifest_flag(manifest: Seq<char>) -> Seq<char> {
    "--manifest-path="@ + manifest
}

/// The alias's own value where it has one, else the inherited one.
pub open spec fn prefer<T>(own: Option<T>, inherited: Option<T>) -> Option<T> {
    if own is Some {
        own
    } else {
        inherited
    }
}

/// The fields of a command once each has been settled.
pub struct Settled {
    pub command: Option<Seq<char>>,
    pub toolchain: Option<Seq<char>>,
    pub subcommand: Option<Seq<char>>,
    pub args: Option<Seq<Seq<char>>>,
    pub manifest: Option<Seq<char>>,
    pub extra_args: Option<Seq<Seq<char>>>,
}

/// The fields of an alias that stands alone.
pub open spec fn own_fields(alias: AliasView) -> Settled {
    Settled {
        command: alias.command,
        toolchain: alias.toolchain,
        subcommand: alias.subcommand,
        args: alias.args,
        manifest: alias.manifest,
        extra_args: alias.extra_args,
    }
}

/// The fields of an alias over a template: field by field the alias comes
/// first. The manifest is the alias's alone.
pub open spec fn merged_fields(alias: AliasView, template: TemplateView) -> Settled {
    Settled {
        command: prefer(alias.command, template.command),
        toolchain: prefer(alias.toolchain, template.toolchain),
        subcommand: prefer(alias.subcommand, template.subcommand),
        args: prefer(alias.args, template.args),
        manifest: alias.manifest,
        extra_args: prefer(alias.extra_args, template.extra_args),
    }
}

/// The settled fields of an alias, over its template where one was found.
pub open spec fn settle(alias: AliasView, template: Option<TemplateView>) -> Settled {
    match template {
        Some(t) => merged_fields(alias, t),
        None => own_fields(alias),
    }
}

/// One token where there is one, none otherwise.
pub open spec fn single(token: Option<Seq<char>>) -> Seq<Seq<char>> {
    match token {
        Some(t) => seq![t],
        None => Seq::empty(),
    }
}

/// The tokens of a block, none where the block is absent.
pub open spec fn block(tokens: Option<Seq<Seq<char>>>) -> Seq<Seq<char>> {
    match tokens {
        Some(t) => t,
        None => Seq::empty(),
    }
}

/// The toolchain flag where a toolchain is settled.
pub open spec fn toolchain_tokens(toolchain: Option<Seq<char>>) -> Seq<Seq<char>> {
    match toolchain {
        Some(t) => seq![toolchain_flag(t)],
        None => Seq::empty(),
    }
}

/// The manifest flag where a manifest is settled.
pub open spec fn manifest_tokens(manifest: Option<Seq<char>>) -> Seq<Seq<char>> {
    match manifest {
        Some(m) => seq![manifest_flag(m)],
        None => Seq::empty(),
    }
}

/// The tokens ahead of the separator: toolchain flag, subcommand, arguments,
/// manifest flag.
pub open spec fn leading_tokens(f: Settled) -> Seq<Seq<char>> {
    toolchain_tokens(f.toolchain) + single(f.subcommand) + block(f.args) + manifest_tokens(
        f.manifest,
    )
}

/// The program of settled fields.
pub open spec fn program_of(f: Settled) -> Seq<char> {
    match f.command {
        Some(c) => c,
        None => default_command(),
    }
}

/// The command line of settled fields.
pub open spec fn assemble(f: Settled) -> CommandView {
    CommandView {
        program: program_of(f),
        args: leading_tokens(f) + seq![separator()] + block(f.extra_args),
    }
}

/// The command that an alias resolves to, over its template where one was found.
pub open spec fn resolve(alias: AliasView, template: Option<TemplateView>) -> CommandView {
    assemble(settle(alias, template))
}

/// The view of a template that may be absent.
pub open spec fn template_view(template: Option<&Template>) -> Option<TemplateView> {
    match template {
        Some(t) => Some(t@),
        None => None,
    }
}

/// Where alias and template both have a field, the alias's value is the one
/// that counts. The manifest is the alias's in any case.
pub proof fn lemma_alias_comes_first(alias: AliasView, template: TemplateView)
    ensures
        alias.command is Some ==> merged_fields(alias, template).command == alias.command,
        alias.toolchain is Some ==> merged_fields(alias, template).toolchain == alias.toolchain,
        alias.subcommand is Some ==> merged_fields(alias, template).subcommand == alias.subcommand,
        alias.args is Some ==> merged_fields(alias, template).args == alias.args,
        alias.extra_args is Some ==> merged_fields(alias, template).extra_args == alias.extra_args,
        merged_fields(alias, template).manifest == alias.manifest,
        alias.command matches Some(program) ==> resolve(alias, Some(template)).program == program,
{
}

/// What a template holds in a field that the alias has too never reaches the
/// command: two templates that differ only in such fields give one command.
pub proof fn lemma_template_hidden_by_alias(
    alias: AliasView,
    template: TemplateView,
    other: TemplateView,
)
    requires
        alias.command is None ==> template.command == other.command,
        alias.toolchain is None ==> template.toolchain == other.toolchain,
        alias.subcommand is None ==> template.subcommand == other.subcommand,
        alias.args is None ==> template.args == other.args,
        alias.extra_args is None ==> template.extra_args == other.extra_args,
    ensures
        resolve(alias, Some(template)) == resolve(alias, Some(other)),
{
}

/// Where only the template has a field, the template's value is the one that
/// counts.
pub proof fn lemma_template_fills_gaps(alias: AliasView, template: TemplateView)
    ensures
        alias.command is None ==> merged_fields(alias, template).command == template.command,
        alias.toolchain is None ==> merged_fields(alias, template).toolchain == template.toolchain,
        alias.subcommand is None ==> merged_fields(alias, template).subcommand
            == template.subcommand,
        alias.args is None ==> merged_fields(alias, template).args == template.args,
        alias.extra_args is None ==> merged_fields(alias, template).extra_args
            == template.extra_args,
        alias.command is None ==> (template.command matches Some(program) ==> resolve(
            alias,
            Some(template),
        ).program == program),
        alias.command is None && template.command is None ==> resolve(
            alias,
            Some(template),
        ).program == default_command(),
{
}

/// An alias without a template stands alone: each field is its own or absent.
pub proof fn lemma_alone_without_template(alias: AliasView)
    ensures
        resolve(alias, None) == assemble(own_fields(alias)),
        resolve(alias, None).program == match alias.command {
            Some(program) => program,
            None => default_command(),
        },
        resolve(alias, None).args == toolchain_tokens(alias.toolchain) + single(alias.subcommand)
            + block(alias.args) + manifest_tokens(alias.manifest) + seq![separator()] + block(
            alias.extra_args,
        ),
{
}

/// The separator stands right behind the leading tokens and right before the
/// extra arguments, whether or not there are any of either.
pub proof fn lemma_separator_position(f: Settled)
    ensures
        assemble(f).args.len() == leading_tokens(f).len() + 1 + block(f.extra_args).len(),
        assemble(f).args[leading_tokens(f).len() as int] == separator(),
        assemble(f).args.subrange(0, leading_tokens(f).len() as int) == leading_tokens(f),
        assemble(f).args.subrange(
            leading_tokens(f).len() as int + 1,
            assemble(f).args.len() as int,
        ) == block(f.extra_args),
{
    let all = assemble(f).args;
    let n = leading_tokens(f).len() as int;
    assert(all.subrange(0, n) =~= leading_tokens(f));
    assert(all.subrange(n + 1, all.len() as int) =~= block(f.extra_args));
}

/// Whether no subcommand and no argument of the settled fields is itself the
/// separator.
pub open spec fn free_of_separator(f: Settled) -> bool {
    &&& f.subcommand != Some(separator())
    &&& !block(f.args).contains(separator())
    &&& !block(f.extra_args).contains(separator())
}

/// Where no subcommand and no argument is itself the separator, the separator
/// occurs once in the command: behind the leading tokens and nowhere else.
pub proof fn lemma_separator_once(f: Settled)
    requires
        free_of_separator(f),
    ensures
        forall|i: int|
            0 <= i < assemble(f).args.len() ==> (#[trigger] assemble(f).args[i] == separator()
                <==> i == leading_tokens(f).len()),
{
    reveal_strlit("--");
    reveal_strlit("+");
    reveal_strlit("--manifest-path=");
    let a = toolchain_tokens(f.toolchain);
    let b = single(f.subcommand);
    let c = block(f.args);
    let d = manifest_tokens(f.manifest);
    let e = block(f.extra_args);
    let all = assemble(f).args;
    let n = leading_tokens(f).len() as int;
    assert(all =~= a + b + c + d + seq![separator()] + e);
    assert forall|i: int| 0 <= i < all.len() implies (#[trigger] all[i] == separator() <==> i
        == n) by {
        if i < a.len() {
            assert(all[i] == toolchain_flag(f.toolchain->Some_0));
            assert(all[i][0] == '+');
            assert(separator()[0] == '-');
        } else if i < a.len() + b.len() {
            assert(all[i] == f.subcommand->Some_0);
        } else if i < a.len() + b.len() + c.len() {
            assert(all[i] == c[i - a.len() - b.len()]);
            assert(c.contains(all[i]));
        } else if i < n {
            assert(all[i] == manifest_flag(f.manifest->Some_0));
            assert(all[i].len() >= 16);
            assert(separator().len() == 2);
        } else if i > n {
            assert(all[i] == e[i - n - 1]);
            assert(e.contains(all[i]));
        }
    }
}

/// A manifest flag comes from the alias alone: with a manifest in the alias it
/// is the last of the leading tokens, and without one the leading tokens are
/// the toolchain flag, the subcommand and the arguments, whatever the template
/// holds.
pub proof fn lemma_manifest_is_the_aliases(alias: AliasView, template: Option<TemplateView>)
    ensures
        settle(alias, template).manifest == alias.manifest,
        alias.manifest is None ==> leading_tokens(settle(alias, template)) == toolchain_tokens(
            settle(alias, template).toolchain,
        ) + single(settle(alias, template).subcommand) + block(settle(alias, template).args),
        alias.manifest matches Some(manifest) ==> leading_tokens(settle(alias, template)).last()
            == manifest_flag(manifest),
{
    let f = settle(alias, template);
    if alias.manifest is None {
        assert(leading_tokens(f) =~= toolchain_tokens(f.toolchain) + single(f.subcommand) + block(
            f.args,
        ));
    }
}

fn prefer_text<'a>(own: &'a Option<String>, inherited: Option<&'a Option<String>>) -> (r: Option<
    &'a String,
>)
    ensures
        match r {
            Some(s) => Some(s@),
            None => None,
        } == prefer(
            crate::config::text_of(*own),
            match inherited {
                Some(i) => crate::config::text_of(*i),
                None => None,
            },
        ),
{
    match own {
        Some(s) => Some(s),
        None => match inherited {
            Some(Some(s)) => Some(s),
            _ => None,
        },
    }
}

fn prefer_block<'a>(own: &'a Option<Args>, inherited: Option<&'a Option<Args>>) -> (r: Option<
    &'a Args,
>)
    ensures
        match r {
            Some(a) => Some(a@),
            None => None,
        } == prefer(
            crate::config::tokens_of(*own),
            match inherited {
                Some(i) => crate::config::tokens_of(*i),
                None => None,
            },
        ),
{
    match own {
        Some(a) => Some(a),
        None => match inherited {
            Some(Some(a)) => Some(a),
            _ => None,
        },
    }
}

fn push_token(tokens: &mut Vec<String>, token: String)
    ensures
        texts(final(tokens)@) == texts(old(tokens)@).push(token@),
{
    tokens.push(token);
    assert(texts(tokens@) =~= texts(old(tokens)@).push(token@));
}

fn push_block(tokens: &mut Vec<String>, more: &Args)
    ensures
        texts(final(tokens)@) == texts(old(tokens)@) + more@,
{
    let mut i: usize = 0;
    while i < more.0.len()
        invariant
            i <= more.0.len(),
            texts(tokens@) == texts(old(tokens)@) + more@.subrange(0, i as int),
        decreases more.0.len() - i,
    {
        let token = more.0[i].clone();
        push_token(tokens, token);
        assert(more@.subrange(0, i + 1) =~= more@.subrange(0, i as int).push(more.0[i as int]@));
        assert(texts(tokens@) =~= texts(old(tokens)@) + more@.subrange(0, i + 1));
        i += 1;
    }
    assert(more@.subrange(0, i as int) =~= more@);
}

fn joined(prefix: &str, value: &str) -> (r: String)
    ensures
        r@ == prefix@ + value@,
{
    let mut flag = String::from_str(prefix);
    flag.append(value);
    flag
}

/// The default program over the given arguments, as they stand: what runs
/// where no configuration settles anything.
pub fn default_invocation(args: Vec<String>) -> (r: ResolvedCommand)
    ensures
        r@.program == default_command(),
        r.args == args,
{
    ResolvedCommand { program: String::from_str("cargo"), args }
}

/// Resolves an alias over the template it refers to, where one was found.
pub fn resolve_alias(alias: &Alias, template: Option<&Template>) -> (r: ResolvedCommand)
    ensures
        r@ == resolve(alias@, template_view(template)),
{
    let ghost f = settle(alias@, template_view(template));
    let (command, toolchain, subcommand, args, extra_args) = match template {
        Some(t) => (
            prefer_text(&alias.command, Some(&t.command)),
            prefer_text(&alias.toolchain, Some(&t.toolchain)),
            prefer_text(&alias.subcommand, Some(&t.subcommand)),
            prefer_block(&alias.args, Some(&t.args)),
            prefer_block(&alias.extra_args, Some(&t.extra_args)),
        ),
        None => (
            prefer_text(&alias.command, None),
            prefer_text(&alias.toolchain, None),
            prefer_text(&alias.subcommand, None),
            prefer_block(&alias.args, None),
            prefer_block(&alias.extra_args, None),
        ),
    };
    let program = match command {
        Some(c) => c.clone(),
        None => String::from_str("cargo"),
    };
    let mut tokens: Vec<String> = Vec::new();
    assert(texts(tokens@) =~= Seq::empty());
    if let Some(t) = toolchain {
        push_token(&mut tokens, joined("+", t.as_str()));
    }
    assert(texts(tokens@) =~= toolchain_tokens(f.toolchain));
    if let Some(s) = subcommand {
        push_token(&mut tokens, s.clone());
    }
    assert(texts(tokens@) =~= toolchain_tokens(f.toolchain) + single(f.subcommand));
    if let Some(a) = args {
        push_block(&mut tokens, a);
    }
    assert(texts(tokens@) =~= toolchain_tokens(f.toolchain) + single(f.subcommand) + block(f.args));
    if let Some(m) = &alias.manifest {
        push_token(&mut tokens, joined("--manifest-path=", m.as_str()));
    }
    assert(texts(tokens@) =~= leading_tokens(f));
    push_token(&mut tokens, String::from_str("--"));
    if let Some(e) = extra_args {
        push_block(&mut tokens, e);
    }
    assert(texts(tokens@) =~= assemble(f).args);
    ResolvedCommand { program, args: tokens }
}

} // verus!
