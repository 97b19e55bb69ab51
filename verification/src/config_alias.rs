//! Expansion of aliases: the leading token of an argument vector is
//! looked up in the alias table unless it names a built-in command.

use crate::cmd_alias::{is_builtin, valid_command};
use crate::config::Config;
use crate::config_from_env::EnvConfig;
use crate::context::ErrorView;
use crate::error::{Error, ErrorKind};
use crate::text::{clone_from, concat_str, join_words, words};
use vstd::prelude::*;

verus! {

/// The character that marks the expansion of a shell alias.
pub const SHELL_MARKER: char = '!';

/// An argument vector after aliases were looked up.
#[derive(Debug)]
pub enum Expansion {
    /// The leading token names a built-in command: the vector as it was.
    /// Aliases were not consulted.
    Reserved(Vec<String>),
    /// The leading token names a command alias: the words of its
    /// expansion, then the arguments that followed the token.
    CommandAlias(Vec<String>),
    /// The leading token names a shell alias: its expansion without the
    /// marker, then the arguments that followed the token.
    ShellAlias(Vec<String>),
    /// The leading token names nothing, or there is none: the vector as it
    /// was.
    NoMatch(Vec<String>),
}

/// The characters of an [`Expansion`].
pub enum ExpansionView {
    Reserved(Seq<Seq<char>>),
    CommandAlias(Seq<Seq<char>>),
    ShellAlias(Seq<Seq<char>>),
    NoMatch(Seq<Seq<char>>),
}

impl View for Expansion {
    type V = ExpansionView;

    open spec fn view(&self) -> ExpansionView {
        match self {
            Expansion::Reserved(v) => ExpansionView::Reserved(words(v@)),
            Expansion::CommandAlias(v) => ExpansionView::CommandAlias(words(v@)),
            Expansion::ShellAlias(v) => ExpansionView::ShellAlias(words(v@)),
            Expansion::NoMatch(v) => ExpansionView::NoMatch(words(v@)),
        }
    }
}

/// The view of an expansion or of the error in its place.
pub open spec fn expansion_view(r: Result<Expansion, Error>) -> Result<ExpansionView, ErrorView> {
    match r {
        Ok(x) => Ok(x@),
        Err(e) => Err(e@),
    }
}

/// The words that `shlex::split` splits `s` into, as a POSIX shell would;
/// `None` where `s` ends inside a quotation or after a lone backslash.
pub uninterp spec fn shlex_split(s: Seq<char>) -> Option<Seq<Seq<char>>>;

/// `shlex::split`: the words of `s`, or `None` where `s` is erroneous.
#[verifier::external_body]
fn split(s: &str) -> (r: Option<Vec<String>>)
    ensures
        match r {
            Some(v) => shlex_split(s@) == Some(words(v@)),
            None => shlex_split(s@) is None,
        },
{
    shlex::split(s)
}

/// `expansion` is that of a shell alias: it begins with the marker.
pub open spec fn is_shell(expansion: Seq<char>) -> bool {
    expansion.len() > 0 && expansion[0] == SHELL_MARKER
}

/// The words of the expansion of a command alias. An empty expansion has
/// no words.
pub open spec fn expansion_words(expansion: Seq<char>) -> Option<Seq<Seq<char>>> {
    if expansion.len() == 0 {
        Some(Seq::<Seq<char>>::empty())
    } else {
        shlex_split(expansion)
    }
}

/// The error for an expansion that cannot be split into words.
pub open spec fn unsplittable(expansion: Seq<char>) -> ErrorView {
    ErrorView { kind: ErrorKind::Alias, message: "invalid alias expansion: "@ + expansion }
}

/// What becomes of a command alias whose expansion has the words `split`,
/// invoked with the trailing arguments `rest`.
pub open spec fn command_expansion(
    split: Option<Seq<Seq<char>>>,
    rest: Seq<Seq<char>>,
    expansion: Seq<char>,
) -> Result<ExpansionView, ErrorView> {
    match split {
        Some(w) => Ok(ExpansionView::CommandAlias(w + rest)),
        None => Err(unsplittable(expansion)),
    }
}

/// What becomes of the argument vector `args`, which does not hold the
/// program's name, under the alias table `aliases`.
pub open spec fn expand(aliases: Map<Seq<char>, Seq<char>>, args: Seq<Seq<char>>) -> Result<
    ExpansionView,
    ErrorView,
> {
    if args.len() == 0 {
        Ok(ExpansionView::NoMatch(args))
    } else if is_builtin(args[0]) {
        Ok(ExpansionView::Reserved(args))
    } else if !aliases.contains_key(args[0]) {
        Ok(ExpansionView::NoMatch(args))
    } else if is_shell(aliases[args[0]]) {
        Ok(ExpansionView::ShellAlias(seq![aliases[args[0]].skip(1)] + args.skip(1)))
    } else {
        command_expansion(expansion_words(aliases[args[0]]), args.skip(1), aliases[args[0]])
    }
}

/// Whether `expansion` is that of a shell alias.
pub fn is_shell_alias(expansion: &str) -> (b: bool)
    ensures
        b == is_shell(expansion@),
{
    expansion.unicode_len() > 0 && expansion.get_char(0) == SHELL_MARKER
}

/// An alias as it is persisted, with what its expansion says of its kind.
#[derive(Debug)]
pub struct AliasEntry {
    pub name: String,
    /// The expansion as persisted, the marker of a shell alias included.
    pub expansion: String,
    /// The expansion begins with the shell marker.
    pub is_shell: bool,
}

impl Config {
    /// The alias persisted under `name`, if there is one.
    pub fn alias(&self, name: &str) -> (r: Option<AliasEntry>)
        ensures
            match r {
                Some(entry) => self.aliases@.contains_key(name@) && entry.name@ == name@
                    && entry.expansion@ == self.aliases@[name@] && entry.is_shell == is_shell(
                    self.aliases@[name@],
                ),
                None => !self.aliases@.contains_key(name@),
            },
    {
        match self.aliases.get(name) {
            Some(expansion) => {
                let is_shell = is_shell_alias(expansion.as_str());
                Some(AliasEntry { name: String::from_str(name), expansion, is_shell })
            },
            None => None,
        }
    }
}

/// Puts a command alias together: the words of its expansion, then the
/// trailing arguments. Without words, because the expansion could not be
/// split, the alias is in error.
pub fn command_alias(split: Option<Vec<String>>, rest: Vec<String>, expansion: &str) -> (r: Result<
    Expansion,
    Error,
>)
    ensures
        expansion_view(r) == command_expansion(
            match split {
                Some(v) => Some(words(v@)),
                None => None,
            },
            words(rest@),
            expansion@,
        ),
{
    match split {
        Some(v) => Ok(Expansion::CommandAlias(join_words(v, rest))),
        None => {
            let message = concat_str("invalid alias expansion: ", expansion);
            Err(Error::alias(message.as_str()))
        },
    }
}

impl EnvConfig {
    /// Looks up the leading token of `args`, which does not hold the
    /// program's name. A built-in command is never looked up in the alias
    /// table. Expansion goes one level deep: the words of an expansion are
    /// not looked up again.
    pub fn expand_alias(&self, args: &Vec<String>) -> (r: Result<Expansion, Error>)
        ensures
            expansion_view(r) == expand(self.config.aliases@, words(args@)),
    {
        if args.len() == 0 {
            let same = clone_from(args, 0);
            assert(words(same@) =~= words(args@));
            return Ok(Expansion::NoMatch(same));
        }
        let name = args[0].as_str();
        assert(words(args@)[0] == name@);
        if valid_command(name) {
            let same = clone_from(args, 0);
            assert(words(same@) =~= words(args@));
            return Ok(Expansion::Reserved(same));
        }
        let entry = match self.config.alias(name) {
            Some(entry) => entry,
            None => {
                let same = clone_from(args, 0);
                assert(words(same@) =~= words(args@));
                return Ok(Expansion::NoMatch(same));
            },
        };
        let expansion = entry.expansion;
        let rest = clone_from(args, 1);
        if entry.is_shell {
            let n: usize = expansion.as_str().unicode_len();
            let command = String::from_str(expansion.as_str().substring_char(1, n));
            assert(command@ =~= expansion@.skip(1));
            let mut shell: Vec<String> = Vec::new();
            shell.push(command);
            assert(words(shell@) =~= seq![expansion@.skip(1)]);
            return Ok(Expansion::ShellAlias(join_words(shell, rest)));
        }
        let split = if expansion.as_str().is_empty() {
            let none: Vec<String> = Vec::new();
            assert(words(none@) =~= Seq::<Seq<char>>::empty());
            Some(none)
        } else {
            split(expansion.as_str())
        };
        command_alias(split, rest, expansion.as_str())
    }
}

/// The error for an alias that would carry the name of a built-in
/// command.
pub open spec fn shadows_builtin(name: Seq<char>) -> ErrorView {
    ErrorView {
        kind: ErrorKind::Alias,
        message: "could not create alias: \""@ + name + "\" is already an oxide command"@,
    }
}

/// The expansion that is persisted for an alias: that of a shell alias
/// carries the marker in front.
pub open spec fn persisted_expansion(expansion: Seq<char>, shell: bool) -> Seq<char> {
    if shell {
        seq![SHELL_MARKER] + expansion
    } else {
        expansion
    }
}

impl EnvConfig {
    /// Persists the alias `name` for `expansion`, as a shell alias where
    /// `shell` is set. The name of a built-in command is refused, and
    /// nothing changes then. An alias that was there under the name is
    /// replaced.
    pub fn set_alias(&mut self, name: String, expansion: String, shell: bool) -> (r: Result<
        (),
        Error,
    >)
        ensures
            is_builtin(name@) ==> (r matches Err(e) && e@ == shadows_builtin(name@)),
            is_builtin(name@) ==> *final(self) == *old(self),
            !is_builtin(name@) ==> r is Ok,
            !is_builtin(name@) ==> final(self).config.aliases@
                == old(self).config.aliases@.insert(name@, persisted_expansion(expansion@, shell)),
            final(self).config.settings@ == old(self).config.settings@,
            final(self).config.hosts@ == old(self).config.hosts@,
            final(self).env.vars@ == old(self).env.vars@,
    {
        if valid_command(name.as_str()) {
            let mut message = concat_str("could not create alias: \"", name.as_str());
            message.append("\" is already an oxide command");
            return Err(Error::alias(message.as_str()));
        }
        let value = if shell {
            proof {
                reveal_strlit("!");
                assert("!"@ =~= seq![SHELL_MARKER]);
            }
            concat_str("!", expansion.as_str())
        } else {
            expansion
        };
        self.config.aliases.insert(name, value);
        Ok(())
    }
}

/// A built-in command cannot be shadowed: where the leading token names a
/// built-in command, the argument vector stays as it is whatever the
/// alias table holds, an alias of the same name included.
pub proof fn lemma_builtin_wins(
    aliases: Map<Seq<char>, Seq<char>>,
    others: Map<Seq<char>, Seq<char>>,
    args: Seq<Seq<char>>,
)
    requires
        args.len() > 0,
        is_builtin(args[0]),
    ensures
        expand(aliases, args) == Ok::<ExpansionView, ErrorView>(ExpansionView::Reserved(args)),
        expand(aliases, args) == expand(others, args),
{
}

/// A command alias stands for its words: where the leading token names an
/// alias without the shell marker whose expansion has the words `split`,
/// the argument vector becomes these words followed by the arguments that
/// followed the token, in this order.
pub proof fn lemma_command_alias(
    aliases: Map<Seq<char>, Seq<char>>,
    args: Seq<Seq<char>>,
    split: Seq<Seq<char>>,
)
    requires
        args.len() > 0,
        !is_builtin(args[0]),
        aliases.contains_key(args[0]),
        !is_shell(aliases[args[0]]),
        expansion_words(aliases[args[0]]) == Some(split),
    ensures
        expand(aliases, args) == Ok::<ExpansionView, ErrorView>(
            ExpansionView::CommandAlias(split + args.skip(1)),
        ),
{
}

/// An alias with an empty expansion expands to the arguments that followed
/// it, and to nothing where none did.
pub proof fn lemma_empty_alias(aliases: Map<Seq<char>, Seq<char>>, args: Seq<Seq<char>>)
    requires
        args.len() > 0,
        !is_builtin(args[0]),
        aliases.contains_key(args[0]),
        aliases[args[0]].len() == 0,
    ensures
        expand(aliases, args) == Ok::<ExpansionView, ErrorView>(
            ExpansionView::CommandAlias(args.skip(1)),
        ),
{
    assert(Seq::<Seq<char>>::empty() + args.skip(1) =~= args.skip(1));
}

/// A shell alias stands for its command: where the leading token names an
/// alias with the shell marker, the result is the expansion without the
/// marker, followed by the arguments that followed the token.
pub proof fn lemma_shell_alias(aliases: Map<Seq<char>, Seq<char>>, args: Seq<Seq<char>>)
    requires
        args.len() > 0,
        !is_builtin(args[0]),
        aliases.contains_key(args[0]),
        is_shell(aliases[args[0]]),
    ensures
        expand(aliases, args) == Ok::<ExpansionView, ErrorView>(
            ExpansionView::ShellAlias(seq![aliases[args[0]].skip(1)] + args.skip(1)),
        ),
{
}

/// Expansion is repeatable: two expansions of the same arguments over the
/// same configuration, as `expand_alias` returns them, are the same.
pub proof fn lemma_expansion_repeats(
    config: EnvConfig,
    args: Vec<String>,
    first: Result<Expansion, Error>,
    second: Result<Expansion, Error>,
)
    requires
        expansion_view(first) == expand(config.config.aliases@, words(args@)),
        expansion_view(second) == expand(config.config.aliases@, words(args@)),
    ensures
        expansion_view(first) == expansion_view(second),
{
}

} // verus!
