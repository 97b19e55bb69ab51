//! Resolution and dispatch engine of the `oxide` command line tool.
//!
//! Every invocation is classified as a built-in command, a command alias or
//! a shell alias, and routed accordingly. Configuration is layered:
//! persisted settings can be overridden by environment variables. All output
//! goes to in-memory streams owned by the per-invocation [`context::Context`];
//! the caller performs the outside work (prompts, requests, child processes)
//! that the engine asks for and hands the results back.

pub mod api;
pub mod args;
pub mod cmd;
pub mod cmd_alias;
pub mod cmd_org;
pub mod colors;
pub mod config;
pub mod config_alias;
pub mod config_from_env;
pub mod context;
pub mod error;
pub mod iostreams;
pub mod layout;
pub mod table;
pub mod text;
pub mod update;

use crate::args::{classify, error_about, is_debug, scan, scan_from, Scan};
use crate::cmd::{
    step_view, Effect, EffectView, Outcome, Progress, ProgressView, Stage, StageView,
};
use crate::cmd_alias::is_builtin;
use crate::cmd_org::{
    ended, reported, unchanged, unexpected_outcome, unrecognized_command, CmdOrganization,
    CmdOrganizationCreate, CmdOrganizationDelete, CmdOrganizationEdit, CmdOrganizationList,
    CmdOrganizationView,
};
use crate::config_alias::{expand, expansion_words, is_shell, Expansion, ExpansionView};
use crate::context::{Context, ErrorView};
use crate::error::{Error, ErrorKind};
use crate::text::{clone_from, concat_str, join_words, lemma_encode_concat, str_eq, words};
use crate::update::{notice_text, update_text, ReleaseInfo};
use vstd::prelude::*;
use vstd::utf8::encode_utf8;

verus! {

/// A built-in command with what the command line gave it. The commands
/// whose work is done outside this library keep the arguments that
/// followed their name as they were.
#[derive(Debug)]
pub enum SubCommand {
    Alias(Vec<String>),
    Completion(Vec<String>),
    Config(Vec<String>),
    Generate(Vec<String>),
    Organization(CmdOrganization),
}

/// The characters of a [`SubCommand`].
pub enum SubCommandView {
    Alias(Seq<Seq<char>>),
    Completion(Seq<Seq<char>>),
    Config(Seq<Seq<char>>),
    Generate(Seq<Seq<char>>),
    Organization(cmd_org::SubCommandView),
}

impl View for SubCommand {
    type V = SubCommandView;

    open spec fn view(&self) -> SubCommandView {
        match self {
            SubCommand::Alias(args) => SubCommandView::Alias(words(args@)),
            SubCommand::Completion(args) => SubCommandView::Completion(words(args@)),
            SubCommand::Config(args) => SubCommandView::Config(words(args@)),
            SubCommand::Generate(args) => SubCommandView::Generate(words(args@)),
            SubCommand::Organization(cmd) => SubCommandView::Organization(cmd@),
        }
    }
}

/// A command line that was read: the command, and whether debugging was
/// asked for.
#[derive(Debug)]
pub struct Opts {
    /// Print debug info.
    pub debug: bool,
    pub subcmd: SubCommand,
}

/// The characters of an [`Opts`].
pub struct OptsView {
    pub debug: bool,
    pub subcmd: SubCommandView,
}

impl View for Opts {
    type V = OptsView;

    open spec fn view(&self) -> OptsView {
        OptsView { debug: self.debug, subcmd: self.subcmd@ }
    }
}

/// The view of a command line that was read, or of the error in its
/// place.
pub open spec fn opts_view(r: Result<Opts, Error>) -> Result<OptsView, ErrorView> {
    match r {
        Ok(opts) => Ok(opts@),
        Err(e) => Err(e@),
    }
}

/// The command that the line `line`, which does not hold the program's
/// name, stands for in the command tree. Aliases play no part here.
pub open spec fn parse_line(line: Seq<Seq<char>>) -> Result<OptsView, ErrorView> {
    match scan_from(line, 0, false) {
        Scan::Fail(e) => Err(e),
        Scan::Command(i, debug) => if line[i] == "alias"@ {
            Ok(OptsView { debug, subcmd: SubCommandView::Alias(line.skip(i + 1)) })
        } else if line[i] == "completion"@ {
            Ok(OptsView { debug, subcmd: SubCommandView::Completion(line.skip(i + 1)) })
        } else if line[i] == "config"@ {
            Ok(OptsView { debug, subcmd: SubCommandView::Config(line.skip(i + 1)) })
        } else if line[i] == "generate"@ {
            Ok(OptsView { debug, subcmd: SubCommandView::Generate(line.skip(i + 1)) })
        } else if line[i] == "organization"@ {
            match cmd_org::SubCommandView::spec_from_args(line, i + 1) {
                Ok((cmd, d)) => Ok(
                    OptsView { debug: debug || d, subcmd: SubCommandView::Organization(cmd) },
                ),
                Err(e) => Err(e),
            }
        } else {
            Err(unrecognized_command(line[i]))
        },
    }
}

impl Opts {
    /// Reads the command line `line`, which does not hold the program's
    /// name.
    pub fn parse(line: &Vec<String>) -> (r: Result<Opts, Error>)
        ensures
            opts_view(r) == parse_line(words(line@)),
    {
        let len: usize = line.len();
        let (i, debug) = match scan(line, 0) {
            Ok(at) => at,
            Err(e) => {
                return Err(e);
            },
        };
        let name = line[i].as_str();
        assert(words(line@)[i as int] == name@);
        if str_eq(name, "alias") {
            Ok(Opts { debug, subcmd: SubCommand::Alias(clone_from(line, i + 1)) })
        } else if str_eq(name, "completion") {
            Ok(Opts { debug, subcmd: SubCommand::Completion(clone_from(line, i + 1)) })
        } else if str_eq(name, "config") {
            Ok(Opts { debug, subcmd: SubCommand::Config(clone_from(line, i + 1)) })
        } else if str_eq(name, "generate") {
            Ok(Opts { debug, subcmd: SubCommand::Generate(clone_from(line, i + 1)) })
        } else if str_eq(name, "organization") {
            match CmdOrganization::from_args(line, i + 1) {
                Ok((cmd, d)) => Ok(Opts { debug: debug || d, subcmd: SubCommand::Organization(cmd) }),
                Err(e) => Err(e),
            }
        } else {
            Err(error_about("unrecognized command '", name, "'"))
        }
    }
}

/// The step that hands the command `command` to the caller, with `args`.
pub open spec fn delegated(command: Seq<char>, args: Seq<Seq<char>>) -> ProgressView {
    ProgressView::Pending {
        effect: EffectView::Run { command, args },
        stage: StageView::Ran,
    }
}

impl SubCommandView {
    /// The arguments that the command keeps as they were, where its work
    /// is done outside this library.
    pub open spec fn spec_run_args(&self) -> Option<Seq<Seq<char>>> {
        match self {
            SubCommandView::Alias(args) => Some(*args),
            SubCommandView::Completion(args) => Some(*args),
            SubCommandView::Config(args) => Some(*args),
            SubCommandView::Generate(args) => Some(*args),
            SubCommandView::Organization(_) => None,
        }
    }

    /// The first step of the command.
    pub open spec fn spec_run(&self, ctx: &Context) -> Result<ProgressView, ErrorView> {
        match self {
            SubCommandView::Alias(args) => Ok(delegated("alias"@, *args)),
            SubCommandView::Completion(args) => Ok(delegated("completion"@, *args)),
            SubCommandView::Config(args) => Ok(delegated("config"@, *args)),
            SubCommandView::Generate(args) => Ok(delegated("generate"@, *args)),
            SubCommandView::Organization(cmd) => cmd.spec_run(ctx),
        }
    }
}

fn delegate(command: &str, args: &Vec<String>) -> (p: Progress)
    ensures
        p@ == delegated(command@, words(args@)),
{
    let copy = clone_from(args, 0);
    assert(words(copy@) =~= words(args@));
    Progress::Pending {
        effect: Effect::Run { command: String::from_str(command), args: copy },
        stage: Stage::Ran,
    }
}

/// Begins the command `cmd`: every command is begun in the same way,
/// whatever its place in the command tree. Nothing is written.
pub fn run_cmd(cmd: &SubCommand, ctx: &mut Context) -> (r: Result<Progress, Error>)
    ensures
        step_view(r) == cmd@.spec_run(old(ctx)),
        unchanged(old(ctx), final(ctx)),
{
    match cmd {
        SubCommand::Alias(args) => Ok(delegate("alias", args)),
        SubCommand::Completion(args) => Ok(delegate("completion", args)),
        SubCommand::Config(args) => Ok(delegate("config", args)),
        SubCommand::Generate(args) => Ok(delegate("generate", args)),
        SubCommand::Organization(cmd) => cmd.run(ctx),
    }
}

/// The exit code of a shell alias whose process a signal ended.
pub const SIGNAL_EXIT_CODE: i32 = 0;

/// The command line without the program's name, which stands first.
pub open spec fn line_of(args: Seq<Seq<char>>) -> Seq<Seq<char>> {
    if args.len() == 0 {
        args
    } else {
        args.skip(1)
    }
}

/// The arguments of the shell that runs the shell alias `v`: its command,
/// and after `--` the arguments that followed the alias.
pub open spec fn shell_args(v: Seq<Seq<char>>) -> Seq<Seq<char>> {
    if v.len() > 1 {
        seq!["-c"@, v[0], "--"@] + v.skip(1)
    } else {
        seq!["-c"@, v[0]]
    }
}

/// The step that spawns the shell for the shell alias `v`.
pub open spec fn spawn_shell(v: Seq<Seq<char>>) -> ProgressView {
    ProgressView::Pending {
        effect: EffectView::Spawn { program: "sh"@, args: shell_args(v) },
        stage: StageView::Shell,
    }
}

/// The first step of the command that `line` stands for in the command
/// tree.
pub open spec fn run_line(line: Seq<Seq<char>>, ctx: &Context) -> Result<ProgressView, ErrorView> {
    match parse_line(line) {
        Err(e) => Err(e),
        Ok(opts) => opts.subcmd.spec_run(ctx),
    }
}

/// The line that goes to the command tree for the arguments `args` of the
/// process, if one does: none for a shell alias or an alias in error.
pub open spec fn internal_line(aliases: Map<Seq<char>, Seq<char>>, args: Seq<Seq<char>>) -> Option<
    Seq<Seq<char>>,
> {
    match expand(aliases, line_of(args)) {
        Ok(ExpansionView::Reserved(v)) => Some(v),
        Ok(ExpansionView::CommandAlias(v)) => Some(v),
        Ok(ExpansionView::NoMatch(v)) => Some(v),
        _ => None,
    }
}

/// The first step for the arguments `args` of the process: a shell alias
/// spawns the shell; anything else goes to the command tree, after a
/// command alias was expanded.
pub open spec fn dispatch(args: Seq<Seq<char>>, ctx: &Context) -> Result<ProgressView, ErrorView> {
    match expand(ctx.config.config.aliases@, line_of(args)) {
        Err(e) => Err(e),
        Ok(ExpansionView::ShellAlias(v)) => Ok(spawn_shell(v)),
        Ok(ExpansionView::Reserved(v)) => run_line(v, ctx),
        Ok(ExpansionView::CommandAlias(v)) => run_line(v, ctx),
        Ok(ExpansionView::NoMatch(v)) => run_line(v, ctx),
    }
}

/// Whether a command that was read with the debug switch `asked` runs
/// with debugging on: the switch turns it on, and so does the variable
/// `DEBUG` of the environment, set to any value.
pub open spec fn debugging(asked: bool, ctx: &Context) -> bool {
    asked || ctx.config.env.vars@.contains_key("DEBUG"@)
}

/// Whether debugging is on after the command tree was given `line`: as the
/// line and the environment say where the line could be read, else as
/// before.
pub open spec fn debug_for(line: Seq<Seq<char>>, ctx: &Context) -> bool {
    match parse_line(line) {
        Ok(opts) => debugging(opts.debug, ctx),
        Err(_) => ctx.debug,
    }
}

/// Whether debugging is on after the first step.
pub open spec fn debug_after(args: Seq<Seq<char>>, ctx: &Context) -> bool {
    match internal_line(ctx.config.config.aliases@, args) {
        Some(line) => debug_for(line, ctx),
        None => ctx.debug,
    }
}

fn shell_step(v: Vec<String>) -> (p: Progress)
    requires
        v@.len() > 0,
    ensures
        p@ == spawn_shell(words(v@)),
{
    let mut args: Vec<String> = Vec::new();
    args.push(String::from_str("-c"));
    args.push(v[0].clone());
    if v.len() > 1 {
        args.push(String::from_str("--"));
        assert(words(args@) =~= seq!["-c"@, words(v@)[0], "--"@]);
        let rest = clone_from(&v, 1);
        args = join_words(args, rest);
    } else {
        assert(words(args@) =~= seq!["-c"@, words(v@)[0]]);
    }
    Progress::Pending {
        effect: Effect::Spawn { program: String::from_str("sh"), args },
        stage: Stage::Shell,
    }
}

fn run_parsed(line: &Vec<String>, ctx: &mut Context) -> (r: Result<Progress, Error>)
    ensures
        step_view(r) == run_line(words(line@), old(ctx)),
        final(ctx).config == old(ctx).config,
        final(ctx).io == old(ctx).io,
        final(ctx).debug == debug_for(words(line@), old(ctx)),
{
    match Opts::parse(line) {
        Err(e) => Err(e),
        Ok(opts) => {
            ctx.debug = opts.debug || ctx.config.env.vars.contains("DEBUG");
            run_cmd(&opts.subcmd, ctx)
        },
    }
}

/// Takes the first step for the arguments `args` of the process, the
/// program's name first. Nothing is written; the debug flag is set as the
/// command line says.
pub fn do_main(args: Vec<String>, ctx: &mut Context) -> (r: Result<Progress, Error>)
    ensures
        step_view(r) == dispatch(words(args@), old(ctx)),
        final(ctx).config == old(ctx).config,
        final(ctx).io == old(ctx).io,
        final(ctx).debug == debug_after(words(args@), old(ctx)),
{
    let line = if args.len() == 0 {
        let none = clone_from(&args, 0);
        assert(words(none@) =~= words(args@));
        none
    } else {
        clone_from(&args, 1)
    };
    match ctx.config.expand_alias(&line) {
        Err(e) => Err(e),
        Ok(Expansion::ShellAlias(v)) => {
            assert(words(v@).len() > 0);
            Ok(shell_step(v))
        },
        Ok(Expansion::Reserved(v)) => run_parsed(&v, ctx),
        Ok(Expansion::CommandAlias(v)) => run_parsed(&v, ctx),
        Ok(Expansion::NoMatch(v)) => run_parsed(&v, ctx),
    }
}

/// The exit code of a shell alias whose process ended with `code`.
pub open spec fn exit_code_of(code: Option<i32>) -> i32 {
    match code {
        Some(c) => c,
        None => SIGNAL_EXIT_CODE,
    }
}

/// The error for a shell that could not be started, for `reason`.
pub open spec fn spawn_error(reason: Seq<char>) -> ErrorView {
    ErrorView { kind: ErrorKind::Spawn, message: reason }
}

/// `after` is `before` with `stdout` appended to standard output and
/// `stderr` to standard error.
pub open spec fn relayed(before: &Context, after: &Context, stdout: Seq<u8>, stderr: Seq<u8>) -> bool {
    &&& after.config == before.config
    &&& after.debug == before.debug
    &&& after.io.same_terminal(&before.io)
    &&& after.io.out@ == before.io.out@ + stdout
    &&& after.io.err_out@ == before.io.err_out@ + stderr
}

/// What the step after the shell was spawned does with `outcome`: all
/// that the process wrote is passed on as it is, and its exit code
/// becomes the command's. A shell that did not start is an error.
pub open spec fn shell_step_done(
    outcome: Outcome,
    before: &Context,
    after: &Context,
    r: Result<Progress, Error>,
) -> bool {
    match outcome {
        Outcome::Child { code, stdout, stderr } => step_view(r) == Ok::<ProgressView, ErrorView>(
            ProgressView::Finished(exit_code_of(code)),
        ) && relayed(before, after, stdout@, stderr@),
        Outcome::Failed(reason) => step_view(r) == Err::<ProgressView, ErrorView>(
            spawn_error(reason@),
        ) && unchanged(before, after),
        _ => step_view(r) == Err::<ProgressView, ErrorView>(unexpected_outcome()) && unchanged(
            before,
            after,
        ),
    }
}

/// What the step at `stage` does with `outcome`.
pub open spec fn resumed(
    stage: Stage,
    outcome: Outcome,
    before: &Context,
    after: &Context,
    r: Result<Progress, Error>,
) -> bool {
    match stage {
        Stage::Name { description } => step_view(r) == CmdOrganizationCreate::spec_named(
            before,
            description@,
            outcome,
        ) && unchanged(before, after),
        Stage::Description { name } => step_view(r) == CmdOrganizationCreate::spec_described(
            before,
            name@,
            outcome,
        ) && unchanged(before, after),
        Stage::Created { name } => reported(
            outcome,
            before,
            after,
            r,
            CmdOrganizationCreate::created_line(before.color_scheme_spec(), name@),
        ),
        Stage::Confirmation { client, organization } => step_view(r)
            == CmdOrganizationDelete::spec_confirmed(client@, organization@, outcome) && unchanged(
            before,
            after,
        ),
        Stage::Deleted { organization } => reported(
            outcome,
            before,
            after,
            r,
            CmdOrganizationDelete::deleted_line(before.color_scheme_spec(), organization@),
        ),
        Stage::Edited { organization, new_name } => reported(
            outcome,
            before,
            after,
            r,
            CmdOrganizationEdit::edited_line(before.color_scheme_spec(), organization@, new_name),
        ),
        Stage::Listed { json } => CmdOrganizationList::listed_step(json, outcome, before, after, r),
        Stage::Viewed { json } => CmdOrganizationView::viewed_step(json, outcome, before, after, r),
        Stage::Browsed => step_view(r) == ended(outcome) && unchanged(before, after),
        Stage::Shell => shell_step_done(outcome, before, after, r),
        Stage::Ran => step_view(r) == ended(outcome) && unchanged(before, after),
    }
}

/// Ends a shell alias: relays what the process wrote and takes over its
/// exit code.
pub fn relay(ctx: &mut Context, outcome: Outcome) -> (r: Result<Progress, Error>)
    ensures
        shell_step_done(outcome, old(ctx), final(ctx), r),
{
    match outcome {
        Outcome::Child { code, stdout, stderr } => {
            ctx.io.write_out(stdout.as_slice());
            ctx.io.write_err(stderr.as_slice());
            let status: i32 = match code {
                Some(c) => c,
                None => SIGNAL_EXIT_CODE,
            };
            Ok(Progress::Finished(status))
        },
        Outcome::Failed(reason) => Err(Error::spawn(reason.as_str())),
        _ => Err(Error::command("unexpected outcome")),
    }
}

fn end(outcome: Outcome) -> (r: Result<Progress, Error>)
    ensures
        step_view(r) == ended(outcome),
{
    match outcome {
        Outcome::Done => Ok(Progress::Finished(0)),
        Outcome::Failed(reason) => Err(Error::command(reason.as_str())),
        _ => Err(Error::command("unexpected outcome")),
    }
}

/// Goes on with the command that waits at `stage`, now that the effect it
/// asked for has come to `outcome`.
pub fn resume(stage: Stage, outcome: Outcome, ctx: &mut Context) -> (r: Result<Progress, Error>)
    ensures
        resumed(stage, outcome, old(ctx), final(ctx), r),
{
    match stage {
        Stage::Name { description } => CmdOrganizationCreate::named(ctx, description, outcome),
        Stage::Description { name } => CmdOrganizationCreate::described(ctx, name, outcome),
        Stage::Created { name } => CmdOrganizationCreate::created(ctx, name, outcome),
        Stage::Confirmation { client, organization } => CmdOrganizationDelete::confirmed(
            ctx,
            client,
            organization,
            outcome,
        ),
        Stage::Deleted { organization } => CmdOrganizationDelete::deleted(
            ctx,
            organization,
            outcome,
        ),
        Stage::Edited { organization, new_name } => CmdOrganizationEdit::edited(
            ctx,
            organization,
            new_name,
            outcome,
        ),
        Stage::Listed { json } => CmdOrganizationList::listed(ctx, json, outcome),
        Stage::Viewed { json } => CmdOrganizationView::viewed(ctx, json, outcome),
        Stage::Browsed => CmdOrganizationView::browsed(ctx, outcome),
        Stage::Shell => relay(ctx, outcome),
        Stage::Ran => end(outcome),
    }
}

/// `after` is `before` with `written` appended to standard error.
pub open spec fn warned(before: &Context, after: &Context, written: Seq<char>) -> bool {
    &&& after.config == before.config
    &&& after.debug == before.debug
    &&& after.io.out == before.io.out
    &&& after.io.same_terminal(&before.io)
    &&& after.io.err_out@ == before.io.err_out@ + encode_utf8(written)
}

/// Tells of a newer release on standard error. `update` is the newer
/// release, if the check found one; `under_homebrew` and `recent_release`
/// say whether Homebrew manages the installation and whether the release
/// has only just been published, in which case the notice is held back.
pub fn handle_update(
    ctx: &mut Context,
    update: Option<ReleaseInfo>,
    build_version: &str,
    under_homebrew: bool,
    recent_release: bool,
)
    ensures
        warned(
            old(ctx),
            final(ctx),
            update_text(
                old(ctx).color_scheme_spec(),
                update,
                build_version@,
                under_homebrew,
                recent_release,
            ),
        ),
{
    assert(ctx.io.err_out@ + encode_utf8(Seq::<char>::empty()) =~= ctx.io.err_out@);
    if let Some(latest_release) = update {
        if !(under_homebrew && recent_release) {
            let cs = ctx.color_scheme();
            let text = notice_text(&cs, &latest_release, build_version, under_homebrew);
            ctx.io.eprint(text.as_str());
        }
    }
}

/// The line that shows the error message `message` to the user.
pub open spec fn error_line(message: Seq<char>) -> Seq<char> {
    message + "\n"@
}

/// What is written when a command has ended with `result`.
pub open spec fn final_text(result: Result<i32, Error>) -> Seq<char> {
    match result {
        Ok(_) => Seq::<char>::empty(),
        Err(e) => error_line(e.message@),
    }
}

/// The exit code of a process whose command has ended with `result`.
pub open spec fn final_code(result: Result<i32, Error>) -> i32 {
    match result {
        Ok(code) => code,
        Err(_) => 1,
    }
}

/// Ends the invocation whose command has ended with `result`: an error is
/// shown once on standard error; then, and only then, the notice of a
/// newer release follows. The exit code is that of the command, or 1 for
/// an error, whatever the check for a newer release has found.
pub fn finish(
    ctx: &mut Context,
    result: Result<i32, Error>,
    update: Option<ReleaseInfo>,
    build_version: &str,
    under_homebrew: bool,
    recent_release: bool,
) -> (code: i32)
    ensures
        code == final_code(result),
        warned(
            old(ctx),
            final(ctx),
            final_text(result) + update_text(
                old(ctx).color_scheme_spec(),
                update,
                build_version@,
                under_homebrew,
                recent_release,
            ),
        ),
{
    let ghost shown = final_text(result);
    let ghost told = update_text(
        ctx.color_scheme_spec(),
        update,
        build_version@,
        under_homebrew,
        recent_release,
    );
    let ghost before = ctx.io.err_out@;
    assert(before + encode_utf8(Seq::<char>::empty()) =~= before);
    let code: i32 = match &result {
        Ok(code) => *code,
        Err(e) => {
            let line = concat_str(e.message.as_str(), "\n");
            ctx.io.eprint(line.as_str());
            e.exit_code()
        },
    };
    handle_update(ctx, update, build_version, under_homebrew, recent_release);
    proof {
        lemma_encode_concat(shown, told);
        assert(before + encode_utf8(shown) + encode_utf8(told) =~= before + (encode_utf8(shown)
            + encode_utf8(told)));
    }
    code
}

/// A built-in command is dispatched as it stands: where the first
/// argument after the program's name names a built-in command, the line
/// goes to the command tree unchanged, whatever aliases there are.
pub proof fn lemma_builtin_dispatch(args: Seq<Seq<char>>, ctx: &Context)
    requires
        args.len() > 1,
        is_builtin(args[1]),
    ensures
        internal_line(ctx.config.config.aliases@, args) == Some(args.skip(1)),
        dispatch(args, ctx) == run_line(args.skip(1), ctx),
{
}

/// Invoking a command alias is invoking its words: where the first
/// argument after the program's name names a command alias whose
/// expansion has the words `split`, the command tree is given these words
/// followed by the remaining arguments, and the first step is that of this
/// line. The words are not looked up as aliases again.
pub proof fn lemma_alias_dispatch(args: Seq<Seq<char>>, ctx: &Context, split: Seq<Seq<char>>)
    requires
        args.len() > 1,
        !is_builtin(args[1]),
        ctx.config.config.aliases@.contains_key(args[1]),
        !is_shell(ctx.config.config.aliases@[args[1]]),
        expansion_words(ctx.config.config.aliases@[args[1]]) == Some(split),
    ensures
        internal_line(ctx.config.config.aliases@, args) == Some(split + args.skip(2)),
        dispatch(args, ctx) == run_line(split + args.skip(2), ctx),
        debug_after(args, ctx) == debug_for(split + args.skip(2), ctx),
{
    assert(args.skip(1).skip(1) =~= args.skip(2));
}

/// A shell alias runs in the shell and its process speaks for it: where
/// the first argument after the program's name names a shell alias, the
/// first step spawns `sh` with the expansion, without its marker, as the
/// command and the remaining arguments after it; and once the process has
/// ended, standard output has grown by exactly what the process wrote
/// there, standard error likewise, and the exit code is that of the
/// process.
pub proof fn lemma_shell_dispatch(
    args: Seq<Seq<char>>,
    before: &Context,
    after: &Context,
    code: i32,
    stdout: Vec<u8>,
    stderr: Vec<u8>,
    r: Result<Progress, Error>,
)
    requires
        args.len() > 1,
        !is_builtin(args[1]),
        before.config.config.aliases@.contains_key(args[1]),
        is_shell(before.config.config.aliases@[args[1]]),
        resumed(Stage::Shell, Outcome::Child { code: Some(code), stdout, stderr }, before, after, r),
    ensures
        dispatch(args, before) == Ok::<ProgressView, ErrorView>(
            spawn_shell(seq![before.config.config.aliases@[args[1]].skip(1)] + args.skip(2)),
        ),
        after.io.out@ == before.io.out@ + stdout@,
        after.io.err_out@ == before.io.err_out@ + stderr@,
        step_view(r) == Ok::<ProgressView, ErrorView>(ProgressView::Finished(code)),
{
    assert(args.skip(1).skip(1) =~= args.skip(2));
}

/// What names nothing is refused: where the first argument after the
/// program's name is no option, no built-in command and no alias, the
/// first step fails with an argument error that names it.
pub proof fn lemma_unrecognized(args: Seq<Seq<char>>, ctx: &Context)
    requires
        args.len() > 1,
        !is_builtin(args[1]),
        !ctx.config.config.aliases@.contains_key(args[1]),
        classify(args[1]) is Positional,
    ensures
        dispatch(args, ctx) == Err::<ProgressView, ErrorView>(unrecognized_command(args[1])),
        unrecognized_command(args[1]).kind == ErrorKind::Argument,
{
    let line = args.skip(1);
    assert(line[0] == args[1]);
    assert(!is_debug(line[0])) by {
        reveal_strlit("--debug");
        reveal_strlit("-d");
    }
    assert(scan_from(line, 0, false) == Scan::Command(0, false));
}

/// The reserved names are the commands of the tree: a line that begins
/// with the name of a built-in command whose work is done outside this
/// library is read as that command with the arguments that follow.
pub proof fn lemma_builtin_is_read(line: Seq<Seq<char>>)
    requires
        line.len() > 0,
        is_builtin(line[0]),
        line[0] != "organization"@,
    ensures
        parse_line(line) is Ok,
        parse_line(line)->Ok_0.debug == false,
        parse_line(line)->Ok_0.subcmd.spec_run_args() == Some(line.skip(1)),
{
    reveal_strlit("alias");
    reveal_strlit("completion");
    reveal_strlit("config");
    reveal_strlit("generate");
    reveal_strlit("--debug");
    reveal_strlit("-d");
    assert(classify(line[0]) is Positional);
    assert(!is_debug(line[0]));
    assert(scan_from(line, 0, false) == Scan::Command(0, false));
}

} // verus!
