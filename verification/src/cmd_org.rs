//! The `organization` command: create, list, edit, view and delete
//! organizations.
//!
//! Each command is read from the command line (`from_args`), begun (`run`)
//! and carried on after each effect it asked for. The steps of a command
//! are functions of what the command line gave and of the outcomes so far;
//! what they write goes to the streams of the context.

use crate::api::{Organization, Request, RequestView, Timestamp};
use crate::args::{
    about, debug_flag, debug_switch, error_about, flag, is_given, no_matches, no_positional,
    one_positional, optional_positional, parse_from, parse_options, parse_u32, refuse_positionals,
    scan, scan_from, switch, table_view, take_one_positional, take_optional_positional, u32_of,
    value_of, valued, Flag, FlagView, Scan,
};
use crate::cmd::{step_view, Effect, EffectView, Outcome, Progress, ProgressView, Stage, StageView};
use crate::colors::{check_mark, ColorScheme, Paint};
use crate::config_from_env::layered_get;
use crate::context::{
    argument_error, command_error, config_error, Client, ClientView, Context, ErrorView,
};
use crate::error::Error;
use crate::layout::{align, human_time, humanize, tab_layout};
use crate::text::{concat_str, opt_view, str_eq, trim, trimmed, words};
use vstd::prelude::*;
use vstd::utf8::encode_utf8;

verus! {

/// The error for an outcome that does not answer the effect that a stage
/// waits for.
pub open spec fn unexpected_outcome() -> ErrorView {
    command_error("unexpected outcome"@)
}

/// What is said of a prompt that failed for `reason`.
pub open spec fn prompt_failed(reason: Seq<char>) -> ErrorView {
    command_error("prompt failed: "@ + reason)
}

fn unexpected() -> (e: Error)
    ensures
        e@ == unexpected_outcome(),
{
    Error::command("unexpected outcome")
}

fn prompt_failure(reason: &str) -> (e: Error)
    ensures
        e@ == prompt_failed(reason@),
{
    let message = concat_str("prompt failed: ", reason);
    Error::command(message.as_str())
}

/// Nothing is written to the streams of `after` that `before` did not
/// hold, and nothing else of the context changes.
pub open spec fn unchanged(before: &Context, after: &Context) -> bool {
    *after == *before
}

/// `after` is `before` with `written` appended to standard output.
pub open spec fn printed(before: &Context, after: &Context, written: Seq<char>) -> bool {
    &&& after.config == before.config
    &&& after.debug == before.debug
    &&& after.io.err_out == before.io.err_out
    &&& after.io.same_terminal(&before.io)
    &&& after.io.out@ == before.io.out@ + encode_utf8(written)
}

/// The step after a request that returns nothing.
pub open spec fn ended(outcome: Outcome) -> Result<ProgressView, ErrorView> {
    match outcome {
        Outcome::Done => Ok(ProgressView::Finished(0)),
        Outcome::Failed(reason) => Err(command_error(reason@)),
        _ => Err(unexpected_outcome()),
    }
}

/// What the last step of a command that reports with one line does with
/// `outcome`: once the request has succeeded, `line` goes to standard
/// output; otherwise the command fails and nothing is written.
pub open spec fn reported(
    outcome: Outcome,
    before: &Context,
    after: &Context,
    r: Result<Progress, Error>,
    line: Seq<char>,
) -> bool {
    &&& step_view(r) == ended(outcome)
    &&& outcome is Done ==> printed(before, after, line)
    &&& !(outcome is Done) ==> unchanged(before, after)
}

/// The characters of `s`, or none where there is no string.
pub open spec fn text_or_empty(s: Option<Seq<char>>) -> Seq<char> {
    match s {
        Some(t) => t,
        None => Seq::<char>::empty(),
    }
}

fn clone_or_empty(s: &Option<String>) -> (t: String)
    ensures
        t@ == text_or_empty(opt_view(*s)),
{
    match s {
        Some(v) => v.clone(),
        None => String::new(),
    }
}

/// The error for a name that is no command.
pub open spec fn unrecognized_command(name: Seq<char>) -> ErrorView {
    about("unrecognized command '"@, name, "'"@)
}

/// Create a new organization.
///
/// To create an organization interactively, leave out the name.
#[derive(Clone, Debug)]
pub struct CmdOrganizationCreate {
    /// The name of the organization to create.
    pub organization: String,
    /// The description for the organization.
    pub description: String,
}

/// The characters of a [`CmdOrganizationCreate`].
pub struct CreateView {
    pub organization: Seq<char>,
    pub description: Seq<char>,
}

impl View for CmdOrganizationCreate {
    type V = CreateView;

    open spec fn view(&self) -> CreateView {
        CreateView {
            organization: self.organization@,
            description: self.description@,
        }
    }
}

impl CreateView {
    /// The options of `organization create`: `--description`, `-D`.
    pub open spec fn table() -> Seq<FlagView> {
        seq![valued("description"@, Some('D')), debug_flag()]
    }

    /// `organization create [organization] [--description <text>]`, read
    /// from `args` after position `start`.
    pub open spec fn spec_from_args(args: Seq<Seq<char>>, start: int) -> Result<
        (SubCommandView, bool),
        ErrorView,
    > {
        match parse_from(Self::table(), args, start, no_matches(2)) {
            Err(e) => Err(e),
            Ok(found) => match optional_positional(found) {
                Err(e) => Err(e),
                Ok(organization) => Ok(
                    (
                        SubCommandView::Create(
                            CreateView {
                                organization,
                                description: text_or_empty(found.values[0]),
                            },
                        ),
                        found.values[1] is Some,
                    ),
                ),
            },
        }
    }

    /// The first step. Without a name or without a description the user
    /// must be there to be asked; a missing name is asked for; otherwise
    /// the request is sent.
    pub open spec fn spec_run(&self, ctx: &Context) -> Result<ProgressView, ErrorView> {
        if self.organization.len() == 0 && !ctx.io.spec_can_prompt() {
            Err(argument_error("[organization_name] required in non-interactive mode"@))
        } else if self.description.len() == 0 && !ctx.io.spec_can_prompt() {
            Err(argument_error("--description,-D required in non-interactive mode"@))
        } else if self.organization.len() == 0 {
            Ok(
                ProgressView::Pending {
                    effect: EffectView::Prompt { text: "Organization name:"@ },
                    stage: StageView::Name { description: self.description },
                },
            )
        } else {
            CmdOrganizationCreate::spec_send(ctx, self.organization, self.description)
        }
    }
}

impl CmdOrganizationCreate {
    /// Reads `organization create` from `args` after position `start`.
    pub fn from_args(args: &Vec<String>, start: usize) -> (r: Result<(SubCommand, bool), Error>)
        ensures
            leaf_view(r) == CreateView::spec_from_args(words(args@), start as int),
    {
        let mut table: Vec<Flag> = Vec::new();
        table.push(flag("description", Some('D'), true));
        table.push(debug_switch());
        assert(table_view(table@) =~= CreateView::table());
        let found = match parse_options(&table, args, start) {
            Ok(found) => found,
            Err(e) => {
                return Err(e);
            },
        };
        let organization = match take_optional_positional(&found) {
            Ok(organization) => organization,
            Err(e) => {
                return Err(e);
            },
        };
        let description = clone_or_empty(&value_of(&found, 0));
        let debug = is_given(&found, 1);
        Ok((SubCommand::Create(CmdOrganizationCreate { organization, description }), debug))
    }

    /// The step that sends the request to create `name`: it needs a client.
    pub open spec fn spec_send(ctx: &Context, name: Seq<char>, description: Seq<char>) -> Result<
        ProgressView,
        ErrorView,
    > {
        match ctx.spec_api_client(Seq::<char>::empty()) {
            Err(e) => Err(e),
            Ok(client) => Ok(
                ProgressView::Pending {
                    effect: EffectView::Call {
                        client,
                        request: RequestView::Create { name, description },
                        json: false,
                    },
                    stage: StageView::Created { name },
                },
            ),
        }
    }

    /// The step after the name was asked for: a description that the
    /// command line left out is asked for as well.
    pub open spec fn spec_named(ctx: &Context, description: Seq<char>, outcome: Outcome) -> Result<
        ProgressView,
        ErrorView,
    > {
        match outcome {
            Outcome::Input(name) => if description.len() == 0 {
                Ok(
                    ProgressView::Pending {
                        effect: EffectView::Prompt { text: "Organization description:"@ },
                        stage: StageView::Description { name: name@ },
                    },
                )
            } else {
                Self::spec_send(ctx, name@, description)
            },
            Outcome::Failed(reason) => Err(prompt_failed(reason@)),
            _ => Err(unexpected_outcome()),
        }
    }

    /// The step after the description was asked for.
    pub open spec fn spec_described(ctx: &Context, name: Seq<char>, outcome: Outcome) -> Result<
        ProgressView,
        ErrorView,
    > {
        match outcome {
            Outcome::Input(description) => Self::spec_send(ctx, name, description@),
            Outcome::Failed(reason) => Err(prompt_failed(reason@)),
            _ => Err(unexpected_outcome()),
        }
    }

    /// The line that reports the creation of `name`.
    pub open spec fn created_line(cs: ColorScheme, name: Seq<char>) -> Seq<char> {
        cs.styled(Paint::Green, check_mark()) + " Successfully created organization "@ + name
            + "\n"@
    }

    fn send(ctx: &Context, name: String, description: String) -> (r: Result<Progress, Error>)
        ensures
            step_view(r) == Self::spec_send(ctx, name@, description@),
    {
        proof {
            reveal_strlit("");
            assert(""@ =~= Seq::<char>::empty());
        }
        match ctx.api_client("") {
            Err(e) => Err(e),
            Ok(client) => {
                let stage = Stage::Created { name: name.clone() };
                Ok(
                    Progress::Pending {
                        effect: Effect::Call {
                            client,
                            request: Request::Create { name, description },
                            json: false,
                        },
                        stage,
                    },
                )
            },
        }
    }

    /// Begins the creation. Nothing is written.
    pub fn run(&self, ctx: &mut Context) -> (r: Result<Progress, Error>)
        ensures
            step_view(r) == self@.spec_run(old(ctx)),
            unchanged(old(ctx), final(ctx)),
    {
        if self.organization.as_str().is_empty() && !ctx.io.can_prompt() {
            return Err(Error::argument("[organization_name] required in non-interactive mode"));
        }
        if self.description.as_str().is_empty() && !ctx.io.can_prompt() {
            return Err(Error::argument("--description,-D required in non-interactive mode"));
        }
        if self.organization.as_str().is_empty() {
            return Ok(
                Progress::Pending {
                    effect: Effect::Prompt { text: String::from_str("Organization name:") },
                    stage: Stage::Name { description: self.description.clone() },
                },
            );
        }
        Self::send(ctx, self.organization.clone(), self.description.clone())
    }

    /// Goes on after the name was asked for. Nothing is written.
    pub fn named(ctx: &mut Context, description: String, outcome: Outcome) -> (r: Result<
        Progress,
        Error,
    >)
        ensures
            step_view(r) == Self::spec_named(old(ctx), description@, outcome),
            unchanged(old(ctx), final(ctx)),
    {
        match outcome {
            Outcome::Input(name) => {
                if description.as_str().is_empty() {
                    Ok(
                        Progress::Pending {
                            effect: Effect::Prompt {
                                text: String::from_str("Organization description:"),
                            },
                            stage: Stage::Description { name },
                        },
                    )
                } else {
                    Self::send(ctx, name, description)
                }
            },
            Outcome::Failed(reason) => Err(prompt_failure(reason.as_str())),
            _ => Err(unexpected()),
        }
    }

    /// Goes on after the description was asked for. Nothing is written.
    pub fn described(ctx: &mut Context, name: String, outcome: Outcome) -> (r: Result<
        Progress,
        Error,
    >)
        ensures
            step_view(r) == Self::spec_described(old(ctx), name@, outcome),
            unchanged(old(ctx), final(ctx)),
    {
        match outcome {
            Outcome::Input(description) => Self::send(ctx, name, description),
            Outcome::Failed(reason) => Err(prompt_failure(reason.as_str())),
            _ => Err(unexpected()),
        }
    }

    /// Ends the creation: reports it on standard output once the request
    /// has succeeded, and writes nothing otherwise.
    pub fn created(ctx: &mut Context, name: String, outcome: Outcome) -> (r: Result<
        Progress,
        Error,
    >)
        ensures
            reported(
                outcome,
                old(ctx),
                final(ctx),
                r,
                Self::created_line(old(ctx).color_scheme_spec(), name@),
            ),
    {
        match outcome {
            Outcome::Done => {
                let cs = ctx.color_scheme();
                let mut line = cs.success_icon();
                line.append(" Successfully created organization ");
                line.append(name.as_str());
                line.append("\n");
                ctx.io.print(line.as_str());
                Ok(Progress::Finished(0))
            },
            Outcome::Failed(reason) => Err(Error::command(reason.as_str())),
            _ => Err(unexpected()),
        }
    }
}

/// Delete an organization.
#[derive(Clone, Debug)]
pub struct CmdOrganizationDelete {
    /// The organization to delete. Can be an ID or name.
    pub organization: String,
    /// Confirm deletion without prompting.
    pub confirm: bool,
}

/// The characters of a [`CmdOrganizationDelete`].
pub struct DeleteView {
    pub organization: Seq<char>,
    pub confirm: bool,
}

impl View for CmdOrganizationDelete {
    type V = DeleteView;

    open spec fn view(&self) -> DeleteView {
        DeleteView {
            organization: self.organization@,
            confirm: self.confirm,
        }
    }
}

impl DeleteView {
    /// The options of `organization delete`: `--confirm`.
    pub open spec fn table() -> Seq<FlagView> {
        seq![switch("confirm"@, None), debug_flag()]
    }

    /// `organization delete <organization> [--confirm]`, read from `args`
    /// after position `start`.
    pub open spec fn spec_from_args(args: Seq<Seq<char>>, start: int) -> Result<
        (SubCommandView, bool),
        ErrorView,
    > {
        match parse_from(Self::table(), args, start, no_matches(2)) {
            Err(e) => Err(e),
            Ok(found) => match one_positional(found, "organization"@) {
                Err(e) => Err(e),
                Ok(organization) => Ok(
                    (
                        SubCommandView::Delete(
                            DeleteView { organization, confirm: found.values[0] is Some },
                        ),
                        found.values[1] is Some,
                    ),
                ),
            },
        }
    }

    /// The first step. Without `--confirm` the user must be there to be
    /// asked, and is asked once a client could be made.
    pub open spec fn spec_run(&self, ctx: &Context) -> Result<ProgressView, ErrorView> {
        if !ctx.io.spec_can_prompt() && !self.confirm {
            Err(argument_error("--confirm required when not running interactively"@))
        } else {
            match ctx.spec_api_client(Seq::<char>::empty()) {
                Err(e) => Err(e),
                Ok(client) => if !self.confirm {
                    Ok(
                        ProgressView::Pending {
                            effect: EffectView::Confirm {
                                text: CmdOrganizationDelete::question(self.organization),
                                expected: self.organization,
                            },
                            stage: StageView::Confirmation {
                                client,
                                organization: self.organization,
                            },
                        },
                    )
                } else {
                    Ok(CmdOrganizationDelete::spec_send(client, self.organization))
                },
            }
        }
    }
}

impl CmdOrganizationDelete {
    /// Reads `organization delete` from `args` after position `start`.
    pub fn from_args(args: &Vec<String>, start: usize) -> (r: Result<(SubCommand, bool), Error>)
        ensures
            leaf_view(r) == DeleteView::spec_from_args(words(args@), start as int),
    {
        let mut table: Vec<Flag> = Vec::new();
        table.push(flag("confirm", None, false));
        table.push(debug_switch());
        assert(table_view(table@) =~= DeleteView::table());
        let found = match parse_options(&table, args, start) {
            Ok(found) => found,
            Err(e) => {
                return Err(e);
            },
        };
        let organization = match take_one_positional(&found, "organization") {
            Ok(organization) => organization,
            Err(e) => {
                return Err(e);
            },
        };
        let confirm = is_given(&found, 0);
        let debug = is_given(&found, 1);
        Ok((SubCommand::Delete(CmdOrganizationDelete { organization, confirm }), debug))
    }

    /// The question that asks to confirm the deletion of `organization`.
    pub open spec fn question(organization: Seq<char>) -> Seq<char> {
        "Type "@ + organization + " to confirm deletion:"@
    }

    /// The step that sends the request to delete `organization`.
    pub open spec fn spec_send(client: ClientView, organization: Seq<char>) -> ProgressView {
        ProgressView::Pending {
            effect: EffectView::Call {
                client,
                request: RequestView::Delete { name: organization },
                json: false,
            },
            stage: StageView::Deleted { organization },
        }
    }

    /// `input` confirms the deletion of `organization`: without the white
    /// space around it, it is the organization's name.
    pub open spec fn confirms(input: Seq<char>, organization: Seq<char>) -> bool {
        trimmed(input) == organization
    }

    /// The step after the confirmation was asked for: the request is sent
    /// only if the answer confirms the deletion.
    pub open spec fn spec_confirmed(
        client: ClientView,
        organization: Seq<char>,
        outcome: Outcome,
    ) -> Result<ProgressView, ErrorView> {
        match outcome {
            Outcome::Input(answer) => if Self::confirms(answer@, organization) {
                Ok(Self::spec_send(client, organization))
            } else {
                Err(command_error("mismatched confirmation"@))
            },
            Outcome::Failed(reason) => Err(prompt_failed(reason@)),
            _ => Err(unexpected_outcome()),
        }
    }

    /// The line that reports the deletion of `organization`.
    pub open spec fn deleted_line(cs: ColorScheme, organization: Seq<char>) -> Seq<char> {
        cs.styled(Paint::Red, check_mark()) + " Deleted organization "@ + organization + "\n"@
    }

    fn send(client: Client, organization: String) -> (p: Progress)
        ensures
            p@ == Self::spec_send(client@, organization@),
    {
        let stage = Stage::Deleted { organization: organization.clone() };
        Progress::Pending {
            effect: Effect::Call {
                client,
                request: Request::Delete { name: organization },
                json: false,
            },
            stage,
        }
    }

    /// Whether `input` confirms the deletion of `organization`.
    pub fn confirmation_matches(input: &str, organization: &str) -> (b: bool)
        ensures
            b == Self::confirms(input@, organization@),
    {
        let answer = trim(input);
        str_eq(answer.as_str(), organization)
    }

    /// Begins the deletion. Nothing is written.
    pub fn run(&self, ctx: &mut Context) -> (r: Result<Progress, Error>)
        ensures
            step_view(r) == self@.spec_run(old(ctx)),
            unchanged(old(ctx), final(ctx)),
    {
        if !ctx.io.can_prompt() && !self.confirm {
            return Err(Error::argument("--confirm required when not running interactively"));
        }
        proof {
            reveal_strlit("");
            assert(""@ =~= Seq::<char>::empty());
        }
        let client = match ctx.api_client("") {
            Ok(client) => client,
            Err(e) => {
                return Err(e);
            },
        };
        if !self.confirm {
            let mut text = String::from_str("Type ");
            text.append(self.organization.as_str());
            text.append(" to confirm deletion:");
            return Ok(
                Progress::Pending {
                    effect: Effect::Confirm { text, expected: self.organization.clone() },
                    stage: Stage::Confirmation { client, organization: self.organization.clone() },
                },
            );
        }
        Ok(Self::send(client, self.organization.clone()))
    }

    /// Goes on after the confirmation was asked for. Nothing is written.
    pub fn confirmed(
        ctx: &mut Context,
        client: Client,
        organization: String,
        outcome: Outcome,
    ) -> (r: Result<Progress, Error>)
        ensures
            step_view(r) == Self::spec_confirmed(client@, organization@, outcome),
            unchanged(old(ctx), final(ctx)),
    {
        match outcome {
            Outcome::Input(answer) => {
                if Self::confirmation_matches(answer.as_str(), organization.as_str()) {
                    Ok(Self::send(client, organization))
                } else {
                    Err(Error::command("mismatched confirmation"))
                }
            },
            Outcome::Failed(reason) => Err(prompt_failure(reason.as_str())),
            _ => Err(unexpected()),
        }
    }

    /// Ends the deletion: reports it on standard output once the request
    /// has succeeded, and writes nothing otherwise.
    pub fn deleted(ctx: &mut Context, organization: String, outcome: Outcome) -> (r: Result<
        Progress,
        Error,
    >)
        ensures
            reported(
                outcome,
                old(ctx),
                final(ctx),
                r,
                Self::deleted_line(old(ctx).color_scheme_spec(), organization@),
            ),
    {
        match outcome {
            Outcome::Done => {
                let cs = ctx.color_scheme();
                let mut line = cs.success_icon_with_color(Paint::Red);
                line.append(" Deleted organization ");
                line.append(organization.as_str());
                line.append("\n");
                ctx.io.print(line.as_str());
                Ok(Progress::Finished(0))
            },
            Outcome::Failed(reason) => Err(Error::command(reason.as_str())),
            _ => Err(unexpected()),
        }
    }
}

/// Edit organization settings.
#[derive(Clone, Debug)]
pub struct CmdOrganizationEdit {
    /// The organization to edit.
    pub organization: String,
    /// The new name for the organization.
    pub new_name: Option<String>,
    /// The new description for the organization.
    pub new_description: Option<String>,
}

/// The characters of a [`CmdOrganizationEdit`].
pub struct EditView {
    pub organization: Seq<char>,
    pub new_name: Option<Seq<char>>,
    pub new_description: Option<Seq<char>>,
}

impl View for CmdOrganizationEdit {
    type V = EditView;

    open spec fn view(&self) -> EditView {
        EditView {
            organization: self.organization@,
            new_name: opt_view(self.new_name),
            new_description: opt_view(self.new_description),
        }
    }
}

impl EditView {
    /// The options of `organization edit`: `--name`, `-n` and
    /// `--description`, `-D`.
    pub open spec fn table() -> Seq<FlagView> {
        seq![valued("name"@, Some('n')), valued("description"@, Some('D')), debug_flag()]
    }

    /// `organization edit <organization> [--name <name>]
    /// [--description <text>]`, read from `args` after position `start`.
    pub open spec fn spec_from_args(args: Seq<Seq<char>>, start: int) -> Result<
        (SubCommandView, bool),
        ErrorView,
    > {
        match parse_from(Self::table(), args, start, no_matches(3)) {
            Err(e) => Err(e),
            Ok(found) => match one_positional(found, "organization"@) {
                Err(e) => Err(e),
                Ok(organization) => Ok(
                    (
                        SubCommandView::Edit(
                            EditView {
                                organization,
                                new_name: found.values[0],
                                new_description: found.values[1],
                            },
                        ),
                        found.values[2] is Some,
                    ),
                ),
            },
        }
    }

    /// The first step. There must be something to change; what is not
    /// changed is sent empty.
    pub open spec fn spec_run(&self, ctx: &Context) -> Result<ProgressView, ErrorView> {
        if self.new_name is None && self.new_description is None {
            Err(argument_error("nothing to edit"@))
        } else {
            match ctx.spec_api_client(Seq::<char>::empty()) {
                Err(e) => Err(e),
                Ok(client) => Ok(
                    ProgressView::Pending {
                        effect: EffectView::Call {
                            client,
                            request: RequestView::Update {
                                organization: self.organization,
                                name: text_or_empty(self.new_name),
                                description: text_or_empty(self.new_description),
                            },
                            json: false,
                        },
                        stage: StageView::Edited {
                            organization: self.organization,
                            new_name: self.new_name,
                        },
                    },
                ),
            }
        }
    }
}

impl CmdOrganizationEdit {
    /// Reads `organization edit` from `args` after position `start`.
    pub fn from_args(args: &Vec<String>, start: usize) -> (r: Result<(SubCommand, bool), Error>)
        ensures
            leaf_view(r) == EditView::spec_from_args(words(args@), start as int),
    {
        let mut table: Vec<Flag> = Vec::new();
        table.push(flag("name", Some('n'), true));
        table.push(flag("description", Some('D'), true));
        table.push(debug_switch());
        assert(table_view(table@) =~= EditView::table());
        let found = match parse_options(&table, args, start) {
            Ok(found) => found,
            Err(e) => {
                return Err(e);
            },
        };
        let organization = match take_one_positional(&found, "organization") {
            Ok(organization) => organization,
            Err(e) => {
                return Err(e);
            },
        };
        let new_name = value_of(&found, 0);
        let new_description = value_of(&found, 1);
        let debug = is_given(&found, 2);
        Ok(
            (
                SubCommand::Edit(CmdOrganizationEdit { organization, new_name, new_description }),
                debug,
            ),
        )
    }

    /// The line that reports the change of `organization`, with the new
    /// name where there is one.
    pub open spec fn edited_line(
        cs: ColorScheme,
        organization: Seq<char>,
        new_name: Option<String>,
    ) -> Seq<char> {
        match new_name {
            Some(n) => cs.styled(Paint::Green, check_mark())
                + " Successfully edited organization "@ + organization + " -> "@ + n@ + "\n"@,
            None => cs.styled(Paint::Green, check_mark()) + " Successfully edited organization "@
                + organization + "\n"@,
        }
    }

    /// Begins the change. Nothing is written.
    pub fn run(&self, ctx: &mut Context) -> (r: Result<Progress, Error>)
        ensures
            step_view(r) == self@.spec_run(old(ctx)),
            unchanged(old(ctx), final(ctx)),
    {
        if self.new_name.is_none() && self.new_description.is_none() {
            return Err(Error::argument("nothing to edit"));
        }
        proof {
            reveal_strlit("");
            assert(""@ =~= Seq::<char>::empty());
        }
        let client = match ctx.api_client("") {
            Ok(client) => client,
            Err(e) => {
                return Err(e);
            },
        };
        let new_name = match &self.new_name {
            Some(n) => Some(n.clone()),
            None => None,
        };
        Ok(
            Progress::Pending {
                effect: Effect::Call {
                    client,
                    request: Request::Update {
                        organization: self.organization.clone(),
                        name: clone_or_empty(&self.new_name),
                        description: clone_or_empty(&self.new_description),
                    },
                    json: false,
                },
                stage: Stage::Edited { organization: self.organization.clone(), new_name },
            },
        )
    }

    /// Ends the change: reports it on standard output once the request has
    /// succeeded, and writes nothing otherwise.
    pub fn edited(
        ctx: &mut Context,
        organization: String,
        new_name: Option<String>,
        outcome: Outcome,
    ) -> (r: Result<Progress, Error>)
        ensures
            reported(
                outcome,
                old(ctx),
                final(ctx),
                r,
                Self::edited_line(old(ctx).color_scheme_spec(), organization@, new_name),
            ),
    {
        match outcome {
            Outcome::Done => {
                let cs = ctx.color_scheme();
                let mut line = cs.success_icon();
                line.append(" Successfully edited organization ");
                line.append(organization.as_str());
                match &new_name {
                    Some(n) => {
                        line.append(" -> ");
                        line.append(n.as_str());
                    },
                    None => {},
                }
                line.append("\n");
                ctx.io.print(line.as_str());
                Ok(Progress::Finished(0))
            },
            Outcome::Failed(reason) => Err(Error::command(reason.as_str())),
            _ => Err(unexpected()),
        }
    }
}

/// `text` followed by a line that holds `label` and `value`.
pub open spec fn with_field(text: Seq<char>, label: Seq<char>, value: Seq<char>) -> Seq<char> {
    text + label + value + "\n"@
}

fn push_field(text: &mut String, label: &str, value: &str)
    ensures
        final(text)@ == with_field(old(text)@, label@, value@),
{
    text.append(label);
    text.append(value);
    text.append("\n");
}

/// The error for a table that could not be laid out.
pub open spec fn layout_failed() -> ErrorView {
    command_error("the table could not be laid out"@)
}

/// Ends a command with the table that was laid out for it: the table and a
/// line break go to standard output. Without a table the command fails and
/// nothing is written.
pub fn print_table(ctx: &mut Context, table: Option<String>) -> (r: Result<Progress, Error>)
    ensures
        match table {
            Some(t) => step_view(r) == Ok::<ProgressView, ErrorView>(ProgressView::Finished(0))
                && printed(old(ctx), final(ctx), t@ + "\n"@),
            None => step_view(r) == Err::<ProgressView, ErrorView>(layout_failed()) && unchanged(
                old(ctx),
                final(ctx),
            ),
        },
{
    match table {
        Some(t) => {
            let mut text = t;
            text.append("\n");
            ctx.io.print(text.as_str());
            Ok(Progress::Finished(0))
        },
        None => Err(Error::command("the table could not be laid out")),
    }
}

/// Ends a command with the JSON text that was rendered for it: the text
/// and a line break go to standard output.
pub fn print_json(ctx: &mut Context, json: String) -> (p: Progress)
    ensures
        p@ == ProgressView::Finished(0),
        printed(old(ctx), final(ctx), json@ + "\n"@),
{
    let mut text = json;
    text.append("\n");
    ctx.io.print(text.as_str());
    Progress::Finished(0)
}

/// What `listed` and `viewed` ensure for an outcome that holds a table's
/// data: either the table, laid out, went to standard output, or the
/// layout failed and nothing was written.
pub open spec fn table_step(
    before: &Context,
    after: &Context,
    r: Result<Progress, Error>,
    source: Seq<char>,
) -> bool {
    ||| step_view(r) == Ok::<ProgressView, ErrorView>(ProgressView::Finished(0)) && printed(
        before,
        after,
        tab_layout(source) + "\n"@,
    )
    ||| step_view(r) == Err::<ProgressView, ErrorView>(layout_failed()) && unchanged(before, after)
}

/// List organizations.
///
/// With `paginate`, all pages of results are requested, one after the
/// other, until there are no more.
#[derive(Clone, Debug)]
pub struct CmdOrganizationList {
    /// Maximum number of organizations to list.
    pub limit: u32,
    /// Make additional requests to fetch all pages of organizations.
    pub paginate: bool,
    /// Output JSON.
    pub json: bool,
}

/// What a [`CmdOrganizationList`] holds.
pub struct ListView {
    pub limit: u32,
    pub paginate: bool,
    pub json: bool,
}

impl View for CmdOrganizationList {
    type V = ListView;

    open spec fn view(&self) -> ListView {
        ListView {
            limit: self.limit,
            paginate: self.paginate,
            json: self.json,
        }
    }
}

/// The number of organizations that are listed when no limit is given.
pub const DEFAULT_LIMIT: u32 = 30;

/// The error for a limit that is no number.
pub open spec fn invalid_limit(value: Seq<char>) -> ErrorView {
    about("invalid value '"@, value, "' for '--limit'"@)
}

impl ListView {
    /// The options of `organization list`: `--limit`, `-l`, `--paginate`
    /// and `--json`.
    pub open spec fn table() -> Seq<FlagView> {
        seq![
            valued("limit"@, Some('l')),
            switch("paginate"@, None),
            switch("json"@, None),
            debug_flag(),
        ]
    }

    /// The limit that the value of `--limit` stands for.
    pub open spec fn limit_of(value: Option<Seq<char>>) -> Result<u32, ErrorView> {
        match value {
            None => Ok(DEFAULT_LIMIT),
            Some(v) => match u32_of(v) {
                Some(n) => Ok(n),
                None => Err(invalid_limit(v)),
            },
        }
    }

    /// `organization list [--limit <number>] [--paginate] [--json]`, read
    /// from `args` after position `start`.
    pub open spec fn spec_from_args(args: Seq<Seq<char>>, start: int) -> Result<
        (SubCommandView, bool),
        ErrorView,
    > {
        match parse_from(Self::table(), args, start, no_matches(4)) {
            Err(e) => Err(e),
            Ok(found) => match no_positional(found) {
                Some(e) => Err(e),
                None => match Self::limit_of(found.values[0]) {
                    Err(e) => Err(e),
                    Ok(limit) => Ok(
                        (
                            SubCommandView::List(
                                ListView {
                                    limit,
                                    paginate: found.values[1] is Some,
                                    json: found.values[2] is Some,
                                },
                            ),
                            found.values[3] is Some,
                        ),
                    ),
                },
            },
        }
    }

    /// The request for the organizations: all of them with `paginate`,
    /// else one page of at most `limit`.
    pub open spec fn spec_request(&self) -> RequestView {
        if self.paginate {
            RequestView::ListAll
        } else {
            RequestView::ListPage { limit: self.limit }
        }
    }

    /// The first step. A limit of zero is refused before any request.
    pub open spec fn spec_run(&self, ctx: &Context) -> Result<ProgressView, ErrorView> {
        if self.limit < 1 {
            Err(argument_error("--limit must be greater than 0"@))
        } else {
            match ctx.spec_api_client(Seq::<char>::empty()) {
                Err(e) => Err(e),
                Ok(client) => Ok(
                    ProgressView::Pending {
                        effect: EffectView::Call {
                            client,
                            request: self.spec_request(),
                            json: self.json,
                        },
                        stage: StageView::Listed { json: self.json },
                    },
                ),
            }
        }
    }
}

impl CmdOrganizationList {
    /// Reads `organization list` from `args` after position `start`.
    pub fn from_args(args: &Vec<String>, start: usize) -> (r: Result<(SubCommand, bool), Error>)
        ensures
            leaf_view(r) == ListView::spec_from_args(words(args@), start as int),
    {
        let mut table: Vec<Flag> = Vec::new();
        table.push(flag("limit", Some('l'), true));
        table.push(flag("paginate", None, false));
        table.push(flag("json", None, false));
        table.push(debug_switch());
        assert(table_view(table@) =~= ListView::table());
        let found = match parse_options(&table, args, start) {
            Ok(found) => found,
            Err(e) => {
                return Err(e);
            },
        };
        match refuse_positionals(&found) {
            Ok(_) => {},
            Err(e) => {
                return Err(e);
            },
        }
        let limit: u32 = match value_of(&found, 0) {
            None => DEFAULT_LIMIT,
            Some(v) => match parse_u32(v.as_str()) {
                Some(n) => n,
                None => {
                    return Err(error_about("invalid value '", v.as_str(), "' for '--limit'"));
                },
            },
        };
        let paginate = is_given(&found, 1);
        let json = is_given(&found, 2);
        let debug = is_given(&found, 3);
        Ok((SubCommand::List(CmdOrganizationList { limit, paginate, json }), debug))
    }

    /// When `organization` last changed: when it was modified, or else
    /// when it was created.
    pub open spec fn last_change(organization: Organization) -> Option<Timestamp> {
        match organization.time_modified {
            Some(t) => Some(t),
            None => organization.time_created,
        }
    }

    /// The words for the last change of `organization` as seen at `now`;
    /// none where no time is known.
    pub open spec fn updated(organization: Organization, now: Timestamp) -> Seq<char> {
        match Self::last_change(organization) {
            Some(t) => human_time(t.spec_seconds_since(&now)),
            None => Seq::<char>::empty(),
        }
    }

    /// The table's line for `organization`, last changed `updated`.
    pub open spec fn row(cs: ColorScheme, organization: Organization, updated: Seq<char>) -> Seq<
        char,
    > {
        cs.styled(Paint::Bold, organization.name@) + "\t"@ + organization.description@ + "\t"@
            + cs.styled(Paint::Fixed(242), updated) + "\n"@
    }

    /// The table's lines for `list`, in order.
    pub open spec fn rows(cs: ColorScheme, list: Seq<Organization>, now: Timestamp) -> Seq<char>
        decreases list.len(),
    {
        if list.len() == 0 {
            Seq::<char>::empty()
        } else {
            Self::rows(cs, list.drop_last(), now) + Self::row(
                cs,
                list.last(),
                Self::updated(list.last(), now),
            )
        }
    }

    /// The headings of the table.
    pub open spec fn header() -> Seq<char> {
        "NAME\tDESCRTIPTION\tUPDATED\n"@
    }

    /// The table for `list` before it is laid out: cells end in tabs.
    pub open spec fn table(cs: ColorScheme, list: Seq<Organization>, now: Timestamp) -> Seq<char> {
        Self::header() + Self::rows(cs, list, now)
    }

    /// Begins the listing. Nothing is written.
    pub fn run(&self, ctx: &mut Context) -> (r: Result<Progress, Error>)
        ensures
            step_view(r) == self@.spec_run(old(ctx)),
            unchanged(old(ctx), final(ctx)),
    {
        if self.limit < 1 {
            return Err(Error::argument("--limit must be greater than 0"));
        }
        proof {
            reveal_strlit("");
            assert(""@ =~= Seq::<char>::empty());
        }
        let client = match ctx.api_client("") {
            Ok(client) => client,
            Err(e) => {
                return Err(e);
            },
        };
        let request = if self.paginate {
            Request::ListAll
        } else {
            Request::ListPage { limit: self.limit }
        };
        Ok(
            Progress::Pending {
                effect: Effect::Call { client, request, json: self.json },
                stage: Stage::Listed { json: self.json },
            },
        )
    }

    /// The table's line for `organization`, given the words for its last
    /// change.
    pub fn list_row(cs: &ColorScheme, organization: &Organization, updated: &str) -> (line: String)
        ensures
            line@ == Self::row(*cs, *organization, updated@),
    {
        let mut line = cs.bold(organization.name.as_str());
        line.append("\t");
        line.append(organization.description.as_str());
        line.append("\t");
        let age = cs.gray(updated);
        line.append(age.as_str());
        line.append("\n");
        line
    }

    /// The words for the last change of `organization` as seen at `now`.
    fn updated_words(organization: &Organization, now: &Timestamp) -> (words: String)
        ensures
            words@ == Self::updated(*organization, *now),
    {
        let changed = match organization.time_modified {
            Some(t) => Some(t),
            None => organization.time_created,
        };
        match changed {
            Some(t) => humanize(t.seconds_since(now)),
            None => String::new(),
        }
    }

    /// The table for `list` before it is laid out.
    fn table_source(cs: &ColorScheme, list: &Vec<Organization>, now: &Timestamp) -> (text: String)
        ensures
            text@ == Self::table(*cs, list@, *now),
    {
        let mut text = String::from_str("NAME\tDESCRTIPTION\tUPDATED\n");
        let mut i: usize = 0;
        while i < list.len()
            invariant
                i <= list@.len(),
                text@ == Self::header() + Self::rows(*cs, list@.take(i as int), *now),
            decreases list@.len() - i,
        {
            let words = Self::updated_words(&list[i], now);
            let line = Self::list_row(cs, &list[i], words.as_str());
            proof {
                let next = list@.take(i + 1);
                assert(next.drop_last() =~= list@.take(i as int));
                assert(next.last() == list@[i as int]);
                assert(Self::header() + Self::rows(*cs, list@.take(i as int), *now) + line@
                    =~= Self::header() + (Self::rows(*cs, list@.take(i as int), *now) + line@));
            }
            text.append(line.as_str());
            i = i + 1;
        }
        proof {
            assert(list@.take(list@.len() as int) =~= list@);
        }
        text
    }

    /// What the last step of the listing does with `outcome`.
    pub open spec fn listed_step(
        json: bool,
        outcome: Outcome,
        before: &Context,
        after: &Context,
        r: Result<Progress, Error>,
    ) -> bool {
        match outcome {
            Outcome::Rendered(text) if json => step_view(r) == Ok::<ProgressView, ErrorView>(
                ProgressView::Finished(0),
            ) && printed(before, after, text@ + "\n"@),
            Outcome::Organizations { list, now } if !json => table_step(
                before,
                after,
                r,
                Self::table(before.color_scheme_spec(), list@, now),
            ),
            Outcome::Failed(reason) => step_view(r) == Err::<ProgressView, ErrorView>(
                command_error(reason@),
            ) && unchanged(before, after),
            _ => step_view(r) == Err::<ProgressView, ErrorView>(unexpected_outcome())
                && unchanged(before, after),
        }
    }

    /// Ends the listing. With `json` the rendered text goes to standard
    /// output; else the table of the organizations does, laid out. An
    /// outcome of another kind is an error, and nothing is written then.
    pub fn listed(ctx: &mut Context, json: bool, outcome: Outcome) -> (r: Result<Progress, Error>)
        ensures
            Self::listed_step(json, outcome, old(ctx), final(ctx), r),
    {
        match outcome {
            Outcome::Rendered(text) => {
                if json {
                    Ok(print_json(ctx, text))
                } else {
                    Err(unexpected())
                }
            },
            Outcome::Organizations { list, now } => {
                if json {
                    Err(unexpected())
                } else {
                    let cs = ctx.color_scheme();
                    let source = Self::table_source(&cs, &list, &now);
                    let table = align(source.as_str());
                    print_table(ctx, table)
                }
            },
            Outcome::Failed(reason) => Err(Error::command(reason.as_str())),
            _ => Err(unexpected()),
        }
    }
}

/// View an organization.
///
/// Shows the description and other information of an organization. With
/// `web`, the organization is opened in a web browser instead.
#[derive(Clone, Debug)]
pub struct CmdOrganizationView {
    /// The organization to view.
    pub organization: String,
    /// Open the organization in the browser.
    pub web: bool,
    /// Output JSON.
    pub json: bool,
}

/// The characters of a [`CmdOrganizationView`].
pub struct ViewView {
    pub organization: Seq<char>,
    pub web: bool,
    pub json: bool,
}

impl View for CmdOrganizationView {
    type V = ViewView;

    open spec fn view(&self) -> ViewView {
        ViewView {
            organization: self.organization@,
            web: self.web,
            json: self.json,
        }
    }
}

impl ViewView {
    /// The options of `organization view`: `--web`, `-w` and `--json`.
    pub open spec fn table() -> Seq<FlagView> {
        seq![switch("web"@, Some('w')), switch("json"@, None), debug_flag()]
    }

    /// `organization view <organization> [--web] [--json]`, read from
    /// `args` after position `start`.
    pub open spec fn spec_from_args(args: Seq<Seq<char>>, start: int) -> Result<
        (SubCommandView, bool),
        ErrorView,
    > {
        match parse_from(Self::table(), args, start, no_matches(3)) {
            Err(e) => Err(e),
            Ok(found) => match one_positional(found, "organization"@) {
                Err(e) => Err(e),
                Ok(organization) => Ok(
                    (
                        SubCommandView::View(
                            ViewView {
                                organization,
                                web: found.values[0] is Some,
                                json: found.values[1] is Some,
                            },
                        ),
                        found.values[2] is Some,
                    ),
                ),
            },
        }
    }

    /// The first step: with `web` the browser is asked to open the
    /// organization on the default host, else the organization is
    /// requested.
    pub open spec fn spec_run(&self, ctx: &Context) -> Result<ProgressView, ErrorView> {
        if self.web {
            match layered_get(ctx.config.env.vars@, ctx.config.config.settings@, "host"@) {
                None => Err(config_error("no host is configured"@)),
                Some(host) => Ok(
                    ProgressView::Pending {
                        effect: EffectView::Browse { url: CmdOrganizationView::url(host, self.organization) },
                        stage: StageView::Browsed,
                    },
                ),
            }
        } else {
            match ctx.spec_api_client(Seq::<char>::empty()) {
                Err(e) => Err(e),
                Ok(client) => Ok(
                    ProgressView::Pending {
                        effect: EffectView::Call {
                            client,
                            request: RequestView::View { name: self.organization },
                            json: self.json,
                        },
                        stage: StageView::Viewed { json: self.json },
                    },
                ),
            }
        }
    }
}

impl CmdOrganizationView {
    /// Reads `organization view` from `args` after position `start`.
    pub fn from_args(args: &Vec<String>, start: usize) -> (r: Result<(SubCommand, bool), Error>)
        ensures
            leaf_view(r) == ViewView::spec_from_args(words(args@), start as int),
    {
        let mut table: Vec<Flag> = Vec::new();
        table.push(flag("web", Some('w'), false));
        table.push(flag("json", None, false));
        table.push(debug_switch());
        assert(table_view(table@) =~= ViewView::table());
        let found = match parse_options(&table, args, start) {
            Ok(found) => found,
            Err(e) => {
                return Err(e);
            },
        };
        let organization = match take_one_positional(&found, "organization") {
            Ok(organization) => organization,
            Err(e) => {
                return Err(e);
            },
        };
        let web = is_given(&found, 0);
        let json = is_given(&found, 1);
        let debug = is_given(&found, 2);
        Ok((SubCommand::View(CmdOrganizationView { organization, web, json }), debug))
    }

    /// The address of `organization` on `host`.
    pub open spec fn url(host: Seq<char>, organization: Seq<char>) -> Seq<char> {
        "https://"@ + host + "/"@ + organization + "/"@ + organization
    }

    /// `text` followed by a line with `label` and the words for the span
    /// from `time` to `now`, where there is a time.
    pub open spec fn with_time(
        text: Seq<char>,
        label: Seq<char>,
        time: Option<Timestamp>,
        now: Timestamp,
    ) -> Seq<char> {
        match time {
            Some(t) => with_field(text, label, human_time(now.spec_seconds_since(&t))),
            None => text,
        }
    }

    /// The table for `item` before it is laid out: a line for each of
    /// identifier, name and description, and for each time that is known.
    pub open spec fn table(item: Organization, now: Timestamp) -> Seq<char> {
        Self::with_time(
            Self::with_time(
                with_field(
                    with_field(
                        with_field(Seq::<char>::empty(), "id:\t"@, item.id@),
                        "name:\t"@,
                        item.name@,
                    ),
                    "description:\t"@,
                    item.description@,
                ),
                "created:\t"@,
                item.time_created,
                now,
            ),
            "modified:\t"@,
            item.time_modified,
            now,
        )
    }

    /// Begins the viewing. Nothing is written.
    pub fn run(&self, ctx: &mut Context) -> (r: Result<Progress, Error>)
        ensures
            step_view(r) == self@.spec_run(old(ctx)),
            unchanged(old(ctx), final(ctx)),
    {
        if self.web {
            let host = match ctx.config.default_host() {
                Ok(host) => host,
                Err(e) => {
                    return Err(e);
                },
            };
            let mut url = String::from_str("https://");
            url.append(host.as_str());
            url.append("/");
            url.append(self.organization.as_str());
            url.append("/");
            url.append(self.organization.as_str());
            return Ok(Progress::Pending { effect: Effect::Browse { url }, stage: Stage::Browsed });
        }
        proof {
            reveal_strlit("");
            assert(""@ =~= Seq::<char>::empty());
        }
        let client = match ctx.api_client("") {
            Ok(client) => client,
            Err(e) => {
                return Err(e);
            },
        };
        Ok(
            Progress::Pending {
                effect: Effect::Call {
                    client,
                    request: Request::View { name: self.organization.clone() },
                    json: self.json,
                },
                stage: Stage::Viewed { json: self.json },
            },
        )
    }

    /// Ends the viewing in the browser. Nothing is written.
    pub fn browsed(ctx: &mut Context, outcome: Outcome) -> (r: Result<Progress, Error>)
        ensures
            step_view(r) == ended(outcome),
            unchanged(old(ctx), final(ctx)),
    {
        match outcome {
            Outcome::Done => Ok(Progress::Finished(0)),
            Outcome::Failed(reason) => Err(Error::command(reason.as_str())),
            _ => Err(unexpected()),
        }
    }

    fn push_time(text: &mut String, label: &str, time: Option<Timestamp>, now: &Timestamp)
        ensures
            final(text)@ == Self::with_time(old(text)@, label@, time, *now),
    {
        match time {
            Some(t) => {
                let words = humanize(now.seconds_since(&t));
                push_field(text, label, words.as_str());
            },
            None => {},
        }
    }

    /// The table for `item` before it is laid out.
    fn table_source(item: &Organization, now: &Timestamp) -> (text: String)
        ensures
            text@ == Self::table(*item, *now),
    {
        let mut text = String::new();
        push_field(&mut text, "id:\t", item.id.as_str());
        push_field(&mut text, "name:\t", item.name.as_str());
        push_field(&mut text, "description:\t", item.description.as_str());
        Self::push_time(&mut text, "created:\t", item.time_created, now);
        Self::push_time(&mut text, "modified:\t", item.time_modified, now);
        text
    }

    /// What the last step of the viewing does with `outcome`.
    pub open spec fn viewed_step(
        json: bool,
        outcome: Outcome,
        before: &Context,
        after: &Context,
        r: Result<Progress, Error>,
    ) -> bool {
        match outcome {
            Outcome::Rendered(text) if json => step_view(r) == Ok::<ProgressView, ErrorView>(
                ProgressView::Finished(0),
            ) && printed(before, after, text@ + "\n"@),
            Outcome::Organization { item, now } if !json => table_step(
                before,
                after,
                r,
                Self::table(item, now),
            ),
            Outcome::Failed(reason) => step_view(r) == Err::<ProgressView, ErrorView>(
                command_error(reason@),
            ) && unchanged(before, after),
            _ => step_view(r) == Err::<ProgressView, ErrorView>(unexpected_outcome())
                && unchanged(before, after),
        }
    }

    /// Ends the viewing. With `json` the rendered text goes to standard
    /// output; else the table of the organization does, laid out. An
    /// outcome of another kind is an error, and nothing is written then.
    pub fn viewed(ctx: &mut Context, json: bool, outcome: Outcome) -> (r: Result<Progress, Error>)
        ensures
            Self::viewed_step(json, outcome, old(ctx), final(ctx), r),
    {
        match outcome {
            Outcome::Rendered(text) => {
                if json {
                    Ok(print_json(ctx, text))
                } else {
                    Err(unexpected())
                }
            },
            Outcome::Organization { item, now } => {
                if json {
                    Err(unexpected())
                } else {
                    let source = Self::table_source(&item, &now);
                    let table = align(source.as_str());
                    print_table(ctx, table)
                }
            },
            Outcome::Failed(reason) => Err(Error::command(reason.as_str())),
            _ => Err(unexpected()),
        }
    }
}

/// The commands under `organization`.
#[derive(Clone, Debug)]
pub enum SubCommand {
    Create(CmdOrganizationCreate),
    Delete(CmdOrganizationDelete),
    Edit(CmdOrganizationEdit),
    List(CmdOrganizationList),
    View(CmdOrganizationView),
}

/// The characters of a [`SubCommand`].
pub enum SubCommandView {
    Create(CreateView),
    Delete(DeleteView),
    Edit(EditView),
    List(ListView),
    View(ViewView),
}

impl View for SubCommand {
    type V = SubCommandView;

    open spec fn view(&self) -> SubCommandView {
        match self {
            SubCommand::Create(cmd) => SubCommandView::Create(cmd@),
            SubCommand::Delete(cmd) => SubCommandView::Delete(cmd@),
            SubCommand::Edit(cmd) => SubCommandView::Edit(cmd@),
            SubCommand::List(cmd) => SubCommandView::List(cmd@),
            SubCommand::View(cmd) => SubCommandView::View(cmd@),
        }
    }
}

/// The view of a command read from a command line, with whether
/// `--debug` was given, or of the error in its place.
pub open spec fn leaf_view(r: Result<(SubCommand, bool), Error>) -> Result<
    (SubCommandView, bool),
    ErrorView,
> {
    match r {
        Ok((cmd, debug)) => Ok((cmd@, debug)),
        Err(e) => Err(e@),
    }
}

impl SubCommandView {
    /// The command under `organization` that `args` name from position
    /// `start` on, with whether `--debug` was given.
    pub open spec fn spec_from_args(args: Seq<Seq<char>>, start: int) -> Result<
        (SubCommandView, bool),
        ErrorView,
    > {
        match scan_from(args, start, false) {
            Scan::Fail(e) => Err(e),
            Scan::Command(i, debug) => {
                let leaf = if args[i] == "create"@ {
                    CreateView::spec_from_args(args, i + 1)
                } else if args[i] == "delete"@ {
                    DeleteView::spec_from_args(args, i + 1)
                } else if args[i] == "edit"@ {
                    EditView::spec_from_args(args, i + 1)
                } else if args[i] == "list"@ {
                    ListView::spec_from_args(args, i + 1)
                } else if args[i] == "view"@ {
                    ViewView::spec_from_args(args, i + 1)
                } else {
                    Err(unrecognized_command(args[i]))
                };
                match leaf {
                    Err(e) => Err(e),
                    Ok((cmd, d)) => Ok((cmd, d || debug)),
                }
            },
        }
    }

    /// The first step of the command.
    pub open spec fn spec_run(&self, ctx: &Context) -> Result<ProgressView, ErrorView> {
        match self {
            SubCommandView::Create(cmd) => cmd.spec_run(ctx),
            SubCommandView::Delete(cmd) => cmd.spec_run(ctx),
            SubCommandView::Edit(cmd) => cmd.spec_run(ctx),
            SubCommandView::List(cmd) => cmd.spec_run(ctx),
            SubCommandView::View(cmd) => cmd.spec_run(ctx),
        }
    }
}

/// Create, list, edit, view, and delete organizations.
#[derive(Clone, Debug)]
pub struct CmdOrganization {
    pub subcmd: SubCommand,
}

impl View for CmdOrganization {
    type V = SubCommandView;

    open spec fn view(&self) -> SubCommandView {
        self.subcmd@
    }
}

impl CmdOrganization {
    /// Reads the command under `organization` from `args`, from position
    /// `start` on.
    pub fn from_args(args: &Vec<String>, start: usize) -> (r: Result<(CmdOrganization, bool), Error>)
        ensures
            match SubCommandView::spec_from_args(words(args@), start as int) {
                Ok((cmd, debug)) => r matches Ok((c, d)) && c@ == cmd && d == debug,
                Err(e) => r matches Err(x) && x@ == e,
            },
    {
        let len: usize = args.len();
        let (i, debug) = match scan(args, start) {
            Ok(at) => at,
            Err(e) => {
                return Err(e);
            },
        };
        let name = args[i].as_str();
        assert(words(args@)[i as int] == name@);
        let leaf = if str_eq(name, "create") {
            CmdOrganizationCreate::from_args(args, i + 1)
        } else if str_eq(name, "delete") {
            CmdOrganizationDelete::from_args(args, i + 1)
        } else if str_eq(name, "edit") {
            CmdOrganizationEdit::from_args(args, i + 1)
        } else if str_eq(name, "list") {
            CmdOrganizationList::from_args(args, i + 1)
        } else if str_eq(name, "view") {
            CmdOrganizationView::from_args(args, i + 1)
        } else {
            Err(error_about("unrecognized command '", name, "'"))
        };
        match leaf {
            Ok((subcmd, d)) => Ok((CmdOrganization { subcmd }, d || debug)),
            Err(e) => Err(e),
        }
    }


    /// Begins the command that `subcmd` holds. Nothing is written.
    pub fn run(&self, ctx: &mut Context) -> (r: Result<Progress, Error>)
        ensures
            step_view(r) == self@.spec_run(old(ctx)),
            unchanged(old(ctx), final(ctx)),
    {
        match &self.subcmd {
            SubCommand::Create(cmd) => cmd.run(ctx),
            SubCommand::Delete(cmd) => cmd.run(ctx),
            SubCommand::Edit(cmd) => cmd.run(ctx),
            SubCommand::List(cmd) => cmd.run(ctx),
            SubCommand::View(cmd) => cmd.run(ctx),
        }
    }
}

} // verus!
