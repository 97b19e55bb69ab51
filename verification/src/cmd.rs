//! The contract between a running command and the caller that performs
//! its outside work.
//!
//! A command never prompts, sends a request or starts a process itself. It
//! hands the caller an [`Effect`] together with the [`Stage`] it has
//! reached; the caller performs the effect and resumes the command with
//! the [`Outcome`].

use crate::api::{Organization, Request, RequestView, Timestamp};
use crate::context::{Client, ClientView, ErrorView};
use crate::error::Error;
use crate::text::words;
use vstd::prelude::*;

verus! {

/// Outside work that a command asks for.
#[derive(Debug)]
pub enum Effect {
    /// Ask the user for a line of text.
    Prompt { text: String },
    /// Ask the user until the answer, without surrounding white space, is
    /// `expected`.
    Confirm { text: String, expected: String },
    /// Send `request` with `client`. With `json` the answer is wanted as
    /// JSON text, else as data.
    Call { client: Client, request: Request, json: bool },
    /// Open `url` in the web browser.
    Browse { url: String },
    /// Run `program` with `args`, wait for it and capture its output.
    Spawn { program: String, args: Vec<String> },
    /// Run the built-in command `command`, whose work is done outside this
    /// library, with `args`.
    Run { command: String, args: Vec<String> },
}

/// The characters of an [`Effect`].
pub enum EffectView {
    Prompt { text: Seq<char> },
    Confirm { text: Seq<char>, expected: Seq<char> },
    Call { client: ClientView, request: RequestView, json: bool },
    Browse { url: Seq<char> },
    Spawn { program: Seq<char>, args: Seq<Seq<char>> },
    Run { command: Seq<char>, args: Seq<Seq<char>> },
}

impl View for Effect {
    type V = EffectView;

    open spec fn view(&self) -> EffectView {
        match self {
            Effect::Prompt { text } => EffectView::Prompt { text: text@ },
            Effect::Confirm { text, expected } => EffectView::Confirm {
                text: text@,
                expected: expected@,
            },
            Effect::Call { client, request, json } => EffectView::Call {
                client: client@,
                request: request@,
                json: *json,
            },
            Effect::Browse { url } => EffectView::Browse { url: url@ },
            Effect::Spawn { program, args } => EffectView::Spawn {
                program: program@,
                args: words(args@),
            },
            Effect::Run { command, args } => EffectView::Run {
                command: command@,
                args: words(args@),
            },
        }
    }
}

/// What came of an [`Effect`].
#[derive(Debug)]
pub enum Outcome {
    /// The user's answer to a prompt.
    Input(String),
    /// The effect was performed and has nothing to report.
    Done,
    /// The organizations that a request returned, and the time at which
    /// they arrived.
    Organizations { list: Vec<Organization>, now: Timestamp },
    /// The organization that a request returned, and the time at which it
    /// arrived.
    Organization { item: Organization, now: Timestamp },
    /// The answer to a request as JSON text.
    Rendered(String),
    /// The spawned process ended: its exit code, unless a signal ended it,
    /// and all it wrote.
    Child { code: Option<i32>, stdout: Vec<u8>, stderr: Vec<u8> },
    /// The effect failed, with the reason.
    Failed(String),
}

/// How far a command has come when it waits for an [`Outcome`].
#[derive(Debug)]
pub enum Stage {
    /// Creating: the name was asked for; `description` is what the command
    /// line gave.
    Name { description: String },
    /// Creating: the description was asked for.
    Description { name: String },
    /// Creating: the request was sent.
    Created { name: String },
    /// Deleting: the confirmation was asked for.
    Confirmation { client: Client, organization: String },
    /// Deleting: the request was sent.
    Deleted { organization: String },
    /// Editing: the request was sent.
    Edited { organization: String, new_name: Option<String> },
    /// Listing: the request was sent.
    Listed { json: bool },
    /// Viewing: the request was sent.
    Viewed { json: bool },
    /// Viewing: the browser was asked to open.
    Browsed,
    /// A shell alias: the shell was spawned.
    Shell,
    /// A built-in command that is run outside this library was started.
    Ran,
}

/// The characters of a [`Stage`].
pub enum StageView {
    Name { description: Seq<char> },
    Description { name: Seq<char> },
    Created { name: Seq<char> },
    Confirmation { client: ClientView, organization: Seq<char> },
    Deleted { organization: Seq<char> },
    Edited { organization: Seq<char>, new_name: Option<Seq<char>> },
    Listed { json: bool },
    Viewed { json: bool },
    Browsed,
    Shell,
    Ran,
}

impl View for Stage {
    type V = StageView;

    open spec fn view(&self) -> StageView {
        match self {
            Stage::Name { description } => StageView::Name { description: description@ },
            Stage::Description { name } => StageView::Description { name: name@ },
            Stage::Created { name } => StageView::Created { name: name@ },
            Stage::Confirmation { client, organization } => StageView::Confirmation {
                client: client@,
                organization: organization@,
            },
            Stage::Deleted { organization } => StageView::Deleted { organization: organization@ },
            Stage::Edited { organization, new_name } => StageView::Edited {
                organization: organization@,
                new_name: match new_name {
                    Some(n) => Some(n@),
                    None => None,
                },
            },
            Stage::Listed { json } => StageView::Listed { json: *json },
            Stage::Viewed { json } => StageView::Viewed { json: *json },
            Stage::Browsed => StageView::Browsed,
            Stage::Shell => StageView::Shell,
            Stage::Ran => StageView::Ran,
        }
    }
}

/// Where a command stands after a step.
#[derive(Debug)]
pub enum Progress {
    /// The command has ended with this exit code.
    Finished(i32),
    /// The command waits at `stage` for the outcome of `effect`.
    Pending { effect: Effect, stage: Stage },
}

/// The characters of a [`Progress`].
pub enum ProgressView {
    Finished(i32),
    Pending { effect: EffectView, stage: StageView },
}

impl View for Progress {
    type V = ProgressView;

    open spec fn view(&self) -> ProgressView {
        match self {
            Progress::Finished(code) => ProgressView::Finished(*code),
            Progress::Pending { effect, stage } => ProgressView::Pending {
                effect: effect@,
                stage: stage@,
            },
        }
    }
}

/// The view of a step's result.
pub open spec fn step_view(r: Result<Progress, Error>) -> Result<ProgressView, ErrorView> {
    match r {
        Ok(p) => Ok(p@),
        Err(e) => Err(e@),
    }
}

} // verus!
