//! What a command asks of the shell around it. A command decides; the shell
//! writes, spawns and touches the file system, and reports back what happened.

use crate::session::settings::Color;
use crate::commands::UniError;
use crate::commands::UniErrorView;
use crate::text::owned_views;
use vstd::prelude::*;

verus! {

/// Text for one of the two output streams, written as it stands.
#[derive(Clone, Debug, PartialEq, Eq)]
pub enum Output {
    Stdout(String),
    Stderr(String),
}

/// An `Output` with its text as characters.
pub enum OutputView {
    Stdout(Seq<char>),
    Stderr(Seq<char>),
}

impl View for Output {
    type V = OutputView;

    open spec fn view(&self) -> OutputView {
        match self {
            Output::Stdout(s) => OutputView::Stdout(s@),
            Output::Stderr(s) => OutputView::Stderr(s@),
        }
    }
}

/// The views of a list of outputs.
pub open spec fn output_views(items: Seq<Output>) -> Seq<OutputView> {
    items.map_values(|o: Output| o@)
}

/// The part of the prompt that a colour belongs to.
#[derive(Clone, Copy, Debug, PartialEq, Eq, Structural)]
pub enum PromptPart {
    Path,
    UserName,
    Branch,
}

/// What the shell is to do once a command has decided.
#[derive(Clone, Debug, PartialEq, Eq)]
pub enum Action {
    /// Write these, in order.
    Emit(Vec<Output>),
    /// Leave the loop after this command.
    Quit,
    /// Give a part of the prompt a new colour.
    Recolor { part: PromptPart, color: Color },
    /// Make `target` the working directory.
    ChangeDirectory { target: String },
    /// List the entries of `path`; a kind that is hidden shows as a placeholder.
    ListDirectory { path: String, hide_executables: bool, hide_directories: bool, hide_files: bool },
    /// Remove the directory `preferred` where something exists under that
    /// path, the directory `fallback` otherwise; with what it holds where
    /// `recursive` is set.
    RemoveDirectory { preferred: String, fallback: String, recursive: bool },
    /// Create the directory `path`.
    CreateDirectory { path: String },
    /// Run `program` with `args` on the shell's own streams, with an empty
    /// environment where `clear_env` is set, and wait for it. `name` is the
    /// command that asks.
    Spawn { name: String, program: String, args: Vec<String>, clear_env: bool },
}

/// An `Action` with its text as characters.
pub enum ActionView {
    Emit(Seq<OutputView>),
    Quit,
    Recolor { part: PromptPart, color: Color },
    ChangeDirectory { target: Seq<char> },
    ListDirectory {
        path: Seq<char>,
        hide_executables: bool,
        hide_directories: bool,
        hide_files: bool,
    },
    RemoveDirectory { preferred: Seq<char>, fallback: Seq<char>, recursive: bool },
    CreateDirectory { path: Seq<char> },
    Spawn { name: Seq<char>, program: Seq<char>, args: Seq<Seq<char>>, clear_env: bool },
}

impl View for Action {
    type V = ActionView;

    open spec fn view(&self) -> ActionView {
        match self {
            Action::Emit(items) => ActionView::Emit(output_views(items@)),
            Action::Quit => ActionView::Quit,
            Action::Recolor { part, color } => ActionView::Recolor { part: *part, color: *color },
            Action::ChangeDirectory { target } => ActionView::ChangeDirectory { target: target@ },
            Action::ListDirectory { path, hide_executables, hide_directories, hide_files } =>
                ActionView::ListDirectory {
                    path: path@,
                    hide_executables: *hide_executables,
                    hide_directories: *hide_directories,
                    hide_files: *hide_files,
                },
            Action::RemoveDirectory { preferred, fallback, recursive } =>
                ActionView::RemoveDirectory {
                    preferred: preferred@,
                    fallback: fallback@,
                    recursive: *recursive,
                },
            Action::CreateDirectory { path } => ActionView::CreateDirectory { path: path@ },
            Action::Spawn { name, program, args, clear_env } => ActionView::Spawn {
                name: name@,
                program: program@,
                args: owned_views(args@),
                clear_env: *clear_env,
            },
        }
    }
}

/// What a command comes to: an action for the shell, or an error for the user.
pub open spec fn outcome_view(r: Result<Action, UniError>) -> Result<ActionView, UniErrorView> {
    match r {
        Ok(action) => Ok(action@),
        Err(error) => Err(error@),
    }
}

/// The action that writes one piece of text.
pub fn emit_one(output: Output) -> (action: Action)
    ensures
        action@ == ActionView::Emit(seq![output@]),
{
    let mut items: Vec<Output> = Vec::new();
    items.push(output);
    assert(output_views(items@) =~= seq![output@]);
    Action::Emit(items)
}

} // verus!
