//! The commands that are part of the shell itself.

use crate::commands::action::{
    emit_one, output_views, Action, ActionView, Output, OutputView, PromptPart,
};
use crate::commands::args::{flag_set, ArgInfo};
use crate::commands::{
    infos, lemma_position, position, AsStr, Cmd, CommandInfo, Describe, UniError, UniErrorView,
};
use crate::session::settings::{colored, Color, WithConsoleColor};
use crate::session::{Terminal, TerminalView};
use crate::platform::{absolute_path, is_absolute, may_execute, terminal_rows};
use crate::text::{join2, join3, owned_views, parse_u8, parsed_u8, views};
use vstd::prelude::*;

verus! {

/// Lists the commands.
#[derive(Clone, Copy, Debug, PartialEq, Eq)]
pub struct HelpCommand;

pub const HELP_DESC: &'static str = "display help information, including commands";

pub const HELP_DOCS: &'static str = "
        get a list of all commands that exist.

        flags:
          -b: this will cause it to only display builtin commands.
              without this every file found in the system path will
              also be displayed.
        ";

/// What a listing shows for a command that has no description.
pub const NO_DESCRIPTION: &'static str = "No description";

/// What the registry knows of `help`.
pub open spec fn help_info() -> CommandInfo {
    CommandInfo {
        name: "help"@,
        desc: Some(HELP_DESC@),
        docs: Some(HELP_DOCS@),
        builtin: true,
        location: None,
    }
}

/// The line that `help` shows for a command: its name, a dash, and its
/// description or the placeholder for a command without one.
pub open spec fn help_line(info: CommandInfo) -> Seq<char> {
    info.name + " - "@ + (match info.desc {
        Some(desc) => desc,
        None => NO_DESCRIPTION@,
    }) + "\n"@
}

/// What `help` writes: a line for each command in the order of registration,
/// or for each that is part of the shell where only those are asked for.
pub open spec fn help_lines(commands: Seq<CommandInfo>, only_builtin: bool) -> Seq<OutputView>
    decreases commands.len(),
{
    if commands.len() == 0 {
        Seq::<OutputView>::empty()
    } else {
        let before = help_lines(commands.drop_last(), only_builtin);
        if !only_builtin || commands.last().builtin {
            before.push(OutputView::Stdout(help_line(commands.last())))
        } else {
            before
        }
    }
}

impl Describe for HelpCommand {
    open spec fn info(&self) -> CommandInfo {
        help_info()
    }

    fn name(&self) -> (r: &str) {
        "help"
    }

    fn desc(&self) -> (r: Option<&str>) {
        Some(HELP_DESC)
    }

    fn docs(&self) -> (r: Option<&str>) {
        Some(HELP_DOCS)
    }

    fn is_builtin(&self) -> (r: bool) {
        true
    }

    fn file_location(&self) -> (r: Option<String>) {
        None
    }
}

impl Cmd for HelpCommand {
    open spec fn plan(&self, ctx: TerminalView, args: Seq<Seq<char>>) -> Result<
        ActionView,
        UniErrorView,
    > {
        Ok(ActionView::Emit(help_lines(ctx.commands, flag_set(args).contains('b'))))
    }

    fn execute(&self, ctx: &Terminal, args: Vec<&str>) -> (r: Result<Action, UniError>) {
        let info = ArgInfo::new(&args);
        let show_only_builtins = info.has_flag('b');
        let all = ctx.commands().iter();
        let ghost known = ctx@.commands;
        let mut lines: Vec<Output> = Vec::new();
        let mut i: usize = 0;
        proof {
            ctx.lemma_commands_are_registry();
            assert(known.take(0) =~= Seq::<CommandInfo>::empty());
            assert(output_views(lines@) =~= help_lines(known.take(0), show_only_builtins));
        }
        while i < all.len()
            invariant
                i <= all.len(),
                known == infos(all@),
                output_views(lines@) == help_lines(known.take(i as int), show_only_builtins),
            decreases all.len() - i,
        {
            let command = &all[i];
            let ghost earlier = lines@;
            proof {
                assert(known.take(i as int + 1).drop_last() =~= known.take(i as int));
                assert(known.take(i as int + 1).last() == command.describe());
            }
            if !show_only_builtins || command.is_builtin() {
                let desc = match command.desc() {
                    Some(d) => d,
                    None => NO_DESCRIPTION,
                };
                let mut line = join3(command.name(), " - ", desc);
                line.append("\n");
                lines.push(Output::Stdout(line));
                proof {
                    assert(output_views(lines@) =~= output_views(earlier).push(
                        OutputView::Stdout(help_line(command.describe())),
                    ));
                }
            }
            i += 1;
        }
        proof {
            assert(known.take(i as int) =~= known);
        }
        Ok(Action::Emit(lines))
    }
}

/// Shows what was entered.
#[derive(Clone, Copy, Debug, PartialEq, Eq)]
pub struct HistoryCommand;

pub const HISTORY_DESC: &'static str = "view your command history";

pub const HISTORY_DOCS: &'static str = "
        view your command history. this includes things
        you've entered that aren't commands.
        ";

/// What the registry knows of `history`.
pub open spec fn history_info() -> CommandInfo {
    CommandInfo {
        name: "history"@,
        desc: Some(HISTORY_DESC@),
        docs: Some(HISTORY_DOCS@),
        builtin: true,
        location: None,
    }
}

/// What `history` writes: each line that was entered, oldest first, to the
/// error stream.
pub open spec fn history_lines(history: Seq<Seq<char>>) -> Seq<OutputView> {
    history.map_values(|line: Seq<char>| OutputView::Stderr(line + "\n"@))
}

impl Describe for HistoryCommand {
    open spec fn info(&self) -> CommandInfo {
        history_info()
    }

    fn name(&self) -> (r: &str) {
        "history"
    }

    fn desc(&self) -> (r: Option<&str>) {
        Some(HISTORY_DESC)
    }

    fn docs(&self) -> (r: Option<&str>) {
        Some(HISTORY_DOCS)
    }

    fn is_builtin(&self) -> (r: bool) {
        true
    }

    fn file_location(&self) -> (r: Option<String>) {
        None
    }
}

impl Cmd for HistoryCommand {
    open spec fn plan(&self, ctx: TerminalView, args: Seq<Seq<char>>) -> Result<
        ActionView,
        UniErrorView,
    > {
        Ok(ActionView::Emit(history_lines(ctx.history)))
    }

    fn execute(&self, ctx: &Terminal, args: Vec<&str>) -> (r: Result<Action, UniError>) {
        let entered = ctx.input().history();
        let mut lines: Vec<Output> = Vec::new();
        let mut i: usize = 0;
        proof {
            assert(output_views(lines@) =~= history_lines(ctx@.history).take(0));
        }
        while i < entered.len()
            invariant
                i <= entered.len(),
                owned_views(entered@) == ctx@.history,
                output_views(lines@) == history_lines(ctx@.history).take(i as int),
            decreases entered.len() - i,
        {
            let ghost earlier = lines@;
            let line = join2(entered[i].as_str(), "\n");
            lines.push(Output::Stderr(line));
            proof {
                assert(owned_views(entered@)[i as int] == entered@[i as int]@);
                assert(output_views(lines@) =~= output_views(earlier).push(
                    OutputView::Stderr(line@),
                ));
                assert(output_views(lines@) =~= history_lines(ctx@.history).take(i as int + 1));
            }
            i += 1;
        }
        proof {
            assert(owned_views(entered@).len() == entered@.len());
            assert(history_lines(ctx@.history).take(i as int) =~= history_lines(ctx@.history));
        }
        Ok(Action::Emit(lines))
    }
}

/// Leaves the shell.
#[derive(Clone, Copy, Debug, PartialEq, Eq)]
pub struct ExitCommand;

pub const EXIT_DESC: &'static str = "quit the application safely, saving all configuration";

pub const EXIT_DOCS: &'static str = "
        quits the application after saving all configuration.
        ";

/// What the registry knows of `exit`.
pub open spec fn exit_info() -> CommandInfo {
    CommandInfo {
        name: "exit"@,
        desc: Some(EXIT_DESC@),
        docs: Some(EXIT_DOCS@),
        builtin: true,
        location: None,
    }
}

impl Describe for ExitCommand {
    open spec fn info(&self) -> CommandInfo {
        exit_info()
    }

    fn name(&self) -> (r: &str) {
        "exit"
    }

    fn desc(&self) -> (r: Option<&str>) {
        Some(EXIT_DESC)
    }

    fn docs(&self) -> (r: Option<&str>) {
        Some(EXIT_DOCS)
    }

    fn is_builtin(&self) -> (r: bool) {
        true
    }

    fn file_location(&self) -> (r: Option<String>) {
        None
    }
}

impl Cmd for ExitCommand {
    open spec fn plan(&self, ctx: TerminalView, args: Seq<Seq<char>>) -> Result<
        ActionView,
        UniErrorView,
    > {
        Ok(ActionView::Quit)
    }

    fn execute(&self, ctx: &Terminal, args: Vec<&str>) -> (r: Result<Action, UniError>) {
        Ok(Action::Quit)
    }
}

/// Changes the working directory.
#[derive(Clone, Copy, Debug, PartialEq, Eq)]
pub struct CdCommand;

pub const CD_DESC: &'static str = "change the working directory.";

pub const CD_DOCS: &'static str = "
        change the working directory.

        this command accepts all kinds of directory syntax, such
        as \"../\", and \".\".
        ";

/// What the registry knows of `cd`.
pub open spec fn cd_info() -> CommandInfo {
    CommandInfo {
        name: "cd"@,
        desc: Some(CD_DESC@),
        docs: Some(CD_DOCS@),
        builtin: true,
        location: None,
    }
}

/// What `cd` refuses an empty argument list with.
pub const CD_USAGE: &'static str = "expected at least one argument, got zero.";

impl Describe for CdCommand {
    open spec fn info(&self) -> CommandInfo {
        cd_info()
    }

    fn name(&self) -> (r: &str) {
        "cd"
    }

    fn desc(&self) -> (r: Option<&str>) {
        Some(CD_DESC)
    }

    fn docs(&self) -> (r: Option<&str>) {
        Some(CD_DOCS)
    }

    fn is_builtin(&self) -> (r: bool) {
        true
    }

    fn file_location(&self) -> (r: Option<String>) {
        None
    }
}

impl Cmd for CdCommand {
    /// The first argument is taken below the working directory, and the
    /// shell is asked to go there.
    open spec fn plan(&self, ctx: TerminalView, args: Seq<Seq<char>>) -> Result<
        ActionView,
        UniErrorView,
    > {
        if args.len() < 1 {
            Err(UniErrorView::TooFewArguments(CD_USAGE@))
        } else {
            Ok(ActionView::ChangeDirectory { target: ctx.settings.path + "/"@ + args[0] })
        }
    }

    fn execute(&self, ctx: &Terminal, args: Vec<&str>) -> (r: Result<Action, UniError>) {
        if args.len() < 1 {
            return Err(UniError::TooFewArguments(String::from_str(CD_USAGE)));
        }
        proof {
            assert(views(args@)[0] == args@[0]@);
        }
        let target = join3(ctx.current_path().as_str(), "/", args[0]);
        Ok(Action::ChangeDirectory { target })
    }
}

/// Lists the working directory.
#[derive(Clone, Copy, Debug, PartialEq, Eq)]
pub struct LsCommand;

pub const LS_DESC: &'static str = "list files and directorys in the current directory.";

pub const LS_DOCS: &'static str = "
        list items in the current directory.

        flags:
          -f: enable filtering
            -X: filter out executable files
            -D: filter out directorys
            -F: filter out regular files
        ";

/// What the registry knows of `ls`.
pub open spec fn ls_info() -> CommandInfo {
    CommandInfo {
        name: "ls"@,
        desc: Some(LS_DESC@),
        docs: Some(LS_DOCS@),
        builtin: true,
        location: None,
    }
}

impl Describe for LsCommand {
    open spec fn info(&self) -> CommandInfo {
        ls_info()
    }

    fn name(&self) -> (r: &str) {
        "ls"
    }

    fn desc(&self) -> (r: Option<&str>) {
        Some(LS_DESC)
    }

    fn docs(&self) -> (r: Option<&str>) {
        Some(LS_DOCS)
    }

    fn is_builtin(&self) -> (r: bool) {
        true
    }

    fn file_location(&self) -> (r: Option<String>) {
        None
    }
}

impl Cmd for LsCommand {
    /// The shell is asked for the entries of the working directory. A kind
    /// of entry is hidden where filtering is on and the kind's flag is set.
    open spec fn plan(&self, ctx: TerminalView, args: Seq<Seq<char>>) -> Result<
        ActionView,
        UniErrorView,
    > {
        let flags = flag_set(args);
        Ok(
            ActionView::ListDirectory {
                path: ctx.settings.path,
                hide_executables: flags.contains('f') && flags.contains('X'),
                hide_directories: flags.contains('f') && flags.contains('D'),
                hide_files: flags.contains('f') && flags.contains('F'),
            },
        )
    }

    fn execute(&self, ctx: &Terminal, args: Vec<&str>) -> (r: Result<Action, UniError>) {
        let info = ArgInfo::new(&args);
        let has_filter = info.has_flag('f');
        Ok(
            Action::ListDirectory {
                path: ctx.current_path().clone(),
                hide_executables: has_filter && info.has_flag('X'),
                hide_directories: has_filter && info.has_flag('D'),
                hide_files: has_filter && info.has_flag('F'),
            },
        )
    }
}

/// Shows the manual of a command.
#[derive(Clone, Copy, Debug, PartialEq, Eq)]
pub struct ManCommand;

pub const MAN_DESC: &'static str = "view information about specific commands.";

pub const MAN_DOCS: &'static str = "
        view documentation about certain commands.

        usage: 
          docs <command>
        ";

/// What the registry knows of `man`.
pub open spec fn man_info() -> CommandInfo {
    CommandInfo {
        name: "man"@,
        desc: Some(MAN_DESC@),
        docs: Some(MAN_DOCS@),
        builtin: true,
        location: None,
    }
}

/// What `man` refuses an empty argument list with.
pub const MAN_USAGE: &'static str = "expected the name of a command to show the docs of.";

/// What `man` shows for a command without a manual.
pub const NO_DOCUMENTATION: &'static str = "this command has no documentation.";

/// What `man` writes for a command: a heading with the name asked for, then
/// the manual or the placeholder for a command without one.
pub open spec fn man_page(name: Seq<char>, info: CommandInfo) -> Seq<OutputView> {
    seq![
        OutputView::Stdout("( documentation for "@ + name + " )\n"@),
        OutputView::Stdout(
            (match info.docs {
                Some(docs) => docs,
                None => NO_DOCUMENTATION@,
            }) + "\n"@,
        ),
    ]
}

impl Describe for ManCommand {
    open spec fn info(&self) -> CommandInfo {
        man_info()
    }

    fn name(&self) -> (r: &str) {
        "man"
    }

    fn desc(&self) -> (r: Option<&str>) {
        Some(MAN_DESC)
    }

    fn docs(&self) -> (r: Option<&str>) {
        Some(MAN_DOCS)
    }

    fn is_builtin(&self) -> (r: bool) {
        true
    }

    fn file_location(&self) -> (r: Option<String>) {
        None
    }
}

impl Cmd for ManCommand {
    /// The manual of the first command registered under the first argument.
    open spec fn plan(&self, ctx: TerminalView, args: Seq<Seq<char>>) -> Result<
        ActionView,
        UniErrorView,
    > {
        if args.len() < 1 {
            Err(UniErrorView::TooFewArguments(MAN_USAGE@))
        } else {
            match position(ctx.commands, args[0]) {
                Some(i) => Ok(ActionView::Emit(man_page(args[0], ctx.commands[i]))),
                None => Err(UniErrorView::NotFound(args[0])),
            }
        }
    }

    fn execute(&self, ctx: &Terminal, args: Vec<&str>) -> (r: Result<Action, UniError>) {
        if args.len() < 1 {
            return Err(UniError::TooFewArguments(String::from_str(MAN_USAGE)));
        }
        let name = args[0];
        proof {
            assert(views(args@)[0] == name@);
            ctx.lemma_commands_are_registry();
        }
        match ctx.commands().get(name) {
            Some(command) => {
                let docs = match command.docs() {
                    Some(docs) => docs,
                    None => NO_DOCUMENTATION,
                };
                let mut page: Vec<Output> = Vec::new();
                page.push(Output::Stdout(join3("( documentation for ", name, " )\n")));
                page.push(Output::Stdout(join2(docs, "\n")));
                proof {
                    let i = position(ctx@.commands, name@)->0;
                    lemma_position(ctx@.commands, name@);
                    assert(ctx@.commands[i] == command.describe());
                    assert(output_views(page@) =~= man_page(name@, command.describe()));
                }
                Ok(Action::Emit(page))
            },
            None => Err(UniError::NotFound(String::from_str(name))),
        }
    }
}

/// Removes a directory.
#[derive(Clone, Copy, Debug, PartialEq, Eq)]
pub struct RmDirCommand;

pub const RMDIR_DESC: &'static str = "remove a directory";

pub const RMDIR_DOCS: &'static str = "
        remove a directory

        flags:
          -f: remove all of the folders child files/folders too.
          \"rmdir <folder> -f\"

        NOTE: all flags must proceed the actual arguments.
        ";

/// What the registry knows of `rmdir`.
pub open spec fn rmdir_info() -> CommandInfo {
    CommandInfo {
        name: "rmdir"@,
        desc: Some(RMDIR_DESC@),
        docs: Some(RMDIR_DOCS@),
        builtin: true,
        location: None,
    }
}

/// What `rmdir` refuses an empty argument list with.
pub const RMDIR_USAGE: &'static str = "expected at least one argument: <dir_name>";

/// What the shell writes after it was asked to remove a directory: nothing
/// where that went well, else the system's words behind a line on what failed.
pub open spec fn removal_report(recursive: bool, result: Result<(), Seq<char>>) -> Seq<OutputView> {
    match result {
        Ok(_) => Seq::<OutputView>::empty(),
        Err(reason) => seq![
            OutputView::Stderr(
                (if recursive {
                    "failed to remove folder and its contents: ("@
                } else {
                    "failed to remove folder: ("@
                }) + reason + ")\n"@,
            ),
        ],
    }
}

impl RmDirCommand {
    /// Puts the end of a removal into words. A failure is told, not handed on.
    pub fn report(recursive: bool, result: Result<(), String>) -> (out: Vec<Output>)
        ensures
            output_views(out@) == removal_report(
                recursive,
                match result {
                    Ok(_) => Ok(()),
                    Err(reason) => Err(reason@),
                },
            ),
    {
        let mut out: Vec<Output> = Vec::new();
        match result {
            Ok(_) => {
                assert(output_views(out@) =~= Seq::<OutputView>::empty());
            },
            Err(reason) => {
                let head = if recursive {
                    "failed to remove folder and its contents: ("
                } else {
                    "failed to remove folder: ("
                };
                let line = join3(head, reason.as_str(), ")\n");
                out.push(Output::Stderr(line));
                assert(output_views(out@) =~= seq![OutputView::Stderr(line@)]);
            },
        }
        out
    }
}

impl Describe for RmDirCommand {
    open spec fn info(&self) -> CommandInfo {
        rmdir_info()
    }

    fn name(&self) -> (r: &str) {
        "rmdir"
    }

    fn desc(&self) -> (r: Option<&str>) {
        Some(RMDIR_DESC)
    }

    fn docs(&self) -> (r: Option<&str>) {
        Some(RMDIR_DOCS)
    }

    fn is_builtin(&self) -> (r: bool) {
        true
    }

    fn file_location(&self) -> (r: Option<String>) {
        None
    }
}

impl Cmd for RmDirCommand {
    /// The shell is asked to remove the directory named by the first
    /// argument: as it is written where something exists under that path,
    /// below the working directory otherwise; with its contents where `-f`
    /// is among the arguments.
    open spec fn plan(&self, ctx: TerminalView, args: Seq<Seq<char>>) -> Result<
        ActionView,
        UniErrorView,
    > {
        if args.len() < 1 {
            Err(UniErrorView::TooFewArguments(RMDIR_USAGE@))
        } else {
            Ok(
                ActionView::RemoveDirectory {
                    preferred: args[0],
                    fallback: ctx.settings.path + "/"@ + args[0],
                    recursive: flag_set(args).contains('f'),
                },
            )
        }
    }

    fn execute(&self, ctx: &Terminal, args: Vec<&str>) -> (r: Result<Action, UniError>) {
        if args.len() < 1 {
            return Err(UniError::TooFewArguments(String::from_str(RMDIR_USAGE)));
        }
        proof {
            assert(views(args@)[0] == args@[0]@);
        }
        let info = ArgInfo::new(&args);
        let recursive = info.has_flag('f');
        let preferred = String::from_str(args[0]);
        let fallback = join3(ctx.current_path().as_str(), "/", args[0]);
        Ok(Action::RemoveDirectory { preferred, fallback, recursive })
    }
}

/// Creates a directory.
#[derive(Clone, Copy, Debug, PartialEq, Eq)]
pub struct MkDirCommand;

pub const MKDIR_DESC: &'static str = "create a directory";

pub const MKDIR_DOCS: &'static str = "
        create a directory.

        usage: mkdir <folder_name>
        ";

/// What the registry knows of `mkdir`.
pub open spec fn mkdir_info() -> CommandInfo {
    CommandInfo {
        name: "mkdir"@,
        desc: Some(MKDIR_DESC@),
        docs: Some(MKDIR_DOCS@),
        builtin: true,
        location: None,
    }
}

/// What `mkdir` refuses an empty argument list with.
pub const MKDIR_USAGE: &'static str = "expected at least a directory name argument.";

/// What the shell writes after it was asked to create a directory: nothing
/// where that went well, else the system's words behind a line on what failed.
pub open spec fn creation_report(result: Result<(), Seq<char>>) -> Seq<OutputView> {
    match result {
        Ok(_) => Seq::<OutputView>::empty(),
        Err(reason) => seq![OutputView::Stderr("failed to create directory: "@ + reason + "\n"@)],
    }
}

impl MkDirCommand {
    /// Puts the end of a creation into words. A failure is told, not handed on.
    pub fn report(result: Result<(), String>) -> (out: Vec<Output>)
        ensures
            output_views(out@) == creation_report(
                match result {
                    Ok(_) => Ok(()),
                    Err(reason) => Err(reason@),
                },
            ),
    {
        let mut out: Vec<Output> = Vec::new();
        match result {
            Ok(_) => {
                assert(output_views(out@) =~= Seq::<OutputView>::empty());
            },
            Err(reason) => {
                let line = join3("failed to create directory: ", reason.as_str(), "\n");
                out.push(Output::Stderr(line));
                assert(output_views(out@) =~= seq![OutputView::Stderr(line@)]);
            },
        }
        out
    }

    /// The directory to create for an argument: the argument itself where it
    /// is an absolute path, else the argument below the working directory.
    pub fn target(cwd: &str, wanted: &str, absolute: bool) -> (path: String)
        ensures
            path@ == creation_target(cwd@, wanted@, absolute),
    {
        if absolute {
            String::from_str(wanted)
        } else {
            join3(cwd, "/", wanted)
        }
    }
}

/// The directory to create for an argument: the argument itself where it is
/// an absolute path, else the argument below the working directory.
pub open spec fn creation_target(cwd: Seq<char>, wanted: Seq<char>, absolute: bool) -> Seq<char> {
    if absolute {
        wanted
    } else {
        cwd + "/"@ + wanted
    }
}

impl Describe for MkDirCommand {
    open spec fn info(&self) -> CommandInfo {
        mkdir_info()
    }

    fn name(&self) -> (r: &str) {
        "mkdir"
    }

    fn desc(&self) -> (r: Option<&str>) {
        Some(MKDIR_DESC)
    }

    fn docs(&self) -> (r: Option<&str>) {
        Some(MKDIR_DOCS)
    }

    fn is_builtin(&self) -> (r: bool) {
        true
    }

    fn file_location(&self) -> (r: Option<String>) {
        None
    }
}

impl Cmd for MkDirCommand {
    /// The shell is asked to create the directory named by the first argument.
    open spec fn plan(&self, ctx: TerminalView, args: Seq<Seq<char>>) -> Result<
        ActionView,
        UniErrorView,
    > {
        if args.len() < 1 {
            Err(UniErrorView::TooFewArguments(MKDIR_USAGE@))
        } else {
            Ok(
                ActionView::CreateDirectory {
                    path: creation_target(ctx.settings.path, args[0], absolute_path(args[0])),
                },
            )
        }
    }

    fn execute(&self, ctx: &Terminal, args: Vec<&str>) -> (r: Result<Action, UniError>) {
        if args.len() < 1 {
            return Err(UniError::TooFewArguments(String::from_str(MKDIR_USAGE)));
        }
        proof {
            assert(views(args@)[0] == args@[0]@);
        }
        let absolute = is_absolute(args[0]);
        let path = MkDirCommand::target(ctx.current_path().as_str(), args[0], absolute);
        Ok(Action::CreateDirectory { path })
    }
}

/// Clears the screen.
#[derive(Clone, Copy, Debug, PartialEq, Eq)]
pub struct ClearCommand;

pub const CLEAR_DESC: &'static str = "clear the console buffer";

pub const CLEAR_DOCS: &'static str = "
        clears the console buffer.
        
        very simple command.
        ";

/// What the registry knows of `clear`.
pub open spec fn clear_info() -> CommandInfo {
    CommandInfo {
        name: "clear"@,
        desc: Some(CLEAR_DESC@),
        docs: Some(CLEAR_DOCS@),
        builtin: true,
        location: None,
    }
}

/// The escape sequence that clears the screen.
pub const CLEAR_SCREEN: &'static str = "\x1B[2J";

impl Describe for ClearCommand {
    open spec fn info(&self) -> CommandInfo {
        clear_info()
    }

    fn name(&self) -> (r: &str) {
        "clear"
    }

    fn desc(&self) -> (r: Option<&str>) {
        Some(CLEAR_DESC)
    }

    fn docs(&self) -> (r: Option<&str>) {
        Some(CLEAR_DOCS)
    }

    fn is_builtin(&self) -> (r: bool) {
        true
    }

    fn file_location(&self) -> (r: Option<String>) {
        None
    }
}

impl Cmd for ClearCommand {
    /// The escape sequence that clears the screen, and no line end behind it.
    open spec fn plan(&self, ctx: TerminalView, args: Seq<Seq<char>>) -> Result<
        ActionView,
        UniErrorView,
    > {
        Ok(ActionView::Emit(seq![OutputView::Stdout(CLEAR_SCREEN@)]))
    }

    fn execute(&self, ctx: &Terminal, args: Vec<&str>) -> (r: Result<Action, UniError>) {
        Ok(emit_one(Output::Stdout(String::from_str(CLEAR_SCREEN))))
    }
}

/// Tells where a command is.
#[derive(Clone, Copy, Debug, PartialEq, Eq)]
pub struct WhereCommand;

pub const WHERE_DESC: &'static str = "find the location of a command";

pub const WHERE_DOCS: &'static str = "
        find the location of a command.

        usage: where <name>
        ";

/// What the registry knows of `where`.
pub open spec fn where_info() -> CommandInfo {
    CommandInfo {
        name: "where"@,
        desc: Some(WHERE_DESC@),
        docs: Some(WHERE_DOCS@),
        builtin: true,
        location: None,
    }
}

/// What `where` refuses an empty argument list with.
pub const WHERE_USAGE: &'static str = "where expects at least one argument.";

/// What `where` shows in place of a file for a command of the shell itself.
pub const BUILTIN_LOCATION: &'static str = "this command is builtin";

/// What `where` writes for a name: the file of the first command registered
/// under it, or word that it is part of the shell, or that there is no such
/// command.
pub open spec fn where_line(name: Seq<char>, found: Option<CommandInfo>) -> Seq<char> {
    match found {
        Some(info) => name + ": "@ + (match info.location {
            Some(path) => path,
            None => BUILTIN_LOCATION@,
        }) + "\n"@,
        None => "no such command \""@ + name + "\"\n"@,
    }
}

impl Describe for WhereCommand {
    open spec fn info(&self) -> CommandInfo {
        where_info()
    }

    fn name(&self) -> (r: &str) {
        "where"
    }

    fn desc(&self) -> (r: Option<&str>) {
        Some(WHERE_DESC)
    }

    fn docs(&self) -> (r: Option<&str>) {
        Some(WHERE_DOCS)
    }

    fn is_builtin(&self) -> (r: bool) {
        true
    }

    fn file_location(&self) -> (r: Option<String>) {
        None
    }
}

impl Cmd for WhereCommand {
    /// One line on the first argument; an unknown name is told, not refused.
    open spec fn plan(&self, ctx: TerminalView, args: Seq<Seq<char>>) -> Result<
        ActionView,
        UniErrorView,
    > {
        if args.len() < 1 {
            Err(UniErrorView::TooFewArguments(WHERE_USAGE@))
        } else {
            Ok(
                ActionView::Emit(
                    seq![
                        OutputView::Stdout(
                            where_line(
                                args[0],
                                match position(ctx.commands, args[0]) {
                                    Some(i) => Some(ctx.commands[i]),
                                    None => None,
                                },
                            ),
                        ),
                    ],
                ),
            )
        }
    }

    fn execute(&self, ctx: &Terminal, args: Vec<&str>) -> (r: Result<Action, UniError>) {
        if args.len() < 1 {
            return Err(UniError::TooFewArguments(String::from_str(WHERE_USAGE)));
        }
        let name = args[0];
        proof {
            assert(views(args@)[0] == name@);
            ctx.lemma_commands_are_registry();
            lemma_position(ctx@.commands, name@);
        }
        let line = match ctx.commands().get(name) {
            Some(command) => {
                let path = match command.file_location() {
                    Some(p) => p,
                    None => String::from_str(BUILTIN_LOCATION),
                };
                let mut line = join3(name, ": ", path.as_str());
                line.append("\n");
                line
            },
            None => join3("no such command \"", name, "\"\n"),
        };
        Ok(emit_one(Output::Stdout(line)))
    }
}

/// Why the working directory could not be changed.
#[derive(Clone, Debug, PartialEq, Eq)]
pub enum CdError {
    /// The system refused. Holds its description.
    FailedToSetPath(String),
}

impl AsStr for CdError {
    open spec fn rendered(&self) -> Seq<char> {
        match self {
            CdError::FailedToSetPath(msg) => "failed to set working directory: "@ + msg@,
        }
    }

    fn as_str(&self) -> (s: String) {
        match self {
            CdError::FailedToSetPath(msg) => join2(
                "failed to set working directory: ",
                msg.as_str(),
            ),
        }
    }
}

impl CdError {
    /// The error in the shape that every command's errors share: its words,
    /// carried as a `CommandError`.
    pub fn boxed(self) -> (e: UniError)
        ensures
            e@ == UniErrorView::CommandError(self.rendered()),
    {
        UniError::CommandError(self.as_str())
    }
}

/// Changes the colours of the prompt.
#[derive(Clone, Copy, Debug, PartialEq, Eq)]
pub struct ConfigCommand;

pub const CFG_DESC: &'static str = "edit your configuration";

pub const CFG_DOCS: &'static str = "
        configure your term-rs experience.

        flags:
          -c: This flag tells use you're setting a color config value.
        values:
          -P: You're setting the paths color.
          -U: You're setting the color of your username in the prompt.
          -G: You're setting the color of the github branch (when applicable)

        example:
               R  G B flags
          cfg 255 0 0 -cU <- sets the username color to red.

        NOTE: you cannot set multiple values at a time.
        NOTE: whichever value flag is first will take precedence.
        NOTE: unless you use the \"exit\" command to quit, any changes made
              wont save.
        ";

/// What `cfg` refuses an empty argument list with.
pub const CFG_USAGE: &'static str = "cfg expects at least one argument.";

/// What `cfg` refuses a colour with that names no part of the prompt.
pub const CFG_NO_PART: &'static str = "no recognized color flag. (use \"man cfg\")";

/// What `cfg` refuses a colour with that lacks a component.
pub const CFG_NO_VALUE: &'static str =
    "invalid argument format, expected value for color but got nothing.";

/// What `cfg` writes where no flag asks for anything.
pub const CFG_NO_WORK: &'static str = "no recognized flags, no work to do.\n";

/// What the registry knows of `cfg`.
pub open spec fn cfg_info() -> CommandInfo {
    CommandInfo {
        name: "cfg"@,
        desc: Some(CFG_DESC@),
        docs: Some(CFG_DOCS@),
        builtin: true,
        location: None,
    }
}

/// What a text comes to as a colour component, given what parsing made of it:
/// the number, or a refusal that quotes the text and the parser's words.
pub open spec fn component_from(text: Seq<char>, parsed: Result<u8, Seq<char>>) -> Result<
    u8,
    UniErrorView,
> {
    match parsed {
        Ok(value) => Ok(value),
        Err(reason) => Err(
            UniErrorView::Custom(
                "could not parse \""@ + text + "\" as u8. ("@ + reason + ")"@,
            ),
        ),
    }
}

/// One component of a colour, read from the argument at its place.
pub open spec fn color_component(arg: Option<Seq<char>>) -> Result<u8, UniErrorView> {
    match arg {
        Some(text) => component_from(text, parsed_u8(text)),
        None => Err(UniErrorView::Custom(CFG_NO_VALUE@)),
    }
}

/// The argument at place `i`, where there is one.
pub open spec fn arg_at(args: Seq<Seq<char>>, i: int) -> Option<Seq<char>> {
    if 0 <= i < args.len() {
        Some(args[i])
    } else {
        None
    }
}

/// The part of the prompt that the flags name: the path before the user's
/// name before the branch, where several are set.
pub open spec fn named_part(flags: Set<char>) -> Option<PromptPart> {
    if flags.contains('P') {
        Some(PromptPart::Path)
    } else if flags.contains('U') {
        Some(PromptPart::UserName)
    } else if flags.contains('G') {
        Some(PromptPart::Branch)
    } else {
        None
    }
}

impl ConfigCommand {
    /// Reads a colour component that was parsed already.
    pub fn component(text: &str, parsed: Result<u8, String>) -> (r: Result<u8, UniError>)
        ensures
            match r {
                Ok(v) => Ok(v),
                Err(e) => Err(e@),
            } == component_from(
                text@,
                match parsed {
                    Ok(v) => Ok(v),
                    Err(reason) => Err(reason@),
                },
            ),
    {
        match parsed {
            Ok(value) => Ok(value),
            Err(reason) => {
                let mut msg = join3("could not parse \"", text, "\" as u8. (");
                msg.append(reason.as_str());
                msg.append(")");
                Err(UniError::Custom(msg))
            },
        }
    }

    /// Reads one component of a colour from the argument at its place.
    pub fn parse_color_argument(&self, arg: Option<&&str>) -> (r: Result<u8, UniError>)
        ensures
            match r {
                Ok(v) => Ok(v),
                Err(e) => Err(e@),
            } == color_component(
                match arg {
                    Some(text) => Some(text@),
                    None => None,
                },
            ),
    {
        match arg {
            Some(actual) => {
                let parsed = parse_u8(*actual);
                ConfigCommand::component(*actual, parsed)
            },
            None => Err(UniError::Custom(String::from_str(CFG_NO_VALUE))),
        }
    }
}

/// The argument at place `i`, where there is one.
fn argument<'a, 'b>(args: &'b Vec<&'a str>, i: usize) -> (r: Option<&'b &'a str>)
    ensures
        match r {
            Some(text) => Some(text@),
            None => None,
        } == arg_at(views(args@), i as int),
{
    if i < args.len() {
        proof {
            assert(views(args@)[i as int] == args@[i as int]@);
        }
        Some(&args[i])
    } else {
        None
    }
}

impl Describe for ConfigCommand {
    open spec fn info(&self) -> CommandInfo {
        cfg_info()
    }

    fn name(&self) -> (r: &str) {
        "cfg"
    }

    fn desc(&self) -> (r: Option<&str>) {
        Some(CFG_DESC)
    }

    fn docs(&self) -> (r: Option<&str>) {
        Some(CFG_DOCS)
    }

    fn is_builtin(&self) -> (r: bool) {
        true
    }

    fn file_location(&self) -> (r: Option<String>) {
        None
    }
}

impl Cmd for ConfigCommand {
    /// With `-c`, the part of the prompt that a further flag names gets the
    /// colour whose red, green and blue are the first three arguments.
    /// Without `-c` there is nothing to do, and that is said.
    open spec fn plan(&self, ctx: TerminalView, args: Seq<Seq<char>>) -> Result<
        ActionView,
        UniErrorView,
    > {
        let flags = flag_set(args);
        if args.len() < 1 {
            Err(UniErrorView::TooFewArguments(CFG_USAGE@))
        } else if !flags.contains('c') {
            Ok(ActionView::Emit(seq![OutputView::Stderr(CFG_NO_WORK@)]))
        } else {
            match named_part(flags) {
                None => Err(UniErrorView::Custom(CFG_NO_PART@)),
                Some(part) => match color_component(arg_at(args, 0)) {
                    Err(e) => Err(e),
                    Ok(r) => match color_component(arg_at(args, 1)) {
                        Err(e) => Err(e),
                        Ok(g) => match color_component(arg_at(args, 2)) {
                            Err(e) => Err(e),
                            Ok(b) => Ok(ActionView::Recolor { part, color: Color { r, g, b } }),
                        },
                    },
                },
            }
        }
    }

    fn execute(&self, ctx: &Terminal, args: Vec<&str>) -> (r: Result<Action, UniError>) {
        if args.len() < 1 {
            return Err(UniError::TooFewArguments(String::from_str(CFG_USAGE)));
        }
        let info = ArgInfo::new(&args);
        if !info.has_flag('c') {
            return Ok(emit_one(Output::Stderr(String::from_str(CFG_NO_WORK))));
        }
        let part = if info.has_flag('P') {
            PromptPart::Path
        } else if info.has_flag('U') {
            PromptPart::UserName
        } else if info.has_flag('G') {
            PromptPart::Branch
        } else {
            return Err(UniError::Custom(String::from_str(CFG_NO_PART)));
        };
        let r = match self.parse_color_argument(argument(&args, 0)) {
            Ok(v) => v,
            Err(e) => {
                return Err(e);
            },
        };
        let g = match self.parse_color_argument(argument(&args, 1)) {
            Ok(v) => v,
            Err(e) => {
                return Err(e);
            },
        };
        let b = match self.parse_color_argument(argument(&args, 2)) {
            Ok(v) => v,
            Err(e) => {
                return Err(e);
            },
        };
        Ok(Action::Recolor { part, color: Color::new(r, g, b) })
    }
}

/// One entry of a directory, as the shell found it.
#[derive(Clone, Debug, PartialEq, Eq)]
pub struct DirItem {
    /// The entry's name inside the directory.
    pub name: String,
    /// Whether it is a file that may be executed.
    pub is_executable: bool,
    /// Whether it is a directory.
    pub is_dir: bool,
    /// Whether it is a regular file.
    pub is_file: bool,
}

/// A `DirItem` with its name as characters.
pub struct DirItemView {
    pub name: Seq<char>,
    pub is_executable: bool,
    pub is_dir: bool,
    pub is_file: bool,
}

impl View for DirItem {
    type V = DirItemView;

    open spec fn view(&self) -> DirItemView {
        DirItemView {
            name: self.name@,
            is_executable: self.is_executable,
            is_dir: self.is_dir,
            is_file: self.is_file,
        }
    }
}

impl DirItem {
    /// The entry called `name` that lies at `path`, with what the shell found
    /// it to be and with what the file system says now of whether it may be
    /// executed.
    pub fn probe(name: String, path: &str, is_dir: bool, is_file: bool) -> (item: DirItem)
        ensures
            item@.name == name@,
            item@.is_dir == is_dir,
            item@.is_file == is_file,
    {
        DirItem { name, is_executable: may_execute(path), is_dir, is_file }
    }
}

/// The views of a list of directory entries.
pub open spec fn item_views(items: Seq<DirItem>) -> Seq<DirItemView> {
    items.map_values(|item: DirItem| item@)
}

/// What stands for an entry of a hidden kind.
pub const HIDDEN_ITEM: &'static str = "(*)";

/// What follows each cell of a listing.
pub const CELL_GAP: &'static str = "   ";

/// One cell of a listing: the text its width is taken from, and what is written.
pub struct Cell {
    pub measured: Seq<char>,
    pub shown: Seq<char>,
}

/// The cell for a name of one kind: the name in the kind's colour, or the
/// placeholder where the kind is hidden.
pub open spec fn cell(name: Seq<char>, hidden: bool, color: Color) -> Cell {
    if hidden {
        Cell { measured: HIDDEN_ITEM@, shown: HIDDEN_ITEM@ }
    } else {
        Cell { measured: name, shown: colored(name, color) }
    }
}

/// The colour of files that may be executed.
pub open spec fn executable_color() -> Color {
    Color { r: 0, g: 255, b: 0 }
}

/// The colour of directories.
pub open spec fn directory_color() -> Color {
    Color { r: 173, g: 216, b: 230 }
}

/// The colour of regular files.
pub open spec fn file_color() -> Color {
    Color { r: 255, g: 0, b: 0 }
}

/// The cells of one entry: one for each kind it is of, executables before
/// directories before regular files. A regular file that may be executed
/// has two.
pub open spec fn cells_of(item: DirItemView, hide_x: bool, hide_d: bool, hide_f: bool) -> Seq<
    Cell,
> {
    (if item.is_executable {
        seq![cell(item.name, hide_x, executable_color())]
    } else {
        Seq::<Cell>::empty()
    }) + (if item.is_dir {
        seq![cell(item.name, hide_d, directory_color())]
    } else {
        Seq::<Cell>::empty()
    }) + (if item.is_file {
        seq![cell(item.name, hide_f, file_color())]
    } else {
        Seq::<Cell>::empty()
    })
}

/// The cells of a directory's entries, in the order of the entries.
pub open spec fn cells(items: Seq<DirItemView>, hide_x: bool, hide_d: bool, hide_f: bool) -> Seq<
    Cell,
>
    decreases items.len(),
{
    if items.len() == 0 {
        Seq::<Cell>::empty()
    } else {
        cells(items.drop_last(), hide_x, hide_d, hide_f) + cells_of(
            items.last(),
            hide_x,
            hide_d,
            hide_f,
        )
    }
}

/// The width a text counts for: its length in bytes, as the machine holds it.
pub open spec fn width(text: Seq<char>) -> nat {
    (vstd::utf8::encode_utf8(text).len() as usize) as nat
}

/// The cells as they are written when `used` width is taken on the line at
/// hand: a cell that brings the line over `limit` comes after a line break
/// and counts for nothing on its new line; every cell is followed by the gap.
pub open spec fn laid_out(row: Seq<Cell>, limit: nat, used: nat) -> Seq<char>
    decreases row.len(),
{
    if row.len() == 0 {
        Seq::<char>::empty()
    } else if used + width(row[0].measured) > limit {
        "\n"@ + row[0].shown + CELL_GAP@ + laid_out(row.drop_first(), limit, 0)
    } else {
        row[0].shown + CELL_GAP@ + laid_out(
            row.drop_first(),
            limit,
            used + width(row[0].measured),
        )
    }
}

/// The line that tells the colours of a listing apart.
pub open spec fn legend() -> Seq<char> {
    "* "@ + colored("Executable"@, executable_color()) + " "@ + "* "@ + colored(
        "Directory"@,
        directory_color(),
    ) + " "@ + "* "@ + colored("File"@, file_color()) + "\n"@
}

/// A listing: the legend, then the cells laid out for a line of six times
/// `rows` in width, then a line end.
pub open spec fn listing(
    items: Seq<DirItemView>,
    hide_x: bool,
    hide_d: bool,
    hide_f: bool,
    rows: u16,
) -> Seq<char> {
    legend() + laid_out(cells(items, hide_x, hide_d, hide_f), (rows * 6) as nat, 0) + "\n"@
}

/// A cell as the listing holds it while it is made.
struct MadeCell {
    measured: String,
    shown: String,
}

impl View for MadeCell {
    type V = Cell;

    closed spec fn view(&self) -> Cell {
        Cell { measured: self.measured@, shown: self.shown@ }
    }
}

/// The views of a list of cells.
spec fn cell_views(row: Seq<MadeCell>) -> Seq<Cell> {
    row.map_values(|c: MadeCell| c@)
}

/// Makes the cell for a name of one kind.
fn make_cell(name: &String, hidden: bool, color: Color) -> (made: MadeCell)
    ensures
        made@ == cell(name@, hidden, color),
{
    if hidden {
        MadeCell { measured: String::from_str(HIDDEN_ITEM), shown: String::from_str(HIDDEN_ITEM) }
    } else {
        MadeCell { measured: name.clone(), shown: name.with_color(&color) }
    }
}

/// Adds the cells of one entry to a row.
fn push_cells(row: &mut Vec<MadeCell>, item: &DirItem, hide_x: bool, hide_d: bool, hide_f: bool)
    ensures
        cell_views(final(row)@) == cell_views(old(row)@) + cells_of(item@, hide_x, hide_d, hide_f),
{
    let ghost start = cell_views(row@);
    let ghost first = if item.is_executable {
        seq![cell(item.name@, hide_x, executable_color())]
    } else {
        Seq::<Cell>::empty()
    };
    let ghost second = if item.is_dir {
        seq![cell(item.name@, hide_d, directory_color())]
    } else {
        Seq::<Cell>::empty()
    };
    let ghost third = if item.is_file {
        seq![cell(item.name@, hide_f, file_color())]
    } else {
        Seq::<Cell>::empty()
    };
    if item.is_executable {
        let ghost earlier = row@;
        let made = make_cell(&item.name, hide_x, Color::green());
        row.push(made);
        assert(cell_views(row@) =~= cell_views(earlier).push(made@));
    }
    assert(cell_views(row@) =~= start + first);
    if item.is_dir {
        let ghost earlier = row@;
        let made = make_cell(&item.name, hide_d, Color::light_blue());
        row.push(made);
        assert(cell_views(row@) =~= cell_views(earlier).push(made@));
    }
    assert(cell_views(row@) =~= start + first + second);
    if item.is_file {
        let ghost earlier = row@;
        let made = make_cell(&item.name, hide_f, Color::red());
        row.push(made);
        assert(cell_views(row@) =~= cell_views(earlier).push(made@));
    }
    assert(cell_views(row@) =~= start + (first + second + third));
}

impl LsCommand {
    /// Writes the listing of a directory's entries for the terminal at hand:
    /// for as many rows as it has now, whatever their number; `None` where
    /// standard output is no terminal.
    pub fn listing_here(
        items: &Vec<DirItem>,
        hide_executables: bool,
        hide_directories: bool,
        hide_files: bool,
    ) -> (text: Option<String>)
        ensures
            text matches Some(written) ==> exists|rows: u16|
                written@ == #[trigger] listing(
                    item_views(items@),
                    hide_executables,
                    hide_directories,
                    hide_files,
                    rows,
                ),
    {
        LsCommand::listing_for(
            items,
            hide_executables,
            hide_directories,
            hide_files,
            terminal_rows(),
        )
    }

    /// Writes the listing of a directory's entries for a terminal of `rows` rows.
    pub fn listing(
        items: &Vec<DirItem>,
        hide_executables: bool,
        hide_directories: bool,
        hide_files: bool,
        rows: u16,
    ) -> (text: String)
        ensures
            text@ == listing(
                item_views(items@),
                hide_executables,
                hide_directories,
                hide_files,
                rows,
            ),
    {
        let ghost given = item_views(items@);
        let ghost all = cells(given, hide_executables, hide_directories, hide_files);
        let mut row: Vec<MadeCell> = Vec::new();
        let mut i: usize = 0;
        proof {
            assert(given.take(0) =~= Seq::<DirItemView>::empty());
            assert(cell_views(row@) =~= cells(
                given.take(0),
                hide_executables,
                hide_directories,
                hide_files,
            ));
        }
        while i < items.len()
            invariant
                i <= items.len(),
                given == item_views(items@),
                cell_views(row@) == cells(
                    given.take(i as int),
                    hide_executables,
                    hide_directories,
                    hide_files,
                ),
            decreases items.len() - i,
        {
            proof {
                assert(given.take(i as int + 1).drop_last() =~= given.take(i as int));
                assert(given.take(i as int + 1).last() == items@[i as int]@);
            }
            push_cells(&mut row, &items[i], hide_executables, hide_directories, hide_files);
            i += 1;
        }
        proof {
            assert(given.take(i as int) =~= given);
        }
        let limit: usize = (rows as usize) * 6;
        let mut text = String::from_str("* ");
        text.append(String::from_str("Executable").with_color(&Color::green()).as_str());
        text.append(" ");
        text.append("* ");
        text.append(String::from_str("Directory").with_color(&Color::light_blue()).as_str());
        text.append(" ");
        text.append("* ");
        text.append(String::from_str("File").with_color(&Color::red()).as_str());
        text.append("\n");
        assert(text@ =~= legend());
        let mut total: usize = 0;
        let mut k: usize = 0;
        proof {
            assert(all.skip(0) =~= all);
        }
        while k < row.len()
            invariant
                k <= row.len(),
                cell_views(row@) == all,
                limit == rows * 6,
                total <= limit,
                text@ + laid_out(all.skip(k as int), limit as nat, total as nat) == legend()
                    + laid_out(all, limit as nat, 0),
            decreases row.len() - k,
        {
            let made = &row[k];
            let ghost rest = all.skip(k as int);
            let ghost written = text@;
            let ghost used = total as nat;
            proof {
                assert(rest[0] == made@);
                assert(rest.drop_first() =~= all.skip(k as int + 1));
            }
            let wide = made.measured.as_str().len();
            if wide > limit - total {
                text.append("\n");
                total = 0;
            } else {
                total = total + wide;
            }
            text.append(made.shown.as_str());
            text.append(CELL_GAP);
            proof {
                assert(wide as nat == width(made@.measured));
                assert(text@ + laid_out(all.skip(k as int + 1), limit as nat, total as nat)
                    =~= written + laid_out(rest, limit as nat, used));
            }
            k += 1;
        }
        proof {
            assert(all.skip(k as int) =~= Seq::<Cell>::empty());
            assert(text@ + Seq::<char>::empty() =~= text@);
        }
        text.append("\n");
        text
    }

    /// Writes the listing of a directory's entries for what was learnt of the
    /// terminal: for its number of rows where it has one, and nothing where
    /// there is no terminal to lay the listing out for.
    pub fn listing_for(
        items: &Vec<DirItem>,
        hide_executables: bool,
        hide_directories: bool,
        hide_files: bool,
        rows: Option<u16>,
    ) -> (text: Option<String>)
        ensures
            match rows {
                Some(known) => text matches Some(written) && written@ == listing(
                    item_views(items@),
                    hide_executables,
                    hide_directories,
                    hide_files,
                    known,
                ),
                None => text is None,
            },
    {
        match rows {
            Some(known) => Some(
                LsCommand::listing(items, hide_executables, hide_directories, hide_files, known),
            ),
            None => None,
        }
    }
}

} // verus!
