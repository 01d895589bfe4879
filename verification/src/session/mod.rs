//! The session that commands run against.

pub mod input;
pub mod prompt;
pub mod settings;

use crate::commands::action::{outcome_view, Action, ActionView, PromptPart};
use crate::commands::impls::{
    cd_info, cfg_info, clear_info, exit_info, help_info, history_info, ls_info, man_info,
    mkdir_info, rmdir_info, where_info, CdCommand, CdError, ClearCommand, ConfigCommand,
    ExitCommand, HelpCommand, HistoryCommand, LsCommand, ManCommand, MkDirCommand, RmDirCommand,
    WhereCommand,
};
use crate::commands::{
    discovered, entry_views, infos, try_dispatch, Command, CommandInfo, Commands, PathEntry,
    UniError, UniErrorView,
};
use crate::session::input::UserInput;
use crate::session::settings::{Color, Settings, SettingsView};
use crate::text::{owned_option_view, split, split_on, views};
use vstd::prelude::*;

verus! {

/// One session of the shell: its commands, what was entered, the settings
/// behind the prompt, and whether it is to end.
pub struct Terminal {
    cmds: Commands,
    inp: UserInput,
    _settings: Settings,
    should_quit: bool,
}

/// A session as commands see it.
pub struct TerminalView {
    /// The registered commands, in the order of registration.
    pub commands: Seq<CommandInfo>,
    /// The lines entered so far, oldest first.
    pub history: Seq<Seq<char>>,
    /// The settings behind the prompt.
    pub settings: SettingsView,
    /// Whether the loop is to end.
    pub should_quit: bool,
}

impl View for Terminal {
    type V = TerminalView;

    closed spec fn view(&self) -> TerminalView {
        TerminalView {
            commands: infos(self.cmds@),
            history: self.inp@,
            settings: self._settings@,
            should_quit: self.should_quit,
        }
    }
}

/// Why a session could not be started.
#[derive(Clone, Debug, PartialEq, Eq)]
pub enum TerminalInitError {
    /// The working directory could not be told. Holds the system's description.
    CantGetDirectory(String),
}

impl TerminalInitError {
    /// The words of the failure.
    pub open spec fn message(&self) -> Seq<char> {
        match self {
            TerminalInitError::CantGetDirectory(msg) => msg@,
        }
    }

    /// The failure in words.
    pub fn into(self) -> (s: String)
        ensures
            s@ == self.message(),
    {
        match self {
            TerminalInitError::CantGetDirectory(msg) => msg,
        }
    }
}

/// The directories of a search path: its pieces between occurrences of the
/// platform's separator, taken as they stand.
pub fn path_folders<'a>(search_path: &'a str, separator: char) -> (folders: Vec<&'a str>)
    ensures
        views(folders@) == split(search_path@, separator),
{
    split_on(search_path, separator)
}

/// What the registry knows of the commands that are part of the shell, in
/// the order a session registers them in.
pub open spec fn builtins() -> Seq<CommandInfo> {
    seq![
        help_info(),
        history_info(),
        cd_info(),
        ls_info(),
        man_info(),
        exit_info(),
        rmdir_info(),
        mkdir_info(),
        cfg_info(),
        clear_info(),
        where_info(),
    ]
}

/// The settings with a new colour for one part of the prompt.
pub open spec fn recolored(settings: SettingsView, part: PromptPart, color: Color) -> SettingsView {
    match part {
        PromptPart::Path => SettingsView { path_color: color, ..settings },
        PromptPart::UserName => SettingsView { user_name_color: color, ..settings },
        PromptPart::Branch => SettingsView { git_branch_color: color, ..settings },
    }
}

/// The session after it has taken in what an action asks of the session
/// itself: to end, or to show a part of the prompt in another colour. Every
/// other action leaves the session as it is.
pub open spec fn applied(session: TerminalView, action: ActionView) -> TerminalView {
    match action {
        ActionView::Quit => TerminalView { should_quit: true, ..session },
        ActionView::Recolor { part, color } => TerminalView {
            settings: recolored(session.settings, part, color),
            ..session
        },
        _ => session,
    }
}

impl Terminal {
    /// Starts a session in the working directory that was found, with the
    /// commands of the shell registered and nothing entered yet. Settings
    /// that were saved are taken as they are, else fresh ones for that
    /// directory; either way they get the user's name as it is known now.
    /// Without a working directory there is no session.
    pub fn new(
        current_dir: Result<String, String>,
        user_name: Option<String>,
        saved: Option<Settings>,
    ) -> (made: Result<Terminal, TerminalInitError>)
        ensures
            match current_dir {
                Err(reason) => made matches Err(e) && e.message() == reason@,
                Ok(path) => {
                    &&& made matches Ok(t)
                    &&& t@.commands == builtins()
                    &&& t@.history == Seq::<Seq<char>>::empty()
                    &&& !t@.should_quit
                    &&& t@.settings == (SettingsView {
                        user_name: owned_option_view(user_name),
                        ..match saved {
                            Some(kept) => kept@,
                            None => SettingsView {
                                path: path@,
                                user_name: None,
                                git_branch: None,
                                path_color: Color { r: 20, g: 255, b: 247 },
                                user_name_color: Color { r: 179, g: 30, b: 0 },
                                git_branch_color: Color { r: 255, g: 204, b: 246 },
                            },
                        }
                    })
                },
            },
    {
        let current_path = match current_dir {
            Ok(path) => path,
            Err(reason) => {
                return Err(TerminalInitError::CantGetDirectory(reason));
            },
        };
        let mut commands = Commands::new();
        commands.push(Command::Help(HelpCommand));
        commands.push(Command::History(HistoryCommand));
        commands.push(Command::Cd(CdCommand));
        commands.push(Command::Ls(LsCommand));
        commands.push(Command::Man(ManCommand));
        commands.push(Command::Exit(ExitCommand));
        commands.push(Command::RmDir(RmDirCommand));
        commands.push(Command::MkDir(MkDirCommand));
        commands.push(Command::Config(ConfigCommand));
        commands.push(Command::Clear(ClearCommand));
        commands.push(Command::Where(WhereCommand));
        let mut prompt = match saved {
            Some(kept) => kept,
            None => Settings::new(current_path),
        };
        *prompt.get_user_name() = user_name;
        let made = Terminal {
            cmds: commands,
            inp: UserInput::new(),
            _settings: prompt,
            should_quit: false,
        };
        proof {
            assert(infos(made.cmds@) =~= builtins());
        }
        Ok(made)
    }

    /// Registers the commands that the entries of one directory of the search
    /// path give rise to, behind all that are registered.
    pub fn add_path_folder(&mut self, entries: &Vec<PathEntry>)
        ensures
            final(self)@ == (TerminalView {
                commands: old(self)@.commands + discovered(entry_views(entries@)),
                ..old(self)@
            }),
            final(self).registry().len() >= old(self).registry().len(),
            final(self).registry().take(old(self).registry().len() as int) == old(
                self,
            ).registry(),
    {
        self.cmds.add_path_folder(entries);
    }

    /// Takes a line that was read into the history.
    pub fn record(&mut self, line: String)
        ensures
            final(self)@ == (TerminalView {
                history: old(self)@.history.push(line@),
                ..old(self)@
            }),
            final(self).registry() == old(self).registry(),
    {
        self.inp.record(line);
    }

    /// Whether the session is over.
    pub fn should_quit(&self) -> (r: bool)
        ensures
            r == self@.should_quit,
    {
        self.should_quit
    }

    /// The settings behind the prompt, to change them.
    pub fn settings_mut(&mut self) -> (r: &mut Settings)
        ensures
            r@ == old(self)@.settings,
            final(self)@ == (TerminalView { settings: final(r)@, ..old(self)@ }),
            final(self).registry() == old(self).registry(),
    {
        &mut self._settings
    }

    /// Reads a line of input as a command and its arguments and lets the
    /// command decide.
    pub fn try_execute(&self, line: String) -> (r: Result<Action, UniError>)
        ensures
            outcome_view(r) == try_dispatch(self.registry(), self@, line@),
    {
        self.cmds.try_execute(self, line)
    }

    /// Takes in what an action asks of the session itself.
    pub fn apply(&mut self, action: &Action)
        ensures
            final(self)@ == applied(old(self)@, action@),
            final(self).registry() == old(self).registry(),
    {
        match action {
            Action::Quit => {
                self.should_quit = true;
            },
            Action::Recolor { part, color } => {
                match part {
                    PromptPart::Path => {
                        *self._settings.get_path_color() = *color;
                    },
                    PromptPart::UserName => {
                        *self._settings.get_username_color() = *color;
                    },
                    PromptPart::Branch => {
                        *self._settings.get_branch_color() = *color;
                    },
                }
            },
            _ => {},
        }
    }

    /// Takes in how a change of the working directory ended: the session
    /// follows to the directory that was reached, or stays and hands on the
    /// system's refusal.
    pub fn directory_changed(&mut self, result: Result<String, String>) -> (r: Result<(), UniError>)
        ensures
            final(self).registry() == old(self).registry(),
            match result {
                Ok(reached) => {
                    &&& r is Ok
                    &&& final(self)@ == (TerminalView {
                        settings: SettingsView { path: reached@, ..old(self)@.settings },
                        ..old(self)@
                    })
                },
                Err(reason) => {
                    &&& r matches Err(e)
                    &&& e@ == UniErrorView::CommandError(
                        "failed to set working directory: "@ + reason@,
                    )
                    &&& final(self)@ == old(self)@
                },
            },
    {
        match result {
            Ok(reached) => {
                *self._settings.get_path() = reached;
                Ok(())
            },
            Err(reason) => Err(CdError::FailedToSetPath(reason).boxed()),
        }
    }

    /// The registered commands themselves.
    pub closed spec fn registry(&self) -> Seq<Command> {
        self.cmds@
    }

    /// What the session sees of its commands is what the registry knows of them.
    pub proof fn lemma_commands_are_registry(&self)
        ensures
            self@.commands == infos(self.registry()),
    {
    }

    /// The lines entered so far.
    pub fn input(&self) -> (r: &UserInput)
        ensures
            r@ == self@.history,
    {
        &self.inp
    }

    /// Marks the session as over.
    pub fn quit(&mut self)
        ensures
            final(self)@ == (TerminalView { should_quit: true, ..old(self)@ }),
            final(self).registry() == old(self).registry(),
    {
        self.should_quit = true;
    }

    /// The settings behind the prompt.
    pub fn settings(&self) -> (r: &Settings)
        ensures
            r@ == self@.settings,
    {
        &self._settings
    }

    /// The working directory.
    pub fn current_path(&self) -> (r: &String)
        ensures
            r@ == self@.settings.path,
    {
        self._settings.get_path_view()
    }

    /// The registry.
    pub fn commands(&self) -> (r: &Commands)
        ensures
            r@ == self.registry(),
    {
        &self.cmds
    }
}

} // verus!
