//! Commands, their registry, and dispatch.

pub mod action;
pub mod args;
pub mod impls;
pub mod native;

use crate::commands::action::{
    outcome_view, output_views, Action, ActionView, Output, OutputView,
};
use crate::commands::impls::{
    cd_info, cfg_info, clear_info, exit_info, help_info, history_info, ls_info, man_info,
    mkdir_info, rmdir_info, where_info, CdCommand, ClearCommand, ConfigCommand, ExitCommand,
    HelpCommand, HistoryCommand, LsCommand, ManCommand, MkDirCommand, RmDirCommand, WhereCommand,
};
use crate::commands::native::{command_name, PathLoadedCommand, PATH_COMMAND_DOCS};
use crate::session::{Terminal, TerminalView};
use crate::platform::{final_component, may_execute};
use crate::text::{
    join2, lemma_split_joined, option_view, owned_option_view, views, words, words_of,
};
use vstd::prelude::*;

verus! {

/// What the registry knows of a command, whatever its kind.
pub struct CommandInfo {
    /// The name it is looked up by.
    pub name: Seq<char>,
    /// One line on what it does, where it has one.
    pub desc: Option<Seq<char>>,
    /// Its manual, where it has one.
    pub docs: Option<Seq<char>>,
    /// Whether it is part of the shell itself.
    pub builtin: bool,
    /// The file it runs, where it runs one.
    pub location: Option<Seq<char>>,
}

/// An error that can be put into words for the user.
pub trait AsStr {
    /// The words.
    spec fn rendered(&self) -> Seq<char>;

    /// Writes the error out.
    fn as_str(&self) -> (s: String)
        ensures
            s@ == self.rendered(),
    ;
}

/// What can go wrong between a line of input and the end of a command.
#[derive(Clone, Debug, PartialEq, Eq)]
pub enum UniError {
    /// No command of this name is registered. Holds the name that was asked for.
    NotFound(String),
    /// A failure of a command's own kind, carried as the words it was rendered with.
    CommandError(String),
    /// A command was given fewer arguments than it needs. Holds what it expected.
    TooFewArguments(String),
    /// The file system or a child process failed. Holds the system's description.
    IoError(String),
    /// A command refused its arguments. Holds its message.
    Custom(String),
}

/// A `UniError` with its text as characters.
pub enum UniErrorView {
    NotFound(Seq<char>),
    CommandError(Seq<char>),
    TooFewArguments(Seq<char>),
    IoError(Seq<char>),
    Custom(Seq<char>),
}

impl View for UniError {
    type V = UniErrorView;

    open spec fn view(&self) -> UniErrorView {
        match self {
            UniError::NotFound(s) => UniErrorView::NotFound(s@),
            UniError::CommandError(s) => UniErrorView::CommandError(s@),
            UniError::TooFewArguments(s) => UniErrorView::TooFewArguments(s@),
            UniError::IoError(s) => UniErrorView::IoError(s@),
            UniError::Custom(s) => UniErrorView::Custom(s@),
        }
    }
}

impl UniErrorView {
    /// The words an error is rendered with: its kind, then what it holds.
    pub open spec fn rendered(self) -> Seq<char> {
        match self {
            UniErrorView::NotFound(info) => "NotFound: "@ + info,
            UniErrorView::CommandError(inner) => "CommandErr: "@ + inner,
            UniErrorView::TooFewArguments(msg) => "not enough arguments: "@ + msg,
            UniErrorView::IoError(description) => "IoError: "@ + description,
            UniErrorView::Custom(msg) => msg,
        }
    }
}

impl AsStr for UniError {
    open spec fn rendered(&self) -> Seq<char> {
        self@.rendered()
    }

    fn as_str(&self) -> (s: String) {
        match self {
            UniError::NotFound(info) => join2("NotFound: ", info.as_str()),
            UniError::CommandError(inner) => join2("CommandErr: ", inner.as_str()),
            UniError::TooFewArguments(msg) => join2("not enough arguments: ", msg.as_str()),
            UniError::IoError(description) => join2("IoError: ", description.as_str()),
            UniError::Custom(msg) => msg.clone(),
        }
    }
}

/// What can be asked of every command without running it.
pub trait Describe {
    /// What the registry knows of the command.
    spec fn info(&self) -> CommandInfo;

    /// The name the command is looked up by.
    fn name(&self) -> (r: &str)
        ensures
            r@ == self.info().name,
    ;

    /// One line on what the command does.
    fn desc(&self) -> (r: Option<&str>)
        ensures
            option_view(r) == self.info().desc,
    ;

    /// The command's manual.
    fn docs(&self) -> (r: Option<&str>)
        ensures
            option_view(r) == self.info().docs,
    ;

    /// Whether the command is part of the shell itself.
    fn is_builtin(&self) -> (r: bool)
        ensures
            r == self.info().builtin,
    ;

    /// The file the command runs.
    fn file_location(&self) -> (r: Option<String>)
        ensures
            owned_option_view(r) == self.info().location,
    ;
}

/// What every command offers, whether it is part of the shell or a file on
/// the search path: it can be described, and it can be run.
pub trait Cmd: Describe {
    /// What the command comes to for a session and an argument list.
    spec fn plan(&self, ctx: TerminalView, args: Seq<Seq<char>>) -> Result<
        ActionView,
        UniErrorView,
    >;

    /// Decides what is to happen. The session is read, never changed: what is
    /// to change comes back as the action.
    fn execute(&self, ctx: &Terminal, args: Vec<&str>) -> (r: Result<Action, UniError>)
        ensures
            outcome_view(r) == self.plan(ctx@, views(args@)),
    ;
}

/// A command of any kind, as the registry holds it.
#[derive(Clone, Debug, PartialEq, Eq)]
pub enum Command {
    Help(HelpCommand),
    History(HistoryCommand),
    Cd(CdCommand),
    Ls(LsCommand),
    Man(ManCommand),
    Exit(ExitCommand),
    RmDir(RmDirCommand),
    MkDir(MkDirCommand),
    Config(ConfigCommand),
    Clear(ClearCommand),
    Where(WhereCommand),
    Path(PathLoadedCommand),
}

impl Command {
    /// What the registry knows of the command.
    pub open spec fn describe(&self) -> CommandInfo {
        match self {
            Command::Help(_) => help_info(),
            Command::History(_) => history_info(),
            Command::Cd(_) => cd_info(),
            Command::Ls(_) => ls_info(),
            Command::Man(_) => man_info(),
            Command::Exit(_) => exit_info(),
            Command::RmDir(_) => rmdir_info(),
            Command::MkDir(_) => mkdir_info(),
            Command::Config(_) => cfg_info(),
            Command::Clear(_) => clear_info(),
            Command::Where(_) => where_info(),
            Command::Path(c) => c.describe(),
        }
    }
}

impl Describe for Command {
    open spec fn info(&self) -> CommandInfo {
        self.describe()
    }

    fn name(&self) -> (r: &str) {
        match self {
            Command::Help(c) => c.name(),
            Command::History(c) => c.name(),
            Command::Cd(c) => c.name(),
            Command::Ls(c) => c.name(),
            Command::Man(c) => c.name(),
            Command::Exit(c) => c.name(),
            Command::RmDir(c) => c.name(),
            Command::MkDir(c) => c.name(),
            Command::Config(c) => c.name(),
            Command::Clear(c) => c.name(),
            Command::Where(c) => c.name(),
            Command::Path(c) => c.name(),
        }
    }

    fn desc(&self) -> (r: Option<&str>) {
        match self {
            Command::Help(c) => c.desc(),
            Command::History(c) => c.desc(),
            Command::Cd(c) => c.desc(),
            Command::Ls(c) => c.desc(),
            Command::Man(c) => c.desc(),
            Command::Exit(c) => c.desc(),
            Command::RmDir(c) => c.desc(),
            Command::MkDir(c) => c.desc(),
            Command::Config(c) => c.desc(),
            Command::Clear(c) => c.desc(),
            Command::Where(c) => c.desc(),
            Command::Path(c) => c.desc(),
        }
    }

    fn docs(&self) -> (r: Option<&str>) {
        match self {
            Command::Help(c) => c.docs(),
            Command::History(c) => c.docs(),
            Command::Cd(c) => c.docs(),
            Command::Ls(c) => c.docs(),
            Command::Man(c) => c.docs(),
            Command::Exit(c) => c.docs(),
            Command::RmDir(c) => c.docs(),
            Command::MkDir(c) => c.docs(),
            Command::Config(c) => c.docs(),
            Command::Clear(c) => c.docs(),
            Command::Where(c) => c.docs(),
            Command::Path(c) => c.docs(),
        }
    }

    fn is_builtin(&self) -> (r: bool) {
        match self {
            Command::Help(c) => c.is_builtin(),
            Command::History(c) => c.is_builtin(),
            Command::Cd(c) => c.is_builtin(),
            Command::Ls(c) => c.is_builtin(),
            Command::Man(c) => c.is_builtin(),
            Command::Exit(c) => c.is_builtin(),
            Command::RmDir(c) => c.is_builtin(),
            Command::MkDir(c) => c.is_builtin(),
            Command::Config(c) => c.is_builtin(),
            Command::Clear(c) => c.is_builtin(),
            Command::Where(c) => c.is_builtin(),
            Command::Path(c) => c.is_builtin(),
        }
    }

    fn file_location(&self) -> (r: Option<String>) {
        match self {
            Command::Help(c) => c.file_location(),
            Command::History(c) => c.file_location(),
            Command::Cd(c) => c.file_location(),
            Command::Ls(c) => c.file_location(),
            Command::Man(c) => c.file_location(),
            Command::Exit(c) => c.file_location(),
            Command::RmDir(c) => c.file_location(),
            Command::MkDir(c) => c.file_location(),
            Command::Config(c) => c.file_location(),
            Command::Clear(c) => c.file_location(),
            Command::Where(c) => c.file_location(),
            Command::Path(c) => c.file_location(),
        }
    }
}

impl Cmd for Command {
    open spec fn plan(&self, ctx: TerminalView, args: Seq<Seq<char>>) -> Result<
        ActionView,
        UniErrorView,
    > {
        match self {
            Command::Help(c) => c.plan(ctx, args),
            Command::History(c) => c.plan(ctx, args),
            Command::Cd(c) => c.plan(ctx, args),
            Command::Ls(c) => c.plan(ctx, args),
            Command::Man(c) => c.plan(ctx, args),
            Command::Exit(c) => c.plan(ctx, args),
            Command::RmDir(c) => c.plan(ctx, args),
            Command::MkDir(c) => c.plan(ctx, args),
            Command::Config(c) => c.plan(ctx, args),
            Command::Clear(c) => c.plan(ctx, args),
            Command::Where(c) => c.plan(ctx, args),
            Command::Path(c) => c.plan(ctx, args),
        }
    }

    fn execute(&self, ctx: &Terminal, args: Vec<&str>) -> (r: Result<Action, UniError>) {
        match self {
            Command::Help(c) => c.execute(ctx, args),
            Command::History(c) => c.execute(ctx, args),
            Command::Cd(c) => c.execute(ctx, args),
            Command::Ls(c) => c.execute(ctx, args),
            Command::Man(c) => c.execute(ctx, args),
            Command::Exit(c) => c.execute(ctx, args),
            Command::RmDir(c) => c.execute(ctx, args),
            Command::MkDir(c) => c.execute(ctx, args),
            Command::Config(c) => c.execute(ctx, args),
            Command::Clear(c) => c.execute(ctx, args),
            Command::Where(c) => c.execute(ctx, args),
            Command::Path(c) => c.execute(ctx, args),
        }
    }
}

/// What the registry knows of each command of a list.
pub open spec fn infos(commands: Seq<Command>) -> Seq<CommandInfo> {
    commands.map_values(|c: Command| c.describe())
}

/// Whether `i` is the place of the first command named `name`.
pub open spec fn is_first_named(commands: Seq<CommandInfo>, name: Seq<char>, i: int) -> bool {
    &&& 0 <= i < commands.len()
    &&& commands[i].name == name
    &&& forall|j: int| 0 <= j < i ==> (#[trigger] commands[j]).name != name
}

/// The place of the first command named `name`, in the order of
/// registration; `None` where no command has that name.
pub open spec fn position(commands: Seq<CommandInfo>, name: Seq<char>) -> Option<int> {
    if exists|i: int| is_first_named(commands, name, i) {
        Some(choose|i: int| is_first_named(commands, name, i))
    } else {
        None
    }
}

/// There is one first place at most: `position` gives it where a command has
/// the name, and `None` exactly where none has.
pub proof fn lemma_position(commands: Seq<CommandInfo>, name: Seq<char>)
    ensures
        match position(commands, name) {
            Some(i) => is_first_named(commands, name, i),
            None => forall|j: int| 0 <= j < commands.len() ==> (#[trigger] commands[j]).name != name,
        },
        forall|i: int| is_first_named(commands, name, i) ==> position(commands, name) == Some(i),
{
    if exists|i: int| is_first_named(commands, name, i) {
        let found = choose|i: int| is_first_named(commands, name, i);
        assert forall|i: int| is_first_named(commands, name, i) implies i == found by {
            if i < found {
                assert(commands[i].name != name);
            } else if found < i {
                assert(commands[found].name != name);
            }
        }
    } else {
        assert forall|j: int| 0 <= j < commands.len() implies (#[trigger] commands[j]).name
            != name by {
            if commands[j].name == name {
                lemma_some_first(commands, name, j);
            }
        }
    }
}

/// Where some command up to place `k` has the name, there is a first one.
proof fn lemma_some_first(commands: Seq<CommandInfo>, name: Seq<char>, k: int)
    requires
        0 <= k < commands.len(),
        commands[k].name == name,
    ensures
        exists|i: int| is_first_named(commands, name, i),
    decreases k,
{
    if forall|j: int| 0 <= j < k ==> (#[trigger] commands[j]).name != name {
        assert(is_first_named(commands, name, k));
    } else {
        let j = choose|j: int| 0 <= j < k && (#[trigger] commands[j]).name == name;
        lemma_some_first(commands, name, j);
    }
}

/// The first command registered under `name`, where there is one.
pub open spec fn lookup(commands: Seq<Command>, name: Seq<char>) -> Option<Command> {
    match position(infos(commands), name) {
        Some(i) => Some(commands[i]),
        None => None,
    }
}

/// Who registers first is found: of two commands registered under one name,
/// one right after the other, the second is never the one that a lookup of
/// the name gives, and the lookup gives what it gave before the second came.
/// Where the name was free before, it gives the first of the two.
pub proof fn lemma_first_registered_wins(before: Seq<Command>, a: Command, b: Command)
    requires
        a.describe().name == b.describe().name,
    ensures
        position(infos(before.push(a).push(b)), a.describe().name) != Some(before.len() as int + 1),
        lookup(before.push(a).push(b), a.describe().name) == lookup(
            before.push(a),
            a.describe().name,
        ),
        position(infos(before), a.describe().name) is None ==> lookup(
            before.push(a).push(b),
            a.describe().name,
        ) == Some(a),
{
    let name = a.describe().name;
    let one = before.push(a);
    let two = one.push(b);
    assert(infos(one) =~= infos(before).push(a.describe()));
    assert(infos(two) =~= infos(one) + seq![b.describe()]);
    lemma_position(infos(one), name);
    lemma_position(infos(before), name);
    assert(infos(one)[before.len() as int].name == name);
    lemma_registered_stays_found(infos(one), seq![b.describe()], name);
    if position(infos(before), name) is None {
        assert(is_first_named(infos(one), name, before.len() as int));
    }
}

/// What is registered stays found: a name that a lookup finds is found at
/// the same place however many commands are registered behind it. So a
/// command of the shell is never hidden by a file of the same name that the
/// search path brings later.
pub proof fn lemma_registered_stays_found(
    before: Seq<CommandInfo>,
    added: Seq<CommandInfo>,
    name: Seq<char>,
)
    requires
        position(before, name) is Some,
    ensures
        position(before + added, name) == position(before, name),
{
    lemma_position(before, name);
    let i = position(before, name)->0;
    let all = before + added;
    assert(all[i] == before[i]);
    assert forall|j: int| 0 <= j < i implies (#[trigger] all[j]).name != name by {
        assert(all[j] == before[j]);
    }
    assert(is_first_named(all, name, i));
    lemma_position(all, name);
}

/// Looking a name up twice in one registry gives one and the same command
/// both times.
pub proof fn lemma_lookup_is_idempotent(
    commands: &Commands,
    name: &str,
    first: Option<&Command>,
    second: Option<&Command>,
)
    requires
        call_ensures(Commands::get, (commands, name), first),
        call_ensures(Commands::get, (commands, name), second),
    ensures
        first == second,
{
}

/// What dispatch comes to: the plan of the first command named `name`, or
/// `NotFound` with that name where none is registered under it.
pub open spec fn dispatch(
    commands: Seq<Command>,
    ctx: TerminalView,
    name: Seq<char>,
    args: Seq<Seq<char>>,
) -> Result<ActionView, UniErrorView> {
    match position(infos(commands), name) {
        Some(i) => commands[i].plan(ctx, args),
        None => Err(UniErrorView::NotFound(name)),
    }
}

/// What a line of input comes to. The empty line is answered with one blank
/// line and nothing is looked up; of any other line the first word names the
/// command and the words after it are its arguments.
pub open spec fn try_dispatch(commands: Seq<Command>, ctx: TerminalView, line: Seq<char>) -> Result<
    ActionView,
    UniErrorView,
> {
    if line.len() == 0 {
        Ok(ActionView::Emit(seq![OutputView::Stdout("\n"@)]))
    } else {
        dispatch(commands, ctx, words(line)[0], words(line).skip(1))
    }
}

/// One entry of a directory on the search path, as the scan found it.
#[derive(Clone, Debug, PartialEq, Eq)]
pub struct PathEntry {
    /// The entry's full path.
    pub path: String,
    /// Whether it is a regular file.
    pub is_file: bool,
    /// Whether it may be executed.
    pub is_executable: bool,
}

/// A `PathEntry` with its path as characters.
pub struct PathEntryView {
    pub path: Seq<char>,
    pub is_file: bool,
    pub is_executable: bool,
}

impl View for PathEntry {
    type V = PathEntryView;

    open spec fn view(&self) -> PathEntryView {
        PathEntryView { path: self.path@, is_file: self.is_file, is_executable: self.is_executable }
    }
}

impl PathEntry {
    /// The entry at `path` with what the scan found it to be; whether it may
    /// be executed is asked of the file system, and only of a regular file.
    pub fn probe(path: String, is_file: bool) -> (entry: PathEntry)
        ensures
            entry@.path == path@,
            entry@.is_file == is_file,
            !is_file ==> !entry@.is_executable,
    {
        let is_executable = is_file && may_execute(path.as_str());
        PathEntry { path, is_file, is_executable }
    }
}

/// The views of a list of entries.
pub open spec fn entry_views(entries: Seq<PathEntry>) -> Seq<PathEntryView> {
    entries.map_values(|e: PathEntry| e@)
}

/// The command that an entry gives rise to: one for each regular file that
/// may be executed and whose path has a final component, named by that
/// component without its last extension and located at the entry's path.
pub open spec fn discovered_one(entry: PathEntryView) -> Option<CommandInfo> {
    if entry.is_file && entry.is_executable && final_component(entry.path) is Some {
        Some(
            CommandInfo {
                name: command_name(final_component(entry.path)->0),
                desc: None,
                docs: Some(PATH_COMMAND_DOCS@),
                builtin: false,
                location: Some(entry.path),
            },
        )
    } else {
        None
    }
}

/// The commands that the entries of a directory give rise to, in the order of
/// the entries.
pub open spec fn discovered(entries: Seq<PathEntryView>) -> Seq<CommandInfo>
    decreases entries.len(),
{
    if entries.len() == 0 {
        Seq::<CommandInfo>::empty()
    } else {
        let before = discovered(entries.drop_last());
        match discovered_one(entries.last()) {
            Some(info) => before.push(info),
            None => before,
        }
    }
}

/// The commands of a session, in the order they were registered in.
pub struct Commands {
    storage: Vec<Command>,
}

impl View for Commands {
    type V = Seq<Command>;

    closed spec fn view(&self) -> Seq<Command> {
        self.storage@
    }
}

impl Commands {
    /// A registry without commands.
    pub fn new() -> (made: Commands)
        ensures
            made@ == Seq::<Command>::empty(),
    {
        Commands { storage: Vec::new() }
    }

    /// Registers `cmd` behind all that are there. Names are not compared.
    pub fn push(&mut self, cmd: Command)
        ensures
            final(self)@ == old(self)@.push(cmd),
    {
        self.storage.push(cmd);
    }

    /// How many commands are registered.
    pub fn count(&self) -> (n: usize)
        ensures
            n == self@.len(),
    {
        self.storage.len()
    }

    /// The first command registered under `name`, compared character for
    /// character. Asking again gives the same command: nothing is copied or
    /// made anew.
    pub fn get(&self, name: &str) -> (found: Option<&Command>)
        ensures
            match lookup(self@, name@) {
                Some(command) => found == Some(&command),
                None => found is None,
            },
    {
        let mut i: usize = 0;
        while i < self.storage.len()
            invariant
                i <= self.storage.len(),
                forall|j: int| 0 <= j < i ==> (#[trigger] infos(self@)[j]).name != name@,
            decreases self.storage.len() - i,
        {
            if self.storage[i].name().eq(name) {
                proof {
                    assert(is_first_named(infos(self@), name@, i as int));
                    lemma_position(infos(self@), name@);
                }
                return Some(&self.storage[i]);
            }
            i += 1;
        }
        proof {
            lemma_position(infos(self@), name@);
        }
        None
    }

    /// The first command registered under `name`, to change it in its place.
    pub fn get_mut(&mut self, name: &str) -> (found: Option<&mut Command>)
        ensures
            match position(infos(old(self)@), name@) {
                Some(i) => {
                    &&& found matches Some(command)
                    &&& *command == old(self)@[i]
                    &&& final(self)@ == old(self)@.update(i, *final(command))
                },
                None => found is None && final(self)@ == old(self)@,
            },
    {
        let mut i: usize = 0;
        while i < self.storage.len()
            invariant
                i <= self.storage.len(),
                self.storage == old(self).storage,
                forall|j: int| 0 <= j < i ==> (#[trigger] infos(self@)[j]).name != name@,
            decreases self.storage.len() - i,
        {
            if self.storage[i].name().eq(name) {
                proof {
                    assert(is_first_named(infos(self@), name@, i as int));
                    lemma_position(infos(self@), name@);
                }
                return Some(&mut self.storage[i]);
            }
            i += 1;
        }
        proof {
            lemma_position(infos(self@), name@);
        }
        None
    }

    /// Looks `name` up and lets the command decide; gives what it gave,
    /// unchanged.
    pub fn execute(&self, ctx: &Terminal, name: &str, args: Vec<&str>) -> (r: Result<
        Action,
        UniError,
    >)
        ensures
            outcome_view(r) == dispatch(self@, ctx@, name@, views(args@)),
    {
        match self.get(name) {
            Some(command) => command.execute(ctx, args),
            None => Err(UniError::NotFound(String::from_str(name))),
        }
    }

    /// Registers, behind all that are there, a command for each entry of a
    /// directory that is a regular file and may be executed. What was
    /// registered before stays as it is and where it is, so every name
    /// that was found before is found as before.
    pub fn add_path_folder(&mut self, entries: &Vec<PathEntry>)
        ensures
            final(self)@.len() >= old(self)@.len(),
            final(self)@.take(old(self)@.len() as int) == old(self)@,
            infos(final(self)@) == infos(old(self)@) + discovered(entry_views(entries@)),
            forall|name: Seq<char>| #[trigger]
                lookup(old(self)@, name) is Some ==> lookup(final(self)@, name) == lookup(
                    old(self)@,
                    name,
                ),
    {
        let ghost given = entry_views(entries@);
        let mut i: usize = 0;
        proof {
            assert(given.take(0) =~= Seq::<PathEntryView>::empty());
            assert(infos(self@) =~= infos(old(self)@) + discovered(given.take(0)));
            assert(self@.take(old(self)@.len() as int) =~= old(self)@);
        }
        while i < entries.len()
            invariant
                i <= entries.len(),
                given == entry_views(entries@),
                self@.len() >= old(self)@.len(),
                self@.take(old(self)@.len() as int) == old(self)@,
                infos(self@) == infos(old(self)@) + discovered(given.take(i as int)),
            decreases entries.len() - i,
        {
            let entry = &entries[i];
            let ghost before = self@;
            proof {
                assert(given.take(i as int + 1).drop_last() =~= given.take(i as int));
                assert(given.take(i as int + 1).last() == entry@);
            }
            if entry.is_file && entry.is_executable {
                match PathLoadedCommand::new(entry.path.clone()) {
                    Some(cmd) => {
                        let ghost info = cmd.describe();
                        self.storage.push(Command::Path(cmd));
                        proof {
                            assert(discovered_one(entry@) == Some(info));
                            assert(infos(self@) =~= infos(before).push(info));
                            assert(self@.take(old(self)@.len() as int) =~= before.take(
                                old(self)@.len() as int,
                            ));
                            assert(infos(self@) =~= infos(old(self)@) + discovered(
                                given.take(i as int + 1),
                            ));
                        }
                    },
                    None => {},
                }
            }
            i += 1;
        }
        proof {
            assert(given.take(i as int) =~= given);
            assert forall|name: Seq<char>| #[trigger]
                lookup(old(self)@, name) is Some implies lookup(self@, name) == lookup(
                old(self)@,
                name,
            ) by {
                lemma_registered_stays_found(infos(old(self)@), discovered(given), name);
                lemma_position(infos(old(self)@), name);
                let i = position(infos(old(self)@), name)->0;
                assert(self@.take(old(self)@.len() as int)[i] == self@[i]);
            }
        }
    }

    /// Reads a line of input as a command name and its arguments, and
    /// dispatches it.
    pub fn try_execute(&self, ctx: &Terminal, input_data: String) -> (r: Result<Action, UniError>)
        ensures
            outcome_view(r) == try_dispatch(self@, ctx@, input_data@),
    {
        let line = input_data.as_str();
        if line.is_empty() {
            let mut out: Vec<Output> = Vec::new();
            out.push(Output::Stdout(String::from_str("\n")));
            let action = Action::Emit(out);
            proof {
                assert(action@ =~= ActionView::Emit(seq![OutputView::Stdout("\n"@)])) by {
                    assert(output_views(out@) =~= seq![
                        OutputView::Stdout("\n"@),
                    ]);
                }
            }
            return Ok(action);
        }
        let parts = words_of(line);
        proof {
            lemma_split_joined(line@, ' ');
        }
        let mut rest: Vec<&str> = Vec::new();
        let mut i: usize = 1;
        proof {
            assert(views(rest@) =~= words(line@).subrange(1, 1));
        }
        while i < parts.len()
            invariant
                1 <= i <= parts.len(),
                views(parts@) == words(line@),
                views(rest@) == words(line@).subrange(1, i as int),
            decreases parts.len() - i,
        {
            let ghost earlier = rest@;
            rest.push(parts[i]);
            proof {
                assert(views(parts@)[i as int] == parts@[i as int]@);
                assert(views(rest@) =~= views(earlier).push(parts@[i as int]@));
                assert(views(rest@) =~= words(line@).subrange(1, i as int + 1));
            }
            i += 1;
        }
        proof {
            assert(views(parts@).len() == parts@.len());
            assert(words(line@).subrange(1, i as int) =~= words(line@).skip(1));
            assert(views(parts@)[0] == parts@[0]@);
        }
        self.execute(ctx, parts[0], rest)
    }

    /// The commands, in the order of registration.
    pub fn iter(&self) -> (all: &Vec<Command>)
        ensures
            all@ == self@,
    {
        &self.storage
    }
}

} // verus!
