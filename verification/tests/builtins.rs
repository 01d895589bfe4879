use termrs::commands::action::{Action, Output, PromptPart};
use termrs::commands::impls::{
    CdCommand, CdError, ClearCommand, ConfigCommand, DirItem, ExitCommand, HelpCommand,
    HistoryCommand, LsCommand, ManCommand, MkDirCommand, RmDirCommand, WhereCommand,
};
use termrs::commands::{AsStr, Cmd, Command, Describe, PathEntry, UniError};
use termrs::session::settings::Color;
use termrs::session::Terminal;

fn session() -> Terminal {
    Terminal::new(Ok("/work".to_string()), None, None).unwrap()
}

fn out(text: &str) -> Output {
    Output::Stdout(text.to_string())
}

fn item(name: &str, is_executable: bool, is_dir: bool, is_file: bool) -> DirItem {
    DirItem { name: name.to_string(), is_executable, is_dir, is_file }
}

const GREEN: &str = "\x1b[38;2;0;255;0m";
const LIGHT_BLUE: &str = "\x1b[38;2;173;216;230m";
const RED: &str = "\x1b[38;2;255;0;0m";
const RESET: &str = "\x1b[0m";

fn legend() -> String {
    format!("* {GREEN}Executable{RESET} * {LIGHT_BLUE}Directory{RESET} * {RED}File{RESET}\n")
}

#[test]
fn every_builtin_is_described() {
    let all: Vec<(Command, &str, &str)> = vec![
        (Command::Help(HelpCommand), "help", "display help information, including commands"),
        (Command::History(HistoryCommand), "history", "view your command history"),
        (Command::Cd(CdCommand), "cd", "change the working directory."),
        (Command::Ls(LsCommand), "ls", "list files and directorys in the current directory."),
        (Command::Man(ManCommand), "man", "view information about specific commands."),
        (
            Command::Exit(ExitCommand),
            "exit",
            "quit the application safely, saving all configuration",
        ),
        (Command::RmDir(RmDirCommand), "rmdir", "remove a directory"),
        (Command::MkDir(MkDirCommand), "mkdir", "create a directory"),
        (Command::Config(ConfigCommand), "cfg", "edit your configuration"),
        (Command::Clear(ClearCommand), "clear", "clear the console buffer"),
        (Command::Where(WhereCommand), "where", "find the location of a command"),
    ];
    for (cmd, name, desc) in all.iter() {
        assert_eq!(cmd.name(), *name);
        assert_eq!(cmd.desc(), Some(*desc));
        assert!(cmd.docs().is_some());
        assert!(cmd.is_builtin());
        assert_eq!(cmd.file_location(), None);
    }
}

#[test]
fn a_session_registers_the_builtins_in_order() {
    let t = session();
    let names: Vec<&str> = t.commands().iter().iter().map(|c| c.name()).collect();
    assert_eq!(
        names,
        vec!["help", "history", "cd", "ls", "man", "exit", "rmdir", "mkdir", "cfg", "clear", "where"]
    );
}

#[test]
fn help_lists_every_command() {
    let mut t = session();
    t.add_path_folder(&vec![PathEntry {
        path: "/opt/run.sh".to_string(),
        is_file: true,
        is_executable: true,
    }]);
    let action = HelpCommand.execute(&t, Vec::new()).unwrap();
    let lines = match action {
        Action::Emit(lines) => lines,
        other => panic!("{:?}", other),
    };
    assert_eq!(lines.len(), 12);
    assert_eq!(lines[0], out("help - display help information, including commands\n"));
    assert_eq!(lines[2], out("cd - change the working directory.\n"));
    assert_eq!(lines[10], out("where - find the location of a command\n"));
    assert_eq!(lines[11], out("run - No description\n"));
}

#[test]
fn help_with_b_lists_only_builtins() {
    let mut t = session();
    t.add_path_folder(&vec![PathEntry {
        path: "/opt/run.sh".to_string(),
        is_file: true,
        is_executable: true,
    }]);
    let lines = match HelpCommand.execute(&t, vec!["-b"]).unwrap() {
        Action::Emit(lines) => lines,
        other => panic!("{:?}", other),
    };
    assert_eq!(lines.len(), 11);
    assert_eq!(lines[10], out("where - find the location of a command\n"));
}

#[test]
fn history_goes_to_the_error_stream() {
    let mut t = session();
    t.record("ls".to_string());
    t.record("not a command".to_string());
    assert_eq!(
        HistoryCommand.execute(&t, Vec::new()),
        Ok(Action::Emit(vec![
            Output::Stderr("ls\n".to_string()),
            Output::Stderr("not a command\n".to_string()),
        ]))
    );
    assert_eq!(HistoryCommand.execute(&session(), vec!["x"]), Ok(Action::Emit(Vec::new())));
}

#[test]
fn cd_goes_below_the_working_directory() {
    let t = session();
    assert_eq!(
        CdCommand.execute(&t, vec!["../up", "ignored"]),
        Ok(Action::ChangeDirectory { target: "/work/../up".to_string() })
    );
}

#[test]
fn cd_needs_an_argument() {
    assert_eq!(
        CdCommand.execute(&session(), Vec::new()),
        Err(UniError::TooFewArguments("expected at least one argument, got zero.".to_string()))
    );
}

#[test]
fn a_refused_change_of_directory_is_an_error_of_cd() {
    let mut t = session();
    let e = t.directory_changed(Err("No such file or directory (os error 2)".to_string()));
    let expected =
        CdError::FailedToSetPath("No such file or directory (os error 2)".to_string());
    assert_eq!(
        expected.as_str(),
        "failed to set working directory: No such file or directory (os error 2)"
    );
    assert_eq!(e, Err(expected.clone().boxed()));
    assert_eq!(
        e,
        Err(UniError::CommandError(
            "failed to set working directory: No such file or directory (os error 2)".to_string()
        ))
    );
    assert_eq!(t.current_path(), "/work");
}

#[test]
fn a_change_of_directory_moves_the_session() {
    let mut t = session();
    assert_eq!(t.directory_changed(Ok("/work/projects".to_string())), Ok(()));
    assert_eq!(t.current_path(), "/work/projects");
    assert_eq!(
        CdCommand.execute(&t, vec!["x"]),
        Ok(Action::ChangeDirectory { target: "/work/projects/x".to_string() })
    );
}

#[test]
fn ls_asks_for_the_working_directory() {
    let t = session();
    assert_eq!(
        LsCommand.execute(&t, Vec::new()),
        Ok(Action::ListDirectory {
            path: "/work".to_string(),
            hide_executables: false,
            hide_directories: false,
            hide_files: false,
        })
    );
}

#[test]
fn ls_hides_a_kind_only_where_filtering_is_on() {
    let t = session();
    assert_eq!(
        LsCommand.execute(&t, vec!["-X", "-D", "-F"]),
        Ok(Action::ListDirectory {
            path: "/work".to_string(),
            hide_executables: false,
            hide_directories: false,
            hide_files: false,
        })
    );
    assert_eq!(
        LsCommand.execute(&t, vec!["-fX"]),
        Ok(Action::ListDirectory {
            path: "/work".to_string(),
            hide_executables: true,
            hide_directories: false,
            hide_files: false,
        })
    );
    assert_eq!(
        LsCommand.execute(&t, vec!["-f", "-DF"]),
        Ok(Action::ListDirectory {
            path: "/work".to_string(),
            hide_executables: false,
            hide_directories: true,
            hide_files: true,
        })
    );
}

#[test]
fn a_listing_of_nothing_is_the_legend_and_a_line_end() {
    assert_eq!(LsCommand::listing(&Vec::new(), false, false, false, 24), legend() + "\n");
}

#[test]
fn a_listing_colours_each_kind() {
    let items = vec![item("run.sh", true, false, true), item("docs", false, true, false)];
    let expected = legend()
        + &format!("{GREEN}run.sh{RESET}   {RED}run.sh{RESET}   {LIGHT_BLUE}docs{RESET}   \n");
    assert_eq!(LsCommand::listing(&items, false, false, false, 24), expected);
}

#[test]
fn a_listing_breaks_the_line_over_six_times_the_rows() {
    let items = vec![item("run.sh", true, false, true), item("docs", false, true, false)];
    let expected = legend()
        + &format!("{GREEN}run.sh{RESET}   \n{RED}run.sh{RESET}   {LIGHT_BLUE}docs{RESET}   \n");
    assert_eq!(LsCommand::listing(&items, false, false, false, 1), expected);
}

#[test]
fn a_listing_for_no_rows_breaks_before_every_cell() {
    let items = vec![item("a", false, false, true), item("b", false, false, true)];
    let expected = legend() + &format!("\n{RED}a{RESET}   \n{RED}b{RESET}   \n");
    assert_eq!(LsCommand::listing(&items, false, false, false, 0), expected);
}

#[test]
fn a_listing_measures_names_in_bytes() {
    let items = vec![item("ééé", false, false, true), item("b", false, false, true)];
    let fits = legend() + &format!("{RED}ééé{RESET}   {RED}b{RESET}   \n");
    assert_eq!(LsCommand::listing(&items, false, false, false, 2), fits);
    let items = vec![item("éééé", false, false, true), item("éééé", false, false, true)];
    let breaks = legend() + &format!("{RED}éééé{RESET}   \n{RED}éééé{RESET}   \n");
    assert_eq!(LsCommand::listing(&items, false, false, false, 2), breaks);
}

#[test]
fn a_listing_shows_a_placeholder_for_a_hidden_kind() {
    let items = vec![item("run.sh", true, false, true), item("docs", false, true, false)];
    let expected = legend() + &format!("(*)   {RED}run.sh{RESET}   (*)   \n");
    assert_eq!(LsCommand::listing(&items, true, true, false, 24), expected);
    let expected = legend() + &format!("{GREEN}run.sh{RESET}   (*)   {LIGHT_BLUE}docs{RESET}   \n");
    assert_eq!(LsCommand::listing(&items, false, false, true, 24), expected);
}

#[test]
fn an_entry_of_no_kind_is_not_listed() {
    let items = vec![item("socket", false, false, false)];
    assert_eq!(LsCommand::listing(&items, false, false, false, 24), legend() + "\n");
}

#[test]
fn man_shows_the_manual() {
    let t = session();
    assert_eq!(
        ManCommand.execute(&t, vec!["exit"]),
        Ok(Action::Emit(vec![
            out("( documentation for exit )\n"),
            out("\n        quits the application after saving all configuration.\n        \n"),
        ]))
    );
}

#[test]
fn man_needs_a_name() {
    assert_eq!(
        ManCommand.execute(&session(), Vec::new()),
        Err(UniError::TooFewArguments(
            "expected the name of a command to show the docs of.".to_string()
        ))
    );
}

#[test]
fn man_of_an_unknown_command_is_not_found() {
    assert_eq!(
        ManCommand.execute(&session(), vec!["nope"]),
        Err(UniError::NotFound("nope".to_string()))
    );
}

#[test]
fn exit_asks_to_quit() {
    assert_eq!(ExitCommand.execute(&session(), vec!["now"]), Ok(Action::Quit));
}

#[test]
fn rmdir_names_both_places() {
    let t = session();
    assert_eq!(
        RmDirCommand.execute(&t, vec!["old"]),
        Ok(Action::RemoveDirectory {
            preferred: "old".to_string(),
            fallback: "/work/old".to_string(),
            recursive: false,
        })
    );
    assert_eq!(
        RmDirCommand.execute(&t, vec!["/tmp/old", "-f"]),
        Ok(Action::RemoveDirectory {
            preferred: "/tmp/old".to_string(),
            fallback: "/work//tmp/old".to_string(),
            recursive: true,
        })
    );
}

#[test]
fn rmdir_needs_an_argument() {
    assert_eq!(
        RmDirCommand.execute(&session(), Vec::new()),
        Err(UniError::TooFewArguments("expected at least one argument: <dir_name>".to_string()))
    );
}

#[test]
fn a_failed_removal_is_told_on_the_error_stream() {
    assert_eq!(RmDirCommand::report(false, Ok(())), Vec::new());
    assert_eq!(RmDirCommand::report(true, Ok(())), Vec::new());
    assert_eq!(
        RmDirCommand::report(false, Err("not empty".to_string())),
        vec![Output::Stderr("failed to remove folder: (not empty)\n".to_string())]
    );
    assert_eq!(
        RmDirCommand::report(true, Err("denied".to_string())),
        vec![Output::Stderr("failed to remove folder and its contents: (denied)\n".to_string())]
    );
}

#[test]
fn mkdir_takes_a_relative_name_below_the_working_directory() {
    let t = session();
    assert_eq!(
        MkDirCommand.execute(&t, vec!["new"]),
        Ok(Action::CreateDirectory { path: "/work/new".to_string() })
    );
    assert_eq!(MkDirCommand::target("/work", "new", false), "/work/new");
    assert_eq!(MkDirCommand::target("/work", "/tmp/new", true), "/tmp/new");
}

#[test]
fn mkdir_takes_an_absolute_path_as_it_is() {
    let t = session();
    assert_eq!(
        MkDirCommand.execute(&t, vec!["/tmp/new"]),
        Ok(Action::CreateDirectory { path: "/tmp/new".to_string() })
    );
    assert_eq!(
        MkDirCommand.execute(&t, vec!["./new", "more"]),
        Ok(Action::CreateDirectory { path: "/work/./new".to_string() })
    );
}

#[test]
fn a_probed_entry_keeps_what_was_found() {
    let probed = DirItem::probe("no-such-entry".to_string(), "/no/such/entry", false, false);
    assert_eq!(probed, item("no-such-entry", false, false, false));
    let probed = PathEntry::probe("/no/such/entry".to_string(), false);
    assert_eq!(
        probed,
        PathEntry { path: "/no/such/entry".to_string(), is_file: false, is_executable: false }
    );
    let probed = PathEntry::probe("/no/such/entry".to_string(), true);
    assert_eq!(probed.path, "/no/such/entry");
    assert!(probed.is_file);
    assert!(!probed.is_executable);
}

#[test]
fn a_listing_for_the_terminal_at_hand_is_one_for_some_number_of_rows() {
    let items = vec![item("a", false, false, true), item("b", false, false, true)];
    if let Some(text) = LsCommand::listing_here(&items, false, false, false) {
        let flat = legend() + &format!("{RED}a{RESET}   {RED}b{RESET}   \n");
        assert_eq!(text.replace("\n\x1b", "\x1b"), flat.replace("\n\x1b", "\x1b"));
    }
}

#[test]
fn a_listing_needs_the_rows_of_a_terminal() {
    let items = vec![item("run.sh", true, false, true), item("docs", false, true, false)];
    assert_eq!(LsCommand::listing_for(&items, false, false, false, None), None);
    assert_eq!(LsCommand::listing_for(&Vec::new(), true, true, true, None), None);
    assert_eq!(
        LsCommand::listing_for(&items, false, false, false, Some(1)),
        Some(LsCommand::listing(&items, false, false, false, 1))
    );
    let expected = legend()
        + &format!("{GREEN}run.sh{RESET}   {RED}run.sh{RESET}   {LIGHT_BLUE}docs{RESET}   \n");
    assert_eq!(LsCommand::listing_for(&items, false, false, false, Some(24)), Some(expected));
}

#[test]
fn mkdir_needs_an_argument() {
    assert_eq!(
        MkDirCommand.execute(&session(), Vec::new()),
        Err(UniError::TooFewArguments("expected at least a directory name argument.".to_string()))
    );
}

#[test]
fn a_failed_creation_is_told_on_the_error_stream() {
    assert_eq!(MkDirCommand::report(Ok(())), Vec::new());
    assert_eq!(
        MkDirCommand::report(Err("File exists (os error 17)".to_string())),
        vec![Output::Stderr("failed to create directory: File exists (os error 17)\n".to_string())]
    );
}

#[test]
fn cfg_sets_the_colour_of_the_part_that_the_flag_names() {
    let t = session();
    assert_eq!(
        ConfigCommand.execute(&t, vec!["255", "0", "0", "-cU"]),
        Ok(Action::Recolor { part: PromptPart::UserName, color: Color::new(255, 0, 0) })
    );
    assert_eq!(
        ConfigCommand.execute(&t, vec!["1", "2", "3", "-c", "-G"]),
        Ok(Action::Recolor { part: PromptPart::Branch, color: Color::new(1, 2, 3) })
    );
    assert_eq!(
        ConfigCommand.execute(&t, vec!["+7", "008", "9", "-GUPc"]),
        Ok(Action::Recolor { part: PromptPart::Path, color: Color::new(7, 8, 9) })
    );
}

#[test]
fn cfg_needs_an_argument() {
    assert_eq!(
        ConfigCommand.execute(&session(), Vec::new()),
        Err(UniError::TooFewArguments("cfg expects at least one argument.".to_string()))
    );
}

#[test]
fn cfg_without_c_has_nothing_to_do() {
    assert_eq!(
        ConfigCommand.execute(&session(), vec!["255", "0", "0", "-U"]),
        Ok(Action::Emit(vec![Output::Stderr("no recognized flags, no work to do.\n".to_string())]))
    );
}

#[test]
fn cfg_with_c_needs_a_part() {
    assert_eq!(
        ConfigCommand.execute(&session(), vec!["255", "0", "0", "-c"]),
        Err(UniError::Custom("no recognized color flag. (use \"man cfg\")".to_string()))
    );
}

#[test]
fn cfg_refuses_what_is_no_colour_component() {
    let t = session();
    assert_eq!(
        ConfigCommand.execute(&t, vec!["256", "0", "0", "-cP"]),
        Err(UniError::Custom(
            "could not parse \"256\" as u8. (number too large to fit in target type)".to_string()
        ))
    );
    assert_eq!(
        ConfigCommand.execute(&t, vec!["1", "x", "0", "-cP"]),
        Err(UniError::Custom(
            "could not parse \"x\" as u8. (invalid digit found in string)".to_string()
        ))
    );
    assert_eq!(
        ConfigCommand.execute(&t, vec!["1", "2", "", "-cP"]),
        Err(UniError::Custom(
            "could not parse \"\" as u8. (cannot parse integer from empty string)".to_string()
        ))
    );
    assert_eq!(
        ConfigCommand.execute(&t, vec!["1", "2", "-cP"]),
        Err(UniError::Custom(
            "could not parse \"-cP\" as u8. (invalid digit found in string)".to_string()
        ))
    );
}

#[test]
fn cfg_refuses_a_missing_colour_component() {
    let t = session();
    assert_eq!(
        ConfigCommand.execute(&t, vec!["-cP"]),
        Err(UniError::Custom(
            "could not parse \"-cP\" as u8. (invalid digit found in string)".to_string()
        ))
    );
    assert_eq!(
        ConfigCommand.parse_color_argument(None),
        Err(UniError::Custom(
            "invalid argument format, expected value for color but got nothing.".to_string()
        ))
    );
    assert_eq!(ConfigCommand.parse_color_argument(Some(&"200")), Ok(200));
    assert_eq!(ConfigCommand::component("12", Ok(12)), Ok(12));
    assert_eq!(
        ConfigCommand::component("zz", Err("why".to_string())),
        Err(UniError::Custom("could not parse \"zz\" as u8. (why)".to_string()))
    );
}

#[test]
fn clear_writes_the_escape_sequence_without_a_line_end() {
    assert_eq!(ClearCommand.execute(&session(), Vec::new()), Ok(Action::Emit(vec![out("\x1B[2J")])));
}

#[test]
fn where_tells_the_file_of_a_command() {
    let mut t = session();
    t.add_path_folder(&vec![PathEntry {
        path: "/opt/run.sh".to_string(),
        is_file: true,
        is_executable: true,
    }]);
    assert_eq!(
        WhereCommand.execute(&t, vec!["run"]),
        Ok(Action::Emit(vec![out("run: /opt/run.sh\n")]))
    );
    assert_eq!(
        WhereCommand.execute(&t, vec!["cd"]),
        Ok(Action::Emit(vec![out("cd: this command is builtin\n")]))
    );
    assert_eq!(
        WhereCommand.execute(&t, vec!["nope"]),
        Ok(Action::Emit(vec![out("no such command \"nope\"\n")]))
    );
}

#[test]
fn where_needs_a_name() {
    assert_eq!(
        WhereCommand.execute(&session(), Vec::new()),
        Err(UniError::TooFewArguments("where expects at least one argument.".to_string()))
    );
}
