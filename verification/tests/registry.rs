use termrs::commands::action::{Action, Output};
use termrs::commands::impls::{CdCommand, ExitCommand, HelpCommand};
use termrs::commands::native::PathLoadedCommand;
use termrs::commands::{Cmd, Command, Commands, Describe, PathEntry, UniError};
use termrs::session::Terminal;

fn session() -> Terminal {
    Terminal::new(Ok("/work".to_string()), Some("ana".to_string()), None).unwrap()
}

fn at(path: &str) -> Command {
    Command::Path(PathLoadedCommand::new(path.to_string()).unwrap())
}

fn entry(path: &str, is_file: bool, is_executable: bool) -> PathEntry {
    PathEntry { path: path.to_string(), is_file, is_executable }
}

#[test]
fn a_new_registry_is_empty() {
    let commands = Commands::new();
    assert_eq!(commands.count(), 0);
    assert!(commands.get("help").is_none());
    assert!(commands.iter().is_empty());
}

#[test]
fn push_registers_at_the_end() {
    let mut commands = Commands::new();
    commands.push(Command::Help(HelpCommand));
    commands.push(at("/bin/x.sh"));
    assert_eq!(commands.count(), 2);
    let names: Vec<&str> = commands.iter().iter().map(|c| c.name()).collect();
    assert_eq!(names, vec!["help", "x"]);
}

#[test]
fn first_registered_wins() {
    let mut commands = Commands::new();
    commands.push(at("/a/x"));
    commands.push(at("/b/x"));
    assert_eq!(commands.count(), 2);
    let found = commands.get("x").unwrap();
    assert_eq!(found.name(), "x");
    assert_eq!(found.file_location(), Some("/a/x".to_string()));
}

#[test]
fn first_registered_wins_behind_other_commands() {
    let mut commands = Commands::new();
    commands.push(Command::Help(HelpCommand));
    commands.push(at("/a/x.sh"));
    commands.push(Command::Exit(ExitCommand));
    commands.push(at("/b/x.py"));
    assert_eq!(commands.get("x").unwrap().file_location(), Some("/a/x.sh".to_string()));
}

#[test]
fn lookup_is_exact_and_case_sensitive() {
    let mut commands = Commands::new();
    commands.push(Command::Help(HelpCommand));
    assert!(commands.get("help").is_some());
    assert!(commands.get("Help").is_none());
    assert!(commands.get("hel").is_none());
    assert!(commands.get("help ").is_none());
    assert!(commands.get("").is_none());
}

#[test]
fn lookup_twice_gives_the_same_command() {
    let mut commands = Commands::new();
    commands.push(at("/a/x"));
    commands.push(at("/b/x"));
    let first = commands.get("x").unwrap();
    let second = commands.get("x").unwrap();
    assert!(std::ptr::eq(first, second));
    assert!(std::ptr::eq(first, &commands.iter()[0]));
    assert_eq!(commands.count(), 2);
}

#[test]
fn get_mut_reaches_the_first_command_of_the_name() {
    let mut commands = Commands::new();
    commands.push(at("/a/x"));
    commands.push(at("/b/x"));
    *commands.get_mut("x").unwrap() = at("/c/y");
    assert!(commands.get_mut("nothing").is_none());
    assert_eq!(commands.iter()[0].file_location(), Some("/c/y".to_string()));
    assert_eq!(commands.get("x").unwrap().file_location(), Some("/b/x".to_string()));
}

#[test]
fn the_empty_line_gives_one_blank_line() {
    let t = session();
    assert_eq!(
        t.commands().try_execute(&t, String::new()),
        Ok(Action::Emit(vec![Output::Stdout("\n".to_string())]))
    );
}

#[test]
fn the_empty_line_dispatches_nothing() {
    let t = session();
    let mut commands = Commands::new();
    commands.push(at("/home/ana/.profile"));
    assert_eq!(commands.iter()[0].name(), "");
    assert_eq!(
        commands.try_execute(&t, String::new()),
        Ok(Action::Emit(vec![Output::Stdout("\n".to_string())]))
    );
    assert!(matches!(commands.try_execute(&t, " ".to_string()), Ok(Action::Spawn { .. })));
}

#[test]
fn an_unknown_command_is_not_found() {
    let t = session();
    assert_eq!(
        t.commands().try_execute(&t, "missing_cmd arg1".to_string()),
        Err(UniError::NotFound("missing_cmd".to_string()))
    );
    assert_eq!(
        t.try_execute("missing_cmd arg1".to_string()),
        Err(UniError::NotFound("missing_cmd".to_string()))
    );
}

#[test]
fn dispatch_of_an_unknown_name_carries_the_name() {
    let t = session();
    assert_eq!(
        t.commands().execute(&t, "nope", vec!["a", "b"]),
        Err(UniError::NotFound("nope".to_string()))
    );
}

#[test]
fn dispatch_hands_on_what_the_command_gives() {
    let t = session();
    assert_eq!(t.commands().execute(&t, "exit", Vec::new()), Ok(Action::Quit));
    assert_eq!(
        t.commands().execute(&t, "cd", Vec::new()),
        CdCommand.execute(&t, Vec::new())
    );
    assert!(matches!(
        t.commands().execute(&t, "cd", Vec::new()),
        Err(UniError::TooFewArguments(_))
    ));
}

#[test]
fn the_first_word_names_the_command_and_the_rest_are_arguments() {
    let t = session();
    assert_eq!(
        t.try_execute("cd projects".to_string()),
        Ok(Action::ChangeDirectory { target: "/work/projects".to_string() })
    );
    assert_eq!(
        t.try_execute("rmdir old -f".to_string()),
        Ok(Action::RemoveDirectory {
            preferred: "old".to_string(),
            fallback: "/work/old".to_string(),
            recursive: true,
        })
    );
}

#[test]
fn a_line_of_one_space_names_the_empty_command() {
    let t = session();
    assert_eq!(t.try_execute(" ".to_string()), Err(UniError::NotFound(String::new())));
}

#[test]
fn words_are_trimmed_before_dispatch() {
    let t = session();
    assert_eq!(t.try_execute("exit\n".to_string()), Ok(Action::Quit));
    assert_eq!(
        t.try_execute("cd\t a\t".to_string()),
        Ok(Action::ChangeDirectory { target: "/work/a".to_string() })
    );
}

#[test]
fn path_discovery_names_commands_by_their_files() {
    let mut commands = Commands::new();
    commands.add_path_folder(&vec![
        entry("/opt/tools/run.sh", true, true),
        entry("/opt/tools/tool.tar.gz", true, true),
        entry("/opt/tools/deploy", true, true),
    ]);
    assert_eq!(commands.count(), 3);
    let expected = [
        ("run", "/opt/tools/run.sh"),
        ("tool.tar", "/opt/tools/tool.tar.gz"),
        ("deploy", "/opt/tools/deploy"),
    ];
    for (i, (name, path)) in expected.iter().enumerate() {
        let cmd = &commands.iter()[i];
        assert_eq!(cmd.name(), *name);
        assert!(!cmd.is_builtin());
        assert_eq!(cmd.file_location(), Some(path.to_string()));
        assert_eq!(commands.get(name).unwrap().file_location(), Some(path.to_string()));
    }
}

#[test]
fn path_discovery_skips_what_is_no_executable_file() {
    let mut commands = Commands::new();
    commands.add_path_folder(&vec![
        entry("/opt/tools/notes.txt", true, false),
        entry("/opt/tools/sub", false, true),
        entry("/opt/tools/run.sh", true, true),
        entry("/opt/tools/nothing", false, false),
    ]);
    assert_eq!(commands.count(), 1);
    assert_eq!(commands.iter()[0].name(), "run");
}

#[test]
fn path_discovery_of_an_empty_directory_registers_nothing() {
    let mut commands = Commands::new();
    commands.push(Command::Help(HelpCommand));
    commands.add_path_folder(&Vec::new());
    assert_eq!(commands.count(), 1);
}

#[test]
fn a_builtin_shadows_a_file_of_its_name() {
    let mut t = session();
    let before = t.commands().count();
    t.add_path_folder(&vec![entry("/usr/bin/cd", true, true), entry("/usr/bin/ls.exe", true, true)]);
    assert_eq!(t.commands().count(), before + 2);
    let cd = t.commands().get("cd").unwrap();
    assert!(cd.is_builtin());
    assert_eq!(cd.file_location(), None);
    assert_eq!(*cd, Command::Cd(CdCommand));
    assert!(t.commands().get("ls").unwrap().is_builtin());
    assert_eq!(
        t.try_execute("cd x".to_string()),
        Ok(Action::ChangeDirectory { target: "/work/x".to_string() })
    );
}

#[test]
fn an_earlier_directory_shadows_a_later_one() {
    let mut commands = Commands::new();
    commands.add_path_folder(&vec![entry("/first/tool", true, true)]);
    commands.add_path_folder(&vec![entry("/second/tool.sh", true, true)]);
    assert_eq!(commands.count(), 2);
    assert_eq!(commands.get("tool").unwrap().file_location(), Some("/first/tool".to_string()));
}

#[test]
fn the_sandbox_flag_clears_the_environment_and_is_not_forwarded() {
    let t = session();
    let cmd = PathLoadedCommand::new("/opt/tools/run.sh".to_string()).unwrap();
    assert_eq!(
        cmd.execute(&t, vec!["--trs-sandbox", "-x"]),
        Ok(Action::Spawn {
            name: "run".to_string(),
            program: "/opt/tools/run.sh".to_string(),
            args: vec!["-x".to_string()],
            clear_env: true,
        })
    );
}

#[test]
fn without_the_sandbox_flag_every_argument_is_forwarded() {
    let t = session();
    let cmd = PathLoadedCommand::new("/opt/tools/run.sh".to_string()).unwrap();
    assert_eq!(
        cmd.execute(&t, vec!["a", "--trs-sandbo", "-b", "--TRS-SANDBOX"]),
        Ok(Action::Spawn {
            name: "run".to_string(),
            program: "/opt/tools/run.sh".to_string(),
            args: vec![
                "a".to_string(),
                "--trs-sandbo".to_string(),
                "-b".to_string(),
                "--TRS-SANDBOX".to_string()
            ],
            clear_env: false,
        })
    );
    assert_eq!(
        cmd.execute(&t, Vec::new()),
        Ok(Action::Spawn {
            name: "run".to_string(),
            program: "/opt/tools/run.sh".to_string(),
            args: Vec::new(),
            clear_env: false,
        })
    );
}

#[test]
fn the_sandbox_flag_is_taken_out_wherever_it_stands() {
    let t = session();
    let cmd = PathLoadedCommand::new("/opt/tools/run.sh".to_string()).unwrap();
    assert_eq!(
        cmd.execute(&t, vec!["a", "--trs-sandbox", "b", "--trs-sandbox"]),
        Ok(Action::Spawn {
            name: "run".to_string(),
            program: "/opt/tools/run.sh".to_string(),
            args: vec!["a".to_string(), "b".to_string()],
            clear_env: true,
        })
    );
}

#[test]
fn a_discovered_command_is_dispatched_like_any_other() {
    let mut t = session();
    t.add_path_folder(&vec![entry("/opt/tools/run.sh", true, true)]);
    assert_eq!(
        t.try_execute("run --trs-sandbox -x".to_string()),
        Ok(Action::Spawn {
            name: "run".to_string(),
            program: "/opt/tools/run.sh".to_string(),
            args: vec!["-x".to_string()],
            clear_env: true,
        })
    );
}
