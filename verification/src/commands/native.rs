//! Commands that are executable files found on the search path.

use crate::commands::action::{output_views, Action, ActionView, Output, OutputView};
use crate::commands::{Cmd, CommandInfo, Describe, UniError, UniErrorView};
use crate::session::{Terminal, TerminalView};
use crate::platform::{file_name_of, final_component};
use crate::text::{
    chars_of, join2, join3, owned_views, render_signed, signed_decimal, views,
};
use vstd::prelude::*;
use vstd::string::StrSliceExecFns;

verus! {

/// The argument that asks for a child with an empty environment. It is taken
/// out of what the child is handed.
pub const SANDBOX_FLAG: &'static str = "--trs-sandbox";

/// What the manual shows for a command found on the search path.
pub const PATH_COMMAND_DOCS: &'static str = "
        This command is a file located on the filesystem.

        custom-options:
          --trs-sandbox: if this flag is present, the command is ran without any environment
                         variables, and isn't inserted into the actual arguments.
        ";

/// The name a file is invoked by: what stands before its last dot, or all of
/// the file's name where it holds no dot. One extension is taken off, never
/// more.
pub open spec fn command_name(file_name: Seq<char>) -> Seq<char> {
    match file_name.index_of_last('.') {
        Some(dot) => file_name.take(dot),
        None => file_name,
    }
}

/// The name of a command is as long as its file's name at most, and where the
/// file's name holds a dot the command's name stops right before the last one.
pub proof fn lemma_command_name_is_prefix(file_name: Seq<char>)
    ensures
        command_name(file_name).is_prefix_of(file_name),
        !file_name.contains('.') ==> command_name(file_name) == file_name,
        file_name.contains('.') ==> {
            let dot = command_name(file_name).len() as int;
            &&& dot < file_name.len()
            &&& file_name[dot] == '.'
            &&& forall|j: int| dot < j < file_name.len() ==> file_name[j] != '.'
        },
{
    file_name.index_of_last_ensures('.');
}

/// Derives a command's name from its file's name.
pub fn derive_name(file_name: &str) -> (name: String)
    ensures
        name@ == command_name(file_name@),
{
    let chars = chars_of(file_name);
    let mut i: usize = chars.len();
    while i > 0 && chars[i - 1] != '.'
        invariant
            i <= chars.len(),
            forall|j: int| i <= j < chars.len() ==> chars@[j] != '.',
        decreases i,
    {
        i -= 1;
    }
    proof {
        file_name@.index_of_last_ensures('.');
        if i > 0 {
            assert(file_name@[i - 1] == '.');
        }
    }
    if i == 0 {
        String::from_str(file_name)
    } else {
        String::from_str(file_name.substring_char(0, i - 1))
    }
}

/// A command that stands for an executable file.
#[derive(Clone, Debug, PartialEq, Eq)]
pub struct PathLoadedCommand {
    location: String,
    name: String,
}

impl PathLoadedCommand {
    /// Where the file is.
    pub closed spec fn location(&self) -> Seq<char> {
        self.location@
    }

    /// The name the file is invoked by.
    pub closed spec fn name_view(&self) -> Seq<char> {
        self.name@
    }

    /// What the registry knows of this command.
    pub open spec fn describe(&self) -> CommandInfo {
        CommandInfo {
            name: self.name_view(),
            desc: None,
            docs: Some(PATH_COMMAND_DOCS@),
            builtin: false,
            location: Some(self.location()),
        }
    }

    /// The command for the file at `location`, named by the final component
    /// of that path without its last extension. `None` where the path has no
    /// final component.
    pub fn new(location: String) -> (made: Option<PathLoadedCommand>)
        ensures
            match final_component(location@) {
                Some(file_name) => {
                    &&& made is Some
                    &&& made->0.location() == location@
                    &&& made->0.name_view() == command_name(file_name)
                },
                None => made is None,
            },
    {
        match file_name_of(location.as_str()) {
            Some(file_name) => {
                let name = derive_name(file_name.as_str());
                Some(PathLoadedCommand { location, name })
            },
            None => None,
        }
    }
}

/// The line that tells how a child ended: the command's name and the child's
/// exit code, or -1 where it left none.
pub open spec fn exit_line(name: Seq<char>, code: Option<i32>) -> Seq<char> {
    name + " exited with status ("@ + signed_decimal(
        match code {
            Some(c) => c as int,
            None => -1,
        },
    ) + ")\n"@
}

/// What the shell writes once it has run, or failed to run, a command's
/// file: where the child could not be started, the system's words and an
/// exit code of -1; else the child's exit code.
pub open spec fn spawn_report(name: Seq<char>, result: Result<Option<i32>, Seq<char>>) -> Seq<
    OutputView,
> {
    match result {
        Ok(code) => seq![OutputView::Stdout(exit_line(name, code))],
        Err(reason) => seq![
            OutputView::Stdout("failed to execute command ("@ + reason + ")\n"@),
            OutputView::Stdout(exit_line(name, None)),
        ],
    }
}

impl PathLoadedCommand {
    /// Puts the end of a run into words, all for standard output. Neither a
    /// child that could not be started nor one that failed is an error of
    /// the command.
    pub fn report(name: &str, result: &Result<Option<i32>, String>) -> (out: Vec<Output>)
        ensures
            output_views(out@) == spawn_report(
                name@,
                match *result {
                    Ok(code) => Ok(code),
                    Err(reason) => Err(reason@),
                },
            ),
    {
        let mut out: Vec<Output> = Vec::new();
        let code: i32 = match result {
            Ok(Some(code)) => *code,
            Ok(None) => -1,
            Err(reason) => {
                let line = join3("failed to execute command (", reason.as_str(), ")\n");
                out.push(Output::Stdout(line));
                -1
            },
        };
        let ghost told = out@;
        let mut line = join2(name, " exited with status (");
        line.append(render_signed(code).as_str());
        line.append(")\n");
        out.push(Output::Stdout(line));
        proof {
            assert(output_views(out@) =~= output_views(told).push(OutputView::Stdout(line@)));
            match result {
                Ok(c) => {
                    assert(output_views(told) =~= Seq::<OutputView>::empty());
                    assert(output_views(out@) =~= seq![OutputView::Stdout(line@)]);
                },
                Err(reason) => {
                    assert(output_views(out@) =~= seq![
                        OutputView::Stdout("failed to execute command ("@ + reason@ + ")\n"@),
                        OutputView::Stdout(line@),
                    ]);
                },
            }
        }
        out
    }
}

/// The arguments a child is handed: all but the sandbox flag, in their order.
pub open spec fn forwarded(args: Seq<Seq<char>>) -> Seq<Seq<char>> {
    args.filter(|arg: Seq<char>| arg != SANDBOX_FLAG@)
}

impl Describe for PathLoadedCommand {
    open spec fn info(&self) -> CommandInfo {
        self.describe()
    }

    fn name(&self) -> (r: &str) {
        self.name.as_str()
    }

    fn desc(&self) -> (r: Option<&str>) {
        None
    }

    fn docs(&self) -> (r: Option<&str>) {
        Some(PATH_COMMAND_DOCS)
    }

    fn is_builtin(&self) -> (r: bool) {
        false
    }

    fn file_location(&self) -> (r: Option<String>) {
        Some(self.location.clone())
    }
}

impl Cmd for PathLoadedCommand {
    /// The file is run with every argument but the sandbox flag, and with an
    /// empty environment exactly where that flag was among them.
    open spec fn plan(&self, ctx: TerminalView, args: Seq<Seq<char>>) -> Result<
        ActionView,
        UniErrorView,
    > {
        Ok(
            ActionView::Spawn {
                name: self.name_view(),
                program: self.location(),
                args: forwarded(args),
                clear_env: args.contains(SANDBOX_FLAG@),
            },
        )
    }

    fn execute(&self, ctx: &Terminal, args: Vec<&str>) -> (r: Result<Action, UniError>) {
        let ghost given = views(args@);
        let ghost keep = |arg: Seq<char>| arg != SANDBOX_FLAG@;
        let mut passed: Vec<String> = Vec::new();
        let mut clear_env = false;
        let mut i: usize = 0;
        proof {
            assert(given.take(0) =~= Seq::<Seq<char>>::empty());
            reveal(Seq::filter);
            assert(owned_views(passed@) =~= given.take(0).filter(keep));
        }
        while i < args.len()
            invariant
                i <= args.len(),
                given == views(args@),
                keep == |arg: Seq<char>| arg != SANDBOX_FLAG@,
                owned_views(passed@) == given.take(i as int).filter(keep),
                clear_env == given.take(i as int).contains(SANDBOX_FLAG@),
            decreases args.len() - i,
        {
            let arg = args[i];
            let ghost prev = given.take(i as int);
            let ghost next = given.take(i as int + 1);
            proof {
                assert(given[i as int] == arg@);
                assert(next =~= prev.push(arg@));
                prev.lemma_filter_push(arg@, keep);
                if prev.contains(SANDBOX_FLAG@) {
                    let k = choose|k: int| 0 <= k < prev.len() && #[trigger] prev[k] == SANDBOX_FLAG@;
                    assert(next[k] == SANDBOX_FLAG@);
                }
            }
            let ghost earlier = passed@;
            if arg.eq(SANDBOX_FLAG) {
                clear_env = true;
                proof {
                    assert(next[i as int] == SANDBOX_FLAG@);
                }
            } else {
                let kept = String::from_str(arg);
                passed.push(kept);
                proof {
                    assert(owned_views(passed@) =~= owned_views(earlier).push(arg@));
                    if next.contains(SANDBOX_FLAG@) {
                        let k = choose|k: int| 0 <= k < next.len() && #[trigger] next[k] == SANDBOX_FLAG@;
                        assert(prev[k] == SANDBOX_FLAG@);
                    }
                }
            }
            i += 1;
        }
        proof {
            assert(given.take(i as int) =~= given);
        }
        Ok(
            Action::Spawn {
                name: self.name.clone(),
                program: self.location.clone(),
                args: passed,
                clear_env,
            },
        )
    }
}

} // verus!
