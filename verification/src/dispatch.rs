//! Choice of the way in which the shell consumes its input.

use crate::args::{CommandLineArgs, CommandLineArgsView};
use crate::text::{append_strings, clone_optional_string, clone_strings};
use vstd::prelude::*;

verus! {

/// The way in which the shell consumes its input. Exactly one is chosen for
/// each invocation.
#[derive(Clone, Debug, PartialEq, Eq)]
pub enum ExecutionMode {
    /// Execute one command given on the command line, then exit.
    InlineCommand {
        /// The text of the command.
        command: String,
        /// The name the shell reports as its own, where one was given.
        shell_name: Option<String>,
        /// The positional parameters of the command.
        positional_parameters: Vec<String>,
    },
    /// Read and execute commands from standard input.
    StdinScript {
        /// The positional parameters to set before reading, where a script
        /// path was given: the path, followed by the script arguments.
        forwarded_parameters: Option<Vec<String>>,
    },
    /// Execute a script file.
    ScriptFile {
        /// The path of the script.
        script_path: String,
        /// The positional parameters of the script.
        script_args: Vec<String>,
    },
    /// Run an interactive session.
    Interactive,
}

/// Mathematical model of [`ExecutionMode`].
#[verifier::ext_equal]
pub enum ExecutionModeView {
    InlineCommand {
        command: Seq<char>,
        shell_name: Option<Seq<char>>,
        positional_parameters: Seq<Seq<char>>,
    },
    StdinScript { forwarded_parameters: Option<Seq<Seq<char>>> },
    ScriptFile { script_path: Seq<char>, script_args: Seq<Seq<char>> },
    Interactive,
}

impl View for ExecutionMode {
    type V = ExecutionModeView;

    open spec fn view(&self) -> ExecutionModeView {
        match self {
            ExecutionMode::InlineCommand { command, shell_name, positional_parameters } =>
                ExecutionModeView::InlineCommand {
                    command: command@,
                    shell_name: shell_name.deep_view(),
                    positional_parameters: positional_parameters.deep_view(),
                },
            ExecutionMode::StdinScript { forwarded_parameters } => ExecutionModeView::StdinScript {
                forwarded_parameters: forwarded_parameters.deep_view(),
            },
            ExecutionMode::ScriptFile { script_path, script_args } => ExecutionModeView::ScriptFile {
                script_path: script_path@,
                script_args: script_args.deep_view(),
            },
            ExecutionMode::Interactive => ExecutionModeView::Interactive,
        }
    }
}

/// The execution mode that a command line asks for. A command wins over
/// everything else; then the request to read commands from standard input;
/// then a script path; an interactive session is what is left.
pub open spec fn execution_mode(args: CommandLineArgsView) -> ExecutionModeView {
    if args.command is Some {
        ExecutionModeView::InlineCommand {
            command: args.command->0,
            shell_name: args.script_path,
            positional_parameters: args.script_args,
        }
    } else if args.read_commands_from_stdin {
        ExecutionModeView::StdinScript {
            forwarded_parameters: match args.script_path {
                Some(path) => Some(seq![path] + args.script_args),
                None => None,
            },
        }
    } else if args.script_path is Some {
        ExecutionModeView::ScriptFile {
            script_path: args.script_path->0,
            script_args: args.script_args,
        }
    } else {
        ExecutionModeView::Interactive
    }
}

/// The positional parameters for commands read from standard input: the
/// script path followed by the script arguments.
fn prepend_script_path(script_path: &String, script_args: &Vec<String>) -> (parameters: Vec<String>)
    ensures
        parameters.deep_view() == seq![script_path@] + script_args.deep_view(),
{
    let mut path_alone: Vec<String> = Vec::new();
    path_alone.push(script_path.clone());
    assert(path_alone.deep_view() =~= seq![script_path@]);
    let parameters = append_strings(path_alone, script_args, 0);
    assert(script_args.deep_view().skip(0) =~= script_args.deep_view());
    parameters
}

/// Selects the execution mode for a parsed command line.
pub fn select_execution_mode(args: &CommandLineArgs) -> (mode: ExecutionMode)
    ensures
        mode@ == execution_mode(args@),
{
    if let Some(command) = &args.command {
        ExecutionMode::InlineCommand {
            command: command.clone(),
            shell_name: clone_optional_string(&args.script_path),
            positional_parameters: clone_strings(&args.script_args),
        }
    } else if args.read_commands_from_stdin {
        ExecutionMode::StdinScript {
            forwarded_parameters: match &args.script_path {
                Some(path) => Some(prepend_script_path(path, &args.script_args)),
                None => None,
            },
        }
    } else if let Some(path) = &args.script_path {
        ExecutionMode::ScriptFile {
            script_path: path.clone(),
            script_args: clone_strings(&args.script_args),
        }
    } else {
        ExecutionMode::Interactive
    }
}

/// Mode selection is total and exclusive: every command line selects
/// exactly one of the four modes, and which one follows the order of
/// precedence: command, standard input, script file, interactive session.
pub proof fn lemma_execution_mode_total_and_exclusive(args: CommandLineArgsView)
    ensures
        execution_mode(args) is InlineCommand <==> args.command is Some,
        execution_mode(args) is StdinScript <==> args.command is None
            && args.read_commands_from_stdin,
        execution_mode(args) is ScriptFile <==> args.command is None
            && !args.read_commands_from_stdin && args.script_path is Some,
        execution_mode(args) is Interactive <==> args.command is None
            && !args.read_commands_from_stdin && args.script_path is None,
        (if execution_mode(args) is InlineCommand { 1int } else { 0int })
            + (if execution_mode(args) is StdinScript { 1int } else { 0int })
            + (if execution_mode(args) is ScriptFile { 1int } else { 0int })
            + (if execution_mode(args) is Interactive { 1int } else { 0int }) == 1,
{
}

} // verus!
