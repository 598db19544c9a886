//! Composition of the options a shell is created with.

use crate::args::{CommandLineArgs, CommandLineArgsView};
use crate::text::{begins_with_char, clone_strings, owned_string, starts_with_char};
use vstd::prelude::*;
use vstd::string::*;

verus! {

/// Options for the shell engine.
#[derive(Clone, Debug, PartialEq, Eq)]
pub struct CreateOptions {
    /// `shopt` options to disable.
    pub disabled_shopt_options: Vec<String>,
    /// Refuse to overwrite regular files through output redirection.
    pub disallow_overwriting_regular_files_via_output_redirection: bool,
    /// `shopt` options to enable.
    pub enabled_shopt_options: Vec<String>,
    /// Read commands without executing them.
    pub do_not_execute_commands: bool,
    /// Exit after one command.
    pub exit_after_one_command: bool,
    /// Whether the shell is a login shell.
    pub login: bool,
    /// Whether the shell is interactive.
    pub interactive: bool,
    /// Do not use a line editor for input.
    pub no_editing: bool,
    /// Do not process profile files.
    pub no_profile: bool,
    /// Do not process rc files.
    pub no_rc: bool,
    /// Do not inherit the environment of the calling process.
    pub do_not_inherit_env: bool,
    /// Whether the shell runs in POSIX mode.
    pub posix: bool,
    /// Print commands as they are executed.
    pub print_commands_and_arguments: bool,
    /// Whether commands are read from standard input.
    pub read_commands_from_stdin: bool,
    /// The name the shell reports as its own.
    pub shell_name: Option<String>,
    /// Text that describes the product.
    pub shell_product_display_str: Option<String>,
    /// Behave as `sh` does.
    pub sh_mode: bool,
    /// Print input as it is read.
    pub verbose: bool,
    /// Limit on the depth of function calls.
    pub max_function_call_depth: Option<usize>,
    /// Version that the shell reports.
    pub shell_version: Option<String>,
}

/// Options for an interactive shell: those of the engine and those of the
/// layer that reads input.
#[derive(Clone, Debug, PartialEq, Eq)]
pub struct ShellCreationOptions {
    /// Options for the shell engine.
    pub shell: CreateOptions,
    /// Disable bracketed paste.
    pub disable_bracketed_paste: bool,
    /// Disable colored output.
    pub disable_color: bool,
    /// Disable syntax highlighting.
    pub disable_highlighting: bool,
}

/// Mathematical model of [`CreateOptions`].
#[verifier::ext_equal]
pub struct CreateOptionsView {
    pub disabled_shopt_options: Seq<Seq<char>>,
    pub disallow_overwriting_regular_files_via_output_redirection: bool,
    pub enabled_shopt_options: Seq<Seq<char>>,
    pub do_not_execute_commands: bool,
    pub exit_after_one_command: bool,
    pub login: bool,
    pub interactive: bool,
    pub no_editing: bool,
    pub no_profile: bool,
    pub no_rc: bool,
    pub do_not_inherit_env: bool,
    pub posix: bool,
    pub print_commands_and_arguments: bool,
    pub read_commands_from_stdin: bool,
    pub shell_name: Option<Seq<char>>,
    pub shell_product_display_str: Option<Seq<char>>,
    pub sh_mode: bool,
    pub verbose: bool,
    pub max_function_call_depth: Option<usize>,
    pub shell_version: Option<Seq<char>>,
}

/// Mathematical model of [`ShellCreationOptions`].
#[verifier::ext_equal]
pub struct ShellCreationOptionsView {
    pub shell: CreateOptionsView,
    pub disable_bracketed_paste: bool,
    pub disable_color: bool,
    pub disable_highlighting: bool,
}

impl View for CreateOptions {
    type V = CreateOptionsView;

    open spec fn view(&self) -> CreateOptionsView {
        CreateOptionsView {
            disabled_shopt_options: self.disabled_shopt_options.deep_view(),
            disallow_overwriting_regular_files_via_output_redirection:
                self.disallow_overwriting_regular_files_via_output_redirection,
            enabled_shopt_options: self.enabled_shopt_options.deep_view(),
            do_not_execute_commands: self.do_not_execute_commands,
            exit_after_one_command: self.exit_after_one_command,
            login: self.login,
            interactive: self.interactive,
            no_editing: self.no_editing,
            no_profile: self.no_profile,
            no_rc: self.no_rc,
            do_not_inherit_env: self.do_not_inherit_env,
            posix: self.posix,
            print_commands_and_arguments: self.print_commands_and_arguments,
            read_commands_from_stdin: self.read_commands_from_stdin,
            shell_name: self.shell_name.deep_view(),
            shell_product_display_str: self.shell_product_display_str.deep_view(),
            sh_mode: self.sh_mode,
            verbose: self.verbose,
            max_function_call_depth: self.max_function_call_depth,
            shell_version: self.shell_version.deep_view(),
        }
    }
}

impl View for ShellCreationOptions {
    type V = ShellCreationOptionsView;

    open spec fn view(&self) -> ShellCreationOptionsView {
        ShellCreationOptionsView {
            shell: self.shell@,
            disable_bracketed_paste: self.disable_bracketed_paste,
            disable_color: self.disable_color,
            disable_highlighting: self.disable_highlighting,
        }
    }
}

/// The name the program was invoked by: the first token of the command
/// line as the process received it, if there is one.
pub open spec fn invocation_name(cli_args: Seq<Seq<char>>) -> Option<Seq<char>> {
    if cli_args.len() > 0 {
        Some(cli_args[0])
    } else {
        None
    }
}

/// The name the shell reports as its own: `sh` in `sh` mode, otherwise the
/// name the program was invoked by.
pub open spec fn reported_shell_name(sh_mode: bool, cli_args: Seq<Seq<char>>) -> Option<
    Seq<char>,
> {
    if sh_mode {
        Some("sh"@)
    } else {
        invocation_name(cli_args)
    }
}

/// Whether the shell is a login shell: when asked for explicitly, or when
/// the name the program was invoked by begins with a hyphen. The name the
/// shell reports as its own plays no part in this.
pub open spec fn is_login_shell(login: bool, cli_args: Seq<Seq<char>>) -> bool {
    login || (invocation_name(cli_args) matches Some(name) && starts_with_char(name, '-'))
}

/// Whether the shell reads its commands from standard input: when asked to
/// and no command was given, or when there is neither a command nor a script.
pub open spec fn reads_commands_from_stdin(args: CommandLineArgsView) -> bool {
    (args.read_commands_from_stdin && args.command is None) || (args.script_path is None
        && args.command is None)
}

/// The options that a command line asks for. `cli_args` is the command line
/// as the process received it; `product_display_str` and `shell_version`
/// describe the program.
pub open spec fn shell_creation_options(
    args: CommandLineArgsView,
    cli_args: Seq<Seq<char>>,
    product_display_str: Seq<char>,
    shell_version: Seq<char>,
) -> ShellCreationOptionsView {
    ShellCreationOptionsView {
        shell: CreateOptionsView {
            disabled_shopt_options: args.disabled_shopt_options,
            disallow_overwriting_regular_files_via_output_redirection:
                args.disallow_overwriting_regular_files_via_output_redirection,
            enabled_shopt_options: args.enabled_shopt_options,
            do_not_execute_commands: args.do_not_execute_commands,
            exit_after_one_command: args.exit_after_one_command,
            login: is_login_shell(args.login, cli_args),
            interactive: args.is_interactive(),
            no_editing: args.no_editing,
            no_profile: args.no_profile,
            no_rc: args.no_rc,
            do_not_inherit_env: args.do_not_inherit_env,
            posix: args.posix || args.sh_mode,
            print_commands_and_arguments: args.print_commands_and_arguments,
            read_commands_from_stdin: reads_commands_from_stdin(args),
            shell_name: reported_shell_name(args.sh_mode, cli_args),
            shell_product_display_str: Some(product_display_str),
            sh_mode: args.sh_mode,
            verbose: args.verbose,
            max_function_call_depth: None,
            shell_version: Some(shell_version),
        },
        disable_bracketed_paste: args.disable_bracketed_paste,
        disable_color: args.disable_color,
        disable_highlighting: !args.enable_highlighting,
    }
}

/// Determines the name the shell reports as its own.
fn shell_name(sh_mode: bool, cli_args: &Vec<String>) -> (name: Option<String>)
    ensures
        name.deep_view() == reported_shell_name(sh_mode, cli_args.deep_view()),
{
    if sh_mode {
        Some(String::from_str("sh"))
    } else if cli_args.len() > 0 {
        Some(cli_args[0].clone())
    } else {
        None
    }
}

/// Tells whether the shell is a login shell.
fn login_shell(login: bool, cli_args: &Vec<String>) -> (is_login: bool)
    ensures
        is_login == is_login_shell(login, cli_args.deep_view()),
{
    if login {
        true
    } else if cli_args.len() > 0 {
        begins_with_char(&cli_args[0], '-')
    } else {
        false
    }
}

/// Tells whether the shell reads its commands from standard input.
fn commands_come_from_stdin(args: &CommandLineArgs) -> (from_stdin: bool)
    ensures
        from_stdin == reads_commands_from_stdin(args@),
{
    (args.read_commands_from_stdin && args.command.is_none()) || (args.script_path.is_none()
        && args.command.is_none())
}

/// Tells whether the shell runs in POSIX mode.
fn posix_mode(posix: bool, sh_mode: bool) -> (enabled: bool)
    ensures
        enabled == (posix || sh_mode),
{
    posix || sh_mode
}

impl ShellCreationOptions {
    /// Composes the options to create the shell with from the parsed command
    /// line `args`, the command line `cli_args` as the process received it,
    /// and the program's description and version.
    #[verifier::rlimit(30)]
    pub fn from_args(
        args: &CommandLineArgs,
        cli_args: &Vec<String>,
        product_display_str: &str,
        shell_version: &str,
    ) -> (options: Self)
        ensures
            options@ == shell_creation_options(
                args@,
                cli_args.deep_view(),
                product_display_str@,
                shell_version@,
            ),
    {
        let argv0 = shell_name(args.sh_mode, cli_args);
        let login = login_shell(args.login, cli_args);
        let read_commands_from_stdin = commands_come_from_stdin(args);
        let posix = posix_mode(args.posix, args.sh_mode);
        let interactive = args.is_interactive();
        let disabled_shopt_options = clone_strings(&args.disabled_shopt_options);
        let enabled_shopt_options = clone_strings(&args.enabled_shopt_options);
        let shell = CreateOptions {
            disabled_shopt_options,
            disallow_overwriting_regular_files_via_output_redirection:
                args.disallow_overwriting_regular_files_via_output_redirection,
            enabled_shopt_options,
            do_not_execute_commands: args.do_not_execute_commands,
            exit_after_one_command: args.exit_after_one_command,
            login,
            interactive,
            no_editing: args.no_editing,
            no_profile: args.no_profile,
            no_rc: args.no_rc,
            do_not_inherit_env: args.do_not_inherit_env,
            posix,
            print_commands_and_arguments: args.print_commands_and_arguments,
            read_commands_from_stdin,
            shell_name: argv0,
            shell_product_display_str: Some(owned_string(product_display_str)),
            sh_mode: args.sh_mode,
            verbose: args.verbose,
            max_function_call_depth: None,
            shell_version: Some(owned_string(shell_version)),
        };
        let options = ShellCreationOptions {
            shell,
            disable_bracketed_paste: args.disable_bracketed_paste,
            disable_color: args.disable_color,
            disable_highlighting: !args.enable_highlighting,
        };
        options
    }
}

} // verus!
