//! The parsed command line of the shell.

use crate::backend::InputBackend;
use crate::events::TraceEvent;
use crate::text::append_strings;
use crate::tokens::{separator, splits_at_separator};
use vstd::prelude::*;

verus! {

/// The command line of the shell after its flags have been parsed.
#[derive(Clone, Debug, PartialEq, Eq)]
pub struct CommandLineArgs {
    /// Refuse to overwrite regular files through output redirection (`-C`).
    pub disallow_overwriting_regular_files_via_output_redirection: bool,
    /// Command to execute in place of a script or a session (`-c`).
    pub command: Option<String>,
    /// Run as an interactive shell (`-i`).
    pub interactive: bool,
    /// Act as a login shell (`-l`, `--login`).
    pub login: bool,
    /// Read commands without executing them (`-n`).
    pub do_not_execute_commands: bool,
    /// Do not use a line editor for input (`--noediting`).
    pub no_editing: bool,
    /// Do not process profile files (`--noprofile`).
    pub no_profile: bool,
    /// Do not process rc files (`--norc`).
    pub no_rc: bool,
    /// Do not inherit the environment of the calling process (`--noenv`).
    pub do_not_inherit_env: bool,
    /// `shopt` options to enable (`-O`).
    pub enabled_shopt_options: Vec<String>,
    /// `shopt` options to disable (`+O`).
    pub disabled_shopt_options: Vec<String>,
    /// Disable extensions that POSIX does not know (`--posix`).
    pub posix: bool,
    /// Read commands from standard input (`-s`).
    pub read_commands_from_stdin: bool,
    /// Behave as `sh` does (`--sh`).
    pub sh_mode: bool,
    /// Exit after one command (`-t`).
    pub exit_after_one_command: bool,
    /// Print input as it is read (`-v`, `--verbose`).
    pub verbose: bool,
    /// Print commands as they are executed (`-x`).
    pub print_commands_and_arguments: bool,
    /// Disable bracketed paste (`--disable-bracketed-paste`).
    pub disable_bracketed_paste: bool,
    /// Disable colored output (`--disable-color`).
    pub disable_color: bool,
    /// Enable syntax highlighting (`--enable-highlighting`).
    pub enable_highlighting: bool,
    /// Input backend requested in place of the default (`--input-backend`).
    pub input_backend: Option<InputBackend>,
    /// Event categories for which debug events are reported (`--debug`).
    pub enabled_debug_events: Vec<TraceEvent>,
    /// Event categories whose events are suppressed (`--disable-event`).
    pub disabled_events: Vec<TraceEvent>,
    /// Path of the script to execute.
    pub script_path: Option<String>,
    /// Arguments for the script.
    pub script_args: Vec<String>,
}

/// Mathematical model of [`CommandLineArgs`]: strings are sequences of
/// characters, lists are sequences.
#[verifier::ext_equal]
pub struct CommandLineArgsView {
    pub disallow_overwriting_regular_files_via_output_redirection: bool,
    pub command: Option<Seq<char>>,
    pub interactive: bool,
    pub login: bool,
    pub do_not_execute_commands: bool,
    pub no_editing: bool,
    pub no_profile: bool,
    pub no_rc: bool,
    pub do_not_inherit_env: bool,
    pub enabled_shopt_options: Seq<Seq<char>>,
    pub disabled_shopt_options: Seq<Seq<char>>,
    pub posix: bool,
    pub read_commands_from_stdin: bool,
    pub sh_mode: bool,
    pub exit_after_one_command: bool,
    pub verbose: bool,
    pub print_commands_and_arguments: bool,
    pub disable_bracketed_paste: bool,
    pub disable_color: bool,
    pub enable_highlighting: bool,
    pub input_backend: Option<InputBackend>,
    pub enabled_debug_events: Seq<TraceEvent>,
    pub disabled_events: Seq<TraceEvent>,
    pub script_path: Option<Seq<char>>,
    pub script_args: Seq<Seq<char>>,
}

impl View for CommandLineArgs {
    type V = CommandLineArgsView;

    open spec fn view(&self) -> CommandLineArgsView {
        CommandLineArgsView {
            disallow_overwriting_regular_files_via_output_redirection:
                self.disallow_overwriting_regular_files_via_output_redirection,
            command: self.command.deep_view(),
            interactive: self.interactive,
            login: self.login,
            do_not_execute_commands: self.do_not_execute_commands,
            no_editing: self.no_editing,
            no_profile: self.no_profile,
            no_rc: self.no_rc,
            do_not_inherit_env: self.do_not_inherit_env,
            enabled_shopt_options: self.enabled_shopt_options.deep_view(),
            disabled_shopt_options: self.disabled_shopt_options.deep_view(),
            posix: self.posix,
            read_commands_from_stdin: self.read_commands_from_stdin,
            sh_mode: self.sh_mode,
            exit_after_one_command: self.exit_after_one_command,
            verbose: self.verbose,
            print_commands_and_arguments: self.print_commands_and_arguments,
            disable_bracketed_paste: self.disable_bracketed_paste,
            disable_color: self.disable_color,
            enable_highlighting: self.enable_highlighting,
            input_backend: self.input_backend,
            enabled_debug_events: self.enabled_debug_events@,
            disabled_events: self.disabled_events@,
            script_path: self.script_path.deep_view(),
            script_args: self.script_args.deep_view(),
        }
    }
}

impl CommandLineArgsView {
    /// The command line on which no flag and no positional argument was given.
    pub open spec fn empty() -> CommandLineArgsView {
        CommandLineArgsView {
            disallow_overwriting_regular_files_via_output_redirection: false,
            command: None,
            interactive: false,
            login: false,
            do_not_execute_commands: false,
            no_editing: false,
            no_profile: false,
            no_rc: false,
            do_not_inherit_env: false,
            enabled_shopt_options: Seq::empty(),
            disabled_shopt_options: Seq::empty(),
            posix: false,
            read_commands_from_stdin: false,
            sh_mode: false,
            exit_after_one_command: false,
            verbose: false,
            print_commands_and_arguments: false,
            disable_bracketed_paste: false,
            disable_color: false,
            enable_highlighting: false,
            input_backend: None,
            enabled_debug_events: Seq::empty(),
            disabled_events: Seq::empty(),
            script_path: None,
            script_args: Seq::empty(),
        }
    }

    /// Script arguments are given only along with a script path.
    pub open spec fn well_formed(self) -> bool {
        self.script_path is None ==> self.script_args.len() == 0
    }

    /// The command line after the tokens that followed a separator have
    /// been taken in. Without a script path, the first of them becomes the
    /// script path and the others are added to the script arguments; with
    /// one, all of them are added to the script arguments. Nothing changes
    /// where there was no separator, or nothing after it.
    pub open spec fn with_separator_tail(self, tail: Option<Seq<Seq<char>>>) -> CommandLineArgsView {
        match tail {
            None => self,
            Some(tokens) => if self.script_path is Some {
                CommandLineArgsView { script_args: self.script_args + tokens, ..self }
            } else if tokens.len() > 0 {
                CommandLineArgsView {
                    script_path: Some(tokens[0]),
                    script_args: self.script_args + tokens.skip(1),
                    ..self
                }
            } else {
                self
            },
        }
    }

    /// Whether the shell is interactive: when asked for explicitly, or when
    /// there is neither a command nor a script to run and commands were not
    /// asked to be read from standard input.
    pub open spec fn is_interactive(self) -> bool {
        self.interactive || (self.command is None && self.script_path is None
            && !self.read_commands_from_stdin)
    }
}

impl Default for CommandLineArgs {
    fn default() -> (args: Self)
        ensures
            args@ == CommandLineArgsView::empty(),
    {
        CommandLineArgs {
            disallow_overwriting_regular_files_via_output_redirection: false,
            command: None,
            interactive: false,
            login: false,
            do_not_execute_commands: false,
            no_editing: false,
            no_profile: false,
            no_rc: false,
            do_not_inherit_env: false,
            enabled_shopt_options: Vec::new(),
            disabled_shopt_options: Vec::new(),
            posix: false,
            read_commands_from_stdin: false,
            sh_mode: false,
            exit_after_one_command: false,
            verbose: false,
            print_commands_and_arguments: false,
            disable_bracketed_paste: false,
            disable_color: false,
            enable_highlighting: false,
            input_backend: None,
            enabled_debug_events: Vec::new(),
            disabled_events: Vec::new(),
            script_path: None,
            script_args: Vec::new(),
        }
    }
}

impl CommandLineArgs {
    /// Takes in the tokens that followed the separator on the command line;
    /// `tail` is `None` where there was no separator.
    ///
    /// Where the flags gave no script path, the first token of the tail
    /// becomes the script path and the others are added to the script
    /// arguments, in their order. Where they gave one, it stays, and all
    /// tokens of the tail are added to the script arguments. A tail without
    /// tokens changes nothing.
    pub fn merge_separator_tail(self, tail: &Option<Vec<String>>) -> (merged: Self)
        ensures
            merged@ == self@.with_separator_tail(tail.deep_view()),
            self@.well_formed() ==> merged@.well_formed(),
    {
        match tail {
            None => self,
            Some(tokens) => {
                if self.script_path.is_some() {
                    self.with_more_script_args(tokens)
                } else if tokens.len() > 0 {
                    self.with_script_from(tokens)
                } else {
                    self
                }
            },
        }
    }

    /// Adds all of `tokens` to the script arguments.
    #[verifier::rlimit(30)]
    fn with_more_script_args(self, tokens: &Vec<String>) -> (merged: Self)
        ensures
            merged@ == (CommandLineArgsView {
                script_args: self@.script_args + tokens.deep_view(),
                ..self@
            }),
    {
        let script_args = append_strings(self.script_args, tokens, 0);
        assert(tokens.deep_view().skip(0) =~= tokens.deep_view());
        CommandLineArgs { script_args, ..self }
    }

    /// Makes the first of `tokens` the script path and adds the others to
    /// the script arguments.
    #[verifier::rlimit(30)]
    fn with_script_from(self, tokens: &Vec<String>) -> (merged: Self)
        requires
            tokens.len() > 0,
        ensures
            merged@ == (CommandLineArgsView {
                script_path: Some(tokens.deep_view()[0]),
                script_args: self@.script_args + tokens.deep_view().skip(1),
                ..self@
            }),
    {
        let script_path = Some(tokens[0].clone());
        let script_args = append_strings(self.script_args, tokens, 1);
        CommandLineArgs { script_path, script_args, ..self }
    }

    /// Tells whether the shell is to run as an interactive shell.
    pub fn is_interactive(&self) -> (interactive: bool)
        ensures
            interactive == self@.is_interactive(),
    {
        self.interactive || (self.command.is_none() && self.script_path.is_none()
            && !self.read_commands_from_stdin)
    }
}

/// Without a script path from the flags, the first token after the
/// separator becomes the script path, and the tokens after it become script
/// arguments, in their order, behind those that were there. This holds
/// where at least one token follows the separator.
pub proof fn lemma_separator_gives_script_path(
    tokens: Seq<Seq<char>>,
    head: Seq<Seq<char>>,
    tail: Seq<Seq<char>>,
    parsed: CommandLineArgsView,
)
    requires
        splits_at_separator(tokens, head, Some(tail)),
        parsed.script_path is None,
        tail.len() > 0,
    ensures
        parsed.with_separator_tail(Some(tail)).script_path == Some(tokens[(head.len() + 1) as int]),
        parsed.with_separator_tail(Some(tail)).script_args == parsed.script_args + tokens.skip(
            (head.len() + 2) as int,
        ),
        parsed.well_formed() ==> parsed.with_separator_tail(Some(tail)).script_args
            == tokens.skip((head.len() + 2) as int),
        parsed.with_separator_tail(Some(tail)) == (CommandLineArgsView {
            script_path: parsed.with_separator_tail(Some(tail)).script_path,
            script_args: parsed.with_separator_tail(Some(tail)).script_args,
            ..parsed
        }),
{
    assert(tokens == head + seq![separator()] + tail);
    assert(tail.skip(1) =~= tokens.skip((head.len() + 2) as int));
    if parsed.well_formed() {
        assert(parsed.script_args + tokens.skip((head.len() + 2) as int) =~= tokens.skip(
            (head.len() + 2) as int,
        ));
    }
}

/// With a script path from the flags, every token after the separator is
/// added to the script arguments, in its order, and the script path stays
/// as it was.
pub proof fn lemma_separator_keeps_script_path(
    tokens: Seq<Seq<char>>,
    head: Seq<Seq<char>>,
    tail: Seq<Seq<char>>,
    parsed: CommandLineArgsView,
)
    requires
        splits_at_separator(tokens, head, Some(tail)),
        parsed.script_path is Some,
    ensures
        parsed.with_separator_tail(Some(tail)).script_path == parsed.script_path,
        parsed.with_separator_tail(Some(tail)).script_args == parsed.script_args + tokens.skip(
            (head.len() + 1) as int,
        ),
        parsed.with_separator_tail(Some(tail)) == (CommandLineArgsView {
            script_args: parsed.with_separator_tail(Some(tail)).script_args,
            ..parsed
        }),
{
    assert(tokens == head + seq![separator()] + tail);
    assert(tail =~= tokens.skip((head.len() + 1) as int));
}

/// A command line without a separator, or with a separator and nothing
/// behind it, is what the flags made of it.
pub proof fn lemma_empty_tail_changes_nothing(parsed: CommandLineArgsView)
    ensures
        parsed.with_separator_tail(None) == parsed,
        parsed.with_separator_tail(Some(Seq::empty())) == parsed,
{
    assert(parsed.script_args + Seq::<Seq<char>>::empty() =~= parsed.script_args);
}

} // verus!
