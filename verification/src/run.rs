//! The course of one run of the shell, as a state machine.
//!
//! The work that only the surrounding program can do (storing the trace
//! configuration, creating the shell, executing commands) is requested
//! through an [`Action`]; its outcome comes back as an [`Event`]. What to do
//! next is decided here.

use crate::args::{CommandLineArgs, CommandLineArgsView};
use crate::backend::{select_input_backend, selected_input_backend, InputBackend};
use crate::dispatch::{execution_mode, select_execution_mode, ExecutionMode, ExecutionModeView};
use crate::events::{TraceEventConfig, TraceEventConfigView};
use crate::options::{shell_creation_options, ShellCreationOptions, ShellCreationOptionsView};
use vstd::prelude::*;

verus! {

/// The exit code of a run in which creating the shell or executing its
/// input reported an error.
pub const EXIT_FAILURE: u8 = 1;

/// What one run of the shell starts from.
#[derive(Clone, Debug, PartialEq, Eq)]
pub struct Invocation {
    /// The command line as the process received it.
    pub cli_args: Vec<String>,
    /// The parsed command line.
    pub args: CommandLineArgs,
    /// Whether standard input is a terminal; `None` where the platform
    /// cannot tell.
    pub stdin_is_terminal: Option<bool>,
    /// Text that describes the product.
    pub product_display_str: String,
    /// Version that the shell reports.
    pub shell_version: String,
}

/// Mathematical model of an [`Invocation`].
#[verifier::ext_equal]
pub struct InvocationView {
    pub cli_args: Seq<Seq<char>>,
    pub args: CommandLineArgsView,
    pub stdin_is_terminal: Option<bool>,
    pub product_display_str: Seq<char>,
    pub shell_version: Seq<char>,
}

impl View for Invocation {
    type V = InvocationView;

    open spec fn view(&self) -> InvocationView {
        InvocationView {
            cli_args: self.cli_args.deep_view(),
            args: self.args@,
            stdin_is_terminal: self.stdin_is_terminal,
            product_display_str: self.product_display_str@,
            shell_version: self.shell_version@,
        }
    }
}

/// How far a run has come.
#[derive(Clone, Copy, Debug, PartialEq, Eq, Structural)]
pub enum Phase {
    /// The trace configuration is being stored.
    InitializingTracing,
    /// The shell is being created.
    CreatingShell,
    /// The shell is executing its input.
    Running,
    /// The run is over, with this exit code.
    Done(u8),
}

/// The outcome of the work that an [`Action`] asked for.
#[derive(Clone, Copy, Debug, PartialEq, Eq, Structural)]
pub enum Event {
    /// The trace configuration has been stored.
    TracingInitialized,
    /// The shell has been created.
    ShellCreated,
    /// Creating the shell reported an error.
    ShellFailed,
    /// Execution came to its end; the shell's last command had this result.
    RunCompleted(u8),
    /// Execution reported an error.
    RunFailed,
}

/// Work to be done next.
#[derive(Clone, Debug, PartialEq, Eq)]
pub enum Action {
    /// Store this trace configuration.
    InitTracing(TraceEventConfig),
    /// Create a shell on this backend with these options.
    CreateShell {
        /// The input backend to build the shell on.
        backend: InputBackend,
        /// The options to create the shell with.
        options: ShellCreationOptions,
    },
    /// Let the shell consume its input in this mode.
    Execute(ExecutionMode),
    /// Leave the process with this exit code.
    Exit(u8),
}

/// Mathematical model of an [`Action`].
#[verifier::ext_equal]
pub enum ActionView {
    InitTracing(TraceEventConfigView),
    CreateShell { backend: InputBackend, options: ShellCreationOptionsView },
    Execute(ExecutionModeView),
    Exit(u8),
}

impl View for Action {
    type V = ActionView;

    open spec fn view(&self) -> ActionView {
        match self {
            Action::InitTracing(config) => ActionView::InitTracing(config@),
            Action::CreateShell { backend, options } => ActionView::CreateShell {
                backend: *backend,
                options: options@,
            },
            Action::Execute(mode) => ActionView::Execute(mode@),
            Action::Exit(code) => ActionView::Exit(*code),
        }
    }
}

/// The action that asks for the trace configuration of an invocation.
pub open spec fn init_tracing_action(invocation: InvocationView) -> ActionView {
    ActionView::InitTracing(
        TraceEventConfigView {
            enabled_debug_events: invocation.args.enabled_debug_events,
            disabled_events: invocation.args.disabled_events,
        },
    )
}

/// The action that asks for the shell of an invocation.
pub open spec fn create_shell_action(invocation: InvocationView) -> ActionView {
    ActionView::CreateShell {
        backend: selected_input_backend(
            invocation.args.input_backend,
            invocation.stdin_is_terminal,
        ),
        options: shell_creation_options(
            invocation.args,
            invocation.cli_args,
            invocation.product_display_str,
            invocation.shell_version,
        ),
    }
}

/// The action that asks for the input of an invocation to be consumed.
pub open spec fn execute_action(invocation: InvocationView) -> ActionView {
    ActionView::Execute(execution_mode(invocation.args))
}

/// The end of a run with the given exit code.
pub open spec fn finished(code: u8) -> (Phase, ActionView) {
    (Phase::Done(code), ActionView::Exit(code))
}

/// How a run begins: by storing the trace configuration.
pub open spec fn first_step(invocation: InvocationView) -> (Phase, ActionView) {
    (Phase::InitializingTracing, init_tracing_action(invocation))
}

/// How a run goes on from `phase` when `event` comes in.
///
/// Once the trace configuration is stored the shell is created; once the
/// shell exists it consumes its input in the mode the command line selects;
/// when that ends the run is over with the result of the shell's last
/// command. An error in creating the shell or in execution ends the run
/// with [`EXIT_FAILURE`], and so does an event that the phase does not
/// expect. A run that is over stays over, with the same exit code.
pub open spec fn next_step(invocation: InvocationView, phase: Phase, event: Event) -> (
    Phase,
    ActionView,
) {
    match phase {
        Phase::InitializingTracing => match event {
            Event::TracingInitialized => (Phase::CreatingShell, create_shell_action(invocation)),
            _ => finished(EXIT_FAILURE),
        },
        Phase::CreatingShell => match event {
            Event::ShellCreated => (Phase::Running, execute_action(invocation)),
            _ => finished(EXIT_FAILURE),
        },
        Phase::Running => match event {
            Event::RunCompleted(last_result) => finished(last_result),
            _ => finished(EXIT_FAILURE),
        },
        Phase::Done(code) => finished(code),
    }
}

/// Asks for the trace configuration to be stored.
fn init_tracing(invocation: &Invocation) -> (action: Action)
    ensures
        action@ == init_tracing_action(invocation@),
{
    Action::InitTracing(
        TraceEventConfig::init(
            &invocation.args.enabled_debug_events,
            &invocation.args.disabled_events,
        ),
    )
}

/// Asks for the shell to be created.
fn create_shell(invocation: &Invocation) -> (action: Action)
    ensures
        action@ == create_shell_action(invocation@),
{
    let backend = select_input_backend(invocation.args.input_backend, invocation.stdin_is_terminal);
    let options = ShellCreationOptions::from_args(
        &invocation.args,
        &invocation.cli_args,
        invocation.product_display_str.as_str(),
        invocation.shell_version.as_str(),
    );
    Action::CreateShell { backend, options }
}

/// Asks for the input to be consumed.
fn execute(invocation: &Invocation) -> (action: Action)
    ensures
        action@ == execute_action(invocation@),
{
    Action::Execute(select_execution_mode(&invocation.args))
}

/// Ends the run with the given exit code.
fn finish(code: u8) -> (step: (Phase, Action))
    ensures
        (step.0, step.1@) == finished(code),
{
    (Phase::Done(code), Action::Exit(code))
}

/// Begins a run: returns its first phase and the first action to perform.
pub fn start(invocation: &Invocation) -> (step: (Phase, Action))
    ensures
        (step.0, step.1@) == first_step(invocation@),
{
    (Phase::InitializingTracing, init_tracing(invocation))
}

/// Takes a run one step further: given the phase it is in and the outcome
/// of the last action, returns the next phase and the next action.
pub fn advance(invocation: &Invocation, phase: Phase, event: Event) -> (step: (Phase, Action))
    ensures
        (step.0, step.1@) == next_step(invocation@, phase, event),
{
    match phase {
        Phase::InitializingTracing => match event {
            Event::TracingInitialized => (Phase::CreatingShell, create_shell(invocation)),
            _ => finish(EXIT_FAILURE),
        },
        Phase::CreatingShell => match event {
            Event::ShellCreated => (Phase::Running, execute(invocation)),
            _ => finish(EXIT_FAILURE),
        },
        Phase::Running => match event {
            Event::RunCompleted(last_result) => finish(last_result),
            _ => finish(EXIT_FAILURE),
        },
        Phase::Done(code) => finish(code),
    }
}

/// The exit code of a run is the result of the shell's last command when
/// creation and execution both succeed, whichever mode the command line
/// selects, and it is [`EXIT_FAILURE`] when creating the shell or executing
/// its input reports an error. The mode that is executed is the one the
/// command line selects.
pub proof fn lemma_exit_code_of_run(invocation: InvocationView, last_result: u8)
    ensures
        ({
            let begun = first_step(invocation);
            let creating = next_step(invocation, begun.0, Event::TracingInitialized);
            let running = next_step(invocation, creating.0, Event::ShellCreated);
            &&& begun.1 == init_tracing_action(invocation)
            &&& creating.1 == create_shell_action(invocation)
            &&& running.1 == ActionView::Execute(execution_mode(invocation.args))
            &&& next_step(invocation, running.0, Event::RunCompleted(last_result)) == (
                Phase::Done(last_result),
                ActionView::Exit(last_result),
            )
            &&& next_step(invocation, running.0, Event::RunFailed) == (
                Phase::Done(EXIT_FAILURE),
                ActionView::Exit(EXIT_FAILURE),
            )
            &&& next_step(invocation, creating.0, Event::ShellFailed) == (
                Phase::Done(EXIT_FAILURE),
                ActionView::Exit(EXIT_FAILURE),
            )
        }),
        EXIT_FAILURE == 1,
{
}

/// In every phase and on every event, the process is told to exit exactly
/// when the run is over, and with the exit code of the run. A run that is
/// over stays over and keeps its exit code.
pub proof fn lemma_exit_exactly_when_done(invocation: InvocationView, phase: Phase, event: Event)
    ensures
        next_step(invocation, phase, event).1 is Exit <==> next_step(invocation, phase, event).0
            is Done,
        next_step(invocation, phase, event).0 matches Phase::Done(code) ==> next_step(
            invocation,
            phase,
            event,
        ).1 == ActionView::Exit(code),
        phase is Done ==> next_step(invocation, phase, event).0 == phase,
{
}

} // verus!
