use brush_shell::args::CommandLineArgs;
use brush_shell::backend::InputBackend;
use brush_shell::dispatch::ExecutionMode;
use brush_shell::events::{TraceEvent, TraceEventConfig};
use brush_shell::options::ShellCreationOptions;
use brush_shell::run::{advance, start, Action, Event, Invocation, Phase, EXIT_FAILURE};
use brush_shell::tokens::split_at_separator;

fn word_list(items: &[&str]) -> Vec<String> {
    items.iter().map(|item| item.to_string()).collect()
}

fn invocation_of(
    cli_args: &[&str],
    args: CommandLineArgs,
    stdin_is_terminal: Option<bool>,
) -> Invocation {
    Invocation {
        cli_args: word_list(cli_args),
        args,
        stdin_is_terminal,
        product_display_str: "brush 1.2.3".to_string(),
        shell_version: "1.2.3".to_string(),
    }
}

fn run_until_execution(invocation: &Invocation) -> (Phase, Action) {
    let (phase, _) = start(invocation);
    let (phase, _) = advance(invocation, phase, Event::TracingInitialized);
    advance(invocation, phase, Event::ShellCreated)
}

#[test]
fn failure_exit_code_is_one() {
    assert_eq!(EXIT_FAILURE, 1);
}

#[test]
fn run_begins_with_trace_configuration() {
    let args = CommandLineArgs {
        enabled_debug_events: vec![TraceEvent::Parse],
        disabled_events: vec![TraceEvent::Jobs, TraceEvent::Input],
        ..Default::default()
    };
    let invocation = invocation_of(&["brush"], args, Some(true));
    let (phase, action) = start(&invocation);
    assert_eq!(phase, Phase::InitializingTracing);
    let expected =
        TraceEventConfig::init(&vec![TraceEvent::Parse], &vec![TraceEvent::Jobs, TraceEvent::Input]);
    assert_eq!(action, Action::InitTracing(expected));
}

#[test]
fn shell_is_created_after_tracing() {
    let args = CommandLineArgs { login: true, ..Default::default() };
    let invocation = invocation_of(&["brush", "-l"], args.clone(), Some(true));
    let (phase, action) = advance(&invocation, Phase::InitializingTracing, Event::TracingInitialized);
    assert_eq!(phase, Phase::CreatingShell);
    let options =
        ShellCreationOptions::from_args(&args, &word_list(&["brush", "-l"]), "brush 1.2.3", "1.2.3");
    assert!(options.shell.login);
    assert_eq!(action, Action::CreateShell { backend: InputBackend::Reedline, options });
}

#[test]
fn requested_backend_is_used_for_the_shell() {
    let args = CommandLineArgs { input_backend: Some(InputBackend::Basic), ..Default::default() };
    let invocation = invocation_of(&["brush"], args, Some(true));
    let (_, action) = advance(&invocation, Phase::InitializingTracing, Event::TracingInitialized);
    match action {
        Action::CreateShell { backend, .. } => assert_eq!(backend, InputBackend::Basic),
        other => panic!("unexpected action {:?}", other),
    }
}

#[test]
fn inline_command_exits_with_its_result() {
    let tokens = word_list(&["brush", "-c", "exit 7"]);
    let (head, tail) = split_at_separator(&tokens);
    assert_eq!(head, tokens);
    let parsed = CommandLineArgs { command: Some("exit 7".to_string()), ..Default::default() };
    let args = parsed.merge_separator_tail(&tail);
    let invocation = invocation_of(&["brush", "-c", "exit 7"], args, Some(true));
    let (phase, action) = run_until_execution(&invocation);
    assert_eq!(phase, Phase::Running);
    assert_eq!(
        action,
        Action::Execute(ExecutionMode::InlineCommand {
            command: "exit 7".to_string(),
            shell_name: None,
            positional_parameters: Vec::new(),
        })
    );
    let (phase, action) = advance(&invocation, phase, Event::RunCompleted(7));
    assert_eq!(phase, Phase::Done(7));
    assert_eq!(action, Action::Exit(7));
}

#[test]
fn script_file_gets_its_positional_parameters() {
    let args = CommandLineArgs {
        script_path: Some("script.sh".to_string()),
        script_args: word_list(&["a", "b"]),
        ..Default::default()
    };
    let invocation = invocation_of(&["brush", "script.sh", "a", "b"], args, Some(true));
    let (phase, action) = run_until_execution(&invocation);
    assert_eq!(phase, Phase::Running);
    assert_eq!(
        action,
        Action::Execute(ExecutionMode::ScriptFile {
            script_path: "script.sh".to_string(),
            script_args: word_list(&["a", "b"]),
        })
    );
}

#[test]
fn piped_input_without_flags_runs_interactively_on_minimal_backend() {
    let invocation = invocation_of(&["brush"], CommandLineArgs::default(), Some(false));
    let (phase, action) = start(&invocation);
    assert!(matches!(action, Action::InitTracing(_)));
    let (phase, action) = advance(&invocation, phase, Event::TracingInitialized);
    match action {
        Action::CreateShell { backend, options } => {
            assert_eq!(backend, InputBackend::Minimal);
            assert!(options.shell.read_commands_from_stdin);
        },
        other => panic!("unexpected action {:?}", other),
    }
    let (phase, action) = advance(&invocation, phase, Event::ShellCreated);
    assert_eq!(action, Action::Execute(ExecutionMode::Interactive));
    let (phase, action) = advance(&invocation, phase, Event::RunCompleted(0));
    assert_eq!(phase, Phase::Done(0));
    assert_eq!(action, Action::Exit(0));
}

#[test]
fn piped_input_exits_with_result_of_last_command() {
    let invocation = invocation_of(&["brush"], CommandLineArgs::default(), Some(false));
    let (phase, _) = run_until_execution(&invocation);
    let (phase, action) = advance(&invocation, phase, Event::RunCompleted(42));
    assert_eq!(phase, Phase::Done(42));
    assert_eq!(action, Action::Exit(42));
}

#[test]
fn exit_code_is_last_result_in_every_mode() {
    let inline = CommandLineArgs { command: Some("true".to_string()), ..Default::default() };
    let stdin = CommandLineArgs { read_commands_from_stdin: true, ..Default::default() };
    let script = CommandLineArgs { script_path: Some("s.sh".to_string()), ..Default::default() };
    let interactive = CommandLineArgs::default();
    for args in [inline, stdin, script, interactive] {
        for last_result in [0u8, 1, 2, 127, 255] {
            let invocation = invocation_of(&["brush"], args.clone(), Some(true));
            let (phase, action) = run_until_execution(&invocation);
            assert!(matches!(action, Action::Execute(_)));
            let (phase, action) = advance(&invocation, phase, Event::RunCompleted(last_result));
            assert_eq!(phase, Phase::Done(last_result));
            assert_eq!(action, Action::Exit(last_result));
        }
    }
}

#[test]
fn failed_creation_exits_with_one() {
    let invocation = invocation_of(&["brush"], CommandLineArgs::default(), Some(true));
    let (phase, action) = advance(&invocation, Phase::CreatingShell, Event::ShellFailed);
    assert_eq!(phase, Phase::Done(1));
    assert_eq!(action, Action::Exit(1));
}

#[test]
fn failed_execution_exits_with_one_in_every_mode() {
    let inline = CommandLineArgs { command: Some("true".to_string()), ..Default::default() };
    let stdin = CommandLineArgs { read_commands_from_stdin: true, ..Default::default() };
    let script = CommandLineArgs { script_path: Some("s.sh".to_string()), ..Default::default() };
    let interactive = CommandLineArgs::default();
    for args in [inline, stdin, script, interactive] {
        let invocation = invocation_of(&["brush"], args, Some(true));
        let (phase, _) = run_until_execution(&invocation);
        let (phase, action) = advance(&invocation, phase, Event::RunFailed);
        assert_eq!(phase, Phase::Done(1));
        assert_eq!(action, Action::Exit(1));
    }
}

#[test]
fn unexpected_event_ends_the_run_with_failure() {
    let invocation = invocation_of(&["brush"], CommandLineArgs::default(), Some(true));
    let cases = [
        (Phase::InitializingTracing, Event::ShellCreated),
        (Phase::InitializingTracing, Event::ShellFailed),
        (Phase::InitializingTracing, Event::RunCompleted(0)),
        (Phase::InitializingTracing, Event::RunFailed),
        (Phase::CreatingShell, Event::TracingInitialized),
        (Phase::CreatingShell, Event::RunCompleted(0)),
        (Phase::CreatingShell, Event::RunFailed),
        (Phase::Running, Event::TracingInitialized),
        (Phase::Running, Event::ShellCreated),
        (Phase::Running, Event::ShellFailed),
    ];
    for (phase, event) in cases {
        let (next, action) = advance(&invocation, phase, event);
        assert_eq!(next, Phase::Done(1));
        assert_eq!(action, Action::Exit(1));
    }
}

#[test]
fn finished_run_stays_finished() {
    let invocation = invocation_of(&["brush"], CommandLineArgs::default(), Some(true));
    let events = [
        Event::TracingInitialized,
        Event::ShellCreated,
        Event::ShellFailed,
        Event::RunCompleted(9),
        Event::RunFailed,
    ];
    for code in [0u8, 1, 7, 255] {
        for event in events {
            let (phase, action) = advance(&invocation, Phase::Done(code), event);
            assert_eq!(phase, Phase::Done(code));
            assert_eq!(action, Action::Exit(code));
        }
    }
}
