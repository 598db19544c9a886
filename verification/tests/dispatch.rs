use brush_shell::args::CommandLineArgs;
use brush_shell::dispatch::{select_execution_mode, ExecutionMode};

fn parameter_list(items: &[&str]) -> Vec<String> {
    items.iter().map(|item| item.to_string()).collect()
}

#[test]
fn command_selects_inline_mode() {
    let args = CommandLineArgs { command: Some("exit 7".to_string()), ..Default::default() };
    assert_eq!(
        select_execution_mode(&args),
        ExecutionMode::InlineCommand {
            command: "exit 7".to_string(),
            shell_name: None,
            positional_parameters: Vec::new(),
        }
    );
}

#[test]
fn inline_mode_takes_name_and_parameters_from_script() {
    let args = CommandLineArgs {
        command: Some("echo $0 $1".to_string()),
        script_path: Some("name".to_string()),
        script_args: parameter_list(&["a", "b"]),
        ..Default::default()
    };
    assert_eq!(
        select_execution_mode(&args),
        ExecutionMode::InlineCommand {
            command: "echo $0 $1".to_string(),
            shell_name: Some("name".to_string()),
            positional_parameters: parameter_list(&["a", "b"]),
        }
    );
}

#[test]
fn command_wins_over_stdin_and_script() {
    let args = CommandLineArgs {
        command: Some("true".to_string()),
        read_commands_from_stdin: true,
        script_path: Some("s.sh".to_string()),
        ..Default::default()
    };
    assert!(matches!(select_execution_mode(&args), ExecutionMode::InlineCommand { .. }));
}

#[test]
fn stdin_flag_selects_stdin_mode() {
    let args = CommandLineArgs { read_commands_from_stdin: true, ..Default::default() };
    assert_eq!(
        select_execution_mode(&args),
        ExecutionMode::StdinScript { forwarded_parameters: None }
    );
}

#[test]
fn stdin_mode_forwards_script_path_as_first_parameter() {
    let args = CommandLineArgs {
        read_commands_from_stdin: true,
        script_path: Some("s.sh".to_string()),
        script_args: parameter_list(&["a", "b"]),
        ..Default::default()
    };
    assert_eq!(
        select_execution_mode(&args),
        ExecutionMode::StdinScript {
            forwarded_parameters: Some(parameter_list(&["s.sh", "a", "b"])),
        }
    );
}

#[test]
fn stdin_mode_forwards_script_path_alone() {
    let args = CommandLineArgs {
        read_commands_from_stdin: true,
        script_path: Some("s.sh".to_string()),
        ..Default::default()
    };
    assert_eq!(
        select_execution_mode(&args),
        ExecutionMode::StdinScript { forwarded_parameters: Some(parameter_list(&["s.sh"])) }
    );
}

#[test]
fn script_path_selects_script_mode() {
    let args = CommandLineArgs {
        script_path: Some("script.sh".to_string()),
        script_args: parameter_list(&["a", "b"]),
        ..Default::default()
    };
    assert_eq!(
        select_execution_mode(&args),
        ExecutionMode::ScriptFile {
            script_path: "script.sh".to_string(),
            script_args: parameter_list(&["a", "b"]),
        }
    );
}

#[test]
fn nothing_given_selects_interactive_mode() {
    assert_eq!(select_execution_mode(&CommandLineArgs::default()), ExecutionMode::Interactive);
}

#[test]
fn interactive_flag_does_not_change_the_mode() {
    let args = CommandLineArgs {
        interactive: true,
        script_path: Some("script.sh".to_string()),
        ..Default::default()
    };
    assert!(matches!(select_execution_mode(&args), ExecutionMode::ScriptFile { .. }));
    let args = CommandLineArgs { interactive: true, ..Default::default() };
    assert_eq!(select_execution_mode(&args), ExecutionMode::Interactive);
}

#[test]
fn every_combination_selects_by_precedence() {
    for has_command in [false, true] {
        for from_stdin in [false, true] {
            for has_script in [false, true] {
                let args = CommandLineArgs {
                    command: if has_command { Some("c".to_string()) } else { None },
                    read_commands_from_stdin: from_stdin,
                    script_path: if has_script { Some("s".to_string()) } else { None },
                    ..Default::default()
                };
                let mode = select_execution_mode(&args);
                let expected: u8 = if has_command {
                    0
                } else if from_stdin {
                    1
                } else if has_script {
                    2
                } else {
                    3
                };
                let actual: u8 = match mode {
                    ExecutionMode::InlineCommand { .. } => 0,
                    ExecutionMode::StdinScript { .. } => 1,
                    ExecutionMode::ScriptFile { .. } => 2,
                    ExecutionMode::Interactive => 3,
                };
                assert_eq!(actual, expected);
            }
        }
    }
}
