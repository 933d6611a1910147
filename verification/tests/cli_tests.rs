use job_security::cli::{connect_failure_message, ConnectFailure};
use job_security::cli::{detect_current_shell, client_request, describe_exit, exit_report, Command, ReportError, RunContext, Shell};
use job_security::protocol::{ExitStatus, ProcessState, Request};

fn words(ws: &[&str]) -> Vec<String> {
    ws.iter().map(|w| w.to_string()).collect()
}

fn bytes(ws: &[&str]) -> Vec<Vec<u8>> {
    ws.iter().map(|w| w.as_bytes().to_vec()).collect()
}

#[test]
fn bash_wraps_the_joined_line() {
    let out = Shell::Bash.wrap_command(words(&["echo", "hello", "world"]));
    assert_eq!(out, bytes(&["bash", "-c", "echo hello world"]));
}

#[test]
fn zsh_wraps_the_joined_line() {
    let out = Shell::Zsh.wrap_command(words(&["ls", "-la"]));
    assert_eq!(out, bytes(&["zsh", "-c", "ls -la"]));
}

#[test]
fn other_shells_run_words_as_they_are() {
    assert_eq!(Shell::Nushell.wrap_command(words(&["ls", "-la"])), bytes(&["ls", "-la"]));
    assert_eq!(Shell::Unknown.wrap_command(words(&["ünïcode", "x"])), bytes(&["ünïcode", "x"]));
    assert_eq!(Shell::Unknown.wrap_command(Vec::new()), Vec::<Vec<u8>>::new());
}

#[test]
fn shell_detection() {
    assert_eq!(Shell::from_env(true, None), Some(Shell::Nushell));
    assert_eq!(Shell::from_env(true, Some("/bin/bash".to_string())), Some(Shell::Nushell));
    assert_eq!(Shell::from_env(false, Some("/bin/bash".to_string())), Some(Shell::Bash));
    assert_eq!(Shell::from_env(false, Some("/usr/bin/zsh".to_string())), Some(Shell::Zsh));
    assert_eq!(Shell::from_env(false, Some("zsh".to_string())), Some(Shell::Zsh));
    assert_eq!(Shell::from_env(false, Some("/usr/bin/fish".to_string())), Some(Shell::Unknown));
    assert_eq!(Shell::from_env(false, Some("/bin/bash/".to_string())), Some(Shell::Bash));
    assert_eq!(Shell::from_env(false, Some("/".to_string())), None);
    assert_eq!(Shell::from_env(false, Some("/bin/..".to_string())), None);
    assert_eq!(Shell::from_env(false, None), None);
}

fn context(shell: Shell) -> RunContext {
    RunContext {
        shell,
        env: vec![(b"HOME".to_vec(), b"/root".to_vec())],
        pwd: b"/tmp".to_vec(),
    }
}

#[test]
fn run_starts_a_wrapped_command() {
    let command = Command::Run { cmd: "sleep".to_string(), args: words(&["10", "&&", "ls"]), detached: true };
    assert!(command.starts_server());
    assert!(command.is_run());
    match client_request(command, Some(context(Shell::Bash))) {
        Some((Request::Start { command, env, pwd, rows, cols }, detached)) => {
            assert_eq!(command, bytes(&["bash", "-c", "sleep 10 && ls"]));
            assert_eq!(env, vec![(b"HOME".to_vec(), b"/root".to_vec())]);
            assert_eq!(pwd, b"/tmp".to_vec());
            assert_eq!((rows, cols), (0, 0));
            assert!(detached);
        },
        other => panic!("unexpected {:?}", other),
    }
}

#[test]
fn run_without_context_sends_nothing() {
    let command = Command::Run { cmd: "ls".to_string(), args: Vec::new(), detached: false };
    assert!(client_request(command, None).is_none());
}

#[test]
fn run_in_unknown_shell_keeps_words() {
    let command = Command::Run { cmd: "ls".to_string(), args: words(&["-l"]), detached: false };
    match client_request(command, Some(context(Shell::Unknown))) {
        Some((Request::Start { command, .. }, detached)) => {
            assert_eq!(command, bytes(&["ls", "-l"]));
            assert!(!detached);
        },
        other => panic!("unexpected {:?}", other),
    }
}

#[test]
fn other_subcommands() {
    let daemon = Command::Daemon { log_file: Some("x".to_string()) };
    assert!(!daemon.starts_server());
    assert!(client_request(daemon, None).is_none());
    match client_request(Command::Continue { detached: true, id: Some(3), fetch_output: true }, None) {
        Some((Request::Resume { id, with_output }, detached)) => {
            assert_eq!(id, Some(3));
            assert!(with_output);
            assert!(detached);
        },
        other => panic!("unexpected {:?}", other),
    }
    assert!(matches!(client_request(Command::KillServer, None), Some((Request::Quit, true))));
    assert!(matches!(client_request(Command::List, None), Some((Request::ListProcesses, false))));
    assert!(!Command::List.starts_server());
}

#[test]
fn exit_reports() {
    assert_eq!(exit_report(ProcessState::Running, None), Ok(None));
    assert_eq!(exit_report(ProcessState::Stopped, None), Ok(Some("Job stopped".to_string())));
    assert_eq!(
        exit_report(ProcessState::Terminated(ExitStatus::Exited(0)), None),
        Ok(Some("Job completed successfully".to_string()))
    );
    assert_eq!(
        exit_report(ProcessState::Terminated(ExitStatus::Exited(-3)), None),
        Ok(Some("Job completed with code -3".to_string()))
    );
    assert_eq!(
        exit_report(ProcessState::Terminated(ExitStatus::Signaled(15)), Some("SIGTERM".to_string())),
        Ok(Some("Job was terminated by signal SIGTERM".to_string()))
    );
    assert_eq!(
        exit_report(ProcessState::Terminated(ExitStatus::Signaled(15)), None),
        Err(ReportError::UnknownSignal(15))
    );
}

#[test]
fn describe_exit_names_signals() {
    assert_eq!(
        describe_exit(ProcessState::Terminated(ExitStatus::Signaled(9))),
        Ok(Some("Job was terminated by signal SIGKILL".to_string()))
    );
    assert_eq!(
        describe_exit(ProcessState::Terminated(ExitStatus::Signaled(2))),
        Ok(Some("Job was terminated by signal SIGINT".to_string()))
    );
    assert_eq!(
        describe_exit(ProcessState::Terminated(ExitStatus::Signaled(4242))),
        Err(ReportError::UnknownSignal(4242))
    );
    assert_eq!(
        describe_exit(ProcessState::Terminated(ExitStatus::Exited(1))),
        Ok(Some("Job completed with code 1".to_string()))
    );
}

#[test]
fn shell_for_file_names() {
    assert_eq!(Shell::from_file_name("bash"), Shell::Bash);
    assert_eq!(Shell::from_file_name("zsh"), Shell::Zsh);
    assert_eq!(Shell::from_file_name("nu"), Shell::Unknown);
    assert_eq!(Shell::from_file_name("bash5"), Shell::Unknown);
    assert_eq!(Shell::from_file_name(""), Shell::Unknown);
}

#[test]
fn daemon_not_running() {
    assert_eq!(connect_failure_message(ConnectFailure::NotFound), Some("Daemon is not running".to_string()));
    assert_eq!(
        connect_failure_message(ConnectFailure::ConnectionRefused),
        Some("Daemon is not running".to_string())
    );
    assert_eq!(connect_failure_message(ConnectFailure::Other), None);
}

#[test]
fn current_shell_in_its_domain() {
    assert_eq!(detect_current_shell(true, None), Shell::Nushell);
    assert_eq!(detect_current_shell(false, Some("/bin/zsh".to_string())), Shell::Zsh);
    assert_eq!(detect_current_shell(false, Some("/usr/local/bin/bash".to_string())), Shell::Bash);
    assert_eq!(detect_current_shell(false, Some("/bin/sh".to_string())), Shell::Unknown);
}

#[test]
fn common_signal_reports() {
    assert_eq!(
        describe_exit(ProcessState::Terminated(ExitStatus::Signaled(15))),
        Ok(Some("Job was terminated by signal SIGTERM".to_string()))
    );
    assert_eq!(
        describe_exit(ProcessState::Terminated(ExitStatus::Signaled(1))),
        Ok(Some("Job was terminated by signal SIGHUP".to_string()))
    );
}
