//! What the `jobs` command decides: which shell wraps a command line, which
//! request each subcommand sends, and what is reported when a job ends.
use vstd::prelude::*;
use vstd::string::*;
use vstd::utf8::encode_utf8;

use crate::protocol::{ExitStatus, OsBytes, ProcessState, Request};
use crate::text::{join_with_spaces, join_words, signed_decimal, signed_decimal_string};

verus! {

/// The shells whose expression syntax `jobs run` knows how to hand over.
#[derive(Debug, Clone, Copy, PartialEq, Eq, Structural)]
pub enum Shell {
    Bash,
    Zsh,
    Nushell,
    Unknown,
}

/// The subcommands of `jobs`.
#[derive(Debug, PartialEq, Eq)]
pub enum Command {
    /// Start as daemon
    Daemon { log_file: Option<String> },
    /// Resume a stopped job, and/or bring the backgrounded job to the
    /// foreground.
    Continue { detached: bool, id: Option<u32>, fetch_output: bool },
    /// Start a new job
    Run { cmd: String, args: Vec<String>, detached: bool },
    /// List all jobs
    List,
    /// Stop the server
    KillServer,
}

/// What `jobs run` reads from its environment to start a job.
pub struct RunContext {
    pub shell: Shell,
    pub env: Vec<(OsBytes, OsBytes)>,
    pub pwd: OsBytes,
}

/// Why a job's end could not be reported.
#[derive(Debug, Clone, Copy, PartialEq, Eq, Structural)]
pub enum ReportError {
    /// The process was killed by a signal number that has no name here.
    UnknownSignal(i32),
}

/// The words that start `words` in `shell`: bash and zsh get the whole
/// line as one `-c` expression, other shells get the words as they are.
pub open spec fn wrapped_words(shell: Shell, words: Seq<Seq<char>>) -> Seq<Seq<char>> {
    match shell {
        Shell::Bash => seq!["bash"@, "-c"@, join_words(words)],
        Shell::Zsh => seq!["zsh"@, "-c"@, join_words(words)],
        Shell::Nushell | Shell::Unknown => words,
    }
}

/// bash and zsh always get exactly three words, whatever the command: the
/// shell's name, `-c`, and the command's words joined by single spaces;
/// other shells get the command's words as they are.
pub proof fn lemma_wrapped_words(shell: Shell, words: Seq<Seq<char>>)
    ensures
        shell == Shell::Bash ==> wrapped_words(shell, words).len() == 3 && wrapped_words(shell, words)[0]
            == "bash"@ && wrapped_words(shell, words)[1] == "-c"@ && wrapped_words(shell, words)[2]
            == join_words(words),
        shell == Shell::Zsh ==> wrapped_words(shell, words).len() == 3 && wrapped_words(shell, words)[0]
            == "zsh"@ && wrapped_words(shell, words)[1] == "-c"@ && wrapped_words(shell, words)[2]
            == join_words(words),
        (shell == Shell::Nushell || shell == Shell::Unknown) ==> wrapped_words(shell, words) == words,
{
}

/// A job killed by a named signal is reported with that name; without a
/// name the report is an error naming the signal's number. A job killed by
/// one of the signals numbered alike on every platform is always reported
/// with that signal's name, and one killed by a number below 1 always
/// fails.
pub proof fn lemma_signal_report(number: i32, name: Option<Seq<char>>)
    requires
        possible_name_of(number, name),
    ensures
        exit_line(ProcessState::Terminated(ExitStatus::Signaled(number)), name) == (match name {
            Some(n) => Ok::<Option<Seq<char>>, ReportError>(Some("Job was terminated by signal "@ + n)),
            None => Err(ReportError::UnknownSignal(number)),
        }),
        common_signal_name(number) matches Some(n) ==> exit_line(
            ProcessState::Terminated(ExitStatus::Signaled(number)),
            name,
        ) == Ok::<Option<Seq<char>>, ReportError>(Some("Job was terminated by signal "@ + n)),
        number < 1 ==> exit_line(ProcessState::Terminated(ExitStatus::Signaled(number)), name)
            == Err::<Option<Seq<char>>, ReportError>(ReportError::UnknownSignal(number)),
        common_signal_name(number) matches Some(n) ==> is_signal_name(n),
{
    reveal_strlit("SIGHUP");
    reveal_strlit("SIGINT");
    reveal_strlit("SIGQUIT");
    reveal_strlit("SIGILL");
    reveal_strlit("SIGABRT");
    reveal_strlit("SIGFPE");
    reveal_strlit("SIGKILL");
    reveal_strlit("SIGSEGV");
    reveal_strlit("SIGALRM");
    reveal_strlit("SIGTERM");
    if let Some(n) = common_signal_name(number) {
        assert(n.len() >= 4);
        assert(n.take(3) =~= seq!['S', 'I', 'G']);
    }
}

/// The operating-system strings (UTF-8 bytes) of some words.
pub open spec fn os_words(words: Seq<Seq<char>>) -> Seq<Seq<u8>> {
    words.map_values(|w: Seq<char>| encode_utf8(w))
}

/// The shell that a `SHELL` file name stands for.
pub open spec fn shell_named(name: Seq<char>) -> Shell {
    if name == "bash"@ {
        Shell::Bash
    } else if name == "zsh"@ {
        Shell::Zsh
    } else {
        Shell::Unknown
    }
}

/// The final component of a path, as `std::path::Path::file_name` gives it.
pub uninterp spec fn path_file_name(path: Seq<char>) -> Option<Seq<char>>;

/// `std::path::Path::file_name` on `path`: the last component of the path,
/// `None` when there is none (the path is empty, a root, or ends in `..`).
/// Named by `path_file_name`; nothing more is stated of it.
#[verifier::external_body]
fn file_name(path: &str) -> (name: Option<String>)
    ensures
        match name {
            Some(n) => path_file_name(path@) == Some(n@),
            None => path_file_name(path@) is None,
        },
{
    match std::path::Path::new(path).file_name() {
        Some(n) => n.to_str().map(str::to_owned),
        None => None,
    }
}

/// `nix::sys::signal::Signal::try_from` followed by `Signal::as_str`: the
/// name of the signal with number `signal` on this platform, `None` when
/// the number names no signal. Every name `as_str` gives starts with `SIG`
/// and has at least one more character. The signals whose numbers are the
/// same on every Unix platform (1, 2, 3, 4, 6, 8, 9, 11, 14 and 15: SIGHUP,
/// SIGINT, SIGQUIT, SIGILL, SIGABRT, SIGFPE, SIGKILL, SIGSEGV, SIGALRM and
/// SIGTERM) are named as `common_signal_name` says, and no signal has a
/// number below 1. The names of the other numbers depend on the platform
/// and are not stated.
#[verifier::external_body]
pub(crate) fn signal_name(signal: i32) -> (name: Option<String>)
    ensures
        name matches Some(n) ==> is_signal_name(n@),
        common_signal_name(signal) is Some ==> opt_view(name) == common_signal_name(signal),
        signal < 1 ==> name is None,
{
    match nix::sys::signal::Signal::try_from(signal) {
        Ok(s) => Some(s.as_str().to_owned()),
        Err(_) => None,
    }
}

/// The names of the signals whose numbers are the same on every Unix
/// platform.
pub open spec fn common_signal_name(signal: i32) -> Option<Seq<char>> {
    if signal == 1 {
        Some("SIGHUP"@)
    } else if signal == 2 {
        Some("SIGINT"@)
    } else if signal == 3 {
        Some("SIGQUIT"@)
    } else if signal == 4 {
        Some("SIGILL"@)
    } else if signal == 6 {
        Some("SIGABRT"@)
    } else if signal == 8 {
        Some("SIGFPE"@)
    } else if signal == 9 {
        Some("SIGKILL"@)
    } else if signal == 11 {
        Some("SIGSEGV"@)
    } else if signal == 14 {
        Some("SIGALRM"@)
    } else if signal == 15 {
        Some("SIGTERM"@)
    } else {
        None
    }
}

/// What may be found as the name of signal `signal`: its common name where
/// it has one, nothing for a number below 1, and otherwise nothing or a name
/// of the shape of a signal name.
pub open spec fn possible_name_of(signal: i32, name: Option<Seq<char>>) -> bool {
    if common_signal_name(signal) is Some {
        name == common_signal_name(signal)
    } else if signal < 1 {
        name is None
    } else {
        name matches Some(n) ==> is_signal_name(n)
    }
}

/// The shape of a signal name: `SIG` and at least one more character.
pub open spec fn is_signal_name(name: Seq<char>) -> bool {
    name.len() >= 4 && name.take(3) == seq!['S', 'I', 'G']
}

/// The operating-system string of `s`.
fn os_string(s: &str) -> (bytes: OsBytes)
    ensures
        bytes@ == encode_utf8(s@),
        bytes.deep_view() == encode_utf8(s@),
{
    let bytes = s.as_bytes_vec();
    assert(bytes.deep_view() =~= bytes@);
    bytes
}

/// The operating-system strings of `words`, in order.
fn os_strings(words: &Vec<String>) -> (out: Vec<OsBytes>)
    ensures
        out.deep_view() == os_words(words.deep_view()),
{
    let mut out: Vec<OsBytes> = Vec::new();
    let mut i: usize = 0;
    while i < words.len()
        invariant
            i <= words.len(),
            out.deep_view() == os_words(words.deep_view().take(i as int)),
        decreases words.len() - i,
    {
        let ghost prev = out.deep_view();
        let next = os_string(words[i].as_str());
        out.push(next);
        i = i + 1;
        assert(out.deep_view() =~= prev.push(encode_utf8(words.deep_view()[i - 1])));
        assert(words.deep_view().take(i as int) =~= words.deep_view().take(i - 1).push(
            words.deep_view()[i - 1],
        ));
        assert(out.deep_view() =~= os_words(words.deep_view().take(i as int)));
    }
    assert(words.deep_view().take(words.len() as int) =~= words.deep_view());
    out
}

impl Shell {
    /// The command line that runs `cmd` through this shell: bash and zsh
    /// interpret the words joined by spaces as one expression; nushell and
    /// unknown shells run the words as they are.
    pub fn wrap_command(&self, cmd: Vec<String>) -> (out: Vec<OsBytes>)
        ensures
            out.deep_view() == os_words(wrapped_words(*self, cmd.deep_view())),
            (*self == Shell::Bash || *self == Shell::Zsh) ==> {
                &&& out@.len() == 3
                &&& out@[0]@ == encode_utf8(if *self == Shell::Bash {
                    "bash"@
                } else {
                    "zsh"@
                })
                &&& out@[1]@ == encode_utf8("-c"@)
                &&& out@[2]@ == encode_utf8(join_words(cmd.deep_view()))
            },
            (*self == Shell::Nushell || *self == Shell::Unknown) ==> {
                &&& out@.len() == cmd@.len()
                &&& forall|i: int| 0 <= i < cmd@.len() ==> #[trigger] out@[i]@ == encode_utf8(cmd@[i]@)
            },
    {
        match self {
            Shell::Bash | Shell::Zsh => {
                let program = if *self == Shell::Bash {
                    "bash"
                } else {
                    "zsh"
                };
                let line = join_with_spaces(&cmd);
                let mut out: Vec<OsBytes> = Vec::new();
                out.push(os_string(program));
                out.push(os_string("-c"));
                out.push(os_string(line.as_str()));
                assert(out.deep_view() =~= os_words(wrapped_words(*self, cmd.deep_view())));
                proof {
                    lemma_wrapped_words(*self, cmd.deep_view());
                }
                out
            },
            Shell::Nushell | Shell::Unknown => {
                let out = os_strings(&cmd);
                proof {
                    assert(out.deep_view().len() == out@.len());
                    assert(cmd.deep_view().len() == cmd@.len());
                    assert forall|i: int| 0 <= i < cmd@.len() implies #[trigger] out@[i]@
                        == encode_utf8(cmd@[i]@) by {
                        assert(out.deep_view()[i] == out@[i].deep_view());
                        assert(out@[i].deep_view() =~= out@[i]@);
                        assert(cmd.deep_view()[i] == cmd@[i]@);
                    }
                }
                out
            },
        }
    }

    /// The shell a `SHELL` file name stands for: `bash`, `zsh`, or one
    /// this program does not know.
    pub fn from_file_name(name: &str) -> (shell: Shell)
        ensures
            shell == shell_named(name@),
    {
        let found = String::from_str(name);
        if found == String::from_str("bash") {
            Shell::Bash
        } else if found == String::from_str("zsh") {
            Shell::Zsh
        } else {
            Shell::Unknown
        }
    }

    /// The shell to run jobs in, from the environment, where one can be
    /// chosen (see `detect_current_shell`); `None` on the other inputs,
    /// where `jobs run` cannot choose a shell and stops.
    pub fn from_env(nu_version_set: bool, shell_path: Option<String>) -> (shell: Option<Shell>)
        ensures
            shell_chosen(nu_version_set, shell_path) <==> shell is Some,
            shell_chosen(nu_version_set, shell_path) ==> shell == Some(
                chosen_shell(nu_version_set, shell_path),
            ),
    {
        if nu_version_set {
            return Some(detect_current_shell(true, shell_path));
        }
        match shell_path {
            None => None,
            Some(path) => match file_name(path.as_str()) {
                None => None,
                Some(_) => Some(detect_current_shell(false, Some(path))),
            },
        }
    }
}

/// Whether the environment lets `jobs run` choose a shell: `NU_VERSION` is
/// set, or `SHELL` is set and has a file name.
pub open spec fn shell_chosen(nu_version_set: bool, shell_path: Option<String>) -> bool {
    nu_version_set || (shell_path matches Some(p) && path_file_name(p@) is Some)
}

/// The shell the environment chooses: nushell when `NU_VERSION` is set,
/// else the shell that the file name of `SHELL` stands for.
pub open spec fn chosen_shell(nu_version_set: bool, shell_path: Option<String>) -> Shell {
    if nu_version_set {
        Shell::Nushell
    } else {
        match shell_path {
            Some(p) => match path_file_name(p@) {
                Some(name) => shell_named(name),
                None => Shell::Unknown,
            },
            None => Shell::Unknown,
        }
    }
}

/// The shell to run jobs in, from the environment: nushell when
/// `NU_VERSION` is set, else the shell named by the file name of `$SHELL`.
/// Without `NU_VERSION`, `SHELL` must be set and have a file name.
pub fn detect_current_shell(nu_version_set: bool, shell_path: Option<String>) -> (shell: Shell)
    requires
        shell_chosen(nu_version_set, shell_path),
    ensures
        shell == chosen_shell(nu_version_set, shell_path),
{
    if nu_version_set {
        return Shell::Nushell;
    }
    match shell_path {
        Some(path) => match file_name(path.as_str()) {
            Some(name) => Shell::from_file_name(name.as_str()),
            None => Shell::Unknown,
        },
        None => Shell::Unknown,
    }
}

impl Command {
    /// Whether this subcommand may start the server when none is running
    /// (only `run` does).
    pub fn starts_server(&self) -> (starts: bool)
        ensures
            starts == (self is Run),
    {
        match self {
            Command::Run { .. } => true,
            _ => false,
        }
    }

    /// Whether this subcommand needs a `RunContext` (only `run` does).
    pub fn is_run(&self) -> (run: bool)
        ensures
            run == (self is Run),
    {
        match self {
            Command::Run { .. } => true,
            _ => false,
        }
    }
}

/// How connecting to the daemon failed.
#[derive(Debug, Clone, Copy, PartialEq, Eq, Structural)]
pub enum ConnectFailure {
    /// The daemon's socket does not exist.
    NotFound,
    /// Nothing listens on the daemon's socket.
    ConnectionRefused,
    /// Any other failure.
    Other,
}

/// What the client prints when it cannot reach the daemon: a missing or
/// refused socket means the daemon is not running, which is reported and
/// ends the command without error; any other failure is an error of the
/// command (`None`).
pub fn connect_failure_message(failure: ConnectFailure) -> (message: Option<String>)
    ensures
        (failure == ConnectFailure::Other) <==> message is None,
        message matches Some(m) ==> m@ == "Daemon is not running"@,
{
    match failure {
        ConnectFailure::NotFound | ConnectFailure::ConnectionRefused => Some(
            String::from_str("Daemon is not running"),
        ),
        ConnectFailure::Other => None,
    }
}

/// The words of `jobs run CMD ARGS...`: the command followed by its
/// arguments.
pub open spec fn run_words(cmd: Seq<char>, args: Seq<Seq<char>>) -> Seq<Seq<char>> {
    seq![cmd] + args
}

/// The request a client subcommand sends and whether the client detaches
/// afterwards. `daemon` sends none; `run` sends none without its context.
pub fn client_request(command: Command, context: Option<RunContext>) -> (r: Option<(Request, bool)>)
    ensures
        match command {
            Command::Daemon { .. } => r is None,
            Command::Run { cmd, args, detached } => match context {
                None => r is None,
                Some(ctx) => match r {
                    Some((Request::Start { command, env, pwd, rows, cols }, d)) => {
                        &&& command.deep_view() == os_words(
                            wrapped_words(ctx.shell, run_words(cmd@, args.deep_view())),
                        )
                        &&& env == ctx.env
                        &&& pwd == ctx.pwd
                        &&& rows == 0
                        &&& cols == 0
                        &&& d == detached
                    },
                    _ => false,
                },
            },
            Command::Continue { detached, id, fetch_output } => r == Some(
                (Request::Resume { id, with_output: fetch_output }, detached),
            ),
            Command::KillServer => r == Some((Request::Quit, true)),
            Command::List => r == Some((Request::ListProcesses, false)),
        },
{
    match command {
        Command::Daemon { .. } => None,
        Command::Run { cmd, args, detached } => match context {
            None => None,
            Some(ctx) => {
                let mut words: Vec<String> = Vec::new();
                words.push(cmd);
                let mut i: usize = 0;
                while i < args.len()
                    invariant
                        i <= args.len(),
                        words.deep_view() == run_words(cmd@, args.deep_view().take(i as int)),
                    decreases args.len() - i,
                {
                    let ghost prev = words.deep_view();
                    words.push(args[i].clone());
                    i = i + 1;
                    assert(words.deep_view() =~= prev.push(args.deep_view()[i - 1]));
                    assert(words.deep_view() =~= run_words(
                        cmd@,
                        args.deep_view().take(i as int),
                    ));
                }
                assert(args.deep_view().take(args.len() as int) =~= args.deep_view());
                let command = ctx.shell.wrap_command(words);
                Some((Request::Start { command, env: ctx.env, pwd: ctx.pwd, rows: 0, cols: 0 }, detached))
            },
        },
        Command::Continue { detached, id, fetch_output } => Some(
            (Request::Resume { id, with_output: fetch_output }, detached),
        ),
        Command::KillServer => Some((Request::Quit, true)),
        Command::List => Some((Request::ListProcesses, false)),
    }
}

/// The line printed when a foreground job leaves the foreground in
/// `state`, given the name found for its signal if it was killed. A running
/// job gets no line; a killed job whose signal has no name is an error.
pub open spec fn exit_line(state: ProcessState, signal: Option<Seq<char>>) -> Result<Option<Seq<char>>, ReportError> {
    match state {
        ProcessState::Running => Ok(None),
        ProcessState::Stopped => Ok(Some("Job stopped"@)),
        ProcessState::Terminated(ExitStatus::Exited(code)) => if code == 0 {
            Ok(Some("Job completed successfully"@))
        } else {
            Ok(Some("Job completed with code "@ + signed_decimal(code as int)))
        },
        ProcessState::Terminated(ExitStatus::Signaled(number)) => match signal {
            Some(name) => Ok(Some("Job was terminated by signal "@ + name)),
            None => Err(ReportError::UnknownSignal(number)),
        },
    }
}

/// The view of an optional string.
pub open spec fn opt_view(s: Option<String>) -> Option<Seq<char>> {
    match s {
        Some(t) => Some(t@),
        None => None,
    }
}

/// `exit_line` for a state, given the name found for its signal.
pub fn exit_report(state: ProcessState, signal: Option<String>) -> (line: Result<Option<String>, ReportError>)
    ensures
        match (line, exit_line(state, opt_view(signal))) {
            (Ok(Some(l)), Ok(Some(m))) => l@ == m,
            (Ok(None), Ok(None)) => true,
            (Err(e), Err(f)) => e == f,
            _ => false,
        },
{
    match state {
        ProcessState::Running => Ok(None),
        ProcessState::Stopped => Ok(Some(String::from_str("Job stopped"))),
        ProcessState::Terminated(ExitStatus::Exited(code)) => if code == 0 {
            Ok(Some(String::from_str("Job completed successfully")))
        } else {
            let mut l = String::from_str("Job completed with code ");
            let number = signed_decimal_string(code as i64);
            l.append(number.as_str());
            Ok(Some(l))
        },
        ProcessState::Terminated(ExitStatus::Signaled(number)) => match signal {
            Some(name) => {
                let mut l = String::from_str("Job was terminated by signal ");
                l.append(name.as_str());
                Ok(Some(l))
            },
            None => Err(ReportError::UnknownSignal(number)),
        },
    }
}

/// The line printed when a foreground job leaves the foreground in
/// `state`, looking up the name of the signal that killed it. Exact for
/// every state but a signal's, whose name the platform decides except for
/// the signals of `common_signal_name`.
pub fn describe_exit(state: ProcessState) -> (line: Result<Option<String>, ReportError>)
    ensures
        !(state matches ProcessState::Terminated(ExitStatus::Signaled(_))) ==> match (
            line,
            exit_line(state, None),
        ) {
            (Ok(Some(l)), Ok(Some(m))) => l@ == m,
            (Ok(None), Ok(None)) => true,
            _ => false,
        },
        state matches ProcessState::Terminated(ExitStatus::Signaled(number)) ==> exists|
            name: Option<Seq<char>>,
        |
            #![trigger possible_name_of(number, name)]
            possible_name_of(number, name) && match (line, name) {
                (Ok(Some(l)), Some(n)) => l@ == "Job was terminated by signal "@ + n,
                (Err(e), None) => e == ReportError::UnknownSignal(number),
                _ => false,
            },
        state matches ProcessState::Terminated(ExitStatus::Signaled(number)) ==> (
        common_signal_name(number) matches Some(name) ==> line matches Ok(Some(l)) && l@
            == "Job was terminated by signal "@ + name),
        state matches ProcessState::Terminated(ExitStatus::Signaled(number)) ==> (number < 1
            ==> line == Err::<Option<String>, ReportError>(ReportError::UnknownSignal(number))),
{
    match state {
        ProcessState::Terminated(ExitStatus::Signaled(number)) => {
            let name = signal_name(number);
            let ghost found = opt_view(name);
            let line = exit_report(state, name);
            assert(possible_name_of(number, found));
            line
        },
        _ => exit_report(state, None),
    }
}

} // verus!
