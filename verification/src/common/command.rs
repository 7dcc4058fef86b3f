//! A description of an external command, ready to be launched by whoever
//! owns the operating-system side.

use vstd::prelude::*;

verus! {

/// How one standard stream of the child is wired.
#[derive(Clone, Copy, Debug, PartialEq, Eq, Structural)]
pub enum StdioMode {
    /// The stream is closed.
    Null,
    /// The stream is captured through a pipe.
    Piped,
}

/// A program with its arguments, environment, working directory and stream
/// wiring.
#[derive(Clone, Debug, PartialEq, Eq)]
pub struct CommandSpec {
    pub program: String,
    pub args: Vec<String>,
    pub envs: Vec<(String, String)>,
    pub current_dir: Option<String>,
    pub stdin: StdioMode,
    pub stdout: StdioMode,
    pub stderr: StdioMode,
}

/// The mathematical content of a `CommandSpec`.
pub struct CommandView {
    pub program: Seq<char>,
    pub args: Seq<Seq<char>>,
    pub envs: Seq<(Seq<char>, Seq<char>)>,
    pub current_dir: Option<Seq<char>>,
    pub stdin: StdioMode,
    pub stdout: StdioMode,
    pub stderr: StdioMode,
}

/// The texts of a sequence of strings.
pub open spec fn texts(strings: Seq<String>) -> Seq<Seq<char>> {
    Seq::new(strings.len(), |i: int| strings[i]@)
}

/// The text of an optional string.
pub open spec fn optional_text(string: Option<String>) -> Option<Seq<char>> {
    match string {
        Some(s) => Some(s@),
        None => None,
    }
}

/// The texts of a sequence of name and value pairs.
pub open spec fn pair_texts(pairs: Seq<(String, String)>) -> Seq<(Seq<char>, Seq<char>)> {
    Seq::new(pairs.len(), |i: int| (pairs[i].0@, pairs[i].1@))
}

impl View for CommandSpec {
    type V = CommandView;

    open spec fn view(&self) -> CommandView {
        CommandView {
            program: self.program@,
            args: texts(self.args@),
            envs: pair_texts(self.envs@),
            current_dir: optional_text(self.current_dir),
            stdin: self.stdin,
            stdout: self.stdout,
            stderr: self.stderr,
        }
    }
}

impl CommandView {
    /// A command for `program` with no arguments, closed input and both
    /// output streams captured.
    pub open spec fn captured(program: Seq<char>) -> CommandView {
        CommandView {
            program,
            args: Seq::empty(),
            envs: Seq::empty(),
            current_dir: None,
            stdin: StdioMode::Null,
            stdout: StdioMode::Piped,
            stderr: StdioMode::Piped,
        }
    }

    /// This command with `arg` appended to its arguments.
    pub open spec fn with_arg(self, arg: Seq<char>) -> CommandView {
        CommandView { args: self.args.push(arg), ..self }
    }

    /// This command with every text of `args` appended, in order.
    pub open spec fn with_args(self, args: Seq<Seq<char>>) -> CommandView {
        CommandView { args: self.args + args, ..self }
    }

    /// This command with one more environment variable.
    pub open spec fn with_env(self, name: Seq<char>, value: Seq<char>) -> CommandView {
        CommandView { envs: self.envs.push((name, value)), ..self }
    }

    /// This command run from the directory `dir`.
    pub open spec fn with_current_dir(self, dir: Seq<char>) -> CommandView {
        CommandView { current_dir: Some(dir), ..self }
    }

    /// This command with its output stream wired as `mode`.
    pub open spec fn with_stdout(self, mode: StdioMode) -> CommandView {
        CommandView { stdout: mode, ..self }
    }

    /// This command with its error stream wired as `mode`.
    pub open spec fn with_stderr(self, mode: StdioMode) -> CommandView {
        CommandView { stderr: mode, ..self }
    }
}

impl CommandSpec {
    /// Appends one argument.
    pub fn arg(&mut self, arg: &str)
        ensures
            final(self)@ == old(self)@.with_arg(arg@),
    {
        self.args.push(arg.to_owned());
        assert(texts(self.args@) =~= texts(old(self).args@).push(arg@));
    }

    /// Adds one environment variable.
    pub fn env(&mut self, name: &str, value: &str)
        ensures
            final(self)@ == old(self)@.with_env(name@, value@),
    {
        self.envs.push((name.to_owned(), value.to_owned()));
        assert(pair_texts(self.envs@) =~= pair_texts(old(self).envs@).push((name@, value@)));
    }

    /// Sets the directory the program runs in.
    pub fn current_dir(&mut self, dir: &str)
        ensures
            final(self)@ == old(self)@.with_current_dir(dir@),
    {
        self.current_dir = Some(dir.to_owned());
    }

    /// Sets how the output stream is wired.
    pub fn stdout(&mut self, mode: StdioMode)
        ensures
            final(self)@ == old(self)@.with_stdout(mode),
    {
        self.stdout = mode;
    }

    /// Sets how the error stream is wired.
    pub fn stderr(&mut self, mode: StdioMode)
        ensures
            final(self)@ == old(self)@.with_stderr(mode),
    {
        self.stderr = mode;
    }
}

/// An external command together with how long it may run and how its error
/// stream is to be logged: everything the supervisor needs to run it.
#[derive(Clone, Debug, PartialEq, Eq)]
pub struct BackupJob {
    pub command: CommandSpec,
    /// Seconds the command may run; `None` leaves it to the supervisor's
    /// default.
    pub timeout: Option<u64>,
    /// Whether the error stream carries ordinary progress output.
    pub stderr_as_stdout: bool,
}

/// The mathematical content of a `BackupJob`.
pub struct BackupJobView {
    pub command: CommandView,
    pub timeout: Option<u64>,
    pub stderr_as_stdout: bool,
}

impl View for BackupJob {
    type V = BackupJobView;

    open spec fn view(&self) -> BackupJobView {
        BackupJobView {
            command: self.command@,
            timeout: self.timeout,
            stderr_as_stdout: self.stderr_as_stdout,
        }
    }
}

} // verus!
