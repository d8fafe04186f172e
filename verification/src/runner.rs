//! What to run, and what to make of a run.
//!
//! A caller starts `conda` with the arguments given here, waits for it and
//! hands back an [`Invocation`]. [`Command::outcome`] then decides whether
//! the run produced a payload or failed, and how.

use vstd::prelude::*;
use vstd::string::*;
use vstd::utf8::*;

use crate::error::{CondaError, Failure};
use crate::text::{
    contains_text, decode_lossy, joined, lossy_text, occurs_in, signed_decimal,
    signed_decimal_text,
};

verus! {

/// What came of starting `conda` once.
#[derive(Debug, Clone, PartialEq, Eq)]
pub enum Invocation {
    /// No process came into being. `tool_missing` is set when the system
    /// could not find the program; `reason` is the system's message.
    NotStarted { tool_missing: bool, reason: String },
    /// The process ran and ended. `code` is its exit code, absent when it
    /// was ended by a signal.
    Exited { code: Option<i32>, stdout: Vec<u8>, stderr: Vec<u8> },
}

/// An [`Invocation`] as a mathematical value.
pub enum InvocationView {
    NotStarted { tool_missing: bool, reason: Seq<char> },
    Exited { code: Option<i32>, stdout: Seq<u8>, stderr: Seq<u8> },
}

impl View for Invocation {
    type V = InvocationView;

    open spec fn view(&self) -> InvocationView {
        match self {
            Invocation::NotStarted { tool_missing, reason } => InvocationView::NotStarted {
                tool_missing: *tool_missing,
                reason: reason@,
            },
            Invocation::Exited { code, stdout, stderr } => InvocationView::Exited {
                code: *code,
                stdout: stdout@,
                stderr: stderr@,
            },
        }
    }
}

/// What the user asked for.
#[derive(Debug, Clone, PartialEq, Eq)]
pub enum Command {
    /// List the environments that `conda` manages.
    ListEnvs,
    /// List the packages installed in one environment.
    ListPackages { env_name: String },
}

/// A [`Command`] as a mathematical value.
pub enum CommandView {
    ListEnvs,
    ListPackages { env_name: Seq<char> },
}

impl View for Command {
    type V = CommandView;

    open spec fn view(&self) -> CommandView {
        match self {
            Command::ListEnvs => CommandView::ListEnvs,
            Command::ListPackages { env_name } => CommandView::ListPackages {
                env_name: env_name@,
            },
        }
    }
}

/// The arguments that make `conda` answer a command.
pub open spec fn command_arguments(command: CommandView) -> Seq<Seq<char>> {
    match command {
        CommandView::ListEnvs => seq!["env"@, "list"@, "--json"@],
        CommandView::ListPackages { env_name } => seq!["list"@, "-n"@, env_name, "--json"@],
    }
}

/// The line that announces a command before it runs.
pub open spec fn command_banner(command: CommandView) -> Seq<char> {
    match command {
        CommandView::ListEnvs => "Listing Conda environments..."@,
        CommandView::ListPackages { env_name } => "Listing packages for environment: "@
            + env_name,
    }
}

/// The diagnostic of a run that ended in failure: what it wrote to its
/// error stream; if that is empty, what it wrote to its output stream; if
/// that is empty too, a sentence with the exit code, -1 standing for none.
pub open spec fn diagnostic(code: Option<i32>, stdout: Seq<u8>, stderr: Seq<u8>) -> Seq<char> {
    if stderr.len() > 0 {
        lossy_text(stderr)
    } else if stdout.len() > 0 {
        lossy_text(stdout)
    } else {
        "Command failed with exit code "@ + signed_decimal(
            match code {
                Some(value) => value as int,
                None => -1,
            },
        )
    }
}

/// What a run amounts to, whatever was asked: the bytes of its output
/// stream when it exited with code 0, and else the failure.
pub open spec fn classified(invocation: InvocationView) -> Result<Seq<u8>, Failure> {
    match invocation {
        InvocationView::NotStarted { tool_missing, reason } => if tool_missing {
            Err(Failure::NotInstalled)
        } else {
            Err(Failure::IoError(reason))
        },
        InvocationView::Exited { code, stdout, stderr } => if code == Some(0i32) {
            Ok(stdout)
        } else {
            Err(Failure::CommandFailed(diagnostic(code, stdout, stderr)))
        },
    }
}

/// A failure as the package listing reports it: a failed command whose
/// diagnostic says "not found" means that the environment is unknown.
pub open spec fn environment_failure(env_name: Seq<char>, failure: Failure) -> Failure {
    match failure {
        Failure::CommandFailed(message) => if occurs_in("not found"@, message) {
            Failure::EnvironmentNotFound(env_name)
        } else {
            failure
        },
        _ => failure,
    }
}

/// What a run amounts to for the command that asked for it.
pub open spec fn command_outcome(command: CommandView, invocation: InvocationView) -> Result<
    Seq<u8>,
    Failure,
> {
    match command {
        CommandView::ListEnvs => classified(invocation),
        CommandView::ListPackages { env_name } => match classified(invocation) {
            Ok(payload) => Ok(payload),
            Err(failure) => Err(environment_failure(env_name, failure)),
        },
    }
}

/// The outcome of a run as a mathematical value.
pub open spec fn outcome_view(outcome: Result<Vec<u8>, CondaError>) -> Result<Seq<u8>, Failure> {
    match outcome {
        Ok(payload) => Ok(payload@),
        Err(error) => Err(error@),
    }
}

/// The name of the program to start.
pub fn program() -> (name: &'static str)
    ensures
        name@ == "conda"@,
{
    "conda"
}

/// The arguments of the run that only shows whether `conda` can be
/// started.
pub fn probe_arguments() -> (arguments: Vec<String>)
    ensures
        arguments.deep_view() == seq!["--version"@],
{
    let mut arguments: Vec<String> = Vec::new();
    arguments.push(String::from_str("--version"));
    assert(arguments.deep_view() =~= seq!["--version"@]);
    arguments
}

/// Judges the probe: `conda` counts as installed when a process could be
/// started, whatever it exited with.
pub fn check_installed(probe: &Invocation) -> (verdict: Result<(), CondaError>)
    ensures
        verdict is Err <==> probe@ is NotStarted,
        verdict matches Err(error) ==> error@ == Failure::NotInstalled,
{
    match probe {
        Invocation::NotStarted { .. } => Err(CondaError::NotInstalled),
        Invocation::Exited { .. } => Ok(()),
    }
}

/// Decides what a run amounts to, whatever was asked.
pub fn classify(invocation: Invocation) -> (outcome: Result<Vec<u8>, CondaError>)
    ensures
        outcome_view(outcome) == classified(invocation@),
{
    match invocation {
        Invocation::NotStarted { tool_missing, reason } => {
            if tool_missing {
                Err(CondaError::NotInstalled)
            } else {
                Err(CondaError::IoError(reason))
            }
        },
        Invocation::Exited { code, stdout, stderr } => {
            let succeeded = match code {
                Some(value) => value == 0,
                None => false,
            };
            if succeeded {
                Ok(stdout)
            } else if stderr.len() > 0 {
                Err(CondaError::CommandFailed(decode_lossy(&stderr)))
            } else if stdout.len() > 0 {
                Err(CondaError::CommandFailed(decode_lossy(&stdout)))
            } else {
                let shown: i64 = match code {
                    Some(value) => value as i64,
                    None => -1,
                };
                let number = signed_decimal_text(shown);
                Err(
                    CondaError::CommandFailed(
                        joined("Command failed with exit code ", number.as_str()),
                    ),
                )
            }
        },
    }
}

/// Turns a failure into the one the package listing of `env_name` reports.
pub fn for_environment(env_name: &str, error: CondaError) -> (refined: CondaError)
    ensures
        refined@ == environment_failure(env_name@, error@),
{
    match error {
        CondaError::CommandFailed(message) => {
            if contains_text(message.as_str(), "not found") {
                CondaError::EnvironmentNotFound(String::from_str(env_name))
            } else {
                CondaError::CommandFailed(message)
            }
        },
        CondaError::NotInstalled => CondaError::NotInstalled,
        CondaError::ParseError(message) => CondaError::ParseError(message),
        CondaError::EnvironmentNotFound(name) => CondaError::EnvironmentNotFound(name),
        CondaError::IoError(message) => CondaError::IoError(message),
    }
}

impl Command {
    /// The arguments to start `conda` with.
    pub fn arguments(&self) -> (arguments: Vec<String>)
        ensures
            arguments.deep_view() == command_arguments(self@),
    {
        let mut arguments: Vec<String> = Vec::new();
        match self {
            Command::ListEnvs => {
                arguments.push(String::from_str("env"));
                arguments.push(String::from_str("list"));
                arguments.push(String::from_str("--json"));
            },
            Command::ListPackages { env_name } => {
                arguments.push(String::from_str("list"));
                arguments.push(String::from_str("-n"));
                arguments.push(env_name.clone());
                arguments.push(String::from_str("--json"));
            },
        }
        assert(arguments.deep_view() =~= command_arguments(self@));
        arguments
    }

    /// The line that announces the command before it runs.
    pub fn banner(&self) -> (line: String)
        ensures
            line@ == command_banner(self@),
    {
        match self {
            Command::ListEnvs => String::from_str("Listing Conda environments..."),
            Command::ListPackages { env_name } => joined(
                "Listing packages for environment: ",
                env_name.as_str(),
            ),
        }
    }

    /// Decides what the run that answered this command amounts to: the
    /// payload to parse, or the failure to report.
    pub fn outcome(&self, invocation: Invocation) -> (outcome: Result<Vec<u8>, CondaError>)
        ensures
            outcome_view(outcome) == command_outcome(self@, invocation@),
    {
        match self {
            Command::ListEnvs => classify(invocation),
            Command::ListPackages { env_name } => match classify(invocation) {
                Ok(payload) => Ok(payload),
                Err(error) => Err(for_environment(env_name.as_str(), error)),
            },
        }
    }
}

/// A run that could not start because the program is missing is reported
/// as `conda` not being installed, for either command, and a run that
/// could not start for another reason as an I/O failure: never as a failed
/// command or a parse failure.
pub proof fn lemma_unstarted_run(command: CommandView, tool_missing: bool, reason: Seq<char>)
    ensures
        tool_missing ==> command_outcome(
            command,
            InvocationView::NotStarted { tool_missing, reason },
        ) == Err::<Seq<u8>, Failure>(Failure::NotInstalled),
        !tool_missing ==> command_outcome(
            command,
            InvocationView::NotStarted { tool_missing, reason },
        ) == Err::<Seq<u8>, Failure>(Failure::IoError(reason)),
{
}

/// A package listing that exits with a failure and says "not found" on its
/// error stream reports the environment as unknown, under the name that was
/// asked for and without the diagnostic.
pub proof fn lemma_not_found_names_environment(
    env_name: Seq<char>,
    code: Option<i32>,
    stdout: Seq<u8>,
    stderr: Seq<u8>,
)
    requires
        code != Some(0i32),
        occurs_in("not found"@, lossy_text(stderr)),
    ensures
        command_outcome(
            CommandView::ListPackages { env_name },
            InvocationView::Exited { code, stdout, stderr },
        ) == Err::<Seq<u8>, Failure>(Failure::EnvironmentNotFound(env_name)),
{
    reveal_strlit("not found");
    if stderr.len() == 0 {
        assert(valid_utf8(stderr));
        assert(decode_utf8(stderr).len() == 0);
        assert(false);
    }
}

/// A run that exits with a failure, an empty error stream and a non-empty
/// output stream has the text of its output stream as its diagnostic.
pub proof fn lemma_output_stream_is_fallback(code: Option<i32>, stdout: Seq<u8>, stderr: Seq<u8>)
    requires
        code != Some(0i32),
        stderr.len() == 0,
        stdout.len() > 0,
    ensures
        classified(InvocationView::Exited { code, stdout, stderr }) == Err::<Seq<u8>, Failure>(
            Failure::CommandFailed(lossy_text(stdout)),
        ),
{
}

} // verus!
