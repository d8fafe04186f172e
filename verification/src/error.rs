//! The failures a run can end in, with the message and the hint shown for
//! each.

use vstd::prelude::*;
use vstd::string::*;
use vstd::std_specs::convert::FromSpecImpl;

use crate::text::joined;

verus! {

/// Why a run of the front-end failed.
#[derive(Debug, Clone, PartialEq, Eq)]
pub enum CondaError {
    /// `conda` could not be found or started at all.
    NotInstalled,
    /// `conda` ran and exited with a failure; holds its diagnostic.
    CommandFailed(String),
    /// `conda` succeeded, but its output was not of the expected shape;
    /// holds the parser's message.
    ParseError(String),
    /// `conda` does not know the environment; holds the name asked for.
    EnvironmentNotFound(String),
    /// Creating the process failed for another reason; holds the system's
    /// message.
    IoError(String),
}

/// A [`CondaError`] as a mathematical value.
pub enum Failure {
    NotInstalled,
    CommandFailed(Seq<char>),
    ParseError(Seq<char>),
    EnvironmentNotFound(Seq<char>),
    IoError(Seq<char>),
}

impl View for CondaError {
    type V = Failure;

    open spec fn view(&self) -> Failure {
        match self {
            CondaError::NotInstalled => Failure::NotInstalled,
            CondaError::CommandFailed(message) => Failure::CommandFailed(message@),
            CondaError::ParseError(message) => Failure::ParseError(message@),
            CondaError::EnvironmentNotFound(name) => Failure::EnvironmentNotFound(name@),
            CondaError::IoError(message) => Failure::IoError(message@),
        }
    }
}

/// The one-line message of a failure.
pub open spec fn message_text(failure: Failure) -> Seq<char> {
    match failure {
        Failure::NotInstalled => "Conda is not installer or not in your PATH"@,
        Failure::CommandFailed(message) => "Conda command failed: "@ + message,
        Failure::ParseError(message) => "Failed to parse Conda output: "@ + message,
        Failure::EnvironmentNotFound(name) => "Conda environment '"@ + name + "' not found"@,
        Failure::IoError(message) => "IO error: "@ + message,
    }
}

/// The advice that goes with a kind of failure, where there is any.
pub open spec fn hint_text(failure: Failure) -> Option<Seq<char>> {
    match failure {
        Failure::NotInstalled => Some(
            "Please install conda or ensure it's properly configured"@,
        ),
        Failure::ParseError(_) => Some(
            "This might be due to an unexpected format in conda's output."@,
        ),
        Failure::EnvironmentNotFound(_) => Some(
            "Tip: Run 'conda env list' to see available environment."@,
        ),
        Failure::CommandFailed(_) => None,
        Failure::IoError(_) => None,
    }
}

/// What is written to the error stream for a failure, line by line: the
/// message, the hint of its kind, and the advice to install `conda` when the
/// tool turned out to be unreachable.
pub open spec fn report_lines(failure: Failure, tool_reachable: bool) -> Seq<Seq<char>> {
    let head = seq!["Error: "@ + message_text(failure)];
    let hinted = match hint_text(failure) {
        Some(hint) => head.push(hint),
        None => head,
    };
    if !tool_reachable && !(failure is NotInstalled) {
        hinted.push("Please install conda or ensure it's properly configured"@)
    } else {
        hinted
    }
}

/// The error that `serde_json` reports when bytes do not deserialize.
#[verifier::external_type_specification]
#[verifier::external_body]
pub struct ExJsonError(serde_json::Error);

/// The `Display` text of a `serde_json::Error`: the parser's message with
/// the place of the fault. Nothing is claimed of what it says.
#[verifier::external_body]
fn json_error_text(error: &serde_json::Error) -> (text: String) {
    error.to_string()
}

impl From<serde_json::Error> for CondaError {
    /// Output that does not deserialize is a parse failure, whatever the
    /// parser found wrong with it; the failure carries the parser's message.
    fn from(error: serde_json::Error) -> (failure: CondaError)
        ensures
            failure@ is ParseError,
    {
        CondaError::parse_failure(json_error_text(&error))
    }
}

impl FromSpecImpl<serde_json::Error> for CondaError {
    /// The message is the parser's own, so the conversion has no
    /// mathematical counterpart.
    open spec fn obeys_from_spec() -> bool {
        false
    }

    open spec fn from_spec(error: serde_json::Error) -> CondaError {
        arbitrary()
    }
}

impl CondaError {
    /// The failure for output that could not be parsed, from the parser's
    /// message.
    pub fn parse_failure(message: String) -> (error: CondaError)
        ensures
            error@ == Failure::ParseError(message@),
    {
        CondaError::ParseError(message)
    }

    /// The one-line message of this failure.
    pub fn message(&self) -> (text: String)
        ensures
            text@ == message_text(self@),
    {
        match self {
            CondaError::NotInstalled => String::from_str(
                "Conda is not installer or not in your PATH",
            ),
            CondaError::CommandFailed(message) => joined(
                "Conda command failed: ",
                message.as_str(),
            ),
            CondaError::ParseError(message) => joined(
                "Failed to parse Conda output: ",
                message.as_str(),
            ),
            CondaError::EnvironmentNotFound(name) => {
                let mut text = joined("Conda environment '", name.as_str());
                text.append("' not found");
                text
            },
            CondaError::IoError(message) => joined("IO error: ", message.as_str()),
        }
    }

    /// The advice that goes with this kind of failure, where there is any.
    pub fn hint(&self) -> (hint: Option<String>)
        ensures
            match hint {
                Some(text) => hint_text(self@) == Some(text@),
                None => hint_text(self@) is None,
            },
    {
        match self {
            CondaError::NotInstalled => Some(
                String::from_str("Please install conda or ensure it's properly configured"),
            ),
            CondaError::ParseError(_) => Some(
                String::from_str("This might be due to an unexpected format in conda's output."),
            ),
            CondaError::EnvironmentNotFound(_) => Some(
                String::from_str("Tip: Run 'conda env list' to see available environment."),
            ),
            CondaError::CommandFailed(_) => None,
            CondaError::IoError(_) => None,
        }
    }

    /// The lines to write to the error stream for this failure.
    /// `tool_reachable` says whether `conda` could be started when it was
    /// last tried.
    pub fn report(&self, tool_reachable: bool) -> (lines: Vec<String>)
        ensures
            lines.deep_view() == report_lines(self@, tool_reachable),
    {
        let mut lines: Vec<String> = Vec::new();
        let message = self.message();
        lines.push(joined("Error: ", message.as_str()));
        assert(lines.deep_view() =~= seq!["Error: "@ + message_text(self@)]);
        let hint = self.hint();
        let ghost head = lines.deep_view();
        match hint {
            Some(text) => {
                lines.push(text);
                assert(lines.deep_view() =~= head.push(hint_text(self@)->0));
            },
            None => {},
        }
        let ghost hinted = lines.deep_view();
        let unreachable_otherwise = match self {
            CondaError::NotInstalled => false,
            _ => !tool_reachable,
        };
        if unreachable_otherwise {
            lines.push(String::from_str("Please install conda or ensure it's properly configured"));
            assert(lines.deep_view() =~= hinted.push(
                "Please install conda or ensure it's properly configured"@,
            ));
        }
        lines
    }
}

} // verus!
