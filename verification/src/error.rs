//! Why a run ends without a request, or with a request that gave nothing to
//! show: what each outcome tells the user and the code the process exits with.

use crate::client::{API_KEY_VARIABLE, USAGE, VEID_VARIABLE};
use crate::text::{decimal, render_decimal};
use vstd::prelude::*;
use vstd::string::*;

verus! {

/// Why a command line did not yield an operation.
#[derive(Debug, PartialEq, Eq)]
pub enum ParseError {
    /// No operation was named, or help was asked for. Not a failure: the
    /// usage text goes to standard output and the process exits with 0.
    HelpRequested,
    /// The word names no operation.
    UnknownOperation,
    /// The word names the retired `getServiceInfo`, which `getLiveServiceInfo`
    /// replaces.
    DeprecatedOperation,
    /// The operation needs `required` tokens on the command line, the program
    /// name and the operation's word included, and `supplied` were given.
    TooFewArguments { required: usize, supplied: usize },
    /// The sticky flag of `snapshot/toggleSticky` is neither a yes nor a no.
    InvalidBoolean,
}

impl ParseError {
    /// What the user is told.
    pub open spec fn message_text(self) -> Seq<char> {
        match self {
            ParseError::HelpRequested => USAGE@,
            ParseError::UnknownOperation => "Invalid operation."@,
            ParseError::DeprecatedOperation => "Use `getLiveServiceInfo` instead. "@,
            ParseError::TooFewArguments { required, supplied } => "Too few arguments, need "@
                + decimal(required as nat) + ", you supplied "@ + decimal(supplied as nat),
            ParseError::InvalidBoolean => "invalid option for sticky"@,
        }
    }

    /// The code that the process exits with: 0 for help, 1 for a failure.
    pub open spec fn exit_status(self) -> int {
        if self is HelpRequested {
            0
        } else {
            1
        }
    }

    /// Whether this outcome is a request for the usage text rather than a
    /// failure.
    pub fn is_help(&self) -> (help: bool)
        ensures
            help == (*self is HelpRequested),
    {
        match self {
            ParseError::HelpRequested => true,
            _ => false,
        }
    }

    /// The text to show the user.
    pub fn message(&self) -> (text: String)
        ensures
            text@ == self.message_text(),
    {
        match self {
            ParseError::HelpRequested => String::from_str(USAGE),
            ParseError::UnknownOperation => String::from_str("Invalid operation."),
            ParseError::DeprecatedOperation => String::from_str(
                "Use `getLiveServiceInfo` instead. ",
            ),
            ParseError::TooFewArguments { required, supplied } => {
                let mut text = String::from_str("Too few arguments, need ");
                text.append(render_decimal(*required).as_str());
                text.append(", you supplied ");
                text.append(render_decimal(*supplied).as_str());
                text
            },
            ParseError::InvalidBoolean => String::from_str("invalid option for sticky"),
        }
    }

    /// The code to exit with.
    pub fn exit_code(&self) -> (code: i32)
        ensures
            code == self.exit_status(),
    {
        match self {
            ParseError::HelpRequested => 0,
            _ => 1,
        }
    }
}

/// Why a run of the tool ended early.
#[derive(Debug, PartialEq, Eq)]
pub enum CliError {
    /// One of the two credentials is not set in the environment.
    MissingCredentials,
    /// The command line did not yield an operation.
    Parse(ParseError),
    /// The request could not be made or the reply could not be read.
    TransportError { cause: String },
    /// The reply is not the record that the operation returns.
    DeserializationError { cause: String },
}

impl CliError {
    /// What the user is told.
    pub open spec fn message_text(self) -> Seq<char> {
        match self {
            CliError::MissingCredentials => VEID_VARIABLE@ + " and "@ + API_KEY_VARIABLE@
                + " must both be set"@,
            CliError::Parse(error) => error.message_text(),
            CliError::TransportError { cause } => "Request failed: "@ + cause@,
            CliError::DeserializationError { cause } => "Unexpected response: "@ + cause@,
        }
    }

    /// The code that the process exits with: 0 where the usage text was asked
    /// for, 1 for every failure.
    pub open spec fn exit_status(self) -> int {
        match self {
            CliError::Parse(error) => error.exit_status(),
            _ => 1,
        }
    }

    /// The text to show the user.
    pub fn message(&self) -> (text: String)
        ensures
            text@ == self.message_text(),
    {
        match self {
            CliError::MissingCredentials => {
                let mut text = String::from_str(VEID_VARIABLE);
                text.append(" and ");
                text.append(API_KEY_VARIABLE);
                text.append(" must both be set");
                text
            },
            CliError::Parse(error) => error.message(),
            CliError::TransportError { cause } => {
                let mut text = String::from_str("Request failed: ");
                text.append(cause.as_str());
                text
            },
            CliError::DeserializationError { cause } => {
                let mut text = String::from_str("Unexpected response: ");
                text.append(cause.as_str());
                text
            },
        }
    }

    /// The code to exit with.
    pub fn exit_code(&self) -> (code: i32)
        ensures
            code == self.exit_status(),
    {
        match self {
            CliError::Parse(error) => error.exit_code(),
            _ => 1,
        }
    }
}

} // verus!
