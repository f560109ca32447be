//! The values that pass between the gateway and the code that talks to the
//! operating system, each with its mathematical model.

use vstd::prelude::*;
use vstd::string::*;
use crate::text::{join, same_text, texts};

verus! {

/// The operating-system families the gateway knows how to drive.
#[derive(Clone, Copy, Debug, PartialEq, Eq)]
pub enum Platform {
    MacOs,
    Windows,
    Linux,
}

/// The two privileged operations.
#[derive(Clone, Copy, Debug, PartialEq, Eq)]
pub enum Operation {
    Reveal,
    Run,
}

/// Why a request was not served.
#[derive(Clone, Debug, PartialEq, Eq)]
pub enum GatewayError {
    /// The home directory could not be determined while expanding `~/`.
    HomeResolution,
    /// The instruction begins with no allowed prefix.
    Unauthorized,
    /// The operating system could not start the program; holds its reason.
    Launch(Operation, String),
    /// The program ran and exited with a failure; holds what it wrote to
    /// standard error.
    CommandFailed(String),
}

/// The model of a `GatewayError`.
pub enum ErrorModel {
    HomeResolution,
    Unauthorized,
    Launch(Operation, Seq<char>),
    CommandFailed(Seq<char>),
}

impl View for GatewayError {
    type V = ErrorModel;

    open spec fn view(&self) -> ErrorModel {
        match *self {
            GatewayError::HomeResolution => ErrorModel::HomeResolution,
            GatewayError::Unauthorized => ErrorModel::Unauthorized,
            GatewayError::Launch(op, reason) => ErrorModel::Launch(op, reason@),
            GatewayError::CommandFailed(text) => ErrorModel::CommandFailed(text@),
        }
    }
}

/// The text shown to the caller for each error.
pub open spec fn message_text(e: ErrorModel) -> Seq<char> {
    match e {
        ErrorModel::HomeResolution => "Could not find home directory"@,
        ErrorModel::Unauthorized => "Command not allowed for security reasons"@,
        ErrorModel::Launch(Operation::Reveal, reason) => "Failed to open directory: "@ + reason,
        ErrorModel::Launch(Operation::Run, reason) => "Failed to execute command: "@ + reason,
        ErrorModel::CommandFailed(text) => "Command failed: "@ + text,
    }
}

impl GatewayError {
    /// The descriptive text of this error.
    pub fn message(&self) -> (text: String)
        ensures
            text@ == message_text(self@),
    {
        match self {
            GatewayError::HomeResolution => "Could not find home directory".to_owned(),
            GatewayError::Unauthorized => "Command not allowed for security reasons".to_owned(),
            GatewayError::Launch(Operation::Reveal, reason) => join(
                "Failed to open directory: ",
                reason.as_str(),
            ),
            GatewayError::Launch(Operation::Run, reason) => join(
                "Failed to execute command: ",
                reason.as_str(),
            ),
            GatewayError::CommandFailed(text) => join("Command failed: ", text.as_str()),
        }
    }
}

/// A program to start, with its arguments in order.
#[derive(Clone, Debug, PartialEq, Eq)]
pub struct Invocation {
    pub program: String,
    pub args: Vec<String>,
}

/// The model of an `Invocation`.
pub struct InvocationModel {
    pub program: Seq<char>,
    pub args: Seq<Seq<char>>,
}

impl View for Invocation {
    type V = InvocationModel;

    open spec fn view(&self) -> InvocationModel {
        InvocationModel { program: self.program@, args: texts(self.args@) }
    }
}

/// What became of an attempt to start a program.
#[derive(Clone, Debug, PartialEq, Eq)]
pub enum LaunchOutcome {
    /// The operating system did not start it; holds its reason.
    NotStarted(String),
    /// It ran to its end; `stderr` is all it wrote to standard error.
    Exited { success: bool, stderr: Vec<u8> },
}

/// The model of a `LaunchOutcome`.
pub enum OutcomeModel {
    NotStarted(Seq<char>),
    Exited { success: bool, stderr: Seq<u8> },
}

impl View for LaunchOutcome {
    type V = OutcomeModel;

    open spec fn view(&self) -> OutcomeModel {
        match *self {
            LaunchOutcome::NotStarted(reason) => OutcomeModel::NotStarted(reason@),
            LaunchOutcome::Exited { success, stderr } => OutcomeModel::Exited {
                success,
                stderr: stderr@,
            },
        }
    }
}

/// The model of a plan or the error that stands in its place.
pub open spec fn plan_model(r: Result<Invocation, GatewayError>) -> Result<
    InvocationModel,
    ErrorModel,
> {
    match r {
        Ok(plan) => Ok(plan@),
        Err(e) => Err(e@),
    }
}

/// The model of a reply or the error that stands in its place.
pub open spec fn reply_model(r: Result<String, GatewayError>) -> Result<Seq<char>, ErrorModel> {
    match r {
        Ok(text) => Ok(text@),
        Err(e) => Err(e@),
    }
}

/// What the caller sees: the reply, or the error's message.
pub open spec fn response_text(r: Result<Seq<char>, ErrorModel>) -> Result<Seq<char>, Seq<char>> {
    match r {
        Ok(text) => Ok(text),
        Err(e) => Err(message_text(e)),
    }
}

/// The model of a response.
pub open spec fn response_model(r: Result<String, String>) -> Result<Seq<char>, Seq<char>> {
    match r {
        Ok(text) => Ok(text@),
        Err(text) => Err(text@),
    }
}

/// Turns a reply into what is handed to the caller: every error becomes its
/// message.
pub fn respond(r: Result<String, GatewayError>) -> (out: Result<String, String>)
    ensures
        response_model(out) == response_text(reply_model(r)),
{
    match r {
        Ok(text) => Ok(text),
        Err(e) => Err(e.message()),
    }
}

/// The platform that an operating system's name stands for.
pub open spec fn platform_named(name: Seq<char>) -> Option<Platform> {
    if name == "macos"@ {
        Some(Platform::MacOs)
    } else if name == "windows"@ {
        Some(Platform::Windows)
    } else if name == "linux"@ {
        Some(Platform::Linux)
    } else {
        None
    }
}

impl Platform {
    /// Picks the platform from the operating system's name, as the standard
    /// library spells it.
    pub fn from_os_name(name: &str) -> (p: Option<Platform>)
        ensures
            p == platform_named(name@),
    {
        if same_text(name, "macos") {
            Some(Platform::MacOs)
        } else if same_text(name, "windows") {
            Some(Platform::Windows)
        } else if same_text(name, "linux") {
            Some(Platform::Linux)
        } else {
            None
        }
    }
}

} // verus!
