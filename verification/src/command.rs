//! Running an instruction line: the authorization check, the program that
//! each platform starts for it, and the reply once the program has ended.

use vstd::prelude::*;
use vstd::string::*;
use crate::host::{decode_lossy, lossy_text};
use crate::model::{
    ErrorModel, GatewayError, Invocation, InvocationModel, LaunchOutcome, Operation, OutcomeModel,
    Platform, plan_model, reply_model,
};
use crate::policy::{is_allowed, is_authorized, lemma_authorized_has_program};
use crate::text::texts;
use crate::words::{split_whitespace, words};

verus! {

/// The program that runs an authorized `command` on `platform`.
///
/// On macOS the line is split into words and the first is started directly
/// with the others as its arguments. On Windows and on Linux the whole line
/// goes unchanged to the command interpreter.
pub open spec fn command_invocation(command: Seq<char>, platform: Platform) -> InvocationModel {
    match platform {
        Platform::MacOs => InvocationModel {
            program: words(command)[0],
            args: words(command).skip(1),
        },
        Platform::Windows => InvocationModel { program: "cmd"@, args: seq!["/C"@, command] },
        Platform::Linux => InvocationModel { program: "sh"@, args: seq!["-c"@, command] },
    }
}

/// The decision on `command`: refused unless authorized, else the program to
/// start.
pub open spec fn command_plan(command: Seq<char>, platform: Platform) -> Result<
    InvocationModel,
    ErrorModel,
> {
    if is_authorized(command) {
        Ok(command_invocation(command, platform))
    } else {
        Err(ErrorModel::Unauthorized)
    }
}

/// The reply for a program that ran to its end, given its decoded standard
/// error.
pub open spec fn exit_reply(success: bool, stderr_text: Seq<char>) -> Result<
    Seq<char>,
    ErrorModel,
> {
    if success {
        Ok("Command executed successfully"@)
    } else {
        Err(ErrorModel::CommandFailed(stderr_text))
    }
}

/// The reply for each outcome of starting the program of a command.
pub open spec fn command_reply(outcome: OutcomeModel) -> Result<Seq<char>, ErrorModel> {
    match outcome {
        OutcomeModel::NotStarted(reason) => Err(ErrorModel::Launch(Operation::Run, reason)),
        OutcomeModel::Exited { success, stderr } => exit_reply(success, lossy_text(stderr)),
    }
}

/// Decides what to start for `command`.
///
/// Fails with `Unauthorized`, and names no program, exactly when `command`
/// begins with no allowed prefix. Otherwise it always gives a program.
pub fn run_command(command: &str, platform: Platform) -> (plan: Result<Invocation, GatewayError>)
    ensures
        plan_model(plan) == command_plan(command@, platform),
        plan.is_ok() == is_authorized(command@),
{
    if !is_allowed(command) {
        return Err(GatewayError::Unauthorized);
    }
    let plan = match platform {
        Platform::MacOs => {
            let mut parts: Vec<String> = split_whitespace(command);
            proof {
                lemma_authorized_has_program(command@);
                assert(texts(parts@).len() == parts@.len());
                assert(texts(parts@)[0] == parts@[0]@);
                assert(texts(parts@.remove(0)) =~= texts(parts@).skip(1));
            }
            let program: String = parts.remove(0);
            Invocation { program, args: parts }
        },
        Platform::Windows => {
            let mut args: Vec<String> = Vec::new();
            args.push("/C".to_owned());
            args.push(command.to_owned());
            assert(texts(args@) =~= seq!["/C"@, command@]);
            Invocation { program: "cmd".to_owned(), args }
        },
        Platform::Linux => {
            let mut args: Vec<String> = Vec::new();
            args.push("-c".to_owned());
            args.push(command.to_owned());
            assert(texts(args@) =~= seq!["-c"@, command@]);
            Invocation { program: "sh".to_owned(), args }
        },
    };
    Ok(plan)
}

/// The reply for a program that ran to its end: the fixed success text, or
/// `CommandFailed` with what the program wrote to standard error.
pub fn exit_result(success: bool, stderr_text: String) -> (reply: Result<String, GatewayError>)
    ensures
        reply_model(reply) == exit_reply(success, stderr_text@),
{
    if success {
        Ok("Command executed successfully".to_owned())
    } else {
        Err(GatewayError::CommandFailed(stderr_text))
    }
}

/// The reply to a command once its program was tried: `Launch` with the
/// system's reason if it could not be started, else as `exit_result` says,
/// with standard error decoded permissively.
pub fn command_result(outcome: &LaunchOutcome) -> (reply: Result<String, GatewayError>)
    ensures
        reply_model(reply) == command_reply(outcome@),
{
    match outcome {
        LaunchOutcome::NotStarted(reason) => Err(
            GatewayError::Launch(Operation::Run, reason.clone()),
        ),
        LaunchOutcome::Exited { success, stderr } => {
            let text: String = decode_lossy(stderr.as_slice());
            exit_result(*success, text)
        },
    }
}

/// No instruction that lacks an allowed prefix is given a program, on any
/// platform.
pub proof fn lemma_unauthorized_never_planned(command: Seq<char>, platform: Platform)
    requires
        !is_authorized(command),
    ensures
        command_plan(command, platform) == Err::<InvocationModel, ErrorModel>(
            ErrorModel::Unauthorized,
        ),
{
}

/// An instruction with an allowed prefix is given a program whatever follows
/// the prefix.
pub proof fn lemma_prefix_with_suffix_planned(
    prefix: Seq<char>,
    suffix: Seq<char>,
    platform: Platform,
)
    requires
        is_authorized(prefix),
    ensures
        command_plan(prefix + suffix, platform).is_ok(),
{
    crate::policy::lemma_authorized_with_suffix(prefix, suffix);
}

/// On macOS the program of an authorized instruction is a real word: it is
/// not empty and holds no whitespace, and so does each argument.
pub proof fn lemma_direct_program_is_word(command: Seq<char>)
    requires
        is_authorized(command),
    ensures
        command_invocation(command, Platform::MacOs).program.len() > 0,
        forall|j: int|
            0 <= j < command_invocation(command, Platform::MacOs).program.len()
                ==> !crate::words::is_whitespace(
                #[trigger] command_invocation(command, Platform::MacOs).program[j],
            ),
{
    lemma_authorized_has_program(command);
    crate::words::lemma_words_are_words(command);
}

} // verus!
