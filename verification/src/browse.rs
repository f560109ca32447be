//! Revealing a path in the file browser: home-directory expansion, the
//! program that each platform starts, and the reply.

use vstd::prelude::*;
use vstd::string::*;
use crate::host::home_directory;
use crate::model::{
    ErrorModel, GatewayError, Invocation, InvocationModel, LaunchOutcome, Operation, OutcomeModel,
    Platform, plan_model, reply_model,
};
use crate::text::{join, starts_with, text_option, texts};

verus! {

/// Whether `path` uses the home-directory shorthand: it begins with `~/`.
pub open spec fn needs_home(path: Seq<char>) -> bool {
    "~/"@.is_prefix_of(path)
}

/// The path that is handed to the file browser: with the shorthand, `~`
/// gives way to the home directory; any other path stands as it is.
pub open spec fn expanded_path(path: Seq<char>, home: Option<Seq<char>>) -> Result<
    Seq<char>,
    ErrorModel,
> {
    if needs_home(path) {
        match home {
            Some(h) => Ok(h + path.skip(1)),
            None => Err(ErrorModel::HomeResolution),
        }
    } else {
        Ok(path)
    }
}

/// The file browser of each platform.
pub open spec fn reveal_program(platform: Platform) -> Seq<char> {
    match platform {
        Platform::MacOs => "open"@,
        Platform::Windows => "explorer"@,
        Platform::Linux => "xdg-open"@,
    }
}

/// The file browser started on `expanded`, its only argument.
pub open spec fn reveal_invocation(expanded: Seq<char>, platform: Platform) -> InvocationModel {
    InvocationModel { program: reveal_program(platform), args: seq![expanded] }
}

/// The decision on a path, given the home directory if one was found.
pub open spec fn reveal_plan(
    path: Seq<char>,
    home: Option<Seq<char>>,
    platform: Platform,
) -> Result<InvocationModel, ErrorModel> {
    match expanded_path(path, home) {
        Ok(expanded) => Ok(reveal_invocation(expanded, platform)),
        Err(e) => Err(e),
    }
}

/// The reply for each outcome of starting the file browser on `expanded`.
/// Only the start counts: how the browser exited is not looked at.
pub open spec fn reveal_reply(expanded: Seq<char>, outcome: OutcomeModel) -> Result<
    Seq<char>,
    ErrorModel,
> {
    match outcome {
        OutcomeModel::NotStarted(reason) => Err(ErrorModel::Launch(Operation::Reveal, reason)),
        OutcomeModel::Exited { .. } => Ok("Opened directory: "@ + expanded),
    }
}

/// Expands the home-directory shorthand of `path` with `home`.
pub fn expand_path(path: &str, home: Option<String>) -> (expanded: Result<String, GatewayError>)
    ensures
        reply_model(expanded) == expanded_path(path@, text_option(home)),
{
    if starts_with(path, "~/") {
        match home {
            Some(h) => {
                proof {
                    reveal_strlit("~/");
                }
                let n: usize = path.unicode_len();
                let tail: &str = path.substring_char(1, n);
                assert(path@.subrange(1, n as int) =~= path@.skip(1));
                Ok(join(h.as_str(), tail))
            },
            None => Err(GatewayError::HomeResolution),
        }
    } else {
        Ok(path.to_owned())
    }
}

/// The program to start for `path`, given the home directory if one was
/// found.
pub fn plan_reveal(path: &str, home: Option<String>, platform: Platform) -> (plan: Result<
    Invocation,
    GatewayError,
>)
    ensures
        plan_model(plan) == reveal_plan(path@, text_option(home), platform),
{
    match expand_path(path, home) {
        Ok(expanded) => {
            let program: String = match platform {
                Platform::MacOs => "open".to_owned(),
                Platform::Windows => "explorer".to_owned(),
                Platform::Linux => "xdg-open".to_owned(),
            };
            let mut args: Vec<String> = Vec::new();
            args.push(expanded);
            assert(texts(args@) =~= seq![expanded@]);
            Ok(Invocation { program, args })
        },
        Err(e) => Err(e),
    }
}

/// Decides what to start for `path`. The home directory is looked up, anew
/// on each call, only when `path` uses the shorthand; a path without it is
/// passed on unchanged.
pub fn open_directory(path: &str, platform: Platform) -> (plan: Result<Invocation, GatewayError>)
    ensures
        !needs_home(path@) ==> plan_model(plan) == Ok::<InvocationModel, ErrorModel>(
            reveal_invocation(path@, platform),
        ),
        needs_home(path@) ==> exists|home: Option<Seq<char>>|
            plan_model(plan) == #[trigger] reveal_plan(path@, home, platform),
{
    let home: Option<String> = if starts_with(path, "~/") {
        home_directory()
    } else {
        None
    };
    let plan = plan_reveal(path, home, platform);
    assert(plan_model(plan) == reveal_plan(path@, text_option(home), platform));
    plan
}

/// The reply once the file browser was tried on `expanded`: the confirmation
/// with the expanded path if it was started, else `Launch` with the system's
/// reason.
pub fn reveal_result(expanded: &str, outcome: &LaunchOutcome) -> (reply: Result<
    String,
    GatewayError,
>)
    ensures
        reply_model(reply) == reveal_reply(expanded@, outcome@),
{
    match outcome {
        LaunchOutcome::NotStarted(reason) => Err(
            GatewayError::Launch(Operation::Reveal, reason.clone()),
        ),
        LaunchOutcome::Exited { .. } => Ok(join("Opened directory: ", expanded)),
    }
}

/// A path without the shorthand is never changed, whatever the home
/// directory is; one with it keeps everything after the `~`.
pub proof fn lemma_expansion_keeps_tail(path: Seq<char>, home: Seq<char>)
    ensures
        !needs_home(path) ==> expanded_path(path, Some(home)) == Ok::<Seq<char>, ErrorModel>(path),
        needs_home(path) ==> expanded_path(path, Some(home)) == Ok::<Seq<char>, ErrorModel>(
            home + path.skip(1),
        ) && path.skip(1)[0] == '/',
{
    reveal_strlit("~/");
    if needs_home(path) {
        assert(path.subrange(0, 2)[1] == '/');
    }
}

} // verus!
