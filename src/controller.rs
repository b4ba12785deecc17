use vstd::prelude::*;
use vstd::string::StringExecFns;

use crate::args::{is_quiet, quiet_requested, strip_self_args, stripped_args};
use crate::response::{response_from_text, ParseResponseError, Response};

verus! {

/// Set to a response's text, this run only plays one sound and exits.
pub const JUST_CLICK_VAR: &'static str = "__CARGO_CLICKER_PLAYING_SOUND";

/// The tool to run in place of the default one.
pub const CARGO_REPLACEMENT_VAR: &'static str = "CARGO_CLICKER_ACTUAL";

/// The conventional location of the build tool, used where no replacement is set.
pub const STANDARD_TOOL_VAR: &'static str = "CARGO";

/// The tool run where neither variable above is set.
pub const DEFAULT_DELEGATE: &'static str = "cargo";

/// Present, no sound is ever played.
pub const SILENCE_VAR: &'static str = "CARGO_CLICKER_SILENCE";

/// Set by this program for the delegate it runs: present on entry, this run
/// is nested inside another and plays no sound.
pub const RECURSION_PREVENTION_VAR: &'static str = "__CARGO_CLICKER_INSIDE_CARGO_CLICKER";

/// The value given to the recursion guard.
pub const RECURSION_SENTINEL: &'static str = "1";

/// The root of user-provided sounds, one subdirectory per response.
pub const RESPONSE_DIR_VAR: &'static str = "CARGO_CLICKER_RESPONSES";

/// The environment as read once at start.
#[derive(Clone, Debug)]
pub struct Environment {
    /// The value of `JUST_CLICK_VAR`, if set.
    pub just_click: Option<String>,
    /// The value of `CARGO_REPLACEMENT_VAR`, if set.
    pub replacement: Option<String>,
    /// The value of `STANDARD_TOOL_VAR`, if set.
    pub standard_tool: Option<String>,
    /// Whether `SILENCE_VAR` is set.
    pub silence: bool,
    /// Whether `RECURSION_PREVENTION_VAR` is set.
    pub recursion_guard: bool,
}

/// The delegate to run and how.
#[derive(Clone, Debug)]
pub struct Invocation {
    /// The tool to run.
    pub program: String,
    /// The arguments to hand it.
    pub args: Vec<String>,
    /// Whether the environment forbids any sound.
    pub silenced: bool,
}

/// What a run does.
#[derive(Clone, Debug)]
pub enum Plan {
    /// Play one sound for this response, then exit with 0.
    PlayOnly(Response),
    /// Run the delegate.
    Delegate(Invocation),
}

/// How a delegated run ends.
#[derive(Clone, Copy, Debug, PartialEq, Eq, Structural)]
pub struct Completion {
    /// The code to exit with.
    pub exit_code: i32,
    /// The sound to launch a detached player for, if any.
    pub notify: Option<Response>,
}

/// The tool to run: the replacement, else the standard location, else the
/// default name.
pub open spec fn delegate_of(replacement: Option<Seq<char>>, standard_tool: Option<Seq<char>>) -> Seq<
    char,
> {
    match replacement {
        Some(r) => r,
        None => match standard_tool {
            Some(s) => s,
            None => DEFAULT_DELEGATE@,
        },
    }
}

/// The view of an optional string.
pub open spec fn opt_view(s: Option<String>) -> Option<Seq<char>> {
    match s {
        Some(t) => Some(t@),
        None => None,
    }
}

/// The code to exit with for a delegate that ended with `code` (`None`
/// where the platform gives none, as on a signal).
pub open spec fn exit_code_of(code: Option<i32>) -> i32 {
    match code {
        Some(c) => c,
        None => 1,
    }
}

/// The sound owed for a delegated run: none where the environment silences
/// it or the arguments ask for quiet, else the response for the delegate's
/// success (code 0) or failure.
pub open spec fn notification_of(silenced: bool, args: Seq<Seq<char>>, code: Option<i32>) -> Option<
    Response,
> {
    if silenced || quiet_requested(args) {
        None
    } else if code == Some(0i32) {
        Some(Response::Positive)
    } else {
        Some(Response::Negative)
    }
}

/// Picks the tool to run (see `delegate_of`).
pub fn resolve_delegate(replacement: &Option<String>, standard_tool: &Option<String>) -> (r: String)
    ensures
        r@ == delegate_of(opt_view(*replacement), opt_view(*standard_tool)),
{
    match replacement {
        Some(r) => r.clone(),
        None => match standard_tool {
            Some(s) => s.clone(),
            None => String::from_str(DEFAULT_DELEGATE),
        },
    }
}

/// Decides what a run does from its environment and its command line
/// (`argv[0]` is this program's own name). With `JUST_CLICK_VAR` set the run
/// only plays a sound, and a text that names no response is an error;
/// otherwise it runs the delegate with the stripped arguments.
pub fn plan(env: &Environment, argv: &Vec<String>) -> (r: Result<Plan, ParseResponseError>)
    ensures
        match env.just_click {
            Some(t) => match response_from_text(t@) {
                Some(k) => r == Ok::<Plan, ParseResponseError>(Plan::PlayOnly(k)),
                None => r == Err::<Plan, ParseResponseError>(ParseResponseError),
            },
            None => match r {
                Ok(Plan::Delegate(inv)) => {
                    &&& inv.program@ == delegate_of(
                        opt_view(env.replacement),
                        opt_view(env.standard_tool),
                    )
                    &&& inv.args.deep_view() == stripped_args(argv.deep_view())
                    &&& inv.silenced == (env.silence || env.recursion_guard)
                },
                _ => false,
            },
        },
{
    match &env.just_click {
        Some(t) => match Response::from_str(t.as_str()) {
            Ok(k) => Ok(Plan::PlayOnly(k)),
            Err(e) => Err(e),
        },
        None => {
            let program = resolve_delegate(&env.replacement, &env.standard_tool);
            let args = strip_self_args(argv);
            let silenced = env.silence || env.recursion_guard;
            Ok(Plan::Delegate(Invocation { program, args, silenced }))
        },
    }
}

/// Decides how a delegated run ends once the delegate has exited with
/// `code`: the exit code always mirrors the delegate's, and a sound is owed
/// as `notification_of` says.
pub fn finish(inv: &Invocation, code: Option<i32>) -> (r: Completion)
    ensures
        r.exit_code == exit_code_of(code),
        r.notify == notification_of(inv.silenced, inv.args.deep_view(), code),
{
    let exit_code: i32 = match code {
        Some(c) => c,
        None => 1,
    };
    let notify = if inv.silenced || is_quiet(&inv.args) {
        None
    } else if code == Some(0i32) {
        Some(Response::Positive)
    } else {
        Some(Response::Negative)
    };
    Completion { exit_code, notify }
}

/// A run nested inside another (the recursion guard is set on entry) owes
/// no sound, whatever its arguments and however its delegate ends, and its
/// exit code is still the delegate's.
pub proof fn lemma_nested_run_is_silent(env: Environment, argv: Seq<Seq<char>>, code: Option<i32>)
    requires
        env.recursion_guard,
    ensures
        notification_of(env.silence || env.recursion_guard, stripped_args(argv), code) is None,
        code matches Some(c) ==> exit_code_of(code) == c,
{
}

} // verus!
