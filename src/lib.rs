//! A transparent wrapper around a build tool that plays a short sound when
//! the tool finishes: the verified decisions behind it.
mod args;
mod controller;
mod response;
mod select;
mod text;

pub use args::{
    arg_signal, classify_arg, drop_leading, is_quiet, is_quiet_flag, quiet_requested, strip_self_args,
    stripped_args, SELF_TOKEN,
};
pub use controller::{
    delegate_of, exit_code_of, finish, notification_of, opt_view, plan, resolve_delegate, Completion,
    Environment, Invocation, Plan, CARGO_REPLACEMENT_VAR, DEFAULT_DELEGATE, JUST_CLICK_VAR,
    RECURSION_PREVENTION_VAR, RECURSION_SENTINEL, RESPONSE_DIR_VAR, SILENCE_VAR, STANDARD_TOOL_VAR,
};
pub use response::{response_from_text, response_text, ParseResponseError, Response};
pub use select::{
    candidate_count, choice_of, choose_sound, sound_for_pick, valid_choice, SoundChoice,
};
pub use text::same_text;
