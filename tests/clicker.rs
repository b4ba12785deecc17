use cargo_clicker::{
    choose_sound, classify_arg, finish, is_quiet, plan, resolve_delegate, same_text,
    sound_for_pick, strip_self_args, Completion, Environment, Invocation, ParseResponseError,
    Plan, Response, SoundChoice,
};

fn strings(v: &[&str]) -> Vec<String> {
    v.iter().map(|s| s.to_string()).collect()
}

fn quiet_env() -> Environment {
    Environment {
        just_click: None,
        replacement: None,
        standard_tool: None,
        silence: false,
        recursion_guard: false,
    }
}

fn delegate_of(env: &Environment, argv: &[&str]) -> Invocation {
    match plan(env, &strings(argv)) {
        Ok(Plan::Delegate(inv)) => inv,
        other => panic!("expected a delegated run, got {:?}", other),
    }
}

#[test]
fn response_text_round_trip() {
    assert_eq!(Response::Positive.to_string(), "Positive");
    assert_eq!(Response::Negative.to_string(), "Negative");
    let p = Response::Positive.to_string();
    let n = Response::Negative.to_string();
    assert_eq!(Response::from_str(&p), Ok(Response::Positive));
    assert_eq!(Response::from_str(&n), Ok(Response::Negative));
}

#[test]
fn response_other_text_refused() {
    for s in ["", "positive", "NEGATIVE", "Positive ", " Negative", "Pos", "Negatives"] {
        assert_eq!(Response::from_str(s), Err(ParseResponseError));
    }
}

#[test]
fn same_text_compares_characters() {
    assert!(same_text("clicker", "clicker"));
    assert!(same_text("", ""));
    assert!(!same_text("clicker", "clickers"));
    assert!(!same_text("clicker", "Clicker"));
    assert!(same_text("héllo", "héllo"));
    assert!(!same_text("héllo", "hello"));
}

#[test]
fn strip_drops_program_name_only() {
    let r = strip_self_args(&strings(&["cargo-clicker", "build", "--release"]));
    assert_eq!(r, strings(&["build", "--release"]));
}

#[test]
fn strip_drops_leading_repetitions() {
    let r = strip_self_args(&strings(&["cargo-clicker", "clicker", "clicker", "build", "clicker"]));
    assert_eq!(r, strings(&["build", "clicker"]));
    let r = strip_self_args(&strings(&["/usr/bin/cargo-clicker", "clicker", "test"]));
    assert_eq!(r, strings(&["test"]));
}

#[test]
fn strip_edge_cases() {
    assert_eq!(strip_self_args(&strings(&[])), strings(&[]));
    assert_eq!(strip_self_args(&strings(&["cargo-clicker"])), strings(&[]));
    assert_eq!(strip_self_args(&strings(&["cargo-clicker", "clicker", "clicker"])), strings(&[]));
    assert_eq!(
        strip_self_args(&strings(&["cargo-clicker", "clickers", "clicker"])),
        strings(&["clickers", "clicker"])
    );
}

#[test]
fn classify_each_kind_of_argument() {
    assert_eq!(classify_arg("--"), Some(false));
    assert_eq!(classify_arg("--quiet"), Some(true));
    assert_eq!(classify_arg("--quieter"), None);
    assert_eq!(classify_arg("--q"), None);
    assert_eq!(classify_arg("-q"), Some(true));
    assert_eq!(classify_arg("-vqr"), Some(true));
    assert_eq!(classify_arg("-v"), None);
    assert_eq!(classify_arg("-"), None);
    assert_eq!(classify_arg("q"), None);
    assert_eq!(classify_arg(""), None);
}

#[test]
fn quiet_before_separator_detected() {
    assert!(is_quiet(&strings(&["build", "--quiet"])));
    assert!(is_quiet(&strings(&["build", "--release", "-vq"])));
    assert!(is_quiet(&strings(&["-q", "--", "x"])));
    assert!(!is_quiet(&strings(&["build", "--release"])));
    assert!(!is_quiet(&strings(&[])));
}

#[test]
fn quiet_after_separator_ignored() {
    assert!(!is_quiet(&strings(&["run", "--", "--quiet"])));
    assert!(!is_quiet(&strings(&["run", "--", "-q"])));
    assert!(!is_quiet(&strings(&["run", "--release", "--", "-q", "--quiet"])));
}

#[test]
fn empty_candidate_sets_give_nothing() {
    let mut rng = rand::rng();
    for _ in 0..50 {
        assert_eq!(choose_sound(&mut rng, Some(0), 4), SoundChoice::Nothing);
        assert_eq!(choose_sound(&mut rng, None, 0), SoundChoice::Nothing);
    }
}

#[test]
fn choice_comes_from_the_active_source() {
    let mut rng = rand::rng();
    for _ in 0..200 {
        match choose_sound(&mut rng, Some(3), 4) {
            SoundChoice::DirectoryEntry(i) => assert!(i < 3),
            other => panic!("expected a directory entry, got {:?}", other),
        }
        match choose_sound(&mut rng, None, 4) {
            SoundChoice::Builtin(i) => assert!(i < 4),
            other => panic!("expected a built-in sound, got {:?}", other),
        }
    }
}

#[test]
fn choice_is_roughly_uniform() {
    let mut rng = rand::rng();
    let n = 5usize;
    let trials = 10_000usize;
    let mut counts = vec![0usize; n];
    for _ in 0..trials {
        match choose_sound(&mut rng, Some(n), 0) {
            SoundChoice::DirectoryEntry(i) => counts[i] += 1,
            other => panic!("expected a directory entry, got {:?}", other),
        }
    }
    for c in counts {
        assert!(c > 1_600 && c < 2_400, "count {} far from {}", c, trials / n);
    }
}

#[test]
fn single_candidate_always_chosen() {
    let mut rng = rand::rng();
    for _ in 0..20 {
        assert_eq!(choose_sound(&mut rng, None, 1), SoundChoice::Builtin(0));
    }
}

#[test]
fn pick_maps_to_its_source() {
    assert_eq!(sound_for_pick(Some(5), Some(2)), SoundChoice::DirectoryEntry(2));
    assert_eq!(sound_for_pick(None, Some(3)), SoundChoice::Builtin(3));
    assert_eq!(sound_for_pick(Some(5), None), SoundChoice::Nothing);
    assert_eq!(sound_for_pick(None, None), SoundChoice::Nothing);
}

#[test]
fn delegate_resolution_order() {
    let a = Some("cargo-mommy".to_string());
    let b = Some("/opt/cargo".to_string());
    assert_eq!(resolve_delegate(&a, &b), "cargo-mommy");
    assert_eq!(resolve_delegate(&None, &b), "/opt/cargo");
    assert_eq!(resolve_delegate(&a, &None), "cargo-mommy");
    assert_eq!(resolve_delegate(&None, &None), "cargo");
}

#[test]
fn plan_play_only_mode() {
    let mut env = quiet_env();
    env.just_click = Some("Negative".to_string());
    assert!(matches!(plan(&env, &strings(&["x", "build"])), Ok(Plan::PlayOnly(Response::Negative))));
    env.just_click = Some("Positive".to_string());
    assert!(matches!(plan(&env, &strings(&[])), Ok(Plan::PlayOnly(Response::Positive))));
}

#[test]
fn plan_play_only_malformed_is_error() {
    let mut env = quiet_env();
    env.just_click = Some("Loud".to_string());
    assert!(matches!(plan(&env, &strings(&["x", "build"])), Err(ParseResponseError)));
}

#[test]
fn plan_delegate_fields() {
    let mut env = quiet_env();
    env.standard_tool = Some("/opt/cargo".to_string());
    env.silence = true;
    let inv = delegate_of(&env, &["cargo-clicker", "clicker", "check"]);
    assert_eq!(inv.program, "/opt/cargo");
    assert_eq!(inv.args, strings(&["check"]));
    assert!(inv.silenced);
}

#[test]
fn scenario_success_notifies_positive() {
    let inv = delegate_of(&quiet_env(), &["cargo-clicker", "build"]);
    assert_eq!(inv.program, "cargo");
    assert!(!inv.silenced);
    assert_eq!(
        finish(&inv, Some(0)),
        Completion { exit_code: 0, notify: Some(Response::Positive) }
    );
}

#[test]
fn scenario_quiet_failure_is_silent() {
    let inv = delegate_of(&quiet_env(), &["cargo-clicker", "build", "--quiet"]);
    assert_eq!(finish(&inv, Some(2)), Completion { exit_code: 2, notify: None });
}

#[test]
fn scenario_nested_run_is_silent() {
    let mut env = quiet_env();
    env.recursion_guard = true;
    let inv = delegate_of(&env, &["cargo-clicker", "build"]);
    assert!(inv.silenced);
    assert_eq!(finish(&inv, Some(0)), Completion { exit_code: 0, notify: None });
    assert_eq!(finish(&inv, Some(101)), Completion { exit_code: 101, notify: None });
    assert_eq!(finish(&inv, None), Completion { exit_code: 1, notify: None });
}

#[test]
fn scenario_play_only_negative_with_no_sounds() {
    let mut env = quiet_env();
    env.just_click = Some(Response::Negative.to_string());
    let kind = match plan(&env, &strings(&["cargo-clicker"])) {
        Ok(Plan::PlayOnly(k)) => k,
        other => panic!("expected a play-only run, got {:?}", other),
    };
    assert_eq!(kind, Response::Negative);
    let mut rng = rand::rng();
    assert_eq!(choose_sound(&mut rng, None, 0), SoundChoice::Nothing);
}

#[test]
fn failure_and_signal_notify_negative() {
    let inv = delegate_of(&quiet_env(), &["cargo-clicker", "test"]);
    assert_eq!(
        finish(&inv, Some(3)),
        Completion { exit_code: 3, notify: Some(Response::Negative) }
    );
    assert_eq!(finish(&inv, None), Completion { exit_code: 1, notify: Some(Response::Negative) });
}

#[test]
fn silence_var_suppresses_notification() {
    let mut env = quiet_env();
    env.silence = true;
    let inv = delegate_of(&env, &["cargo-clicker", "build"]);
    assert_eq!(finish(&inv, Some(0)), Completion { exit_code: 0, notify: None });
}

#[test]
fn quiet_after_separator_still_notifies() {
    let inv = delegate_of(&quiet_env(), &["cargo-clicker", "run", "--", "-q"]);
    assert_eq!(
        finish(&inv, Some(0)),
        Completion { exit_code: 0, notify: Some(Response::Positive) }
    );
}
