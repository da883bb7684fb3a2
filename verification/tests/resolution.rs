use pager_resolve::config::{PagerEnv, PagingMode};
use pager_resolve::resolve::{
    choose_pager_command, classify_resolved, resolve_pager, self_recursion_message, PagerPlan,
};
use pager_resolve::shell::CommandParseError;

fn env(override_var: Option<&str>, generic_var: Option<&str>) -> PagerEnv {
    PagerEnv {
        pager_override: override_var.map(|s| s.to_string()),
        pager_generic: generic_var.map(|s| s.to_string()),
    }
}

#[test]
fn never_mode_yields_standard() {
    let e = env(Some("bar"), Some("baz"));
    let r = resolve_pager(PagingMode::Never, Some("foo -x".to_string()), &e, "delta");
    assert!(matches!(r, Ok(PagerPlan::Standard)));
}

#[test]
fn default_mode_is_never() {
    assert_eq!(PagingMode::default(), PagingMode::Never);
}

#[test]
fn capture_mode_yields_capture() {
    let e = env(Some("bar"), Some("baz"));
    let r = resolve_pager(PagingMode::Capture, Some("foo -x".to_string()), &e, "delta");
    assert!(matches!(r, Ok(PagerPlan::Capture)));
}

#[test]
fn explicit_pager_wins_over_both_env_vars() {
    let e = env(Some("bar"), Some("baz"));
    let (cmd, replace) = choose_pager_command(Some("foo -x".to_string()), &e);
    assert_eq!(cmd, "foo -x");
    assert!(!replace);

    let r = resolve_pager(PagingMode::Always, Some("foo -x".to_string()), &e, "delta");
    match r {
        Ok(PagerPlan::GenericPager { path, args }) => {
            assert_eq!(path, "foo");
            assert_eq!(args, vec!["-x".to_string()]);
        }
        other => panic!("expected a generic pager plan, got {other:?}"),
    }
}

#[test]
fn override_pager_wins_over_generic() {
    let e = env(Some("bar"), Some("baz"));
    let (cmd, replace) = choose_pager_command(None, &e);
    assert_eq!(cmd, "bar");
    assert!(!replace);
}

#[test]
fn generic_pager_alone_replaces_arguments() {
    let e = env(None, Some("less -F"));
    let (cmd, replace) = choose_pager_command(None, &e);
    assert_eq!(cmd, "less -F");
    assert!(replace);

    let r = resolve_pager(PagingMode::Always, None, &e, "delta");
    match r {
        Ok(PagerPlan::LessPager { path, args, replace_args, quit_if_one_screen }) => {
            assert_eq!(path, "less");
            assert_eq!(args, vec!["-F".to_string()]);
            assert!(replace_args);
            assert!(!quit_if_one_screen);
        }
        other => panic!("expected a less pager plan, got {other:?}"),
    }
}

#[test]
fn override_pager_keeps_arguments() {
    let e = env(Some("less -F"), None);
    let r = resolve_pager(PagingMode::QuitIfOneScreen, None, &e, "delta");
    match r {
        Ok(PagerPlan::LessPager { path, args, replace_args, quit_if_one_screen }) => {
            assert_eq!(path, "less");
            assert_eq!(args, vec!["-F".to_string()]);
            assert!(!replace_args);
            assert!(quit_if_one_screen);
        }
        other => panic!("expected a less pager plan, got {other:?}"),
    }
}

#[test]
fn no_pager_anywhere_defaults_to_less() {
    let e = env(None, None);
    let r = resolve_pager(PagingMode::QuitIfOneScreen, None, &e, "delta");
    match r {
        Ok(PagerPlan::LessPager { path, args, quit_if_one_screen, .. }) => {
            assert_eq!(path, "less");
            assert!(args.is_empty());
            assert!(quit_if_one_screen);
        }
        other => panic!("expected a less pager plan, got {other:?}"),
    }
}

#[test]
fn malformed_pager_command_is_a_parse_error() {
    let e = env(None, None);
    let r = resolve_pager(
        PagingMode::Always,
        Some("foo 'unterminated".to_string()),
        &e,
        "delta",
    );
    assert_eq!(r.unwrap_err(), CommandParseError);
}

#[test]
fn empty_pager_command_falls_back_to_standard() {
    let e = env(None, None);
    let r = resolve_pager(PagingMode::Always, Some("".to_string()), &e, "delta");
    assert!(matches!(r, Ok(PagerPlan::Standard)));
}

#[test]
fn own_name_as_pager_is_self_recursion() {
    let e = env(None, None);
    let r = resolve_pager(PagingMode::Always, Some("delta".to_string()), &e, "delta");
    match r {
        Ok(PagerPlan::SelfRecursion { path }) => assert_eq!(path, "delta"),
        other => panic!("expected self recursion, got {other:?}"),
    }
}

#[test]
fn own_name_with_path_and_extension_is_self_recursion() {
    let r = classify_resolved(
        "/usr/local/bin/Delta.exe".to_string(),
        Vec::new(),
        false,
        false,
        "delta",
    );
    assert!(matches!(r, PagerPlan::SelfRecursion { .. }));
}

#[test]
fn other_pager_passes_arguments_through() {
    let r = classify_resolved(
        "/usr/bin/more".to_string(),
        vec!["-a".to_string(), "-b".to_string()],
        true,
        true,
        "delta",
    );
    match r {
        PagerPlan::GenericPager { path, args } => {
            assert_eq!(path, "/usr/bin/more");
            assert_eq!(args, vec!["-a".to_string(), "-b".to_string()]);
        }
        other => panic!("expected a generic pager plan, got {other:?}"),
    }
}

#[test]
fn less_under_any_directory_takes_the_less_branch() {
    let r = classify_resolved(
        "/usr/bin/less".to_string(),
        vec!["-R".to_string()],
        false,
        true,
        "delta",
    );
    match r {
        PagerPlan::LessPager { path, args, replace_args, quit_if_one_screen } => {
            assert_eq!(path, "/usr/bin/less");
            assert_eq!(args, vec!["-R".to_string()]);
            assert!(!replace_args);
            assert!(quit_if_one_screen);
        }
        other => panic!("expected a less pager plan, got {other:?}"),
    }
}

#[test]
fn quoted_arguments_split_as_a_shell_would() {
    let e = env(None, None);
    let r = resolve_pager(
        PagingMode::Always,
        Some("foo --opt 'a b' \"c d\"".to_string()),
        &e,
        "delta",
    );
    match r {
        Ok(PagerPlan::GenericPager { path, args }) => {
            assert_eq!(path, "foo");
            assert_eq!(
                args,
                vec!["--opt".to_string(), "a b".to_string(), "c d".to_string()]
            );
        }
        other => panic!("expected a generic pager plan, got {other:?}"),
    }
}

#[test]
fn self_recursion_message_names_the_program() {
    let m = self_recursion_message("delta");
    assert_eq!(
        m,
        "It looks like you have set delta as the value of $PAGER. \
         This would result in a non-terminating recursion. \
         delta is not an appropriate value for $PAGER \
         (but it is an appropriate value for $GIT_PAGER)."
    );
}
