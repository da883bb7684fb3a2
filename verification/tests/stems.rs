use pager_resolve::path_stem::stem_matches;
use pager_resolve::resolve::PagerPlan;
use pager_resolve::sink::{sink_kind_for, writable_target, SinkKind, WriteTarget};

#[test]
fn bare_name_matches_itself() {
    assert!(stem_matches("less", "less"));
}

#[test]
fn directory_prefix_is_dropped() {
    assert!(stem_matches("/usr/bin/less", "less"));
    assert!(stem_matches("sub/dir/less", "less"));
}

#[test]
fn windows_style_path_and_extension_are_dropped() {
    assert!(stem_matches("C:\\Program Files\\less.exe", "less"));
    assert!(stem_matches("less.exe", "less"));
}

#[test]
fn comparison_ignores_ascii_case() {
    assert!(stem_matches("LESS", "less"));
    assert!(stem_matches("/opt/Less.EXE", "less"));
}

#[test]
fn different_programs_do_not_match() {
    assert!(!stem_matches("more", "less"));
    assert!(!stem_matches("/usr/bin/lessc", "less"));
    assert!(!stem_matches("less/more", "less"));
}

#[test]
fn a_leading_dot_is_not_an_extension() {
    assert!(!stem_matches(".less", "less"));
    assert!(stem_matches("/home/user/.config/less", "less"));
}

#[test]
fn only_the_last_extension_is_dropped() {
    assert!(stem_matches("less.v1.exe", "less.v1"));
    assert!(!stem_matches("less.v1.exe", "less"));
}

#[test]
fn empty_strings_compare_by_emptiness() {
    assert!(stem_matches("", ""));
    assert!(!stem_matches("", "less"));
}

#[test]
fn capture_sink_has_no_writable_target() {
    assert_eq!(writable_target(&SinkKind::Capture), None);
}

#[test]
fn pager_and_standard_sinks_have_writable_targets() {
    assert_eq!(writable_target(&SinkKind::Pager), Some(WriteTarget::PagerInput));
    assert_eq!(
        writable_target(&SinkKind::Standard),
        Some(WriteTarget::ProcessStdout)
    );
}

#[test]
fn failed_spawn_degrades_once_to_standard() {
    let plan = PagerPlan::GenericPager { path: "foo".to_string(), args: Vec::new() };
    assert_eq!(sink_kind_for(&plan, true), SinkKind::Pager);
    assert_eq!(sink_kind_for(&plan, false), SinkKind::Standard);
}

#[test]
fn non_spawning_plans_keep_their_kind() {
    assert_eq!(sink_kind_for(&PagerPlan::Capture, false), SinkKind::Capture);
    assert_eq!(sink_kind_for(&PagerPlan::Standard, false), SinkKind::Standard);
}
