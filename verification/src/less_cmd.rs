//! The compatibility builder for the `less` pager.
//!
//! Produces the argument list and child environment variables that make
//! diff-like colored output render correctly in `less`, compensating for
//! version- and platform-specific quirks.

use vstd::prelude::*;
use crate::config::PagerCfg;

verus! {

/// Whether the detected `less` build needs `--no-init` to avoid a legacy
/// rendering bug of `--quit-if-one-screen`: unknown versions and versions
/// below 530 (below 558 on Windows) do; newer builds must not receive it,
/// as it would cost them mouse-wheel support.
pub open spec fn needs_no_init(version: Option<usize>, on_windows: bool) -> bool {
    match version {
        None => true,
        Some(v) => v < 530 || (on_windows && v < 558),
    }
}

/// The argument list built from scratch when the caller's own arguments are
/// discarded: raw control characters always, `--no-init` for old builds,
/// `--quit-if-one-screen` on request.
pub open spec fn fresh_less_args(version: Option<usize>, on_windows: bool, quit: bool) -> Seq<
    Seq<char>,
> {
    let a = seq!["--RAW-CONTROL-CHARS"@];
    let b = if needs_no_init(version, on_windows) {
        a.push("--no-init"@)
    } else {
        a
    };
    if quit {
        b.push("--quit-if-one-screen"@)
    } else {
        b
    }
}

/// The full argument list for `less`: a fresh list where the original
/// arguments are empty or to be replaced, the original list verbatim
/// otherwise; `+n` is appended when a navigation history was prepared for a
/// themes listing.
pub open spec fn less_arg_list(
    orig: Seq<Seq<char>>,
    replace: bool,
    quit: bool,
    version: Option<usize>,
    on_windows: bool,
    navigate: bool,
    show_themes: bool,
    hist: Option<Seq<char>>,
) -> Seq<Seq<char>> {
    let base = if orig.len() == 0 || replace {
        fresh_less_args(version, on_windows, quit)
    } else {
        orig
    };
    if navigate && show_themes && hist is Some {
        base.push("+n"@)
    } else {
        base
    }
}

/// The environment variables set on the `less` child, in order: the
/// glyph-width override (only when the invoking environment does not define
/// it already), the character set, the recognized ANSI end characters, and
/// the navigation history file where one was prepared.
pub open spec fn less_env_list(
    utf_char_def_set: bool,
    navigate: bool,
    hist: Option<Seq<char>>,
) -> Seq<(Seq<char>, Seq<char>)> {
    let a: Seq<(Seq<char>, Seq<char>)> = if utf_char_def_set {
        Seq::empty()
    } else {
        seq![("LESSUTFCHARDEF"@, "E000-F8FF:p,F0000-FFFFD:p,100000-10FFFD:p"@)]
    };
    let b = a.push(("LESSCHARSET"@, "UTF-8"@)).push(("LESSANSIENDCHARS"@, "mK"@));
    if navigate {
        match hist {
            Some(h) => b.push(("LESSHISTFILE"@, h)),
            None => b,
        }
    } else {
        b
    }
}

/// The view of a list of name/value pairs.
pub open spec fn pair_views_of(v: Seq<(String, String)>) -> Seq<(Seq<char>, Seq<char>)> {
    v.map_values(|p: (String, String)| (p.0@, p.1@))
}

/// A spawn-ready description of a `less` invocation: the arguments to pass
/// and the environment variables to set on the child.
pub struct LessCommand {
    pub args: Vec<String>,
    pub env_vars: Vec<(String, String)>,
}

/// Builds the `less` invocation.
///
/// `orig_args` are the arguments that followed the pager path in the split
/// command string; `less_version` is what the external version probe
/// reported for the resolved binary; `utf_char_def_set` says whether the
/// invoking environment already defines the glyph-width override, which is
/// then left alone; `nav_hist_file` is the navigation history file the
/// external preparation routine produced, or `None` where it failed or was
/// not asked for.
pub fn build_less_command(
    orig_args: Vec<String>,
    replace_args: bool,
    quit_if_one_screen: bool,
    less_version: Option<usize>,
    on_windows: bool,
    utf_char_def_set: bool,
    nav_hist_file: Option<String>,
    cfg: &PagerCfg,
) -> (r: LessCommand)
    ensures
        r.args.deep_view() == less_arg_list(
            orig_args.deep_view(),
            replace_args,
            quit_if_one_screen,
            less_version,
            on_windows,
            cfg.navigate,
            cfg.show_themes,
            nav_hist_file.deep_view(),
        ),
        pair_views_of(r.env_vars@) == less_env_list(
            utf_char_def_set,
            cfg.navigate,
            nav_hist_file.deep_view(),
        ),
{
    let ghost spec_args = less_arg_list(
        orig_args.deep_view(),
        replace_args,
        quit_if_one_screen,
        less_version,
        on_windows,
        cfg.navigate,
        cfg.show_themes,
        nav_hist_file.deep_view(),
    );
    let mut args: Vec<String>;
    if orig_args.is_empty() || replace_args {
        args = Vec::new();
        args.push("--RAW-CONTROL-CHARS".to_owned());
        let old_less = match less_version {
            None => true,
            Some(v) => v < 530 || (on_windows && v < 558),
        };
        if old_less {
            args.push("--no-init".to_owned());
        }
        if quit_if_one_screen {
            args.push("--quit-if-one-screen".to_owned());
        }
        assert(args.deep_view() =~= fresh_less_args(
            less_version,
            on_windows,
            quit_if_one_screen,
        ));
    } else {
        args = orig_args;
        assert(args.deep_view() =~= less_arg_list(
            args.deep_view(),
            replace_args,
            quit_if_one_screen,
            less_version,
            on_windows,
            false,
            false,
            None,
        ));
    }

    let mut env_vars: Vec<(String, String)> = Vec::new();
    if !utf_char_def_set {
        env_vars.push((
            "LESSUTFCHARDEF".to_owned(),
            "E000-F8FF:p,F0000-FFFFD:p,100000-10FFFD:p".to_owned(),
        ));
    }
    env_vars.push(("LESSCHARSET".to_owned(), "UTF-8".to_owned()));
    env_vars.push(("LESSANSIENDCHARS".to_owned(), "mK".to_owned()));

    if cfg.navigate {
        match nav_hist_file {
            Some(h) => {
                env_vars.push(("LESSHISTFILE".to_owned(), h));
                if cfg.show_themes {
                    args.push("+n".to_owned());
                }
            },
            None => {},
        }
    }

    assert(args.deep_view() =~= spec_args);
    assert(pair_views_of(env_vars@) =~= less_env_list(
        utf_char_def_set,
        cfg.navigate,
        nav_hist_file.deep_view(),
    ));
    LessCommand { args, env_vars }
}

/// The version threshold for `--no-init`: an unknown version always gets
/// it, a known version gets it below 530, below 558 on Windows.
pub proof fn lemma_no_init_version_threshold(version: usize, on_windows: bool)
    ensures
        needs_no_init(None, on_windows),
        needs_no_init(Some(version), false) == (version < 530),
        needs_no_init(Some(version), true) == (version < 558),
{
}

/// `--no-init` stands in the freshly built argument list exactly when the
/// detected version asks for it.
pub proof fn lemma_fresh_args_no_init(version: Option<usize>, on_windows: bool, quit: bool)
    ensures
        fresh_less_args(version, on_windows, quit).contains("--no-init"@) == needs_no_init(
            version,
            on_windows,
        ),
{
    reveal_strlit("--RAW-CONTROL-CHARS");
    reveal_strlit("--no-init");
    reveal_strlit("--quit-if-one-screen");
    let l = fresh_less_args(version, on_windows, quit);
    if needs_no_init(version, on_windows) {
        assert(l[1] == "--no-init"@);
        assert(l.contains("--no-init"@));
    } else {
        assert forall|i: int| 0 <= i < l.len() implies l[i] != "--no-init"@ by {
            assert(l[i].len() != "--no-init"@.len());
        }
    }
}

/// When the original arguments are to be replaced, they are discarded: the
/// built list does not depend on them, and it opens with the
/// raw-control-chars flag.
pub proof fn lemma_replace_discards_args(
    orig: Seq<Seq<char>>,
    quit: bool,
    version: Option<usize>,
    on_windows: bool,
    navigate: bool,
    show_themes: bool,
    hist: Option<Seq<char>>,
)
    ensures
        less_arg_list(orig, true, quit, version, on_windows, navigate, show_themes, hist)
            == less_arg_list(
            Seq::empty(),
            true,
            quit,
            version,
            on_windows,
            navigate,
            show_themes,
            hist,
        ),
        less_arg_list(orig, true, quit, version, on_windows, false, false, None)
            == fresh_less_args(version, on_windows, quit),
        less_arg_list(orig, true, quit, version, on_windows, navigate, show_themes, hist)[0]
            == "--RAW-CONTROL-CHARS"@,
{
}

/// When the caller's own arguments are kept (non-empty and not replaced)
/// and no navigation history positions the pager, the built list is the
/// original list, verbatim and unaugmented.
pub proof fn lemma_kept_args_verbatim(
    orig: Seq<Seq<char>>,
    quit: bool,
    version: Option<usize>,
    on_windows: bool,
)
    requires
        orig.len() > 0,
    ensures
        less_arg_list(orig, false, quit, version, on_windows, false, false, None) == orig,
{
}

/// A glyph-width override already present in the invoking environment is
/// never overwritten: no variable of that name stands in the produced
/// list.
pub proof fn lemma_user_glyph_override_wins(navigate: bool, hist: Option<Seq<char>>)
    ensures
        forall|i: int| 0 <= i < less_env_list(true, navigate, hist).len() ==> less_env_list(
            true,
            navigate,
            hist,
        )[i].0 != "LESSUTFCHARDEF"@,
{
    reveal_strlit("LESSUTFCHARDEF");
    reveal_strlit("LESSCHARSET");
    reveal_strlit("LESSANSIENDCHARS");
    reveal_strlit("LESSHISTFILE");
    let l = less_env_list(true, navigate, hist);
    assert forall|i: int| 0 <= i < l.len() implies l[i].0 != "LESSUTFCHARDEF"@ by {
        assert(l[i].0.len() != "LESSUTFCHARDEF"@.len());
    }
}

/// The character-set and ANSI-end-characters directives are always set,
/// whatever else the environment list holds.
pub proof fn lemma_charset_always_set(utf_char_def_set: bool, navigate: bool, hist: Option<Seq<char>>)
    ensures
        less_env_list(utf_char_def_set, navigate, hist).contains(("LESSCHARSET"@, "UTF-8"@)),
        less_env_list(utf_char_def_set, navigate, hist).contains(("LESSANSIENDCHARS"@, "mK"@)),
{
    let l = less_env_list(utf_char_def_set, navigate, hist);
    let base: int = if utf_char_def_set { 0 } else { 1 };
    assert(l[base] == ("LESSCHARSET"@, "UTF-8"@));
    assert(l[base + 1] == ("LESSANSIENDCHARS"@, "mK"@));
    assert(l.contains(("LESSCHARSET"@, "UTF-8"@)));
    assert(l.contains(("LESSANSIENDCHARS"@, "mK"@)));
}

} // verus!
