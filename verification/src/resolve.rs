//! The pager resolution protocol.
//!
//! Given a paging mode, an optional explicit pager string and the two
//! environment-sourced pager preferences, decides whether a pager is to be
//! spawned at all and, if so, which binary with which arguments — falling
//! back to standard output where the binary cannot be located, and refusing
//! fatally a pager that would recurse into this program itself.

use vstd::prelude::*;
use vstd::string::StringExecFns;
use crate::config::{PagerEnv, PagingMode};
use crate::path_stem::{
    eq_ignore_ascii_case, lemma_eq_ignore_case_transitive, stem_matches, stem_matches_spec,
};
use crate::shell::{shell_split, split_words, CommandParseError};

verus! {

/// The command string the protocol settles on: the explicit pager where one
/// is given, else the tool-specific override, else the generic system
/// pager, else the literal `less`.
pub open spec fn chosen_pager_spec(
    explicit: Option<Seq<char>>,
    override_var: Option<Seq<char>>,
    generic_var: Option<Seq<char>>,
) -> Seq<char> {
    match explicit {
        Some(e) => e,
        None => match override_var {
            Some(o) => o,
            None => match generic_var {
                Some(g) => g,
                None => "less"@,
            },
        },
    }
}

/// Whether the chosen pager's own arguments are to be replaced: only a
/// generic system pager is assumed to need the raw-control-chars coercion;
/// an explicit or override choice is respected verbatim.
pub open spec fn replace_args_spec(
    explicit: Option<Seq<char>>,
    override_var: Option<Seq<char>>,
    generic_var: Option<Seq<char>>,
) -> bool {
    explicit is None && override_var is None && generic_var is Some
}

/// Picks the pager command string and the replace-arguments flag by
/// precedence.
pub fn choose_pager_command(explicit: Option<String>, env: &PagerEnv) -> (r: (String, bool))
    ensures
        r.0@ == chosen_pager_spec(
            explicit.deep_view(),
            env.pager_override.deep_view(),
            env.pager_generic.deep_view(),
        ),
        r.1 == replace_args_spec(
            explicit.deep_view(),
            env.pager_override.deep_view(),
            env.pager_generic.deep_view(),
        ),
{
    match explicit {
        Some(e) => (e, false),
        None => match &env.pager_override {
            Some(o) => (o.clone(), false),
            None => match &env.pager_generic {
                Some(g) => (g.clone(), true),
                None => ("less".to_owned(), false),
            },
        },
    }
}

/// What one resolution decides: no pager (`Capture`, `Standard`), a `less`
/// invocation still awaiting its compatibility treatment, a generic pager
/// to spawn as given, or the fatal self-recursion case.
#[derive(Debug)]
pub enum PagerPlan {
    /// No writable destination at all.
    Capture,
    /// Write to standard output; also the silent fallback where the pager
    /// binary cannot be located.
    Standard,
    /// The resolved binary is `less`: the caller probes its version and
    /// prepares the navigation history, then builds the invocation with
    /// `less_cmd::build_less_command`.
    LessPager { path: String, args: Vec<String>, replace_args: bool, quit_if_one_screen: bool },
    /// Any other pager: spawn `path` with `args` unmodified and no extra
    /// environment.
    GenericPager { path: String, args: Vec<String> },
    /// The pager's base name is this program's own name: the caller must
    /// terminate the process fatally, never spawn.
    SelfRecursion { path: String },
}

/// Relies on `grep_cli::resolve_binary`: locates an executable for `prog`,
/// honoring the platform's search-path and executable-extension conventions
/// (outside Windows it hands the path back unchanged).  Whether and where
/// one is found depends on the machine, so nothing is promised of the
/// outcome.
#[verifier::external_body]
fn resolve_binary_program(prog: &String) -> (r: Option<String>) {
    match grep_cli::resolve_binary(std::path::PathBuf::from(prog)) {
        Ok(p) => Some(p.to_string_lossy().into_owned()),
        Err(_) => None,
    }
}

/// Sorts a located binary into the `less` branch, the self-recursion guard
/// or the generic branch, comparing base-name stems case-insensitively.
pub fn classify_resolved(
    path: String,
    args: Vec<String>,
    replace_args: bool,
    quit_if_one_screen: bool,
    own_name: &str,
) -> (r: PagerPlan)
    ensures
        stem_matches_spec(path@, "less"@) ==> r == (PagerPlan::LessPager {
            path,
            args,
            replace_args,
            quit_if_one_screen,
        }),
        !stem_matches_spec(path@, "less"@) && stem_matches_spec(path@, own_name@) ==> r == (
        PagerPlan::SelfRecursion { path }),
        !stem_matches_spec(path@, "less"@) && !stem_matches_spec(path@, own_name@) ==> r == (
        PagerPlan::GenericPager { path, args }),
{
    if stem_matches(path.as_str(), "less") {
        PagerPlan::LessPager { path, args, replace_args, quit_if_one_screen }
    } else if stem_matches(path.as_str(), own_name) {
        PagerPlan::SelfRecursion { path }
    } else {
        PagerPlan::GenericPager { path, args }
    }
}

/// What must hold of a plan produced under a paging mode whose chosen
/// command split into `toks`: a spawnable plan carries the split's tail as
/// its arguments and a binary of the right kind, and a pager that matches
/// the program's own name is never spawnable.
pub open spec fn plan_fits(
    plan: PagerPlan,
    toks: Seq<Seq<char>>,
    replace: bool,
    quit: bool,
    own_name: Seq<char>,
) -> bool {
    match plan {
        PagerPlan::Capture => false,
        PagerPlan::Standard => true,
        PagerPlan::LessPager { path, args, replace_args, quit_if_one_screen } => {
            &&& toks.len() > 0
            &&& stem_matches_spec(path@, "less"@)
            &&& args.deep_view() == toks.skip(1)
            &&& replace_args == replace
            &&& quit_if_one_screen == quit
        },
        PagerPlan::GenericPager { path, args } => {
            &&& toks.len() > 0
            &&& !stem_matches_spec(path@, "less"@)
            &&& !stem_matches_spec(path@, own_name)
            &&& args.deep_view() == toks.skip(1)
        },
        PagerPlan::SelfRecursion { path } => {
            &&& toks.len() > 0
            &&& !stem_matches_spec(path@, "less"@)
            &&& stem_matches_spec(path@, own_name)
        },
    }
}

/// Attempts to plan a pager launch; `Standard` where the command splits to
/// nothing or the binary cannot be located.
fn try_pager(
    quit_if_one_screen: bool,
    explicit_pager: Option<String>,
    env: &PagerEnv,
    own_name: &str,
) -> (r: Result<PagerPlan, CommandParseError>)
    ensures
        ({
            let chosen = chosen_pager_spec(
                explicit_pager.deep_view(),
                env.pager_override.deep_view(),
                env.pager_generic.deep_view(),
            );
            let replace = replace_args_spec(
                explicit_pager.deep_view(),
                env.pager_override.deep_view(),
                env.pager_generic.deep_view(),
            );
            &&& (r is Err <==> shell_split(chosen) is None)
            &&& (shell_split(chosen) matches Some(toks) ==> {
                &&& (toks.len() == 0 ==> r == Ok::<PagerPlan, CommandParseError>(
                    PagerPlan::Standard,
                ))
                &&& (r matches Ok(plan) ==> plan_fits(
                    plan,
                    toks,
                    replace,
                    quit_if_one_screen,
                    own_name@,
                ))
            })
        }),
{
    let (cmd, replace_args) = choose_pager_command(explicit_pager, env);
    match split_words(cmd.as_str()) {
        Err(_) => Err(CommandParseError),
        Ok(mut toks) => {
            if toks.len() == 0 {
                Ok(PagerPlan::Standard)
            } else {
                let ghost all_toks = toks.deep_view();
                let program = toks.remove(0);
                proof {
                    assert(toks.deep_view() =~= all_toks.skip(1));
                }
                match resolve_binary_program(&program) {
                    None => Ok(PagerPlan::Standard),
                    Some(path) => Ok(
                        classify_resolved(path, toks, replace_args, quit_if_one_screen, own_name),
                    ),
                }
            }
        },
    }
}

/// The top of the resolution protocol.
///
/// `Capture` mode asks for no writable destination; `Never` (the default)
/// writes to standard output; `Always` and `QuitIfOneScreen` attempt a
/// pager, surfacing a malformed command string as an error and degrading
/// silently to standard output where the binary cannot be located.
pub fn resolve_pager(
    mode: PagingMode,
    explicit_pager: Option<String>,
    env: &PagerEnv,
    own_name: &str,
) -> (r: Result<PagerPlan, CommandParseError>)
    ensures
        mode == PagingMode::Capture ==> r == Ok::<PagerPlan, CommandParseError>(PagerPlan::Capture),
        mode == PagingMode::Never ==> r == Ok::<PagerPlan, CommandParseError>(PagerPlan::Standard),
        mode == PagingMode::Always || mode == PagingMode::QuitIfOneScreen ==> ({
            let chosen = chosen_pager_spec(
                explicit_pager.deep_view(),
                env.pager_override.deep_view(),
                env.pager_generic.deep_view(),
            );
            let replace = replace_args_spec(
                explicit_pager.deep_view(),
                env.pager_override.deep_view(),
                env.pager_generic.deep_view(),
            );
            &&& (r is Err <==> shell_split(chosen) is None)
            &&& (shell_split(chosen) matches Some(toks) ==> {
                &&& (toks.len() == 0 ==> r == Ok::<PagerPlan, CommandParseError>(
                    PagerPlan::Standard,
                ))
                &&& (r matches Ok(plan) ==> plan_fits(
                    plan,
                    toks,
                    replace,
                    mode == PagingMode::QuitIfOneScreen,
                    own_name@,
                ))
            })
        }),
{
    match mode {
        PagingMode::Always => try_pager(false, explicit_pager, env, own_name),
        PagingMode::QuitIfOneScreen => try_pager(true, explicit_pager, env, own_name),
        PagingMode::Capture => Ok(PagerPlan::Capture),
        _ => Ok(PagerPlan::Standard),
    }
}

/// The message shown when a pager would recurse into this program: such a
/// value suits a git-style pager variable, never the generic pager.
pub fn self_recursion_message(own_name: &str) -> (r: String)
    ensures
        r@ == "It looks like you have set "@ + own_name@
            + " as the value of $PAGER. This would result in a non-terminating recursion. "@
            + own_name@
            + " is not an appropriate value for $PAGER (but it is an appropriate value for $GIT_PAGER)."@,
{
    let mut m = "It looks like you have set ".to_owned();
    m.append(own_name);
    m.append(" as the value of $PAGER. This would result in a non-terminating recursion. ");
    m.append(own_name);
    m.append(" is not an appropriate value for $PAGER (but it is an appropriate value for $GIT_PAGER).");
    m
}

/// An explicit pager always wins: whatever the two environment preferences
/// hold, the chosen command is the explicit string and the chosen pager's
/// own arguments are kept.
pub proof fn lemma_explicit_pager_wins(
    explicit: Seq<char>,
    override_var: Option<Seq<char>>,
    generic_var: Option<Seq<char>>,
)
    ensures
        chosen_pager_spec(Some(explicit), override_var, generic_var) == explicit,
        !replace_args_spec(Some(explicit), override_var, generic_var),
{
}

/// Without an explicit pager: the override wins over the generic pager and
/// keeps its own arguments; the generic pager, standing alone, is chosen
/// with its arguments replaced; with neither set, the bare `less` is the
/// default.
pub proof fn lemma_env_pager_precedence(
    override_var: Option<Seq<char>>,
    generic_var: Option<Seq<char>>,
)
    ensures
        override_var matches Some(o) ==> chosen_pager_spec(None, override_var, generic_var) == o
            && !replace_args_spec(None, override_var, generic_var),
        ({
            match (override_var, generic_var) {
                (None, Some(g)) => chosen_pager_spec(None, override_var, generic_var) == g
                    && replace_args_spec(None, override_var, generic_var),
                _ => true,
            }
        }),
        override_var is None && generic_var is None ==> chosen_pager_spec(
            None,
            override_var,
            generic_var,
        ) == "less"@ && !replace_args_spec(None, override_var, generic_var),
{
}

/// A plan that is to be spawned never names a binary whose stem matches the
/// program's own name, as long as the program is not itself called `less`:
/// such a binary lands in the fatal `SelfRecursion` case instead, before
/// any spawn.
pub proof fn lemma_self_recursion_never_spawned(
    plan: PagerPlan,
    toks: Seq<Seq<char>>,
    replace: bool,
    quit: bool,
    own_name: Seq<char>,
)
    requires
        plan_fits(plan, toks, replace, quit, own_name),
        !eq_ignore_ascii_case("less"@, own_name),
    ensures
        plan matches PagerPlan::LessPager { path, .. } ==> !stem_matches_spec(path@, own_name),
        plan matches PagerPlan::GenericPager { path, .. } ==> !stem_matches_spec(path@, own_name),
{
    if let PagerPlan::LessPager { path, .. } = plan {
        if stem_matches_spec(path@, own_name) {
            lemma_eq_ignore_case_transitive(crate::path_stem::path_stem(path@), "less"@, own_name);
            assert(false);
        }
    }
}

} // verus!
