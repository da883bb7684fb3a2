//! Configuration values consumed by the pager resolution protocol.

use vstd::prelude::*;

verus! {

/// How much paging the caller wants.
///
/// `Always` and `QuitIfOneScreen` attempt to launch a pager; `Never` writes
/// straight to standard output; `Capture` produces a sink with no writable
/// destination at all.
#[derive(Clone, Copy, Debug, PartialEq, Eq, Structural)]
pub enum PagingMode {
    Always,
    QuitIfOneScreen,
    Never,
    Capture,
}

impl Default for PagingMode {
    fn default() -> (r: Self)
        ensures
            r == PagingMode::Never,
    {
        PagingMode::Never
    }
}

/// Options that influence how the pager is launched.
///
/// `navigate` asks for a pre-seeded search history; `show_themes` positions
/// the pager at a numbered section for a themes listing; `navigate_regex` is
/// handed to the history-preparation collaborator and not read here.
#[derive(Debug)]
pub struct PagerCfg {
    pub navigate: bool,
    pub show_themes: bool,
    pub navigate_regex: Option<String>,
}

impl Default for PagerCfg {
    fn default() -> (r: Self)
        ensures
            !r.navigate,
            !r.show_themes,
            r.navigate_regex is None,
    {
        PagerCfg { navigate: false, show_themes: false, navigate_regex: None }
    }
}

/// The two environment-sourced pager preferences, captured once at process
/// start: a tool-specific override and the generic system-wide pager.
#[derive(Debug)]
pub struct PagerEnv {
    pub pager_override: Option<String>,
    pub pager_generic: Option<String>,
}

} // verus!
