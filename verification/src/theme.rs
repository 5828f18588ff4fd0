//! Theme store: a two-state (dark/light) singleton toggled by a single
//! action. The caller mirrors the state onto the document root as a
//! marker attribute; `marker_present` says when the marker must be set.

use vstd::prelude::*;

verus! {

/// Current site theme.
#[derive(Structural, PartialEq, Eq, Clone, Copy, Debug)]
pub enum ThemeState {
    Dark,
    Light,
}

/// Actions accepted by the theme store.
#[derive(Structural, PartialEq, Eq, Clone, Copy, Debug)]
pub enum ThemeMsg {
    Toggle,
}

/// The theme store's whole state.
#[derive(Structural, PartialEq, Eq, Clone, Copy, Debug)]
pub struct ThemeCtx {
    pub theme: ThemeState,
}

/// The theme reached from `t` by one toggle.
pub open spec fn toggled(t: ThemeState) -> ThemeState {
    match t {
        ThemeState::Dark => ThemeState::Light,
        ThemeState::Light => ThemeState::Dark,
    }
}

/// Whether the document root must carry the theme marker attribute.
pub open spec fn marker_present(t: ThemeState) -> bool {
    t is Dark
}

impl ThemeCtx {
    /// The store's state at startup, from the color-scheme preference
    /// the host read once.
    pub fn initial(prefers_dark: bool) -> (ctx: ThemeCtx)
        ensures
            ctx.theme == (if prefers_dark {
                ThemeState::Dark
            } else {
                ThemeState::Light
            }),
    {
        ThemeCtx {
            theme: if prefers_dark {
                ThemeState::Dark
            } else {
                ThemeState::Light
            },
        }
    }

    /// The reducer: `Toggle` flips dark and light. The caller applies
    /// `dark_marker` of the new state to the document root.
    pub fn reduce(&self, action: ThemeMsg) -> (next: ThemeCtx)
        ensures
            next.theme == match action {
                ThemeMsg::Toggle => toggled(self.theme),
            },
    {
        ThemeCtx {
            theme: match action {
                ThemeMsg::Toggle => match self.theme {
                    ThemeState::Dark => ThemeState::Light,
                    ThemeState::Light => ThemeState::Dark,
                },
            },
        }
    }
}

impl ThemeState {
    /// True exactly when the marker attribute belongs on the root.
    pub fn dark_marker(&self) -> (r: bool)
        ensures
            r == marker_present(*self),
    {
        match self {
            ThemeState::Dark => true,
            ThemeState::Light => false,
        }
    }
}

/// Toggling twice returns to the original theme, and with it the marker
/// attribute to its original presence or absence.
pub proof fn lemma_toggle_twice(t: ThemeState)
    ensures
        toggled(toggled(t)) == t,
        marker_present(toggled(toggled(t))) == marker_present(t),
{
}

} // verus!
