//! Persisted preferences for the interactive browser. Reading and writing
//! the preference file is the embedding program's job; the shape and the
//! defaults are fixed here.

use vstd::prelude::*;
use crate::theme::ThemeVariant;

verus! {

/// The persisted preferences: theme, whether the kill confirmation dialog
/// is skipped, and the animation duration.
#[derive(Debug, Clone, Copy, PartialEq, Eq, Structural)]
pub struct Config {
    pub theme: ThemeVariant,
    pub skip_confirm_dialog: bool,
    pub animation_duration_ms: u64,
}

impl Default for Config {
    /// The configuration used when no preference file exists or it cannot
    /// be read.
    fn default() -> (r: Self)
        ensures
            r.theme == ThemeVariant::Dark,
            !r.skip_confirm_dialog,
            r.animation_duration_ms == 1000,
    {
        Config { theme: ThemeVariant::Dark, skip_confirm_dialog: false, animation_duration_ms: 1000 }
    }
}

} // verus!
