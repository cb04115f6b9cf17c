//! The persisted display preference: which of the two colour themes the
//! interactive browser uses. The concrete colour palettes belong to the
//! rendering layer.

use vstd::prelude::*;

verus! {

/// The two selectable themes.
#[derive(Debug, Clone, Copy, PartialEq, Eq, Structural)]
pub enum ThemeVariant {
    Dark,
    Light,
}

/// The theme `toggle` switches to: always the other one.
pub open spec fn toggled(t: ThemeVariant) -> ThemeVariant {
    match t {
        ThemeVariant::Dark => ThemeVariant::Light,
        ThemeVariant::Light => ThemeVariant::Dark,
    }
}

impl Default for ThemeVariant {
    /// The theme used before any preference is saved.
    fn default() -> (r: Self)
        ensures
            r == ThemeVariant::Dark,
    {
        ThemeVariant::Dark
    }
}

impl ThemeVariant {
    /// The other theme: the result always differs from the input, and
    /// toggling twice returns to the start.
    pub fn toggle(&self) -> (r: Self)
        ensures
            r == toggled(*self),
            r != *self,
            toggled(r) == *self,
    {
        match self {
            ThemeVariant::Dark => ThemeVariant::Light,
            ThemeVariant::Light => ThemeVariant::Dark,
        }
    }
}

} // verus!
