//! View-layer panel state: which of the front end's windows are shown. The
//! drawing itself belongs to the front end; this is only the state it
//! toggles.

use vstd::prelude::*;

verus! {

/// Visibility of the front end's panels.
pub struct Windows {
    pub show_tapes: bool,
    pub show_metronome: bool,
    pub show_stats: bool,
}

impl Windows {
    /// The startup layout: the tapes panel shown, the others hidden.
    pub fn new() -> (w: Windows)
        ensures
            w.show_tapes,
            !w.show_metronome,
            !w.show_stats,
    {
        Windows { show_tapes: true, show_metronome: false, show_stats: false }
    }
}

} // verus!
