//! Envelope phases for synthesized voices.

use vstd::prelude::*;

verus! {

/// The phase a synthesized voice's envelope is in.
#[derive(Clone, Copy, Debug, PartialEq, Eq, Structural)]
pub enum EnvStage {
    Off,
    Attack,
    Decay,
    Sustain,
    Release,
}

} // verus!
