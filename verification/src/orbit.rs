//! Orbits. Every orbit is the same one for now.

use vstd::prelude::*;

verus! {

/// A destination around the planet.
#[derive(Clone, Copy, Debug, PartialEq, Eq, Structural)]
pub struct Orbit;

impl Orbit {
    /// The text an orbit is shown as.
    pub open spec fn label_text() -> Seq<char> {
        seq!['O', 'r', 'b', 'i', 't']
    }

    /// The text this orbit is shown as.
    pub fn label(&self) -> (s: String)
        ensures
            s@ == Self::label_text(),
    {
        proof {
            reveal_strlit("Orbit");
            assert("Orbit"@ =~= Self::label_text());
        }
        "Orbit".to_string()
    }
}

} // verus!
