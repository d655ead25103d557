//! Physical quantities, each an integer count of its base unit.

use vstd::prelude::*;

verus! {

/// A mass, represented as an integer number of grams.
#[derive(Clone, Copy, Debug, PartialEq, Eq, Structural)]
pub struct Mass(pub u64);

/// A specific impulse, represented as an integer number of seconds.
#[derive(Clone, Copy, Debug, PartialEq, Eq, Structural)]
pub struct Isp(pub u64);

/// A volume, represented as an integer number of liters.
#[derive(Clone, Copy, Debug, PartialEq, Eq, Structural)]
pub struct Volume(pub u64);

/// A preasure, represented as an integer number of pascals.
#[derive(Clone, Copy, Debug, PartialEq, Eq, Structural)]
pub struct Preasure(pub u64);

/// Grams in one kilogram.
pub const GRAMS_PER_KG: u64 = 1000;

impl Mass {
    /// The mass of `kg` kilograms. The count of grams has to fit in 64 bits.
    pub fn kg(kg: u64) -> (m: Mass)
        requires
            kg * GRAMS_PER_KG <= u64::MAX,
        ensures
            m.0 == kg * GRAMS_PER_KG,
    {
        Mass(GRAMS_PER_KG * kg)
    }
}

impl Isp {
    /// A specific impulse of `s` seconds.
    pub fn s(s: u64) -> (isp: Isp)
        ensures
            isp.0 == s,
    {
        Isp(s)
    }
}

} // verus!
