//! Satellites already in orbit, and the kinds of satellite there are.

use vstd::prelude::*;
use crate::orbit::Orbit;
use crate::units::Mass;
use crate::units::Volume;

verus! {

/// The place of a satellite in the registry.
#[derive(Clone, Copy, Debug, PartialEq, Eq, Structural)]
pub struct SatId(pub u32);

/// Every satellite in orbit, in the order of launch.
#[derive(Debug)]
pub struct SatRegistry {
    sats: Vec<Sat>,
}

#[derive(Debug)]
pub enum Sat {
    CubeSat(CubeSat),
    LargeSat(LargeSat),
    ArraySat(ArraySat),
    Station(Station),
}

#[derive(Clone, Copy, Debug, PartialEq, Eq, Structural)]
pub struct CubeSat {
    pub class: CubeSatClass,
    pub mass: Mass,
    pub orbit: Orbit,
}

#[derive(Clone, Copy, Debug, PartialEq, Eq, Structural)]
pub enum CubeSatClass {
    CubeSat1U,
    CubeSat2U,
    CubeSat3U,
    CubeSat6U,
}

#[derive(Clone, Copy, Debug, PartialEq, Eq, Structural)]
pub struct LargeSat {
    pub volume: Volume,
    pub mass: Mass,
    pub orbit: Orbit,
}

#[derive(Debug)]
pub struct SatArray {
    pub volume: Volume,
    pub base_mass: Mass,
    pub sat_mass: Mass,
    pub orbits: Vec<Orbit>,
}

#[derive(Clone, Copy, Debug, PartialEq, Eq, Structural)]
pub struct ArraySat {
    pub mass: Mass,
    pub orbit: Orbit,
}

#[derive(Debug)]
pub struct Station {
    pub name: String,
    pub orbit: Orbit,
}

impl SatRegistry {
    /// The satellites, oldest first.
    pub closed spec fn sats(&self) -> Seq<Sat> {
        self.sats@
    }

    /// A registry with nothing in orbit.
    pub fn new() -> (r: SatRegistry)
        ensures
            r.sats().len() == 0,
    {
        SatRegistry { sats: Vec::new() }
    }

    /// The satellite that `id` stands for, if it has been launched.
    pub fn get(&self, id: SatId) -> (r: Option<&Sat>)
        ensures
            r == if id.0 < self.sats().len() {
                Some(&self.sats()[id.0 as int])
            } else {
                None
            },
    {
        let SatId(idx) = id;
        let at: usize = idx as usize;
        if at < self.sats.len() {
            Some(&self.sats[at])
        } else {
            None
        }
    }
}

impl Sat {
    /// Where the satellite is.
    pub fn orbit(&self) -> (o: Orbit)
        ensures
            o == match *self {
                Sat::CubeSat(sat) => sat.orbit,
                Sat::LargeSat(sat) => sat.orbit,
                Sat::ArraySat(sat) => sat.orbit,
                Sat::Station(sat) => sat.orbit,
            },
    {
        match self {
            Sat::CubeSat(sat) => sat.orbit,
            Sat::LargeSat(sat) => sat.orbit,
            Sat::ArraySat(sat) => sat.orbit,
            Sat::Station(sat) => sat.orbit,
        }
    }
}

impl CubeSatClass {
    /// The text a class is shown as: its size in units.
    pub open spec fn label_text(self) -> Seq<char> {
        match self {
            CubeSatClass::CubeSat1U => seq!['1', 'U'],
            CubeSatClass::CubeSat2U => seq!['2', 'U'],
            CubeSatClass::CubeSat3U => seq!['3', 'U'],
            CubeSatClass::CubeSat6U => seq!['6', 'U'],
        }
    }

    /// The text this class is shown as.
    pub fn label(&self) -> (s: String)
        ensures
            s@ == self.label_text(),
    {
        proof {
            reveal_strlit("1U");
            reveal_strlit("2U");
            reveal_strlit("3U");
            reveal_strlit("6U");
            assert("1U"@ =~= seq!['1', 'U']);
            assert("2U"@ =~= seq!['2', 'U']);
            assert("3U"@ =~= seq!['3', 'U']);
            assert("6U"@ =~= seq!['6', 'U']);
        }
        match self {
            CubeSatClass::CubeSat1U => "1U",
            CubeSatClass::CubeSat2U => "2U",
            CubeSatClass::CubeSat3U => "3U",
            CubeSatClass::CubeSat6U => "6U",
        }.to_string()
    }
}

} // verus!
