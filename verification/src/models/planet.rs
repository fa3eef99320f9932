use vstd::prelude::*;

use super::settlement::Settlement;
use super::station::{SpaceElevator, Station};

verus! {

/// How far a planet has been developed.
pub enum PlanetStatus {
    Uninhabited,
    Settled { settlement: Settlement },
    Connected { settlement: Settlement, station: Station, space_elevator: SpaceElevator },
}

#[derive(Clone, Copy, Debug, PartialEq, Eq, Structural)]
pub enum ClimateType {
    Arid,
    Tropical,
    Temperate,
    Arctic,
    Desert,
    Oceanic,
    Volcanic,
}

#[derive(Clone, Copy, Debug, PartialEq, Eq, Structural)]
pub enum GasGiantType {
    Jovian,
    Saturnian,
    IceGiant,
    HotJupiter,
}

#[derive(Clone, Copy, Debug, PartialEq, Eq, Structural)]
pub enum PlanetType {
    Telluric { climate: ClimateType },
    GasGiant { gas_type: GasGiantType },
}

/// A planet.  Its distance from the star, a floating-point number of AU, is
/// carried as the bit pattern of that `f64` and never computed with here.
pub struct Planet {
    pub id: String,
    pub name: String,
    pub position: u32,
    pub distance_ua_bits: u64,
    pub planet_type: PlanetType,
    pub status: PlanetStatus,
}

/// Body of a request that creates a planet.
pub struct CreatePlanetRequest {
    pub name: String,
    pub position: u32,
    pub distance_ua_bits: u64,
    pub planet_type: PlanetType,
}

/// Body of a request that changes a planet.
pub struct UpdatePlanetRequest {
    pub name: Option<String>,
    pub distance_ua_bits: Option<u64>,
    pub planet_type: Option<PlanetType>,
}

} // verus!
