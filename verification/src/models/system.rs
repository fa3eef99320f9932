use vstd::prelude::*;

use super::planet::Planet;

verus! {

#[derive(Clone, Copy, Debug, PartialEq, Eq, Structural)]
pub enum StarType {
    RedDwarf,
    YellowDwarf,
    BlueGiant,
    RedGiant,
    WhiteDwarf,
    Neutron,
    BinarySystem,
}

/// Position of a star system; each coordinate is the bit pattern of an `f64`.
#[derive(Clone, Copy, Debug, PartialEq, Eq, Structural)]
pub struct Coordinates {
    pub x_bits: u64,
    pub y_bits: u64,
    pub z_bits: u64,
}

/// A star system and its planets.
pub struct System {
    pub name: String,
    pub coordinates: Coordinates,
    pub star_type: StarType,
    pub planets: Vec<Planet>,
}

/// Body of a request that creates a star system.
pub struct CreateSystemRequest {
    pub name: String,
    pub coordinates: Coordinates,
    pub star_type: StarType,
}

/// Body of a request that changes a star system.
pub struct UpdateSystemRequest {
    pub name: Option<String>,
    pub coordinates: Option<Coordinates>,
    pub star_type: Option<StarType>,
}

} // verus!
