//! What a square costs: the figures that a board is set up from.

use crate::locations::BoardLocationName;
use vstd::prelude::*;

verus! {

/// The economics of one square.
#[derive(Debug)]
pub struct Property {
    pub location: BoardLocationName,
    /// What it costs to buy the square.
    pub tile_cost: usize,
    /// The rent of the bare square.
    pub charge: usize,
    /// What each house costs to build.
    pub house_cost: usize,
    /// What the hotel costs to build.
    pub hotel_cost: usize,
}

impl Property {
    pub fn new(
        location: BoardLocationName,
        tile_cost: usize,
        charge: usize,
        house_cost: usize,
        hotel_cost: usize,
    ) -> (property: Self)
        ensures
            property.location == location,
            property.tile_cost == tile_cost,
            property.charge == charge,
            property.house_cost == house_cost,
            property.hotel_cost == hotel_cost,
    {
        Self { location, tile_cost, charge, house_cost, hotel_cost }
    }
}

} // verus!
