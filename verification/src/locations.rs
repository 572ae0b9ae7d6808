//! The squares of the board, by name and in board order.

use vstd::prelude::*;

verus! {

/// The number of squares that a lap of the board is counted in.
pub const BOARD_SIZE: usize = 40;

/// The number of squares that have a name.
pub const NAMED_SQUARES: usize = 39;

/// The name of a square. The order is the order on the board, starting at Go.
#[derive(Clone, Copy, Debug, PartialEq, Eq, Hash, Structural)]
pub enum BoardLocationName {
    Go,
    OldKentRoad,
    WhitechapelRoad,
    IncomeTax,
    MaryleboneStation,
    TheAngelIslington,
    Chance1,
    EustonRoad,
    PentonvilleRoad,
    Jail,
    PallMall,
    ElectricCompany,
    Whitehall,
    NorthumberlandAvenue,
    FenchurchStreetStation,
    BowStreet,
    CommunityChest1,
    GreatMarlboroughStreet,
    VineStreet,
    FreeParking,
    TheStrand,
    Chance2,
    FleetStreet,
    TrafalgarSquare,
    KingCrossStation,
    LeicesterSquare,
    CoventryStreet,
    WaterCompany,
    Piccadilly,
    GoToJail,
    RegentStreet,
    OxfordStreet,
    CommunityChest2,
    BondStreet,
    LiverpoolStreetStation,
    Chance3,
    ParkLane,
    LuxuryTax,
    Mayfair,
}

impl BoardLocationName {
    /// How many squares lie between Go and this square.
    pub open spec fn spec_position(self) -> nat {
        match self {
            BoardLocationName::Go => 0,
            BoardLocationName::OldKentRoad => 1,
            BoardLocationName::WhitechapelRoad => 2,
            BoardLocationName::IncomeTax => 3,
            BoardLocationName::MaryleboneStation => 4,
            BoardLocationName::TheAngelIslington => 5,
            BoardLocationName::Chance1 => 6,
            BoardLocationName::EustonRoad => 7,
            BoardLocationName::PentonvilleRoad => 8,
            BoardLocationName::Jail => 9,
            BoardLocationName::PallMall => 10,
            BoardLocationName::ElectricCompany => 11,
            BoardLocationName::Whitehall => 12,
            BoardLocationName::NorthumberlandAvenue => 13,
            BoardLocationName::FenchurchStreetStation => 14,
            BoardLocationName::BowStreet => 15,
            BoardLocationName::CommunityChest1 => 16,
            BoardLocationName::GreatMarlboroughStreet => 17,
            BoardLocationName::VineStreet => 18,
            BoardLocationName::FreeParking => 19,
            BoardLocationName::TheStrand => 20,
            BoardLocationName::Chance2 => 21,
            BoardLocationName::FleetStreet => 22,
            BoardLocationName::TrafalgarSquare => 23,
            BoardLocationName::KingCrossStation => 24,
            BoardLocationName::LeicesterSquare => 25,
            BoardLocationName::CoventryStreet => 26,
            BoardLocationName::WaterCompany => 27,
            BoardLocationName::Piccadilly => 28,
            BoardLocationName::GoToJail => 29,
            BoardLocationName::RegentStreet => 30,
            BoardLocationName::OxfordStreet => 31,
            BoardLocationName::CommunityChest2 => 32,
            BoardLocationName::BondStreet => 33,
            BoardLocationName::LiverpoolStreetStation => 34,
            BoardLocationName::Chance3 => 35,
            BoardLocationName::ParkLane => 36,
            BoardLocationName::LuxuryTax => 37,
            BoardLocationName::Mayfair => 38,
        }
    }

    /// Whether landing here draws a Chance card.
    pub open spec fn is_chance(self) -> bool {
        self == BoardLocationName::Chance1 || self == BoardLocationName::Chance2 || self
            == BoardLocationName::Chance3
    }

    /// Whether landing here draws a Community Chest card.
    pub open spec fn is_community_chest(self) -> bool {
        self == BoardLocationName::CommunityChest1 || self == BoardLocationName::CommunityChest2
    }

    /// Whether a player can own this square. Go, the two taxes, the card
    /// squares, Jail, Free Parking and Go To Jail belong to nobody.
    pub open spec fn spec_ownable(self) -> bool {
        !(self == BoardLocationName::Go || self == BoardLocationName::IncomeTax || self
            == BoardLocationName::LuxuryTax || self.is_chance() || self.is_community_chest()
            || self == BoardLocationName::Jail || self == BoardLocationName::FreeParking || self
            == BoardLocationName::GoToJail)
    }

    /// How many squares lie between Go and this square.
    pub fn position(&self) -> (index: usize)
        ensures
            index == self.spec_position(),
            index < NAMED_SQUARES,
    {
        match self {
            BoardLocationName::Go => 0,
            BoardLocationName::OldKentRoad => 1,
            BoardLocationName::WhitechapelRoad => 2,
            BoardLocationName::IncomeTax => 3,
            BoardLocationName::MaryleboneStation => 4,
            BoardLocationName::TheAngelIslington => 5,
            BoardLocationName::Chance1 => 6,
            BoardLocationName::EustonRoad => 7,
            BoardLocationName::PentonvilleRoad => 8,
            BoardLocationName::Jail => 9,
            BoardLocationName::PallMall => 10,
            BoardLocationName::ElectricCompany => 11,
            BoardLocationName::Whitehall => 12,
            BoardLocationName::NorthumberlandAvenue => 13,
            BoardLocationName::FenchurchStreetStation => 14,
            BoardLocationName::BowStreet => 15,
            BoardLocationName::CommunityChest1 => 16,
            BoardLocationName::GreatMarlboroughStreet => 17,
            BoardLocationName::VineStreet => 18,
            BoardLocationName::FreeParking => 19,
            BoardLocationName::TheStrand => 20,
            BoardLocationName::Chance2 => 21,
            BoardLocationName::FleetStreet => 22,
            BoardLocationName::TrafalgarSquare => 23,
            BoardLocationName::KingCrossStation => 24,
            BoardLocationName::LeicesterSquare => 25,
            BoardLocationName::CoventryStreet => 26,
            BoardLocationName::WaterCompany => 27,
            BoardLocationName::Piccadilly => 28,
            BoardLocationName::GoToJail => 29,
            BoardLocationName::RegentStreet => 30,
            BoardLocationName::OxfordStreet => 31,
            BoardLocationName::CommunityChest2 => 32,
            BoardLocationName::BondStreet => 33,
            BoardLocationName::LiverpoolStreetStation => 34,
            BoardLocationName::Chance3 => 35,
            BoardLocationName::ParkLane => 36,
            BoardLocationName::LuxuryTax => 37,
            BoardLocationName::Mayfair => 38,
        }
    }

    /// The square at a position, counted from Go; none where the position has
    /// no named square.
    pub fn at(position: usize) -> (found: Option<Self>)
        ensures
            found matches Some(location) ==> location.spec_position() == position,
            found is None <==> position >= NAMED_SQUARES,
    {
        match position {
            0 => Some(BoardLocationName::Go),
            1 => Some(BoardLocationName::OldKentRoad),
            2 => Some(BoardLocationName::WhitechapelRoad),
            3 => Some(BoardLocationName::IncomeTax),
            4 => Some(BoardLocationName::MaryleboneStation),
            5 => Some(BoardLocationName::TheAngelIslington),
            6 => Some(BoardLocationName::Chance1),
            7 => Some(BoardLocationName::EustonRoad),
            8 => Some(BoardLocationName::PentonvilleRoad),
            9 => Some(BoardLocationName::Jail),
            10 => Some(BoardLocationName::PallMall),
            11 => Some(BoardLocationName::ElectricCompany),
            12 => Some(BoardLocationName::Whitehall),
            13 => Some(BoardLocationName::NorthumberlandAvenue),
            14 => Some(BoardLocationName::FenchurchStreetStation),
            15 => Some(BoardLocationName::BowStreet),
            16 => Some(BoardLocationName::CommunityChest1),
            17 => Some(BoardLocationName::GreatMarlboroughStreet),
            18 => Some(BoardLocationName::VineStreet),
            19 => Some(BoardLocationName::FreeParking),
            20 => Some(BoardLocationName::TheStrand),
            21 => Some(BoardLocationName::Chance2),
            22 => Some(BoardLocationName::FleetStreet),
            23 => Some(BoardLocationName::TrafalgarSquare),
            24 => Some(BoardLocationName::KingCrossStation),
            25 => Some(BoardLocationName::LeicesterSquare),
            26 => Some(BoardLocationName::CoventryStreet),
            27 => Some(BoardLocationName::WaterCompany),
            28 => Some(BoardLocationName::Piccadilly),
            29 => Some(BoardLocationName::GoToJail),
            30 => Some(BoardLocationName::RegentStreet),
            31 => Some(BoardLocationName::OxfordStreet),
            32 => Some(BoardLocationName::CommunityChest2),
            33 => Some(BoardLocationName::BondStreet),
            34 => Some(BoardLocationName::LiverpoolStreetStation),
            35 => Some(BoardLocationName::Chance3),
            36 => Some(BoardLocationName::ParkLane),
            37 => Some(BoardLocationName::LuxuryTax),
            38 => Some(BoardLocationName::Mayfair),
            _ => None,
        }
    }
}

/// No two squares share a position.
pub proof fn lemma_position_is_injective(a: BoardLocationName, b: BoardLocationName)
    requires
        a.spec_position() == b.spec_position(),
    ensures
        a == b,
{
}

} // verus!
