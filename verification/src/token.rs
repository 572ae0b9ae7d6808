//! The playing pieces, one per player identity.

use vstd::prelude::*;

verus! {

/// The piece a player moves around the board.
#[derive(Clone, Copy, Debug, PartialEq, Eq, Structural)]
pub enum Token {
    Iron,
    Terrier,
    Horse,
    TopHat,
    Cannon,
    Wheelbarrow,
    Battleship,
    Thimble,
    Car,
    Boot,
}

impl Token {
    /// The token that belongs to an identity: the first nine identities have a
    /// token each, every other identity plays the boot.
    pub open spec fn of(value: nat) -> Token {
        if value == 1 {
            Token::Iron
        } else if value == 2 {
            Token::Terrier
        } else if value == 3 {
            Token::Horse
        } else if value == 4 {
            Token::TopHat
        } else if value == 5 {
            Token::Cannon
        } else if value == 6 {
            Token::Wheelbarrow
        } else if value == 7 {
            Token::Battleship
        } else if value == 8 {
            Token::Thimble
        } else if value == 9 {
            Token::Car
        } else {
            Token::Boot
        }
    }

    /// Looks up the token of an identity.
    pub fn value_to_enum(value: usize) -> (token: Self)
        ensures
            token == Token::of(value as nat),
    {
        match value {
            1 => Self::Iron,
            2 => Self::Terrier,
            3 => Self::Horse,
            4 => Self::TopHat,
            5 => Self::Cannon,
            6 => Self::Wheelbarrow,
            7 => Self::Battleship,
            8 => Self::Thimble,
            9 => Self::Car,
            _ => Self::Boot,
        }
    }
}

} // verus!
