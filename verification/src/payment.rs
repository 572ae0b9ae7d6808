//! What one player owes another after landing on a square.

use vstd::prelude::*;

verus! {

/// A transfer that the turn engine is to carry out between two players.
#[derive(Clone, Copy, Debug, PartialEq, Eq, Structural)]
pub struct Payment {
    /// The identity of the player who is owed.
    pub to: usize,
    /// How much is owed.
    pub amount: usize,
    /// Whether the payer could not afford the amount and went bankrupt over it.
    pub terminal: bool,
}

} // verus!
