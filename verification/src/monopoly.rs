//! The state of a game between turns: the pool, where everyone stands, and how
//! many cycles have been played.

use crate::config::Property;
use crate::locations::BoardLocationName;
use crate::player::{Player, PlayerId};
use crate::state::State;
use std::collections::HashMap;
use vstd::prelude::*;

verus! {

broadcast use vstd::std_specs::hash::group_hash_axioms;

/// A running count.
pub struct Count(usize);

/// The state of a game.
pub struct MonopolyState {
    free_parking: Count,
    player_position: HashMap<PlayerId, BoardLocationName>,
    cycles: Count,
}

impl MonopolyState {
    /// What lies in the free-parking pool.
    pub closed spec fn spec_free_parking(&self) -> nat {
        self.free_parking.0 as nat
    }

    /// How many cycles have been played.
    pub closed spec fn spec_cycles(&self) -> nat {
        self.cycles.0 as nat
    }

    /// The square that each player stands on, by identity.
    pub closed spec fn positions(&self) -> Map<PlayerId, BoardLocationName> {
        self.player_position@
    }

    /// The state before the first turn: an empty pool, no cycle played, and
    /// the players with identities 1 to `n_players` on Go.
    pub fn new(n_players: usize, _property_config: Vec<Property>, _players: Vec<&Player>) -> (state:
        Self)
        ensures
            state.spec_free_parking() == 0,
            state.spec_cycles() == 0,
            forall|id: PlayerId| state.positions().contains_key(id) <==> 1 <= id <= n_players,
            forall|id: PlayerId|
                1 <= id <= n_players ==> state.positions()[id] == BoardLocationName::Go,
    {
        let mut positions: HashMap<PlayerId, BoardLocationName> = HashMap::new();
        let mut seated: usize = 0;
        while seated < n_players
            invariant
                seated <= n_players,
                forall|id: PlayerId| positions@.contains_key(id) <==> 1 <= id <= seated,
                forall|id: PlayerId| 1 <= id <= seated ==> positions@[id] == BoardLocationName::Go,
            decreases n_players - seated,
        {
            seated = seated + 1;
            positions.insert(seated, BoardLocationName::Go);
        }
        Self { free_parking: Count(0), player_position: positions, cycles: Count(0) }
    }

    pub fn free_parking(&self) -> (pool: usize)
        ensures
            pool == self.spec_free_parking(),
    {
        self.free_parking.0
    }

    pub fn cycles(&self) -> (played: usize)
        ensures
            played == self.spec_cycles(),
    {
        self.cycles.0
    }

    /// The square that the player with the given identity stands on, if the
    /// game has such a player.
    pub fn position_of(&self, id: PlayerId) -> (square: Option<BoardLocationName>)
        ensures
            square is Some == self.positions().contains_key(id),
            square matches Some(location) ==> location == self.positions()[id],
    {
        match self.player_position.get(&id) {
            Some(location) => Some(*location),
            None => None,
        }
    }
}

impl State for MonopolyState {
    open spec fn can_update(&self) -> bool {
        self.spec_cycles() < usize::MAX
    }

    /// Counts one more cycle and leaves the rest as it is.
    fn update(&mut self)
        ensures
            final(self).spec_cycles() == old(self).spec_cycles() + 1,
            final(self).spec_free_parking() == old(self).spec_free_parking(),
            final(self).positions() == old(self).positions(),
    {
        self.cycles.0 = self.cycles.0 + 1;
    }
}

} // verus!
