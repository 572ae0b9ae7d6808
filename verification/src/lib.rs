//! A turn-based property-trading board game, modelled as an agent simulation:
//! dice, players, board squares, the two card decks and the per-turn engine.
//!
//! Every function carries a contract over a mathematical view of the data it
//! touches, and the contracts are proved.

pub mod agent;
pub mod cards;
pub mod config;
pub mod dice;
pub mod locations;
pub mod monopoly;
pub mod payment;
pub mod player;
pub mod square;
pub mod state;
pub mod token;
pub mod turn;
