//! The Chance and the Community Chest decks: what each card does to the player
//! who draws it.

use crate::payment::Payment;
use crate::player::{Player, PlayerView};
use crate::square::{FreeParking, MoveTo};
use vstd::prelude::*;

verus! {

/// The number of cards in the Chance deck.
pub const CHANCE_CARDS: usize = 16;

/// The number of cards in the Community Chest deck.
pub const COMMUNITY_CHEST_CARDS: usize = 14;

/// The position of Go.
pub const GO_POSITION: usize = 0;

/// The position of the jail.
pub const JAIL_POSITION: usize = 9;

/// What landing on a square, or drawing a card, asks of the turn engine: a
/// square to move the player to, a payment to pass on to another player, and
/// an amount for the free-parking pool.
pub type StepResult = (Option<MoveTo>, Option<Payment>, FreeParking);

/// The player is left alone and nothing is asked of the turn engine.
pub open spec fn no_effect(player: PlayerView) -> (PlayerView, StepResult) {
    (player, (None, None, 0))
}

/// The player is to be moved to the square at `position`.
pub open spec fn relocation(player: PlayerView, position: nat) -> (PlayerView, StepResult) {
    (player, (Some(position as usize), None, 0))
}

/// The player is paid `amount` by the bank.
pub open spec fn windfall(player: PlayerView, amount: nat) -> (PlayerView, StepResult) {
    (player.deposited(amount), (None, None, 0))
}

/// The player is charged `amount`, and the same amount goes to the
/// free-parking pool, whether or not the player could pay.
pub open spec fn fine(player: PlayerView, amount: nat) -> (PlayerView, StepResult) {
    (player.paid(amount), (None, None, amount as usize))
}

/// The player is sent to jail.
pub open spec fn arrest(player: PlayerView) -> (PlayerView, StepResult) {
    (player.jailed(), (Some(JAIL_POSITION), None, 0))
}

/// The player is handed a card that opens the jail.
pub open spec fn jail_card_award(player: PlayerView) -> (PlayerView, StepResult) {
    (player.with_jail_card(), (None, None, 0))
}

/// What the Chance card with the given number does.
///
/// Card 12 is a blank: drawing it does nothing. A number that no other line
/// names stands for the last card, the bank's dividend.
pub open spec fn chance_effect(player: PlayerView, card: nat) -> (PlayerView, StepResult) {
    if card == 1 {
        // Advance to Go.
        relocation(player, GO_POSITION as nat)
    } else if card == 2 {
        // Go to jail.
        arrest(player)
    } else if card == 3 {
        // Advance to Pall Mall.
        relocation(player, 10)
    } else if card == 4 {
        // Take a trip to Marylebone Station.
        relocation(player, 4)
    } else if card == 5 {
        // Advance to Trafalgar Square.
        relocation(player, 23)
    } else if card == 6 {
        // Advance to Mayfair.
        relocation(player, 38)
    } else if card == 7 {
        // General repairs: 25 a house, 100 a hotel.
        fine(player, player.levy(25, 100))
    } else if card == 8 {
        // Street repairs: 40 a house, 115 a hotel.
        fine(player, player.levy(40, 115))
    } else if card == 9 {
        // School fees.
        fine(player, 150)
    } else if card == 10 {
        // Drunk in charge.
        fine(player, 20)
    } else if card == 11 {
        // Speeding.
        fine(player, 15)
    } else if card == 12 {
        no_effect(player)
    } else if card == 13 {
        // The building loan matures.
        windfall(player, 150)
    } else if card == 14 {
        // A crossword competition is won.
        windfall(player, 100)
    } else if card == 15 {
        jail_card_award(player)
    } else {
        // The bank pays a dividend.
        windfall(player, 50)
    }
}

/// What the Community Chest card with the given number does.
///
/// Card 8 is a blank: drawing it does nothing. A number that no other line
/// names stands for the inheritance, which the deck holds twice.
pub open spec fn community_chest_effect(player: PlayerView, card: nat) -> (PlayerView, StepResult) {
    if card == 1 {
        // Advance to Go.
        relocation(player, GO_POSITION as nat)
    } else if card == 2 {
        // A banking error in the player's favour.
        windfall(player, 200)
    } else if card == 3 {
        // Doctor's fees.
        fine(player, 50)
    } else if card == 4 {
        // Sale of stock.
        windfall(player, 50)
    } else if card == 5 {
        jail_card_award(player)
    } else if card == 6 {
        // The holiday fund matures.
        windfall(player, 100)
    } else if card == 7 {
        // Income tax refund.
        windfall(player, 20)
    } else if card == 8 {
        no_effect(player)
    } else if card == 9 {
        // Life insurance matures.
        windfall(player, 100)
    } else if card == 10 {
        // Hospital fees.
        fine(player, 50)
    } else if card == 11 {
        // Street repairs: 40 a house, 115 a hotel.
        fine(player, player.levy(40, 115))
    } else if card == 12 {
        // Second prize in a beauty contest.
        windfall(player, 20)
    } else {
        // An inheritance.
        windfall(player, 100)
    }
}

/// Charges the player `amount` and sends as much to the free-parking pool.
fn charge_fine(player: &mut Player, amount: usize) -> (outcome: StepResult)
    ensures
        (final(player)@, outcome) == fine(old(player)@, amount as nat),
{
    player.pay(amount);
    (None, None, amount)
}

/// Pays the player `amount` from the bank.
fn pay_windfall(player: &mut Player, amount: usize) -> (outcome: StepResult)
    requires
        old(player)@.balance + amount <= usize::MAX,
    ensures
        (final(player)@, outcome) == windfall(old(player)@, amount as nat),
{
    player.deposit(amount);
    (None, None, 0)
}

/// Carries out the Chance card with the given number on the player who drew it.
pub fn apply_chance_card(player: &mut Player, card: usize) -> (outcome: StepResult)
    requires
        old(player)@.fits_square(),
    ensures
        (final(player)@, outcome) == chance_effect(old(player)@, card as nat),
{
    match card {
        1 => (Some(GO_POSITION), None, 0),
        2 => {
            player.go_to_jail();
            (Some(JAIL_POSITION), None, 0)
        },
        3 => (Some(10), None, 0),
        4 => (Some(4), None, 0),
        5 => (Some(23), None, 0),
        6 => (Some(38), None, 0),
        7 => {
            let (houses, hotels) = player.count_properties();
            charge_fine(player, 25 * houses + 100 * hotels)
        },
        8 => {
            let (houses, hotels) = player.count_properties();
            charge_fine(player, 40 * houses + 115 * hotels)
        },
        9 => charge_fine(player, 150),
        10 => charge_fine(player, 20),
        11 => charge_fine(player, 15),
        12 => (None, None, 0),
        13 => pay_windfall(player, 150),
        14 => pay_windfall(player, 100),
        15 => {
            player.jail_card();
            (None, None, 0)
        },
        _ => pay_windfall(player, 50),
    }
}

/// Carries out the Community Chest card with the given number on the player
/// who drew it.
pub fn apply_community_chest_card(player: &mut Player, card: usize) -> (outcome: StepResult)
    requires
        old(player)@.fits_square(),
    ensures
        (final(player)@, outcome) == community_chest_effect(old(player)@, card as nat),
{
    match card {
        1 => (Some(GO_POSITION), None, 0),
        2 => pay_windfall(player, 200),
        3 => charge_fine(player, 50),
        4 => pay_windfall(player, 50),
        5 => {
            player.jail_card();
            (None, None, 0)
        },
        6 => pay_windfall(player, 100),
        7 => pay_windfall(player, 20),
        8 => (None, None, 0),
        9 => pay_windfall(player, 100),
        10 => charge_fine(player, 50),
        11 => {
            let (houses, hotels) = player.count_properties();
            charge_fine(player, 40 * houses + 115 * hotels)
        },
        12 => pay_windfall(player, 20),
        _ => pay_windfall(player, 100),
    }
}

} // verus!
