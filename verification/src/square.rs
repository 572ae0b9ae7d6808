//! A square of the board: who owns it, what stands on it, and what happens to
//! a player who lands on it.

use crate::cards::{
    apply_chance_card, apply_community_chest_card, chance_effect, community_chest_effect,
    StepResult, CHANCE_CARDS, COMMUNITY_CHEST_CARDS, JAIL_POSITION,
};
use crate::config::Property;
use crate::dice::{face_shown, DiceSource};
use crate::locations::BoardLocationName;
use crate::payment::Payment;
use crate::player::{Player, PlayerId, PlayerView};
use std::collections::HashMap;
use vstd::prelude::*;

verus! {

broadcast use vstd::std_specs::hash::group_hash_axioms;

/// A position on the board, counted from Go.
pub type BoardPosition = usize;

/// The position that a player is to be moved to.
pub type MoveTo = usize;

/// An amount that goes to the free-parking pool.
pub type FreeParking = usize;

/// What a player is paid for landing on Go.
pub const GO_SALARY: usize = 200;

/// The flat income tax.
pub const INCOME_TAX: usize = 200;

/// The luxury tax.
pub const LUXURY_TAX: usize = 75;

/// The most houses that a square can hold.
pub const MAX_HOUSES: usize = 4;

/// The part of a square that changes during play.
pub struct PropertyState {
    pub ownable: bool,
    pub owner: Option<PlayerId>,
    pub house_count: usize,
    pub hotel_count: usize,
    /// Kept for later use: no rule reads it yet.
    pub mortgaged: bool,
}

impl PropertyState {
    /// The state of a square that nobody has bought or built on yet.
    pub fn new(square: BoardLocationName) -> (state: Self)
        ensures
            state.ownable == square.spec_ownable(),
            state.owner is None,
            state.house_count == 0,
            state.hotel_count == 0,
            !state.mortgaged,
    {
        match square {
            BoardLocationName::Go
            | BoardLocationName::IncomeTax
            | BoardLocationName::LuxuryTax
            | BoardLocationName::Chance1
            | BoardLocationName::Chance2
            | BoardLocationName::Chance3
            | BoardLocationName::CommunityChest1
            | BoardLocationName::CommunityChest2
            | BoardLocationName::Jail
            | BoardLocationName::FreeParking
            | BoardLocationName::GoToJail => Self {
                ownable: false,
                owner: None,
                house_count: 0,
                hotel_count: 0,
                mortgaged: false,
            },
            _ => Self {
                ownable: true,
                owner: None,
                house_count: 0,
                hotel_count: 0,
                mortgaged: false,
            },
        }
    }
}

/// A square as a mathematical value.
pub struct SquareView {
    pub square: BoardLocationName,
    /// What it costs to buy the square.
    pub cost: nat,
    /// The rent of the bare square.
    pub charge: nat,
    pub house_cost: nat,
    pub hotel_cost: nat,
    pub owner: Option<nat>,
    pub house_count: nat,
    pub hotel_count: nat,
    pub mortgaged: bool,
}

impl SquareView {
    /// The square at `location` with the economics of `details`, before anyone
    /// has bought it.
    pub open spec fn unowned(location: BoardLocationName, details: Property) -> SquareView {
        SquareView {
            square: location,
            cost: details.tile_cost as nat,
            charge: details.charge as nat,
            house_cost: details.house_cost as nat,
            hotel_cost: details.hotel_cost as nat,
            owner: None,
            house_count: 0,
            hotel_count: 0,
            mortgaged: false,
        }
    }

    /// What holds of every square: at most four houses, at most one hotel, a
    /// hotel only on top of four houses, and a rent that a machine integer can
    /// hold however far the square is built up.
    pub open spec fn well_formed(self) -> bool {
        &&& self.house_count <= MAX_HOUSES
        &&& self.hotel_count <= 1
        &&& self.hotel_count == 1 ==> self.house_count == MAX_HOUSES
        &&& 6 * self.charge <= usize::MAX
    }

    /// Whether a player can own the square.
    pub open spec fn ownable(self) -> bool {
        self.square.spec_ownable()
    }

    /// Whether the player with identity `id` owns the square.
    pub open spec fn owned_by(self, id: nat) -> bool {
        self.owner == Some(id)
    }

    /// The rent: the bare charge, and on top of it the charge once more for
    /// every house, or five times more for the hotel.
    pub open spec fn rent(self) -> nat {
        if self.hotel_count + self.house_count == 0 {
            self.charge
        } else if self.hotel_count < 1 {
            self.house_count * self.charge + self.charge
        } else {
            self.hotel_count * 5 * self.charge + self.charge
        }
    }

    /// What the next improvement costs: a house while fewer than four stand,
    /// then the hotel, and nothing once the hotel stands.
    pub open spec fn upgrade_cost(self) -> nat {
        if self.house_count < MAX_HOUSES {
            self.house_cost
        } else if self.hotel_count == 0 {
            self.hotel_cost
        } else {
            0
        }
    }

    /// The square after its next improvement: one more house while fewer than
    /// four stand, then the hotel. A square with a hotel stays as it is.
    pub open spec fn improved(self) -> SquareView {
        if self.house_count < MAX_HOUSES {
            SquareView { house_count: self.house_count + 1, ..self }
        } else if self.hotel_count == 0 {
            SquareView { hotel_count: 1, ..self }
        } else {
            self
        }
    }

    /// The player after being credited with the square's next improvement.
    pub open spec fn credited(self, player: PlayerView) -> PlayerView {
        if self.house_count < MAX_HOUSES {
            player.with_house()
        } else if self.hotel_count == 0 {
            player.with_hotel()
        } else {
            player
        }
    }

    /// The square after the player with identity `id` has taken it over.
    pub open spec fn bought_by(self, id: nat) -> SquareView {
        SquareView { owner: Some(id), ..self }
    }

    /// The square and the player after the player has been charged for the
    /// next improvement: it is built only if the player is still in the game
    /// once charged.
    pub open spec fn upgrade_bought(self, player: PlayerView) -> (SquareView, PlayerView) {
        let charged = player.paid(self.upgrade_cost());
        if charged.active {
            (self.improved(), self.credited(charged))
        } else {
            (self, charged)
        }
    }

    /// What happens when `player` lands on a square that can be owned.
    ///
    /// A square that nobody owns is bought, if the player can afford it. On a
    /// square of their own the player buys the next improvement, if there is
    /// one and they can afford it. On another player's square the rent is
    /// charged and owed to the owner; where the player cannot afford it they go
    /// bankrupt and the payment is marked terminal. In every other case nothing
    /// happens.
    pub open spec fn visited(self, player: PlayerView) -> (SquareView, PlayerView, StepResult) {
        match self.owner {
            None => if player.affords(self.cost) {
                (self.bought_by(player.id), player.paid(self.cost), (None, None, 0))
            } else {
                (self, player, (None, None, 0))
            },
            Some(owner) => if owner == player.id {
                if self.upgrade_cost() > 0 && player.affords(self.upgrade_cost()) {
                    (
                        self.upgrade_bought(player).0,
                        self.upgrade_bought(player).1,
                        (None, None, 0),
                    )
                } else {
                    (self, player, (None, None, 0))
                }
            } else {
                (
                    self,
                    player.paid(self.rent()),
                    (
                        None,
                        Some(
                            Payment {
                                to: owner as usize,
                                amount: self.rent() as usize,
                                terminal: !player.affords(self.rent()),
                            },
                        ),
                        0,
                    ),
                )
            },
        }
    }

    /// Whether landing on the square draws a card.
    pub open spec fn draws_card(self) -> bool {
        self.square.is_chance() || self.square.is_community_chest()
    }

    /// What happens when `player` lands on the square. On a Chance or a
    /// Community Chest square `card` is the number of the card that is drawn;
    /// on every other square it plays no part.
    pub open spec fn landing(self, player: PlayerView, card: nat) -> (
        SquareView,
        PlayerView,
        StepResult,
    ) {
        if self.square == BoardLocationName::Go {
            (self, player.deposited(GO_SALARY as nat), (None, None, 0))
        } else if self.square == BoardLocationName::IncomeTax {
            (self, player.paid(INCOME_TAX as nat), (None, None, 0))
        } else if self.square == BoardLocationName::LuxuryTax {
            (self, player.paid(LUXURY_TAX as nat), (None, None, 0))
        } else if self.square.is_chance() {
            (self, chance_effect(player, card).0, chance_effect(player, card).1)
        } else if self.square.is_community_chest() {
            (self, community_chest_effect(player, card).0, community_chest_effect(player, card).1)
        } else if self.square == BoardLocationName::GoToJail {
            (self, player.jailed(), (Some(JAIL_POSITION), None, 0))
        } else if self.ownable() {
            self.visited(player)
        } else {
            // Just visiting the jail, or parked for free.
            (self, player, (None, None, 0))
        }
    }
}

/// A square of the board.
pub struct BoardSquare {
    square: BoardLocationName,
    cost: usize,
    charge: usize,
    house_cost: usize,
    hotel_cost: usize,
    state: PropertyState,
}

impl View for BoardSquare {
    type V = SquareView;

    closed spec fn view(&self) -> SquareView {
        SquareView {
            square: self.square,
            cost: self.cost as nat,
            charge: self.charge as nat,
            house_cost: self.house_cost as nat,
            hotel_cost: self.hotel_cost as nat,
            owner: match self.state.owner {
                Some(id) => Some(id as nat),
                None => None,
            },
            house_count: self.state.house_count as nat,
            hotel_count: self.state.hotel_count as nat,
            mortgaged: self.state.mortgaged,
        }
    }
}

impl BoardSquare {
    #[verifier::type_invariant]
    spec fn inv(self) -> bool {
        &&& self.state.ownable == self.square.spec_ownable()
        &&& self@.well_formed()
    }

    /// Sets up the square at `location` from its entry in the board's
    /// configuration, which is keyed by position.
    ///
    /// The configuration must hold an entry for the square, with a charge that
    /// leaves room for the highest rent.
    pub fn new(location: BoardLocationName, location_config: &HashMap<usize, Property>) -> (square:
        Self)
        requires
            location_config@.contains_key(location.spec_position() as usize),
            6 * location_config@[location.spec_position() as usize].charge <= usize::MAX,
        ensures
            square@ == SquareView::unowned(
                location,
                location_config@[location.spec_position() as usize],
            ),
            square@.well_formed(),
    {
        let key = location.position();
        let found = location_config.get(&key);
        let details = found.unwrap();
        Self {
            state: PropertyState::new(location),
            cost: details.tile_cost,
            square: location,
            charge: details.charge,
            house_cost: details.house_cost,
            hotel_cost: details.hotel_cost,
        }
    }

    pub fn is_ownable(&self) -> (ownable: bool)
        ensures
            ownable == self@.ownable(),
    {
        proof {
            use_type_invariant(self);
        }
        self.state.ownable
    }

    pub fn is_owned(&self) -> (owned: bool)
        ensures
            owned == self@.owner is Some,
    {
        self.state.owner.is_some()
    }

    pub fn owner_id(&self) -> (owner: Option<usize>)
        ensures
            owner is Some == self@.owner is Some,
            owner matches Some(id) ==> self@.owner == Some(id as nat),
    {
        self.state.owner
    }

    pub fn is_owned_by_player(&self, player: &Player) -> (owned: bool)
        ensures
            owned == self@.owned_by(player@.id),
    {
        match self.state.owner {
            Some(id) => player.id == id,
            None => false,
        }
    }

    pub fn get_purchase_cost(&self) -> (cost: usize)
        ensures
            cost == self@.cost,
    {
        self.cost
    }

    /// The rent that a visitor owes.
    pub fn rent_cost(&self) -> (rent: usize)
        ensures
            rent == self@.rent(),
            self@.well_formed(),
            self@.hotel_count == 0 ==> rent == (self@.house_count + 1) * self@.charge,
            self@.hotel_count == 1 ==> rent == 6 * self@.charge,
    {
        proof {
            use_type_invariant(self);
            lemma_rent_schedule(self@);
        }
        let houses = self.state.house_count;
        let hotels = self.state.hotel_count;
        let charge = self.charge;
        if hotels + houses == 0 {
            charge
        } else if hotels < 1 {
            assert(houses * charge + charge <= 6 * charge) by (nonlinear_arith)
                requires
                    houses <= 4,
            ;
            houses * charge + charge
        } else {
            assert(hotels * 5 * charge == 5 * charge) by (nonlinear_arith)
                requires
                    hotels == 1,
            ;
            hotels * 5 * charge + charge
        }
    }

    /// Hands the square to the player and charges them its cost. Whether the
    /// player can afford it is not asked: one who cannot goes bankrupt, and
    /// owns the square all the same.
    pub fn purchase_property(&mut self, player: &mut Player)
        ensures
            final(self)@ == old(self)@.bought_by(old(player)@.id),
            final(player)@ == old(player)@.paid(old(self)@.cost),
            final(self)@.well_formed(),
    {
        proof {
            use_type_invariant(&*self);
        }
        self.state.owner = Some(player.id);
        player.pay(self.cost);
    }

    /// Whether the counts on the square are within what a square can hold.
    pub fn upgradable(&self) -> (within: bool)
        ensures
            within == (self@.hotel_count < 2 && self@.house_count <= MAX_HOUSES),
            within,
    {
        proof {
            use_type_invariant(self);
        }
        self.state.hotel_count < 2 && self.state.house_count <= MAX_HOUSES
    }

    /// What the next improvement costs; nothing once the hotel stands.
    pub fn upgrade_cost(&self) -> (cost: usize)
        ensures
            cost == self@.upgrade_cost(),
            self@.well_formed(),
            self@.house_count < MAX_HOUSES ==> cost == self@.house_cost,
            self@.house_count == MAX_HOUSES && self@.hotel_count == 0 ==> cost
                == self@.hotel_cost,
            self@.hotel_count == 1 ==> cost == 0,
    {
        proof {
            use_type_invariant(self);
        }
        if self.state.house_count < MAX_HOUSES {
            self.house_cost
        } else if self.state.hotel_count == 0 {
            self.hotel_cost
        } else {
            0
        }
    }

    /// Builds the next improvement and credits the player with it.
    fn upgrade(&mut self, player: &mut Player)
        requires
            old(player)@.house_count < usize::MAX,
            old(player)@.hotel_count < usize::MAX,
        ensures
            final(self)@ == old(self)@.improved(),
            final(player)@ == old(self)@.credited(old(player)@),
    {
        proof {
            use_type_invariant(&*self);
        }
        if self.state.house_count < MAX_HOUSES {
            self.state.house_count = self.state.house_count + 1;
            player.add_house();
        } else if self.state.hotel_count == 0 {
            self.state.hotel_count = self.state.hotel_count + 1;
            player.add_hotel();
        }
    }

    /// Charges the player for the next improvement, and builds it if they are
    /// still in the game once charged.
    pub fn purchase_upgrade(&mut self, player: &mut Player)
        requires
            old(player)@.house_count < usize::MAX,
            old(player)@.hotel_count < usize::MAX,
        ensures
            (final(self)@, final(player)@) == old(self)@.upgrade_bought(old(player)@),
            final(self)@.well_formed(),
    {
        proof {
            use_type_invariant(&*self);
        }
        let cost = self.upgrade_cost();
        player.pay(cost);
        if player.is_active() {
            self.upgrade(player);
        }
        proof {
            use_type_invariant(&*self);
        }
    }

    /// Draws a Community Chest card with one throw of the source and carries
    /// it out. Whichever card it is, the player and the outcome are what that
    /// card says; where the next number of the source is known, it is the card
    /// of that number.
    fn community_chest_space<D: DiceSource>(&self, player: &mut Player, dice: &mut D) -> (outcome:
        StepResult)
        requires
            old(player)@.fits_square(),
        ensures
            exists|card: nat|
                1 <= card <= COMMUNITY_CHEST_CARDS && (final(player)@, outcome)
                    == #[trigger] community_chest_effect(old(player)@, card),
            old(dice).scripted().len() > 0 ==> (final(player)@, outcome) == community_chest_effect(
                old(player)@,
                face_shown(old(dice).scripted()[0] as nat, COMMUNITY_CHEST_CARDS as nat),
            ) && final(dice).scripted() == old(dice).scripted().drop_first(),
            old(dice).scripted().len() == 0 ==> final(dice).scripted().len() == 0,
    {
        let card = dice.draw(COMMUNITY_CHEST_CARDS);
        let outcome = apply_community_chest_card(player, card);
        assert((player@, outcome) == community_chest_effect(old(player)@, card as nat));
        outcome
    }

    /// Draws a Chance card with one throw of the source and carries it out.
    /// Whichever card it is, the player and the outcome are what that card
    /// says; where the next number of the source is known, it is the card of
    /// that number.
    fn chance_space<D: DiceSource>(&self, player: &mut Player, dice: &mut D) -> (outcome:
        StepResult)
        requires
            old(player)@.fits_square(),
        ensures
            exists|card: nat|
                1 <= card <= CHANCE_CARDS && (final(player)@, outcome) == #[trigger] chance_effect(
                    old(player)@,
                    card,
                ),
            old(dice).scripted().len() > 0 ==> (final(player)@, outcome) == chance_effect(
                old(player)@,
                face_shown(old(dice).scripted()[0] as nat, CHANCE_CARDS as nat),
            ) && final(dice).scripted() == old(dice).scripted().drop_first(),
            old(dice).scripted().len() == 0 ==> final(dice).scripted().len() == 0,
    {
        let card = dice.draw(CHANCE_CARDS);
        let outcome = apply_chance_card(player, card);
        assert((player@, outcome) == chance_effect(old(player)@, card as nat));
        outcome
    }

    /// Resolves a landing on a square that can be owned.
    fn visit(&mut self, player: &mut Player) -> (outcome: StepResult)
        requires
            old(self)@.ownable(),
            old(player)@.fits_square(),
        ensures
            (final(self)@, final(player)@, outcome) == old(self)@.visited(old(player)@),
            final(self)@.well_formed(),
    {
        proof {
            use_type_invariant(&*self);
        }
        match self.owner_id() {
            None => {
                if player.can_afford(self.get_purchase_cost()) {
                    self.purchase_property(player);
                }
                (None, None, 0)
            },
            Some(owner) => {
                if self.is_owned_by_player(player) {
                    let cost = self.upgrade_cost();
                    if cost > 0 && player.can_afford(cost) {
                        self.purchase_upgrade(player);
                    }
                    (None, None, 0)
                } else {
                    let rent = self.rent_cost();
                    let terminal = !player.can_afford(rent);
                    player.pay(rent);
                    (None, Some(Payment { to: owner, amount: rent, terminal }), 0)
                }
            },
        }
    }

    /// Resolves the landing of `player` on this square.
    ///
    /// On a Chance or a Community Chest square a card is drawn with one throw
    /// of `dice`. The result is that of some card of the deck, and where the
    /// next number of the source is known, that of the card of that number. On
    /// every other square the result is fixed by the square and the player
    /// alone, and the source is left as it is.
    pub fn take_step<D: DiceSource>(&mut self, player: &mut Player, dice: &mut D) -> (outcome:
        StepResult)
        requires
            old(player)@.fits_square(),
        ensures
            old(self)@.square.is_chance() && old(dice).scripted().len() > 0 ==> (
                final(self)@,
                final(player)@,
                outcome,
            ) == old(self)@.landing(
                old(player)@,
                face_shown(old(dice).scripted()[0] as nat, CHANCE_CARDS as nat),
            ),
            old(self)@.square.is_community_chest() && old(dice).scripted().len() > 0 ==> (
                final(self)@,
                final(player)@,
                outcome,
            ) == old(self)@.landing(
                old(player)@,
                face_shown(old(dice).scripted()[0] as nat, COMMUNITY_CHEST_CARDS as nat),
            ),
            old(self)@.draws_card() && old(dice).scripted().len() > 0 ==> final(dice).scripted()
                == old(dice).scripted().drop_first(),
            old(self)@.draws_card() && old(dice).scripted().len() == 0 ==> final(dice).scripted().len()
                == 0,
            !old(self)@.draws_card() ==> final(dice).scripted() == old(dice).scripted(),
            old(self)@.square.is_chance() ==> exists|card: nat|
                1 <= card <= CHANCE_CARDS && (final(self)@, final(player)@, outcome)
                    == #[trigger] old(self)@.landing(old(player)@, card),
            old(self)@.square.is_community_chest() ==> exists|card: nat|
                1 <= card <= COMMUNITY_CHEST_CARDS && (final(self)@, final(player)@, outcome)
                    == #[trigger] old(self)@.landing(old(player)@, card),
            !old(self)@.square.is_chance() && !old(self)@.square.is_community_chest() ==> (
                final(self)@,
                final(player)@,
                outcome,
            ) == old(self)@.landing(old(player)@, 0),
            final(self)@.well_formed(),
    {
        proof {
            use_type_invariant(&*self);
        }
        match self.square {
            BoardLocationName::Go => {
                player.deposit(GO_SALARY);
                (None, None, 0)
            },
            BoardLocationName::IncomeTax => {
                player.pay(INCOME_TAX);
                (None, None, 0)
            },
            BoardLocationName::LuxuryTax => {
                player.pay(LUXURY_TAX);
                (None, None, 0)
            },
            BoardLocationName::Chance1 | BoardLocationName::Chance2 | BoardLocationName::Chance3 => {
                let outcome = self.chance_space(player, dice);
                proof {
                    let card = choose|card: nat|
                        1 <= card <= CHANCE_CARDS && (player@, outcome) == #[trigger] chance_effect(
                            old(player)@,
                            card,
                        );
                    assert((self@, player@, outcome) == old(self)@.landing(old(player)@, card));
                }
                outcome
            },
            BoardLocationName::CommunityChest1 | BoardLocationName::CommunityChest2 => {
                let outcome = self.community_chest_space(player, dice);
                proof {
                    let card = choose|card: nat|
                        1 <= card <= COMMUNITY_CHEST_CARDS && (player@, outcome)
                            == #[trigger] community_chest_effect(old(player)@, card);
                    assert((self@, player@, outcome) == old(self)@.landing(old(player)@, card));
                }
                outcome
            },
            BoardLocationName::GoToJail => {
                player.go_to_jail();
                (Some(JAIL_POSITION), None, 0)
            },
            BoardLocationName::Jail | BoardLocationName::FreeParking => (None, None, 0),
            _ => self.visit(player),
        }
    }
}

/// The rent rises by the bare charge with every house, and a hotel is worth
/// five houses: the charge times one more than the number of houses, or six
/// times the charge under a hotel.
pub proof fn lemma_rent_schedule(square: SquareView)
    requires
        square.well_formed(),
    ensures
        square.hotel_count == 0 ==> square.rent() == (square.house_count + 1) * square.charge,
        square.hotel_count == 1 ==> square.rent() == 6 * square.charge,
        square.rent() <= 6 * square.charge,
{
    let charge = square.charge;
    let houses = square.house_count;
    assert(houses * charge + charge == (houses + 1) * charge) by (nonlinear_arith);
    assert(houses == 0 ==> houses * charge == 0) by (nonlinear_arith);
    assert((houses + 1) * charge <= 6 * charge) by (nonlinear_arith)
        requires
            houses <= 4,
    ;
    if square.hotel_count == 1 {
        assert(square.hotel_count * 5 * charge + charge == 6 * charge) by (nonlinear_arith)
            requires
                square.hotel_count == 1,
        ;
    }
}

/// The next improvement is a house while fewer than four stand, the hotel once
/// four stand, and nothing once the hotel stands.
pub proof fn lemma_upgrade_schedule(square: SquareView)
    requires
        square.well_formed(),
    ensures
        square.house_count < MAX_HOUSES ==> square.upgrade_cost() == square.house_cost
            && square.improved().house_count == square.house_count + 1
            && square.improved().hotel_count == 0,
        square.house_count == MAX_HOUSES && square.hotel_count == 0 ==> square.upgrade_cost()
            == square.hotel_cost && square.improved().hotel_count == 1
            && square.improved().house_count == MAX_HOUSES,
        square.hotel_count == 1 ==> square.upgrade_cost() == 0 && square.improved() == square,
        square.improved().well_formed(),
{
}

} // verus!
