//! A player: where they stand, what they hold, and whether they sit in jail.

use crate::token::Token;
use vstd::prelude::*;

verus! {

/// The identity of a player: a number from 1 upwards, given out once.
pub type PlayerId = usize;

/// What a jailed player pays to leave after a third failed throw.
pub const JAIL_BAIL: usize = 50;

/// What every player starts the game with.
pub const STARTING_BALANCE: usize = 1500;

/// A player as a mathematical value. Every count is a natural number, so the
/// rules of the game can be written without regard to machine integers.
pub struct PlayerView {
    pub id: nat,
    pub token: Token,
    /// Squares moved since the start; laps are not taken off.
    pub position: nat,
    /// `None` while free; in jail, the number of failed attempts to leave.
    pub jail: Option<nat>,
    pub balance: nat,
    /// False once the player has gone bankrupt.
    pub active: bool,
    pub go_count: nat,
    /// How often the player has been sent to jail.
    pub jail_count: nat,
    pub house_count: nat,
    pub hotel_count: nat,
    /// Whether the player holds a card that opens the jail.
    pub jail_card: bool,
}

impl PlayerView {
    /// The player with identity `id` as the game begins.
    pub open spec fn fresh(id: nat) -> PlayerView {
        PlayerView {
            id,
            token: Token::of(id),
            position: 0,
            jail: None,
            balance: STARTING_BALANCE as nat,
            active: true,
            go_count: 0,
            jail_count: 0,
            house_count: 0,
            hotel_count: 0,
            jail_card: false,
        }
    }

    /// The player after moving `steps` squares on.
    pub open spec fn moved(self, steps: nat) -> PlayerView {
        PlayerView { position: self.position + steps, ..self }
    }

    /// The player after receiving `amount`.
    pub open spec fn deposited(self, amount: nat) -> PlayerView {
        PlayerView { balance: self.balance + amount, ..self }
    }

    /// Whether the player would have money left after paying `charge`. A charge
    /// that takes the whole balance is not affordable.
    pub open spec fn affords(self, charge: nat) -> bool {
        self.balance - charge > 0
    }

    /// The player after being charged: the charge is taken where it is
    /// affordable, otherwise the balance stays and the player is bankrupt.
    pub open spec fn paid(self, charge: nat) -> PlayerView {
        if self.affords(charge) {
            PlayerView { balance: (self.balance - charge) as nat, ..self }
        } else {
            PlayerView { active: false, ..self }
        }
    }

    /// The player after being sent to jail. A free player enters with no failed
    /// attempts; for a player already inside, one more attempt is counted.
    pub open spec fn jailed(self) -> PlayerView {
        match self.jail {
            Some(attempts) => PlayerView { jail: Some(attempts + 1), ..self },
            None => PlayerView { jail: Some(0), jail_count: self.jail_count + 1, ..self },
        }
    }

    /// The player after leaving jail: free, and without the jail card, whether
    /// or not the card was what opened the door and whether or not the player
    /// was inside.
    pub open spec fn released(self) -> PlayerView {
        PlayerView { jail: None, jail_card: false, ..self }
    }

    /// The player after one turn's attempt to leave jail.
    ///
    /// The attempt is counted. A double or a jail card opens the jail at once.
    /// Failing that, the third attempt ends the stay: the bail is charged and
    /// the player leaves. Otherwise the player stays. Nothing changes for a
    /// player who is free.
    pub open spec fn jail_updated(self, is_double: bool, bail: nat) -> PlayerView {
        match self.jail {
            None => self,
            Some(attempts) => {
                let counted = self.jailed();
                if is_double || self.jail_card {
                    counted.released()
                } else if attempts + 1 >= 3 {
                    counted.paid(bail).released()
                } else {
                    counted
                }
            },
        }
    }

    /// The player with one more house to their name.
    pub open spec fn with_house(self) -> PlayerView {
        PlayerView { house_count: self.house_count + 1, ..self }
    }

    /// The player with one more hotel to their name.
    pub open spec fn with_hotel(self) -> PlayerView {
        PlayerView { hotel_count: self.hotel_count + 1, ..self }
    }

    /// The player holding a jail card.
    pub open spec fn with_jail_card(self) -> PlayerView {
        PlayerView { jail_card: true, ..self }
    }

    /// What the player owes when every house is charged `per_house` and every
    /// hotel `per_hotel`.
    pub open spec fn levy(self, per_house: nat, per_hotel: nat) -> nat {
        per_house * self.house_count + per_hotel * self.hotel_count
    }

    /// Whether one more stay in jail, or one more failed attempt, can still be
    /// counted in a machine integer.
    pub open spec fn jail_fits(self) -> bool {
        match self.jail {
            Some(attempts) => attempts < usize::MAX,
            None => self.jail_count < usize::MAX,
        }
    }

    /// Whether machine integers can hold whatever one turn may add to the
    /// player: three moves of twelve squares, one more failed attempt to leave
    /// jail, and one more stay.
    pub open spec fn fits_turn(self) -> bool {
        &&& self.position + 36 <= usize::MAX
        &&& self.jail_count < usize::MAX
        &&& self.jail matches Some(attempts) ==> attempts < usize::MAX
    }

    /// Whether machine integers can hold whatever landing on a square may add
    /// to the player: the largest sum paid out, the dearest levy on their
    /// buildings, one more building and one more stay in jail.
    pub open spec fn fits_square(self) -> bool {
        &&& self.balance + 200 <= usize::MAX
        &&& self.levy(40, 115) <= usize::MAX
        &&& self.jail_fits()
    }
}

/// The part of a player that changes during play.
#[derive(Debug)]
pub struct PlayerState {
    pub current_position: usize,
    pub jail: Option<usize>,
    pub balance: usize,
    pub active: bool,
    pub go_count: usize,
    pub jail_count: usize,
    pub house_count: usize,
    pub hotel_count: usize,
    pub jail_card: bool,
}

/// A player of the game.
#[derive(Debug)]
pub struct Player {
    pub id: PlayerId,
    pub token: Token,
    pub state: PlayerState,
}

impl View for Player {
    type V = PlayerView;

    open spec fn view(&self) -> PlayerView {
        PlayerView {
            id: self.id as nat,
            token: self.token,
            position: self.state.current_position as nat,
            jail: match self.state.jail {
                Some(attempts) => Some(attempts as nat),
                None => None,
            },
            balance: self.state.balance as nat,
            active: self.state.active,
            go_count: self.state.go_count as nat,
            jail_count: self.state.jail_count as nat,
            house_count: self.state.house_count as nat,
            hotel_count: self.state.hotel_count as nat,
            jail_card: self.state.jail_card,
        }
    }
}

impl Player {
    /// A new player: on Go, free, solvent, with the starting balance and the
    /// token of their identity.
    #[must_use]
    pub fn new(id: usize) -> (player: Self)
        ensures
            player@ == PlayerView::fresh(id as nat),
    {
        Self {
            id,
            token: Token::value_to_enum(id),
            state: PlayerState {
                current_position: 0,
                jail: None,
                balance: STARTING_BALANCE,
                active: true,
                go_count: 0,
                jail_count: 0,
                house_count: 0,
                hotel_count: 0,
                jail_card: false,
            },
        }
    }

    pub fn current_position(&self) -> (position: usize)
        ensures
            position == self@.position,
    {
        self.state.current_position
    }

    /// Moves the player `steps` squares on and returns the new position. The
    /// position is not taken round the board: that is left to the caller.
    pub fn move_position(&mut self, steps: usize) -> (position: usize)
        requires
            old(self)@.position + steps <= usize::MAX,
        ensures
            final(self)@ == old(self)@.moved(steps as nat),
            position == old(self)@.position + steps,
    {
        self.state.current_position = self.state.current_position + steps;
        self.state.current_position
    }

    /// Hands the player a card that opens the jail.
    pub fn jail_card(&mut self)
        ensures
            final(self)@ == old(self)@.with_jail_card(),
    {
        self.state.jail_card = true;
    }

    pub fn has_jail_card(&self) -> (held: bool)
        ensures
            held == self@.jail_card,
    {
        self.state.jail_card
    }

    /// Credits the player with a house.
    pub fn add_house(&mut self)
        requires
            old(self)@.house_count < usize::MAX,
        ensures
            final(self)@ == old(self)@.with_house(),
    {
        self.state.house_count = self.state.house_count + 1;
    }

    /// Credits the player with a hotel.
    pub fn add_hotel(&mut self)
        requires
            old(self)@.hotel_count < usize::MAX,
        ensures
            final(self)@ == old(self)@.with_hotel(),
    {
        self.state.hotel_count = self.state.hotel_count + 1;
    }

    /// The houses and the hotels that the player has been credited with.
    pub fn count_properties(&self) -> (counts: (usize, usize))
        ensures
            counts.0 == self@.house_count,
            counts.1 == self@.hotel_count,
    {
        (self.state.house_count, self.state.hotel_count)
    }

    pub fn is_active(&self) -> (active: bool)
        ensures
            active == self@.active,
    {
        self.state.active
    }

    pub fn current_balance(&self) -> (balance: usize)
        ensures
            balance == self@.balance,
    {
        self.state.balance
    }

    /// Whether the player would have money left after paying `charge`.
    pub fn can_afford(&self, charge: usize) -> (affordable: bool)
        ensures
            affordable == self@.affords(charge as nat),
            affordable <==> self@.balance - charge > 0,
    {
        self.state.balance > charge
    }

    /// Pays `value` to the player, whether or not they are still in the game.
    pub fn deposit(&mut self, value: usize)
        requires
            old(self)@.balance + value <= usize::MAX,
        ensures
            final(self)@ == old(self)@.deposited(value as nat),
    {
        self.state.balance = self.state.balance + value;
    }

    /// Charges the player. Where money would be left the charge is taken;
    /// otherwise the balance is left alone and the player goes bankrupt.
    pub fn pay(&mut self, charge: usize)
        ensures
            final(self)@ == old(self)@.paid(charge as nat),
            old(self)@.balance - charge > 0 ==> final(self)@.balance == old(self)@.balance - charge
                && final(self)@.active == old(self)@.active,
            old(self)@.balance - charge <= 0 ==> final(self)@.balance == old(self)@.balance
                && !final(self)@.active,
    {
        if self.state.balance > charge {
            self.state.balance = self.state.balance - charge;
        } else {
            self.state.active = false;
        }
    }

    /// Sends the player to jail, or counts one more failed attempt for a player
    /// who is there already. Returns the number of failed attempts that the
    /// player now has.
    pub fn go_to_jail(&mut self) -> (attempts: usize)
        requires
            old(self)@.jail_fits(),
        ensures
            final(self)@ == old(self)@.jailed(),
            final(self)@.jail == Some(attempts as nat),
    {
        match self.state.jail {
            Some(counted) => {
                let attempts = counted + 1;
                self.state.jail = Some(attempts);
                attempts
            },
            None => {
                self.state.jail_count = self.state.jail_count + 1;
                self.state.jail = Some(0);
                0
            },
        }
    }

    pub fn in_jail(&self) -> (jailed: bool)
        ensures
            jailed == self@.jail is Some,
    {
        self.state.jail.is_some()
    }

    /// Lets the player out of jail and takes the jail card, whether or not the
    /// card was what opened the door. A player who is free stays free and loses
    /// the card all the same.
    pub fn get_out_of_jail(&mut self)
        ensures
            final(self)@ == old(self)@.released(),
    {
        self.state.jail = None;
        self.state.jail_card = false;
    }

    /// Plays a jailed player's attempt to leave, given whether the throw was a
    /// double. Does nothing to a player who is free.
    pub fn update_jail(&mut self, is_double: bool, bail: usize)
        requires
            old(self)@.jail matches Some(counted) ==> counted < usize::MAX,
        ensures
            final(self)@ == old(self)@.jail_updated(is_double, bail as nat),
            old(self)@.jail is None ==> final(self)@ == old(self)@,
            old(self)@.jail is Some && is_double ==> final(self)@.jail is None
                && final(self)@.balance == old(self)@.balance,
    {
        if !self.in_jail() {
            return ;
        }
        let count = self.go_to_jail();
        if is_double || self.has_jail_card() {
            self.get_out_of_jail();
        } else if count >= 3 {
            self.pay(bail);
            self.get_out_of_jail();
        }
    }

    /// The players of a game with `n_players` seats, with identities from 1 up.
    #[must_use]
    pub fn create_players(n_players: usize) -> (players: Vec<Self>)
        ensures
            players.len() == n_players,
            forall|i: int|
                0 <= i < n_players ==> (#[trigger] players[i])@ == PlayerView::fresh((i + 1) as nat),
    {
        let mut players: Vec<Self> = Vec::with_capacity(n_players);
        let mut seated: usize = 0;
        while seated < n_players
            invariant
                seated <= n_players,
                players.len() == seated,
                forall|i: int|
                    0 <= i < seated ==> (#[trigger] players[i])@ == PlayerView::fresh(
                        (i + 1) as nat,
                    ),
            decreases n_players - seated,
        {
            seated = seated + 1;
            players.push(Self::new(seated));
        }
        players
    }
}

/// Paying one's whole balance is not survivable: the player goes bankrupt and
/// keeps the money.
pub proof fn lemma_paying_whole_balance_bankrupts(player: PlayerView)
    ensures
        !player.affords(player.balance),
        player.paid(player.balance) == (PlayerView { active: false, ..player }),
        player.paid(player.balance).balance == player.balance,
        !player.paid(player.balance).active,
{
}

/// A double opens the jail at once, however many attempts have failed before,
/// and costs nothing.
pub proof fn lemma_double_releases(player: PlayerView, bail: nat)
    requires
        player.jail is Some,
    ensures
        player.jail_updated(true, bail).jail is None,
        player.jail_updated(true, bail).balance == player.balance,
        player.jail_updated(true, bail).active == player.active,
{
}

/// A player who enters jail without a card and throws no double stays for two
/// turns and leaves on the third, charged the bail.
pub proof fn lemma_third_failure_pays_bail(player: PlayerView, bail: nat)
    requires
        player.jail == Some(0nat),
        !player.jail_card,
    ensures
        player.jail_updated(false, bail).jail == Some(1nat),
        player.jail_updated(false, bail).jail_updated(false, bail).jail == Some(2nat),
        player.jail_updated(false, bail).jail_updated(false, bail).balance == player.balance,
        player.jail_updated(false, bail).jail_updated(false, bail).jail_updated(false, bail) == (
        PlayerView { jail: None, ..player.paid(bail) }),
{
}

/// An attempt to leave jail changes nothing for a player who is free.
pub proof fn lemma_free_player_is_untouched(player: PlayerView, is_double: bool, bail: nat)
    requires
        player.jail is None,
    ensures
        player.jail_updated(is_double, bail) == player,
{
}

/// Leaving jail takes the card from every player and touches nothing else but
/// the stay itself; leaving a second time changes nothing more.
pub proof fn lemma_release_takes_the_card(player: PlayerView)
    ensures
        player.released().jail is None,
        !player.released().jail_card,
        player.released() == (PlayerView { jail: None, jail_card: false, ..player }),
        player.released().released() == player.released(),
{
}

} // verus!
