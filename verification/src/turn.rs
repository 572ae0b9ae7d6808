//! One player's turn: the throw in jail, the throws in the open, and the rule
//! of the three doubles.

use crate::agent::Agent;
use crate::dice::{roll_game_dice, scripted_roll, DiceSource, RollState};
use crate::monopoly::MonopolyState;
use crate::player::{Player, PlayerView, JAIL_BAIL};
use vstd::prelude::*;

verus! {

/// The number of counted throws at which a double sends the player to jail.
pub const DOUBLES_LIMIT: usize = 3;

/// Where a turn stands between two throws.
#[derive(Clone, Copy, Debug, PartialEq, Eq, Structural)]
pub enum TurnPhase {
    /// The player sits in jail and is to throw for release.
    InJail,
    /// The player is free and is to throw and move. `counted` is the number of
    /// throws of this turn that count towards the limit: the doubles, and the
    /// throw that the player left jail with.
    Free { counted: usize },
    /// The turn has ended.
    Over,
}

/// The phase in which a player's turn begins: a bankrupt player has no turn, a
/// jailed one throws for release, a free one throws and moves.
pub open spec fn turn_start(player: PlayerView) -> TurnPhase {
    if !player.active {
        TurnPhase::Over
    } else if player.jail is Some {
        TurnPhase::InJail
    } else {
        TurnPhase::Free { counted: 0 }
    }
}

/// What one throw does to the player, and the phase that follows it.
///
/// In jail the throw is an attempt to leave; a player who comes out solvent
/// plays on in the open with one throw counted, any other turn ends there. In
/// the open a double that brings the count to the limit sends the player to
/// jail without a move and ends the turn; any other double moves the player
/// and earns another throw; any other throw moves the player and ends the
/// turn. Once the turn is over a throw changes nothing.
pub open spec fn turn_step(player: PlayerView, phase: TurnPhase, roll: RollState) -> (
    PlayerView,
    TurnPhase,
) {
    match phase {
        TurnPhase::Over => (player, TurnPhase::Over),
        TurnPhase::InJail => {
            let after = player.jail_updated(roll.is_double, JAIL_BAIL as nat);
            if after.jail is None && after.active {
                (after, TurnPhase::Free { counted: 1 })
            } else {
                (after, TurnPhase::Over)
            }
        },
        TurnPhase::Free { counted } => {
            if roll.is_double && counted + 1 >= DOUBLES_LIMIT {
                (player.jailed(), TurnPhase::Over)
            } else if roll.is_double {
                (player.moved(roll.value as nat), TurnPhase::Free { counted: (counted + 1) as usize })
            } else {
                (player.moved(roll.value as nat), TurnPhase::Over)
            }
        },
    }
}

/// Whether each of the throws can have come from two game dice.
pub open spec fn all_throws(rolls: Seq<RollState>) -> bool {
    forall|i: int| 0 <= i < rolls.len() ==> (#[trigger] rolls[i]).is_throw()
}

/// Whether the throws are made of the numbers of the script, two to a throw
/// and in order, as far as the script reaches.
pub open spec fn follows_script(rolls: Seq<RollState>, script: Seq<usize>) -> bool {
    forall|i: int|
        0 <= i < rolls.len() && 2 * i + 1 < script.len() ==> #[trigger] rolls[i] == scripted_roll(
            script,
            2 * i,
        )
}

/// Whether `left` is what is known to come next from a source after `count`
/// throws of the two dice, where `script` was known before: the script without
/// its first two numbers for each throw, or nothing once the script has been
/// used up.
pub open spec fn script_left(script: Seq<usize>, count: nat, left: Seq<usize>) -> bool {
    if 2 * count <= script.len() {
        left == script.skip(2 * count as int)
    } else {
        left.len() == 0
    }
}

/// The player and the phase after the throws `rolls`, in order, from the
/// beginning of the turn.
pub open spec fn turn_run(player: PlayerView, rolls: Seq<RollState>) -> (PlayerView, TurnPhase)
    decreases rolls.len(),
{
    if rolls.len() == 0 {
        (player, turn_start(player))
    } else {
        let before = turn_run(player, rolls.drop_last());
        turn_step(before.0, before.1, rolls.last())
    }
}

/// Whether the throws are one whole turn of the player: the turn is over after
/// the last of them and was not over before it.
pub open spec fn is_whole_turn(player: PlayerView, rolls: Seq<RollState>) -> bool {
    &&& turn_run(player, rolls).1 == TurnPhase::Over
    &&& rolls.len() > 0 ==> turn_run(player, rolls.drop_last()).1 != TurnPhase::Over
}

/// How many more moves a turn in this phase can hold.
spec fn moves_left(phase: TurnPhase) -> nat {
    match phase {
        TurnPhase::Over => 0,
        TurnPhase::InJail => 2,
        TurnPhase::Free { counted } => if counted < DOUBLES_LIMIT {
            (DOUBLES_LIMIT - counted) as nat
        } else {
            0
        },
    }
}

/// How many more throws a turn in this phase can hold.
spec fn throws_left(phase: TurnPhase) -> nat {
    match phase {
        TurnPhase::Over => 0,
        TurnPhase::InJail => 3,
        TurnPhase::Free { counted } => if counted < DOUBLES_LIMIT {
            (DOUBLES_LIMIT - counted) as nat
        } else {
            0
        },
    }
}

/// Whether the player is as a turn that began properly finds them in this
/// phase, with room in the machine integers for what the rest of it may add.
spec fn in_phase(player: PlayerView, phase: TurnPhase) -> bool {
    match phase {
        TurnPhase::Over => true,
        TurnPhase::InJail => {
            &&& player.jail_count < usize::MAX
            &&& player.jail matches Some(attempts) ==> attempts < usize::MAX
        },
        TurnPhase::Free { counted } => {
            &&& counted < DOUBLES_LIMIT
            &&& player.jail is None
            &&& player.jail_count < usize::MAX
        },
    }
}

impl TurnPhase {
    /// The phase in which the player's turn begins.
    pub fn start(player: &Player) -> (phase: TurnPhase)
        ensures
            phase == turn_start(player@),
    {
        if !player.is_active() {
            TurnPhase::Over
        } else if player.in_jail() {
            TurnPhase::InJail
        } else {
            TurnPhase::Free { counted: 0 }
        }
    }

    pub fn is_over(&self) -> (over: bool)
        ensures
            over == (*self == TurnPhase::Over),
    {
        match self {
            TurnPhase::Over => true,
            _ => false,
        }
    }
}

impl Player {
    /// Plays one throw of the player's turn and returns the phase that follows.
    pub fn apply_roll(&mut self, phase: TurnPhase, roll: RollState) -> (next: TurnPhase)
        requires
            old(self)@.position + roll.value <= usize::MAX,
            old(self)@.jail_fits(),
            phase matches TurnPhase::Free { counted } ==> counted < usize::MAX,
        ensures
            (final(self)@, next) == turn_step(old(self)@, phase, roll),
    {
        match phase {
            TurnPhase::Over => TurnPhase::Over,
            TurnPhase::InJail => {
                self.update_jail(roll.is_double, JAIL_BAIL);
                if !self.in_jail() && self.is_active() {
                    TurnPhase::Free { counted: 1 }
                } else {
                    TurnPhase::Over
                }
            },
            TurnPhase::Free { counted } => {
                if roll.is_double && counted + 1 >= DOUBLES_LIMIT {
                    self.go_to_jail();
                    TurnPhase::Over
                } else {
                    self.move_position(roll.value);
                    if roll.is_double {
                        TurnPhase::Free { counted: counted + 1 }
                    } else {
                        TurnPhase::Over
                    }
                }
            },
        }
    }

    /// Plays the player's whole turn, throwing `dice` as often as the turn
    /// asks, and returns the throws in order.
    ///
    /// Each throw is one throw of the two dice from `dice`, and nothing else is
    /// drawn from it: where the numbers of the source are known, the throws are
    /// made of them, two to a throw and in order, and the source has moved on
    /// by two for each throw. Whatever the dice show, the player ends as the
    /// rules say for exactly these throws, the turn is over after the last of
    /// them and was not over before it. A bankrupt player throws nothing and is
    /// left as they are.
    pub fn take_turn<D: DiceSource>(&mut self, dice: &mut D) -> (rolls: Vec<RollState>)
        requires
            old(self)@.fits_turn(),
        ensures
            turn_run(old(self)@, rolls@) == (final(self)@, TurnPhase::Over),
            rolls.len() > 0 ==> turn_run(old(self)@, rolls@.drop_last()).1 != TurnPhase::Over,
            all_throws(rolls@),
            follows_script(rolls@, old(dice).scripted()),
            script_left(old(dice).scripted(), rolls.len() as nat, final(dice).scripted()),
            rolls.len() <= 3,
            !old(self)@.active ==> rolls.len() == 0 && final(self)@ == old(self)@
                && final(dice).scripted() == old(dice).scripted(),
    {
        let ghost start = self@;
        let ghost script = dice.scripted();
        let mut rolls: Vec<RollState> = Vec::new();
        assert(script.skip(0) == script);
        let mut phase = TurnPhase::start(self);
        while !phase.is_over()
            invariant
                turn_run(start, rolls@) == (self@, phase),
                rolls.len() > 0 ==> turn_run(start, rolls@.drop_last()).1 != TurnPhase::Over,
                forall|i: int| 0 <= i < rolls.len() ==> (#[trigger] rolls[i]).is_throw(),
                follows_script(rolls@, script),
                script_left(script, rolls.len() as nat, dice.scripted()),
                in_phase(self@, phase),
                self@.position + 12 * moves_left(phase) <= usize::MAX,
                rolls.len() + throws_left(phase) <= 3,
                !start.active ==> phase == TurnPhase::Over && rolls.len() == 0 && self@ == start
                    && dice.scripted() == script,
            decreases throws_left(phase),
        {
            let ghost thrown = rolls.len() as int;
            let ghost known = dice.scripted();
            let roll = roll_game_dice(dice);
            let ghost before = rolls@;
            assert(moves_left(phase) >= 1);
            let next = self.apply_roll(phase, roll);
            rolls.push(roll);
            proof {
                assert(rolls@.drop_last() == before);
                assert(rolls@.last() == roll);
                if 2 * thrown + 2 <= script.len() {
                    assert(known == script.skip(2 * thrown));
                    assert(known.skip(2) == script.skip(2 * thrown + 2));
                    assert(roll == scripted_roll(script, 2 * thrown));
                }
                assert forall|i: int|
                    0 <= i < rolls.len() && 2 * i + 1 < script.len() implies #[trigger] rolls[i]
                    == scripted_roll(script, 2 * i) by {
                    if i < thrown {
                        assert(rolls[i] == before[i]);
                    }
                }
            }
            phase = next;
        }
        rolls
    }
}

impl Agent for Player {
    type SimState = MonopolyState;

    open spec fn can_step(&self) -> bool {
        self@.fits_turn()
    }

    /// Takes the player's turn. The throws depend on chance; the player ends as
    /// the rules say for the throws that were made.
    fn step<D: DiceSource>(
        &mut self,
        _state: &MonopolyState,
        _players: Vec<&Player>,
        dice: &mut D,
    )
        ensures
            exists|rolls: Seq<RollState>|
                rolls.len() <= 3 && all_throws(rolls) && follows_script(
                    rolls,
                    old(dice).scripted(),
                ) && script_left(old(dice).scripted(), rolls.len(), final(dice).scripted())
                    && #[trigger] turn_run(old(self)@, rolls) == (final(self)@, TurnPhase::Over),
            !old(self)@.active ==> final(self)@ == old(self)@
                && final(dice).scripted() == old(dice).scripted(),
    {
        let rolls = self.take_turn(dice);
        assert(turn_run(old(self)@, rolls@) == (self@, TurnPhase::Over));
    }
}

/// Three doubles in a row send a free player to jail, and the third is not
/// moved: the player stands where the first two throws took them.
pub proof fn lemma_three_doubles_jail(
    player: PlayerView,
    first: RollState,
    second: RollState,
    third: RollState,
)
    requires
        player.active,
        player.jail is None,
        first.is_double,
        second.is_double,
        third.is_double,
    ensures
        turn_run(player, seq![first, second, third]) == (
            player.moved(first.value as nat).moved(second.value as nat).jailed(),
            TurnPhase::Over,
        ),
        turn_run(player, seq![first, second, third]).0.position == player.position + first.value
            + second.value,
        turn_run(player, seq![first, second, third]).0.jail == Some(0nat),
        turn_run(player, seq![first, second]).1 != TurnPhase::Over,
{
    let one = seq![first];
    let two = seq![first, second];
    let three = seq![first, second, third];
    assert(one.drop_last() == Seq::<RollState>::empty());
    assert(two.drop_last() == one);
    assert(three.drop_last() == two);
    reveal_with_fuel(turn_run, 4);
}

/// A double earns another throw, and a throw that is no double ends the turn
/// once it is moved.
pub proof fn lemma_double_then_plain(player: PlayerView, first: RollState, second: RollState)
    requires
        player.active,
        player.jail is None,
        first.is_double,
        !second.is_double,
    ensures
        turn_run(player, seq![first]) == (
            player.moved(first.value as nat),
            TurnPhase::Free { counted: 1 },
        ),
        turn_run(player, seq![first, second]) == (
            player.moved(first.value as nat).moved(second.value as nat),
            TurnPhase::Over,
        ),
{
    let one = seq![first];
    let two = seq![first, second];
    assert(one.drop_last() == Seq::<RollState>::empty());
    assert(two.drop_last() == one);
    reveal_with_fuel(turn_run, 3);
}

/// A bankrupt player has no turn: whatever is thrown, nothing about them
/// changes.
pub proof fn lemma_bankrupt_player_is_untouched(player: PlayerView, rolls: Seq<RollState>)
    requires
        !player.active,
    ensures
        turn_run(player, rolls) == (player, TurnPhase::Over),
    decreases rolls.len(),
{
    if rolls.len() > 0 {
        lemma_bankrupt_player_is_untouched(player, rolls.drop_last());
    }
}

/// A turn never touches the balance of a player but to charge the bail, and
/// never that of a player who begins it free.
pub proof fn lemma_free_turn_keeps_balance(player: PlayerView, rolls: Seq<RollState>)
    requires
        player.jail is None,
    ensures
        turn_run(player, rolls).0.balance == player.balance,
        turn_run(player, rolls).0.active == player.active,
        turn_run(player, rolls).1 != TurnPhase::InJail,
    decreases rolls.len(),
{
    if rolls.len() > 0 {
        lemma_free_turn_keeps_balance(player, rolls.drop_last());
    }
}

/// Once a turn is over it stays over: further throws change neither the phase
/// nor the player.
pub proof fn lemma_over_is_final(player: PlayerView, rolls: Seq<RollState>, upto: int)
    requires
        0 <= upto <= rolls.len(),
        turn_run(player, rolls.take(upto)).1 == TurnPhase::Over,
    ensures
        turn_run(player, rolls) == turn_run(player, rolls.take(upto)),
    decreases rolls.len() - upto,
{
    if upto == rolls.len() {
        assert(rolls.take(upto) == rolls);
    } else {
        assert(rolls.drop_last().take(upto) == rolls.take(upto));
        lemma_over_is_final(player, rolls.drop_last(), upto);
    }
}

/// A whole turn is not over after any of its throws but the last.
pub proof fn lemma_whole_turn_is_not_over_early(
    player: PlayerView,
    rolls: Seq<RollState>,
    upto: int,
)
    requires
        is_whole_turn(player, rolls),
        0 <= upto < rolls.len(),
    ensures
        turn_run(player, rolls.take(upto)).1 != TurnPhase::Over,
{
    if turn_run(player, rolls.take(upto)).1 == TurnPhase::Over {
        assert(rolls.drop_last().take(upto) == rolls.take(upto));
        lemma_over_is_final(player, rolls.drop_last(), upto);
    }
}

/// A script that reaches as far as a whole turn decides the turn: if `forced`
/// is a whole turn of the player made of the numbers of the script, then every
/// whole turn of the player that follows the script is that turn.
pub proof fn lemma_script_decides_turn(
    player: PlayerView,
    script: Seq<usize>,
    rolls: Seq<RollState>,
    forced: Seq<RollState>,
)
    requires
        is_whole_turn(player, rolls),
        follows_script(rolls, script),
        is_whole_turn(player, forced),
        follows_script(forced, script),
        2 * forced.len() <= script.len(),
    ensures
        rolls == forced,
{
    let thrown = rolls.len() as int;
    let owed = forced.len() as int;
    assert forall|i: int| 0 <= i < thrown && i < owed implies rolls[i] == forced[i] by {
        assert(rolls[i] == scripted_roll(script, 2 * i));
        assert(forced[i] == scripted_roll(script, 2 * i));
    }
    if thrown < owed {
        assert(forced.take(thrown) == rolls);
        lemma_whole_turn_is_not_over_early(player, forced, thrown);
    } else if thrown > owed {
        assert(rolls.take(owed) == forced);
        lemma_whole_turn_is_not_over_early(player, rolls, owed);
    } else {
        assert(rolls == forced);
    }
}

} // verus!
