//! Two six-sided dice, and the sources of chance that they are thrown from.

use rand::distributions::{Distribution, Uniform};
use rand::rngs::ThreadRng;
use vstd::prelude::*;
use vstd::std_specs::ops::AddSpecImpl;

verus! {

/// The number of faces of a game die.
pub const DIE_SIDES: usize = 6;

/// The generator that `rand` keeps for each thread. Nothing is known of what is
/// inside it: it is only handed on to `rand`.
#[verifier::external_type_specification]
#[verifier::external_body]
pub struct ExThreadRng(ThreadRng);

/// Draws one number from `rand`'s `Uniform::new_inclusive(low, high)` with the
/// given generator.
///
/// Trusted: the number lies in the closed range from `low` to `high`. Which
/// number it is depends on chance, so nothing more is claimed.
///
/// `rand` panics when the range is empty, which `low <= high` rules out. It
/// also panics when the generator is due for fresh entropy and the operating
/// system fails to supply it. That is a failure of the machine, like running
/// out of memory: no precondition can rule it out, and none is stated.
#[verifier::external_body]
fn uniform_draw(rng: &mut ThreadRng, low: usize, high: usize) -> (drawn: usize)
    requires
        low <= high,
    ensures
        low <= drawn <= high,
{
    Uniform::new_inclusive(low, high).sample(rng)
}

/// The face that a die with `sides` faces shows for a number written down in
/// advance: the number itself where the die has such a face, else the nearest
/// face.
pub open spec fn face_shown(scripted: nat, sides: nat) -> nat {
    if scripted < 1 {
        1
    } else if scripted > sides {
        sides
    } else {
        scripted
    }
}

/// A source of chance: anything that can throw a die with a given number of
/// sides.
pub trait DiceSource {
    /// The numbers that are known to come next, the next one first. It is empty
    /// where nothing is known of what the source will show.
    spec fn scripted(&self) -> Seq<usize>;

    /// Throws a die with `sides` faces, numbered from 1.
    ///
    /// Where the next number is known, the die shows it, fitted to its faces,
    /// and the source moves on by one. A source of which nothing is known stays
    /// one of which nothing is known.
    fn draw(&mut self, sides: usize) -> (face: usize)
        requires
            1 <= sides,
        ensures
            1 <= face <= sides,
            old(self).scripted().len() > 0 ==> face == face_shown(
                old(self).scripted()[0] as nat,
                sides as nat,
            ) && final(self).scripted() == old(self).scripted().drop_first(),
            old(self).scripted().len() == 0 ==> final(self).scripted().len() == 0,
    ;
}

impl DiceSource for ThreadRng {
    /// Nothing is known of what a random generator will show.
    open spec fn scripted(&self) -> Seq<usize> {
        Seq::empty()
    }

    /// Throws the die with `rand`'s uniform distribution over its faces.
    fn draw(&mut self, sides: usize) -> (face: usize) {
        uniform_draw(self, 1, sides)
    }
}

/// A source that replays a list of faces written down in advance, so that a
/// game can be steered through a chosen course.
pub struct ScriptedDice {
    faces: Vec<usize>,
    next: usize,
}

impl ScriptedDice {
    #[verifier::type_invariant]
    spec fn inv(self) -> bool {
        self.next <= self.faces.len()
    }

    /// The faces that are still to come, the next one first.
    pub closed spec fn remaining(&self) -> Seq<usize> {
        self.faces@.skip(self.next as int)
    }

    /// A source that will show `faces` in order.
    pub fn new(faces: Vec<usize>) -> (dice: Self)
        ensures
            dice.remaining() == faces@,
    {
        ScriptedDice { faces, next: 0 }
    }

    /// How many scripted faces have not been shown yet.
    pub fn faces_left(&self) -> (left: usize)
        ensures
            left == self.remaining().len(),
    {
        proof {
            use_type_invariant(self);
        }
        self.faces.len() - self.next
    }
}

impl DiceSource for ScriptedDice {
    /// What is known to come next is what is left of the script.
    open spec fn scripted(&self) -> Seq<usize> {
        self.remaining()
    }

    /// Shows the next scripted face, fitted to the die. Once the script has run
    /// out every throw shows 1.
    fn draw(&mut self, sides: usize) -> (face: usize)
        ensures
            old(self).remaining().len() == 0 ==> face == 1 && final(self).remaining()
                == old(self).remaining(),
    {
        proof {
            use_type_invariant(&*self);
        }
        if self.next >= self.faces.len() {
            return 1;
        }
        let scripted = self.faces[self.next];
        self.next = self.next + 1;
        if scripted < 1 {
            1
        } else if scripted > sides {
            sides
        } else {
            scripted
        }
    }
}

/// What one throw of the two dice came to.
#[derive(Clone, Copy, Debug, PartialEq, Eq, Structural)]
pub struct RollState {
    /// The sum of the two faces.
    pub value: usize,
    /// Whether the two faces were equal.
    pub is_double: bool,
}

impl RollState {
    /// The throw in which the dice showed `first` and `second`.
    pub open spec fn of(first: nat, second: nat) -> RollState {
        RollState { value: (first + second) as usize, is_double: first == second }
    }

    /// Whether two game dice can have produced this throw.
    pub open spec fn is_throw(self) -> bool {
        exists|first: nat, second: nat|
            1 <= first <= DIE_SIDES && 1 <= second <= DIE_SIDES && self == #[trigger] RollState::of(
                first,
                second,
            )
    }

    /// The throw in which the dice showed `first` and `second`.
    pub fn from_draws(first: usize, second: usize) -> (roll: Self)
        requires
            first + second <= usize::MAX,
        ensures
            roll == RollState::of(first as nat, second as nat),
            roll.value == first + second,
            roll.is_double <==> first == second,
    {
        let earlier = RollState { value: first, is_double: true };
        let later = RollState { value: second, is_double: true };
        later + earlier
    }
}

impl Default for RollState {
    /// The empty throw: nothing on the table yet.
    fn default() -> (roll: Self)
        ensures
            roll == (RollState { value: 0, is_double: true }),
    {
        RollState { value: 0, is_double: true }
    }
}

impl AddSpecImpl for RollState {
    open spec fn obeys_add_spec() -> bool {
        true
    }

    open spec fn add_req(self, other: RollState) -> bool {
        self.value + other.value <= usize::MAX
    }

    open spec fn add_spec(self, other: RollState) -> RollState {
        RollState {
            value: (self.value + other.value) as usize,
            is_double: self.value == other.value,
        }
    }
}

impl std::ops::Add for RollState {
    type Output = Self;

    /// Puts two dice together: the values add up, and the pair is a double when
    /// both show the same.
    fn add(self, other: Self) -> (sum: Self) {
        Self { value: self.value + other.value, is_double: self.value == other.value }
    }
}

/// Any throw of two game dice lies between 2 and 12, and a double is even.
pub proof fn lemma_throw_bounds(roll: RollState)
    requires
        roll.is_throw(),
    ensures
        2 <= roll.value <= 12,
        roll.is_double ==> roll.value % 2 == 0,
{
    let (first, second) = choose|first: nat, second: nat|
        1 <= first <= DIE_SIDES && 1 <= second <= DIE_SIDES && roll == #[trigger] RollState::of(
            first,
            second,
        );
    assert(roll == RollState::of(first, second));
}

/// The throw that two game dice make of the two numbers at `at` and after it
/// in a script.
pub open spec fn scripted_roll(script: Seq<usize>, at: int) -> RollState {
    RollState::of(
        face_shown(script[at] as nat, DIE_SIDES as nat),
        face_shown(script[at + 1] as nat, DIE_SIDES as nat),
    )
}

/// Throws the two dice: two throws of the source, one after the other.
///
/// Whatever the faces are, each lies between 1 and 6, the value is their sum
/// and the throw is a double exactly when they are equal. Where the next two
/// numbers of the source are known, the throw is made of them, the first
/// number being the first die, and the source has moved on by two.
pub fn roll_game_dice<D: DiceSource>(dice: &mut D) -> (roll: RollState)
    ensures
        roll.is_throw(),
        2 <= roll.value <= 12,
        old(dice).scripted().len() >= 2 ==> roll == scripted_roll(old(dice).scripted(), 0)
            && final(dice).scripted() == old(dice).scripted().skip(2),
        old(dice).scripted().len() < 2 ==> final(dice).scripted().len() == 0,
{
    let ghost script = dice.scripted();
    let first = dice.draw(DIE_SIDES);
    let second = dice.draw(DIE_SIDES);
    let roll = RollState::from_draws(first, second);
    proof {
        assert(roll == RollState::of(first as nat, second as nat));
        if script.len() >= 2 {
            assert(script.drop_first().drop_first() == script.skip(2));
        }
    }
    roll
}

} // verus!
