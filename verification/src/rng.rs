//! Chance in the game: the seeded generator shared by the systems, and the
//! random picks the rules make (power-ups, directions, quotes, tunes).

use vstd::prelude::*;
use rand::rngs::StdRng;
use std::ops::Range;
use crate::controls::{all_directions, directions_except, Direction};
use crate::powerup_strategy::{all_powerups, PowerUp};

verus! {

/// The standard seedable generator of `rand`.
#[verifier::external_type_specification]
#[verifier::external_body]
pub struct ExStdRng(StdRng);

/// `StdRng::seed_from_u64`: a generator seeded from a number. Nothing is
/// stated of it; its draws are only ever bounded by the draw wrappers below.
#[verifier::external_body]
fn std_rng_from_seed(seed: u64) -> StdRng {
    <StdRng as rand::SeedableRng>::seed_from_u64(seed)
}

/// `Rng::random_range` on a seeded generator: a draw from a non-empty
/// half-open range (it panics on an empty one), so it lies in the range.
/// Which value comes out depends on the generator's state.
#[verifier::external_body]
fn std_rng_random_range(rng: &mut StdRng, range: Range<usize>) -> (r: usize)
    requires
        range.start < range.end,
    ensures
        range.start <= r < range.end,
{
    rand::Rng::random_range(rng, range)
}

/// `Rng::random_range` on the thread-local generator of `rand::rng()`: a
/// draw from a non-empty half-open range lies in the range.
#[verifier::external_body]
pub(crate) fn thread_random_range(range: Range<usize>) -> (r: usize)
    requires
        range.start < range.end,
    ensures
        range.start <= r < range.end,
{
    rand::Rng::random_range(&mut rand::rng(), range)
}

/// `Rng::random::<bool>` on a seeded generator: a coin toss. Which side
/// comes up depends on the generator's state; nothing is stated of it.
#[verifier::external_body]
fn std_rng_random_bool(rng: &mut StdRng) -> bool {
    rand::Rng::random::<bool>(rng)
}

/// The generator shared by the game's systems.
pub struct GlobalRng(pub StdRng);

impl GlobalRng {
    /// A generator seeded with a number.
    pub fn with_seed(seed: u64) -> Self {
        GlobalRng(std_rng_from_seed(seed))
    }

    /// A number drawn from a non-empty range.
    pub fn gen_range(&mut self, range: Range<usize>) -> (r: usize)
        requires
            range.start < range.end,
        ensures
            range.start <= r < range.end,
    {
        std_rng_random_range(&mut self.0, range)
    }

    /// A coin toss drawn from this generator, so generators seeded alike
    /// toss alike.
    pub fn gen_bool(&mut self) -> bool {
        std_rng_random_bool(&mut self.0)
    }
}

/// A power-up kind drawn from the ten, each as likely as the others.
pub fn random_powerup(global_rng: &mut GlobalRng) -> (p: PowerUp)
    ensures
        all_powerups().contains(p),
{
    let i = global_rng.gen_range(0..10);
    let p = PowerUp::from_index(i);
    assert(all_powerups()[i as int] == p);
    p
}

/// A direction for an enemy tank that bumped into something: one of the
/// three other than the blocked one, each as likely.
pub fn get_new_direction(blocked: Direction) -> (d: Direction)
    ensures
        exists|i: int| 0 <= i < 3 && d == #[trigger] directions_except(blocked)[i],
        d != blocked,
{
    let available = crate::controls::available_directions(blocked);
    let i = thread_random_range(0..3);
    let d = available[i];
    assert(directions_except(blocked)[i as int] == d);
    assert(available@.contains(d));
    d
}

/// The direction at a position of the listed order (up, down, left, right).
pub fn direction_at(i: usize) -> (d: Direction)
    requires
        i < 4,
    ensures
        d == all_directions()[i as int],
{
    if i == 0 {
        Direction::Up
    } else if i == 1 {
        Direction::Down
    } else if i == 2 {
        Direction::Left
    } else {
        Direction::Right
    }
}

/// A direction drawn from the four, each as likely, for an enemy tank that
/// turns at random.
pub fn random_direction() -> (d: Direction)
    ensures
        exists|i: int| 0 <= i < 4 && d == #[trigger] all_directions()[i],
{
    let i = thread_random_range(0..4);
    direction_at(i)
}

/// How many quotes the stage intro picks from, in each language.
pub const STAGE_QUOTE_COUNT: usize = 17;

/// The position of the quote the stage intro shows.
pub fn random_quote_index() -> (i: usize)
    ensures
        i < STAGE_QUOTE_COUNT,
{
    thread_random_range(0..STAGE_QUOTE_COUNT)
}

/// How many tunes the commander's music note picks from.
pub const MUSIC_NOTE_COUNT: usize = 4;

/// The position of the tune the commander's music note plays.
pub fn select_random_music_note() -> (i: usize)
    ensures
        i < MUSIC_NOTE_COUNT,
{
    thread_random_range(0..MUSIC_NOTE_COUNT)
}

/// How many places an enemy tank can be born at.
pub const ENEMY_BORN_PLACE_COUNT: usize = 3;

/// The place the next enemy is born at, each as likely.
pub fn random_born_place() -> (i: usize)
    ensures
        i < ENEMY_BORN_PLACE_COUNT,
{
    thread_random_range(0..ENEMY_BORN_PLACE_COUNT)
}

} // verus!
