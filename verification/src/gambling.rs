//! Betting games against the house.
use vstd::prelude::*;

use rand::Rng;

verus! {

/// Why a gamble could not be played.
#[derive(Debug, Clone, Copy, PartialEq, Eq, Structural)]
pub enum GambleError {
    /// the gamble is not waiting to be played
    InvalidState(State),
}

/// A bet: who plays, for what, and which game.
#[derive(Debug, Clone, Copy, PartialEq, Eq, Structural)]
pub struct Gamble {
    pub player_id: u64,
    pub prize: Prize,
    pub game: Game,
    /// a new gamble is waiting to be played
    pub state: State,
}

/// What is at stake.
#[derive(Debug, Clone, Copy, PartialEq, Eq, Structural)]
pub enum Prize {
    Coins(i64),
    /// every coin the player has
    AllCoins,
}

impl From<i64> for Prize {
    fn from(n: i64) -> (r: Self) {
        Prize::Coins(n)
    }
}

impl vstd::std_specs::convert::FromSpecImpl<i64> for Prize {
    open spec fn obeys_from_spec() -> bool {
        true
    }

    open spec fn from_spec(n: i64) -> Self {
        Prize::Coins(n)
    }
}

/// The games that can be played.
#[derive(Debug, Clone, Copy, PartialEq, Eq, Structural)]
pub enum Game {
    /// the player and the house each roll a die with this many sides
    /// (numbered from zero)
    DiceRoll(u32),
}

/// Where a game stands.
#[derive(Debug, Clone, Copy, PartialEq, Eq, Structural)]
pub enum State {
    Waiting,
    Win,
    Lose,
    Draw,
}

/// How a played game went.
#[derive(Debug, Clone, Copy, PartialEq, Eq, Structural)]
pub enum GambleOutput {
    DiceRoll { player_id: u64, prize: Prize, house_roll: u32, player_roll: u32, state: State },
}

/// The outcome of a dice game: the higher roll wins, equal rolls draw.
pub open spec fn dice_state(player_roll: u32, house_roll: u32) -> State {
    if player_roll > house_roll {
        State::Win
    } else if player_roll == house_roll {
        State::Draw
    } else {
        State::Lose
    }
}

/// The result of a dice game with the given rolls.
pub fn dice_outcome(player_id: u64, prize: Prize, player_roll: u32, house_roll: u32) -> (r:
    GambleOutput)
    ensures
        r == (GambleOutput::DiceRoll {
            player_id,
            prize,
            house_roll,
            player_roll,
            state: dice_state(player_roll, house_roll),
        }),
{
    let state = if player_roll > house_roll {
        State::Win
    } else if player_roll == house_roll {
        State::Draw
    } else {
        State::Lose
    };
    GambleOutput::DiceRoll { player_id, prize, house_roll, player_roll, state }
}

/// `rand::Rng::gen_range(0, sides)` on the thread's random generator: a
/// number from zero up to, not including, `sides`. Which number comes
/// out is left to chance; only its range is stated.
#[verifier::external_body]
fn roll_below(sides: u32) -> (r: u32)
    requires
        sides > 0,
    ensures
        r < sides,
{
    rand::thread_rng().gen_range(0, sides)
}

/// Plays a dice game: the player rolls, then the house.
fn play_dice(player_id: u64, prize: Prize, sides: u32) -> (r: GambleOutput)
    requires
        sides > 0,
    ensures
        r matches GambleOutput::DiceRoll { player_id: p, prize: z, house_roll, player_roll, state }
            && p == player_id && z == prize && house_roll < sides && player_roll < sides && state
            == dice_state(player_roll, house_roll),
{
    let player_roll = roll_below(sides);
    let house_roll = roll_below(sides);
    dice_outcome(player_id, prize, player_roll, house_roll)
}

/// The number of sides of a dice game.
pub open spec fn dice_sides(game: Game) -> u32 {
    match game {
        Game::DiceRoll(sides) => sides,
    }
}

impl Gamble {
    /// A new gamble, waiting to be played.
    pub fn new(player_id: u64, prize: Prize, game: Game) -> (r: Self)
        ensures
            r == (Gamble { player_id, prize, game, state: State::Waiting }),
    {
        Gamble { player_id, prize, game, state: State::Waiting }
    }

    /// Plays the game. Only a waiting gamble can be played; a dice game
    /// needs at least one side.
    pub fn play(self) -> (r: Result<GambleOutput, GambleError>)
        requires
            self.state == State::Waiting ==> dice_sides(self.game) > 0,
        ensures
            self.state != State::Waiting ==> r == Err::<GambleOutput, GambleError>(
                GambleError::InvalidState(self.state),
            ),
            self.state == State::Waiting ==> (r matches Ok(
                GambleOutput::DiceRoll { player_id, prize, house_roll, player_roll, state },
            ) && player_id == self.player_id && prize == self.prize && house_roll < dice_sides(
                self.game,
            ) && player_roll < dice_sides(self.game) && state == dice_state(
                player_roll,
                house_roll,
            )),
    {
        match self.game {
            Game::DiceRoll(sides) => match self.state {
                State::Waiting => Ok(play_dice(self.player_id, self.prize, sides)),
                _ => Err(GambleError::InvalidState(self.state)),
            },
        }
    }
}

/// A played dice game never ends waiting: every pair of rolls is a win,
/// a loss or a draw, and exactly the higher roll wins.
pub proof fn lemma_dice_state_decided(player_roll: u32, house_roll: u32)
    ensures
        dice_state(player_roll, house_roll) != State::Waiting,
        dice_state(player_roll, house_roll) == State::Win <==> player_roll > house_roll,
        dice_state(player_roll, house_roll) == State::Draw <==> player_roll == house_roll,
        dice_state(player_roll, house_roll) == State::Lose <==> player_roll < house_roll,
        dice_state(player_roll, house_roll) == State::Win <==> dice_state(house_roll, player_roll)
            == State::Lose,
{
}

} // verus!
