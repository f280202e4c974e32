use vstd::prelude::*;
use crate::board::{Coordinates, Position, Seed, Side};
use crate::commitment::HashSalt;
use crate::game::{Game, GameState, PlayerId, PowerLevel};

verus! {

/// The state of a board game on its way through the orchestrator that runs it.
#[derive(Clone, Debug)]
pub struct BoardGame<BoardId, State, Players, Start> {
    /// Identifier of the board
    pub board_id: BoardId,
    /// Players in the game
    pub players: Players,
    /// The current state of the game
    pub state: State,
    /// When the game started
    pub started: Start,
}

impl<BoardId, State, Players, Start> BoardGame<BoardId, State, Players, Start> {
    /// Create a BoardGame
    pub fn new(board_id: BoardId, players: Players, state: State, started: Start) -> (r: Self)
        ensures
            r.board_id == board_id,
            r.players == players,
            r.state == state,
            r.started == started,
    {
        Self { board_id, players, state, started }
    }
}

#[derive(Debug, PartialEq)]
pub enum Finished<Player> {
    No,
    Winner(Player),
}

/// The operations through which an orchestrator drives a turn-based game.
pub trait TurnBasedGame {
    /// Represents a turn in the game
    type Turn;

    /// Represents a player in the game
    type Player: Clone;

    /// The state of the game
    type State;

    /// Initialise turn based game with players returning the initial state
    fn init(players: &[Self::Player], seed: Option<u32>) -> Option<Self::State>;

    /// Get the player that played its turn last
    fn get_last_player(state: &Self::State) -> Self::Player;

    /// Get the player that should play its turn next
    fn get_next_player(state: &Self::State) -> Self::Player;

    /// Play a turn with player on the current state returning the new state
    fn play_turn(player: Self::Player, state: Self::State, turn: Self::Turn) -> Option<
        Self::State,
    >;

    /// Forces the termination of a game with a designated winner, useful when games
    /// get stalled for some reason.
    fn abort(state: Self::State, winner: Self::Player) -> Self::State;

    /// Check if the game has finished with winner
    fn is_finished(state: &Self::State) -> Finished<Self::Player>;

    /// Get seed if any
    fn seed(state: &Self::State) -> Option<u32>;
}

/// A move of the game.
#[derive(Clone, Copy, Debug, PartialEq, Eq)]
pub enum Turn {
    PlaceBomb(Coordinates, HashSalt),
    DetonateBomb(Coordinates, HashSalt, PowerLevel),
    DropStone((Side, Position)),
}

/// `state` with `winner` forced as the winner.
pub open spec fn aborted<Player>(state: GameState<Player>, winner: Player) -> GameState<Player> {
    GameState { winner: Some(winner), ..state }
}

/// Whether `state` has a winner, and which.
pub open spec fn finished<Player>(state: GameState<Player>) -> Finished<Player> {
    match state.winner {
        Some(winner) => Finished::Winner(winner),
        None => Finished::No,
    }
}

/// What `player` playing `turn` on a valid `state` leads to: the next state, or `None` when
/// the move is refused for any reason.
pub open spec fn turn_outcome<Player>(
    player: Player,
    state: GameState<Player>,
    turn: Turn,
    r: Option<GameState<Player>>,
) -> bool {
    match turn {
        Turn::PlaceBomb(coordinates, salt) => match r {
            Some(after) => state.placement_error(player, coordinates, salt) is None
                && state.placed(after, player, coordinates, salt),
            None => state.placement_error(player, coordinates, salt) is Some,
        },
        Turn::DetonateBomb(coordinates, salt, level) => match r {
            Some(after) => state.detonation_error(player, coordinates, salt, level) is None
                && state.detonated(after, player, coordinates, salt, level),
            None => state.detonation_error(player, coordinates, salt, level) is Some,
        },
        Turn::DropStone((side, position)) => r == if state.drop_error(
            player,
            side,
            position,
        ) is None {
            Some(state.dropped(player, side, position))
        } else {
            None
        },
    }
}

impl<Player: PlayerId> GameState<Player> {
    /// Tells if the state is valid: the player to move is one of the players, and entries of
    /// the energy table that name the same player agree.
    pub fn is_well_formed(&self) -> (r: bool)
        ensures
            r == self.is_valid(),
    {
        (self.next_player.same_player(&self.players[0]) || self.next_player.same_player(
            &self.players[1],
        )) && (!self.bomb_energy[0].0.same_player(&self.bomb_energy[1].0)
            || self.bomb_energy[0].1 == self.bomb_energy[1].1)
    }
}

impl<Player: PlayerId> TurnBasedGame for Game<Player> {
    type Turn = Turn;

    type Player = Player;

    type State = GameState<Player>;

    fn init(players: &[Player], seed: Option<u32>) -> (r: Option<GameState<Player>>)
        ensures
            players@.len() == 2 ==> r is Some && r->0.is_new_game(players@[0], players@[1], seed),
            players@.len() != 2 ==> r is None,
    {
        if players.len() == 2 {
            Some(Game::new_game(players[0], players[1], seed))
        } else {
            None
        }
    }

    fn get_last_player(state: &GameState<Player>) -> (r: Player)
        ensures
            r == match state.last_move {
                Some(last_move) => last_move.player,
                None => state.next_player,
            },
    {
        match state.last_move {
            Some(last_move) => last_move.player,
            None => state.next_player,
        }
    }

    fn get_next_player(state: &GameState<Player>) -> (r: Player)
        ensures
            r == state.next_player,
    {
        state.next_player
    }

    /// A state that is not valid is refused, as is every move that the game refuses.
    fn play_turn(player: Player, state: GameState<Player>, turn: Turn) -> (r: Option<
        GameState<Player>,
    >)
        ensures
            !state.is_valid() ==> r is None,
            state.is_valid() ==> turn_outcome(player, state, turn, r),
    {
        if !state.is_well_formed() {
            return None;
        }
        let result = match turn {
            Turn::PlaceBomb(coordinates, salt) => Game::place_bomb(
                state,
                player,
                coordinates,
                salt,
            ),
            Turn::DetonateBomb(coordinates, salt, power_level) => Game::detonate_bomb(
                state,
                player,
                coordinates,
                salt,
                power_level,
            ),
            Turn::DropStone((side, pos)) => Game::drop_stone(state, player, side, pos),
        };
        match result {
            Ok(after) => Some(after),
            Err(_) => None,
        }
    }

    fn abort(state: GameState<Player>, winner: Player) -> (r: GameState<Player>)
        ensures
            r == aborted(state, winner),
    {
        let mut state = state;
        state.winner = Some(winner);
        state
    }

    fn is_finished(state: &GameState<Player>) -> (r: Finished<Player>)
        ensures
            r == finished(*state),
    {
        match state.winner {
            Some(winner) => Finished::Winner(winner),
            None => Finished::No,
        }
    }

    fn seed(state: &GameState<Player>) -> (r: Option<Seed>)
        ensures
            r == Some(state.seed),
    {
        Some(state.seed)
    }
}

} // verus!
