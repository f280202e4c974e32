use dot4gravity::board::{Cell, Coordinates, Side, INITIAL_SEED};
use dot4gravity::game::{Game, GameState, LastMove, PowerLevel};
use dot4gravity::turn_based::{Finished, Turn, TurnBasedGame, BoardGame};
use sp_core::H256;

const THE_NUMBER: Guess = 42;
const MAX_PLAYERS: usize = 2;
const PLAYER_1: u32 = 1;
const PLAYER_2: u32 = 2;

type Guess = u32;
type Account = u32;

struct MockGame;

#[derive(Copy, Clone)]
struct MockGameState {
    pub players: [Account; MAX_PLAYERS],
    pub next_player: u8,
    pub solution: Guess,
    pub winner: Option<Account>,
}

impl TurnBasedGame for MockGame {
    type Turn = Guess;
    type Player = Account;
    type State = MockGameState;

    fn init(players: &[Self::Player], _seed: Option<u32>) -> Option<Self::State> {
        match players.to_vec().try_into() {
            Ok(players) => Some(MockGameState {
                players,
                next_player: 0,
                solution: THE_NUMBER,
                winner: None,
            }),
            _ => None,
        }
    }

    fn get_last_player(state: &Self::State) -> Self::Player {
        let next_player_index = (state.next_player as usize + 1) % state.players.len();
        state.players[next_player_index]
    }

    fn get_next_player(state: &Self::State) -> Self::Player {
        state.players[state.next_player as usize]
    }

    fn play_turn(
        player: Self::Player,
        state: Self::State,
        turn: Self::Turn,
    ) -> Option<Self::State> {
        if state.winner.is_some()
            || !state.players.contains(&player)
            || state.players[state.next_player as usize] != player
        {
            return None;
        }

        let mut state = state;
        state.next_player = (state.next_player + 1) % state.players.len() as u8;

        if state.solution == turn {
            state.winner = Some(player);
        }

        Some(state)
    }

    fn abort(state: Self::State, winner: Self::Player) -> Self::State {
        let mut state = state;
        state.winner = Some(winner);
        state
    }

    fn is_finished(state: &Self::State) -> Finished<Self::Player> {
        let winner = &state.winner;
        match winner {
            None => Finished::No,
            Some(winner) => Finished::Winner(*winner),
        }
    }

    fn seed(_state: &Self::State) -> Option<u32> {
        None
    }
}

#[test]
fn guessing_works() {
    let state = MockGame::init(&[PLAYER_1, PLAYER_2], None).unwrap();
    assert_eq!(MockGame::get_next_player(&state), PLAYER_1);

    let state = MockGame::play_turn(PLAYER_1, state, 1).unwrap();
    assert_eq!(MockGame::get_last_player(&state), PLAYER_1);
    assert_eq!(MockGame::get_next_player(&state), PLAYER_2);

    let state = MockGame::play_turn(PLAYER_2, state, THE_NUMBER).unwrap();
    assert_eq!(MockGame::is_finished(&state), Finished::Winner(PLAYER_2));

    // new game
    let state = MockGame::init(&[PLAYER_1, PLAYER_2], None).unwrap();
    let state = MockGame::abort(state, PLAYER_1);
    assert_eq!(MockGame::is_finished(&state), Finished::Winner(PLAYER_1));
}

const ALICE: u32 = 11;
const BOB: u32 = 22;

type Dot4Gravity = Game<u32>;

fn salt(value: u64) -> [u8; 32] {
    H256::from_low_u64_be(value).0
}

#[test]
fn init_needs_exactly_two_players() {
    assert!(Dot4Gravity::init(&[ALICE], None).is_none());
    assert!(Dot4Gravity::init(&[ALICE, BOB, 33], None).is_none());
    let state = Dot4Gravity::init(&[ALICE, BOB], Some(INITIAL_SEED)).unwrap();
    assert_eq!(state, Game::new_game(ALICE, BOB, Some(INITIAL_SEED)));
    assert_eq!(Dot4Gravity::seed(&state), Some(46_384));
    assert_eq!(Dot4Gravity::get_next_player(&state), ALICE);
    assert_eq!(Dot4Gravity::get_last_player(&state), ALICE);
    assert_eq!(Dot4Gravity::is_finished(&state), Finished::No);
}

#[test]
fn play_turn_routes_moves_and_hides_the_reason_of_a_refusal() {
    let mut state = Dot4Gravity::init(&[ALICE, BOB], Some(INITIAL_SEED)).unwrap();
    state.board = dot4gravity::board::Board::new();
    assert!(Dot4Gravity::play_turn(BOB, state.clone(), Turn::DropStone((Side::North, 0))).is_none());

    let state = Dot4Gravity::play_turn(ALICE, state, Turn::DropStone((Side::North, 0))).unwrap();
    assert_eq!(state.board.get_cell(&Coordinates::new(9, 0)), Cell::Stone(0));
    assert_eq!(state.last_move, Some(LastMove::new(ALICE, Side::North, 0)));
    assert_eq!(Dot4Gravity::get_last_player(&state), ALICE);
    assert_eq!(Dot4Gravity::get_next_player(&state), BOB);

    let state =
        Dot4Gravity::play_turn(BOB, state, Turn::PlaceBomb(Coordinates::new(9, 0), salt(4 << 16)))
            .unwrap();
    assert_eq!(state.bombs_placed[1].len(), 1);
    let state = Dot4Gravity::play_turn(ALICE, state, Turn::DropStone((Side::East, 3))).unwrap();
    assert!(Dot4Gravity::play_turn(
        BOB,
        state.clone(),
        Turn::DetonateBomb(Coordinates::new(9, 0), salt(5 << 16), PowerLevel::One)
    )
    .is_none());
    let state = Dot4Gravity::play_turn(
        BOB,
        state,
        Turn::DetonateBomb(Coordinates::new(9, 0), salt(4 << 16), PowerLevel::One),
    )
    .unwrap();
    assert_eq!(state.board.get_cell(&Coordinates::new(9, 0)), Cell::Empty);
    assert_eq!(state.get_bomb_energy_for(&BOB), Some(4));
}

#[test]
fn play_turn_refuses_a_state_whose_player_to_move_is_unknown() {
    let mut state: GameState<u32> = Dot4Gravity::init(&[ALICE, BOB], None).unwrap();
    state.next_player = 33;
    assert!(Dot4Gravity::play_turn(33, state, Turn::DropStone((Side::North, 9))).is_none());
}

#[test]
fn abort_sets_the_winner_reported_by_is_finished() {
    let state = Dot4Gravity::init(&[ALICE, BOB], None).unwrap();
    let state = Dot4Gravity::abort(state, BOB);
    assert_eq!(Dot4Gravity::is_finished(&state), Finished::Winner(BOB));
    let state = Dot4Gravity::abort(state, ALICE);
    assert_eq!(Dot4Gravity::is_finished(&state), Finished::Winner(ALICE));
    assert!(Dot4Gravity::play_turn(ALICE, state, Turn::DropStone((Side::North, 9))).is_none());
}

#[test]
fn board_game_keeps_what_it_is_given() {
    let state = Dot4Gravity::init(&[ALICE, BOB], None).unwrap();
    let game = BoardGame::new(7u32, vec![ALICE, BOB], state.clone(), 100u64);
    assert_eq!(game.board_id, 7);
    assert_eq!(game.players, vec![ALICE, BOB]);
    assert_eq!(game.state, state);
    assert_eq!(game.started, 100);
}
