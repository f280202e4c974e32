use vstd::prelude::*;
use crate::board::{
    block_layout, draw, holds_cell, on_board, place_blocks, Board, Cell, Coordinates, Position,
    Seed, Side, INITIAL_SEED, MAX_DRAWS, NUM_OF_BLOCKS,
};
use crate::commitment::{commitment, HashSalt};
use crate::game::{GameError, GameState, PowerLevel};
use crate::turn_based::{aborted, finished, Finished};

verus! {

/// The cells of `board` that hold a block.
pub open spec fn block_cells(board: Board) -> Set<Coordinates> {
    Set::new(|c: Coordinates| c.is_inside() && board.cell_at(c) == Cell::Block)
}

/// Two games begun by the same players with the same seed have the same board, the same
/// seed, and the same everything else but their (empty) lists of pending bombs.
pub proof fn new_game_is_deterministic<Player>(
    a: GameState<Player>,
    b: GameState<Player>,
    player1: Player,
    player2: Player,
    seed: Option<Seed>,
)
    requires
        a.is_new_game(player1, player2, seed),
        b.is_new_game(player1, player2, seed),
    ensures
        a.board == b.board,
        a.seed == b.seed,
        a == (GameState { bombs_placed: a.bombs_placed, ..b }),
{
    assert forall|row: int| 0 <= row < 10 implies a.board.cells[row] =~= b.board.cells[row] by {
        assert forall|col: int| 0 <= col < 10 implies a.board.cells[row][col]
            == b.board.cells[row][col] by {
            assert(on_board(row, col));
        }
    }
    assert(a.board.cells =~= b.board.cells);
    assert(a.players =~= b.players);
    assert(a.bomb_energy =~= b.bomb_energy);
}

/// Drawing blocks keeps them distinct, inside the rows and columns that the generator
/// reaches, and no more than `NUM_OF_BLOCKS`.
proof fn lemma_place_blocks(seed: Seed, placed: Seq<Coordinates>, draws: nat)
    requires
        placed.no_duplicates(),
        placed.len() <= NUM_OF_BLOCKS,
        forall|i: int| 0 <= i < placed.len() ==> (#[trigger] placed[i]).is_inside(),
    ensures
        place_blocks(seed, placed, draws).0.no_duplicates(),
        place_blocks(seed, placed, draws).0.len() <= NUM_OF_BLOCKS,
        forall|i: int|
            0 <= i < place_blocks(seed, placed, draws).0.len() ==> (#[trigger] place_blocks(
                seed,
                placed,
                draws,
            ).0[i]).is_inside(),
    decreases draws,
{
    if placed.len() < NUM_OF_BLOCKS && draws > 0 {
        let (cell, next) = draw(seed);
        if placed.contains(cell) {
            lemma_place_blocks(next, placed, (draws - 1) as nat);
        } else {
            let pushed = placed.push(cell);
            assert forall|i: int, j: int|
                0 <= i < pushed.len() && 0 <= j < pushed.len() && i != j implies pushed[i]
                != pushed[j] by {
                if i == placed.len() {
                    assert(pushed[j] == placed[j]);
                } else if j == placed.len() {
                    assert(pushed[i] == placed[i]);
                }
            }
            lemma_place_blocks(next, pushed, (draws - 1) as nat);
        }
    }
}

/// A new game whose seed comes up with `NUM_OF_BLOCKS` distinct cells before the draws run
/// out has exactly that many blocks. (A seed whose draws cycle first, such as 1023, leaves
/// fewer.)
pub proof fn new_game_has_all_blocks<Player>(
    state: GameState<Player>,
    player1: Player,
    player2: Player,
    seed: Option<Seed>,
)
    requires
        state.is_new_game(player1, player2, seed),
        block_layout(
            match seed {
                Some(seed) => seed,
                None => INITIAL_SEED,
            },
        ).0.len() == NUM_OF_BLOCKS,
    ensures
        block_cells(state.board).len() == NUM_OF_BLOCKS,
        block_cells(state.board).finite(),
{
    let start = match seed {
        Some(seed) => seed,
        None => INITIAL_SEED,
    };
    let blocks = block_layout(start).0;
    lemma_place_blocks(start, Seq::empty(), MAX_DRAWS as nat);
    assert forall|c: Coordinates| block_cells(state.board).contains(c) <==> blocks.to_set().contains(
        c,
    ) by {
        if block_cells(state.board).contains(c) {
            assert(on_board(c.row as int, c.col as int));
            let i = choose|i: int|
                0 <= i < blocks.len() && blocks[i].row == c.row && blocks[i].col == c.col;
            assert(blocks[i] == c);
        }
        if blocks.to_set().contains(c) {
            let i = choose|i: int| 0 <= i < blocks.len() && blocks[i] == c;
            assert(blocks[i].is_inside());
            assert(holds_cell(blocks, c.row as int, c.col as int));
            assert(on_board(c.row as int, c.col as int));
        }
    }
    assert(block_cells(state.board) =~= blocks.to_set());
    blocks.unique_seq_to_set();
}

/// While the game runs, every move of a player who is not to move is refused as out of
/// turn; a detonation, whose commitment is checked first, once that commitment matches.
pub proof fn moves_out_of_turn_are_refused<Player>(
    state: GameState<Player>,
    player: Player,
    side: Side,
    position: Position,
    coordinates: Coordinates,
    salt: HashSalt,
    level: PowerLevel,
)
    requires
        state.winner is None,
        state.next_player != player,
    ensures
        state.drop_error(player, side, position) == Some(GameError::NotPlayerTurn),
        state.placement_error(player, coordinates, salt) == Some(GameError::NotPlayerTurn),
        state.holds_commitment(player, commitment(coordinates, salt)) ==> state.detonation_error(
            player,
            coordinates,
            salt,
            level,
        ) == Some(GameError::NotPlayerTurn),
{
}

/// Once a game has a winner, no move is accepted: a drop or a placement is refused as the
/// game being over, and a detonation too, unless it already fails to match a commitment.
pub proof fn finished_game_refuses_moves<Player>(
    state: GameState<Player>,
    player: Player,
    side: Side,
    position: Position,
    coordinates: Coordinates,
    salt: HashSalt,
    level: PowerLevel,
)
    requires
        state.winner is Some,
    ensures
        state.drop_error(player, side, position) == Some(GameError::GameAlreadyFinished),
        state.placement_error(player, coordinates, salt) == Some(GameError::GameAlreadyFinished),
        state.detonation_error(player, coordinates, salt, level) is Some,
{
}

/// A winner forced by `abort` is the winner that `is_finished` reports, whatever the game
/// had come to.
pub proof fn abort_sets_the_winner<Player>(state: GameState<Player>, winner: Player)
    ensures
        finished(aborted(state, winner)) == Finished::Winner(winner),
{
}

} // verus!
