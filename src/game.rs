use vstd::prelude::*;
use crate::board::{
    block_layout, holds_cell, lemma_obstruction, on_board, place_blocks, Board, Cell, Coordinates,
    PlayerIndex, Position, Seed, Side, BOARD_HEIGHT, BOARD_WIDTH, INITIAL_SEED, MAX_DRAWS,
    NUM_OF_BLOCKS,
};
use crate::commitment::{commitment, hash_coordinates, HashSalt, HashedCoordinates};
use crate::pending::{
    bomb_count, commitments_of, holds_bomb, holds_digest, lemma_holds_digest, no_bombs,
    remove_bomb, try_push_bomb, PendingBombs, BOMB_AMOUNT_PER_PLAYER,
};
use core::marker::PhantomData;

verus! {

pub const NUM_OF_PLAYERS: usize = 2;
pub const BOMB_ENERGY_PER_PLAYER: u8 = 5;

pub type BombEnergy = u8;

/// A handle that tells the players of a game apart.
pub trait PlayerId: Copy {
    fn same_player(&self, other: &Self) -> (r: bool)
        ensures
            r == (*self == *other),
    ;
}

impl PlayerId for u8 {
    fn same_player(&self, other: &u8) -> (r: bool) {
        *self == *other
    }
}

impl PlayerId for u16 {
    fn same_player(&self, other: &u16) -> (r: bool) {
        *self == *other
    }
}

impl PlayerId for u32 {
    fn same_player(&self, other: &u32) -> (r: bool) {
        *self == *other
    }
}

impl PlayerId for u64 {
    fn same_player(&self, other: &u64) -> (r: bool) {
        *self == *other
    }
}

impl PlayerId for u128 {
    fn same_player(&self, other: &u128) -> (r: bool) {
        *self == *other
    }
}

#[derive(Clone, Copy, Debug, PartialEq, Eq, Structural)]
pub enum GameError {
    /// The player has no more bombs to drop.
    NoMoreBombsAvailable,
    /// The player has not enough bomb energy for the requested power level.
    InsufficientBombEnergy,
    /// No pending bomb of the player matches the given coordinates and salt, or one already does.
    InvalidBombCoordinates,
    /// Tried to drop a stone in an invalid cell. The cell is already taken.
    InvalidStonePosition,
    /// Tried to drop a stone during other player's turn
    NotPlayerTurn,
    /// The cell has no previous position. It is an edge cell.
    NoPreviousPosition,
    /// Tried playing when game has finished.
    GameAlreadyFinished,
}

/// The last stone dropped: by whom, from which side and at which position.
#[derive(Clone, Copy, Debug, PartialEq, Eq)]
pub struct LastMove<Player> {
    pub player: Player,
    pub side: Side,
    pub position: Position,
}

impl<Player> LastMove<Player> {
    pub fn new(player: Player, side: Side, position: Position) -> (r: Self)
        ensures
            r == (LastMove { player, side, position }),
    {
        Self { player, side, position }
    }
}

#[derive(Clone, Debug, PartialEq, Eq)]
pub struct GameState<Player> {
    /// Represents random seed.
    pub seed: Seed,
    /// Represents the game board.
    pub board: Board,
    /// When present, it contains the player that won.
    pub winner: Option<Player>,
    /// Next player turn.
    pub next_player: Player,
    /// Players:
    pub players: [Player; NUM_OF_PLAYERS],
    /// Amount of bomb energy available per player.
    pub bomb_energy: [(Player, BombEnergy); NUM_OF_PLAYERS],
    /// Commitments of the bombs each player has placed and not yet detonated.
    pub bombs_placed: [PendingBombs; NUM_OF_PLAYERS],
    /// Represents the last move.
    pub last_move: Option<LastMove<Player>>,
}

impl<Player> GameState<Player> {
    /// The player whose turn it is is one of the two players, and two entries of the energy
    /// table that name the same player agree.
    pub open spec fn is_valid(self) -> bool {
        &&& (self.next_player == self.players[0] || self.next_player == self.players[1])
        &&& (self.bomb_energy[0].0 == self.bomb_energy[1].0 ==> self.bomb_energy[0].1
            == self.bomb_energy[1].1)
    }

    pub open spec fn has_player(self, player: Player) -> bool {
        self.players[0] == player || self.players[1] == player
    }

    /// Index of `player` in the list of players: the first place that holds it.
    pub open spec fn index_of(self, player: Player) -> int {
        if self.players[0] == player {
            0
        } else {
            1
        }
    }

    /// The player whose turn comes after the current one.
    pub open spec fn follower(self) -> Player {
        if self.players[0] == self.next_player {
            self.players[1]
        } else {
            self.players[0]
        }
    }

    /// The energy recorded for `player` in the first entry that names it.
    pub open spec fn energy_entry(self, player: Player) -> Option<BombEnergy> {
        if self.bomb_energy[0].0 == player {
            Some(self.bomb_energy[0].1)
        } else if self.bomb_energy[1].0 == player {
            Some(self.bomb_energy[1].1)
        } else {
            None
        }
    }

    /// The energy available to `player`, zero for a stranger.
    pub open spec fn energy_of(self, player: Player) -> BombEnergy {
        match self.energy_entry(player) {
            Some(energy) => energy,
            None => 0,
        }
    }

    /// Entry `i` of the energy table once `amount` has been taken from `player`.
    pub open spec fn energy_after(self, i: int, player: Player, amount: BombEnergy) -> (
        Player,
        BombEnergy,
    ) {
        if self.bomb_energy[i].0 == player {
            (player, (self.bomb_energy[i].1 - amount) as BombEnergy)
        } else {
            self.bomb_energy[i]
        }
    }

    /// The state once `player` has spent `amount` energy: every entry that names the player
    /// loses that amount, and nothing else changes.
    pub open spec fn spent(self, other: Self, player: Player, amount: BombEnergy) -> bool {
        &&& other.bomb_energy[0] == self.energy_after(0, player, amount)
        &&& other.bomb_energy[1] == self.energy_after(1, player, amount)
        &&& other == (GameState { bomb_energy: other.bomb_energy, ..self })
    }
    /// `player` is one of the players and has a pending bomb whose commitment is `digest`.
    pub open spec fn holds_commitment(self, player: Player, digest: Seq<u8>) -> bool {
        self.has_player(player) && holds_digest(self.bombs_placed[self.index_of(player)], digest)
    }

    /// This is the state of a game that `player1` and `player2` have just begun with `seed`:
    /// the blocks and seed that the generator gives, no winner, `player1` to move, full
    /// energy, no bombs and no stone dropped yet.
    pub open spec fn is_new_game(self, player1: Player, player2: Player, seed: Option<Seed>) -> bool {
        let (blocks, next_seed) = block_layout(
            match seed {
                Some(seed) => seed,
                None => INITIAL_SEED,
            },
        );
        &&& self.seed == next_seed
        &&& self.board.has_blocks(blocks)
        &&& self.winner is None
        &&& self.next_player == player1
        &&& self.players[0] == player1
        &&& self.players[1] == player2
        &&& self.bomb_energy[0] == (player1, BOMB_ENERGY_PER_PLAYER)
        &&& self.bomb_energy[1] == (player2, BOMB_ENERGY_PER_PLAYER)
        &&& commitments_of(self.bombs_placed[0]).len() == 0
        &&& commitments_of(self.bombs_placed[1]).len() == 0
        &&& self.last_move is None
    }

    /// Why `player` may not place a bomb at `coordinates` hidden with `salt`, if it may not:
    /// the checks in the order they are made.
    pub open spec fn placement_error(
        self,
        player: Player,
        coordinates: Coordinates,
        salt: HashSalt,
    ) -> Option<GameError> {
        if self.winner is Some {
            Some(GameError::GameAlreadyFinished)
        } else if self.next_player != player {
            Some(GameError::NotPlayerTurn)
        } else if commitments_of(self.bombs_placed[self.index_of(player)]).len()
            >= BOMB_AMOUNT_PER_PLAYER {
            Some(GameError::NoMoreBombsAvailable)
        } else if self.holds_commitment(player, commitment(coordinates, salt)) {
            Some(GameError::InvalidBombCoordinates)
        } else {
            None
        }
    }

    /// `after` is this state once `player` has placed a bomb at `coordinates` hidden with
    /// `salt`: the commitment joins the end of the player's pending bombs and the turn passes.
    pub open spec fn placed(
        self,
        after: Self,
        player: Player,
        coordinates: Coordinates,
        salt: HashSalt,
    ) -> bool {
        let i = self.index_of(player);
        let before = commitments_of(self.bombs_placed[i]);
        let now = commitments_of(after.bombs_placed[i]);
        &&& now.len() == before.len() + 1
        &&& now.drop_last() == before
        &&& now.last()@ == commitment(coordinates, salt)
        &&& after.bombs_placed[1 - i] == self.bombs_placed[1 - i]
        &&& after == (GameState {
            bombs_placed: after.bombs_placed,
            next_player: self.follower(),
            ..self
        })
    }

    /// Why `player` may not detonate the bomb at `coordinates` hidden with `salt` at `level`,
    /// if it may not: the checks in the order they are made.
    pub open spec fn detonation_error(
        self,
        player: Player,
        coordinates: Coordinates,
        salt: HashSalt,
        level: PowerLevel,
    ) -> Option<GameError> {
        if !self.holds_commitment(player, commitment(coordinates, salt)) {
            Some(GameError::InvalidBombCoordinates)
        } else if self.winner is Some {
            Some(GameError::GameAlreadyFinished)
        } else if self.next_player != player {
            Some(GameError::NotPlayerTurn)
        } else if self.energy_of(player) < level.units() {
            Some(GameError::InsufficientBombEnergy)
        } else {
            None
        }
    }

    /// `after` is this state once `player` has detonated the bomb at `coordinates` hidden
    /// with `salt` at `level`: the blast has cleared the stones it reaches, the player has
    /// spent the level's energy, the bomb's commitment has left the player's pending bombs,
    /// and the turn passes.
    pub open spec fn detonated(
        self,
        after: Self,
        player: Player,
        coordinates: Coordinates,
        salt: HashSalt,
        level: PowerLevel,
    ) -> bool {
        let i = self.index_of(player);
        &&& level.blasts(self.board, after.board, coordinates)
        &&& after.bomb_energy[0] == self.energy_after(0, player, level.units())
        &&& after.bomb_energy[1] == self.energy_after(1, player, level.units())
        &&& commitments_of(after.bombs_placed[i]) == commitments_of(self.bombs_placed[i]).filter(
            |h: HashedCoordinates| h@ != commitment(coordinates, salt),
        )
        &&& after.bombs_placed[1 - i] == self.bombs_placed[1 - i]
        &&& after == (GameState {
            board: after.board,
            bomb_energy: after.bomb_energy,
            bombs_placed: after.bombs_placed,
            next_player: self.follower(),
            ..self
        })
    }
    /// Why `player` may not drop a stone from `side` at `position`, if it may not: the checks
    /// in the order they are made.
    pub open spec fn drop_error(self, player: Player, side: Side, position: Position) -> Option<
        GameError,
    > {
        if self.winner is Some {
            Some(GameError::GameAlreadyFinished)
        } else if self.next_player != player {
            Some(GameError::NotPlayerTurn)
        } else if !(position < BOARD_WIDTH && self.board.on_path(side, position as int, 0)
            == Cell::Empty) {
            Some(GameError::InvalidStonePosition)
        } else {
            None
        }
    }

    /// This state once `player` has dropped a stone from `side` at `position`: the stone
    /// rests where its slide ends, the move is recorded, the turn passes and the board is
    /// checked for a winner.
    pub open spec fn dropped(self, player: Player, side: Side, position: Position) -> Self {
        let rest = side.path(position as int, self.board.landing_step(side, position as int));
        GameState {
            board: self.board.with_cell(rest.0, rest.1, Cell::Stone(self.index_of(player) as PlayerIndex)),
            last_move: Some(LastMove { player, side, position }),
            next_player: self.follower(),
            ..self
        }.with_winner_checked()
    }

    /// This state with the winner that the board shows, unless a winner is already set.
    pub open spec fn with_winner_checked(self) -> Self {
        if self.winner is Some {
            self
        } else {
            match first_winner(self.board) {
                Some(index) => GameState { winner: Some(self.players[index as int]), ..self },
                None => self,
            }
        }
    }
}

/// Number of 2x2 windows on the board: nine rows of nine.
pub const WINDOWS: u8 = 81;

/// Number of squares that win the game.
pub const SQUARES_TO_WIN: u8 = 3;

/// The player whose stones fill the `k`-th 2x2 window in row-major order, if one does.
pub open spec fn window_owner(board: Board, k: int) -> Option<PlayerIndex> {
    let row = k / (BOARD_WIDTH - 1) as int;
    let col = k % (BOARD_WIDTH - 1) as int;
    match board.cell(row, col) {
        Cell::Stone(index) => if index < NUM_OF_PLAYERS && board.cell(row, col + 1) == Cell::Stone(
            index,
        ) && board.cell(row + 1, col) == Cell::Stone(index) && board.cell(row + 1, col + 1)
            == Cell::Stone(index) {
            Some(index)
        } else {
            None
        },
        _ => None,
    }
}

/// Number of the first `k` windows, in row-major order, that the stones of `index` fill.
pub open spec fn squares_before(board: Board, index: PlayerIndex, k: int) -> int
    decreases k,
{
    if k <= 0 {
        0
    } else {
        squares_before(board, index, k - 1) + if window_owner(board, k - 1) == Some(index) {
            1int
        } else {
            0int
        }
    }
}

/// Scanning the windows in row-major order from the `k`-th, the player whose count of
/// filled windows first reaches `SQUARES_TO_WIN`, if one does.
pub open spec fn winner_from(board: Board, k: int) -> Option<PlayerIndex>
    decreases WINDOWS - k,
{
    if k < 0 || k >= WINDOWS {
        None
    } else {
        match window_owner(board, k) {
            Some(index) => if squares_before(board, index, k + 1) >= SQUARES_TO_WIN {
                Some(index)
            } else {
                winner_from(board, k + 1)
            },
            None => winner_from(board, k + 1),
        }
    }
}

/// The index of the player that the board shows as winner, if any.
pub open spec fn first_winner(board: Board) -> Option<PlayerIndex> {
    winner_from(board, 0)
}

impl<Player: PlayerId> GameState<Player> {
    pub fn is_player_in_game(&self, player: &Player) -> (r: bool)
        ensures
            r == (self.bomb_energy[0].0 == *player || self.bomb_energy[1].0 == *player),
    {
        self.bomb_energy[0].0.same_player(player) || self.bomb_energy[1].0.same_player(player)
    }

    pub fn get_bomb_energy_for(&self, player: &Player) -> (r: Option<u8>)
        ensures
            r == self.energy_entry(*player),
    {
        if self.bomb_energy[0].0.same_player(player) {
            Some(self.bomb_energy[0].1)
        } else if self.bomb_energy[1].0.same_player(player) {
            Some(self.bomb_energy[1].1)
        } else {
            None
        }
    }

    pub fn decrease_bomb_energy_for(&mut self, player: &Player, amount: BombEnergy)
        requires
            old(self).bomb_energy[0].0 == *player ==> old(self).bomb_energy[0].1 >= amount,
            old(self).bomb_energy[1].0 == *player ==> old(self).bomb_energy[1].1 >= amount,
        ensures
            old(self).spent(*final(self), *player, amount),
    {
        let (p0, e0) = self.bomb_energy[0];
        if p0.same_player(player) {
            self.bomb_energy[0] = (p0, e0 - amount);
        }
        let (p1, e1) = self.bomb_energy[1];
        if p1.same_player(player) {
            self.bomb_energy[1] = (p1, e1 - amount);
        }
    }

    pub fn is_player_turn(&self, player: &Player) -> (r: bool)
        ensures
            r == (self.next_player == *player),
    {
        self.next_player.same_player(player)
    }

    pub fn player_index(&self, player: &Player) -> (r: PlayerIndex)
        requires
            self.has_player(*player),
        ensures
            r == self.index_of(*player),
    {
        if self.players[0].same_player(player) {
            0
        } else {
            1
        }
    }

    /// The player whose turn comes after the current one.
    fn next_player(&self) -> (r: Player)
        requires
            self.is_valid(),
        ensures
            r == self.follower(),
    {
        let current_player_index = self.player_index(&self.next_player) as usize;
        self.players[(current_player_index + 1) % NUM_OF_PLAYERS]
    }
}

/// Bomb power radius levels.
#[derive(Clone, Copy, Debug, PartialEq, Eq, Structural)]
pub enum PowerLevel {
    One,
    Two,
    Three,
}

impl PowerLevel {
    /// Energy that a detonation at this level takes.
    pub open spec fn units(self) -> BombEnergy {
        match self {
            PowerLevel::One => 1,
            PowerLevel::Two => 2,
            PowerLevel::Three => 3,
        }
    }

    /// A detonation at `epicenter` reaches the cell at `row`, `col`: the epicenter alone at
    /// level one, also its four orthogonal neighbours at level two, and also its four
    /// diagonal neighbours at level three.
    pub open spec fn reaches(self, epicenter: Coordinates, row: int, col: int) -> bool {
        let dr = row - epicenter.row;
        let dc = col - epicenter.col;
        match self {
            PowerLevel::One => dr == 0 && dc == 0,
            PowerLevel::Two => (dr == 0 && -1 <= dc <= 1) || (dc == 0 && -1 <= dr <= 1),
            PowerLevel::Three => -1 <= dr <= 1 && -1 <= dc <= 1,
        }
    }

    /// `after` is `before` once a detonation at this level has hit `epicenter`: every stone
    /// that it reaches is gone, and every other cell, blocks included, is as it was.
    pub open spec fn blasts(self, before: Board, after: Board, epicenter: Coordinates) -> bool {
        forall|row: int, col: int|
            on_board(row, col) ==> #[trigger] after.cell(row, col) == if self.reaches(
                epicenter,
                row,
                col,
            ) && before.cell(row, col) is Stone {
                Cell::Empty
            } else {
                before.cell(row, col)
            }
    }

    pub fn can_use_level(&self, energy: BombEnergy) -> (r: bool)
        ensures
            r == (energy >= self.units()),
    {
        match self {
            PowerLevel::One => energy >= 1,
            PowerLevel::Two => energy >= 2,
            PowerLevel::Three => energy >= 3,
        }
    }

    pub fn explode<Player>(&self, game_state: &mut GameState<Player>, epicenter: &Coordinates)
        ensures
            self.blasts(old(game_state).board, final(game_state).board, *epicenter),
            *final(game_state) == (GameState { board: final(game_state).board, ..*old(game_state) }),
    {
        // Level 1 explosion always triggers
        Self::detonate_cell(game_state, epicenter);
        let center_row = epicenter.row;
        let center_col = epicenter.col;
        if *self == PowerLevel::Two || *self == PowerLevel::Three {
            // Level 2 explosion; a neighbour beyond the range of coordinates is off the board
            if center_row < u8::MAX {
                Self::detonate_cell(game_state, &Coordinates::new(center_row + 1, center_col));
            }
            if center_col < u8::MAX {
                Self::detonate_cell(game_state, &Coordinates::new(center_row, center_col + 1));
            }
            if center_row > 0 {
                Self::detonate_cell(game_state, &Coordinates::new(center_row - 1, center_col));
            }
            if center_col > 0 {
                Self::detonate_cell(game_state, &Coordinates::new(center_row, center_col - 1));
            }
            if *self == PowerLevel::Three {
                // Level 3 explosion
                if center_row < u8::MAX && center_col < u8::MAX {
                    Self::detonate_cell(
                        game_state,
                        &Coordinates::new(center_row + 1, center_col + 1),
                    );
                }
                if center_row < u8::MAX && center_col > 0 {
                    Self::detonate_cell(
                        game_state,
                        &Coordinates::new(center_row + 1, center_col - 1),
                    );
                }
                if center_row > 0 && center_col < u8::MAX {
                    Self::detonate_cell(
                        game_state,
                        &Coordinates::new(center_row - 1, center_col + 1),
                    );
                }
                if center_row > 0 && center_col > 0 {
                    Self::detonate_cell(
                        game_state,
                        &Coordinates::new(center_row - 1, center_col - 1),
                    );
                }
            }
        }
    }

    pub fn decrease_bomb_energy<Player: PlayerId>(
        &self,
        game_state: &mut GameState<Player>,
        player: &Player,
    )
        requires
            old(game_state).bomb_energy[0].0 == *player ==> old(game_state).bomb_energy[0].1
                >= self.units(),
            old(game_state).bomb_energy[1].0 == *player ==> old(game_state).bomb_energy[1].1
                >= self.units(),
        ensures
            old(game_state).spent(*final(game_state), *player, self.units()),
    {
        let energy_decrease = match self {
            PowerLevel::One => 1,
            PowerLevel::Two => 2,
            PowerLevel::Three => 3,
        };
        game_state.decrease_bomb_energy_for(player, energy_decrease);
    }

    /// Clears the cell at `position` if it is on the board and holds a stone.
    fn detonate_cell<Player>(game_state: &mut GameState<Player>, position: &Coordinates)
        ensures
            forall|row: int, col: int|
                on_board(row, col) ==> #[trigger] final(game_state).board.cell(row, col) == if row
                    == position.row && col == position.col && old(game_state).board.cell(
                    row,
                    col,
                ) is Stone {
                    Cell::Empty
                } else {
                    old(game_state).board.cell(row, col)
                },
            *final(game_state) == (GameState { board: final(game_state).board, ..*old(game_state) }),
    {
        if position.is_inside_board() {
            if matches!(game_state.board.get_cell(position), Cell::Stone(_)) {
                game_state.board.update_cell(position, Cell::Empty);
            }
        }
    }
}

pub struct Game<Player>(PhantomData<Player>);

impl<Player: PlayerId> GameState<Player> {
    /// `player` is one of the players and has a pending bomb with commitment `hash`.
    fn has_bomb(&self, player: &Player, hash: &HashedCoordinates) -> (r: bool)
        ensures
            r == self.holds_commitment(*player, hash@),
    {
        proof {
            lemma_holds_digest(self.bombs_placed[0], *hash);
            lemma_holds_digest(self.bombs_placed[1], *hash);
        }
        if self.players[0].same_player(player) {
            holds_bomb(&self.bombs_placed[0], hash)
        } else if self.players[1].same_player(player) {
            holds_bomb(&self.bombs_placed[1], hash)
        } else {
            false
        }
    }
}

/// `blocks` holds `coordinates`.
fn holds_coordinates(blocks: &Vec<Coordinates>, coordinates: &Coordinates) -> (r: bool)
    ensures
        r == blocks@.contains(*coordinates),
{
    let mut i: usize = 0;
    while i < blocks.len()
        invariant
            i <= blocks@.len(),
            forall|j: int| 0 <= j < i ==> blocks@[j] != *coordinates,
        decreases blocks@.len() - i,
    {
        if blocks[i] == *coordinates {
            return true;
        }
        i = i + 1;
    }
    false
}

impl<Player: PlayerId> Game<Player> {
    fn can_place_bomb(game_state: &GameState<Player>, player: &Player) -> (r: Result<
        (),
        GameError,
    >)
        requires
            game_state.is_valid(),
        ensures
            r == (if game_state.winner is Some {
                Err(GameError::GameAlreadyFinished)
            } else if game_state.next_player != *player {
                Err(GameError::NotPlayerTurn)
            } else if commitments_of(game_state.bombs_placed[game_state.index_of(*player)]).len()
                >= BOMB_AMOUNT_PER_PLAYER {
                Err(GameError::NoMoreBombsAvailable)
            } else {
                Ok(())
            }),
    {
        if game_state.winner.is_some() {
            return Err(GameError::GameAlreadyFinished);
        }
        if !game_state.is_player_turn(player) {
            return Err(GameError::NotPlayerTurn);
        }
        let player_index = game_state.player_index(player);
        if bomb_count(&game_state.bombs_placed[player_index as usize]) >= BOMB_AMOUNT_PER_PLAYER {
            return Err(GameError::NoMoreBombsAvailable);
        }
        Ok(())
    }

    fn can_detonate_bomb(
        game_state: &GameState<Player>,
        player: &Player,
        power_level: &PowerLevel,
    ) -> (r: Result<(), GameError>)
        ensures
            r == (if game_state.winner is Some {
                Err(GameError::GameAlreadyFinished)
            } else if game_state.next_player != *player {
                Err(GameError::NotPlayerTurn)
            } else if game_state.energy_of(*player) < power_level.units() {
                Err(GameError::InsufficientBombEnergy)
            } else {
                Ok(())
            }),
    {
        if game_state.winner.is_some() {
            return Err(GameError::GameAlreadyFinished);
        }
        if !game_state.is_player_turn(player) {
            return Err(GameError::NotPlayerTurn);
        }
        let energy = match game_state.get_bomb_energy_for(player) {
            Some(energy) => energy,
            None => 0,
        };
        if !power_level.can_use_level(energy) {
            return Err(GameError::InsufficientBombEnergy);
        }
        Ok(())
    }

    /// Create a new game.
    pub fn new_game(player1: Player, player2: Player, seed: Option<Seed>) -> (r: GameState<
        Player,
    >)
        ensures
            r.is_new_game(player1, player2, seed),
            r.is_valid(),
    {
        let mut board = Board::new();
        let mut blocks: Vec<Coordinates> = Vec::new();
        let mut remaining_blocks: u8 = NUM_OF_BLOCKS;
        let mut seed: Seed = match seed {
            Some(seed) => seed,
            None => INITIAL_SEED,
        };
        let ghost first_seed = seed;
        let mut draws: u32 = 0;
        while remaining_blocks > 0 && draws < MAX_DRAWS
            invariant
                draws <= MAX_DRAWS,
                blocks@.len() + remaining_blocks == NUM_OF_BLOCKS,
                place_blocks(first_seed, Seq::empty(), MAX_DRAWS as nat) == place_blocks(
                    seed,
                    blocks@,
                    (MAX_DRAWS - draws) as nat,
                ),
                board.has_blocks(blocks@),
            decreases MAX_DRAWS - draws,
        {
            let (block_coordinates, new_seed) = Coordinates::random(seed);
            seed = new_seed;
            draws = draws + 1;
            if !holds_coordinates(&blocks, &block_coordinates) {
                let ghost blocks_before = blocks@;
                blocks.push(block_coordinates);
                board.update_cell(&block_coordinates, Cell::Block);
                remaining_blocks = remaining_blocks - 1;
                assert forall|row: int, col: int| on_board(row, col) implies board.cell(row, col)
                    == if holds_cell(blocks@, row, col) {
                    Cell::Block
                } else {
                    Cell::Empty
                } by {
                    let last = blocks_before.len() as int;
                    assert(blocks@[last] == block_coordinates);
                    if holds_cell(blocks_before, row, col) {
                        let i = choose|i: int|
                            0 <= i < blocks_before.len() && blocks_before[i].row == row
                                && blocks_before[i].col == col;
                        assert(blocks@[i] == blocks_before[i]);
                    }
                    if holds_cell(blocks@, row, col) && !(row == block_coordinates.row && col
                        == block_coordinates.col) {
                        let i = choose|i: int|
                            0 <= i < blocks@.len() && blocks@[i].row == row && blocks@[i].col
                                == col;
                        assert(i != last);
                        assert(blocks_before[i] == blocks@[i]);
                    }
                }
            }
        }
        GameState {
            seed,
            board,
            winner: None,
            next_player: player1,
            players: [player1, player2],
            bomb_energy: [(player1, BOMB_ENERGY_PER_PLAYER), (player2, BOMB_ENERGY_PER_PLAYER)],
            bombs_placed: [no_bombs(), no_bombs()],
            last_move: None,
        }
    }

    fn can_drop_stone(
        game_state: &GameState<Player>,
        side: &Side,
        position: Position,
        player: &Player,
    ) -> (r: Result<(), GameError>)
        ensures
            r == (match game_state.drop_error(*player, *side, position) {
                Some(e) => Err(e),
                None => Ok(()),
            }),
    {
        if game_state.winner.is_some() {
            return Err(GameError::GameAlreadyFinished);
        }
        if !game_state.is_player_turn(player) {
            return Err(GameError::NotPlayerTurn);
        }
        if !game_state.board.is_stone_droppable(&side.bound_coordinates(position)) {
            return Err(GameError::InvalidStonePosition);
        }
        Ok(())
    }

    /// Drop stone. Called during play phase.
    pub fn drop_stone(
        game_state: GameState<Player>,
        player: Player,
        side: Side,
        position: Position,
    ) -> (r: Result<GameState<Player>, GameError>)
        requires
            game_state.is_valid(),
        ensures
            match r {
                Ok(after) => {
                    &&& game_state.drop_error(player, side, position) is None
                    &&& after == game_state.dropped(player, side, position)
                    &&& after.is_valid()
                },
                Err(e) => game_state.drop_error(player, side, position) == Some(e),
            },
    {
        let mut game_state = game_state;
        match Self::can_drop_stone(&game_state, &side, position, &player) {
            Ok(()) => {},
            Err(e) => {
                return Err(e);
            },
        }
        let player_index = game_state.player_index(&player);
        // The stone slides from the wall while the next cell on its path is empty.
        let mut step: u8 = 0;
        loop
            invariant
                step < BOARD_HEIGHT,
                position < BOARD_WIDTH,
                forall|j: int|
                    0 <= j <= step ==> #[trigger] game_state.board.on_path(side, position as int, j)
                        == Cell::Empty,
            ensures
                step < BOARD_HEIGHT,
                forall|j: int|
                    0 <= j <= step ==> #[trigger] game_state.board.on_path(side, position as int, j)
                        == Cell::Empty,
                step == BOARD_HEIGHT - 1 || game_state.board.on_path(
                    side,
                    position as int,
                    step + 1,
                ) != Cell::Empty,
            decreases BOARD_HEIGHT - step,
        {
            let here = side.path_coordinates(position, step);
            if here.is_opposite_cell(side) {
                break ;
            }
            let next = side.path_coordinates(position, step + 1);
            if !game_state.board.get_cell(&next).is_stone_droppable() {
                break ;
            }
            step = step + 1;
        }
        proof {
            lemma_obstruction(game_state.board, side, position as int, 0, step as int);
        }
        let rest = side.path_coordinates(position, step);
        game_state.board.update_cell(&rest, Cell::Stone(player_index));
        game_state.last_move = Some(LastMove::new(player, side, position));
        game_state.next_player = game_state.next_player();
        game_state = Self::check_winner_player(game_state);
        Ok(game_state)
    }

    /// Sets the winner that the board shows, unless a winner is already set.
    pub fn check_winner_player(game_state: GameState<Player>) -> (r: GameState<Player>)
        ensures
            r == game_state.with_winner_checked(),
    {
        let mut state = game_state;
        if state.winner.is_some() {
            return state;
        }
        let mut squares: [u8; NUM_OF_PLAYERS] = [0, 0];
        let mut window: u8 = 0;
        while window < WINDOWS
            invariant
                window <= WINDOWS,
                state == game_state,
                game_state.winner is None,
                forall|i: int|
                    0 <= i < NUM_OF_PLAYERS ==> squares[i] == squares_before(
                        game_state.board,
                        i as PlayerIndex,
                        window as int,
                    ) && squares[i] < SQUARES_TO_WIN,
                first_winner(game_state.board) == winner_from(game_state.board, window as int),
            decreases WINDOWS - window,
        {
            let board = &state.board;
            let row = window / (BOARD_WIDTH - 1);
            let col = window % (BOARD_WIDTH - 1);
            assert(row < BOARD_HEIGHT - 1 && col < BOARD_WIDTH - 1) by (nonlinear_arith)
                requires
                    window < 81,
                    row == window / 9,
                    col == window % 9,
            ;
            let cell = board.get_cell(&Coordinates::new(row, col));
            if let Cell::Stone(player_index) = cell {
                if (player_index as usize) < NUM_OF_PLAYERS && cell == board.get_cell(
                    &Coordinates::new(row, col + 1),
                ) && cell == board.get_cell(&Coordinates::new(row + 1, col)) && cell
                    == board.get_cell(&Coordinates::new(row + 1, col + 1)) {
                    let index = player_index as usize;
                    squares[index] = squares[index] + 1;
                    if squares[index] >= SQUARES_TO_WIN {
                        state.winner = Some(state.players[index]);
                        return state;
                    }
                }
            }
            window = window + 1;
        }
        state
    }

    pub fn place_bomb(
        game_state: GameState<Player>,
        player: Player,
        coordinates: Coordinates,
        salt: HashSalt,
    ) -> (r: Result<GameState<Player>, GameError>)
        requires
            game_state.is_valid(),
        ensures
            match r {
                Ok(after) => {
                    &&& game_state.placement_error(player, coordinates, salt) is None
                    &&& game_state.placed(after, player, coordinates, salt)
                    &&& after.is_valid()
                },
                Err(e) => game_state.placement_error(player, coordinates, salt) == Some(e),
            },
    {
        let mut game_state = game_state;
        match Self::can_place_bomb(&game_state, &player) {
            Ok(()) => {},
            Err(e) => {
                return Err(e);
            },
        }
        let player_index = game_state.player_index(&player) as usize;
        let coordinate_hash = hash_coordinates(coordinates, salt);
        if game_state.has_bomb(&player, &coordinate_hash) {
            return Err(GameError::InvalidBombCoordinates);
        }
        let ghost before = game_state;
        match try_push_bomb(&mut game_state.bombs_placed[player_index], coordinate_hash) {
            Ok(()) => {},
            Err(_) => {
                return Err(GameError::NoMoreBombsAvailable);
            },
        }
        proof {
            let i = player_index as int;
            assert(commitments_of(game_state.bombs_placed[i]).drop_last() =~= commitments_of(before.bombs_placed[i]));
            assert(game_state.bombs_placed[1 - i] == before.bombs_placed[1 - i]);
            assert(game_state == (GameState { bombs_placed: game_state.bombs_placed, ..before }));
        }
        game_state.next_player = game_state.next_player();
        Ok(game_state)
    }

    pub fn detonate_bomb(
        game_state: GameState<Player>,
        player: Player,
        coordinates: Coordinates,
        salt: HashSalt,
        power_level: PowerLevel,
    ) -> (r: Result<GameState<Player>, GameError>)
        requires
            game_state.is_valid(),
        ensures
            match r {
                Ok(after) => {
                    &&& game_state.detonation_error(player, coordinates, salt, power_level) is None
                    &&& game_state.detonated(after, player, coordinates, salt, power_level)
                    &&& after.is_valid()
                },
                Err(e) => game_state.detonation_error(player, coordinates, salt, power_level)
                    == Some(e),
            },
    {
        let mut game_state = game_state;
        let coordinate_hash = hash_coordinates(coordinates, salt);
        if !game_state.has_bomb(&player, &coordinate_hash) {
            return Err(GameError::InvalidBombCoordinates);
        }
        match Self::can_detonate_bomb(&game_state, &player, &power_level) {
            Ok(()) => {},
            Err(e) => {
                return Err(e);
            },
        }
        let player_index = game_state.player_index(&player) as usize;
        power_level.explode(&mut game_state, &coordinates);
        power_level.decrease_bomb_energy(&mut game_state, &player);
        remove_bomb(&mut game_state.bombs_placed[player_index], &coordinate_hash);
        proof {
            assert((|h: HashedCoordinates| h@ != coordinate_hash@) =~= (|h: HashedCoordinates|
                h@ != commitment(coordinates, salt)));
        }
        game_state.next_player = game_state.next_player();
        Ok(game_state)
    }
}

} // verus!
