//! The data model shared by the engine and its callers.
use vstd::prelude::*;

verus! {

/// Maximum number of pieces on one stack.
pub const MAX_STACK_DEPTH: usize = 3;

/// Number of pieces each player may have on the board.
pub const PIECE_BUDGET: usize = 8;

/// Number of board locations.
pub const NUM_POSITIONS: usize = 8;

/// A board location, listed clockwise from north.
#[derive(Debug, Clone, Copy, PartialEq, Eq, Hash, Structural)]
pub enum Position {
    N,
    NE,
    E,
    SE,
    S,
    SW,
    W,
    NW,
}

#[derive(Debug, Clone, Copy, PartialEq, Eq, Structural)]
pub enum Player {
    Black,
    White,
}

/// The pieces at one location, bottom first.
#[derive(Debug, Clone)]
pub struct PieceStack {
    pub pieces: Vec<Player>,
}

#[derive(Debug, Clone, Copy, PartialEq, Eq, Structural)]
pub enum TurnPhase {
    /// The current player submits an ordinary action.
    WaitingForMove,
    /// The player who did not just move may declare second best, or play on.
    WaitingForSecondBest,
    /// After a declaration, the player whose action was taken back chooses again.
    WaitingForSecondMove,
}

/// A snapshot of one game. `board` holds one stack per location, in the
/// order of `Position::index`.
#[derive(Debug, Clone)]
pub struct GameState {
    pub board: Vec<PieceStack>,
    pub current_player: Player,
    pub turn_phase: TurnPhase,
    pub second_best_available: bool,
    pub winner: Option<Player>,
}

#[derive(Debug, Clone, Copy, PartialEq, Eq, Structural)]
pub enum MoveAction {
    Place { position: Position, player: Player },
    Move { from: Position, to: Position },
}

#[derive(Debug, Clone, Copy, PartialEq, Eq, Structural)]
pub enum GameOverReason {
    VerticalLineup,
    HorizontalLineup,
    NoMoves,
}

/// The opponent applied an ordinary action.
#[derive(Debug, Clone)]
pub struct AiMoveEvent {
    pub action: MoveAction,
    pub new_state: GameState,
}

/// The opponent declared second best.
#[derive(Debug, Clone)]
pub struct AiSecondBestEvent {
    pub new_state: GameState,
}

/// The opponent applied its replacement action after a declaration.
#[derive(Debug, Clone)]
pub struct AiSecondMoveEvent {
    pub action: MoveAction,
    pub new_state: GameState,
}

#[derive(Debug, Clone)]
pub struct GameOverEvent {
    pub winner: Option<Player>,
    pub reason: GameOverReason,
}

#[derive(Debug, Clone)]
pub struct TurnPhaseEvent {
    pub new_phase: TurnPhase,
    pub current_player: Player,
}

#[derive(Debug, Clone)]
pub struct AiErrorEvent {
    pub message: String,
}

impl Position {
    pub open spec fn spec_index(self) -> int {
        match self {
            Position::N => 0,
            Position::NE => 1,
            Position::E => 2,
            Position::SE => 3,
            Position::S => 4,
            Position::SW => 5,
            Position::W => 6,
            Position::NW => 7,
        }
    }

    /// The slot of this location in `GameState::board`.
    pub fn index(self) -> (r: usize)
        ensures
            r as int == self.spec_index(),
            r < NUM_POSITIONS,
    {
        match self {
            Position::N => 0,
            Position::NE => 1,
            Position::E => 2,
            Position::SE => 3,
            Position::S => 4,
            Position::SW => 5,
            Position::W => 6,
            Position::NW => 7,
        }
    }

    pub open spec fn spec_from_index(i: int) -> Position {
        if i == 0 {
            Position::N
        } else if i == 1 {
            Position::NE
        } else if i == 2 {
            Position::E
        } else if i == 3 {
            Position::SE
        } else if i == 4 {
            Position::S
        } else if i == 5 {
            Position::SW
        } else if i == 6 {
            Position::W
        } else {
            Position::NW
        }
    }

    /// The location stored at slot `i` of a board.
    pub fn from_index(i: usize) -> (r: Position)
        requires
            i < NUM_POSITIONS,
        ensures
            r == Position::spec_from_index(i as int),
            r.spec_index() == i as int,
    {
        if i == 0 {
            Position::N
        } else if i == 1 {
            Position::NE
        } else if i == 2 {
            Position::E
        } else if i == 3 {
            Position::SE
        } else if i == 4 {
            Position::S
        } else if i == 5 {
            Position::SW
        } else if i == 6 {
            Position::W
        } else {
            Position::NW
        }
    }
}

impl Player {
    pub open spec fn spec_opponent(self) -> Player {
        match self {
            Player::Black => Player::White,
            Player::White => Player::Black,
        }
    }

    pub fn opponent(self) -> (r: Player)
        ensures
            r == self.spec_opponent(),
    {
        match self {
            Player::Black => Player::White,
            Player::White => Player::Black,
        }
    }
}

impl GameState {
    /// The board as one sequence of players per location.
    pub open spec fn board_view(self) -> Seq<Seq<Player>> {
        self.board@.map_values(|s: PieceStack| s.pieces@)
    }
}

} // verus!
