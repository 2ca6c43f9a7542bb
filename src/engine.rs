//! The game engine: one authoritative game, the turn-phase protocol around
//! the rules engine, and the decision step of the autonomous opponent.
//!
//! The engine is a single owned value. Callers that share it between a
//! foreground path and a delayed opponent task hold it behind one lock; the
//! generation counter lets a task scheduled for an abandoned game notice that
//! a new game has started and do nothing.
use vstd::prelude::*;
use crate::game::{
    AiErrorEvent, AiMoveEvent, AiSecondBestEvent, AiSecondMoveEvent, GameState, MoveAction,
    PieceStack, Player, Position, TurnPhase, TurnPhaseEvent, MAX_STACK_DEPTH, NUM_POSITIONS, PIECE_BUDGET,
};
use crate::rules::{
    action_of, color_of, consistent, count_color, empty_board, lemma_action_round_trip,
    lemma_slot_of_position, lemma_translated_contains, move_from_action, move_of,
    moves_from_actions, player_from_color, player_of, players_board, players_from_colors,
    players_stack, sb_apply_action, sb_board, sb_can_declare_second_best, sb_current_player,
    sb_declare_second_best, sb_from_position, sb_legal, sb_legal_actions, sb_new_game,
    sb_pieces_at, sb_player, sb_prev_board, sb_replacing, sb_result_winner, sb_winner,
    action_from_move, board_after, translated,
};
use secondbest::board::Action;
use secondbest::board::Color;
use secondbest::game::Game;

verus! {

/// Why a request was refused. The game is left as it was.
#[derive(Debug, Clone, Copy, PartialEq, Eq, Structural)]
pub enum EngineError {
    /// The action is not legal for the current board, player and phase.
    IllegalMove,
    /// No action may be taken back now.
    OperationUnavailable,
}

/// What one step of the opponent did, with the payload to announce.
#[derive(Debug, Clone)]
pub enum AiOutcome {
    /// Nothing was done: the step was stale, or the game is over.
    Idle,
    SecondBestDeclared(AiSecondBestEvent),
    MoveCompleted(AiMoveEvent),
    SecondMoveCompleted(AiSecondMoveEvent),
    /// The step found a state that the protocol rules out; nothing was changed.
    Failed(AiErrorEvent),
}

pub struct GameEngine {
    game: Game,
    phase: TurnPhase,
    generation: u64,
}

/// The phase that the rules engine's state calls for.
pub open spec fn phase_for(g: Game) -> TurnPhase {
    if sb_prev_board(g) is Some {
        TurnPhase::WaitingForSecondBest
    } else if sb_replacing(g) {
        TurnPhase::WaitingForSecondMove
    } else {
        TurnPhase::WaitingForMove
    }
}

/// The phase that follows an applied action.
pub open spec fn phase_after_move(p: TurnPhase) -> TurnPhase {
    match p {
        TurnPhase::WaitingForSecondMove => TurnPhase::WaitingForMove,
        _ => TurnPhase::WaitingForSecondBest,
    }
}

/// `e1` is `e0` after the action `a` was applied.
pub open spec fn moved(e0: GameEngine, a: MoveAction, e1: GameEngine) -> bool {
    &&& sb_board(e1.game_view()) == board_after(sb_board(e0.game_view()), action_of(a))
    &&& e1.player_view() == e0.player_view().spec_opponent()
    &&& e1.phase_view() == phase_after_move(e0.phase_view())
    &&& e1.second_best_view() ==> sb_prev_board(e1.game_view()) == Some(sb_board(e0.game_view()))
    &&& e1.generation_view() == e0.generation_view()
}

/// `e1` is `e0` after its last action was taken back.
pub open spec fn declared(e0: GameEngine, e1: GameEngine) -> bool {
    &&& sb_prev_board(e0.game_view()) == Some(sb_board(e1.game_view()))
    &&& e1.player_view() == e0.player_view().spec_opponent()
    &&& e1.phase_view() == TurnPhase::WaitingForSecondMove
    &&& !e1.second_best_view()
    &&& e1.generation_view() == e0.generation_view()
}

/// An opponent step for `generation` has work to do in `e`.
pub open spec fn step_due(e: GameEngine, generation: u64) -> bool {
    generation == e.generation_view() && e.winner_view() is None
}

impl GameEngine {
    pub closed spec fn game_view(&self) -> Game {
        self.game
    }

    pub closed spec fn phase_view(&self) -> TurnPhase {
        self.phase
    }

    pub closed spec fn generation_view(&self) -> u64 {
        self.generation
    }

    pub open spec fn wf(&self) -> bool {
        &&& consistent(self.game_view())
        &&& self.phase_view() == phase_for(self.game_view())
    }

    pub open spec fn board_view(&self) -> Seq<Seq<Player>> {
        players_board(sb_board(self.game_view()))
    }

    pub open spec fn player_view(&self) -> Player {
        player_of(sb_player(self.game_view()))
    }

    pub open spec fn winner_view(&self) -> Option<Player> {
        match sb_winner(self.game_view()) {
            Some(c) => Some(player_of(c)),
            None => None,
        }
    }

    pub open spec fn second_best_view(&self) -> bool {
        sb_prev_board(self.game_view()) is Some
    }

    pub open spec fn legal_view(&self) -> Seq<MoveAction> {
        translated(sb_legal(self.game_view()))
    }

    /// `s` is a faithful snapshot of this engine.
    pub open spec fn snapshot_of(&self, s: GameState) -> bool {
        &&& s.board_view() == self.board_view()
        &&& s.current_player == self.player_view()
        &&& s.turn_phase == self.phase_view()
        &&& s.second_best_available == self.second_best_view()
        &&& s.winner == self.winner_view()
    }

    /// The state of a game that has just begun.
    pub open spec fn is_fresh(&self) -> bool {
        &&& sb_board(self.game_view()) == empty_board()
        &&& self.player_view() == Player::Black
        &&& self.phase_view() == TurnPhase::WaitingForMove
        &&& !self.second_best_view()
        &&& self.winner_view() is None
        &&& forall|m: MoveAction| #[trigger]
            self.legal_view().contains(m) <==> (m matches MoveAction::Place { player, .. }
                && player == Player::Black)
    }
}

fn fresh_game() -> (r: (Game, TurnPhase))
    ensures
        consistent(r.0),
        r.1 == phase_for(r.0),
        sb_board(r.0) == empty_board(),
        sb_player(r.0) == Color::B,
        sb_prev_board(r.0) is None,
        sb_winner(r.0) is None,
        r.1 == TurnPhase::WaitingForMove,
        forall|m: MoveAction| #[trigger]
            translated(sb_legal(r.0)).contains(m) <==> (
            m matches MoveAction::Place { player, .. } && player == Player::Black),
{
    let g = sb_new_game();
    proof {
        assert forall|m: MoveAction| #[trigger]
            translated(sb_legal(g)).contains(m) <==> (
            m matches MoveAction::Place { player, .. } && player == Player::Black) by {
            lemma_translated_contains(sb_legal(g), m);
            lemma_action_round_trip(action_of(m), m);
            assert(sb_legal(g).contains(action_of(m)) <==> (action_of(m) matches Action::Put(
                _,
                c,
            ) && c == Color::B));
        }
    }
    (g, TurnPhase::WaitingForMove)
}

/// Reads the whole board of the rules engine, one stack per location.
fn create_board(g: &Game) -> (r: Vec<PieceStack>)
    requires
        consistent(*g),
    ensures
        r@.map_values(|s: PieceStack| s.pieces@) == players_board(sb_board(*g)),
{
    let mut board: Vec<PieceStack> = Vec::new();
    let mut i: usize = 0;
    while i < NUM_POSITIONS
        invariant
            i <= NUM_POSITIONS,
            consistent(*g),
            board@.len() == i,
            forall|j: int| 0 <= j < i ==> #[trigger] board@[j].pieces@ == players_stack(sb_board(*g)[j]),
        decreases NUM_POSITIONS - i,
    {
        let pos = Position::from_index(i);
        proof {
            lemma_slot_of_position(pos);
        }
        let colors = sb_pieces_at(g, sb_from_position(pos));
        let pieces = players_from_colors(&colors);
        board.push(PieceStack { pieces });
        i = i + 1;
    }
    assert(board@.map_values(|s: PieceStack| s.pieces@) =~= players_board(sb_board(*g)));
    board
}

/// Reads a snapshot of the rules engine's state, in the given phase.
fn create_game_state(g: &Game, phase: TurnPhase) -> (r: GameState)
    requires
        consistent(*g),
    ensures
        r.board_view() == players_board(sb_board(*g)),
        r.current_player == player_of(sb_player(*g)),
        r.turn_phase == phase,
        r.second_best_available == sb_prev_board(*g) is Some,
        r.winner == match sb_winner(*g) {
            Some(c) => Some(player_of(c)),
            None => None,
        },
{
    let board = create_board(g);
    let current_player = player_from_color(sb_current_player(g));
    let second_best_available = sb_can_declare_second_best(g);
    let winner = match sb_result_winner(g) {
        Some(c) => Some(player_from_color(c)),
        None => None,
    };
    GameState { board, current_player, turn_phase: phase, second_best_available, winner }
}

impl GameEngine {
    /// An engine holding a game that has just begun.
    pub fn new() -> (r: GameEngine)
        ensures
            r.wf(),
            r.is_fresh(),
            r.generation_view() == 0,
    {
        let (game, phase) = fresh_game();
        GameEngine { game, phase, generation: 0 }
    }

    /// Replaces the game by one that has just begun, and returns its snapshot.
    /// Opponent steps scheduled for the old game become stale.
    pub fn new_game(&mut self) -> (r: GameState)
        ensures
            final(self).wf(),
            final(self).is_fresh(),
            final(self).generation_view() != old(self).generation_view(),
            final(self).snapshot_of(r),
    {
        let (game, phase) = fresh_game();
        self.game = game;
        self.phase = phase;
        self.generation = if self.generation < u64::MAX {
            self.generation + 1
        } else {
            0
        };
        self.get_game_state()
    }

    pub fn get_game_state(&self) -> (r: GameState)
        requires
            self.wf(),
        ensures
            self.snapshot_of(r),
    {
        create_game_state(&self.game, self.phase)
    }

    /// The actions the current player may submit; none once the game is over.
    pub fn get_legal_moves(&self) -> (r: Vec<MoveAction>)
        requires
            self.wf(),
        ensures
            r@ == self.legal_view(),
            self.winner_view() is Some ==> r@.len() == 0,
    {
        let actions = sb_legal_actions(&self.game);
        moves_from_actions(&actions)
    }

    /// Applies `a` to the rules engine and advances the phase; false, with
    /// nothing changed, where the rules engine refuses it.
    fn apply(&mut self, a: Action) -> (ok: bool)
        requires
            old(self).wf(),
        ensures
            final(self).wf(),
            ok == sb_legal(old(self).game_view()).contains(a),
            ok ==> moved(*old(self), move_of(a), *final(self)),
            !ok ==> *final(self) == *old(self),
    {
        proof {
            lemma_action_round_trip(a, move_of(a));
        }
        match sb_apply_action(&mut self.game, a) {
            Ok(()) => {
                self.phase = match self.phase {
                    TurnPhase::WaitingForSecondMove => TurnPhase::WaitingForMove,
                    _ => TurnPhase::WaitingForSecondBest,
                };
                true
            },
            Err(_) => false,
        }
    }

    /// Submits an action of the current player. It succeeds exactly when the
    /// action is among `get_legal_moves`; otherwise the game is unchanged.
    pub fn make_move(&mut self, action: MoveAction) -> (r: Result<GameState, EngineError>)
        requires
            old(self).wf(),
        ensures
            final(self).wf(),
            r is Ok <==> old(self).legal_view().contains(action),
            r is Err ==> r == Err::<GameState, EngineError>(EngineError::IllegalMove)
                && *final(self) == *old(self),
            r matches Ok(s) ==> moved(*old(self), action, *final(self))
                && final(self).snapshot_of(s),
            old(self).winner_view() is Some ==> r is Err,
    {
        proof {
            lemma_translated_contains(sb_legal(self.game_view()), action);
            lemma_action_round_trip(action_of(action), action);
        }
        if self.apply(action_from_move(action)) {
            Ok(self.get_game_state())
        } else {
            Err(EngineError::IllegalMove)
        }
    }

    /// Takes back the last action, which its mover must then replace. Refused
    /// unless second best may be declared now.
    pub fn declare_second_best(&mut self) -> (r: Result<GameState, EngineError>)
        requires
            old(self).wf(),
        ensures
            final(self).wf(),
            r is Ok <==> old(self).second_best_view(),
            r is Err ==> r == Err::<GameState, EngineError>(EngineError::OperationUnavailable)
                && *final(self) == *old(self),
            r matches Ok(s) ==> declared(*old(self), *final(self)) && final(self).snapshot_of(s),
            old(self).winner_view() is Some ==> r is Err,
    {
        if !sb_can_declare_second_best(&self.game) {
            return Err(EngineError::OperationUnavailable);
        }
        let _ = sb_declare_second_best(&mut self.game);
        self.phase = TurnPhase::WaitingForSecondMove;
        Ok(self.get_game_state())
    }

    pub fn check_winner(&self) -> (r: Option<Player>)
        ensures
            r == self.winner_view(),
    {
        match sb_result_winner(&self.game) {
            Some(c) => Some(player_from_color(c)),
            None => None,
        }
    }

    /// The stack at one location, bottom first; empty where nothing stands.
    pub fn get_position_stack(&self, position: Position) -> (r: PieceStack)
        requires
            self.wf(),
        ensures
            r.pieces@ == self.board_view()[position.spec_index()],
    {
        proof {
            lemma_slot_of_position(position);
        }
        let colors = sb_pieces_at(&self.game, sb_from_position(position));
        PieceStack { pieces: players_from_colors(&colors) }
    }

    pub fn can_declare_second_best(&self) -> (r: bool)
        requires
            self.wf(),
        ensures
            r == self.second_best_view(),
            r == (self.phase_view() == TurnPhase::WaitingForSecondBest),
    {
        sb_can_declare_second_best(&self.game)
    }

    /// The notification that announces the current phase and player to act.
    pub fn turn_phase_event(&self) -> (r: TurnPhaseEvent)
        ensures
            r.new_phase == self.phase_view(),
            r.current_player == self.player_view(),
    {
        let current_player = player_from_color(sb_current_player(&self.game));
        TurnPhaseEvent { new_phase: self.phase, current_player }
    }

    /// The current generation; it changes whenever a new game starts.
    pub fn generation(&self) -> (r: u64)
        ensures
            r == self.generation_view(),
    {
        self.generation
    }

    /// Whether the game goes on, so that the opponent has a turn to play.
    pub fn is_in_progress(&self) -> (r: bool)
        ensures
            r == (self.winner_view() is None),
    {
        sb_result_winner(&self.game).is_none()
    }

    /// The opponent's reply after an ordinary move, for a step scheduled in
    /// `generation`. A stale step, or one that finds the game over, does
    /// nothing. Otherwise the opponent declares second best whenever it may,
    /// and else applies the first legal action.
    pub fn simulate_ai_move(&mut self, generation: u64) -> (r: AiOutcome)
        requires
            old(self).wf(),
        ensures
            final(self).wf(),
            !step_due(*old(self), generation) ==> r is Idle && *final(self) == *old(self),
            step_due(*old(self), generation) && old(self).second_best_view() ==> (r matches AiOutcome::SecondBestDeclared(ev)
                && declared(*old(self), *final(self)) && final(self).snapshot_of(ev.new_state)),
            step_due(*old(self), generation) && !old(self).second_best_view() ==> (r matches AiOutcome::MoveCompleted(ev)
                && old(self).legal_view().len() > 0 && ev.action == old(self).legal_view()[0]
                && moved(*old(self), ev.action, *final(self)) && final(self).snapshot_of(ev.new_state)),
    {
        if generation != self.generation || !self.is_in_progress() {
            return AiOutcome::Idle;
        }
        if sb_can_declare_second_best(&self.game) {
            let _ = sb_declare_second_best(&mut self.game);
            self.phase = TurnPhase::WaitingForSecondMove;
            return AiOutcome::SecondBestDeclared(AiSecondBestEvent { new_state: self.get_game_state() });
        }
        let legal = sb_legal_actions(&self.game);
        if legal.len() == 0 {
            return AiOutcome::Idle;
        }
        let a = legal[0];
        proof {
            assert(sb_legal(self.game_view()).contains(a));
        }
        self.apply(a);
        let action = move_from_action(a);
        AiOutcome::MoveCompleted(AiMoveEvent { action, new_state: self.get_game_state() })
    }

    /// The opponent's replacement after its action was taken back, for a step
    /// scheduled in `generation`. A stale step, or one that finds the game
    /// over, does nothing. A step that finds a declaration possible has met a
    /// state the protocol rules out: it reports that and changes nothing.
    /// Otherwise the opponent applies the first legal action.
    pub fn simulate_ai_second_move(&mut self, generation: u64) -> (r: AiOutcome)
        requires
            old(self).wf(),
        ensures
            final(self).wf(),
            !step_due(*old(self), generation) ==> r is Idle && *final(self) == *old(self),
            step_due(*old(self), generation) && old(self).second_best_view() ==> r is Failed
                && *final(self) == *old(self),
            step_due(*old(self), generation) && !old(self).second_best_view() ==> (r matches AiOutcome::SecondMoveCompleted(ev)
                && old(self).legal_view().len() > 0 && ev.action == old(self).legal_view()[0]
                && moved(*old(self), ev.action, *final(self)) && final(self).snapshot_of(ev.new_state)),
    {
        if generation != self.generation || !self.is_in_progress() {
            return AiOutcome::Idle;
        }
        if sb_can_declare_second_best(&self.game) {
            let message = "second best became available during a replacement turn".to_owned();
            return AiOutcome::Failed(AiErrorEvent { message });
        }
        let legal = sb_legal_actions(&self.game);
        if legal.len() == 0 {
            return AiOutcome::Idle;
        }
        let a = legal[0];
        proof {
            assert(sb_legal(self.game_view()).contains(a));
        }
        self.apply(a);
        let action = move_from_action(a);
        AiOutcome::SecondMoveCompleted(AiSecondMoveEvent { action, new_state: self.get_game_state() })
    }
}

/// Every snapshot of a well-formed engine offers second best exactly in the
/// phase that waits for it.
pub proof fn lemma_second_best_iff_phase(e: GameEngine, s: GameState)
    requires
        e.wf(),
        e.snapshot_of(s),
    ensures
        s.second_best_available <==> s.turn_phase == TurnPhase::WaitingForSecondBest,
{
}

/// Declaring second best right after an action restores the board and the
/// player to act from before that action.
pub proof fn lemma_declare_restores_board(
    e0: GameEngine,
    a: MoveAction,
    e1: GameEngine,
    e2: GameEngine,
)
    requires
        e0.wf(),
        moved(e0, a, e1),
        declared(e1, e2),
    ensures
        e2.board_view() == e0.board_view(),
        e2.player_view() == e0.player_view(),
{
}

/// In every reachable state neither player has more pieces on the board
/// than the budget, and no stack is deeper than allowed.
pub proof fn lemma_piece_budget(e: GameEngine)
    requires
        e.wf(),
    ensures
        count_color(sb_board(e.game_view()), color_of(Player::Black)) <= PIECE_BUDGET,
        count_color(sb_board(e.game_view()), color_of(Player::White)) <= PIECE_BUDGET,
        e.board_view().len() == NUM_POSITIONS,
        forall|i: int| 0 <= i < NUM_POSITIONS ==> #[trigger] e.board_view()[i].len() <= MAX_STACK_DEPTH,
{
}

/// Once a game has a winner, no move and no declaration is accepted, so the
/// board, the player to act and the phase stay as they are.
pub proof fn lemma_winner_is_final(e: GameEngine)
    requires
        e.wf(),
        e.winner_view() is Some,
    ensures
        e.legal_view().len() == 0,
        !e.second_best_view(),
        e.phase_view() != TurnPhase::WaitingForSecondBest,
{
}

} // verus!
