use secondbest_engine::engine::{AiOutcome, EngineError, GameEngine};
use secondbest_engine::game::{MoveAction, Player, Position, TurnPhase};

fn place(position: Position, player: Player) -> MoveAction {
    MoveAction::Place { position, player }
}

const ALL: [Position; 8] = [
    Position::N,
    Position::NE,
    Position::E,
    Position::SE,
    Position::S,
    Position::SW,
    Position::W,
    Position::NW,
];

#[test]
fn fresh_game_offers_every_placement() {
    let engine = GameEngine::new();
    let moves = engine.get_legal_moves();
    assert_eq!(moves.len(), 8);
    for p in ALL {
        assert!(moves.contains(&place(p, Player::Black)));
    }
    let state = engine.get_game_state();
    assert_eq!(state.current_player, Player::Black);
    assert_eq!(state.turn_phase, TurnPhase::WaitingForMove);
    assert!(!state.second_best_available);
    assert_eq!(state.winner, None);
    assert_eq!(state.board.len(), 8);
    assert!(state.board.iter().all(|s| s.pieces.is_empty()));
}

#[test]
fn first_placement_opens_second_best() {
    let mut engine = GameEngine::new();
    let state = engine.make_move(place(Position::N, Player::Black)).unwrap();
    assert_eq!(state.board[Position::N.index()].pieces, vec![Player::Black]);
    assert_eq!(state.turn_phase, TurnPhase::WaitingForSecondBest);
    assert!(state.second_best_available);
    assert_eq!(state.current_player, Player::White);
    assert!(engine.can_declare_second_best());
    assert_eq!(engine.get_position_stack(Position::N).pieces, vec![Player::Black]);
    assert!(engine.get_position_stack(Position::S).pieces.is_empty());
}

#[test]
fn declaring_takes_the_action_back_once() {
    let mut engine = GameEngine::new();
    engine.make_move(place(Position::N, Player::Black)).unwrap();
    let state = engine.declare_second_best().unwrap();
    assert!(state.board[Position::N.index()].pieces.is_empty());
    assert_eq!(state.turn_phase, TurnPhase::WaitingForSecondMove);
    assert!(!state.second_best_available);
    assert_eq!(state.current_player, Player::Black);
    assert_eq!(
        engine.declare_second_best().unwrap_err(),
        EngineError::OperationUnavailable
    );
    // The action that was taken back may not be played again.
    assert!(!engine.get_legal_moves().contains(&place(Position::N, Player::Black)));
    assert_eq!(
        engine.make_move(place(Position::N, Player::Black)).unwrap_err(),
        EngineError::IllegalMove
    );
    let state = engine.make_move(place(Position::E, Player::Black)).unwrap();
    assert_eq!(state.turn_phase, TurnPhase::WaitingForMove);
    assert!(!state.second_best_available);
}

#[test]
fn declaring_without_a_window_fails() {
    let mut engine = GameEngine::new();
    assert_eq!(
        engine.declare_second_best().unwrap_err(),
        EngineError::OperationUnavailable
    );
    assert_eq!(engine.get_game_state().turn_phase, TurnPhase::WaitingForMove);
}

#[test]
fn illegal_move_leaves_state_unchanged() {
    let mut engine = GameEngine::new();
    let before = engine.get_game_state();
    let wrong = place(Position::N, Player::White);
    assert!(!engine.get_legal_moves().contains(&wrong));
    assert_eq!(engine.make_move(wrong).unwrap_err(), EngineError::IllegalMove);
    let moving = MoveAction::Move { from: Position::N, to: Position::NE };
    assert_eq!(engine.make_move(moving).unwrap_err(), EngineError::IllegalMove);
    let after = engine.get_game_state();
    assert_eq!(after.current_player, before.current_player);
    assert_eq!(after.turn_phase, before.turn_phase);
    assert!(after.board.iter().all(|s| s.pieces.is_empty()));
}

fn play_to_vertical_win(engine: &mut GameEngine) {
    let script = [
        place(Position::N, Player::Black),
        place(Position::S, Player::White),
        place(Position::N, Player::Black),
        place(Position::SW, Player::White),
        place(Position::E, Player::Black),
        place(Position::W, Player::White),
        place(Position::E, Player::Black),
        place(Position::S, Player::White),
    ];
    for a in script {
        engine.make_move(a).unwrap();
    }
    // A third black piece on N lines up, but White may still take it back.
    let state = engine.make_move(place(Position::N, Player::Black)).unwrap();
    assert_eq!(state.winner, None);
    assert!(state.second_best_available);
    assert!(engine.get_legal_moves().is_empty());
    engine.declare_second_best().unwrap();
    // The replacement lines up on E and cannot be taken back.
    let state = engine.make_move(place(Position::E, Player::Black)).unwrap();
    assert_eq!(state.winner, Some(Player::Black));
}

#[test]
fn lineup_ends_the_game() {
    let mut engine = GameEngine::new();
    play_to_vertical_win(&mut engine);
    assert_eq!(engine.check_winner(), Some(Player::Black));
    assert!(!engine.is_in_progress());
    assert!(engine.get_legal_moves().is_empty());
    let before = engine.get_game_state();
    assert_eq!(
        engine.make_move(place(Position::NE, Player::White)).unwrap_err(),
        EngineError::IllegalMove
    );
    assert_eq!(
        engine.declare_second_best().unwrap_err(),
        EngineError::OperationUnavailable
    );
    let generation = engine.generation();
    assert!(matches!(engine.simulate_ai_move(generation), AiOutcome::Idle));
    assert!(matches!(engine.simulate_ai_second_move(generation), AiOutcome::Idle));
    let after = engine.get_game_state();
    assert_eq!(after.current_player, before.current_player);
    assert_eq!(after.turn_phase, before.turn_phase);
    assert_eq!(after.winner, Some(Player::Black));
    for p in ALL {
        assert_eq!(after.board[p.index()].pieces, before.board[p.index()].pieces);
    }
}

#[test]
fn new_game_resets_everything() {
    let mut engine = GameEngine::new();
    play_to_vertical_win(&mut engine);
    let old_generation = engine.generation();
    let state = engine.new_game();
    assert_ne!(engine.generation(), old_generation);
    assert_eq!(state.winner, None);
    assert_eq!(state.current_player, Player::Black);
    assert_eq!(state.turn_phase, TurnPhase::WaitingForMove);
    assert!(state.board.iter().all(|s| s.pieces.is_empty()));
    assert_eq!(engine.get_legal_moves().len(), 8);
}

#[test]
fn opponent_answers_a_move_by_declaring() {
    let mut engine = GameEngine::new();
    engine.make_move(place(Position::N, Player::Black)).unwrap();
    let generation = engine.generation();
    match engine.simulate_ai_move(generation) {
        AiOutcome::SecondBestDeclared(ev) => {
            assert_eq!(ev.new_state.turn_phase, TurnPhase::WaitingForSecondMove);
            assert!(ev.new_state.board[Position::N.index()].pieces.is_empty());
        }
        other => panic!("unexpected outcome {:?}", other),
    }
    let state = engine.get_game_state();
    assert_eq!(state.turn_phase, TurnPhase::WaitingForSecondMove);
    assert_eq!(state.current_player, Player::Black);
    assert!(!state.second_best_available);
}

#[test]
fn opponent_replies_with_first_legal_move() {
    let mut engine = GameEngine::new();
    engine.make_move(place(Position::N, Player::Black)).unwrap();
    engine.declare_second_best().unwrap();
    engine.make_move(place(Position::E, Player::Black)).unwrap();
    // The replacement cannot be taken back: the opponent plays.
    let expected = engine.get_legal_moves()[0];
    let generation = engine.generation();
    match engine.simulate_ai_move(generation) {
        AiOutcome::MoveCompleted(ev) => {
            assert_eq!(ev.action, expected);
            assert_eq!(ev.new_state.turn_phase, TurnPhase::WaitingForSecondBest);
            assert_eq!(ev.new_state.current_player, Player::Black);
        }
        other => panic!("unexpected outcome {:?}", other),
    }
    let state = engine.get_game_state();
    assert!(state.second_best_available);
    let pieces: usize = state.board.iter().map(|s| s.pieces.len()).sum();
    assert_eq!(pieces, 2);
}

#[test]
fn opponent_replaces_a_declared_move() {
    let mut engine = GameEngine::new();
    engine.make_move(place(Position::N, Player::Black)).unwrap();
    let state = engine.make_move(place(Position::S, Player::White)).unwrap();
    assert_eq!(state.turn_phase, TurnPhase::WaitingForSecondBest);
    // Black takes White's move back; White must choose again.
    engine.declare_second_best().unwrap();
    let expected = engine.get_legal_moves()[0];
    let generation = engine.generation();
    match engine.simulate_ai_second_move(generation) {
        AiOutcome::SecondMoveCompleted(ev) => {
            assert_ne!(ev.action, place(Position::S, Player::White));
            assert_eq!(ev.action, expected);
            assert_eq!(ev.new_state.turn_phase, TurnPhase::WaitingForMove);
            assert_eq!(ev.new_state.current_player, Player::Black);
        }
        other => panic!("unexpected outcome {:?}", other),
    }
}

#[test]
fn opponent_second_move_reports_an_open_window() {
    let mut engine = GameEngine::new();
    engine.make_move(place(Position::N, Player::Black)).unwrap();
    let generation = engine.generation();
    assert!(matches!(
        engine.simulate_ai_second_move(generation),
        AiOutcome::Failed(_)
    ));
    assert!(engine.can_declare_second_best());
    assert_eq!(engine.get_game_state().turn_phase, TurnPhase::WaitingForSecondBest);
}

#[test]
fn stale_opponent_step_does_nothing() {
    let mut engine = GameEngine::new();
    engine.make_move(place(Position::N, Player::Black)).unwrap();
    let stale = engine.generation();
    engine.new_game();
    engine.make_move(place(Position::E, Player::Black)).unwrap();
    assert!(matches!(engine.simulate_ai_move(stale), AiOutcome::Idle));
    let state = engine.get_game_state();
    assert_eq!(state.board[Position::E.index()].pieces, vec![Player::Black]);
    assert_eq!(state.turn_phase, TurnPhase::WaitingForSecondBest);
}

#[test]
fn piece_counts_stay_within_budget() {
    let mut engine = GameEngine::new();
    for _ in 0..60 {
        if !engine.is_in_progress() {
            break;
        }
        let generation = engine.generation();
        let state = engine.get_game_state();
        if state.turn_phase == TurnPhase::WaitingForSecondMove {
            engine.simulate_ai_second_move(generation);
        } else {
            let moves = engine.get_legal_moves();
            if moves.is_empty() {
                engine.declare_second_best().unwrap();
            } else {
                engine.make_move(moves[moves.len() - 1]).unwrap();
            }
        }
        let state = engine.get_game_state();
        assert_eq!(state.second_best_available, state.turn_phase == TurnPhase::WaitingForSecondBest);
        for player in [Player::Black, Player::White] {
            let n: usize = state
                .board
                .iter()
                .map(|s| s.pieces.iter().filter(|&&p| p == player).count())
                .sum();
            assert!(n <= 8);
        }
        assert!(state.board.iter().all(|s| s.pieces.len() <= 3));
    }
}

#[test]
fn positions_and_players_map_one_to_one() {
    for (i, p) in ALL.iter().enumerate() {
        assert_eq!(p.index(), i);
        assert_eq!(Position::from_index(i), *p);
    }
    assert_eq!(Player::Black.opponent(), Player::White);
    assert_eq!(Player::White.opponent(), Player::Black);
}

#[test]
fn turn_phase_event_follows_the_protocol() {
    let mut engine = GameEngine::new();
    let ev = engine.turn_phase_event();
    assert_eq!(ev.new_phase, TurnPhase::WaitingForMove);
    assert_eq!(ev.current_player, Player::Black);
    engine.make_move(place(Position::SW, Player::Black)).unwrap();
    let ev = engine.turn_phase_event();
    assert_eq!(ev.new_phase, TurnPhase::WaitingForSecondBest);
    assert_eq!(ev.current_player, Player::White);
    engine.declare_second_best().unwrap();
    let ev = engine.turn_phase_event();
    assert_eq!(ev.new_phase, TurnPhase::WaitingForSecondMove);
    assert_eq!(ev.current_player, Player::Black);
}
