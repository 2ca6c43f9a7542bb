//! Adapter to the rules engine of the `secondbest` crate.
//!
//! The engine's `Game` is opaque here. What it holds is described by the
//! uninterpreted functions below, one per observable part of its state, and the
//! wrappers state over them what the crate's source does.
use vstd::prelude::*;
use crate::game::{MoveAction, Player, Position};
use secondbest::board::Action;
use secondbest::board::Color;
use secondbest::board::Position as SbPosition;
use secondbest::game::Game;

verus! {

#[verifier::external_type_specification]
pub struct ExColor(secondbest::board::Color);

#[verifier::external_type_specification]
pub struct ExSbPosition(SbPosition);

#[verifier::external_type_specification]
pub struct ExAction(secondbest::board::Action);

#[verifier::external_type_specification]
#[verifier::external_body]
pub struct ExGame(secondbest::game::Game);

#[verifier::external_type_specification]
#[verifier::external_body]
pub struct ExGameError(secondbest::error::GameError);

/// The stacks of the game's board, bottom first, one per location in the
/// order of `Position::index`.
pub uninterp spec fn sb_board(g: Game) -> Seq<Seq<Color>>;

/// The player to act.
pub uninterp spec fn sb_player(g: Game) -> Color;

/// The legal actions, in the order in which the engine lists them.
pub uninterp spec fn sb_legal(g: Game) -> Seq<Action>;

/// The board before the last action, while that action may still be taken back.
pub uninterp spec fn sb_prev_board(g: Game) -> Option<Seq<Seq<Color>>>;

/// Whether an action was taken back and its replacement is still due.
pub uninterp spec fn sb_replacing(g: Game) -> bool;

/// The winner, once the game is over.
pub uninterp spec fn sb_winner(g: Game) -> Option<Color>;

pub open spec fn player_of(c: Color) -> Player {
    match c {
        Color::B => Player::Black,
        Color::W => Player::White,
    }
}

pub open spec fn color_of(p: Player) -> Color {
    match p {
        Player::Black => Color::B,
        Player::White => Color::W,
    }
}

pub open spec fn position_of(p: SbPosition) -> Position {
    match p {
        SbPosition::N => Position::N,
        SbPosition::NE => Position::NE,
        SbPosition::E => Position::E,
        SbPosition::SE => Position::SE,
        SbPosition::S => Position::S,
        SbPosition::SW => Position::SW,
        SbPosition::W => Position::W,
        SbPosition::NW => Position::NW,
    }
}

pub open spec fn sb_position_of(p: Position) -> SbPosition {
    match p {
        Position::N => SbPosition::N,
        Position::NE => SbPosition::NE,
        Position::E => SbPosition::E,
        Position::SE => SbPosition::SE,
        Position::S => SbPosition::S,
        Position::SW => SbPosition::SW,
        Position::W => SbPosition::W,
        Position::NW => SbPosition::NW,
    }
}

pub open spec fn move_of(a: Action) -> MoveAction {
    match a {
        Action::Put(p, c) => MoveAction::Place { position: position_of(p), player: player_of(c) },
        Action::Move(f, t) => MoveAction::Move { from: position_of(f), to: position_of(t) },
    }
}

pub open spec fn action_of(m: MoveAction) -> Action {
    match m {
        MoveAction::Place { position, player } => Action::Put(
            sb_position_of(position),
            color_of(player),
        ),
        MoveAction::Move { from, to } => Action::Move(sb_position_of(from), sb_position_of(to)),
    }
}

pub open spec fn opposite(c: Color) -> Color {
    match c {
        Color::B => Color::W,
        Color::W => Color::B,
    }
}

/// A stack in the library's vocabulary.
pub open spec fn players_stack(s: Seq<Color>) -> Seq<Player> {
    s.map_values(|c: Color| player_of(c))
}

/// A board in the library's vocabulary.
pub open spec fn players_board(b: Seq<Seq<Color>>) -> Seq<Seq<Player>> {
    b.map_values(|s: Seq<Color>| players_stack(s))
}

/// A list of actions in the library's vocabulary.
pub open spec fn translated(s: Seq<Action>) -> Seq<MoveAction> {
    s.map_values(|a: Action| move_of(a))
}

/// Slot of an engine location in a board.
pub open spec fn slot(p: SbPosition) -> int {
    position_of(p).spec_index()
}

/// Number of pieces of one color on a board.
pub open spec fn count_color(b: Seq<Seq<Color>>, c: Color) -> nat
    decreases b.len(),
{
    if b.len() == 0 {
        0
    } else {
        count_color(b.drop_last(), c) + b.last().filter(|x: Color| x == c).len()
    }
}

/// The board after a legal action: a placed piece goes on top of its stack;
/// a moved piece leaves the top of one stack for the top of another.
pub open spec fn board_after(b: Seq<Seq<Color>>, a: Action) -> Seq<Seq<Color>> {
    match a {
        Action::Put(p, c) => b.update(slot(p), b[slot(p)].push(c)),
        Action::Move(f, t) => {
            let moved = b[slot(f)].last();
            let lifted = b.update(slot(f), b[slot(f)].drop_last());
            lifted.update(slot(t), lifted[slot(t)].push(moved))
        },
    }
}

/// What holds of every game state that the engine can reach.
pub open spec fn consistent(g: Game) -> bool {
    &&& sb_board(g).len() == 8
    &&& forall|i: int| 0 <= i < 8 ==> #[trigger] sb_board(g)[i].len() <= 3
    &&& count_color(sb_board(g), Color::B) <= 8
    &&& count_color(sb_board(g), Color::W) <= 8
    &&& sb_winner(g) is Some ==> sb_prev_board(g) is None && sb_legal(g).len() == 0
    &&& sb_prev_board(g) is Some ==> sb_winner(g) is None && !sb_replacing(g)
    &&& sb_prev_board(g) is None && sb_legal(g).len() == 0 ==> sb_winner(g) is Some
}

pub open spec fn empty_board() -> Seq<Seq<Color>> {
    Seq::new(8, |i: int| Seq::<Color>::empty())
}

/// Relies on `Game::new`: an empty board, Black to act, every location open
/// to a Black piece, nothing to take back.
#[verifier::external_body]
pub(crate) fn sb_new_game() -> (g: Game)
    ensures
        sb_board(g) == empty_board(),
        sb_player(g) == Color::B,
        sb_prev_board(g) is None,
        !sb_replacing(g),
        sb_winner(g) is None,
        sb_legal(g).len() == 8,
        forall|a: Action| #[trigger] sb_legal(g).contains(a) <==> (a matches Action::Put(_, c) && c == Color::B),
        consistent(g),
{
    Game::new()
}

/// Relies on `Game::apply_action`: a legal action is applied and the turn
/// passes; an ordinary action may then be taken back, a replacement may not.
/// Anything else is refused and the game is left as it was.
#[verifier::external_body]
pub(crate) fn sb_apply_action(g: &mut Game, a: Action) -> (r: Result<(), secondbest::error::GameError>)
    requires
        consistent(*old(g)),
    ensures
        r is Ok <==> sb_legal(*old(g)).contains(a),
        r is Err ==> *final(g) == *old(g),
        r is Ok ==> sb_board(*final(g)) == board_after(sb_board(*old(g)), a),
        r is Ok ==> sb_player(*final(g)) == opposite(sb_player(*old(g))),
        r is Ok ==> sb_prev_board(*final(g)) == if sb_replacing(*old(g)) {
            None
        } else {
            Some(sb_board(*old(g)))
        },
        r is Ok ==> !sb_replacing(*final(g)),
        consistent(*final(g)),
{
    g.apply_action(a)
}

/// Relies on `Game::declare_second_best`: the last action is taken back, its
/// mover acts again, and a replacement is due. Without an action to take back
/// it is refused and the game is left as it was.
#[verifier::external_body]
pub(crate) fn sb_declare_second_best(g: &mut Game) -> (r: Result<(), secondbest::error::GameError>)
    requires
        consistent(*old(g)),
    ensures
        r is Ok <==> sb_prev_board(*old(g)) is Some,
        r is Err ==> *final(g) == *old(g),
        r is Ok ==> sb_prev_board(*old(g)) == Some(sb_board(*final(g))),
        r is Ok ==> sb_player(*final(g)) == opposite(sb_player(*old(g))),
        r is Ok ==> sb_prev_board(*final(g)) is None,
        r is Ok ==> sb_replacing(*final(g)),
        consistent(*final(g)),
{
    g.declare_second_best()
}

/// Relies on `Game::legal_actions`.
#[verifier::external_body]
pub(crate) fn sb_legal_actions(g: &Game) -> (r: Vec<Action>)
    ensures
        r@ == sb_legal(*g),
{
    g.legal_actions().to_vec()
}

/// Relies on `Game::can_declare_second_best`: true while the last action may
/// be taken back.
#[verifier::external_body]
pub(crate) fn sb_can_declare_second_best(g: &Game) -> (r: bool)
    ensures
        r == sb_prev_board(*g) is Some,
{
    g.can_declare_second_best()
}

/// Relies on `Game::current_player`.
#[verifier::external_body]
pub(crate) fn sb_current_player(g: &Game) -> (r: Color)
    ensures
        r == sb_player(*g),
{
    g.current_player()
}

/// Relies on `Game::result` and `GameResult::winner`.
#[verifier::external_body]
pub(crate) fn sb_result_winner(g: &Game) -> (r: Option<Color>)
    ensures
        r == sb_winner(*g),
{
    g.result().winner()
}

/// Relies on `Game::board` and `Board::get_pieces_at`: the stack at one
/// location, bottom first.
#[verifier::external_body]
pub(crate) fn sb_pieces_at(g: &Game, p: SbPosition) -> (r: Vec<Color>)
    ensures
        r@ == sb_board(*g)[slot(p)],
{
    g.board().get_pieces_at(p)
}

pub fn player_from_color(c: Color) -> (r: Player)
    ensures
        r == player_of(c),
{
    match c {
        Color::B => Player::Black,
        Color::W => Player::White,
    }
}

pub fn color_from_player(p: Player) -> (r: Color)
    ensures
        r == color_of(p),
{
    match p {
        Player::Black => Color::B,
        Player::White => Color::W,
    }
}

pub fn position_from_sb(p: SbPosition) -> (r: Position)
    ensures
        r == position_of(p),
{
    match p {
        SbPosition::N => Position::N,
        SbPosition::NE => Position::NE,
        SbPosition::E => Position::E,
        SbPosition::SE => Position::SE,
        SbPosition::S => Position::S,
        SbPosition::SW => Position::SW,
        SbPosition::W => Position::W,
        SbPosition::NW => Position::NW,
    }
}

pub fn sb_from_position(p: Position) -> (r: SbPosition)
    ensures
        r == sb_position_of(p),
{
    match p {
        Position::N => SbPosition::N,
        Position::NE => SbPosition::NE,
        Position::E => SbPosition::E,
        Position::SE => SbPosition::SE,
        Position::S => SbPosition::S,
        Position::SW => SbPosition::SW,
        Position::W => SbPosition::W,
        Position::NW => SbPosition::NW,
    }
}

pub fn move_from_action(a: Action) -> (r: MoveAction)
    ensures
        r == move_of(a),
{
    match a {
        Action::Put(p, c) => MoveAction::Place {
            position: position_from_sb(p),
            player: player_from_color(c),
        },
        Action::Move(f, t) => MoveAction::Move { from: position_from_sb(f), to: position_from_sb(t) },
    }
}

pub fn action_from_move(m: MoveAction) -> (r: Action)
    ensures
        r == action_of(m),
{
    match m {
        MoveAction::Place { position, player } => Action::Put(
            sb_from_position(position),
            color_from_player(player),
        ),
        MoveAction::Move { from, to } => Action::Move(sb_from_position(from), sb_from_position(to)),
    }
}

/// The two vocabularies of actions correspond one to one.
pub proof fn lemma_action_round_trip(a: Action, m: MoveAction)
    ensures
        action_of(move_of(a)) == a,
        move_of(action_of(m)) == m,
{
}

/// A list of engine actions holds an action exactly when its translation
/// holds the action's translation.
pub proof fn lemma_translated_contains(s: Seq<Action>, m: MoveAction)
    ensures
        translated(s).contains(m) <==> s.contains(action_of(m)),
{
    let t = translated(s);
    if s.contains(action_of(m)) {
        let i = choose|i: int| 0 <= i < s.len() && s[i] == action_of(m);
        lemma_action_round_trip(s[i], m);
        assert(t[i] == m);
    }
    if t.contains(m) {
        let i = choose|i: int| 0 <= i < t.len() && t[i] == m;
        lemma_action_round_trip(s[i], m);
        assert(s[i] == action_of(m));
    }
}

/// Every location of the library has its slot in an engine board.
pub proof fn lemma_slot_of_position(p: Position)
    ensures
        slot(sb_position_of(p)) == p.spec_index(),
{
}

/// Translates a stack read from the engine.
pub fn players_from_colors(cs: &Vec<Color>) -> (r: Vec<Player>)
    ensures
        r@ == players_stack(cs@),
{
    let mut r: Vec<Player> = Vec::new();
    let mut i: usize = 0;
    while i < cs.len()
        invariant
            i <= cs@.len(),
            r@ == players_stack(cs@.subrange(0, i as int)),
        decreases cs@.len() - i,
    {
        let p = player_from_color(cs[i]);
        r.push(p);
        i = i + 1;
        assert(cs@.subrange(0, i as int) == cs@.subrange(0, i - 1 as int).push(cs@[i - 1]));
    }
    assert(cs@.subrange(0, cs@.len() as int) == cs@);
    r
}

/// Translates a list of actions read from the engine.
pub fn moves_from_actions(actions: &Vec<Action>) -> (r: Vec<MoveAction>)
    ensures
        r@ == translated(actions@),
{
    let mut r: Vec<MoveAction> = Vec::new();
    let mut i: usize = 0;
    while i < actions.len()
        invariant
            i <= actions@.len(),
            r@ == translated(actions@.subrange(0, i as int)),
        decreases actions@.len() - i,
    {
        let m = move_from_action(actions[i]);
        r.push(m);
        i = i + 1;
        assert(actions@.subrange(0, i as int) == actions@.subrange(0, i - 1 as int).push(
            actions@[i - 1],
        ));
    }
    assert(actions@.subrange(0, actions@.len() as int) == actions@);
    r
}

} // verus!
