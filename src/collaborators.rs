use vstd::prelude::*;

use crate::chess_move::Move;
use crate::heuristics::{HistoryTable, KillerTable};

verus! {

/// The pseudo-legal moves of `pos`, in generation order.
pub open spec fn pseudo_moves<P: Position, M: MoveGenerator<P>>(movegen: &M, pos: P) -> Seq<Move> {
    Seq::new(movegen.spec_pseudo_move_count(pos) as nat, |i: int| movegen.spec_pseudo_move(pos, i as usize))
}

/// The capturing moves of `pos`, in generation order.
pub open spec fn capture_moves<P: Position, M: MoveGenerator<P>>(movegen: &M, pos: P) -> Seq<Move> {
    Seq::new(movegen.spec_capture_move_count(pos) as nat, |i: int| movegen.spec_capture_move(pos, i as usize))
}

/// A board that the search changes in place: moves are made before a
/// subtree is searched and taken back right after it.
pub trait Position: Sized {
    /// The hash of the position.
    spec fn spec_zobrist(&self) -> u64;

    /// The position as it was before the last move made.
    spec fn spec_parent(&self) -> Self;

    /// The number of pieces on the board. Every implementation must lower
    /// it on each move flagged as a capture (see `make_move`): that is what
    /// ends quiescence search. A variant in which a capture can bring a
    /// piece back to the board must count something else that every
    /// capture lowers, or flag such moves as quiet.
    spec fn spec_pieces(&self) -> u64;

    fn get_zobrist(&self) -> (r: u64)
        ensures
            r == self.spec_zobrist(),
    ;

    /// Plays `m`; the null move passes the turn.
    fn make_move(&mut self, m: Move)
        ensures
            final(self).spec_parent() == *old(self),
            m.is_capture ==> final(self).spec_pieces() < old(self).spec_pieces(),
    ;

    /// Takes back the last move made.
    fn unmake_move(&mut self)
        ensures
            *final(self) == old(self).spec_parent(),
    ;
}

/// Move generation and the rules of the game.
pub trait MoveGenerator<P: Position> {
    /// The number of pseudo-legal moves of `pos`.
    spec fn spec_pseudo_move_count(&self, pos: P) -> usize;

    /// The pseudo-legal move of `pos` at index `i`, in generation order.
    spec fn spec_pseudo_move(&self, pos: P, i: usize) -> Move;

    /// The number of capturing moves of `pos`.
    spec fn spec_capture_move_count(&self, pos: P) -> usize;

    /// The capturing move of `pos` at index `i`, in generation order.
    spec fn spec_capture_move(&self, pos: P, i: usize) -> Move;

    /// Whether `m`, played in `pos`, is legal.
    spec fn spec_is_legal(&self, pos: P, m: Move) -> bool;

    /// Whether the side to move in `pos` is in check.
    spec fn spec_in_check(&self, pos: P) -> bool;

    fn get_pseudo_moves(&self, pos: &P) -> (r: Vec<Move>)
        ensures
            r@.len() == self.spec_pseudo_move_count(*pos),
            forall|i: int| 0 <= i < r@.len() ==> #[trigger] r@[i] == self.spec_pseudo_move(*pos, i as usize),
    ;

    fn get_capture_moves(&self, pos: &P) -> (r: Vec<Move>)
        ensures
            r@.len() == self.spec_capture_move_count(*pos),
            forall|i: int|
                0 <= i < r@.len() ==> #[trigger] r@[i] == self.spec_capture_move(*pos, i as usize),
            forall|i: int| 0 <= i < r@.len() ==> (#[trigger] r@[i]).is_capture,
    ;

    fn is_move_legal(&self, m: &Move, pos: &P) -> (r: bool)
        ensures
            r == self.spec_is_legal(*pos, *m),
    ;

    fn in_check(&self, pos: &P) -> (r: bool)
        ensures
            r == self.spec_in_check(*pos),
    ;
}

/// Static evaluation and move-ordering scores. An evaluator may keep
/// caches of its own, so it is handed over mutably; its answers depend on
/// the position (and, for move scores, the tables) alone.
pub trait Evaluator<P: Position> {
    /// The static score of `pos` for the side to move; larger is better.
    spec fn spec_evaluate(pos: P) -> isize;

    /// The ordering score of `m` in `pos`, given the search depth and the
    /// killer and history tables.
    spec fn spec_score_move(
        depth: u8,
        history: HistoryTable,
        killers: KillerTable,
        pos: P,
        m: Move,
    ) -> usize;

    /// Whether the side to move in `pos` has enough material that passing
    /// is safe to try (guards against zugzwang).
    spec fn spec_can_null(pos: P) -> bool;

    fn evaluate<M: MoveGenerator<P>>(&mut self, pos: &P, movegen: &M) -> (r: isize)
        ensures
            r == Self::spec_evaluate(*pos),
    ;

    /// How promising `m` looks in `pos`; moves are tried from the highest
    /// score down.
    fn score_move(
        &mut self,
        depth: u8,
        history: &HistoryTable,
        killers: &KillerTable,
        pos: &P,
        m: &Move,
    ) -> (r: usize)
        ensures
            r == Self::spec_score_move(depth, *history, *killers, *pos, *m),
    ;

    fn can_do_null_move(&mut self, pos: &P) -> (r: bool)
        ensures
            r == Self::spec_can_null(*pos),
    ;
}

} // verus!
