use vstd::prelude::*;

use crate::chess_move::Move;
use crate::collaborators::{capture_moves, pseudo_moves, Evaluator, MoveGenerator, Position};
use crate::heuristics::{HistoryTable, KillerTable, KILLER_PLIES};
use crate::transposition::{Entry, EntryFlag, TranspositionTable};

verus! {

/// The score of being checkmated, for the side to move.
pub const MATE_SCORE: isize = 99999;

/// Whether `s[b]` is the first of the highest scores in `s[current..]`:
/// ties go to the move generated first.
pub open spec fn is_first_best(s: Seq<(usize, Move)>, current: int, b: int) -> bool {
    &&& current <= b < s.len()
    &&& forall|k: int| current <= k < s.len() ==> #[trigger] s[k].0 <= s[b].0
    &&& forall|k: int| current <= k < b ==> #[trigger] s[k].0 < s[b].0
}

/// Whether `i` is the first index of `s` that holds the move `m`.
pub open spec fn is_first_move_index(s: Seq<(usize, Move)>, i: int, m: Move) -> bool {
    &&& 0 <= i < s.len()
    &&& s[i].1 == m
    &&& forall|j: int| 0 <= j < i ==> #[trigger] s[j].1 != m
}

/// What the cache entry `entry` settles for a node searched to `depth`
/// with window (`alpha`, `beta`): `Some(score)` when it resolves the node.
pub open spec fn spec_cache_cutoff(entry: Option<Entry>, depth: u8, alpha: isize, beta: isize) -> Option<
    isize,
> {
    match entry {
        Some(e) => if e.depth >= depth {
            match e.flag {
                EntryFlag::Exact => if e.value < alpha {
                    Some(alpha)
                } else if e.value >= beta {
                    Some(beta)
                } else {
                    Some(e.value)
                },
                EntryFlag::Beta => if beta <= e.value {
                    Some(beta)
                } else {
                    None
                },
                EntryFlag::Alpha => if alpha >= e.value {
                    Some(alpha)
                } else {
                    None
                },
                EntryFlag::Null => None,
            }
        } else {
            None
        },
        None => None,
    }
}

/// Whether none of the pseudo-legal moves of `pos` is legal.
pub open spec fn no_legal_moves<P: Position, M: MoveGenerator<P>>(movegen: &M, pos: P) -> bool {
    forall|j: int|
        0 <= j < pseudo_moves(movegen, pos).len() ==> !movegen.spec_is_legal(
            pos,
            #[trigger] pseudo_moves(movegen, pos)[j],
        )
}

/// Whether none of the capturing moves of `pos` is legal.
pub open spec fn no_legal_captures<P: Position, M: MoveGenerator<P>>(movegen: &M, pos: P) -> bool {
    forall|j: int|
        0 <= j < capture_moves(movegen, pos).len() ==> !movegen.spec_is_legal(
            pos,
            #[trigger] capture_moves(movegen, pos)[j],
        )
}

/// Whether null-move pruning is tried at a node: allowed, deep enough,
/// judged safe by the evaluator, and not in check.
pub open spec fn tries_null_move<P: Position, E: Evaluator<P>, M: MoveGenerator<P>>(
    movegen: &M,
    pos: P,
    depth: u8,
    do_null: bool,
) -> bool {
    do_null && depth > 3 && E::spec_can_null(pos) && !movegen.spec_in_check(pos)
}

/// The score of a position without legal moves: checkmate when the side
/// to move is in check, stalemate (0) otherwise.
pub open spec fn spec_terminal_score(in_check: bool) -> isize {
    if in_check {
        (-MATE_SCORE) as isize
    } else {
        0
    }
}

/// Whether `m` is one of the pseudo-legal moves of `pos` and is legal.
pub open spec fn is_legal_move<P: Position, M: MoveGenerator<P>>(movegen: &M, pos: P, m: Move) -> bool {
    pseudo_moves(movegen, pos).contains(m) && movegen.spec_is_legal(pos, m)
}

/// Whether some entry of `s` holds the move `m`.
pub open spec fn holds_move(s: Seq<(usize, Move)>, m: Move) -> bool {
    exists|k: int| 0 <= k < s.len() && s[k].1 == m
}

/// Whether `tt` holds, for the hash of `pos`, the entry that a node
/// searched through its moves to `depth` with window (`alpha`, `beta`)
/// stores when it returns `r`: on a cutoff, a lower bound `beta` with the
/// legal move that caused it; when alpha was raised, the exact score with
/// the legal move that gave it; otherwise an upper bound `alpha`.
pub open spec fn stores_entry<P: Position, M: MoveGenerator<P>>(
    movegen: &M,
    pos: P,
    tt: Map<u64, Entry>,
    depth: u8,
    alpha: isize,
    beta: isize,
    r: isize,
) -> bool {
    let h = pos.spec_zobrist();
    &&& tt.contains_key(h)
    &&& tt[h].key == h
    &&& tt[h].depth == depth
    &&& match tt[h].flag {
        EntryFlag::Beta => tt[h].value == beta && r == beta && is_legal_move(movegen, pos, tt[h].move_),
        EntryFlag::Exact => tt[h].value == r && alpha < r < beta && is_legal_move(
            movegen,
            pos,
            tt[h].move_,
        ),
        EntryFlag::Alpha => tt[h].value == alpha && r == alpha,
        EntryFlag::Null => false,
    }
}

/// Whether no history score of `after` is below that of `before`.
pub open spec fn history_grew(before: HistoryTable, after: HistoryTable) -> bool {
    &&& after@.len() == before@.len()
    &&& forall|i: int| 0 <= i < before@.len() ==> #[trigger] after@[i] >= before@[i]
}

/// `stores_entry` for the cache of `s`; besides, a quiet move that caused
/// a cutoff is a killer of `depth`, and its history score went up by at
/// least `depth` from `before` (or reached `usize::MAX`).
pub open spec fn stores_result<P: Position, M: MoveGenerator<P>>(
    movegen: &M,
    pos: P,
    before: HistoryTable,
    s: Searcher,
    depth: u8,
    alpha: isize,
    beta: isize,
    r: isize,
) -> bool {
    let tt = s.spec_tt();
    let e = tt[pos.spec_zobrist()];
    &&& stores_entry(movegen, pos, tt, depth, alpha, beta, r)
    &&& e.flag == EntryFlag::Beta && !e.move_.is_capture ==> {
        &&& s.spec_killers().spec_killer(depth as int, 0) == e.move_ || s.spec_killers().spec_killer(
            depth as int,
            1,
        ) == e.move_
        &&& s.spec_history().spec_score(e.move_.from as int, e.move_.to as int) >= depth
            + before.spec_score(e.move_.from as int, e.move_.to as int)
            || s.spec_history().spec_score(e.move_.from as int, e.move_.to as int) == usize::MAX
    }
}

/// Whether every entry of `after` is the one `before` held for its hash,
/// or comes from a search no deeper than `depth`.
pub open spec fn entries_within(before: Map<u64, Entry>, after: Map<u64, Entry>, depth: u8) -> bool {
    forall|h: u64|
        #[trigger] after.contains_key(h) ==> (before.contains_key(h) && after[h] == before[h])
            || after[h].depth <= depth
}

/// Whether `tt` holds an entry for the hash of `pos` whose move, unless
/// the entry is an upper bound, is a legal move of `pos`.
pub open spec fn holds_root_move<P: Position, M: MoveGenerator<P>>(
    movegen: &M,
    pos: P,
    tt: Map<u64, Entry>,
) -> bool {
    &&& tt.contains_key(pos.spec_zobrist())
    &&& tt[pos.spec_zobrist()].flag != EntryFlag::Alpha ==> is_legal_move(
        movegen,
        pos,
        tt[pos.spec_zobrist()].move_,
    )
}

/// The figures of one iteration of iterative deepening.
#[derive(Clone, Copy, Debug, PartialEq, Eq, Structural)]
pub struct DepthReport {
    pub depth: u8,
    pub score: isize,
    pub nodes: usize,
    pub fail_high: usize,
    pub fail_high_first: usize,
}

/// The search: a transposition table, the move-ordering tables, and
/// counters of the current iteration.
pub struct Searcher {
    transposition_table: TranspositionTable,
    /// Two killer moves per ply.
    killer_moves: KillerTable,
    /// Indexed by from-square and to-square.
    history_moves: HistoryTable,
    /// Nodes visited.
    nodes_searched: usize,
    /// Beta cutoffs made by the first legal move tried.
    nodes_fail_high_first: usize,
    /// Beta cutoffs.
    nodes_fail_high: usize,
}

/// The cache entry stored for position hash `h`, if any.
pub open spec fn spec_lookup(tt: Map<u64, Entry>, h: u64) -> Option<Entry> {
    if tt.contains_key(h) {
        Some(tt[h])
    } else {
        None
    }
}

impl Searcher {
    pub closed spec fn spec_tt(&self) -> Map<u64, Entry> {
        self.transposition_table@
    }

    pub closed spec fn spec_killers(&self) -> KillerTable {
        self.killer_moves
    }

    pub closed spec fn spec_history(&self) -> HistoryTable {
        self.history_moves
    }

    pub closed spec fn spec_nodes(&self) -> usize {
        self.nodes_searched
    }

    pub closed spec fn spec_fail_high(&self) -> usize {
        self.nodes_fail_high
    }

    pub closed spec fn spec_fail_high_first(&self) -> usize {
        self.nodes_fail_high_first
    }

    pub open spec fn wf(&self) -> bool {
        &&& self.spec_killers().wf()
        &&& self.spec_history().wf()
        &&& self.spec_fail_high_first() <= self.spec_fail_high()
    }

    /// The node counter of `after` is that of `self` plus at least one,
    /// unless it has reached `usize::MAX`.
    pub open spec fn counted_nodes(&self, after: &Searcher) -> bool {
        &&& after.spec_nodes() >= self.spec_nodes()
        &&& self.spec_nodes() < usize::MAX ==> after.spec_nodes() > self.spec_nodes()
    }

    pub open spec fn stats_clear(&self) -> bool {
        &&& self.spec_nodes() == 0
        &&& self.spec_fail_high() == 0
        &&& self.spec_fail_high_first() == 0
    }

    pub open spec fn heuristics_clear(&self) -> bool {
        &&& self.spec_killers().is_clear()
        &&& self.spec_history().is_clear()
    }

    pub fn new() -> (r: Searcher)
        ensures
            r.wf(),
            r.spec_tt() == Map::<u64, Entry>::empty(),
            r.heuristics_clear(),
            r.stats_clear(),
    {
        Searcher {
            transposition_table: TranspositionTable::new(),
            killer_moves: KillerTable::new(),
            history_moves: HistoryTable::new(),
            nodes_searched: 0,
            nodes_fail_high: 0,
            nodes_fail_high_first: 0,
        }
    }

    pub fn nodes_searched(&self) -> (r: usize)
        ensures
            r == self.spec_nodes(),
    {
        self.nodes_searched
    }

    pub fn nodes_fail_high(&self) -> (r: usize)
        ensures
            r == self.spec_fail_high(),
    {
        self.nodes_fail_high
    }

    pub fn nodes_fail_high_first(&self) -> (r: usize)
        ensures
            r == self.spec_fail_high_first(),
    {
        self.nodes_fail_high_first
    }

    pub fn killer_moves(&self) -> (r: &KillerTable)
        ensures
            *r == self.spec_killers(),
    {
        &self.killer_moves
    }

    pub fn history_moves(&self) -> (r: &HistoryTable)
        ensures
            *r == self.spec_history(),
    {
        &self.history_moves
    }

    /// The cache entry stored for the position hash `key`.
    pub fn cached_entry(&self, key: u64) -> (r: Option<Entry>)
        ensures
            r == spec_lookup(self.spec_tt(), key),
    {
        self.transposition_table.retrieve(key)
    }

    /// Resets the killer and history tables.
    pub fn clear_heuristics(&mut self)
        requires
            old(self).wf(),
        ensures
            final(self).wf(),
            final(self).heuristics_clear(),
            final(self).spec_tt() == old(self).spec_tt(),
            final(self).spec_nodes() == old(self).spec_nodes(),
            final(self).spec_fail_high() == old(self).spec_fail_high(),
            final(self).spec_fail_high_first() == old(self).spec_fail_high_first(),
    {
        self.killer_moves.clear();
        self.history_moves.clear();
    }

    /// Resets the node and cutoff counters.
    pub fn clear_search_stats(&mut self)
        requires
            old(self).wf(),
        ensures
            final(self).wf(),
            final(self).stats_clear(),
            final(self).spec_tt() == old(self).spec_tt(),
            final(self).spec_killers() == old(self).spec_killers(),
            final(self).spec_history() == old(self).spec_history(),
    {
        self.nodes_searched = 0;
        self.nodes_fail_high_first = 0;
        self.nodes_fail_high = 0;
    }

    /// Records the quiet move `move_` as the newest killer at `depth`.
    pub fn update_killers(&mut self, depth: u8, move_: Move)
        requires
            old(self).wf(),
            !move_.is_capture ==> depth < KILLER_PLIES,
        ensures
            final(self).wf(),
            move_.is_capture ==> final(self).spec_killers() == old(self).spec_killers(),
            !move_.is_capture ==> final(self).spec_killers()@ == old(self).spec_killers().spec_record(
                depth as int,
                move_,
            ),
            final(self).spec_history() == old(self).spec_history(),
            final(self).spec_tt() == old(self).spec_tt(),
            final(self).spec_nodes() == old(self).spec_nodes(),
            final(self).spec_fail_high() == old(self).spec_fail_high(),
            final(self).spec_fail_high_first() == old(self).spec_fail_high_first(),
    {
        if !move_.get_is_capture() {
            self.killer_moves.record(depth as usize, move_);
        }
    }

    /// Adds `depth` to the history score of the quiet move `move_`; a
    /// capture leaves the table as it is.
    pub fn update_history_heuristic(&mut self, depth: u8, move_: &Move)
        requires
            old(self).wf(),
        ensures
            final(self).wf(),
            final(self).spec_history()@ == (if move_.is_capture {
                old(self).spec_history()@
            } else {
                old(self).spec_history().spec_bump(move_.from as int, move_.to as int, depth as int)
            }),
            final(self).spec_killers() == old(self).spec_killers(),
            final(self).spec_tt() == old(self).spec_tt(),
            final(self).spec_nodes() == old(self).spec_nodes(),
            final(self).spec_fail_high() == old(self).spec_fail_high(),
            final(self).spec_fail_high_first() == old(self).spec_fail_high_first(),
    {
        if !move_.get_is_capture() {
            self.history_moves.bump(move_.get_from(), move_.get_to(), depth as usize);
        }
    }

    /// One step of selection sort: swaps into `current_index` the first of
    /// the highest-scored moves at or after it.
    pub fn sort_moves(current_index: usize, moves: &mut Vec<(usize, Move)>)
        ensures
            current_index >= old(moves)@.len() ==> final(moves)@ == old(moves)@,
            current_index < old(moves)@.len() ==> exists|b: int|
                is_first_best(old(moves)@, current_index as int, b) && final(moves)@ == old(
                    moves,
                )@.update(current_index as int, old(moves)@[b]).update(
                    b,
                    old(moves)@[current_index as int],
                ),
    {
        let n = moves.len();
        let mut best_score: usize = 0;
        let mut best_score_index: usize = current_index;
        let mut i: usize = current_index;
        while i < n
            invariant
                n == moves@.len(),
                moves@ == old(moves)@,
                current_index <= i <= n || (i == current_index && current_index >= n),
                current_index <= best_score_index,
                best_score_index < i || best_score_index == current_index,
                i == current_index ==> best_score == 0,
                i > current_index ==> best_score == moves@[best_score_index as int].0,
                forall|k: int| current_index <= k < i ==> #[trigger] moves@[k].0 <= best_score,
                forall|k: int| current_index <= k < best_score_index ==> #[trigger] moves@[k].0 < best_score,
            decreases n - i,
        {
            let score = moves[i].0;
            if score > best_score {
                best_score = score;
                best_score_index = i;
            }
            i = i + 1;
        }
        if current_index < n {
            assert(is_first_best(old(moves)@, current_index as int, best_score_index as int));
            if current_index != best_score_index {
                let a = moves[current_index];
                let b = moves[best_score_index];
                moves.set(current_index, b);
                moves.set(best_score_index, a);
            } else {
                assert(moves@ =~= old(moves)@.update(current_index as int, old(moves)@[best_score_index as int]).update(
                    best_score_index as int,
                    old(moves)@[current_index as int],
                ));
            }
        }
    }

    /// Gives the first entry that holds `best` the highest possible score,
    /// so that it is tried first.
    pub fn promote_move(moves: &mut Vec<(usize, Move)>, best: Move)
        ensures
            (forall|j: int| 0 <= j < old(moves)@.len() ==> #[trigger] old(moves)@[j].1 != best)
                ==> final(moves)@ == old(moves)@,
            final(moves)@.len() == old(moves)@.len(),
            forall|i: int|
                0 <= i < old(moves)@.len() ==> (#[trigger] final(moves)@[i]).1 == old(moves)@[i].1,
            forall|i: int|
                is_first_move_index(final(moves)@, i, best) ==> (#[trigger] final(moves)@[i]).0
                    == usize::MAX,
            forall|i: int|
                0 <= i < old(moves)@.len() && !is_first_move_index(old(moves)@, i, best) ==> (
                #[trigger] final(moves)@[i]) == old(moves)@[i],
            forall|i: int|
                is_first_move_index(old(moves)@, i, best) ==> final(moves)@ == old(moves)@.update(
                    i,
                    (usize::MAX, best),
                ),
    {
        let n = moves.len();
        let mut i: usize = 0;
        while i < n
            invariant
                n == moves@.len(),
                moves@ == old(moves)@,
                i <= n,
                forall|j: int| 0 <= j < i ==> #[trigger] moves@[j].1 != best,
            decreases n - i,
        {
            if moves[i].1 == best {
                moves.set(i, (usize::MAX, best));
                assert forall|k: int| is_first_move_index(old(moves)@, k, best) implies k == i by {
                    if k < i {
                    } else if k > i {
                        assert(old(moves)@[i as int].1 == best);
                    }
                }
                assert forall|k: int| is_first_move_index(moves@, k, best) implies k == i by {
                    if k < i {
                        assert(moves@[k].1 == old(moves)@[k].1);
                    } else if k > i {
                        assert(moves@[i as int].1 == best);
                    }
                }
                return;
            }
            i = i + 1;
        }
    }
    /// Pairs each of `moves` with the evaluator's ordering score.
    fn score_moves<P: Position, E: Evaluator<P>>(
        &self,
        eval: &mut E,
        position: &P,
        moves: &Vec<Move>,
        depth: u8,
    ) -> (r: Vec<(usize, Move)>)
        ensures
            r@.len() == moves@.len(),
            forall|i: int| 0 <= i < r@.len() ==> (#[trigger] r@[i]).1 == moves@[i],
            forall|i: int|
                0 <= i < r@.len() ==> (#[trigger] r@[i]).0 == E::spec_score_move(
                    depth,
                    self.history_moves,
                    self.killer_moves,
                    *position,
                    moves@[i],
                ),
    {
        let mut scored: Vec<(usize, Move)> = Vec::new();
        let mut i: usize = 0;
        while i < moves.len()
            invariant
                i <= moves@.len(),
                scored@.len() == i,
                forall|k: int| 0 <= k < i ==> (#[trigger] scored@[k]).1 == moves@[k],
                forall|k: int|
                    0 <= k < i ==> (#[trigger] scored@[k]).0 == E::spec_score_move(
                        depth,
                        self.history_moves,
                        self.killer_moves,
                        *position,
                        moves@[k],
                    ),
            decreases moves@.len() - i,
        {
            let m = moves[i];
            let score = eval.score_move(depth, &self.history_moves, &self.killer_moves, position, &m);
            scored.push((score, m));
            i = i + 1;
        }
        scored
    }

    /// Scores the pseudo-legal moves of `position`; the move cached for
    /// the position, if among them, gets `usize::MAX`.
    pub fn get_scored_pseudo_moves<P: Position, E: Evaluator<P>, M: MoveGenerator<P>>(
        &mut self,
        eval: &mut E,
        movegen: &M,
        position: &mut P,
        depth: u8,
    ) -> (r: Vec<(usize, Move)>)
        ensures
            *final(self) == *old(self),
            *final(position) == *old(position),
            r@.len() == pseudo_moves(movegen, *old(position)).len(),
            forall|i: int|
                0 <= i < r@.len() ==> (#[trigger] r@[i]).1 == pseudo_moves(movegen, 
                    *old(position),
                )[i],
            forall|i: int|
                old(self).spec_tt().contains_key(old(position).spec_zobrist()) && is_first_move_index(
                    r@,
                    i,
                    old(self).spec_tt()[old(position).spec_zobrist()].move_,
                ) ==> (#[trigger] r@[i]).0 == usize::MAX,
            forall|i: int|
                0 <= i < r@.len() && !(old(self).spec_tt().contains_key(old(position).spec_zobrist())
                    && is_first_move_index(
                    r@,
                    i,
                    old(self).spec_tt()[old(position).spec_zobrist()].move_,
                )) ==> (#[trigger] r@[i]).0 == E::spec_score_move(
                    depth,
                    old(self).spec_history(),
                    old(self).spec_killers(),
                    *old(position),
                    r@[i].1,
                ),
    {
        let moves = movegen.get_pseudo_moves(position);
        let mut scored = self.score_moves(eval, position, &moves, depth);
        if let Some(entry) = self.transposition_table.retrieve(position.get_zobrist()) {
            Searcher::promote_move(&mut scored, entry.move_);
        }
        scored
    }

    /// Scores the capturing moves of `position`; the move cached for the
    /// position, if among them, gets `usize::MAX`.
    pub fn get_scored_capture_moves<P: Position, E: Evaluator<P>, M: MoveGenerator<P>>(
        &mut self,
        eval: &mut E,
        movegen: &M,
        position: &mut P,
        depth: u8,
    ) -> (r: Vec<(usize, Move)>)
        ensures
            *final(self) == *old(self),
            *final(position) == *old(position),
            r@.len() == capture_moves(movegen, *old(position)).len(),
            forall|i: int|
                0 <= i < r@.len() ==> (#[trigger] r@[i]).1 == capture_moves(movegen, 
                    *old(position),
                )[i] && r@[i].1.is_capture,
            forall|i: int|
                old(self).spec_tt().contains_key(old(position).spec_zobrist()) && is_first_move_index(
                    r@,
                    i,
                    old(self).spec_tt()[old(position).spec_zobrist()].move_,
                ) ==> (#[trigger] r@[i]).0 == usize::MAX,
            forall|i: int|
                0 <= i < r@.len() && !(old(self).spec_tt().contains_key(old(position).spec_zobrist())
                    && is_first_move_index(
                    r@,
                    i,
                    old(self).spec_tt()[old(position).spec_zobrist()].move_,
                )) ==> (#[trigger] r@[i]).0 == E::spec_score_move(
                    depth,
                    old(self).spec_history(),
                    old(self).spec_killers(),
                    *old(position),
                    r@[i].1,
                ),
    {
        let moves = movegen.get_capture_moves(position);
        let mut scored = self.score_moves(eval, position, &moves, depth);
        if let Some(entry) = self.transposition_table.retrieve(position.get_zobrist()) {
            Searcher::promote_move(&mut scored, entry.move_);
        }
        scored
    }

    /// Searches captures only, from a stand-pat score, until no capture is
    /// left. The result lies in [`alpha`, `beta`]. Only the counters change.
    pub fn quiesce<P: Position, E: Evaluator<P>, M: MoveGenerator<P>>(
        &mut self,
        position: &mut P,
        eval: &mut E,
        movegen: &M,
        depth: u8,
        alpha: isize,
        beta: isize,
    ) -> (r: isize)
        requires
            old(self).wf(),
            -isize::MAX <= alpha < beta <= isize::MAX,
        ensures
            final(self).wf(),
            *final(position) == *old(position),
            alpha <= r <= beta,
            E::spec_evaluate(*old(position)) >= beta ==> r == beta,
            E::spec_evaluate(*old(position)) < beta ==> r >= E::spec_evaluate(*old(position)),
            E::spec_evaluate(*old(position)) < beta && no_legal_captures(movegen, *old(position))
                ==> r == (if E::spec_evaluate(*old(position)) > alpha {
                E::spec_evaluate(*old(position))
            } else {
                alpha
            }),
            old(self).counted_nodes(&*final(self)),
            final(self).spec_tt() == old(self).spec_tt(),
            final(self).spec_killers() == old(self).spec_killers(),
            final(self).spec_history() == old(self).spec_history(),
        decreases old(position).spec_pieces(),
    {
        let mut best: isize = alpha;
        self.nodes_searched = self.nodes_searched.saturating_add(1);
        let stand_pat = eval.evaluate(position, movegen);
        if stand_pat >= beta {
            return beta;
        }
        if stand_pat > best {
            best = stand_pat;
        }
        let ghost pos0 = *position;
        let mut num_legal_moves: usize = 0;
        let mut moves_and_score = self.get_scored_capture_moves(eval, movegen, position, depth);
        let n = moves_and_score.len();
        let mut i: usize = 0;
        while i < n
            invariant
                self.wf(),
                *position == pos0,
                pos0 == *old(position),
                n == moves_and_score@.len(),
                i <= n,
                num_legal_moves <= i,
                forall|k: int| 0 <= k < n ==> (#[trigger] moves_and_score@[k]).1.is_capture,
                forall|k: int|
                    0 <= k < n ==> capture_moves(movegen, pos0).contains(
                        (#[trigger] moves_and_score@[k]).1,
                    ),
                stand_pat < beta,
                stand_pat == E::spec_evaluate(pos0),
                best == (if stand_pat > alpha { stand_pat } else { alpha }) || (best > stand_pat
                    && best > alpha && !no_legal_captures(movegen, pos0)),
                alpha <= best < beta,
                -isize::MAX <= alpha,
                beta <= isize::MAX,
                self.spec_tt() == old(self).spec_tt(),
                self.spec_killers() == old(self).spec_killers(),
                self.spec_history() == old(self).spec_history(),
                old(self).counted_nodes(&*self),
            decreases n - i,
        {
            Searcher::sort_moves(i, &mut moves_and_score);
            let move_ = moves_and_score[i].1;
            if movegen.is_move_legal(&move_, position) {
                num_legal_moves = num_legal_moves + 1;
                position.make_move(move_);
                let score = -self.quiesce(position, eval, movegen, depth, -beta, -best);
                position.unmake_move();
                if score >= beta {
                    if num_legal_moves == 1 {
                        self.nodes_fail_high_first = self.nodes_fail_high_first.saturating_add(1);
                    }
                    self.nodes_fail_high = self.nodes_fail_high.saturating_add(1);
                    return beta;
                }
                if score > best {
                    best = score;
                }
            }
            i = i + 1;
        }
        best
    }

    /// The score that the cache entry `entry` settles a node with, if any.
    pub fn cache_cutoff(entry: Option<Entry>, depth: u8, alpha: isize, beta: isize) -> (r: Option<
        isize,
    >)
        ensures
            r == spec_cache_cutoff(entry, depth, alpha, beta),
    {
        match entry {
            Some(e) => {
                if e.depth >= depth {
                    match e.flag {
                        EntryFlag::Exact => {
                            if e.value < alpha {
                                return Some(alpha);
                            }
                            if e.value >= beta {
                                return Some(beta);
                            }
                            Some(e.value)
                        },
                        EntryFlag::Beta => {
                            if beta <= e.value {
                                Some(beta)
                            } else {
                                None
                            }
                        },
                        EntryFlag::Alpha => {
                            if alpha >= e.value {
                                Some(alpha)
                            } else {
                                None
                            }
                        },
                        EntryFlag::Null => None,
                    }
                } else {
                    None
                }
            },
            None => None,
        }
    }

    /// Null-move pruning: when allowed, deep enough, not in check and the
    /// evaluator judges passing safe, lets the opponent move twice in a
    /// reduced, null-window search. `Some(beta)` when even that fails high.
    pub fn try_null_move<P: Position, E: Evaluator<P>, M: MoveGenerator<P>>(
        &mut self,
        position: &mut P,
        eval: &mut E,
        movegen: &M,
        depth: u8,
        alpha: isize,
        beta: isize,
        do_null: bool,
    ) -> (r: Option<isize>)
        requires
            old(self).wf(),
            depth < KILLER_PLIES,
            -isize::MAX <= alpha < beta <= isize::MAX,
        ensures
            final(self).wf(),
            *final(position) == *old(position),
            r is Some ==> r == Some(beta) && do_null && depth > 3 && !movegen.spec_in_check(
                *old(position),
            ),
            !tries_null_move::<P, E, M>(movegen, *old(position), depth, do_null) ==> *final(self)
                == *old(self) && r is None,
            final(self).spec_nodes() >= old(self).spec_nodes(),
            entries_within(old(self).spec_tt(), final(self).spec_tt(), depth),
            history_grew(old(self).spec_history(), final(self).spec_history()),
        decreases depth, 0nat,
    {
        if do_null {
            if depth > 3 && eval.can_do_null_move(position) && !movegen.in_check(position) {
                position.make_move(Move::null());
                let nscore = -self.alphabeta(
                    position,
                    eval,
                    movegen,
                    depth - 3,
                    -beta,
                    -beta + 1,
                    false,
                );
                position.unmake_move();
                if nscore >= beta {
                    return Some(beta);
                }
            }
        }
        None
    }

    /// Fail-hard negamax alpha-beta search of `position` to `depth`, with
    /// the cache, null-move pruning and principal-variation search. The
    /// score is for the side to move and lies in [`alpha`, `beta`], but
    /// for a position without legal moves, which scores checkmate or 0.
    pub fn alphabeta<P: Position, E: Evaluator<P>, M: MoveGenerator<P>>(
        &mut self,
        position: &mut P,
        eval: &mut E,
        movegen: &M,
        depth: u8,
        alpha: isize,
        beta: isize,
        do_null: bool,
    ) -> (r: isize)
        requires
            old(self).wf(),
            depth < KILLER_PLIES,
            -isize::MAX <= alpha < beta <= isize::MAX,
        ensures
            final(self).wf(),
            *final(position) == *old(position),
            depth == 0 || !no_legal_moves(movegen, *old(position)) ==> alpha <= r <= beta,
            no_legal_moves(movegen, *old(position)) ==> alpha <= r <= beta || r == -MATE_SCORE
                || r == 0,
            old(self).counted_nodes(&*final(self)),
            entries_within(old(self).spec_tt(), final(self).spec_tt(), depth),
            history_grew(old(self).spec_history(), final(self).spec_history()),
            depth > 0 && spec_cache_cutoff(
                spec_lookup(old(self).spec_tt(), old(position).spec_zobrist()),
                depth,
                alpha,
                beta,
            ) is Some ==> spec_cache_cutoff(
                spec_lookup(old(self).spec_tt(), old(position).spec_zobrist()),
                depth,
                alpha,
                beta,
            ) == Some(r) && final(self).spec_tt() == old(self).spec_tt() && final(self).spec_killers() == old(
                self,
            ).spec_killers() && final(self).spec_history() == old(self).spec_history(),
            depth > 0 && spec_cache_cutoff(
                spec_lookup(old(self).spec_tt(), old(position).spec_zobrist()),
                depth,
                alpha,
                beta,
            ) is None && no_legal_moves(movegen, *old(position)) ==> r == spec_terminal_score(movegen.spec_in_check(*old(position))) || (
            tries_null_move::<P, E, M>(movegen, *old(position), depth, do_null) && r == beta),
            depth > 0 && spec_cache_cutoff(
                spec_lookup(old(self).spec_tt(), old(position).spec_zobrist()),
                depth,
                alpha,
                beta,
            ) is None && no_legal_moves(movegen, *old(position)) && !tries_null_move::<P, E, M>(movegen, *old(position), depth, do_null) ==> r
                == spec_terminal_score(movegen.spec_in_check(*old(position))) && final(self).spec_tt() == old(self).spec_tt() && final(self).spec_killers() == old(
                self,
            ).spec_killers() && final(self).spec_history() == old(self).spec_history(),
            depth > 0 && spec_cache_cutoff(
                spec_lookup(old(self).spec_tt(), old(position).spec_zobrist()),
                depth,
                alpha,
                beta,
            ) is None && !no_legal_moves(movegen, *old(position)) ==> (tries_null_move::<P, E, M>(movegen, *old(position), depth, do_null) && r
                == beta) || stores_result(
                movegen,
                *old(position),
                old(self).spec_history(),
                *final(self),
                depth,
                alpha,
                beta,
                r,
            ),
        decreases depth, 1nat,
    {
        self.nodes_searched = self.nodes_searched.saturating_add(1);
        if depth == 0 {
            return self.quiesce(position, eval, movegen, depth, alpha, beta);
        }
        let hash = position.get_zobrist();
        if let Some(v) = Searcher::cache_cutoff(
            self.transposition_table.retrieve(hash),
            depth,
            alpha,
            beta,
        ) {
            return v;
        }
        if let Some(b) = self.try_null_move(position, eval, movegen, depth, alpha, beta, do_null) {
            return b;
        }
        let ghost pos0 = *position;
        let mut moves_and_score = self.get_scored_pseudo_moves(eval, movegen, position, depth);
        let mut best_move = Move::null();
        let mut num_legal_moves: usize = 0;
        let mut best: isize = alpha;
        let mut best_score: isize = -isize::MAX;
        let mut search_pv = true;
        let n = moves_and_score.len();
        let ghost s0 = *self;
        assert forall|j: int| 0 <= j < pseudo_moves(movegen, pos0).len() implies holds_move(
            moves_and_score@,
            #[trigger] pseudo_moves(movegen, pos0)[j],
        ) by {
            assert(moves_and_score@[j].1 == pseudo_moves(movegen, pos0)[j]);
        }
        let mut i: usize = 0;
        while i < n
            invariant
                self.wf(),
                forall|j: int|
                    0 <= j < pseudo_moves(movegen, pos0).len() ==> holds_move(
                        moves_and_score@,
                        #[trigger] pseudo_moves(movegen, pos0)[j],
                    ),
                num_legal_moves == 0 ==> forall|k: int|
                    0 <= k < i ==> !movegen.spec_is_legal(pos0, #[trigger] moves_and_score@[k].1),
                num_legal_moves == 0 ==> self.spec_tt() == s0.spec_tt() && self.spec_killers()
                    == s0.spec_killers() && self.spec_history() == s0.spec_history(),
                !tries_null_move::<P, E, M>(movegen, pos0, depth, do_null) ==> s0.spec_tt() == old(
                    self,
                ).spec_tt() && s0.spec_killers() == old(self).spec_killers() && s0.spec_history()
                    == old(self).spec_history(),
                best != alpha ==> is_legal_move(movegen, pos0, best_move),
                entries_within(old(self).spec_tt(), self.spec_tt(), depth),
                history_grew(old(self).spec_history(), self.spec_history()),
                *position == pos0,
                pos0 == *old(position),
                hash == pos0.spec_zobrist(),
                n == moves_and_score@.len(),
                i <= n,
                num_legal_moves <= i,
                0 < depth < KILLER_PLIES,
                alpha <= best < beta,
                -isize::MAX <= alpha,
                beta <= isize::MAX,
                forall|k: int|
                    0 <= k < n ==> pseudo_moves(movegen, pos0).contains(
                        (#[trigger] moves_and_score@[k]).1,
                    ),
                no_legal_moves(movegen, pos0) ==> num_legal_moves == 0,
                old(self).counted_nodes(&*self),
                best != alpha ==> best_score == best,
                spec_cache_cutoff(spec_lookup(old(self).spec_tt(), hash), depth, alpha, beta) is None,
            decreases n - i,
        {
            let ghost before = moves_and_score@;
            Searcher::sort_moves(i, &mut moves_and_score);
            proof {
                let b = choose|b: int|
                    is_first_best(before, i as int, b) && moves_and_score@ == before.update(
                        i as int,
                        before[b],
                    ).update(b, before[i as int]);
                assert forall|j: int| 0 <= j < pseudo_moves(movegen, pos0).len() implies holds_move(
                    moves_and_score@,
                    #[trigger] pseudo_moves(movegen, pos0)[j],
                ) by {
                    let m = pseudo_moves(movegen, pos0)[j];
                    assert(holds_move(before, m));
                    let k = choose|k: int| 0 <= k < before.len() && before[k].1 == m;
                    if k == i {
                        assert(moves_and_score@[b].1 == m);
                    } else if k == b {
                        assert(moves_and_score@[i as int].1 == m);
                    } else {
                        assert(moves_and_score@[k].1 == m);
                    }
                }
            }
            let move_ = moves_and_score[i].1;
            if movegen.is_move_legal(&move_, position) {
                num_legal_moves = num_legal_moves + 1;
                position.make_move(move_);
                let mut score: isize;
                if search_pv {
                    score = -self.alphabeta(position, eval, movegen, depth - 1, -beta, -best, true);
                } else {
                    score = -self.alphabeta(
                        position,
                        eval,
                        movegen,
                        depth - 1,
                        -best - 1,
                        -best,
                        true,
                    );
                    if score > best && score < beta {
                        score = -self.alphabeta(position, eval, movegen, depth - 1, -beta, -best, true);
                    }
                }
                position.unmake_move();
                if score > best_score {
                    best_score = score;
                    best_move = move_;
                    if score > best {
                        if score >= beta {
                            if num_legal_moves == 1 {
                                self.nodes_fail_high_first = self.nodes_fail_high_first.saturating_add(1);
                            }
                            self.nodes_fail_high = self.nodes_fail_high.saturating_add(1);
                            self.update_killers(depth, move_);
                            self.update_history_heuristic(depth, &move_);
                            self.transposition_table.insert(
                                hash,
                                Entry { key: hash, flag: EntryFlag::Beta, value: beta, move_, depth },
                            );
                            return beta;
                        }
                        search_pv = false;
                        best = score;
                    }
                }
            }
            i = i + 1;
        }
        if num_legal_moves == 0 {
            assert(no_legal_moves(movegen, pos0)) by {
                assert forall|j: int| 0 <= j < pseudo_moves(movegen, pos0).len() implies !movegen.spec_is_legal(
                    pos0,
                    #[trigger] pseudo_moves(movegen, pos0)[j],
                ) by {
                    let m = pseudo_moves(movegen, pos0)[j];
                    assert(holds_move(moves_and_score@, m));
                    let k = choose|k: int| 0 <= k < moves_and_score@.len() && moves_and_score@[k].1 == m;
                    assert(!movegen.spec_is_legal(pos0, moves_and_score@[k].1));
                }
            }
            return if movegen.in_check(position) {
                -MATE_SCORE
            } else {
                0
            };
        }
        if best != alpha {
            self.transposition_table.insert(
                hash,
                Entry { key: hash, flag: EntryFlag::Exact, value: best_score, move_: best_move, depth },
            );
        } else {
            self.transposition_table.insert(
                hash,
                Entry { key: hash, flag: EntryFlag::Alpha, value: best, move_: best_move, depth },
            );
        }
        best
    }

    /// One iteration of iterative deepening: a full-window search to
    /// `depth`, the figures of that search, then the move-ordering tables
    /// and the counters reset for the next iteration.
    pub fn search_depth<P: Position, E: Evaluator<P>, M: MoveGenerator<P>>(
        &mut self,
        position: &mut P,
        eval: &mut E,
        movegen: &M,
        depth: u8,
    ) -> (r: DepthReport)
        requires
            old(self).wf(),
            depth < KILLER_PLIES,
        ensures
            final(self).wf(),
            *final(position) == *old(position),
            final(self).heuristics_clear(),
            final(self).stats_clear(),
            r.depth == depth,
            r.fail_high_first <= r.fail_high,
            r.nodes >= 1,
            r.nodes >= old(self).spec_nodes(),
            old(self).spec_nodes() < usize::MAX ==> r.nodes > old(self).spec_nodes(),
            -isize::MAX <= r.score <= isize::MAX,
            entries_within(old(self).spec_tt(), final(self).spec_tt(), depth),
            depth > 0 && spec_cache_cutoff(
                spec_lookup(old(self).spec_tt(), old(position).spec_zobrist()),
                depth,
                -isize::MAX as isize,
                isize::MAX,
            ) is Some ==> spec_cache_cutoff(
                spec_lookup(old(self).spec_tt(), old(position).spec_zobrist()),
                depth,
                -isize::MAX as isize,
                isize::MAX,
            ) == Some(r.score),
            depth > 0 && spec_cache_cutoff(
                spec_lookup(old(self).spec_tt(), old(position).spec_zobrist()),
                depth,
                -isize::MAX as isize,
                isize::MAX,
            ) is None && no_legal_moves(movegen, *old(position)) ==> r.score
                == spec_terminal_score(movegen.spec_in_check(*old(position))) || (tries_null_move::<P, E, M>(movegen, *old(position), depth, true) && r.score
                == isize::MAX),
            depth > 0 && spec_cache_cutoff(
                spec_lookup(old(self).spec_tt(), old(position).spec_zobrist()),
                depth,
                -isize::MAX as isize,
                isize::MAX,
            ) is None && !no_legal_moves(movegen, *old(position)) ==> (tries_null_move::<P, E, M>(movegen, *old(position), depth, true)
                && r.score == isize::MAX) || stores_entry(
                movegen,
                *old(position),
                final(self).spec_tt(),
                depth,
                -isize::MAX as isize,
                isize::MAX,
                r.score,
            ),
    {
        let score = self.alphabeta(position, eval, movegen, depth, -isize::MAX, isize::MAX, true);
        let report = DepthReport {
            depth,
            score,
            nodes: self.nodes_searched,
            fail_high: self.nodes_fail_high,
            fail_high_first: self.nodes_fail_high_first,
        };
        self.clear_heuristics();
        self.clear_search_stats();
        report
    }

    /// Iterative deepening from depth 1 to `depth`; the result is the move
    /// that the cache holds for `position` afterwards, if any.
    pub fn get_best_move<P: Position, E: Evaluator<P>, M: MoveGenerator<P>>(
        &mut self,
        position: &mut P,
        eval: &mut E,
        movegen: &M,
        depth: u8,
    ) -> (r: Option<Move>)
        requires
            old(self).wf(),
            depth < KILLER_PLIES,
        ensures
            final(self).wf(),
            *final(position) == *old(position),
            r == (match spec_lookup(final(self).spec_tt(), old(position).spec_zobrist()) {
                Some(e) => Some(e.move_),
                None => None::<Move>,
            }),
            final(self).heuristics_clear(),
            depth == 0 ==> final(self).spec_tt() == old(self).spec_tt(),
            depth > 0 ==> final(self).stats_clear(),
            depth > 0 && old(self).spec_tt() == Map::<u64, Entry>::empty() && !no_legal_moves(
                movegen,
                *old(position),
            ) && !tries_null_move::<P, E, M>(movegen, *old(position), depth, true) ==> r is Some
                && holds_root_move(movegen, *old(position), final(self).spec_tt()),
    {
        self.clear_heuristics();
        let mut d: u8 = 1;
        while d <= depth
            invariant
                self.wf(),
                self.heuristics_clear(),
                *position == *old(position),
                1 <= d <= depth + 1,
                depth < KILLER_PLIES,
                d == 1 ==> self.spec_tt() == old(self).spec_tt(),
                d > 1 ==> self.stats_clear(),
                old(self).spec_tt() == Map::<u64, Entry>::empty() ==> forall|h: u64|
                    #[trigger] self.spec_tt().contains_key(h) ==> self.spec_tt()[h].depth < d,
                d > 1 && old(self).spec_tt() == Map::<u64, Entry>::empty() && !no_legal_moves(
                    movegen,
                    *old(position),
                ) && !tries_null_move::<P, E, M>(movegen, *old(position), (d - 1) as u8, true)
                    ==> holds_root_move(movegen, *old(position), self.spec_tt()),
            decreases depth + 1 - d,
        {
            self.search_depth(position, eval, movegen, d);
            d = d + 1;
        }
        match self.transposition_table.retrieve(position.get_zobrist()) {
            Some(entry) => Some(entry.move_),
            None => None,
        }
    }
}

/// The killer table of a well-formed searcher holds no capture: every
/// slot of every ply is a quiet move (or the null move). Every method of
/// `Searcher` keeps it well-formed.
pub proof fn lemma_killers_hold_no_capture(s: &Searcher)
    requires
        s.wf(),
    ensures
        forall|ply: int, k: int|
            0 <= ply < KILLER_PLIES && 0 <= k < 2 ==> !(#[trigger] s.spec_killers().spec_killer(
                ply,
                k,
            )).is_capture,
{
    assert forall|ply: int, k: int| 0 <= ply < KILLER_PLIES && 0 <= k < 2 implies !(
    #[trigger] s.spec_killers().spec_killer(ply, k)).is_capture by {
        assert(s.spec_killers()@[2 * ply + k] == s.spec_killers().spec_killer(ply, k));
    }
}

} // verus!
