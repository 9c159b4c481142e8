use vstd::prelude::*;

use crate::chess_move::Move;

verus! {

/// Number of plies the killer table has room for.
pub const KILLER_PLIES: usize = 64;

/// Number of squares a history index ranges over (a `u8` square).
pub const SQUARES: usize = 256;

/// Two killer moves per ply, most recent first. Only quiet moves (moves
/// that capture nothing) are ever held.
pub struct KillerTable {
    slots: Vec<Move>,
}

impl View for KillerTable {
    type V = Seq<Move>;

    closed spec fn view(&self) -> Seq<Move> {
        self.slots@
    }
}

impl KillerTable {
    /// Slot `k` of ply `ply` sits at `2 * ply + k`.
    pub open spec fn spec_killer(&self, ply: int, k: int) -> Move {
        self@[2 * ply + k]
    }

    /// The slots after `m` is recorded at ply `ply`.
    pub open spec fn spec_record(&self, ply: int, m: Move) -> Seq<Move> {
        if m.is_capture || m == self.spec_killer(ply, 0) || m == self.spec_killer(ply, 1) {
            self@
        } else {
            self@.update(2 * ply + 1, self.spec_killer(ply, 0)).update(2 * ply, m)
        }
    }

    pub open spec fn wf(&self) -> bool {
        &&& self@.len() == 2 * KILLER_PLIES
        &&& forall|i: int| 0 <= i < self@.len() ==> !(#[trigger] self@[i]).is_capture
    }

    pub open spec fn is_clear(&self) -> bool {
        &&& self@.len() == 2 * KILLER_PLIES
        &&& forall|i: int| 0 <= i < self@.len() ==> #[trigger] self@[i] == Move::spec_null()
    }

    pub fn new() -> (r: KillerTable)
        ensures
            r.wf(),
            r.is_clear(),
    {
        let mut slots: Vec<Move> = Vec::new();
        let mut i: usize = 0;
        while i < 2 * KILLER_PLIES
            invariant
                i <= 2 * KILLER_PLIES,
                slots@.len() == i,
                forall|j: int| 0 <= j < i ==> #[trigger] slots@[j] == Move::spec_null(),
            decreases 2 * KILLER_PLIES - i,
        {
            slots.push(Move::null());
            i = i + 1;
        }
        KillerTable { slots }
    }

    /// Sets every slot to the null move.
    pub fn clear(&mut self)
        requires
            old(self).wf(),
        ensures
            final(self).wf(),
            final(self).is_clear(),
    {
        let n = self.slots.len();
        let mut i: usize = 0;
        while i < n
            invariant
                n == 2 * KILLER_PLIES,
                i <= n,
                self.slots@.len() == n,
                forall|j: int| 0 <= j < i ==> #[trigger] self.slots@[j] == Move::spec_null(),
            decreases n - i,
        {
            self.slots.set(i, Move::null());
            i = i + 1;
        }
    }

    /// Killer `k` (0 is the most recent) of ply `ply`.
    pub fn get(&self, ply: usize, k: usize) -> (r: Move)
        requires
            self.wf(),
            ply < KILLER_PLIES,
            k < 2,
        ensures
            r == self.spec_killer(ply as int, k as int),
    {
        self.slots[2 * ply + k]
    }

    /// Records the quiet move `m` as the newest killer of ply `ply`, unless
    /// it is already one of its two killers. A capture is ignored.
    pub fn record(&mut self, ply: usize, m: Move)
        requires
            old(self).wf(),
            ply < KILLER_PLIES,
        ensures
            final(self).wf(),
            final(self)@ == old(self).spec_record(ply as int, m),
    {
        if !m.is_capture {
            let first = self.slots[2 * ply];
            let second = self.slots[2 * ply + 1];
            if m != first && m != second {
                self.slots.set(2 * ply + 1, first);
                self.slots.set(2 * ply, m);
            }
        }
    }
}

/// An accumulating score per (from-square, to-square) pair, raised each
/// time a quiet move with those squares proves good.
pub struct HistoryTable {
    scores: Vec<usize>,
}

impl View for HistoryTable {
    type V = Seq<usize>;

    closed spec fn view(&self) -> Seq<usize> {
        self.scores@
    }
}

impl HistoryTable {
    /// The score of a pair sits at `from * 256 + to`.
    pub open spec fn spec_score(&self, from: int, to: int) -> usize {
        self@[from * SQUARES + to]
    }

    /// The scores after `amount` is added to the pair (`from`, `to`),
    /// saturating at `usize::MAX`.
    pub open spec fn spec_bump(&self, from: int, to: int, amount: int) -> Seq<usize> {
        let v = self.spec_score(from, to) + amount;
        self@.update(from * SQUARES + to, if v > usize::MAX { usize::MAX } else { v as usize })
    }

    pub open spec fn wf(&self) -> bool {
        self@.len() == SQUARES * SQUARES
    }

    pub open spec fn is_clear(&self) -> bool {
        &&& self.wf()
        &&& forall|i: int| 0 <= i < self@.len() ==> #[trigger] self@[i] == 0
    }

    pub fn new() -> (r: HistoryTable)
        ensures
            r.is_clear(),
    {
        let mut scores: Vec<usize> = Vec::new();
        let mut i: usize = 0;
        while i < SQUARES * SQUARES
            invariant
                i <= SQUARES * SQUARES,
                scores@.len() == i,
                forall|j: int| 0 <= j < i ==> #[trigger] scores@[j] == 0,
            decreases SQUARES * SQUARES - i,
        {
            scores.push(0);
            i = i + 1;
        }
        HistoryTable { scores }
    }

    /// Sets every score to zero.
    pub fn clear(&mut self)
        requires
            old(self).wf(),
        ensures
            final(self).is_clear(),
    {
        let n = self.scores.len();
        let mut i: usize = 0;
        while i < n
            invariant
                n == SQUARES * SQUARES,
                i <= n,
                self.scores@.len() == n,
                forall|j: int| 0 <= j < i ==> #[trigger] self.scores@[j] == 0,
            decreases n - i,
        {
            self.scores.set(i, 0);
            i = i + 1;
        }
    }

    /// The score of the pair (`from`, `to`).
    pub fn get(&self, from: u8, to: u8) -> (r: usize)
        requires
            self.wf(),
        ensures
            r == self.spec_score(from as int, to as int),
    {
        self.scores[from as usize * SQUARES + to as usize]
    }

    /// Adds `amount` to the score of (`from`, `to`), stopping at `usize::MAX`.
    pub fn bump(&mut self, from: u8, to: u8, amount: usize)
        requires
            old(self).wf(),
        ensures
            final(self).wf(),
            final(self)@ == old(self).spec_bump(from as int, to as int, amount as int),
    {
        let i = from as usize * SQUARES + to as usize;
        let v = self.scores[i].saturating_add(amount);
        self.scores.set(i, v);
    }
}

} // verus!
